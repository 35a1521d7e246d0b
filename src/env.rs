//! The composition context of one execution segment: the journal accounting, the
//! running assumptions digest, and the end of the segment.
//!
//! The host calls themselves are made by the caller: `verify` takes the host's answer
//! as arguments, `verify_integrity` returns the claim digest to send, and `exit` and
//! `pause` return what the terminal call carries.
use crate::channel::{FdWriter, JOURNAL};
use crate::claim::{
    assumptions_cons, claim_words, output_words, Digestible, ExitCode, InvalidExitCodeError,
    MaybePruned, Output, PrunedValueError, ReceiptClaim, ASSUMPTIONS_TAG,
};
use crate::digest::{
    bytes_of_digests, bytes_of_words, hash_bytes, hash_words, lemma_bytes_of_words_len,
    lemma_words_of_bytes_of_words, tagged_list_cons, tagged_struct_preimage, words_of_bytes,
    zero_words, Digest, DIGEST_WORDS,
};
use vstd::prelude::*;
use vstd::string::StringSliceAdditionalSpecFns;

verus! {

/// The error of `verify`.
#[derive(Clone, Copy, Debug, PartialEq, Eq, Structural)]
pub enum VerifyError {
    /// The host answered with an exit code other than `Halted(0)` or `Paused(0)`.
    BadExitCodeResponse(InvalidExitCodeError),
}

impl From<InvalidExitCodeError> for VerifyError {
    fn from(err: InvalidExitCodeError) -> (r: VerifyError) {
        VerifyError::BadExitCodeResponse(err)
    }
}

impl vstd::std_specs::convert::FromSpecImpl<InvalidExitCodeError> for VerifyError {
    open spec fn obeys_from_spec() -> bool {
        true
    }

    open spec fn from_spec(err: InvalidExitCodeError) -> VerifyError {
        VerifyError::BadExitCodeResponse(err)
    }
}

/// The error of `verify_integrity`.
#[derive(Clone, Copy, Debug, PartialEq, Eq)]
pub enum VerifyIntegrityError {
    /// The claim has assumptions of its own, so it is conditional.
    NonEmptyAssumptionsList,
    /// The claim's output is pruned to a non-zero digest, so its assumptions cannot be seen.
    PrunedValueError(PrunedValueError),
}

impl From<PrunedValueError> for VerifyIntegrityError {
    fn from(err: PrunedValueError) -> (r: VerifyIntegrityError) {
        VerifyIntegrityError::PrunedValueError(err)
    }
}

impl vstd::std_specs::convert::FromSpecImpl<PrunedValueError> for VerifyIntegrityError {
    open spec fn obeys_from_spec() -> bool {
        true
    }

    open spec fn from_spec(err: PrunedValueError) -> VerifyIntegrityError {
        VerifyIntegrityError::PrunedValueError(err)
    }
}

/// The exit code that `verify` accepts from a (system code, user code) pair: only
/// `Halted(0)` and `Paused(0)`.
pub open spec fn spec_accept_exit_code(sys_exit: u32, user_exit: u32) -> Option<ExitCode> {
    match ExitCode::spec_from_pair(sys_exit, user_exit) {
        Some(c) => if c.spec_is_ok() {
            Some(c)
        } else {
            None
        },
        None => None,
    }
}

/// Decodes the exit code that the host reported for a verified receipt, and rejects
/// every outcome but `Halted(0)` and `Paused(0)`.
pub fn accept_exit_code(sys_exit: u32, user_exit: u32) -> (r: Result<ExitCode, VerifyError>)
    ensures
        match spec_accept_exit_code(sys_exit, user_exit) {
            Some(c) => r == Ok::<ExitCode, VerifyError>(c),
            None => r == Err::<ExitCode, VerifyError>(
                VerifyError::BadExitCodeResponse(InvalidExitCodeError(sys_exit, user_exit)),
            ),
        },
        r is Ok <==> (sys_exit == 0 || sys_exit == 1) && user_exit == 0,
{
    match ExitCode::from_pair(sys_exit, user_exit) {
        Ok(exit_code) => {
            if exit_code.is_ok() {
                Ok(exit_code)
            } else {
                Err(VerifyError::BadExitCodeResponse(InvalidExitCodeError(sys_exit, user_exit)))
            }
        },
        Err(err) => Err(VerifyError::from(err)),
    }
}

/// The digest of the claim that `verify` assumes: a receipt of image `image_id` whose
/// journal is `journal`, with no input and no assumptions of its own.
pub open spec fn verify_claim_words(
    image_id: Seq<u32>,
    journal: Seq<u8>,
    post_state: Seq<u32>,
    exit_code: ExitCode,
) -> Seq<u32> {
    claim_words(
        zero_words(),
        image_id,
        post_state,
        output_words(hash_words(journal), zero_words()),
        exit_code.spec_pair().0,
        exit_code.spec_pair().1,
    )
}

/// Why `verify_integrity` refuses a claim, if it does.
pub open spec fn spec_integrity_error(claim: ReceiptClaim) -> Option<VerifyIntegrityError> {
    if claim.output.spec_is_none() {
        None
    } else {
        match claim.output {
            MaybePruned::Pruned(d) => Some(
                VerifyIntegrityError::PrunedValueError(PrunedValueError(d)),
            ),
            MaybePruned::Value(Some(o)) => if o.assumptions.spec_is_empty() {
                None
            } else {
                Some(VerifyIntegrityError::NonEmptyAssumptionsList)
            },
            MaybePruned::Value(None) => None,
        }
    }
}

/// The state of a composition context, as a mathematical value.
pub ghost struct ContextView {
    /// Every byte written to the journal in this segment, in order.
    pub journal: Seq<u8>,
    /// The running assumptions digest.
    pub assumptions: Seq<u32>,
    /// The entropy seed of the memory image.
    pub entropy: Seq<u32>,
    /// The journal bytes written and not yet sent to the host.
    pub queued: Seq<u8>,
}

/// What the terminal host call of a segment carries.
#[derive(Clone, Copy, Debug)]
pub struct SegmentEnd {
    /// Halt (final) or pause (resumable).
    pub halt: bool,
    pub user_exit: u8,
    /// The digest of the segment's output.
    pub output_digest: Digest,
}

/// The state of one execution segment: the journal, the assumptions and the entropy seed.
pub struct CompositionContext {
    journal: FdWriter,
    journal_bytes: Vec<u8>,
    assumptions: Digest,
    entropy: [u32; 4],
}

impl View for CompositionContext {
    type V = ContextView;

    closed spec fn view(&self) -> ContextView {
        ContextView {
            journal: self.journal_bytes@,
            assumptions: self.assumptions@,
            entropy: self.entropy@,
            queued: self.journal.spec_queued(),
        }
    }
}

/// The journal after `commits` are written one after the other to a journal `start`.
pub open spec fn journal_after(start: Seq<u8>, commits: Seq<Seq<u8>>) -> Seq<u8>
    decreases commits.len(),
{
    if commits.len() == 0 {
        start
    } else {
        journal_after(start, commits.drop_last()) + commits.last()
    }
}

impl CompositionContext {
    pub closed spec fn wf(&self) -> bool {
        self.journal.spec_fd() == JOURNAL
    }

    /// Begins a segment: an empty journal, no assumptions, and the host's entropy.
    pub fn init(entropy: [u32; 4]) -> (r: CompositionContext)
        ensures
            r.wf(),
            r@.journal == Seq::<u8>::empty(),
            r@.assumptions == zero_words(),
            r@.entropy == entropy@,
            r@.queued == Seq::<u8>::empty(),
    {
        CompositionContext {
            journal: FdWriter::new(JOURNAL),
            journal_bytes: Vec::new(),
            assumptions: Digest::zero(),
            entropy,
        }
    }

    /// Replaces the entropy seed, as a resumed segment must.
    pub fn reseed(&mut self, entropy: [u32; 4])
        ensures
            final(self).wf() == old(self).wf(),
            final(self)@ == (ContextView { entropy: entropy@, ..old(self)@ }),
    {
        self.entropy = entropy;
    }

    /// Writes whole words to the journal, each in little-endian order.
    pub fn commit_words(&mut self, words: &[u32])
        ensures
            final(self).wf() == old(self).wf(),
            final(self)@ == (ContextView {
                journal: old(self)@.journal + bytes_of_words(words@),
                queued: old(self)@.queued + bytes_of_words(words@),
                ..old(self)@
            }),
    {
        let mut bytes: Vec<u8> = Vec::new();
        crate::digest::push_words(&mut bytes, words);
        assert(bytes@ =~= bytes_of_words(words@));
        commit_slice(self, bytes.as_slice());
    }

    /// Writes bytes and their zero padding to the journal; the padding is hashed too.
    pub fn commit_padded_bytes(&mut self, bytes: &[u8])
        ensures
            final(self).wf() == old(self).wf(),
            final(self)@ == (ContextView {
                journal: old(self)@.journal + crate::codec::padded(bytes@),
                queued: old(self)@.queued + crate::codec::padded(bytes@),
                ..old(self)@
            }),
    {
        let pad = crate::codec::padding_for(bytes.len());
        commit_slice(self, bytes);
        commit_slice(self, pad.as_slice());
        assert(old(self)@.journal + bytes@ + pad@ =~= old(self)@.journal + crate::codec::padded(
            bytes@,
        ));
        assert(old(self)@.queued + bytes@ + pad@ =~= old(self)@.queued + crate::codec::padded(
            bytes@,
        ));
    }

    /// Hands over the journal bytes that wait to be sent to the host.
    pub fn take_journal_output(&mut self) -> (r: Vec<u8>)
        ensures
            final(self).wf() == old(self).wf(),
            r@ == old(self)@.queued,
            final(self)@ == (ContextView { queued: Seq::<u8>::empty(), ..old(self)@ }),
    {
        self.journal.take_queued()
    }

    /// The hash of everything written to the journal in this segment.
    pub fn journal_digest(&self) -> (r: Digest)
        ensures
            r@ == hash_words(self@.journal),
    {
        hash_bytes(self.journal_bytes.as_slice())
    }

    /// The running assumptions digest.
    pub fn assumptions_digest(&self) -> (r: Digest)
        ensures
            r@ == self@.assumptions,
    {
        self.assumptions
    }

    fn add_assumption(&mut self, claim_digest: &Digest)
        ensures
            final(self).wf() == old(self).wf(),
            final(self)@ == (ContextView {
                assumptions: assumptions_cons(claim_digest@, old(self)@.assumptions),
                ..old(self)@
            }),
    {
        self.assumptions = tagged_list_cons(ASSUMPTIONS_TAG, claim_digest, &self.assumptions);
    }
}

/// Writes bytes to the journal: they are queued for the host and hashed.
pub fn commit_slice(ctx: &mut CompositionContext, bytes: &[u8])
    ensures
        final(ctx).wf() == old(ctx).wf(),
        final(ctx)@ == (ContextView {
            journal: old(ctx)@.journal + bytes@,
            queued: old(ctx)@.queued + bytes@,
            ..old(ctx)@
        }),
{
    ctx.journal.write_bytes(bytes);
    ctx.journal_bytes.extend_from_slice(bytes);
    assert(ctx.journal_bytes@ == old(ctx)@.journal + bytes@);
    assert(ctx.journal.spec_queued() == old(ctx)@.queued + bytes@);
    assert(ctx.entropy@ == old(ctx)@.entropy);
    assert(ctx.assumptions@ == old(ctx)@.assumptions);
}

/// Assumes the claim of a receipt of image `image_id` with journal `journal`, given
/// the host's answer to that request: the post-state digest and the system exit code.
/// The claim is added to the assumptions unless the exit code is refused.
pub fn verify(
    ctx: &mut CompositionContext,
    image_id: Digest,
    journal: &[u8],
    post_state_digest: Digest,
    sys_exit_code: u32,
) -> (r: Result<(), VerifyError>)
    ensures
        final(ctx).wf() == old(ctx).wf(),
        match spec_accept_exit_code(sys_exit_code, 0) {
            Some(c) => r is Ok && final(ctx)@ == (ContextView {
                assumptions: assumptions_cons(
                    verify_claim_words(image_id@, journal@, post_state_digest@, c),
                    old(ctx)@.assumptions,
                ),
                ..old(ctx)@
            }),
            None => r == Err::<(), VerifyError>(
                VerifyError::BadExitCodeResponse(InvalidExitCodeError(sys_exit_code, 0)),
            ) && final(ctx)@ == old(ctx)@,
        },
        r is Ok <==> sys_exit_code == 0 || sys_exit_code == 1,
{
    let journal_digest = hash_bytes(journal);
    let exit_code = match accept_exit_code(sys_exit_code, 0) {
        Ok(c) => c,
        Err(e) => {
            return Err(e);
        },
    };
    let claim = ReceiptClaim {
        pre: MaybePruned::Pruned(image_id),
        post: MaybePruned::Pruned(post_state_digest),
        exit_code,
        input: Digest::zero(),
        output: MaybePruned::Value(
            Some(
                Output {
                    journal: MaybePruned::Pruned(journal_digest),
                    assumptions: MaybePruned::Pruned(Digest::zero()),
                },
            ),
        ),
    };
    let claim_digest = claim.digest();
    ctx.add_assumption(&claim_digest);
    Ok(())
}

/// Checks that `claim` is unconditional and adds it to the assumptions. On success
/// it returns the claim digest, which the host must then be asked to vouch for.
pub fn verify_integrity(ctx: &mut CompositionContext, claim: &ReceiptClaim) -> (r: Result<
    Digest,
    VerifyIntegrityError,
>)
    ensures
        final(ctx).wf() == old(ctx).wf(),
        match spec_integrity_error(*claim) {
            Some(e) => r == Err::<Digest, VerifyIntegrityError>(e) && final(ctx)@ == old(ctx)@,
            None => r matches Ok(d) && d@ == claim.spec_digest() && final(ctx)@ == (
            ContextView {
                assumptions: assumptions_cons(claim.spec_digest(), old(ctx)@.assumptions),
                ..old(ctx)@
            }),
        },
{
    let assumptions_empty = if claim.output.is_none() {
        true
    } else {
        match claim.output.as_value() {
            Err(e) => {
                return Err(VerifyIntegrityError::from(e));
            },
            Ok(Some(output)) => output.assumptions.is_empty(),
            Ok(None) => true,
        }
    };
    if !assumptions_empty {
        return Err(VerifyIntegrityError::NonEmptyAssumptionsList);
    }
    let claim_digest = claim.digest();
    ctx.add_assumption(&claim_digest);
    Ok(claim_digest)
}

/// What the terminal host call of the segment carries: the digest of an output made
/// of the journal digest and the assumptions digest.
pub fn finalize(ctx: &CompositionContext, halt: bool, user_exit: u8) -> (r: SegmentEnd)
    ensures
        r.halt == halt,
        r.user_exit == user_exit,
        r.output_digest@ == output_words(hash_words(ctx@.journal), ctx@.assumptions),
{
    let output = Output {
        journal: MaybePruned::Pruned(ctx.journal_digest()),
        assumptions: MaybePruned::Pruned(ctx.assumptions),
    };
    SegmentEnd { halt, user_exit, output_digest: output.digest() }
}

/// Ends the program: the context is consumed, and the halt call carries the result.
pub fn exit(ctx: CompositionContext, exit_code: u8) -> (r: SegmentEnd)
    ensures
        r.halt,
        r.user_exit == exit_code,
        r.output_digest@ == output_words(hash_words(ctx@.journal), ctx@.assumptions),
{
    finalize(&ctx, true, exit_code)
}

/// Pauses the program: the pause call carries the result of the segment so far, and
/// the next segment starts with an empty journal and no assumptions. The caller
/// reseeds the entropy once the host resumes it.
pub fn pause(ctx: &mut CompositionContext, exit_code: u8) -> (r: SegmentEnd)
    ensures
        final(ctx).wf() == old(ctx).wf(),
        !r.halt,
        r.user_exit == exit_code,
        r.output_digest@ == output_words(
            hash_words(old(ctx)@.journal),
            old(ctx)@.assumptions,
        ),
        final(ctx)@ == (ContextView {
            journal: Seq::<u8>::empty(),
            assumptions: zero_words(),
            ..old(ctx)@
        }),
{
    let r = finalize(ctx, false, exit_code);
    ctx.journal_bytes = Vec::new();
    ctx.assumptions = Digest::zero();
    r
}

/// Writing the byte strings `commits` to the journal one after the other leaves in it
/// what was there followed by their concatenation, in order; the segment's output then
/// commits to the hash of exactly those bytes.
pub proof fn lemma_journal_accounting(start: Seq<u8>, commits: Seq<Seq<u8>>)
    ensures
        journal_after(start, commits) == start + commits.flatten(),
        journal_after(Seq::empty(), commits) == commits.flatten(),
    decreases commits.len(),
{
    if commits.len() == 0 {
        assert(start + commits.flatten() =~= start);
        assert(commits.flatten() =~= Seq::<u8>::empty());
    } else {
        lemma_journal_accounting(start, commits.drop_last());
        commits.drop_last().lemma_flatten_push(commits.last());
        assert(commits.drop_last().push(commits.last()) =~= commits);
        assert(start + commits.drop_last().flatten() + commits.last() =~= start
            + commits.flatten());
        assert(Seq::<u8>::empty() + commits.drop_last().flatten() + commits.last()
            =~= commits.flatten());
    }
}

/// Adding two different claim digests to the assumptions in the two orders hashes two
/// different byte strings: the second digest added is the first field of the outer cell.
/// That the hashes themselves differ rests on the hash being collision resistant.
pub proof fn lemma_assumption_order_matters(a: Seq<u32>, b: Seq<u32>, start: Seq<u32>)
    requires
        a.len() == DIGEST_WORDS,
        b.len() == DIGEST_WORDS,
        a != b,
    ensures
        tagged_struct_preimage(
            ASSUMPTIONS_TAG.spec_bytes(),
            seq![b, assumptions_cons(a, start)],
            Seq::empty(),
        ) != tagged_struct_preimage(
            ASSUMPTIONS_TAG.spec_bytes(),
            seq![a, assumptions_cons(b, start)],
            Seq::empty(),
        ),
{
    let tag = crate::digest::sha256_of(ASSUMPTIONS_TAG.spec_bytes());
    let ab = assumptions_cons(a, start);
    let ba = assumptions_cons(b, start);
    let p1 = tagged_struct_preimage(ASSUMPTIONS_TAG.spec_bytes(), seq![b, ab], Seq::empty());
    let p2 = tagged_struct_preimage(ASSUMPTIONS_TAG.spec_bytes(), seq![a, ba], Seq::empty());
    lemma_bytes_of_words_len(a);
    lemma_bytes_of_words_len(b);
    let s1 = seq![b, ab];
    let s2 = seq![a, ba];
    assert(s1.drop_last().drop_last() =~= Seq::<Seq<u32>>::empty());
    assert(s2.drop_last().drop_last() =~= Seq::<Seq<u32>>::empty());
    assert(s1.drop_last().last() == b);
    assert(s2.drop_last().last() == a);
    assert(bytes_of_digests(s1.drop_last().drop_last()) == Seq::<u8>::empty());
    assert(bytes_of_digests(s2.drop_last().drop_last()) == Seq::<u8>::empty());
    assert(bytes_of_digests(s1.drop_last()) =~= bytes_of_words(b));
    assert(bytes_of_digests(s2.drop_last()) =~= bytes_of_words(a));
    let t = tag.len() as int;
    assert(p1.subrange(t, t + 32) =~= bytes_of_words(b));
    assert(p2.subrange(t, t + 32) =~= bytes_of_words(a));
    if p1 == p2 {
        lemma_words_of_bytes_of_words(a);
        lemma_words_of_bytes_of_words(b);
        assert(words_of_bytes(bytes_of_words(a)) == words_of_bytes(bytes_of_words(b)));
    }
}

} // verus!
