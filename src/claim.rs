use crate::digest::{
    hash_bytes, hash_words, tagged_list_cons, tagged_list_cons_words, tagged_struct,
    tagged_struct_words, zero_words, Digest,
};
use vstd::prelude::*;
use vstd::string::StringSliceAdditionalSpecFns;

verus! {

/// Tag of the digest of an `Output`.
pub const OUTPUT_TAG: &'static str = "risc0.Output";

/// Tag of the digest of a `ReceiptClaim`.
pub const CLAIM_TAG: &'static str = "risc0.ReceiptClaim";

/// Tag of each cell of the assumptions list.
pub const ASSUMPTIONS_TAG: &'static str = "risc0.Assumptions";

/// The digest of an output with the given journal and assumptions digests.
pub open spec fn output_words(journal: Seq<u32>, assumptions: Seq<u32>) -> Seq<u32> {
    tagged_struct_words(OUTPUT_TAG.spec_bytes(), seq![journal, assumptions], Seq::empty())
}

/// The digest of a claim, from the digests of its parts and its exit-code pair.
pub open spec fn claim_words(
    input: Seq<u32>,
    pre: Seq<u32>,
    post: Seq<u32>,
    output: Seq<u32>,
    sys_exit: u32,
    user_exit: u32,
) -> Seq<u32> {
    tagged_struct_words(CLAIM_TAG.spec_bytes(), seq![input, pre, post, output], seq![sys_exit, user_exit])
}

/// The running assumptions digest after `head` is added to a list whose digest is `tail`.
pub open spec fn assumptions_cons(head: Seq<u32>, tail: Seq<u32>) -> Seq<u32> {
    tagged_list_cons_words(ASSUMPTIONS_TAG.spec_bytes(), head, tail)
}

/// The digest of a list of claim digests, given in the order they were added.
pub open spec fn assumptions_words(list: Seq<Seq<u32>>) -> Seq<u32>
    decreases list.len(),
{
    if list.len() == 0 {
        zero_words()
    } else {
        assumptions_cons(list.last(), assumptions_words(list.drop_last()))
    }
}

/// A value that has a digest.
pub trait Digestible {
    spec fn spec_digest(&self) -> Seq<u32>;

    fn digest(&self) -> (r: Digest)
        ensures
            r@ == self.spec_digest(),
    ;
}

impl Digestible for Digest {
    open spec fn spec_digest(&self) -> Seq<u32> {
        self@
    }

    fn digest(&self) -> (r: Digest) {
        *self
    }
}

impl Digestible for Vec<u8> {
    open spec fn spec_digest(&self) -> Seq<u32> {
        hash_words(self@)
    }

    fn digest(&self) -> (r: Digest) {
        hash_bytes(self.as_slice())
    }
}

/// The error of an exit-code pair that encodes no exit code: (system code, user code).
#[derive(Clone, Copy, Debug, PartialEq, Eq, Structural)]
pub struct InvalidExitCodeError(pub u32, pub u32);

/// The error of an access to the value of a pruned `MaybePruned`; holds its digest.
#[derive(Clone, Copy, Debug, PartialEq, Eq)]
pub struct PrunedValueError(pub Digest);

/// The outcome of an execution segment.
#[derive(Clone, Copy, Debug, PartialEq, Eq, Structural)]
pub enum ExitCode {
    /// The program ended, with the given user exit code.
    Halted(u32),
    /// The program paused and may be resumed, with the given user exit code.
    Paused(u32),
    /// The execution was split by the system; it carries no output.
    SystemSplit,
}

impl ExitCode {
    /// The (system code, user code) pair that encodes this exit code.
    pub open spec fn spec_pair(self) -> (u32, u32) {
        match self {
            ExitCode::Halted(u) => (0u32, u),
            ExitCode::Paused(u) => (1u32, u),
            ExitCode::SystemSplit => (2u32, 0u32),
        }
    }

    /// The exit code that a (system code, user code) pair encodes, if any.
    pub open spec fn spec_from_pair(sys_exit: u32, user_exit: u32) -> Option<ExitCode> {
        if sys_exit == 0 {
            Some(ExitCode::Halted(user_exit))
        } else if sys_exit == 1 {
            Some(ExitCode::Paused(user_exit))
        } else if sys_exit == 2 && user_exit == 0 {
            Some(ExitCode::SystemSplit)
        } else {
            None
        }
    }

    pub fn into_pair(&self) -> (r: (u32, u32))
        ensures
            r == self.spec_pair(),
    {
        match self {
            ExitCode::Halted(u) => (0, *u),
            ExitCode::Paused(u) => (1, *u),
            ExitCode::SystemSplit => (2, 0),
        }
    }

    pub fn from_pair(sys_exit: u32, user_exit: u32) -> (r: Result<ExitCode, InvalidExitCodeError>)
        ensures
            match ExitCode::spec_from_pair(sys_exit, user_exit) {
                Some(c) => r == Ok::<ExitCode, InvalidExitCodeError>(c),
                None => r == Err::<ExitCode, InvalidExitCodeError>(
                    InvalidExitCodeError(sys_exit, user_exit),
                ),
            },
    {
        if sys_exit == 0 {
            Ok(ExitCode::Halted(user_exit))
        } else if sys_exit == 1 {
            Ok(ExitCode::Paused(user_exit))
        } else if sys_exit == 2 && user_exit == 0 {
            Ok(ExitCode::SystemSplit)
        } else {
            Err(InvalidExitCodeError(sys_exit, user_exit))
        }
    }

    /// Whether this is a successful end of execution: halted or paused with user code zero.
    pub open spec fn spec_is_ok(self) -> bool {
        self == ExitCode::Halted(0) || self == ExitCode::Paused(0)
    }

    pub fn is_ok(&self) -> (r: bool)
        ensures
            r == self.spec_is_ok(),
    {
        match self {
            ExitCode::Halted(u) => *u == 0,
            ExitCode::Paused(u) => *u == 0,
            ExitCode::SystemSplit => false,
        }
    }
}

/// Decoding a pair and encoding the result gives the pair back, and the other way round.
pub proof fn lemma_exit_code_pair_round_trip(code: ExitCode, sys_exit: u32, user_exit: u32)
    ensures
        ExitCode::spec_from_pair(code.spec_pair().0, code.spec_pair().1) == Some(code),
        ExitCode::spec_from_pair(sys_exit, user_exit) matches Some(c) ==> c.spec_pair() == (
        sys_exit,
        user_exit,
        ),
{
}

/// A value held in full, or replaced by its digest.
#[derive(Clone, Debug)]
pub enum MaybePruned<T> {
    Value(T),
    Pruned(Digest),
}

impl<T: Digestible> MaybePruned<T> {
    /// The digest is the same whether or not the value is pruned.
    pub open spec fn spec_digest(&self) -> Seq<u32> {
        match self {
            MaybePruned::Value(v) => v.spec_digest(),
            MaybePruned::Pruned(d) => d@,
        }
    }

    pub fn digest(&self) -> (r: Digest)
        ensures
            r@ == self.spec_digest(),
    {
        match self {
            MaybePruned::Value(v) => v.digest(),
            MaybePruned::Pruned(d) => *d,
        }
    }

    /// The value, or the digest that stands in its place as an error.
    pub fn as_value(&self) -> (r: Result<&T, PrunedValueError>)
        ensures
            match self {
                MaybePruned::Value(v) => r matches Ok(x) && x == v,
                MaybePruned::Pruned(d) => r matches Err(e) && e.0 == d,
            },
    {
        match self {
            MaybePruned::Value(v) => Ok(v),
            MaybePruned::Pruned(d) => Err(PrunedValueError(*d)),
        }
    }
}

/// An ordered list of claim digests, in the order they were added.
#[derive(Clone, Debug)]
pub struct Assumptions(pub Vec<Digest>);

impl Assumptions {
    pub open spec fn digest_views(&self) -> Seq<Seq<u32>> {
        self.0@.map_values(|d: Digest| d@)
    }

    /// Appends a claim digest.
    pub fn add(&mut self, claim_digest: Digest)
        ensures
            final(self).0@ == old(self).0@.push(claim_digest),
    {
        self.0.push(claim_digest);
    }
}

impl Digestible for Assumptions {
    open spec fn spec_digest(&self) -> Seq<u32> {
        assumptions_words(self.digest_views())
    }

    fn digest(&self) -> (r: Digest) {
        let ghost views = self.digest_views();
        let mut acc = Digest::zero();
        let mut i: usize = 0;
        while i < self.0.len()
            invariant
                i <= self.0@.len(),
                views == self.digest_views(),
                acc@ == assumptions_words(views.take(i as int)),
            decreases self.0@.len() - i,
        {
            acc = tagged_list_cons(ASSUMPTIONS_TAG, &self.0[i], &acc);
            assert(views.take(i + 1).drop_last() =~= views.take(i as int));
            i = i + 1;
        }
        assert(views.take(self.0@.len() as int) =~= views);
        acc
    }
}

impl MaybePruned<Assumptions> {
    /// Whether the assumptions list is empty: no item, or a pruned zero digest.
    pub open spec fn spec_is_empty(&self) -> bool {
        match self {
            MaybePruned::Value(list) => list.0@.len() == 0,
            MaybePruned::Pruned(d) => d@ == zero_words(),
        }
    }

    pub fn is_empty(&self) -> (r: bool)
        ensures
            r == self.spec_is_empty(),
    {
        match self {
            MaybePruned::Value(list) => list.0.len() == 0,
            MaybePruned::Pruned(d) => d.is_zero(),
        }
    }
}

/// What an execution segment commits to beyond its state transition.
#[derive(Clone, Debug)]
pub struct Output {
    pub journal: MaybePruned<Vec<u8>>,
    pub assumptions: MaybePruned<Assumptions>,
}

impl Digestible for Output {
    open spec fn spec_digest(&self) -> Seq<u32> {
        output_words(self.journal.spec_digest(), self.assumptions.spec_digest())
    }

    fn digest(&self) -> (r: Digest) {
        let down = [self.journal.digest(), self.assumptions.digest()];
        let data: [u32; 0] = [];
        let r = tagged_struct(OUTPUT_TAG, &down, &data);
        assert(down@.map_values(|d: Digest| d@) =~= seq![
            self.journal.spec_digest(),
            self.assumptions.spec_digest(),
        ]);
        assert(data@ =~= Seq::<u32>::empty());
        r
    }
}

impl Digestible for Option<Output> {
    open spec fn spec_digest(&self) -> Seq<u32> {
        match self {
            Some(o) => o.spec_digest(),
            None => zero_words(),
        }
    }

    fn digest(&self) -> (r: Digest) {
        match self {
            Some(o) => o.digest(),
            None => Digest::zero(),
        }
    }
}

impl MaybePruned<Option<Output>> {
    /// Whether the output is absent: no value, or a pruned zero digest.
    pub open spec fn spec_is_none(&self) -> bool {
        match self {
            MaybePruned::Value(o) => o.is_none(),
            MaybePruned::Pruned(d) => d@ == zero_words(),
        }
    }

    pub fn is_none(&self) -> (r: bool)
        ensures
            r == self.spec_is_none(),
    {
        match self {
            MaybePruned::Value(o) => o.is_none(),
            MaybePruned::Pruned(d) => d.is_zero(),
        }
    }
}

/// The statement that a receipt attests to.
#[derive(Clone, Debug)]
pub struct ReceiptClaim {
    pub pre: MaybePruned<Digest>,
    pub post: MaybePruned<Digest>,
    pub exit_code: ExitCode,
    pub input: Digest,
    pub output: MaybePruned<Option<Output>>,
}

impl Digestible for ReceiptClaim {
    open spec fn spec_digest(&self) -> Seq<u32> {
        claim_words(
            self.input@,
            self.pre.spec_digest(),
            self.post.spec_digest(),
            self.output.spec_digest(),
            self.exit_code.spec_pair().0,
            self.exit_code.spec_pair().1,
        )
    }

    fn digest(&self) -> (r: Digest) {
        let (sys_exit, user_exit) = self.exit_code.into_pair();
        let down = [self.input, self.pre.digest(), self.post.digest(), self.output.digest()];
        let data = [sys_exit, user_exit];
        let r = tagged_struct(CLAIM_TAG, &down, &data);
        assert(down@.map_values(|d: Digest| d@) =~= seq![
            self.input@,
            self.pre.spec_digest(),
            self.post.spec_digest(),
            self.output.spec_digest(),
        ]);
        assert(data@ =~= seq![sys_exit, user_exit]);
        r
    }
}

} // verus!
