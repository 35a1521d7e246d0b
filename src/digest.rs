use vstd::bytes::{
    lemma_auto_spec_u32_to_from_le_bytes, spec_u16_to_le_bytes, spec_u32_from_le_bytes,
    spec_u32_to_le_bytes, u16_to_le_bytes, u32_from_le_bytes, u32_to_le_bytes,
};
use vstd::prelude::*;
use vstd::slice::slice_subrange;
use vstd::string::StringSliceAdditionalSpecFns;

verus! {

/// Number of 32-bit words in a digest.
pub const DIGEST_WORDS: usize = 8;

/// Number of bytes in a digest.
pub const DIGEST_BYTES: usize = 32;

/// SHA-256 of a byte string, as computed by the `sha2` crate.
pub uninterp spec fn sha256_of(data: Seq<u8>) -> Seq<u8>;

/// Relies on `sha2::Sha256::digest`: the SHA-256 hash of `data`, which is 32 bytes long.
#[verifier::external_body]
fn sha256(data: &[u8]) -> (r: Vec<u8>)
    ensures
        r@ == sha256_of(data@),
        r@.len() == DIGEST_BYTES,
{
    <sha2::Sha256 as sha2::Digest>::digest(data).to_vec()
}

/// The little-endian byte encoding of a sequence of words.
pub open spec fn bytes_of_words(words: Seq<u32>) -> Seq<u8>
    decreases words.len(),
{
    if words.len() == 0 {
        Seq::empty()
    } else {
        bytes_of_words(words.drop_last()) + spec_u32_to_le_bytes(words.last())
    }
}

/// The words read little-endian from a byte string whose length is a multiple of four.
pub open spec fn words_of_bytes(bytes: Seq<u8>) -> Seq<u32> {
    Seq::new(
        (bytes.len() / 4) as nat,
        |i: int| spec_u32_from_le_bytes(bytes.subrange(4 * i, 4 * i + 4)),
    )
}

/// The all-zero digest, as a sequence of words.
pub open spec fn zero_words() -> Seq<u32> {
    Seq::new(DIGEST_WORDS as nat, |i: int| 0u32)
}

/// The digest that the hash of `data` is read as.
pub open spec fn hash_words(data: Seq<u8>) -> Seq<u32> {
    words_of_bytes(sha256_of(data))
}

pub proof fn lemma_bytes_of_words_len(words: Seq<u32>)
    ensures
        bytes_of_words(words).len() == 4 * words.len(),
    decreases words.len(),
{
    lemma_auto_spec_u32_to_from_le_bytes();
    if words.len() > 0 {
        lemma_bytes_of_words_len(words.drop_last());
    }
}

/// Each word of a sequence sits at its own four bytes of the encoding.
pub proof fn lemma_bytes_of_words_index(words: Seq<u32>, i: int)
    requires
        0 <= i < words.len(),
    ensures
        bytes_of_words(words).subrange(4 * i, 4 * i + 4) == spec_u32_to_le_bytes(words[i]),
    decreases words.len(),
{
    lemma_auto_spec_u32_to_from_le_bytes();
    lemma_bytes_of_words_len(words);
    lemma_bytes_of_words_len(words.drop_last());
    let front = bytes_of_words(words.drop_last());
    let last = spec_u32_to_le_bytes(words.last());
    if i == words.len() - 1 {
        assert(bytes_of_words(words).subrange(4 * i, 4 * i + 4) =~= last);
    } else {
        lemma_bytes_of_words_index(words.drop_last(), i);
        assert(bytes_of_words(words).subrange(4 * i, 4 * i + 4) =~= front.subrange(
            4 * i,
            4 * i + 4,
        ));
    }
}

/// Reading the encoding of a word sequence back gives the words.
pub proof fn lemma_words_of_bytes_of_words(words: Seq<u32>)
    ensures
        words_of_bytes(bytes_of_words(words)) == words,
{
    lemma_auto_spec_u32_to_from_le_bytes();
    lemma_bytes_of_words_len(words);
    let b = bytes_of_words(words);
    assert(b.len() / 4 == words.len());
    assert forall|i: int| 0 <= i < words.len() implies #[trigger] words_of_bytes(b)[i]
        == words[i] by {
        lemma_bytes_of_words_index(words, i);
        assert(spec_u32_to_le_bytes(words[i]).len() == 4);
        assert(words_of_bytes(b)[i] == spec_u32_from_le_bytes(b.subrange(4 * i, 4 * i + 4)));
    }
    assert(words_of_bytes(bytes_of_words(words)) =~= words);
}

/// A fixed-size (8-word, 32-byte) cryptographic hash value.
#[derive(Clone, Copy, Debug, Eq)]
pub struct Digest {
    words: [u32; 8],
}

impl PartialEq for Digest {
    fn eq(&self, other: &Digest) -> (r: bool) {
        let mut i: usize = 0;
        while i < DIGEST_WORDS
            invariant
                i <= DIGEST_WORDS,
                self@.len() == DIGEST_WORDS,
                other@.len() == DIGEST_WORDS,
                forall|j: int| 0 <= j < i ==> self@[j] == other@[j],
            decreases DIGEST_WORDS - i,
        {
            if self.words[i] != other.words[i] {
                return false;
            }
            i = i + 1;
        }
        assert(self@ =~= other@);
        true
    }
}

impl vstd::std_specs::cmp::PartialEqSpecImpl for Digest {
    open spec fn obeys_eq_spec() -> bool {
        true
    }

    open spec fn eq_spec(&self, other: &Digest) -> bool {
        self@ == other@
    }
}

impl View for Digest {
    type V = Seq<u32>;

    closed spec fn view(&self) -> Seq<u32> {
        self.words@
    }
}

/// Reads the `i`-th little-endian word of a 32-byte string.
fn word_at(bytes: &[u8], i: usize) -> (r: u32)
    requires
        bytes@.len() == DIGEST_BYTES,
        i < DIGEST_WORDS,
    ensures
        r == spec_u32_from_le_bytes(bytes@.subrange(4 * i, 4 * i + 4)),
{
    u32_from_le_bytes(slice_subrange(bytes, 4 * i, 4 * i + 4))
}

impl Digest {
    /// Builds a digest from its eight words.
    pub fn new(words: [u32; 8]) -> (r: Digest)
        ensures
            r@ == words@,
    {
        Digest { words }
    }

    /// The all-zero digest, which stands for "empty" or "unset".
    pub fn zero() -> (r: Digest)
        ensures
            r@ == zero_words(),
    {
        let r = Digest { words: [0u32, 0, 0, 0, 0, 0, 0, 0] };
        assert(r@ =~= zero_words());
        r
    }

    /// The eight words of the digest.
    pub fn as_words(&self) -> (r: [u32; 8])
        ensures
            r@ == self@,
    {
        self.words
    }

    /// Whether every word of the digest is zero.
    pub fn is_zero(&self) -> (r: bool)
        ensures
            r == (self@ == zero_words()),
    {
        let mut i: usize = 0;
        while i < DIGEST_WORDS
            invariant
                i <= DIGEST_WORDS,
                self@.len() == DIGEST_WORDS,
                forall|j: int| 0 <= j < i ==> self@[j] == 0u32,
            decreases DIGEST_WORDS - i,
        {
            if self.words[i] != 0 {
                assert(self@[i as int] != zero_words()[i as int]);
                return false;
            }
            i = i + 1;
        }
        assert(self@ =~= zero_words());
        true
    }

    /// Reads a digest from 32 bytes, word by word in little-endian order.
    pub fn from_bytes(bytes: &[u8]) -> (r: Digest)
        requires
            bytes@.len() == DIGEST_BYTES,
        ensures
            r@ == words_of_bytes(bytes@),
    {
        let r = Digest {
            words: [
                word_at(bytes, 0),
                word_at(bytes, 1),
                word_at(bytes, 2),
                word_at(bytes, 3),
                word_at(bytes, 4),
                word_at(bytes, 5),
                word_at(bytes, 6),
                word_at(bytes, 7),
            ],
        };
        assert(r@ =~= words_of_bytes(bytes@));
        r
    }

    /// The 32 bytes of the digest, each word in little-endian order.
    pub fn to_bytes(&self) -> (r: Vec<u8>)
        ensures
            r@ == bytes_of_words(self@),
    {
        let mut out: Vec<u8> = Vec::new();
        let mut i: usize = 0;
        while i < DIGEST_WORDS
            invariant
                i <= DIGEST_WORDS,
                self@.len() == DIGEST_WORDS,
                out@ == bytes_of_words(self@.take(i as int)),
            decreases DIGEST_WORDS - i,
        {
            let mut le = u32_to_le_bytes(self.words[i]);
            out.append(&mut le);
            assert(self@.take(i + 1).drop_last() =~= self@.take(i as int));
            i = i + 1;
        }
        assert(self@.take(DIGEST_WORDS as int) =~= self@);
        out
    }
}

/// Appends the little-endian encoding of `words` to `out`.
pub fn push_words(out: &mut Vec<u8>, words: &[u32])
    ensures
        final(out)@ == old(out)@ + bytes_of_words(words@),
{
    let ghost start = out@;
    let mut i: usize = 0;
    while i < words.len()
        invariant
            i <= words@.len(),
            out@ == start + bytes_of_words(words@.take(i as int)),
        decreases words@.len() - i,
    {
        let mut le = u32_to_le_bytes(words[i]);
        out.append(&mut le);
        assert(words@.take(i + 1).drop_last() =~= words@.take(i as int));
        i = i + 1;
    }
    assert(words@.take(words@.len() as int) =~= words@);
}

/// The SHA-256 hash of `data`, read as a digest.
pub fn hash_bytes(data: &[u8]) -> (r: Digest)
    ensures
        r@ == hash_words(data@),
{
    let h = sha256(data);
    Digest::from_bytes(h.as_slice())
}

/// The bytes of a sequence of digests, one after the other.
pub open spec fn bytes_of_digests(down: Seq<Seq<u32>>) -> Seq<u8>
    decreases down.len(),
{
    if down.len() == 0 {
        Seq::empty()
    } else {
        bytes_of_digests(down.drop_last()) + bytes_of_words(down.last())
    }
}

/// What a tagged struct hashes: the hash of the tag, the digests of the fields that
/// are themselves digested, the plain data words, and the number of digests.
pub open spec fn tagged_struct_preimage(tag: Seq<u8>, down: Seq<Seq<u32>>, data: Seq<u32>) -> Seq<
    u8,
> {
    sha256_of(tag) + bytes_of_digests(down) + bytes_of_words(data) + spec_u16_to_le_bytes(
        down.len() as u16,
    )
}

/// The digest of a tagged struct.
pub open spec fn tagged_struct_words(tag: Seq<u8>, down: Seq<Seq<u32>>, data: Seq<u32>) -> Seq<
    u32,
> {
    hash_words(tagged_struct_preimage(tag, down, data))
}

/// The digest of a list cell: a tagged struct holding the head and the digest of the tail.
pub open spec fn tagged_list_cons_words(tag: Seq<u8>, head: Seq<u32>, tail: Seq<u32>) -> Seq<u32> {
    tagged_struct_words(tag, seq![head, tail], Seq::empty())
}

/// Hashes a tagged struct: the tag's hash, then each digest of `down`, then each word of
/// `data` in little-endian order, then the count of `down` as a little-endian `u16`.
pub fn tagged_struct(tag: &str, down: &[Digest], data: &[u32]) -> (r: Digest)
    requires
        down@.len() < 0x10000,
    ensures
        r@ == tagged_struct_words(tag.spec_bytes(), down@.map_values(|d: Digest| d@), data@),
{
    let ghost views = down@.map_values(|d: Digest| d@);
    let tag_hash = sha256(tag.as_bytes());
    let mut all: Vec<u8> = Vec::new();
    all.extend_from_slice(tag_hash.as_slice());
    let mut i: usize = 0;
    while i < down.len()
        invariant
            i <= down@.len(),
            views == down@.map_values(|d: Digest| d@),
            all@ == sha256_of(tag.spec_bytes()) + bytes_of_digests(views.take(i as int)),
        decreases down@.len() - i,
    {
        let mut b = down[i].to_bytes();
        all.append(&mut b);
        assert(views.take(i + 1).drop_last() =~= views.take(i as int));
        i = i + 1;
    }
    assert(views.take(down@.len() as int) =~= views);
    push_words(&mut all, data);
    let mut count = u16_to_le_bytes(down.len() as u16);
    all.append(&mut count);
    hash_bytes(all.as_slice())
}

/// Hashes a list cell whose head is `head` and whose tail has digest `tail`.
pub fn tagged_list_cons(tag: &str, head: &Digest, tail: &Digest) -> (r: Digest)
    ensures
        r@ == tagged_list_cons_words(tag.spec_bytes(), head@, tail@),
{
    let down = [*head, *tail];
    let data: [u32; 0] = [];
    let r = tagged_struct(tag, &down, &data);
    assert(down@.map_values(|d: Digest| d@) =~= seq![head@, tail@]);
    assert(data@ =~= Seq::<u32>::empty());
    r
}

} // verus!
