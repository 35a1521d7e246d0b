use vstd::prelude::*;

verus! {

/// Size of a machine word in bytes; the host channels move whole words.
pub const WORD_SIZE: usize = 4;

/// The number of zero bytes that bring `len` bytes up to a word boundary.
pub open spec fn pad_len(len: nat) -> nat {
    if len % 4 == 0 {
        0
    } else {
        (4 - len % 4) as nat
    }
}

/// `len` rounded up to the next word boundary.
pub open spec fn padded_len(len: nat) -> nat {
    len + pad_len(len)
}

/// A run of `n` zero bytes.
pub open spec fn zeros(n: nat) -> Seq<u8> {
    Seq::new(n, |i: int| 0u8)
}

/// The bytes followed by the zero padding that aligns them to a word boundary.
pub open spec fn padded(bytes: Seq<u8>) -> Seq<u8> {
    bytes + zeros(pad_len(bytes.len()))
}

/// The number of padding bytes after `len` bytes.
pub fn padding_len(len: usize) -> (r: usize)
    ensures
        r == pad_len(len as nat),
        r < WORD_SIZE,
{
    let unaligned = len % WORD_SIZE;
    if unaligned == 0 {
        0
    } else {
        WORD_SIZE - unaligned
    }
}

/// `len` rounded up to the next word boundary.
pub fn align_up_word(len: usize) -> (r: usize)
    requires
        len + WORD_SIZE <= usize::MAX,
    ensures
        r == padded_len(len as nat),
{
    len + padding_len(len)
}

/// The padding that follows `len` bytes: between zero and three zero bytes.
pub fn padding_for(len: usize) -> (r: Vec<u8>)
    ensures
        r@ == zeros(pad_len(len as nat)),
{
    let n = padding_len(len);
    let mut r: Vec<u8> = Vec::new();
    let mut i: usize = 0;
    while i < n
        invariant
            i <= n,
            n == pad_len(len as nat),
            r@ == zeros(i as nat),
        decreases n - i,
    {
        r.push(0u8);
        assert(r@ =~= zeros((i + 1) as nat));
        i = i + 1;
    }
    r
}

/// Padding a byte string and reading it back with a padded read, whatever follows it on
/// the channel, gives the bytes back; the read and the write both move the channel
/// position to the next word boundary after the bytes.
pub proof fn lemma_padding_round_trip(bytes: Seq<u8>, rest: Seq<u8>)
    ensures
        padded(bytes).len() == padded_len(bytes.len()),
        padded(bytes).len() % 4 == 0,
        bytes.len() <= padded(bytes).len() < bytes.len() + 4,
        (padded(bytes) + rest).take(padded_len(bytes.len()) as int).len() == padded_len(
            bytes.len(),
        ),
        (padded(bytes) + rest).take(padded_len(bytes.len()) as int).take(bytes.len() as int)
            == bytes,
{
    let n = padded_len(bytes.len());
    let stream = padded(bytes) + rest;
    assert(stream.take(n as int).take(bytes.len() as int) =~= bytes);
}

} // verus!
