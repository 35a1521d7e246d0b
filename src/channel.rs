//! Host channels bound to file descriptors.
//!
//! The host answers reads and takes writes through system calls that the library does
//! not make itself: a writer queues the bytes that are to be sent, and a read is a
//! value that takes the host's answers one at a time and says what to ask for next.
use crate::codec::{align_up_word, pad_len, padded, padding_for, WORD_SIZE};
use crate::digest::{bytes_of_words, push_words};
use vstd::prelude::*;

verus! {

/// Standard input: read-only, private.
pub const STDIN: u32 = 0;

/// Standard output: write-only, private, left out of the receipt.
pub const STDOUT: u32 = 1;

/// Standard error: write-only, private, left out of the receipt.
pub const STDERR: u32 = 2;

/// The journal: write-only, hashed, part of the public receipt.
pub const JOURNAL: u32 = 3;

/// The error of a read that reached the end of the channel before it was complete.
#[derive(Clone, Copy, Debug, PartialEq, Eq, Structural)]
pub enum CodecError {
    DeserializeUnexpectedEnd,
}

/// Reads from a host channel.
#[derive(Clone, Copy, Debug)]
pub struct FdReader {
    fd: u32,
}

/// A read in progress: it asks the host again after a short answer, until the request
/// is met or the host has no more bytes.
#[derive(Clone, Debug)]
pub struct ReadAll {
    fd: u32,
    len: usize,
    want: usize,
    got: Vec<u8>,
    ended: bool,
}

impl FdReader {
    pub closed spec fn spec_fd(&self) -> u32 {
        self.fd
    }

    /// A reader on channel `fd`. Reserved channel numbers are accepted; mixing
    /// them with the standard channels is discouraged.
    pub fn new(fd: u32) -> (r: FdReader)
        ensures
            r.spec_fd() == fd,
    {
        FdReader { fd }
    }

    pub fn fd(&self) -> (r: u32)
        ensures
            r == self.spec_fd(),
    {
        self.fd
    }

    /// Starts a read of exactly `len` bytes.
    pub fn read_bytes_all(&self, len: usize) -> (r: ReadAll)
        ensures
            r.wf(),
            r.spec_fd() == self.spec_fd(),
            r.spec_len() == len,
            r.spec_want() == len,
            r.spec_got() == Seq::<u8>::empty(),
            !r.spec_ended(),
    {
        ReadAll { fd: self.fd, len, want: len, got: Vec::new(), ended: false }
    }

    /// Starts a read of `len` bytes followed by the padding that brings them to a word
    /// boundary, which is read and dropped so that the channel stays aligned.
    pub fn read_padded_bytes(&self, len: usize) -> (r: ReadAll)
        requires
            len + WORD_SIZE <= usize::MAX,
        ensures
            r.wf(),
            r.spec_fd() == self.spec_fd(),
            r.spec_len() == len,
            r.spec_want() == len + pad_len(len as nat),
            r.spec_got() == Seq::<u8>::empty(),
            !r.spec_ended(),
    {
        let want = align_up_word(len);
        ReadAll { fd: self.fd, len, want, got: Vec::new(), ended: false }
    }

    /// Judges a read of `words_len` whole words after which the host reported
    /// `bytes_read` bytes: it succeeded if every word arrived.
    pub fn read_words(&self, words_len: usize, bytes_read: usize) -> (r: Result<(), CodecError>)
        ensures
            r is Ok <==> bytes_read == 4 * words_len,
            r is Err ==> r == Err::<(), CodecError>(CodecError::DeserializeUnexpectedEnd),
    {
        if bytes_read % WORD_SIZE == 0 && bytes_read / WORD_SIZE == words_len {
            Ok(())
        } else {
            Err(CodecError::DeserializeUnexpectedEnd)
        }
    }
}

impl ReadAll {
    pub closed spec fn spec_fd(&self) -> u32 {
        self.fd
    }

    /// The number of payload bytes asked for.
    pub closed spec fn spec_len(&self) -> nat {
        self.len as nat
    }

    /// The number of bytes to read from the channel, padding included.
    pub closed spec fn spec_want(&self) -> nat {
        self.want as nat
    }

    /// The bytes the host has delivered so far.
    pub closed spec fn spec_got(&self) -> Seq<u8> {
        self.got@
    }

    /// Whether the host answered with no bytes.
    pub closed spec fn spec_ended(&self) -> bool {
        self.ended
    }

    pub closed spec fn wf(&self) -> bool {
        &&& self.len <= self.want
        &&& self.got@.len() <= self.want
    }

    pub open spec fn spec_done(&self) -> bool {
        self.spec_ended() || self.spec_got().len() == self.spec_want()
    }

    pub fn fd(&self) -> (r: u32)
        ensures
            r == self.spec_fd(),
    {
        self.fd
    }

    /// Whether the read is over: the request is met, or the channel ended.
    pub fn is_done(&self) -> (r: bool)
        requires
            self.wf(),
        ensures
            r == self.spec_done(),
    {
        self.ended || self.got.len() == self.want
    }

    /// How many bytes to ask the host for next; zero once the read is over.
    pub fn remaining(&self) -> (r: usize)
        requires
            self.wf(),
        ensures
            self.spec_done() ==> r == 0,
            !self.spec_done() ==> r == self.spec_want() - self.spec_got().len() && r > 0,
    {
        if self.ended {
            0
        } else {
            self.want - self.got.len()
        }
    }

    /// Takes one answer of the host. An empty answer ends the read.
    pub fn accept(&mut self, answer: &[u8])
        requires
            old(self).wf(),
            !old(self).spec_done(),
            answer@.len() <= old(self).spec_want() - old(self).spec_got().len(),
        ensures
            final(self).wf(),
            final(self).spec_fd() == old(self).spec_fd(),
            final(self).spec_len() == old(self).spec_len(),
            final(self).spec_want() == old(self).spec_want(),
            final(self).spec_got() == old(self).spec_got() + answer@,
            final(self).spec_ended() == (answer@.len() == 0),
    {
        if answer.len() == 0 {
            self.ended = true;
            assert(self.got@ =~= old(self).got@ + answer@);
        } else {
            self.got.extend_from_slice(answer);
        }
    }

    /// The number of bytes read so far.
    pub fn total(&self) -> (r: usize)
        ensures
            r == self.spec_got().len(),
    {
        self.got.len()
    }

    /// The payload, if all of it and its padding arrived; the channel's end otherwise.
    pub fn finish(self) -> (r: Result<Vec<u8>, CodecError>)
        requires
            self.wf(),
        ensures
            r is Ok <==> self.spec_got().len() == self.spec_want(),
            r matches Ok(v) ==> v@ == self.spec_got().take(self.spec_len() as int),
            r is Err ==> r == Err::<Vec<u8>, CodecError>(CodecError::DeserializeUnexpectedEnd),
    {
        if self.got.len() == self.want {
            let mut got = self.got;
            got.truncate(self.len);
            assert(got@ =~= self.got@.take(self.len as int));
            Ok(got)
        } else {
            Err(CodecError::DeserializeUnexpectedEnd)
        }
    }
}

/// Writes to a host channel: the bytes written wait in a queue until they are sent.
#[derive(Clone, Debug)]
pub struct FdWriter {
    fd: u32,
    queued: Vec<u8>,
}

impl FdWriter {
    pub closed spec fn spec_fd(&self) -> u32 {
        self.fd
    }

    /// The bytes written and not yet sent.
    pub closed spec fn spec_queued(&self) -> Seq<u8> {
        self.queued@
    }

    /// A writer on channel `fd`. Reserved channel numbers are accepted; mixing
    /// them with the standard channels is discouraged.
    pub fn new(fd: u32) -> (r: FdWriter)
        ensures
            r.spec_fd() == fd,
            r.spec_queued() == Seq::<u8>::empty(),
    {
        FdWriter { fd, queued: Vec::new() }
    }

    pub fn fd(&self) -> (r: u32)
        ensures
            r == self.spec_fd(),
    {
        self.fd
    }

    pub fn write_bytes(&mut self, bytes: &[u8])
        ensures
            final(self).spec_fd() == old(self).spec_fd(),
            final(self).spec_queued() == old(self).spec_queued() + bytes@,
    {
        self.queued.extend_from_slice(bytes);
    }

    /// Writes whole words, each in little-endian order.
    pub fn write_words(&mut self, words: &[u32])
        ensures
            final(self).spec_fd() == old(self).spec_fd(),
            final(self).spec_queued() == old(self).spec_queued() + bytes_of_words(words@),
    {
        push_words(&mut self.queued, words);
    }

    /// Writes the bytes and then the zero padding up to the next word boundary.
    pub fn write_padded_bytes(&mut self, bytes: &[u8])
        ensures
            final(self).spec_fd() == old(self).spec_fd(),
            final(self).spec_queued() == old(self).spec_queued() + padded(bytes@),
    {
        self.queued.extend_from_slice(bytes);
        let pad = padding_for(bytes.len());
        self.queued.extend_from_slice(pad.as_slice());
        assert(self.queued@ =~= old(self).queued@ + padded(bytes@));
    }

    /// Hands over the queued bytes for sending and empties the queue.
    pub fn take_queued(&mut self) -> (r: Vec<u8>)
        ensures
            r@ == old(self).spec_queued(),
            final(self).spec_fd() == old(self).spec_fd(),
            final(self).spec_queued() == Seq::<u8>::empty(),
    {
        let mut r: Vec<u8> = Vec::new();
        std::mem::swap(&mut r, &mut self.queued);
        r
    }
}

/// A reader on standard input.
pub fn stdin() -> (r: FdReader)
    ensures
        r.spec_fd() == STDIN,
{
    FdReader::new(STDIN)
}

/// A writer on standard output.
pub fn stdout() -> (r: FdWriter)
    ensures
        r.spec_fd() == STDOUT,
        r.spec_queued() == Seq::<u8>::empty(),
{
    FdWriter::new(STDOUT)
}

/// A writer on standard error.
pub fn stderr() -> (r: FdWriter)
    ensures
        r.spec_fd() == STDERR,
        r.spec_queued() == Seq::<u8>::empty(),
{
    FdWriter::new(STDERR)
}

} // verus!
