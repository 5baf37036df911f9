//! Readable and seekable byte streams: the capability that a windowed view
//! is built on, and an in-memory stream that has it.

use vstd::prelude::*;

verus! {

/// Where a seek is measured from.
#[derive(Clone, Copy, Debug, PartialEq, Eq, Structural)]
pub enum SeekFrom {
    /// A number of bytes from the start of the stream.
    Start(u64),
    /// A number of bytes from the end of the stream; negative values lie inside it.
    End(i64),
    /// A number of bytes from the present position.
    Current(i64),
}

/// Why a stream operation did not take place.
#[derive(Debug, PartialEq, Eq)]
pub enum StreamError {
    /// The request was refused; the stream is where it was.
    InvalidInput,
    /// The stream failed; the text describes the failure.
    Io(String),
}

/// The absolute position that a seek asks for, in a stream of `len` bytes
/// that stands at `position`.
pub open spec fn seek_goal(len: int, position: int, target: SeekFrom) -> int {
    match target {
        SeekFrom::Start(p) => p as int,
        SeekFrom::End(e) => len + e,
        SeekFrom::Current(d) => position + d,
    }
}

/// Whether a seek's goal is a position that a stream can stand at.
pub open spec fn is_position(goal: int) -> bool {
    0 <= goal <= u64::MAX
}

/// The bytes of a stream from `position` to its end; none when the
/// position is at or beyond the end.
pub open spec fn remaining(bytes: Seq<u8>, position: int) -> Seq<u8> {
    if 0 <= position < bytes.len() {
        bytes.subrange(position, bytes.len() as int)
    } else {
        Seq::empty()
    }
}

/// A source of bytes that can be read in order and repositioned.
///
/// `bytes` and `position` say what the stream holds and where it stands.
/// `faithful` says whether the implementation keeps to them when it
/// answers, and `dependable` whether it answers whenever it can: every read,
/// and every seek to a position. The contracts of `read` and `seek` bind a
/// faithful stream only: an implementation that leaves the four at their
/// defaults promises nothing, and nothing is concluded from what it returns.
pub trait ByteStream: Sized {
    /// Whether the stream keeps to what `bytes` and `position` say of it.
    open spec fn faithful(&self) -> bool {
        false
    }

    /// Whether the stream never fails: it serves every read, and makes
    /// every seek whose goal is a position.
    open spec fn dependable(&self) -> bool {
        false
    }

    /// All bytes of the stream, from its start.
    open spec fn bytes(&self) -> Seq<u8> {
        Seq::empty()
    }

    /// The absolute position of the next byte to read.
    open spec fn position(&self) -> u64 {
        0
    }

    /// Reads at most `max` bytes from the present position and moves past
    /// them. An empty result means that `max` is zero or that the position
    /// is at or beyond the end. After invalid input the stream is where it
    /// was; after a failure nothing is known of it.
    fn read(&mut self, max: usize) -> (res: Result<Vec<u8>, StreamError>)
        ensures
            old(self).faithful() ==> match res {
                Ok(chunk) => {
                    let rest = remaining(old(self).bytes(), old(self).position() as int);
                    &&& final(self).faithful()
                    &&& final(self).bytes() == old(self).bytes()
                    &&& chunk@.len() <= max
                    &&& chunk@.len() <= rest.len()
                    &&& chunk@ == rest.subrange(0, chunk@.len() as int)
                    &&& final(self).position() == old(self).position() + chunk@.len()
                    &&& chunk@.len() == 0 ==> max == 0 || rest.len() == 0
                },
                Err(StreamError::InvalidInput) => {
                    &&& final(self).faithful()
                    &&& final(self).bytes() == old(self).bytes()
                    &&& final(self).position() == old(self).position()
                },
                Err(StreamError::Io(_)) => true,
            },
            old(self).faithful() && old(self).dependable() ==> res is Ok && final(self).dependable(),
    ;

    /// Moves to the position that `target` asks for and reports it. After
    /// invalid input the stream is where it was; after a failure nothing is
    /// known of it.
    fn seek(&mut self, target: SeekFrom) -> (res: Result<u64, StreamError>)
        ensures
            old(self).faithful() ==> match res {
                Ok(p) => {
                    &&& final(self).faithful()
                    &&& final(self).bytes() == old(self).bytes()
                    &&& p == final(self).position()
                    &&& p == seek_goal(old(self).bytes().len() as int, old(self).position() as int, target)
                },
                Err(StreamError::InvalidInput) => {
                    &&& final(self).faithful()
                    &&& final(self).bytes() == old(self).bytes()
                    &&& final(self).position() == old(self).position()
                },
                Err(StreamError::Io(_)) => true,
            },
            old(self).faithful() && old(self).dependable() ==> {
                &&& final(self).dependable()
                &&& res is Ok <==> is_position(
                    seek_goal(old(self).bytes().len() as int, old(self).position() as int, target),
                )
                &&& res is Err ==> res matches Err(StreamError::InvalidInput)
            },
    ;
}

/// A stream over bytes held in memory.
pub struct MemoryStream {
    data: Vec<u8>,
    at: u64,
}

impl MemoryStream {
    /// A stream over `data`, positioned at its start.
    pub fn new(data: Vec<u8>) -> (stream: MemoryStream)
        ensures
            stream.faithful(),
            stream.dependable(),
            stream.bytes() == data@,
            stream.position() == 0,
    {
        MemoryStream { data, at: 0 }
    }

    /// The number of bytes in the stream.
    pub fn len(&self) -> (len: usize)
        ensures
            len == self.bytes().len(),
    {
        self.data.len()
    }

    /// The absolute position of the next byte to read.
    pub fn tell(&self) -> (at: u64)
        ensures
            at == self.position(),
    {
        self.at
    }

    /// Gives back the bytes of the stream.
    pub fn into_inner(self) -> (data: Vec<u8>)
        ensures
            data@ == self.bytes(),
    {
        self.data
    }
}

impl ByteStream for MemoryStream {
    open spec fn faithful(&self) -> bool {
        true
    }

    open spec fn dependable(&self) -> bool {
        true
    }

    closed spec fn bytes(&self) -> Seq<u8> {
        self.data@
    }

    closed spec fn position(&self) -> u64 {
        self.at
    }

    /// Never fails, and yields as many bytes as `max` and the end allow.
    fn read(&mut self, max: usize) -> (res: Result<Vec<u8>, StreamError>)
        ensures
            final(self).bytes() == old(self).bytes(),
            res matches Ok(chunk) && chunk@.len() == if max <= remaining(
                old(self).bytes(),
                old(self).position() as int,
            ).len() {
                max as nat
            } else {
                remaining(old(self).bytes(), old(self).position() as int).len()
            },
    {
        let mut chunk: Vec<u8> = Vec::new();
        let len = self.data.len();
        if self.at >= len as u64 {
            assert(chunk@ =~= remaining(self.data@, self.at as int).subrange(0, 0));
            return Ok(chunk);
        }
        let start: usize = self.at as usize;
        let available: usize = len - start;
        let count: usize = if max <= available {
            max
        } else {
            available
        };
        let mut i: usize = 0;
        while i < count
            invariant
                i <= count,
                start + count <= len,
                len == self.data@.len(),
                chunk@ == self.data@.subrange(start as int, start + i),
            decreases count - i,
        {
            chunk.push(self.data[start + i]);
            assert(chunk@ =~= self.data@.subrange(start as int, start + i + 1));
            i += 1;
        }
        assert(chunk@ =~= remaining(self.data@, start as int).subrange(0, count as int));
        self.at = (start + count) as u64;
        Ok(chunk)
    }

    /// Succeeds exactly when the goal is a position; a refused seek is
    /// reported as invalid input.
    fn seek(&mut self, target: SeekFrom) -> (res: Result<u64, StreamError>)
        ensures
            final(self).bytes() == old(self).bytes(),
    {
        let goal: i128 = match target {
            SeekFrom::Start(p) => p as i128,
            SeekFrom::End(e) => self.data.len() as i128 + e as i128,
            SeekFrom::Current(d) => self.at as i128 + d as i128,
        };
        if goal < 0 || goal > u64::MAX as i128 {
            return Err(StreamError::InvalidInput);
        }
        self.at = goal as u64;
        Ok(self.at)
    }
}

} // verus!
