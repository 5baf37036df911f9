//! A window `[offset, offset + length)` of a larger byte stream, presented as
//! a stream of its own whose positions start at zero.

use crate::stream::{is_position, remaining, seek_goal, ByteStream, SeekFrom, StreamError};
use vstd::prelude::*;

verus! {

/// The arithmetic of a window: where it starts, how long it is, and where
/// its reader stands, counted from the window's start.
///
/// A `Window` decides how a request on the window is put to the stream
/// below and how the answer is reported; it never touches a stream itself.
#[derive(Clone, Copy, Debug)]
pub struct Window {
    offset: u64,
    length: u64,
    cursor: u64,
}

impl Window {
    #[verifier::type_invariant]
    spec fn in_range(self) -> bool {
        self.offset + self.cursor <= u64::MAX
    }

    /// Absolute position at which the window starts.
    pub closed spec fn offset(&self) -> u64 {
        self.offset
    }

    /// Number of bytes that the window exposes.
    pub closed spec fn length(&self) -> u64 {
        self.length
    }

    /// Position of the reader, counted from the window's start.
    pub closed spec fn cursor(&self) -> u64 {
        self.cursor
    }

    /// Absolute position of the reader.
    pub open spec fn absolute(&self) -> int {
        self.offset() + self.cursor()
    }

    /// Whether the window turns a seek down before any stream is asked: a
    /// seek from the start or from the present position whose goal is not a
    /// position of the window, or a seek from the end by `e` with
    /// `length − e < offset`.
    pub open spec fn refuses(&self, target: SeekFrom) -> bool {
        match target {
            SeekFrom::Start(p) => self.offset() + p > u64::MAX,
            SeekFrom::End(e) => self.length() - e < self.offset(),
            SeekFrom::Current(d) => self.cursor() + d < 0 || self.offset() + self.cursor() + d > u64::MAX,
        }
    }

    /// The seek that the stream below is asked to make for a seek on the
    /// window: one from the start is moved by the offset, the others pass as
    /// they are.
    pub open spec fn forwarded(&self, target: SeekFrom) -> SeekFrom {
        match target {
            SeekFrom::Start(p) => SeekFrom::Start((self.offset() + p) as u64),
            SeekFrom::End(e) => SeekFrom::End(e),
            SeekFrom::Current(d) => SeekFrom::Current(d),
        }
    }

    /// How many bytes a read of at most `max` may take without leaving the window.
    pub open spec fn allowance_of(&self, max: usize) -> nat {
        if self.cursor() >= self.length() {
            0
        } else if max <= self.length() - self.cursor() {
            max as nat
        } else {
            (self.length() - self.cursor()) as nat
        }
    }

    /// A window of `length` bytes that starts at `offset`, with its reader at
    /// the window's start.
    pub fn new(offset: u64, length: u64) -> (window: Window)
        ensures
            window.offset() == offset,
            window.length() == length,
            window.cursor() == 0,
    {
        Window { offset, length, cursor: 0 }
    }

    /// The seek that brings a stream to the window's start.
    pub fn opening_seek(&self) -> (target: SeekFrom)
        ensures
            target == SeekFrom::Start(self.offset()),
    {
        SeekFrom::Start(self.offset)
    }

    /// Position of the reader, counted from the window's start.
    pub fn tell(&self) -> (cursor: u64)
        ensures
            cursor == self.cursor(),
    {
        self.cursor
    }

    /// Absolute position of the reader.
    pub fn absolute_position(&self) -> (position: u64)
        ensures
            position == self.absolute(),
    {
        proof {
            use_type_invariant(self);
        }
        self.offset + self.cursor
    }

    /// Validates a seek on the window and gives the seek to make on the
    /// stream below; a seek that the window refuses is invalid input.
    pub fn translate(&self, target: SeekFrom) -> (res: Result<SeekFrom, StreamError>)
        ensures
            match res {
                Ok(below) => !self.refuses(target) && below == self.forwarded(target),
                Err(e) => self.refuses(target) && e is InvalidInput,
            },
    {
        proof {
            use_type_invariant(self);
        }
        match target {
            SeekFrom::Start(p) => {
                match p.checked_add(self.offset) {
                    Some(absolute) => Ok(SeekFrom::Start(absolute)),
                    None => Err(StreamError::InvalidInput),
                }
            },
            SeekFrom::End(e) => {
                if (self.length as i128) - (e as i128) < self.offset as i128 {
                    Err(StreamError::InvalidInput)
                } else {
                    Ok(SeekFrom::End(e))
                }
            },
            SeekFrom::Current(d) => {
                let logical: i128 = self.cursor as i128 + d as i128;
                if logical < 0 || logical + self.offset as i128 > u64::MAX as i128 {
                    Err(StreamError::InvalidInput)
                } else {
                    Ok(SeekFrom::Current(d))
                }
            },
        }
    }

    /// Takes note that the stream below now stands at `absolute`, and
    /// reports that position counted from the window's start. A position
    /// before the window's start is invalid input and moves nothing.
    pub fn settle(&mut self, absolute: u64) -> (res: Result<u64, StreamError>)
        ensures
            final(self).offset() == old(self).offset(),
            final(self).length() == old(self).length(),
            match res {
                Ok(p) => absolute >= old(self).offset() && p == absolute - old(self).offset() && final(self).cursor() == p,
                Err(e) => absolute < old(self).offset() && e is InvalidInput && final(self).cursor() == old(self).cursor(),
            },
    {
        if absolute < self.offset {
            return Err(StreamError::InvalidInput);
        }
        self.cursor = absolute - self.offset;
        Ok(self.cursor)
    }

    /// The number of bytes that a read of at most `max` may take.
    pub fn allowance(&self, max: usize) -> (count: usize)
        ensures
            count == self.allowance_of(max),
    {
        if self.cursor >= self.length {
            0
        } else {
            let left: u64 = self.length - self.cursor;
            if max as u64 <= left {
                max
            } else {
                left as usize
            }
        }
    }

    /// Moves the reader past `count` bytes that were read. A count that
    /// would carry the absolute position beyond `u64` is invalid input and
    /// moves nothing.
    pub fn advance(&mut self, count: usize) -> (res: Result<u64, StreamError>)
        ensures
            final(self).offset() == old(self).offset(),
            final(self).length() == old(self).length(),
            match res {
                Ok(p) => old(self).absolute() + count <= u64::MAX && p == old(self).cursor() + count
                    && final(self).cursor() == p,
                Err(e) => old(self).absolute() + count > u64::MAX && e is InvalidInput && final(self).cursor() == old(self).cursor(),
            },
    {
        proof {
            use_type_invariant(&*self);
        }
        let moved: u128 = self.offset as u128 + self.cursor as u128 + count as u128;
        if moved > u64::MAX as u128 {
            return Err(StreamError::InvalidInput);
        }
        self.cursor = (self.cursor as u128 + count as u128) as u64;
        Ok(self.cursor)
    }
}

/// The largest number of bytes that is read at a time when a window is
/// read to its end.
pub const READ_CHUNK: usize = 65536;

/// A stream seen through a window.
///
/// What is said below of the bytes that come out holds for a window that is
/// well-formed: one over a faithful stream that stands where the window's
/// reader stands. Over a stream that is dependable too, a request succeeds
/// exactly when the window accepts it. What the window itself refuses holds
/// for every stream.
pub struct Subfile<T: ByteStream> {
    stream: T,
    window: Window,
}

impl<T: ByteStream> Subfile<T> {
    /// The stream below the window.
    pub closed spec fn inner(&self) -> T {
        self.stream
    }

    /// The window's arithmetic.
    pub closed spec fn frame(&self) -> Window {
        self.window
    }

    /// The stream below is faithful, and it stands at the byte at which the
    /// reader of the window stands.
    pub open spec fn wf(&self) -> bool {
        &&& self.inner().faithful()
        &&& self.inner().position() == self.frame().absolute()
    }

    /// The window is well-formed, and the stream below is dependable.
    pub open spec fn sound(&self) -> bool {
        self.wf() && self.inner().dependable()
    }

    /// The absolute position that a seek on the window comes to in the
    /// stream below.
    pub open spec fn landing(&self, target: SeekFrom) -> int {
        seek_goal(
            self.inner().bytes().len() as int,
            self.inner().position() as int,
            self.frame().forwarded(target),
        )
    }

    /// Whether the window makes a seek: it does not refuse it, and the seek
    /// comes to a position at or after the window's start.
    pub open spec fn accepts(&self, target: SeekFrom) -> bool {
        &&& !self.frame().refuses(target)
        &&& self.frame().offset() <= self.landing(target)
        &&& is_position(self.landing(target))
    }

    /// The bytes that the window exposes: those of the stream below from
    /// `offset` on, at most `length` of them.
    pub open spec fn visible(&self) -> Seq<u8> {
        let rest = remaining(self.inner().bytes(), self.frame().offset() as int);
        if self.frame().length() <= rest.len() {
            rest.subrange(0, self.frame().length() as int)
        } else {
            rest
        }
    }

    /// Whether two states of a window have the same bounds.
    pub open spec fn same_bounds(&self, other: &Self) -> bool {
        &&& self.frame().offset() == other.frame().offset()
        &&& self.frame().length() == other.frame().length()
    }

    /// Whether two states of a window have the same bounds and the same
    /// bytes below.
    pub open spec fn same_window(&self, other: &Self) -> bool {
        &&& self.same_bounds(other)
        &&& self.inner().bytes() == other.inner().bytes()
    }

    /// Whether two states of a window are the same window with the reader
    /// at the same place.
    pub open spec fn same_state(&self, other: &Self) -> bool {
        &&& self.same_window(other)
        &&& self.frame().cursor() == other.frame().cursor()
        &&& self.inner().position() == other.inner().position()
    }

    /// Opens a window of `length` bytes at `offset` on `stream`, moving the
    /// stream to the window's start. Fails as the stream's seek fails.
    pub fn new(stream: T, offset: u64, length: u64) -> (res: Result<Subfile<T>, StreamError>)
        ensures
            res matches Ok(opened) ==> {
                &&& opened.frame().offset() == offset
                &&& opened.frame().length() == length
                &&& opened.frame().cursor() == 0
                &&& stream.faithful() ==> opened.wf() && opened.inner().bytes() == stream.bytes()
                &&& stream.faithful() && stream.dependable() ==> opened.sound()
            },
            stream.faithful() && stream.dependable() ==> res is Ok,
    {
        let mut stream = stream;
        let window = Window::new(offset, length);
        match stream.seek(window.opening_seek()) {
            Ok(_) => Ok(Subfile { stream, window }),
            Err(e) => Err(e),
        }
    }

    /// Position of the reader, counted from the window's start.
    pub fn tell(&self) -> (cursor: u64)
        ensures
            cursor == self.frame().cursor(),
    {
        self.window.tell()
    }

    /// Gives back the stream below.
    pub fn into_inner(self) -> (stream: T)
        ensures
            stream == self.inner(),
    {
        self.stream
    }

    /// Reads at most `max` bytes at the reader's position and moves past
    /// them; the read never leaves the window. An empty result means that
    /// `max` is zero or that no exposed byte is left.
    pub fn read(&mut self, max: usize) -> (res: Result<Vec<u8>, StreamError>)
        ensures
            final(self).same_bounds(old(self)),
            old(self).frame().allowance_of(max) == 0 ==> *final(self) == *old(self) && (res matches Ok(chunk)
                && chunk@.len() == 0),
            res matches Ok(chunk) ==> final(self).frame().cursor() == old(self).frame().cursor() + chunk@.len(),
            old(self).wf() ==> match res {
                Ok(chunk) => {
                    let rest = remaining(old(self).visible(), old(self).frame().cursor() as int);
                    &&& final(self).wf()
                    &&& final(self).same_window(old(self))
                    &&& chunk@.len() <= max
                    &&& chunk@.len() <= rest.len()
                    &&& chunk@ == rest.subrange(0, chunk@.len() as int)
                    &&& chunk@ == remaining(old(self).inner().bytes(), old(self).frame().absolute()).subrange(
                        0,
                        chunk@.len() as int,
                    )
                    &&& chunk@.len() == 0 ==> max == 0 || rest.len() == 0
                },
                Err(StreamError::InvalidInput) => final(self).wf() && final(self).same_state(old(self)),
                Err(StreamError::Io(_)) => true,
            },
            old(self).sound() ==> res is Ok && final(self).sound(),
    {
        let count = self.window.allowance(max);
        if count == 0 {
            let chunk: Vec<u8> = Vec::new();
            proof {
                let rest = remaining(self.visible(), self.frame().cursor() as int);
                assert(chunk@ =~= rest.subrange(0, 0));
                assert(chunk@ =~= remaining(self.inner().bytes(), self.frame().absolute()).subrange(0, 0));
            }
            return Ok(chunk);
        }
        match self.stream.read(count) {
            Ok(chunk) => {
                proof {
                    if old(self).wf() {
                        let rest = remaining(old(self).visible(), old(self).frame().cursor() as int);
                        if chunk@.len() > 0 {
                            assert(chunk@ =~= rest.subrange(0, chunk@.len() as int));
                        } else {
                            assert(chunk@ =~= rest.subrange(0, 0));
                            assert(rest.len() == 0);
                        }
                    }
                }
                match self.window.advance(chunk.len()) {
                    Ok(_) => Ok(chunk),
                    Err(_) => Err(StreamError::Io(String::from_str("the stream read beyond its range"))),
                }
            },
            Err(e) => Err(e),
        }
    }

    /// Moves the reader and reports its new position, counted from the
    /// window's start.
    ///
    /// A seek that the window refuses is invalid input and leaves everything
    /// as it was; the stream below is not asked. Otherwise the stream below
    /// is asked to make the forwarded seek, and the position that it reports
    /// is translated back. If that position lies before the window's start,
    /// the stream is moved back to where it was, and the seek is invalid
    /// input.
    pub fn seek(&mut self, target: SeekFrom) -> (res: Result<u64, StreamError>)
        ensures
            final(self).same_bounds(old(self)),
            old(self).frame().refuses(target) ==> *final(self) == *old(self) && (res matches Err(
                StreamError::InvalidInput,
            )),
            res matches Ok(p) ==> !old(self).frame().refuses(target) && p == final(self).frame().cursor(),
            old(self).wf() ==> match res {
                Ok(p) => {
                    &&& final(self).wf()
                    &&& final(self).same_window(old(self))
                    &&& p == final(self).inner().position() - old(self).frame().offset()
                    &&& final(self).inner().position() == old(self).landing(target)
                },
                Err(StreamError::InvalidInput) => final(self).wf() && final(self).same_state(old(self)),
                Err(StreamError::Io(_)) => true,
            },
            old(self).sound() ==> {
                &&& final(self).sound()
                &&& res is Ok <==> old(self).accepts(target)
                &&& res is Err ==> res matches Err(StreamError::InvalidInput)
            },
    {
        let below = match self.window.translate(target) {
            Ok(below) => below,
            Err(e) => {
                return Err(e);
            },
        };
        let home = self.window.absolute_position();
        match self.stream.seek(below) {
            Ok(absolute) => {
                match self.window.settle(absolute) {
                    Ok(p) => Ok(p),
                    Err(_) => {
                        match self.stream.seek(SeekFrom::Start(home)) {
                            Ok(_) => Err(StreamError::InvalidInput),
                            Err(StreamError::Io(text)) => Err(StreamError::Io(text)),
                            Err(StreamError::InvalidInput) => Err(
                                StreamError::Io(String::from_str("the stream did not return to the window")),
                            ),
                        }
                    },
                }
            },
            Err(e) => Err(e),
        }
    }

    /// Moves the reader to `position`, counted from the window's start, and
    /// reads at most `max` bytes there: the bytes of the stream below that
    /// start at the absolute position `offset + position`.
    pub fn read_at(&mut self, position: u64, max: usize) -> (res: Result<Vec<u8>, StreamError>)
        ensures
            final(self).same_bounds(old(self)),
            old(self).frame().offset() + position > u64::MAX ==> *final(self) == *old(self) && (res matches Err(
                StreamError::InvalidInput,
            )),
            old(self).wf() ==> match res {
                Ok(chunk) => {
                    let rest = remaining(old(self).visible(), position as int);
                    &&& final(self).wf()
                    &&& final(self).same_window(old(self))
                    &&& chunk@.len() <= max
                    &&& chunk@.len() <= rest.len()
                    &&& chunk@ == rest.subrange(0, chunk@.len() as int)
                    &&& chunk@ == remaining(
                        old(self).inner().bytes(),
                        old(self).frame().offset() + position,
                    ).subrange(0, chunk@.len() as int)
                    &&& final(self).frame().cursor() == position + chunk@.len()
                    &&& chunk@.len() == 0 ==> max == 0 || rest.len() == 0
                },
                Err(StreamError::InvalidInput) => final(self).wf() && final(self).same_window(old(self)),
                Err(StreamError::Io(_)) => true,
            },
            old(self).sound() ==> {
                &&& final(self).sound()
                &&& res is Ok <==> old(self).frame().offset() + position <= u64::MAX
            },
    {
        match self.seek(SeekFrom::Start(position)) {
            Ok(_) => {},
            Err(e) => {
                return Err(e);
            },
        }
        assert(old(self).wf() ==> self.visible() == old(self).visible());
        self.read(max)
    }

    /// Reads everything from the reader's position to the end of the window.
    pub fn read_to_end(&mut self) -> (res: Result<Vec<u8>, StreamError>)
        ensures
            final(self).same_bounds(old(self)),
            old(self).wf() ==> match res {
                Ok(all) => {
                    &&& final(self).wf()
                    &&& final(self).same_window(old(self))
                    &&& all@ == remaining(old(self).visible(), old(self).frame().cursor() as int)
                    &&& final(self).frame().cursor() == old(self).frame().cursor() + all@.len()
                },
                Err(StreamError::InvalidInput) => final(self).wf() && final(self).same_window(old(self)),
                Err(StreamError::Io(_)) => true,
            },
            old(self).sound() ==> res is Ok && final(self).sound(),
    {
        let mut all: Vec<u8> = Vec::new();
        let ghost start = self.frame().cursor() as int;
        let ghost exposed = self.visible();
        loop
            invariant
                self.same_bounds(old(self)),
                exposed == old(self).visible(),
                start == old(self).frame().cursor(),
                old(self).sound() ==> self.sound(),
                old(self).wf() ==> {
                    &&& self.wf()
                    &&& self.same_window(old(self))
                    &&& self.frame().cursor() == start + all@.len()
                    &&& all@.len() <= remaining(exposed, start).len()
                    &&& all@ == remaining(exposed, start).subrange(0, all@.len() as int)
                },
            decreases
                    if self.frame().cursor() < self.frame().length() {
                        self.frame().length() - self.frame().cursor()
                    } else {
                        0
                    },
        {
            match self.read(READ_CHUNK) {
                Ok(chunk) => {
                    if chunk.len() == 0 {
                        proof {
                            if old(self).wf() {
                                let here = remaining(exposed, start + all@.len());
                                assert(here.len() == 0);
                                assert(all@ =~= remaining(exposed, start));
                            }
                        }
                        return Ok(all);
                    }
                    let ghost before = all@;
                    let mut chunk = chunk;
                    let ghost piece = chunk@;
                    all.append(&mut chunk);
                    proof {
                        if old(self).wf() {
                            let here = remaining(exposed, start + before.len());
                            assert(piece == here.subrange(0, piece.len() as int));
                            assert(all@ =~= remaining(exposed, start).subrange(0, all@.len() as int));
                        }
                    }
                },
                Err(e) => {
                    return Err(e);
                },
            }
        }
    }
}

/// Over a stream that reaches the window's end, the window exposes exactly
/// the bytes at the absolute positions `[offset, offset + length)`, and a
/// window that was just opened has all of them before its reader.
pub proof fn lemma_window_exposes_its_range<T: ByteStream>(window: Subfile<T>)
    requires
        window.frame().offset() + window.frame().length() <= window.inner().bytes().len(),
    ensures
        window.visible() == window.inner().bytes().subrange(
            window.frame().offset() as int,
            window.frame().offset() + window.frame().length(),
        ),
        remaining(window.visible(), 0) == window.visible(),
{
    let bytes = window.inner().bytes();
    let offset = window.frame().offset() as int;
    let length = window.frame().length() as int;
    assert(window.visible() =~= bytes.subrange(offset, offset + length));
    assert(remaining(window.visible(), 0) =~= window.visible());
}

} // verus!
