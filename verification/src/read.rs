//! A positioned reader over bytes held in memory, and the rule by which the
//! outcome of one low-level read becomes success, another read or a
//! [`ReadError`].

use vstd::prelude::*;
use vstd::slice::slice_subrange;
use vstd::slice::slice_to_vec;

verus! {

/// How much data a read was short of.
#[derive(Clone, Copy, Debug, PartialEq, Eq, Structural)]
pub enum Needed {
    /// This many more bytes were asked for than were there. Never zero.
    Size(usize),
    /// The source ended without saying how much was missing.
    Unknown,
}

/// Why a read failed.
#[derive(Clone, Copy, Debug, PartialEq, Eq, Structural)]
pub enum ReadErrorKind {
    /// The byte source itself failed.
    Failure,
    /// The data ended before the read was complete.
    Incomplete(Needed),
    /// The reader was asked to move to a position that lies behind it.
    Backward,
}

/// A failed read, with the byte position the reader had reached.
#[derive(Clone, Copy, Debug, PartialEq, Eq, Structural)]
pub struct ReadError {
    pub position: usize,
    pub kind: ReadErrorKind,
}

impl ReadError {
    /// The byte position at which the read failed.
    pub fn position(&self) -> (p: usize)
        ensures
            p == self.position,
    {
        self.position
    }

    /// Why the read failed.
    pub fn kind(&self) -> (k: ReadErrorKind)
        ensures
            k == self.kind,
    {
        self.kind
    }

    /// Whether the read failed for the reason `kind`.
    pub fn is_kind(&self, kind: ReadErrorKind) -> (b: bool)
        ensures
            b == (self.kind == kind),
    {
        self.kind == kind
    }
}

/// What one low-level read of a byte source returned.
#[derive(Clone, Copy, Debug, PartialEq, Eq, Structural)]
pub enum ReadEvent {
    /// The source handed over this many bytes.
    Read(usize),
    /// The read was interrupted before it moved any data.
    Interrupted,
    /// The source reported that it ended too early.
    UnexpectedEof,
    /// The source failed in any other way.
    Failed,
}

/// What follows one low-level read.
#[derive(Clone, Copy, Debug, PartialEq, Eq, Structural)]
pub enum ReadStep {
    /// All the bytes asked for have arrived.
    Done,
    /// Nothing was lost: the same read is to be made again.
    Retry,
    /// Some of the bytes have arrived: the rest, `wanted` bytes, is to be
    /// read at `position`.
    More { position: usize, wanted: usize },
    /// The read has failed for good.
    Failed(ReadError),
}

impl ReadEvent {
    /// The step that follows this outcome of a read for `wanted` bytes, made
    /// when `position` bytes had been consumed.
    ///
    /// An interrupted read is made again. A read that hands over every byte
    /// asked for is done. One that hands over some of them is followed by a
    /// read for the rest, behind the bytes that did arrive. One that hands
    /// over none, though some were asked for, has met the end of the input:
    /// it is incomplete by the number of bytes asked for. An early end that
    /// the source reports is incomplete by an unknown amount, and any other
    /// failure is a failure. Each error is given at `position`.
    pub open spec fn settled(self, position: usize, wanted: usize) -> ReadStep {
        match self {
            ReadEvent::Read(n) => if n == wanted {
                ReadStep::Done
            } else if n == 0 {
                ReadStep::Failed(
                    ReadError {
                        position,
                        kind: ReadErrorKind::Incomplete(Needed::Size(wanted)),
                    },
                )
            } else {
                ReadStep::More {
                    position: (position + n) as usize,
                    wanted: (wanted - n) as usize,
                }
            },
            ReadEvent::Interrupted => ReadStep::Retry,
            ReadEvent::UnexpectedEof => ReadStep::Failed(
                ReadError { position, kind: ReadErrorKind::Incomplete(Needed::Unknown) },
            ),
            ReadEvent::Failed => ReadStep::Failed(
                ReadError { position, kind: ReadErrorKind::Failure },
            ),
        }
    }

    /// Decides what follows one low-level read: see [`ReadEvent::settled`].
    pub fn settle(self, position: usize, wanted: usize) -> (step: ReadStep)
        requires
            self matches ReadEvent::Read(n) ==> n <= wanted && position + n <= usize::MAX,
        ensures
            step == self.settled(position, wanted),
    {
        match self {
            ReadEvent::Read(n) => {
                if n == wanted {
                    ReadStep::Done
                } else if n == 0 {
                    ReadStep::Failed(
                        ReadError {
                            position,
                            kind: ReadErrorKind::Incomplete(Needed::Size(wanted)),
                        },
                    )
                } else {
                    ReadStep::More { position: position + n, wanted: wanted - n }
                }
            },
            ReadEvent::Interrupted => ReadStep::Retry,
            ReadEvent::UnexpectedEof => ReadStep::Failed(
                ReadError { position, kind: ReadErrorKind::Incomplete(Needed::Unknown) },
            ),
            ReadEvent::Failed => ReadStep::Failed(
                ReadError { position, kind: ReadErrorKind::Failure },
            ),
        }
    }
}

/// The position that a read of `len` bytes, begun at `pos`, leaves behind:
/// behind the bytes if they are all there, else the end of the data.
pub open spec fn read_end(bytes: Seq<u8>, pos: int, len: int) -> int {
    if pos + len <= bytes.len() {
        pos + len
    } else {
        bytes.len() as int
    }
}

/// A read never moves a reader back, nor beyond the end of its data.
pub proof fn lemma_read_moves_forward(bytes: Seq<u8>, pos: int, len: int)
    requires
        0 <= pos <= bytes.len(),
        0 <= len,
    ensures
        pos <= read_end(bytes, pos, len) <= bytes.len(),
        read_bytes(bytes, pos, len) is Ok <==> read_end(bytes, pos, len) == pos + len,
        read_bytes(bytes, pos, len) matches Ok(s) ==> s.len() == len,
{
}

/// What a read of `len` bytes, begun at `pos`, returns: the bytes, or how many
/// were missing, reported at the end of the data.
pub open spec fn read_bytes(bytes: Seq<u8>, pos: int, len: int) -> Result<Seq<u8>, ReadError> {
    if pos + len <= bytes.len() {
        Ok(bytes.subrange(pos, pos + len))
    } else {
        Err(short_by(bytes, pos, len))
    }
}

/// Whether a read of `len` bytes, begun at `pos`, succeeds, and how it fails.
pub open spec fn read_unit(bytes: Seq<u8>, pos: int, len: int) -> Result<(), ReadError> {
    if pos + len <= bytes.len() {
        Ok(())
    } else {
        Err(short_by(bytes, pos, len))
    }
}

/// The error of a read of `len` bytes at `pos` that the data cannot satisfy.
pub open spec fn short_by(bytes: Seq<u8>, pos: int, len: int) -> ReadError {
    ReadError {
        position: bytes.len() as usize,
        kind: ReadErrorKind::Incomplete(Needed::Size((pos + len - bytes.len()) as usize)),
    }
}

/// A cursor over the bytes of a sound bank.
pub struct Reader<'a> {
    data: &'a [u8],
    position: usize,
}

impl<'a> Reader<'a> {
    /// All the bytes that the reader walks over, read or not.
    pub closed spec fn bytes(self) -> Seq<u8> {
        self.data@
    }

    /// The number of bytes consumed so far.
    pub closed spec fn pos(self) -> nat {
        self.position as nat
    }

    /// The reader never stands behind the end of its data, whose length
    /// `usize` holds.
    #[verifier::type_invariant]
    pub open spec fn in_bounds(self) -> bool {
        self.pos() <= self.bytes().len() <= usize::MAX
    }

    /// A reader at the start of `data`.
    pub fn new(data: &'a [u8]) -> (reader: Self)
        ensures
            reader.bytes() == data@,
            reader.pos() == 0,
    {
        let _ = data.len();
        Reader { data, position: 0 }
    }

    /// The number of bytes consumed so far.
    pub fn position(&self) -> (p: usize)
        ensures
            p == self.pos(),
            p <= self.bytes().len(),
    {
        proof {
            use_type_invariant(self);
        }
        self.position
    }

    /// `after` is this reader once it has been asked for `len` bytes: it
    /// walks over the same data and stands where the read ended.
    pub open spec fn moved(self, after: Self, len: int) -> bool {
        &&& after.bytes() == self.bytes()
        &&& after.pos() == read_end(self.bytes(), self.pos() as int, len)
    }

    /// Consumes up to `len` bytes. Hands out those that were there, and
    /// whether they were all there.
    fn advance(&mut self, len: usize) -> (r: (&'a [u8], Result<(), ReadError>))
        ensures
            old(self).moved(*final(self), len as int),
            r.0@ == old(self).bytes().subrange(old(self).pos() as int, final(self).pos() as int),
            r.1 == read_unit(old(self).bytes(), old(self).pos() as int, len as int),
    {
        proof {
            use_type_invariant(&*self);
        }
        let start = self.position;
        let available = self.data.len() - start;
        let n = if len <= available {
            len
        } else {
            available
        };
        // The data hands over what it holds; if that is not all, it holds no
        // more, and the read for the rest meets the end.
        let step = match ReadEvent::Read(n).settle(start, len) {
            ReadStep::More { position, wanted } => ReadEvent::Read(0).settle(position, wanted),
            step => step,
        };
        self.position = start + n;
        let arrived = slice_subrange(self.data, start, start + n);
        match step {
            ReadStep::Failed(e) => (arrived, Err(e)),
            _ => (arrived, Ok(())),
        }
    }

    /// Reads as many bytes as `buf` holds into it. Where the data ends
    /// before that, the bytes that are left fill the front of `buf`.
    pub fn read_to_array<const LEN: usize>(&mut self, buf: &mut [u8; LEN]) -> (r: Result<
        (),
        ReadError,
    >)
        ensures
            old(self).moved(*final(self), LEN as int),
            final(buf)@ == filled(
                old(buf)@,
                old(self).bytes().subrange(old(self).pos() as int, final(self).pos() as int),
            ),
            r == read_unit(old(self).bytes(), old(self).pos() as int, LEN as int),
    {
        proof {
            use_type_invariant(&*self);
        }
        let (arrived, r) = self.advance(LEN);
        let n = arrived.len();
        let mut i: usize = 0;
        while i < n
            invariant
                i <= n,
                n == arrived@.len(),
                n <= LEN,
                buf@.len() == LEN,
                forall|j: int| 0 <= j < i ==> buf@[j] == arrived@[j],
                forall|j: int| i <= j < LEN ==> buf@[j] == old(buf)@[j],
            decreases n - i,
        {
            buf[i] = arrived[i];
            i += 1;
        }
        assert(buf@ =~= filled(old(buf)@, arrived@));
        r
    }

    /// Reads as many bytes as `buf` holds into it. Where the data ends
    /// before that, the bytes that are left fill the front of `buf`.
    pub fn read_to_slice(&mut self, buf: &mut [u8]) -> (r: Result<(), ReadError>)
        ensures
            old(self).moved(*final(self), old(buf)@.len() as int),
            final(buf)@ == filled(
                old(buf)@,
                old(self).bytes().subrange(old(self).pos() as int, final(self).pos() as int),
            ),
            r == read_unit(old(self).bytes(), old(self).pos() as int, old(buf)@.len() as int),
    {
        proof {
            use_type_invariant(&*self);
        }
        let len = buf.len();
        let (arrived, r) = self.advance(len);
        let n = arrived.len();
        let mut i: usize = 0;
        while i < n
            invariant
                i <= n,
                n == arrived@.len(),
                n <= len,
                buf@.len() == len,
                forall|j: int| 0 <= j < i ==> buf@[j] == arrived@[j],
                forall|j: int| i <= j < len ==> buf@[j] == old(buf)@[j],
            decreases n - i,
        {
            buf[i] = arrived[i];
            i += 1;
        }
        assert(buf@ =~= filled(old(buf)@, arrived@));
        r
    }

    /// Reads exactly `LEN` bytes.
    pub fn take_const<const LEN: usize>(&mut self) -> (r: Result<[u8; LEN], ReadError>)
        ensures
            old(self).moved(*final(self), LEN as int),
            viewed(r) == read_bytes(old(self).bytes(), old(self).pos() as int, LEN as int),
    {
        let mut buf = [0u8; LEN];
        match self.read_to_array(&mut buf) {
            Ok(_) => {
                assert(buf@ =~= old(self).bytes().subrange(
                    old(self).pos() as int,
                    old(self).pos() + LEN,
                ));
                Ok(buf)
            },
            Err(e) => Err(e),
        }
    }

    /// Reads exactly `len` bytes.
    pub fn take(&mut self, len: usize) -> (r: Result<Vec<u8>, ReadError>)
        ensures
            old(self).moved(*final(self), len as int),
            viewed(r) == read_bytes(old(self).bytes(), old(self).pos() as int, len as int),
    {
        let (arrived, r) = self.advance(len);
        match r {
            Ok(_) => Ok(slice_to_vec(arrived)),
            Err(e) => Err(e),
        }
    }

    /// Discards `amount` bytes.
    pub fn skip(&mut self, amount: usize) -> (r: Result<(), ReadError>)
        ensures
            old(self).moved(*final(self), amount as int),
            r == read_unit(old(self).bytes(), old(self).pos() as int, amount as int),
    {
        let (_, r) = self.advance(amount);
        r
    }

    /// Discards bytes up to the absolute position `position`. A position
    /// that lies behind the reader is refused, and the reader stays.
    pub fn advance_to(&mut self, position: usize) -> (r: Result<(), ReadError>)
        ensures
            final(self).bytes() == old(self).bytes(),
            final(self).pos() == advance_end(
                old(self).bytes(),
                old(self).pos() as int,
                position as int,
            ),
            r == advance_result(old(self).bytes(), old(self).pos() as int, position as int),
    {
        proof {
            use_type_invariant(&*self);
        }
        if position < self.position {
            Err(self.to_error(ReadErrorKind::Backward))
        } else {
            self.skip(position - self.position)
        }
    }

    /// An error of the kind `kind` at the reader's position.
    pub fn to_error(&self, kind: ReadErrorKind) -> (e: ReadError)
        ensures
            e == (ReadError { position: self.pos() as usize, kind }),
    {
        ReadError { position: self.position, kind }
    }

    /// A second reader over the same data, at the same position.
    pub fn cursor(&self) -> (copy: Reader<'a>)
        ensures
            copy.bytes() == self.bytes(),
            copy.pos() == self.pos(),
    {
        proof {
            use_type_invariant(self);
        }
        let _ = self.data.len();
        Reader { data: self.data, position: self.position }
    }

    /// A reader over the same data, at the same position, that hands out
    /// no more than `limit` bytes. This reader is not moved by what the
    /// bounded one consumes.
    pub fn limit(&self, limit: usize) -> (capped: CappedReader<'a>)
        ensures
            capped.reader() == *self,
            capped.limit() == limit,
    {
        proof {
            use_type_invariant(self);
        }
        let _ = self.data.len();
        CappedReader { inner: Reader { data: self.data, position: self.position }, limit }
    }

    /// Reads one byte.
    pub fn u8(&mut self) -> (r: Result<u8, ReadError>)
        ensures
            old(self).moved(*final(self), 1),
            r == read_u8(old(self).bytes(), old(self).pos() as int),
    {
        let buf = self.take_const::<1>()?;
        Ok(buf[0])
    }

    /// Reads a little-endian `u16`.
    pub fn le_u16(&mut self) -> (r: Result<u16, ReadError>)
        ensures
            old(self).moved(*final(self), 2),
            r == read_le_u16(old(self).bytes(), old(self).pos() as int),
    {
        let buf = self.take_const::<2>()?;
        Ok(buf[0] as u16 + buf[1] as u16 * 0x100)
    }

    /// Reads a little-endian `u32`.
    pub fn le_u32(&mut self) -> (r: Result<u32, ReadError>)
        ensures
            old(self).moved(*final(self), 4),
            r == read_le_u32(old(self).bytes(), old(self).pos() as int),
    {
        let buf = self.take_const::<4>()?;
        Ok(
            buf[0] as u32 + buf[1] as u32 * 0x100 + buf[2] as u32 * 0x1_0000 + buf[3] as u32
                * 0x100_0000,
        )
    }

    /// Reads a little-endian `u64`.
    pub fn le_u64(&mut self) -> (r: Result<u64, ReadError>)
        ensures
            old(self).moved(*final(self), 8),
            r == read_le_u64(old(self).bytes(), old(self).pos() as int),
    {
        let buf = self.take_const::<8>()?;
        let low: u64 = buf[0] as u64 + buf[1] as u64 * 0x100 + buf[2] as u64 * 0x1_0000
            + buf[3] as u64 * 0x100_0000;
        let high: u64 = buf[4] as u64 + buf[5] as u64 * 0x100 + buf[6] as u64 * 0x1_0000
            + buf[7] as u64 * 0x100_0000;
        Ok(low + high * 0x1_0000_0000)
    }

    /// Reads a little-endian `i32`, in two's complement.
    pub fn le_i32(&mut self) -> (r: Result<i32, ReadError>)
        ensures
            old(self).moved(*final(self), 4),
            r == read_le_i32(old(self).bytes(), old(self).pos() as int),
    {
        let buf = self.take_const::<4>()?;
        let u: u32 = buf[0] as u32 + buf[1] as u32 * 0x100 + buf[2] as u32 * 0x1_0000
            + buf[3] as u32 * 0x100_0000;
        if u < 0x8000_0000 {
            Ok(u as i32)
        } else {
            Ok((u - 0x8000_0000) as i32 + i32::MIN)
        }
    }

    /// Reads a big-endian `i16`, in two's complement.
    pub fn be_i16(&mut self) -> (r: Result<i16, ReadError>)
        ensures
            old(self).moved(*final(self), 2),
            r == read_be_i16(old(self).bytes(), old(self).pos() as int),
    {
        let buf = self.take_const::<2>()?;
        let u: u16 = buf[0] as u16 * 0x100 + buf[1] as u16;
        if u < 0x8000 {
            Ok(u as i16)
        } else {
            Ok((u - 0x8000) as i16 + i16::MIN)
        }
    }
}

/// A result with its value seen through its view.
pub open spec fn viewed<T: View, E>(r: Result<T, E>) -> Result<T::V, E> {
    match r {
        Ok(v) => Ok(v@),
        Err(e) => Err(e),
    }
}

/// A result with its value seen through its view, beside the position `pos`
/// that the reader has reached where the value is there.
pub open spec fn parsed<T: View, E>(r: Result<T, E>, pos: nat) -> Result<(T::V, int), E> {
    match r {
        Ok(v) => Ok((v@, pos as int)),
        Err(e) => Err(e),
    }
}

/// A result with its value seen through its view, beside the position `pos`
/// at which the reader is left, whether the value is there or not.
pub open spec fn stepped<T: View, E>(r: Result<T, E>, pos: nat) -> (Result<T::V, E>, int) {
    (viewed(r), pos as int)
}

/// The result of a function that leaves what it has made in `value`.
pub open spec fn outcome<V, E>(r: Result<(), E>, value: V) -> Result<V, E> {
    match r {
        Ok(_) => Ok(value),
        Err(e) => Err(e),
    }
}

/// Where [`Reader::advance_to`] leaves a reader that stood at `pos`.
pub open spec fn advance_end(bytes: Seq<u8>, pos: int, target: int) -> int {
    if target < pos {
        pos
    } else {
        read_end(bytes, pos, target - pos)
    }
}

/// What [`Reader::advance_to`] returns for a reader that stood at `pos`.
pub open spec fn advance_result(bytes: Seq<u8>, pos: int, target: int) -> Result<(), ReadError> {
    if target < pos {
        Err(ReadError { position: pos as usize, kind: ReadErrorKind::Backward })
    } else {
        read_unit(bytes, pos, target - pos)
    }
}

/// The number that two bytes hold, least significant byte first.
pub open spec fn le_u16_of(s: Seq<u8>) -> u16 {
    (s[0] + s[1] * 0x100) as u16
}

/// The number that four bytes hold, least significant byte first.
pub open spec fn le_u32_of(s: Seq<u8>) -> u32 {
    (s[0] + s[1] * 0x100 + s[2] * 0x1_0000 + s[3] * 0x100_0000) as u32
}

/// The number that eight bytes hold, least significant byte first.
pub open spec fn le_u64_of(s: Seq<u8>) -> u64 {
    (le_u32_of(s.subrange(0, 4)) + le_u32_of(s.subrange(4, 8)) * 0x1_0000_0000) as u64
}

/// The two's complement number that four bytes hold, least significant
/// byte first.
pub open spec fn le_i32_of(s: Seq<u8>) -> i32 {
    let u = le_u32_of(s);
    if u < 0x8000_0000 {
        u as i32
    } else {
        (u - 0x1_0000_0000) as i32
    }
}

/// The two's complement number that two bytes hold, most significant byte
/// first.
pub open spec fn be_i16_of(s: Seq<u8>) -> i16 {
    let u = s[0] * 0x100 + s[1];
    if u < 0x8000 {
        u as i16
    } else {
        (u - 0x1_0000) as i16
    }
}

/// What [`Reader::u8`] returns at `pos`.
pub open spec fn read_u8(bytes: Seq<u8>, pos: int) -> Result<u8, ReadError> {
    match read_bytes(bytes, pos, 1) {
        Ok(s) => Ok(s[0]),
        Err(e) => Err(e),
    }
}

/// What [`Reader::le_u16`] returns at `pos`.
pub open spec fn read_le_u16(bytes: Seq<u8>, pos: int) -> Result<u16, ReadError> {
    match read_bytes(bytes, pos, 2) {
        Ok(s) => Ok(le_u16_of(s)),
        Err(e) => Err(e),
    }
}

/// What [`Reader::le_u32`] returns at `pos`.
pub open spec fn read_le_u32(bytes: Seq<u8>, pos: int) -> Result<u32, ReadError> {
    match read_bytes(bytes, pos, 4) {
        Ok(s) => Ok(le_u32_of(s)),
        Err(e) => Err(e),
    }
}

/// What [`Reader::le_u64`] returns at `pos`.
pub open spec fn read_le_u64(bytes: Seq<u8>, pos: int) -> Result<u64, ReadError> {
    match read_bytes(bytes, pos, 8) {
        Ok(s) => Ok(le_u64_of(s)),
        Err(e) => Err(e),
    }
}

/// What [`Reader::le_i32`] returns at `pos`.
pub open spec fn read_le_i32(bytes: Seq<u8>, pos: int) -> Result<i32, ReadError> {
    match read_bytes(bytes, pos, 4) {
        Ok(s) => Ok(le_i32_of(s)),
        Err(e) => Err(e),
    }
}

/// What [`Reader::be_i16`] returns at `pos`.
pub open spec fn read_be_i16(bytes: Seq<u8>, pos: int) -> Result<i16, ReadError> {
    match read_bytes(bytes, pos, 2) {
        Ok(s) => Ok(be_i16_of(s)),
        Err(e) => Err(e),
    }
}

/// `buf` with `data` written over its front.
pub open spec fn filled(buf: Seq<u8>, data: Seq<u8>) -> Seq<u8> {
    data + buf.subrange(data.len() as int, buf.len() as int)
}

/// A reader that reports the end of the data once a set number of bytes
/// has been consumed from it, though the data may go on.
pub struct CappedReader<'a> {
    inner: Reader<'a>,
    limit: usize,
}

impl<'a> CappedReader<'a> {
    /// The reader underneath, as far as it has been moved.
    pub closed spec fn reader(self) -> Reader<'a> {
        self.inner
    }

    /// The number of bytes that may still be consumed.
    pub closed spec fn limit(self) -> nat {
        self.limit as nat
    }

    /// The bytes that can still be had: what is left of the data, cut off
    /// at the limit.
    pub open spec fn buffer(self) -> Seq<u8> {
        let bytes = self.reader().bytes();
        let pos = self.reader().pos() as int;
        bytes.subrange(pos, read_end(bytes, pos, self.limit() as int))
    }

    /// `after` is this reader once `n` bytes have been consumed from it.
    pub open spec fn consumed(self, after: Self, n: int) -> bool {
        &&& after.reader().bytes() == self.reader().bytes()
        &&& after.reader().pos() == self.reader().pos() + n
        &&& after.limit() == self.limit() - n
    }

    /// Reads bytes into the front of `buf`: as many as `buf` holds, as the
    /// limit allows and as are left. Returns their number; 0 says that the
    /// limit or the end of the data is reached, or that `buf` is empty.
    pub fn read(&mut self, buf: &mut [u8]) -> (n: usize)
        ensures
            n == vstd::math::min(old(buf)@.len() as int, old(self).buffer().len() as int),
            old(self).consumed(*final(self), n as int),
            final(buf)@ == filled(old(buf)@, old(self).buffer().subrange(0, n as int)),
    {
        proof {
            use_type_invariant(&self.inner);
        }
        let len = buf.len();
        let max = if len <= self.limit {
            len
        } else {
            self.limit
        };
        let (arrived, _) = self.inner.advance(max);
        let n = arrived.len();
        self.limit = self.limit - n;
        let mut i: usize = 0;
        while i < n
            invariant
                i <= n,
                n == arrived@.len(),
                n <= len,
                buf@.len() == len,
                forall|j: int| 0 <= j < i ==> buf@[j] == arrived@[j],
                forall|j: int| i <= j < len ==> buf@[j] == old(buf)@[j],
            decreases n - i,
        {
            buf[i] = arrived[i];
            i += 1;
        }
        assert(arrived@ =~= old(self).buffer().subrange(0, n as int));
        assert(buf@ =~= filled(old(buf)@, arrived@));
        n
    }

    /// The bytes that can still be had, without consuming them.
    pub fn fill_buf(&self) -> (buf: &'a [u8])
        ensures
            buf@ == self.buffer(),
    {
        proof {
            use_type_invariant(&self.inner);
        }
        let start = self.inner.position;
        let left = self.inner.data.len() - start;
        let cap = if left <= self.limit {
            left
        } else {
            self.limit
        };
        slice_subrange(self.inner.data, start, start + cap)
    }

    /// Marks `amt` bytes as consumed, or as many as the limit still allows
    /// if that is less. No more may be consumed than are left of the data.
    pub fn consume(&mut self, amt: usize)
        requires
            vstd::math::min(amt as int, old(self).limit() as int) <= old(self).reader().bytes().len()
                - old(self).reader().pos(),
        ensures
            old(self).consumed(
                *final(self),
                vstd::math::min(amt as int, old(self).limit() as int),
            ),
    {
        let amt = if amt <= self.limit {
            amt
        } else {
            self.limit
        };
        self.limit = self.limit - amt;
        let _ = self.inner.advance(amt);
    }

    /// The reader underneath, where the bounded reads have left it.
    pub fn into_inner(self) -> (reader: Reader<'a>)
        ensures
            reader == self.reader(),
    {
        self.inner
    }
}

} // verus!
