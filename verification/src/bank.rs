//! A sound bank: its file header, and its streams behind it.

use crate::header::error::HeaderError;
use crate::header::model::header_at;
use crate::header::model::HeaderView;
use crate::header::AudioFormat;
use crate::header::Header;
use crate::read::read_unit;
use crate::read::ReadError;
use crate::read::Reader;
use crate::stream::LazyStream;
use crate::stream::StreamIntoIter;
use vstd::prelude::*;

verus! {

/// Represents an error that can occur when parsing a sound bank.
///
/// This type is returned from [`Bank::new`] when file header parsing fails.
#[derive(Clone, Copy, Debug, PartialEq, Eq, Structural)]
pub struct DecodeError {
    pub inner: HeaderError,
}

impl From<HeaderError> for DecodeError {
    /// The error of a file header that could not be parsed.
    fn from(value: HeaderError) -> (e: Self) {
        DecodeError { inner: value }
    }
}

impl vstd::std_specs::convert::FromSpecImpl<HeaderError> for DecodeError {
    open spec fn obeys_from_spec() -> bool {
        true
    }

    open spec fn from_spec(value: HeaderError) -> Self {
        DecodeError { inner: value }
    }
}

/// The cause of a [`LazyStreamError`].
#[derive(Debug)]
pub enum LazyStreamErrorSource<E> {
    /// The data of the stream could not be passed over.
    Read(ReadError),
    /// The function that was given the stream failed.
    Other(E),
}

/// Represents an error that can occur when reading sound bank streams with [`Bank::read_streams`].
#[derive(Debug)]
pub struct LazyStreamError<E> {
    pub index: u32,
    pub source: LazyStreamErrorSource<E>,
}

impl<E> LazyStreamError<E> {
    /// The error of the stream at `index` whose data could not be passed over.
    pub fn from_read(index: u32, source: ReadError) -> (e: Self)
        ensures
            e.index == index,
            e.source == LazyStreamErrorSource::<E>::Read(source),
    {
        LazyStreamError { index, source: LazyStreamErrorSource::Read(source) }
    }

    /// The error of the stream at `index` that the function given it returned.
    pub fn from_other(index: u32, source: E) -> (e: Self)
        ensures
            e.index == index,
            e.source == LazyStreamErrorSource::Other(source),
    {
        LazyStreamError { index, source: LazyStreamErrorSource::Other(source) }
    }
}

/// The distance from the data of the first stream to that of the stream
/// at `index`: the sizes of the streams before it, added up.
pub open spec fn offset_of(header: HeaderView, index: int) -> int
    decreases index,
{
    if index <= 0 {
        0
    } else {
        offset_of(header, index - 1) + header.stream_info[index - 1].size
    }
}

/// An FMOD sound bank.
///
/// The FMOD sound bank is a container format that can contain multiple streams/songs.
/// All streams have the same [`AudioFormat`].
/// Decoding and encoding is performed lazily.
pub struct Bank<'a> {
    header: Header,
    read: Reader<'a>,
}

impl<'a> Bank<'a> {
    /// What the file header of the bank says.
    pub closed spec fn header(self) -> HeaderView {
        self.header@
    }

    /// The bytes of the bank.
    pub closed spec fn bytes(self) -> Seq<u8> {
        self.read.bytes()
    }

    /// Where the stream data begins in the bytes of the bank.
    pub closed spec fn pos(self) -> nat {
        self.read.pos()
    }

    /// The header of a bank is well-formed.
    #[verifier::type_invariant]
    pub open spec fn wf(self) -> bool {
        self.header().wf()
    }

    /// Creates a new [`Bank`] by parsing the bytes of a sound bank.
    ///
    /// # Errors
    ///
    /// This function returns an error if parsing of the sound bank's file header failed.
    /// See [`DecodeError`] for more information.
    pub fn new(source: &'a [u8]) -> (r: Result<Self, DecodeError>)
        ensures
            match r {
                Ok(bank) => bank.bytes() == source@ && bank.header().wf() && header_at(source@, 0)
                    == (Ok::<_, HeaderError>(bank.header()), bank.pos() as int),
                Err(e) => header_at(source@, 0).0 == Err::<HeaderView, _>(e.inner),
            },
    {
        let mut read = Reader::new(source);
        match Header::parse(&mut read) {
            Ok(header) => Ok(Bank { header, read }),
            Err(e) => Err(DecodeError::from(e)),
        }
    }

    /// Returns the audio format of streams in the sound bank.
    ///
    /// See [`AudioFormat`] for the list of known formats.
    #[must_use]
    pub fn format(&self) -> (format: AudioFormat)
        ensures
            format == self.header().format,
    {
        self.header.format
    }

    /// Returns the number of streams in the sound bank, which is never 0.
    #[must_use]
    pub fn num_streams(&self) -> (count: u32)
        ensures
            count == self.header().stream_info.len(),
            count > 0,
    {
        proof {
            use_type_invariant(self);
        }
        self.header.stream_info.len() as u32
    }

    /// Whether `stream` is the stream at `index` of this bank, as
    /// [`Bank::read_streams`] hands it out: with what the header says of it,
    /// and with a reader that stands at the start of its data.
    pub open spec fn presents(self, stream: LazyStream, index: int) -> bool {
        &&& stream.index_of() == index
        &&& stream.format_of() == self.header().format
        &&& stream.flags_of() == self.header().flags
        &&& stream.info() == self.header().stream_info[index]
        &&& stream.bytes() == self.bytes()
        &&& stream.pos() == self.pos() + offset_of(self.header(), index)
    }

    /// Whether `f`, given the stream at `index`, can have returned `r`.
    pub open spec fn served<F: Fn(LazyStream) -> Result<(), E>, E>(
        self,
        f: F,
        index: int,
        r: Result<(), E>,
    ) -> bool {
        exists|stream: LazyStream| self.presents(stream, index) && call_ensures(f, (stream,), r)
    }

    /// Whether `f`, given the stream at `index`, can have succeeded, and
    /// the data of the stream is all there.
    pub open spec fn passed<F: Fn(LazyStream) -> Result<(), E>, E>(self, f: F, index: int) -> bool {
        &&& self.holds(index)
        &&& exists|stream: LazyStream, r: Result<(), E>|
            self.presents(stream, index) && r is Ok && call_ensures(f, (stream,), r)
    }

    /// Whether the data of the stream at `index` is all there.
    pub open spec fn holds(self, index: int) -> bool {
        read_unit(
            self.bytes(),
            self.pos() + offset_of(self.header(), index),
            self.header().stream_info[index].size as int,
        ) is Ok
    }

    /// Sequentially reads streams from the sound bank, consuming this [`Bank`].
    /// Streams can be accessed within the function `f` as they are read.
    /// See [`LazyStream`] for more information.
    ///
    /// # Errors
    ///
    /// This function returns an error if:
    /// - an error was returned from `f`
    /// - the data of a stream is not all there
    ///
    /// See [`LazyStreamError`] for more information.
    pub fn read_streams<F, E>(self, f: F) -> (r: Result<(), LazyStreamError<E>>) where
        F: Fn(LazyStream) -> Result<(), E>,

        requires
            forall|stream: LazyStream| call_requires(f, (stream,)),
        ensures
            match r {
                Ok(_) => forall|i: int|
                    0 <= i < self.header().stream_info.len() ==> #[trigger] self.passed(f, i),
                Err(e) => {
                    &&& e.index < self.header().stream_info.len()
                    &&& forall|i: int| 0 <= i < e.index ==> #[trigger] self.passed(f, i)
                    &&& match e.source {
                        LazyStreamErrorSource::Other(other) => self.served(
                            f,
                            e.index as int,
                            Err(other),
                        ),
                        LazyStreamErrorSource::Read(failed) => (exists|
                            stream: LazyStream,
                            r: Result<(), E>,
                        |
                            self.presents(stream, e.index as int) && r is Ok && call_ensures(
                                f,
                                (stream,),
                                r,
                            )) && read_unit(
                            self.bytes(),
                            self.pos() + offset_of(self.header(), e.index as int),
                            self.header().stream_info[e.index as int].size as int,
                        ) == Err::<(), _>(failed),
                    }
                },
            },
    {
        proof {
            use_type_invariant(&self);
        }
        let Bank { header, mut read } = self;
        let count = header.stream_info.len();
        let mut index: usize = 0;
        while index < count
            invariant
                index <= count,
                count == header.stream_info@.len(),
                count == self.header().stream_info.len(),
                count <= u32::MAX,
                header@ == self.header(),
                read.bytes() == self.bytes(),
                read.pos() == self.pos() + offset_of(self.header(), index as int),
                forall|stream: LazyStream| call_requires(f, (stream,)),
                forall|i: int| 0 <= i < index ==> #[trigger] self.passed(f, i),
            decreases count - index,
        {
            let info = &header.stream_info[index];
            let stream = LazyStream::new(
                index as u32,
                header.format,
                header.flags,
                info,
                read.cursor(),
            );
            assert(self.header().stream_info[index as int] == info@);
            let ghost handed = stream;
            assert(self.presents(handed, index as int));
            let returned = f(stream);
            assert(call_ensures(f, (handed,), returned));
            match returned {
                Ok(_) => {},
                Err(e) => {
                    assert(self.served(f, index as int, Err(e)));
                    return Err(LazyStreamError::from_other(index as u32, e));
                },
            }
            match read.skip(info.size as usize) {
                Ok(_) => {},
                Err(e) => {
                    return Err(LazyStreamError::from_read(index as u32, e));
                },
            }
            assert(self.passed(f, index as int));
            assert(offset_of(self.header(), index + 1) == offset_of(self.header(), index as int)
                + info.size);
            index += 1;
        }
        Ok(())
    }

    /// The streams of the bank in their order, each read into memory when
    /// it is asked for.
    pub fn into_iter(self) -> (iter: StreamIntoIter<'a>)
        ensures
            iter.index() == 0,
            iter.format() == self.header().format,
            iter.flags() == self.header().flags,
            iter.info() == self.header().stream_info,
            iter.bytes() == self.bytes(),
            iter.pos() == self.pos(),
    {
        StreamIntoIter::new(
            self.header.format,
            self.header.flags,
            self.header.stream_info,
            self.read,
        )
    }
}

} // verus!
