//! The errors of header parsing. Each layer wraps the error of the layer
//! below and adds what it knows: the reader the byte position, the chunk its
//! index in the list, the stream its index in the bank.

use crate::read::ReadError;
use vstd::prelude::*;

verus! {

/// What went wrong while a file header was parsed.
#[derive(Clone, Copy, Debug, PartialEq, Eq, Structural)]
pub enum HeaderErrorKind {
    /// The file does not begin with the signature.
    Magic,
    /// The format version could not be read.
    Version,
    /// The format version is not one that is known.
    UnknownVersion { version: u32 },
    /// The number of streams could not be read.
    StreamCount,
    /// The bank holds no stream.
    ZeroStreams,
    /// The size of the stream headers could not be read.
    StreamHeadersSize,
    /// The size of the name table could not be read.
    NameTableSize,
    /// The total size of the stream data could not be read.
    TotalStreamSize,
    /// The bank holds no stream data.
    ZeroTotalStreamSize,
    /// The audio format could not be read.
    AudioFormat,
    /// The audio format is not one that is known.
    UnknownAudioFormat { flag: u32 },
    /// The encoding flags could not be read.
    EncodingFlags,
    /// The unused rest of the base header could not be read.
    Metadata,
    /// A stream header could not be parsed.
    StreamHeader,
    /// The data of the stream at `index` does not end behind its start.
    ZeroStreamSize { index: u32 },
    /// The stream headers did not end where the base header says they do.
    WrongHeaderSize { expected: u64, actual: u64 },
    /// The stream names could not be read.
    NameTable,
}

/// The error underneath a [`HeaderError`].
#[derive(Clone, Copy, Debug, PartialEq, Eq, Structural)]
pub enum HeaderErrorSource {
    Read(ReadError),
    Stream(StreamError),
    NameTable(NameError),
}

/// A file header that could not be parsed.
#[derive(Clone, Copy, Debug, PartialEq, Eq, Structural)]
pub struct HeaderError {
    pub kind: HeaderErrorKind,
    pub source: Option<HeaderErrorSource>,
}

impl HeaderError {
    /// An error with nothing underneath.
    pub fn new(kind: HeaderErrorKind) -> (e: Self)
        ensures
            e == (HeaderError { kind, source: None }),
    {
        HeaderError { kind, source: None }
    }

    /// An error that a failed read has caused.
    pub fn new_with_source(kind: HeaderErrorKind, source: ReadError) -> (e: Self)
        ensures
            e == (HeaderError { kind, source: Some(HeaderErrorSource::Read(source)) }),
    {
        HeaderError { kind, source: Some(HeaderErrorSource::Read(source)) }
    }

    /// The function that makes of a failed read the error of the kind
    /// `kind` that the read has caused.
    pub fn factory(kind: HeaderErrorKind) -> (f: impl FnOnce(ReadError) -> Self)
        ensures
            forall|source: ReadError| call_requires(f, (source,)),
            forall|source: ReadError, e: Self|
                call_ensures(f, (source,), e) ==> e == (HeaderError {
                    kind,
                    source: Some(HeaderErrorSource::Read(source)),
                }),
    {
        move |source: ReadError| -> (e: Self)
            ensures
                e == (HeaderError { kind, source: Some(HeaderErrorSource::Read(source)) }),
            { HeaderError::new_with_source(kind, source) }
    }

    pub fn kind(&self) -> (k: HeaderErrorKind)
        ensures
            k == self.kind,
    {
        self.kind
    }

    /// Whether a stream header failed for the reason `kind`.
    pub fn is_stream_err_kind(&self, kind: StreamErrorKind) -> (b: bool)
        ensures
            b == (self.source matches Some(HeaderErrorSource::Stream(e)) && e.kind == kind),
    {
        match self.source {
            Some(HeaderErrorSource::Stream(e)) => e.kind == kind,
            _ => false,
        }
    }

    /// Whether a chunk of a stream header failed for the reason `kind`.
    pub fn is_chunk_err_kind(&self, kind: ChunkErrorKind) -> (b: bool)
        ensures
            b == (self.source matches Some(HeaderErrorSource::Stream(s)) && s.source matches Some(
                StreamErrorSource::Chunk(c),
            ) && c.kind == kind),
    {
        match self.source {
            Some(HeaderErrorSource::Stream(s)) => match s.source {
                Some(StreamErrorSource::Chunk(c)) => c.kind == kind,
                _ => false,
            },
            _ => false,
        }
    }

    /// The failed read at the bottom of this error, if a read has caused it.
    pub open spec fn read_error_of(self) -> Option<ReadError> {
        match self.source {
            None => None,
            Some(HeaderErrorSource::Read(e)) => Some(e),
            Some(HeaderErrorSource::Stream(s)) => s.read_error_of(),
            Some(HeaderErrorSource::NameTable(n)) => n.read_error_of(),
        }
    }

    /// The failed read at the bottom of this error, if a read has caused it.
    pub fn read_error(&self) -> (r: Option<ReadError>)
        ensures
            r == self.read_error_of(),
    {
        match self.source {
            None => None,
            Some(HeaderErrorSource::Read(e)) => Some(e),
            Some(HeaderErrorSource::Stream(s)) => s.read_error(),
            Some(HeaderErrorSource::NameTable(n)) => n.read_error(),
        }
    }
}

impl From<StreamError> for HeaderError {
    /// An error that a stream header has caused.
    fn from(value: StreamError) -> (e: Self) {
        HeaderError {
            kind: HeaderErrorKind::StreamHeader,
            source: Some(HeaderErrorSource::Stream(value)),
        }
    }
}

impl vstd::std_specs::convert::FromSpecImpl<StreamError> for HeaderError {
    open spec fn obeys_from_spec() -> bool {
        true
    }

    open spec fn from_spec(value: StreamError) -> Self {
        HeaderError {
            kind: HeaderErrorKind::StreamHeader,
            source: Some(HeaderErrorSource::Stream(value)),
        }
    }
}

impl From<NameError> for HeaderError {
    /// An error that a stream name has caused.
    fn from(value: NameError) -> (e: Self) {
        HeaderError {
            kind: HeaderErrorKind::NameTable,
            source: Some(HeaderErrorSource::NameTable(value)),
        }
    }
}

impl vstd::std_specs::convert::FromSpecImpl<NameError> for HeaderError {
    open spec fn obeys_from_spec() -> bool {
        true
    }

    open spec fn from_spec(value: NameError) -> Self {
        HeaderError {
            kind: HeaderErrorKind::NameTable,
            source: Some(HeaderErrorSource::NameTable(value)),
        }
    }
}

/// What went wrong while a stream header was parsed.
#[derive(Clone, Copy, Debug, PartialEq, Eq, Structural)]
pub enum StreamErrorKind {
    /// The packed word of the stream could not be read.
    StreamInfo,
    /// The sample rate selector stands for no rate.
    UnknownSampleRate { flag: u8 },
    /// The stream holds no samples.
    ZeroSamples,
    /// A chunk of the stream header could not be parsed.
    Chunk,
}

/// The error underneath a [`StreamError`].
#[derive(Clone, Copy, Debug, PartialEq, Eq, Structural)]
pub enum StreamErrorSource {
    Read(ReadError),
    Chunk(ChunkError),
}

/// A stream header that could not be parsed, with the index of the stream.
#[derive(Clone, Copy, Debug, PartialEq, Eq, Structural)]
pub struct StreamError {
    pub index: u32,
    pub kind: StreamErrorKind,
    pub source: Option<StreamErrorSource>,
}

impl StreamError {
    /// An error with nothing underneath.
    pub fn new(index: u32, kind: StreamErrorKind) -> (e: Self)
        ensures
            e == (StreamError { index, kind, source: None }),
    {
        StreamError { index, kind, source: None }
    }

    /// An error that a failed read has caused.
    pub fn new_with_source(index: u32, kind: StreamErrorKind, source: ReadError) -> (e: Self)
        ensures
            e == (StreamError { index, kind, source: Some(StreamErrorSource::Read(source)) }),
    {
        StreamError { index, kind, source: Some(StreamErrorSource::Read(source)) }
    }

    /// The function that makes of a failed read the error of the stream at
    /// `index` that the read has caused.
    pub fn factory(index: u32, kind: StreamErrorKind) -> (f: impl FnOnce(ReadError) -> Self)
        ensures
            forall|source: ReadError| call_requires(f, (source,)),
            forall|source: ReadError, e: Self|
                call_ensures(f, (source,), e) ==> e == (StreamError {
                    index,
                    kind,
                    source: Some(StreamErrorSource::Read(source)),
                }),
    {
        move |source: ReadError| -> (e: Self)
            ensures
                e == (StreamError { index, kind, source: Some(StreamErrorSource::Read(source)) }),
            { StreamError::new_with_source(index, kind, source) }
    }

    pub fn kind(&self) -> (k: StreamErrorKind)
        ensures
            k == self.kind,
    {
        self.kind
    }

    /// The failed read at the bottom of this error, if a read has caused it.
    pub open spec fn read_error_of(self) -> Option<ReadError> {
        match self.source {
            None => None,
            Some(StreamErrorSource::Read(e)) => Some(e),
            Some(StreamErrorSource::Chunk(c)) => c.source,
        }
    }

    /// The failed read at the bottom of this error, if a read has caused it.
    pub fn read_error(&self) -> (r: Option<ReadError>)
        ensures
            r == self.read_error_of(),
    {
        match self.source {
            None => None,
            Some(StreamErrorSource::Read(e)) => Some(e),
            Some(StreamErrorSource::Chunk(c)) => c.source,
        }
    }
}

/// What went wrong while a chunk of a stream header was parsed.
#[derive(Clone, Copy, Debug, PartialEq, Eq, Structural)]
pub enum ChunkErrorKind {
    /// The packed word of the chunk could not be read.
    Flag,
    /// The kind selector stands for no kind of chunk.
    UnknownType { flag: u8 },
    /// The number of channels could not be read.
    ChannelCount,
    /// The chunk sets the number of channels to 0.
    ZeroChannels,
    /// The sample rate could not be read.
    SampleRate,
    /// The chunk sets the sample rate to 0.
    ZeroSampleRate,
    /// The start of the loop could not be read.
    LoopStart,
    /// The end of the loop could not be read.
    LoopEnd,
    /// The loop does not end behind its start.
    ZeroLengthLoop,
    /// The DSP coefficients could not be read.
    DspCoefficients,
    /// The checksum of the Vorbis setup header could not be read.
    VorbisCrc32,
    /// The number of Vorbis layers could not be read.
    VorbisLayerCount,
    /// There are more Vorbis layers than 255.
    TooManyVorbisLayers { layers: u32 },
    /// The layers leave the stream without a channel.
    ZeroVorbisLayers,
    /// The layers give the stream more channels than can be counted.
    TooManyChannels { channels: u32 },
    /// The chunk does not end where its size says: `actual` bytes had been
    /// read of it when that showed, `expected` is its size.
    WrongChunkSize { expected: u32, actual: usize },
}

/// A chunk that could not be parsed, with its index in the chunk list.
#[derive(Clone, Copy, Debug, PartialEq, Eq, Structural)]
pub struct ChunkError {
    pub index: usize,
    pub kind: ChunkErrorKind,
    pub source: Option<ReadError>,
}

impl ChunkError {
    /// An error with nothing underneath.
    pub fn new(index: usize, kind: ChunkErrorKind) -> (e: Self)
        ensures
            e == (ChunkError { index, kind, source: None }),
    {
        ChunkError { index, kind, source: None }
    }

    /// An error that a failed read has caused.
    pub fn new_with_source(index: usize, kind: ChunkErrorKind, source: ReadError) -> (e: Self)
        ensures
            e == (ChunkError { index, kind, source: Some(source) }),
    {
        ChunkError { index, kind, source: Some(source) }
    }

    pub fn kind(&self) -> (k: ChunkErrorKind)
        ensures
            k == self.kind,
    {
        self.kind
    }

    /// The function that makes of a failed read the error of the chunk at
    /// `index` that the read has caused.
    pub fn factory(index: usize, kind: ChunkErrorKind) -> (f: impl FnOnce(ReadError) -> Self)
        ensures
            forall|source: ReadError| call_requires(f, (source,)),
            forall|source: ReadError, e: Self|
                call_ensures(f, (source,), e) ==> e == (ChunkError {
                    index,
                    kind,
                    source: Some(source),
                }),
    {
        move |source: ReadError| -> (e: Self)
            ensures
                e == (ChunkError { index, kind, source: Some(source) }),
            { ChunkError::new_with_source(index, kind, source) }
    }

    /// The error of the stream at `stream_index` that this chunk has caused.
    pub fn into_stream_err(self, stream_index: u32) -> (e: StreamError)
        ensures
            e == (StreamError {
                index: stream_index,
                kind: StreamErrorKind::Chunk,
                source: Some(StreamErrorSource::Chunk(self)),
            }),
    {
        StreamError {
            index: stream_index,
            kind: StreamErrorKind::Chunk,
            source: Some(StreamErrorSource::Chunk(self)),
        }
    }
}

/// What went wrong while a stream name was read.
#[derive(Clone, Copy, Debug, PartialEq, Eq, Structural)]
pub enum NameErrorKind {
    /// The offset of the name could not be read.
    NameOffset,
    /// The name could not be read, or does not end in a zero byte.
    Name,
    /// The name is not valid UTF-8.
    Utf8,
}

/// The cause of a [`NameError`].
#[derive(Clone, Copy, Debug, PartialEq, Eq, Structural)]
pub enum NameErrorSource {
    /// A read failed.
    Read(ReadError),
    /// The bytes of the name hold no zero byte.
    CStr,
    /// The bytes before the zero byte are not valid UTF-8.
    Utf8,
}

/// A stream name that could not be read, with the index of the stream.
#[derive(Clone, Copy, Debug, PartialEq, Eq, Structural)]
pub struct NameError {
    pub index: u32,
    pub kind: NameErrorKind,
    pub source: NameErrorSource,
}

impl NameError {
    /// An error that a failed read has caused.
    pub fn from_read(index: u32, kind: NameErrorKind, source: ReadError) -> (e: Self)
        ensures
            e == (NameError { index, kind, source: NameErrorSource::Read(source) }),
    {
        NameError { index, kind, source: NameErrorSource::Read(source) }
    }

    /// The function that makes of a failed read the error of the name at
    /// `index` that the read has caused.
    pub fn read_factory(index: u32, kind: NameErrorKind) -> (f: impl FnOnce(ReadError) -> Self)
        ensures
            forall|source: ReadError| call_requires(f, (source,)),
            forall|source: ReadError, e: Self|
                call_ensures(f, (source,), e) ==> e == (NameError {
                    index,
                    kind,
                    source: NameErrorSource::Read(source),
                }),
    {
        move |source: ReadError| -> (e: Self)
            ensures
                e == (NameError { index, kind, source: NameErrorSource::Read(source) }),
            { NameError::from_read(index, kind, source) }
    }

    /// The error of a name without a zero byte.
    pub fn from_cstr(index: u32) -> (e: Self)
        ensures
            e == (NameError { index, kind: NameErrorKind::Name, source: NameErrorSource::CStr }),
    {
        NameError { index, kind: NameErrorKind::Name, source: NameErrorSource::CStr }
    }

    /// The error of a name that is not valid UTF-8.
    pub fn from_utf8(index: u32) -> (e: Self)
        ensures
            e == (NameError { index, kind: NameErrorKind::Utf8, source: NameErrorSource::Utf8 }),
    {
        NameError { index, kind: NameErrorKind::Utf8, source: NameErrorSource::Utf8 }
    }

    pub fn kind(&self) -> (k: NameErrorKind)
        ensures
            k == self.kind,
    {
        self.kind
    }

    /// The failed read that has caused this error, if one has.
    pub open spec fn read_error_of(self) -> Option<ReadError> {
        match self.source {
            NameErrorSource::Read(e) => Some(e),
            _ => None,
        }
    }

    /// The failed read that has caused this error, if one has.
    pub fn read_error(&self) -> (r: Option<ReadError>)
        ensures
            r == self.read_error_of(),
    {
        match self.source {
            NameErrorSource::Read(e) => Some(e),
            _ => None,
        }
    }
}

} // verus!
