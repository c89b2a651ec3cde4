//! The file header of a sound bank: what it holds and how it is parsed.

pub mod bits;
pub mod error;
pub mod laws;
pub mod model;
pub mod parse;

use crate::header::bits::RawStreamChunk;
use crate::header::bits::RawStreamHeader;
use crate::header::error::ChunkError;
use crate::header::error::ChunkErrorKind;
use crate::header::error::HeaderError;
use crate::header::error::HeaderErrorKind;
use crate::header::error::StreamError;
use crate::header::error::StreamErrorKind;
use crate::header::model::audio_format_of;
use crate::header::model::chunk_of;
use crate::header::model::loop_of;
use crate::header::model::refused;
use crate::header::model::stream_header_of;
use crate::header::model::version_of;
use crate::header::model::with_stream_size;
use crate::header::model::HeaderView;
use crate::header::model::LoopView;
use crate::header::model::StreamHeaderView;
use crate::header::model::StreamInfoView;
use vstd::prelude::*;

verus! {

/// The versions of the container format, which differ in their base header.
#[derive(Clone, Copy, Debug, PartialEq, Eq, Structural)]
pub enum Version {
    V0,
    V1,
}

impl Version {
    /// The version that `value` stands for.
    pub fn try_from(value: u32) -> (r: Result<Version, HeaderError>)
        ensures
            r == match version_of(value) {
                Some(version) => Ok::<Version, HeaderError>(version),
                None => Err(refused(HeaderErrorKind::UnknownVersion { version: value })),
            },
    {
        if value == 0 {
            Ok(Version::V0)
        } else if value == 1 {
            Ok(Version::V1)
        } else {
            Err(HeaderError::new(HeaderErrorKind::UnknownVersion { version: value }))
        }
    }

    /// The length of the base header in bytes.
    pub fn base_header_size(self) -> (size: usize)
        ensures
            size == crate::header::model::base_header_size(self),
    {
        match self {
            Version::V0 => 64,
            Version::V1 => 60,
        }
    }
}

/// The audio formats that the streams of a sound bank can have.
#[derive(Clone, Copy, Debug, PartialEq, Eq, Hash, Structural)]
#[non_exhaustive]
pub enum AudioFormat {
    /// PCM with 8-bit integer samples.
    Pcm8,
    /// PCM with 16-bit integer samples.
    Pcm16,
    /// PCM with 24-bit integer samples.
    Pcm24,
    /// PCM with 32-bit integer samples.
    Pcm32,
    /// PCM with 32-bit float (IEEE 754) samples.
    PcmFloat,
    /// GC ADPCM, used in games for the GameCube, Wii and Wii U.
    GcAdpcm,
    /// IMA ADPCM.
    ImaAdpcm,
    /// VAG, an ADPCM format used in games for the PS1, PS2 and PSP.
    Vag,
    /// HEVAG, an ADPCM format used in games for the PS Vita and PS4.
    HeVag,
    /// XMA, used in games for the Xbox 360.
    Xma,
    /// MPEG.
    Mpeg,
    /// CELT.
    Celt,
    /// ATRAC9, used in PlayStation games.
    Atrac9,
    /// xWMA, used in games for Windows and Xbox systems.
    Xwma,
    /// Vorbis.
    Vorbis,
    /// FADPCM, an ADPCM format of FMOD's own.
    FAdpcm,
    /// Opus.
    Opus,
}

impl AudioFormat {
    /// The audio format that `value` stands for.
    pub fn parse(value: u32) -> (r: Result<AudioFormat, HeaderError>)
        ensures
            r == match audio_format_of(value) {
                Some(format) => Ok::<AudioFormat, HeaderError>(format),
                None => Err(refused(HeaderErrorKind::UnknownAudioFormat { flag: value })),
            },
    {
        match value {
            1 => Ok(AudioFormat::Pcm8),
            2 => Ok(AudioFormat::Pcm16),
            3 => Ok(AudioFormat::Pcm24),
            4 => Ok(AudioFormat::Pcm32),
            5 => Ok(AudioFormat::PcmFloat),
            6 => Ok(AudioFormat::GcAdpcm),
            7 => Ok(AudioFormat::ImaAdpcm),
            8 => Ok(AudioFormat::Vag),
            9 => Ok(AudioFormat::HeVag),
            10 => Ok(AudioFormat::Xma),
            11 => Ok(AudioFormat::Mpeg),
            12 => Ok(AudioFormat::Celt),
            13 => Ok(AudioFormat::Atrac9),
            14 => Ok(AudioFormat::Xwma),
            15 => Ok(AudioFormat::Vorbis),
            16 => Ok(AudioFormat::FAdpcm),
            17 => Ok(AudioFormat::Opus),
            flag => Err(HeaderError::new(HeaderErrorKind::UnknownAudioFormat { flag })),
        }
    }
}

/// The kinds of chunk that a stream header can hold.
#[derive(Clone, Copy, Debug, PartialEq, Eq, Structural)]
pub enum StreamChunkKind {
    Channels,
    SampleRate,
    Loop,
    Comment,
    XmaSeekTable,
    DspCoefficients,
    Atrac9Config,
    XwmaConfig,
    VorbisSeekTable,
    PeakVolume,
    VorbisIntraLayers,
    OpusDataSize,
}

/// What the packed word of a chunk announces: whether another chunk
/// follows, how many bytes the chunk has behind the word, and its kind.
#[derive(Clone, Copy, Debug, PartialEq, Eq, Structural)]
pub struct StreamChunk {
    pub more_chunks: bool,
    pub size: u32,
    pub kind: StreamChunkKind,
}

impl RawStreamChunk {
    /// What the word of the chunk at `chunk_index` announces.
    pub fn parse(self, chunk_index: usize) -> (r: Result<StreamChunk, ChunkError>)
        ensures
            r == chunk_of(self, chunk_index),
            r matches Ok(chunk) ==> chunk.size < 0x100_0000,
    {
        let kind = match self.kind() {
            1 => StreamChunkKind::Channels,
            2 => StreamChunkKind::SampleRate,
            3 => StreamChunkKind::Loop,
            4 => StreamChunkKind::Comment,
            6 => StreamChunkKind::XmaSeekTable,
            7 => StreamChunkKind::DspCoefficients,
            9 => StreamChunkKind::Atrac9Config,
            10 => StreamChunkKind::XwmaConfig,
            11 => StreamChunkKind::VorbisSeekTable,
            13 => StreamChunkKind::PeakVolume,
            14 => StreamChunkKind::VorbisIntraLayers,
            15 => StreamChunkKind::OpusDataSize,
            flag => {
                return Err(ChunkError::new(chunk_index, ChunkErrorKind::UnknownType { flag }));
            },
        };
        Ok(StreamChunk { more_chunks: self.more_chunks(), size: self.size(), kind })
    }
}

/// Loop information associated with a stream.
#[derive(Clone, Copy, Debug, PartialEq, Eq, Hash)]
pub struct Loop {
    start: u32,
    len: u32,
}

impl LoopView {
    /// A loop is not empty, and ends at an offset that `u32` holds.
    pub open spec fn wf(self) -> bool {
        self.len > 0 && self.start + self.len <= u32::MAX
    }
}

impl View for Loop {
    type V = LoopView;

    closed spec fn view(&self) -> LoopView {
        LoopView { start: self.start, len: self.len }
    }
}

impl Loop {
    #[verifier::type_invariant]
    pub open spec fn wf(self) -> bool {
        self@.wf()
    }

    /// The loop from `start` to `end`, which the chunk at `index` holds.
    pub fn parse(index: usize, start: u32, end: u32) -> (r: Result<Loop, ChunkError>)
        ensures
            viewed_loop(r) == loop_of(index, start, end),
    {
        if end <= start {
            Err(ChunkError::new(index, ChunkErrorKind::ZeroLengthLoop))
        } else {
            Ok(Loop { start, len: end - start })
        }
    }

    /// Returns the starting position of the loop.
    /// This value refers to the offset, in bytes, from the start of the stream data.
    #[must_use]
    pub fn start(&self) -> (start: u32)
        ensures
            start == self@.start,
    {
        self.start
    }

    /// Returns the ending position of the loop, which is never 0.
    /// This value refers to the offset, in bytes, from the start of the stream data.
    #[must_use]
    pub fn end(&self) -> (end: u32)
        ensures
            end == self@.start + self@.len,
            end > 0,
    {
        proof {
            use_type_invariant(self);
        }
        self.start + self.len
    }

    /// Returns the length of the loop, in bytes, which is never 0.
    #[must_use]
    pub fn len(&self) -> (len: u32)
        ensures
            len == self@.len,
            len > 0,
    {
        proof {
            use_type_invariant(self);
        }
        self.len
    }
}

/// The result of [`Loop::parse`] seen through the view of the loop.
pub open spec fn viewed_loop(r: Result<Loop, ChunkError>) -> Result<LoopView, ChunkError> {
    match r {
        Ok(l) => Ok(l@),
        Err(e) => Err(e),
    }
}

/// The loop of a stream, if it has one, seen through its view.
pub open spec fn loop_view(stream_loop: Option<Loop>) -> Option<LoopView> {
    match stream_loop {
        Some(l) => Some(l@),
        None => None,
    }
}

/// The coefficients of a stream, if it has them, as a sequence.
pub open spec fn coeffs_view(dsp_coeffs: Option<Vec<i16>>) -> Option<Seq<i16>> {
    match dsp_coeffs {
        Some(coeffs) => Some(coeffs@),
        None => None,
    }
}

/// The name of a stream, if it has one, as a sequence of characters.
pub open spec fn name_view(name: Option<String>) -> Option<Seq<char>> {
    match name {
        Some(name) => Some(name@),
        None => None,
    }
}

/// A stream header while its chunks are read. The sample rate and the
/// numbers of channels and of samples are never 0.
#[derive(Clone, Debug, PartialEq, Eq)]
pub struct StreamHeader {
    pub has_chunks: bool,
    pub sample_rate: u32,
    pub channels: u16,
    pub data_offset: u32,
    pub num_samples: u32,
    pub stream_loop: Option<Loop>,
    pub dsp_coeffs: Option<Vec<i16>>,
    pub vorbis_crc32: Option<u32>,
}

impl StreamHeaderView {
    /// The sample rate and the numbers of channels and of samples are not 0.
    pub open spec fn wf(self) -> bool {
        self.sample_rate > 0 && self.channels > 0 && self.num_samples > 0
    }
}

impl View for StreamHeader {
    type V = StreamHeaderView;

    open spec fn view(&self) -> StreamHeaderView {
        StreamHeaderView {
            has_chunks: self.has_chunks,
            sample_rate: self.sample_rate,
            channels: self.channels,
            data_offset: self.data_offset,
            num_samples: self.num_samples,
            stream_loop: loop_view(self.stream_loop),
            dsp_coeffs: coeffs_view(self.dsp_coeffs),
            vorbis_crc32: self.vorbis_crc32,
        }
    }
}

impl RawStreamHeader {
    /// The stream header that the word of the stream at `stream_index` holds.
    pub fn parse(self, stream_index: u32) -> (r: Result<StreamHeader, StreamError>)
        ensures
            crate::read::viewed(r) == stream_header_of(self, stream_index),
            r matches Ok(stream) ==> stream@.wf(),
    {
        let sample_rate: u32 = match self.sample_rate() {
            0 => 4000,
            1 => 8000,
            2 => 11000,
            3 => 11025,
            4 => 16000,
            5 => 22050,
            6 => 24000,
            7 => 32000,
            8 => 44100,
            9 => 48000,
            10 => 96000,
            flag => {
                return Err(
                    StreamError::new(stream_index, StreamErrorKind::UnknownSampleRate { flag }),
                );
            },
        };
        let channels: u16 = match self.channels() {
            0 => 1,
            1 => 2,
            2 => 6,
            _ => 8,
        };
        let num_samples = self.num_samples();
        if num_samples == 0 {
            return Err(StreamError::new(stream_index, StreamErrorKind::ZeroSamples));
        }
        // Loops and the like come from the chunks, which are read after the word.

        Ok(
            StreamHeader {
                has_chunks: self.has_chunks(),
                sample_rate,
                channels,
                data_offset: self.data_offset() * 32,
                num_samples,
                stream_loop: None,
                dsp_coeffs: None,
                vorbis_crc32: None,
            },
        )
    }
}

/// All that a bank says of one stream. The sample rate, the numbers of
/// channels and of samples and the size are never 0.
#[derive(Clone, Debug, PartialEq, Eq)]
pub struct StreamInfo {
    pub sample_rate: u32,
    pub channels: u16,
    pub num_samples: u32,
    pub stream_loop: Option<Loop>,
    pub dsp_coeffs: Option<Vec<i16>>,
    pub vorbis_crc32: Option<u32>,
    pub size: u32,
    pub name: Option<String>,
}

impl StreamInfoView {
    /// The sample rate, the numbers of channels and of samples and the size
    /// are not 0.
    pub open spec fn wf(self) -> bool {
        self.sample_rate > 0 && self.channels > 0 && self.num_samples > 0 && self.size > 0
    }
}

impl View for StreamInfo {
    type V = StreamInfoView;

    open spec fn view(&self) -> StreamInfoView {
        StreamInfoView {
            sample_rate: self.sample_rate,
            channels: self.channels,
            num_samples: self.num_samples,
            stream_loop: loop_view(self.stream_loop),
            dsp_coeffs: coeffs_view(self.dsp_coeffs),
            vorbis_crc32: self.vorbis_crc32,
            size: self.size,
            name: name_view(self.name),
        }
    }
}

/// A copy of `coeffs`.
pub fn copy_coeffs(coeffs: &Option<Vec<i16>>) -> (copy: Option<Vec<i16>>)
    ensures
        coeffs_view(copy) == coeffs_view(*coeffs),
{
    match coeffs {
        Some(coeffs) => {
            let mut copy: Vec<i16> = Vec::new();
            let mut i: usize = 0;
            while i < coeffs.len()
                invariant
                    i <= coeffs@.len(),
                    copy@ == coeffs@.subrange(0, i as int),
                decreases coeffs@.len() - i,
            {
                copy.push(coeffs[i]);
                i += 1;
                assert(copy@ =~= coeffs@.subrange(0, i as int));
            }
            assert(copy@ =~= coeffs@);
            Some(copy)
        },
        None => None,
    }
}

impl StreamHeader {
    /// A copy of the stream header.
    pub fn duplicate(&self) -> (copy: StreamHeader)
        ensures
            copy@ == self@,
    {
        StreamHeader {
            has_chunks: self.has_chunks,
            sample_rate: self.sample_rate,
            channels: self.channels,
            data_offset: self.data_offset,
            num_samples: self.num_samples,
            stream_loop: self.stream_loop,
            dsp_coeffs: copy_coeffs(&self.dsp_coeffs),
            vorbis_crc32: self.vorbis_crc32,
        }
    }

    /// What is known of the stream once the size of its data is.
    pub fn with_stream_size(self, size: u32) -> (info: StreamInfo)
        ensures
            info@ == with_stream_size(self@, size),
    {
        // The name comes from the name table, which is read later.
        StreamInfo {
            sample_rate: self.sample_rate,
            channels: self.channels,
            num_samples: self.num_samples,
            stream_loop: self.stream_loop,
            dsp_coeffs: self.dsp_coeffs,
            vorbis_crc32: self.vorbis_crc32,
            size,
            name: None,
        }
    }
}

/// The views of `streams`, in their order.
pub open spec fn stream_views(streams: Seq<StreamInfo>) -> Seq<StreamInfoView> {
    streams.map_values(|stream: StreamInfo| stream@)
}

/// All that the file header of a bank says.
#[derive(Clone, Debug, PartialEq, Eq)]
pub struct Header {
    pub format: AudioFormat,
    pub flags: u32,
    pub stream_info: Vec<StreamInfo>,
}

impl HeaderView {
    /// A bank holds at least one stream and no more than `u32` counts, and
    /// what it says of each is well-formed.
    pub open spec fn wf(self) -> bool {
        &&& 0 < self.stream_info.len() <= u32::MAX
        &&& forall|i: int| 0 <= i < self.stream_info.len() ==> (#[trigger] self.stream_info[i]).wf()
    }
}

impl View for Header {
    type V = HeaderView;

    open spec fn view(&self) -> HeaderView {
        HeaderView {
            format: self.format,
            flags: self.flags,
            stream_info: stream_views(self.stream_info@),
        }
    }
}

} // verus!
