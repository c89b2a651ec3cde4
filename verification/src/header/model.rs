//! What a file header means: for any bytes and any position in them, the
//! value that parsing yields there or the error that it ends in, and in
//! either case the position at which the reader is left. The parsers of
//! this crate are proved against these functions.

use crate::header::bits::RawStreamChunk;
use crate::header::bits::RawStreamHeader;
use crate::header::error::ChunkError;
use crate::header::error::ChunkErrorKind;
use crate::header::error::HeaderError;
use crate::header::error::HeaderErrorKind;
use crate::header::error::HeaderErrorSource;
use crate::header::error::NameError;
use crate::header::error::NameErrorKind;
use crate::header::error::NameErrorSource;
use crate::header::error::StreamError;
use crate::header::error::StreamErrorKind;
use crate::header::error::StreamErrorSource;
use crate::header::AudioFormat;
use crate::header::StreamChunk;
use crate::header::StreamChunkKind;
use crate::header::Version;
use crate::read::be_i16_of;
use crate::read::read_bytes;
use crate::read::read_end;
use crate::read::read_le_u32;
use crate::read::read_le_u64;
use crate::read::read_u8;
use crate::read::read_unit;
use crate::read::short_by;
use crate::read::ReadError;
use vstd::prelude::*;
use vstd::utf8::decode_utf8;
use vstd::utf8::valid_utf8;

verus! {

/// A loop of a stream: where it starts in the stream data, and its length,
/// both in bytes.
pub struct LoopView {
    pub start: u32,
    pub len: u32,
}

/// A stream header while its chunks are read.
pub struct StreamHeaderView {
    pub has_chunks: bool,
    pub sample_rate: u32,
    pub channels: u16,
    pub data_offset: u32,
    pub num_samples: u32,
    pub stream_loop: Option<LoopView>,
    pub dsp_coeffs: Option<Seq<i16>>,
    pub vorbis_crc32: Option<u32>,
}

/// All that a bank says of one stream.
pub struct StreamInfoView {
    pub sample_rate: u32,
    pub channels: u16,
    pub num_samples: u32,
    pub stream_loop: Option<LoopView>,
    pub dsp_coeffs: Option<Seq<i16>>,
    pub vorbis_crc32: Option<u32>,
    pub size: u32,
    pub name: Option<Seq<char>>,
}

/// All that the file header of a bank says.
pub struct HeaderView {
    pub format: AudioFormat,
    pub flags: u32,
    pub stream_info: Seq<StreamInfoView>,
}

/// The fields at the head of a file, before the stream headers.
pub struct BaseHeader {
    pub version: Version,
    pub num_streams: u32,
    pub stream_headers_size: u32,
    pub name_table_size: u32,
    pub total_stream_size: u32,
    pub format: AudioFormat,
    pub flags: u32,
}

/// The four bytes that every bank begins with: `FSB5`.
pub open spec fn magic() -> Seq<u8> {
    seq![0x46u8, 0x53u8, 0x42u8, 0x35u8]
}

/// The version that a number stands for.
pub open spec fn version_of(value: u32) -> Option<Version> {
    if value == 0 {
        Some(Version::V0)
    } else if value == 1 {
        Some(Version::V1)
    } else {
        None
    }
}

/// The length of the base header, which the version decides.
pub open spec fn base_header_size(version: Version) -> int {
    match version {
        Version::V0 => 64,
        Version::V1 => 60,
    }
}

/// The audio format that a number stands for.
pub open spec fn audio_format_of(value: u32) -> Option<AudioFormat> {
    if value == 1 {
        Some(AudioFormat::Pcm8)
    } else if value == 2 {
        Some(AudioFormat::Pcm16)
    } else if value == 3 {
        Some(AudioFormat::Pcm24)
    } else if value == 4 {
        Some(AudioFormat::Pcm32)
    } else if value == 5 {
        Some(AudioFormat::PcmFloat)
    } else if value == 6 {
        Some(AudioFormat::GcAdpcm)
    } else if value == 7 {
        Some(AudioFormat::ImaAdpcm)
    } else if value == 8 {
        Some(AudioFormat::Vag)
    } else if value == 9 {
        Some(AudioFormat::HeVag)
    } else if value == 10 {
        Some(AudioFormat::Xma)
    } else if value == 11 {
        Some(AudioFormat::Mpeg)
    } else if value == 12 {
        Some(AudioFormat::Celt)
    } else if value == 13 {
        Some(AudioFormat::Atrac9)
    } else if value == 14 {
        Some(AudioFormat::Xwma)
    } else if value == 15 {
        Some(AudioFormat::Vorbis)
    } else if value == 16 {
        Some(AudioFormat::FAdpcm)
    } else if value == 17 {
        Some(AudioFormat::Opus)
    } else {
        None
    }
}

/// The sample rate in Hz that a selector stands for.
pub open spec fn sample_rate_of(flag: u8) -> Option<u32> {
    if flag == 0 {
        Some(4000)
    } else if flag == 1 {
        Some(8000)
    } else if flag == 2 {
        Some(11000)
    } else if flag == 3 {
        Some(11025)
    } else if flag == 4 {
        Some(16000)
    } else if flag == 5 {
        Some(22050)
    } else if flag == 6 {
        Some(24000)
    } else if flag == 7 {
        Some(32000)
    } else if flag == 8 {
        Some(44100)
    } else if flag == 9 {
        Some(48000)
    } else if flag == 10 {
        Some(96000)
    } else {
        None
    }
}

/// The number of channels that a selector of two bits stands for.
pub open spec fn channels_of(flag: u8) -> u16 {
    if flag == 0 {
        1
    } else if flag == 1 {
        2
    } else if flag == 2 {
        6
    } else {
        8
    }
}

/// The kind of chunk that a selector stands for.
pub open spec fn chunk_kind_of(flag: u8) -> Option<StreamChunkKind> {
    if flag == 1 {
        Some(StreamChunkKind::Channels)
    } else if flag == 2 {
        Some(StreamChunkKind::SampleRate)
    } else if flag == 3 {
        Some(StreamChunkKind::Loop)
    } else if flag == 4 {
        Some(StreamChunkKind::Comment)
    } else if flag == 6 {
        Some(StreamChunkKind::XmaSeekTable)
    } else if flag == 7 {
        Some(StreamChunkKind::DspCoefficients)
    } else if flag == 9 {
        Some(StreamChunkKind::Atrac9Config)
    } else if flag == 10 {
        Some(StreamChunkKind::XwmaConfig)
    } else if flag == 11 {
        Some(StreamChunkKind::VorbisSeekTable)
    } else if flag == 13 {
        Some(StreamChunkKind::PeakVolume)
    } else if flag == 14 {
        Some(StreamChunkKind::VorbisIntraLayers)
    } else if flag == 15 {
        Some(StreamChunkKind::OpusDataSize)
    } else {
        None
    }
}

/// The stream header that the packed word of the stream at `index` holds.
/// The sample rate is looked up first, then the number of samples is
/// tested. The data offset is stored in units of 32 bytes.
pub open spec fn stream_header_of(raw: RawStreamHeader, index: u32) -> Result<
    StreamHeaderView,
    StreamError,
> {
    match sample_rate_of(raw.sample_rate_of()) {
        None => Err(
            StreamError {
                index,
                kind: StreamErrorKind::UnknownSampleRate { flag: raw.sample_rate_of() },
                source: None,
            },
        ),
        Some(sample_rate) => if raw.num_samples_of() == 0 {
            Err(StreamError { index, kind: StreamErrorKind::ZeroSamples, source: None })
        } else {
            Ok(
                StreamHeaderView {
                    has_chunks: raw.has_chunks_of(),
                    sample_rate,
                    channels: channels_of(raw.channels_of()),
                    data_offset: (raw.data_offset_of() * 32) as u32,
                    num_samples: raw.num_samples_of(),
                    stream_loop: None,
                    dsp_coeffs: None,
                    vorbis_crc32: None,
                },
            )
        },
    }
}

/// The chunk that the packed word of the chunk at `index` announces.
pub open spec fn chunk_of(raw: RawStreamChunk, index: usize) -> Result<StreamChunk, ChunkError> {
    match chunk_kind_of(raw.kind_of()) {
        None => Err(
            ChunkError {
                index,
                kind: ChunkErrorKind::UnknownType { flag: raw.kind_of() },
                source: None,
            },
        ),
        Some(kind) => Ok(
            StreamChunk { more_chunks: raw.more_chunks_of(), size: raw.size_of(), kind },
        ),
    }
}

/// The loop from `start` to `end`, which must lie behind `start`.
pub open spec fn loop_of(index: usize, start: u32, end: u32) -> Result<LoopView, ChunkError> {
    if end <= start {
        Err(ChunkError { index, kind: ChunkErrorKind::ZeroLengthLoop, source: None })
    } else {
        Ok(LoopView { start, len: (end - start) as u32 })
    }
}

/// The sum of the first `count` big-endian `i16` at `pos`, which wraps
/// around where it leaves the range of `i16`.
pub open spec fn coeff_sum(bytes: Seq<u8>, pos: int, count: nat) -> i16
    decreases count,
{
    if count == 0 {
        0i16
    } else {
        coeff_sum(bytes, pos, (count - 1) as nat).wrapping_add(
            be_i16_of(bytes.subrange(pos + 2 * (count - 1), pos + 2 * count)),
        )
    }
}

/// The coefficient of one channel, and where the reading of it ends. The
/// record of a channel is 46 bytes long, sixteen `i16` that are summed and
/// 14 bytes that are passed over. Where the data ends inside the record,
/// the read that met the end reports it, and the reader is left at the end
/// of the data.
pub open spec fn dsp_record(bytes: Seq<u8>, pos: int) -> (Result<i16, ReadError>, int) {
    let left = bytes.len() - pos;
    if left >= 46 {
        (Ok(coeff_sum(bytes, pos, 16)), pos + 46)
    } else if left >= 32 {
        (Err(short_by(bytes, pos + 32, 14)), bytes.len() as int)
    } else {
        (Err(short_by(bytes, pos + 2 * (left / 2), 2)), bytes.len() as int)
    }
}

/// The coefficients of `channels` channels, whose records follow one
/// another from `pos`, and where the reading of them ends.
pub open spec fn dsp_coeffs(bytes: Seq<u8>, pos: int, channels: nat) -> (
    Result<Seq<i16>, ReadError>,
    int,
)
    decreases channels,
{
    if channels == 0 {
        (Ok(Seq::empty()), pos)
    } else {
        match dsp_coeffs(bytes, pos, (channels - 1) as nat) {
            (Err(e), end) => (Err(e), end),
            (Ok(coeffs), p) => match dsp_record(bytes, p) {
                (Err(e), end) => (Err(e), end),
                (Ok(coeff), end) => (Ok(coeffs.push(coeff)), end),
            },
        }
    }
}

/// Once the record of a channel cannot be read, no number of channels
/// beyond it can be either, and for the same reason.
pub proof fn lemma_dsp_coeffs_fail(bytes: Seq<u8>, pos: int, failed: nat, channels: nat)
    requires
        dsp_coeffs(bytes, pos, failed).0 is Err,
        failed <= channels,
    ensures
        dsp_coeffs(bytes, pos, channels) == dsp_coeffs(bytes, pos, failed),
    decreases channels,
{
    if failed < channels {
        lemma_dsp_coeffs_fail(bytes, pos, failed, (channels - 1) as nat);
    }
}

/// The error of the chunk at `index` that the failed read `e` has caused.
pub open spec fn chunk_failed(index: usize, kind: ChunkErrorKind, e: ReadError) -> ChunkError {
    ChunkError { index, kind, source: Some(e) }
}

/// The error of the chunk at `index` with nothing underneath.
pub open spec fn chunk_refused(index: usize, kind: ChunkErrorKind) -> ChunkError {
    ChunkError { index, kind, source: None }
}

/// What a number that is read at `pos` makes of a stream: the error `kind`
/// where it cannot be read, else what `then` makes of it, four bytes on.
pub open spec fn with_u32(
    bytes: Seq<u8>,
    pos: int,
    index: usize,
    kind: ChunkErrorKind,
    then: spec_fn(u32) -> Result<StreamHeaderView, ChunkError>,
) -> (Result<StreamHeaderView, ChunkError>, int) {
    match read_le_u32(bytes, pos) {
        Err(e) => (Err(chunk_failed(index, kind, e)), read_end(bytes, pos, 4)),
        Ok(value) => (then(value), pos + 4),
    }
}

/// The number of channels of a stream of `channels` channels in `layers`
/// layers each: their product. No layers leave no channel, which is an
/// error, and so is a product that `u16` does not hold.
pub open spec fn layered_channels(index: usize, layers: u32, channels: u16) -> Result<
    u16,
    ChunkError,
> {
    if layers * channels == 0 {
        Err(chunk_refused(index, ChunkErrorKind::ZeroVorbisLayers))
    } else if layers * channels > u16::MAX {
        Err(
            chunk_refused(
                index,
                ChunkErrorKind::TooManyChannels { channels: (layers * channels) as u32 },
            ),
        )
    } else {
        Ok((layers * channels) as u16)
    }
}

/// What the content of a chunk of the kind `kind`, which begins at `pos`,
/// makes of `stream`, and where the reading of it ends. The kinds that are
/// not listed leave the stream as it is and read nothing. After a failed
/// read the reader is left at the end of the data, after any other error
/// behind what was read.
pub open spec fn chunk_body(
    bytes: Seq<u8>,
    pos: int,
    kind: StreamChunkKind,
    index: usize,
    stream: StreamHeaderView,
) -> (Result<StreamHeaderView, ChunkError>, int) {
    match kind {
        StreamChunkKind::Channels => match read_u8(bytes, pos) {
            Err(e) => (
                Err(chunk_failed(index, ChunkErrorKind::ChannelCount, e)),
                read_end(bytes, pos, 1),
            ),
            Ok(channels) => if channels == 0 {
                (Err(chunk_refused(index, ChunkErrorKind::ZeroChannels)), pos + 1)
            } else {
                (Ok(StreamHeaderView { channels: channels as u16, ..stream }), pos + 1)
            },
        },
        StreamChunkKind::SampleRate => with_u32(
            bytes,
            pos,
            index,
            ChunkErrorKind::SampleRate,
            |sample_rate: u32|
                if sample_rate == 0 {
                    Err(chunk_refused(index, ChunkErrorKind::ZeroSampleRate))
                } else {
                    Ok(StreamHeaderView { sample_rate, ..stream })
                },
        ),
        StreamChunkKind::Loop => match read_le_u32(bytes, pos) {
            Err(e) => (
                Err(chunk_failed(index, ChunkErrorKind::LoopStart, e)),
                read_end(bytes, pos, 4),
            ),
            Ok(start) => with_u32(
                bytes,
                pos + 4,
                index,
                ChunkErrorKind::LoopEnd,
                |end: u32|
                    match loop_of(index, start, end) {
                        Err(e) => Err(e),
                        Ok(stream_loop) => Ok(
                            StreamHeaderView { stream_loop: Some(stream_loop), ..stream },
                        ),
                    },
            ),
        },
        StreamChunkKind::DspCoefficients => match dsp_coeffs(bytes, pos, stream.channels as nat) {
            (Err(e), end) => (Err(chunk_failed(index, ChunkErrorKind::DspCoefficients, e)), end),
            (Ok(coeffs), end) => (Ok(StreamHeaderView { dsp_coeffs: Some(coeffs), ..stream }), end),
        },
        StreamChunkKind::VorbisSeekTable => with_u32(
            bytes,
            pos,
            index,
            ChunkErrorKind::VorbisCrc32,
            |crc32: u32| Ok(StreamHeaderView { vorbis_crc32: Some(crc32), ..stream }),
        ),
        StreamChunkKind::VorbisIntraLayers => with_u32(
            bytes,
            pos,
            index,
            ChunkErrorKind::VorbisLayerCount,
            |layers: u32|
                if layers > 255 {
                    Err(chunk_refused(index, ChunkErrorKind::TooManyVorbisLayers { layers }))
                } else {
                    match layered_channels(index, layers, stream.channels) {
                        Err(e) => Err(e),
                        Ok(channels) => Ok(StreamHeaderView { channels, ..stream }),
                    }
                },
        ),
        _ => (Ok(stream), pos),
    }
}

/// Where a chunk of `size` bytes ends that began at `start`, when its
/// content has been read up to `pos`: at `start + size`, whatever lies in
/// between. A chunk whose content has been read beyond its size has the
/// wrong size, and the reader stays where it is. So has a chunk that the
/// data ends in: the number of its bytes that were there is reported, and
/// the reader is left at the end of the data.
pub open spec fn chunk_end(bytes: Seq<u8>, start: int, pos: int, size: u32, index: usize) -> (
    Result<(), ChunkError>,
    int,
) {
    if pos - start > size {
        (
            Err(
                chunk_refused(
                    index,
                    ChunkErrorKind::WrongChunkSize {
                        expected: size,
                        actual: (pos - start) as usize,
                    },
                ),
            ),
            pos,
        )
    } else {
        match read_unit(bytes, pos, start + size - pos) {
            Err(e) => (
                Err(
                    chunk_failed(
                        index,
                        ChunkErrorKind::WrongChunkSize {
                            expected: size,
                            actual: (bytes.len() - start) as usize,
                        },
                        e,
                    ),
                ),
                read_end(bytes, pos, start + size - pos),
            ),
            Ok(_) => (Ok(()), start + size),
        }
    }
}

/// One chunk, which begins at `pos` with its packed word: what it makes of
/// `stream` and whether another chunk follows, and where the reader is
/// left.
pub open spec fn chunk_at(bytes: Seq<u8>, pos: int, index: usize, stream: StreamHeaderView) -> (
    Result<(StreamHeaderView, bool), ChunkError>,
    int,
) {
    match read_le_u32(bytes, pos) {
        Err(e) => (Err(chunk_failed(index, ChunkErrorKind::Flag, e)), read_end(bytes, pos, 4)),
        Ok(word) => match chunk_of(RawStreamChunk { value: word }, index) {
            Err(e) => (Err(e), pos + 4),
            Ok(chunk) => match chunk_body(bytes, pos + 4, chunk.kind, index, stream) {
                (Err(e), end) => (Err(e), end),
                (Ok(changed), read_to) => match chunk_end(
                    bytes,
                    pos + 4,
                    read_to,
                    chunk.size,
                    index,
                ) {
                    (Err(e), end) => (Err(e), end),
                    (Ok(_), end) => (Ok((changed, chunk.more_chunks)), end),
                },
            },
        },
    }
}

/// The chunk list that begins at `pos` with the chunk at `index`: what its
/// chunks, one after the other, make of `stream`, and where the reader is
/// left. The list ends with the first chunk that announces no other.
pub open spec fn chunks(bytes: Seq<u8>, pos: int, index: usize, stream: StreamHeaderView) -> (
    Result<StreamHeaderView, ChunkError>,
    int,
)
    decreases bytes.len() - pos,
{
    match chunk_at(bytes, pos, index, stream) {
        (Err(e), end) => (Err(e), end),
        (Ok((changed, more_chunks)), end) => if more_chunks {
            chunks(bytes, end, (index + 1) as usize, changed)
        } else {
            (Ok(changed), end)
        },
    }
}

/// The header of the stream at `index`, which begins at `pos`: its packed
/// word and, where the word announces them, its chunks. With it, where the
/// reader is left.
pub open spec fn stream_at(bytes: Seq<u8>, pos: int, index: u32) -> (
    Result<StreamHeaderView, StreamError>,
    int,
) {
    match read_le_u64(bytes, pos) {
        Err(e) => (
            Err(
                StreamError {
                    index,
                    kind: StreamErrorKind::StreamInfo,
                    source: Some(StreamErrorSource::Read(e)),
                },
            ),
            read_end(bytes, pos, 8),
        ),
        Ok(word) => match stream_header_of(RawStreamHeader { value: word }, index) {
            Err(e) => (Err(e), pos + 8),
            Ok(stream) => if stream.has_chunks {
                match chunks(bytes, pos + 8, 0, stream) {
                    (Err(e), end) => (
                        Err(
                            StreamError {
                                index,
                                kind: StreamErrorKind::Chunk,
                                source: Some(StreamErrorSource::Chunk(e)),
                            },
                        ),
                        end,
                    ),
                    (Ok(done), end) => (Ok(done), end),
                }
            } else {
                (Ok(stream), pos + 8)
            },
        },
    }
}

/// The headers of the first `count` streams, which follow one another
/// from `pos`, and where the reader is left.
pub open spec fn stream_headers(bytes: Seq<u8>, pos: int, count: nat) -> (
    Result<Seq<StreamHeaderView>, StreamError>,
    int,
)
    decreases count,
{
    if count == 0 {
        (Ok(Seq::empty()), pos)
    } else {
        match stream_headers(bytes, pos, (count - 1) as nat) {
            (Err(e), end) => (Err(e), end),
            (Ok(streams), p) => match stream_at(bytes, p, (count - 1) as u32) {
                (Err(e), end) => (Err(e), end),
                (Ok(stream), end) => (Ok(streams.push(stream)), end),
            },
        }
    }
}

/// The lengths of the first `count` entries of a table of offsets: each
/// entry reaches to the offset that follows it, so the table ends with one
/// offset more than it has entries. An entry that does not end behind its
/// start is an error; the first such entry is reported by its index.
pub open spec fn lengths(offsets: Seq<u32>, count: nat) -> Result<Seq<u32>, nat>
    decreases count,
{
    if count == 0 {
        Ok(Seq::empty())
    } else {
        match lengths(offsets, (count - 1) as nat) {
            Err(index) => Err(index),
            Ok(found) => if offsets[count as int] <= offsets[count - 1] {
                Err((count - 1) as nat)
            } else {
                Ok(found.push((offsets[count as int] - offsets[count - 1]) as u32))
            },
        }
    }
}

/// Once the header of a stream cannot be parsed, no number of streams
/// beyond it can be either, and for the same reason.
pub proof fn lemma_stream_headers_fail(bytes: Seq<u8>, pos: int, failed: nat, count: nat)
    requires
        stream_headers(bytes, pos, failed).0 is Err,
        failed <= count,
    ensures
        stream_headers(bytes, pos, count) == stream_headers(bytes, pos, failed),
    decreases count,
{
    if failed < count {
        lemma_stream_headers_fail(bytes, pos, failed, (count - 1) as nat);
    }
}

/// Once an entry of a table of offsets does not end behind its start, that
/// entry is reported, however many entries are asked for beyond it.
pub proof fn lemma_lengths_fail(offsets: Seq<u32>, failed: nat, count: nat)
    requires
        lengths(offsets, failed) is Err,
        failed <= count,
    ensures
        lengths(offsets, count) == lengths(offsets, failed),
    decreases count,
{
    if failed < count {
        lemma_lengths_fail(offsets, failed, (count - 1) as nat);
    }
}

/// What [`lengths`] returns: a length for each entry, none of them 0, or
/// the index of an entry.
pub proof fn lemma_lengths_bounds(offsets: Seq<u32>, count: nat)
    ensures
        match lengths(offsets, count) {
            Ok(found) => found.len() == count && forall|i: int|
                0 <= i < count ==> #[trigger] found[i] > 0,
            Err(index) => index < count,
        },
    decreases count,
{
    if count > 0 {
        lemma_lengths_bounds(offsets, (count - 1) as nat);
    }
}

/// The data offsets of `streams`, in their order.
pub open spec fn data_offsets(streams: Seq<StreamHeaderView>) -> Seq<u32> {
    streams.map_values(|stream: StreamHeaderView| stream.data_offset)
}

/// What is known of a stream once the size of its data is: all that its
/// header says but where the data lies, and no name yet.
pub open spec fn with_stream_size(stream: StreamHeaderView, size: u32) -> StreamInfoView {
    StreamInfoView {
        sample_rate: stream.sample_rate,
        channels: stream.channels,
        num_samples: stream.num_samples,
        stream_loop: stream.stream_loop,
        dsp_coeffs: stream.dsp_coeffs,
        vorbis_crc32: stream.vorbis_crc32,
        size,
        name: None,
    }
}

/// The streams of a bank of `count` streams whose headers begin at `pos`
/// and whose data is `total` bytes long, and where the reader is left. The
/// data of each stream reaches from its offset to that of the next stream,
/// that of the last one to `total`. A stream without data shows when all
/// the headers are read.
pub open spec fn stream_infos(bytes: Seq<u8>, pos: int, count: u32, total: u32) -> (
    Result<Seq<StreamInfoView>, HeaderError>,
    int,
) {
    match stream_headers(bytes, pos, count as nat) {
        (Err(e), end) => (
            Err(
                HeaderError {
                    kind: HeaderErrorKind::StreamHeader,
                    source: Some(HeaderErrorSource::Stream(e)),
                },
            ),
            end,
        ),
        (Ok(streams), end) => match lengths(data_offsets(streams).push(total), count as nat) {
            Err(index) => (
                Err(refused(HeaderErrorKind::ZeroStreamSize { index: index as u32 })),
                end,
            ),
            Ok(sizes) => (
                Ok(Seq::new(count as nat, |i: int| with_stream_size(streams[i], sizes[i]))),
                end,
            ),
        },
    }
}

/// A header error of the kind `kind` that the failed read `e` has caused.
pub open spec fn read_failed(kind: HeaderErrorKind, e: ReadError) -> HeaderError {
    HeaderError { kind, source: Some(HeaderErrorSource::Read(e)) }
}

/// A header error of the kind `kind` with nothing underneath.
pub open spec fn refused(kind: HeaderErrorKind) -> HeaderError {
    HeaderError { kind, source: None }
}

/// A field of four bytes of the base header, read at `pos`: the error
/// `kind` where it cannot be read, which leaves the reader at the end of
/// the data, else what `then` makes of the number.
pub open spec fn field<T>(
    bytes: Seq<u8>,
    pos: int,
    kind: HeaderErrorKind,
    then: spec_fn(u32) -> (Result<T, HeaderError>, int),
) -> (Result<T, HeaderError>, int) {
    match read_le_u32(bytes, pos) {
        Err(e) => (Err(read_failed(kind, e)), read_end(bytes, pos, 4)),
        Ok(value) => then(value),
    }
}

/// The encoding flags of a bank of the version `version`, whose fixed
/// fields end at `pos`, and where the reader is left. The older version has
/// none. The newer one has four unused bytes and then the flags.
pub open spec fn encoding_flags(bytes: Seq<u8>, pos: int, version: Version) -> (
    Result<u32, HeaderError>,
    int,
) {
    match version {
        Version::V0 => (Ok(0u32), pos),
        Version::V1 => match read_unit(bytes, pos, 4) {
            Err(e) => (
                Err(read_failed(HeaderErrorKind::EncodingFlags, e)),
                read_end(bytes, pos, 4),
            ),
            Ok(_) => field(
                bytes,
                pos + 4,
                HeaderErrorKind::EncodingFlags,
                |flags: u32| (Ok(flags), pos + 8),
            ),
        },
    }
}

/// The base header of a bank that begins at `pos`, and where the reader is
/// left: behind the base header, after a failed read at the end of the
/// data, and after a field that is refused behind that field. The fields
/// are checked in the order in which they lie.
pub open spec fn base_header(bytes: Seq<u8>, pos: int) -> (Result<BaseHeader, HeaderError>, int) {
    match read_bytes(bytes, pos, 4) {
        Err(e) => (Err(read_failed(HeaderErrorKind::Magic, e)), read_end(bytes, pos, 4)),
        Ok(signature) => if signature != magic() {
            (Err(refused(HeaderErrorKind::Magic)), pos + 4)
        } else {
            field(
                bytes,
                pos + 4,
                HeaderErrorKind::Version,
                |number: u32|
                    match version_of(number) {
                        None => (
                            Err(refused(HeaderErrorKind::UnknownVersion { version: number })),
                            pos + 8,
                        ),
                        Some(version) => base_fields(bytes, pos + 8, pos, version),
                    },
            )
        },
    }
}

/// The base header of a bank of the version `version` that begins at
/// `start`, from its number of streams on, which lies at `pos`.
pub open spec fn base_fields(bytes: Seq<u8>, pos: int, start: int, version: Version) -> (
    Result<BaseHeader, HeaderError>,
    int,
) {
    field(
        bytes,
        pos,
        HeaderErrorKind::StreamCount,
        |num_streams: u32|
            if num_streams == 0 {
                (Err(refused(HeaderErrorKind::ZeroStreams)), pos + 4)
            } else {
                field(
                    bytes,
                    pos + 4,
                    HeaderErrorKind::StreamHeadersSize,
                    |stream_headers_size: u32|
                        field(
                            bytes,
                            pos + 8,
                            HeaderErrorKind::NameTableSize,
                            |name_table_size: u32|
                                field(
                                    bytes,
                                    pos + 12,
                                    HeaderErrorKind::TotalStreamSize,
                                    |total_stream_size: u32|
                                        if total_stream_size == 0 {
                                            (
                                                Err(refused(HeaderErrorKind::ZeroTotalStreamSize)),
                                                pos + 16,
                                            )
                                        } else {
                                            base_rest(
                                                bytes,
                                                pos + 16,
                                                start,
                                                version,
                                                (
                                                    num_streams,
                                                    stream_headers_size,
                                                    name_table_size,
                                                    total_stream_size,
                                                ),
                                            )
                                        },
                                ),
                        ),
                )
            },
    )
}

/// The base header of a bank of the version `version` that begins at
/// `start`, from its audio format on, which lies at `pos`: the format, the
/// encoding flags, and the unused rest of the base header, which is passed
/// over. The four numbers before the format are `counts`.
pub open spec fn base_rest(
    bytes: Seq<u8>,
    pos: int,
    start: int,
    version: Version,
    counts: (u32, u32, u32, u32),
) -> (Result<BaseHeader, HeaderError>, int) {
    field(
        bytes,
        pos,
        HeaderErrorKind::AudioFormat,
        |number: u32|
            match audio_format_of(number) {
                None => (
                    Err(refused(HeaderErrorKind::UnknownAudioFormat { flag: number })),
                    pos + 4,
                ),
                Some(format) => match encoding_flags(bytes, pos + 4, version) {
                    (Err(e), end) => (Err(e), end),
                    (Ok(flags), read_to) => match crate::read::advance_result(
                        bytes,
                        read_to,
                        start + base_header_size(version),
                    ) {
                        Err(e) => (
                            Err(read_failed(HeaderErrorKind::Metadata, e)),
                            crate::read::advance_end(
                                bytes,
                                read_to,
                                start + base_header_size(version),
                            ),
                        ),
                        Ok(_) => (
                            Ok(
                                BaseHeader {
                                    version,
                                    num_streams: counts.0,
                                    stream_headers_size: counts.1,
                                    name_table_size: counts.2,
                                    total_stream_size: counts.3,
                                    format,
                                    flags,
                                },
                            ),
                            start + base_header_size(version),
                        ),
                    },
                },
            },
    )
}

/// Once a name offset cannot be read, no number of offsets beyond it can be
/// either, and for the same reason.
pub proof fn lemma_name_offsets_fail(bytes: Seq<u8>, pos: int, failed: nat, count: nat)
    requires
        name_offsets(bytes, pos, failed).0 is Err,
        failed <= count,
    ensures
        name_offsets(bytes, pos, count) == name_offsets(bytes, pos, failed),
    decreases count,
{
    if failed < count {
        lemma_name_offsets_fail(bytes, pos, failed, (count - 1) as nat);
    }
}

/// Once a name cannot be read, no number of names beyond it can be either,
/// and for the same reason.
pub proof fn lemma_names_fail(bytes: Seq<u8>, pos: int, offsets: Seq<u32>, failed: nat, count: nat)
    requires
        names(bytes, pos, offsets, failed).0 is Err,
        failed <= count,
    ensures
        names(bytes, pos, offsets, count) == names(bytes, pos, offsets, failed),
    decreases count,
{
    if failed < count {
        lemma_names_fail(bytes, pos, offsets, failed, (count - 1) as nat);
    }
}

/// Whether the first zero byte of `s` stands at `i`.
pub open spec fn ends_at(s: Seq<u8>, i: int) -> bool {
    &&& 0 <= i < s.len()
    &&& s[i] == 0
    &&& forall|j: int| 0 <= j < i ==> s[j] != 0
}

/// The name that the bytes `s` hold for the stream at `index`: the text
/// before their first zero byte, which must be there, read as UTF-8.
pub open spec fn name_in(s: Seq<u8>, index: u32) -> Result<Seq<char>, NameError> {
    if !(exists|i: int| ends_at(s, i)) {
        Err(NameError { index, kind: NameErrorKind::Name, source: NameErrorSource::CStr })
    } else {
        let text = s.subrange(0, choose|i: int| ends_at(s, i));
        if valid_utf8(text) {
            Ok(decode_utf8(text))
        } else {
            Err(NameError { index, kind: NameErrorKind::Utf8, source: NameErrorSource::Utf8 })
        }
    }
}

/// The first `count` name offsets, which follow one another from `pos`,
/// and where the reader is left.
pub open spec fn name_offsets(bytes: Seq<u8>, pos: int, count: nat) -> (
    Result<Seq<u32>, NameError>,
    int,
)
    decreases count,
{
    if count == 0 {
        (Ok(Seq::empty()), pos)
    } else {
        match name_offsets(bytes, pos, (count - 1) as nat) {
            (Err(e), end) => (Err(e), end),
            (Ok(offsets), p) => match read_le_u32(bytes, p) {
                Err(e) => (
                    Err(
                        NameError {
                            index: (count - 1) as u32,
                            kind: NameErrorKind::NameOffset,
                            source: NameErrorSource::Read(e),
                        },
                    ),
                    read_end(bytes, p, 4),
                ),
                Ok(offset) => (Ok(offsets.push(offset)), p + 4),
            },
        }
    }
}

/// The name of the stream at `index`, which begins at `pos` and reaches
/// from the offset `from` to the offset `to`, and where the reader is left.
/// A name that does not end behind its start holds no zero byte, and
/// nothing is read for it. A name that is refused has been read in full.
pub open spec fn name_at(bytes: Seq<u8>, pos: int, from: u32, to: u32, index: u32) -> (
    Result<Seq<char>, NameError>,
    int,
) {
    if to <= from {
        (Err(NameError { index, kind: NameErrorKind::Name, source: NameErrorSource::CStr }), pos)
    } else {
        match read_bytes(bytes, pos, to - from) {
            Err(e) => (
                Err(
                    NameError { index, kind: NameErrorKind::Name, source: NameErrorSource::Read(e) },
                ),
                read_end(bytes, pos, to - from),
            ),
            Ok(s) => (name_in(s, index), pos + (to - from)),
        }
    }
}

/// The names of the first `count` streams, which follow one another from
/// `pos`, and where the reader is left. The table `offsets` ends with one
/// offset more than there are names.
pub open spec fn names(bytes: Seq<u8>, pos: int, offsets: Seq<u32>, count: nat) -> (
    Result<Seq<Seq<char>>, NameError>,
    int,
)
    decreases count,
{
    if count == 0 {
        (Ok(Seq::empty()), pos)
    } else {
        match names(bytes, pos, offsets, (count - 1) as nat) {
            (Err(e), end) => (Err(e), end),
            (Ok(found), p) => match name_at(
                bytes,
                p,
                offsets[count - 1],
                offsets[count as int],
                (count - 1) as u32,
            ) {
                (Err(e), end) => (Err(e), end),
                (Ok(name), end) => (Ok(found.push(name)), end),
            },
        }
    }
}

/// The name table of a bank of `count` streams, which begins at `pos` and
/// is `size` bytes long: the offsets of the names, then the names. With
/// it, where the reader is left.
pub open spec fn name_table(bytes: Seq<u8>, pos: int, count: u32, size: u32) -> (
    Result<Seq<Seq<char>>, NameError>,
    int,
) {
    match name_offsets(bytes, pos, count as nat) {
        (Err(e), end) => (Err(e), end),
        (Ok(offsets), p) => names(bytes, p, offsets.push(size), count as nat),
    }
}

/// `streams` with the name of each set to the one of `found` at its place.
pub open spec fn named(streams: Seq<StreamInfoView>, found: Seq<Seq<char>>) -> Seq<StreamInfoView> {
    named_up_to(streams, found, streams.len() as int)
}

/// `streams` with the name of each of the first `count` set to the one of
/// `found` at its place, and the others as they are.
pub open spec fn named_up_to(streams: Seq<StreamInfoView>, found: Seq<Seq<char>>, count: int) -> Seq<
    StreamInfoView,
> {
    Seq::new(
        streams.len(),
        |i: int|
            if i < count {
                StreamInfoView { name: Some(found[i]), ..streams[i] }
            } else {
                streams[i]
            },
    )
}

/// The file header of the bank that begins at `pos`, and where the reader
/// is left.
///
/// The base header comes first, then the stream headers, which must end
/// exactly where the base header says, then the name table if the base
/// header gives it a size. Where the stream headers end elsewhere, the
/// error gives the length that base header and stream headers should have
/// and the one that they have, and the reader stays behind the stream
/// headers.
pub open spec fn header_at(bytes: Seq<u8>, pos: int) -> (Result<HeaderView, HeaderError>, int) {
    match base_header(bytes, pos) {
        (Err(e), end) => (Err(e), end),
        (Ok(base), streams_at) => match stream_infos(
            bytes,
            streams_at,
            base.num_streams,
            base.total_stream_size,
        ) {
            (Err(e), end) => (Err(e), end),
            (Ok(streams), end) => if end != streams_at + base.stream_headers_size {
                (
                    Err(
                        refused(
                            HeaderErrorKind::WrongHeaderSize {
                                expected: (base_header_size(base.version)
                                    + base.stream_headers_size) as u64,
                                actual: (end - pos) as u64,
                            },
                        ),
                    ),
                    end,
                )
            } else if base.name_table_size == 0 {
                (Ok(HeaderView { format: base.format, flags: base.flags, stream_info: streams }), end)
            } else {
                match name_table(bytes, end, base.num_streams, base.name_table_size) {
                    (Err(e), names_end) => (
                        Err(
                            HeaderError {
                                kind: HeaderErrorKind::NameTable,
                                source: Some(HeaderErrorSource::NameTable(e)),
                            },
                        ),
                        names_end,
                    ),
                    (Ok(found), names_end) => (
                        Ok(
                            HeaderView {
                                format: base.format,
                                flags: base.flags,
                                stream_info: named(streams, found),
                            },
                        ),
                        names_end,
                    ),
                }
            },
        },
    }
}

} // verus!
