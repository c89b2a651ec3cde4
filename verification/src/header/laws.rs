//! What follows from [`crate::header::model`] for every input: laws that
//! relate the parts of a header to one another.

use crate::header::bits::RawStreamChunk;
use crate::header::bits::RawStreamHeader;
use crate::header::error::ChunkErrorKind;
use crate::header::error::HeaderError;
use crate::header::error::HeaderErrorKind;
use crate::header::model::audio_format_of;
use crate::header::model::base_header;
use crate::header::model::base_header_size;
use crate::header::model::channels_of;
use crate::header::model::chunk_at;
use crate::header::model::chunk_body;
use crate::header::model::chunk_of;
use crate::header::model::chunk_refused;
use crate::header::model::chunks;
use crate::header::model::data_offsets;
use crate::header::model::header_at;
use crate::header::model::lengths;
use crate::header::model::magic;
use crate::header::model::name_table;
use crate::header::model::named;
use crate::header::model::refused;
use crate::header::model::sample_rate_of;
use crate::header::model::stream_at;
use crate::header::model::stream_header_of;
use crate::header::model::stream_headers;
use crate::header::model::stream_infos;
use crate::header::model::version_of;
use crate::header::model::with_stream_size;
use crate::header::model::HeaderView;
use crate::header::model::StreamHeaderView;
use crate::header::model::StreamInfoView;
use crate::header::StreamChunkKind;
use crate::header::Version;
use crate::read::le_u32_of;
use crate::read::read_le_u32;
use crate::read::read_le_u64;
use vstd::prelude::*;

verus! {

/// The sum of `lens`.
pub open spec fn sum(lens: Seq<u32>) -> int
    decreases lens.len(),
{
    if lens.len() == 0 {
        0
    } else {
        sum(lens.drop_last()) + lens.last()
    }
}

/// The sizes of `streams`, in their order.
pub open spec fn sizes(streams: Seq<StreamInfoView>) -> Seq<u32> {
    streams.map_values(|stream: StreamInfoView| stream.size)
}

/// Every selector up to 10 stands for a sample rate, and no other does.
pub proof fn lemma_sample_rate_known(flag: u8)
    ensures
        sample_rate_of(flag) is Some <==> flag <= 10,
        sample_rate_of(flag) matches Some(rate) ==> rate > 0,
{
}

/// Every channel selector stands for a number of channels: 1, 2, 6 or 8.
pub proof fn lemma_channels_known(flag: u8)
    ensures
        channels_of(flag) == 1 || channels_of(flag) == 2 || channels_of(flag) == 6 || channels_of(
            flag,
        ) == 8,
{
}

/// Whether each of the first `count` entries of a table of offsets ends
/// behind its start.
pub open spec fn ascending(offsets: Seq<u32>, count: nat) -> bool {
    forall|i: int| 0 <= i < count ==> offsets[i] < #[trigger] offsets[i + 1]
}

/// The lengths of a table of offsets are the differences of neighbouring
/// offsets, and there are lengths exactly if every entry ends behind its
/// start. Where an entry is reported instead, it does not end behind its
/// start, and every entry before it does.
pub proof fn lemma_lengths_differences(offsets: Seq<u32>, count: nat)
    ensures
        match lengths(offsets, count) {
            Ok(found) => {
                &&& ascending(offsets, count)
                &&& found.len() == count
                &&& forall|i: int|
                    0 <= i < count ==> #[trigger] found[i] == offsets[i + 1] - offsets[i]
            },
            Err(index) => {
                &&& index < count
                &&& offsets[index as int + 1] <= offsets[index as int]
                &&& ascending(offsets, index)
            },
        },
    decreases count,
{
    if count > 0 {
        lemma_lengths_differences(offsets, (count - 1) as nat);
    }
}

/// The lengths of a table of offsets add up to the distance from its first
/// offset to its last.
pub proof fn lemma_lengths_sum(offsets: Seq<u32>, count: nat)
    requires
        lengths(offsets, count) is Ok,
    ensures
        sum(lengths(offsets, count)->Ok_0) == offsets[count as int] - offsets[0],
    decreases count,
{
    if count > 0 {
        lemma_lengths_sum(offsets, (count - 1) as nat);
        let found = lengths(offsets, count)->Ok_0;
        assert(found.drop_last() =~= lengths(offsets, (count - 1) as nat)->Ok_0);
    }
}

/// There are as many stream headers as were asked for.
pub proof fn lemma_stream_headers_len(bytes: Seq<u8>, pos: int, count: nat)
    requires
        stream_headers(bytes, pos, count).0 is Ok,
    ensures
        stream_headers(bytes, pos, count).0->Ok_0.len() == count,
    decreases count,
{
    if count > 0 {
        lemma_stream_headers_len(bytes, pos, (count - 1) as nat);
    }
}

/// The sizes of the streams of a bank add up to the total size of its
/// stream data less the data offset of its first stream: to the total
/// size, where the data of the first stream begins at offset 0.
pub proof fn lemma_stream_sizes_sum(bytes: Seq<u8>, pos: int, count: u32, total: u32)
    requires
        count > 0,
        stream_infos(bytes, pos, count, total).0 is Ok,
    ensures
        stream_headers(bytes, pos, count as nat).0 is Ok,
        sum(sizes(stream_infos(bytes, pos, count, total).0->Ok_0)) == total - stream_headers(
            bytes,
            pos,
            count as nat,
        ).0->Ok_0[0].data_offset,
{
    let headers = stream_headers(bytes, pos, count as nat).0->Ok_0;
    let offsets = data_offsets(headers).push(total);
    lemma_stream_headers_len(bytes, pos, count as nat);
    lemma_lengths_sum(offsets, count as nat);
    lemma_lengths_differences(offsets, count as nat);
    let streams = stream_infos(bytes, pos, count, total).0->Ok_0;
    assert(sizes(streams) =~= lengths(offsets, count as nat)->Ok_0);
}

/// The fields of a base header that parses lie at fixed places: behind the
/// signature the version, the number of streams, the sizes of the stream
/// headers, of the name table and of the stream data, and the audio format,
/// four bytes each, least significant byte first. A bank of the newer
/// version has its encoding flags 32 bytes behind its start, one of the
/// older version has none. The base header is all there, and ends where
/// its length says.
pub proof fn lemma_base_header_fields(bytes: Seq<u8>, pos: int)
    requires
        0 <= pos,
        base_header(bytes, pos).0 is Ok,
    ensures
        ({
            let base = base_header(bytes, pos).0->Ok_0;
            let end = base_header(bytes, pos).1;
            let field = |at: int| le_u32_of(bytes.subrange(pos + at, pos + at + 4));
            &&& bytes.subrange(pos, pos + 4) == magic()
            &&& version_of(field(4)) == Some(base.version)
            &&& base.num_streams == field(8) && base.num_streams > 0
            &&& base.stream_headers_size == field(12)
            &&& base.name_table_size == field(16)
            &&& base.total_stream_size == field(20) && base.total_stream_size > 0
            &&& audio_format_of(field(24)) == Some(base.format)
            &&& base.flags == (match base.version {
                Version::V0 => 0u32,
                Version::V1 => field(32),
            })
            &&& end == pos + base_header_size(base.version)
            &&& end <= bytes.len()
        }),
{
}

/// In a header that parses, the stream headers begin behind the base
/// header, whose length the version decides, and end exactly as many bytes
/// further as the base header says. There are as many streams as the base
/// header says, and their sizes add up to the total size of the stream
/// data less the data offset of the first stream.
pub proof fn lemma_header_sizes(bytes: Seq<u8>, pos: int)
    requires
        header_at(bytes, pos).0 is Ok,
    ensures
        ({
            let base = base_header(bytes, pos).0->Ok_0;
            let streams_at = base_header(bytes, pos).1;
            let streams = stream_infos(bytes, streams_at, base.num_streams, base.total_stream_size);
            let header = header_at(bytes, pos).0->Ok_0;
            &&& base_header(bytes, pos).0 is Ok
            &&& base.num_streams > 0
            &&& streams_at == pos + base_header_size(base.version)
            &&& streams.0 is Ok
            &&& streams.1 == streams_at + base.stream_headers_size
            &&& header.stream_info.len() == base.num_streams
            &&& sum(sizes(header.stream_info)) == base.total_stream_size - stream_headers(
                bytes,
                streams_at,
                base.num_streams as nat,
            ).0->Ok_0[0].data_offset
        }),
{
    let base = base_header(bytes, pos).0->Ok_0;
    let streams_at = base_header(bytes, pos).1;
    let (streams, end) = stream_infos(bytes, streams_at, base.num_streams, base.total_stream_size);
    lemma_stream_sizes_sum(bytes, streams_at, base.num_streams, base.total_stream_size);
    if base.name_table_size != 0 {
        let found = name_table(bytes, end, base.num_streams, base.name_table_size).0->Ok_0;
        assert(sizes(named(streams->Ok_0, found)) =~= sizes(streams->Ok_0));
    }
}

/// In a header that parses, and whose first stream has its data at offset
/// 0, the sizes of the streams add up to the total size of the stream data.
pub proof fn lemma_sizes_add_up_to_total(bytes: Seq<u8>, pos: int)
    requires
        header_at(bytes, pos).0 is Ok,
        stream_headers(
            bytes,
            base_header(bytes, pos).1,
            base_header(bytes, pos).0->Ok_0.num_streams as nat,
        ).0->Ok_0[0].data_offset == 0,
    ensures
        sum(sizes(header_at(bytes, pos).0->Ok_0.stream_info)) == base_header(
            bytes,
            pos,
        ).0->Ok_0.total_stream_size,
{
    lemma_header_sizes(bytes, pos);
}

/// Two outcomes that both are what parsing yields at one position of the
/// same bytes are equal: both are errors, and the same error, or both are
/// headers that say the same, and either way the reader is left at the
/// same position.
pub proof fn lemma_parse_deterministic(
    bytes: Seq<u8>,
    pos: int,
    first: (Result<HeaderView, HeaderError>, int),
    second: (Result<HeaderView, HeaderError>, int),
)
    requires
        first == header_at(bytes, pos),
        second == header_at(bytes, pos),
    ensures
        first.0 == second.0,
        first.1 == second.1,
{
}

/// Bytes that do not begin with the signature are refused as soon as the
/// four bytes of the signature are read: the reader is left behind them.
/// Where not even four bytes are there, the reader is left at their end.
pub proof fn lemma_signature_first(bytes: Seq<u8>, pos: int)
    requires
        0 <= pos <= bytes.len(),
        bytes.len() < pos + 4 || bytes.subrange(pos, pos + 4) != magic(),
    ensures
        header_at(bytes, pos).0 matches Err(e) && e.kind == HeaderErrorKind::Magic,
        bytes.len() >= pos + 4 ==> header_at(bytes, pos) == (
            Err::<HeaderView, _>(refused(HeaderErrorKind::Magic)),
            pos + 4,
        ),
        bytes.len() < pos + 4 ==> header_at(bytes, pos).1 == bytes.len(),
{
}

/// A chunk always ends as many bytes behind its packed word as the word
/// says, whatever its content is and however much of it is read.
pub proof fn lemma_chunk_ends_at_size(
    bytes: Seq<u8>,
    pos: int,
    index: usize,
    stream: StreamHeaderView,
)
    requires
        chunk_at(bytes, pos, index, stream).0 is Ok,
    ensures
        read_le_u32(bytes, pos) matches Ok(word) && chunk_at(bytes, pos, index, stream).1 == pos
            + 4 + (RawStreamChunk { value: word }).size_of(),
{
}

/// A chunk whose content, read as its kind asks, takes more bytes than the
/// size of the chunk is refused for its wrong size, with the number of
/// bytes that were read. The reader stays behind what was read: it is not
/// moved back.
pub proof fn lemma_chunk_size_enforced(
    bytes: Seq<u8>,
    pos: int,
    index: usize,
    stream: StreamHeaderView,
)
    requires
        read_le_u32(bytes, pos) matches Ok(word) && chunk_of(
            RawStreamChunk { value: word },
            index,
        ) matches Ok(chunk) && chunk_body(bytes, pos + 4, chunk.kind, index, stream).0 is Ok
            && chunk_body(bytes, pos + 4, chunk.kind, index, stream).1 - (pos + 4) > chunk.size,
    ensures
        read_le_u32(bytes, pos) matches Ok(word) && chunk_of(
            RawStreamChunk { value: word },
            index,
        ) matches Ok(chunk) && ({
            let read_to = chunk_body(bytes, pos + 4, chunk.kind, index, stream).1;
            chunk_at(bytes, pos, index, stream) == (
                Err::<(StreamHeaderView, bool), _>(
                    chunk_refused(
                        index,
                        ChunkErrorKind::WrongChunkSize {
                            expected: chunk.size,
                            actual: (read_to - (pos + 4)) as usize,
                        },
                    ),
                ),
                read_to,
            )
        }),
{
}

/// A chunk of Vorbis layers multiplies the channels of the stream by the
/// number of its layers. It is refused only where there are no layers or
/// more than 255, or where `u16` does not hold the product.
pub proof fn lemma_layers_multiply(bytes: Seq<u8>, pos: int, index: usize, stream: StreamHeaderView)
    requires
        read_le_u32(bytes, pos) is Ok,
        stream.channels > 0,
    ensures
        ({
            let layers = read_le_u32(bytes, pos)->Ok_0;
            let body = chunk_body(bytes, pos, StreamChunkKind::VorbisIntraLayers, index, stream);
            &&& body.1 == pos + 4
            &&& body.0 is Ok <==> 0 < layers <= 255 && layers * stream.channels <= u16::MAX
            &&& body.0 matches Ok(changed) ==> changed == (StreamHeaderView {
                channels: (layers * stream.channels) as u16,
                ..stream
            })
            &&& layers > 255 ==> body.0 == Err::<StreamHeaderView, _>(
                chunk_refused(index, ChunkErrorKind::TooManyVorbisLayers { layers }),
            )
            &&& layers == 0 ==> body.0 == Err::<StreamHeaderView, _>(
                chunk_refused(index, ChunkErrorKind::ZeroVorbisLayers),
            )
            &&& stream.channels <= 257 && 0 < layers <= 255 ==> body.0 is Ok
        }),
{
    let layers = read_le_u32(bytes, pos)->Ok_0;
    if 0 < layers <= 255 {
        assert(layers * stream.channels > 0) by (nonlinear_arith)
            requires
                layers > 0,
                stream.channels > 0,
        ;
        if stream.channels <= 257 {
            assert(layers * stream.channels <= 255 * 257) by (nonlinear_arith)
                requires
                    0 < layers <= 255,
                    0 < stream.channels <= 257,
            ;
        }
    }
}

/// The content of a Vorbis seek table sets the checksum of the stream to
/// the number that it begins with. No chunk of another kind touches the
/// checksum.
pub proof fn lemma_chunk_checksum(
    bytes: Seq<u8>,
    pos: int,
    kind: StreamChunkKind,
    index: usize,
    stream: StreamHeaderView,
)
    requires
        chunk_body(bytes, pos, kind, index, stream).0 is Ok,
    ensures
        chunk_body(bytes, pos, kind, index, stream).0->Ok_0.vorbis_crc32 == (if kind
            == StreamChunkKind::VorbisSeekTable {
            Some(read_le_u32(bytes, pos)->Ok_0)
        } else {
            stream.vorbis_crc32
        }),
{
}

/// Whether the chunk list that begins at `pos` holds a Vorbis seek table.
pub open spec fn holds_seek_table(bytes: Seq<u8>, pos: int) -> bool
    decreases bytes.len() - pos,
{
    match read_le_u32(bytes, pos) {
        Err(_) => false,
        Ok(word) => {
            let raw = RawStreamChunk { value: word };
            raw.kind_of() == 11 || (raw.more_chunks_of() && pos + 4 + raw.size_of() <= bytes.len()
                && holds_seek_table(bytes, pos + 4 + raw.size_of()))
        },
    }
}

/// A chunk list without a Vorbis seek table leaves the checksum of the
/// stream as it was, and one that holds such a table sets it.
pub proof fn lemma_chunks_checksum(bytes: Seq<u8>, pos: int, index: usize, stream: StreamHeaderView)
    requires
        chunks(bytes, pos, index, stream).0 is Ok,
    ensures
        !holds_seek_table(bytes, pos) ==> chunks(bytes, pos, index, stream).0->Ok_0.vorbis_crc32
            == stream.vorbis_crc32,
        holds_seek_table(bytes, pos) ==> chunks(bytes, pos, index, stream).0->Ok_0.vorbis_crc32
            is Some,
    decreases bytes.len() - pos,
{
    let word = read_le_u32(bytes, pos)->Ok_0;
    let raw = RawStreamChunk { value: word };
    let chunk = chunk_of(raw, index)->Ok_0;
    let (changed, more_chunks) = chunk_at(bytes, pos, index, stream).0->Ok_0;
    let end = chunk_at(bytes, pos, index, stream).1;
    lemma_chunk_checksum(bytes, pos + 4, chunk.kind, index, stream);
    if more_chunks {
        if chunk.kind == StreamChunkKind::VorbisSeekTable {
            lemma_chunks_keep_checksum(bytes, end, (index + 1) as usize, changed);
        } else {
            lemma_chunks_checksum(bytes, end, (index + 1) as usize, changed);
        }
    }
}

/// A chunk list never takes the checksum from a stream that has one.
pub proof fn lemma_chunks_keep_checksum(
    bytes: Seq<u8>,
    pos: int,
    index: usize,
    stream: StreamHeaderView,
)
    requires
        chunks(bytes, pos, index, stream).0 is Ok,
        stream.vorbis_crc32 is Some,
    ensures
        chunks(bytes, pos, index, stream).0->Ok_0.vorbis_crc32 is Some,
    decreases bytes.len() - pos,
{
    let word = read_le_u32(bytes, pos)->Ok_0;
    let chunk = chunk_of(RawStreamChunk { value: word }, index)->Ok_0;
    let (changed, more_chunks) = chunk_at(bytes, pos, index, stream).0->Ok_0;
    let end = chunk_at(bytes, pos, index, stream).1;
    lemma_chunk_checksum(bytes, pos + 4, chunk.kind, index, stream);
    if more_chunks {
        lemma_chunks_keep_checksum(bytes, end, (index + 1) as usize, changed);
    }
}

/// A stream has a Vorbis setup checksum exactly if its header has chunks
/// and a Vorbis seek table is among them. A stream whose only chunk is a
/// Vorbis seek table has the number that the table begins with.
pub proof fn lemma_stream_checksum(bytes: Seq<u8>, pos: int, index: u32)
    requires
        stream_at(bytes, pos, index).0 is Ok,
    ensures
        read_le_u64(bytes, pos) matches Ok(word) && {
            let raw = RawStreamHeader { value: word };
            let stream = stream_at(bytes, pos, index).0->Ok_0;
            &&& stream.vorbis_crc32 is Some <==> raw.has_chunks_of() && holds_seek_table(
                bytes,
                pos + 8,
            )
            &&& (raw.has_chunks_of() && read_le_u32(bytes, pos + 8) is Ok && {
                let first = RawStreamChunk { value: read_le_u32(bytes, pos + 8)->Ok_0 };
                !first.more_chunks_of() && first.kind_of() == 11
            }) ==> stream.vorbis_crc32 == Some(read_le_u32(bytes, pos + 12)->Ok_0)
        },
{
    let word = read_le_u64(bytes, pos)->Ok_0;
    let raw = RawStreamHeader { value: word };
    let first = stream_header_of(raw, index)->Ok_0;
    if raw.has_chunks_of() {
        lemma_chunks_checksum(bytes, pos + 8, 0, first);
        let head = read_le_u32(bytes, pos + 8)->Ok_0;
        let chunk = chunk_of(RawStreamChunk { value: head }, 0)->Ok_0;
        lemma_chunk_checksum(bytes, pos + 12, chunk.kind, 0, first);
    }
}

/// The size of a stream is set once, and its checksum is the one of its
/// header: neither the size nor a name changes what the header said.
pub proof fn lemma_stream_info_keeps(stream: StreamHeaderView, size: u32, name: Seq<char>)
    ensures
        with_stream_size(stream, size).vorbis_crc32 == stream.vorbis_crc32,
        with_stream_size(stream, size).size == size,
        (StreamInfoView { name: Some(name), ..with_stream_size(stream, size) }).vorbis_crc32
            == stream.vorbis_crc32,
{
}

} // verus!
