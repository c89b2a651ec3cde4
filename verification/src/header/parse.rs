//! The parsers of the parts of a file header, each proved to return what
//! [`crate::header::model`] says of the bytes that it is given.

use crate::header::bits::RawStreamChunk;
use crate::header::bits::RawStreamHeader;
use crate::header::error::ChunkError;
use crate::header::error::ChunkErrorKind;
use crate::header::error::StreamError;
use crate::header::error::StreamErrorKind;
use crate::header::model::chunk_at;
use crate::header::model::chunk_body;
use crate::header::model::chunks;
use crate::header::model::coeff_sum;
use crate::header::model::dsp_coeffs;
use crate::header::model::dsp_record;
use crate::header::model::lemma_dsp_coeffs_fail;
use crate::header::error::HeaderError;
use crate::header::error::HeaderErrorKind;
use crate::header::model::data_offsets;
use crate::header::model::lemma_lengths_bounds;
use crate::header::model::lemma_lengths_fail;
use crate::header::model::lemma_stream_headers_fail;
use crate::header::model::lengths;
use crate::header::model::stream_at;
use crate::header::model::stream_infos;
use crate::header::model::with_stream_size;
use crate::header::model::StreamHeaderView;
use crate::header::model::StreamInfoView;
use crate::header::error::NameError;
use crate::header::error::NameErrorKind;
use crate::header::model::base_header;
use crate::header::model::ends_at;
use crate::header::model::header_at;
use crate::header::model::lemma_name_offsets_fail;
use crate::header::model::lemma_names_fail;
use crate::header::model::magic;
use crate::header::model::name_at;
use crate::header::model::name_offsets;
use crate::header::model::named;
use crate::header::model::named_up_to;
use crate::header::model::names;
use crate::header::model::BaseHeader;
use crate::header::stream_views;
use crate::header::AudioFormat;
use crate::header::Header;
use crate::header::Version;
use vstd::utf8::decode_utf8;
use vstd::utf8::valid_utf8;
use crate::header::StreamInfo;
use crate::header::Loop;
use crate::header::StreamChunkKind;
use crate::header::StreamHeader;
use crate::read::outcome;
use crate::read::stepped;
use crate::read::Reader;
use crate::read::ReadError;
use vstd::prelude::*;

verus! {

/// Reads the record of one channel in a chunk of DSP coefficients, and sums
/// its coefficients up.
fn parse_dsp_record(reader: &mut Reader) -> (r: Result<i16, ReadError>)
    ensures
        final(reader).bytes() == old(reader).bytes(),
        final(reader).pos() >= old(reader).pos(),
        (r, final(reader).pos() as int) == dsp_record(
            old(reader).bytes(),
            old(reader).pos() as int,
        ),
{
    proof {
        use_type_invariant(&*reader);
    }
    let ghost bytes = reader.bytes();
    let ghost start = reader.pos() as int;
    let mut coeff: i16 = 0;
    let mut count: usize = 0;
    while count < 16
        invariant
            count <= 16,
            bytes == old(reader).bytes(),
            start == old(reader).pos(),
            reader.bytes() == bytes,
            reader.pos() == start + 2 * count,
            reader.pos() <= bytes.len(),
            coeff == coeff_sum(bytes, start, count as nat),
        decreases 16 - count,
    {
        let value = reader.be_i16()?;
        coeff = coeff.wrapping_add(value);
        count += 1;
    }
    reader.skip(14)?;
    Ok(coeff)
}

/// Reads the coefficients of `channels` channels.
fn parse_dsp_coeffs(reader: &mut Reader, channels: u16) -> (r: Result<Vec<i16>, ReadError>)
    ensures
        final(reader).bytes() == old(reader).bytes(),
        final(reader).pos() >= old(reader).pos(),
        stepped(r, final(reader).pos()) == dsp_coeffs(
            old(reader).bytes(),
            old(reader).pos() as int,
            channels as nat,
        ),
        r is Ok ==> final(reader).pos() == old(reader).pos() + 46 * channels,
{
    proof {
        use_type_invariant(&*reader);
    }
    let ghost bytes = reader.bytes();
    let ghost start = reader.pos() as int;
    let mut coeffs: Vec<i16> = Vec::new();
    let mut channel: u16 = 0;
    while channel < channels
        invariant
            channel <= channels,
            bytes == old(reader).bytes(),
            start == old(reader).pos(),
            reader.bytes() == bytes,
            reader.pos() == start + 46 * channel,
            dsp_coeffs(bytes, start, channel as nat) == (
                Ok::<Seq<i16>, ReadError>(coeffs@),
                reader.pos() as int,
            ),
        decreases channels - channel,
    {
        let coeff = match parse_dsp_record(reader) {
            Ok(coeff) => coeff,
            Err(e) => {
                proof {
                    lemma_dsp_coeffs_fail(bytes, start, (channel + 1) as nat, channels as nat);
                }
                return Err(e);
            },
        };
        coeffs.push(coeff);
        channel += 1;
    }
    Ok(coeffs)
}

/// Reads the content of a chunk of the kind `kind` as far as it is known,
/// and notes in `stream` what it says.
fn parse_chunk_body(
    reader: &mut Reader,
    kind: StreamChunkKind,
    index: usize,
    stream: &mut StreamHeader,
) -> (r: Result<(), ChunkError>)
    requires
        old(stream)@.wf(),
    ensures
        final(reader).bytes() == old(reader).bytes(),
        final(reader).pos() >= old(reader).pos(),
        final(stream)@.wf(),
        r is Err ==> final(stream)@ == old(stream)@,
        (outcome(r, final(stream)@), final(reader).pos() as int) == chunk_body(
            old(reader).bytes(),
            old(reader).pos() as int,
            kind,
            index,
            old(stream)@,
        ),
{
    proof {
        use_type_invariant(&*reader);
    }
    match kind {
        StreamChunkKind::Channels => {
            let channels = match reader.u8() {
                Ok(n) => n,
                Err(e) => {
                    return Err(
                        ChunkError::new_with_source(index, ChunkErrorKind::ChannelCount, e),
                    );
                },
            };
            if channels == 0 {
                return Err(ChunkError::new(index, ChunkErrorKind::ZeroChannels));
            }
            stream.channels = channels as u16;
        },
        StreamChunkKind::SampleRate => {
            let sample_rate = match reader.le_u32() {
                Ok(n) => n,
                Err(e) => {
                    return Err(ChunkError::new_with_source(index, ChunkErrorKind::SampleRate, e));
                },
            };
            if sample_rate == 0 {
                return Err(ChunkError::new(index, ChunkErrorKind::ZeroSampleRate));
            }
            stream.sample_rate = sample_rate;
        },
        StreamChunkKind::Loop => {
            let start = match reader.le_u32() {
                Ok(n) => n,
                Err(e) => {
                    return Err(ChunkError::new_with_source(index, ChunkErrorKind::LoopStart, e));
                },
            };
            let end = match reader.le_u32() {
                Ok(n) => n,
                Err(e) => {
                    return Err(ChunkError::new_with_source(index, ChunkErrorKind::LoopEnd, e));
                },
            };
            let stream_loop = Loop::parse(index, start, end)?;
            stream.stream_loop = Some(stream_loop);
        },
        StreamChunkKind::DspCoefficients => {
            // used for decoding and encoding GC ADPCM streams
            let coeffs = match parse_dsp_coeffs(reader, stream.channels) {
                Ok(coeffs) => coeffs,
                Err(e) => {
                    return Err(
                        ChunkError::new_with_source(index, ChunkErrorKind::DspCoefficients, e),
                    );
                },
            };
            stream.dsp_coeffs = Some(coeffs);
        },
        StreamChunkKind::VorbisSeekTable => {
            // The chunk starts with the CRC32 checksum of a Vorbis setup header, by
            // which the setup header is found again when the stream is encoded.
            // The seek table behind it is of no use here and is passed over.
            let crc32 = match reader.le_u32() {
                Ok(n) => n,
                Err(e) => {
                    return Err(ChunkError::new_with_source(index, ChunkErrorKind::VorbisCrc32, e));
                },
            };
            stream.vorbis_crc32 = Some(crc32);
        },
        StreamChunkKind::VorbisIntraLayers => {
            // Some Vorbis streams hold several layers per channel, which count as
            // channels when the stream is decoded.
            let layers = match reader.le_u32() {
                Ok(n) => n,
                Err(e) => {
                    return Err(
                        ChunkError::new_with_source(index, ChunkErrorKind::VorbisLayerCount, e),
                    );
                },
            };
            if layers > 255 {
                return Err(
                    ChunkError::new(index, ChunkErrorKind::TooManyVorbisLayers { layers }),
                );
            }
            assert(layers * stream.channels <= 255 * 0xffff) by (nonlinear_arith)
                requires
                    layers <= 255,
                    stream.channels <= 0xffff,
            ;
            let channels: u32 = layers * stream.channels as u32;
            if channels == 0 {
                return Err(ChunkError::new(index, ChunkErrorKind::ZeroVorbisLayers));
            }
            if channels > 0xffff {
                return Err(ChunkError::new(index, ChunkErrorKind::TooManyChannels { channels }));
            }
            stream.channels = channels as u16;
        },
        _ => {},
    }
    Ok(())
}

/// Reads one chunk, from its packed word to its end, and notes in `stream`
/// what it says. Returns whether another chunk follows.
fn parse_chunk(reader: &mut Reader, index: usize, stream: &mut StreamHeader) -> (r: Result<
    bool,
    ChunkError,
>)
    requires
        old(stream)@.wf(),
    ensures
        final(reader).bytes() == old(reader).bytes(),
        final(reader).pos() >= old(reader).pos(),
        final(stream)@.wf(),
        r is Ok ==> old(reader).pos() + 4 <= final(reader).pos(),
        (
            match r {
                Ok(more_chunks) => Ok((final(stream)@, more_chunks)),
                Err(e) => Err(e),
            },
            final(reader).pos() as int,
        ) == chunk_at(old(reader).bytes(), old(reader).pos() as int, index, old(stream)@),
{
    proof {
        use_type_invariant(&*reader);
    }
    let word = match reader.le_u32() {
        Ok(n) => n,
        Err(e) => {
            return Err(ChunkError::new_with_source(index, ChunkErrorKind::Flag, e));
        },
    };
    let chunk = RawStreamChunk::from(word).parse(index)?;
    let start_position = reader.position();
    parse_chunk_body(reader, chunk.kind, index, stream)?;
    // The chunk ends where its size says, whatever has been read of it.
    let read = reader.position() - start_position;
    if read > chunk.size as usize {
        return Err(
            ChunkError::new(
                index,
                ChunkErrorKind::WrongChunkSize { expected: chunk.size, actual: read },
            ),
        );
    }
    match reader.skip(chunk.size as usize - read) {
        Ok(_) => Ok(chunk.more_chunks),
        Err(e) => Err(
            ChunkError::new_with_source(
                index,
                ChunkErrorKind::WrongChunkSize {
                    expected: chunk.size,
                    actual: reader.position() - start_position,
                },
                e,
            ),
        ),
    }
}

/// Reads the chunk list of a stream header, and notes in `stream` what the
/// chunks say. The list ends with the first chunk that announces no other.
pub fn parse_stream_chunks(reader: &mut Reader, stream: &mut StreamHeader) -> (r: Result<
    (),
    ChunkError,
>)
    requires
        old(stream)@.wf(),
    ensures
        final(reader).bytes() == old(reader).bytes(),
        final(reader).pos() >= old(reader).pos(),
        final(stream)@.wf(),
        r is Err ==> final(stream)@ == old(stream)@,
        (outcome(r, final(stream)@), final(reader).pos() as int) == chunks(
            old(reader).bytes(),
            old(reader).pos() as int,
            0,
            old(stream)@,
        ),
{
    proof {
        use_type_invariant(&*reader);
    }
    let ghost bytes = reader.bytes();
    let ghost start = reader.pos() as int;
    let ghost first = stream@;
    // What the chunks say is noted in a copy, which takes the place of the
    // stream header once the whole list is read.
    let mut changed = stream.duplicate();
    let mut index: usize = 0;
    loop
        invariant
            bytes == old(reader).bytes(),
            start == old(reader).pos(),
            first == old(stream)@,
            first.wf(),
            stream@ == first,
            reader.bytes() == bytes,
            start + 4 * index <= reader.pos() <= bytes.len(),
            changed@.wf(),
            chunks(bytes, start, 0, first) == chunks(bytes, reader.pos() as int, index, changed@),
        decreases bytes.len() - reader.pos(),
    {
        let more_chunks = parse_chunk(reader, index, &mut changed)?;
        proof {
            use_type_invariant(&*reader);
        }
        if !more_chunks {
            *stream = changed;
            return Ok(());
        }
        index += 1;
    }
}

/// Reads the header of the stream at `index`: its packed word and, where
/// the word announces them, its chunks.
pub fn parse_stream_header(reader: &mut Reader, index: u32) -> (r: Result<
    StreamHeader,
    StreamError,
>)
    ensures
        final(reader).bytes() == old(reader).bytes(),
        final(reader).pos() >= old(reader).pos(),
        stepped(r, final(reader).pos()) == stream_at(
            old(reader).bytes(),
            old(reader).pos() as int,
            index,
        ),
        r matches Ok(stream) ==> stream@.wf(),
{
    proof {
        use_type_invariant(&*reader);
    }
    // The word holds the sample rate, the number of channels and the like.
    // Chunks may follow it, and may say the same things anew.
    let mut stream = match reader.le_u64() {
        Ok(n) => RawStreamHeader::from(n).parse(index)?,
        Err(e) => {
            return Err(StreamError::new_with_source(index, StreamErrorKind::StreamInfo, e));
        },
    };
    if stream.has_chunks {
        match parse_stream_chunks(reader, &mut stream) {
            Ok(_) => {},
            Err(e) => {
                return Err(e.into_stream_err(index));
            },
        }
    }
    Ok(stream)
}

/// The views of `streams`, in their order.
pub open spec fn header_views(streams: Seq<StreamHeader>) -> Seq<StreamHeaderView> {
    streams.map_values(|stream: StreamHeader| stream@)
}

/// The number of entries of a table of offsets, which ends with one offset
/// more than it has entries.
pub open spec fn entries(offsets: Seq<u32>) -> nat {
    if offsets.len() == 0 {
        0
    } else {
        (offsets.len() - 1) as nat
    }
}

/// Turns a table of offsets into the lengths of its entries. Each entry
/// reaches to the offset that follows it, so the table ends with one offset
/// more than it has entries. An entry that does not end behind its start is
/// an error: the index of the first such entry is returned.
pub fn reconcile(offsets: &[u32]) -> (r: Result<Vec<u32>, usize>)
    ensures
        match r {
            Ok(found) => lengths(offsets@, entries(offsets@)) == Ok::<_, nat>(found@),
            Err(index) => lengths(offsets@, entries(offsets@)) == Err::<Seq<u32>, _>(index as nat),
        },
{
    let mut found: Vec<u32> = Vec::new();
    if offsets.len() == 0 {
        return Ok(found);
    }
    let count = offsets.len() - 1;
    let mut index: usize = 0;
    while index < count
        invariant
            index <= count,
            count == entries(offsets@),
            count + 1 == offsets@.len(),
            lengths(offsets@, index as nat) == Ok::<_, nat>(found@),
        decreases count - index,
    {
        if offsets[index + 1] <= offsets[index] {
            proof {
                lemma_lengths_fail(offsets@, (index + 1) as nat, count as nat);
            }
            return Err(index);
        }
        found.push(offsets[index + 1] - offsets[index]);
        index += 1;
    }
    Ok(found)
}

/// Reads the headers of the `num_streams` streams of a bank whose stream
/// data is `total_stream_size` bytes long.
pub fn parse_stream_headers(reader: &mut Reader, num_streams: u32, total_stream_size: u32) -> (r:
    Result<Vec<StreamInfo>, HeaderError>)
    ensures
        final(reader).bytes() == old(reader).bytes(),
        final(reader).pos() >= old(reader).pos(),
        (
            match r {
                Ok(streams) => Ok(stream_views(streams@)),
                Err(e) => Err(e),
            },
            final(reader).pos() as int,
        ) == stream_infos(
            old(reader).bytes(),
            old(reader).pos() as int,
            num_streams,
            total_stream_size,
        ),
        r matches Ok(streams) ==> streams@.len() == num_streams && forall|i: int|
            0 <= i < streams@.len() ==> (#[trigger] streams@[i])@.wf(),
{
    proof {
        use_type_invariant(&*reader);
    }
    let ghost bytes = reader.bytes();
    let ghost start = reader.pos() as int;
    let mut stream_headers: Vec<StreamHeader> = Vec::new();
    let mut stream_offsets: Vec<u32> = Vec::new();
    let mut index: u32 = 0;
    assert(header_views(stream_headers@) =~= Seq::empty());
    assert(data_offsets(header_views(stream_headers@)) =~= Seq::empty());
    while index < num_streams
        invariant
            index <= num_streams,
            bytes == old(reader).bytes(),
            start == old(reader).pos(),
            reader.bytes() == bytes,
            reader.pos() >= start,
            stream_headers@.len() == index,
            forall|i: int| 0 <= i < index ==> (#[trigger] stream_headers@[i])@.wf(),
            stream_offsets@ == data_offsets(header_views(stream_headers@)),
            crate::header::model::stream_headers(bytes, start, index as nat) == (
                Ok::<_, StreamError>(header_views(stream_headers@)),
                reader.pos() as int,
            ),
        decreases num_streams - index,
    {
        let stream_header = match parse_stream_header(reader, index) {
            Ok(stream_header) => stream_header,
            Err(e) => {
                proof {
                    lemma_stream_headers_fail(bytes, start, (index + 1) as nat, num_streams as nat);
                }
                return Err(HeaderError::from(e));
            },
        };
        let ghost before = stream_headers@;
        stream_offsets.push(stream_header.data_offset);
        stream_headers.push(stream_header);
        assert(header_views(stream_headers@) =~= header_views(before).push(stream_header@));
        assert(data_offsets(header_views(stream_headers@)) =~= data_offsets(
            header_views(before),
        ).push(stream_header@.data_offset));
        index += 1;
    }
    let ghost offsets = stream_offsets@;
    stream_offsets.push(total_stream_size);
    assert(stream_offsets@ == data_offsets(header_views(stream_headers@)).push(total_stream_size));
    // The headers give the offsets of the stream data only. The data of a stream
    // reaches to the offset of the next one, that of the last to the end of all.
    let sizes = match reconcile(stream_offsets.as_slice()) {
        Ok(sizes) => sizes,
        Err(index) => {
            proof {
                lemma_lengths_bounds(stream_offsets@, num_streams as nat);
            }
            return Err(HeaderError::new(HeaderErrorKind::ZeroStreamSize { index: index as u32 }));
        },
    };
    proof {
        lemma_lengths_bounds(stream_offsets@, num_streams as nat);
    }
    let ghost headers = header_views(stream_headers@);
    let mut stream_info: Vec<StreamInfo> = Vec::new();
    let mut at: usize = 0;
    for stream_header in iter: stream_headers
        invariant
            at == iter.index(),
            iter.seq().len() == num_streams,
            header_views(iter.seq()) == headers,
            forall|i: int| 0 <= i < iter.seq().len() ==> (#[trigger] iter.seq()[i])@.wf(),
            sizes@.len() == num_streams,
            forall|i: int| 0 <= i < sizes@.len() ==> sizes@[i] > 0,
            stream_info@.len() == at,
            forall|i: int|
                0 <= i < at ==> (#[trigger] stream_info@[i])@ == with_stream_size(
                    headers[i],
                    sizes@[i],
                ),
    {
        stream_info.push(stream_header.with_stream_size(sizes[at]));
        at += 1;
    }
    assert(stream_views(stream_info@) =~= Seq::new(
        num_streams as nat,
        |i: int| with_stream_size(headers[i], sizes@[i]),
    ));
    Ok(stream_info)
}

/// Reads the base header of a bank.
pub fn parse_base_header(reader: &mut Reader) -> (r: Result<BaseHeader, HeaderError>)
    ensures
        final(reader).bytes() == old(reader).bytes(),
        final(reader).pos() >= old(reader).pos(),
        (r, final(reader).pos() as int) == base_header(
            old(reader).bytes(),
            old(reader).pos() as int,
        ),
{
    proof {
        use_type_invariant(&*reader);
    }
    let start = reader.position();
    // check for file signature
    let signature = match reader.take_const::<4>() {
        Ok(data) => data,
        Err(e) => {
            return Err(HeaderError::new_with_source(HeaderErrorKind::Magic, e));
        },
    };
    if !(signature[0] == 0x46 && signature[1] == 0x53 && signature[2] == 0x42 && signature[3]
        == 0x35) {
        return Err(HeaderError::new(HeaderErrorKind::Magic));
    }
    assert(signature@ =~= magic());
    // determines how encoding flags are read
    let version = match reader.le_u32() {
        Ok(n) => Version::try_from(n)?,
        Err(e) => {
            return Err(HeaderError::new_with_source(HeaderErrorKind::Version, e));
        },
    };
    let num_streams = match reader.le_u32() {
        Ok(n) => n,
        Err(e) => {
            return Err(HeaderError::new_with_source(HeaderErrorKind::StreamCount, e));
        },
    };
    if num_streams == 0 {
        return Err(HeaderError::new(HeaderErrorKind::ZeroStreams));
    }
    let stream_headers_size = match reader.le_u32() {
        Ok(n) => n,
        Err(e) => {
            return Err(HeaderError::new_with_source(HeaderErrorKind::StreamHeadersSize, e));
        },
    };
    let name_table_size = match reader.le_u32() {
        Ok(n) => n,
        Err(e) => {
            return Err(HeaderError::new_with_source(HeaderErrorKind::NameTableSize, e));
        },
    };
    let total_stream_size = match reader.le_u32() {
        Ok(n) => n,
        Err(e) => {
            return Err(HeaderError::new_with_source(HeaderErrorKind::TotalStreamSize, e));
        },
    };
    if total_stream_size == 0 {
        return Err(HeaderError::new(HeaderErrorKind::ZeroTotalStreamSize));
    }
    let format = match reader.le_u32() {
        Ok(n) => AudioFormat::parse(n)?,
        Err(e) => {
            return Err(HeaderError::new_with_source(HeaderErrorKind::AudioFormat, e));
        },
    };
    // read encoding flags
    let flags = match version {
        Version::V0 => 0,
        Version::V1 => {
            match reader.skip(4) {
                Ok(_) => {},
                Err(e) => {
                    return Err(HeaderError::new_with_source(HeaderErrorKind::EncodingFlags, e));
                },
            }
            match reader.le_u32() {
                Ok(n) => n,
                Err(e) => {
                    return Err(HeaderError::new_with_source(HeaderErrorKind::EncodingFlags, e));
                },
            }
        },
    };
    // skip unknown header data
    let read = reader.position() - start;
    match reader.skip(version.base_header_size() - read) {
        Ok(_) => {},
        Err(e) => {
            return Err(HeaderError::new_with_source(HeaderErrorKind::Metadata, e));
        },
    }
    Ok(
        BaseHeader {
            version,
            num_streams,
            stream_headers_size,
            name_table_size,
            total_stream_size,
            format,
            flags,
        },
    )
}

/// Reads the offsets of the names of `count` streams.
fn parse_name_offsets(reader: &mut Reader, count: u32) -> (r: Result<Vec<u32>, NameError>)
    ensures
        final(reader).bytes() == old(reader).bytes(),
        final(reader).pos() >= old(reader).pos(),
        stepped(r, final(reader).pos()) == name_offsets(
            old(reader).bytes(),
            old(reader).pos() as int,
            count as nat,
        ),
        r matches Ok(offsets) ==> offsets@.len() == count,
{
    proof {
        use_type_invariant(&*reader);
    }
    let ghost bytes = reader.bytes();
    let ghost start = reader.pos() as int;
    let mut offsets: Vec<u32> = Vec::new();
    let mut index: u32 = 0;
    while index < count
        invariant
            index <= count,
            bytes == old(reader).bytes(),
            start == old(reader).pos(),
            reader.bytes() == bytes,
            offsets@.len() == index,
            reader.pos() >= start,
            name_offsets(bytes, start, index as nat) == (
                Ok::<_, NameError>(offsets@),
                reader.pos() as int,
            ),
        decreases count - index,
    {
        proof {
            use_type_invariant(&*reader);
        }
        let offset = match reader.le_u32() {
            Ok(n) => n,
            Err(e) => {
                proof {
                    lemma_name_offsets_fail(bytes, start, (index + 1) as nat, count as nat);
                }
                return Err(NameError::from_read(index, NameErrorKind::NameOffset, e));
            },
        };
        offsets.push(offset);
        index += 1;
    }
    Ok(offsets)
}

/// `String::from_utf8` of the standard library: the text that `bytes`
/// encode, if they are valid UTF-8, and nothing if they are not. What
/// valid UTF-8 is, and which characters it stands for, is taken from
/// `vstd::utf8`.
#[verifier::external_body]
fn string_from_utf8(bytes: Vec<u8>) -> (r: Option<String>)
    ensures
        r is Some <==> valid_utf8(bytes@),
        r matches Some(text) ==> text@ == decode_utf8(bytes@),
{
    String::from_utf8(bytes).ok()
}

/// Finds the first zero byte of `bytes`.
fn find_nul(bytes: &Vec<u8>) -> (r: Option<usize>)
    ensures
        match r {
            Some(i) => ends_at(bytes@, i as int),
            None => !(exists|i: int| ends_at(bytes@, i)),
        },
{
    let mut i: usize = 0;
    while i < bytes.len()
        invariant
            i <= bytes@.len(),
            forall|j: int| 0 <= j < i ==> bytes@[j] != 0,
        decreases bytes@.len() - i,
    {
        if bytes[i] == 0 {
            return Some(i);
        }
        i += 1;
    }
    None
}

/// Reads the name of the stream at `index`, which reaches from the offset
/// `from` of the name table to the offset `to`.
fn parse_name(reader: &mut Reader, from: u32, to: u32, index: u32) -> (r: Result<String, NameError>)
    ensures
        final(reader).bytes() == old(reader).bytes(),
        final(reader).pos() >= old(reader).pos(),
        stepped(r, final(reader).pos()) == name_at(
            old(reader).bytes(),
            old(reader).pos() as int,
            from,
            to,
            index,
        ),
{
    proof {
        use_type_invariant(&*reader);
    }
    if to <= from {
        return Err(NameError::from_cstr(index));
    }
    let mut name = match reader.take((to - from) as usize) {
        Ok(bytes) => bytes,
        Err(e) => {
            return Err(NameError::from_read(index, NameErrorKind::Name, e));
        },
    };
    let ghost taken = name@;
    let end = match find_nul(&name) {
        Some(end) => end,
        None => {
            return Err(NameError::from_cstr(index));
        },
    };
    assert(forall|i: int| ends_at(taken, i) ==> i == end);
    name.truncate(end);
    assert(name@ =~= taken.subrange(0, end as int));
    match string_from_utf8(name) {
        Some(text) => Ok(text),
        None => Err(NameError::from_utf8(index)),
    }
}

/// Reads the names of the streams of a bank, and gives each stream its
/// name. The table `name_offsets` holds the offset of each name and, behind
/// them, the size of the name table.
pub fn read_stream_names(
    reader: &mut Reader,
    name_offsets: &[u32],
    stream_info: &mut Vec<StreamInfo>,
) -> (r: Result<(), NameError>)
    requires
        name_offsets@.len() == old(stream_info)@.len() + 1,
        old(stream_info)@.len() <= u32::MAX,
    ensures
        final(reader).bytes() == old(reader).bytes(),
        final(reader).pos() >= old(reader).pos(),
        ({
            let (found, end) = names(
                old(reader).bytes(),
                old(reader).pos() as int,
                name_offsets@,
                old(stream_info)@.len(),
            );
            let unnamed = stream_views(old(stream_info)@);
            &&& end == final(reader).pos()
            &&& match r {
                Ok(_) => found is Ok && stream_views(final(stream_info)@) == named(
                    unnamed,
                    found->Ok_0,
                ),
                Err(e) => {
                    let before = names(
                        old(reader).bytes(),
                        old(reader).pos() as int,
                        name_offsets@,
                        e.index as nat,
                    ).0;
                    &&& found == Err::<Seq<Seq<char>>, _>(e)
                    &&& e.index < unnamed.len()
                    &&& before is Ok
                    &&& stream_views(final(stream_info)@) == named_up_to(
                        unnamed,
                        before->Ok_0,
                        e.index as int,
                    )
                },
            }
        }),
{
    proof {
        use_type_invariant(&*reader);
    }
    let ghost bytes = reader.bytes();
    let ghost start = reader.pos() as int;
    let ghost unnamed = stream_views(stream_info@);
    let ghost mut found: Seq<Seq<char>> = Seq::empty();
    let count = stream_info.len();
    let mut index: usize = 0;
    while index < count
        invariant
            index <= count,
            count == old(stream_info)@.len(),
            count <= u32::MAX,
            name_offsets@.len() == count + 1,
            bytes == old(reader).bytes(),
            start == old(reader).pos(),
            unnamed == stream_views(old(stream_info)@),
            reader.bytes() == bytes,
            stream_info@.len() == count,
            found.len() == index,
            reader.pos() >= start,
            names(bytes, start, name_offsets@, index as nat) == (
                Ok::<_, NameError>(found),
                reader.pos() as int,
            ),
            forall|i: int|
                0 <= i < index ==> (#[trigger] stream_info@[i])@ == (StreamInfoView {
                    name: Some(found[i]),
                    ..unnamed[i]
                }),
            forall|i: int| index <= i < count ==> (#[trigger] stream_info@[i])@ == unnamed[i],
        decreases count - index,
    {
        let name = match parse_name(
            reader,
            name_offsets[index],
            name_offsets[index + 1],
            index as u32,
        ) {
            Ok(name) => name,
            Err(e) => {
                proof {
                    lemma_names_fail(
                        bytes,
                        start,
                        name_offsets@,
                        (index + 1) as nat,
                        count as nat,
                    );
                    assert(stream_views(stream_info@) =~= named_up_to(
                        unnamed,
                        found,
                        index as int,
                    ));
                }
                return Err(e);
            },
        };
        proof {
            found = found.push(name@);
        }
        stream_info[index].name = Some(name);
        index += 1;
    }
    assert(stream_views(stream_info@) =~= named(unnamed, found));
    Ok(())
}

impl Header {
    /// Reads the file header of a bank: the base header, the header of each
    /// stream, and the names of the streams if the bank holds them.
    pub fn parse(reader: &mut Reader) -> (r: Result<Header, HeaderError>)
        ensures
            final(reader).bytes() == old(reader).bytes(),
            final(reader).pos() >= old(reader).pos(),
            stepped(r, final(reader).pos()) == header_at(
                old(reader).bytes(),
                old(reader).pos() as int,
            ),
            r matches Ok(header) ==> header@.wf(),
    {
        proof {
            use_type_invariant(&*reader);
        }
        let start = reader.position();
        let base = parse_base_header(reader)?;
        let streams_at = reader.position();
        let mut stream_info = parse_stream_headers(
            reader,
            base.num_streams,
            base.total_stream_size,
        )?;
        // make sure that the stream headers end where the base header says
        let read = reader.position() - streams_at;
        if read as u64 != base.stream_headers_size as u64 {
            return Err(
                HeaderError::new(
                    HeaderErrorKind::WrongHeaderSize {
                        expected: base.version.base_header_size() as u64
                            + base.stream_headers_size as u64,
                        actual: (reader.position() - start) as u64,
                    },
                ),
            );
        }
        // Read stream names, if present.
        // The name table has two parts: name offsets, then names, each of which
        // ends in a zero byte. A name reaches from its offset to the next one,
        // the last name to the end of the table.

        if base.name_table_size != 0 {
            let mut name_offsets = match parse_name_offsets(reader, base.num_streams) {
                Ok(offsets) => offsets,
                Err(e) => {
                    return Err(HeaderError::from(e));
                },
            };
            name_offsets.push(base.name_table_size);
            match read_stream_names(reader, name_offsets.as_slice(), &mut stream_info) {
                Ok(_) => {},
                Err(e) => {
                    return Err(HeaderError::from(e));
                },
            }
        }
        Ok(Header { format: base.format, flags: base.flags, stream_info })
    }
}

} // verus!
