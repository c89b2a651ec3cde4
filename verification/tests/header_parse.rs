use fsbex::header::bits::RawStreamChunk;
use fsbex::header::bits::RawStreamHeader;
use fsbex::header::error::ChunkError;
use fsbex::header::error::ChunkErrorKind;
use fsbex::header::error::HeaderError;
use fsbex::header::error::HeaderErrorKind;
use fsbex::header::error::HeaderErrorSource;
use fsbex::header::error::NameError;
use fsbex::header::error::NameErrorKind;
use fsbex::header::error::NameErrorSource;
use fsbex::header::error::StreamError;
use fsbex::header::error::StreamErrorKind;
use fsbex::header::error::StreamErrorSource;
use fsbex::header::parse::parse_base_header;
use fsbex::header::parse::parse_stream_chunks;
use fsbex::header::parse::parse_stream_header;
use fsbex::header::parse::parse_stream_headers;
use fsbex::header::parse::read_stream_names;
use fsbex::header::parse::reconcile;
use fsbex::header::AudioFormat;
use fsbex::header::Header;
use fsbex::header::Loop;
use fsbex::header::StreamHeader;
use fsbex::header::StreamInfo;
use fsbex::header::Version;
use fsbex::read::Needed;
use fsbex::read::ReadError;
use fsbex::read::ReadErrorKind;
use fsbex::read::Reader;

fn stream_word(has_chunks: bool, rate: u64, channels: u64, offset: u64, samples: u64) -> [u8; 8] {
    (u64::from(has_chunks) | rate << 1 | channels << 5 | (offset / 32) << 7 | samples << 34)
        .to_le_bytes()
}

fn chunk_word(more_chunks: bool, size: u32, kind: u32) -> [u8; 4] {
    (u32::from(more_chunks) | size << 1 | kind << 25).to_le_bytes()
}

fn chunk(more_chunks: bool, kind: u32, content: &[u8]) -> Vec<u8> {
    let mut bytes = chunk_word(more_chunks, content.len() as u32, kind).to_vec();
    bytes.extend_from_slice(content);
    bytes
}

fn base(version: u32, streams: u32, headers_size: u32, names_size: u32, total: u32, format: u32) -> Vec<u8> {
    let mut bytes = b"FSB5".to_vec();
    for field in [version, streams, headers_size, names_size, total, format] {
        bytes.extend_from_slice(&field.to_le_bytes());
    }
    if version == 1 {
        bytes.extend_from_slice(&[0xAA; 4]);
        bytes.extend_from_slice(&0x0102_0304u32.to_le_bytes());
        bytes.resize(60, 0xEE);
    } else {
        bytes.resize(64, 0xEE);
    }
    bytes
}

fn bank(version: u32, streams: u32, names_size: u32, total: u32, format: u32, headers: &[u8], rest: &[u8]) -> Vec<u8> {
    let mut bytes = base(version, streams, headers.len() as u32, names_size, total, format);
    bytes.extend_from_slice(headers);
    bytes.extend_from_slice(rest);
    bytes
}

fn plain_header() -> StreamHeader {
    StreamHeader {
        has_chunks: true,
        sample_rate: 44100,
        channels: 2,
        data_offset: 0,
        num_samples: 1,
        stream_loop: None,
        dsp_coeffs: None,
        vorbis_crc32: None,
    }
}

fn chunks_of(bytes: &[u8]) -> Result<StreamHeader, ChunkError> {
    let mut stream = plain_header();
    let mut reader = Reader::new(bytes);
    parse_stream_chunks(&mut reader, &mut stream)?;
    assert_eq!(reader.position(), bytes.len());
    Ok(stream)
}

fn short(position: usize, needed: usize) -> ReadError {
    ReadError { position, kind: ReadErrorKind::Incomplete(Needed::Size(needed)) }
}

fn two_streams() -> Vec<u8> {
    let mut headers = stream_word(true, 8, 1, 0, 1000).to_vec();
    let mut seek_table = 0xDEAD_BEEFu32.to_le_bytes().to_vec();
    seek_table.extend_from_slice(&[9, 9, 9, 9]);
    headers.extend(chunk(true, 11, &seek_table));
    let mut stream_loop = 10u32.to_le_bytes().to_vec();
    stream_loop.extend_from_slice(&50u32.to_le_bytes());
    headers.extend(chunk(true, 3, &stream_loop));
    headers.extend(chunk(false, 1, &[6]));
    headers.extend_from_slice(&stream_word(false, 9, 0, 64, 5));
    assert_eq!(headers.len(), 45);
    let mut rest = 8u32.to_le_bytes().to_vec();
    rest.extend_from_slice(&14u32.to_le_bytes());
    rest.extend_from_slice(b"first\0");
    rest.extend_from_slice(b"s\xC3\xA9c\0\0");
    rest.extend_from_slice(&[0x55; 100]);
    bank(1, 2, 20, 100, 2, &headers, &rest)
}

#[test]
fn a_bank_of_two_streams_is_parsed() {
    let data = two_streams();
    let mut reader = Reader::new(&data);
    let header = Header::parse(&mut reader).unwrap();

    assert_eq!(reader.position(), 60 + 45 + 20);
    assert_eq!(header.format, AudioFormat::Pcm16);
    assert_eq!(header.flags, 0x0102_0304);
    assert_eq!(header.stream_info.len(), 2);

    let first = &header.stream_info[0];
    assert_eq!(first.sample_rate, 44100);
    assert_eq!(first.channels, 6);
    assert_eq!(first.num_samples, 1000);
    assert_eq!(first.size, 64);
    assert_eq!(first.vorbis_crc32, Some(0xDEAD_BEEF));
    assert_eq!(first.dsp_coeffs, None);
    assert_eq!(first.name.as_deref(), Some("first"));
    let stream_loop = first.stream_loop.unwrap();
    assert_eq!(stream_loop.start(), 10);
    assert_eq!(stream_loop.len(), 40);
    assert_eq!(stream_loop.end(), 50);

    let second = &header.stream_info[1];
    assert_eq!(second.sample_rate, 48000);
    assert_eq!(second.channels, 1);
    assert_eq!(second.num_samples, 5);
    assert_eq!(second.size, 36);
    assert_eq!(second.vorbis_crc32, None);
    assert_eq!(second.stream_loop, None);
    assert_eq!(second.name.as_deref(), Some("s\u{e9}c"));
}

#[test]
fn stream_sizes_add_up_to_the_total() {
    let data = two_streams();
    let mut reader = Reader::new(&data);
    let header = Header::parse(&mut reader).unwrap();

    let sum: u64 = header.stream_info.iter().map(|info| u64::from(info.size)).sum();
    assert_eq!(sum, 100);
}

#[test]
fn parsing_twice_gives_the_same_header() {
    let data = two_streams();
    let first = Header::parse(&mut Reader::new(&data));
    let second = Header::parse(&mut Reader::new(&data));
    assert!(first.is_ok());
    assert_eq!(first, second);

    let broken = &data[..70];
    let first = Header::parse(&mut Reader::new(broken));
    let second = Header::parse(&mut Reader::new(broken));
    assert!(first.is_err());
    assert_eq!(first, second);
}

#[test]
fn a_bank_of_the_older_version_has_no_flags() {
    let data = bank(0, 1, 0, 7, 15, &stream_word(false, 0, 3, 0, 1), b"");
    let mut reader = Reader::new(&data);
    let header = Header::parse(&mut reader).unwrap();

    assert_eq!(reader.position(), 72);
    assert_eq!(header.format, AudioFormat::Vorbis);
    assert_eq!(header.flags, 0);
    assert_eq!(
        header.stream_info,
        vec![StreamInfo {
            sample_rate: 4000,
            channels: 8,
            num_samples: 1,
            stream_loop: None,
            dsp_coeffs: None,
            vorbis_crc32: None,
            size: 7,
            name: None,
        }]
    );
}

#[test]
fn the_base_header_holds_its_fields() {
    let data = base(1, 3, 24, 0, 9, 17);
    let mut reader = Reader::new(&data);
    let base = parse_base_header(&mut reader).unwrap();

    assert_eq!(reader.position(), 60);
    assert_eq!(base.version, Version::V1);
    assert_eq!(base.num_streams, 3);
    assert_eq!(base.stream_headers_size, 24);
    assert_eq!(base.name_table_size, 0);
    assert_eq!(base.total_stream_size, 9);
    assert_eq!(base.format, AudioFormat::Opus);
    assert_eq!(base.flags, 0x0102_0304);
    assert_eq!(Version::V0.base_header_size(), 64);
    assert_eq!(Version::V1.base_header_size(), 60);
}

#[test]
fn every_audio_format_has_its_number() {
    let formats = [
        AudioFormat::Pcm8,
        AudioFormat::Pcm16,
        AudioFormat::Pcm24,
        AudioFormat::Pcm32,
        AudioFormat::PcmFloat,
        AudioFormat::GcAdpcm,
        AudioFormat::ImaAdpcm,
        AudioFormat::Vag,
        AudioFormat::HeVag,
        AudioFormat::Xma,
        AudioFormat::Mpeg,
        AudioFormat::Celt,
        AudioFormat::Atrac9,
        AudioFormat::Xwma,
        AudioFormat::Vorbis,
        AudioFormat::FAdpcm,
        AudioFormat::Opus,
    ];
    for (number, format) in (1..).zip(formats) {
        assert_eq!(AudioFormat::parse(number), Ok(format));
    }
    for number in [0, 18, u32::MAX] {
        assert_eq!(
            AudioFormat::parse(number),
            Err(HeaderError::new(HeaderErrorKind::UnknownAudioFormat { flag: number }))
        );
    }
    assert_eq!(Version::try_from(0), Ok(Version::V0));
    assert_eq!(Version::try_from(1), Ok(Version::V1));
    assert_eq!(
        Version::try_from(2),
        Err(HeaderError::new(HeaderErrorKind::UnknownVersion { version: 2 }))
    );
}

#[test]
fn every_sample_rate_selector_is_mapped() {
    let rates = [4000, 8000, 11000, 11025, 16000, 22050, 24000, 32000, 44100, 48000, 96000];
    for (flag, rate) in (0u8..).zip(rates) {
        let raw = RawStreamHeader::new(false, flag, 0, 0, 1);
        assert_eq!(raw.parse(3).unwrap().sample_rate, rate);
    }
    for flag in 11..16 {
        let raw = RawStreamHeader::new(false, flag, 0, 0, 1);
        assert_eq!(
            raw.parse(3),
            Err(StreamError::new(3, StreamErrorKind::UnknownSampleRate { flag }))
        );
    }
    assert_eq!(RawStreamHeader::new(false, 8, 0, 0, 1).parse(0).unwrap().sample_rate, 44100);
    assert_eq!(
        RawStreamHeader::new(false, 11, 0, 0, 1).parse(0).unwrap_err().kind(),
        StreamErrorKind::UnknownSampleRate { flag: 11 }
    );
}

#[test]
fn every_channel_selector_is_mapped() {
    for (flag, channels) in [(0, 1), (1, 2), (2, 6), (3, 8)] {
        let raw = RawStreamHeader::new(false, 0, flag, 0, 1);
        assert_eq!(raw.parse(0).unwrap().channels, channels);
    }
}

#[test]
fn the_data_offset_counts_in_units_of_32_bytes() {
    let raw = RawStreamHeader::new(true, 8, 1, 0x7FF_FFFF, 0x3FFF_FFFF);
    assert_eq!(raw.value, 0xFFFF_FFFF_FFFF_FFB1);
    assert_eq!(
        raw.parse(0),
        Ok(StreamHeader {
            has_chunks: true,
            sample_rate: 44100,
            channels: 2,
            data_offset: 0xFFFF_FFE0,
            num_samples: 0x3FFF_FFFF,
            stream_loop: None,
            dsp_coeffs: None,
            vorbis_crc32: None,
        })
    );
}

#[test]
fn the_fields_of_a_stream_word_pack_to_the_word() {
    for word in [0u64, 1, u64::MAX, 0x0123_4567_89AB_CDEF, 0x8000_0000_0000_0001, 0x3030_3030_3030_3001] {
        let raw = RawStreamHeader::from(word);
        let again = RawStreamHeader::new(
            raw.has_chunks(),
            raw.sample_rate(),
            raw.channels(),
            raw.data_offset(),
            raw.num_samples(),
        );
        assert_eq!(again.value, word);
    }
}

#[test]
fn the_fields_of_a_chunk_word_pack_to_the_word() {
    for word in [0u32, 1, u32::MAX, 0x89AB_CDEF, 0x8000_0001, 0x1B0D_C033] {
        let raw = RawStreamChunk::from(word);
        let again = RawStreamChunk::new(raw.more_chunks(), raw.size(), raw.kind());
        assert_eq!(again.value, word);
    }
    let raw = RawStreamChunk::new(true, 0xFF_FFFF, 0);
    assert_eq!(raw.value, 0x01FF_FFFF);
    let raw = RawStreamChunk::new(false, 0, 0x7F);
    assert_eq!(raw.value, 0xFE00_0000);
}

#[test]
fn every_chunk_kind_is_told_by_its_selector() {
    for kind in [1u8, 2, 3, 4, 6, 7, 9, 10, 11, 13, 14, 15] {
        let chunk = RawStreamChunk::new(true, 77, kind).parse(2).unwrap();
        assert!(chunk.more_chunks);
        assert_eq!(chunk.size, 77);
    }
    assert_eq!(
        RawStreamChunk::new(true, 77, 5).parse(2),
        Err(ChunkError::new(2, ChunkErrorKind::UnknownType { flag: 5 }))
    );
}

#[test]
fn offsets_are_reconciled_to_lengths() {
    assert_eq!(reconcile(&[0, 12, 30, 40]), Ok(vec![12, 18, 10]));
    assert_eq!(reconcile(&[5, 6]), Ok(vec![1]));
    assert_eq!(reconcile(&[5]), Ok(vec![]));
    assert_eq!(reconcile(&[]), Ok(vec![]));
    assert_eq!(reconcile(&[0, u32::MAX]), Ok(vec![u32::MAX]));
}

#[test]
fn an_entry_of_no_length_is_rejected() {
    assert_eq!(reconcile(&[0, 12, 12, 40]), Err(1));
    assert_eq!(reconcile(&[7, 7]), Err(0));
    assert_eq!(reconcile(&[0, 12, 12, 12]), Err(1));
}

#[test]
fn offsets_that_decrease_are_rejected_as_entries_of_no_length() {
    assert_eq!(reconcile(&[0, 12, 8, 40]), Err(1));
    assert_eq!(reconcile(&[0, 12, 20, 19]), Err(2));
}

#[test]
fn a_stream_without_data_is_rejected() {
    let mut headers = stream_word(false, 0, 0, 0, 1).to_vec();
    headers.extend_from_slice(&stream_word(false, 0, 0, 32, 1));
    headers.extend_from_slice(&stream_word(false, 0, 0, 32, 1));
    let data = bank(1, 3, 0, 64, 1, &headers, b"");
    assert_eq!(
        Header::parse(&mut Reader::new(&data)),
        Err(HeaderError::new(HeaderErrorKind::ZeroStreamSize { index: 1 }))
    );

    // the data of the last stream reaches to the total size
    let data = bank(1, 3, 0, 32, 1, &headers, b"");
    let mut reader = Reader::new(&data);
    reader.skip(60).unwrap();
    assert_eq!(
        parse_stream_headers(&mut reader, 2, 32),
        Err(HeaderError::new(HeaderErrorKind::ZeroStreamSize { index: 1 }))
    );
    let mut reader = Reader::new(&data);
    reader.skip(60).unwrap();
    let streams = parse_stream_headers(&mut reader, 2, 33).unwrap();
    assert_eq!(streams[0].size, 32);
    assert_eq!(streams[1].size, 1);
}

#[test]
fn the_stream_headers_must_end_where_the_base_header_says() {
    let headers = stream_word(false, 0, 0, 0, 1);
    let mut data = base(1, 1, 9, 0, 64, 1);
    data.extend_from_slice(&headers);
    data.extend_from_slice(&[0; 8]);
    assert_eq!(
        Header::parse(&mut Reader::new(&data)),
        Err(HeaderError::new(HeaderErrorKind::WrongHeaderSize { expected: 69, actual: 68 }))
    );

    let mut data = base(0, 1, 7, 0, 64, 1);
    data.extend_from_slice(&headers);
    assert_eq!(
        Header::parse(&mut Reader::new(&data)),
        Err(HeaderError::new(HeaderErrorKind::WrongHeaderSize { expected: 71, actual: 72 }))
    );
}

#[test]
fn a_truncated_stream_word_is_reported_with_its_stream() {
    let mut data = base(1, 1, 8, 0, 64, 1);
    data.extend_from_slice(&[0; 5]);
    let e = Header::parse(&mut Reader::new(&data)).unwrap_err();
    assert_eq!(
        e,
        HeaderError {
            kind: HeaderErrorKind::StreamHeader,
            source: Some(HeaderErrorSource::Stream(StreamError {
                index: 0,
                kind: StreamErrorKind::StreamInfo,
                source: Some(StreamErrorSource::Read(short(65, 3))),
            })),
        }
    );
    assert!(e.is_stream_err_kind(StreamErrorKind::StreamInfo));
    assert!(!e.is_stream_err_kind(StreamErrorKind::Chunk));
    assert_eq!(e.read_error(), Some(short(65, 3)));
}

#[test]
fn errors_of_the_second_stream_carry_its_index() {
    let mut headers = stream_word(false, 0, 0, 0, 1).to_vec();
    headers.extend_from_slice(&stream_word(false, 0, 0, 32, 0));
    let data = bank(1, 2, 0, 64, 1, &headers, b"");
    let e = Header::parse(&mut Reader::new(&data)).unwrap_err();
    assert_eq!(e, HeaderError::from(StreamError::new(1, StreamErrorKind::ZeroSamples)));
    assert_eq!(e.read_error(), None);

    let mut headers = stream_word(false, 0, 0, 0, 1).to_vec();
    headers.extend_from_slice(&stream_word(true, 0, 0, 32, 1));
    headers.extend(chunk(true, 4, b"abc"));
    headers.extend(chunk(false, 1, &[0]));
    let data = bank(1, 2, 0, 64, 1, &headers, b"");
    let e = Header::parse(&mut Reader::new(&data)).unwrap_err();
    assert_eq!(
        e,
        HeaderError::from(
            ChunkError::new(1, ChunkErrorKind::ZeroChannels).into_stream_err(1)
        )
    );
    assert!(e.is_chunk_err_kind(ChunkErrorKind::ZeroChannels));
    assert!(e.is_stream_err_kind(StreamErrorKind::Chunk));
}

#[test]
fn a_stream_header_is_read_with_its_chunks() {
    let mut bytes = stream_word(true, 5, 2, 96, 7).to_vec();
    bytes.extend(chunk(false, 2, &12345u32.to_le_bytes()));
    bytes.extend_from_slice(b"rest");
    let mut reader = Reader::new(&bytes);
    let stream = parse_stream_header(&mut reader, 0).unwrap();
    assert_eq!(reader.position(), 16);
    assert_eq!(
        stream,
        StreamHeader {
            has_chunks: true,
            sample_rate: 12345,
            channels: 6,
            data_offset: 96,
            num_samples: 7,
            stream_loop: None,
            dsp_coeffs: None,
            vorbis_crc32: None,
        }
    );
}

#[test]
fn chunks_change_what_the_stream_word_said() {
    let mut bytes = chunk(true, 1, &[5]);
    bytes.extend(chunk(true, 2, &22222u32.to_le_bytes()));
    bytes.extend(chunk(false, 14, &3u32.to_le_bytes()));
    let stream = chunks_of(&bytes).unwrap();
    assert_eq!(stream.channels, 15);
    assert_eq!(stream.sample_rate, 22222);
    assert_eq!(stream.num_samples, 1);
}

#[test]
fn chunks_of_unread_kinds_are_passed_over() {
    let mut bytes = Vec::new();
    for kind in [4, 6, 9, 10, 13, 15] {
        bytes.extend(chunk(true, kind, b"whatever lies here"));
    }
    bytes.extend(chunk(false, 4, b""));
    assert_eq!(chunks_of(&bytes), Ok(plain_header()));
}

#[test]
fn the_rest_of_a_chunk_is_passed_over() {
    let mut bytes = chunk(true, 1, &[4, 0xFF, 0xFF]);
    bytes.extend(chunk(false, 1, &[0]));
    assert_eq!(chunks_of(&bytes), Err(ChunkError::new(1, ChunkErrorKind::ZeroChannels)));

    let mut bytes = chunk(true, 1, &[4, 0xFF, 0xFF]);
    bytes.extend(chunk(false, 13, &[0]));
    assert_eq!(chunks_of(&bytes).unwrap().channels, 4);
}

#[test]
fn a_seek_table_gives_the_setup_checksum() {
    let mut content = 0xDEAD_BEEFu32.to_le_bytes().to_vec();
    content.extend_from_slice(&[1; 40]);
    let stream = chunks_of(&chunk(false, 11, &content)).unwrap();
    assert_eq!(stream.vorbis_crc32, Some(0xDEAD_BEEF));

    let stream = chunks_of(&chunk(false, 13, &content)).unwrap();
    assert_eq!(stream.vorbis_crc32, None);

    let mut bytes = chunk(true, 11, &content);
    bytes.extend(chunk(false, 1, &[1]));
    assert_eq!(chunks_of(&bytes).unwrap().vorbis_crc32, Some(0xDEAD_BEEF));
}

#[test]
fn a_loop_reaches_from_its_start_to_its_end() {
    let mut content = 100u32.to_le_bytes().to_vec();
    content.extend_from_slice(&u32::MAX.to_le_bytes());
    let stream_loop = chunks_of(&chunk(false, 3, &content)).unwrap().stream_loop.unwrap();
    assert_eq!(stream_loop.start(), 100);
    assert_eq!(stream_loop.end(), u32::MAX);
    assert_eq!(stream_loop.len(), u32::MAX - 100);
    assert_eq!(Loop::parse(0, 100, u32::MAX), Ok(stream_loop));
    assert_eq!(Loop::parse(0, 0, 1).map(|l| (l.start(), l.len(), l.end())), Ok((0, 1, 1)));
}

#[test]
fn an_empty_or_reversed_loop_is_rejected() {
    assert_eq!(Loop::parse(4, 7, 7), Err(ChunkError::new(4, ChunkErrorKind::ZeroLengthLoop)));
    assert_eq!(Loop::parse(4, 7, 6), Err(ChunkError::new(4, ChunkErrorKind::ZeroLengthLoop)));
    let mut content = 9u32.to_le_bytes().to_vec();
    content.extend_from_slice(&9u32.to_le_bytes());
    assert_eq!(
        chunks_of(&chunk(false, 3, &content)),
        Err(ChunkError::new(0, ChunkErrorKind::ZeroLengthLoop))
    );
}

fn dsp_record(coefficients: [i16; 16]) -> Vec<u8> {
    let mut bytes = Vec::new();
    for coefficient in coefficients {
        bytes.extend_from_slice(&coefficient.to_be_bytes());
    }
    bytes.extend_from_slice(&[0x77; 14]);
    bytes
}

#[test]
fn dsp_coefficients_are_summed_per_channel() {
    let mut content = dsp_record([1, 2, 3, 4, 5, 6, 7, 8, 9, 10, 11, 12, 13, 14, 15, -16]);
    content.extend(dsp_record([-1000; 16]));
    let stream = chunks_of(&chunk(false, 7, &content)).unwrap();
    assert_eq!(stream.dsp_coeffs, Some(vec![104, -16000]));
}

#[test]
fn a_sum_of_dsp_coefficients_wraps_around() {
    let mut bytes = chunk(true, 1, &[1]);
    let mut coefficients = [0i16; 16];
    coefficients[0] = i16::MAX;
    coefficients[1] = 1;
    coefficients[15] = -3;
    bytes.extend(chunk(false, 7, &dsp_record(coefficients)));
    let stream = chunks_of(&bytes).unwrap();
    assert_eq!(stream.dsp_coeffs, Some(vec![32765]));
}

#[test]
fn dsp_coefficients_that_end_early_are_reported_where_the_data_ends() {
    let content = dsp_record([1; 16]);
    let mut bytes = chunk_word(false, 92, 7).to_vec();
    bytes.extend_from_slice(&content);
    bytes.extend_from_slice(&content[..7]);
    let mut stream = plain_header();
    assert_eq!(
        parse_stream_chunks(&mut Reader::new(&bytes), &mut stream),
        Err(ChunkError::new_with_source(0, ChunkErrorKind::DspCoefficients, short(57, 1)))
    );

    let mut bytes = chunk_word(false, 92, 7).to_vec();
    bytes.extend_from_slice(&content);
    bytes.extend_from_slice(&content[..40]);
    assert_eq!(
        parse_stream_chunks(&mut Reader::new(&bytes), &mut stream),
        Err(ChunkError::new_with_source(0, ChunkErrorKind::DspCoefficients, short(90, 6)))
    );
}

#[test]
fn vorbis_layers_multiply_the_channels() {
    let stream = chunks_of(&chunk(false, 14, &3u32.to_le_bytes())).unwrap();
    assert_eq!(stream.channels, 6);
    let stream = chunks_of(&chunk(false, 14, &200u32.to_le_bytes())).unwrap();
    assert_eq!(stream.channels, 400);
    let stream = chunks_of(&chunk(false, 14, &128u32.to_le_bytes())).unwrap();
    assert_eq!(stream.channels, 256);
    let stream = chunks_of(&chunk(false, 14, &255u32.to_le_bytes())).unwrap();
    assert_eq!(stream.channels, 510);
    let mut bytes = chunk(true, 1, &[255]);
    bytes.extend(chunk(false, 14, &255u32.to_le_bytes()));
    assert_eq!(chunks_of(&bytes).unwrap().channels, 65025);
    assert_eq!(
        chunks_of(&chunk(false, 14, &256u32.to_le_bytes())),
        Err(ChunkError::new(0, ChunkErrorKind::TooManyVorbisLayers { layers: 256 }))
    );
    assert_eq!(
        chunks_of(&chunk(false, 14, &0u32.to_le_bytes())),
        Err(ChunkError::new(0, ChunkErrorKind::ZeroVorbisLayers))
    );
}

#[test]
fn channels_beyond_count_are_refused() {
    let mut bytes = chunk(true, 14, &255u32.to_le_bytes());
    bytes.extend(chunk(true, 14, &128u32.to_le_bytes()));
    bytes.extend(chunk(false, 14, &2u32.to_le_bytes()));
    let mut stream = plain_header();
    let mut reader = Reader::new(&bytes);
    assert_eq!(
        parse_stream_chunks(&mut reader, &mut stream),
        Err(ChunkError::new(2, ChunkErrorKind::TooManyChannels { channels: 130560 }))
    );
    assert_eq!(reader.position(), 24);
    assert_eq!(stream, plain_header());

    let mut bytes = chunk(true, 14, &255u32.to_le_bytes());
    bytes.extend(chunk(false, 14, &128u32.to_le_bytes()));
    assert_eq!(chunks_of(&bytes).unwrap().channels, 65280);
}

#[test]
fn a_chunk_smaller_than_its_content_has_the_wrong_size() {
    let mut bytes = chunk_word(false, 4, 3).to_vec();
    bytes.extend_from_slice(&1u32.to_le_bytes());
    bytes.extend_from_slice(&2u32.to_le_bytes());
    let mut stream = plain_header();
    assert_eq!(
        parse_stream_chunks(&mut Reader::new(&bytes), &mut stream),
        Err(ChunkError::new(0, ChunkErrorKind::WrongChunkSize { expected: 4, actual: 8 }))
    );

    let mut bytes = chunk(true, 4, b"");
    bytes.extend_from_slice(&chunk_word(true, 0, 1));
    bytes.extend_from_slice(&[2, 2, 2, 2, 2]);
    assert_eq!(
        parse_stream_chunks(&mut Reader::new(&bytes), &mut stream),
        Err(ChunkError::new(1, ChunkErrorKind::WrongChunkSize { expected: 0, actual: 1 }))
    );
}

#[test]
fn a_chunk_that_the_data_ends_in_has_the_wrong_size() {
    let mut bytes = chunk_word(false, 10, 1).to_vec();
    bytes.extend_from_slice(&[2, 0, 0]);
    let mut stream = plain_header();
    assert_eq!(
        parse_stream_chunks(&mut Reader::new(&bytes), &mut stream),
        Err(ChunkError::new_with_source(
            0,
            ChunkErrorKind::WrongChunkSize { expected: 10, actual: 3 },
            short(7, 7)
        ))
    );
}

#[test]
fn every_chunk_read_reports_its_failure() {
    let cases = [
        (1, 0, ChunkErrorKind::ChannelCount, 1),
        (2, 3, ChunkErrorKind::SampleRate, 1),
        (3, 2, ChunkErrorKind::LoopStart, 2),
        (3, 5, ChunkErrorKind::LoopEnd, 3),
        (11, 0, ChunkErrorKind::VorbisCrc32, 4),
        (14, 1, ChunkErrorKind::VorbisLayerCount, 3),
    ];
    for (kind, there, expected, needed) in cases {
        let mut bytes = chunk_word(false, 16, kind).to_vec();
        bytes.extend_from_slice(&[1; 8][..there]);
        let mut stream = plain_header();
        assert_eq!(
            parse_stream_chunks(&mut Reader::new(&bytes), &mut stream),
            Err(ChunkError::new_with_source(0, expected, short(4 + there, needed)))
        );
    }
    let mut stream = plain_header();
    assert_eq!(
        parse_stream_chunks(&mut Reader::new(&[1, 2]), &mut stream),
        Err(ChunkError::new_with_source(0, ChunkErrorKind::Flag, short(2, 2)))
    );
    assert_eq!(
        chunks_of(&chunk(false, 2, &[0; 4])),
        Err(ChunkError::new(0, ChunkErrorKind::ZeroSampleRate))
    );
}

fn unnamed(count: usize) -> Vec<StreamInfo> {
    vec![
        StreamInfo {
            sample_rate: 1,
            channels: 1,
            num_samples: 1,
            stream_loop: None,
            dsp_coeffs: None,
            vorbis_crc32: None,
            size: 1,
            name: None,
        };
        count
    ]
}

#[test]
fn names_reach_from_offset_to_offset() {
    let mut streams = unnamed(3);
    let mut reader = Reader::new(b"one\0two\0\0\0three\0tail");
    assert_eq!(read_stream_names(&mut reader, &[12, 16, 22, 28], &mut streams), Ok(()));
    assert_eq!(reader.position(), 16);
    let names: Vec<_> = streams.iter().map(|info| info.name.as_deref()).collect();
    assert_eq!(names, [Some("one"), Some("two"), Some("three")]);
}

#[test]
fn a_name_without_an_end_is_rejected() {
    let mut streams = unnamed(2);
    let mut reader = Reader::new(b"one\0twothree\0");
    assert_eq!(
        read_stream_names(&mut reader, &[0, 4, 7], &mut streams),
        Err(NameError::from_cstr(1))
    );
    assert_eq!(NameError::from_cstr(1).kind(), NameErrorKind::Name);
    assert_eq!(NameError::from_cstr(1).source, NameErrorSource::CStr);
    assert_eq!(NameError::from_cstr(1).read_error(), None);
}

#[test]
fn a_name_of_no_length_is_rejected() {
    let mut streams = unnamed(2);
    let mut reader = Reader::new(b"one\0two\0");
    assert_eq!(
        read_stream_names(&mut reader, &[0, 4, 4], &mut streams),
        Err(NameError::from_cstr(1))
    );
    let mut reader = Reader::new(b"one\0two\0");
    assert_eq!(
        read_stream_names(&mut reader, &[4, 0, 4], &mut streams),
        Err(NameError::from_cstr(0))
    );
}

#[test]
fn a_name_that_is_not_utf8_is_rejected() {
    let mut streams = unnamed(1);
    let mut reader = Reader::new(b"a\xFFb\0");
    assert_eq!(
        read_stream_names(&mut reader, &[0, 4], &mut streams),
        Err(NameError::from_utf8(0))
    );
    assert_eq!(NameError::from_utf8(0).kind(), NameErrorKind::Utf8);

    // what lies behind the end of the name is not looked at
    let mut reader = Reader::new(b"ab\0\xFF");
    assert_eq!(read_stream_names(&mut reader, &[0, 4], &mut streams), Ok(()));
    assert_eq!(streams[0].name.as_deref(), Some("ab"));

    let mut reader = Reader::new(b"\xC3\0\xA9\0");
    assert_eq!(
        read_stream_names(&mut reader, &[0, 4], &mut streams),
        Err(NameError::from_utf8(0))
    );
}

#[test]
fn the_name_table_reports_its_failed_reads() {
    let headers = stream_word(false, 0, 0, 0, 1);
    let data = bank(1, 1, 10, 64, 1, &headers, &[4, 0]);
    let e = Header::parse(&mut Reader::new(&data)).unwrap_err();
    assert_eq!(
        e,
        HeaderError::from(NameError::from_read(0, NameErrorKind::NameOffset, short(70, 2)))
    );
    assert_eq!(e.kind(), HeaderErrorKind::NameTable);
    assert_eq!(e.read_error(), Some(short(70, 2)));

    let data = bank(1, 1, 10, 64, 1, &headers, &[4, 0, 0, 0, b'a', b'b']);
    assert_eq!(
        Header::parse(&mut Reader::new(&data)),
        Err(HeaderError::from(NameError::from_read(0, NameErrorKind::Name, short(74, 4))))
    );
}

#[test]
fn every_field_of_the_base_header_reports_its_failure() {
    let full = base(1, 1, 8, 0, 64, 1);
    let cases = [
        (0, HeaderErrorKind::Magic, 4),
        (3, HeaderErrorKind::Magic, 1),
        (4, HeaderErrorKind::Version, 4),
        (9, HeaderErrorKind::StreamCount, 3),
        (12, HeaderErrorKind::StreamHeadersSize, 4),
        (17, HeaderErrorKind::NameTableSize, 3),
        (22, HeaderErrorKind::TotalStreamSize, 2),
        (27, HeaderErrorKind::AudioFormat, 1),
        (30, HeaderErrorKind::EncodingFlags, 2),
        (33, HeaderErrorKind::EncodingFlags, 3),
        (36, HeaderErrorKind::Metadata, 24),
        (59, HeaderErrorKind::Metadata, 1),
    ];
    for (there, kind, needed) in cases {
        assert_eq!(
            Header::parse(&mut Reader::new(&full[..there])),
            Err(HeaderError::new_with_source(kind, short(there, needed)))
        );
    }
    let mut zero_streams = base(1, 0, 8, 0, 64, 1);
    assert_eq!(
        Header::parse(&mut Reader::new(&zero_streams)),
        Err(HeaderError::new(HeaderErrorKind::ZeroStreams))
    );
    zero_streams[8] = 1;
    zero_streams[20] = 0;
    assert_eq!(
        Header::parse(&mut Reader::new(&zero_streams)),
        Err(HeaderError::new(HeaderErrorKind::ZeroTotalStreamSize))
    );
}

#[test]
fn parsing_goes_on_from_where_the_reader_stands() {
    let mut data = b"junk!".to_vec();
    data.extend(two_streams());
    let mut reader = Reader::new(&data);
    reader.skip(5).unwrap();
    let header = Header::parse(&mut reader).unwrap();
    assert_eq!(reader.position(), 5 + 125);
    assert_eq!(Ok(header), Header::parse(&mut Reader::new(&two_streams())));
}

#[test]
fn a_failed_read_becomes_the_error_of_what_was_read() {
    let read = short(9, 3);
    assert_eq!(
        Err::<u8, _>(read).map_err(HeaderError::factory(HeaderErrorKind::Version)),
        Err(HeaderError::new_with_source(HeaderErrorKind::Version, read))
    );
    assert_eq!(
        Err::<u8, _>(read).map_err(StreamError::factory(4, StreamErrorKind::StreamInfo)),
        Err(StreamError::new_with_source(4, StreamErrorKind::StreamInfo, read))
    );
    assert_eq!(
        Err::<u8, _>(read).map_err(ChunkError::factory(2, ChunkErrorKind::LoopEnd)),
        Err(ChunkError::new_with_source(2, ChunkErrorKind::LoopEnd, read))
    );
    assert_eq!(
        Err::<u8, _>(read).map_err(NameError::read_factory(1, NameErrorKind::Name)),
        Err(NameError::from_read(1, NameErrorKind::Name, read))
    );
    assert_eq!(
        StreamError::new_with_source(4, StreamErrorKind::StreamInfo, read).read_error(),
        Some(read)
    );
}

#[test]
fn a_wrong_signature_is_refused_before_anything_else_is_read() {
    let mut reader = Reader::new(b"abcd".as_slice());
    assert_eq!(
        Header::parse(&mut reader),
        Err(HeaderError::new(HeaderErrorKind::Magic))
    );
    assert_eq!(reader.position(), 4);

    let mut data = two_streams();
    data[3] = b'4';
    let mut reader = Reader::new(&data);
    assert_eq!(
        Header::parse(&mut reader),
        Err(HeaderError::new(HeaderErrorKind::Magic))
    );
    assert_eq!(reader.position(), 4);

    let mut reader = Reader::new(b"FS".as_slice());
    assert!(Header::parse(&mut reader).is_err());
    assert_eq!(reader.position(), 2);
}

#[test]
fn two_readers_are_left_at_the_same_place() {
    let data = two_streams();
    for len in [0, 3, 4, 9, 30, 59, 60, 64, 70, 80, 100, 105, 110, 120, data.len()] {
        let (mut first, mut second) = (Reader::new(&data[..len]), Reader::new(&data[..len]));
        assert_eq!(Header::parse(&mut first), Header::parse(&mut second));
        assert_eq!(first.position(), second.position());
        assert_eq!(first.position(), len.min(125));
    }
}

#[test]
fn an_error_leaves_the_reader_where_it_showed() {
    let base_of = |version, streams, total, format| base(version, streams, 8, 0, total, format);
    let left_at = |data: &[u8]| {
        let mut reader = Reader::new(data);
        (Header::parse(&mut reader).unwrap_err().kind(), reader.position())
    };
    let mut unknown_version = base_of(1, 1, 64, 1);
    unknown_version[4] = 9;
    assert_eq!(left_at(&unknown_version), (HeaderErrorKind::UnknownVersion { version: 9 }, 8));
    assert_eq!(left_at(&base_of(1, 0, 64, 1)), (HeaderErrorKind::ZeroStreams, 12));
    assert_eq!(left_at(&base_of(1, 1, 0, 1)), (HeaderErrorKind::ZeroTotalStreamSize, 24));
    assert_eq!(
        left_at(&base_of(1, 1, 64, 99)),
        (HeaderErrorKind::UnknownAudioFormat { flag: 99 }, 28)
    );

    let mut zero_samples = base_of(1, 1, 64, 1);
    zero_samples.extend_from_slice(&stream_word(false, 0, 0, 0, 0));
    zero_samples.extend_from_slice(b"rest");
    assert_eq!(left_at(&zero_samples), (HeaderErrorKind::StreamHeader, 68));

    let mut no_size = base_of(1, 1, 64, 1);
    no_size.extend_from_slice(&stream_word(false, 0, 0, 64, 1));
    no_size.extend_from_slice(b"rest");
    assert_eq!(left_at(&no_size), (HeaderErrorKind::ZeroStreamSize { index: 0 }, 68));

    let mut long = base(1, 1, 4, 0, 64, 1);
    long.extend_from_slice(&stream_word(false, 0, 0, 0, 1));
    long.extend_from_slice(b"rest");
    assert_eq!(
        left_at(&long),
        (HeaderErrorKind::WrongHeaderSize { expected: 64, actual: 68 }, 68)
    );
}

#[test]
fn a_chunk_of_the_wrong_size_does_not_move_the_reader_back() {
    let mut bytes = chunk_word(true, 4, 3).to_vec();
    bytes.extend_from_slice(&1u32.to_le_bytes());
    bytes.extend_from_slice(&2u32.to_le_bytes());
    bytes.extend(chunk(false, 1, &[9]));
    let mut stream = plain_header();
    let mut reader = Reader::new(&bytes);
    assert_eq!(
        parse_stream_chunks(&mut reader, &mut stream),
        Err(ChunkError::new(0, ChunkErrorKind::WrongChunkSize { expected: 4, actual: 8 }))
    );
    assert_eq!(reader.position(), 12);
    assert_eq!(stream, plain_header());
}

#[test]
fn a_chunk_list_that_fails_leaves_the_stream_as_it_was() {
    let mut bytes = chunk(true, 1, &[5]);
    bytes.extend(chunk(true, 11, &7u32.to_le_bytes()));
    bytes.extend(chunk(false, 2, &0u32.to_le_bytes()));
    bytes.extend_from_slice(b"rest");
    let mut stream = plain_header();
    let mut reader = Reader::new(&bytes);
    assert_eq!(
        parse_stream_chunks(&mut reader, &mut stream),
        Err(ChunkError::new(2, ChunkErrorKind::ZeroSampleRate))
    );
    assert_eq!(reader.position(), 21);
    assert_eq!(stream, plain_header());
}

#[test]
fn names_before_a_failed_one_are_kept_and_no_other_is_set() {
    let mut data = b"hello world\0".to_vec();
    data.extend_from_slice(&[0x61; 27]);
    data.push(0);
    let mut streams = unnamed(3);
    let mut reader = Reader::new(&data);
    assert_eq!(
        read_stream_names(&mut reader, &[0, 12, 12, 40], &mut streams),
        Err(NameError::from_cstr(1))
    );
    assert_eq!(reader.position(), 12);
    let names: Vec<_> = streams.iter().map(|info| info.name.as_deref()).collect();
    assert_eq!(names, [Some("hello world"), None, None]);

    let mut streams = unnamed(3);
    let mut reader = Reader::new(b"one\0t\xFFo\0three\0");
    assert_eq!(
        read_stream_names(&mut reader, &[0, 4, 8, 14], &mut streams),
        Err(NameError::from_utf8(1))
    );
    assert_eq!(reader.position(), 8);
    let names: Vec<_> = streams.iter().map(|info| info.name.as_deref()).collect();
    assert_eq!(names, [Some("one"), None, None]);

    let mut streams = unnamed(2);
    let mut reader = Reader::new(b"one\0tw");
    assert!(read_stream_names(&mut reader, &[0, 4, 8], &mut streams).is_err());
    assert_eq!(reader.position(), 6);
    let names: Vec<_> = streams.iter().map(|info| info.name.as_deref()).collect();
    assert_eq!(names, [Some("one"), None]);
}
