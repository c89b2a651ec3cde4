use fsbex::bank::Bank;
use fsbex::bank::DecodeError;
use fsbex::bank::LazyStreamError;
use fsbex::bank::LazyStreamErrorSource;
use fsbex::encode::error::EncodeError;
use fsbex::encode::Encoded;
use fsbex::header::error::HeaderError;
use fsbex::header::error::HeaderErrorKind;
use fsbex::header::AudioFormat;
use fsbex::header::StreamInfo;
use fsbex::read::Needed;
use fsbex::read::ReadError;
use fsbex::read::ReadErrorKind;
use fsbex::read::Reader;
use fsbex::stream::LazyStream;
use fsbex::stream::Stream;
use fsbex::stream::StreamIntoIter;
use std::cell::RefCell;

fn stream_word(has_chunks: bool, rate: u64, channels: u64, offset: u64, samples: u64) -> [u8; 8] {
    (u64::from(has_chunks) | rate << 1 | channels << 5 | (offset / 32) << 7 | samples << 34)
        .to_le_bytes()
}

fn chunk_word(more_chunks: bool, size: u32, kind: u32) -> [u8; 4] {
    (u32::from(more_chunks) | size << 1 | kind << 25).to_le_bytes()
}

fn bank_bytes(format: u32, flags: u32, data: &[u8]) -> Vec<u8> {
    let mut bytes = b"FSB5".to_vec();
    for field in [1u32, 3, 36, 21, 70, format, 0, flags] {
        bytes.extend_from_slice(&field.to_le_bytes());
    }
    bytes.resize(60, 0);
    bytes.extend_from_slice(&stream_word(false, 8, 1, 0, 100));
    bytes.extend_from_slice(&stream_word(true, 9, 0, 32, 200));
    bytes.extend_from_slice(&chunk_word(false, 8, 3));
    bytes.extend_from_slice(&2u32.to_le_bytes());
    bytes.extend_from_slice(&9u32.to_le_bytes());
    bytes.extend_from_slice(&stream_word(false, 0, 3, 64, 300));
    for offset in [12u32, 14, 17] {
        bytes.extend_from_slice(&offset.to_le_bytes());
    }
    bytes.extend_from_slice(b"a\0bc\0def\0");
    assert_eq!(bytes.len(), 117);
    bytes.extend_from_slice(data);
    bytes
}

fn stream_data() -> Vec<u8> {
    (0..70).collect()
}

#[test]
fn a_bank_describes_its_streams() {
    let bytes = bank_bytes(2, 1, &stream_data());
    let bank = Bank::new(&bytes).unwrap();
    assert_eq!(bank.format(), AudioFormat::Pcm16);
    assert_eq!(bank.num_streams(), 3);
}

#[test]
fn a_bank_that_does_not_parse_says_why() {
    let bytes = bank_bytes(2, 1, &stream_data());
    match Bank::new(&bytes[..2]) {
        Err(e) => assert_eq!(
            e,
            DecodeError::from(HeaderError::new_with_source(
                HeaderErrorKind::Magic,
                ReadError { position: 2, kind: ReadErrorKind::Incomplete(Needed::Size(2)) }
            ))
        ),
        Ok(_) => panic!("a bank of two bytes"),
    }
    assert!(Bank::new(b"RIFF").is_err_and(|e| e.inner.kind() == HeaderErrorKind::Magic));
}

#[test]
fn streams_are_handed_out_in_order() {
    let bytes = bank_bytes(2, 1, &stream_data());
    let bank = Bank::new(&bytes).unwrap();
    let seen = RefCell::new(Vec::new());
    let result: Result<(), LazyStreamError<()>> = bank.read_streams(|stream: LazyStream| {
        seen.borrow_mut().push((
            stream.index(),
            stream.format(),
            stream.sample_rate(),
            stream.channels(),
            stream.sample_count(),
            stream.loop_info().map(|l| (l.start(), l.len())),
            stream.size(),
            stream.name().map(str::to_owned),
        ));
        Ok(())
    });
    assert!(result.is_ok());
    assert_eq!(
        seen.into_inner(),
        [
            (0, AudioFormat::Pcm16, 44100, 2, 100, None, 32, Some("a".to_owned())),
            (1, AudioFormat::Pcm16, 48000, 1, 200, Some((2, 7)), 32, Some("bc".to_owned())),
            (2, AudioFormat::Pcm16, 4000, 8, 300, None, 6, Some("def".to_owned())),
        ]
    );
}

#[test]
fn each_stream_is_encoded_from_its_own_data() {
    let bytes = bank_bytes(2, 1, &stream_data());
    let bank = Bank::new(&bytes).unwrap();
    let files = RefCell::new(Vec::new());
    let result = bank.read_streams(|stream: LazyStream| {
        match stream.write()? {
            Encoded::Wave(file) => files.borrow_mut().push(file[44..].to_vec()),
            Encoded::Vorbis(_) => panic!("a PCM stream"),
        }
        Ok::<(), EncodeError>(())
    });
    assert!(result.is_ok());
    let files = files.into_inner();
    assert_eq!(files.len(), 3);
    assert_eq!(files[0][..4], [1, 0, 3, 2]);
    assert_eq!(files[0].len(), 32);
    assert_eq!(files[1][..4], [33, 32, 35, 34]);
    assert_eq!(files[1].len(), 32);
    assert_eq!(files[2], [65, 64, 67, 66, 69, 68]);
}

#[test]
fn the_error_of_the_function_ends_the_reading() {
    let bytes = bank_bytes(2, 1, &stream_data());
    let bank = Bank::new(&bytes).unwrap();
    let calls = RefCell::new(0);
    let result = bank.read_streams(|stream: LazyStream| {
        *calls.borrow_mut() += 1;
        if stream.index() == 1 {
            Err("no")
        } else {
            Ok(())
        }
    });
    let e = result.unwrap_err();
    assert_eq!(e.index, 1);
    assert!(matches!(e.source, LazyStreamErrorSource::Other("no")));
    assert_eq!(calls.into_inner(), 2);
}

#[test]
fn a_stream_whose_data_is_short_is_reported() {
    let bytes = bank_bytes(2, 1, &stream_data()[..40]);
    let bank = Bank::new(&bytes).unwrap();
    let calls = RefCell::new(0);
    let result: Result<(), LazyStreamError<()>> = bank.read_streams(|_stream: LazyStream| {
        *calls.borrow_mut() += 1;
        Ok(())
    });
    let e = result.unwrap_err();
    assert_eq!(e.index, 1);
    assert!(matches!(
        e.source,
        LazyStreamErrorSource::Read(ReadError {
            position: 157,
            kind: ReadErrorKind::Incomplete(Needed::Size(24))
        })
    ));
    assert_eq!(calls.into_inner(), 2);
    let e: LazyStreamError<u8> = LazyStreamError::from_other(4, 7);
    assert!(matches!(e.source, LazyStreamErrorSource::Other(7)));
    let e: LazyStreamError<u8> =
        LazyStreamError::from_read(4, ReadError { position: 1, kind: ReadErrorKind::Failure });
    assert_eq!(e.index, 4);
}

#[test]
fn streams_are_read_into_memory() {
    let bytes = bank_bytes(1, 0, &stream_data());
    let mut streams = Bank::new(&bytes).unwrap().into_iter();
    assert_eq!(streams.len(), 3);

    let first = streams.next().unwrap();
    assert_eq!(first.format(), AudioFormat::Pcm8);
    assert_eq!(first.sample_rate(), 44100);
    assert_eq!(first.channels(), 2);
    assert_eq!(first.sample_count(), 100);
    assert_eq!(first.loop_info(), None);
    assert_eq!(first.size(), 32);
    assert_eq!(first.name(), Some("a"));
    assert_eq!(first.data(), &stream_data()[..32]);

    let second = streams.next().unwrap();
    assert_eq!(second.name(), Some("bc"));
    assert_eq!(second.loop_info().map(|l| l.end()), Some(9));
    assert_eq!(second.data(), &stream_data()[32..64]);

    let third = streams.next().unwrap();
    assert_eq!(third.data(), &stream_data()[64..]);
    match third.write() {
        Ok(Encoded::Wave(file)) => assert_eq!(&file[44..], &stream_data()[64..]),
        other => panic!("{other:?}"),
    }
    assert!(streams.next().is_none());
    assert!(streams.next().is_none());
    assert_eq!(streams.len(), 3);
}

#[test]
fn a_stream_whose_data_is_short_is_passed_over() {
    let bytes = bank_bytes(1, 0, &stream_data()[..66]);
    let mut streams = Bank::new(&bytes).unwrap().into_iter();
    assert!(streams.next().is_some());
    assert!(streams.next().is_some());
    assert!(streams.next().is_none());
    assert!(streams.next().is_none());
}

#[test]
fn a_stream_keeps_what_it_is_made_of() {
    let info = StreamInfo {
        sample_rate: 8000,
        channels: 1,
        num_samples: 4,
        stream_loop: None,
        dsp_coeffs: Some(vec![1, -2]),
        vorbis_crc32: Some(5),
        size: 4,
        name: Some("n".to_owned()),
    };
    assert_eq!(info.duplicate(), info);
    let stream = Stream::new(AudioFormat::Pcm16, 1, info.clone(), b"abcd".to_vec());
    assert_eq!(stream.name(), Some("n"));
    match stream.write() {
        Ok(Encoded::Wave(file)) => assert_eq!(&file[44..], b"badc"),
        other => panic!("{other:?}"),
    }
    let vorbis = Stream::new(AudioFormat::Vorbis, 1, info.clone(), b"abcd".to_vec());
    assert!(matches!(vorbis.write(), Ok(Encoded::Vorbis(setup)) if setup.crc32 == 5));

    let mut streams = StreamIntoIter::new(AudioFormat::Pcm8, 0, vec![info], Reader::new(b"abcdef"));
    assert_eq!(streams.next().map(|s| s.data().to_vec()), Some(b"abcd".to_vec()));
    assert!(streams.next().is_none());
}
