//! PCM streams as WAVE files.

use crate::header::StreamInfo;
use crate::read::read_bytes;
use crate::read::read_end;
use crate::read::ReadError;
use crate::read::Reader;
use vstd::prelude::*;

verus! {

/// How the samples of a PCM stream are stored.
#[derive(Clone, Copy, Debug, PartialEq, Eq, Structural)]
pub enum Format {
    Integer,
    Float,
}

/// The byte order of the samples of a PCM stream.
#[derive(Clone, Copy, Debug, PartialEq, Eq, Structural)]
pub enum Endianness {
    Little,
    Big,
}

/// A variant of a [`PcmError`].
#[derive(Clone, Copy, Debug, PartialEq, Eq, Hash, Structural)]
#[non_exhaustive]
pub enum PcmErrorKind {
    /// Failed to write the file header due to an underlying I/O error.
    CreateHeader,
    /// Failed to encode the entire stream via copying from reader to writer.
    EncodeStream,
    /// Failed to decode an audio sample from the stream data.
    DecodeSample,
    /// Failed to encode an audio sample to the writer.
    EncodeSample,
    /// Failed to flush the writer after encoding the entire stream.
    FinishStream,
}

/// The cause of a [`PcmError`].
#[derive(Clone, Copy, Debug, PartialEq, Eq, Structural)]
pub enum PcmErrorSource {
    /// The writer failed.
    Io,
    /// The stream data could not be read.
    Read(ReadError),
}

/// Represents an error that can occur when encoding a PCM stream.
///
/// See [`PcmErrorKind`] for the different kinds of errors that can occur.
#[derive(Clone, Copy, Debug, PartialEq, Eq, Structural)]
pub struct PcmError {
    pub kind: PcmErrorKind,
    pub source: PcmErrorSource,
}

impl PcmError {
    /// An error that a failing writer has caused.
    pub fn from_io(kind: PcmErrorKind) -> (e: Self)
        ensures
            e == (PcmError { kind, source: PcmErrorSource::Io }),
    {
        PcmError { kind, source: PcmErrorSource::Io }
    }

    /// An error that a failed read has caused.
    pub fn from_read(kind: PcmErrorKind, source: ReadError) -> (e: Self)
        ensures
            e == (PcmError { kind, source: PcmErrorSource::Read(source) }),
    {
        PcmError { kind, source: PcmErrorSource::Read(source) }
    }

    /// Returns the [`PcmErrorKind`] associated with this error.
    #[must_use]
    pub fn kind(&self) -> (k: PcmErrorKind)
        ensures
            k == self.kind,
    {
        self.kind
    }
}

/// The two bytes of `x`, least significant byte first.
pub open spec fn le_bytes_u16(x: u16) -> Seq<u8> {
    seq![(x % 0x100) as u8, (x / 0x100) as u8]
}

/// The four bytes of `x`, least significant byte first.
pub open spec fn le_bytes_u32(x: u32) -> Seq<u8> {
    seq![
        (x % 0x100) as u8,
        (x / 0x100 % 0x100) as u8,
        (x / 0x1_0000 % 0x100) as u8,
        (x / 0x100_0000) as u8,
    ]
}

/// The bytes of a number, read as a number again, give the number back.
pub proof fn lemma_le_bytes_round_trip(x: u32, y: u16)
    ensures
        crate::read::le_u32_of(le_bytes_u32(x)) == x,
        crate::read::le_u16_of(le_bytes_u16(y)) == y,
{
    let b = le_bytes_u32(x);
    assert(b[0] == x % 0x100 && b[1] == x / 0x100 % 0x100 && b[2] == x / 0x1_0000 % 0x100 && b[3]
        == x / 0x100_0000);
    let c = le_bytes_u16(y);
    assert(c[0] == y % 0x100 && c[1] == y / 0x100);
}

/// Appends the bytes of `x` to `out`, least significant byte first.
pub fn push_le_u16(out: &mut Vec<u8>, x: u16)
    ensures
        final(out)@ == old(out)@ + le_bytes_u16(x),
{
    out.push((x % 0x100) as u8);
    out.push((x / 0x100) as u8);
    assert(out@ =~= old(out)@ + le_bytes_u16(x));
}

/// Appends the bytes of `x` to `out`, least significant byte first.
pub fn push_le_u32(out: &mut Vec<u8>, x: u32)
    ensures
        final(out)@ == old(out)@ + le_bytes_u32(x),
{
    out.push((x % 0x100) as u8);
    out.push((x / 0x100 % 0x100) as u8);
    out.push((x / 0x1_0000 % 0x100) as u8);
    out.push((x / 0x100_0000) as u8);
    assert(out@ =~= old(out)@ + le_bytes_u32(x));
}

/// Appends four bytes to `out`.
fn push_tag(out: &mut Vec<u8>, a: u8, b: u8, c: u8, d: u8)
    ensures
        final(out)@ == old(out)@ + seq![a, b, c, d],
{
    out.push(a);
    out.push(b);
    out.push(c);
    out.push(d);
    assert(out@ =~= old(out)@ + seq![a, b, c, d]);
}

/// The number that stands for `format` in a WAVE header.
pub open spec fn format_id(format: Format) -> u16 {
    match format {
        Format::Integer => 1,
        Format::Float => 3,
    }
}

/// The header of a WAVE file: 44 bytes. The two sizes that it holds are
/// `file_size` less 8 and less 40, and the number of bytes per second is the
/// product of sample rate, channels and byte depth; each of the three wraps
/// around where it leaves the range of `u32`. So do the bytes per sample of
/// all channels and the bits per sample in the range of `u16`.
pub open spec fn wave_header(
    file_size: u32,
    channels: u16,
    sample_rate: u32,
    format: Format,
    byte_depth: u16,
) -> Seq<u8> {
    seq![0x52u8, 0x49u8, 0x46u8, 0x46u8] + le_bytes_u32(file_size.wrapping_sub(8))
        + seq![0x57u8, 0x41u8, 0x56u8, 0x45u8] + seq![0x66u8, 0x6du8, 0x74u8, 0x20u8]
        + le_bytes_u32(16) + le_bytes_u16(format_id(format)) + le_bytes_u16(channels)
        + le_bytes_u32(sample_rate) + le_bytes_u32(
        sample_rate.wrapping_mul(channels as u32).wrapping_mul(byte_depth as u32),
    ) + le_bytes_u16(channels.wrapping_mul(byte_depth)) + le_bytes_u16(byte_depth.wrapping_mul(8))
        + seq![0x64u8, 0x61u8, 0x74u8, 0x61u8] + le_bytes_u32(file_size.wrapping_sub(40))
}

/// Lays out the header of a WAVE file.
pub fn write_header(
    file_size: u32,
    channels: u16,
    sample_rate: u32,
    format: Format,
    byte_depth: u16,
) -> (header: Vec<u8>)
    ensures
        header@ == wave_header(file_size, channels, sample_rate, format, byte_depth),
        header@.len() == 44,
{
    // WAVE file header information taken from:
    // [1]: https://www-mmsp.ece.mcgill.ca/Documents/AudioFormats/WAVE/WAVE.html
    // [2]: http://soundfile.sapp.org/doc/WaveFormat/
    let format_id: u16 = match format {
        Format::Integer => 1,
        Format::Float => 3,
    };
    let bytes_per_second = sample_rate.wrapping_mul(channels as u32).wrapping_mul(
        byte_depth as u32,
    );
    let mut header: Vec<u8> = Vec::new();
    push_tag(&mut header, 0x52, 0x49, 0x46, 0x46);
    push_le_u32(&mut header, file_size.wrapping_sub(8));
    push_tag(&mut header, 0x57, 0x41, 0x56, 0x45);
    push_tag(&mut header, 0x66, 0x6d, 0x74, 0x20);
    push_le_u32(&mut header, 16);
    push_le_u16(&mut header, format_id);
    push_le_u16(&mut header, channels);
    push_le_u32(&mut header, sample_rate);
    push_le_u32(&mut header, bytes_per_second);
    push_le_u16(&mut header, channels.wrapping_mul(byte_depth));
    push_le_u16(&mut header, byte_depth.wrapping_mul(8));
    push_tag(&mut header, 0x64, 0x61, 0x74, 0x61);
    push_le_u32(&mut header, file_size.wrapping_sub(40));
    header
}

/// The samples of `depth` bytes each that begin at `done` bytes behind
/// `start` and reach to `size` bytes behind it or, where `depth` does not
/// divide the distance, beyond: each sample with its bytes in reverse
/// order, and the position behind the last one. A sample that the data
/// ends in is a failed read.
pub open spec fn swapped_samples(bytes: Seq<u8>, start: int, depth: int, size: int, done: int)
    -> Result<(Seq<u8>, int), ReadError>
    decreases size - done + depth,
{
    if done >= size || depth <= 0 {
        Ok((Seq::empty(), start + done))
    } else {
        match read_bytes(bytes, start + done, depth) {
            Err(e) => Err(e),
            Ok(sample) => match swapped_samples(bytes, start, depth, size, done + depth) {
                Err(e) => Err(e),
                Ok((rest, end)) => Ok((sample.reverse() + rest, end)),
            },
        }
    }
}

/// `data` in front of what a reading of samples has yielded.
pub open spec fn behind(data: Seq<u8>, samples: Result<(Seq<u8>, int), ReadError>) -> Result<
    (Seq<u8>, int),
    ReadError,
> {
    match samples {
        Ok((rest, end)) => Ok((data + rest, end)),
        Err(e) => Err(e),
    }
}

/// The WAVE file of a PCM stream whose data begins at `pos`, and the
/// position behind what is read for it.
///
/// Little-endian and float samples are copied as they are: the stream data
/// or, where the data ends before that, what is left of it. Big-endian
/// integer samples are read one by one and reversed.
pub open spec fn wave_file(
    bytes: Seq<u8>,
    pos: int,
    format: Format,
    order: Endianness,
    info: crate::header::model::StreamInfoView,
    byte_depth: u16,
) -> Result<(Seq<u8>, int), PcmError> {
    let header = wave_header(
        info.size,
        info.channels,
        info.sample_rate,
        format,
        byte_depth,
    );
    if format == Format::Float || order == Endianness::Little {
        let end = read_end(bytes, pos, info.size as int);
        Ok((header + bytes.subrange(pos, end), end))
    } else {
        match swapped_samples(bytes, pos, byte_depth as int, info.size as int, 0) {
            Err(e) => Err(
                PcmError { kind: PcmErrorKind::DecodeSample, source: PcmErrorSource::Read(e) },
            ),
            Ok((samples, end)) => Ok((header + samples, end)),
        }
    }
}

/// Encodes a PCM stream as a WAVE file: the header, then the samples in
/// little-endian order. The source must stand at the start of the stream
/// data, and is left behind what was read of it: at the end of its data,
/// where a sample could not be read.
pub fn encode<const BYTE_DEPTH: usize>(
    format: Format,
    order: Endianness,
    info: &StreamInfo,
    source: &mut Reader,
) -> (r: Result<Vec<u8>, PcmError>)
    requires
        0 < BYTE_DEPTH <= u16::MAX,
    ensures
        final(source).bytes() == old(source).bytes(),
        crate::read::parsed(r, final(source).pos()) == wave_file(
            old(source).bytes(),
            old(source).pos() as int,
            format,
            order,
            info@,
            BYTE_DEPTH as u16,
        ),
        final(source).pos() >= old(source).pos(),
        r is Err ==> final(source).pos() == old(source).bytes().len(),
{
    proof {
        use_type_invariant(&*source);
    }
    let ghost bytes = source.bytes();
    // write the WAVE file header
    let mut out = write_header(
        info.size,
        info.channels,
        info.sample_rate,
        format,
        BYTE_DEPTH as u16,
    );
    let ghost header = out@;
    let start_pos = source.position();
    let stream_size = info.size as usize;
    // Stream samples are encoded as little-endian.
    // However, samples can be stored as big-endian; when this happens, the samples have to be converted.
    // Otherwise, the stream data can be directly copied from reader to writer.
    if format == Format::Float || order == Endianness::Little {
        // There could be more data after the stream, so a limit is placed on the number of bytes read.
        let mut capped = source.limit(stream_size);
        let data = capped.fill_buf();
        let mut i: usize = 0;
        while i < data.len()
            invariant
                i <= data@.len(),
                out@ == header + data@.subrange(0, i as int),
            decreases data@.len() - i,
        {
            out.push(data[i]);
            i += 1;
            assert(data@.subrange(0, i as int) =~= data@.subrange(0, i - 1).push(data@[i - 1]));
        }
        assert(data@.subrange(0, data@.len() as int) =~= data@);
        capped.consume(data.len());
        *source = capped.into_inner();
        return Ok(out);
    }
    let mut done: usize = 0;
    let ghost mut samples: Seq<u8> = Seq::empty();
    assert(out@ =~= header + samples);
    while done < stream_size
        invariant
            0 < BYTE_DEPTH <= u16::MAX,
            format != Format::Float && order != Endianness::Little,
            bytes == old(source).bytes(),
            start_pos == old(source).pos(),
            source.bytes() == bytes,
            source.pos() == start_pos + done,
            stream_size == info.size,
            out@ == header + samples,
            swapped_samples(bytes, start_pos as int, BYTE_DEPTH as int, stream_size as int, 0)
                == behind(
                samples,
                swapped_samples(
                    bytes,
                    start_pos as int,
                    BYTE_DEPTH as int,
                    stream_size as int,
                    done as int,
                ),
            ),
        decreases stream_size + BYTE_DEPTH - done,
    {
        proof {
            use_type_invariant(&*source);
        }
        let sample = match source.take_const::<BYTE_DEPTH>() {
            Ok(sample) => sample,
            Err(e) => {
                return Err(PcmError::from_read(PcmErrorKind::DecodeSample, e));
            },
        };
        push_reversed(&mut out, &sample);
        proof {
            lemma_sample_swapped(
                bytes,
                start_pos as int,
                BYTE_DEPTH as int,
                stream_size as int,
                done as int,
                samples,
            );
            samples = samples + sample@.reverse();
            assert(out@ =~= header + samples);
        }
        done += BYTE_DEPTH;
    }
    assert(header + (samples + Seq::<u8>::empty()) =~= header + samples);
    Ok(out)
}

/// Appends the bytes of `sample` to `out`, the last one first.
fn push_reversed<const LEN: usize>(out: &mut Vec<u8>, sample: &[u8; LEN])
    ensures
        final(out)@ == old(out)@ + sample@.reverse(),
{
    let mut i: usize = LEN;
    while i > 0
        invariant
            i <= LEN,
            sample@.len() == LEN,
            out@.len() == old(out)@.len() + (LEN - i),
            forall|j: int| 0 <= j < old(out)@.len() ==> out@[j] == old(out)@[j],
            forall|j: int|
                old(out)@.len() <= j < out@.len() ==> out@[j] == sample@[LEN - 1 - (j - old(
                    out,
                )@.len())],
        decreases i,
    {
        i -= 1;
        out.push(sample[i]);
    }
    assert(out@ =~= old(out)@ + sample@.reverse());
}

/// A sample that can be read stands, reversed, in front of the samples
/// that follow it.
proof fn lemma_sample_swapped(
    bytes: Seq<u8>,
    start: int,
    depth: int,
    size: int,
    done: int,
    samples: Seq<u8>,
)
    requires
        done < size,
        depth > 0,
        read_bytes(bytes, start + done, depth) is Ok,
    ensures
        behind(samples, swapped_samples(bytes, start, depth, size, done)) == behind(
            samples + read_bytes(bytes, start + done, depth)->Ok_0.reverse(),
            swapped_samples(bytes, start, depth, size, done + depth),
        ),
{
    let sample = read_bytes(bytes, start + done, depth)->Ok_0;
    let rest = swapped_samples(bytes, start, depth, size, done + depth);
    if rest is Ok {
        assert(samples + (sample.reverse() + rest->Ok_0.0) =~= (samples + sample.reverse())
            + rest->Ok_0.0);
    }
}

} // verus!
