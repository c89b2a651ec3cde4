//! What a Vorbis codec needs of a stream: the checksum of its setup header,
//! an identification header, and the packets of the stream data one by one.

use crate::encode::pcm::le_bytes_u32;
use crate::encode::pcm::push_le_u32;
use crate::header::model::StreamInfoView;
use crate::header::StreamInfo;
use crate::read::read_bytes;
use crate::read::read_le_u16;
use crate::read::ReadError;
use crate::read::Reader;
use lewton::header::IdentHeader;
use vstd::prelude::*;

verus! {

/// A variant of a [`VorbisError`].
#[derive(Clone, Copy, Debug, PartialEq, Eq, Hash, Structural)]
#[non_exhaustive]
pub enum VorbisErrorKind {
    /// A CRC32 checksum was not found in the stream header within the sound bank.
    /// This checksum is needed to reconstruct the Vorbis decoder state and encode audio samples.
    MissingCrc32,
    /// Failed to create the file headers needed for the Vorbis decoder.
    CreateHeaders,
    /// The stream's associated CRC32 checksum was found, but it did not match any existing entries in the lookup table.
    Crc32Lookup,
    /// Failed to create the Vorbis encoder for writing audio samples.
    CreateEncoder,
    /// Failed to read an audio packet from the stream data.
    ReadPacket,
    /// Failed to decode an audio packet from the stream data into a sample.
    DecodePacket,
    /// Failed to encode an audio sample to the writer.
    EncodeBlock,
    /// Failed to flush the writer after encoding the entire stream.
    FinishStream,
}

/// The cause of a [`VorbisError`].
#[derive(Clone, Copy, Debug, PartialEq, Eq, Structural)]
pub enum VorbisErrorSource {
    /// The encoder failed.
    Encode,
    /// The decoder failed.
    Decode,
    /// The stream data could not be read.
    Read(ReadError),
}

/// Represents an error that can occur when encoding a Vorbis stream.
///
/// See [`VorbisErrorKind`] for the different kinds of errors that can occur.
#[derive(Clone, Copy, Debug, PartialEq, Eq, Structural)]
pub struct VorbisError {
    pub kind: VorbisErrorKind,
    pub source: Option<VorbisErrorSource>,
}

impl VorbisError {
    /// An error with nothing underneath.
    pub fn new(kind: VorbisErrorKind) -> (e: Self)
        ensures
            e == (VorbisError { kind, source: None }),
    {
        VorbisError { kind, source: None }
    }

    /// An error that the encoder has caused.
    pub fn from_vorbis(kind: VorbisErrorKind) -> (e: Self)
        ensures
            e == (VorbisError { kind, source: Some(VorbisErrorSource::Encode) }),
    {
        VorbisError { kind, source: Some(VorbisErrorSource::Encode) }
    }

    /// An error that the decoder has caused.
    pub fn from_lewton(kind: VorbisErrorKind) -> (e: Self)
        ensures
            e == (VorbisError { kind, source: Some(VorbisErrorSource::Decode) }),
    {
        VorbisError { kind, source: Some(VorbisErrorSource::Decode) }
    }

    /// An error that a failed read has caused.
    pub fn from_read(kind: VorbisErrorKind, source: ReadError) -> (e: Self)
        ensures
            e == (VorbisError { kind, source: Some(VorbisErrorSource::Read(source)) }),
    {
        VorbisError { kind, source: Some(VorbisErrorSource::Read(source)) }
    }

    /// Returns the [`VorbisErrorKind`] associated with this error.
    #[must_use]
    pub fn kind(&self) -> (k: VorbisErrorKind)
        ensures
            k == self.kind,
    {
        self.kind
    }
}

/// The exponent of the smaller block size of a sound bank: blocks of 256.
pub const MIN_BLOCK_SIZE_EXP2: u8 = 8;

/// The exponent of the larger block size of a sound bank: blocks of 2048.
pub const MAX_BLOCK_SIZE_EXP2: u8 = 11;

/// The identification header of a Vorbis stream of `channels` channels at
/// the rate `sample_rate`: 30 bytes. It gives no bitrates, and the block
/// sizes of a sound bank.
pub open spec fn id_header(sample_rate: u32, channels: u8) -> Seq<u8> {
    seq![1u8, 0x76u8, 0x6fu8, 0x72u8, 0x62u8, 0x69u8, 0x73u8] + seq![0u8, 0u8, 0u8, 0u8]
        + seq![channels] + le_bytes_u32(sample_rate) + seq![0u8, 0u8, 0u8, 0u8] + seq![
        0u8,
        0u8,
        0u8,
        0u8,
    ] + seq![0u8, 0u8, 0u8, 0u8] + seq![0xb8u8, 1u8]
}

/// Appends `count` zero bytes to `out`.
fn push_zeros(out: &mut Vec<u8>, count: usize)
    ensures
        final(out)@ == old(out)@ + Seq::new(count as nat, |i: int| 0u8),
{
    let mut i: usize = 0;
    while i < count
        invariant
            i <= count,
            out@ == old(out)@ + Seq::new(i as nat, |j: int| 0u8),
        decreases count - i,
    {
        out.push(0);
        i += 1;
        assert(out@ =~= old(out)@ + Seq::new(i as nat, |j: int| 0u8));
    }
}

/// Lays out the identification header of a Vorbis stream.
pub fn init_id_header_data(sample_rate: u32, channels: u8) -> (data: Vec<u8>)
    ensures
        data@ == id_header(sample_rate, channels),
        data@.len() == 30,
{
    // Vorbis file header information taken from:
    // [1]: https://www.xiph.org/vorbis/doc/Vorbis_I_spec.html (sections 4.1.1 and 4.1.2)
    let block_sizes: u8 = MAX_BLOCK_SIZE_EXP2 * 16 + MIN_BLOCK_SIZE_EXP2;
    let mut data: Vec<u8> = Vec::new();
    data.push(1);
    data.push(0x76);
    data.push(0x6f);
    data.push(0x72);
    data.push(0x62);
    data.push(0x69);
    data.push(0x73);
    push_zeros(&mut data, 4);
    data.push(channels);
    push_le_u32(&mut data, sample_rate);
    push_zeros(&mut data, 4);
    push_zeros(&mut data, 4);
    push_zeros(&mut data, 4);
    data.push(block_sizes);
    data.push(1);
    assert(data@ =~= id_header(sample_rate, channels));
    data
}

/// The identification header of a Vorbis stream as the decoder holds it.
#[verifier::external_type_specification]
#[verifier::external_body]
pub struct ExIdentHeader(IdentHeader);

/// Whether `packet` is an identification header that the decoder reads.
/// Such a packet has 30 bytes or more: the packet type 1, the word
/// `vorbis`, the version 0, a number of channels and a sample rate that
/// are not 0, three bitrates, the exponents of the two block sizes in one
/// byte, the smaller one in its lower half, both from 6 to 13, and a last
/// byte that is 1.
pub open spec fn reads_as_id_header(packet: Seq<u8>) -> bool {
    &&& packet.len() >= 30
    &&& packet[0] == 1
    &&& packet[1] == 0x76 && packet[2] == 0x6f && packet[3] == 0x72 && packet[4] == 0x62
        && packet[5] == 0x69 && packet[6] == 0x73
    &&& packet[7] == 0 && packet[8] == 0 && packet[9] == 0 && packet[10] == 0
    &&& packet[11] != 0
    &&& !(packet[12] == 0 && packet[13] == 0 && packet[14] == 0 && packet[15] == 0)
    &&& 6 <= packet[28] % 16 <= packet[28] / 16 <= 13
    &&& packet[29] == 1
}

/// `lewton::header::read_header_ident`: the identification header that
/// `packet` holds, if the decoder accepts it. The contract says which
/// packets it accepts, as its source shows: those of the form that
/// [`reads_as_id_header`] describes. Of the header itself it says nothing.
#[verifier::external_body]
fn read_header_ident(packet: &[u8]) -> (r: Option<IdentHeader>)
    ensures
        r is Some <==> reads_as_id_header(packet@),
{
    lewton::header::read_header_ident(packet).ok()
}

/// Has the decoder read the identification header that `packet` holds.
pub fn read_id_header(packet: &[u8]) -> (r: Result<IdentHeader, VorbisError>)
    ensures
        r is Ok <==> reads_as_id_header(packet@),
        r matches Err(e) ==> e == (VorbisError {
            kind: VorbisErrorKind::CreateHeaders,
            source: Some(VorbisErrorSource::Decode),
        }),
{
    match read_header_ident(packet) {
        Some(header) => Ok(header),
        None => Err(VorbisError::from_lewton(VorbisErrorKind::CreateHeaders)),
    }
}

/// The decoder reads the identification header that is laid out for a
/// stream exactly if the stream has a channel and a sample rate.
pub proof fn lemma_id_header_reads(sample_rate: u32, channels: u8)
    ensures
        reads_as_id_header(id_header(sample_rate, channels)) <==> sample_rate != 0 && channels
            != 0,
{
    let header = id_header(sample_rate, channels);
    let rate = le_bytes_u32(sample_rate);
    assert(header.len() == 30);
    assert(header[0] == 1 && header[1] == 0x76 && header[2] == 0x6f && header[3] == 0x72);
    assert(header[4] == 0x62 && header[5] == 0x69 && header[6] == 0x73);
    assert(header[7] == 0 && header[8] == 0 && header[9] == 0 && header[10] == 0);
    assert(header[11] == channels);
    assert(header[12] == rate[0] && header[13] == rate[1] && header[14] == rate[2] && header[15]
        == rate[3]);
    assert(header[28] == 0xb8 && header[29] == 1);
}

/// What a Vorbis codec is given before the first packet.
#[derive(Clone, Debug, PartialEq, Eq)]
pub struct VorbisSetup {
    /// The checksum by which the setup header of the stream is found.
    pub crc32: u32,
    /// The identification header of the stream.
    pub id_header: Vec<u8>,
}

/// A [`VorbisSetup`] with its header as a sequence.
pub struct VorbisSetupView {
    pub crc32: u32,
    pub id_header: Seq<u8>,
}

impl View for VorbisSetup {
    type V = VorbisSetupView;

    open spec fn view(&self) -> VorbisSetupView {
        VorbisSetupView { crc32: self.crc32, id_header: self.id_header@ }
    }
}

/// What a codec is given for a stream: the checksum that the header of the
/// stream holds, without which the stream cannot be encoded, and an
/// identification header, which counts the channels in one byte: for a
/// stream of more than 255 channels none can be made.
pub open spec fn setup_of(info: StreamInfoView) -> Result<VorbisSetupView, VorbisError> {
    match info.vorbis_crc32 {
        None => Err(VorbisError { kind: VorbisErrorKind::MissingCrc32, source: None }),
        Some(crc32) => if info.channels > u8::MAX {
            Err(VorbisError { kind: VorbisErrorKind::CreateHeaders, source: None })
        } else {
            Ok(
                VorbisSetupView {
                    crc32,
                    id_header: id_header(info.sample_rate, info.channels as u8),
                },
            )
        },
    }
}

/// Makes ready what a codec needs before the first packet of a stream.
pub fn prepare(info: &StreamInfo) -> (r: Result<VorbisSetup, VorbisError>)
    ensures
        crate::read::viewed(r) == setup_of(info@),
        r matches Ok(setup) ==> (reads_as_id_header(setup@.id_header) <==> info.sample_rate != 0
            && info.channels != 0),
{
    proof {
        if info.channels <= u8::MAX {
            lemma_id_header_reads(info.sample_rate, info.channels as u8);
        }
    }
    // The stream should have contained the CRC32 of a setup header in a header chunk.
    // Otherwise, the stream cannot be encoded correctly.
    let crc32 = match info.vorbis_crc32 {
        Some(crc32) => crc32,
        None => {
            return Err(VorbisError::new(VorbisErrorKind::MissingCrc32));
        },
    };
    if info.channels > 255 {
        return Err(VorbisError::new(VorbisErrorKind::CreateHeaders));
    }
    Ok(VorbisSetup { crc32, id_header: init_id_header_data(info.sample_rate, info.channels as u8) })
}

/// An error of the kind `ReadPacket` that the failed read `e` has caused.
pub open spec fn packet_failed(e: ReadError) -> VorbisError {
    VorbisError { kind: VorbisErrorKind::ReadPacket, source: Some(VorbisErrorSource::Read(e)) }
}

/// The packet at `pos` of a stream whose data begins at `start` and is
/// `size` bytes long, and the position behind what is read for it. There
/// is none where the stream data ends, nor where the length that stands
/// in front of each packet is 0 or 65535, which marks the end.
pub open spec fn packet_at(bytes: Seq<u8>, pos: int, start: int, size: int) -> Result<
    (Option<Seq<u8>>, int),
    VorbisError,
> {
    if pos - start >= size {
        Ok((None, pos))
    } else {
        match read_le_u16(bytes, pos) {
            Err(e) => Err(packet_failed(e)),
            Ok(len) => if len == 0 || len == 0xffff {
                Ok((None, pos + 2))
            } else {
                match read_bytes(bytes, pos + 2, len as int) {
                    Err(e) => Err(packet_failed(e)),
                    Ok(packet) => Ok((Some(packet), pos + 2 + len)),
                }
            },
        }
    }
}

/// The packet of a result, if there is one, as a sequence.
pub open spec fn packet_view(r: Result<Option<Vec<u8>>, VorbisError>, pos: nat) -> Result<
    (Option<Seq<u8>>, int),
    VorbisError,
> {
    match r {
        Ok(Some(packet)) => Ok((Some(packet@), pos as int)),
        Ok(None) => Ok((None, pos as int)),
        Err(e) => Err(e),
    }
}

/// Reads the next packet of a stream whose data begins at `start_pos` and
/// is `stream_size` bytes long. Returns nothing once the stream has ended.
/// A packet that cannot be read leaves the source at the end of its data.
pub fn next_packet(source: &mut Reader, start_pos: usize, stream_size: usize) -> (r: Result<
    Option<Vec<u8>>,
    VorbisError,
>)
    requires
        start_pos <= old(source).pos(),
    ensures
        final(source).bytes() == old(source).bytes(),
        packet_view(r, final(source).pos()) == packet_at(
            old(source).bytes(),
            old(source).pos() as int,
            start_pos as int,
            stream_size as int,
        ),
        final(source).pos() >= old(source).pos(),
        r is Err ==> final(source).pos() == old(source).bytes().len(),
{
    proof {
        use_type_invariant(&*source);
    }
    if source.position() - start_pos >= stream_size {
        return Ok(None);
    }
    let packet_size = match source.le_u16() {
        Ok(n) => n,
        Err(e) => {
            return Err(VorbisError::from_read(VorbisErrorKind::ReadPacket, e));
        },
    };
    // signals end of stream data
    if packet_size == 0 || packet_size == 0xffff {
        return Ok(None);
    }
    match source.take(packet_size as usize) {
        Ok(packet) => Ok(Some(packet)),
        Err(e) => Err(VorbisError::from_read(VorbisErrorKind::ReadPacket, e)),
    }
}

} // verus!
