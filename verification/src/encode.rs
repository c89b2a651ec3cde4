//! What it takes to write the streams of a sound bank as files of common
//! formats. PCM streams are laid out here in full. For a Vorbis stream the
//! headers and the packets are made ready, and a codec does the rest.

pub mod error;
pub mod pcm;
pub mod vorbis;

use crate::encode::error::EncodeError;
use crate::encode::pcm::wave_file;
use crate::encode::pcm::Endianness;
use crate::encode::pcm::Format;
use crate::encode::vorbis::setup_of;
use crate::encode::vorbis::VorbisSetup;
use crate::encode::vorbis::VorbisSetupView;
use crate::header::model::StreamInfoView;
use crate::header::AudioFormat;
use crate::header::StreamInfo;
use crate::read::Reader;
use vstd::prelude::*;

verus! {

/// A stream as far as it can be encoded without a codec.
#[derive(Clone, Debug, PartialEq, Eq)]
pub enum Encoded {
    /// The bytes of a complete WAVE file.
    Wave(Vec<u8>),
    /// What a Vorbis codec needs before it is given the packets of the
    /// stream, which begin where the source stands.
    Vorbis(VorbisSetup),
}

/// An [`Encoded`] with its bytes as sequences.
pub enum EncodedView {
    Wave(Seq<u8>),
    Vorbis(VorbisSetupView),
}

impl View for Encoded {
    type V = EncodedView;

    open spec fn view(&self) -> EncodedView {
        match self {
            Encoded::Wave(bytes) => EncodedView::Wave(bytes@),
            Encoded::Vorbis(setup) => EncodedView::Vorbis(setup@),
        }
    }
}

/// How the samples of a PCM format are stored: as what, in which order,
/// and in how many bytes each. Only samples of 16 bits have a byte order
/// that the flags of the bank decide; it is big-endian if their lowest bit
/// is set.
pub open spec fn pcm_layout(format: AudioFormat, flags: u32) -> Option<(Format, Endianness, u16)> {
    match format {
        AudioFormat::Pcm8 => Some((Format::Integer, Endianness::Little, 1u16)),
        AudioFormat::Pcm16 => Some(
            (
                Format::Integer,
                if flags & 1 == 1 {
                    Endianness::Big
                } else {
                    Endianness::Little
                },
                2u16,
            ),
        ),
        AudioFormat::Pcm24 => Some((Format::Integer, Endianness::Little, 3u16)),
        AudioFormat::Pcm32 => Some((Format::Integer, Endianness::Little, 4u16)),
        AudioFormat::PcmFloat => Some((Format::Float, Endianness::Little, 4u16)),
        _ => None,
    }
}

/// What encoding a stream of the format `format`, whose data begins at
/// `pos`, yields, and the position behind what is read for it. A PCM
/// stream becomes a WAVE file. For a Vorbis stream nothing is read yet.
/// The other formats are not supported.
pub open spec fn encoded(
    bytes: Seq<u8>,
    pos: int,
    format: AudioFormat,
    flags: u32,
    info: StreamInfoView,
) -> Result<(EncodedView, int), EncodeError> {
    match pcm_layout(format, flags) {
        Some((sample, order, depth)) => match wave_file(bytes, pos, sample, order, info, depth) {
            Ok((file, end)) => Ok((EncodedView::Wave(file), end)),
            Err(e) => Err(EncodeError::Pcm(e)),
        },
        None => if format == AudioFormat::Vorbis {
            match setup_of(info) {
                Ok(setup) => Ok((EncodedView::Vorbis(setup), pos)),
                Err(e) => Err(EncodeError::Vorbis(e)),
            }
        } else {
            Err(EncodeError::UnsupportedFormat { format })
        },
    }
}

/// The WAVE file that `r` holds, as an [`Encoded`].
fn wave(r: Result<Vec<u8>, crate::encode::pcm::PcmError>) -> (e: Result<Encoded, EncodeError>)
    ensures
        e == match r {
            Ok(file) => Ok::<Encoded, EncodeError>(Encoded::Wave(file)),
            Err(e) => Err(EncodeError::Pcm(e)),
        },
{
    match r {
        Ok(file) => Ok(Encoded::Wave(file)),
        Err(e) => Err(EncodeError::from(e)),
    }
}

/// Encodes a stream as far as that can be done without a codec. The source
/// must stand at the start of the stream data. Where a PCM stream cannot
/// be read, the source is left at the end of its data; after any other
/// error it has not moved.
pub fn encode(format: AudioFormat, flags: u32, info: &StreamInfo, source: &mut Reader) -> (r:
    Result<Encoded, EncodeError>)
    ensures
        final(source).bytes() == old(source).bytes(),
        crate::read::parsed(r, final(source).pos()) == encoded(
            old(source).bytes(),
            old(source).pos() as int,
            format,
            flags,
            info@,
        ),
        final(source).pos() >= old(source).pos(),
        r matches Err(e) ==> final(source).pos() == (if e is Pcm {
            old(source).bytes().len()
        } else {
            old(source).pos()
        }),
{
    // method of determining sample endianness for PCM24, PCM32, and PCMFLOAT is currently unknown
    match format {
        AudioFormat::Pcm8 => {
            // endianness doesn't matter when samples are 1 byte wide
            wave(crate::encode::pcm::encode::<1>(Format::Integer, Endianness::Little, info, source))
        },
        AudioFormat::Pcm16 => {
            // determine sample endianness from flags in file header
            let order = if flags & 1 == 1 {
                Endianness::Big
            } else {
                Endianness::Little
            };
            wave(crate::encode::pcm::encode::<2>(Format::Integer, order, info, source))
        },
        AudioFormat::Pcm24 => {
            wave(crate::encode::pcm::encode::<3>(Format::Integer, Endianness::Little, info, source))
        },
        AudioFormat::Pcm32 => {
            wave(crate::encode::pcm::encode::<4>(Format::Integer, Endianness::Little, info, source))
        },
        AudioFormat::PcmFloat => {
            wave(crate::encode::pcm::encode::<4>(Format::Float, Endianness::Little, info, source))
        },
        AudioFormat::Vorbis => match crate::encode::vorbis::prepare(info) {
            Ok(setup) => Ok(Encoded::Vorbis(setup)),
            Err(e) => Err(EncodeError::from(e)),
        },
        _ => Err(EncodeError::UnsupportedFormat { format }),
    }
}

} // verus!
