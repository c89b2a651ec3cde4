//! The error of encoding a stream.

use crate::encode::pcm::PcmError;
use crate::encode::vorbis::VorbisError;
use crate::header::AudioFormat;
use vstd::prelude::*;

verus! {

/// Represents an error that can occur when encoding a sound bank stream.
#[derive(Clone, Copy, Debug, PartialEq, Eq, Structural)]
pub enum EncodeError {
    /// Encoding is not implemented for this audio format yet.
    UnsupportedFormat {
        /// The audio format of streams in the sound bank.
        format: AudioFormat,
    },
    /// Failed to encode a PCM stream.
    /// See [`PcmError`] for more information.
    Pcm(PcmError),
    /// Failed to encode a Vorbis stream.
    /// See [`VorbisError`] for more information.
    Vorbis(VorbisError),
}

impl From<PcmError> for EncodeError {
    /// The error of a PCM stream.
    fn from(value: PcmError) -> (e: Self) {
        EncodeError::Pcm(value)
    }
}

impl vstd::std_specs::convert::FromSpecImpl<PcmError> for EncodeError {
    open spec fn obeys_from_spec() -> bool {
        true
    }

    open spec fn from_spec(value: PcmError) -> Self {
        EncodeError::Pcm(value)
    }
}

impl From<VorbisError> for EncodeError {
    /// The error of a Vorbis stream.
    fn from(value: VorbisError) -> (e: Self) {
        EncodeError::Vorbis(value)
    }
}

impl vstd::std_specs::convert::FromSpecImpl<VorbisError> for EncodeError {
    open spec fn obeys_from_spec() -> bool {
        true
    }

    open spec fn from_spec(value: VorbisError) -> Self {
        EncodeError::Vorbis(value)
    }
}

} // verus!
