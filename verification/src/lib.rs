//! Extraction of audio streams from FMOD sound banks (container version 5).
//!
//! A sound bank is read from bytes held in memory. [`read::Reader`] walks
//! the bytes, [`header::Header::parse`] turns the file header into a
//! description of every stream, [`bank::Bank`] hands the streams out, and
//! [`encode`] lays out the bytes of the formats that need no codec.
//!
//! What the parsers return is stated in [`header::model`], for any bytes
//! whatever, and proved of them; [`header::laws`] holds what follows.

pub mod bank;
pub mod encode;
pub mod header;
pub mod read;
pub mod stream;

pub use bank::{Bank, DecodeError, LazyStreamError};
pub use encode::error::EncodeError;
pub use encode::pcm::{PcmError, PcmErrorKind};
pub use encode::vorbis::{VorbisError, VorbisErrorKind};
pub use header::{AudioFormat, Loop};
pub use stream::{LazyStream, Stream, StreamIntoIter};
