//! The streams of a sound bank, one at a time.

use crate::encode::encode;
use crate::encode::encoded;
use crate::encode::error::EncodeError;
use crate::encode::Encoded;
use crate::encode::EncodedView;
use crate::header::model::StreamInfoView;
use crate::header::AudioFormat;
use crate::header::Loop;
use crate::header::StreamInfo;
use crate::read::read_bytes;
use crate::read::read_end;
use crate::read::Reader;
use vstd::prelude::*;

verus! {

impl StreamInfo {
    /// A copy of what the bank says of the stream.
    pub fn duplicate(&self) -> (copy: StreamInfo)
        ensures
            copy@ == self@,
    {
        let dsp_coeffs = crate::header::copy_coeffs(&self.dsp_coeffs);
        let name = match &self.name {
            Some(name) => Some(name.clone()),
            None => None,
        };
        StreamInfo {
            sample_rate: self.sample_rate,
            channels: self.channels,
            num_samples: self.num_samples,
            stream_loop: self.stream_loop,
            dsp_coeffs,
            vorbis_crc32: self.vorbis_crc32,
            size: self.size,
            name,
        }
    }
}

/// An audio stream of data that has not been read yet.
///
/// [`LazyStream`] is accessible through the [`crate::bank::Bank::read_streams`] method.
/// See [`Stream`] for the version of an audio stream that immediately reads its data into memory.
/// It holds a reader of its own, which stands at the start of the stream data.
pub struct LazyStream<'bank, 'a> {
    index: u32,
    format: AudioFormat,
    flags: u32,
    info: &'bank StreamInfo,
    reader: Reader<'a>,
}

impl<'bank, 'a> LazyStream<'bank, 'a> {
    /// The index of this stream within the sound bank.
    pub closed spec fn index_of(self) -> u32 {
        self.index
    }

    /// The audio format of this stream.
    pub closed spec fn format_of(self) -> AudioFormat {
        self.format
    }

    /// The encoding flags of the bank.
    pub closed spec fn flags_of(self) -> u32 {
        self.flags
    }

    /// What the bank says of this stream.
    pub closed spec fn info(self) -> StreamInfoView {
        self.info@
    }

    /// The bytes that the reader of this stream walks over.
    pub closed spec fn bytes(self) -> Seq<u8> {
        self.reader.bytes()
    }

    /// Where the data of this stream begins in its bytes.
    pub closed spec fn pos(self) -> nat {
        self.reader.pos()
    }

    /// The stream at `index` of a bank of the format `format`, whose data
    /// begins where `reader` stands.
    pub fn new(
        index: u32,
        format: AudioFormat,
        flags: u32,
        info: &'bank StreamInfo,
        reader: Reader<'a>,
    ) -> (stream: Self)
        ensures
            stream.index_of() == index,
            stream.format_of() == format,
            stream.flags_of() == flags,
            stream.info() == info@,
            stream.bytes() == reader.bytes(),
            stream.pos() == reader.pos(),
    {
        LazyStream { index, format, flags, info, reader }
    }

    /// Returns the index of this stream within the sound bank.
    #[must_use]
    pub fn index(&self) -> (index: u32)
        ensures
            index == self.index_of(),
    {
        self.index
    }

    /// Returns the audio format of this stream. The format is the same for all streams in a sound bank.
    ///
    /// See [`AudioFormat`] for the list of known formats.
    #[must_use]
    pub fn format(&self) -> (format: AudioFormat)
        ensures
            format == self.format_of(),
    {
        self.format
    }

    /// Returns the sample rate (Hz) of the stream.
    #[must_use]
    pub fn sample_rate(&self) -> (rate: u32)
        ensures
            rate == self.info().sample_rate,
    {
        self.info.sample_rate
    }

    /// Returns the number of channels in the stream.
    #[must_use]
    pub fn channels(&self) -> (channels: u16)
        ensures
            channels == self.info().channels,
    {
        self.info.channels
    }

    /// Returns the number of samples in the stream.
    #[must_use]
    pub fn sample_count(&self) -> (count: u32)
        ensures
            count == self.info().num_samples,
    {
        self.info.num_samples
    }

    /// Returns loop information, if it exists.
    #[must_use]
    pub fn loop_info(&self) -> (stream_loop: Option<Loop>)
        ensures
            crate::header::loop_view(stream_loop) == self.info().stream_loop,
    {
        self.info.stream_loop
    }

    /// Returns the size of the stream, in bytes.
    #[must_use]
    pub fn size(&self) -> (size: u32)
        ensures
            size == self.info().size,
    {
        self.info.size
    }

    /// Returns the name of the stream, if it exists.
    #[must_use]
    pub fn name(&self) -> (name: Option<&str>)
        ensures
            name is Some <==> self.info().name is Some,
            name matches Some(text) ==> self.info().name == Some(text@),
    {
        match &self.info.name {
            Some(name) => Some(name.as_str()),
            None => None,
        }
    }

    /// A reader that stands at the start of the data of this stream.
    #[must_use]
    pub fn reader(&self) -> (reader: Reader<'a>)
        ensures
            reader.bytes() == self.bytes(),
            reader.pos() == self.pos(),
    {
        self.reader.cursor()
    }

    /// Encodes the stream data as far as that can be done without a codec.
    pub fn write(self) -> (r: Result<Encoded, EncodeError>)
        ensures
            r is Ok <==> encoded(
                self.bytes(),
                self.pos() as int,
                self.format_of(),
                self.flags_of(),
                self.info(),
            ) is Ok,
            r matches Ok(file) ==> file@ == encoded(
                self.bytes(),
                self.pos() as int,
                self.format_of(),
                self.flags_of(),
                self.info(),
            )->Ok_0.0,
            r matches Err(e) ==> encoded(
                self.bytes(),
                self.pos() as int,
                self.format_of(),
                self.flags_of(),
                self.info(),
            ) == Err::<(EncodedView, int), _>(e),
    {
        let mut reader = self.reader;
        encode(self.format, self.flags, self.info, &mut reader)
    }
}

/// An audio stream of data that has already been read.
///
/// [`Stream`] is what a [`StreamIntoIter`] hands out.
///
/// See [`LazyStream`] for the version of an audio stream that does not immediately read its data into memory.
#[derive(Clone, Debug, PartialEq, Eq)]
pub struct Stream {
    format: AudioFormat,
    flags: u32,
    info: StreamInfo,
    data: Vec<u8>,
}

/// A [`Stream`] as plain values.
pub struct StreamView {
    pub format: AudioFormat,
    pub flags: u32,
    pub info: StreamInfoView,
    pub data: Seq<u8>,
}

impl View for Stream {
    type V = StreamView;

    closed spec fn view(&self) -> StreamView {
        StreamView { format: self.format, flags: self.flags, info: self.info@, data: self.data@ }
    }
}

impl Stream {
    /// A stream of a bank of the format `format`, with its data.
    pub fn new(format: AudioFormat, flags: u32, info: StreamInfo, data: Vec<u8>) -> (stream: Self)
        ensures
            stream@ == (StreamView { format, flags, info: info@, data: data@ }),
    {
        Stream { format, flags, info, data }
    }

    /// Returns the audio format of this stream. The format is the same for all streams in a sound bank.
    ///
    /// See [`AudioFormat`] for the list of known formats.
    #[must_use]
    pub fn format(&self) -> (format: AudioFormat)
        ensures
            format == self@.format,
    {
        self.format
    }

    /// Returns the sample rate (Hz) of the stream.
    #[must_use]
    pub fn sample_rate(&self) -> (rate: u32)
        ensures
            rate == self@.info.sample_rate,
    {
        self.info.sample_rate
    }

    /// Returns the number of channels in the stream.
    #[must_use]
    pub fn channels(&self) -> (channels: u16)
        ensures
            channels == self@.info.channels,
    {
        self.info.channels
    }

    /// Returns the number of samples in the stream.
    #[must_use]
    pub fn sample_count(&self) -> (count: u32)
        ensures
            count == self@.info.num_samples,
    {
        self.info.num_samples
    }

    /// Returns loop information, if it exists.
    #[must_use]
    pub fn loop_info(&self) -> (stream_loop: Option<Loop>)
        ensures
            crate::header::loop_view(stream_loop) == self@.info.stream_loop,
    {
        self.info.stream_loop
    }

    /// Returns the size of the stream, in bytes.
    #[must_use]
    pub fn size(&self) -> (size: u32)
        ensures
            size == self@.info.size,
    {
        self.info.size
    }

    /// Returns the name of the stream, if it exists.
    #[must_use]
    pub fn name(&self) -> (name: Option<&str>)
        ensures
            name is Some <==> self@.info.name is Some,
            name matches Some(text) ==> self@.info.name == Some(text@),
    {
        match &self.info.name {
            Some(name) => Some(name.as_str()),
            None => None,
        }
    }

    /// The data of the stream, as it lies in the bank.
    #[must_use]
    pub fn data(&self) -> (data: &[u8])
        ensures
            data@ == self@.data,
    {
        self.data.as_slice()
    }

    /// Encodes the stream data as far as that can be done without a codec.
    pub fn write(&self) -> (r: Result<Encoded, EncodeError>)
        ensures
            r is Ok <==> encoded(self@.data, 0, self@.format, self@.flags, self@.info) is Ok,
            r matches Ok(file) ==> file@ == encoded(
                self@.data,
                0,
                self@.format,
                self@.flags,
                self@.info,
            )->Ok_0.0,
            r matches Err(e) ==> encoded(self@.data, 0, self@.format, self@.flags, self@.info)
                == Err::<(EncodedView, int), _>(e),
    {
        let mut reader = Reader::new(self.data.as_slice());
        encode(self.format, self.flags, &self.info, &mut reader)
    }
}

/// The streams of a sound bank in their order, each read into memory when
/// it is asked for.
pub struct StreamIntoIter<'a> {
    index: u32,
    format: AudioFormat,
    flags: u32,
    info: Vec<StreamInfo>,
    reader: Reader<'a>,
}

impl<'a> StreamIntoIter<'a> {
    /// The index of the stream that comes next.
    pub closed spec fn index(self) -> u32 {
        self.index
    }

    /// The audio format of the streams.
    pub closed spec fn format(self) -> AudioFormat {
        self.format
    }

    /// The encoding flags of the bank.
    pub closed spec fn flags(self) -> u32 {
        self.flags
    }

    /// What the bank says of its streams.
    pub closed spec fn info(self) -> Seq<StreamInfoView> {
        crate::header::stream_views(self.info@)
    }

    /// The bytes of the bank.
    pub closed spec fn bytes(self) -> Seq<u8> {
        self.reader.bytes()
    }

    /// Where the data of the next stream begins.
    pub closed spec fn pos(self) -> nat {
        self.reader.pos()
    }

    /// The streams of a bank of the format `format`, of which `info` says
    /// the rest. The data of the first one begins where `reader` stands.
    pub fn new(format: AudioFormat, flags: u32, info: Vec<StreamInfo>, reader: Reader<'a>) -> (iter:
        Self)
        ensures
            iter.index() == 0,
            iter.format() == format,
            iter.flags() == flags,
            iter.info() == crate::header::stream_views(info@),
            iter.bytes() == reader.bytes(),
            iter.pos() == reader.pos(),
    {
        StreamIntoIter { index: 0, format, flags, info, reader }
    }

    /// The stream that [`StreamIntoIter::next`] hands out: the one at the
    /// index, if there is one and its data is all there.
    pub open spec fn upcoming(self) -> Option<StreamView> {
        if self.index() >= self.info().len() {
            None
        } else {
            match read_bytes(self.bytes(), self.pos() as int, self.info()[self.index() as int].size as int) {
                Err(_) => None,
                Ok(data) => Some(
                    StreamView {
                        format: self.format(),
                        flags: self.flags(),
                        info: self.info()[self.index() as int],
                        data,
                    },
                ),
            }
        }
    }

    /// Reads the next stream. Returns nothing where there is no stream
    /// left, or where the data of the stream is not all there. Either way
    /// the stream is passed over.
    pub fn next(&mut self) -> (stream: Option<Stream>)
        ensures
            match stream {
                Some(s) => old(self).upcoming() == Some(s@),
                None => old(self).upcoming() is None,
            },
            final(self).format() == old(self).format(),
            final(self).flags() == old(self).flags(),
            final(self).info() == old(self).info(),
            final(self).bytes() == old(self).bytes(),
            final(self).index() == (if old(self).index() < u32::MAX {
                (old(self).index() + 1) as u32
            } else {
                old(self).index()
            }),
            final(self).pos() == (if old(self).index() >= old(self).info().len() {
                old(self).pos() as int
            } else {
                read_end(
                    old(self).bytes(),
                    old(self).pos() as int,
                    old(self).info()[old(self).index() as int].size as int,
                )
            }),
    {
        let at = self.index as usize;
        if self.index < u32::MAX {
            self.index += 1;
        }
        if at >= self.info.len() {
            return None;
        }
        let info = self.info[at].duplicate();
        let size = info.size as usize;
        match self.reader.take(size) {
            Ok(data) => Some(Stream::new(self.format, self.flags, info, data)),
            Err(_) => None,
        }
    }

    /// The number of streams of the bank.
    pub fn len(&self) -> (len: usize)
        ensures
            len == self.info().len(),
    {
        self.info.len()
    }
}

} // verus!
