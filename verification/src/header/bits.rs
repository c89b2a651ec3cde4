//! The two packed words of a stream header. Their fields lie one behind the
//! other from the least significant bit up, with no bit unused.

use vstd::prelude::*;

verus! {

/// The word at the head of a stream header: 64 bits, which hold a flag of
/// 1 bit, a sample rate selector of 4 bits, a channel selector of 2 bits,
/// the data offset in 27 bits and the number of samples in 30 bits.
#[derive(Clone, Copy, Debug, PartialEq, Eq, Structural)]
pub struct RawStreamHeader {
    pub value: u64,
}

/// The word of `fields`: each field shifted to its place.
pub open spec fn stream_word(
    has_chunks: bool,
    sample_rate: u8,
    channels: u8,
    data_offset: u32,
    num_samples: u32,
) -> u64 {
    (if has_chunks {
        1u64
    } else {
        0u64
    }) | (sample_rate as u64) << 1 | (channels as u64) << 5 | (data_offset as u64) << 7 | (
    num_samples as u64) << 34
}

impl RawStreamHeader {
    /// Bit 0: whether chunks follow the word.
    pub open spec fn has_chunks_of(self) -> bool {
        self.value & 1 == 1
    }

    /// Bits 1 to 4: the sample rate selector.
    pub open spec fn sample_rate_of(self) -> u8 {
        ((self.value >> 1) & 0xf) as u8
    }

    /// Bits 5 and 6: the channel selector.
    pub open spec fn channels_of(self) -> u8 {
        ((self.value >> 5) & 0x3) as u8
    }

    /// Bits 7 to 33: the data offset, in units of 32 bytes.
    pub open spec fn data_offset_of(self) -> u32 {
        ((self.value >> 7) & 0x7ff_ffff) as u32
    }

    /// Bits 34 to 63: the number of samples.
    pub open spec fn num_samples_of(self) -> u32 {
        ((self.value >> 34) & 0x3fff_ffff) as u32
    }

    /// The packed form of the word `value`.
    pub fn from(value: u64) -> (raw: Self)
        ensures
            raw.value == value,
    {
        RawStreamHeader { value }
    }

    /// Packs the fields into a word. Each must fit its width.
    pub fn new(
        has_chunks: bool,
        sample_rate: u8,
        channels: u8,
        data_offset: u32,
        num_samples: u32,
    ) -> (raw: Self)
        requires
            sample_rate < 0x10,
            channels < 0x4,
            data_offset < 0x800_0000,
            num_samples < 0x4000_0000,
        ensures
            raw.value == stream_word(has_chunks, sample_rate, channels, data_offset, num_samples),
            raw.has_chunks_of() == has_chunks,
            raw.sample_rate_of() == sample_rate,
            raw.channels_of() == channels,
            raw.data_offset_of() == data_offset,
            raw.num_samples_of() == num_samples,
    {
        let flag: u64 = if has_chunks {
            1
        } else {
            0
        };
        let rate: u64 = sample_rate as u64;
        let chan: u64 = channels as u64;
        let offset: u64 = data_offset as u64;
        let samples: u64 = num_samples as u64;
        let value: u64 = flag | rate << 1 | chan << 5 | offset << 7 | samples << 34;
        assert(value & 1 == flag && (value >> 1) & 0xf == rate && (value >> 5) & 0x3 == chan && (
        value >> 7) & 0x7ff_ffff == offset && (value >> 34) & 0x3fff_ffff == samples)
            by (bit_vector)
            requires
                value == flag | rate << 1 | chan << 5 | offset << 7 | samples << 34,
                flag < 2,
                rate < 0x10,
                chan < 0x4,
                offset < 0x800_0000,
                samples < 0x4000_0000,
        ;
        RawStreamHeader { value }
    }

    pub fn has_chunks(&self) -> (b: bool)
        ensures
            b == self.has_chunks_of(),
    {
        self.value & 1 == 1
    }

    pub fn sample_rate(&self) -> (flag: u8)
        ensures
            flag == self.sample_rate_of(),
            flag < 0x10,
    {
        let value = self.value;
        assert((value >> 1) & 0xf < 0x10) by (bit_vector);
        ((value >> 1) & 0xf) as u8
    }

    pub fn channels(&self) -> (flag: u8)
        ensures
            flag == self.channels_of(),
            flag < 0x4,
    {
        let value = self.value;
        assert((value >> 5) & 0x3 < 0x4) by (bit_vector);
        ((value >> 5) & 0x3) as u8
    }

    pub fn data_offset(&self) -> (offset: u32)
        ensures
            offset == self.data_offset_of(),
            offset < 0x800_0000,
    {
        let value = self.value;
        assert((value >> 7) & 0x7ff_ffff < 0x800_0000) by (bit_vector);
        ((value >> 7) & 0x7ff_ffff) as u32
    }

    pub fn num_samples(&self) -> (n: u32)
        ensures
            n == self.num_samples_of(),
            n < 0x4000_0000,
    {
        let value = self.value;
        assert((value >> 34) & 0x3fff_ffff < 0x4000_0000) by (bit_vector);
        ((value >> 34) & 0x3fff_ffff) as u32
    }
}

/// The five fields of a word, packed again, give the word back, whatever
/// the word holds.
pub proof fn lemma_stream_word_round_trip(raw: RawStreamHeader)
    ensures
        stream_word(
            raw.has_chunks_of(),
            raw.sample_rate_of(),
            raw.channels_of(),
            raw.data_offset_of(),
            raw.num_samples_of(),
        ) == raw.value,
{
    let v = raw.value;
    let flag: u64 = if v & 1 == 1 {
        1
    } else {
        0
    };
    let rate: u64 = (v >> 1) & 0xf;
    let chan: u64 = (v >> 5) & 0x3;
    let offset: u64 = (v >> 7) & 0x7ff_ffff;
    let samples: u64 = (v >> 34) & 0x3fff_ffff;
    assert(rate < 0x10 && chan < 0x4 && offset < 0x800_0000 && samples < 0x4000_0000
        && flag | rate << 1 | chan << 5 | offset << 7 | samples << 34 == v) by (bit_vector)
        requires
            flag == (if v & 1 == 1 {
                1u64
            } else {
                0u64
            }),
            rate == (v >> 1) & 0xf,
            chan == (v >> 5) & 0x3,
            offset == (v >> 7) & 0x7ff_ffff,
            samples == (v >> 34) & 0x3fff_ffff,
    ;
    assert(raw.sample_rate_of() as u64 == rate);
    assert(raw.channels_of() as u64 == chan);
    assert(raw.data_offset_of() as u64 == offset);
    assert(raw.num_samples_of() as u64 == samples);
}

/// The word at the head of a chunk: 32 bits, which hold a flag of 1 bit,
/// the size of the chunk in 24 bits and a kind selector of 7 bits.
#[derive(Clone, Copy, Debug, PartialEq, Eq, Structural)]
pub struct RawStreamChunk {
    pub value: u32,
}

/// The word of the fields of a chunk: each field shifted to its place.
pub open spec fn chunk_word(more_chunks: bool, size: u32, kind: u8) -> u32 {
    (if more_chunks {
        1u32
    } else {
        0u32
    }) | size << 1 | (kind as u32) << 25
}

impl RawStreamChunk {
    /// Bit 0: whether another chunk follows this one.
    pub open spec fn more_chunks_of(self) -> bool {
        self.value & 1 == 1
    }

    /// Bits 1 to 24: the size of the chunk in bytes, the word not counted.
    pub open spec fn size_of(self) -> u32 {
        (self.value >> 1) & 0xff_ffff
    }

    /// Bits 25 to 31: the kind selector.
    pub open spec fn kind_of(self) -> u8 {
        ((self.value >> 25) & 0x7f) as u8
    }

    /// The packed form of the word `value`.
    pub fn from(value: u32) -> (raw: Self)
        ensures
            raw.value == value,
    {
        RawStreamChunk { value }
    }

    /// Packs the fields into a word. Each must fit its width.
    pub fn new(more_chunks: bool, size: u32, kind: u8) -> (raw: Self)
        requires
            size < 0x100_0000,
            kind < 0x80,
        ensures
            raw.value == chunk_word(more_chunks, size, kind),
            raw.more_chunks_of() == more_chunks,
            raw.size_of() == size,
            raw.kind_of() == kind,
    {
        let flag: u32 = if more_chunks {
            1
        } else {
            0
        };
        let selector: u32 = kind as u32;
        let value: u32 = flag | size << 1 | selector << 25;
        assert(value & 1 == flag && (value >> 1) & 0xff_ffff == size && (value >> 25) & 0x7f
            == selector) by (bit_vector)
            requires
                value == flag | size << 1 | selector << 25,
                flag < 2,
                size < 0x100_0000,
                selector < 0x80,
        ;
        RawStreamChunk { value }
    }

    pub fn more_chunks(&self) -> (b: bool)
        ensures
            b == self.more_chunks_of(),
    {
        self.value & 1 == 1
    }

    pub fn size(&self) -> (size: u32)
        ensures
            size == self.size_of(),
            size < 0x100_0000,
    {
        let value = self.value;
        assert((value >> 1) & 0xff_ffff < 0x100_0000) by (bit_vector);
        (value >> 1) & 0xff_ffff
    }

    pub fn kind(&self) -> (flag: u8)
        ensures
            flag == self.kind_of(),
            flag < 0x80,
    {
        let value = self.value;
        assert((value >> 25) & 0x7f < 0x80) by (bit_vector);
        ((value >> 25) & 0x7f) as u8
    }
}

/// The three fields of a chunk word, packed again, give the word back,
/// whatever the word holds.
pub proof fn lemma_chunk_word_round_trip(raw: RawStreamChunk)
    ensures
        chunk_word(raw.more_chunks_of(), raw.size_of(), raw.kind_of()) == raw.value,
{
    let v = raw.value;
    let flag: u32 = if v & 1 == 1 {
        1
    } else {
        0
    };
    let size: u32 = (v >> 1) & 0xff_ffff;
    let kind: u32 = (v >> 25) & 0x7f;
    assert(kind < 0x80 && flag | size << 1 | kind << 25 == v) by (bit_vector)
        requires
            flag == (if v & 1 == 1 {
                1u32
            } else {
                0u32
            }),
            size == (v >> 1) & 0xff_ffff,
            kind == (v >> 25) & 0x7f,
    ;
    assert(raw.kind_of() as u32 == kind);
}

} // verus!
