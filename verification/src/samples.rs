//! Sample encodings and their conversion to the working representation.
//!
//! Decoded blocks arrive deinterleaved, one vector per channel, with samples
//! in whatever encoding the source stream uses: 8/16/24/32-bit integers,
//! signed or unsigned. One generic conversion path brings every encoding to
//! the working representation, a signed 32-bit integer occupying the full
//! scale. Floating-point sources are brought to the working representation
//! by the decoder adapter before they reach this module, since verified code
//! here holds no floats.

use vstd::prelude::*;

verus! {

/// A 24-bit unsigned sample as the decoder stores it: a 32-bit unsigned
/// value meant to lie within the 24-bit range; storage above that range is
/// saturated during conversion.
#[derive(Clone, Copy, PartialEq, Eq, Structural, Debug)]
pub struct SampleU24(pub u32);

/// A 24-bit signed sample as the decoder stores it: a 32-bit signed value
/// meant to lie within the 24-bit range; storage outside that range is
/// saturated during conversion.
#[derive(Clone, Copy, PartialEq, Eq, Structural, Debug)]
pub struct SampleS24(pub i32);

/// A source sample encoding that the generic conversion path accepts.
///
/// `working_spec` pins the conversion down exactly; `to_working` is the
/// executable conversion, proved to match it.
pub trait SourceSample: Copy {
    /// The working-representation value of this sample.
    spec fn working_spec(self) -> i32;

    /// Convert this sample to the working representation.
    fn to_working(self) -> (r: i32)
        ensures
            r == self.working_spec(),
    ;
}

impl SourceSample for u8 {
    open spec fn working_spec(self) -> i32 {
        (((self as int) - 0x80) * 0x100_0000) as i32
    }

    fn to_working(self) -> (r: i32) {
        ((self as i32) - 0x80) * 0x100_0000
    }
}

impl SourceSample for i8 {
    open spec fn working_spec(self) -> i32 {
        ((self as int) * 0x100_0000) as i32
    }

    fn to_working(self) -> (r: i32) {
        (self as i32) * 0x100_0000
    }
}

impl SourceSample for u16 {
    open spec fn working_spec(self) -> i32 {
        (((self as int) - 0x8000) * 0x1_0000) as i32
    }

    fn to_working(self) -> (r: i32) {
        ((self as i32) - 0x8000) * 0x1_0000
    }
}

impl SourceSample for i16 {
    open spec fn working_spec(self) -> i32 {
        ((self as int) * 0x1_0000) as i32
    }

    fn to_working(self) -> (r: i32) {
        (self as i32) * 0x1_0000
    }
}

impl SourceSample for SampleU24 {
    open spec fn working_spec(self) -> i32 {
        if self.0 > 0xFF_FFFF {
            (0x7F_FFFF * 0x100) as i32
        } else {
            (((self.0 as int) - 0x80_0000) * 0x100) as i32
        }
    }

    fn to_working(self) -> (r: i32) {
        let clamped: u32 = if self.0 > 0xFF_FFFF {
            0xFF_FFFF
        } else {
            self.0
        };
        ((clamped as i32) - 0x80_0000) * 0x100
    }
}

impl SourceSample for SampleS24 {
    open spec fn working_spec(self) -> i32 {
        if self.0 < -0x80_0000 {
            (-0x80_0000 * 0x100) as i32
        } else if self.0 > 0x7F_FFFF {
            (0x7F_FFFF * 0x100) as i32
        } else {
            ((self.0 as int) * 0x100) as i32
        }
    }

    fn to_working(self) -> (r: i32) {
        let clamped: i32 = if self.0 < -0x80_0000 {
            -0x80_0000
        } else if self.0 > 0x7F_FFFF {
            0x7F_FFFF
        } else {
            self.0
        };
        clamped * 0x100
    }
}

impl SourceSample for u32 {
    open spec fn working_spec(self) -> i32 {
        ((self as int) - 0x8000_0000) as i32
    }

    fn to_working(self) -> (r: i32) {
        ((self as i64) - 0x8000_0000) as i32
    }
}

impl SourceSample for i32 {
    open spec fn working_spec(self) -> i32 {
        self
    }

    fn to_working(self) -> (r: i32) {
        self
    }
}

/// All rows of a deinterleaved block have the same length: `k` channels of
/// `n` frames each.
pub open spec fn uniform_rows<T>(rows: Seq<Vec<T>>) -> bool {
    forall|i: int, j: int|
        0 <= i < rows.len() && 0 <= j < rows.len() ==> (#[trigger] rows[i])@.len() == (
        #[trigger] rows[j])@.len()
}

/// What the generic conversion path yields for one channel of samples.
pub open spec fn converted_row<S: SourceSample>(row: Seq<S>) -> Seq<i32> {
    row.map_values(|s: S| s.working_spec())
}

/// Convert one deinterleaved block, one vector per channel, through the
/// generic conversion path. The output has exactly the input's shape, and
/// every sample is the working-representation value of its source sample.
pub fn convert_channels<S: SourceSample>(chans: &Vec<Vec<S>>) -> (out: Vec<Vec<i32>>)
    ensures
        out@.len() == chans@.len(),
        forall|i: int| 0 <= i < chans@.len() ==> (#[trigger] out@[i])@ == converted_row(
            chans@[i]@,
        ),
{
    let mut out: Vec<Vec<i32>> = Vec::new();
    let mut c: usize = 0;
    while c < chans.len()
        invariant
            c <= chans@.len(),
            out@.len() == c,
            forall|i: int| 0 <= i < c ==> (#[trigger] out@[i])@ == converted_row(chans@[i]@),
        decreases chans@.len() - c,
    {
        let src: &Vec<S> = &chans[c];
        let mut dst: Vec<i32> = Vec::new();
        let mut j: usize = 0;
        while j < src.len()
            invariant
                j <= src@.len(),
                dst@.len() == j,
                src@ == chans@[c as int]@,
                forall|k: int| 0 <= k < j ==> #[trigger] dst@[k] == src@[k].working_spec(),
            decreases src@.len() - j,
        {
            let s: S = src[j];
            dst.push(s.to_working());
            j = j + 1;
        }
        proof {
            assert(dst@ =~= converted_row(chans@[c as int]@));
        }
        out.push(dst);
        c = c + 1;
    }
    out
}

/// One decoded block as the decoder adapter hands it over: deinterleaved
/// per-channel samples tagged with their source encoding. The two
/// floating-point encodings arrive already in the working representation,
/// brought there by the adapter.
pub enum RawBlock {
    U8(Vec<Vec<u8>>),
    U16(Vec<Vec<u16>>),
    U24(Vec<Vec<SampleU24>>),
    U32(Vec<Vec<u32>>),
    S8(Vec<Vec<i8>>),
    S16(Vec<Vec<i16>>),
    S24(Vec<Vec<SampleS24>>),
    S32(Vec<Vec<i32>>),
    F32(Vec<Vec<i32>>),
    F64(Vec<Vec<i32>>),
}

impl RawBlock {
    /// Every channel carries the same number of frames.
    pub open spec fn wf(self) -> bool {
        match self {
            RawBlock::U8(c) => uniform_rows(c@),
            RawBlock::U16(c) => uniform_rows(c@),
            RawBlock::U24(c) => uniform_rows(c@),
            RawBlock::U32(c) => uniform_rows(c@),
            RawBlock::S8(c) => uniform_rows(c@),
            RawBlock::S16(c) => uniform_rows(c@),
            RawBlock::S24(c) => uniform_rows(c@),
            RawBlock::S32(c) => uniform_rows(c@),
            RawBlock::F32(c) => uniform_rows(c@),
            RawBlock::F64(c) => uniform_rows(c@),
        }
    }

    /// The number of channels in this block.
    pub open spec fn channel_count_spec(self) -> nat {
        match self {
            RawBlock::U8(c) => c@.len(),
            RawBlock::U16(c) => c@.len(),
            RawBlock::U24(c) => c@.len(),
            RawBlock::U32(c) => c@.len(),
            RawBlock::S8(c) => c@.len(),
            RawBlock::S16(c) => c@.len(),
            RawBlock::S24(c) => c@.len(),
            RawBlock::S32(c) => c@.len(),
            RawBlock::F32(c) => c@.len(),
            RawBlock::F64(c) => c@.len(),
        }
    }

    /// The number of frames per channel, read off the first channel.
    pub open spec fn frame_count_spec(self) -> nat {
        match self {
            RawBlock::U8(c) => if c@.len() == 0 { 0 } else { c@[0]@.len() },
            RawBlock::U16(c) => if c@.len() == 0 { 0 } else { c@[0]@.len() },
            RawBlock::U24(c) => if c@.len() == 0 { 0 } else { c@[0]@.len() },
            RawBlock::U32(c) => if c@.len() == 0 { 0 } else { c@[0]@.len() },
            RawBlock::S8(c) => if c@.len() == 0 { 0 } else { c@[0]@.len() },
            RawBlock::S16(c) => if c@.len() == 0 { 0 } else { c@[0]@.len() },
            RawBlock::S24(c) => if c@.len() == 0 { 0 } else { c@[0]@.len() },
            RawBlock::S32(c) => if c@.len() == 0 { 0 } else { c@[0]@.len() },
            RawBlock::F32(c) => if c@.len() == 0 { 0 } else { c@[0]@.len() },
            RawBlock::F64(c) => if c@.len() == 0 { 0 } else { c@[0]@.len() },
        }
    }

    /// The working-representation channels this block converts to.
    pub open spec fn converted_spec(self) -> Seq<Seq<i32>> {
        match self {
            RawBlock::U8(c) => c@.map_values(|row: Vec<u8>| converted_row(row@)),
            RawBlock::U16(c) => c@.map_values(|row: Vec<u16>| converted_row(row@)),
            RawBlock::U24(c) => c@.map_values(|row: Vec<SampleU24>| converted_row(row@)),
            RawBlock::U32(c) => c@.map_values(|row: Vec<u32>| converted_row(row@)),
            RawBlock::S8(c) => c@.map_values(|row: Vec<i8>| converted_row(row@)),
            RawBlock::S16(c) => c@.map_values(|row: Vec<i16>| converted_row(row@)),
            RawBlock::S24(c) => c@.map_values(|row: Vec<SampleS24>| converted_row(row@)),
            RawBlock::S32(c) => c@.map_values(|row: Vec<i32>| converted_row(row@)),
            RawBlock::F32(c) => c@.map_values(|row: Vec<i32>| converted_row(row@)),
            RawBlock::F64(c) => c@.map_values(|row: Vec<i32>| converted_row(row@)),
        }
    }
}

/// One block of working-representation audio: one buffer per channel, all of
/// the same length, tagged with the rate the source stream plays at.
pub struct SampleBlock {
    /// Per-channel sample buffers in the working representation.
    pub channels: Vec<Vec<i32>>,
    /// The source stream's sample rate, for per-block rate adaptation.
    pub source_rate: u32,
}

/// The sizing of the per-block rate adapter: each decoded block is adapted
/// from its source rate to the fixed target rate at its own frame count and
/// channel layout.
#[derive(Clone, Copy, PartialEq, Eq, Structural, Debug)]
pub struct ResamplerParams {
    pub source_rate: u32,
    pub target_rate: u32,
    pub frame_count: usize,
    pub channel_count: usize,
}

impl SampleBlock {
    /// Every channel carries the same number of frames.
    pub open spec fn wf(self) -> bool {
        uniform_rows(self.channels@)
    }

    pub open spec fn channel_count_spec(self) -> nat {
        self.channels@.len()
    }

    pub open spec fn frame_count_spec(self) -> nat {
        if self.channels@.len() == 0 {
            0
        } else {
            self.channels@[0]@.len()
        }
    }

    /// The number of channels in this block.
    pub fn channel_count(&self) -> (n: usize)
        ensures
            n == self.channel_count_spec(),
    {
        self.channels.len()
    }

    /// The number of frames each channel carries.
    pub fn frame_count(&self) -> (n: usize)
        ensures
            n == self.frame_count_spec(),
    {
        if self.channels.len() == 0 {
            0
        } else {
            self.channels[0].len()
        }
    }

    /// How a rate adapter for this block is to be sized: from the block's
    /// source rate to the fixed target rate, at the block's own frame count
    /// and channel count.
    pub fn resampler_params(&self) -> (p: ResamplerParams)
        ensures
            p.source_rate == self.source_rate,
            p.target_rate == crate::TARGET_SAMPLE_RATE,
            p.frame_count == self.frame_count_spec(),
            p.channel_count == self.channel_count_spec(),
    {
        ResamplerParams {
            source_rate: self.source_rate,
            target_rate: crate::TARGET_SAMPLE_RATE,
            frame_count: self.frame_count(),
            channel_count: self.channel_count(),
        }
    }
}

/// Convert one decoded block to the working representation through the
/// generic conversion path, keeping its shape exactly and tagging it with
/// its source rate.
pub fn convert_block(raw: &RawBlock, source_rate: u32) -> (b: SampleBlock)
    ensures
        b.source_rate == source_rate,
        b.channels@.len() == raw.channel_count_spec(),
        forall|i: int| 0 <= i < raw.channel_count_spec() ==> (#[trigger] b.channels@[i])@
            == raw.converted_spec()[i],
        raw.wf() ==> b.wf(),
        raw.wf() ==> b.frame_count_spec() == raw.frame_count_spec(),
{
    let channels = match raw {
        RawBlock::U8(c) => convert_channels(c),
        RawBlock::U16(c) => convert_channels(c),
        RawBlock::U24(c) => convert_channels(c),
        RawBlock::U32(c) => convert_channels(c),
        RawBlock::S8(c) => convert_channels(c),
        RawBlock::S16(c) => convert_channels(c),
        RawBlock::S24(c) => convert_channels(c),
        RawBlock::S32(c) => convert_channels(c),
        RawBlock::F32(c) => convert_channels(c),
        RawBlock::F64(c) => convert_channels(c),
    };
    SampleBlock { channels, source_rate }
}

/// Sample-shape law: a well-formed decoded block of `k` channels and `n`
/// frames converts to exactly `k` buffers of `n` working samples each,
/// whatever the source encoding.
pub proof fn lemma_sample_shape(raw: RawBlock, k: nat, n: nat)
    requires
        raw.wf(),
        raw.channel_count_spec() == k,
        raw.frame_count_spec() == n,
    ensures
        raw.converted_spec().len() == k,
        forall|i: int| 0 <= i < k ==> (#[trigger] raw.converted_spec()[i]).len() == n,
{
}

} // verus!
