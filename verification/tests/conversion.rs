use audiostream::samples::{
    convert_block, convert_channels, RawBlock, SampleS24, SampleU24, SourceSample,
};

#[test]
fn u8_conversion_exact() {
    assert_eq!(128u8.to_working(), 0);
    assert_eq!(0u8.to_working(), -2_147_483_648);
    assert_eq!(200u8.to_working(), 72 * 16_777_216);
    assert_eq!(255u8.to_working(), 127 * 16_777_216);
}

#[test]
fn s8_conversion_exact() {
    assert_eq!(0i8.to_working(), 0);
    assert_eq!((-128i8).to_working(), -2_147_483_648);
    assert_eq!((-5i8).to_working(), -5 * 16_777_216);
    assert_eq!(127i8.to_working(), 127 * 16_777_216);
}

#[test]
fn u16_conversion_exact() {
    assert_eq!(32_768u16.to_working(), 0);
    assert_eq!(0u16.to_working(), -2_147_483_648);
    assert_eq!(40_000u16.to_working(), 7_232 * 65_536);
}

#[test]
fn s16_conversion_exact() {
    assert_eq!(0i16.to_working(), 0);
    assert_eq!(1_000i16.to_working(), 65_536_000);
    assert_eq!((-32_768i16).to_working(), -2_147_483_648);
}

#[test]
fn u24_conversion_exact() {
    assert_eq!(SampleU24(0x80_0000).to_working(), 0);
    assert_eq!(SampleU24(0).to_working(), -2_147_483_648);
    assert_eq!(SampleU24(0x90_0000).to_working(), 0x10_0000 * 256);
    // Storage above the 24-bit range saturates to full scale.
    assert_eq!(SampleU24(0x1FF_FFFF).to_working(), 0x7F_FFFF * 256);
}

#[test]
fn s24_conversion_exact() {
    assert_eq!(SampleS24(0).to_working(), 0);
    assert_eq!(SampleS24(-4_096).to_working(), -4_096 * 256);
    assert_eq!(SampleS24(0x7F_FFFF).to_working(), 0x7F_FFFF * 256);
    // Storage outside the 24-bit range saturates to full scale.
    assert_eq!(SampleS24(0x0100_0000).to_working(), 0x7F_FFFF * 256);
    assert_eq!(SampleS24(-0x0100_0000).to_working(), -0x80_0000 * 256);
}

#[test]
fn u32_conversion_exact() {
    assert_eq!(0x8000_0000u32.to_working(), 0);
    assert_eq!(0u32.to_working(), -2_147_483_648);
    assert_eq!(3_000_000_000u32.to_working(), 852_516_352);
}

#[test]
fn s32_conversion_identity() {
    assert_eq!(0i32.to_working(), 0);
    assert_eq!(123_456_789i32.to_working(), 123_456_789);
    assert_eq!((-2_147_483_648i32).to_working(), -2_147_483_648);
}

#[test]
fn quantization_error_within_bounds() {
    // Converting a value to the full-scale working representation keeps it
    // within its encoding's quantization error of the ideal ratio.
    let full: f64 = 2_147_483_648.0;
    let w8 = 200u8.to_working() as f64 / full;
    assert!((w8 - (200.0 - 128.0) / 128.0).abs() < 1.0 / 128.0);
    let w16 = 1_000i16.to_working() as f64 / full;
    assert!((w16 - 1_000.0 / 32_768.0).abs() < 1.0 / 32_768.0);
    let w24 = SampleS24(-4_096).to_working() as f64 / full;
    assert!((w24 - (-4_096.0 / 8_388_608.0)).abs() < 1.0 / 8_388_608.0);
}

#[test]
fn convert_channels_keeps_shape() {
    let chans: Vec<Vec<i16>> = vec![vec![1, 2, 3], vec![4, 5, 6]];
    let out = convert_channels(&chans);
    assert_eq!(out.len(), 2);
    assert_eq!(out[0], vec![65_536, 131_072, 196_608]);
    assert_eq!(out[1], vec![262_144, 327_680, 393_216]);
}

#[test]
fn convert_block_every_encoding_keeps_shape() {
    let blocks = vec![
        RawBlock::U8(vec![vec![1, 2], vec![3, 4], vec![5, 6]]),
        RawBlock::U16(vec![vec![1, 2], vec![3, 4], vec![5, 6]]),
        RawBlock::U24(vec![
            vec![SampleU24(1), SampleU24(2)],
            vec![SampleU24(3), SampleU24(4)],
            vec![SampleU24(5), SampleU24(6)],
        ]),
        RawBlock::U32(vec![vec![1, 2], vec![3, 4], vec![5, 6]]),
        RawBlock::S8(vec![vec![1, 2], vec![3, 4], vec![5, 6]]),
        RawBlock::S16(vec![vec![1, 2], vec![3, 4], vec![5, 6]]),
        RawBlock::S24(vec![
            vec![SampleS24(1), SampleS24(2)],
            vec![SampleS24(3), SampleS24(4)],
            vec![SampleS24(5), SampleS24(6)],
        ]),
        RawBlock::S32(vec![vec![1, 2], vec![3, 4], vec![5, 6]]),
        RawBlock::F32(vec![vec![1, 2], vec![3, 4], vec![5, 6]]),
        RawBlock::F64(vec![vec![1, 2], vec![3, 4], vec![5, 6]]),
    ];
    for raw in blocks {
        let block = convert_block(&raw, 44_100);
        assert_eq!(block.channel_count(), 3);
        assert_eq!(block.frame_count(), 2);
        for chan in &block.channels {
            assert_eq!(chan.len(), 2);
        }
    }
}

#[test]
fn convert_block_converts_values() {
    let raw = RawBlock::U8(vec![vec![128, 200], vec![0, 255]]);
    let block = convert_block(&raw, 8_000);
    assert_eq!(block.source_rate, 8_000);
    assert_eq!(block.channels[0], vec![0, 72 * 16_777_216]);
    assert_eq!(block.channels[1], vec![-2_147_483_648, 127 * 16_777_216]);
}

#[test]
fn float_rows_pass_through_unchanged() {
    // Float sources arrive already in the working representation; the
    // conversion path must keep them exactly.
    let raw = RawBlock::F32(vec![vec![7, -9], vec![11, 13]]);
    let block = convert_block(&raw, 48_000);
    assert_eq!(block.channels, vec![vec![7, -9], vec![11, 13]]);
}

#[test]
fn resampler_params_sized_per_block() {
    let raw = RawBlock::S16(vec![vec![0, 0, 0, 0], vec![0, 0, 0, 0]]);
    let block = convert_block(&raw, 8_000);
    let params = block.resampler_params();
    assert_eq!(params.source_rate, 8_000);
    assert_eq!(params.target_rate, 44_100);
    assert_eq!(params.frame_count, 4);
    assert_eq!(params.channel_count, 2);
}
