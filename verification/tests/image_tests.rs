use matting_bench::clock::latency_sample;
use matting_bench::error::HarnessError;
use matting_bench::postprocess::{quantize, render_matte};
use matting_bench::preprocess::to_channel_planar;

fn exact_level(value: f32) -> u8 {
    if value.is_nan() || value <= 0.0 {
        0
    } else if value >= 1.0 {
        255
    } else {
        ((value as f64) * 255.0 + 0.5).floor() as u8
    }
}

#[test]
fn out_of_range_samples_are_clamped() {
    assert_eq!(quantize((-0.5f32).to_bits()), 0);
    assert_eq!(quantize(1.7f32.to_bits()), 255);
    assert_eq!(quantize((-1.0e30f32).to_bits()), 0);
    assert_eq!(quantize(1.0e30f32.to_bits()), 255);
    assert_eq!(quantize(f32::NEG_INFINITY.to_bits()), 0);
    assert_eq!(quantize(f32::INFINITY.to_bits()), 255);
    assert_eq!(quantize(f32::MIN.to_bits()), 0);
    assert_eq!(quantize(f32::MAX.to_bits()), 255);
}

#[test]
fn range_ends_map_to_black_and_white() {
    assert_eq!(quantize(0.0f32.to_bits()), 0);
    assert_eq!(quantize((-0.0f32).to_bits()), 0);
    assert_eq!(quantize(1.0f32.to_bits()), 255);
}

#[test]
fn half_becomes_128() {
    assert_eq!(quantize(0.5f32.to_bits()), 128);
}

#[test]
fn levels_are_rounded_to_the_nearest() {
    assert_eq!(quantize(0.25f32.to_bits()), 64);
    assert_eq!(quantize(0.75f32.to_bits()), 191);
    assert_eq!(quantize(0.001f32.to_bits()), 0);
    assert_eq!(quantize(0.002f32.to_bits()), 1);
    assert_eq!(quantize(0.9999f32.to_bits()), 255);
    assert_eq!(quantize(0.998f32.to_bits()), 254);
    assert_eq!(quantize(0.1f32.to_bits()), 26);
}

#[test]
fn not_a_number_becomes_black() {
    assert_eq!(quantize(f32::NAN.to_bits()), 0);
    assert_eq!(quantize(0x7FC0_0001), 0);
    assert_eq!(quantize(0xFFC0_0000), 0);
    assert_eq!(quantize(0x7F80_0001), 0);
}

#[test]
fn tiny_samples_become_black() {
    assert_eq!(quantize(f32::MIN_POSITIVE.to_bits()), 0);
    assert_eq!(quantize(1), 0);
    assert_eq!(quantize(0x007F_FFFF), 0);
    assert_eq!(quantize(1.0e-10f32.to_bits()), 0);
}

#[test]
fn quantize_agrees_with_exact_arithmetic() {
    let mut bits: u32 = 0x3000_0000;
    while bits <= 0x3F80_0100 {
        assert_eq!(quantize(bits), exact_level(f32::from_bits(bits)), "bits {:#x}", bits);
        bits += 7919;
    }
    for level in 0..255u32 {
        let edge = ((level as f32) + 0.5) / 255.0;
        for step in 0..5u32 {
            let near = edge.to_bits() - 2 + step;
            assert_eq!(quantize(near), exact_level(f32::from_bits(near)));
        }
    }
}

#[test]
fn quantize_never_decreases_on_non_negative_samples() {
    let mut bits: u32 = 0;
    let mut last = 0u8;
    while bits < 0x7F80_0000 {
        let level = quantize(bits);
        assert!(level >= last);
        last = level;
        bits += 65_521;
    }
    assert_eq!(last, 255);
}

#[test]
fn render_matte_quantizes_row_by_row() {
    let alpha: Vec<u32> = [0.0f32, 0.5, 1.0, -0.5, 1.7, 0.25]
        .iter()
        .map(|v| v.to_bits())
        .collect();
    let image = render_matte(&alpha, 3, 2).expect("an image");
    assert_eq!(image.width, 3);
    assert_eq!(image.height, 2);
    assert_eq!(image.pixels, vec![0, 128, 255, 0, 255, 64]);
}

#[test]
fn render_matte_refuses_a_wrong_length() {
    let alpha = vec![0u32; 5];
    assert_eq!(render_matte(&alpha, 3, 2).err(), Some(HarnessError::ShapeMismatch));
    assert_eq!(render_matte(&alpha, 2, 2).err(), Some(HarnessError::ShapeMismatch));
    assert_eq!(
        render_matte(&alpha, usize::MAX, 2).err(),
        Some(HarnessError::ShapeMismatch)
    );
}

#[test]
fn render_matte_of_nothing_is_empty() {
    let image = render_matte(&Vec::new(), 0, 7).expect("an image");
    assert_eq!(image.width, 0);
    assert_eq!(image.height, 7);
    assert!(image.pixels.is_empty());
}

#[test]
fn planar_order_puts_each_channel_in_its_plane() {
    // Two pixels wide, one high: r0 g0 b0 r1 g1 b1.
    let interleaved = vec![10, 20, 30, 11, 21, 31];
    let planar = to_channel_planar(&interleaved, 2, 1).expect("a buffer");
    assert_eq!(planar, vec![10, 11, 20, 21, 30, 31]);
}

#[test]
fn planar_order_of_a_two_by_two_frame() {
    let interleaved: Vec<u32> = (0..12).collect();
    let planar = to_channel_planar(&interleaved, 2, 2).expect("a buffer");
    assert_eq!(planar, vec![0, 3, 6, 9, 1, 4, 7, 10, 2, 5, 8, 11]);
}

#[test]
fn planar_order_follows_the_layout_rule() {
    let width = 5usize;
    let height = 4usize;
    let interleaved: Vec<u32> = (0..(3 * width * height) as u32).map(|i| i * 3 + 1).collect();
    let planar = to_channel_planar(&interleaved, width, height).expect("a buffer");
    assert_eq!(planar.len(), interleaved.len());
    for channel in 0..3 {
        for pixel in 0..width * height {
            assert_eq!(planar[channel * width * height + pixel], interleaved[3 * pixel + channel]);
        }
    }
}

#[test]
fn planar_order_refuses_a_wrong_length() {
    let interleaved = vec![0u32; 11];
    assert_eq!(
        to_channel_planar(&interleaved, 2, 2).err(),
        Some(HarnessError::ShapeMismatch)
    );
    assert_eq!(
        to_channel_planar(&interleaved, usize::MAX, usize::MAX).err(),
        Some(HarnessError::ShapeMismatch)
    );
    assert_eq!(
        to_channel_planar(&interleaved, usize::MAX / 2, 2).err(),
        Some(HarnessError::ShapeMismatch)
    );
}

#[test]
fn planar_order_of_an_empty_frame_is_empty() {
    assert_eq!(to_channel_planar(&Vec::new(), 0, 3), Ok(Vec::new()));
}

#[test]
fn latency_sample_saturates() {
    assert_eq!(latency_sample(0), 0);
    assert_eq!(latency_sample(1_234_567), 1_234_567);
    assert_eq!(latency_sample(u64::MAX as u128), u64::MAX);
    assert_eq!(latency_sample(u64::MAX as u128 + 1), u64::MAX);
    assert_eq!(latency_sample(u128::MAX), u64::MAX);
}
