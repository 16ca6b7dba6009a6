//! From decoded pixels to the channel-planar buffer that the network reads.

use vstd::prelude::*;
use vstd::arithmetic::div_mod::*;
use crate::error::HarnessError;

verus! {

/// The channel-planar order of a pixel-interleaved buffer of three
/// channels: all samples of the first channel in pixel order, then all of
/// the second, then all of the third.
pub open spec fn channel_planar(interleaved: Seq<u32>) -> Seq<u32> {
    let plane = (interleaved.len() / 3) as int;
    Seq::new((3 * plane) as nat, |i: int| interleaved[3 * (i % plane) + i / plane])
}

/// In channel-planar order the sample of `channel` at `pixel` stands in the
/// plane of its channel, at the place of its pixel.
pub proof fn lemma_planar_layout(interleaved: Seq<u32>, channel: int, pixel: int)
    requires
        interleaved.len() % 3 == 0,
        0 <= channel < 3,
        0 <= pixel < interleaved.len() / 3,
    ensures
        channel_planar(interleaved).len() == interleaved.len(),
        channel_planar(interleaved)[channel * (interleaved.len() / 3) + pixel] == interleaved[3
            * pixel + channel],
{
    let plane = (interleaved.len() / 3) as int;
    lemma_fundamental_div_mod_converse(channel * plane + pixel, plane, channel, pixel);
    assert(0 <= channel * plane + pixel < 3 * plane) by (nonlinear_arith)
        requires
            0 <= channel < 3,
            0 <= pixel < plane,
    ;
}

/// Reorders the samples of a `width` by `height` frame, given pixel by pixel
/// in row-major order with three samples (red, green, blue) per pixel, into
/// channel-planar order. A buffer of any other length is refused.
pub fn to_channel_planar(interleaved: &Vec<u32>, width: usize, height: usize) -> (planar: Result<
    Vec<u32>,
    HarnessError,
>)
    ensures
        interleaved@.len() == 3 * width * height ==> planar.is_ok(),
        interleaved@.len() != 3 * width * height ==> planar is Err && planar->Err_0
            == HarnessError::ShapeMismatch,
        planar.is_ok() ==> planar.unwrap()@ == channel_planar(interleaved@),
{
    let samples = interleaved.len();
    let plane = match width.checked_mul(height) {
        Some(plane) => plane,
        None => {
            assert(3 * width * height > usize::MAX) by (nonlinear_arith)
                requires
                    width * height > usize::MAX,
            ;
            return Err(HarnessError::ShapeMismatch);
        },
    };
    assert(3 * width * height == 3 * plane) by (nonlinear_arith)
        requires
            plane == width * height,
    ;
    match plane.checked_mul(3) {
        Some(count) => {
            if count != samples {
                return Err(HarnessError::ShapeMismatch);
            }
        },
        None => {
            return Err(HarnessError::ShapeMismatch);
        },
    }
    let mut planar: Vec<u32> = Vec::with_capacity(samples);
    let mut channel: usize = 0;
    while channel < 3
        invariant
            channel <= 3,
            samples == interleaved@.len(),
            samples == 3 * plane,
            planar@.len() == channel * plane,
            forall|i: int|
                0 <= i < planar@.len() ==> planar@[i] == interleaved@[3 * (i % (plane as int)) + i
                    / (plane as int)],
        decreases 3 - channel,
    {
        let mut pixel: usize = 0;
        while pixel < plane
            invariant
                channel < 3,
                pixel <= plane,
                samples == interleaved@.len(),
                samples == 3 * plane,
                planar@.len() == channel * plane + pixel,
                forall|i: int|
                    0 <= i < planar@.len() ==> planar@[i] == interleaved@[3 * (i % (plane as int))
                        + i / (plane as int)],
            decreases plane - pixel,
        {
            proof {
                lemma_fundamental_div_mod_converse(
                    channel * plane + pixel,
                    plane as int,
                    channel as int,
                    pixel as int,
                );
            }
            planar.push(interleaved[3 * pixel + channel]);
            pixel = pixel + 1;
        }
        channel = channel + 1;
        assert(planar@.len() == channel * plane) by (nonlinear_arith)
            requires
                planar@.len() == (channel - 1) * plane + plane,
        ;
    }
    proof {
        assert(interleaved@.len() / 3 == plane);
        assert(planar@ =~= channel_planar(interleaved@));
    }
    Ok(planar)
}

} // verus!
