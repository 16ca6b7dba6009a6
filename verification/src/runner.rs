//! One run of the harness: a backend, a profile, a frame, and the passes.

use vstd::prelude::*;
use crate::backend::{with_shape, ForwardResult, TensorBackend};
use crate::bench::LatencyReport;
use crate::clock::{elapsed_since, latency_sample, start_timer, whole_nanos};
use crate::error::HarnessError;
use crate::inference::{Disposition, InferenceLoop, Phase};
use crate::postprocess::{render_matte, MatteImage};
use crate::preprocess::to_channel_planar;
use crate::profile::ResolutionProfile;
use crate::state::{shapes_for, state_shapes, RecurrentState};

verus! {

/// The network's downsampling control: the bit pattern of the number one.
pub const DOWNSAMPLE_RATIO: u32 = 0x3F80_0000;

/// What one pass leaves behind: the state for the next pass, the matte, and
/// the latency of the forward call.
pub struct PassResult<T> {
    pub state: RecurrentState<T>,
    pub alpha: T,
    pub elapsed_nanos: u64,
}

/// What a finished run leaves behind: the report of its measured passes, the
/// image of the matte of its last measured pass (absent when no pass was
/// measured), and the recurrent state after its last pass.
pub struct RunOutcome<T> {
    pub report: LatencyReport,
    pub matte: Option<MatteImage>,
    pub state: RecurrentState<T>,
}

/// Runs one forward pass on the current state and puts the four feature
/// maps that it returns in the place of those that it consumed. The clock is
/// read directly before and directly after the forward call. Whatever the
/// backend returns, the state that comes back has the shapes of the state
/// that went in; results of any other shape are refused.
pub fn run_pass<B: TensorBackend>(
    backend: &mut B,
    model: &B::Model,
    state: RecurrentState<B::Tensor>,
    source: B::Tensor,
    downsample_ratio: B::Tensor,
) -> (passed: Result<PassResult<B::Tensor>, HarnessError>)
    ensures
        passed is Ok ==> passed->Ok_0.state.shapes() == state.shapes(),
{
    let (shapes, r1, r2, r3, r4) = state.release();
    let start = start_timer();
    let forwarded = backend.forward(model, source, r1, r2, r3, r4, downsample_ratio);
    let span = elapsed_since(&start);
    let elapsed_nanos = latency_sample(whole_nanos(&span));
    let result = match forwarded {
        Ok(result) => result,
        Err(failure) => {
            return Err(failure);
        },
    };
    let ForwardResult { foreground: _, alpha, r1, r2, r3, r4 } = result;
    let r1 = with_shape(backend, r1);
    let r2 = with_shape(backend, r2);
    let r3 = with_shape(backend, r3);
    let r4 = with_shape(backend, r4);
    match RecurrentState::accept(shapes, r1, r2, r3, r4) {
        Ok(state) => Ok(PassResult { state, alpha, elapsed_nanos }),
        Err(failure) => Err(failure),
    }
}

/// The recurrent state at the beginning of a run: four tensors of zeros with
/// the shapes of the profile.
pub fn initial_state<B: TensorBackend>(
    backend: &mut B,
    device: &B::Device,
    profile: &ResolutionProfile,
) -> (made: Result<RecurrentState<B::Tensor>, HarnessError>)
    ensures
        made is Ok ==> made->Ok_0.shapes() == state_shapes(profile@),
{
    let shapes = shapes_for(profile);
    let r1 = match backend.zeros(shapes[0], device) {
        Ok(tensor) => with_shape(backend, tensor),
        Err(failure) => {
            return Err(failure);
        },
    };
    let r2 = match backend.zeros(shapes[1], device) {
        Ok(tensor) => with_shape(backend, tensor),
        Err(failure) => {
            return Err(failure);
        },
    };
    let r3 = match backend.zeros(shapes[2], device) {
        Ok(tensor) => with_shape(backend, tensor),
        Err(failure) => {
            return Err(failure);
        },
    };
    let r4 = match backend.zeros(shapes[3], device) {
        Ok(tensor) => with_shape(backend, tensor),
        Err(failure) => {
            return Err(failure);
        },
    };
    RecurrentState::accept(shapes, r1, r2, r3, r4)
}

/// What holds of the outcome of a run of `measured` passes over a frame of
/// `width` by `height` pixels.
pub open spec fn outcome_fits<T>(
    outcome: RunOutcome<T>,
    shapes: Seq<Seq<usize>>,
    width: nat,
    height: nat,
    measured: nat,
) -> bool {
    &&& outcome.report.samples == measured
    &&& outcome.report.mean_ms.is_some() == (measured > 0)
    &&& outcome.matte.is_some() == (measured > 0)
    &&& outcome.matte.is_some() ==> {
        &&& outcome.matte.unwrap().width == width
        &&& outcome.matte.unwrap().height == height
        &&& outcome.matte.unwrap().pixels@.len() == width * height
    }
    &&& outcome.state.shapes() == shapes
}

/// Runs the network `measured + 1` times on one frame: a warm-up pass, whose
/// latency and matte are dropped, and `measured` passes whose latencies are
/// recorded. `pixels` holds the frame pixel by pixel, three samples each.
///
/// A frame whose length is not that of the profile is refused before the
/// backend is touched. Every failure of the backend ends the run and is
/// handed on. Whatever the backend returns, a run that succeeds has recorded
/// exactly `measured` latencies, carries the matte of the last measured pass
/// if there was one, and ends with a state of the profile's shapes.
pub fn run<B: TensorBackend>(
    backend: &mut B,
    profile: &ResolutionProfile,
    pixels: &Vec<u32>,
    measured: u64,
) -> (outcome: Result<RunOutcome<B::Tensor>, HarnessError>)
    ensures
        pixels@.len() != 3 * profile@.source_width * profile@.source_height ==> outcome is Err
            && outcome->Err_0 == HarnessError::ShapeMismatch,
        outcome is Ok ==> outcome_fits(
            outcome->Ok_0,
            state_shapes(profile@),
            profile@.source_width,
            profile@.source_height,
            measured as nat,
        ),
{
    let width = profile.source_width();
    let height = profile.source_height();
    let frame = match to_channel_planar(pixels, width, height) {
        Ok(frame) => frame,
        Err(failure) => {
            return Err(failure);
        },
    };
    let device = match backend.default_device() {
        Ok(device) => device,
        Err(failure) => {
            return Err(failure);
        },
    };
    let model = match backend.load_model(&device) {
        Ok(model) => model,
        Err(failure) => {
            return Err(failure);
        },
    };
    let mut state = match initial_state(backend, &device, profile) {
        Ok(state) => state,
        Err(failure) => {
            return Err(failure);
        },
    };
    let mut ratio: Vec<u32> = Vec::new();
    ratio.push(DOWNSAMPLE_RATIO);
    let mut progress = InferenceLoop::new(measured);
    let mut matte: Option<MatteImage> = None;
    loop
        invariant
            pixels@.len() == 3 * profile@.source_width * profile@.source_height,
            width == profile@.source_width,
            height == profile@.source_height,
            progress@.planned == measured,
            progress@.well_formed(),
            state.shapes() == state_shapes(profile@),
            matte.is_some() == (measured > 0 && progress@.passes == measured + 1),
            matte.is_some() ==> {
                &&& matte.unwrap().width == width
                &&& matte.unwrap().height == height
                &&& matte.unwrap().pixels@.len() == width * height
            },
        ensures
            progress@.phase() == Phase::Done,
        decreases measured + 1 - progress@.passes,
    {
        match progress.phase() {
            Phase::Done => {
                break ;
            },
            _ => {},
        }
        let flat = match backend.from_flat(&frame, &device) {
            Ok(flat) => flat,
            Err(failure) => {
                return Err(failure);
            },
        };
        let source = match backend.reshape(flat, profile.frame_shape()) {
            Ok(source) => source,
            Err(failure) => {
                return Err(failure);
            },
        };
        let downsample_ratio = match backend.from_flat(&ratio, &device) {
            Ok(tensor) => tensor,
            Err(failure) => {
                return Err(failure);
            },
        };
        let passed = match run_pass(backend, &model, state, source, downsample_ratio) {
            Ok(passed) => passed,
            Err(failure) => {
                return Err(failure);
            },
        };
        let PassResult { state: next, alpha, elapsed_nanos } = passed;
        state = next;
        match progress.complete_pass(elapsed_nanos) {
            Disposition::RecordAndEmit => {
                let host = match backend.to_host(alpha) {
                    Ok(host) => host,
                    Err(failure) => {
                        return Err(failure);
                    },
                };
                let image = match render_matte(&host, width, height) {
                    Ok(image) => image,
                    Err(failure) => {
                        return Err(failure);
                    },
                };
                matte = Some(image);
            },
            _ => {},
        }
    }
    let report = progress.report();
    Ok(RunOutcome { report, matte, state })
}

} // verus!
