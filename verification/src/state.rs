//! The recurrent state: the network's memory at four pyramid levels.

use vstd::prelude::*;
use crate::error::HarnessError;
use crate::backend::ShapedTensor;
use crate::profile::{ProfileView, ResolutionProfile};
use crate::shape::{shape_matches, Shape4};

verus! {

/// The shapes that the four recurrent feature maps of a run must keep.
pub type StateShapes = [Shape4; 4];

/// The shapes of the recurrent feature maps under a profile.
pub open spec fn state_shapes(profile: ProfileView) -> Seq<Seq<usize>> {
    Seq::new(4, |level: int| profile.state_shape(level))
}

/// The shapes of a `StateShapes` value, as sequences.
pub open spec fn shapes_view(shapes: StateShapes) -> Seq<Seq<usize>> {
    Seq::new(4, |level: int| shapes@[level]@)
}

/// The shapes that the recurrent feature maps of a run under `profile` keep.
pub fn shapes_for(profile: &ResolutionProfile) -> (shapes: StateShapes)
    ensures
        shapes_view(shapes) == state_shapes(profile@),
{
    let shapes = [
        profile.state_shape(0),
        profile.state_shape(1),
        profile.state_shape(2),
        profile.state_shape(3),
    ];
    assert(shapes_view(shapes) =~= state_shapes(profile@));
    shapes
}

/// The four recurrent feature maps of a run, each with the shape that the
/// run's profile gave it. The maps are owned by the state; a pass takes them
/// out and its results are accepted in their place.
pub struct RecurrentState<T> {
    shapes: StateShapes,
    r1: T,
    r2: T,
    r3: T,
    r4: T,
}

impl<T> RecurrentState<T> {
    /// The shapes that the feature maps have and keep.
    pub closed spec fn shapes(&self) -> Seq<Seq<usize>> {
        shapes_view(self.shapes)
    }

    /// The four feature maps, lowest level first.
    pub closed spec fn tensors(&self) -> Seq<T> {
        seq![self.r1, self.r2, self.r3, self.r4]
    }

    /// Makes a state of four tensors, provided that each has the shape
    /// wanted at its level.
    pub fn accept(
        shapes: StateShapes,
        r1: ShapedTensor<T>,
        r2: ShapedTensor<T>,
        r3: ShapedTensor<T>,
        r4: ShapedTensor<T>,
    ) -> (accepted: Result<RecurrentState<T>, HarnessError>)
        ensures
            accepted.is_ok() <==> seq![r1.shape@, r2.shape@, r3.shape@, r4.shape@] == shapes_view(
                shapes,
            ),
            accepted is Err ==> accepted->Err_0 == HarnessError::ShapeMismatch,
            accepted is Ok ==> accepted->Ok_0.shapes() == shapes_view(shapes)
                && accepted->Ok_0.tensors() == seq![r1.tensor, r2.tensor, r3.tensor, r4.tensor],
    {
        let ghost reported = seq![r1.shape@, r2.shape@, r3.shape@, r4.shape@];
        let same = shape_matches(&r1.shape, &shapes[0]) && shape_matches(&r2.shape, &shapes[1])
            && shape_matches(&r3.shape, &shapes[2]) && shape_matches(&r4.shape, &shapes[3]);
        if same {
            assert(reported =~= shapes_view(shapes));
            Ok(RecurrentState { shapes, r1: r1.tensor, r2: r2.tensor, r3: r3.tensor, r4: r4.tensor })
        } else {
            assert(reported != shapes_view(shapes)) by {
                if reported == shapes_view(shapes) {
                    assert(reported[0] == shapes_view(shapes)[0]);
                    assert(reported[1] == shapes_view(shapes)[1]);
                    assert(reported[2] == shapes_view(shapes)[2]);
                    assert(reported[3] == shapes_view(shapes)[3]);
                }
            }
            Err(HarnessError::ShapeMismatch)
        }
    }

    /// Gives the four feature maps up for the next pass, together with the
    /// shapes that the results of that pass must have.
    pub fn release(self) -> (released: (StateShapes, T, T, T, T))
        ensures
            shapes_view(released.0) == self.shapes(),
            seq![released.1, released.2, released.3, released.4] == self.tensors(),
    {
        (self.shapes, self.r1, self.r2, self.r3, self.r4)
    }

    /// The shape of the feature map at `level`.
    pub fn shape(&self, level: usize) -> (shape: Shape4)
        requires
            level < 4,
        ensures
            shape@ == self.shapes()[level as int],
    {
        self.shapes[level]
    }

    /// The four feature maps, lowest level first.
    pub fn into_tensors(self) -> (tensors: (T, T, T, T))
        ensures
            seq![tensors.0, tensors.1, tensors.2, tensors.3] == self.tensors(),
    {
        (self.r1, self.r2, self.r3, self.r4)
    }
}

} // verus!
