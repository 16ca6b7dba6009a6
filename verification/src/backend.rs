//! What the harness needs from a tensor-computation backend.

use vstd::prelude::*;
use crate::error::HarnessError;
use crate::shape::Shape4;

verus! {

/// What one forward pass returns: the foreground, the matte, and the four
/// recurrent feature maps for the next pass.
pub struct ForwardResult<T> {
    pub foreground: T,
    pub alpha: T,
    pub r1: T,
    pub r2: T,
    pub r3: T,
    pub r4: T,
}

/// A tensor together with the shape that its backend reported for it.
pub struct ShapedTensor<T> {
    pub tensor: T,
    pub shape: Vec<usize>,
}

/// A backend that can hold tensors and run the network on them. The harness
/// relies on nothing that an implementation returns: it checks every shape
/// and every length itself, and hands every failure on.
pub trait TensorBackend {
    /// The handle of a compute device.
    type Device;

    /// The network with its parameters.
    type Model;

    /// A tensor on a device.
    type Tensor;

    /// The device that the backend uses when none is chosen.
    fn default_device(&mut self) -> Result<Self::Device, HarnessError>;

    /// The network, with its fixed parameters, on a device.
    fn load_model(&mut self, device: &Self::Device) -> Result<Self::Model, HarnessError>;

    /// A tensor of the given shape, filled with zeros.
    fn zeros(&mut self, shape: Shape4, device: &Self::Device) -> Result<
        Self::Tensor,
        HarnessError,
    >;

    /// A tensor of one dimension that holds the given samples.
    fn from_flat(&mut self, values: &Vec<u32>, device: &Self::Device) -> Result<
        Self::Tensor,
        HarnessError,
    >;

    /// The same samples under another shape of as many elements.
    fn reshape(&mut self, tensor: Self::Tensor, shape: Shape4) -> Result<
        Self::Tensor,
        HarnessError,
    >;

    /// One forward pass of the network. It returns only when its results
    /// can be read from the host.
    fn forward(
        &mut self,
        model: &Self::Model,
        source: Self::Tensor,
        r1: Self::Tensor,
        r2: Self::Tensor,
        r3: Self::Tensor,
        r4: Self::Tensor,
        downsample_ratio: Self::Tensor,
    ) -> Result<ForwardResult<Self::Tensor>, HarnessError>;

    /// The samples of a tensor in row-major order.
    fn to_host(&mut self, tensor: Self::Tensor) -> Result<Vec<u32>, HarnessError>;

    /// The extents of a tensor.
    fn shape_of(&mut self, tensor: &Self::Tensor) -> Vec<usize>;
}

/// Asks the backend for the shape of a tensor and keeps the answer with it.
pub fn with_shape<B: TensorBackend>(backend: &mut B, tensor: B::Tensor) -> (shaped: ShapedTensor<
    B::Tensor,
>)
    ensures
        shaped.tensor == tensor,
{
    let shape = backend.shape_of(&tensor);
    ShapedTensor { tensor, shape }
}

} // verus!
