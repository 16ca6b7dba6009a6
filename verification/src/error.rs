//! The failure kinds of a run.

use vstd::prelude::*;

verus! {

/// Why a backend/profile combination could not be completed.
#[derive(Clone, Copy, Debug, PartialEq, Eq, Structural, Hash)]
pub enum HarnessError {
    /// A resolution profile whose dimensions disagree with the network's
    /// downsampling factors.
    Configuration,
    /// The backend could not provide its default device.
    Device,
    /// A buffer or tensor whose extent disagrees with the shape it must have.
    ShapeMismatch,
    /// The forward pass itself failed.
    Compute,
    /// An image could not be read or written.
    Io,
}

impl HarnessError {
    /// Whether the failure is a programming or configuration mistake, which
    /// is reported before any pass runs, rather than a fault of one run.
    pub open spec fn spec_is_fail_fast(self) -> bool {
        self == HarnessError::Configuration || self == HarnessError::ShapeMismatch
    }

    /// The name under which the failure kind is reported.
    pub open spec fn spec_kind_name(self) -> Seq<char> {
        match self {
            HarnessError::Configuration => "ConfigurationError"@,
            HarnessError::Device => "DeviceError"@,
            HarnessError::ShapeMismatch => "ShapeMismatchError"@,
            HarnessError::Compute => "ComputeError"@,
            HarnessError::Io => "IOError"@,
        }
    }

    #[verifier::when_used_as_spec(spec_is_fail_fast)]
    pub fn is_fail_fast(self) -> (b: bool)
        ensures
            b == self.spec_is_fail_fast(),
    {
        match self {
            HarnessError::Configuration => true,
            HarnessError::ShapeMismatch => true,
            _ => false,
        }
    }

    pub fn kind_name(self) -> (name: &'static str)
        ensures
            name@ == self.spec_kind_name(),
    {
        match self {
            HarnessError::Configuration => "ConfigurationError",
            HarnessError::Device => "DeviceError",
            HarnessError::ShapeMismatch => "ShapeMismatchError",
            HarnessError::Compute => "ComputeError",
            HarnessError::Io => "IOError",
        }
    }
}

} // verus!
