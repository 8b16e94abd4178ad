use vstd::prelude::*;

verus! {

/// The error codes of an image classification, in their stable numeric order.
#[derive(Clone, Copy, Debug, PartialEq, Eq, Structural)]
pub enum PeCoffImageError {
    ImageErrorSuccess,
    ImageErrorImageRead,
    ImageErrorInvalidPeHeaderSignature,
    ImageErrorInvalidMachineType,
    ImageErrorInvalidSubsystem,
    ImageErrorInvalidImageAddress,
    ImageErrorInvalidImageSize,
    ImageErrorInvalidSectionAlignment,
    ImageErrorSectionNotLoaded,
    ImageErrorFailedRelocation,
    ImageErrorFailedIcacheFlush,
    ImageErrorUnsupported,
}

impl PeCoffImageError {
    /// The stable numeric code of the error, counted from zero for success.
    pub open spec fn spec_code(self) -> u32 {
        match self {
            PeCoffImageError::ImageErrorSuccess => 0,
            PeCoffImageError::ImageErrorImageRead => 1,
            PeCoffImageError::ImageErrorInvalidPeHeaderSignature => 2,
            PeCoffImageError::ImageErrorInvalidMachineType => 3,
            PeCoffImageError::ImageErrorInvalidSubsystem => 4,
            PeCoffImageError::ImageErrorInvalidImageAddress => 5,
            PeCoffImageError::ImageErrorInvalidImageSize => 6,
            PeCoffImageError::ImageErrorInvalidSectionAlignment => 7,
            PeCoffImageError::ImageErrorSectionNotLoaded => 8,
            PeCoffImageError::ImageErrorFailedRelocation => 9,
            PeCoffImageError::ImageErrorFailedIcacheFlush => 10,
            PeCoffImageError::ImageErrorUnsupported => 11,
        }
    }

    pub fn code(self) -> (r: u32)
        ensures
            r == self.spec_code(),
    {
        match self {
            PeCoffImageError::ImageErrorSuccess => 0,
            PeCoffImageError::ImageErrorImageRead => 1,
            PeCoffImageError::ImageErrorInvalidPeHeaderSignature => 2,
            PeCoffImageError::ImageErrorInvalidMachineType => 3,
            PeCoffImageError::ImageErrorInvalidSubsystem => 4,
            PeCoffImageError::ImageErrorInvalidImageAddress => 5,
            PeCoffImageError::ImageErrorInvalidImageSize => 6,
            PeCoffImageError::ImageErrorInvalidSectionAlignment => 7,
            PeCoffImageError::ImageErrorSectionNotLoaded => 8,
            PeCoffImageError::ImageErrorFailedRelocation => 9,
            PeCoffImageError::ImageErrorFailedIcacheFlush => 10,
            PeCoffImageError::ImageErrorUnsupported => 11,
        }
    }
}

impl From<goblin::error::Error> for PeCoffImageError {
    /// A decoder error that the classifier's own checks did not catch is a
    /// format this layer does not handle.
    fn from(_err: goblin::error::Error) -> Self {
        PeCoffImageError::ImageErrorUnsupported
    }
}

impl vstd::std_specs::convert::FromSpecImpl<goblin::error::Error> for PeCoffImageError {
    open spec fn obeys_from_spec() -> bool {
        true
    }

    open spec fn from_spec(v: goblin::error::Error) -> Self {
        PeCoffImageError::ImageErrorUnsupported
    }
}

} // verus!
