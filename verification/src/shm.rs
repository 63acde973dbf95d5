use vstd::prelude::*;

verus! {

/// The error number of a device with no space left.
pub const NO_SPACE: i32 = 28;

/// Whether a view of `requested` bytes fits in a mapping of `size` bytes.
#[verifier::allow_in_spec]
pub fn view_fits(requested: usize, size: usize) -> bool
    returns
        requested <= size,
{
    requested <= size
}

/// What a failed attempt to back a shared memory file comes to.
#[derive(Clone, Copy, Debug, PartialEq, Eq, Structural)]
pub enum AllocationFailure {
    /// The device is full: the segment cannot be made.
    Fatal,
    /// The way of backing the file is not available: the next one is tried,
    /// and the file is used as it is when none is left.
    TryNext,
}

/// A full device is fatal; any other failure to back the file moves on.
#[verifier::allow_in_spec]
pub fn allocation_failure(errno: i32) -> AllocationFailure
    requires
        errno != 0,
    returns
        (if errno == NO_SPACE { AllocationFailure::Fatal } else { AllocationFailure::TryNext }),
{
    if errno == NO_SPACE {
        AllocationFailure::Fatal
    } else {
        AllocationFailure::TryNext
    }
}

} // verus!
