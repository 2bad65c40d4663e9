//! Sizes shared by the host and the guest.

use vstd::prelude::*;

verus! {

/// Size in bytes of one page of the function input buffer.
pub const FUNCTION_INPUT_BUFFER_SIZE: usize = 8192;

/// Size in bytes of one page of the I/O buffer.
pub const IO_BUFFER_SIZE_BYTES: usize = 32768;

} // verus!
