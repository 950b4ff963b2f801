//! The size of the alternate stack on which a signal is handled.

use vstd::prelude::*;

verus! {

/// The least size of the alternate stack. The memory is only touched when a
/// signal actually arrives, so a generous size costs nothing.
pub const MIN_STACK_SIZE: usize = 16384;

/// The size to give the alternate stack where the platform asks for at least
/// `platform_minimum` bytes: the larger of that and [`MIN_STACK_SIZE`].
pub open spec fn spec_alternate_stack_size(platform_minimum: usize) -> usize {
    if platform_minimum > MIN_STACK_SIZE {
        platform_minimum
    } else {
        MIN_STACK_SIZE
    }
}

/// The size to give the alternate stack where the platform asks for at least
/// `platform_minimum` bytes. A handler runs on this stack also when the
/// thread's own stack is exhausted.
pub fn alternate_stack_size(platform_minimum: usize) -> (size: usize)
    ensures
        size == spec_alternate_stack_size(platform_minimum),
        size >= platform_minimum,
        size >= MIN_STACK_SIZE,
{
    if platform_minimum > MIN_STACK_SIZE {
        platform_minimum
    } else {
        MIN_STACK_SIZE
    }
}

} // verus!
