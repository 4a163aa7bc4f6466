//! Memory handed to the host kernel at boot.
use vstd::prelude::*;

verus! {

/// Top of the host kernel's boot stack.
pub const KERNEL_STACK_TOP: u64 = 0x0009_0000;

/// The kernel stack: a fixed region below 640 KiB.
pub fn allocate_kernel_stack() -> (r: Result<u64, &'static str>)
    ensures
        r == Ok::<u64, &'static str>(KERNEL_STACK_TOP),
{
    Ok(KERNEL_STACK_TOP)
}

} // verus!
