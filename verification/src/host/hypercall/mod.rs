//! Hypercall entry of the host kernel.
use vstd::prelude::*;

pub mod hypercall;

verus! {

/// The hypercall entry: every call currently completes with 0.
pub fn handle_hypercall(call_id: u64, _arg1: u64, _arg2: u64) -> (r: u64)
    ensures
        r == 0,
{
    match call_id {
        _ => 0,
    }
}

} // verus!
