//! Result codes handed back across the kernel's call boundaries.

use vstd::prelude::*;

verus! {

/// Outcome of a kernel operation. `SuccessWithValue` carries a 32-bit
/// payload (a tick count, a frequency, a probe answer). The error
/// variants cover the failures this core reports: an operation repeated
/// when already done (`EAlready`), an unknown request (`ENoSupport`),
/// and a per-process record that cannot be reached (`ENoMem`).
#[derive(Clone, Copy, Debug, PartialEq, Eq, Structural)]
pub enum ReturnCode {
    Success,
    SuccessWithValue(u32),
    EAlready,
    ENoSupport,
    ENoMem,
}

} // verus!
