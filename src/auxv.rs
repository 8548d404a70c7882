//! The hardware-capability entries of the ELF auxiliary vector.
//!
//! The auxiliary vector is a list of (key, value) pairs that the kernel
//! hands to a process. The CPU's hardware capabilities stand under the
//! `AT_HWCAP` and `AT_HWCAP2` keys. Reading them is the caller's part (libc's
//! `getauxval`, where it is linked); this module decides what the reads give.
use vstd::prelude::*;

verus! {

/// Key to access the CPU Hardware capabilities bitfield.
pub const AT_HWCAP: usize = 16;

/// Key to access the CPU Hardware capabilities 2 bitfield.
pub const AT_HWCAP2: usize = 26;

/// Cache of the HWCAP bitfields of the ELF Auxiliary Vector.
#[derive(Clone, Copy, Debug, PartialEq, Eq, Structural)]
pub struct AuxVec {
    pub hwcap: usize,
    pub hwcap2: usize,
}

/// Builds the auxiliary-vector cache from the reads of the `AT_HWCAP` and
/// `AT_HWCAP2` entries; fails unless both reads succeeded.
pub fn auxv(hwcap: Result<usize, ()>, hwcap2: Result<usize, ()>) -> (r: Result<AuxVec, ()>)
    ensures
        r is Ok <==> (hwcap is Ok && hwcap2 is Ok),
        r is Ok ==> r->Ok_0 == (AuxVec { hwcap: hwcap->Ok_0, hwcap2: hwcap2->Ok_0 }),
{
    if let Ok(hwcap) = hwcap {
        if let Ok(hwcap2) = hwcap2 {
            return Ok(AuxVec { hwcap, hwcap2 });
        }
    }
    Err(())
}

} // verus!
