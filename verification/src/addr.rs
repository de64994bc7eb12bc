//! Virtual addresses in canonical form.

use vstd::prelude::*;

verus! {

/// First address above the lower canonical half.
pub const LOWER_HALF_END: u64 = 0x0000_8000_0000_0000;

/// First address of the upper canonical half.
pub const UPPER_HALF_START: u64 = 0xFFFF_8000_0000_0000;

/// Whether `addr` is in canonical form: it lies in the lower or in the upper
/// half of the address space, not in the hole between them. These are the
/// values in which bits 47 to 63 are all equal.
pub open spec fn is_canonical(addr: u64) -> bool {
    addr < LOWER_HALF_END || addr >= UPPER_HALF_START
}

/// A 64-bit virtual address in canonical form.
///
/// The wrapped value is private: every `VirtAddr` was made by `zero` or by
/// `try_new`, and therefore is canonical.
#[derive(Clone, Copy, Debug, PartialEq, Eq, Structural)]
pub struct VirtAddr(u64);

impl View for VirtAddr {
    type V = u64;

    /// The address as a number.
    closed spec fn view(&self) -> u64 {
        self.0
    }
}

impl VirtAddr {
    #[verifier::type_invariant]
    spec fn canonical(self) -> bool {
        is_canonical(self.0)
    }

    /// The null address.
    pub fn zero() -> (addr: VirtAddr)
        ensures
            addr@ == 0,
    {
        VirtAddr(0)
    }

    /// Wraps `addr` if it is canonical, and refuses it otherwise.
    pub fn try_new(addr: u64) -> (wrapped: Option<VirtAddr>)
        ensures
            wrapped is Some <==> is_canonical(addr),
            wrapped matches Some(v) ==> v@ == addr,
    {
        if addr < LOWER_HALF_END || addr >= UPPER_HALF_START {
            Some(VirtAddr(addr))
        } else {
            None
        }
    }

    /// The address as a number, which is canonical.
    pub fn as_u64(self) -> (addr: u64)
        ensures
            addr == self@,
            is_canonical(addr),
    {
        proof {
            use_type_invariant(&self);
        }
        self.0
    }
}

} // verus!
