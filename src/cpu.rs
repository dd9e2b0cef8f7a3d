//! Plain records of the vCPU state that the harness sets before the first run.
use vstd::prelude::*;

verus! {

/// Guest physical address at which the payload is loaded and execution starts.
pub const LOAD_ADDRESS: u64 = 0;

/// The flags register with only its reserved, always-set bit (bit 1) enabled.
pub const RFLAGS_RESERVED: u64 = 2;

/// Code-segment state: base and selector.
#[derive(Clone, Copy, Debug, PartialEq, Eq, Structural)]
pub struct CpuSegmentState {
    pub base: u64,
    pub selector: u16,
}

/// The general registers the harness sets and reads: instruction pointer,
/// flags, the two operand registers (`rax`, `rbx`); `rax` also holds the result.
#[derive(Clone, Copy, Debug, PartialEq, Eq, Structural)]
pub struct CpuGeneralState {
    pub rip: u64,
    pub rflags: u64,
    pub rax: u64,
    pub rbx: u64,
}

impl CpuSegmentState {
    /// A real-address-mode code segment with no offset: base and selector zero,
    /// so that instruction addresses are guest physical addresses.
    pub open spec fn is_flat_real_mode(&self) -> bool {
        self.base == 0 && self.selector == 0
    }

    /// The code segment the payload runs in.
    pub fn flat_real_mode() -> (r: CpuSegmentState)
        ensures
            r.is_flat_real_mode(),
    {
        CpuSegmentState { base: 0, selector: 0 }
    }
}

impl CpuGeneralState {
    /// Whether `self` is the state the guest starts in, with the given operands.
    pub open spec fn is_initial(&self, first: u64, second: u64) -> bool {
        &&& self.rip == LOAD_ADDRESS
        &&& self.rflags == RFLAGS_RESERVED
        &&& self.rax == first
        &&& self.rbx == second
    }

    /// The starting register state: execution at the load address, only the
    /// reserved flag set, and the two operands in place.
    pub fn initial(first: u64, second: u64) -> (r: CpuGeneralState)
        ensures
            r.is_initial(first, second),
    {
        CpuGeneralState { rip: LOAD_ADDRESS, rflags: RFLAGS_RESERVED, rax: first, rbx: second }
    }

    /// The register holding the guest's result.
    pub fn result(&self) -> (r: u64)
        ensures
            r == self.rax,
    {
        self.rax
    }
}

} // verus!
