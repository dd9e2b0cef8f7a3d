//! Control path of a minimal virtual machine monitor: the guest payload, the
//! layout of guest memory, the initial vCPU state, and the state machine that
//! drives setup and the run loop. The host side that talks to the hypervisor
//! performs the actions this library decides and reports what came of them.
pub mod cpu;
pub mod error;
pub mod fixture;
pub mod laws;
pub mod memory;
pub mod session;
