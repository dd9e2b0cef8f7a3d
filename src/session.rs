//! The harness as a state machine. Each call of `Session::step` takes the
//! outcome of the last action and decides the next one; the host side
//! performs the actions against the hypervisor and reports back.
use vstd::prelude::*;

use crate::cpu::{CpuGeneralState, CpuSegmentState, LOAD_ADDRESS, RFLAGS_RESERVED};
use crate::error::HarnessError;
use crate::fixture::{CODE_SIZE, EXPECTED_RESULT, FIRST_OPERAND, MEM_SIZE, SECOND_OPERAND};
use crate::memory::{
    check_region, fits, region_mapping, MemoryRegionMapping, GUEST_PHYS_BASE, REGION_FLAGS,
    REGION_SLOT,
};

verus! {

/// Index of the single vCPU.
pub const VCPU_ID: u64 = 0;

/// Where a harness run stands.
#[derive(Clone, Copy, Debug, PartialEq, Eq, Structural)]
pub enum Phase {
    CreatingVm,
    MappingMemory,
    LoadingPayload,
    BindingMemory,
    CreatingVcpu,
    SettingSegments,
    SettingRegisters,
    Running,
    ReadingResult,
    Finished,
    Failed,
}

/// Why one invocation of the run primitive returned.
#[derive(Clone, Debug, PartialEq, Eq)]
pub enum ExitEvent {
    Halt,
    /// Any other exit, described by the backend.
    Unhandled(String),
}

/// What came of the last action.
#[derive(Clone, Debug, PartialEq, Eq)]
pub enum Event {
    /// The action completed.
    Done,
    /// Guest memory was obtained at host address `addr`, `size` bytes long.
    Mapped { addr: u64, size: u64 },
    /// The run primitive returned.
    Exited(ExitEvent),
    /// The result register was read back.
    ResultRead(u64),
    /// The backend refused the action, with its error number.
    Refused(i32),
}

/// What the host side is to do next.
#[derive(Clone, Debug, PartialEq, Eq)]
pub enum Action {
    /// Open the hypervisor and create the VM.
    CreateVm,
    /// Map `size` bytes of private, anonymous, read/write host memory.
    MapMemory { size: u64 },
    /// Copy the payload, `len` bytes, into the start of the mapped memory.
    LoadPayload { len: u64 },
    /// Register the mapping with the VM.
    BindMemory(MemoryRegionMapping),
    /// Create the vCPU with this index.
    CreateVcpu { id: u64 },
    /// Read the segment state, set the code segment to this one, write it back.
    SetSegments(CpuSegmentState),
    /// Read the general registers, set these ones, write them back.
    SetRegisters(CpuGeneralState),
    /// Invoke the run primitive once.
    Run,
    /// Read the general registers and report the result register.
    ReadResult,
    /// Report success.
    Report,
    /// Stop with this error.
    Abort(HarnessError),
}

/// The fixed parameters of a run.
#[derive(Clone, Copy, Debug, PartialEq, Eq, Structural)]
pub struct HarnessConfig {
    pub region_size: u64,
    pub payload_size: u64,
    pub first_operand: u64,
    pub second_operand: u64,
    pub expected_result: u64,
}

impl HarnessConfig {
    /// The fixture's configuration: a two-page guest, a one-page payload,
    /// operands 8 and 2, and result 0.
    pub fn standard() -> (r: HarnessConfig)
        ensures
            r.region_size == MEM_SIZE,
            r.payload_size == CODE_SIZE,
            r.first_operand == FIRST_OPERAND,
            r.second_operand == SECOND_OPERAND,
            r.expected_result == EXPECTED_RESULT,
    {
        HarnessConfig {
            region_size: MEM_SIZE as u64,
            payload_size: CODE_SIZE as u64,
            first_operand: FIRST_OPERAND,
            second_operand: SECOND_OPERAND,
            expected_result: EXPECTED_RESULT,
        }
    }
}

/// One harness run: its configuration, its phase, and the memory mapping
/// once memory has been obtained.
#[derive(Clone, Copy, Debug, PartialEq, Eq, Structural)]
pub struct Session {
    pub config: HarnessConfig,
    pub phase: Phase,
    pub mapping: MemoryRegionMapping,
}

/// Order of the phases; every step moves to a later one.
pub open spec fn rank(p: Phase) -> nat {
    match p {
        Phase::CreatingVm => 0,
        Phase::MappingMemory => 1,
        Phase::LoadingPayload => 2,
        Phase::BindingMemory => 3,
        Phase::CreatingVcpu => 4,
        Phase::SettingSegments => 5,
        Phase::SettingRegisters => 6,
        Phase::Running => 7,
        Phase::ReadingResult => 8,
        Phase::Finished => 9,
        Phase::Failed => 10,
    }
}

/// Whether a phase ends the run.
pub open spec fn is_terminal(p: Phase) -> bool {
    p == Phase::Finished || p == Phase::Failed
}

/// Whether `e` is an outcome of the action issued on entering phase `p`.
pub open spec fn accepted(p: Phase, e: Event) -> bool {
    if is_terminal(p) {
        false
    } else {
        match e {
            Event::Refused(_) => true,
            Event::Done => {
                ||| p == Phase::CreatingVm
                ||| p == Phase::LoadingPayload
                ||| p == Phase::BindingMemory
                ||| p == Phase::CreatingVcpu
                ||| p == Phase::SettingSegments
                ||| p == Phase::SettingRegisters
            },
            Event::Mapped { .. } => p == Phase::MappingMemory,
            Event::Exited(_) => p == Phase::Running,
            Event::ResultRead(_) => p == Phase::ReadingResult,
        }
    }
}

/// `s` moved to phase `p`.
pub open spec fn moved(s: Session, p: Phase) -> Session {
    Session { config: s.config, phase: p, mapping: s.mapping }
}

/// The mapping of the host block at `addr`, `size` bytes, at guest address zero.
pub open spec fn mapping_of(addr: u64, size: u64) -> MemoryRegionMapping {
    MemoryRegionMapping {
        slot: REGION_SLOT,
        guest_phys_addr: GUEST_PHYS_BASE,
        memory_size: size,
        userspace_addr: addr,
        flags: REGION_FLAGS,
    }
}

/// The next session and action after the outcome `e`.
pub open spec fn next(s: Session, e: Event) -> (Session, Action) {
    match e {
        Event::Refused(errno) => (
            moved(s, Phase::Failed),
            Action::Abort(HarnessError::Backend { during: s.phase, errno }),
        ),
        Event::Done => {
            if s.phase == Phase::CreatingVm {
                (moved(s, Phase::MappingMemory), Action::MapMemory { size: s.config.region_size })
            } else if s.phase == Phase::LoadingPayload {
                (moved(s, Phase::BindingMemory), Action::BindMemory(s.mapping))
            } else if s.phase == Phase::BindingMemory {
                (moved(s, Phase::CreatingVcpu), Action::CreateVcpu { id: VCPU_ID })
            } else if s.phase == Phase::CreatingVcpu {
                (
                    moved(s, Phase::SettingSegments),
                    Action::SetSegments(CpuSegmentState { base: 0, selector: 0 }),
                )
            } else if s.phase == Phase::SettingSegments {
                (
                    moved(s, Phase::SettingRegisters),
                    Action::SetRegisters(
                        CpuGeneralState {
                            rip: LOAD_ADDRESS,
                            rflags: RFLAGS_RESERVED,
                            rax: s.config.first_operand,
                            rbx: s.config.second_operand,
                        },
                    ),
                )
            } else {
                (moved(s, Phase::Running), Action::Run)
            }
        },
        Event::Mapped { addr, size } => {
            if fits(size, s.config.payload_size) {
                (
                    Session { config: s.config, phase: Phase::LoadingPayload, mapping: mapping_of(addr, size) },
                    Action::LoadPayload { len: s.config.payload_size },
                )
            } else {
                (
                    moved(s, Phase::Failed),
                    Action::Abort(
                        HarnessError::Configuration {
                            region_size: size,
                            payload_size: s.config.payload_size,
                        },
                    ),
                )
            }
        },
        Event::Exited(ExitEvent::Halt) => (moved(s, Phase::ReadingResult), Action::ReadResult),
        Event::Exited(ExitEvent::Unhandled(reason)) => (
            moved(s, Phase::Failed),
            Action::Abort(HarnessError::UnexpectedExit { reason }),
        ),
        Event::ResultRead(v) => {
            if v == s.config.expected_result {
                (moved(s, Phase::Finished), Action::Report)
            } else {
                (
                    moved(s, Phase::Failed),
                    Action::Abort(
                        HarnessError::Postcondition { expected: s.config.expected_result, actual: v },
                    ),
                )
            }
        },
    }
}

/// The actions issued from `s` in answer to `events`, up to the first
/// event that is not an outcome of the pending action.
pub open spec fn trace(s: Session, events: Seq<Event>) -> Seq<Action>
    decreases events.len(),
{
    if events.len() == 0 || !accepted(s.phase, events[0]) {
        Seq::empty()
    } else {
        seq![next(s, events[0]).1] + trace(next(s, events[0]).0, events.drop_first())
    }
}

impl Session {
    /// Starts a run. Fails with a configuration error, before any backend
    /// action, exactly when the region cannot hold the payload; otherwise the
    /// first action is to create the VM.
    pub fn new(config: HarnessConfig) -> (r: Result<(Session, Action), HarnessError>)
        ensures
            r is Ok <==> fits(config.region_size, config.payload_size),
            r matches Ok((s, a)) ==> s.config == config && s.phase == Phase::CreatingVm
                && a == Action::CreateVm,
            r is Err ==> r == Err::<(Session, Action), HarnessError>(
                HarnessError::Configuration {
                    region_size: config.region_size,
                    payload_size: config.payload_size,
                },
            ),
    {
        match check_region(config.region_size, config.payload_size) {
            Ok(()) => {
                let s = Session { config, phase: Phase::CreatingVm, mapping: region_mapping(0, 0) };
                Ok((s, Action::CreateVm))
            },
            Err(e) => Err(e),
        }
    }

    /// Whether `e` is an outcome of the pending action.
    pub fn accepts(&self, e: &Event) -> (r: bool)
        ensures
            r == accepted(self.phase, *e),
    {
        match self.phase {
            Phase::Finished | Phase::Failed => false,
            _ => match e {
                Event::Refused(_) => true,
                Event::Done => match self.phase {
                    Phase::CreatingVm | Phase::LoadingPayload | Phase::BindingMemory
                    | Phase::CreatingVcpu | Phase::SettingSegments | Phase::SettingRegisters => true,
                    _ => false,
                },
                Event::Mapped { .. } => self.phase == Phase::MappingMemory,
                Event::Exited(_) => self.phase == Phase::Running,
                Event::ResultRead(_) => self.phase == Phase::ReadingResult,
            },
        }
    }

    /// Takes the outcome of the pending action and returns the next action.
    pub fn step(&mut self, e: Event) -> (r: Action)
        requires
            accepted(old(self).phase, e),
        ensures
            (*final(self), r) == next(*old(self), e),
    {
        let cur = self.phase;
        match e {
            Event::Refused(errno) => {
                self.phase = Phase::Failed;
                Action::Abort(HarnessError::Backend { during: cur, errno })
            },
            Event::Done => match cur {
                Phase::CreatingVm => {
                    self.phase = Phase::MappingMemory;
                    Action::MapMemory { size: self.config.region_size }
                },
                Phase::LoadingPayload => {
                    self.phase = Phase::BindingMemory;
                    Action::BindMemory(self.mapping)
                },
                Phase::BindingMemory => {
                    self.phase = Phase::CreatingVcpu;
                    Action::CreateVcpu { id: VCPU_ID }
                },
                Phase::CreatingVcpu => {
                    self.phase = Phase::SettingSegments;
                    Action::SetSegments(CpuSegmentState::flat_real_mode())
                },
                Phase::SettingSegments => {
                    self.phase = Phase::SettingRegisters;
                    Action::SetRegisters(
                        CpuGeneralState::initial(self.config.first_operand, self.config.second_operand),
                    )
                },
                _ => {
                    self.phase = Phase::Running;
                    Action::Run
                },
            },
            Event::Mapped { addr, size } => {
                if size >= self.config.payload_size {
                    self.phase = Phase::LoadingPayload;
                    self.mapping = region_mapping(addr, size);
                    Action::LoadPayload { len: self.config.payload_size }
                } else {
                    self.phase = Phase::Failed;
                    Action::Abort(
                        HarnessError::Configuration {
                            region_size: size,
                            payload_size: self.config.payload_size,
                        },
                    )
                }
            },
            Event::Exited(ExitEvent::Halt) => {
                self.phase = Phase::ReadingResult;
                Action::ReadResult
            },
            Event::Exited(ExitEvent::Unhandled(reason)) => {
                self.phase = Phase::Failed;
                Action::Abort(HarnessError::UnexpectedExit { reason })
            },
            Event::ResultRead(v) => {
                if v == self.config.expected_result {
                    self.phase = Phase::Finished;
                    Action::Report
                } else {
                    self.phase = Phase::Failed;
                    Action::Abort(
                        HarnessError::Postcondition { expected: self.config.expected_result, actual: v },
                    )
                }
            },
        }
    }
}

} // verus!
