use vmm_harness::cpu::{CpuGeneralState, CpuSegmentState};
use vmm_harness::error::HarnessError;
use vmm_harness::fixture::{code, CODE_SIZE, EXPECTED_RESULT, MEM_SIZE};
use vmm_harness::memory::{check_region, load_payload, region_mapping, MemoryRegionMapping};
use vmm_harness::session::{Action, Event, ExitEvent, HarnessConfig, Phase, Session};

fn config(first: u64, second: u64) -> HarnessConfig {
    HarnessConfig {
        region_size: 0x2000,
        payload_size: 0x1000,
        first_operand: first,
        second_operand: second,
        expected_result: 0,
    }
}

/// Drives a session through setup up to the first run.
fn run_setup(s: &mut Session, actions: &mut Vec<Action>) {
    actions.push(s.step(Event::Done));
    actions.push(s.step(Event::Mapped { addr: 0x7f00_0000_0000, size: 0x2000 }));
    for _ in 0..5 {
        actions.push(s.step(Event::Done));
    }
}

#[test]
fn payload_is_the_fixture_padded_to_one_page() {
    let c = code();
    assert_eq!(c.len(), CODE_SIZE);
    assert_eq!(&c[..11], &[0x01, 0xd8, 0x83, 0xf8, 0x0a, 0x74, 0x00, 0xb8, 0x00, 0x00, 0xf4]);
    assert!(c[11..].iter().all(|b| *b == 0));
}

#[test]
fn region_check_accepts_equal_and_larger_sizes() {
    assert_eq!(check_region(0x2000, 0x1000), Ok(()));
    assert_eq!(check_region(0x1000, 0x1000), Ok(()));
    assert_eq!(check_region(0, 0), Ok(()));
}

#[test]
fn region_check_rejects_a_region_smaller_than_the_payload() {
    assert_eq!(
        check_region(0xfff, 0x1000),
        Err(HarnessError::Configuration { region_size: 0xfff, payload_size: 0x1000 })
    );
}

#[test]
fn new_session_fails_before_any_backend_action_when_region_too_small() {
    let mut c = config(8, 2);
    c.region_size = 0x800;
    assert_eq!(
        Session::new(c),
        Err(HarnessError::Configuration { region_size: 0x800, payload_size: 0x1000 })
    );
}

#[test]
fn new_session_starts_by_creating_the_vm() {
    let (s, a) = Session::new(HarnessConfig::standard()).unwrap();
    assert_eq!(a, Action::CreateVm);
    assert_eq!(s.phase, Phase::CreatingVm);
    assert_eq!(s.config.region_size, MEM_SIZE as u64);
    assert_eq!(s.config.payload_size, CODE_SIZE as u64);
    assert_eq!(s.config.first_operand, 8);
    assert_eq!(s.config.second_operand, 2);
    assert_eq!(s.config.expected_result, EXPECTED_RESULT);
}

#[test]
fn payload_load_copies_prefix_and_keeps_the_rest() {
    let mut region = vec![0xffu8; 8];
    load_payload(&mut region, &[1, 2, 3]);
    assert_eq!(region, vec![1, 2, 3, 0xff, 0xff, 0xff, 0xff, 0xff]);
}

#[test]
fn payload_load_of_the_fixture_fills_the_code_region() {
    let mut region = vec![0x55u8; MEM_SIZE];
    let c = code();
    load_payload(&mut region, &c);
    assert_eq!(&region[..CODE_SIZE], &c[..]);
    assert!(region[CODE_SIZE..].iter().all(|b| *b == 0x55));
}

#[test]
fn payload_load_into_a_region_of_exactly_payload_size() {
    let mut region = vec![0u8; 3];
    load_payload(&mut region, &[9, 8, 7]);
    assert_eq!(region, vec![9, 8, 7]);
}

#[test]
fn region_mapping_binds_host_block_at_guest_zero() {
    let m = region_mapping(0x7f12_3456_0000, 0x2000);
    assert_eq!(
        m,
        MemoryRegionMapping {
            slot: 0,
            guest_phys_addr: 0,
            memory_size: 0x2000,
            userspace_addr: 0x7f12_3456_0000,
            flags: 0,
        }
    );
}

#[test]
fn initial_cpu_state() {
    let seg = CpuSegmentState::flat_real_mode();
    assert_eq!(seg, CpuSegmentState { base: 0, selector: 0 });
    let regs = CpuGeneralState::initial(8, 2);
    assert_eq!(regs, CpuGeneralState { rip: 0, rflags: 2, rax: 8, rbx: 2 });
    assert_eq!(regs.result(), 8);
}

#[test]
fn setup_issues_actions_in_order() {
    let (mut s, _) = Session::new(config(8, 2)).unwrap();
    let mut actions = Vec::new();
    run_setup(&mut s, &mut actions);
    let mapping = region_mapping(0x7f00_0000_0000, 0x2000);
    assert_eq!(
        actions,
        vec![
            Action::MapMemory { size: 0x2000 },
            Action::LoadPayload { len: 0x1000 },
            Action::BindMemory(mapping),
            Action::CreateVcpu { id: 0 },
            Action::SetSegments(CpuSegmentState { base: 0, selector: 0 }),
            Action::SetRegisters(CpuGeneralState { rip: 0, rflags: 2, rax: 8, rbx: 2 }),
            Action::Run,
        ]
    );
    assert_eq!(s.phase, Phase::Running);
}

#[test]
fn halt_with_expected_result_succeeds() {
    let (mut s, _) = Session::new(config(8, 2)).unwrap();
    let mut actions = Vec::new();
    run_setup(&mut s, &mut actions);
    assert_eq!(s.step(Event::Exited(ExitEvent::Halt)), Action::ReadResult);
    assert_eq!(s.step(Event::ResultRead(0)), Action::Report);
    assert_eq!(s.phase, Phase::Finished);
}

#[test]
fn operands_failing_the_comparison_still_expect_zero() {
    // The fixture's jump lands on the next instruction either way, so the
    // result is zeroed whether or not the sum matches.
    let (mut s, _) = Session::new(config(8, 3)).unwrap();
    let mut actions = Vec::new();
    run_setup(&mut s, &mut actions);
    assert_eq!(
        actions[5],
        Action::SetRegisters(CpuGeneralState { rip: 0, rflags: 2, rax: 8, rbx: 3 })
    );
    assert_eq!(s.step(Event::Exited(ExitEvent::Halt)), Action::ReadResult);
    assert_eq!(s.step(Event::ResultRead(0)), Action::Report);
}

#[test]
fn halt_with_other_result_is_a_postcondition_error() {
    let (mut s, _) = Session::new(config(8, 3)).unwrap();
    let mut actions = Vec::new();
    run_setup(&mut s, &mut actions);
    s.step(Event::Exited(ExitEvent::Halt));
    assert_eq!(
        s.step(Event::ResultRead(11)),
        Action::Abort(HarnessError::Postcondition { expected: 0, actual: 11 })
    );
    assert_eq!(s.phase, Phase::Failed);
}

#[test]
fn no_run_after_halt() {
    let (mut s, _) = Session::new(config(8, 2)).unwrap();
    let mut actions = Vec::new();
    run_setup(&mut s, &mut actions);
    s.step(Event::Exited(ExitEvent::Halt));
    assert!(!s.accepts(&Event::Exited(ExitEvent::Halt)));
    assert!(!s.accepts(&Event::Done));
    assert!(s.accepts(&Event::ResultRead(0)));
}

#[test]
fn unhandled_exit_aborts_without_retry() {
    let (mut s, _) = Session::new(config(8, 2)).unwrap();
    let mut actions = Vec::new();
    run_setup(&mut s, &mut actions);
    let a = s.step(Event::Exited(ExitEvent::Unhandled("IoOut".to_string())));
    assert_eq!(a, Action::Abort(HarnessError::UnexpectedExit { reason: "IoOut".to_string() }));
    assert_eq!(s.phase, Phase::Failed);
    assert!(!s.accepts(&Event::Done));
    assert!(!s.accepts(&Event::ResultRead(0)));
    assert!(!s.accepts(&Event::Exited(ExitEvent::Halt)));
    assert!(!s.accepts(&Event::Refused(1)));
}

#[test]
fn memory_is_bound_once() {
    let (mut s, _) = Session::new(config(8, 2)).unwrap();
    let mut actions = Vec::new();
    run_setup(&mut s, &mut actions);
    actions.push(s.step(Event::Exited(ExitEvent::Halt)));
    actions.push(s.step(Event::ResultRead(0)));
    let binds = actions.iter().filter(|a| matches!(a, Action::BindMemory(_))).count();
    assert_eq!(binds, 1);
    assert!(!s.accepts(&Event::Done));
}

#[test]
fn refused_operation_reports_its_phase() {
    let (mut s, _) = Session::new(config(8, 2)).unwrap();
    s.step(Event::Done);
    s.step(Event::Mapped { addr: 0x1000, size: 0x2000 });
    s.step(Event::Done);
    assert_eq!(s.phase, Phase::BindingMemory);
    assert_eq!(
        s.step(Event::Refused(22)),
        Action::Abort(HarnessError::Backend { during: Phase::BindingMemory, errno: 22 })
    );
    assert_eq!(s.phase, Phase::Failed);
}

#[test]
fn refused_vm_creation() {
    let (mut s, _) = Session::new(config(8, 2)).unwrap();
    assert_eq!(
        s.step(Event::Refused(2)),
        Action::Abort(HarnessError::Backend { during: Phase::CreatingVm, errno: 2 })
    );
}

#[test]
fn mapped_memory_smaller_than_payload_is_a_configuration_error() {
    let (mut s, _) = Session::new(config(8, 2)).unwrap();
    s.step(Event::Done);
    assert_eq!(
        s.step(Event::Mapped { addr: 0x1000, size: 0x800 }),
        Action::Abort(HarnessError::Configuration { region_size: 0x800, payload_size: 0x1000 })
    );
    assert_eq!(s.phase, Phase::Failed);
}

#[test]
fn events_out_of_order_are_not_accepted() {
    let (s, _) = Session::new(config(8, 2)).unwrap();
    assert!(s.accepts(&Event::Done));
    assert!(s.accepts(&Event::Refused(1)));
    assert!(!s.accepts(&Event::Exited(ExitEvent::Halt)));
    assert!(!s.accepts(&Event::Mapped { addr: 0, size: 0x2000 }));
    assert!(!s.accepts(&Event::ResultRead(0)));
}
