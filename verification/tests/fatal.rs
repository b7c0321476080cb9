use uefi_services::{
    exit_boot_services, finish_init, idle_of, init, log_line, out_of_memory, panic_handler, Arch,
    FatalAction, FatalStage, Idle, Location, PanicReport, ResetKind, ResetStatus, Services, Target,
    BUSY_WAIT_ITERATIONS, EMULATOR_EXIT_PORT, EMULATOR_SUCCESS_CODE, STALL_MICROSECONDS,
};

const BARE_X86: Target = Target { arch: Arch::X86_64, emulated: false };

fn installed() -> Services<u64> {
    let mut services = Services::new();
    let _ = init(&mut services, 0x1000);
    assert_eq!(finish_init::<u64, usize>(&mut services, Ok(())), Ok(()));
    services
}

fn retired() -> Services<u64> {
    let mut services = installed();
    let _ = exit_boot_services(&mut services);
    services
}

fn message_only(message: &str) -> PanicReport {
    PanicReport { location: None, message: Some(String::from(message)) }
}

/// Runs the handler for `steps` steps and collects what it asked for.
fn actions(
    services: &Services<u64>,
    report: &PanicReport,
    target: Target,
    steps: usize,
) -> Vec<FatalAction> {
    let mut stage = FatalStage::first();
    let mut asked = Vec::new();
    for _ in 0..steps {
        let (next, action) = panic_handler(services, report, target, stage);
        if let Some(action) = action {
            asked.push(action);
        }
        stage = next;
    }
    asked
}

#[test]
fn constants_of_the_handler() {
    assert_eq!(STALL_MICROSECONDS, 10_000_000);
    assert_eq!(BUSY_WAIT_ITERATIONS, 300_000_000);
    assert_eq!(EMULATOR_EXIT_PORT, 0xF4);
    assert_eq!(EMULATOR_SUCCESS_CODE, 3);
}

#[test]
fn stages_follow_in_order() {
    assert_eq!(FatalStage::first(), FatalStage::Location);
    assert_eq!(FatalStage::Location.next(), FatalStage::Message);
    assert_eq!(FatalStage::Message.next(), FatalStage::Delay);
    assert_eq!(FatalStage::Delay.next(), FatalStage::EmulatorExit);
    assert_eq!(FatalStage::EmulatorExit.next(), FatalStage::Reset);
    assert_eq!(FatalStage::Reset.next(), FatalStage::Notice);
    assert_eq!(FatalStage::Notice.next(), FatalStage::Halt);
    assert_eq!(FatalStage::Halt.next(), FatalStage::Halt);
}

#[test]
fn idle_instruction_by_arch() {
    assert_eq!(idle_of(Arch::X86_64), Idle::Hlt);
    assert_eq!(idle_of(Arch::Aarch64), Idle::Hlt420);
    assert_eq!(idle_of(Arch::Other), Idle::Spin);
}

#[test]
fn panic_while_installed_logs_stalls_then_resets() {
    let services = installed();
    let report = message_only("X");
    let asked = actions(&services, &report, BARE_X86, 5);
    assert_eq!(
        asked,
        vec![
            FatalAction::LogMessage,
            FatalAction::Stall { microseconds: 10_000_000 },
            FatalAction::Reset { kind: ResetKind::Shutdown, status: ResetStatus::Aborted },
        ]
    );
    assert_eq!(log_line(asked[0], &report), Some(String::from("X")));
}

#[test]
fn panic_while_installed_falls_back_when_reset_returns() {
    let services = installed();
    let report = PanicReport {
        location: Some(Location { file: String::from("src/main.rs"), line: 3, column: 9 }),
        message: Some(String::from("X")),
    };
    let asked = actions(&services, &report, BARE_X86, 9);
    assert_eq!(
        asked,
        vec![
            FatalAction::LogLocation,
            FatalAction::LogMessage,
            FatalAction::Stall { microseconds: 10_000_000 },
            FatalAction::Reset { kind: ResetKind::Shutdown, status: ResetStatus::Aborted },
            FatalAction::LogShutdownFailure,
            FatalAction::Halt(Idle::Hlt),
            FatalAction::Halt(Idle::Hlt),
            FatalAction::Halt(Idle::Hlt),
        ]
    );
}

#[test]
fn allocation_failure_while_retired_spins_then_halts() {
    let services = retired();
    let report = out_of_memory(4096, 8);
    let asked = actions(&services, &report, BARE_X86, 8);
    assert_eq!(
        asked,
        vec![
            FatalAction::LogMessage,
            FatalAction::BusyWait { iterations: 300_000_000 },
            FatalAction::LogShutdownFailure,
            FatalAction::Halt(Idle::Hlt),
            FatalAction::Halt(Idle::Hlt),
        ]
    );
    let text = log_line(asked[0], &report).unwrap();
    assert!(text.contains("4096"));
    assert!(text.contains("8"));
    assert_eq!(
        text,
        "Ran out of free memory while trying to allocate Layout { size: 4096, align: 8 }"
    );
    assert!(asked.iter().all(|action| !matches!(
        action,
        FatalAction::Stall { .. } | FatalAction::Reset { .. }
    )));
}

#[test]
fn never_installed_behaves_like_retired() {
    let services: Services<u64> = Services::new();
    let report = PanicReport { location: None, message: None };
    let asked = actions(&services, &report, Target { arch: Arch::Other, emulated: false }, 7);
    assert_eq!(
        asked,
        vec![
            FatalAction::BusyWait { iterations: 300_000_000 },
            FatalAction::LogShutdownFailure,
            FatalAction::Halt(Idle::Spin),
        ]
    );
}

#[test]
fn emulated_x86_leaves_through_exit_port_after_delay() {
    let services = installed();
    let report = message_only("X");
    let target = Target { arch: Arch::X86_64, emulated: true };
    let asked = actions(&services, &report, target, 5);
    assert_eq!(
        asked,
        vec![
            FatalAction::LogMessage,
            FatalAction::Stall { microseconds: 10_000_000 },
            FatalAction::EmulatorExit { port: 0xF4, success_code: 3 },
            FatalAction::Reset { kind: ResetKind::Shutdown, status: ResetStatus::Aborted },
        ]
    );
}

#[test]
fn emulated_x86_while_retired_still_uses_exit_port() {
    let services = retired();
    let report = message_only("X");
    let target = Target { arch: Arch::X86_64, emulated: true };
    let asked = actions(&services, &report, target, 7);
    assert_eq!(
        asked,
        vec![
            FatalAction::LogMessage,
            FatalAction::BusyWait { iterations: 300_000_000 },
            FatalAction::EmulatorExit { port: 0xF4, success_code: 3 },
            FatalAction::LogShutdownFailure,
            FatalAction::Halt(Idle::Hlt),
        ]
    );
}

#[test]
fn emulated_aarch64_has_no_exit_port() {
    let services = installed();
    let report = message_only("X");
    let target = Target { arch: Arch::Aarch64, emulated: true };
    let asked = actions(&services, &report, target, 7);
    assert_eq!(
        asked,
        vec![
            FatalAction::LogMessage,
            FatalAction::Stall { microseconds: 10_000_000 },
            FatalAction::Reset { kind: ResetKind::Shutdown, status: ResetStatus::Aborted },
            FatalAction::LogShutdownFailure,
            FatalAction::Halt(Idle::Hlt420),
        ]
    );
}

#[test]
fn each_step_reads_the_phase_anew() {
    let mut services = installed();
    let report = message_only("X");
    let (stage, action) = panic_handler(&services, &report, BARE_X86, FatalStage::Delay);
    assert_eq!(action, Some(FatalAction::Stall { microseconds: 10_000_000 }));
    assert_eq!(stage, FatalStage::EmulatorExit);
    let _ = exit_boot_services(&mut services);
    let (stage, action) = panic_handler(&services, &report, BARE_X86, FatalStage::Reset);
    assert_eq!(action, None);
    assert_eq!(stage, FatalStage::Notice);
}

#[test]
fn stall_comes_before_reset_whenever_installed() {
    let services = installed();
    for has_location in [false, true] {
        for has_message in [false, true] {
            for arch in [Arch::X86_64, Arch::Aarch64, Arch::Other] {
                for emulated in [false, true] {
                    let report = PanicReport {
                        location: if has_location {
                            Some(Location { file: String::from("f"), line: 1, column: 1 })
                        } else {
                            None
                        },
                        message: if has_message { Some(String::from("m")) } else { None },
                    };
                    let asked = actions(&services, &report, Target { arch, emulated }, 12);
                    let stall = asked
                        .iter()
                        .position(|action| matches!(action, FatalAction::Stall { .. }))
                        .unwrap();
                    let reset = asked
                        .iter()
                        .position(|action| matches!(action, FatalAction::Reset { .. }))
                        .unwrap();
                    assert!(stall < reset);
                    assert!(!asked
                        .iter()
                        .any(|action| matches!(action, FatalAction::BusyWait { .. })));
                    assert_eq!(asked.last(), Some(&FatalAction::Halt(idle_of(arch))));
                }
            }
        }
    }
}
