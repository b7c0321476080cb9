use uefi_services::{
    location_line, log_line, out_of_memory, render_decimal, shutdown_failure_notice, FatalAction,
    Idle, Location, PanicReport, ResetKind, ResetStatus,
};

fn report(message: &str) -> PanicReport {
    PanicReport {
        location: Some(Location { file: String::from("src/main.rs"), line: 12, column: 5 }),
        message: Some(String::from(message)),
    }
}

#[test]
fn decimal_of_single_digits() {
    assert_eq!(render_decimal(0), "0");
    assert_eq!(render_decimal(1), "1");
    assert_eq!(render_decimal(2), "2");
    assert_eq!(render_decimal(3), "3");
    assert_eq!(render_decimal(4), "4");
    assert_eq!(render_decimal(5), "5");
    assert_eq!(render_decimal(6), "6");
    assert_eq!(render_decimal(7), "7");
    assert_eq!(render_decimal(8), "8");
    assert_eq!(render_decimal(9), "9");
}

#[test]
fn decimal_of_longer_numbers() {
    assert_eq!(render_decimal(10), "10");
    assert_eq!(render_decimal(99), "99");
    assert_eq!(render_decimal(100), "100");
    assert_eq!(render_decimal(4096), "4096");
    assert_eq!(render_decimal(1234567890), "1234567890");
    assert_eq!(render_decimal(u64::MAX), "18446744073709551615");
}

#[test]
fn decimal_agrees_with_std() {
    let mut n: u64 = 1;
    for _ in 0..63 {
        assert_eq!(render_decimal(n), format!("{}", n));
        assert_eq!(render_decimal(n - 1), format!("{}", n - 1));
        n *= 2;
    }
}

#[test]
fn location_line_names_file_line_and_column() {
    let location = Location { file: String::from("src/main.rs"), line: 12, column: 5 };
    assert_eq!(location_line(&location), "Panic in src/main.rs at (12, 5):");
}

#[test]
fn location_line_with_extremes() {
    let location = Location { file: String::new(), line: 0, column: u32::MAX };
    assert_eq!(location_line(&location), "Panic in  at (0, 4294967295):");
}

#[test]
fn shutdown_notice_text() {
    assert_eq!(
        shutdown_failure_notice(),
        "Could not shut down, please power off the system manually..."
    );
}

#[test]
fn out_of_memory_names_size_and_alignment() {
    let report = out_of_memory(4096, 8);
    assert_eq!(report.location, None);
    assert_eq!(
        report.message,
        Some(String::from(
            "Ran out of free memory while trying to allocate Layout { size: 4096, align: 8 }"
        ))
    );
}

#[test]
fn out_of_memory_with_extremes() {
    let report = out_of_memory(0, 1);
    assert_eq!(
        report.message.as_deref(),
        Some("Ran out of free memory while trying to allocate Layout { size: 0, align: 1 }")
    );
    let report = out_of_memory(usize::MAX, 1 << 20);
    assert_eq!(
        report.message,
        Some(format!(
            "Ran out of free memory while trying to allocate Layout {{ size: {}, align: 1048576 }}",
            usize::MAX
        ))
    );
}

#[test]
fn log_line_of_each_log_action() {
    let report = report("X");
    assert_eq!(
        log_line(FatalAction::LogLocation, &report),
        Some(String::from("Panic in src/main.rs at (12, 5):"))
    );
    assert_eq!(log_line(FatalAction::LogMessage, &report), Some(String::from("X")));
    assert_eq!(
        log_line(FatalAction::LogShutdownFailure, &report),
        Some(String::from("Could not shut down, please power off the system manually..."))
    );
}

#[test]
fn log_line_without_the_part_to_log() {
    let empty = PanicReport { location: None, message: None };
    assert_eq!(log_line(FatalAction::LogLocation, &empty), None);
    assert_eq!(log_line(FatalAction::LogMessage, &empty), None);
    assert_eq!(
        log_line(FatalAction::LogShutdownFailure, &empty),
        Some(String::from("Could not shut down, please power off the system manually..."))
    );
}

#[test]
fn log_line_of_actions_that_log_nothing() {
    let report = report("X");
    assert_eq!(log_line(FatalAction::Stall { microseconds: 10_000_000 }, &report), None);
    assert_eq!(log_line(FatalAction::BusyWait { iterations: 300_000_000 }, &report), None);
    assert_eq!(
        log_line(FatalAction::EmulatorExit { port: 0xF4, success_code: 3 }, &report),
        None
    );
    assert_eq!(
        log_line(
            FatalAction::Reset { kind: ResetKind::Shutdown, status: ResetStatus::Aborted },
            &report
        ),
        None
    );
    assert_eq!(log_line(FatalAction::Halt(Idle::Hlt), &report), None);
}
