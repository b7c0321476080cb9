//! Lifecycle of the firmware services that a pre-boot application leans on.
//!
//! A firmware service table offers boot-phase services (memory, events,
//! console) until the firmware signals that they end, and runtime services
//! (reset, shutdown) beyond that. This crate holds the rules of that
//! lifecycle as verified state machines: when the table handle may be
//! consulted, when the logger and the heap follow it up and down, and which
//! last-resort action is still safe once something went fatally wrong.
//!
//! Nothing here touches firmware. Every entry point takes the current state,
//! decides, and hands back the outside actions for its host to perform.

pub mod fatal;
pub mod heap;
pub mod hook;
pub mod laws;
pub mod logger;
pub mod report;
pub mod services;

pub use fatal::{
    fatal_action, idle_of, panic_handler, Arch, FatalAction, FatalStage, Idle, ResetKind,
    ResetStatus, Target, BUSY_WAIT_ITERATIONS, EMULATOR_EXIT_PORT, EMULATOR_SUCCESS_CODE,
    STALL_MICROSECONDS,
};
pub use heap::HeapBinding;
pub use hook::{ExitHook, TaskPriority};
pub use logger::{LoggerBinding, Severity};
pub use report::{
    location_line, log_line, out_of_memory, render_decimal, shutdown_failure_notice, Location,
    PanicReport,
};
pub use services::{
    exit_boot_services, finish_init, init, system_table, InstallAction, Phase, Services, State,
    TeardownAction,
};
