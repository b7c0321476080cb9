//! The last resort: what is still worth trying once the process cannot go on.
//!
//! The handler walks a fixed ladder of tiers and never comes back. At each
//! tier it looks at the phase of the firmware context as it is then, and asks
//! its host for the strongest action that is still safe: boot-phase services
//! while a table is installed, and only what needs no firmware after that.

use vstd::prelude::*;
use crate::report::PanicReport;
use crate::services::{Phase, Services};

verus! {

/// How long the firmware is asked to stall so that the console can be read,
/// in microseconds.
pub const STALL_MICROSECONDS: u64 = 10_000_000;

/// How many rounds the substitute delay spins when there is no firmware to
/// stall. A crude stand-in: its duration depends on the build and is not
/// meant to match the firmware's stall.
pub const BUSY_WAIT_ITERATIONS: u64 = 300_000_000;

/// The I/O port through which an emulator is told to exit.
pub const EMULATOR_EXIT_PORT: u16 = 0xF4;

/// The code that the emulator's exit port is configured to read as success.
pub const EMULATOR_SUCCESS_CODE: u32 = 3;

/// The instruction set that the host was built for.
#[derive(Clone, Copy, Debug, PartialEq, Eq, Structural)]
pub enum Arch {
    X86_64,
    Aarch64,
    Other,
}

/// The build configuration that the handler's leaf actions depend on.
#[derive(Clone, Copy, Debug, PartialEq, Eq, Structural)]
pub struct Target {
    pub arch: Arch,
    /// Whether the build is flagged for an emulated environment.
    pub emulated: bool,
}

/// How the processor idles once nothing is left to try.
#[derive(Clone, Copy, Debug, PartialEq, Eq, Structural)]
pub enum Idle {
    /// The halt instruction of x86-64.
    Hlt,
    /// The halt instruction of AArch64, with its immediate of 420.
    Hlt420,
    /// No idle instruction is known: an empty loop.
    Spin,
}

/// What the platform is asked to do on reset.
#[derive(Clone, Copy, Debug, PartialEq, Eq, Structural)]
pub enum ResetKind {
    Cold,
    Warm,
    Shutdown,
}

/// The status that a reset reports to the platform.
#[derive(Clone, Copy, Debug, PartialEq, Eq, Structural)]
pub enum ResetStatus {
    Success,
    Aborted,
}

/// The tiers of the handler, in the order in which they are walked.
#[derive(Clone, Copy, Debug, PartialEq, Eq, Structural)]
pub enum FatalStage {
    /// Report where the failure happened.
    Location,
    /// Report what the failure says.
    Message,
    /// Give the console time to be read.
    Delay,
    /// Leave through the emulator's exit port.
    EmulatorExit,
    /// Ask the platform to shut down.
    Reset,
    /// Tell the user that shutting down did not work.
    Notice,
    /// Idle forever.
    Halt,
}

/// An outside action that the handler asks of its host.
#[derive(Clone, Copy, Debug, PartialEq, Eq, Structural)]
pub enum FatalAction {
    /// Log the line that names the source location, at error severity.
    LogLocation,
    /// Log the failure's message, at error severity.
    LogMessage,
    /// Call the boot-phase stall service.
    Stall { microseconds: u64 },
    /// Spin a fixed number of rounds without any firmware.
    BusyWait { iterations: u64 },
    /// Signal failure through the emulator's exit port. Does not return where
    /// an emulator listens.
    EmulatorExit { port: u16, success_code: u32 },
    /// Call the runtime reset service. May or may not return.
    Reset { kind: ResetKind, status: ResetStatus },
    /// Log that the system could not be shut down, at error severity.
    LogShutdownFailure,
    /// Idle once. This is the last tier, so it is asked for again and again.
    Halt(Idle),
}

/// Whether the action calls into the firmware.
pub open spec fn needs_firmware(action: FatalAction) -> bool {
    action is Stall || action is Reset
}

/// Whether the action gives the console time to be read.
pub open spec fn is_delay(action: FatalAction) -> bool {
    action is Stall || action is BusyWait
}

/// How the processor idles on the given instruction set.
pub open spec fn spec_idle_of(arch: Arch) -> Idle {
    match arch {
        Arch::X86_64 => Idle::Hlt,
        Arch::Aarch64 => Idle::Hlt420,
        Arch::Other => Idle::Spin,
    }
}

/// How the processor idles on the given instruction set.
#[verifier::when_used_as_spec(spec_idle_of)]
pub fn idle_of(arch: Arch) -> (idle: Idle)
    ensures
        idle == spec_idle_of(arch),
{
    match arch {
        Arch::X86_64 => Idle::Hlt,
        Arch::Aarch64 => Idle::Hlt420,
        Arch::Other => Idle::Spin,
    }
}

impl FatalStage {
    /// The tier at which the handler starts.
    pub open spec fn spec_first() -> FatalStage {
        FatalStage::Location
    }

    /// The tier that follows. The last tier follows itself.
    pub open spec fn spec_next(self) -> FatalStage {
        match self {
            FatalStage::Location => FatalStage::Message,
            FatalStage::Message => FatalStage::Delay,
            FatalStage::Delay => FatalStage::EmulatorExit,
            FatalStage::EmulatorExit => FatalStage::Reset,
            FatalStage::Reset => FatalStage::Notice,
            FatalStage::Notice => FatalStage::Halt,
            FatalStage::Halt => FatalStage::Halt,
        }
    }

    /// The tier at which the handler starts.
    #[verifier::when_used_as_spec(spec_first)]
    pub fn first() -> (stage: FatalStage)
        ensures
            stage == Self::spec_first(),
    {
        FatalStage::Location
    }

    /// The tier that follows. The last tier follows itself.
    #[verifier::when_used_as_spec(spec_next)]
    pub fn next(self) -> (stage: FatalStage)
        ensures
            stage == self.spec_next(),
    {
        match self {
            FatalStage::Location => FatalStage::Message,
            FatalStage::Message => FatalStage::Delay,
            FatalStage::Delay => FatalStage::EmulatorExit,
            FatalStage::EmulatorExit => FatalStage::Reset,
            FatalStage::Reset => FatalStage::Notice,
            FatalStage::Notice => FatalStage::Halt,
            FatalStage::Halt => FatalStage::Halt,
        }
    }
}

/// The action of one tier, or `None` where the tier has nothing to offer.
///
/// `installed` is the phase as the tier finds it, `has_location` and
/// `has_message` say what the failure's report holds.
pub open spec fn fatal_action(
    stage: FatalStage,
    installed: bool,
    has_location: bool,
    has_message: bool,
    target: Target,
) -> Option<FatalAction> {
    match stage {
        FatalStage::Location => if has_location {
            Some(FatalAction::LogLocation)
        } else {
            None
        },
        FatalStage::Message => if has_message {
            Some(FatalAction::LogMessage)
        } else {
            None
        },
        FatalStage::Delay => if installed {
            Some(FatalAction::Stall { microseconds: STALL_MICROSECONDS })
        } else {
            Some(FatalAction::BusyWait { iterations: BUSY_WAIT_ITERATIONS })
        },
        FatalStage::EmulatorExit => if target.emulated && target.arch == Arch::X86_64 {
            Some(
                FatalAction::EmulatorExit {
                    port: EMULATOR_EXIT_PORT,
                    success_code: EMULATOR_SUCCESS_CODE,
                },
            )
        } else {
            None
        },
        FatalStage::Reset => if installed {
            Some(FatalAction::Reset { kind: ResetKind::Shutdown, status: ResetStatus::Aborted })
        } else {
            None
        },
        FatalStage::Notice => Some(FatalAction::LogShutdownFailure),
        FatalStage::Halt => Some(FatalAction::Halt(spec_idle_of(target.arch))),
    }
}

/// One step of the fatal-failure handler: the action of the tier `stage`,
/// and the tier to go on with once the host has performed it.
///
/// The host starts at `FatalStage::first()` and calls this in an endless
/// loop, so the handler never returns. The phase is read from `services` at
/// every step: the stall and the reset are asked for only while a table is
/// installed, and a retired context falls through to the spin and the halt.
pub fn panic_handler<T>(
    services: &Services<T>,
    report: &PanicReport,
    target: Target,
    stage: FatalStage,
) -> (step: (FatalStage, Option<FatalAction>))
    ensures
        step.0 == stage.spec_next(),
        step.1 == fatal_action(
            stage,
            services@.phase() == Phase::Installed,
            report.location is Some,
            report.message is Some,
            target,
        ),
{
    let action = match stage {
        FatalStage::Location => if report.location.is_some() {
            Some(FatalAction::LogLocation)
        } else {
            None
        },
        FatalStage::Message => if report.message.is_some() {
            Some(FatalAction::LogMessage)
        } else {
            None
        },
        FatalStage::Delay => if services.is_installed() {
            Some(FatalAction::Stall { microseconds: STALL_MICROSECONDS })
        } else {
            Some(FatalAction::BusyWait { iterations: BUSY_WAIT_ITERATIONS })
        },
        FatalStage::EmulatorExit => if target.emulated && target.arch == Arch::X86_64 {
            Some(
                FatalAction::EmulatorExit {
                    port: EMULATOR_EXIT_PORT,
                    success_code: EMULATOR_SUCCESS_CODE,
                },
            )
        } else {
            None
        },
        FatalStage::Reset => if services.is_installed() {
            Some(FatalAction::Reset { kind: ResetKind::Shutdown, status: ResetStatus::Aborted })
        } else {
            None
        },
        FatalStage::Notice => Some(FatalAction::LogShutdownFailure),
        FatalStage::Halt => Some(FatalAction::Halt(idle_of(target.arch))),
    };
    (stage.next(), action)
}

} // verus!
