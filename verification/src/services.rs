//! The process-wide firmware context and the adapters that follow its phase.
//!
//! The context is installed once, consulted freely while installed, and
//! retired for good when the firmware announces the end of boot services.
//! The logger, the heap and the exit hook are brought up by the installation
//! and taken down by the retirement, in a fixed order.

use vstd::prelude::*;
use crate::heap::HeapBinding;
use crate::hook::ExitHook;
use crate::logger::LoggerBinding;

verus! {

/// The phase of the firmware context.
#[derive(Clone, Copy, Debug, PartialEq, Eq, Structural)]
pub enum Phase {
    /// No service table is held. Boot services may well be alive, but nothing
    /// here can reach them.
    Uninstalled,
    /// A service table is held and its boot-phase services are safe to call.
    Installed,
    /// Boot services ended. Only runtime services remain, and no table is
    /// handed out any more.
    Retired,
}

/// Outside work that an installation asks of its host.
#[derive(Clone, Copy, Debug, PartialEq, Eq, Structural)]
pub enum InstallAction {
    /// Build a logger on the table's console, make it the process-wide log
    /// sink, and set its threshold to `LoggerBinding::threshold()`.
    BindLogger,
    /// Hand the table's boot-phase memory services to the allocator.
    InitHeap,
    /// Ask the firmware to call back, once and at `ExitHook::priority()`, when
    /// boot services are about to end. The only step that can fail.
    RegisterExitHook,
}

/// Outside work that a retirement asks of its host.
#[derive(Clone, Copy, Debug, PartialEq, Eq, Structural)]
pub enum TeardownAction {
    /// Detach the logger from the console.
    DisableLogger,
    /// Tell the allocator that the boot-phase memory services are gone.
    ExitHeap,
}

/// The mathematical state of the services: what `Services` holds, laid open.
pub struct State<T> {
    /// The installed handle to the firmware service table, if any.
    pub table: Option<T>,
    /// Whether the firmware has announced the end of boot services.
    pub retired: bool,
    /// Where the process-wide logger stands.
    pub logger: LoggerBinding,
    /// Where the allocator stands.
    pub heap: HeapBinding,
    /// Where the registration of the exit notification stands.
    pub hook: ExitHook,
}

impl<T> State<T> {
    /// The state at process start: nothing installed, nothing bound.
    pub open spec fn initial() -> State<T> {
        State {
            table: None,
            retired: false,
            logger: LoggerBinding::Absent,
            heap: HeapBinding::Uninitialized,
            hook: ExitHook::Unregistered,
        }
    }

    /// The phase: retired once boot services ended, else installed exactly
    /// while a table is held.
    pub open spec fn phase(self) -> Phase {
        if self.retired {
            Phase::Retired
        } else if self.table is Some {
            Phase::Installed
        } else {
            Phase::Uninstalled
        }
    }

    /// The states that the operations of this module can reach.
    ///
    /// While a table is held, logger and heap are up and the hook is asked
    /// for or armed. Once retired, no table is held, the logger is silent,
    /// the heap has exited, and the hook has fired. Short of retirement
    /// nothing is in a terminal state.
    pub open spec fn wf(self) -> bool {
        &&& self.table is Some ==> {
            &&& !self.retired
            &&& self.logger == LoggerBinding::Enabled
            &&& self.heap == HeapBinding::Ready
            &&& (self.hook == ExitHook::Pending || self.hook == ExitHook::Registered)
        }
        &&& self.retired ==> {
            &&& self.logger != LoggerBinding::Enabled
            &&& self.heap == HeapBinding::Exited
            &&& self.hook == ExitHook::Fired
        }
        &&& !self.retired ==> {
            &&& self.logger != LoggerBinding::Disabled
            &&& self.heap != HeapBinding::Exited
            &&& self.hook != ExitHook::Fired
        }
        &&& self.phase() == Phase::Uninstalled ==> self.hook == ExitHook::Unregistered
    }

    /// The outside work of an installation, one slot per step, in the order
    /// in which the host performs it. An empty slot asks for nothing.
    ///
    /// With a table already held there is nothing to do. Otherwise whatever
    /// is not up yet is brought up, and the exit hook is registered.
    pub open spec fn install_plan(self) -> Seq<Option<InstallAction>> {
        if self.table is Some {
            seq![None, None, None]
        } else {
            seq![
                if self.logger == LoggerBinding::Absent {
                    Some(InstallAction::BindLogger)
                } else {
                    None
                },
                if self.heap == HeapBinding::Uninitialized {
                    Some(InstallAction::InitHeap)
                } else {
                    None
                },
                Some(InstallAction::RegisterExitHook),
            ]
        }
    }

    /// The state after `init` with the handle `table`.
    pub open spec fn install(self, table: T) -> State<T> {
        if self.table is Some {
            self
        } else {
            State {
                table: Some(table),
                retired: self.retired,
                logger: if self.logger == LoggerBinding::Absent {
                    LoggerBinding::Enabled
                } else {
                    self.logger
                },
                heap: self.heap.spec_initialized(),
                hook: ExitHook::Pending,
            }
        }
    }

    /// The state after the firmware answered the registration of the exit
    /// hook. A refusal withdraws the table; logger and heap stay up, since
    /// the boot services that they lean on are still alive.
    pub open spec fn registered(self, accepted: bool) -> State<T> {
        if self.hook != ExitHook::Pending {
            self
        } else if accepted {
            State { hook: ExitHook::Registered, ..self }
        } else {
            State { table: None, hook: ExitHook::Unregistered, ..self }
        }
    }

    /// The outside work of a retirement, in the order in which the host
    /// performs it. A second retirement asks for nothing.
    pub open spec fn exit_plan(self) -> Seq<Option<TeardownAction>> {
        if self.retired {
            seq![None, None]
        } else {
            seq![
                if self.logger == LoggerBinding::Enabled {
                    Some(TeardownAction::DisableLogger)
                } else {
                    None
                },
                Some(TeardownAction::ExitHeap),
            ]
        }
    }

    /// The state after the firmware announced the end of boot services.
    pub open spec fn exit(self) -> State<T> {
        if self.retired {
            self
        } else {
            State {
                table: None,
                retired: true,
                logger: self.logger.spec_disabled(),
                heap: HeapBinding::Exited,
                hook: ExitHook::Fired,
            }
        }
    }
}

/// The process-wide services: the firmware context with the logger, the heap
/// and the exit hook that follow its phase.
///
/// `T` is the handle to the firmware service table. It is stored and handed
/// out, never looked into.
pub struct Services<T> {
    table: Option<T>,
    retired: bool,
    logger: LoggerBinding,
    heap: HeapBinding,
    hook: ExitHook,
}

impl<T> View for Services<T> {
    type V = State<T>;

    closed spec fn view(&self) -> State<T> {
        State {
            table: self.table,
            retired: self.retired,
            logger: self.logger,
            heap: self.heap,
            hook: self.hook,
        }
    }
}

impl<T> Services<T> {
    /// Whether the value is one that the operations of this module can reach.
    pub open spec fn wf(&self) -> bool {
        self@.wf()
    }

    /// The services at process start.
    pub fn new() -> (services: Services<T>)
        ensures
            services@ == State::<T>::initial(),
            services.wf(),
    {
        Services {
            table: None,
            retired: false,
            logger: LoggerBinding::Absent,
            heap: HeapBinding::Uninitialized,
            hook: ExitHook::Unregistered,
        }
    }

    /// The phase of the firmware context.
    pub fn phase(&self) -> (phase: Phase)
        ensures
            phase == self@.phase(),
    {
        if self.retired {
            Phase::Retired
        } else if self.table.is_some() {
            Phase::Installed
        } else {
            Phase::Uninstalled
        }
    }

    /// Whether a table is held and boot-phase services are safe to call.
    pub fn is_installed(&self) -> (installed: bool)
        ensures
            installed == (self@.phase() == Phase::Installed),
    {
        !self.retired && self.table.is_some()
    }

    /// Whether boot services have ended.
    pub fn is_retired(&self) -> (retired: bool)
        ensures
            retired == self@.retired,
    {
        self.retired
    }

    /// Where the process-wide logger stands.
    pub fn logger(&self) -> (logger: LoggerBinding)
        ensures
            logger == self@.logger,
    {
        self.logger
    }

    /// Where the allocator stands.
    pub fn heap(&self) -> (heap: HeapBinding)
        ensures
            heap == self@.heap,
    {
        self.heap
    }

    /// Where the registration of the exit notification stands.
    pub fn hook(&self) -> (hook: ExitHook)
        ensures
            hook == self@.hook,
    {
        self.hook
    }
}

/// Installs the handle `st` to the firmware service table.
///
/// With a table already held this changes nothing and asks for nothing.
/// Otherwise the handle is stored, and the plan names what the host brings
/// up, slot by slot: the logger, the heap, the exit hook. The host then
/// reports the firmware's answer to the registration through `finish_init`.
///
/// Boot services never come back, so nothing is installed once they ended.
pub fn init<T>(services: &mut Services<T>, st: T) -> (plan: [Option<InstallAction>; 3])
    requires
        old(services).wf(),
        !old(services)@.retired,
    ensures
        final(services).wf(),
        final(services)@ == old(services)@.install(st),
        plan@ == old(services)@.install_plan(),
{
    if services.table.is_some() {
        return [None, None, None];
    }
    let logger = if services.logger.is_enabled() {
        None
    } else {
        services.logger.enable();
        Some(InstallAction::BindLogger)
    };
    let heap = if services.heap.serves() {
        None
    } else {
        services.heap.init();
        Some(InstallAction::InitHeap)
    };
    services.table = Some(st);
    services.hook.request();
    [logger, heap, Some(InstallAction::RegisterExitHook)]
}

/// Completes an installation with the firmware's answer to the registration
/// of the exit hook, and hands the answer on as the installation's result.
///
/// On success the hook is armed. On failure the table is withdrawn, so that a
/// later installation starts afresh. Where no registration is pending, as
/// after an installation that found a table already held, nothing changes.
pub fn finish_init<T, E>(services: &mut Services<T>, registration: Result<(), E>) -> (result:
    Result<(), E>)
    requires
        old(services).wf(),
    ensures
        final(services).wf(),
        final(services)@ == old(services)@.registered(registration is Ok),
        result == registration,
{
    if services.hook.is_pending() {
        if registration.is_ok() {
            services.hook.answer(true);
        } else {
            services.hook.answer(false);
            services.table = None;
        }
    }
    registration
}

/// The installed handle to the firmware service table.
///
/// There is a table to hand out from a successful installation until the
/// firmware announces the end of boot services, and at no other time.
pub fn system_table<T>(services: &Services<T>) -> (table: &T)
    requires
        services@.phase() == Phase::Installed,
    ensures
        services@.table == Some(*table),
{
    services.table.as_ref().unwrap()
}

/// Reacts to the firmware's announcement that boot services are about to end.
///
/// The context is retired and its handle dropped first; then the logger is
/// silenced and the heap told, and the plan names that outside work in this
/// order. Being called again changes nothing and asks for nothing.
pub fn exit_boot_services<T>(services: &mut Services<T>) -> (plan: [Option<TeardownAction>; 2])
    requires
        old(services).wf(),
    ensures
        final(services).wf(),
        final(services)@ == old(services)@.exit(),
        plan@ == old(services)@.exit_plan(),
{
    if services.retired {
        return [None, None];
    }
    services.retired = true;
    services.table = None;
    let logger = if services.logger.is_enabled() {
        Some(TeardownAction::DisableLogger)
    } else {
        None
    };
    services.logger.disable();
    services.heap.exit();
    services.hook.fire();
    [logger, Some(TeardownAction::ExitHeap)]
}

} // verus!
