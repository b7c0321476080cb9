//! What holds of the lifecycle as a whole: the laws that relate its
//! operations to one another, proved over the states and plans that the
//! operations' own contracts speak of.

use vstd::prelude::*;
use crate::fatal::{
    fatal_action, is_delay, needs_firmware, spec_idle_of, FatalAction, FatalStage, ResetKind,
    ResetStatus, Target, BUSY_WAIT_ITERATIONS, STALL_MICROSECONDS,
};
use crate::hook::ExitHook;
use crate::logger::{LoggerBinding, Severity};
use crate::services::{InstallAction, Phase, State, TeardownAction};

verus! {

/// One event in the life of the services.
pub enum Op<T> {
    /// `init` with the given handle.
    Install(T),
    /// `finish_init` with the firmware's answer: whether it accepted the
    /// registration of the exit hook.
    Answer(bool),
    /// `exit_boot_services`.
    Exit,
}

/// Whether the event may happen in the state: nothing is installed once boot
/// services ended.
pub open spec fn admissible<T>(state: State<T>, op: Op<T>) -> bool {
    op is Install ==> !state.retired
}

/// The state after the event.
pub open spec fn apply<T>(state: State<T>, op: Op<T>) -> State<T> {
    match op {
        Op::Install(table) => state.install(table),
        Op::Answer(accepted) => state.registered(accepted),
        Op::Exit => state.exit(),
    }
}

/// Whether the whole history may happen, event after event, from the state.
pub open spec fn admissible_history<T>(state: State<T>, ops: Seq<Op<T>>) -> bool
    decreases ops.len(),
{
    ops.len() > 0 ==> admissible(state, ops[0]) && admissible_history(
        apply(state, ops[0]),
        ops.drop_first(),
    )
}

/// The state after the whole history.
pub open spec fn run<T>(state: State<T>, ops: Seq<Op<T>>) -> State<T>
    decreases ops.len(),
{
    if ops.len() == 0 {
        state
    } else {
        run(apply(state, ops[0]), ops.drop_first())
    }
}

/// Whether the event has the host install a logger as the process-wide sink.
pub open spec fn binds_logger<T>(state: State<T>, op: Op<T>) -> bool {
    op is Install && state.install_plan()[0] == Some(InstallAction::BindLogger)
}

/// Whether the event arms the exit hook: the firmware accepts a registration
/// that was pending.
pub open spec fn arms_hook<T>(state: State<T>, op: Op<T>) -> bool {
    op == Op::<T>::Answer(true) && state.hook == ExitHook::Pending
}

/// Whether the event retires the context.
pub open spec fn retires<T>(state: State<T>, op: Op<T>) -> bool {
    op is Exit && !state.retired
}

/// How often the logger is installed over the whole history.
pub open spec fn logger_installs<T>(state: State<T>, ops: Seq<Op<T>>) -> nat
    decreases ops.len(),
{
    if ops.len() == 0 {
        0
    } else {
        (if binds_logger(state, ops[0]) {
            1nat
        } else {
            0nat
        }) + logger_installs(apply(state, ops[0]), ops.drop_first())
    }
}

/// How often the exit hook is armed over the whole history.
pub open spec fn hook_registrations<T>(state: State<T>, ops: Seq<Op<T>>) -> nat
    decreases ops.len(),
{
    if ops.len() == 0 {
        0
    } else {
        (if arms_hook(state, ops[0]) {
            1nat
        } else {
            0nat
        }) + hook_registrations(apply(state, ops[0]), ops.drop_first())
    }
}

/// How often the context is retired over the whole history.
pub open spec fn retirements<T>(state: State<T>, ops: Seq<Op<T>>) -> nat
    decreases ops.len(),
{
    if ops.len() == 0 {
        0
    } else {
        (if retires(state, ops[0]) {
            1nat
        } else {
            0nat
        }) + retirements(apply(state, ops[0]), ops.drop_first())
    }
}

/// Every admissible event leads from a reachable state to a reachable state.
pub proof fn law_events_preserve_wf<T>(state: State<T>, op: Op<T>)
    requires
        state.wf(),
        admissible(state, op),
    ensures
        apply(state, op).wf(),
{
}

/// Installing is idempotent. A successful installation leaves a table
/// installed, the logger enabled, the heap ready and the hook armed; a second
/// installation, whatever handle it brings, succeeds with an empty plan and
/// leaves every part as it was.
pub proof fn law_install_idempotent<T>(state: State<T>, first: T, second: T)
    requires
        state.wf(),
        !state.retired,
    ensures
        ({
            let once = state.install(first).registered(true);
            let again = once.install(second);
            &&& once.wf()
            &&& once.phase() == Phase::Installed
            &&& once.logger == LoggerBinding::Enabled
            &&& once.hook == ExitHook::Registered
            &&& once.install_plan() == seq![None::<InstallAction>, None, None]
            &&& again == once
            &&& again.registered(true) == once
        }),
{
}

/// Over any history from process start, the logger is installed at most
/// once, the exit hook is armed at most once, and the context is retired at
/// most once. The bounds are stated from any reachable state: one of each is
/// left at most, and none once the part has come up or the context retired.
pub proof fn law_singletons<T>(state: State<T>, ops: Seq<Op<T>>)
    requires
        state.wf(),
        admissible_history(state, ops),
    ensures
        run(state, ops).wf(),
        logger_installs(state, ops) <= (if state.logger == LoggerBinding::Absent {
            1nat
        } else {
            0nat
        }),
        hook_registrations(state, ops) <= (if state.hook == ExitHook::Registered || state.hook
            == ExitHook::Fired {
            0nat
        } else {
            1nat
        }),
        retirements(state, ops) <= (if state.retired {
            0nat
        } else {
            1nat
        }),
    decreases ops.len(),
{
    if ops.len() > 0 {
        law_events_preserve_wf(state, ops[0]);
        law_singletons(apply(state, ops[0]), ops.drop_first());
    }
}

/// From process start, whatever happens: at most one logger, one armed exit
/// hook, one retirement.
pub proof fn law_singletons_from_start<T>(ops: Seq<Op<T>>)
    requires
        admissible_history(State::<T>::initial(), ops),
    ensures
        logger_installs(State::<T>::initial(), ops) <= 1,
        hook_registrations(State::<T>::initial(), ops) <= 1,
        retirements(State::<T>::initial(), ops) <= 1,
{
    law_singletons(State::<T>::initial(), ops);
}

/// Retirement is final. A retired state has no table, and every event that
/// may still happen, a second announcement by the firmware among them,
/// leaves it exactly as it is and asks for no outside work.
pub proof fn law_retirement_is_final<T>(state: State<T>, op: Op<T>)
    requires
        state.wf(),
        admissible(state.exit(), op),
    ensures
        state.exit().wf(),
        state.exit().phase() == Phase::Retired,
        state.exit().table is None,
        apply(state.exit(), op) == state.exit(),
        state.exit().exit_plan() == seq![None::<TeardownAction>, None],
{
}

/// The phase never moves backwards: over any history, a retired context
/// stays retired.
pub proof fn law_phase_monotonic<T>(state: State<T>, ops: Seq<Op<T>>)
    requires
        state.wf(),
        state.retired,
        admissible_history(state, ops),
    ensures
        run(state, ops) == state,
    decreases ops.len(),
{
    if ops.len() > 0 {
        assert(state.exit() == state);
        law_retirement_is_final(state, ops[0]);
        law_phase_monotonic(state, ops.drop_first());
    }
}

/// The table can be consulted from a successful installation until the
/// firmware announces the end of boot services. In between, the table is the
/// handle that was installed first, and no further installation or answer
/// changes it; after the announcement there is no table to hand out.
pub proof fn law_accessor_window<T>(state: State<T>, handle: T, op: Op<T>)
    requires
        state.wf(),
        !state.retired,
    ensures
        ({
            let installed = state.install(handle).registered(true);
            &&& installed.wf()
            &&& installed.phase() == Phase::Installed
            &&& installed.table == (if state.table is Some {
                state.table
            } else {
                Some(handle)
            })
            &&& !(op is Exit) ==> apply(installed, op) == installed
            &&& op is Exit ==> apply(installed, op).phase() == Phase::Retired && apply(
                installed,
                op,
            ).table is None
        }),
{
}

/// A refused registration leaves the context uninstalled and returns the
/// parts to a state from which a later installation succeeds.
pub proof fn law_refusal_can_be_retried<T>(state: State<T>, refused: T, retried: T)
    requires
        state.wf(),
        state.phase() == Phase::Uninstalled,
    ensures
        ({
            let failed = state.install(refused).registered(false);
            let installed = failed.install(retried).registered(true);
            &&& failed.wf()
            &&& failed.phase() == Phase::Uninstalled
            &&& failed.install_plan() == seq![
                None,
                None,
                Some(InstallAction::RegisterExitHook),
            ]
            &&& installed.phase() == Phase::Installed
            &&& installed.table == Some(retried)
        }),
{
}

/// The logger never comes back. In any state whatsoever, no event leads from
/// a disabled logger to another binding, and a disabled logger drops every
/// record.
pub proof fn law_logger_stays_disabled<T>(state: State<T>, op: Op<T>, severity: Severity)
    requires
        state.logger == LoggerBinding::Disabled,
    ensures
        apply(state, op).logger == LoggerBinding::Disabled,
        !state.logger.spec_accepts(severity),
{
}

/// Over any history, a disabled logger is disabled at the end.
pub proof fn law_logger_monotonic<T>(state: State<T>, ops: Seq<Op<T>>)
    requires
        state.logger == LoggerBinding::Disabled,
    ensures
        run(state, ops).logger == LoggerBinding::Disabled,
    decreases ops.len(),
{
    if ops.len() > 0 {
        law_logger_monotonic(apply(state, ops[0]), ops.drop_first());
    }
}

/// The tier that the fatal-failure handler has reached after `steps` steps.
pub open spec fn stage_at(steps: nat) -> FatalStage
    decreases steps,
{
    if steps == 0 {
        FatalStage::spec_first()
    } else {
        stage_at((steps - 1) as nat).spec_next()
    }
}

/// What the fatal-failure handler asks of its host, step by step, when step
/// `i` finds a table installed exactly if `installed[i]`.
pub open spec fn fatal_run(
    installed: Seq<bool>,
    has_location: bool,
    has_message: bool,
    target: Target,
) -> Seq<Option<FatalAction>> {
    Seq::new(
        installed.len(),
        |i: int| fatal_action(stage_at(i as nat), installed[i], has_location, has_message, target),
    )
}

/// The handler walks its tiers in order and then stays in the last one.
pub proof fn law_stages_in_order(steps: nat)
    ensures
        stage_at(0) == FatalStage::Location,
        stage_at(1) == FatalStage::Message,
        stage_at(2) == FatalStage::Delay,
        stage_at(3) == FatalStage::EmulatorExit,
        stage_at(4) == FatalStage::Reset,
        stage_at(5) == FatalStage::Notice,
        steps >= 6 ==> stage_at(steps) == FatalStage::Halt,
    decreases steps,
{
    reveal_with_fuel(stage_at, 7);
    if steps > 6 {
        law_stages_in_order((steps - 1) as nat);
    }
}

/// A reset is never the first thing tried. Whatever phases the steps find,
/// a step that asks for a reset finds a table installed, and an earlier step
/// asked for a delay: for the firmware's stall if it found a table installed
/// as well.
pub proof fn law_delay_precedes_reset(
    installed: Seq<bool>,
    has_location: bool,
    has_message: bool,
    target: Target,
    reset: int,
)
    requires
        0 <= reset < installed.len(),
        fatal_run(installed, has_location, has_message, target)[reset] matches Some(action)
            && action is Reset,
    ensures
        installed[reset],
        fatal_run(installed, has_location, has_message, target)[reset] == Some(
            FatalAction::Reset { kind: ResetKind::Shutdown, status: ResetStatus::Aborted },
        ),
        exists|delay: int|
            0 <= delay < reset && (#[trigger] fatal_run(
                installed,
                has_location,
                has_message,
                target,
            )[delay] matches Some(action) && is_delay(action) && (installed[delay] ==> action
                == FatalAction::Stall { microseconds: STALL_MICROSECONDS })),
{
    let run = fatal_run(installed, has_location, has_message, target);
    law_stages_in_order(reset as nat);
    assert(reset == 4) by {
        if reset >= 6 {
            assert(stage_at(reset as nat) == FatalStage::Halt);
        }
    }
    assert(run[2] matches Some(action) && is_delay(action) && (installed[2] ==> action
        == FatalAction::Stall { microseconds: STALL_MICROSECONDS }));
}

/// With a table installed throughout, the handler asks for the stall, then
/// for the reset, and never for the substitute delay.
pub proof fn law_installed_tiers(
    installed: Seq<bool>,
    has_location: bool,
    has_message: bool,
    target: Target,
    step: int,
)
    requires
        installed.len() > 4,
        forall|i: int| 0 <= i < installed.len() ==> installed[i],
        0 <= step < installed.len(),
    ensures
        ({
            let run = fatal_run(installed, has_location, has_message, target);
            &&& run[2] == Some(FatalAction::Stall { microseconds: STALL_MICROSECONDS })
            &&& run[4] == Some(
                FatalAction::Reset { kind: ResetKind::Shutdown, status: ResetStatus::Aborted },
            )
            &&& !(run[step] matches Some(action) && action is BusyWait)
        }),
{
    law_stages_in_order(step as nat);
}

/// A step that finds no table installed asks for nothing that needs the
/// firmware: neither the stall nor the reset.
pub proof fn law_retired_skips_firmware(
    installed: Seq<bool>,
    has_location: bool,
    has_message: bool,
    target: Target,
    step: int,
)
    requires
        0 <= step < installed.len(),
        !installed[step],
    ensures
        !(fatal_run(installed, has_location, has_message, target)[step] matches Some(action)
            && needs_firmware(action)),
{
}

/// Without a table throughout, the handler falls straight through: the
/// substitute delay, no reset, the notice, and then the halt for ever.
pub proof fn law_retired_tiers(
    installed: Seq<bool>,
    has_location: bool,
    has_message: bool,
    target: Target,
    step: int,
)
    requires
        installed.len() > 6,
        forall|i: int| 0 <= i < installed.len() ==> !installed[i],
        6 <= step < installed.len(),
    ensures
        ({
            let run = fatal_run(installed, has_location, has_message, target);
            &&& run[2] == Some(FatalAction::BusyWait { iterations: BUSY_WAIT_ITERATIONS })
            &&& run[4] == None::<FatalAction>
            &&& run[5] == Some(FatalAction::LogShutdownFailure)
            &&& run[step] == Some(FatalAction::Halt(spec_idle_of(target.arch)))
        }),
{
    law_stages_in_order(step as nat);
}

} // verus!
