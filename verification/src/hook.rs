//! The one-shot registration that lets the firmware announce the end of boot
//! services.

use vstd::prelude::*;

verus! {

/// The priority at which the firmware runs a callback, lowest first.
#[derive(Clone, Copy, Debug, PartialEq, Eq, Structural)]
pub enum TaskPriority {
    /// The level of ordinary application code.
    Application,
    /// The level of ordinary notifications.
    Callback,
    /// The level of cleanup work: above ordinary notifications, so that it
    /// runs before most other callbacks.
    Notify,
    /// The level at which interrupts are held off.
    HighLevel,
}

/// Where the registration of the exit notification stands.
///
/// The registration is armed at most once and fires at most once; `Fired` is
/// terminal.
#[derive(Clone, Copy, Debug, PartialEq, Eq, Structural)]
pub enum ExitHook {
    /// Nothing is registered with the firmware.
    Unregistered,
    /// Registration was asked for; the firmware's answer is awaited.
    Pending,
    /// The firmware holds the callback and will invoke it once.
    Registered,
    /// The firmware announced the end of boot services.
    Fired,
}

impl ExitHook {
    /// The priority at which the exit callback is registered.
    pub open spec fn spec_priority() -> TaskPriority {
        TaskPriority::Notify
    }

    /// The priority at which the exit callback is registered: that of
    /// cleanup work.
    #[verifier::when_used_as_spec(spec_priority)]
    pub fn priority() -> (priority: TaskPriority)
        ensures
            priority == Self::spec_priority(),
    {
        TaskPriority::Notify
    }

    /// The state once the firmware has answered a pending registration.
    pub open spec fn spec_answered(self, accepted: bool) -> ExitHook {
        if self != ExitHook::Pending {
            self
        } else if accepted {
            ExitHook::Registered
        } else {
            ExitHook::Unregistered
        }
    }

    /// Marks that the firmware is being asked to register the callback.
    pub fn request(&mut self)
        requires
            *old(self) == ExitHook::Unregistered,
        ensures
            *final(self) == ExitHook::Pending,
    {
        *self = ExitHook::Pending;
    }

    /// Takes the firmware's answer to a pending registration. Without a
    /// pending registration there is nothing to answer and nothing changes.
    pub fn answer(&mut self, accepted: bool)
        ensures
            *final(self) == old(self).spec_answered(accepted),
    {
        if *self == ExitHook::Pending {
            if accepted {
                *self = ExitHook::Registered;
            } else {
                *self = ExitHook::Unregistered;
            }
        }
    }

    /// Records that the firmware announced the end of boot services.
    pub fn fire(&mut self)
        ensures
            *final(self) == ExitHook::Fired,
    {
        *self = ExitHook::Fired;
    }

    /// Whether a registration is awaiting the firmware's answer.
    pub fn is_pending(&self) -> (pending: bool)
        ensures
            pending == (*self == ExitHook::Pending),
    {
        *self == ExitHook::Pending
    }
}

} // verus!
