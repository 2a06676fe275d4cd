//! The watchdog that interrupts a guest which has run for too long.
use vstd::prelude::*;

verus! {

/// How many nanoseconds make a second.
pub const NANOS_PER_SEC: u32 = 1_000_000_000;

/// A span of time.
#[derive(Clone, Copy, Debug)]
pub struct Span {
    secs: u64,
    nanos: u32,
}

impl View for Span {
    type V = nat;

    /// The length in nanoseconds.
    closed spec fn view(&self) -> nat {
        (self.secs * NANOS_PER_SEC + self.nanos) as nat
    }
}

impl Span {
    #[verifier::type_invariant]
    spec fn well_formed(self) -> bool {
        self.nanos < NANOS_PER_SEC
    }

    /// A span of whole seconds and a fraction in nanoseconds.
    pub fn new(secs: u64, nanos: u32) -> (span: Span)
        requires
            nanos < NANOS_PER_SEC,
        ensures
            span@ == secs * NANOS_PER_SEC + nanos,
    {
        Span { secs, nanos }
    }

    /// The whole seconds of the span.
    pub fn as_secs(&self) -> (secs: u64)
        ensures
            secs == self@ / (NANOS_PER_SEC as nat),
    {
        proof {
            use_type_invariant(*self);
        }
        self.secs
    }

    /// What the span has beyond whole seconds, in nanoseconds.
    pub fn subsec_nanos(&self) -> (nanos: u32)
        ensures
            nanos == self@ % (NANOS_PER_SEC as nat),
    {
        proof {
            use_type_invariant(*self);
        }
        self.nanos
    }

    /// What is left of the span after `other`; none if `other` is the longer one.
    pub fn checked_sub(self, other: Span) -> (left: Option<Span>)
        ensures
            left is Some <==> other@ <= self@,
            left is Some ==> left->0@ == self@ - other@,
    {
        proof {
            use_type_invariant(self);
            use_type_invariant(other);
        }
        if self.secs < other.secs {
            None
        } else if self.nanos >= other.nanos {
            Some(Span { secs: self.secs - other.secs, nanos: self.nanos - other.nanos })
        } else if self.secs == other.secs {
            None
        } else {
            Some(
                Span {
                    secs: self.secs - other.secs - 1,
                    nanos: NANOS_PER_SEC - (other.nanos - self.nanos),
                },
            )
        }
    }
}

/// What the watchdog does next.
#[derive(Clone, Copy, Debug)]
pub enum WatchdogAction {
    /// It interrupts the guest and is done.
    Interrupt,
    /// It sleeps for this long and looks again.
    Wait(Span),
}

/// What a [`WatchdogAction`] says.
pub enum WatchdogActionView {
    /// It interrupts the guest.
    Interrupt,
    /// It sleeps for so many nanoseconds.
    Wait(nat),
}

impl View for WatchdogAction {
    type V = WatchdogActionView;

    open spec fn view(&self) -> WatchdogActionView {
        match self {
            WatchdogAction::Interrupt => WatchdogActionView::Interrupt,
            WatchdogAction::Wait(span) => WatchdogActionView::Wait(span@),
        }
    }
}

/// The watchdog interrupts once less than a second is left, and else sleeps for what is left.
pub open spec fn watchdog_action(timeout: nat, elapsed: nat) -> WatchdogActionView {
    if timeout < elapsed + NANOS_PER_SEC {
        WatchdogActionView::Interrupt
    } else {
        WatchdogActionView::Wait((timeout - elapsed) as nat)
    }
}

/// What the watchdog does when the guest has run for `elapsed` out of `timeout`.
pub fn watch(timeout: Span, elapsed: Span) -> (action: WatchdogAction)
    ensures
        action@ == watchdog_action(timeout@, elapsed@),
        action is Interrupt <==> timeout@ < elapsed@ + NANOS_PER_SEC,
        action matches WatchdogAction::Wait(left) ==> left@ == timeout@ - elapsed@,
{
    match timeout.checked_sub(elapsed) {
        None => WatchdogAction::Interrupt,
        Some(left) => {
            if left.as_secs() < 1 {
                WatchdogAction::Interrupt
            } else {
                WatchdogAction::Wait(left)
            }
        },
    }
}

/// If the guest has run through the whole of a wait, the watchdog interrupts it.
pub proof fn law_wait_runs_out(timeout: nat, elapsed: nat, later: nat)
    requires
        watchdog_action(timeout, elapsed) is Wait,
        later >= elapsed + watchdog_action(timeout, elapsed)->Wait_0,
    ensures
        watchdog_action(timeout, later) is Interrupt,
{
}

/// The watchdog never sleeps for less than a second, nor beyond the timeout.
pub proof fn law_wait_is_bounded(timeout: nat, elapsed: nat)
    requires
        watchdog_action(timeout, elapsed) is Wait,
    ensures
        NANOS_PER_SEC <= watchdog_action(timeout, elapsed)->Wait_0,
        elapsed + watchdog_action(timeout, elapsed)->Wait_0 == timeout,
{
}

/// A guest that is to be interrupted stays so as it runs on.
pub proof fn law_interrupt_is_stable(timeout: nat, elapsed: nat, later: nat)
    requires
        watchdog_action(timeout, elapsed) is Interrupt,
        elapsed <= later,
    ensures
        watchdog_action(timeout, later) is Interrupt,
{
}

/// The guest is left alone as long as at least a second is left, for exactly what is left, and is
/// interrupted else, however long the timeout is.
pub proof fn law_last_second_decides(timeout: nat, elapsed: nat)
    ensures
        elapsed + 1_000_000_000 <= timeout ==> watchdog_action(timeout, elapsed)
            == WatchdogActionView::Wait((timeout - elapsed) as nat),
        elapsed + 1_000_000_000 > timeout ==> watchdog_action(timeout, elapsed)
            == WatchdogActionView::Interrupt,
{
}

/// Only what is left of the timeout counts: as much again on both sides changes nothing.
pub proof fn law_only_what_is_left_counts(timeout: nat, elapsed: nat, more: nat)
    ensures
        watchdog_action(timeout + more, elapsed + more) == watchdog_action(timeout, elapsed),
{
}

/// An action says what it does.
pub proof fn law_action_says_what_it_does(span: Span)
    ensures
        WatchdogAction::Wait(span)@ == WatchdogActionView::Wait(span@),
        WatchdogAction::Interrupt@ == WatchdogActionView::Interrupt,
{
}

} // verus!
