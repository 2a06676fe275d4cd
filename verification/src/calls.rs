//! What is remembered, refused and reported of the calls of the guest into the host.
use crate::text::{dots_to_underscores, joined, replaced};
use vstd::prelude::*;

verus! {

/// What a failed call says of how far its failure can be reproduced.
#[derive(Clone, Copy, Debug, PartialEq, Eq, Structural)]
pub enum DeterminismLevel {
    /// The failure comes again on the same input.
    Deterministic,
    /// The failure may not come again.
    NonDeterministic,
    /// The failure may be due to a reorganized chain.
    PossibleReorg,
    /// Nothing is known yet of this failure.
    Unimplemented,
}

/// The failure of a host function of the chain, around the error `E` itself.
pub enum HostExportError<E> {
    /// The failure may have any cause.
    Unknown(E),
    /// The failure may be due to a reorganized chain.
    PossibleReorg(E),
    /// The failure comes again on the same input.
    Deterministic(E),
}

impl<E> HostExportError<E> {
    /// The error itself.
    pub open spec fn error(self) -> E {
        match self {
            HostExportError::Unknown(error) => error,
            HostExportError::PossibleReorg(error) => error,
            HostExportError::Deterministic(error) => error,
        }
    }

    /// What the failure says of how far it can be reproduced.
    pub open spec fn level(self) -> DeterminismLevel {
        match self {
            HostExportError::Unknown(_) => DeterminismLevel::NonDeterministic,
            HostExportError::PossibleReorg(_) => DeterminismLevel::PossibleReorg,
            HostExportError::Deterministic(_) => DeterminismLevel::Deterministic,
        }
    }
}

/// What an instance remembers of failed calls.
#[derive(Clone, Copy, Debug, PartialEq, Eq, Structural)]
pub struct TrapFlags {
    /// A call failed in a way that comes again on the same input.
    pub deterministic_host_trap: bool,
    /// A call failed in a way that may be due to a reorganized chain.
    pub possible_reorg: bool,
}

impl TrapFlags {
    /// The flags after a failure of this level.
    pub open spec fn after(self, level: DeterminismLevel) -> TrapFlags {
        match level {
            DeterminismLevel::Deterministic => TrapFlags { deterministic_host_trap: true, ..self },
            DeterminismLevel::PossibleReorg => TrapFlags { possible_reorg: true, ..self },
            DeterminismLevel::NonDeterministic | DeterminismLevel::Unimplemented => self,
        }
    }

    /// Whether every flag that is up in `self` is up in `later` too.
    pub open spec fn kept_in(self, later: TrapFlags) -> bool {
        &&& self.deterministic_host_trap ==> later.deterministic_host_trap
        &&& self.possible_reorg ==> later.possible_reorg
    }

    /// The flags before any call.
    pub fn new() -> (flags: TrapFlags)
        ensures
            flags == (TrapFlags { deterministic_host_trap: false, possible_reorg: false }),
    {
        TrapFlags { deterministic_host_trap: false, possible_reorg: false }
    }

    /// Takes note of a failure.
    pub fn record(&mut self, level: DeterminismLevel)
        ensures
            *final(self) == old(self).after(level),
    {
        match level {
            DeterminismLevel::Deterministic => {
                self.deterministic_host_trap = true;
            },
            DeterminismLevel::PossibleReorg => {
                self.possible_reorg = true;
            },
            DeterminismLevel::NonDeterministic | DeterminismLevel::Unimplemented => {},
        }
    }

    /// Takes note of how a call of a function of the fixed table ended, and hands its outcome on.
    pub fn settle_import<R, E>(&mut self, outcome: Result<R, (DeterminismLevel, E)>) -> (result:
        Result<R, E>)
        ensures
            match outcome {
                Ok(value) => result == Ok::<R, E>(value) && *final(self) == *old(self),
                Err((level, error)) => result == Err::<R, E>(error) && *final(self) == old(
                    self,
                ).after(level),
            },
    {
        match outcome {
            Ok(value) => Ok(value),
            Err((level, error)) => {
                self.record(level);
                Err(error)
            },
        }
    }

    /// Takes note of how a call of a host function of the chain ended, and hands its outcome on.
    pub fn settle_host_fn<R, E>(&mut self, outcome: Result<R, HostExportError<E>>) -> (result:
        Result<R, E>)
        ensures
            match outcome {
                Ok(value) => result == Ok::<R, E>(value) && *final(self) == *old(self),
                Err(HostExportError::Deterministic(error)) => result == Err::<R, E>(error)
                    && *final(self) == old(self).after(DeterminismLevel::Deterministic),
                Err(HostExportError::PossibleReorg(error)) => result == Err::<R, E>(error)
                    && *final(self) == old(self).after(DeterminismLevel::PossibleReorg),
                Err(HostExportError::Unknown(error)) => result == Err::<R, E>(error)
                    && *final(self) == *old(self),
            },
    {
        match outcome {
            Ok(value) => Ok(value),
            Err(HostExportError::Deterministic(error)) => {
                self.record(DeterminismLevel::Deterministic);
                Err(error)
            },
            Err(HostExportError::PossibleReorg(error)) => {
                self.record(DeterminismLevel::PossibleReorg);
                Err(error)
            },
            Err(HostExportError::Unknown(error)) => Err(error),
        }
    }
}

/// No failure takes a flag down.
pub proof fn law_flags_are_kept(flags: TrapFlags, level: DeterminismLevel)
    ensures
        flags.kept_in(flags.after(level)),
{
}

/// In which order failures come makes no difference to the flags.
pub proof fn law_order_of_failures_is_lost(
    flags: TrapFlags,
    first: DeterminismLevel,
    second: DeterminismLevel,
)
    ensures
        flags.after(first).after(second) == flags.after(second).after(first),
{
}

/// How a call of a host function of the chain is measured.
pub struct HostFnTiming {
    /// The name under which the time of the call is reported.
    pub metrics_name: String,
    /// The stopwatch section in which the call is timed.
    pub section: String,
}

/// The name under which calls of the function `name` are reported.
pub open spec fn metrics_name(name: Seq<char>) -> Seq<char> {
    replaced(name, '.', '_')
}

/// The stopwatch section in which calls of the function `name` are timed.
pub open spec fn section_of(name: Seq<char>) -> Seq<char> {
    "host_export_"@ + metrics_name(name)
}

/// Begins a call of the host function `name` of the chain. Without a context, that is while the
/// global variables of the guest are set up, such a call is not allowed.
pub fn begin_host_fn(name: &str, context_ready: bool) -> (result: Result<HostFnTiming, String>)
    ensures
        match result {
            Ok(timing) => {
                &&& context_ready
                &&& timing.metrics_name@ == metrics_name(name@)
                &&& timing.section@ == section_of(name@)
            },
            Err(message) => {
                &&& !context_ready
                &&& message@ == name@ + " is not allowed in global variables"@
            },
        },
{
    if context_ready {
        let metrics_name: String = dots_to_underscores(name);
        let section: String = joined("host_export_", metrics_name.as_str());
        Ok(HostFnTiming { metrics_name, section })
    } else {
        Err(joined(name, " is not allowed in global variables"))
    }
}

/// The name under which the time of a call is reported, if it is: that is so exactly if the call
/// succeeded.
pub fn report_under<R, E>(metrics_name: String, result: &Result<R, E>) -> (name: Option<String>)
    ensures
        name is Some <==> *result is Ok,
        name is Some ==> name->0@ == metrics_name@,
{
    match result {
        Ok(_) => Some(metrics_name),
        Err(_) => None,
    }
}

/// A reported name has no dots, and is as long as the name of the function.
pub proof fn law_metrics_name_has_no_dots(name: Seq<char>)
    ensures
        metrics_name(name).len() == name.len(),
        !metrics_name(name).contains('.'),
{
    assert forall|i: int| 0 <= i < name.len() implies metrics_name(name)[i] != '.' by {}
}

/// Each flag is raised by its own kind of failure and by no other, and stays up once it is.
pub proof fn law_each_failure_raises_its_flag(flags: TrapFlags, level: DeterminismLevel)
    ensures
        flags.after(level).deterministic_host_trap <==> flags.deterministic_host_trap || level
            == DeterminismLevel::Deterministic,
        flags.after(level).possible_reorg <==> flags.possible_reorg || level
            == DeterminismLevel::PossibleReorg,
{
}

/// The failure of a host function of the chain holds its error, and says by its kind how far it
/// can be reproduced.
pub proof fn law_failure_says_its_level<E>(error: E)
    ensures
        HostExportError::Unknown(error).error() == error,
        HostExportError::PossibleReorg(error).error() == error,
        HostExportError::Deterministic(error).error() == error,
        HostExportError::Unknown(error).level() == DeterminismLevel::NonDeterministic,
        HostExportError::PossibleReorg(error).level() == DeterminismLevel::PossibleReorg,
        HostExportError::Deterministic(error).level() == DeterminismLevel::Deterministic,
{
}

/// In a reported name dots have become underscores, and every other character is as in the name
/// of the function; the stopwatch section is that name behind a fixed start.
pub proof fn law_reported_name_keeps_all_but_dots(name: Seq<char>, i: int)
    ensures
        metrics_name(name).len() == name.len(),
        0 <= i < name.len() ==> metrics_name(name)[i] == if name[i] == '.' {
            '_'
        } else {
            name[i]
        },
        section_of(name) == "host_export_"@ + metrics_name(name),
{
}

} // verus!
