use matchstick::calls::{
    begin_host_fn, report_under, DeterminismLevel, HostExportError, TrapFlags,
};
use matchstick::slot::ContextSlot;
use matchstick::text::{dots_to_underscores, ends_with};
use matchstick::watchdog::{watch, Span, WatchdogAction};

#[test]
fn failures_raise_their_flag_and_no_other() {
    let mut flags = TrapFlags::new();
    assert_eq!(flags, TrapFlags { deterministic_host_trap: false, possible_reorg: false });
    flags.record(DeterminismLevel::Unimplemented);
    flags.record(DeterminismLevel::NonDeterministic);
    assert_eq!(flags, TrapFlags { deterministic_host_trap: false, possible_reorg: false });
    flags.record(DeterminismLevel::PossibleReorg);
    assert_eq!(flags, TrapFlags { deterministic_host_trap: false, possible_reorg: true });
    flags.record(DeterminismLevel::Deterministic);
    assert_eq!(flags, TrapFlags { deterministic_host_trap: true, possible_reorg: true });
    flags.record(DeterminismLevel::NonDeterministic);
    assert_eq!(flags, TrapFlags { deterministic_host_trap: true, possible_reorg: true });
}

#[test]
fn import_call_is_settled() {
    let mut flags = TrapFlags::new();
    let ok: Result<u32, (DeterminismLevel, &str)> = Ok(5);
    assert_eq!(flags.settle_import(ok), Ok(5));
    assert_eq!(flags, TrapFlags::new());
    let bad: Result<u32, (DeterminismLevel, &str)> = Err((DeterminismLevel::Deterministic, "no"));
    assert_eq!(flags.settle_import(bad), Err("no"));
    assert!(flags.deterministic_host_trap);
    assert!(!flags.possible_reorg);
}

#[test]
fn host_fn_call_is_settled() {
    let mut flags = TrapFlags::new();
    let ok: Result<u32, HostExportError<&str>> = Ok(5);
    assert_eq!(flags.settle_host_fn(ok), Ok(5));
    let unknown: Result<u32, HostExportError<&str>> = Err(HostExportError::Unknown("a"));
    assert_eq!(flags.settle_host_fn(unknown), Err("a"));
    assert_eq!(flags, TrapFlags::new());
    let reorg: Result<u32, HostExportError<&str>> = Err(HostExportError::PossibleReorg("b"));
    assert_eq!(flags.settle_host_fn(reorg), Err("b"));
    assert_eq!(flags, TrapFlags { deterministic_host_trap: false, possible_reorg: true });
    let sure: Result<u32, HostExportError<&str>> = Err(HostExportError::Deterministic("c"));
    assert_eq!(flags.settle_host_fn(sure), Err("c"));
    assert_eq!(flags, TrapFlags { deterministic_host_trap: true, possible_reorg: true });
}

#[test]
fn host_fn_call_needs_a_context() {
    let timing = begin_host_fn("ethereum.call.x", true).ok().unwrap();
    assert_eq!(timing.metrics_name, "ethereum_call_x");
    assert_eq!(timing.section, "host_export_ethereum_call_x");
    assert_eq!(
        begin_host_fn("ethereum.call", false).err().unwrap(),
        "ethereum.call is not allowed in global variables"
    );
}

#[test]
fn time_is_reported_of_a_call_that_succeeded() {
    let ok: Result<u32, &str> = Ok(3);
    let name = "ethereum_call".to_string();
    assert_eq!(report_under(name.clone(), &ok), Some(name.clone()));
    let bad: Result<u32, &str> = Err("no");
    assert_eq!(report_under(name, &bad), None);
}

#[test]
fn dots_become_underscores() {
    assert_eq!(dots_to_underscores(""), "");
    assert_eq!(dots_to_underscores("..a.\u{e9}_b."), "__a_\u{e9}_b_");
}

#[test]
fn suffixes_are_found() {
    assert!(ends_with("a.test.ts", ".test.ts"));
    assert!(ends_with("a", ""));
    assert!(ends_with("", ""));
    assert!(!ends_with("t.ts", ".test.ts"));
    assert!(!ends_with("a.test.tz", ".test.ts"));
}

#[test]
fn context_is_made_once() {
    let mut slot: ContextSlot<u32, String> = ContextSlot::Pending(7);
    assert!(!slot.is_ready());
    assert!(slot.context().is_none());
    let made: Result<(), ()> = slot.ensure_with(|m: u32| Ok(m.to_string()));
    assert_eq!(made, Ok(()));
    assert!(slot.is_ready());
    slot.context().unwrap().push('!');
    let again: Result<(), ()> = slot.ensure_with(|_m: u32| Err(()));
    assert_eq!(again, Ok(()));
    assert_eq!(slot.context().unwrap(), "7!");
}

#[test]
fn failed_context_uses_the_slot_up() {
    let mut slot: ContextSlot<u32, String> = ContextSlot::Pending(7);
    assert_eq!(slot.ensure_with(|m: u32| Err(m + 1)), Err(8));
    assert!(!slot.is_ready());
    assert!(matches!(slot, ContextSlot::Spent));
}

fn waits(timeout: (u64, u32), elapsed: (u64, u32)) -> Option<(u64, u32)> {
    let action = watch(Span::new(timeout.0, timeout.1), Span::new(elapsed.0, elapsed.1));
    match action {
        WatchdogAction::Interrupt => None,
        WatchdogAction::Wait(span) => Some((span.as_secs(), span.subsec_nanos())),
    }
}

#[test]
fn watchdog_sleeps_for_what_is_left() {
    assert_eq!(waits((10, 0), (0, 0)), Some((10, 0)));
    assert_eq!(waits((10, 5), (3, 2)), Some((7, 3)));
    assert_eq!(waits((10, 2), (3, 5)), Some((6, 999_999_997)));
    assert_eq!(waits((4, 0), (3, 0)), Some((1, 0)));
}

#[test]
fn watchdog_interrupts_within_the_last_second() {
    assert_eq!(waits((4, 0), (3, 1)), None);
    assert_eq!(waits((4, 0), (4, 0)), None);
    assert_eq!(waits((4, 0), (9, 0)), None);
    assert_eq!(waits((4, 1), (4, 2)), None);
    assert_eq!(waits((0, 999_999_999), (0, 0)), None);
    assert_eq!(waits((u64::MAX, 0), (u64::MAX, 999_999_999)), None);
}

#[test]
fn wait_that_runs_out_ends_in_an_interrupt() {
    let timeout = (30, 250);
    let (secs, nanos) = waits(timeout, (2, 0)).unwrap();
    assert_eq!((secs, nanos), (28, 250));
    assert_eq!(waits(timeout, (2 + secs, nanos)), None);
    assert_eq!(waits(timeout, (3 + secs, nanos)), None);
}

#[test]
fn spans_are_subtracted() {
    let left = Span::new(5, 1).checked_sub(Span::new(4, 2)).unwrap();
    assert_eq!((left.as_secs(), left.subsec_nanos()), (0, 999_999_999));
    assert!(Span::new(5, 1).checked_sub(Span::new(5, 2)).is_none());
    assert!(Span::new(5, 1).checked_sub(Span::new(6, 0)).is_none());
    let zero = Span::new(5, 1).checked_sub(Span::new(5, 1)).unwrap();
    assert_eq!((zero.as_secs(), zero.subsec_nanos()), (0, 0));
}
