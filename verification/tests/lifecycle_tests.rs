use safe_pool::{GetEvent, GetPhase, SlotCommand, get_step};

/// Runs the step function over a sequence of answers, tracking the slot
/// the way a driver would, and returns the final phase and slot state.
fn drive(start: GetPhase, start_present: bool, events: Vec<GetEvent>) -> (GetPhase, bool) {
    let mut phase = start;
    let mut present = start_present;
    for event in events {
        let (next, command) = get_step(phase, event);
        match command {
            SlotCommand::Keep => {},
            SlotCommand::Clear => present = false,
            SlotCommand::Install => present = true,
        }
        phase = next;
    }
    (phase, present)
}

#[test]
fn present_slot_leads_to_acquisition() {
    let (next, command) = get_step(GetPhase::Inspect, GetEvent::SlotPresent);
    assert_eq!(next, GetPhase::Acquire);
    assert_eq!(command, SlotCommand::Keep);
}

#[test]
fn absent_slot_rebuilds_before_acquiring() {
    let (next, command) = get_step(GetPhase::Inspect, GetEvent::SlotAbsent);
    assert_eq!(next, GetPhase::Rebuild);
    assert_eq!(command, SlotCommand::Keep);
}

#[test]
fn successful_acquisition_completes() {
    let (next, command) = get_step(GetPhase::Acquire, GetEvent::AcquireOk);
    assert_eq!(next, GetPhase::Complete);
    assert_eq!(command, SlotCommand::Keep);
}

#[test]
fn failed_acquisition_clears_the_slot_and_rebuilds() {
    let (next, command) = get_step(GetPhase::Acquire, GetEvent::AcquireErr);
    assert_eq!(next, GetPhase::Rebuild);
    assert_eq!(command, SlotCommand::Clear);
}

#[test]
fn successful_rebuild_installs_and_retries_acquisition() {
    let (next, command) = get_step(GetPhase::Rebuild, GetEvent::BuildOk);
    assert_eq!(next, GetPhase::Acquire);
    assert_eq!(command, SlotCommand::Install);
}

#[test]
fn failed_rebuild_backs_off() {
    let (next, command) = get_step(GetPhase::Rebuild, GetEvent::BuildErr);
    assert_eq!(next, GetPhase::Backoff);
    assert_eq!(command, SlotCommand::Keep);
}

#[test]
fn elapsed_backoff_rebuilds_again() {
    let (next, command) = get_step(GetPhase::Backoff, GetEvent::BackoffElapsed);
    assert_eq!(next, GetPhase::Rebuild);
    assert_eq!(command, SlotCommand::Keep);
}

#[test]
fn reachable_store_completes_from_ready_in_two_steps() {
    let (phase, present) = drive(
        GetPhase::Inspect,
        true,
        vec![GetEvent::SlotPresent, GetEvent::AcquireOk],
    );
    assert_eq!(phase, GetPhase::Complete);
    assert!(present);
}

#[test]
fn reachable_store_completes_from_degraded_in_three_steps() {
    let (phase, present) = drive(
        GetPhase::Inspect,
        false,
        vec![GetEvent::SlotAbsent, GetEvent::BuildOk, GetEvent::AcquireOk],
    );
    assert_eq!(phase, GetPhase::Complete);
    assert!(present);
}

#[test]
fn outage_degrades_then_recovers_and_the_call_succeeds() {
    // The store goes away right after the slot was seen present, stays
    // away for two rebuild attempts, then answers again.
    let events = vec![
        GetEvent::SlotPresent,
        GetEvent::AcquireErr,
        GetEvent::BuildErr,
        GetEvent::BackoffElapsed,
        GetEvent::BuildErr,
        GetEvent::BackoffElapsed,
        GetEvent::BuildOk,
        GetEvent::AcquireOk,
    ];

    // Right after the failed acquisition the slot is cleared: degraded.
    let (phase, present) = drive(
        GetPhase::Inspect,
        true,
        vec![GetEvent::SlotPresent, GetEvent::AcquireErr],
    );
    assert_eq!(phase, GetPhase::Rebuild);
    assert!(!present);

    // The whole episode ends with a connection, not an error.
    let (phase, present) = drive(GetPhase::Inspect, true, events);
    assert_eq!(phase, GetPhase::Complete);
    assert!(present);
}

#[test]
fn unreachable_store_keeps_retrying_without_completing() {
    let events = vec![
        GetEvent::SlotAbsent,
        GetEvent::BuildErr,
        GetEvent::BackoffElapsed,
        GetEvent::BuildErr,
        GetEvent::BackoffElapsed,
    ];
    let (phase, present) = drive(GetPhase::Inspect, false, events);
    assert_eq!(phase, GetPhase::Rebuild);
    assert!(!present);
}
