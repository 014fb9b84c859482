//! The pool lifecycle state machine.
//!
//! A `get()` call is a sequence of decisions between suspension points:
//! inspect the guarded slot, try to acquire from a present pool, rebuild
//! an absent pool, back off after a failed rebuild. The decisions are the
//! verified step function below; the embedding layer performs the awaited
//! work (acquisition, construction, backoff) and feeds the outcome back in
//! as the next event. The proofs at the bottom pin down the guarantees the
//! machine gives: a connection only ever comes out of a present pool, an
//! acquisition failure always clears the slot before any retry, and while
//! the store answers, every call completes within a fixed number of steps.

use vstd::prelude::*;

verus! {

/// The externally visible state of a pool handle.
#[derive(Clone, Copy, PartialEq, Eq, Structural, Debug)]
pub enum LifecycleState {
    /// No pool was ever built. Never observable through a constructed
    /// handle: construction builds the first pool synchronously and fails
    /// fast instead of surfacing this state.
    Uninitialized,
    /// A pool is present and assumed usable.
    Ready,
    /// The last pool is no longer trusted; the slot is cleared and a
    /// rebuild is owed before the next acquisition.
    Degraded,
}

/// Where a `get()` call stands between two suspension points.
#[derive(Clone, Copy, PartialEq, Eq, Structural, Debug)]
pub enum GetPhase {
    /// About to read the guarded slot.
    Inspect,
    /// The slot held a pool; try to check a connection out of it.
    Acquire,
    /// The slot is empty; ask the factory for a new pool.
    Rebuild,
    /// The factory failed; wait one backoff unit, then rebuild again.
    Backoff,
    /// A connection was obtained; the call is over.
    Complete,
}

/// What the world answered at the last suspension point.
#[derive(Clone, Copy, PartialEq, Eq, Structural, Debug)]
pub enum GetEvent {
    SlotPresent,
    SlotAbsent,
    AcquireOk,
    AcquireErr,
    BuildOk,
    BuildErr,
    BackoffElapsed,
}

/// What the driver must do to the guarded slot before the next step.
#[derive(Clone, Copy, PartialEq, Eq, Structural, Debug)]
pub enum SlotCommand {
    /// Leave the slot as it is.
    Keep,
    /// Drop the held pool: it is no longer trusted.
    Clear,
    /// Put the freshly built pool into the slot.
    Install,
}

/// A `get()` call together with the slot it works against.
#[derive(Clone, Copy, PartialEq, Eq, Structural, Debug)]
pub struct GetConfig {
    pub phase: GetPhase,
    pub pool_present: bool,
}

/// Which events can answer which phase.
pub open spec fn phase_accepts(phase: GetPhase, event: GetEvent) -> bool {
    match phase {
        GetPhase::Inspect => event is SlotPresent || event is SlotAbsent,
        GetPhase::Acquire => event is AcquireOk || event is AcquireErr,
        GetPhase::Rebuild => event is BuildOk || event is BuildErr,
        GetPhase::Backoff => event is BackoffElapsed,
        GetPhase::Complete => false,
    }
}

/// The transition relation of a `get()` call, as a function.
pub open spec fn step_spec(phase: GetPhase, event: GetEvent) -> (GetPhase, SlotCommand) {
    match (phase, event) {
        (GetPhase::Inspect, GetEvent::SlotPresent) => (GetPhase::Acquire, SlotCommand::Keep),
        (GetPhase::Inspect, GetEvent::SlotAbsent) => (GetPhase::Rebuild, SlotCommand::Keep),
        (GetPhase::Acquire, GetEvent::AcquireOk) => (GetPhase::Complete, SlotCommand::Keep),
        (GetPhase::Acquire, GetEvent::AcquireErr) => (GetPhase::Rebuild, SlotCommand::Clear),
        (GetPhase::Rebuild, GetEvent::BuildOk) => (GetPhase::Acquire, SlotCommand::Install),
        (GetPhase::Rebuild, GetEvent::BuildErr) => (GetPhase::Backoff, SlotCommand::Keep),
        (GetPhase::Backoff, GetEvent::BackoffElapsed) => (GetPhase::Rebuild, SlotCommand::Keep),
        _ => (phase, SlotCommand::Keep),
    }
}

/// One decision of a `get()` call: from the phase it was suspended in and
/// the event the world answered, to the next phase and what must happen to
/// the guarded slot. This is the whole of `get()`'s control flow; the
/// driver only performs the suspended work in between.
pub fn get_step(phase: GetPhase, event: GetEvent) -> (r: (GetPhase, SlotCommand))
    requires
        phase_accepts(phase, event),
    ensures
        r == step_spec(phase, event),
{
    match (phase, event) {
        (GetPhase::Inspect, GetEvent::SlotPresent) => (GetPhase::Acquire, SlotCommand::Keep),
        (GetPhase::Inspect, GetEvent::SlotAbsent) => (GetPhase::Rebuild, SlotCommand::Keep),
        (GetPhase::Acquire, GetEvent::AcquireOk) => (GetPhase::Complete, SlotCommand::Keep),
        (GetPhase::Acquire, GetEvent::AcquireErr) => (GetPhase::Rebuild, SlotCommand::Clear),
        (GetPhase::Rebuild, GetEvent::BuildOk) => (GetPhase::Acquire, SlotCommand::Install),
        (GetPhase::Rebuild, GetEvent::BuildErr) => (GetPhase::Backoff, SlotCommand::Keep),
        (GetPhase::Backoff, GetEvent::BackoffElapsed) => (GetPhase::Rebuild, SlotCommand::Keep),
        _ => (phase, SlotCommand::Keep),
    }
}

/// The slot after a command is carried out.
pub open spec fn apply_command(present: bool, command: SlotCommand) -> bool {
    match command {
        SlotCommand::Keep => present,
        SlotCommand::Clear => false,
        SlotCommand::Install => true,
    }
}

/// Whether an event can truthfully answer a configuration: it must fit the
/// phase, and what it says of the slot must be what the slot holds.
pub open spec fn event_allowed(c: GetConfig, event: GetEvent) -> bool {
    &&& phase_accepts(c.phase, event)
    &&& (event is SlotPresent ==> c.pool_present)
    &&& (event is SlotAbsent ==> !c.pool_present)
}

/// One step of call and slot together.
pub open spec fn config_step(c: GetConfig, event: GetEvent) -> GetConfig {
    GetConfig {
        phase: step_spec(c.phase, event).0,
        pool_present: apply_command(c.pool_present, step_spec(c.phase, event).1),
    }
}

/// The configuration after a whole sequence of answers.
pub open spec fn run(c: GetConfig, events: Seq<GetEvent>) -> GetConfig
    decreases events.len(),
{
    if events.len() == 0 {
        c
    } else {
        run(config_step(c, events.first()), events.drop_first())
    }
}

/// Whether every answer in the sequence is truthful for the configuration
/// it meets.
pub open spec fn trace_allowed(c: GetConfig, events: Seq<GetEvent>) -> bool
    decreases events.len(),
{
    if events.len() == 0 {
        true
    } else {
        event_allowed(c, events.first()) && trace_allowed(
            config_step(c, events.first()),
            events.drop_first(),
        )
    }
}

/// An answer a reachable store can give: it never refuses an acquisition
/// or a rebuild.
pub open spec fn success_event(event: GetEvent) -> bool {
    !(event is AcquireErr || event is BuildErr)
}

pub open spec fn all_success(events: Seq<GetEvent>) -> bool {
    forall|i: int| 0 <= i < events.len() ==> success_event(#[trigger] events[i])
}

/// A configuration is coherent when a call that is acquiring, or done,
/// really has a pool under it. Connections only ever come out of a present
/// pool.
pub open spec fn wf_config(c: GetConfig) -> bool {
    &&& (c.phase is Acquire ==> c.pool_present)
    &&& (c.phase is Complete ==> c.pool_present)
}

/// How many answers a reachable store still owes the call before it
/// completes.
pub open spec fn distance(c: GetConfig) -> nat {
    match c.phase {
        GetPhase::Complete => 0,
        GetPhase::Acquire => 1,
        GetPhase::Rebuild => 2,
        GetPhase::Backoff => 3,
        GetPhase::Inspect => if c.pool_present {
            2
        } else {
            3
        },
    }
}

/// Coherence is preserved by every truthful step: no reachable
/// configuration hands a connection out of an absent or half-written slot.
pub proof fn lemma_step_preserves_wf(c: GetConfig, event: GetEvent)
    requires
        wf_config(c),
        event_allowed(c, event),
    ensures
        wf_config(config_step(c, event)),
{
}

/// Coherence is preserved along every truthful trace.
pub proof fn lemma_run_preserves_wf(c: GetConfig, events: Seq<GetEvent>)
    requires
        wf_config(c),
        trace_allowed(c, events),
    ensures
        wf_config(run(c, events)),
    decreases events.len(),
{
    if events.len() > 0 {
        lemma_step_preserves_wf(c, events.first());
        lemma_run_preserves_wf(config_step(c, events.first()), events.drop_first());
    }
}

/// A failed acquisition never requeues the broken pool: the very next
/// configuration has the slot cleared and the call rebuilding, and the
/// command to the driver is to drop the pool.
pub proof fn lemma_failure_invalidates_before_retry(c: GetConfig)
    requires
        c.phase is Acquire,
    ensures
        config_step(c, GetEvent::AcquireErr).phase is Rebuild,
        !config_step(c, GetEvent::AcquireErr).pool_present,
        step_spec(c.phase, GetEvent::AcquireErr).1 is Clear,
{
}

/// A call that finds the slot empty rebuilds before it acquires.
pub proof fn lemma_absent_slot_rebuilds_first(c: GetConfig)
    requires
        c.phase is Inspect,
        !c.pool_present,
    ensures
        config_step(c, GetEvent::SlotAbsent).phase is Rebuild,
{
}

/// Against a reachable store, every truthful answer brings the call
/// exactly one step closer to completion.
pub proof fn lemma_success_run_distance(c: GetConfig, events: Seq<GetEvent>)
    requires
        trace_allowed(c, events),
        all_success(events),
    ensures
        events.len() <= distance(c),
        distance(run(c, events)) == distance(c) - events.len(),
    decreases events.len(),
{
    if events.len() > 0 {
        assert(success_event(events.first()));
        let c2 = config_step(c, events.first());
        assert(distance(c2) == distance(c) - 1);
        assert(all_success(events.drop_first())) by {
            assert(forall|i: int|
                0 <= i < events.drop_first().len() ==> events.drop_first()[i] == events[i + 1]);
        }
        lemma_success_run_distance(c2, events.drop_first());
    }
}

/// Against a reachable store, a call completes after exactly `distance`
/// answers: no truthful trace of that length leaves it anywhere but
/// `Complete`, and no longer truthful trace exists at all.
pub proof fn lemma_get_completes_when_reachable(c: GetConfig, events: Seq<GetEvent>)
    requires
        trace_allowed(c, events),
        all_success(events),
        events.len() == distance(c),
    ensures
        run(c, events).phase is Complete,
{
    lemma_success_run_distance(c, events);
    assert(distance(run(c, events)) == 0);
}

/// The canonical answers of a reachable store, from any configuration.
pub open spec fn success_trace(c: GetConfig) -> Seq<GetEvent>
    decreases distance(c),
{
    match c.phase {
        GetPhase::Complete => Seq::empty(),
        GetPhase::Acquire => seq![GetEvent::AcquireOk] + success_trace(
            config_step(c, GetEvent::AcquireOk),
        ),
        GetPhase::Rebuild => seq![GetEvent::BuildOk] + success_trace(
            config_step(c, GetEvent::BuildOk),
        ),
        GetPhase::Backoff => seq![GetEvent::BackoffElapsed] + success_trace(
            config_step(c, GetEvent::BackoffElapsed),
        ),
        GetPhase::Inspect => if c.pool_present {
            seq![GetEvent::SlotPresent] + success_trace(config_step(c, GetEvent::SlotPresent))
        } else {
            seq![GetEvent::SlotAbsent] + success_trace(config_step(c, GetEvent::SlotAbsent))
        },
    }
}

/// Running a concatenation is running the parts in order.
pub proof fn lemma_run_append(c: GetConfig, a: Seq<GetEvent>, b: Seq<GetEvent>)
    ensures
        run(c, a + b) == run(run(c, a), b),
    decreases a.len(),
{
    if a.len() == 0 {
        assert(a + b =~= b);
    } else {
        assert((a + b).first() == a.first());
        assert((a + b).drop_first() =~= a.drop_first() + b);
        lemma_run_append(config_step(c, a.first()), a.drop_first(), b);
    }
}

/// Truthful traces compose: answers truthful for the parts are truthful
/// for the whole.
pub proof fn lemma_trace_allowed_append(c: GetConfig, a: Seq<GetEvent>, b: Seq<GetEvent>)
    requires
        trace_allowed(c, a),
        trace_allowed(run(c, a), b),
    ensures
        trace_allowed(c, a + b),
    decreases a.len(),
{
    if a.len() == 0 {
        assert(a + b =~= b);
        assert(run(c, a) == c);
    } else {
        assert((a + b).first() == a.first());
        assert((a + b).drop_first() =~= a.drop_first() + b);
        lemma_trace_allowed_append(config_step(c, a.first()), a.drop_first(), b);
    }
}

/// `k` failed rebuild attempts, each followed by the backoff elapsing.
pub open spec fn retry_trace(k: nat) -> Seq<GetEvent>
    decreases k,
{
    if k == 0 {
        Seq::empty()
    } else {
        seq![GetEvent::BuildErr, GetEvent::BackoffElapsed] + retry_trace((k - 1) as nat)
    }
}

/// The configuration of a call that found the handle degraded: no pool in
/// the slot, a rebuild owed.
pub open spec fn degraded_rebuild() -> GetConfig {
    GetConfig { phase: GetPhase::Rebuild, pool_present: false }
}

/// While the store stays unreachable, the call loops between rebuild and
/// backoff: after any number of failed attempts it is still rebuilding,
/// still with the slot empty, and has not completed or given up.
pub proof fn lemma_retry_loop(k: nat)
    ensures
        trace_allowed(degraded_rebuild(), retry_trace(k)),
        run(degraded_rebuild(), retry_trace(k)) == degraded_rebuild(),
    decreases k,
{
    if k > 0 {
        reveal_with_fuel(run, 3);
        reveal_with_fuel(trace_allowed, 3);
        let pair = seq![GetEvent::BuildErr, GetEvent::BackoffElapsed];
        assert(pair.first() == GetEvent::BuildErr);
        assert(pair.drop_first() =~= seq![GetEvent::BackoffElapsed]);
        assert(pair.drop_first().drop_first() =~= Seq::<GetEvent>::empty());
        assert(run(degraded_rebuild(), pair) == degraded_rebuild());
        assert(trace_allowed(degraded_rebuild(), pair));
        lemma_retry_loop((k - 1) as nat);
        lemma_run_append(degraded_rebuild(), pair, retry_trace((k - 1) as nat));
        lemma_trace_allowed_append(degraded_rebuild(), pair, retry_trace((k - 1) as nat));
        assert(retry_trace(k) == pair + retry_trace((k - 1) as nat));
    }
}

/// The configuration of a call that found the handle ready and is about
/// to check a connection out.
pub open spec fn ready_acquire() -> GetConfig {
    GetConfig { phase: GetPhase::Acquire, pool_present: true }
}

/// The configuration of a call that obtained a connection from a pool
/// that is still in place.
pub open spec fn complete_ready() -> GetConfig {
    GetConfig { phase: GetPhase::Complete, pool_present: true }
}

/// If the store becomes unreachable after the handle was ready, the call
/// whose acquisition fails moves the handle to degraded at once, retries
/// the rebuild as long as the store stays away, and, the moment the store
/// answers again, rebuilds, acquires and completes: the caller gets a
/// connection, never the transport error.
pub proof fn lemma_outage_recovery(k: nat)
    ensures
        trace_allowed(
            ready_acquire(),
            seq![GetEvent::AcquireErr] + retry_trace(k) + seq![GetEvent::BuildOk, GetEvent::AcquireOk],
        ),
        config_step(ready_acquire(), GetEvent::AcquireErr) == degraded_rebuild(),
        run(
            ready_acquire(),
            seq![GetEvent::AcquireErr] + retry_trace(k) + seq![GetEvent::BuildOk, GetEvent::AcquireOk],
        ) == complete_ready(),
{
    reveal_with_fuel(run, 3);
    reveal_with_fuel(trace_allowed, 3);
    let start = ready_acquire();
    let fail = seq![GetEvent::AcquireErr];
    let finish = seq![GetEvent::BuildOk, GetEvent::AcquireOk];
    let retries = retry_trace(k);

    assert(fail.drop_first() =~= Seq::<GetEvent>::empty());
    assert(run(start, fail) == degraded_rebuild());

    lemma_retry_loop(k);
    lemma_run_append(start, fail, retries);
    assert(fail + retries =~= seq![GetEvent::AcquireErr] + retries);
    assert(run(start, fail + retries) == degraded_rebuild());

    let after_build = config_step(degraded_rebuild(), GetEvent::BuildOk);
    assert(after_build == ready_acquire());
    assert(finish.first() == GetEvent::BuildOk);
    assert(finish.drop_first() =~= seq![GetEvent::AcquireOk]);
    assert(finish.drop_first().drop_first() =~= Seq::<GetEvent>::empty());
    assert(run(degraded_rebuild(), finish) == complete_ready());

    lemma_run_append(start, fail + retries, finish);
    assert((fail + retries) + finish =~= fail + retries + finish);

    lemma_trace_allowed_append(start, fail, retries);
    lemma_trace_allowed_append(start, fail + retries, finish);
}

/// A reachable store really does offer a truthful trace that completes
/// every call: `get()` cannot be left suspended forever.
pub proof fn lemma_success_trace_completes(c: GetConfig)
    ensures
        trace_allowed(c, success_trace(c)),
        all_success(success_trace(c)),
        run(c, success_trace(c)).phase is Complete,
    decreases distance(c),
{
    if c.phase is Complete {
    } else {
        let e = success_trace(c).first();
        let c2 = config_step(c, e);
        assert(success_trace(c).drop_first() =~= success_trace(c2));
        lemma_success_trace_completes(c2);
    }
}

} // verus!
