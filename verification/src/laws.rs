//! Ordering laws of the bring-up sequencer, proved over every possible run
//! of the step machine: a halted sequence never yields handles, readiness is
//! reached only after an active configuration was observed, polling keeps a
//! fixed cadence, stack slots are claimed only after a successful join, and
//! a successful join is bracketed by the exact signaling sequence.

use vstd::prelude::*;

use crate::bringup::Action;
use crate::bringup::Event;
use crate::bringup::POLL_INTERVAL_MS;
use crate::bringup::Phase;
use crate::bringup::SIGNAL_SETTLE_MS;
use crate::bringup::action_spec;
use crate::bringup::event_fits;
use crate::bringup::fitting_events;
use crate::bringup::run_spec;
use crate::bringup::step_spec;
use crate::bringup::trace_spec;
use crate::errors::BringupError;

verus! {

/// A run performs one action per event consumed.
pub proof fn lemma_trace_len(p: Phase, evs: Seq<Event>)
    ensures
        trace_spec(p, evs).len() == evs.len(),
    decreases evs.len(),
{
    if evs.len() > 0 {
        lemma_trace_len(step_spec(p, evs[0]), evs.drop_first());
    }
}

/// A halted sequence stays halted: once the machine has failed, no sequence
/// of events moves it anywhere else, so a failed bring-up can never reach
/// the phase that hands handles out.
pub proof fn lemma_failed_absorbs(e: BringupError, evs: Seq<Event>)
    ensures
        run_spec(Phase::Failed(e), evs) == Phase::Failed(e),
    decreases evs.len(),
{
    if evs.len() > 0 {
        assert(step_spec(Phase::Failed(e), evs[0]) == Phase::Failed(e));
        lemma_failed_absorbs(e, evs.drop_first());
    }
}

/// A rejected join halts the sequence for good: the step after a failed
/// join request is the halted phase, and no later events ever bring the
/// machine to `Ready`, so the caller receives no handles.
pub proof fn lemma_join_failure_no_handles(evs: Seq<Event>)
    ensures
        step_spec(Phase::Joining, Event::JoinResult(false)) == Phase::Failed(
            BringupError::JoinFailed,
        ),
        run_spec(step_spec(Phase::Joining, Event::JoinResult(false)), evs) == Phase::Failed(
            BringupError::JoinFailed,
        ),
{
    lemma_failed_absorbs(BringupError::JoinFailed, evs);
}

/// The phases that can stand before a successful join request: everything
/// from the first claim up to the join itself, and the halted phase.
pub open spec fn pre_join(p: Phase) -> bool {
    match p {
        Phase::ClaimingRadio => true,
        Phase::BuildingRadio => true,
        Phase::SpawningRadio => true,
        Phase::LoadingCalibration => true,
        Phase::SettingPowerSave => true,
        Phase::StartSignalOn => true,
        Phase::StartSignalHold => true,
        Phase::StartSignalOff => true,
        Phase::Joining => true,
        Phase::Failed(_) => true,
        _ => false,
    }
}

/// Stack slots are claimed only behind a successful join: any run that
/// starts before the join and reaches the stack-claim phase contains a
/// successful join event. Together with [`lemma_join_failure_no_handles`],
/// a bring-up whose join fails leaves the stack slots unclaimed.
pub proof fn lemma_stack_claim_needs_join(p: Phase, evs: Seq<Event>)
    requires
        pre_join(p),
        run_spec(p, evs) == Phase::ClaimingStack,
    ensures
        exists|i: int| 0 <= i < evs.len() && evs[i] == Event::JoinResult(true),
    decreases evs.len(),
{
    if evs.len() == 0 {
        assert(run_spec(p, evs) == p);
    } else {
        let p1 = step_spec(p, evs[0]);
        if pre_join(p1) {
            lemma_stack_claim_needs_join(p1, evs.drop_first());
            let j = choose|j: int|
                0 <= j < evs.drop_first().len() && evs.drop_first()[j] == Event::JoinResult(true);
            assert(evs[j + 1] == Event::JoinResult(true));
        } else {
            assert(p == Phase::Joining && evs[0] == Event::JoinResult(true));
        }
    }
}

/// Readiness needs an observation: any run that ends in `Ready` without
/// starting there contains an event reporting the "configuration active"
/// accessor as true. The poller therefore returns only after the stack has
/// actually reported its configuration active at least once.
pub proof fn lemma_ready_needs_active_observation(p: Phase, evs: Seq<Event>)
    requires
        p != Phase::Ready,
        run_spec(p, evs) == Phase::Ready,
    ensures
        exists|i: int| 0 <= i < evs.len() && evs[i] == Event::ConfigActive(true),
    decreases evs.len(),
{
    if evs.len() == 0 {
        assert(run_spec(p, evs) == p);
    } else {
        let p1 = step_spec(p, evs[0]);
        if p1 == Phase::Ready {
            assert(p == Phase::Polling && evs[0] == Event::ConfigActive(true));
        } else {
            lemma_ready_needs_active_observation(p1, evs.drop_first());
            let j = choose|j: int|
                0 <= j < evs.drop_first().len() && evs.drop_first()[j] == Event::ConfigActive(
                    true,
                );
            assert(evs[j + 1] == Event::ConfigActive(true));
        }
    }
}

/// Polling keeps a fixed cadence and never spins: in the polling phase the
/// pending action is one read of the accessor; an inactive reading leads to
/// a wait of exactly one poll interval — a yield, not a busy spin — after
/// which the machine polls again; an active reading ends the wait.
pub proof fn lemma_poll_cadence()
    ensures
        action_spec(Phase::Polling) == Action::PollConfigActive,
        step_spec(Phase::Polling, Event::ConfigActive(false)) == Phase::PollWaiting,
        action_spec(Phase::PollWaiting) == Action::Wait(POLL_INTERVAL_MS),
        step_spec(Phase::PollWaiting, Event::Proceed) == Phase::Polling,
        step_spec(Phase::Polling, Event::ConfigActive(true)) == Phase::Ready,
{
}

/// The poller never busy-spins: in any fitting run beginning at the polling
/// phase, the performed actions strictly alternate one read of the accessor
/// with one wait of exactly the poll interval, beginning with a read — every
/// two consecutive reads have a yielding wait between them.
pub proof fn lemma_poll_trace_alternates(evs: Seq<Event>)
    requires
        fitting_events(Phase::Polling, evs),
    ensures
        forall|i: int|
            0 <= i < evs.len() ==> trace_spec(Phase::Polling, evs)[i] == (if i % 2 == 0 {
                Action::PollConfigActive
            } else {
                Action::Wait(POLL_INTERVAL_MS)
            }),
    decreases evs.len(),
{
    if evs.len() > 0 {
        let t = trace_spec(Phase::Polling, evs);
        lemma_trace_len(Phase::Polling, evs);
        assert(evs[0] is ConfigActive);
        let e1 = evs.drop_first();
        if evs[0] == Event::ConfigActive(true) {
            assert(step_spec(Phase::Polling, evs[0]) == Phase::Ready);
            assert(fitting_events(Phase::Ready, e1));
            assert(e1.len() == 0);
            assert(t.len() == 1);
            assert(t[0] == Action::PollConfigActive);
        } else {
            assert(evs[0] == Event::ConfigActive(false));
            assert(step_spec(Phase::Polling, evs[0]) == Phase::PollWaiting);
            assert(fitting_events(Phase::PollWaiting, e1));
            if e1.len() == 0 {
                assert(t.len() == 1);
                assert(t[0] == Action::PollConfigActive);
            } else {
                assert(e1[0] == Event::Proceed);
                let e2 = e1.drop_first();
                assert(step_spec(Phase::PollWaiting, e1[0]) == Phase::Polling);
                assert(fitting_events(Phase::Polling, e2));
                lemma_poll_trace_alternates(e2);
                lemma_trace_len(Phase::Polling, e2);
                let t2 = trace_spec(Phase::Polling, e2);
                assert(trace_spec(Phase::PollWaiting, e1) == seq![
                    action_spec(Phase::PollWaiting),
                ] + t2);
                assert(t == seq![action_spec(Phase::Polling)] + trace_spec(
                    Phase::PollWaiting,
                    e1,
                ));
                assert forall|i: int| 0 <= i < evs.len() implies t[i] == (if i % 2 == 0 {
                    Action::PollConfigActive
                } else {
                    Action::Wait(POLL_INTERVAL_MS)
                }) by {
                    if i == 0 {
                        assert(t[0] == Action::PollConfigActive);
                    } else if i == 1 {
                        assert(t[1] == Action::Wait(POLL_INTERVAL_MS));
                    } else {
                        assert(t[i] == t2[i - 2]);
                        assert((i - 2) % 2 == i % 2);
                    }
                }
            }
        }
    }
}

/// The exact signaling bracket around a successful join: indicator on, the
/// settle wait, indicator off, the join request, indicator on, the settle
/// wait, indicator off.
pub open spec fn association_bracket() -> Seq<Action> {
    seq![
        Action::SetIndicator(true),
        Action::Wait(SIGNAL_SETTLE_MS),
        Action::SetIndicator(false),
        Action::JoinNetwork,
        Action::SetIndicator(true),
        Action::Wait(SIGNAL_SETTLE_MS),
        Action::SetIndicator(false),
    ]
}

/// Association signaling always brackets the join: any run of fitting
/// events that carries the machine from the start of signaling to the
/// stack-claim phase — that is, any successful join — performs, as its
/// first seven actions, exactly the bracket of [`association_bracket`], in
/// that order, with the join succeeding in the middle.
pub proof fn lemma_association_bracket(evs: Seq<Event>)
    requires
        fitting_events(Phase::StartSignalOn, evs),
        run_spec(Phase::StartSignalOn, evs) == Phase::ClaimingStack,
    ensures
        evs.len() >= 7,
        evs[3] == Event::JoinResult(true),
        trace_spec(Phase::StartSignalOn, evs).subrange(0, 7) =~= association_bracket(),
{
    let p0 = Phase::StartSignalOn;
    assert(evs.len() > 0);
    assert(event_fits(p0, evs[0]) && evs[0] == Event::Proceed);
    let e1 = evs.drop_first();
    let p1 = step_spec(p0, evs[0]);
    assert(p1 == Phase::StartSignalHold);
    assert(run_spec(p1, e1) == Phase::ClaimingStack && fitting_events(p1, e1));

    assert(e1.len() > 0);
    assert(e1[0] == Event::Proceed);
    let e2 = e1.drop_first();
    let p2 = step_spec(p1, e1[0]);
    assert(p2 == Phase::StartSignalOff);
    assert(run_spec(p2, e2) == Phase::ClaimingStack && fitting_events(p2, e2));

    assert(e2.len() > 0);
    assert(e2[0] == Event::Proceed);
    let e3 = e2.drop_first();
    let p3 = step_spec(p2, e2[0]);
    assert(p3 == Phase::Joining);
    assert(run_spec(p3, e3) == Phase::ClaimingStack && fitting_events(p3, e3));

    assert(e3.len() > 0);
    assert(e3[0] is JoinResult);
    let e4 = e3.drop_first();
    let p4 = step_spec(p3, e3[0]);
    assert(run_spec(p4, e4) == Phase::ClaimingStack && fitting_events(p4, e4));
    if e3[0] == Event::JoinResult(false) {
        lemma_failed_absorbs(BringupError::JoinFailed, e4);
        assert(false);
    }
    assert(e3[0] == Event::JoinResult(true));
    assert(p4 == Phase::DoneSignalOn);

    assert(e4.len() > 0);
    assert(e4[0] == Event::Proceed);
    let e5 = e4.drop_first();
    let p5 = step_spec(p4, e4[0]);
    assert(p5 == Phase::DoneSignalHold);
    assert(run_spec(p5, e5) == Phase::ClaimingStack && fitting_events(p5, e5));

    assert(e5.len() > 0);
    assert(e5[0] == Event::Proceed);
    let e6 = e5.drop_first();
    let p6 = step_spec(p5, e5[0]);
    assert(p6 == Phase::DoneSignalOff);
    assert(run_spec(p6, e6) == Phase::ClaimingStack && fitting_events(p6, e6));

    assert(e6.len() > 0);
    assert(e6[0] == Event::Proceed);

    assert(evs[1] == e1[0]);
    assert(evs[2] == e2[0]);
    assert(evs[3] == e3[0]);
    assert(evs[4] == e4[0]);
    assert(evs[5] == e5[0]);
    assert(evs[6] == e6[0]);

    let t = trace_spec(p0, evs);
    assert(t == seq![action_spec(p0)] + trace_spec(p1, e1));
    assert(trace_spec(p1, e1) == seq![action_spec(p1)] + trace_spec(p2, e2));
    assert(trace_spec(p2, e2) == seq![action_spec(p2)] + trace_spec(p3, e3));
    assert(trace_spec(p3, e3) == seq![action_spec(p3)] + trace_spec(p4, e4));
    assert(trace_spec(p4, e4) == seq![action_spec(p4)] + trace_spec(p5, e5));
    assert(trace_spec(p5, e5) == seq![action_spec(p5)] + trace_spec(p6, e6));
    lemma_trace_len(p6, e6);
    assert(trace_spec(p6, e6) == seq![action_spec(p6)] + trace_spec(
        step_spec(p6, e6[0]),
        e6.drop_first(),
    ));
    assert(trace_spec(p6, e6)[0] == action_spec(p6));

    assert(t[0] == Action::SetIndicator(true));
    assert(t[1] == Action::Wait(SIGNAL_SETTLE_MS));
    assert(t[2] == Action::SetIndicator(false));
    assert(t[3] == Action::JoinNetwork);
    assert(t[4] == Action::SetIndicator(true));
    assert(t[5] == Action::Wait(SIGNAL_SETTLE_MS));
    assert(t[6] == Action::SetIndicator(false));
}

/// The bracket law over a whole bring-up: any run of fitting events from
/// the first claim to the stack-claim phase performs the radio preparation
/// as its first five actions and then, as actions five through eleven,
/// exactly the signaling bracket of [`association_bracket`], with the join
/// succeeding in the middle.
pub proof fn lemma_bringup_brackets_join(evs: Seq<Event>)
    requires
        fitting_events(Phase::ClaimingRadio, evs),
        run_spec(Phase::ClaimingRadio, evs) == Phase::ClaimingStack,
    ensures
        evs.len() >= 12,
        evs[8] == Event::JoinResult(true),
        trace_spec(Phase::ClaimingRadio, evs).subrange(5, 12) =~= association_bracket(),
{
    let p0 = Phase::ClaimingRadio;
    assert(evs.len() > 0);
    assert(evs[0] is ClaimResult);
    let e1 = evs.drop_first();
    let p1 = step_spec(p0, evs[0]);
    assert(run_spec(p1, e1) == Phase::ClaimingStack && fitting_events(p1, e1));
    if evs[0] == Event::ClaimResult(false) {
        lemma_failed_absorbs(BringupError::RadioSlotClaimed, e1);
        assert(false);
    }
    assert(p1 == Phase::BuildingRadio);

    assert(e1.len() > 0);
    assert(e1[0] == Event::Proceed);
    let e2 = e1.drop_first();
    let p2 = step_spec(p1, e1[0]);
    assert(p2 == Phase::SpawningRadio);
    assert(run_spec(p2, e2) == Phase::ClaimingStack && fitting_events(p2, e2));

    assert(e2.len() > 0);
    assert(e2[0] is SpawnResult);
    let e3 = e2.drop_first();
    let p3 = step_spec(p2, e2[0]);
    assert(run_spec(p3, e3) == Phase::ClaimingStack && fitting_events(p3, e3));
    if e2[0] == Event::SpawnResult(false) {
        lemma_failed_absorbs(BringupError::SpawnRejected, e3);
        assert(false);
    }
    assert(p3 == Phase::LoadingCalibration);

    assert(e3.len() > 0);
    assert(e3[0] == Event::Proceed);
    let e4 = e3.drop_first();
    let p4 = step_spec(p3, e3[0]);
    assert(p4 == Phase::SettingPowerSave);
    assert(run_spec(p4, e4) == Phase::ClaimingStack && fitting_events(p4, e4));

    assert(e4.len() > 0);
    assert(e4[0] == Event::Proceed);
    let e5 = e4.drop_first();
    let p5 = step_spec(p4, e4[0]);
    assert(p5 == Phase::StartSignalOn);
    assert(run_spec(p5, e5) == Phase::ClaimingStack && fitting_events(p5, e5));

    lemma_association_bracket(e5);
    assert(e5[3] == Event::JoinResult(true));
    assert(evs[8] == e5[3]);

    let t = trace_spec(p0, evs);
    let t5 = trace_spec(p5, e5);
    assert(t == seq![action_spec(p0)] + trace_spec(p1, e1));
    assert(trace_spec(p1, e1) == seq![action_spec(p1)] + trace_spec(p2, e2));
    assert(trace_spec(p2, e2) == seq![action_spec(p2)] + trace_spec(p3, e3));
    assert(trace_spec(p3, e3) == seq![action_spec(p3)] + trace_spec(p4, e4));
    assert(trace_spec(p4, e4) == seq![action_spec(p4)] + t5);
    lemma_trace_len(p0, evs);
    lemma_trace_len(p5, e5);
    assert forall|k: int| 0 <= k < 7 implies t[5 + k] == t5[k] by {
    }
    assert forall|k: int| 0 <= k < 7 implies t5[k] == association_bracket()[k] by {
        assert(t5.subrange(0, 7)[k] == t5[k]);
    }
    assert(t.subrange(5, 12) =~= association_bracket());
}

} // verus!
