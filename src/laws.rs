//! What holds of cycles and of runs of cycles.

use vstd::prelude::*;
use crate::state::{ConnectionState, ProfileAction, state_name, action_for};
use crate::timestamp::{decimal, lemma_parse_decimal};
use crate::reconcile::{
    Decision, ReconcileError, RecordView, cycle_outcome, record_after, settled, STALENESS_SECONDS,
};

verus! {

/// The record after a run of cycles that all probe `current`, at the given times.
pub open spec fn run_cycles(rec: RecordView, current: ConnectionState, times: Seq<u64>) -> RecordView
    decreases times.len(),
{
    if times.len() == 0 {
        rec
    } else {
        run_cycles(record_after(rec, Some(current), times[0]), current, times.drop_first())
    }
}

/// On a first run, with nothing stored, the cycle acts whatever the state,
/// and stores both keys.
pub proof fn lemma_initial_run(current: ConnectionState, now: u64)
    ensures
        ({
            let empty = RecordView { previous_state: None, last_refresh_time: None };
            &&& cycle_outcome(empty, Some(current), now) is Ok
            &&& cycle_outcome(empty, Some(current), now)->Ok_0 != Decision::Idle
            &&& record_after(empty, Some(current), now) == settled(current, now)
        }),
{
    reveal_strlit("connected");
    reveal_strlit("disconnected");
}

/// A cycle that acts leaves the record settled on the probed state and its time.
pub proof fn lemma_action_settles(rec: RecordView, current: ConnectionState, now: u64)
    requires
        cycle_outcome(rec, Some(current), now) is Ok,
        cycle_outcome(rec, Some(current), now)->Ok_0 != Decision::Idle,
    ensures
        record_after(rec, Some(current), now) == settled(current, now),
{
}

/// Once settled at `t`, cycles that probe the same state before the staleness
/// threshold after `t` has passed do nothing and leave the record as it is.
pub proof fn lemma_no_op_stability(current: ConnectionState, t: u64, times: Seq<u64>)
    requires
        forall|i: int|
            0 <= i < times.len() ==> #[trigger] times[i] < t + STALENESS_SECONDS,
    ensures
        forall|i: int|
            0 <= i < times.len() ==> cycle_outcome(settled(current, t), Some(current), #[trigger] times[i])
                == Ok::<Decision, ReconcileError>(Decision::Idle),
        run_cycles(settled(current, t), current, times) == settled(current, t),
    decreases times.len(),
{
    lemma_parse_decimal(t);
    if times.len() > 0 {
        let rest = times.drop_first();
        assert forall|i: int| 0 <= i < rest.len() implies #[trigger] rest[i] < t
            + STALENESS_SECONDS by {
            assert(rest[i] == times[i + 1]);
        }
        lemma_no_op_stability(current, t, rest);
        assert(cycle_outcome(settled(current, t), Some(current), times[0]) == Ok::<
            Decision,
            ReconcileError,
        >(Decision::Idle));
    }
}

/// Going from disconnected to connected: a transition, the disabling action,
/// and a record settled on "connected" at the cycle's time.
pub proof fn lemma_transition_to_connected(last_refresh: Option<Seq<char>>, now: u64)
    requires
        last_refresh is None || crate::timestamp::parse_unsigned(last_refresh->Some_0) is Some,
    ensures
        ({
            let rec = RecordView {
                previous_state: Some("disconnected"@),
                last_refresh_time: last_refresh,
            };
            &&& cycle_outcome(rec, Some(ConnectionState::Connected), now) == Ok::<
                Decision,
                ReconcileError,
            >(Decision::Transition)
            &&& action_for(ConnectionState::Connected) == ProfileAction::DisableMonitoring
            &&& record_after(rec, Some(ConnectionState::Connected), now) == RecordView {
                previous_state: Some("connected"@),
                last_refresh_time: Some(decimal(now as nat)),
            }
        }),
{
    reveal_strlit("connected");
    reveal_strlit("disconnected");
    assert("connected"@[0] != "disconnected"@[0]);
}

/// With the same state and a last action at least the threshold ago, the
/// cycle refreshes silently: the time advances, the state stays.
pub proof fn lemma_stale_refresh(current: ConnectionState, t: u64, now: u64)
    requires
        now >= t + STALENESS_SECONDS,
    ensures
        cycle_outcome(settled(current, t), Some(current), now) == Ok::<Decision, ReconcileError>(
            Decision::Refresh,
        ),
        record_after(settled(current, t), Some(current), now).previous_state == settled(
            current,
            t,
        ).previous_state,
        record_after(settled(current, t), Some(current), now).last_refresh_time == Some(
            decimal(now as nat),
        ),
{
    lemma_parse_decimal(t);
}

/// A failed probe leaves the record exactly as it was.
pub proof fn lemma_probe_failure(rec: RecordView, now: u64)
    ensures
        cycle_outcome(rec, None, now) == Err::<Decision, ReconcileError>(
            ReconcileError::ProbeUnavailable,
        ),
        record_after(rec, None, now) == rec,
{
}

/// The action depends on the state alone.
pub proof fn lemma_action_mapping(a: ConnectionState, b: ConnectionState)
    ensures
        a == b ==> action_for(a) == action_for(b),
        action_for(ConnectionState::Connected) == ProfileAction::DisableMonitoring,
        action_for(ConnectionState::Disconnected) == ProfileAction::EnableVpnOff,
{
}

} // verus!
