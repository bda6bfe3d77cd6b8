//! One reconciliation cycle, decided from the probed state, the record kept in
//! the state store and the time. The caller performs what the plan says: it
//! runs the actuator, writes the log lines and stores the new record.

use vstd::prelude::*;
use crate::state::{ConnectionState, ProfileAction, state_name, action_for, profile_action_for};
use crate::timestamp::{decimal, decimal_text, parse_unsigned, parse_unsigned_decimal};

verus! {

/// Seconds after which the profile is applied again without a transition.
pub const STALENESS_SECONDS: u64 = 60;

/// The errors that end a cycle.
#[derive(Clone, Copy, Debug, PartialEq, Eq, Structural)]
pub enum ReconcileError {
    /// The status command could not be run or read.
    ProbeUnavailable,
    /// A stored timestamp is not a whole number of seconds.
    StoreCorrupt,
    /// The new record could not be stored after the action ran.
    StoreWriteFailed,
    /// The firewall's control command could not be started.
    ActuatorInvocationFailed,
}

/// What a cycle does.
#[derive(Clone, Copy, Debug, PartialEq, Eq, Structural)]
pub enum Decision {
    /// The state changed: act, log and store.
    Transition,
    /// The state is the same but the last action is stale: act and store, silently.
    Refresh,
    /// Nothing to do.
    Idle,
}

pub open spec fn spec_force_refresh(last: Option<u64>, now: u64) -> bool {
    match last {
        None => true,
        Some(t) => now >= t && now - t >= STALENESS_SECONDS,
    }
}

/// Whether the last action is stale. A clock that went back is no staleness.
pub fn force_refresh(last: Option<u64>, now: u64) -> (r: bool)
    ensures
        r == spec_force_refresh(last, now),
{
    match last {
        None => true,
        Some(t) => now >= t && now - t >= STALENESS_SECONDS,
    }
}

pub open spec fn spec_decide(
    previous: Seq<char>,
    current: ConnectionState,
    last: Option<u64>,
    now: u64,
) -> Decision {
    if previous != state_name(current) {
        Decision::Transition
    } else if spec_force_refresh(last, now) {
        Decision::Refresh
    } else {
        Decision::Idle
    }
}

fn same_text(a: &str, b: &str) -> (r: bool)
    ensures
        r == (a@ == b@),
{
    let n = a.unicode_len();
    if n != b.unicode_len() {
        return false;
    }
    let mut i: usize = 0;
    while i < n
        invariant
            i <= n,
            n == a@.len(),
            n == b@.len(),
            forall|j: int| 0 <= j < i ==> a@[j] == b@[j],
        decreases n - i,
    {
        if a.get_char(i) != b.get_char(i) {
            return false;
        }
        i = i + 1;
    }
    assert(a@ =~= b@);
    true
}

/// The decision table of one cycle.
pub fn decide(previous: &str, current: ConnectionState, last: Option<u64>, now: u64) -> (r:
    Decision)
    ensures
        r == spec_decide(previous@, current, last, now),
{
    if !same_text(previous, current.name()) {
        Decision::Transition
    } else if force_refresh(last, now) {
        Decision::Refresh
    } else {
        Decision::Idle
    }
}

/// The record of the state store: each key's text, where it is present.
pub struct StoredRecord {
    pub previous_state: Option<String>,
    pub last_refresh_time: Option<String>,
}

pub struct RecordView {
    pub previous_state: Option<Seq<char>>,
    pub last_refresh_time: Option<Seq<char>>,
}

pub open spec fn text_view(o: Option<String>) -> Option<Seq<char>> {
    match o {
        Some(s) => Some(s@),
        None => None,
    }
}

impl View for StoredRecord {
    type V = RecordView;

    open spec fn view(&self) -> RecordView {
        RecordView {
            previous_state: text_view(self.previous_state),
            last_refresh_time: text_view(self.last_refresh_time),
        }
    }
}

/// The values that a cycle that acted stores.
pub struct RecordUpdate {
    pub previous_state: String,
    pub last_refresh_time: String,
}

/// What the caller of a cycle performs, in this order: write the log line, if
/// any, with the action's announcement; run the action; write its
/// confirmation; store the update.
pub struct CyclePlan {
    pub action: Option<ProfileAction>,
    pub log_message: Option<String>,
    pub update: Option<RecordUpdate>,
}

pub open spec fn previous_text(rec: RecordView) -> Seq<char> {
    match rec.previous_state {
        Some(p) => p,
        None => Seq::empty(),
    }
}

/// The decision of a cycle, or the error that ends it. A failed probe is `None`.
pub open spec fn cycle_outcome(rec: RecordView, probe: Option<ConnectionState>, now: u64) -> Result<
    Decision,
    ReconcileError,
> {
    match probe {
        None => Err(ReconcileError::ProbeUnavailable),
        Some(current) => match rec.last_refresh_time {
            None => Ok(spec_decide(previous_text(rec), current, None, now)),
            Some(s) => match parse_unsigned(s) {
                None => Err(ReconcileError::StoreCorrupt),
                Some(t) => Ok(spec_decide(previous_text(rec), current, Some(t), now)),
            },
        },
    }
}

/// The record that a cycle leaves behind it when it acted at `now`.
pub open spec fn settled(current: ConnectionState, now: u64) -> RecordView {
    RecordView {
        previous_state: Some(state_name(current)),
        last_refresh_time: Some(decimal(now as nat)),
    }
}

/// The record after a cycle.
pub open spec fn record_after(rec: RecordView, probe: Option<ConnectionState>, now: u64) -> RecordView {
    match (cycle_outcome(rec, probe, now), probe) {
        (Ok(d), Some(current)) => if d == Decision::Idle {
            rec
        } else {
            settled(current, now)
        },
        _ => rec,
    }
}

pub open spec fn transition_text(previous: Seq<char>, current: Seq<char>) -> Seq<char> {
    "VPN state changed from '"@ + previous + "' to '"@ + current + "'"@
}

/// The log line of a transition.
pub fn transition_message(previous: &str, current: &str) -> (r: String)
    ensures
        r@ == transition_text(previous@, current@),
{
    let mut r = String::from_str("VPN state changed from '");
    r.append(previous);
    r.append("' to '");
    r.append(current);
    r.append("'");
    r
}

/// Plans one cycle. `probe` is the probed state, `None` where the probe failed.
pub fn plan_cycle(probe: Option<ConnectionState>, record: &StoredRecord, now: u64) -> (r: Result<
    CyclePlan,
    ReconcileError,
>)
    ensures
        match cycle_outcome(record@, probe, now) {
            Err(e) => r == Err::<CyclePlan, ReconcileError>(e),
            Ok(d) => r is Ok && probe is Some && {
                let plan = r->Ok_0;
                let current = probe->Some_0;
                &&& (d == Decision::Idle <==> plan.action is None)
                &&& (d != Decision::Idle ==> plan.action == Some(action_for(current)))
                &&& (d == Decision::Transition <==> plan.log_message is Some)
                &&& (d == Decision::Transition ==> plan.log_message->Some_0@ == transition_text(
                    previous_text(record@),
                    state_name(current),
                ))
                &&& (d == Decision::Idle <==> plan.update is None)
            },
        },
        record_after(record@, probe, now) == match r {
            Ok(plan) => match plan.update {
                Some(u) => RecordView {
                    previous_state: Some(u.previous_state@),
                    last_refresh_time: Some(u.last_refresh_time@),
                },
                None => record@,
            },
            Err(_) => record@,
        },
{
    let current = match probe {
        None => {
            return Err(ReconcileError::ProbeUnavailable);
        },
        Some(c) => c,
    };
    let previous: &str = match &record.previous_state {
        Some(p) => p.as_str(),
        None => "",
    };
    proof {
        reveal_strlit("");
    }
    let last = match &record.last_refresh_time {
        None => None,
        Some(s) => match parse_unsigned_decimal(s.as_str()) {
            None => {
                return Err(ReconcileError::StoreCorrupt);
            },
            Some(t) => Some(t),
        },
    };
    assert(previous@ == previous_text(record@));
    let d = decide(previous, current, last, now);
    match d {
        Decision::Idle => Ok(CyclePlan { action: None, log_message: None, update: None }),
        _ => {
            let log_message = if d == Decision::Transition {
                Some(transition_message(previous, current.name()))
            } else {
                None
            };
            let update = RecordUpdate {
                previous_state: current.name().to_string(),
                last_refresh_time: decimal_text(now),
            };
            Ok(
                CyclePlan {
                    action: Some(profile_action_for(current)),
                    log_message,
                    update: Some(update),
                },
            )
        },
    }
}

} // verus!
