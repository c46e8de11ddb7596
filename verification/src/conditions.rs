//! The Ready-condition tracker.
//!
//! A condition's `last_transition_time` only advances when the boolean
//! Ready value actually flips relative to the previously recorded Ready
//! condition; repeated writes of the same polarity carry the previous
//! timestamp forward.  Reason and message are always overwritten.

use vstd::prelude::*;
use crate::resources::{CloudflareDNSRecord, Condition};

verus! {

broadcast use vstd::string::group_string_axioms;

/// The first Ready condition of a condition list, if any.
pub open spec fn spec_find_ready(conds: Seq<Condition>) -> Option<Condition>
    decreases conds.len(),
{
    if conds.len() == 0 {
        None
    } else if conds[0].type_@ == "Ready"@ {
        Some(conds[0])
    } else {
        spec_find_ready(conds.drop_first())
    }
}

/// The condition list recorded on a resource, if it has one.
pub open spec fn spec_conditions_of(r: &CloudflareDNSRecord) -> Option<Seq<Condition>> {
    match r.status {
        Some(st) => match st.conditions {
            Some(cs) => Some(cs@),
            None => None,
        },
        None => None,
    }
}

/// Whether the resource counts as "was ready" for transition-time purposes.
/// A resource with no condition list at all counts as ready, so that its
/// very first error does not claim a long-standing failure.
pub open spec fn spec_was_ready(conds: Option<Seq<Condition>>) -> bool {
    match conds {
        None => true,
        Some(cs) => match spec_find_ready(cs) {
            Some(c) => c.status@ == "True"@,
            None => false,
        },
    }
}

/// The previously recorded Ready condition, if any.
pub open spec fn spec_last_ready(conds: Option<Seq<Condition>>) -> Option<Condition> {
    match conds {
        None => None,
        Some(cs) => spec_find_ready(cs),
    }
}

/// The transition time an error (NotReady) condition gets: the call time
/// when the Ready value flips from ready to not ready, else the previous
/// Ready condition's time, carried forward.
pub open spec fn spec_error_transition_time(conds: Option<Seq<Condition>>, now_ms: i64) -> i64 {
    if spec_was_ready(conds) {
        now_ms
    } else {
        match spec_last_ready(conds) {
            Some(c) => c.last_transition_time,
            None => now_ms,
        }
    }
}

/// The transition time a success (Ready) condition gets: the call time when
/// the Ready value flips from not ready to ready, else the previous Ready
/// condition's time, carried forward.
pub open spec fn spec_success_transition_time(conds: Option<Seq<Condition>>, now_ms: i64) -> i64 {
    if !spec_was_ready(conds) {
        now_ms
    } else {
        match spec_last_ready(conds) {
            Some(c) => c.last_transition_time,
            None => now_ms,
        }
    }
}

proof fn lemma_find_ready_step(conds: Seq<Condition>, i: int)
    requires
        0 <= i < conds.len(),
        forall|j: int| 0 <= j < i ==> conds[j].type_@ != "Ready"@,
    ensures
        spec_find_ready(conds) == spec_find_ready(conds.skip(i)),
    decreases i,
{
    if i > 0 {
        lemma_find_ready_step(conds, i - 1);
        assert(conds.skip(i - 1).drop_first() =~= conds.skip(i));
        assert(conds.skip(i - 1)[0] == conds[i - 1]);
    } else {
        assert(conds.skip(0) =~= conds);
    }
}

proof fn lemma_find_ready_none(conds: Seq<Condition>)
    requires
        forall|j: int| 0 <= j < conds.len() ==> conds[j].type_@ != "Ready"@,
    ensures
        spec_find_ready(conds) is None,
    decreases conds.len(),
{
    if conds.len() > 0 {
        lemma_find_ready_none(conds.drop_first());
    }
}

/// Index of the first Ready condition in a condition list.
fn find_ready_index(conds: &Vec<Condition>) -> (r: Option<usize>)
    ensures
        match r {
            Some(i) => i < conds@.len() && spec_find_ready(conds@) == Some(conds@[i as int]),
            None => spec_find_ready(conds@) is None,
        },
{
    let ready: String = "Ready".to_owned();
    let n = conds.len();
    for i in 0..n
        invariant
            n == conds@.len(),
            ready@ == "Ready"@,
            forall|j: int| 0 <= j < i ==> conds@[j].type_@ != "Ready"@,
    {
        if conds[i].type_ == ready {
            proof {
                lemma_find_ready_step(conds@, i as int);
                assert(conds@.skip(i as int)[0] == conds@[i as int]);
            }
            return Some(i);
        }
    }
    proof {
        lemma_find_ready_none(conds@);
    }
    None
}

/// What the previously recorded Ready condition says: whether the resource
/// was ready, and that condition's transition time if there was one.
struct LastReady {
    was_ready: bool,
    last_transition_time: Option<i64>,
}

fn last_ready_condition(resource: &CloudflareDNSRecord) -> (r: LastReady)
    ensures
        r.was_ready == spec_was_ready(spec_conditions_of(resource)),
        match spec_last_ready(spec_conditions_of(resource)) {
            Some(c) => r.last_transition_time == Some(c.last_transition_time),
            None => r.last_transition_time is None,
        },
{
    let conds = match &resource.status {
        Some(st) => match &st.conditions {
            Some(cs) => cs,
            None => {
                return LastReady { was_ready: true, last_transition_time: None };
            },
        },
        None => {
            return LastReady { was_ready: true, last_transition_time: None };
        },
    };
    let true_s: String = "True".to_owned();
    match find_ready_index(conds) {
        Some(i) => LastReady {
            was_ready: conds[i].status == true_s,
            last_transition_time: Some(conds[i].last_transition_time),
        },
        None => LastReady { was_ready: false, last_transition_time: None },
    }
}

/// Build the NotReady condition for a failed apply, against an explicit
/// call time.  The transition time is refreshed to `now_ms` only when the
/// Ready value flips; otherwise the previous Ready condition's time is
/// carried forward unchanged.
pub fn error_condition_at(
    current: &CloudflareDNSRecord,
    reason: String,
    message: String,
    observed_generation: Option<i64>,
    now_ms: i64,
) -> (c: Condition)
    ensures
        c.type_@ == "Ready"@,
        c.status@ == "False"@,
        c.reason == reason,
        c.message == message,
        c.observed_generation == observed_generation,
        c.last_transition_time == spec_error_transition_time(
            spec_conditions_of(current),
            now_ms,
        ),
{
    let last = last_ready_condition(current);
    let last_transition_time: i64 = if last.was_ready {
        now_ms
    } else {
        match last.last_transition_time {
            Some(t) => t,
            None => now_ms,
        }
    };
    Condition {
        type_: "Ready".to_owned(),
        status: "False".to_owned(),
        reason,
        message,
        last_transition_time,
        observed_generation,
    }
}

/// Build the Ready condition for a successful apply, against an explicit
/// call time.  The transition time is refreshed to `now_ms` only when the
/// Ready value flips; otherwise the previous Ready condition's time is
/// carried forward unchanged.
pub fn success_condition_at(
    current: &CloudflareDNSRecord,
    observed_generation: Option<i64>,
    now_ms: i64,
) -> (c: Condition)
    ensures
        c.type_@ == "Ready"@,
        c.status@ == "True"@,
        c.reason@ == "Sucessfully applied changes"@,
        c.message@ == "DNS record ready"@,
        c.observed_generation == observed_generation,
        c.last_transition_time == spec_success_transition_time(
            spec_conditions_of(current),
            now_ms,
        ),
{
    let last = last_ready_condition(current);
    let last_transition_time: i64 = if !last.was_ready {
        now_ms
    } else {
        match last.last_transition_time {
            Some(t) => t,
            None => now_ms,
        }
    };
    Condition {
        type_: "Ready".to_owned(),
        status: "True".to_owned(),
        reason: "Sucessfully applied changes".to_owned(),
        message: "DNS record ready".to_owned(),
        last_transition_time,
        observed_generation,
    }
}

/// Build the NotReady condition for a failed apply, stamped with the
/// current wall-clock time.  Apart from the transition time in the case of
/// a polarity flip, the result is as [`error_condition_at`] states; when
/// the recorded Ready condition already says NotReady, its transition time
/// is carried forward exactly.
pub fn error_condition(
    current: &CloudflareDNSRecord,
    reason: String,
    message: String,
    observed_generation: Option<i64>,
) -> (c: Condition)
    ensures
        c.type_@ == "Ready"@,
        c.status@ == "False"@,
        c.reason == reason,
        c.message == message,
        c.observed_generation == observed_generation,
        (!spec_was_ready(spec_conditions_of(current)) && spec_last_ready(
            spec_conditions_of(current),
        ) is Some) ==> c.last_transition_time == spec_last_ready(
            spec_conditions_of(current),
        )->Some_0.last_transition_time,
{
    let now_ms = crate::clock::now_millis();
    error_condition_at(current, reason, message, observed_generation, now_ms)
}

/// Build the Ready condition for a successful apply, stamped with the
/// current wall-clock time.  When the recorded Ready condition already says
/// Ready, its transition time is carried forward exactly.
pub fn success_condition(current: &CloudflareDNSRecord, observed_generation: Option<i64>) -> (c:
    Condition)
    ensures
        c.type_@ == "Ready"@,
        c.status@ == "True"@,
        c.observed_generation == observed_generation,
        (spec_was_ready(spec_conditions_of(current)) && spec_last_ready(
            spec_conditions_of(current),
        ) is Some) ==> c.last_transition_time == spec_last_ready(
            spec_conditions_of(current),
        )->Some_0.last_transition_time,
{
    let now_ms = crate::clock::now_millis();
    success_condition_at(current, observed_generation, now_ms)
}

/// Law: condition transition times are stable.  Given a recorded Ready
/// condition, a condition write that keeps its Ready polarity carries its
/// transition time forward unchanged, whatever reason or call time the
/// write has; a write that flips the polarity stamps the call time.
pub proof fn lemma_transition_time_stability(c1: Condition, now2: i64)
    requires
        c1.type_@ == "Ready"@,
    ensures
        c1.status@ != "True"@ ==> spec_error_transition_time(Some(seq![c1]), now2)
            == c1.last_transition_time,
        c1.status@ != "True"@ ==> spec_success_transition_time(Some(seq![c1]), now2) == now2,
        c1.status@ == "True"@ ==> spec_success_transition_time(Some(seq![c1]), now2)
            == c1.last_transition_time,
        c1.status@ == "True"@ ==> spec_error_transition_time(Some(seq![c1]), now2) == now2,
{
    assert(spec_find_ready(seq![c1]) == Some(c1));
}

} // verus!
