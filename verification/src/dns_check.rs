//! The DNS propagation checker's decision core.
//!
//! The long-lived checker loop merges a periodic timer and an on-demand
//! request queue; for each resource it resolves the expected content,
//! queries DNS, and compares.  The per-resource decision — does the
//! expected content appear among the answers, did the match state flip,
//! must a reconcile trigger be emitted — lives here, over the match-state
//! map keyed by `namespace:name`.

use vstd::prelude::*;

verus! {

broadcast use vstd::string::group_string_axioms;

use vstd::string::StringExecFns;

/// A request the controller queues for the checker: check one record now.
#[derive(Debug, Clone)]
pub enum DnsCheckRequest {
    CheckSingleRecord { name: String, namespace: String },
}

/// The key a resource's match state is stored under: `namespace:name`.
pub open spec fn spec_resource_key(namespace: Seq<char>, name: Seq<char>) -> Seq<char> {
    namespace + ":"@ + name
}

/// Build the match-state key for a resource.
pub fn resource_key(namespace: &String, name: &String) -> (k: String)
    ensures
        k@ == spec_resource_key(namespace@, name@),
{
    let mut k = namespace.clone();
    k.append(":");
    k.append(name.as_str());
    k
}

/// The last observed match state stored under a key, if any: the first
/// entry under that key.
pub open spec fn spec_match_find(entries: Seq<(String, bool)>, key: Seq<char>) -> Option<bool>
    decreases entries.len(),
{
    if entries.len() == 0 {
        None
    } else if entries[0].0@ == key {
        Some(entries[0].1)
    } else {
        spec_match_find(entries.drop_first(), key)
    }
}

/// An absent entry counts as "was not matching".
pub open spec fn spec_match_or_false(entries: Seq<(String, bool)>, key: Seq<char>) -> bool {
    match spec_match_find(entries, key) {
        Some(b) => b,
        None => false,
    }
}

/// The per-resource "last observed match" map.  Entries are created lazily
/// on first check, updated on every check, never removed.
pub struct DnsMatchState {
    pub entries: Vec<(String, bool)>,
}

proof fn lemma_match_find_skip(entries: Seq<(String, bool)>, key: Seq<char>, i: int)
    requires
        0 <= i <= entries.len(),
        forall|j: int| 0 <= j < i ==> entries[j].0@ != key,
    ensures
        spec_match_find(entries, key) == spec_match_find(entries.skip(i), key),
    decreases i,
{
    if i > 0 {
        lemma_match_find_skip(entries, key, i - 1);
        assert(entries.skip(i - 1).drop_first() =~= entries.skip(i));
        assert(entries.skip(i - 1)[0] == entries[i - 1]);
    } else {
        assert(entries.skip(0) =~= entries);
    }
}

proof fn lemma_match_find_none(entries: Seq<(String, bool)>, key: Seq<char>)
    requires
        forall|j: int| 0 <= j < entries.len() ==> entries[j].0@ != key,
    ensures
        spec_match_find(entries, key) is None,
    decreases entries.len(),
{
    if entries.len() > 0 {
        lemma_match_find_none(entries.drop_first(), key);
    }
}

proof fn lemma_match_find_update_other(
    entries: Seq<(String, bool)>,
    i: int,
    e2: (String, bool),
    k: Seq<char>,
)
    requires
        0 <= i < entries.len(),
        entries[i].0@ != k,
        e2.0@ != k,
    ensures
        spec_match_find(entries.update(i, e2), k) == spec_match_find(entries, k),
    decreases i,
{
    let upd = entries.update(i, e2);
    if i == 0 {
        assert(upd.drop_first() =~= entries.drop_first());
    } else {
        assert(upd[0] == entries[0]);
        assert(upd.drop_first() =~= entries.drop_first().update(i - 1, e2));
        lemma_match_find_update_other(entries.drop_first(), i - 1, e2, k);
    }
}

proof fn lemma_match_find_push(entries: Seq<(String, bool)>, e: (String, bool), k: Seq<char>)
    ensures
        spec_match_find(entries, k) is Some ==> spec_match_find(entries.push(e), k)
            == spec_match_find(entries, k),
        spec_match_find(entries, k) is None && e.0@ == k ==> spec_match_find(entries.push(e), k)
            == Some(e.1),
        spec_match_find(entries, k) is None && e.0@ != k ==> spec_match_find(
            entries.push(e),
            k,
        ) is None,
    decreases entries.len(),
{
    if entries.len() == 0 {
        assert(entries.push(e).drop_first() =~= Seq::<(String, bool)>::empty());
        if e.0@ != k {
            lemma_match_find_none(entries.push(e), k);
        }
    } else {
        assert(entries.push(e)[0] == entries[0]);
        assert(entries.push(e).drop_first() =~= entries.drop_first().push(e));
        lemma_match_find_push(entries.drop_first(), e, k);
    }
}

impl DnsMatchState {
    /// Entries hold pairwise distinct keys.
    pub open spec fn wf(&self) -> bool {
        forall|i: int, j: int|
            0 <= i < j < self.entries@.len() ==> self.entries@[i].0@ != self.entries@[j].0@
    }

    /// An empty map: every resource counts as not yet matching.
    pub fn new() -> (r: Self)
        ensures
            r.wf(),
            r.entries@.len() == 0,
    {
        DnsMatchState { entries: Vec::new() }
    }

    /// The last observed match state for a key, an absent entry counting
    /// as "was not matching".
    #[verifier::loop_isolation(false)]
    pub fn last_match(&self, key: &String) -> (r: bool)
        ensures
            r == spec_match_or_false(self.entries@, key@),
    {
        let n = self.entries.len();
        let mut i: usize = 0;
        while i < n
            invariant
                n == self.entries@.len(),
                forall|j: int| 0 <= j < i ==> self.entries@[j].0@ != key@,
            decreases n - i,
        {
            if self.entries[i].0 == *key {
                proof {
                    lemma_match_find_skip(self.entries@, key@, i as int);
                    assert(self.entries@.skip(i as int)[0] == self.entries@[i as int]);
                }
                return self.entries[i].1;
            }
            i += 1;
        }
        proof {
            lemma_match_find_none(self.entries@, key@);
        }
        false
    }

    /// Record one check's outcome for a key and report whether the match
    /// state flipped relative to the previous observation (an absent entry
    /// counting as false).  The new state is stored unconditionally;
    /// entries under other keys are untouched.
    #[verifier::loop_isolation(false)]
    pub fn observe(&mut self, key: &String, now_matching: bool) -> (changed: bool)
        requires
            old(self).wf(),
        ensures
            final(self).wf(),
            changed == (now_matching != spec_match_or_false(old(self).entries@, key@)),
            spec_match_find(final(self).entries@, key@) == Some(now_matching),
            forall|k: Seq<char>|
                k != key@ ==> spec_match_find(final(self).entries@, k) == spec_match_find(
                    old(self).entries@,
                    k,
                ),
    {
        let ghost entries0 = self.entries@;
        let n = self.entries.len();
        let mut i: usize = 0;
        while i < n
            invariant
                n == self.entries@.len(),
                self.entries@ == entries0,
                forall|j: int| 0 <= j < i ==> self.entries@[j].0@ != key@,
            decreases n - i,
        {
            if self.entries[i].0 == *key {
                proof {
                    lemma_match_find_skip(entries0, key@, i as int);
                    assert(entries0.skip(i as int)[0] == entries0[i as int]);
                }
                let was = self.entries[i].1;
                self.entries[i] = (key.clone(), now_matching);
                proof {
                    lemma_match_find_skip(self.entries@, key@, i as int);
                    assert(self.entries@.skip(i as int)[0] == self.entries@[i as int]);
                    assert forall|k: Seq<char>| k != key@ implies spec_match_find(
                        self.entries@,
                        k,
                    ) == spec_match_find(entries0, k) by {
                        lemma_match_find_update_other(
                            entries0,
                            i as int,
                            self.entries@[i as int],
                            k,
                        );
                    }
                }
                return was != now_matching;
            }
            i += 1;
        }
        proof {
            lemma_match_find_none(self.entries@, key@);
        }
        self.entries.push((key.clone(), now_matching));
        proof {
            lemma_match_find_push(entries0, self.entries@[entries0.len() as int], key@);
            assert forall|k: Seq<char>| k != key@ implies spec_match_find(self.entries@, k)
                == spec_match_find(entries0, k) by {
                lemma_match_find_push(entries0, self.entries@[entries0.len() as int], k);
            }
        }
        now_matching
    }
}

/// Whether the expected content appears among the stringified DNS answers.
pub open spec fn spec_answers_contain(answers: Seq<String>, expected: Seq<char>) -> bool {
    exists|i: int| 0 <= i < answers.len() && answers[i]@ == expected
}

/// Does the expected content literal appear among the answer strings?
#[verifier::loop_isolation(false)]
pub fn answers_contain(answers: &Vec<String>, expected: &String) -> (r: bool)
    ensures
        r == spec_answers_contain(answers@, expected@),
{
    let n = answers.len();
    let mut i: usize = 0;
    while i < n
        invariant
            n == answers@.len(),
            forall|j: int| 0 <= j < i ==> answers@[j]@ != expected@,
        decreases n - i,
    {
        if answers[i] == *expected {
            return true;
        }
        i += 1;
    }
    false
}

/// One check cycle's decision for one resource.
pub struct CheckDecision {
    /// Whether the expected content resolved: it appeared among the
    /// answers.
    pub now_matching: bool,
    /// Whether the match state flipped — exactly then a reconcile trigger
    /// is emitted for the resource.
    pub emit_trigger: bool,
}

/// Evaluate one resource's DNS check: compare the answers against the
/// expected content, store the new match state under the resource's key,
/// and decide whether to emit a reconcile trigger (exactly on a state
/// flip, an absent previous state counting as "was not matching").
pub fn evaluate_check(
    state: &mut DnsMatchState,
    key: &String,
    answers: &Vec<String>,
    expected: &String,
) -> (r: CheckDecision)
    requires
        old(state).wf(),
    ensures
        final(state).wf(),
        r.now_matching == spec_answers_contain(answers@, expected@),
        r.emit_trigger == (r.now_matching != spec_match_or_false(old(state).entries@, key@)),
        spec_match_find(final(state).entries@, key@) == Some(r.now_matching),
        forall|k: Seq<char>|
            k != key@ ==> spec_match_find(final(state).entries@, k) == spec_match_find(
                old(state).entries@,
                k,
            ),
{
    let now_matching = answers_contain(answers, expected);
    let emit_trigger = state.observe(key, now_matching);
    CheckDecision { now_matching, emit_trigger }
}

/// What the checker does with one listed resource.
#[derive(Debug)]
pub enum CheckPlan {
    /// The resource carries no name or no namespace: log and skip.
    SkipUnnamed,
    /// The first apply has not completed yet (no status): skip.
    SkipNoStatus,
    /// The record type has no defined query and answer form: log and skip.
    SkipUnresolvableType,
    /// Resolve the expected content, query `qname` as `ty`, and track the
    /// match state under `key`.
    Query { key: String, qname: String, ty: crate::records::RecordType },
}

/// Decide whether and how to check one resource: a resource is skipped
/// when it lacks a name or namespace, when it has no status yet, or when
/// its record type cannot be queried; otherwise its declared DNS name is
/// queried with its effective record type, and the outcome is tracked
/// under the resource's `namespace:name` key.
pub fn plan_resource_check(resource: &crate::resources::CloudflareDNSRecord) -> (r: CheckPlan)
    ensures
        match (resource.metadata.name, resource.metadata.namespace) {
            (Some(n), Some(ns)) => {
                if resource.status is None {
                    r matches CheckPlan::SkipNoStatus
                } else if !crate::reconcile::spec_effective_record_type(
                    *resource,
                ).spec_is_resolvable() {
                    r matches CheckPlan::SkipUnresolvableType
                } else {
                    r matches CheckPlan::Query { key, qname, ty } && key@ == spec_resource_key(
                        ns@,
                        n@,
                    ) && qname@ == resource.spec.name@ && ty
                        == crate::reconcile::spec_effective_record_type(*resource)
                }
            },
            _ => r matches CheckPlan::SkipUnnamed,
        },
{
    let name = match &resource.metadata.name {
        Some(n) => n,
        None => {
            return CheckPlan::SkipUnnamed;
        },
    };
    let namespace = match &resource.metadata.namespace {
        Some(ns) => ns,
        None => {
            return CheckPlan::SkipUnnamed;
        },
    };
    if resource.status.is_none() {
        return CheckPlan::SkipNoStatus;
    }
    let ty = match resource.spec.ty {
        Some(t) => t,
        None => crate::records::RecordType::A,
    };
    if !ty.is_resolvable() {
        return CheckPlan::SkipUnresolvableType;
    }
    CheckPlan::Query {
        key: resource_key(namespace, name),
        qname: resource.spec.name.clone(),
        ty,
    }
}

/// Whether a check observing `now_matching` against the stored map emits a
/// reconcile trigger: exactly when the state flips.
pub open spec fn spec_emits_trigger(
    entries: Seq<(String, bool)>,
    key: Seq<char>,
    now_matching: bool,
) -> bool {
    now_matching != spec_match_or_false(entries, key)
}

/// Law: a match-state flip triggers exactly one reconcile.  For a resource
/// whose stored state says "not matching", a check that observes a match
/// emits a trigger; the state it stores then says "matching" — as
/// [`DnsMatchState::observe`] ensures — so a following check that again
/// observes a match emits no further trigger.
pub proof fn lemma_match_flip_triggers_once(
    before: Seq<(String, bool)>,
    after: Seq<(String, bool)>,
    key: Seq<char>,
)
    requires
        spec_match_or_false(before, key) == false,
        spec_match_find(after, key) == Some(true),
    ensures
        spec_emits_trigger(before, key, true),
        !spec_emits_trigger(after, key, true),
{
}

} // verus!
