//! The caching provider-client core.
//!
//! Reads of the provider (zone listings, per-zone record listings) go
//! through TTL caches; every mutation of a zone invalidates that zone's
//! record-cache entry immediately and unconditionally.  The upsert is
//! planned here as well: keep an identical record, delete-then-create a
//! changed one, create a missing one.

use vstd::prelude::*;
use crate::records::{DnsRecordInfo, ZoneInfo, Zone};

verus! {

/// How long a cached zone listing stays fresh, in milliseconds.
pub const ZONE_CACHE_TTL_MS: i64 = 300000;

/// How long a cached per-zone record listing stays fresh, in milliseconds.
pub const RECORD_CACHE_TTL_MS: i64 = 60000;

/// An entry stamped at `stamped_ms` is fresh at `now_ms` while less than
/// `ttl_ms` has passed.  An entry stamped in the future counts stale.
pub open spec fn spec_fresh(stamped_ms: i64, now_ms: i64, ttl_ms: i64) -> bool {
    stamped_ms <= now_ms && now_ms - stamped_ms < ttl_ms
}

fn is_fresh(stamped_ms: i64, now_ms: i64, ttl_ms: i64) -> (r: bool)
    ensures
        r == spec_fresh(stamped_ms, now_ms, ttl_ms),
{
    match now_ms.checked_sub(stamped_ms) {
        Some(age) => 0 <= age && age < ttl_ms,
        None => false,
    }
}

/// The single-slot cache for the provider's zone listing.
pub struct ZoneListCache {
    pub entry: Option<(i64, Vec<ZoneInfo>)>,
}

/// What a zone-cache lookup yields at a given time: the stored listing
/// while the entry is fresh, else nothing (the caller must fetch).
pub open spec fn spec_zone_lookup(cache: ZoneListCache, now_ms: i64) -> Option<Seq<ZoneInfo>> {
    match cache.entry {
        Some(e) => if spec_fresh(e.0, now_ms, ZONE_CACHE_TTL_MS) {
            Some(e.1@)
        } else {
            None
        },
        None => None,
    }
}

impl ZoneListCache {
    /// An empty cache: every lookup misses.
    pub fn new() -> (r: Self)
        ensures
            r.entry is None,
    {
        ZoneListCache { entry: None }
    }

    /// Return the cached zone listing if it is still fresh at `now_ms`.
    pub fn lookup(&self, now_ms: i64) -> (r: Option<&Vec<ZoneInfo>>)
        ensures
            match r {
                Some(zs) => spec_zone_lookup(*self, now_ms) == Some(zs@),
                None => spec_zone_lookup(*self, now_ms) is None,
            },
    {
        match &self.entry {
            Some(e) => if is_fresh(e.0, now_ms, ZONE_CACHE_TTL_MS) {
                Some(&e.1)
            } else {
                None
            },
            None => None,
        }
    }

    /// Record a freshly fetched zone listing, stamped `now_ms`.
    pub fn store(&mut self, now_ms: i64, zones: Vec<ZoneInfo>)
        ensures
            final(self).entry == Some((now_ms, zones)),
    {
        self.entry = Some((now_ms, zones));
    }
}

/// One per-zone record-cache entry.
pub struct RecordCacheEntry {
    pub zone_id: String,
    pub stamped_ms: i64,
    pub records: Vec<DnsRecordInfo>,
}

/// The per-zone record-listing cache: a mapping from zone id to a stamped
/// record listing.
pub struct RecordListCache {
    pub entries: Vec<RecordCacheEntry>,
}

/// The entry stored for a zone, if any: the first entry under that id.
pub open spec fn spec_cache_find(entries: Seq<RecordCacheEntry>, zone: Seq<char>) -> Option<
    RecordCacheEntry,
>
    decreases entries.len(),
{
    if entries.len() == 0 {
        None
    } else if entries[0].zone_id@ == zone {
        Some(entries[0])
    } else {
        spec_cache_find(entries.drop_first(), zone)
    }
}

/// What a record-cache lookup yields at a given time.
pub open spec fn spec_record_lookup(
    cache: RecordListCache,
    zone: Seq<char>,
    now_ms: i64,
) -> Option<Seq<DnsRecordInfo>> {
    match spec_cache_find(cache.entries@, zone) {
        Some(e) => if spec_fresh(e.stamped_ms, now_ms, RECORD_CACHE_TTL_MS) {
            Some(e.records@)
        } else {
            None
        },
        None => None,
    }
}

impl RecordListCache {
    /// Entries hold pairwise distinct zone ids.
    pub open spec fn wf(&self) -> bool {
        forall|i: int, j: int|
            0 <= i < j < self.entries@.len() ==> self.entries@[i].zone_id@
                != self.entries@[j].zone_id@
    }

    /// An empty cache: every lookup misses.
    pub fn new() -> (r: Self)
        ensures
            r.wf(),
            r.entries@.len() == 0,
    {
        RecordListCache { entries: Vec::new() }
    }
}

proof fn lemma_cache_find_skip(entries: Seq<RecordCacheEntry>, zone: Seq<char>, i: int)
    requires
        0 <= i <= entries.len(),
        forall|j: int| 0 <= j < i ==> entries[j].zone_id@ != zone,
    ensures
        spec_cache_find(entries, zone) == spec_cache_find(entries.skip(i), zone),
    decreases i,
{
    if i > 0 {
        lemma_cache_find_skip(entries, zone, i - 1);
        assert(entries.skip(i - 1).drop_first() =~= entries.skip(i));
        assert(entries.skip(i - 1)[0] == entries[i - 1]);
    } else {
        assert(entries.skip(0) =~= entries);
    }
}

proof fn lemma_cache_find_none(entries: Seq<RecordCacheEntry>, zone: Seq<char>)
    requires
        forall|j: int| 0 <= j < entries.len() ==> entries[j].zone_id@ != zone,
    ensures
        spec_cache_find(entries, zone) is None,
    decreases entries.len(),
{
    if entries.len() > 0 {
        lemma_cache_find_none(entries.drop_first(), zone);
    }
}

proof fn lemma_cache_find_first(entries: Seq<RecordCacheEntry>, zone: Seq<char>, i: int)
    requires
        0 <= i < entries.len(),
        entries[i].zone_id@ == zone,
        forall|j: int| 0 <= j < i ==> entries[j].zone_id@ != zone,
    ensures
        spec_cache_find(entries, zone) == Some(entries[i]),
    decreases i,
{
    lemma_cache_find_skip(entries, zone, i);
    assert(entries.skip(i)[0] == entries[i]);
}

proof fn lemma_cache_find_update_other(
    entries: Seq<RecordCacheEntry>,
    i: int,
    e2: RecordCacheEntry,
    k: Seq<char>,
)
    requires
        0 <= i < entries.len(),
        entries[i].zone_id@ != k,
        e2.zone_id@ != k,
    ensures
        spec_cache_find(entries.update(i, e2), k) == spec_cache_find(entries, k),
    decreases i,
{
    let upd = entries.update(i, e2);
    if i == 0 {
        assert(upd.drop_first() =~= entries.drop_first());
    } else {
        assert(upd[0] == entries[0]);
        assert(upd.drop_first() =~= entries.drop_first().update(i - 1, e2));
        lemma_cache_find_update_other(entries.drop_first(), i - 1, e2, k);
    }
}

proof fn lemma_cache_find_remove_other(entries: Seq<RecordCacheEntry>, i: int, k: Seq<char>)
    requires
        0 <= i < entries.len(),
        entries[i].zone_id@ != k,
    ensures
        spec_cache_find(entries.remove(i), k) == spec_cache_find(entries, k),
    decreases i,
{
    let rem = entries.remove(i);
    if i == 0 {
        assert(rem =~= entries.drop_first());
    } else {
        assert(rem[0] == entries[0]);
        assert(rem.drop_first() =~= entries.drop_first().remove(i - 1));
        lemma_cache_find_remove_other(entries.drop_first(), i - 1, k);
    }
}

proof fn lemma_cache_find_push(entries: Seq<RecordCacheEntry>, e: RecordCacheEntry, k: Seq<char>)
    ensures
        spec_cache_find(entries, k) is Some ==> spec_cache_find(entries.push(e), k)
            == spec_cache_find(entries, k),
        spec_cache_find(entries, k) is None && e.zone_id@ == k ==> spec_cache_find(
            entries.push(e),
            k,
        ) == Some(e),
        spec_cache_find(entries, k) is None && e.zone_id@ != k ==> spec_cache_find(
            entries.push(e),
            k,
        ) is None,
    decreases entries.len(),
{
    if entries.len() == 0 {
        assert(entries.push(e).drop_first() =~= Seq::<RecordCacheEntry>::empty());
    } else {
        assert(entries.push(e)[0] == entries[0]);
        assert(entries.push(e).drop_first() =~= entries.drop_first().push(e));
        lemma_cache_find_push(entries.drop_first(), e, k);
    }
}

impl RecordListCache {
    /// Return the cached record listing for a zone if it is still fresh at
    /// `now_ms`.
    #[verifier::loop_isolation(false)]
    pub fn lookup(&self, zone_id: &String, now_ms: i64) -> (r: Option<&Vec<DnsRecordInfo>>)
        ensures
            match r {
                Some(rs) => spec_record_lookup(*self, zone_id@, now_ms) == Some(rs@),
                None => spec_record_lookup(*self, zone_id@, now_ms) is None,
            },
    {
        let n = self.entries.len();
        let mut i: usize = 0;
        while i < n
            invariant
                n == self.entries@.len(),
                forall|j: int| 0 <= j < i ==> self.entries@[j].zone_id@ != zone_id@,
            decreases n - i,
        {
            if self.entries[i].zone_id == *zone_id {
                proof {
                    lemma_cache_find_first(self.entries@, zone_id@, i as int);
                }
                if is_fresh(self.entries[i].stamped_ms, now_ms, RECORD_CACHE_TTL_MS) {
                    return Some(&self.entries[i].records);
                } else {
                    return None;
                }
            }
            i += 1;
        }
        proof {
            lemma_cache_find_none(self.entries@, zone_id@);
        }
        None
    }

    /// Record a freshly fetched record listing for a zone, stamped
    /// `now_ms`.  Entries for other zones are untouched.
    #[verifier::loop_isolation(false)]
    pub fn store(&mut self, zone_id: &String, now_ms: i64, records: Vec<DnsRecordInfo>)
        requires
            old(self).wf(),
        ensures
            final(self).wf(),
            match spec_cache_find(final(self).entries@, zone_id@) {
                Some(e) => e.zone_id@ == zone_id@ && e.stamped_ms == now_ms && e.records
                    == records,
                None => false,
            },
            forall|k: Seq<char>|
                k != zone_id@ ==> spec_cache_find(final(self).entries@, k) == spec_cache_find(
                    old(self).entries@,
                    k,
                ),
    {
        let ghost entries0 = self.entries@;
        let entry = RecordCacheEntry { zone_id: zone_id.clone(), stamped_ms: now_ms, records };
        let n = self.entries.len();
        let mut i: usize = 0;
        while i < n
            invariant
                n == self.entries@.len(),
                self.entries@ == entries0,
                forall|j: int| 0 <= j < i ==> self.entries@[j].zone_id@ != zone_id@,
            decreases n - i,
        {
            if self.entries[i].zone_id == *zone_id {
                self.entries[i] = entry;
                proof {
                    lemma_cache_find_first(self.entries@, zone_id@, i as int);
                    assert forall|k: Seq<char>| k != zone_id@ implies spec_cache_find(
                        self.entries@,
                        k,
                    ) == spec_cache_find(entries0, k) by {
                        lemma_cache_find_update_other(
                            entries0,
                            i as int,
                            self.entries@[i as int],
                            k,
                        );
                    }
                }
                return ;
            }
            i += 1;
        }
        proof {
            lemma_cache_find_none(self.entries@, zone_id@);
        }
        self.entries.push(entry);
        proof {
            lemma_cache_find_push(entries0, self.entries@[entries0.len() as int], zone_id@);
            assert forall|k: Seq<char>| k != zone_id@ implies spec_cache_find(self.entries@, k)
                == spec_cache_find(entries0, k) by {
                lemma_cache_find_push(entries0, self.entries@[entries0.len() as int], k);
            }
        }
    }

    /// Drop the cache entry for a zone, if any: the immediately following
    /// read for that zone misses, whatever the time.  Entries for other
    /// zones are untouched.
    #[verifier::loop_isolation(false)]
    pub fn invalidate(&mut self, zone_id: &String)
        requires
            old(self).wf(),
        ensures
            final(self).wf(),
            spec_cache_find(final(self).entries@, zone_id@) is None,
            forall|k: Seq<char>|
                k != zone_id@ ==> spec_cache_find(final(self).entries@, k) == spec_cache_find(
                    old(self).entries@,
                    k,
                ),
    {
        let ghost entries0 = self.entries@;
        let n = self.entries.len();
        let mut i: usize = 0;
        while i < n
            invariant
                n == self.entries@.len(),
                self.entries@ == entries0,
                forall|j: int| 0 <= j < i ==> self.entries@[j].zone_id@ != zone_id@,
            decreases n - i,
        {
            if self.entries[i].zone_id == *zone_id {
                self.entries.remove(i);
                proof {
                    entries0.remove_ensures(i as int);
                    assert forall|a: int, b: int|
                        0 <= a < b < self.entries@.len() implies self.entries@[a].zone_id@
                        != self.entries@[b].zone_id@ by {
                        if b < i as int {
                        } else if a < i as int {
                            assert(self.entries@[b] == entries0[b + 1]);
                        } else {
                            assert(self.entries@[a] == entries0[a + 1]);
                            assert(self.entries@[b] == entries0[b + 1]);
                        }
                    }
                    assert forall|j: int| 0 <= j < self.entries@.len() implies self.entries@[j].zone_id@ != zone_id@ by {
                        if j < i as int {
                        } else {
                            assert(self.entries@[j] == entries0[j + 1]);
                        }
                    }
                    lemma_cache_find_none(self.entries@, zone_id@);
                    assert forall|k: Seq<char>| k != zone_id@ implies spec_cache_find(
                        self.entries@,
                        k,
                    ) == spec_cache_find(entries0, k) by {
                        lemma_cache_find_remove_other(entries0, i as int, k);
                    }
                }
                return ;
            }
            i += 1;
        }
        proof {
            lemma_cache_find_none(self.entries@, zone_id@);
        }
    }
}

/// `i` is the position of the first record under `name`.
pub open spec fn spec_is_first_named(records: Seq<DnsRecordInfo>, name: Seq<char>, i: int) -> bool {
    &&& 0 <= i < records.len()
    &&& records[i].name@ == name
    &&& forall|j: int| 0 <= j < i ==> records[j].name@ != name
}

/// What the upsert decides to do with a zone's existing records.
#[derive(Debug)]
pub enum UpsertAction {
    /// A record under the name already exists with identical content:
    /// return it unchanged, with no provider write at all.
    Keep { index: usize },
    /// A record under the name exists with different content: delete
    /// exactly that record, then create the new one — a delete and a
    /// create, in that order, and nothing else.
    DeleteThenCreate { old_id: String, old_index: usize },
    /// No record under the name exists: create directly.
    Create,
}

/// The exact relation between a record listing and the upsert decision
/// taken on it.
pub open spec fn spec_plan_describes(
    records: Seq<DnsRecordInfo>,
    name: Seq<char>,
    content: Seq<char>,
    a: UpsertAction,
) -> bool {
    match a {
        UpsertAction::Keep { index } => spec_is_first_named(records, name, index as int)
            && records[index as int].content@ == content,
        UpsertAction::DeleteThenCreate { old_id, old_index } => spec_is_first_named(
            records,
            name,
            old_index as int,
        ) && records[old_index as int].content@ != content && old_id@ == records[
            old_index as int
        ].id@,
        UpsertAction::Create => forall|j: int| 0 <= j < records.len() ==> records[j].name@ != name,
    }
}

/// How many provider write calls the action issues.
pub open spec fn spec_upsert_write_count(a: UpsertAction) -> int {
    match a {
        UpsertAction::Keep { .. } => 0,
        UpsertAction::DeleteThenCreate { .. } => 2,
        UpsertAction::Create => 1,
    }
}

/// The zone's records after the action is carried out, `created` being the
/// record the provider returns for the create (when one happens).
pub open spec fn spec_records_after_upsert(
    records: Seq<DnsRecordInfo>,
    a: UpsertAction,
    created: DnsRecordInfo,
) -> Seq<DnsRecordInfo> {
    match a {
        UpsertAction::Keep { .. } => records,
        UpsertAction::DeleteThenCreate { old_index, .. } => records.remove(old_index as int).push(
            created,
        ),
        UpsertAction::Create => records.push(created),
    }
}

/// The record the upsert hands back: the kept existing record, or the
/// created one.
pub open spec fn spec_upsert_result(
    records: Seq<DnsRecordInfo>,
    a: UpsertAction,
    created: DnsRecordInfo,
) -> DnsRecordInfo {
    match a {
        UpsertAction::Keep { index } => records[index as int],
        UpsertAction::DeleteThenCreate { .. } => created,
        UpsertAction::Create => created,
    }
}

/// Decide what the create-or-replace upsert does, from the zone's existing
/// records: keep the first record under the name when its content already
/// matches, delete it first when its content differs, create directly when
/// the name is absent.
#[verifier::loop_isolation(false)]
pub fn plan_upsert(records: &Vec<DnsRecordInfo>, name: &String, content: &String) -> (a:
    UpsertAction)
    ensures
        spec_plan_describes(records@, name@, content@, a),
{
    let n = records.len();
    let mut i: usize = 0;
    while i < n
        invariant
            n == records@.len(),
            forall|j: int| 0 <= j < i ==> records@[j].name@ != name@,
        decreases n - i,
    {
        if records[i].name == *name {
            if records[i].content == *content {
                return UpsertAction::Keep { index: i };
            } else {
                return UpsertAction::DeleteThenCreate {
                    old_id: records[i].id.clone(),
                    old_index: i,
                };
            }
        }
        i += 1;
    }
    UpsertAction::Create
}

/// Law: the upsert is idempotent.  When a zone holds at most one record
/// under the name, a second create-or-replace with the same name and
/// content right after a first one issues no provider write at all, and
/// both calls hand back a record carrying exactly the requested content.
pub proof fn lemma_upsert_idempotent(
    records: Seq<DnsRecordInfo>,
    name: Seq<char>,
    content: Seq<char>,
    a1: UpsertAction,
    created: DnsRecordInfo,
    a2: UpsertAction,
)
    requires
        forall|i: int, j: int|
            (0 <= i < records.len() && 0 <= j < records.len() && records[i].name@ == name
                && records[j].name@ == name) ==> i == j,
        spec_plan_describes(records, name, content, a1),
        created.name@ == name,
        created.content@ == content,
        spec_plan_describes(spec_records_after_upsert(records, a1, created), name, content, a2),
    ensures
        a2 matches UpsertAction::Keep { .. },
        spec_upsert_write_count(a2) == 0,
        spec_upsert_result(records, a1, created).content@ == content,
        spec_upsert_result(spec_records_after_upsert(records, a1, created), a2, created).content@
            == content,
{
    let records2 = spec_records_after_upsert(records, a1, created);
    match a1 {
        UpsertAction::Keep { index } => {
            assert(records2 =~= records);
        },
        UpsertAction::DeleteThenCreate { old_id, old_index } => {
            let rem = records.remove(old_index as int);
            records.remove_ensures(old_index as int);
            assert forall|j: int| 0 <= j < rem.len() implies rem[j].name@ != name by {
                if j < (old_index as int) {
                } else {
                    assert(rem[j] == records[j + 1]);
                }
            }
            assert(records2[records2.len() - 1] == created);
        },
        UpsertAction::Create => {
            assert(records2[records2.len() - 1] == created);
        },
    }
    match a2 {
        UpsertAction::Keep { index } => {
        },
        UpsertAction::DeleteThenCreate { old_id, old_index } => {
            assert(false);
        },
        UpsertAction::Create => {
            match a1 {
                UpsertAction::Keep { index } => {
                    assert(records2[index as int].name@ == name);
                },
                _ => {
                    assert(records2[records2.len() - 1].name@ == name);
                },
            }
            assert(false);
        },
    }
}

/// Law: a content change replaces the record.  When the first record under
/// the name carries different content, the upsert deletes exactly that
/// record — identified by its id — and then creates the new one: one
/// delete followed by one create, and the record handed back carries the
/// requested content.
pub proof fn lemma_upsert_replaces_changed_content(
    records: Seq<DnsRecordInfo>,
    name: Seq<char>,
    content: Seq<char>,
    i: int,
    a: UpsertAction,
    created: DnsRecordInfo,
)
    requires
        spec_is_first_named(records, name, i),
        records[i].content@ != content,
        spec_plan_describes(records, name, content, a),
        created.content@ == content,
    ensures
        a matches UpsertAction::DeleteThenCreate { old_id, old_index } && (old_index as int) == i
            && old_id@ == records[i].id@,
        spec_upsert_write_count(a) == 2,
        spec_upsert_result(records, a, created).content@ == content,
{
    match a {
        UpsertAction::Keep { index } => {
            if (index as int) < i {
            } else if i < (index as int) {
            }
            assert(false);
        },
        UpsertAction::DeleteThenCreate { old_id, old_index } => {
            if (old_index as int) < i {
            } else if i < (old_index as int) {
            }
        },
        UpsertAction::Create => {
            assert(records[i].name@ != name);
            assert(false);
        },
    }
}

/// Whether an HTTP status code counts as success for the provider's API:
/// any failing status surfaces as a provider error carrying the code and
/// the response body.
pub fn is_success_status(status: u16) -> (r: bool)
    ensures
        r == (200 <= status < 300),
{
    200 <= status && status < 300
}

/// Whether a provider API response envelope is an error: a non-2xx HTTP
/// status, or a response whose own success flag is false.
pub fn envelope_is_error(status: u16, success: bool) -> (r: bool)
    ensures
        r == !(200 <= status < 300 && success),
{
    !(is_success_status(status) && success)
}

/// The id of the first zone whose display name matches exactly, if any.
pub open spec fn spec_zone_id_by_name(zones: Seq<ZoneInfo>, name: Seq<char>) -> Option<Seq<char>>
    decreases zones.len(),
{
    if zones.len() == 0 {
        None
    } else if zones[0].name@ == name {
        Some(zones[0].id@)
    } else {
        spec_zone_id_by_name(zones.drop_first(), name)
    }
}

proof fn lemma_zone_id_by_name_skip(zones: Seq<ZoneInfo>, name: Seq<char>, i: int)
    requires
        0 <= i <= zones.len(),
        forall|j: int| 0 <= j < i ==> zones[j].name@ != name,
    ensures
        spec_zone_id_by_name(zones, name) == spec_zone_id_by_name(zones.skip(i), name),
    decreases i,
{
    if i > 0 {
        lemma_zone_id_by_name_skip(zones, name, i - 1);
        assert(zones.skip(i - 1).drop_first() =~= zones.skip(i));
        assert(zones.skip(i - 1)[0] == zones[i - 1]);
    } else {
        assert(zones.skip(0) =~= zones);
    }
}

/// Find a zone's provider id by exact display-name match, taking the first
/// match in listing order.
#[verifier::loop_isolation(false)]
pub fn find_zone_id(zones: &Vec<ZoneInfo>, name: &String) -> (r: Option<String>)
    ensures
        match r {
            Some(id) => spec_zone_id_by_name(zones@, name@) == Some(id@),
            None => spec_zone_id_by_name(zones@, name@) is None,
        },
{
    let n = zones.len();
    let mut i: usize = 0;
    while i < n
        invariant
            n == zones@.len(),
            forall|j: int| 0 <= j < i ==> zones@[j].name@ != name@,
        decreases n - i,
    {
        if zones[i].name == *name {
            proof {
                lemma_zone_id_by_name_skip(zones@, name@, i as int);
                assert(zones@.skip(i as int)[0] == zones@[i as int]);
            }
            return Some(zones[i].id.clone());
        }
        i += 1;
    }
    proof {
        lemma_zone_id_by_name_skip(zones@, name@, zones@.len() as int);
    }
    None
}

impl Zone {
    /// Resolve this zone reference to an id-carrying reference against the
    /// given zone listing.
    pub fn resolve(&self, zones: &Vec<ZoneInfo>) -> (r: Option<Zone>)
        ensures
            match r {
                Some(z) => z matches Zone::Identifier(id) && self.spec_resolved_id(zones@)
                    == Some(id@),
                None => self.spec_resolved_id(zones@) is None,
            },
    {
        match self.lookup_id(zones) {
            Some(id) => Some(Zone::Identifier(id)),
            None => None,
        }
    }

    /// What the zone reference resolves to against a zone listing: an id
    /// passes through; a name is looked up by exact match.
    pub open spec fn spec_resolved_id(&self, zones: Seq<ZoneInfo>) -> Option<Seq<char>> {
        match self {
            Zone::Identifier(id) => Some(id@),
            Zone::Name(name) => spec_zone_id_by_name(zones, name@),
        }
    }

    /// Resolve this zone reference to a provider zone id against the given
    /// zone listing.
    pub fn lookup_id(&self, zones: &Vec<ZoneInfo>) -> (r: Option<String>)
        ensures
            match r {
                Some(id) => self.spec_resolved_id(zones@) == Some(id@),
                None => self.spec_resolved_id(zones@) is None,
            },
    {
        match self {
            Zone::Identifier(id) => Some(id.clone()),
            Zone::Name(name) => find_zone_id(zones, name),
        }
    }
}

/// The provider client's cache state: the zone-listing slot and the
/// per-zone record-listing map, each with its own TTL.  The HTTP transport
/// around it hands fetched listings in through `store_*` and consults
/// `lookup_*` before fetching; every mutation of a zone is reported
/// through [`CloudflareApi::invalidate_dns_record_cache`].
pub struct CloudflareApi {
    pub zones: ZoneListCache,
    pub records: RecordListCache,
}

impl CloudflareApi {
    /// Both caches start empty.
    pub fn new() -> (r: Self)
        ensures
            r.records.wf(),
            r.zones.entry is None,
            r.records.entries@.len() == 0,
    {
        CloudflareApi { zones: ZoneListCache::new(), records: RecordListCache::new() }
    }

    /// The cached zone listing, if fresh at `now_ms`.
    pub fn lookup_zones(&self, now_ms: i64) -> (r: Option<&Vec<ZoneInfo>>)
        ensures
            match r {
                Some(zs) => spec_zone_lookup(self.zones, now_ms) == Some(zs@),
                None => spec_zone_lookup(self.zones, now_ms) is None,
            },
    {
        self.zones.lookup(now_ms)
    }

    /// Record a freshly fetched zone listing.
    pub fn store_zones(&mut self, now_ms: i64, zones: Vec<ZoneInfo>)
        ensures
            final(self).zones.entry == Some((now_ms, zones)),
            final(self).records == old(self).records,
    {
        self.zones.store(now_ms, zones);
    }

    /// The cached record listing for a zone, if fresh at `now_ms`.
    pub fn lookup_records(&self, zone_id: &String, now_ms: i64) -> (r: Option<
        &Vec<DnsRecordInfo>,
    >)
        ensures
            match r {
                Some(rs) => spec_record_lookup(self.records, zone_id@, now_ms) == Some(rs@),
                None => spec_record_lookup(self.records, zone_id@, now_ms) is None,
            },
    {
        self.records.lookup(zone_id, now_ms)
    }

    /// Record a freshly fetched record listing for a zone.
    pub fn store_records(&mut self, zone_id: &String, now_ms: i64, records: Vec<DnsRecordInfo>)
        requires
            old(self).records.wf(),
        ensures
            final(self).records.wf(),
            match spec_cache_find(final(self).records.entries@, zone_id@) {
                Some(e) => e.zone_id@ == zone_id@ && e.stamped_ms == now_ms && e.records
                    == records,
                None => false,
            },
            forall|k: Seq<char>|
                k != zone_id@ ==> spec_cache_find(final(self).records.entries@, k)
                    == spec_cache_find(old(self).records.entries@, k),
            final(self).zones == old(self).zones,
    {
        self.records.store(zone_id, now_ms, records);
    }

    /// A mutating call (create or delete) ran against a zone, whether it
    /// succeeded or failed: drop that zone's record-cache entry, so the
    /// immediately following read fetches fresh.
    pub fn invalidate_dns_record_cache(&mut self, zone_id: &String)
        requires
            old(self).records.wf(),
        ensures
            final(self).records.wf(),
            spec_cache_find(final(self).records.entries@, zone_id@) is None,
            forall|k: Seq<char>|
                k != zone_id@ ==> spec_cache_find(final(self).records.entries@, k)
                    == spec_cache_find(old(self).records.entries@, k),
            final(self).zones == old(self).zones,
    {
        self.records.invalidate(zone_id);
    }
}

/// The id of the first record under the given DNS name, if any — what a
/// delete-by-name must delete.
pub open spec fn spec_record_id_by_name(records: Seq<DnsRecordInfo>, name: Seq<char>) -> Option<
    Seq<char>,
>
    decreases records.len(),
{
    if records.len() == 0 {
        None
    } else if records[0].name@ == name {
        Some(records[0].id@)
    } else {
        spec_record_id_by_name(records.drop_first(), name)
    }
}

proof fn lemma_record_id_by_name_skip(records: Seq<DnsRecordInfo>, name: Seq<char>, i: int)
    requires
        0 <= i <= records.len(),
        forall|j: int| 0 <= j < i ==> records[j].name@ != name,
    ensures
        spec_record_id_by_name(records, name) == spec_record_id_by_name(records.skip(i), name),
    decreases i,
{
    if i > 0 {
        lemma_record_id_by_name_skip(records, name, i - 1);
        assert(records.skip(i - 1).drop_first() =~= records.skip(i));
        assert(records.skip(i - 1)[0] == records[i - 1]);
    } else {
        assert(records.skip(0) =~= records);
    }
}

/// Find the provider id of the first record under a DNS name: deleting by
/// name deletes exactly this record, and it is an error when the name is
/// absent.
#[verifier::loop_isolation(false)]
pub fn find_record_id_by_name(records: &Vec<DnsRecordInfo>, name: &String) -> (r: Option<String>)
    ensures
        match r {
            Some(id) => spec_record_id_by_name(records@, name@) == Some(id@),
            None => spec_record_id_by_name(records@, name@) is None,
        },
{
    let n = records.len();
    let mut i: usize = 0;
    while i < n
        invariant
            n == records@.len(),
            forall|j: int| 0 <= j < i ==> records@[j].name@ != name@,
        decreases n - i,
    {
        if records[i].name == *name {
            proof {
                lemma_record_id_by_name_skip(records@, name@, i as int);
                assert(records@.skip(i as int)[0] == records@[i as int]);
            }
            return Some(records[i].id.clone());
        }
        i += 1;
    }
    proof {
        lemma_record_id_by_name_skip(records@, name@, records@.len() as int);
    }
    None
}

/// Law: the zone cache obeys its TTL.  After a listing is stored at `t0`,
/// any lookup strictly inside the TTL window yields exactly the stored
/// listing — so two listings within the window return identical results
/// with no further provider call — and any lookup at or past the window's
/// end misses, forcing a fresh provider call.
pub proof fn lemma_zone_cache_ttl(cache: ZoneListCache, t0: i64, zones: Vec<ZoneInfo>, t1: i64, t2: i64)
    requires
        cache.entry == Some((t0, zones)),
        t0 <= t1,
        t1 - t0 < ZONE_CACHE_TTL_MS,
        t2 - t0 >= ZONE_CACHE_TTL_MS,
    ensures
        spec_zone_lookup(cache, t1) == Some(zones@),
        spec_zone_lookup(cache, t2) is None,
{
}

/// Law: a write to a zone invalidates that zone's record cache.  Once no
/// entry stands for the zone — as [`RecordListCache::invalidate`] ensures —
/// a record lookup for that zone misses at every time, TTL notwithstanding,
/// so the immediately following read must fetch fresh from the provider.
pub proof fn lemma_cache_invalidation_on_write(cache: RecordListCache, zone: Seq<char>, now_ms: i64)
    requires
        spec_cache_find(cache.entries@, zone) is None,
    ensures
        spec_record_lookup(cache, zone, now_ms) is None,
{
}

} // verus!
