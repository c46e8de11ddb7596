use cloudflare_dns_operator::cloudflare::{
    CloudflareApi, RecordListCache, ZoneListCache, RECORD_CACHE_TTL_MS, ZONE_CACHE_TTL_MS,
};
use cloudflare_dns_operator::records::{DnsRecordInfo, RecordType, ZoneInfo};

fn record(id: &str, name: &str, content: &str) -> DnsRecordInfo {
    DnsRecordInfo {
        id: id.to_string(),
        name: name.to_string(),
        record_type: RecordType::A,
        content: content.to_string(),
        ttl: 60,
        proxied: false,
        comment: None,
        tags: Vec::new(),
    }
}

#[test]
fn zone_cache_hits_within_ttl_and_misses_after() {
    let mut cache = ZoneListCache::new();
    let t0: i64 = 1_000_000;
    cache.store(
        t0,
        vec![ZoneInfo { id: "z1".to_string(), name: "example.com".to_string() }],
    );
    // Two listings within the TTL window: identical results, no fetch.
    let first = cache.lookup(t0 + 10).expect("fresh entry");
    assert_eq!(first.len(), 1);
    assert_eq!(first[0].id, "z1");
    let second = cache.lookup(t0 + ZONE_CACHE_TTL_MS - 1).expect("still fresh");
    assert_eq!(second[0].id, first[0].id);
    assert_eq!(second[0].name, first[0].name);
    // At the window's end the cache misses: a new provider call is due.
    assert!(cache.lookup(t0 + ZONE_CACHE_TTL_MS).is_none());
}

#[test]
fn empty_zone_cache_misses() {
    let cache = ZoneListCache::new();
    assert!(cache.lookup(0).is_none());
    assert!(cache.lookup(i64::MAX).is_none());
}

#[test]
fn record_cache_hits_within_ttl_and_misses_after() {
    let mut cache = RecordListCache::new();
    let zone = "z1".to_string();
    let t0: i64 = 5_000_000;
    cache.store(&zone, t0, vec![record("r1", "web.example.com", "1.2.3.4")]);
    let hit = cache.lookup(&zone, t0 + RECORD_CACHE_TTL_MS - 1).expect("fresh entry");
    assert_eq!(hit.len(), 1);
    assert_eq!(hit[0].id, "r1");
    assert!(cache.lookup(&zone, t0 + RECORD_CACHE_TTL_MS).is_none());
    assert!(cache.lookup(&"z-other".to_string(), t0 + 1).is_none());
}

#[test]
fn record_cache_invalidation_on_write_bypasses_ttl() {
    let mut api = CloudflareApi::new();
    let zone = "z1".to_string();
    let other = "z2".to_string();
    let t0: i64 = 42_000;
    api.store_records(&zone, t0, vec![record("r1", "web.example.com", "1.2.3.4")]);
    api.store_records(&other, t0, vec![record("r2", "other.example.com", "9.9.9.9")]);
    assert!(api.lookup_records(&zone, t0 + 1).is_some());
    // A mutating call against the zone: the immediately following read for
    // that zone misses, well within the TTL window.
    api.invalidate_dns_record_cache(&zone);
    assert!(api.lookup_records(&zone, t0 + 1).is_none());
    // The other zone's entry is untouched.
    let kept = api.lookup_records(&other, t0 + 1).expect("other zone untouched");
    assert_eq!(kept[0].id, "r2");
}

#[test]
fn record_cache_store_replaces_entry_for_same_zone() {
    let mut cache = RecordListCache::new();
    let zone = "z1".to_string();
    cache.store(&zone, 1_000, vec![record("r1", "web.example.com", "1.2.3.4")]);
    cache.store(&zone, 2_000, vec![record("r2", "web.example.com", "5.6.7.8")]);
    let hit = cache.lookup(&zone, 2_001).expect("fresh entry");
    assert_eq!(hit.len(), 1);
    assert_eq!(hit[0].id, "r2");
}
