use cloudflare_dns_operator::conditions::{
    error_condition, error_condition_at, success_condition, success_condition_at,
};
use cloudflare_dns_operator::resources::{
    CloudflareDNSRecord, CloudflareDNSRecordSpec, CloudflareDNSRecordStatus, Condition, Metadata,
    StringOrService, ValueOrReference, ZoneNameOrId,
};

fn resource(conditions: Option<Vec<Condition>>) -> CloudflareDNSRecord {
    let status = conditions.map(|cs| CloudflareDNSRecordStatus {
        record_id: "r1".to_string(),
        zone_id: "z1".to_string(),
        pending: false,
        conditions: Some(cs),
    });
    CloudflareDNSRecord {
        metadata: Metadata {
            name: Some("web".to_string()),
            namespace: Some("prod".to_string()),
            generation: Some(7),
        },
        spec: CloudflareDNSRecordSpec {
            name: "web.example.com".to_string(),
            ty: None,
            content: StringOrService::Value("1.2.3.4".to_string()),
            ttl: None,
            proxied: None,
            comment: None,
            tags: None,
            zone: ZoneNameOrId::Id(ValueOrReference::Value("z1".to_string())),
        },
        status,
    }
}

#[test]
fn first_success_condition_stamps_call_time() {
    let r = resource(None);
    let c = success_condition_at(&r, Some(7), 12_345);
    assert_eq!(c.type_, "Ready");
    assert_eq!(c.status, "True");
    assert_eq!(c.last_transition_time, 12_345);
    assert_eq!(c.observed_generation, Some(7));
}

#[test]
fn first_error_condition_stamps_call_time() {
    // A resource with no conditions counts as "was ready", so the very
    // first error is a flip and gets the call time.
    let r = resource(None);
    let c = error_condition_at(&r, "missing zone".to_string(), "msg".to_string(), Some(7), 99);
    assert_eq!(c.status, "False");
    assert_eq!(c.reason, "missing zone");
    assert_eq!(c.message, "msg");
    assert_eq!(c.last_transition_time, 99);
}

#[test]
fn transition_time_stable_across_same_polarity_writes() {
    // Start from a recorded NotReady condition stamped 1000.
    let r = resource(None);
    let c1 = error_condition_at(&r, "missing zone".to_string(), "m1".to_string(), Some(7), 1_000);
    assert_eq!(c1.last_transition_time, 1_000);
    // Alternate reasons with the same Ready boolean: the timestamp stays.
    let r2 = resource(Some(vec![c1]));
    let c2 =
        error_condition_at(&r2, "missing content".to_string(), "m2".to_string(), Some(8), 2_000);
    assert_eq!(c2.last_transition_time, 1_000);
    assert_eq!(c2.reason, "missing content");
    assert_eq!(c2.message, "m2");
    let r3 = resource(Some(vec![c2]));
    let c3 = error_condition_at(&r3, "pending".to_string(), "m3".to_string(), Some(9), 3_000);
    assert_eq!(c3.last_transition_time, 1_000);
    // The first call that flips the boolean updates the timestamp.
    let r4 = resource(Some(vec![c3]));
    let c4 = success_condition_at(&r4, Some(9), 4_000);
    assert_eq!(c4.last_transition_time, 4_000);
    // And success after success carries it forward again.
    let r5 = resource(Some(vec![c4]));
    let c5 = success_condition_at(&r5, Some(10), 5_000);
    assert_eq!(c5.last_transition_time, 4_000);
    // Flipping back to error stamps the new call time.
    let r6 = resource(Some(vec![c5]));
    let c6 = error_condition_at(&r6, "missing zone".to_string(), "m6".to_string(), Some(11), 6_000);
    assert_eq!(c6.last_transition_time, 6_000);
}

#[test]
fn wall_clock_conditions_carry_time_forward_on_same_polarity() {
    // The clock-stamped variants still carry a recorded timestamp forward
    // exactly when the Ready polarity does not flip.
    let r1 = resource(None);
    let c1 = error_condition_at(&r1, "missing zone".to_string(), "m1".to_string(), None, 4_242);
    let r2 = resource(Some(vec![c1]));
    let c2 = error_condition(&r2, "missing content".to_string(), "m2".to_string(), None);
    assert_eq!(c2.last_transition_time, 4_242);
    assert_eq!(c2.status, "False");
    let r3 = resource(None);
    let c3 = success_condition_at(&r3, None, 7_777);
    let r4 = resource(Some(vec![c3]));
    let c4 = success_condition(&r4, None);
    assert_eq!(c4.last_transition_time, 7_777);
    assert_eq!(c4.status, "True");
}

#[test]
fn success_reason_and_message_are_fixed() {
    let r = resource(None);
    let c = success_condition_at(&r, None, 1);
    assert_eq!(c.reason, "Sucessfully applied changes");
    assert_eq!(c.message, "DNS record ready");
    assert_eq!(c.observed_generation, None);
}
