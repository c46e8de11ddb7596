use cloudflare_dns_operator::dns_check::DnsMatchState;
use cloudflare_dns_operator::records::{RecordType, Zone};
use cloudflare_dns_operator::reconcile::{
    apply_start, apply_step, classify_reconcile_error, cleanup_action, requeue_delay_secs,
    status_with_conditions, ApplyAction, ApplyEvent, ApplyPhase, CleanupAction, ErrorDisposition,
    ReconcileError, ERROR_REQUEUE_SECS, REQUEUE_SECS,
};
use cloudflare_dns_operator::resources::{
    CloudflareDNSRecord, CloudflareDNSRecordSpec, CloudflareDNSRecordStatus, Metadata,
    StringOrService, ValueOrReference, ZoneNameOrId,
};

fn resource(zone: ZoneNameOrId, status: Option<CloudflareDNSRecordStatus>) -> CloudflareDNSRecord {
    CloudflareDNSRecord {
        metadata: Metadata {
            name: Some("web".to_string()),
            namespace: Some("prod".to_string()),
            generation: Some(1),
        },
        spec: CloudflareDNSRecordSpec {
            name: "web.example.com".to_string(),
            ty: None,
            content: StringOrService::Value("1.2.3.4".to_string()),
            ttl: Some(120),
            proxied: None,
            comment: Some("managed".to_string()),
            tags: None,
            zone,
        },
        status,
    }
}

fn zone_by_name() -> ZoneNameOrId {
    ZoneNameOrId::Name(ValueOrReference::Value("example.com".to_string()))
}

fn zone_by_id() -> ZoneNameOrId {
    ZoneNameOrId::Id(ValueOrReference::Value("z1".to_string()))
}

#[test]
fn apply_starts_by_fetching_the_stored_object() {
    let r = resource(zone_by_id(), None);
    let (phase, action) = apply_start(&r).expect("named resource");
    assert!(matches!(phase, ApplyPhase::AwaitExisting));
    match action {
        ApplyAction::FetchExisting { namespace, name } => {
            assert_eq!(namespace, "prod");
            assert_eq!(name, "web");
        }
        other => panic!("expected FetchExisting, got {:?}", other),
    }
}

#[test]
fn apply_start_rejects_unnamed_resource() {
    let mut r = resource(zone_by_id(), None);
    r.metadata.name = None;
    assert!(matches!(apply_start(&r), Err(ReconcileError::Other)));
}

#[test]
fn rename_conflict_deletes_the_stale_object_first() {
    let r = resource(zone_by_id(), None);
    let state = DnsMatchState::new();
    // The object stored under the same orchestrator name declares a
    // different DNS name: delete and finalize it before anything else, so
    // its provider record is cleaned up under the old name.
    let (phase, action) = apply_step(
        &r,
        true,
        &state,
        ApplyPhase::AwaitExisting,
        ApplyEvent::ExistingFetched { existing_spec_name: Some("old.example.com".to_string()) },
    );
    assert!(matches!(phase, ApplyPhase::AwaitStaleDeletion));
    match action {
        ApplyAction::DeleteStale { namespace, name } => {
            assert_eq!(namespace, "prod");
            assert_eq!(name, "web");
        }
        other => panic!("expected DeleteStale, got {:?}", other),
    }
    // Once the stale object is gone, the apply goes on to the content.
    let (phase, action) =
        apply_step(&r, true, &state, ApplyPhase::AwaitStaleDeletion, ApplyEvent::StaleDeleted);
    assert!(matches!(phase, ApplyPhase::AwaitContent));
    assert!(matches!(action, ApplyAction::ResolveContent));
}

#[test]
fn same_name_is_no_conflict() {
    let r = resource(zone_by_id(), None);
    let state = DnsMatchState::new();
    let (phase, action) = apply_step(
        &r,
        true,
        &state,
        ApplyPhase::AwaitExisting,
        ApplyEvent::ExistingFetched { existing_spec_name: Some("web.example.com".to_string()) },
    );
    assert!(matches!(phase, ApplyPhase::AwaitContent));
    assert!(matches!(action, ApplyAction::ResolveContent));
    let (phase, _) = apply_step(
        &r,
        true,
        &state,
        ApplyPhase::AwaitExisting,
        ApplyEvent::ExistingFetched { existing_spec_name: None },
    );
    assert!(matches!(phase, ApplyPhase::AwaitContent));
}

#[test]
fn unresolved_content_writes_error_condition_and_stops() {
    let r = resource(zone_by_id(), None);
    let state = DnsMatchState::new();
    let (phase, action) = apply_step(
        &r,
        true,
        &state,
        ApplyPhase::AwaitContent,
        ApplyEvent::ContentResolved { content: None },
    );
    assert!(matches!(phase, ApplyPhase::Stopped));
    match action {
        ApplyAction::FailWith { condition } => {
            assert_eq!(condition.type_, "Ready");
            assert_eq!(condition.status, "False");
            assert_eq!(condition.reason, "missing content");
            assert_eq!(
                condition.message,
                "unable to resolve content for CloudflareDNSRecord prod/web"
            );
            assert_eq!(condition.observed_generation, Some(1));
        }
        other => panic!("expected FailWith, got {:?}", other),
    }
}

#[test]
fn unresolved_zone_writes_error_condition_and_stops() {
    let r = resource(zone_by_name(), None);
    let state = DnsMatchState::new();
    let (phase, action) = apply_step(
        &r,
        true,
        &state,
        ApplyPhase::AwaitZoneValue { content: "1.2.3.4".to_string() },
        ApplyEvent::ZoneValueResolved { value: None },
    );
    assert!(matches!(phase, ApplyPhase::Stopped));
    match action {
        ApplyAction::FailWith { condition } => {
            assert_eq!(condition.reason, "missing zone");
            assert_eq!(
                condition.message,
                "unable to resolve zone for CloudflareDNSRecord prod/web"
            );
        }
        other => panic!("expected FailWith, got {:?}", other),
    }
    // The same happens when the zone name finds no provider zone.
    let (phase, action) = apply_step(
        &r,
        true,
        &state,
        ApplyPhase::AwaitZoneId { content: "1.2.3.4".to_string() },
        ApplyEvent::ZoneIdResolved { zone_id: None },
    );
    assert!(matches!(phase, ApplyPhase::Stopped));
    assert!(matches!(action, ApplyAction::FailWith { .. }));
}

#[test]
fn named_zone_goes_through_the_zone_listing() {
    let r = resource(zone_by_name(), None);
    let state = DnsMatchState::new();
    let (phase, action) = apply_step(
        &r,
        true,
        &state,
        ApplyPhase::AwaitZoneValue { content: "1.2.3.4".to_string() },
        ApplyEvent::ZoneValueResolved { value: Some("example.com".to_string()) },
    );
    assert!(matches!(phase, ApplyPhase::AwaitZoneId { .. }));
    match action {
        ApplyAction::ResolveZoneId { name } => assert_eq!(name, "example.com"),
        other => panic!("expected ResolveZoneId, got {:?}", other),
    }
}

#[test]
fn id_zone_upserts_directly() {
    let r = resource(zone_by_id(), None);
    let state = DnsMatchState::new();
    let (phase, action) = apply_step(
        &r,
        true,
        &state,
        ApplyPhase::AwaitZoneValue { content: "1.2.3.4".to_string() },
        ApplyEvent::ZoneValueResolved { value: Some("z1".to_string()) },
    );
    match phase {
        ApplyPhase::AwaitUpsert { zone_id } => assert_eq!(zone_id, "z1"),
        other => panic!("expected AwaitUpsert, got {:?}", other),
    }
    match action {
        ApplyAction::Upsert { args } => {
            assert!(matches!(args.zone, Zone::Identifier(ref z) if z == "z1"));
            assert_eq!(args.name, "web.example.com");
            assert_eq!(args.record_type, RecordType::A);
            assert_eq!(args.content, "1.2.3.4");
            assert_eq!(args.comment.as_deref(), Some("managed"));
            assert_eq!(args.ttl, Some(120));
        }
        other => panic!("expected Upsert, got {:?}", other),
    }
}

#[test]
fn completed_upsert_persists_status_and_enqueues_first_check() {
    let r = resource(zone_by_id(), None);
    let state = DnsMatchState::new();
    // DNS checking is on and no match is recorded: the record is pending,
    // the condition says so, and the first-ever apply enqueues a check.
    let (phase, action) = apply_step(
        &r,
        true,
        &state,
        ApplyPhase::AwaitUpsert { zone_id: "z1".to_string() },
        ApplyEvent::UpsertDone { record_id: "rec9".to_string() },
    );
    assert!(matches!(phase, ApplyPhase::AwaitStatusPatch));
    match action {
        ApplyAction::PatchStatus { status, enqueue_check } => {
            assert_eq!(status.record_id, "rec9");
            assert_eq!(status.zone_id, "z1");
            assert!(status.pending);
            let conditions = status.conditions.expect("one condition");
            assert_eq!(conditions.len(), 1);
            assert_eq!(conditions[0].status, "False");
            assert_eq!(conditions[0].reason, "pending");
            assert_eq!(
                conditions[0].message,
                "The DNS record has not propagated yet. This is expected to take some time."
            );
            assert!(enqueue_check);
        }
        other => panic!("expected PatchStatus, got {:?}", other),
    }
    let (phase, action) =
        apply_step(&r, true, &state, ApplyPhase::AwaitStatusPatch, ApplyEvent::StatusPatched);
    assert!(matches!(phase, ApplyPhase::Done));
    assert!(matches!(action, ApplyAction::Finish));
}

#[test]
fn upsert_with_dns_checking_off_is_never_pending() {
    let r = resource(zone_by_id(), None);
    let state = DnsMatchState::new();
    let (_, action) = apply_step(
        &r,
        false,
        &state,
        ApplyPhase::AwaitUpsert { zone_id: "z1".to_string() },
        ApplyEvent::UpsertDone { record_id: "rec9".to_string() },
    );
    match action {
        ApplyAction::PatchStatus { status, enqueue_check } => {
            assert!(!status.pending);
            let conditions = status.conditions.expect("one condition");
            assert_eq!(conditions[0].status, "True");
            assert!(!enqueue_check);
        }
        other => panic!("expected PatchStatus, got {:?}", other),
    }
}

#[test]
fn upsert_after_observed_match_is_ready() {
    let r = resource(zone_by_id(), None);
    let mut state = DnsMatchState::new();
    state.observe(&"prod:web".to_string(), true);
    let (_, action) = apply_step(
        &r,
        true,
        &state,
        ApplyPhase::AwaitUpsert { zone_id: "z1".to_string() },
        ApplyEvent::UpsertDone { record_id: "rec9".to_string() },
    );
    match action {
        ApplyAction::PatchStatus { status, .. } => {
            assert!(!status.pending);
            assert_eq!(status.conditions.expect("one")[0].status, "True");
        }
        other => panic!("expected PatchStatus, got {:?}", other),
    }
}

#[test]
fn repeat_apply_does_not_enqueue_another_check() {
    let status = CloudflareDNSRecordStatus {
        record_id: "rec9".to_string(),
        zone_id: "z1".to_string(),
        pending: true,
        conditions: None,
    };
    let r = resource(zone_by_id(), Some(status));
    let state = DnsMatchState::new();
    let (_, action) = apply_step(
        &r,
        true,
        &state,
        ApplyPhase::AwaitUpsert { zone_id: "z1".to_string() },
        ApplyEvent::UpsertDone { record_id: "rec9".to_string() },
    );
    match action {
        ApplyAction::PatchStatus { enqueue_check, .. } => assert!(!enqueue_check),
        other => panic!("expected PatchStatus, got {:?}", other),
    }
}

#[test]
fn cleanup_uses_exactly_the_persisted_identifiers() {
    let status = CloudflareDNSRecordStatus {
        record_id: "rec9".to_string(),
        zone_id: "z1".to_string(),
        pending: false,
        conditions: None,
    };
    let r = resource(zone_by_id(), Some(status));
    match cleanup_action(&r) {
        CleanupAction::DeleteRecord { zone_id, record_id } => {
            assert_eq!(zone_id, "z1");
            assert_eq!(record_id, "rec9");
        }
        other => panic!("expected DeleteRecord, got {:?}", other),
    }
    let fresh = resource(zone_by_id(), None);
    assert!(matches!(cleanup_action(&fresh), CleanupAction::NothingToDo));
}

#[test]
fn error_policy_downgrades_conflict_and_not_found() {
    assert_eq!(
        classify_reconcile_error(&ReconcileError::Kube { status: 409 }),
        ErrorDisposition::SwallowConflict
    );
    assert_eq!(
        classify_reconcile_error(&ReconcileError::Kube { status: 404 }),
        ErrorDisposition::SwallowNotFound
    );
    assert_eq!(
        classify_reconcile_error(&ReconcileError::Kube { status: 500 }),
        ErrorDisposition::Propagate
    );
    assert_eq!(
        classify_reconcile_error(&ReconcileError::Deletion),
        ErrorDisposition::SwallowDeletion
    );
    assert_eq!(
        classify_reconcile_error(&ReconcileError::Other),
        ErrorDisposition::Propagate
    );
}

#[test]
fn requeue_delays() {
    assert_eq!(requeue_delay_secs(false), REQUEUE_SECS);
    assert_eq!(requeue_delay_secs(false), 300);
    assert_eq!(requeue_delay_secs(true), ERROR_REQUEUE_SECS);
    assert_eq!(requeue_delay_secs(true), 15);
}

#[test]
fn condition_patch_carries_status_fields_over() {
    let status = Some(CloudflareDNSRecordStatus {
        record_id: "rec9".to_string(),
        zone_id: "z1".to_string(),
        pending: true,
        conditions: None,
    });
    let patched = status_with_conditions(&status, Vec::new());
    assert_eq!(patched.record_id, "rec9");
    assert_eq!(patched.zone_id, "z1");
    assert!(patched.pending);
    assert_eq!(patched.conditions.expect("replaced").len(), 0);
    let fresh = status_with_conditions(&None, Vec::new());
    assert_eq!(fresh.record_id, "");
    assert_eq!(fresh.zone_id, "");
    assert!(!fresh.pending);
}
