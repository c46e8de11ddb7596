use cloudflare_dns_operator::records::RecordType;
use cloudflare_dns_operator::services::{
    is_suitable_service, public_ip_from_service, select_ip, IpCandidate, ServiceIpError,
    ServiceInfo,
};

fn v4(s: &str) -> IpCandidate {
    IpCandidate::V4(s.to_string())
}

fn v6(s: &str) -> IpCandidate {
    IpCandidate::V6(s.to_string())
}

fn text(ip: &IpCandidate) -> &str {
    ip.text().as_str()
}

#[test]
fn select_prefers_hinted_family() {
    let ips = vec![v4("10.0.0.1"), v6("2001:db8::1")];
    let aaaa = select_ip(&ips, Some(RecordType::AAAA)).expect("a candidate");
    assert_eq!(text(aaaa), "2001:db8::1");
    let a = select_ip(&ips, Some(RecordType::A)).expect("a candidate");
    assert_eq!(text(a), "10.0.0.1");
    let none_hint = select_ip(&ips, None).expect("a candidate");
    assert_eq!(text(none_hint), "10.0.0.1");
}

#[test]
fn select_empty_list_yields_nothing() {
    let ips: Vec<IpCandidate> = Vec::new();
    assert!(select_ip(&ips, None).is_none());
    assert!(select_ip(&ips, Some(RecordType::A)).is_none());
    assert!(select_ip(&ips, Some(RecordType::AAAA)).is_none());
}

#[test]
fn select_single_candidate_ignores_hint() {
    let only_v6 = vec![v6("2001:db8::7")];
    let picked = select_ip(&only_v6, Some(RecordType::A)).expect("the sole candidate");
    assert_eq!(text(picked), "2001:db8::7");
}

#[test]
fn select_falls_back_to_first_when_family_absent() {
    let ips = vec![v6("2001:db8::1"), v6("2001:db8::2")];
    let picked = select_ip(&ips, Some(RecordType::A)).expect("fallback");
    assert_eq!(text(picked), "2001:db8::1");
}

fn service(
    type_: Option<&str>,
    external: Option<Vec<IpCandidate>>,
    ingress: Option<Vec<IpCandidate>>,
) -> ServiceInfo {
    ServiceInfo {
        name: Some("svc".to_string()),
        namespace: Some("prod".to_string()),
        has_spec: true,
        type_: type_.map(|t| t.to_string()),
        external_ips: external,
        load_balancer_ingress: ingress,
    }
}

#[test]
fn load_balancer_service_is_suitable() {
    let svc = service(Some("LoadBalancer"), None, Some(vec![v4("10.0.0.1")]));
    let rr = is_suitable_service(&svc).expect("suitable");
    assert_eq!(rr.name, "svc");
    assert_eq!(rr.namespace, "prod");
}

#[test]
fn external_ip_service_is_suitable() {
    let svc = service(Some("ClusterIP"), Some(vec![v4("10.0.0.9")]), None);
    assert!(is_suitable_service(&svc).is_some());
}

#[test]
fn plain_service_is_not_suitable() {
    let svc = service(Some("ClusterIP"), None, None);
    assert!(is_suitable_service(&svc).is_none());
    let empty_external = service(Some("ClusterIP"), Some(Vec::new()), None);
    assert!(is_suitable_service(&empty_external).is_none());
}

#[test]
fn load_balancer_ip_comes_from_ingress() {
    let svc = service(
        Some("LoadBalancer"),
        None,
        Some(vec![v4("10.0.0.1"), v6("2001:db8::1")]),
    );
    let picked = public_ip_from_service(&svc, Some(RecordType::AAAA))
        .expect("no error")
        .expect("an address");
    assert_eq!(text(&picked), "2001:db8::1");
}

#[test]
fn load_balancer_without_ingress_is_transient_error() {
    let svc = service(Some("LoadBalancer"), None, None);
    match public_ip_from_service(&svc, None) {
        Err(ServiceIpError::NoLoadBalancerIp) => {}
        other => panic!("expected NoLoadBalancerIp, got {:?}", other),
    }
}

#[test]
fn non_load_balancer_uses_external_ips() {
    let svc = service(Some("ClusterIP"), Some(vec![v4("10.0.0.9")]), None);
    let picked = public_ip_from_service(&svc, None).expect("no error").expect("an address");
    assert_eq!(text(&picked), "10.0.0.9");
}

#[test]
fn service_without_address_source_yields_nothing() {
    let svc = service(Some("ClusterIP"), None, None);
    assert!(public_ip_from_service(&svc, None).expect("no error").is_none());
    let no_spec = ServiceInfo {
        name: Some("svc".to_string()),
        namespace: Some("prod".to_string()),
        has_spec: false,
        type_: None,
        external_ips: None,
        load_balancer_ingress: None,
    };
    assert!(public_ip_from_service(&no_spec, None).expect("no error").is_none());
}
