//! Network-service address extraction and the address selection policy.
//!
//! A service offers candidate public addresses either through its
//! load-balancer ingress status or through explicit external addresses.
//! One candidate is selected deterministically, preferring the family the
//! requested record type hints at.

use vstd::prelude::*;
use crate::records::RecordType;

verus! {

broadcast use vstd::string::group_string_axioms;

/// One candidate public address, already classified by family; the string
/// is its textual form.
#[derive(Debug, Clone)]
pub enum IpCandidate {
    V4(String),
    V6(String),
}

impl IpCandidate {
    pub open spec fn spec_is_v4(&self) -> bool {
        self matches IpCandidate::V4(_)
    }

    pub fn is_v4(&self) -> (r: bool)
        ensures
            r == self.spec_is_v4(),
    {
        match self {
            IpCandidate::V4(_) => true,
            IpCandidate::V6(_) => false,
        }
    }

    /// The textual form of the address.
    pub open spec fn spec_text(&self) -> Seq<char> {
        match self {
            IpCandidate::V4(s) => s@,
            IpCandidate::V6(s) => s@,
        }
    }

    pub fn text(&self) -> (r: &String)
        ensures
            r@ == self.spec_text(),
    {
        match self {
            IpCandidate::V4(s) => s,
            IpCandidate::V6(s) => s,
        }
    }
}

/// Whether a candidate is of the family the hint asks for.
pub open spec fn spec_family_wanted(ip: IpCandidate, want_v6: bool) -> bool {
    if want_v6 {
        !ip.spec_is_v4()
    } else {
        ip.spec_is_v4()
    }
}

/// Index of the first candidate of the wanted family, if any.
pub open spec fn spec_first_of_family(ips: Seq<IpCandidate>, want_v6: bool) -> Option<int>
    decreases ips.len(),
{
    if ips.len() == 0 {
        None
    } else if spec_family_wanted(ips[0], want_v6) {
        Some(0)
    } else {
        match spec_first_of_family(ips.drop_first(), want_v6) {
            Some(i) => Some(i + 1),
            None => None,
        }
    }
}

/// Whether an AAAA hint asks for the v6 family; every other hint, and no
/// hint, prefers v4.
pub open spec fn spec_wants_v6(record_type: Option<RecordType>) -> bool {
    record_type == Some(RecordType::AAAA)
}

/// The index the selection policy picks: none from an empty list; the sole
/// candidate from a one-element list whatever the hint; from a longer list
/// the first candidate of the hinted family, falling back to the first
/// candidate overall when none matches.
pub open spec fn spec_selected_index(ips: Seq<IpCandidate>, record_type: Option<RecordType>) -> Option<int> {
    if ips.len() == 0 {
        None
    } else if ips.len() == 1 {
        Some(0)
    } else {
        match spec_first_of_family(ips, spec_wants_v6(record_type)) {
            Some(i) => Some(i),
            None => Some(0),
        }
    }
}

proof fn lemma_first_of_family_at(ips: Seq<IpCandidate>, want_v6: bool, i: int)
    requires
        0 <= i < ips.len(),
        spec_family_wanted(ips[i], want_v6),
        forall|j: int| 0 <= j < i ==> !spec_family_wanted(ips[j], want_v6),
    ensures
        spec_first_of_family(ips, want_v6) == Some(i),
    decreases i,
{
    if i > 0 {
        assert(ips.drop_first()[i - 1] == ips[i]);
        assert forall|j: int| 0 <= j < i - 1 implies !spec_family_wanted(
            ips.drop_first()[j],
            want_v6,
        ) by {
            assert(ips.drop_first()[j] == ips[j + 1]);
        }
        lemma_first_of_family_at(ips.drop_first(), want_v6, i - 1);
    }
}

proof fn lemma_first_of_family_none(ips: Seq<IpCandidate>, want_v6: bool)
    requires
        forall|j: int| 0 <= j < ips.len() ==> !spec_family_wanted(ips[j], want_v6),
    ensures
        spec_first_of_family(ips, want_v6) is None,
    decreases ips.len(),
{
    if ips.len() > 0 {
        lemma_first_of_family_none(ips.drop_first(), want_v6);
    }
}

/// Select one address out of the candidate list, deterministically: no
/// candidate from an empty list; the sole candidate regardless of the
/// hint; otherwise the first candidate of the hinted family (v6 for an
/// AAAA hint, v4 for every other hint or none), falling back to the first
/// candidate overall.
#[verifier::loop_isolation(false)]
pub fn select_ip(ips: &Vec<IpCandidate>, record_type: Option<RecordType>) -> (r: Option<
    &IpCandidate,
>)
    ensures
        match r {
            Some(ip) => spec_selected_index(ips@, record_type) matches Some(i) && *ip == ips@[i],
            None => spec_selected_index(ips@, record_type) is None,
        },
{
    let n = ips.len();
    if n == 0 {
        return None;
    }
    if n == 1 {
        return Some(&ips[0]);
    }
    let want_v6 = match record_type {
        Some(RecordType::AAAA) => true,
        _ => false,
    };
    let mut i: usize = 0;
    while i < n
        invariant
            n == ips@.len(),
            forall|j: int| 0 <= j < i ==> !spec_family_wanted(ips@[j], want_v6),
        decreases n - i,
    {
        let fits = if want_v6 {
            !ips[i].is_v4()
        } else {
            ips[i].is_v4()
        };
        if fits {
            proof {
                lemma_first_of_family_at(ips@, want_v6, i as int);
            }
            return Some(&ips[i]);
        }
        i += 1;
    }
    proof {
        lemma_first_of_family_none(ips@, want_v6);
    }
    Some(&ips[0])
}

/// A reference to one desired-record resource, used as a reconcile
/// trigger.
#[derive(Debug, Clone)]
pub struct ResourceRef {
    pub name: String,
    pub namespace: String,
}

/// A network service, reduced to what the controller reads of it.
#[derive(Debug, Clone)]
pub struct ServiceInfo {
    pub name: Option<String>,
    pub namespace: Option<String>,
    /// Whether the service object carries a spec at all.
    pub has_spec: bool,
    /// The declared service type, e.g. "LoadBalancer".
    pub type_: Option<String>,
    /// Explicit external addresses, when the field is present.
    pub external_ips: Option<Vec<IpCandidate>>,
    /// Addresses of the load-balancer ingress status, when present.
    pub load_balancer_ingress: Option<Vec<IpCandidate>>,
}

/// Whether a service can feed a DNS record: it declares the load-balancer
/// type, or it lists at least one external address.
pub open spec fn spec_suitable_service(svc: ServiceInfo) -> bool {
    &&& svc.has_spec
    &&& {
        ||| (svc.type_ matches Some(t) && t@ == "LoadBalancer"@)
        ||| (svc.external_ips matches Some(ips) && ips@.len() > 0)
    }
}

/// Decide whether a changed service should trigger reconciliation, and of
/// which resource: a suitable, fully named service maps to its own
/// name/namespace pair.
pub fn is_suitable_service(svc: &ServiceInfo) -> (r: Option<ResourceRef>)
    ensures
        match r {
            Some(rr) => spec_suitable_service(*svc) && (svc.name matches Some(n) && rr.name@
                == n@) && (svc.namespace matches Some(ns) && rr.namespace@ == ns@),
            None => !(spec_suitable_service(*svc) && svc.name is Some && svc.namespace is Some),
        },
{
    if !svc.has_spec {
        return None;
    }
    let lb: String = "LoadBalancer".to_owned();
    let is_lb = match &svc.type_ {
        Some(t) => *t == lb,
        None => false,
    };
    let has_external = match &svc.external_ips {
        Some(ips) => ips.len() > 0,
        None => false,
    };
    if is_lb || has_external {
        let name = match &svc.name {
            Some(n) => n.clone(),
            None => {
                return None;
            },
        };
        let namespace = match &svc.namespace {
            Some(ns) => ns.clone(),
            None => {
                return None;
            },
        };
        Some(ResourceRef { name, namespace })
    } else {
        None
    }
}

/// Extraction of a service's public address can fail transiently: the
/// service declares the load-balancer type but reports no ingress yet.
#[derive(Debug, Clone, PartialEq, Eq, Structural)]
pub enum ServiceIpError {
    NoLoadBalancerIp,
}

/// Which candidate list the service offers: the load-balancer ingress
/// addresses for a load-balancer service (an error while it has none yet),
/// else the explicit external addresses, else none.
pub open spec fn spec_service_candidates(svc: ServiceInfo) -> Result<
    Option<Seq<IpCandidate>>,
    ServiceIpError,
> {
    if !svc.has_spec {
        Ok(None)
    } else if svc.type_ matches Some(t) && t@ == "LoadBalancer"@ {
        match svc.load_balancer_ingress {
            Some(ips) => Ok(Some(ips@)),
            None => Err(ServiceIpError::NoLoadBalancerIp),
        }
    } else {
        match svc.external_ips {
            Some(ips) => Ok(Some(ips@)),
            None => Ok(None),
        }
    }
}

/// The public address a DNS record should point at for this service: the
/// selection policy applied to the service's candidate list.  A service
/// without a spec or without any address source yields no address; a
/// load-balancer service with no ingress yet is a transient error.
pub fn public_ip_from_service(svc: &ServiceInfo, record_type: Option<RecordType>) -> (r: Result<
    Option<IpCandidate>,
    ServiceIpError,
>)
    ensures
        match spec_service_candidates(*svc) {
            Ok(Some(ips)) => match r {
                Ok(Some(ip)) => spec_selected_index(ips, record_type) matches Some(i) && ip
                    == ips[i],
                Ok(None) => spec_selected_index(ips, record_type) is None,
                Err(_) => false,
            },
            Ok(None) => r == Result::<Option<IpCandidate>, ServiceIpError>::Ok(None),
            Err(e) => r == Result::<Option<IpCandidate>, ServiceIpError>::Err(e),
        },
{
    if !svc.has_spec {
        return Ok(None);
    }
    let lb: String = "LoadBalancer".to_owned();
    let is_lb = match &svc.type_ {
        Some(t) => *t == lb,
        None => false,
    };
    if is_lb {
        match &svc.load_balancer_ingress {
            Some(ips) => match select_ip(ips, record_type) {
                Some(ip) => Ok(Some(clone_candidate(ip))),
                None => Ok(None),
            },
            None => Err(ServiceIpError::NoLoadBalancerIp),
        }
    } else {
        match &svc.external_ips {
            Some(ips) => match select_ip(ips, record_type) {
                Some(ip) => Ok(Some(clone_candidate(ip))),
                None => Ok(None),
            },
            None => Ok(None),
        }
    }
}

/// A copy of a candidate that is equal to it, field for field.
pub fn clone_candidate(ip: &IpCandidate) -> (r: IpCandidate)
    ensures
        r == *ip,
{
    match ip {
        IpCandidate::V4(s) => IpCandidate::V4(s.clone()),
        IpCandidate::V6(s) => IpCandidate::V6(s.clone()),
    }
}

} // verus!
