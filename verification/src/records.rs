//! DNS record types and the provider-side record model.

use vstd::prelude::*;

verus! {

broadcast use vstd::string::group_string_axioms;

use vstd::string::StringExecFns;

/// Supported DNS record types.
#[derive(Debug, PartialEq, Eq, Structural, Clone, Copy)]
pub enum RecordType {
    A,
    AAAA,
    CNAME,
    MX,
    TXT,
    SRV,
    LOC,
    SPF,
    NS,
}

impl RecordType {
    /// The default record type when a spec leaves the type unset.
    pub fn default_type() -> (r: RecordType)
        ensures
            r == RecordType::A,
    {
        RecordType::A
    }

    /// Whether the propagation checker can resolve this record type with a
    /// live DNS query.  Only these types have a defined answer
    /// stringification; the others are skipped by the checker.
    pub fn is_resolvable(&self) -> (r: bool)
        ensures
            r == self.spec_is_resolvable(),
    {
        match self {
            RecordType::A => true,
            RecordType::AAAA => true,
            RecordType::CNAME => true,
            RecordType::MX => true,
            RecordType::TXT => true,
            RecordType::NS => true,
            RecordType::SRV => false,
            RecordType::LOC => false,
            RecordType::SPF => false,
        }
    }

    pub open spec fn spec_is_resolvable(&self) -> bool {
        match self {
            RecordType::A | RecordType::AAAA | RecordType::CNAME | RecordType::MX
                | RecordType::TXT | RecordType::NS => true,
            _ => false,
        }
    }
}

/// The wire name of each record type.
pub open spec fn spec_record_type_text(t: RecordType) -> Seq<char> {
    match t {
        RecordType::A => "A"@,
        RecordType::AAAA => "AAAA"@,
        RecordType::CNAME => "CNAME"@,
        RecordType::MX => "MX"@,
        RecordType::TXT => "TXT"@,
        RecordType::SRV => "SRV"@,
        RecordType::LOC => "LOC"@,
        RecordType::SPF => "SPF"@,
        RecordType::NS => "NS"@,
    }
}

/// The record type a wire name denotes, if any.
pub open spec fn spec_parse_record_type(s: Seq<char>) -> Option<RecordType> {
    if s == "A"@ {
        Some(RecordType::A)
    } else if s == "AAAA"@ {
        Some(RecordType::AAAA)
    } else if s == "CNAME"@ {
        Some(RecordType::CNAME)
    } else if s == "MX"@ {
        Some(RecordType::MX)
    } else if s == "TXT"@ {
        Some(RecordType::TXT)
    } else if s == "SRV"@ {
        Some(RecordType::SRV)
    } else if s == "LOC"@ {
        Some(RecordType::LOC)
    } else if s == "SPF"@ {
        Some(RecordType::SPF)
    } else if s == "NS"@ {
        Some(RecordType::NS)
    } else {
        None
    }
}

impl RecordType {
    /// The record type's wire name.
    pub fn as_str(&self) -> (r: &'static str)
        ensures
            r@ == spec_record_type_text(*self),
    {
        match self {
            RecordType::A => "A",
            RecordType::AAAA => "AAAA",
            RecordType::CNAME => "CNAME",
            RecordType::MX => "MX",
            RecordType::TXT => "TXT",
            RecordType::SRV => "SRV",
            RecordType::LOC => "LOC",
            RecordType::SPF => "SPF",
            RecordType::NS => "NS",
        }
    }
}

/// Parse a record type from its wire name; any other text is invalid.
pub fn parse_record_type(s: &str) -> (r: Option<RecordType>)
    ensures
        r == spec_parse_record_type(s@),
{
    let t: String = s.to_owned();
    if t == "A".to_owned() {
        Some(RecordType::A)
    } else if t == "AAAA".to_owned() {
        Some(RecordType::AAAA)
    } else if t == "CNAME".to_owned() {
        Some(RecordType::CNAME)
    } else if t == "MX".to_owned() {
        Some(RecordType::MX)
    } else if t == "TXT".to_owned() {
        Some(RecordType::TXT)
    } else if t == "SRV".to_owned() {
        Some(RecordType::SRV)
    } else if t == "LOC".to_owned() {
        Some(RecordType::LOC)
    } else if t == "SPF".to_owned() {
        Some(RecordType::SPF)
    } else if t == "NS".to_owned() {
        Some(RecordType::NS)
    } else {
        None
    }
}

/// A provider-side zone, reduced to what the controller reads of it: the
/// provider id and the display name.
#[derive(Debug, Clone)]
pub struct ZoneInfo {
    pub id: String,
    pub name: String,
}

/// A provider-side DNS record, reduced to the fields the controller reads
/// or reports.
#[derive(Debug, Clone)]
pub struct DnsRecordInfo {
    pub id: String,
    pub name: String,
    pub record_type: RecordType,
    pub content: String,
    pub ttl: i64,
    pub proxied: bool,
    pub comment: Option<String>,
    pub tags: Vec<String>,
}

impl DnsRecordInfo {
    /// A one-line description of the record, as it is logged:
    /// "name type content ttl=ttl".
    pub fn describe(&self) -> (r: String)
        ensures
            r@ == self.name@ + " "@ + spec_record_type_text(self.record_type) + " "@
                + self.content@ + " ttl="@ + crate::lookup::spec_decimal_i64(self.ttl as int),
    {
        let mut r = self.name.clone();
        r.append(" ");
        r.append(self.record_type.as_str());
        r.append(" ");
        r.append(self.content.as_str());
        r.append(" ttl=");
        let ttl = crate::lookup::i64_decimal_string(self.ttl);
        r.append(ttl.as_str());
        r
    }
}

/// A zone named either by its provider id or by its display name.
#[derive(Debug, Clone)]
pub enum Zone {
    Identifier(String),
    Name(String),
}

impl Zone {
    /// A zone known by its provider id.
    pub fn id(id: String) -> (r: Zone)
        ensures
            r == Zone::Identifier(id),
    {
        Zone::Identifier(id)
    }

    /// A zone known by its display name.
    pub fn name(name: String) -> (r: Zone)
        ensures
            r == Zone::Name(name),
    {
        Zone::Name(name)
    }
}

/// Arguments for creating (or replacing) one provider record.
#[derive(Debug, Clone)]
pub struct CreateRecordArgs {
    pub zone: Zone,
    pub name: String,
    pub record_type: RecordType,
    pub content: String,
    pub comment: Option<String>,
    pub ttl: Option<i64>,
}

} // verus!
