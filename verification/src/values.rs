//! Resolution of indirect values read out of config and secret objects.
//!
//! A config object's data maps keys to strings.  A secret object's data
//! maps keys to bytes: a value is tried as UTF-8 first, and as
//! base64-of-UTF-8 as a fallback; bytes that are neither resolve to no
//! value rather than an error.

use vstd::prelude::*;
use vstd::utf8::{valid_utf8, decode_utf8};

verus! {

/// What base64's standard-alphabet decoder returns for the given input,
/// `None` standing for a decode error.
pub uninterp spec fn b64_decode_of(input: Seq<u8>) -> Option<Seq<u8>>;

/// Relies on base64's `Engine::decode` with the `STANDARD` engine: the
/// result is a function of the input bytes alone.
#[verifier::external_body]
fn base64_decode(bytes: &Vec<u8>) -> (r: Option<Vec<u8>>)
    ensures
        match r {
            Some(v) => b64_decode_of(bytes@) == Some(v@),
            None => b64_decode_of(bytes@) is None,
        },
{
    base64::Engine::decode(&base64::prelude::BASE64_STANDARD, bytes.as_slice()).ok()
}

/// Relies on `String::from_utf8`: it returns the decoded string exactly
/// when the bytes are valid UTF-8, and an error otherwise.
#[verifier::external_body]
fn utf8_to_string(bytes: &Vec<u8>) -> (r: Option<String>)
    ensures
        match r {
            Some(s) => valid_utf8(bytes@) && s@ == decode_utf8(bytes@),
            None => !valid_utf8(bytes@),
        },
{
    String::from_utf8(bytes.clone()).ok()
}

/// What a secret byte value resolves to: the bytes as UTF-8 if they are
/// valid UTF-8; else the base64 decoding of the bytes, when that succeeds
/// and yields valid UTF-8; else nothing.
pub open spec fn spec_decoded_secret(bytes: Seq<u8>) -> Option<Seq<char>> {
    if valid_utf8(bytes) {
        Some(decode_utf8(bytes))
    } else {
        match b64_decode_of(bytes) {
            Some(d) => if valid_utf8(d) {
                Some(decode_utf8(d))
            } else {
                None
            },
            None => None,
        }
    }
}

/// The base64 fallback step alone: decode the bytes as base64 text, then
/// read the decoded bytes as UTF-8.
pub fn decode_base64_utf8(bytes: &Vec<u8>) -> (r: Option<String>)
    ensures
        match r {
            Some(s) => b64_decode_of(bytes@) matches Some(d) && valid_utf8(d) && s@ == decode_utf8(
                d,
            ),
            None => match b64_decode_of(bytes@) {
                Some(d) => !valid_utf8(d),
                None => true,
            },
        },
{
    match base64_decode(bytes) {
        Some(decoded) => utf8_to_string(&decoded),
        None => None,
    }
}

/// Resolve one secret byte value: UTF-8 first, base64-of-UTF-8 as
/// fallback, no value when the bytes are neither.
pub fn decode_secret_value(bytes: &Vec<u8>) -> (r: Option<String>)
    ensures
        match r {
            Some(s) => spec_decoded_secret(bytes@) == Some(s@),
            None => spec_decoded_secret(bytes@) is None,
        },
{
    match utf8_to_string(bytes) {
        Some(s) => Some(s),
        None => decode_base64_utf8(bytes),
    }
}

/// First value stored under `key` in a fetched string-data map.
pub open spec fn spec_assoc_str(pairs: Seq<(String, String)>, key: Seq<char>) -> Option<String>
    decreases pairs.len(),
{
    if pairs.len() == 0 {
        None
    } else if pairs[0].0@ == key {
        Some(pairs[0].1)
    } else {
        spec_assoc_str(pairs.drop_first(), key)
    }
}

/// First value stored under `key` in a fetched byte-data map.
pub open spec fn spec_assoc_bytes(pairs: Seq<(String, Vec<u8>)>, key: Seq<char>) -> Option<
    Vec<u8>,
>
    decreases pairs.len(),
{
    if pairs.len() == 0 {
        None
    } else if pairs[0].0@ == key {
        Some(pairs[0].1)
    } else {
        spec_assoc_bytes(pairs.drop_first(), key)
    }
}

proof fn lemma_assoc_str_skip(pairs: Seq<(String, String)>, key: Seq<char>, i: int)
    requires
        0 <= i <= pairs.len(),
        forall|j: int| 0 <= j < i ==> pairs[j].0@ != key,
    ensures
        spec_assoc_str(pairs, key) == spec_assoc_str(pairs.skip(i), key),
    decreases i,
{
    if i > 0 {
        lemma_assoc_str_skip(pairs, key, i - 1);
        assert(pairs.skip(i - 1).drop_first() =~= pairs.skip(i));
        assert(pairs.skip(i - 1)[0] == pairs[i - 1]);
    } else {
        assert(pairs.skip(0) =~= pairs);
    }
}

proof fn lemma_assoc_bytes_skip(pairs: Seq<(String, Vec<u8>)>, key: Seq<char>, i: int)
    requires
        0 <= i <= pairs.len(),
        forall|j: int| 0 <= j < i ==> pairs[j].0@ != key,
    ensures
        spec_assoc_bytes(pairs, key) == spec_assoc_bytes(pairs.skip(i), key),
    decreases i,
{
    if i > 0 {
        lemma_assoc_bytes_skip(pairs, key, i - 1);
        assert(pairs.skip(i - 1).drop_first() =~= pairs.skip(i));
        assert(pairs.skip(i - 1)[0] == pairs[i - 1]);
    } else {
        assert(pairs.skip(0) =~= pairs);
    }
}

/// Look a key up in fetched config-object data; an absent map or key is no
/// value, not an error.
#[verifier::loop_isolation(false)]
pub fn resolve_config_value(data: &Option<Vec<(String, String)>>, key: &String) -> (r: Option<
    String,
>)
    ensures
        match data {
            Some(pairs) => r == spec_assoc_str(pairs@, key@),
            None => r is None,
        },
{
    match data {
        None => None,
        Some(pairs) => {
            let n = pairs.len();
            let mut i: usize = 0;
            while i < n
                invariant
                    n == pairs@.len(),
                    forall|j: int| 0 <= j < i ==> pairs@[j].0@ != key@,
                decreases n - i,
            {
                if pairs[i].0 == *key {
                    proof {
                        lemma_assoc_str_skip(pairs@, key@, i as int);
                        assert(pairs@.skip(i as int)[0] == pairs@[i as int]);
                    }
                    return Some(pairs[i].1.clone());
                }
                i += 1;
            }
            proof {
                lemma_assoc_str_skip(pairs@, key@, pairs@.len() as int);
            }
            None
        },
    }
}

/// What a secret lookup resolves to: the plain string-data entry when the
/// key has one, else the decoded byte-data entry.
pub open spec fn spec_secret_value(
    string_data: Option<Seq<(String, String)>>,
    data: Option<Seq<(String, Vec<u8>)>>,
    key: Seq<char>,
) -> Option<Seq<char>> {
    let from_string = match string_data {
        Some(pairs) => spec_assoc_str(pairs, key),
        None => None,
    };
    match from_string {
        Some(v) => Some(v@),
        None => {
            let from_bytes = match data {
                Some(pairs) => spec_assoc_bytes(pairs, key),
                None => None,
            };
            match from_bytes {
                Some(b) => spec_decoded_secret(b@),
                None => None,
            }
        },
    }
}

/// Look a key up in fetched secret-object data: the string-data map first,
/// then the byte-data map with UTF-8 / base64 decoding.  An absent map or
/// key, or undecodable bytes, resolve to no value rather than an error.
#[verifier::loop_isolation(false)]
pub fn resolve_secret_value(
    string_data: &Option<Vec<(String, String)>>,
    data: &Option<Vec<(String, Vec<u8>)>>,
    key: &String,
) -> (r: Option<String>)
    ensures
        match r {
            Some(s) => spec_secret_value(
                match string_data {
                    Some(p) => Some(p@),
                    None => None,
                },
                match data {
                    Some(p) => Some(p@),
                    None => None,
                },
                key@,
            ) == Some(s@),
            None => spec_secret_value(
                match string_data {
                    Some(p) => Some(p@),
                    None => None,
                },
                match data {
                    Some(p) => Some(p@),
                    None => None,
                },
                key@,
            ) is None,
        },
{
    if let Some(s) = resolve_config_value(string_data, key) {
        return Some(s);
    }
    match data {
        None => None,
        Some(pairs) => {
            let n = pairs.len();
            let mut i: usize = 0;
            while i < n
                invariant
                    n == pairs@.len(),
                    forall|j: int| 0 <= j < i ==> pairs@[j].0@ != key@,
                decreases n - i,
            {
                if pairs[i].0 == *key {
                    proof {
                        lemma_assoc_bytes_skip(pairs@, key@, i as int);
                        assert(pairs@.skip(i as int)[0] == pairs@[i as int]);
                    }
                    return decode_secret_value(&pairs[i].1);
                }
                i += 1;
            }
            proof {
                lemma_assoc_bytes_skip(pairs@, key@, pairs@.len() as int);
            }
            None
        },
    }
}

} // verus!
