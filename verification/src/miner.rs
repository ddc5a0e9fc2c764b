//! Normalization of a miner's heterogeneous JSON reply into a
//! [`DiscoveredMiner`] record.
//!
//! Firmware versions disagree on which fields they report. The record keeps
//! a field only when the reply carries it as a JSON string; anything
//! missing or of another type stays absent rather than being guessed. The
//! firmware version is read from `version` and, only when that key is
//! absent altogether, from `axeOSVersion`.

use vstd::prelude::*;

use crate::json::{fields_model, JsonField};
use crate::text::str_eq;

verus! {

/// A device that answered a discovery probe, with whatever identifying
/// fields its reply carried.
#[derive(Debug)]
pub struct DiscoveredMiner {
    pub ip: String,
    pub hostname: Option<String>,
    pub version: Option<String>,
    pub model: Option<String>,
}

/// The view of an optional string.
pub open spec fn opt_view(o: Option<String>) -> Option<Seq<char>> {
    match o {
        Option::Some(s) => Option::Some(s@),
        Option::None => Option::None,
    }
}

/// The first entry of `fs` under `key`: `None` when the key is absent,
/// `Some(value)` otherwise, where the value itself is the entry's text or
/// `None` for a non-string value.
pub open spec fn lookup_field(
    fs: Seq<(Seq<char>, Option<Seq<char>>)>,
    key: Seq<char>,
) -> Option<Option<Seq<char>>>
    decreases fs.len(),
{
    if fs.len() == 0 {
        Option::None
    } else if fs[0].0 == key {
        Option::Some(fs[0].1)
    } else {
        lookup_field(fs.drop_first(), key)
    }
}

/// The text of the entry under `key`, absent when the key is missing or
/// its value is not a string.
pub open spec fn spec_text_field(
    fs: Seq<(Seq<char>, Option<Seq<char>>)>,
    key: Seq<char>,
) -> Option<Seq<char>> {
    match lookup_field(fs, key) {
        Option::Some(v) => v,
        Option::None => Option::None,
    }
}

/// The firmware version a reply reports: the `version` entry when that key
/// is present (absent if its value is not a string), else the text of
/// `axeOSVersion`.
pub open spec fn spec_version_field(fs: Seq<(Seq<char>, Option<Seq<char>>)>) -> Option<Seq<char>> {
    match lookup_field(fs, "version"@) {
        Option::Some(v) => v,
        Option::None => spec_text_field(fs, "axeOSVersion"@),
    }
}

/// True when `m` is the normalized record for the device at `ip` whose
/// reply carried the entries `fs`: each field is kept exactly when the
/// reply carried it as a string, never guessed or defaulted.
pub open spec fn spec_normalized(
    m: DiscoveredMiner,
    ip: Seq<char>,
    fs: Seq<(Seq<char>, Option<Seq<char>>)>,
) -> bool {
    &&& m.ip@ == ip
    &&& opt_view(m.hostname) == spec_text_field(fs, "hostname"@)
    &&& opt_view(m.version) == spec_version_field(fs)
    &&& opt_view(m.model) == spec_text_field(fs, "ASICModel"@)
}

/// Finds the first entry under `key`, distinguishing an absent key from a
/// present key with a non-string value.
fn lookup_exec(fields: &Vec<JsonField>, key: &str) -> (r: Option<Option<String>>)
    ensures
        match r {
            Option::Some(v) => lookup_field(fields_model(fields@), key@) == Option::Some(
                opt_view(v),
            ),
            Option::None => lookup_field(fields_model(fields@), key@) is None,
        },
{
    let ghost fs = fields_model(fields@);
    let n = fields.len();
    let mut i: usize = 0;
    proof {
        assert(fs.skip(0) =~= fs);
    }
    while i < n
        invariant
            n == fields@.len(),
            fs == fields_model(fields@),
            fs.len() == n,
            0 <= i <= n,
            lookup_field(fs, key@) == lookup_field(fs.skip(i as int), key@),
        decreases n - i,
    {
        proof {
            assert(fs.skip(i as int)[0] == fs[i as int]);
            assert(fs.skip(i as int).drop_first() =~= fs.skip(i + 1));
        }
        if str_eq(fields[i].key.as_str(), key) {
            let text = match &fields[i].text {
                Option::Some(t) => Option::Some(t.clone()),
                Option::None => Option::None,
            };
            return Some(text);
        }
        i = i + 1;
    }
    proof {
        assert(fs.skip(n as int) =~= Seq::<(Seq<char>, Option<Seq<char>>)>::empty());
    }
    None
}

/// The text of the entry under `key`, absent when the key is missing or
/// its value is not a string.
pub fn text_field(fields: &Vec<JsonField>, key: &str) -> (r: Option<String>)
    ensures
        opt_view(r) == spec_text_field(fields_model(fields@), key@),
{
    match lookup_exec(fields, key) {
        Some(Some(t)) => Some(t),
        _ => None,
    }
}

/// Builds the normalized record for the device at `ip` out of the entries
/// its reply carried.
pub fn miner_from_fields(ip: String, fields: &Vec<JsonField>) -> (m: DiscoveredMiner)
    ensures
        m.ip == ip,
        spec_normalized(m, ip@, fields_model(fields@)),
{
    let hostname = text_field(fields, "hostname");
    let version = match lookup_exec(fields, "version") {
        Some(v) => v,
        None => text_field(fields, "axeOSVersion"),
    };
    let model = text_field(fields, "ASICModel");
    DiscoveredMiner { ip, hostname, version, model }
}

} // verus!
