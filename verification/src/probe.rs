//! The endpoint prober: an ordered walk over candidate API paths.
//!
//! Firmware versions expose their status under different paths, so a probe
//! tries a fixed, priority-ordered list of candidates and stops at the
//! first hit: a response in the HTTP success range whose body parses as
//! JSON. A transport failure, a non-success status, or a success status
//! with an unparseable body are all treated the same way — move on to the
//! next candidate — and only exhaustion of the whole list is a miss.
//!
//! The caller drives the walk: it asks [`Probe::next_url`] for the URL to
//! request, performs the request, and hands the outcome back to
//! [`Probe::observe`].

use vstd::prelude::*;

use crate::errors::MinerError;
use crate::http::{spec_status_ok, status_ok, HttpEvent};
use crate::json::{fields_model, json_fields_of, parse_json_fields, JsonField};
use crate::miner::{miner_from_fields, spec_normalized, DiscoveredMiner};

verus! {

/// The views of a list of paths.
pub open spec fn paths_view(ps: Seq<String>) -> Seq<Seq<char>> {
    ps.map_values(|p: String| p@)
}

/// The candidate paths for a full status fetch, in priority order: the
/// newest, most specific endpoint first.
pub open spec fn spec_status_paths() -> Seq<Seq<char>> {
    seq!["/api/system/info"@, "/api/system"@, "/api/swarm/info"@]
}

/// The candidate paths a discovery probe tries: the status endpoints that
/// identify a miner.
pub open spec fn spec_discovery_paths() -> Seq<Seq<char>> {
    seq!["/api/system/info"@, "/api/system"@]
}

/// Builds the status-fetch candidate path list.
pub fn status_paths() -> (r: Vec<String>)
    ensures
        paths_view(r@) == spec_status_paths(),
{
    let mut r: Vec<String> = Vec::new();
    r.push(String::from_str("/api/system/info"));
    r.push(String::from_str("/api/system"));
    r.push(String::from_str("/api/swarm/info"));
    proof {
        assert(paths_view(r@) =~= spec_status_paths());
    }
    r
}

/// Builds the discovery candidate path list.
pub fn discovery_paths() -> (r: Vec<String>)
    ensures
        paths_view(r@) == spec_discovery_paths(),
{
    let mut r: Vec<String> = Vec::new();
    r.push(String::from_str("/api/system/info"));
    r.push(String::from_str("/api/system"));
    proof {
        assert(paths_view(r@) =~= spec_discovery_paths());
    }
    r
}

/// The URL a probe requests: plain HTTP against the device.
pub open spec fn spec_url(ip: Seq<char>, path: Seq<char>) -> Seq<char> {
    "http://"@ + ip + path
}

/// Builds the URL for one probe attempt.
pub fn probe_url(ip: &str, path: &str) -> (r: String)
    ensures
        r@ == spec_url(ip@, path@),
{
    let mut r = String::from_str("http://");
    r.append(ip);
    r.append(path);
    r
}

/// True when `event` is a hit: a response in the success range whose body
/// parses as JSON.
pub open spec fn spec_probe_hit(event: HttpEvent) -> bool {
    &&& event matches HttpEvent::Responded { status, body }
    &&& spec_status_ok(status)
    &&& json_fields_of(body@) is Some
}

/// The body text of a response event.
pub open spec fn spec_event_body(event: HttpEvent) -> Seq<char>
    recommends
        event is Responded,
{
    match event {
        HttpEvent::Responded { body, .. } => body@,
        HttpEvent::TransportFailed(t) => t@,
    }
}

/// One walk over a candidate path list for one address.
///
/// `next` is the position of the path the caller should try next; it moves
/// forward exactly when an observed outcome is a miss.
pub struct Probe {
    pub ip: String,
    pub paths: Vec<String>,
    pub next: usize,
}

impl Probe {
    /// Starts a walk over `paths` for the device at `ip`.
    pub fn new(ip: String, paths: Vec<String>) -> (p: Probe)
        ensures
            p.ip == ip,
            p.paths == paths,
            p.next == 0,
    {
        Probe { ip, paths, next: 0 }
    }

    /// Starts a discovery walk for the device at `ip`.
    pub fn discovery(ip: String) -> (p: Probe)
        ensures
            p.ip == ip,
            paths_view(p.paths@) == spec_discovery_paths(),
            p.next == 0,
    {
        Probe::new(ip, discovery_paths())
    }

    /// Starts a full-status walk for the device at `ip`.
    pub fn status(ip: String) -> (p: Probe)
        ensures
            p.ip == ip,
            paths_view(p.paths@) == spec_status_paths(),
            p.next == 0,
    {
        Probe::new(ip, status_paths())
    }

    /// The URL to try next, or `None` once every candidate is exhausted.
    pub fn next_url(&self) -> (r: Option<String>)
        ensures
            (r is Some) == (self.next < self.paths@.len()),
            r matches Some(u) ==> u@ == spec_url(self.ip@, self.paths@[self.next as int]@),
    {
        if self.next < self.paths.len() {
            Some(probe_url(self.ip.as_str(), self.paths[self.next].as_str()))
        } else {
            None
        }
    }

    /// Judges the outcome of the request for the current path. A hit stops
    /// the walk and yields the parsed entries of the reply; any miss —
    /// transport failure, non-success status, or unparseable body —
    /// advances to the next candidate.
    pub fn observe(&mut self, event: &HttpEvent) -> (r: Option<Vec<JsonField>>)
        requires
            old(self).next < old(self).paths@.len(),
        ensures
            (r is Some) == spec_probe_hit(*event),
            r matches Some(fs) ==> Some(fields_model(fs@)) == json_fields_of(
                spec_event_body(*event),
            ),
            final(self).ip == old(self).ip,
            final(self).paths == old(self).paths,
            final(self).next == if spec_probe_hit(*event) {
                old(self).next as int
            } else {
                old(self).next + 1
            },
    {
        let candidates = self.paths.len();
        proof {
            assert(self.next < candidates);
        }
        match event {
            HttpEvent::TransportFailed(_) => {
                self.next = self.next + 1;
                None
            },
            HttpEvent::Responded { status, body } => {
                if status_ok(*status) {
                    match parse_json_fields(body.as_str()) {
                        Some(fields) => Some(fields),
                        None => {
                            self.next = self.next + 1;
                            None
                        },
                    }
                } else {
                    self.next = self.next + 1;
                    None
                }
            },
        }
    }
}

/// Runs a whole probe against a simulated device that would answer the
/// path at each position with the event at the same position. Returns the
/// position of the first hit and the entries of its reply, or `None` when
/// every candidate misses; candidates after the first hit are never
/// judged.
pub fn run_probe(ip: String, paths: Vec<String>, events: &Vec<HttpEvent>) -> (r: Option<
    (usize, Vec<JsonField>),
>)
    requires
        events@.len() == paths@.len(),
    ensures
        r matches Some((i, fs)) ==> {
            &&& i < events@.len()
            &&& spec_probe_hit(events@[i as int])
            &&& forall|j: int| 0 <= j < i ==> !spec_probe_hit(#[trigger] events@[j])
            &&& Some(fields_model(fs@)) == json_fields_of(spec_event_body(events@[i as int]))
        },
        r is None ==> forall|j: int|
            0 <= j < events@.len() ==> !spec_probe_hit(#[trigger] events@[j]),
{
    let mut probe = Probe::new(ip, paths);
    let n = events.len();
    while probe.next < n
        invariant
            n == events@.len(),
            n == probe.paths@.len(),
            0 <= probe.next <= n,
            forall|j: int| 0 <= j < probe.next ==> !spec_probe_hit(#[trigger] events@[j]),
        decreases n - probe.next,
    {
        let at = probe.next;
        match probe.observe(&events[at]) {
            Some(fields) => {
                return Some((at, fields));
            },
            None => {},
        }
    }
    None
}

/// The discovery variant of a whole probe against a simulated device:
/// normalizes the reply of the first hit, and reports absence of a miner
/// as `None` — an expected outcome during a scan, not an error.
pub fn discover_at_address(ip: String, events: &Vec<HttpEvent>) -> (r: Option<DiscoveredMiner>)
    requires
        events@.len() == spec_discovery_paths().len(),
    ensures
        (r is Some) == exists|j: int|
            0 <= j < events@.len() && spec_probe_hit(#[trigger] events@[j]),
        r matches Some(m) ==> exists|i: int|
            {
                &&& 0 <= i < events@.len()
                &&& spec_probe_hit(#[trigger] events@[i])
                &&& forall|j: int| 0 <= j < i ==> !spec_probe_hit(#[trigger] events@[j])
                &&& json_fields_of(spec_event_body(events@[i])) matches Some(fs)
                    && spec_normalized(m, ip@, fs)
            },
{
    match run_probe(ip.clone(), discovery_paths(), events) {
        Some((at, fields)) => {
            let m = miner_from_fields(ip, &fields);
            proof {
                assert(spec_probe_hit(events@[at as int]));
            }
            Some(m)
        },
        None => None,
    }
}

/// The raw-fetch variant of a whole probe against a simulated device:
/// hands back the reply body of the first hit unmodified, and fails with
/// `ConnectionExhausted` — carrying the address — only once every
/// candidate path has failed.
pub fn fetch_status_outcome(ip: String, events: &Vec<HttpEvent>) -> (r: Result<String, MinerError>)
    requires
        events@.len() == spec_status_paths().len(),
    ensures
        (r is Ok) == exists|j: int|
            0 <= j < events@.len() && spec_probe_hit(#[trigger] events@[j]),
        r matches Ok(body) ==> exists|i: int|
            {
                &&& 0 <= i < events@.len()
                &&& spec_probe_hit(#[trigger] events@[i])
                &&& forall|j: int| 0 <= j < i ==> !spec_probe_hit(#[trigger] events@[j])
                &&& body@ == spec_event_body(events@[i])
            },
        r matches Err(e) ==> e matches MinerError::ConnectionExhausted(a) && a@ == ip@,
{
    match run_probe(ip.clone(), status_paths(), events) {
        Some((at, _)) => {
            proof {
                assert(spec_probe_hit(events@[at as int]));
            }
            match &events[at] {
                HttpEvent::Responded { body, .. } => Ok(body.clone()),
                HttpEvent::TransportFailed(_) => {
                    proof {
                        assert(false);
                    }
                    Err(MinerError::ConnectionExhausted(ip))
                },
            }
        },
        None => Err(MinerError::ConnectionExhausted(ip)),
    }
}

} // verus!
