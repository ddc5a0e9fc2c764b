//! The subnet scanner's verifiable half: validating the subnet prefix,
//! planning the exact set of addresses a scan probes, and aggregating the
//! per-address outcomes.
//!
//! A scan takes a three-octet prefix such as `192.168.1` and probes every
//! address `prefix.i` for `i` in an inclusive last-octet range. Validation
//! happens — and fails — before any network work; per-address failures
//! during the scan are never surfaced, so the aggregate keeps exactly the
//! addresses that produced a record.

use vstd::prelude::*;

use crate::errors::{MinerError, SubnetFault};
use crate::miner::DiscoveredMiner;
use crate::text::{parse_octet, spec_dec_digits, spec_octet_ok, u32_to_dec};

verus! {

/// Splits `s` at every dot, with `cur` the piece read so far.
pub open spec fn split_acc(s: Seq<char>, cur: Seq<char>) -> Seq<Seq<char>>
    decreases s.len(),
{
    if s.len() == 0 {
        seq![cur]
    } else if s[0] == '.' {
        seq![cur] + split_acc(s.drop_first(), Seq::empty())
    } else {
        split_acc(s.drop_first(), cur.push(s[0]))
    }
}

/// The dot-separated parts of `s`. The empty string has one (empty) part,
/// and every dot adds one part, so `"1.2.3"` has three and `"1.2.3."`
/// four.
pub open spec fn dot_parts(s: Seq<char>) -> Seq<Seq<char>> {
    split_acc(s, Seq::empty())
}

/// The views of a list of parts.
pub open spec fn parts_view(ps: Seq<String>) -> Seq<Seq<char>> {
    ps.map_values(|p: String| p@)
}

/// Splits a subnet string at every dot.
pub fn split_dots(s: &str) -> (r: Vec<String>)
    ensures
        parts_view(r@) == dot_parts(s@),
{
    let n = s.unicode_len();
    let mut parts: Vec<String> = Vec::new();
    let mut cur = String::new();
    let mut i: usize = 0;
    proof {
        assert(s@.skip(0) =~= s@);
        assert(parts_view(parts@) + split_acc(s@, cur@) =~= split_acc(s@, cur@));
    }
    while i < n
        invariant
            n == s@.len(),
            0 <= i <= n,
            dot_parts(s@) == parts_view(parts@) + split_acc(s@.skip(i as int), cur@),
        decreases n - i,
    {
        let c = s.get_char(i);
        let ghost prev_parts = parts@;
        let ghost prev_cur = cur@;
        proof {
            assert(s@.skip(i as int)[0] == s@[i as int]);
            assert(s@.skip(i as int).drop_first() =~= s@.skip(i + 1));
        }
        if c == '.' {
            parts.push(cur);
            cur = String::new();
            proof {
                assert(parts_view(parts@) =~= parts_view(prev_parts).push(prev_cur));
                assert(parts_view(prev_parts).push(prev_cur) + split_acc(s@.skip(i + 1), cur@)
                    =~= parts_view(prev_parts) + (seq![prev_cur] + split_acc(
                    s@.skip(i + 1),
                    cur@,
                )));
            }
        } else {
            cur.append(s.substring_char(i, i + 1));
            proof {
                assert(s@.subrange(i as int, i + 1) =~= seq![s@[i as int]]);
                assert(cur@ =~= prev_cur.push(s@[i as int]));
            }
        }
        i = i + 1;
    }
    proof {
        assert(s@.skip(n as int) =~= Seq::<char>::empty());
        assert(parts_view(parts@).push(cur@) =~= parts_view(parts@) + split_acc(
            s@.skip(n as int),
            cur@,
        ));
        assert(parts_view(parts@.push(cur)) =~= parts_view(parts@).push(cur@));
    }
    parts.push(cur);
    parts
}

/// True when `s` is a well-formed subnet prefix: exactly three
/// dot-separated parts, each a decimal octet.
pub open spec fn spec_subnet_ok(s: Seq<char>) -> bool {
    &&& dot_parts(s).len() == 3
    &&& forall|i: int| 0 <= i < 3 ==> spec_octet_ok(#[trigger] dot_parts(s)[i])
}

/// True when `e` is the error a malformed subnet `s` is rejected with:
/// the part-count fault when the shape is wrong, else the first part that
/// is not a decimal octet, by name.
pub open spec fn spec_subnet_fault(s: Seq<char>, e: MinerError) -> bool {
    match e {
        MinerError::MalformedSubnet(SubnetFault::WrongPartCount) => dot_parts(s).len() != 3,
        MinerError::MalformedSubnet(SubnetFault::BadOctet(p)) => {
            &&& dot_parts(s).len() == 3
            &&& exists|i: int|
                {
                    &&& 0 <= i < 3
                    &&& p@ == #[trigger] dot_parts(s)[i]
                    &&& !spec_octet_ok(dot_parts(s)[i])
                    &&& forall|j: int| 0 <= j < i ==> spec_octet_ok(#[trigger] dot_parts(s)[j])
                }
        },
        _ => false,
    }
}

/// Validates a subnet prefix, rejecting it before any network work when
/// it is not exactly three decimal octets.
pub fn parse_subnet(subnet: &str) -> (r: Result<(), MinerError>)
    ensures
        (r is Ok) == spec_subnet_ok(subnet@),
        r matches Err(e) ==> spec_subnet_fault(subnet@, e),
{
    let parts = split_dots(subnet);
    if parts.len() != 3 {
        return Err(MinerError::MalformedSubnet(SubnetFault::WrongPartCount));
    }
    let mut i: usize = 0;
    while i < 3
        invariant
            parts@.len() == 3,
            parts_view(parts@) == dot_parts(subnet@),
            0 <= i <= 3,
            forall|j: int| 0 <= j < i ==> spec_octet_ok(#[trigger] dot_parts(subnet@)[j]),
        decreases 3 - i,
    {
        proof {
            assert(dot_parts(subnet@)[i as int] == parts@[i as int]@);
        }
        if parse_octet(parts[i].as_str()).is_none() {
            proof {
                assert(!spec_octet_ok(dot_parts(subnet@)[i as int]));
            }
            return Err(MinerError::MalformedSubnet(SubnetFault::BadOctet(parts[i].clone())));
        }
        i = i + 1;
    }
    Ok(())
}

/// The address of host `octet` on the subnet: the prefix, a dot, and the
/// octet in decimal.
pub open spec fn spec_host_address(subnet: Seq<char>, octet: nat) -> Seq<char> {
    subnet + "."@ + spec_dec_digits(octet)
}

/// Builds the address of host `octet` on the subnet.
pub fn host_address(subnet: &str, octet: u8) -> (r: String)
    ensures
        r@ == spec_host_address(subnet@, octet as nat),
{
    String::from_str(subnet).concat(".").concat(u32_to_dec(octet as u32).as_str())
}

/// Plans a scan: validates the prefix and lays out the full address range
/// `subnet.start ..= subnet.end`, one address per probe the scan will
/// issue, in ascending order. A malformed prefix is rejected here, before
/// any probe exists; an empty range is an empty plan, not an error.
pub fn scan_addresses(subnet: &str, start: u8, end: u8) -> (r: Result<Vec<String>, MinerError>)
    ensures
        (r is Ok) == spec_subnet_ok(subnet@),
        r matches Ok(addrs) ==> {
            &&& addrs@.len() == if start <= end {
                end - start + 1
            } else {
                0
            }
            &&& forall|k: int|
                0 <= k < addrs@.len() ==> #[trigger] addrs@[k]@ == spec_host_address(
                    subnet@,
                    (start + k) as nat,
                )
        },
        r matches Err(e) ==> spec_subnet_fault(subnet@, e),
{
    match parse_subnet(subnet) {
        Err(e) => Err(e),
        Ok(()) => {
            let mut addrs: Vec<String> = Vec::new();
            if start > end {
                return Ok(addrs);
            }
            let mut i: u16 = start as u16;
            while i <= end as u16
                invariant
                    start <= end,
                    start as u16 <= i <= end as u16 + 1,
                    addrs@.len() == i - start,
                    forall|k: int|
                        0 <= k < addrs@.len() ==> #[trigger] addrs@[k]@ == spec_host_address(
                            subnet@,
                            (start + k) as nat,
                        ),
                decreases end as u16 + 1 - i,
            {
                addrs.push(host_address(subnet, i as u8));
                i = i + 1;
            }
            Ok(addrs)
        },
    }
}

/// The records among a scan's per-address outcomes, in address order.
pub open spec fn somes(rs: Seq<Option<DiscoveredMiner>>) -> Seq<DiscoveredMiner>
    decreases rs.len(),
{
    if rs.len() == 0 {
        Seq::empty()
    } else {
        match rs[0] {
            Option::Some(m) => seq![m] + somes(rs.drop_first()),
            Option::None => somes(rs.drop_first()),
        }
    }
}

/// Appending one outcome appends its record, if any.
proof fn lemma_somes_push(rs: Seq<Option<DiscoveredMiner>>, x: Option<DiscoveredMiner>)
    ensures
        somes(rs.push(x)) == somes(rs) + (match x {
            Option::Some(m) => seq![m],
            Option::None => Seq::<DiscoveredMiner>::empty(),
        }),
    decreases rs.len(),
{
    reveal_with_fuel(somes, 3);
    if rs.len() == 0 {
        assert(rs.push(x)[0] == x);
        assert(rs.push(x).drop_first() =~= Seq::<Option<DiscoveredMiner>>::empty());
        match x {
            Option::Some(m) => {
                assert(somes(rs.push(x)) =~= somes(rs) + seq![m]);
            },
            Option::None => {
                assert(somes(rs.push(x)) =~= somes(rs) + Seq::<DiscoveredMiner>::empty());
            },
        }
    } else {
        assert(rs.push(x)[0] == rs[0]);
        assert(rs.push(x).drop_first() =~= rs.drop_first().push(x));
        lemma_somes_push(rs.drop_first(), x);
        let tail = somes(rs.drop_first());
        let got = match x {
            Option::Some(m) => seq![m],
            Option::None => Seq::<DiscoveredMiner>::empty(),
        };
        match rs[0] {
            Option::Some(m0) => {
                assert(somes(rs.push(x)) == seq![m0] + somes(rs.drop_first().push(x)));
                assert(somes(rs) == seq![m0] + tail);
                assert(seq![m0] + (tail + got) =~= (seq![m0] + tail) + got);
            },
            Option::None => {
                assert(somes(rs.push(x)) == somes(rs.drop_first().push(x)));
            },
        }
        assert(somes(rs.push(x)) =~= somes(rs) + got);
    }
}

/// Keeps the addresses that produced a record, in order, silently
/// dropping every address that did not.
pub fn collect_discovered(results: Vec<Option<DiscoveredMiner>>) -> (r: Vec<DiscoveredMiner>)
    ensures
        r@ == somes(results@),
{
    let n = results.len();
    let mut collected: Vec<DiscoveredMiner> = Vec::new();
    let ghost all = results@;
    let mut i: usize = 0;
    proof {
        assert(all.take(0) =~= Seq::<Option<DiscoveredMiner>>::empty());
    }
    while i < n
        invariant
            n == results@.len(),
            all == results@,
            0 <= i <= n,
            collected@ == somes(all.take(i as int)),
        decreases n - i,
    {
        proof {
            assert(all.take(i + 1) =~= all.take(i as int).push(all[i as int]));
            lemma_somes_push(all.take(i as int), all[i as int]);
        }
        match &results[i] {
            Option::Some(m) => {
                let got = clone_miner(m);
                collected.push(got);
                proof {
                    assert(collected@ =~= somes(all.take(i + 1)));
                }
            },
            Option::None => {
                proof {
                    assert(collected@ =~= somes(all.take(i + 1)));
                }
            },
        }
        i = i + 1;
    }
    proof {
        assert(all.take(n as int) =~= all);
    }
    collected
}

/// Copies a record field for field.
fn clone_miner(m: &DiscoveredMiner) -> (r: DiscoveredMiner)
    ensures
        r == *m,
{
    DiscoveredMiner {
        ip: m.ip.clone(),
        hostname: clone_opt_string(&m.hostname),
        version: clone_opt_string(&m.version),
        model: clone_opt_string(&m.model),
    }
}

/// Copies an optional string.
fn clone_opt_string(o: &Option<String>) -> (r: Option<String>)
    ensures
        r == *o,
{
    match o {
        Option::Some(s) => Option::Some(s.clone()),
        Option::None => Option::None,
    }
}

/// A scan over a range where no address produced a record aggregates to
/// the empty list — a normal outcome, not an error.
pub proof fn lemma_no_records_empty_scan(results: Seq<Option<DiscoveredMiner>>)
    requires
        forall|i: int| 0 <= i < results.len() ==> #[trigger] results[i] is None,
    ensures
        somes(results) == Seq::<DiscoveredMiner>::empty(),
    decreases results.len(),
{
    if results.len() > 0 {
        assert(results[0] is None);
        lemma_no_records_empty_scan(results.drop_first());
    }
}

} // verus!
