//! Picking the subnet prefix to scan out of the host's own interface
//! addresses.
//!
//! The caller enumerates the host's IPv4 addresses; the choice — the
//! first address that is neither loopback nor link-local, reduced to its
//! three-octet prefix — is made here.

use vstd::prelude::*;

use crate::text::{spec_dec_digits, u32_to_dec};

verus! {

/// An IPv4 address as its four octets.
#[derive(Debug)]
pub struct Ipv4Octets {
    pub a: u8,
    pub b: u8,
    pub c: u8,
    pub d: u8,
}

/// True when an interface address is usable as a scan base: not loopback
/// (`127.x.x.x`) and not link-local (`169.254.x.x`).
pub open spec fn spec_usable(o: Ipv4Octets) -> bool {
    o.a != 127 && !(o.a == 169 && o.b == 254)
}

/// The three-octet subnet prefix of an address, in dotted decimal.
pub open spec fn spec_subnet_prefix(o: Ipv4Octets) -> Seq<char> {
    spec_dec_digits(o.a as nat) + "."@ + spec_dec_digits(o.b as nat) + "."@ + spec_dec_digits(
        o.c as nat,
    )
}

/// Renders the three-octet subnet prefix of an address.
pub fn subnet_prefix(o: &Ipv4Octets) -> (r: String)
    ensures
        r@ == spec_subnet_prefix(*o),
{
    u32_to_dec(o.a as u32).concat(".").concat(u32_to_dec(o.b as u32).as_str()).concat(".").concat(
        u32_to_dec(o.c as u32).as_str(),
    )
}

/// The subnet prefix of the first usable address among the host's
/// interface addresses, or `None` when every address is loopback or
/// link-local.
pub fn first_usable_subnet(addrs: &Vec<Ipv4Octets>) -> (r: Option<String>)
    ensures
        (r is None) == (forall|i: int| 0 <= i < addrs@.len() ==> !spec_usable(#[trigger] addrs@[i])),
        r matches Some(s) ==> exists|i: int|
            {
                &&& 0 <= i < addrs@.len()
                &&& spec_usable(#[trigger] addrs@[i])
                &&& s@ == spec_subnet_prefix(addrs@[i])
                &&& forall|j: int| 0 <= j < i ==> !spec_usable(#[trigger] addrs@[j])
            },
{
    let n = addrs.len();
    let mut i: usize = 0;
    while i < n
        invariant
            n == addrs@.len(),
            0 <= i <= n,
            forall|j: int| 0 <= j < i ==> !spec_usable(#[trigger] addrs@[j]),
        decreases n - i,
    {
        let o = &addrs[i];
        if !(o.a == 127 || (o.a == 169 && o.b == 254)) {
            return Some(subnet_prefix(o));
        }
        i = i + 1;
    }
    None
}

} // verus!
