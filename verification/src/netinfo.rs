//! The local network address shown to the user so other players can reach
//! the server: the first non-loopback IPv4 address among the machine's
//! interface addresses, rendered in dotted decimal. The shell enumerates
//! the interfaces and hands the addresses over as plain octets.

use vstd::prelude::*;
use crate::text::spec_dec;
use crate::text::u64_to_string;

verus! {

/// One network interface address, reduced to what the decision reads.
pub enum IpEntry {
    V4 { a: u8, b: u8, c: u8, d: u8 },
    V6,
}

/// An IPv4 loopback address starts with octet 127.
pub open spec fn is_loopback_v4(a: u8) -> bool {
    a == 127
}

/// The first non-loopback IPv4 entry at or after `i`.
pub open spec fn first_shareable_v4(entries: Seq<IpEntry>, i: int) -> Option<(u8, u8, u8, u8)>
    decreases entries.len() - i,
{
    if i < 0 || i >= entries.len() {
        None
    } else {
        match entries[i] {
            IpEntry::V4 { a, b, c, d } => if !is_loopback_v4(a) {
                Some((a, b, c, d))
            } else {
                first_shareable_v4(entries, i + 1)
            },
            IpEntry::V6 => first_shareable_v4(entries, i + 1),
        }
    }
}

/// The dotted-decimal rendering of four octets.
pub open spec fn spec_dotted(a: u8, b: u8, c: u8, d: u8) -> Seq<char> {
    spec_dec(a as int) + seq!['.'] + spec_dec(b as int) + seq!['.'] + spec_dec(c as int)
        + seq!['.'] + spec_dec(d as int)
}

fn dotted(a: u8, b: u8, c: u8, d: u8) -> (r: String)
    ensures
        r@ == spec_dotted(a, b, c, d),
{
    let mut out = u64_to_string(a as u64);
    out.push('.');
    out.append(u64_to_string(b as u64).as_str());
    out.push('.');
    out.append(u64_to_string(c as u64).as_str());
    out.push('.');
    out.append(u64_to_string(d as u64).as_str());
    proof {
        assert(out@ =~= spec_dotted(a, b, c, d));
    }
    out
}

/// Picks the first non-loopback IPv4 address of the list and renders it.
pub fn pick_local_ip(entries: &Vec<IpEntry>) -> (r: Option<String>)
    ensures
        r is Some <==> first_shareable_v4(entries@, 0) is Some,
        r is Some ==> ({
            let (a, b, c, d) = first_shareable_v4(entries@, 0)->0;
            !is_loopback_v4(a) && r->0@ == spec_dotted(a, b, c, d)
        }),
{
    let mut i: usize = 0;
    while i < entries.len()
        invariant
            0 <= i <= entries@.len(),
            first_shareable_v4(entries@, 0) == first_shareable_v4(entries@, i as int),
        decreases entries@.len() - i,
    {
        match entries[i] {
            IpEntry::V4 { a, b, c, d } => {
                if a != 127 {
                    return Some(dotted(a, b, c, d));
                }
            },
            IpEntry::V6 => {},
        }
        proof {
            assert(first_shareable_v4(entries@, i as int) == first_shareable_v4(
                entries@,
                i + 1,
            ));
        }
        i = i + 1;
    }
    None
}

/// The local address to share from the machine's interface list, or the
/// fixed diagnostic when no non-loopback IPv4 address exists. The shell
/// gathers the list and reports interface-enumeration failures itself.
pub fn share_address(entries: &Vec<IpEntry>) -> (r: Result<String, String>)
    ensures
        r is Ok <==> first_shareable_v4(entries@, 0) is Some,
        r is Ok ==> ({
            let (a, b, c, d) = first_shareable_v4(entries@, 0)->0;
            !is_loopback_v4(a) && r->Ok_0@ == spec_dotted(a, b, c, d)
        }),
        r is Err ==> r->Err_0@ == "No local IP found"@,
{
    match pick_local_ip(entries) {
        Some(ip) => Ok(ip),
        None => Err(String::from_str("No local IP found")),
    }
}

} // verus!
