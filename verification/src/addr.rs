//! Destination addresses of a CONNECT request.
//!
//! A SOCKS5 request carries the destination as raw IPv4 bytes, raw IPv6
//! bytes, or a length-prefixed domain name. The dialer takes text, so each
//! form has a defined textual host: dotted decimal for IPv4, bracketed
//! lowercase hex groups for IPv6, and the permissively decoded name for a
//! domain.

use vstd::prelude::*;

use crate::text::{append_hex_pair, dec_chars, decimal_string, hex_pair};

verus! {

/// What `String::from_utf8_lossy` returns for a byte sequence.
pub uninterp spec fn lossy_utf8(bytes: Seq<u8>) -> Seq<char>;

/// Relies on `String::from_utf8_lossy`: the result is a function of the bytes
/// alone, and its documentation promises that valid UTF-8 is passed through
/// unchanged (invalid sequences are replaced, never a failure).
#[verifier::external_body]
fn utf8_lossy_string(bytes: &Vec<u8>) -> (s: String)
    ensures
        s@ == lossy_utf8(bytes@),
        vstd::utf8::valid_utf8(bytes@) ==> s@ == vstd::utf8::decode_utf8(bytes@),
{
    String::from_utf8_lossy(bytes).into_owned()
}

/// A destination address, one of the three SOCKS5 address types.
pub enum Address {
    /// Four IPv4 octets, in wire order.
    V4 { octets: Vec<u8> },
    /// The raw bytes of a domain name.
    Domain { name: Vec<u8> },
    /// Sixteen IPv6 octets, in wire order.
    V6 { octets: Vec<u8> },
}

/// The dotted-decimal text of an IPv4 address.
pub open spec fn ipv4_chars(octets: Seq<u8>) -> Seq<char>
    recommends
        octets.len() == 4,
{
    dec_chars(octets[0] as nat) + seq!['.'] + dec_chars(octets[1] as nat) + seq!['.'] + dec_chars(
        octets[2] as nat,
    ) + seq!['.'] + dec_chars(octets[3] as nat)
}

/// The colon-separated lowercase hex groups of an IPv6 address, two octets a
/// group, from group `i` on.
pub open spec fn ipv6_groups_chars(octets: Seq<u8>, i: int) -> Seq<char>
    recommends
        octets.len() == 16,
        0 <= i <= 8,
    decreases 8 - i,
{
    if i >= 8 {
        Seq::empty()
    } else {
        let group = hex_pair(octets[2 * i]) + hex_pair(octets[2 * i + 1]);
        if i == 7 {
            group
        } else {
            group + seq![':'] + ipv6_groups_chars(octets, i + 1)
        }
    }
}

/// The bracketed text of an IPv6 address.
pub open spec fn ipv6_chars(octets: Seq<u8>) -> Seq<char>
    recommends
        octets.len() == 16,
{
    seq!['['] + ipv6_groups_chars(octets, 0) + seq![']']
}

impl Address {
    /// The address carries exactly as many octets as its type prescribes.
    pub open spec fn well_formed(&self) -> bool {
        match self {
            Address::V4 { octets } => octets@.len() == 4,
            Address::Domain { name: _ } => true,
            Address::V6 { octets } => octets@.len() == 16,
        }
    }

    /// Whether the address carries exactly as many octets as its type
    /// prescribes.
    pub fn is_well_formed(&self) -> (r: bool)
        ensures
            r == self.well_formed(),
    {
        match self {
            Address::V4 { octets } => octets.len() == 4,
            Address::Domain { name: _ } => true,
            Address::V6 { octets } => octets.len() == 16,
        }
    }

    /// The textual host of this address, as the dialer takes it.
    pub open spec fn host_chars(&self) -> Seq<char> {
        match self {
            Address::V4 { octets } => ipv4_chars(octets@),
            Address::Domain { name } => lossy_utf8(name@),
            Address::V6 { octets } => ipv6_chars(octets@),
        }
    }

    /// Formats this address as the dialer's host text.
    pub fn host_string(&self) -> (s: String)
        requires
            self.well_formed(),
        ensures
            s@ == self.host_chars(),
    {
        match self {
            Address::V4 { octets } => {
                let dot = ".";
                proof {
                    reveal_strlit(".");
                }
                let mut s = decimal_string(octets[0] as u16);
                s.append(dot);
                s.append(decimal_string(octets[1] as u16).as_str());
                s.append(dot);
                s.append(decimal_string(octets[2] as u16).as_str());
                s.append(dot);
                s.append(decimal_string(octets[3] as u16).as_str());
                proof {
                    assert(dot@ =~= seq!['.']);
                    assert(s@ =~= ipv4_chars(octets@));
                }
                s
            },
            Address::Domain { name } => utf8_lossy_string(name),
            Address::V6 { octets } => {
                let open = "[";
                let close = "]";
                let colon = ":";
                proof {
                    reveal_strlit("[");
                    reveal_strlit("]");
                    reveal_strlit(":");
                    assert(open@ =~= seq!['[']);
                    assert(close@ =~= seq![']']);
                    assert(colon@ =~= seq![':']);
                }
                let mut s = String::from_str(open);
                let mut i: usize = 0;
                while i < 8
                    invariant
                        octets@.len() == 16,
                        0 <= i <= 8,
                        colon@ =~= seq![':'],
                        s@ + ipv6_groups_chars(octets@, i as int) + seq![']'] =~= ipv6_chars(
                            octets@,
                        ),
                    decreases 8 - i,
                {
                    append_hex_pair(&mut s, octets[2 * i]);
                    append_hex_pair(&mut s, octets[2 * i + 1]);
                    if i < 7 {
                        s.append(colon);
                    }
                    i = i + 1;
                }
                s.append(close);
                proof {
                    assert(s@ =~= ipv6_chars(octets@));
                }
                s
            },
        }
    }
}

/// The dialer's target text: host, one colon, the port in decimal.
pub open spec fn host_port_chars(addr: &Address, port: u16) -> Seq<char> {
    addr.host_chars() + seq![':'] + dec_chars(port as nat)
}

/// Formats the `host:port` text handed to the dialer.
pub fn host_port_string(addr: &Address, port: u16) -> (s: String)
    requires
        addr.well_formed(),
    ensures
        s@ == host_port_chars(addr, port),
{
    let colon = ":";
    proof {
        reveal_strlit(":");
        assert(colon@ =~= seq![':']);
    }
    let mut s = addr.host_string();
    s.append(colon);
    s.append(decimal_string(port).as_str());
    proof {
        assert(s@ =~= host_port_chars(addr, port));
    }
    s
}

} // verus!
