//! Hardware (MAC) addresses, parsed and written by the `mac_address` crate.
use vstd::prelude::*;
use mac_address::MacAddress as MacValue;

verus! {

/// A hardware address as its six bytes, in wire order.
#[derive(Clone, Copy, Debug, PartialEq, Eq, Hash, Structural)]
pub struct MacAddress(pub u8, pub u8, pub u8, pub u8, pub u8, pub u8);

/// The bytes that `mac_address` reads from a text, or `None` where it
/// refuses the text.
pub uninterp spec fn mac_parse(s: Seq<char>) -> Option<Seq<u8>>;

/// An upper-case hexadecimal digit.
pub open spec fn hex_digit(d: int) -> char {
    if d < 10 {
        crate::ipv4::digit_char(d)
    } else if d == 10 { 'A' }
    else if d == 11 { 'B' }
    else if d == 12 { 'C' }
    else if d == 13 { 'D' }
    else if d == 14 { 'E' }
    else { 'F' }
}

/// A byte as two upper-case hexadecimal digits.
pub open spec fn hex_byte(v: u8) -> Seq<char> {
    seq![hex_digit(v as int / 16), hex_digit(v as int % 16)]
}

/// The six bytes as colon-separated pairs of hexadecimal digits.
pub open spec fn mac_text(b: Seq<u8>) -> Seq<char> {
    hex_byte(b[0]) + seq![':'] + hex_byte(b[1]) + seq![':'] + hex_byte(b[2]) + seq![':']
        + hex_byte(b[3]) + seq![':'] + hex_byte(b[4]) + seq![':'] + hex_byte(b[5])
}

/// The bytes of an address, in order.
pub open spec fn mac_bytes(m: MacAddress) -> Seq<u8> {
    seq![m.0, m.1, m.2, m.3, m.4, m.5]
}

/// Relies on `mac_address::MacAddress`'s `FromStr`, which reads six bytes in
/// hexadecimal, and on its `bytes`.
#[verifier::external_body]
fn parse_mac_bytes(s: &str) -> (r: Option<[u8; 6]>)
    ensures
        match r {
            Some(b) => mac_parse(s@) == Some(b@),
            None => mac_parse(s@) is None,
        },
{
    s.parse::<MacValue>().ok().map(|m| m.bytes())
}

/// Relies on `mac_address::MacAddress`'s `Display`, which writes each byte
/// as two upper-case hexadecimal digits (`{:<02X}`), joined by colons.
#[verifier::external_body]
fn format_mac_bytes(b: [u8; 6]) -> (r: String)
    ensures
        r@ == mac_text(b@),
{
    MacValue::new(b).to_string()
}

impl MacAddress {
    /// Parses a hardware address as `mac_address` does.
    pub fn parse(s: &str) -> (r: Option<MacAddress>)
        ensures
            match mac_parse(s@) {
                Some(b) => r matches Some(m) && mac_bytes(m) == b,
                None => r is None,
            },
    {
        match parse_mac_bytes(s) {
            Some(b) => {
                let m = MacAddress(b[0], b[1], b[2], b[3], b[4], b[5]);
                assert(mac_bytes(m) =~= b@);
                Some(m)
            },
            None => None,
        }
    }

    /// The colon-separated upper-case hexadecimal text.
    pub fn format(&self) -> (r: String)
        ensures
            r@ == mac_text(mac_bytes(*self)),
    {
        let b: [u8; 6] = [self.0, self.1, self.2, self.3, self.4, self.5];
        assert(b@ =~= mac_bytes(*self));
        format_mac_bytes(b)
    }
}

} // verus!
