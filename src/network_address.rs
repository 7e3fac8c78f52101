//! Network addresses as the API sends them: an address literal of one
//! family, the empty string for "undefined", or `"UNKNOWN"`.
use vstd::prelude::*;
use vstd::string::StringExecFns;
use crate::ipv4::{ipv4_text, lemma_ipv4_text_injective, Ipv4Addr};
use crate::mac::{mac_bytes, mac_parse, mac_text, MacAddress};
use crate::text::str_equals;

verus! {

/// How "undefined" is displayed to people.
pub open spec fn unset_text() -> Seq<char> {
    "unset"@
}

/// The wire sentinel for an address that is known to exist but not known.
pub open spec fn unknown_text() -> Seq<char> {
    "UNKNOWN"@
}

/// An address family: what it accepts as text, and how it writes an
/// address. The generic `Address` reads nothing else of a family. A family
/// whose parser lives outside this library goes through
/// `Address::decode_parsed` instead.
pub trait NetAddress: Sized {
    /// The family's name, as errors report it.
    spec fn family_spec() -> Seq<char>;

    /// The address a text denotes, or `None` where the family refuses it.
    spec fn parse_spec(s: Seq<char>) -> Option<Self>;

    /// The canonical text of an address.
    spec fn text_spec(a: Self) -> Seq<char>;

    /// The family's name.
    fn family() -> (r: String)
        ensures
            r@ == Self::family_spec(),
    ;

    /// Parses an address literal of the family.
    fn de(value: &str) -> (r: Option<Self>)
        ensures
            r == Self::parse_spec(value@),
    ;

    /// Writes the address in the family's canonical form.
    fn ser(&self) -> (r: String)
        ensures
            r@ == Self::text_spec(*self),
    ;
}

/// An address field: undefined, unknown, or an address of family `T`.
#[derive(Clone, Copy, Debug, PartialEq, Eq, Hash, Structural)]
pub enum Address<T> {
    Undefined,
    Unknown,
    Concrete(T),
}

/// Why an address could not be decoded: the family's name and the text.
#[derive(Clone, Debug)]
#[non_exhaustive]
pub enum AddressError {
    InvalidAddress(String, String),
}

/// What decoding `s` gives, where the family's parser made `parsed` of it
/// and the family is called `family`.
pub open spec fn address_decodes_with<A>(
    r: Result<Address<A>, AddressError>,
    s: Seq<char>,
    parsed: Option<A>,
    family: Seq<char>,
) -> bool {
    if s.len() == 0 {
        r == Ok::<Address<A>, AddressError>(Address::Undefined)
    } else if s == unknown_text() {
        r == Ok::<Address<A>, AddressError>(Address::Unknown)
    } else {
        match parsed {
            Some(a) => r == Ok::<Address<A>, AddressError>(Address::Concrete(a)),
            None => r matches Err(AddressError::InvalidAddress(f, t)) && f@ == family && t@ == s,
        }
    }
}

/// What decoding `s` under family `T` gives.
pub open spec fn address_decodes_to<T: NetAddress>(
    r: Result<Address<T>, AddressError>,
    s: Seq<char>,
) -> bool {
    address_decodes_with(r, s, T::parse_spec(s), T::family_spec())
}

/// The wire text of a sentinel; a concrete address has none.
pub open spec fn sentinel_wire<A>(a: Address<A>) -> Option<Seq<char>> {
    match a {
        Address::Undefined => Some(Seq::empty()),
        Address::Unknown => Some(unknown_text()),
        Address::Concrete(_) => None,
    }
}

/// The display text of a sentinel; a concrete address has none.
pub open spec fn sentinel_display<A>(a: Address<A>) -> Option<Seq<char>> {
    match a {
        Address::Undefined => Some(unset_text()),
        Address::Unknown => Some(unknown_text()),
        Address::Concrete(_) => None,
    }
}

/// The wire text of an address field.
pub open spec fn address_wire<T: NetAddress>(a: Address<T>) -> Seq<char> {
    match a {
        Address::Concrete(v) => T::text_spec(v),
        _ => sentinel_wire(a)->0,
    }
}

/// The display text of an address field.
pub open spec fn address_display<T: NetAddress>(a: Address<T>) -> Seq<char> {
    match a {
        Address::Concrete(v) => T::text_spec(v),
        _ => sentinel_display(a)->0,
    }
}

impl<A> Address<A> {
    /// Decodes a wire text, given what the family's parser made of it and
    /// the family's name: the empty string is `Undefined`, `"UNKNOWN"` is
    /// `Unknown`, anything else is the parsed address or an error.
    pub fn decode_parsed(value: &str, parsed: Option<A>, family: &str) -> (r: Result<
        Address<A>,
        AddressError,
    >)
        ensures
            address_decodes_with(r, value@, parsed, family@),
    {
        if value.unicode_len() == 0 {
            Ok(Address::Undefined)
        } else if str_equals(value, "UNKNOWN") {
            Ok(Address::Unknown)
        } else {
            match parsed {
                Some(a) => Ok(Address::Concrete(a)),
                None => Err(
                    AddressError::InvalidAddress(String::from_str(family), String::from_str(value)),
                ),
            }
        }
    }

    /// The wire text of `Undefined` or `Unknown`.
    pub fn wire_sentinel(&self) -> (r: Option<String>)
        ensures
            match sentinel_wire(*self) {
                Some(t) => r matches Some(s) && s@ == t,
                None => r is None,
            },
    {
        match self {
            Address::Undefined => Some(String::new()),
            Address::Unknown => Some(String::from_str("UNKNOWN")),
            Address::Concrete(_) => None,
        }
    }

    /// The display text of `Undefined` or `Unknown`.
    pub fn display_sentinel(&self) -> (r: Option<String>)
        ensures
            match sentinel_display(*self) {
                Some(t) => r matches Some(s) && s@ == t,
                None => r is None,
            },
    {
        match self {
            Address::Undefined => Some(String::from_str("unset")),
            Address::Unknown => Some(String::from_str("UNKNOWN")),
            Address::Concrete(_) => None,
        }
    }
}

impl<T: NetAddress> Address<T> {
    /// Decodes a wire text: the empty string is `Undefined`, `"UNKNOWN"` is
    /// `Unknown`, anything else must parse under the family.
    pub fn decode(value: &str) -> (r: Result<Address<T>, AddressError>)
        ensures
            address_decodes_to(r, value@),
    {
        let family = T::family();
        Address::decode_parsed(value, T::de(value), family.as_str())
    }

    /// The canonical wire text; never fails.
    pub fn encode(&self) -> (r: String)
        ensures
            r@ == address_wire(*self),
    {
        match self.wire_sentinel() {
            Some(s) => s,
            None => match self {
                Address::Concrete(a) => a.ser(),
                _ => String::new(),
            },
        }
    }

    /// The text shown to people: `unset` for `Undefined`.
    pub fn to_string(&self) -> (r: String)
        ensures
            r@ == address_display(*self),
    {
        match self.display_sentinel() {
            Some(s) => s,
            None => match self {
                Address::Concrete(a) => a.ser(),
                _ => String::new(),
            },
        }
    }
}

/// The address whose dotted-quad text is `s`, if any.
pub open spec fn ipv4_parse_spec(s: Seq<char>) -> Option<Ipv4Addr> {
    if exists|a: Ipv4Addr| #[trigger] ipv4_text(a) == s {
        Some(choose|a: Ipv4Addr| #[trigger] ipv4_text(a) == s)
    } else {
        None
    }
}

impl NetAddress for Ipv4Addr {
    open spec fn family_spec() -> Seq<char> {
        "IPv4"@
    }

    open spec fn parse_spec(s: Seq<char>) -> Option<Ipv4Addr> {
        ipv4_parse_spec(s)
    }

    open spec fn text_spec(a: Ipv4Addr) -> Seq<char> {
        ipv4_text(a)
    }

    /// The family's name.
    fn family() -> (r: String) {
        String::from_str("IPv4")
    }

    fn de(value: &str) -> (r: Option<Ipv4Addr>) {
        let r = Ipv4Addr::parse(value);
        proof {
            if let Some(a) = r {
                let b = choose|b: Ipv4Addr| #[trigger] ipv4_text(b) == value@;
                assert(ipv4_text(b) == value@);
            }
        }
        r
    }

    fn ser(&self) -> (r: String) {
        self.format()
    }
}

/// The address that `mac_address` reads from `s`, if any.
pub open spec fn mac_parse_spec(s: Seq<char>) -> Option<MacAddress> {
    match mac_parse(s) {
        Some(b) => if b.len() == 6 {
            Some(MacAddress(b[0], b[1], b[2], b[3], b[4], b[5]))
        } else {
            None
        },
        None => None,
    }
}

impl NetAddress for MacAddress {
    open spec fn family_spec() -> Seq<char> {
        "MAC"@
    }

    open spec fn parse_spec(s: Seq<char>) -> Option<MacAddress> {
        mac_parse_spec(s)
    }

    open spec fn text_spec(a: MacAddress) -> Seq<char> {
        mac_text(mac_bytes(a))
    }

    /// The family's name.
    fn family() -> (r: String) {
        String::from_str("MAC")
    }

    fn de(value: &str) -> (r: Option<MacAddress>) {
        MacAddress::parse(value)
    }

    fn ser(&self) -> (r: String) {
        self.format()
    }
}

/// For every family, the empty text decodes to `Undefined` and `"UNKNOWN"`
/// to `Unknown`, and those two encode back to the same texts.
pub proof fn lemma_address_sentinels<T: NetAddress>(
    r: Result<Address<T>, AddressError>,
    q: Result<Address<T>, AddressError>,
)
    requires
        address_decodes_to::<T>(r, Seq::empty()),
        address_decodes_to::<T>(q, unknown_text()),
    ensures
        r == Ok::<Address<T>, AddressError>(Address::Undefined),
        q == Ok::<Address<T>, AddressError>(Address::Unknown),
        address_wire::<T>(Address::Undefined) == Seq::<char>::empty(),
        address_wire::<T>(Address::Unknown) == unknown_text(),
{
    reveal_strlit("UNKNOWN");
}

/// An IPv4 address written on the wire decodes back to itself.
pub proof fn lemma_ipv4_round_trip(a: Ipv4Addr, r: Result<Address<Ipv4Addr>, AddressError>)
    requires
        address_decodes_to::<Ipv4Addr>(r, address_wire(Address::Concrete(a))),
    ensures
        r == Ok::<Address<Ipv4Addr>, AddressError>(Address::Concrete(a)),
{
    reveal_strlit("UNKNOWN");
    let s = ipv4_text(a);
    let b = choose|b: Ipv4Addr| #[trigger] ipv4_text(b) == s;
    lemma_ipv4_text_injective(a, b);
    assert(s.len() != 0) by {
        assert(s.len() >= 7);
    }
    assert(s != unknown_text()) by {
        if s == unknown_text() {
            assert(s[0] == 'U');
        }
    }
}

/// `Undefined` is displayed as `unset` but written on the wire as the
/// empty text; the two differ.
pub proof fn lemma_address_display_differs_from_wire<T: NetAddress>()
    ensures
        address_display::<T>(Address::Undefined) == unset_text(),
        address_wire::<T>(Address::Undefined) == Seq::<char>::empty(),
        address_display::<T>(Address::Undefined) != address_wire::<T>(Address::Undefined),
{
    reveal_strlit("unset");
    assert(unset_text().len() != 0);
}

} // verus!
