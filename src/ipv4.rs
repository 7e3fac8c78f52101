//! IPv4 addresses in dotted-quad form.
use vstd::prelude::*;
use vstd::string::StrSliceExecFns;
use crate::text::push_char;

verus! {

/// An IPv4 address as its four octets, most significant first.
#[derive(Clone, Copy, Debug, PartialEq, Eq, Hash, Structural)]
pub struct Ipv4Addr(pub u8, pub u8, pub u8, pub u8);

/// The decimal digit a character stands for.
pub open spec fn digit_of(c: char) -> Option<u8> {
    if c == '0' { Some(0u8) }
    else if c == '1' { Some(1u8) }
    else if c == '2' { Some(2u8) }
    else if c == '3' { Some(3u8) }
    else if c == '4' { Some(4u8) }
    else if c == '5' { Some(5u8) }
    else if c == '6' { Some(6u8) }
    else if c == '7' { Some(7u8) }
    else if c == '8' { Some(8u8) }
    else if c == '9' { Some(9u8) }
    else { None }
}

/// The character of a decimal digit.
pub open spec fn digit_char(d: int) -> char {
    if d == 0 { '0' }
    else if d == 1 { '1' }
    else if d == 2 { '2' }
    else if d == 3 { '3' }
    else if d == 4 { '4' }
    else if d == 5 { '5' }
    else if d == 6 { '6' }
    else if d == 7 { '7' }
    else if d == 8 { '8' }
    else { '9' }
}

/// The decimal text of an octet, without leading zeros.
pub open spec fn dec_text(v: u8) -> Seq<char> {
    if v < 10 {
        seq![digit_char(v as int)]
    } else if v < 100 {
        seq![digit_char(v as int / 10), digit_char(v as int % 10)]
    } else {
        seq![digit_char(v as int / 100), digit_char((v as int / 10) % 10), digit_char(v as int % 10)]
    }
}

/// The dotted-quad text of an address.
pub open spec fn ipv4_text(a: Ipv4Addr) -> Seq<char> {
    dec_text(a.0) + seq!['.'] + dec_text(a.1) + seq!['.'] + dec_text(a.2) + seq!['.']
        + dec_text(a.3)
}

/// Whether the octet text of `v` stands at `start` in `s`, as a whole run
/// of digits.
pub open spec fn octet_at(s: Seq<char>, start: int, v: u8) -> bool {
    let e = start + dec_text(v).len();
    &&& 0 <= start
    &&& e <= s.len()
    &&& s.subrange(start, e) == dec_text(v)
    &&& (e == s.len() || digit_of(s[e]) is None)
}

proof fn lemma_digit_round_trip(d: int)
    requires
        0 <= d < 10,
    ensures
        digit_of(digit_char(d)) == Some(d as u8),
{
}

fn digit_value(c: char) -> (r: Option<u8>)
    ensures
        r == digit_of(c),
        r matches Some(d) ==> d < 10 && digit_char(d as int) == c,
{
    match c {
        '0' => Some(0),
        '1' => Some(1),
        '2' => Some(2),
        '3' => Some(3),
        '4' => Some(4),
        '5' => Some(5),
        '6' => Some(6),
        '7' => Some(7),
        '8' => Some(8),
        '9' => Some(9),
        _ => None,
    }
}

fn digit_at(s: &str, i: usize) -> (r: Option<u8>)
    ensures
        i < s@.len() ==> r == digit_of(s@[i as int]),
        i >= s@.len() ==> r is None,
        r matches Some(d) ==> d < 10 && i < s@.len() && digit_char(d as int) == s@[i as int],
{
    if i < s.unicode_len() {
        digit_value(s.get_char(i))
    } else {
        None
    }
}

/// What the octet text of `v` at `start` says of each character there.
proof fn lemma_octet_digits(s: Seq<char>, start: int, v: u8)
    requires
        octet_at(s, start, v),
    ensures
        v < 10 ==> digit_of(s[start]) == Some(v)
            && (start + 1 == s.len() || digit_of(s[start + 1]) is None),
        10 <= v < 100 ==> digit_of(s[start]) == Some((v as int / 10) as u8)
            && digit_of(s[start + 1]) == Some((v as int % 10) as u8)
            && (start + 2 == s.len() || digit_of(s[start + 2]) is None),
        100 <= v ==> digit_of(s[start]) == Some((v as int / 100) as u8)
            && digit_of(s[start + 1]) == Some(((v as int / 10) % 10) as u8)
            && digit_of(s[start + 2]) == Some((v as int % 10) as u8)
            && (start + 3 == s.len() || digit_of(s[start + 3]) is None),
{
    let e = start + dec_text(v).len();
    let t = s.subrange(start, e);
    assert(s[start] == t[0]);
    if v < 10 {
        lemma_digit_round_trip(v as int);
    } else if v < 100 {
        assert(s[start + 1] == t[1]);
        lemma_digit_round_trip(v as int / 10);
        lemma_digit_round_trip(v as int % 10);
    } else {
        assert(s[start + 1] == t[1]);
        assert(s[start + 2] == t[2]);
        lemma_digit_round_trip(v as int / 100);
        lemma_digit_round_trip((v as int / 10) % 10);
        lemma_digit_round_trip(v as int % 10);
    }
}

/// Reads the octet whose text starts at `start`, and where it ends.
fn parse_octet(s: &str, start: usize) -> (r: Option<(u8, usize)>)
    requires
        start <= s@.len(),
        s@.len() < usize::MAX - 4,
    ensures
        r matches Some((v, e)) ==> octet_at(s@, start as int, v) && e == start + dec_text(v).len(),
        forall|v: u8| #[trigger] octet_at(s@, start as int, v)
            ==> r == Some((v, (start + dec_text(v).len()) as usize)),
{
    let ghost t = s@;
    let d0 = match digit_at(s, start) {
        Some(d) => d,
        None => {
            assert forall|v: u8| #[trigger] octet_at(t, start as int, v) implies false by {
                lemma_octet_digits(t, start as int, v);
            }
            return None;
        },
    };
    let d1 = match digit_at(s, start + 1) {
        Some(d) => d,
        None => {
            assert forall|v: u8| #[trigger] octet_at(t, start as int, v) implies v == d0 by {
                lemma_octet_digits(t, start as int, v);
            }
            assert(t.subrange(start as int, start + 1) =~= dec_text(d0));
            return Some((d0, start + 1));
        },
    };
    if d0 == 0 {
        assert forall|v: u8| #[trigger] octet_at(t, start as int, v) implies false by {
            lemma_octet_digits(t, start as int, v);
        }
        return None;
    }
    let d2 = match digit_at(s, start + 2) {
        Some(d) => d,
        None => {
            let v: u8 = d0 * 10 + d1;
            assert(v as int / 10 == d0 && v as int % 10 == d1);
            assert(t.subrange(start as int, start + 2) =~= dec_text(v));
            assert forall|w: u8| #[trigger] octet_at(t, start as int, w) implies w == v by {
                lemma_octet_digits(t, start as int, w);
            }
            return Some((v, start + 2));
        },
    };
    if digit_at(s, start + 3).is_some() {
        assert forall|v: u8| #[trigger] octet_at(t, start as int, v) implies false by {
            lemma_octet_digits(t, start as int, v);
        }
        return None;
    }
    let w: u16 = (d0 as u16) * 100 + (d1 as u16) * 10 + (d2 as u16);
    if w > 255 {
        assert forall|v: u8| #[trigger] octet_at(t, start as int, v) implies false by {
            lemma_octet_digits(t, start as int, v);
        }
        return None;
    }
    let v: u8 = w as u8;
    assert(v as int / 100 == d0 && (v as int / 10) % 10 == d1 && v as int % 10 == d2);
    assert(t.subrange(start as int, start + 3) =~= dec_text(v));
    assert forall|x: u8| #[trigger] octet_at(t, start as int, x) implies x == v by {
        lemma_octet_digits(t, start as int, x);
    }
    Some((v, start + 3))
}

/// Whether the octet text of `v` stands at `start`, followed by a dot, or,
/// for the last octet, by the end of the text.
pub open spec fn field_at(s: Seq<char>, start: int, v: u8, last: bool) -> bool {
    let e = start + dec_text(v).len();
    &&& octet_at(s, start, v)
    &&& if last {
        e == s.len()
    } else {
        e < s.len() && s[e] == '.'
    }
}

/// Where the field that starts at `start` and holds `v` ends, its
/// separator included.
pub open spec fn field_end(start: int, v: u8, last: bool) -> int {
    start + dec_text(v).len() + if last { 0int } else { 1int }
}

/// Where the parts of an address's text stand.
proof fn lemma_ipv4_layout(s: Seq<char>, x: Ipv4Addr)
    requires
        s == ipv4_text(x),
    ensures
        field_at(s, 0, x.0, false),
        field_at(s, field_end(0, x.0, false), x.1, false),
        field_at(s, field_end(field_end(0, x.0, false), x.1, false), x.2, false),
        field_at(s, field_end(field_end(field_end(0, x.0, false), x.1, false), x.2, false), x.3, true),
        s.len() <= 15,
{
    let e1 = dec_text(x.0).len() as int;
    let e2 = e1 + 1 + dec_text(x.1).len();
    let e3 = e2 + 1 + dec_text(x.2).len();
    assert(s.subrange(0, e1) =~= dec_text(x.0));
    assert(s.subrange(e1 + 1, e2) =~= dec_text(x.1));
    assert(s.subrange(e2 + 1, e3) =~= dec_text(x.2));
    assert(s.subrange(e3 + 1, s.len() as int) =~= dec_text(x.3));
}

/// At most one octet text stands at a position as a whole run of digits.
proof fn lemma_octet_at_unique(s: Seq<char>, start: int, v: u8, w: u8)
    requires
        octet_at(s, start, v),
        octet_at(s, start, w),
    ensures
        v == w,
{
    lemma_octet_digits(s, start, v);
    lemma_octet_digits(s, start, w);
}

/// Different addresses have different texts.
pub proof fn lemma_ipv4_text_injective(a: Ipv4Addr, b: Ipv4Addr)
    requires
        ipv4_text(a) == ipv4_text(b),
    ensures
        a == b,
{
    let s = ipv4_text(a);
    lemma_ipv4_layout(s, a);
    lemma_ipv4_layout(s, b);
    lemma_octet_at_unique(s, 0, a.0, b.0);
    let e1 = field_end(0, a.0, false);
    lemma_octet_at_unique(s, e1, a.1, b.1);
    let e2 = field_end(e1, a.1, false);
    lemma_octet_at_unique(s, e2, a.2, b.2);
    let e3 = field_end(e2, a.2, false);
    lemma_octet_at_unique(s, e3, a.3, b.3);
}

/// Four fields in a row make up the text of the address they hold.
proof fn lemma_ipv4_compose(s: Seq<char>, x: Ipv4Addr)
    requires
        field_at(s, 0, x.0, false),
        field_at(s, field_end(0, x.0, false), x.1, false),
        field_at(s, field_end(field_end(0, x.0, false), x.1, false), x.2, false),
        field_at(s, field_end(field_end(field_end(0, x.0, false), x.1, false), x.2, false), x.3, true),
    ensures
        s == ipv4_text(x),
{
    let e1 = dec_text(x.0).len() as int;
    let e2 = e1 + 1 + dec_text(x.1).len();
    let e3 = e2 + 1 + dec_text(x.2).len();
    let e4 = e3 + 1 + dec_text(x.3).len();
    assert(s =~= s.subrange(0, e1) + seq!['.'] + s.subrange(e1 + 1, e2) + seq!['.']
        + s.subrange(e2 + 1, e3) + seq!['.'] + s.subrange(e3 + 1, e4));
}

/// Reads one field: an octet, then a dot or, for the last, the end.
fn parse_field(s: &str, start: usize, last: bool) -> (r: Option<(u8, usize)>)
    requires
        start <= s@.len(),
        s@.len() <= 15,
    ensures
        r matches Some((v, e)) ==> field_at(s@, start as int, v, last) && e == field_end(
            start as int,
            v,
            last,
        ),
        forall|v: u8| #[trigger] field_at(s@, start as int, v, last)
            ==> r == Some((v, field_end(start as int, v, last) as usize)),
{
    let n = s.unicode_len();
    match parse_octet(s, start) {
        Some((v, e)) => {
            if last {
                if e == n {
                    Some((v, e))
                } else {
                    None
                }
            } else if e < n && s.get_char(e) == '.' {
                Some((v, e + 1))
            } else {
                None
            }
        },
        None => None,
    }
}

impl Ipv4Addr {
    /// Parses a dotted quad: four octets in decimal, without leading zeros,
    /// separated by dots. Exactly the texts that `format` writes are
    /// accepted.
    pub fn parse(s: &str) -> (r: Option<Ipv4Addr>)
        ensures
            r matches Some(a) ==> ipv4_text(a) == s@,
            forall|a: Ipv4Addr| #[trigger] ipv4_text(a) == s@ ==> r == Some(a),
    {
        let ghost t = s@;
        if s.unicode_len() > 15 {
            assert forall|x: Ipv4Addr| #[trigger] ipv4_text(x) == t implies false by {
                lemma_ipv4_layout(t, x);
            }
            return None;
        }
        let r = match parse_field(s, 0, false) {
            Some((a, e1)) => match parse_field(s, e1, false) {
                Some((b, e2)) => match parse_field(s, e2, false) {
                    Some((c, e3)) => match parse_field(s, e3, true) {
                        Some((d, _)) => Some(Ipv4Addr(a, b, c, d)),
                        None => None,
                    },
                    None => None,
                },
                None => None,
            },
            None => None,
        };
        proof {
            if let Some(x) = r {
                lemma_ipv4_compose(t, x);
            }
            assert forall|x: Ipv4Addr| #[trigger] ipv4_text(x) == t implies r == Some(x) by {
                lemma_ipv4_layout(t, x);
            }
        }
        r
    }

    /// The dotted-quad text.
    pub fn format(&self) -> (r: String)
        ensures
            r@ == ipv4_text(*self),
    {
        let mut s = String::new();
        push_octet(&mut s, self.0);
        push_char(&mut s, '.');
        push_octet(&mut s, self.1);
        push_char(&mut s, '.');
        push_octet(&mut s, self.2);
        push_char(&mut s, '.');
        push_octet(&mut s, self.3);
        assert(s@ =~= ipv4_text(*self));
        s
    }
}

fn digit_character(d: u8) -> (c: char)
    requires
        d < 10,
    ensures
        c == digit_char(d as int),
{
    match d {
        0 => '0',
        1 => '1',
        2 => '2',
        3 => '3',
        4 => '4',
        5 => '5',
        6 => '6',
        7 => '7',
        8 => '8',
        _ => '9',
    }
}

fn push_octet(s: &mut String, v: u8)
    ensures
        final(s)@ == old(s)@ + dec_text(v),
{
    if v >= 100 {
        push_char(s, digit_character(v / 100));
    }
    if v >= 10 {
        push_char(s, digit_character((v / 10) % 10));
    }
    push_char(s, digit_character(v % 10));
    assert(s@ =~= old(s)@ + dec_text(v));
}

} // verus!
