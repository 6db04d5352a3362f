//! IPv4 addresses and their dotted-decimal text.

use vstd::prelude::*;
use crate::text::{
    chars_of, digit_char, digit_of, free_of, join, lemma_digit_char, lemma_join_split,
    lemma_split_join, read_digit, split, split_chars, write_digit,
};

verus! {

/// An IPv4 address: four octets, the first one leading.
#[derive(Clone, Copy, Debug, PartialEq, Eq)]
pub struct Ipv4Address {
    pub octets: [u8; 4],
}

/// The octet that a decimal text denotes: one to three digits, no leading
/// zero on a longer text, and no more than 255.
pub open spec fn octet_of(s: Seq<char>) -> Option<u8> {
    if s.len() == 1 {
        digit_of(s[0])
    } else if s.len() == 2 {
        match (digit_of(s[0]), digit_of(s[1])) {
            (Some(a), Some(b)) => if a != 0 {
                Some((10 * a + b) as u8)
            } else {
                None
            },
            _ => None,
        }
    } else if s.len() == 3 {
        match (digit_of(s[0]), digit_of(s[1]), digit_of(s[2])) {
            (Some(a), Some(b), Some(c)) => if a != 0 && 100 * a + 10 * b + c <= 255 {
                Some((100 * a + 10 * b + c) as u8)
            } else {
                None
            },
            _ => None,
        }
    } else {
        None
    }
}

/// The decimal text of an octet, without leading zeros.
pub open spec fn octet_text(o: u8) -> Seq<char> {
    if o < 10 {
        seq![digit_char(o)]
    } else if o < 100 {
        seq![digit_char(o / 10), digit_char(o % 10)]
    } else {
        seq![digit_char(o / 100), digit_char((o / 10) % 10), digit_char(o % 10)]
    }
}

/// The address with the given octets.
pub open spec fn ipv4_from(a: u8, b: u8, c: u8, d: u8) -> Ipv4Address {
    Ipv4Address { octets: [a, b, c, d] }
}

/// The address that a text denotes: four octets with a dot between
/// neighbours, and nothing else.
pub open spec fn ipv4_of(s: Seq<char>) -> Option<Ipv4Address> {
    let parts = split(s, '.');
    if parts.len() == 4 {
        match (octet_of(parts[0]), octet_of(parts[1]), octet_of(parts[2]), octet_of(parts[3])) {
            (Some(a), Some(b), Some(c), Some(d)) => Some(ipv4_from(a, b, c, d)),
            _ => None,
        }
    } else {
        None
    }
}

/// The dotted-decimal text of an address.
pub open spec fn ipv4_text(a: Ipv4Address) -> Seq<char> {
    join(
        seq![
            octet_text(a.octets[0]),
            octet_text(a.octets[1]),
            octet_text(a.octets[2]),
            octet_text(a.octets[3]),
        ],
        '.',
    )
}

/// A text denotes an octet exactly when it is that octet's decimal text.
pub proof fn lemma_octet_text(s: Seq<char>, o: u8)
    ensures
        octet_of(s) == Some(o) <==> s == octet_text(o),
{
    if octet_of(s) == Some(o) {
        assert forall|i: int| 0 <= i < s.len() implies s[i] == digit_char(
            digit_of(s[i]).unwrap(),
        ) by {
            lemma_digit_char(s[i], digit_of(s[i]).unwrap());
        }
        assert(s =~= octet_text(o));
    }
}

/// The decimal text of an octet holds digits only.
pub proof fn lemma_octet_text_digits(o: u8)
    ensures
        1 <= octet_text(o).len() <= 3,
        forall|i: int|
            0 <= i < octet_text(o).len() ==> digit_of(#[trigger] octet_text(o)[i]) is Some,
{
}

/// Joining four pieces writes them out with three separators.
pub proof fn lemma_join_four(a: Seq<char>, b: Seq<char>, c: Seq<char>, d: Seq<char>, sep: char)
    ensures
        join(seq![a, b, c, d], sep) == a.push(sep) + b.push(sep) + c.push(sep) + d,
{
    let all = seq![a, b, c, d];
    let three = seq![a, b, c];
    let two = seq![a, b];
    let one = seq![a];
    assert(all.drop_last() =~= three);
    assert(three.drop_last() =~= two);
    assert(two.drop_last() =~= one);
    assert(join(one, sep) == a);
    assert(join(two, sep) == a.push(sep) + b);
    assert(join(three, sep) == (a.push(sep) + b).push(sep) + c);
}

/// The text of an IPv4 address holds seven characters or more, and no
/// colon.
pub proof fn lemma_ipv4_text_shape(a: Ipv4Address)
    ensures
        ipv4_text(a).len() >= 7,
        free_of(ipv4_text(a), ':'),
{
    let o = a.octets;
    lemma_join_four(octet_text(o[0]), octet_text(o[1]), octet_text(o[2]), octet_text(o[3]), '.');
}

/// A text denotes an address exactly when it is that address's
/// dotted-decimal text: every address has one text, and reading it back
/// gives the address.
pub proof fn lemma_ipv4_text(s: Seq<char>, a: Ipv4Address)
    ensures
        ipv4_of(s) == Some(a) <==> s == ipv4_text(a),
{
    let o = a.octets;
    let texts = seq![octet_text(o[0]), octet_text(o[1]), octet_text(o[2]), octet_text(o[3])];
    if s == ipv4_text(a) {
        assert forall|i: int| 0 <= i < texts.len() implies free_of(
            #[trigger] texts[i],
            '.',
        ) by {
            lemma_octet_text_digits(o[i]);
        }
        lemma_split_join(texts, '.');
        lemma_octet_text(texts[0], o[0]);
        lemma_octet_text(texts[1], o[1]);
        lemma_octet_text(texts[2], o[2]);
        lemma_octet_text(texts[3], o[3]);
        assert(ipv4_from(o[0], o[1], o[2], o[3]).octets =~= a.octets);
    }
    if ipv4_of(s) == Some(a) {
        let parts = split(s, '.');
        lemma_join_split(s, '.');
        lemma_octet_text(parts[0], o[0]);
        lemma_octet_text(parts[1], o[1]);
        lemma_octet_text(parts[2], o[2]);
        lemma_octet_text(parts[3], o[3]);
        assert(parts =~= texts);
    }
}

/// Reads one octet from its decimal text.
fn read_octet(s: &Vec<char>) -> (r: Option<u8>)
    ensures
        r == octet_of(s@),
{
    let n = s.len();
    if n == 0 || n > 3 {
        return None;
    }
    let mut value: u16 = 0;
    let mut i: usize = 0;
    while i < n
        invariant
            i <= n,
            n == s.len(),
            1 <= n <= 3,
            forall|j: int| 0 <= j < i ==> digit_of(#[trigger] s@[j]) is Some,
            i == 0 ==> value == 0,
            i == 1 ==> value == digit_of(s@[0]).unwrap(),
            i == 2 ==> value == 10 * digit_of(s@[0]).unwrap() + digit_of(s@[1]).unwrap(),
            i == 3 ==> value == 100 * digit_of(s@[0]).unwrap() + 10 * digit_of(s@[1]).unwrap()
                + digit_of(s@[2]).unwrap(),
        decreases n - i,
    {
        match read_digit(s[i]) {
            Some(d) => {
                value = value * 10 + d as u16;
            },
            None => {
                return None;
            },
        }
        i += 1;
    }
    if n > 1 && s[0] as u32 == 48 {
        return None;
    }
    if value > 255 {
        return None;
    }
    Some(value as u8)
}

/// Writes the decimal text of an octet at the end of `out`.
fn write_octet(out: &mut String, o: u8)
    ensures
        final(out)@ == old(out)@ + octet_text(o),
{
    if o >= 100 {
        out.push(write_digit(o / 100));
        out.push(write_digit((o / 10) % 10));
        out.push(write_digit(o % 10));
    } else if o >= 10 {
        out.push(write_digit(o / 10));
        out.push(write_digit(o % 10));
    } else {
        out.push(write_digit(o));
    }
}

impl Ipv4Address {
    /// The address with the given octets.
    pub fn new(a: u8, b: u8, c: u8, d: u8) -> (r: Ipv4Address)
        ensures
            r == ipv4_from(a, b, c, d),
    {
        Ipv4Address { octets: [a, b, c, d] }
    }

    /// Whether two addresses are the same, octet for octet.
    pub fn same(&self, other: &Ipv4Address) -> (r: bool)
        ensures
            r == (*self == *other),
    {
        let r = self.octets[0] == other.octets[0] && self.octets[1] == other.octets[1]
            && self.octets[2] == other.octets[2] && self.octets[3] == other.octets[3];
        proof {
            if r {
                assert(self.octets =~= other.octets);
            }
        }
        r
    }

    /// Reads an address from its dotted-decimal text.
    pub fn parse(text: &str) -> (r: Option<Ipv4Address>)
        ensures
            r == ipv4_of(text@),
    {
        let chars = chars_of(text);
        Ipv4Address::parse_chars(&chars)
    }

    /// Reads an address from the characters of its dotted-decimal text.
    pub fn parse_chars(chars: &Vec<char>) -> (r: Option<Ipv4Address>)
        ensures
            r == ipv4_of(chars@),
    {
        let parts = split_chars(chars, '.');
        if parts.len() != 4 {
            return None;
        }
        let a = read_octet(&parts[0]);
        let b = read_octet(&parts[1]);
        let c = read_octet(&parts[2]);
        let d = read_octet(&parts[3]);
        match (a, b, c, d) {
            (Some(a), Some(b), Some(c), Some(d)) => Some(Ipv4Address::new(a, b, c, d)),
            _ => None,
        }
    }

    /// Writes the dotted-decimal text of the address at the end of `out`.
    pub fn write(&self, out: &mut String)
        ensures
            final(out)@ == old(out)@ + ipv4_text(*self),
    {
        proof {
            lemma_join_four(
                octet_text(self.octets[0]),
                octet_text(self.octets[1]),
                octet_text(self.octets[2]),
                octet_text(self.octets[3]),
                '.',
            );
        }
        write_octet(out, self.octets[0]);
        out.push('.');
        write_octet(out, self.octets[1]);
        out.push('.');
        write_octet(out, self.octets[2]);
        out.push('.');
        write_octet(out, self.octets[3]);
    }

    /// The dotted-decimal text of the address.
    pub fn format(&self) -> (r: String)
        ensures
            r@ == ipv4_text(*self),
    {
        let mut out = String::new();
        self.write(&mut out);
        out
    }
}

} // verus!
