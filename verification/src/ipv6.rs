//! IPv6 addresses and their text: colon-separated hexadecimal groups, with
//! `::` for one run of zero groups and an optional dotted-decimal tail.

use vstd::prelude::*;
use crate::ipv4::{
    ipv4_from, ipv4_of, ipv4_text, lemma_ipv4_text, lemma_ipv4_text_shape, Ipv4Address,
};
use crate::text::{
    chars_of, free_of, join, lemma_join_holds_separator, lemma_join_tidy, lemma_split_join, split,
    split_chars, tidy, views,
};

verus! {

/// An IPv6 address: eight 16-bit groups, the first one leading.
#[derive(Clone, Copy, Debug, PartialEq, Eq)]
pub struct Ipv6Address {
    pub segments: [u16; 8],
}

/// The hexadecimal digit that a character shows, in either case.
pub open spec fn hex_of(c: char) -> Option<u8> {
    let n = c as u32;
    if 48 <= n <= 57 {
        Some((n - 48) as u8)
    } else if 97 <= n <= 102 {
        Some((n - 87) as u8)
    } else if 65 <= n <= 70 {
        Some((n - 55) as u8)
    } else {
        None
    }
}

/// The group that a text denotes: one to four hexadecimal digits.
pub open spec fn group_of(s: Seq<char>) -> Option<u16> {
    if s.len() == 1 {
        match hex_of(s[0]) {
            Some(a) => Some(a as u16),
            _ => None,
        }
    } else if s.len() == 2 {
        match (hex_of(s[0]), hex_of(s[1])) {
            (Some(a), Some(b)) => Some((16 * a + b) as u16),
            _ => None,
        }
    } else if s.len() == 3 {
        match (hex_of(s[0]), hex_of(s[1]), hex_of(s[2])) {
            (Some(a), Some(b), Some(c)) => Some((256 * a + 16 * b + c) as u16),
            _ => None,
        }
    } else if s.len() == 4 {
        match (hex_of(s[0]), hex_of(s[1]), hex_of(s[2]), hex_of(s[3])) {
            (Some(a), Some(b), Some(c), Some(d)) => Some((4096 * a + 256 * b + 16 * c + d) as u16),
            _ => None,
        }
    } else {
        None
    }
}

/// The groups that a list of pieces denotes, when every piece is a group.
pub open spec fn plain_groups(parts: Seq<Seq<char>>) -> Option<Seq<u16>> {
    if forall|i: int| 0 <= i < parts.len() ==> group_of(#[trigger] parts[i]) is Some {
        Some(Seq::new(parts.len(), |i: int| group_of(parts[i]).unwrap()))
    } else {
        None
    }
}

/// The two groups that an IPv4 address fills at the end of an IPv6 text.
pub open spec fn quad_groups(a: Ipv4Address) -> Seq<u16> {
    seq![
        (256 * a.octets[0] + a.octets[1]) as u16,
        (256 * a.octets[2] + a.octets[3]) as u16,
    ]
}

/// The groups that a list of pieces denotes, when every piece is a group,
/// or every piece but the last is one and the last is a dotted-decimal
/// IPv4 address.
pub open spec fn tail_groups(parts: Seq<Seq<char>>) -> Option<Seq<u16>> {
    if plain_groups(parts) is Some {
        plain_groups(parts)
    } else if parts.len() >= 1 {
        match (plain_groups(parts.drop_last()), ipv4_of(parts.last())) {
            (Some(groups), Some(a)) => Some(groups + quad_groups(a)),
            _ => None,
        }
    } else {
        None
    }
}

/// The groups listed by the text on one side of `::`, or by a text without
/// `::`. The empty text lists no group; only where `quad` holds may the
/// list end in a dotted-decimal address.
pub open spec fn listed(s: Seq<char>, quad: bool) -> Option<Seq<u16>> {
    if s.len() == 0 {
        Some(Seq::empty())
    } else if quad {
        tail_groups(split(s, ':'))
    } else {
        plain_groups(split(s, ':'))
    }
}

/// Whether `::` stands at index `i` of `s`.
pub open spec fn gap_at(s: Seq<char>, i: int) -> bool {
    0 <= i && i + 1 < s.len() && s[i] == ':' && s[i + 1] == ':'
}

/// The index of the first `::` at or after `i`.
pub open spec fn gap_from(s: Seq<char>, i: int) -> Option<int>
    decreases s.len() - i,
{
    if i < 0 || i + 1 >= s.len() {
        None
    } else if gap_at(s, i) {
        Some(i)
    } else {
        gap_from(s, i + 1)
    }
}

/// The index of the first `::` in `s`.
pub open spec fn first_gap(s: Seq<char>) -> Option<int> {
    gap_from(s, 0)
}

/// `n` zero groups.
pub open spec fn zeros(n: int) -> Seq<u16> {
    Seq::new(n as nat, |i: int| 0u16)
}

/// The address with the given eight groups.
pub open spec fn ipv6_from(g: Seq<u16>) -> Ipv6Address
    recommends
        g.len() == 8,
{
    Ipv6Address { segments: [g[0], g[1], g[2], g[3], g[4], g[5], g[6], g[7]] }
}

/// The address that a text denotes. Without `::` the text lists all eight
/// groups. With `::`, the groups before the first `::` lead, those after it
/// end the address, and zero groups, at least one, fill what is between.
pub open spec fn ipv6_of(s: Seq<char>) -> Option<Ipv6Address> {
    match first_gap(s) {
        None => match listed(s, true) {
            Some(g) => if g.len() == 8 {
                Some(ipv6_from(g))
            } else {
                None
            },
            None => None,
        },
        Some(i) => match (listed(s.take(i), false), listed(s.skip(i + 2), true)) {
            (Some(head), Some(tail)) => if head.len() + tail.len() <= 7 {
                Some(ipv6_from(head + zeros(8 - head.len() - tail.len()) + tail))
            } else {
                None
            },
            _ => None,
        },
    }
}

/// The lower-case character that shows a hexadecimal digit.
pub open spec fn hex_char(d: u8) -> char
    recommends
        d < 16,
{
    if d < 10 {
        ((48 + d) as u8) as char
    } else {
        ((87 + d) as u8) as char
    }
}

/// The text of a group: lower-case hexadecimal without leading zeros.
pub open spec fn group_text(g: u16) -> Seq<char> {
    if g < 0x10 {
        seq![hex_char(g as u8)]
    } else if g < 0x100 {
        seq![hex_char((g / 16) as u8), hex_char((g % 16) as u8)]
    } else if g < 0x1000 {
        seq![hex_char((g / 256) as u8), hex_char(((g / 16) % 16) as u8), hex_char((g % 16) as u8)]
    } else {
        seq![
            hex_char((g / 4096) as u8),
            hex_char(((g / 256) % 16) as u8),
            hex_char(((g / 16) % 16) as u8),
            hex_char((g % 16) as u8),
        ]
    }
}

/// The texts of the given groups, in order.
pub open spec fn group_texts(g: Seq<u16>) -> Seq<Seq<char>> {
    Seq::new(g.len(), |i: int| group_text(g[i]))
}

/// The length of the run of zero groups that starts at index `i`.
pub open spec fn zero_run(g: Seq<u16>, i: int) -> int
    decreases g.len() - i,
{
    if 0 <= i < g.len() && g[i] == 0 {
        1 + zero_run(g, i + 1)
    } else {
        0
    }
}

/// Where the longest of the runs of zero groups that start below `n`
/// begins: the least such index, where several runs are as long.
pub open spec fn widest(g: Seq<u16>, n: int) -> int
    decreases n,
{
    if n <= 1 {
        0
    } else {
        let before = widest(g, n - 1);
        if zero_run(g, n - 1) > zero_run(g, before) {
            n - 1
        } else {
            before
        }
    }
}

/// Whether the address stands for an IPv4 address: five zero groups, then
/// `ffff`.
pub open spec fn is_mapped(a: Ipv6Address) -> bool {
    let g = a.segments;
    g[0] == 0 && g[1] == 0 && g[2] == 0 && g[3] == 0 && g[4] == 0 && g[5] == 0xffff
}

/// The IPv4 address held by the last two groups.
pub open spec fn mapped_ipv4(a: Ipv6Address) -> Ipv4Address {
    let g = a.segments;
    ipv4_from((g[6] / 256) as u8, (g[6] % 256) as u8, (g[7] / 256) as u8, (g[7] % 256) as u8)
}

/// The text `::ffff:` that leads an address which stands for an IPv4
/// address.
pub open spec fn mapped_prefix() -> Seq<char> {
    seq![':', ':', 'f', 'f', 'f', 'f', ':']
}

/// The text of an address. One that stands for an IPv4 address is written
/// as `::ffff:` and the dotted-decimal address. In any other, the first of
/// the longest runs of two or more zero groups is written as `::`; the
/// groups on either side are in lower-case hexadecimal without leading
/// zeros, with a colon between neighbours.
pub open spec fn ipv6_text(a: Ipv6Address) -> Seq<char> {
    let g = a.segments@;
    if is_mapped(a) {
        mapped_prefix() + ipv4_text(mapped_ipv4(a))
    } else {
        let start = widest(g, 8);
        let run = zero_run(g, start);
        if run >= 2 {
            join(group_texts(g.subrange(0, start)), ':') + seq![':', ':'] + join(
                group_texts(g.subrange(start + run, 8)),
                ':',
            )
        } else {
            join(group_texts(g), ':')
        }
    }
}

/// The first `::` found from `i` on is a `::`, and none stands between `i`
/// and it; where none is found, none stands at or after `i`.
pub proof fn lemma_gap_from(s: Seq<char>, i: int)
    requires
        0 <= i,
    ensures
        match gap_from(s, i) {
            Some(k) => i <= k && gap_at(s, k) && forall|j: int| i <= j < k ==> !gap_at(s, j),
            None => forall|j: int| i <= j ==> !gap_at(s, j),
        },
    decreases s.len() - i,
{
    if i + 1 < s.len() && !gap_at(s, i) {
        lemma_gap_from(s, i + 1);
    }
}

/// A tidy text holds no `::`.
pub proof fn lemma_no_gap(s: Seq<char>)
    requires
        tidy(s, ':'),
    ensures
        first_gap(s) is None,
{
    lemma_gap_from(s, 0);
}

/// Where a tidy or empty text, `::` and any text stand in a row, the first
/// `::` is the one after the first text.
pub proof fn lemma_gap_between(head: Seq<char>, tail: Seq<char>)
    requires
        head.len() == 0 || tidy(head, ':'),
    ensures
        first_gap(head + seq![':', ':'] + tail) == Some(head.len() as int),
        (head + seq![':', ':'] + tail).take(head.len() as int) == head,
        (head + seq![':', ':'] + tail).skip(head.len() as int + 2) == tail,
{
    let s = head + seq![':', ':'] + tail;
    let n = head.len() as int;
    assert(s[n] == ':' && s[n + 1] == ':');
    lemma_gap_from(s, 0);
    assert forall|j: int| 0 <= j < n implies !gap_at(s, j) by {
        assert(s[j] == head[j]);
    }
}

/// Every hexadecimal digit is read back from its character, which is
/// neither a colon nor a dot.
pub proof fn lemma_hex_char(d: u8)
    requires
        d < 16,
    ensures
        hex_of(hex_char(d)) == Some(d),
        hex_char(d) != ':',
        hex_char(d) != '.',
{
}

/// A group is the sum of its four hexadecimal digits, each in its place.
pub proof fn lemma_group_digits(g: u16)
    ensures
        g / 4096 < 16,
        g == 4096 * (g / 4096) + 256 * ((g / 256) % 16) + 16 * ((g / 16) % 16) + g % 16,
        g < 0x1000 ==> g / 256 < 16 && g == 256 * (g / 256) + 16 * ((g / 16) % 16) + g % 16,
        g < 0x100 ==> g / 16 < 16 && g == 16 * (g / 16) + g % 16,
{
    assert(g / 4096 < 16) by (bit_vector);
    assert(g == 4096 * (g / 4096) + 256 * ((g / 256) % 16) + 16 * ((g / 16) % 16) + g % 16)
        by (bit_vector);
    assert(g < 0x1000 ==> g / 256 < 16 && g == 256 * (g / 256) + 16 * ((g / 16) % 16) + g % 16)
        by (bit_vector);
    assert(g < 0x100 ==> g / 16 < 16 && g == 16 * (g / 16) + g % 16) by (bit_vector);
}

/// Every group is read back from its text, which holds one to four
/// characters and no colon.
pub proof fn lemma_group_text(g: u16)
    ensures
        group_of(group_text(g)) == Some(g),
        1 <= group_text(g).len() <= 4,
        free_of(group_text(g), ':'),
{
    lemma_group_digits(g);
    let s = group_text(g);
    if g < 0x10 {
        lemma_hex_char(g as u8);
        assert(hex_of(s[0]) == Some(g as u8));
    } else if g < 0x100 {
        lemma_hex_char((g / 16) as u8);
        lemma_hex_char((g % 16) as u8);
        assert(hex_of(s[0]) == Some((g / 16) as u8));
        assert(hex_of(s[1]) == Some((g % 16) as u8));
    } else if g < 0x1000 {
        lemma_hex_char((g / 256) as u8);
        lemma_hex_char(((g / 16) % 16) as u8);
        lemma_hex_char((g % 16) as u8);
        assert(hex_of(s[0]) == Some((g / 256) as u8));
        assert(hex_of(s[1]) == Some(((g / 16) % 16) as u8));
        assert(hex_of(s[2]) == Some((g % 16) as u8));
    } else {
        lemma_hex_char((g / 4096) as u8);
        lemma_hex_char(((g / 256) % 16) as u8);
        lemma_hex_char(((g / 16) % 16) as u8);
        lemma_hex_char((g % 16) as u8);
        assert(hex_of(s[0]) == Some((g / 4096) as u8));
        assert(hex_of(s[1]) == Some(((g / 256) % 16) as u8));
        assert(hex_of(s[2]) == Some(((g / 16) % 16) as u8));
        assert(hex_of(s[3]) == Some((g % 16) as u8));
    }
}

/// The groups listed by the joined texts of `g` are `g`. The joined text
/// is empty where `g` is, and tidy where it is not.
pub proof fn lemma_listed_groups(g: Seq<u16>, quad: bool)
    ensures
        listed(join(group_texts(g), ':'), quad) == Some(g),
        g.len() == 0 ==> join(group_texts(g), ':').len() == 0,
        g.len() > 0 ==> tidy(join(group_texts(g), ':'), ':'),
{
    let texts = group_texts(g);
    if g.len() > 0 {
        assert forall|i: int| 0 <= i < texts.len() implies (#[trigger] texts[i]).len() > 0
            && free_of(texts[i], ':') && group_of(texts[i]) == Some(g[i]) by {
            lemma_group_text(g[i]);
        }
        lemma_join_tidy(texts, ':');
        lemma_split_join(texts, ':');
        assert(Seq::new(texts.len(), |i: int| group_of(texts[i]).unwrap()) =~= g);
    }
}

/// The groups of a run of zero groups are zero.
pub proof fn lemma_zero_run_zeros(g: Seq<u16>, i: int)
    requires
        0 <= i,
    ensures
        forall|k: int| i <= k < i + zero_run(g, i) ==> #[trigger] g[k] == 0,
        i + zero_run(g, i) <= g.len() || zero_run(g, i) == 0,
    decreases g.len() - i,
{
    if i < g.len() && g[i] == 0 {
        lemma_zero_run_zeros(g, i + 1);
    }
}

/// The groups of an address, with the run of zero groups that its text
/// leaves out put back between those before and those after it.
proof fn lemma_run_restored(g: Seq<u16>, start: int, run: int)
    requires
        g.len() == 8,
        0 <= start,
        0 <= run,
        start + run <= 8,
        forall|k: int| start <= k < start + run ==> #[trigger] g[k] == 0,
    ensures
        g.subrange(0, start) + zeros(8 - start - (8 - start - run)) + g.subrange(start + run, 8)
            == g,
{
    let all = g.subrange(0, start) + zeros(8 - start - (8 - start - run)) + g.subrange(
        start + run,
        8,
    );
}

/// The groups listed by `ffff` and a dotted-decimal address.
proof fn lemma_mapped_groups(word: Seq<char>, quad: Seq<char>, inner: Ipv4Address)
    requires
        word == seq!['f', 'f', 'f', 'f'],
        quad.len() >= 7,
        ipv4_of(quad) == Some(inner),
    ensures
        tail_groups(seq![word, quad]) == Some(seq![0xffffu16] + quad_groups(inner)),
{
    let parts = seq![word, quad];
    assert(hex_of('f') == Some(15u8));
    assert(group_of(word) == Some(0xffffu16));
    assert(group_of(quad) is None);
    assert(plain_groups(parts) is None) by {
        assert(group_of(parts[1]) is None);
    }
    assert(parts.drop_last() =~= seq![word]);
    assert(plain_groups(seq![word]) == Some(seq![0xffffu16])) by {
        assert(group_of(seq![word][0]) == Some(0xffffu16));
        assert(Seq::new(1, |i: int| group_of(seq![word][i]).unwrap()) =~= seq![0xffffu16]);
    }
}

/// An address that stands for an IPv4 address is read back from its text.
proof fn lemma_mapped_text(a: Ipv6Address)
    requires
        is_mapped(a),
    ensures
        ipv6_of(ipv6_text(a)) == Some(a),
{
    let inner = mapped_ipv4(a);
    let quad = ipv4_text(inner);
    let word = seq!['f', 'f', 'f', 'f'];
    let tail = word.push(':') + quad;
    let s = ipv6_text(a);
    assert(s =~= Seq::<char>::empty() + seq![':', ':'] + tail);
    lemma_gap_between(Seq::empty(), tail);
    lemma_ipv4_text_shape(inner);
    lemma_ipv4_text(quad, inner);
    let parts = seq![word, quad];
    assert(parts.drop_last() =~= seq![word]);
    assert(join(seq![word], ':') == word);
    assert(join(parts, ':') == tail);
    assert(free_of(word, ':'));
    assert forall|i: int| 0 <= i < parts.len() implies free_of(#[trigger] parts[i], ':') by {}
    lemma_split_join(parts, ':');
    assert(split(tail, ':') == parts);
    lemma_mapped_groups(word, quad, inner);
    let t = seq![0xffffu16] + quad_groups(inner);
    assert(listed(tail, true) == Some(t));
    assert(listed(Seq::empty(), false) == Some(Seq::<u16>::empty()));
    let all = Seq::<u16>::empty() + zeros(5) + t;
    let g = a.segments;
    assert(256 * (g[6] / 256) + g[6] % 256 == g[6]);
    assert(256 * (g[7] / 256) + g[7] % 256 == g[7]);
    assert(t[1] == g[6] && t[2] == g[7]);
    assert(ipv6_from(all).segments =~= a.segments);
}

/// The address that is read from the texts of some leading groups, `::`
/// and the texts of some closing groups, seven or fewer in all.
proof fn lemma_gapped_text(head: Seq<u16>, tail: Seq<u16>)
    requires
        head.len() + tail.len() <= 7,
    ensures
        ipv6_of(join(group_texts(head), ':') + seq![':', ':'] + join(group_texts(tail), ':'))
            == Some(ipv6_from(head + zeros(8 - head.len() - tail.len()) + tail)),
{
    let h = join(group_texts(head), ':');
    let t = join(group_texts(tail), ':');
    lemma_listed_groups(head, false);
    lemma_listed_groups(tail, true);
    lemma_gap_between(h, t);
}

/// An address whose text holds `::` for a run of zero groups is read back
/// from it.
proof fn lemma_compressed_text(a: Ipv6Address)
    requires
        !is_mapped(a),
        zero_run(a.segments@, widest(a.segments@, 8)) >= 2,
    ensures
        ipv6_of(ipv6_text(a)) == Some(a),
{
    let g = a.segments@;
    let start = widest(g, 8);
    let run = zero_run(g, start);
    lemma_zero_run_zeros(g, start);
    let hg = g.subrange(0, start);
    let tg = g.subrange(start + run, 8);
    lemma_gapped_text(hg, tg);
    lemma_run_restored(g, start, run);
    assert(ipv6_from(g).segments =~= a.segments);
}

/// An address whose text lists all eight groups is read back from it.
proof fn lemma_plain_text(a: Ipv6Address)
    requires
        !is_mapped(a),
        zero_run(a.segments@, widest(a.segments@, 8)) < 2,
    ensures
        ipv6_of(ipv6_text(a)) == Some(a),
{
    let g = a.segments@;
    let s = join(group_texts(g), ':');
    lemma_listed_groups(g, true);
    lemma_no_gap(s);
    assert(ipv6_from(g).segments =~= a.segments);
}

/// Every address is read back from its text.
pub proof fn lemma_ipv6_text(a: Ipv6Address)
    ensures
        ipv6_of(ipv6_text(a)) == Some(a),
{
    if is_mapped(a) {
        lemma_mapped_text(a);
    } else if zero_run(a.segments@, widest(a.segments@, 8)) >= 2 {
        lemma_compressed_text(a);
    } else {
        lemma_plain_text(a);
    }
}

/// The text of an IPv6 address holds a colon.
pub proof fn lemma_ipv6_text_holds_colon(a: Ipv6Address)
    ensures
        !free_of(ipv6_text(a), ':'),
{
    let g = a.segments@;
    let s = ipv6_text(a);
    if is_mapped(a) {
        assert(s[0] == ':');
    } else {
        let start = widest(g, 8);
        let run = zero_run(g, start);
        if run >= 2 {
            let head = join(group_texts(g.subrange(0, start)), ':');
            assert(s[head.len() as int] == ':');
        } else {
            lemma_join_holds_separator(group_texts(g), ':');
        }
    }
}

/// The hexadecimal digit that a character shows, in either case.
fn read_hex(c: char) -> (r: Option<u8>)
    ensures
        r == hex_of(c),
{
    let n: u32 = c as u32;
    if 48 <= n && n <= 57 {
        Some((n - 48) as u8)
    } else if 97 <= n && n <= 102 {
        Some((n - 87) as u8)
    } else if 65 <= n && n <= 70 {
        Some((n - 55) as u8)
    } else {
        None
    }
}

/// Reads one group from its hexadecimal text.
fn read_group(s: &Vec<char>) -> (r: Option<u16>)
    ensures
        r == group_of(s@),
{
    let n = s.len();
    if n == 0 || n > 4 {
        return None;
    }
    let mut value: u16 = 0;
    let mut i: usize = 0;
    while i < n
        invariant
            i <= n,
            n == s.len(),
            1 <= n <= 4,
            forall|j: int| 0 <= j < i ==> hex_of(#[trigger] s@[j]) is Some,
            i == 0 ==> value == 0,
            i == 1 ==> value == hex_of(s@[0]).unwrap(),
            i == 2 ==> value == 16 * hex_of(s@[0]).unwrap() + hex_of(s@[1]).unwrap(),
            i == 3 ==> value == 256 * hex_of(s@[0]).unwrap() + 16 * hex_of(s@[1]).unwrap()
                + hex_of(s@[2]).unwrap(),
            i == 4 ==> value == 4096 * hex_of(s@[0]).unwrap() + 256 * hex_of(s@[1]).unwrap() + 16
                * hex_of(s@[2]).unwrap() + hex_of(s@[3]).unwrap(),
        decreases n - i,
    {
        match read_hex(s[i]) {
            Some(d) => {
                value = value * 16 + d as u16;
            },
            None => {
                return None;
            },
        }
        i += 1;
    }
    Some(value)
}

/// Reads the groups that a list of pieces denotes.
fn read_groups(parts: &Vec<Vec<char>>, quad: bool) -> (r: Option<Vec<u16>>)
    ensures
        match r {
            Some(groups) => Some(groups@) == (if quad {
                tail_groups(views(parts@))
            } else {
                plain_groups(views(parts@))
            }),
            None => (if quad {
                tail_groups(views(parts@))
            } else {
                plain_groups(views(parts@))
            }) is None,
        },
{
    let ghost texts = views(parts@);
    let mut groups: Vec<u16> = Vec::new();
    let mut i: usize = 0;
    while i < parts.len()
        invariant
            i <= parts.len(),
            texts == views(parts@),
            groups.len() == i,
            forall|j: int| 0 <= j < i ==> group_of(#[trigger] texts[j]) == Some(groups@[j]),
        decreases parts.len() - i,
    {
        match read_group(&parts[i]) {
            Some(g) => {
                groups.push(g);
            },
            None => {
                if quad && i + 1 == parts.len() {
                    match Ipv4Address::parse_chars(&parts[i]) {
                        Some(a) => {
                            let hi: u16 = a.octets[0] as u16 * 256 + a.octets[1] as u16;
                            let lo: u16 = a.octets[2] as u16 * 256 + a.octets[3] as u16;
                            groups.push(hi);
                            groups.push(lo);
                            return Some(groups);
                        },
                        None => {
                            return None;
                        },
                    }
                } else {
                    if quad {
                        assert(group_of(texts.drop_last()[i as int]) is None);
                    }
                    return None;
                }
            },
        }
        i += 1;
    }
    Some(groups)
}

/// Finds the first `::`.
fn find_gap(s: &Vec<char>) -> (r: Option<usize>)
    ensures
        match r {
            Some(i) => first_gap(s@) == Some(i as int),
            None => first_gap(s@) is None,
        },
{
    let mut i: usize = 0;
    while i < s.len() && i + 1 < s.len()
        invariant
            i <= s.len(),
            gap_from(s@, i as int) == first_gap(s@),
        decreases s.len() - i,
    {
        if s[i] == ':' && s[i + 1] == ':' {
            return Some(i);
        }
        i += 1;
    }
    None
}

/// The characters of `s` from index `from` up to, not including, `to`.
fn piece(s: &Vec<char>, from: usize, to: usize) -> (r: Vec<char>)
    requires
        from <= to <= s.len(),
    ensures
        r@ == s@.subrange(from as int, to as int),
{
    let mut r: Vec<char> = Vec::new();
    let mut i: usize = from;
    while i < to
        invariant
            from <= i <= to <= s.len(),
            r@ == s@.subrange(from as int, i as int),
        decreases to - i,
    {
        r.push(s[i]);
        i += 1;
    }
    r
}

/// Reads the groups listed by one side of `::`, or by a text without `::`.
fn read_list(s: &Vec<char>, quad: bool) -> (r: Option<Vec<u16>>)
    ensures
        match r {
            Some(groups) => listed(s@, quad) == Some(groups@),
            None => listed(s@, quad) is None,
        },
{
    if s.len() == 0 {
        let groups: Vec<u16> = Vec::new();
        return Some(groups);
    }
    let parts = split_chars(s, ':');
    read_groups(&parts, quad)
}

/// The lower-case character that shows a hexadecimal digit.
fn write_hex(d: u8) -> (c: char)
    requires
        d < 16,
    ensures
        c == hex_char(d),
{
    if d < 10 {
        (48 + d) as char
    } else {
        (87 + d) as char
    }
}

/// Writes the text of a group at the end of `out`.
fn write_group(out: &mut String, g: u16)
    ensures
        final(out)@ == old(out)@ + group_text(g),
{
    if g >= 0x1000 {
        out.push(write_hex((g / 4096) as u8));
        out.push(write_hex(((g / 256) % 16) as u8));
        out.push(write_hex(((g / 16) % 16) as u8));
        out.push(write_hex((g % 16) as u8));
    } else if g >= 0x100 {
        out.push(write_hex((g / 256) as u8));
        out.push(write_hex(((g / 16) % 16) as u8));
        out.push(write_hex((g % 16) as u8));
    } else if g >= 0x10 {
        out.push(write_hex((g / 16) as u8));
        out.push(write_hex((g % 16) as u8));
    } else {
        out.push(write_hex(g as u8));
    }
}

/// Writes the texts of the groups from index `from` up to, not including,
/// `to`, with a colon between neighbours.
fn write_groups(out: &mut String, segments: &[u16; 8], from: usize, to: usize)
    requires
        from <= to <= 8,
    ensures
        final(out)@ == old(out)@ + join(
            group_texts(segments@.subrange(from as int, to as int)),
            ':',
        ),
{
    let mut k: usize = from;
    while k < to
        invariant
            from <= k <= to <= 8,
            out@ == old(out)@ + join(group_texts(segments@.subrange(from as int, k as int)), ':'),
        decreases to - k,
    {
        let ghost before = group_texts(segments@.subrange(from as int, k as int));
        let ghost after = group_texts(segments@.subrange(from as int, k + 1));
        assert(after.drop_last() =~= before);
        if k > from {
            out.push(':');
        }
        write_group(out, segments[k]);
        k += 1;
    }
}

/// The length of the run of zero groups that starts at index `i`.
fn run_at(segments: &[u16; 8], i: usize) -> (n: usize)
    requires
        i <= 8,
    ensures
        n == zero_run(segments@, i as int),
        i + n <= 8,
{
    let mut j: usize = i;
    while j < 8 && segments[j] == 0
        invariant
            i <= j <= 8,
            zero_run(segments@, i as int) == (j - i) + zero_run(segments@, j as int),
        decreases 8 - j,
    {
        j += 1;
    }
    j - i
}

impl Ipv6Address {
    /// The address with the given groups.
    pub fn new(segments: [u16; 8]) -> (r: Ipv6Address)
        ensures
            r.segments == segments,
    {
        Ipv6Address { segments }
    }

    /// Whether two addresses are the same, group for group.
    pub fn same(&self, other: &Ipv6Address) -> (r: bool)
        ensures
            r == (*self == *other),
    {
        let mut i: usize = 0;
        while i < 8
            invariant
                i <= 8,
                forall|j: int| 0 <= j < i ==> self.segments[j] == other.segments[j],
            decreases 8 - i,
        {
            if self.segments[i] != other.segments[i] {
                return false;
            }
            i += 1;
        }
        assert(self.segments =~= other.segments);
        true
    }

    /// Reads an address from its text.
    pub fn parse(text: &str) -> (r: Option<Ipv6Address>)
        ensures
            r == ipv6_of(text@),
    {
        let chars = chars_of(text);
        Ipv6Address::parse_chars(&chars)
    }

    /// Reads an address from the characters of its text.
    pub fn parse_chars(chars: &Vec<char>) -> (r: Option<Ipv6Address>)
        ensures
            r == ipv6_of(chars@),
    {
        match find_gap(chars) {
            None => match read_list(chars, true) {
                Some(groups) => {
                    if groups.len() == 8 {
                        let empty: Vec<u16> = Vec::new();
                        let r = Ipv6Address::assemble(&groups, &empty);
                        Some(r)
                    } else {
                        None
                    }
                },
                None => None,
            },
            Some(i) => {
                proof {
                    lemma_gap_from(chars@, 0);
                }
                let head = piece(chars, 0, i);
                let tail = piece(chars, i + 2, chars.len());
                assert(chars@.skip(i + 2) =~= chars@.subrange(i + 2, chars.len() as int));
                match (read_list(&head, false), read_list(&tail, true)) {
                    (Some(h), Some(t)) => {
                        if h.len() <= 7 && t.len() <= 7 - h.len() {
                            Some(Ipv6Address::assemble(&h, &t))
                        } else {
                            None
                        }
                    },
                    _ => None,
                }
            },
        }
    }

    /// The address that starts with the groups of `head`, ends with those
    /// of `tail`, and holds zero groups between them.
    fn assemble(head: &Vec<u16>, tail: &Vec<u16>) -> (r: Ipv6Address)
        requires
            head.len() + tail.len() <= 8,
        ensures
            r == ipv6_from(head@ + zeros(8 - head.len() - tail.len()) + tail@),
    {
        let ghost want = head@ + zeros(8 - head.len() - tail.len()) + tail@;
        let mut segments = [0u16; 8];
        let mut i: usize = 0;
        while i < head.len()
            invariant
                i <= head.len(),
                head.len() + tail.len() <= 8,
                forall|j: int| 0 <= j < i ==> segments[j] == head@[j],
                forall|j: int| i <= j < 8 ==> segments[j] == 0,
            decreases head.len() - i,
        {
            segments[i] = head[i];
            i += 1;
        }
        let start = 8 - tail.len();
        let mut k: usize = 0;
        while k < tail.len()
            invariant
                k <= tail.len(),
                head.len() + tail.len() <= 8,
                start == 8 - tail.len(),
                forall|j: int| 0 <= j < head.len() ==> segments[j] == head@[j],
                forall|j: int| head.len() <= j < start ==> segments[j] == 0,
                forall|j: int| start <= j < start + k ==> segments[j] == tail@[j - start],
                forall|j: int| start + k <= j < 8 ==> segments[j] == 0,
            decreases tail.len() - k,
        {
            segments[start + k] = tail[k];
            k += 1;
        }
        assert(segments =~= ipv6_from(want).segments);
        Ipv6Address { segments }
    }

    /// Writes the text of the address at the end of `out`.
    pub fn write(&self, out: &mut String)
        ensures
            final(out)@ == old(out)@ + ipv6_text(*self),
    {
        let g = &self.segments;
        if g[0] == 0 && g[1] == 0 && g[2] == 0 && g[3] == 0 && g[4] == 0 && g[5] == 0xffff {
            let inner = Ipv4Address::new(
                (g[6] / 256) as u8,
                (g[6] % 256) as u8,
                (g[7] / 256) as u8,
                (g[7] % 256) as u8,
            );
            out.push(':');
            out.push(':');
            out.push('f');
            out.push('f');
            out.push('f');
            out.push('f');
            out.push(':');
            inner.write(out);
            return ;
        }
        let mut start: usize = 0;
        let mut run: usize = run_at(g, 0);
        let mut n: usize = 1;
        while n < 8
            invariant
                1 <= n <= 8,
                start == widest(g@, n as int),
                run == zero_run(g@, start as int),
                start + run <= 8,
            decreases 8 - n,
        {
            let here = run_at(g, n);
            if here > run {
                start = n;
                run = here;
            }
            n += 1;
        }
        if run >= 2 {
            write_groups(out, g, 0, start);
            out.push(':');
            out.push(':');
            write_groups(out, g, start + run, 8);
        } else {
            write_groups(out, g, 0, 8);
            assert(g@.subrange(0, 8) =~= g@);
        }
    }

    /// The text of the address.
    pub fn format(&self) -> (r: String)
        ensures
            r@ == ipv6_text(*self),
    {
        let mut out = String::new();
        self.write(&mut out);
        out
    }
}

} // verus!
