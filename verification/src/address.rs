//! Textual IP addresses, and which of them are loopback addresses.

use vstd::prelude::*;
use vstd::slice::slice_subrange;

use crate::digits::{
    all_digits, decimal, digit_value, digits_value, is_digit, law_numbers_are_written_plainly,
    law_written_numbers_are_read,
};
use crate::split::{
    fields, find, find_chars, law_split_undoes_join, lemma_find_shape, split, texts,
};

verus! {

// ---------------------------------------------------------------------------
// Version 4
// ---------------------------------------------------------------------------

/// A decimal number below 256, in one to three digits, without a leading zero.
pub open spec fn is_octet(s: Seq<char>) -> bool {
    &&& 1 <= s.len() <= 3
    &&& all_digits(s)
    &&& s.len() > 1 ==> s[0] != '0'
    &&& digits_value(s) <= 255
}

/// The four octets of a dotted-decimal address.
pub open spec fn ipv4_octets(s: Seq<char>) -> Option<Seq<int>> {
    let parts = split(s, '.');
    if parts.len() == 4 && (forall|i: int| 0 <= i < 4 ==> is_octet(#[trigger] parts[i])) {
        Some(parts.map_values(|p: Seq<char>| digits_value(p)))
    } else {
        None
    }
}

proof fn lemma_digit_step(s: Seq<char>, n: int)
    requires
        0 <= n < s.len(),
    ensures
        digits_value(s.take(n + 1)) == 10 * digits_value(s.take(n)) + digit_value(s[n]),
{
    assert(s.take(n + 1).drop_last() == s.take(n));
    assert(s.take(n + 1).last() == s[n]);
}

fn read_octet(s: &[char]) -> (r: Option<u16>)
    ensures
        match r {
            Some(v) => is_octet(s@) && v == digits_value(s@) && v <= 255,
            None => !is_octet(s@),
        },
{
    let n: usize = s.len();
    if n == 0 || n > 3 || (n > 1 && s[0] == '0') {
        return None;
    }
    let mut value: u16 = 0;
    for i in 0..n
        invariant
            n == s@.len(),
            n <= 3,
            all_digits(s@.take(i as int)),
            value == digits_value(s@.take(i as int)),
            value < 1000,
            i == 0 ==> value == 0,
            i == 1 ==> value < 10,
            i == 2 ==> value < 100,
    {
        let c: u32 = s[i] as u32;
        if c < '0' as u32 || c > '9' as u32 {
            assert(!is_digit(s@[i as int]));
            return None;
        }
        proof {
            lemma_digit_step(s@, i as int);
            assert(is_digit(s@[i as int]));
        }
        value = value * 10 + (c - '0' as u32) as u16;
    }
    assert(s@.take(n as int) == s@);
    if value <= 255 {
        Some(value)
    } else {
        None
    }
}

/// Reads a dotted-decimal address.
pub fn parse_ipv4(s: &[char]) -> (r: Option<Vec<u16>>)
    ensures
        match r {
            Some(v) => {
                &&& ipv4_octets(s@) == Some(v@.map_values(|x: u16| x as int))
                &&& v@.len() == 4
                &&& forall|i: int| 0 <= i < 4 ==> #[trigger] v@[i] <= 255
            },
            None => ipv4_octets(s@) is None,
        },
{
    let parts = fields(s, '.');
    let ghost want = split(s@, '.');
    assert(texts(parts@) == want);
    if parts.len() != 4 {
        return None;
    }
    let mut v: Vec<u16> = Vec::new();
    for i in 0..4usize
        invariant
            parts@.len() == 4,
            want.len() == 4,
            want == split(s@, '.'),
            texts(parts@) == want,
            v@.len() == i,
            forall|k: int| 0 <= k < i ==> is_octet(#[trigger] want[k]),
            forall|k: int| 0 <= k < i ==> #[trigger] v@[k] == digits_value(want[k]) && v@[k] <= 255,
    {
        assert(want[i as int] == texts(parts@)[i as int]);
        assert(texts(parts@)[i as int] == parts@[i as int]@);
        match read_octet(parts[i]) {
            Some(o) => {
                v.push(o);
            },
            None => {
                assert(!is_octet(want[i as int]));
                return None;
            },
        }
    }
    assert(v@.map_values(|x: u16| x as int) =~= want.map_values(|p: Seq<char>| digits_value(p)));
    Some(v)
}

// ---------------------------------------------------------------------------
// Version 6
// ---------------------------------------------------------------------------

/// A hexadecimal digit, in either case.
pub open spec fn is_hex_digit(c: char) -> bool {
    ||| is_digit(c)
    ||| 'a' as u32 <= c as u32 <= 'f' as u32
    ||| 'A' as u32 <= c as u32 <= 'F' as u32
}

/// The value of a hexadecimal digit.
pub open spec fn hex_digit_value(c: char) -> int {
    if is_digit(c) {
        digit_value(c)
    } else if 'a' as u32 <= c as u32 {
        c as u32 - 'a' as u32 + 10
    } else {
        c as u32 - 'A' as u32 + 10
    }
}

/// The number that hexadecimal digits stand for.
pub open spec fn hex_value(s: Seq<char>) -> int
    decreases s.len(),
{
    if s.len() == 0 {
        0
    } else {
        16 * hex_value(s.drop_last()) + hex_digit_value(s.last())
    }
}

/// One to four hexadecimal digits.
pub open spec fn is_hex_group(s: Seq<char>) -> bool {
    &&& 1 <= s.len() <= 4
    &&& forall|i: int| 0 <= i < s.len() ==> is_hex_digit(#[trigger] s[i])
}

/// The 16-bit groups that colon-separated parts stand for. The last part may
/// be a dotted-decimal address, which stands for two groups.
pub open spec fn groups_of(parts: Seq<Seq<char>>) -> Option<Seq<int>>
    decreases parts.len(),
{
    if parts.len() == 0 {
        Some(Seq::empty())
    } else if parts.len() == 1 && ipv4_octets(parts[0]) is Some {
        let o = ipv4_octets(parts[0])->0;
        Some(seq![o[0] * 256 + o[1], o[2] * 256 + o[3]])
    } else if is_hex_group(parts[0]) {
        match groups_of(parts.skip(1)) {
            Some(rest) => Some(seq![hex_value(parts[0])] + rest),
            None => None,
        }
    } else {
        None
    }
}

/// The groups of one side of an address; none where nothing is written.
pub open spec fn side_groups(s: Seq<char>) -> Option<Seq<int>> {
    if s.len() == 0 {
        Some(Seq::empty())
    } else {
        groups_of(split(s, ':'))
    }
}

/// Whether the last part of a side is a dotted-decimal address.
pub open spec fn ends_in_ipv4(s: Seq<char>) -> bool {
    s.len() > 0 && ipv4_octets(split(s, ':').last()) is Some
}

/// The eight groups of an address. Two colons in a row, once at most, stand
/// for the groups of zero that are left out, one at least; a dotted-decimal
/// part stands at the very end only.
pub open spec fn ipv6_groups(s: Seq<char>) -> Option<Seq<int>> {
    match find(s, seq![':', ':']) {
        None => match side_groups(s) {
            Some(g) => if g.len() == 8 {
                Some(g)
            } else {
                None
            },
            None => None,
        },
        Some(k) => {
            let head = s.take(k);
            let tail = s.skip(k + 2);
            match (side_groups(head), side_groups(tail)) {
                (Some(h), Some(t)) => if !ends_in_ipv4(head) && h.len() + t.len() <= 7 {
                    Some(h + zeros((8 - h.len() - t.len()) as nat) + t)
                } else {
                    None
                },
                _ => None,
            }
        },
    }
}

/// A number of groups of zero.
pub open spec fn zeros(n: nat) -> Seq<int> {
    Seq::new(n, |i: int| 0int)
}

/// The addresses that reach the host itself: `127.0.0.0/8` and `::1`.
pub open spec fn is_loopback_address(s: Seq<char>) -> bool {
    ||| ipv4_octets(s) matches Some(o) && o[0] == 127
    ||| ipv6_groups(s) matches Some(g) && g =~= zeros(7).push(1)
}

proof fn lemma_hex_step(s: Seq<char>, n: int)
    requires
        0 <= n < s.len(),
    ensures
        hex_value(s.take(n + 1)) == 16 * hex_value(s.take(n)) + hex_digit_value(s[n]),
{
    assert(s.take(n + 1).drop_last() == s.take(n));
    assert(s.take(n + 1).last() == s[n]);
}

fn read_hex_group(s: &[char]) -> (r: Option<u16>)
    ensures
        match r {
            Some(v) => is_hex_group(s@) && v == hex_value(s@),
            None => !is_hex_group(s@),
        },
{
    let n: usize = s.len();
    if n == 0 || n > 4 {
        return None;
    }
    let mut value: u32 = 0;
    for i in 0..n
        invariant
            n == s@.len(),
            1 <= n <= 4,
            forall|k: int| 0 <= k < i ==> is_hex_digit(#[trigger] s@[k]),
            value == hex_value(s@.take(i as int)),
            value <= 0xffff,
            i == 0 ==> value == 0,
            i == 1 ==> value <= 0xf,
            i == 2 ==> value <= 0xff,
            i == 3 ==> value <= 0xfff,
    {
        let c: u32 = s[i] as u32;
        let digit: u32 = if '0' as u32 <= c && c <= '9' as u32 {
            c - '0' as u32
        } else if 'a' as u32 <= c && c <= 'f' as u32 {
            c - 'a' as u32 + 10
        } else if 'A' as u32 <= c && c <= 'F' as u32 {
            c - 'A' as u32 + 10
        } else {
            assert(!is_hex_digit(s@[i as int]));
            return None;
        };
        proof {
            lemma_hex_step(s@, i as int);
        }
        value = value * 16 + digit;
    }
    assert(s@.take(n as int) == s@);
    Some(value as u16)
}

spec fn ints(v: Seq<u16>) -> Seq<int> {
    v.map_values(|x: u16| x as int)
}

fn read_groups(parts: &Vec<&[char]>) -> (r: Option<Vec<u16>>)
    ensures
        match r {
            Some(v) => groups_of(texts(parts@)) == Some(ints(v@)),
            None => groups_of(texts(parts@)) is None,
        },
{
    let n: usize = parts.len();
    let ghost all = texts(parts@);
    let mut v: Vec<u16> = Vec::new();
    assert(all.skip(0) == all);
    assert(ints(v@) == Seq::<int>::empty());
    proof {
        if groups_of(all) is Some {
            assert(Seq::<int>::empty() + groups_of(all)->0 == groups_of(all)->0);
        }
    }
    for i in 0..n
        invariant
            n == parts@.len(),
            all == texts(parts@),
            groups_of(all) == (match groups_of(all.skip(i as int)) {
                Some(rest) => Some(ints(v@) + rest),
                None => None,
            }),
    {
        let ghost rest = all.skip(i as int);
        assert(rest[0] == parts@[i as int]@);
        assert(rest.skip(1) == all.skip(i + 1));
        if i + 1 == n {
            match parse_ipv4(parts[i]) {
                Some(o) => {
                    let ghost before = v@;
                    v.push(o[0] * 256 + o[1]);
                    v.push(o[2] * 256 + o[3]);
                    assert(ints(v@) == ints(before) + groups_of(rest)->0);
                    return Some(v);
                },
                None => {},
            }
        }
        match read_hex_group(parts[i]) {
            Some(g) => {
                let ghost before = v@;
                v.push(g);
                proof {
                    if groups_of(rest.skip(1)) is Some {
                        let tail = groups_of(rest.skip(1))->0;
                        assert(ints(v@) + tail == ints(before) + (seq![hex_value(rest[0])] + tail));
                    }
                }
            },
            None => {
                return None;
            },
        }
    }
    assert(all.skip(n as int) == Seq::<Seq<char>>::empty());
    assert(ints(v@) + Seq::<int>::empty() == ints(v@));
    Some(v)
}

fn read_side(s: &[char]) -> (r: Option<Vec<u16>>)
    ensures
        match r {
            Some(v) => side_groups(s@) == Some(ints(v@)),
            None => side_groups(s@) is None,
        },
{
    if s.len() == 0 {
        let v: Vec<u16> = Vec::new();
        assert(ints(v@) == Seq::<int>::empty());
        return Some(v);
    }
    let parts = fields(s, ':');
    read_groups(&parts)
}

fn closes_with_ipv4(s: &[char]) -> (r: bool)
    ensures
        r == ends_in_ipv4(s@),
{
    if s.len() == 0 {
        return false;
    }
    let parts = fields(s, ':');
    let last: usize = parts.len() - 1;
    assert(texts(parts@)[last as int] == parts@[last as int]@);
    parse_ipv4(parts[last]).is_some()
}

fn all_zero(v: &Vec<u16>, n: usize) -> (r: bool)
    requires
        n <= v@.len(),
    ensures
        r == (forall|i: int| 0 <= i < n ==> #[trigger] v@[i] == 0),
{
    for i in 0..n
        invariant
            n <= v@.len(),
            forall|k: int| 0 <= k < i ==> #[trigger] v@[k] == 0,
    {
        if v[i] != 0 {
            return false;
        }
    }
    true
}

/// Reports whether a text is a version 6 loopback address.
fn loopback_v6(s: &[char]) -> (r: bool)
    ensures
        r == (ipv6_groups(s@) matches Some(g) && g =~= zeros(7).push(1)),
{
    let pair: Vec<char> = vec![':', ':'];
    assert(pair@ == seq![':', ':']);
    let n: usize = s.len();
    match find_chars(s, pair.as_slice()) {
        None => {
            match read_side(s) {
                Some(g) => {
                    if g.len() == 8 {
                        let r: bool = g[7] == 1 && all_zero(&g, 7);
                        proof {
                            let all = ints(g@);
                            if r {
                                assert(all =~= zeros(7).push(1));
                            } else if all =~= zeros(7).push(1) {
                                assert(all[7] == 1);
                                assert forall|i: int| 0 <= i < 7 implies #[trigger] g@[i] == 0 by {
                                    assert(all[i] == zeros(7).push(1)[i]);
                                }
                            }
                        }
                        r
                    } else {
                        false
                    }
                },
                None => false,
            }
        },
        Some(k) => {
            let head = slice_subrange(s, 0, k);
            let tail = slice_subrange(s, k + 2, n);
            assert(head@ == s@.take(k as int));
            assert(tail@ == s@.skip(k + 2));
            match (read_side(head), read_side(tail)) {
                (Some(h), Some(t)) => {
                    let a: usize = h.len();
                    let b: usize = t.len();
                    if closes_with_ipv4(head) || a > 7 || b > 7 || a + b > 7 {
                        return false;
                    }
                    let ghost all = ints(h@) + zeros((8 - a - b) as nat) + ints(t@);
                    assert(ipv6_groups(s@) == Some(all));
                    assert(all.len() == 8);
                    if b == 0 {
                        // The last of the eight groups is one of those left out.
                        assert(all[7] == 0);
                        assert(zeros(7).push(1)[7] == 1);
                        return false;
                    }
                    let r: bool = t[b - 1] == 1 && all_zero(&h, a) && all_zero(&t, b - 1);
                    proof {
                        if r {
                            assert(all =~= zeros(7).push(1));
                        } else if all =~= zeros(7).push(1) {
                            assert(all[7] == t@[b - 1]);
                            assert forall|i: int| 0 <= i < a implies #[trigger] h@[i] == 0 by {
                                assert(all[i] == h@[i]);
                            }
                            assert forall|i: int| 0 <= i < b - 1 implies #[trigger] t@[i] == 0 by {
                                assert(all[i + 8 - b] == t@[i]);
                            }
                        }
                    }
                    r
                },
                _ => false,
            }
        },
    }
}

/// Reports whether a text is a loopback address.
pub fn loopback_address(s: &[char]) -> (r: bool)
    ensures
        r == is_loopback_address(s@),
{
    match parse_ipv4(s) {
        Some(o) => {
            assert(ipv4_octets(s@)->0[0] == o@[0]);
            if o[0] == 127 {
                return true;
            }
        },
        None => {},
    }
    loopback_v6(s)
}

// ---------------------------------------------------------------------------
// Laws
// ---------------------------------------------------------------------------

/// The parts of a dotted-decimal address are the numbers below 256, each written
/// in the one way that numbers are.
pub proof fn law_octets_are_numbers_below_256(s: Seq<char>)
    ensures
        is_octet(s) <==> exists|n: nat| n < 256 && #[trigger] decimal(n) == s,
{
    if is_octet(s) {
        law_written_numbers_are_read(s);
        assert(decimal(digits_value(s) as nat) == s);
    }
    if exists|n: nat| n < 256 && #[trigger] decimal(n) == s {
        let n = choose|n: nat| n < 256 && #[trigger] decimal(n) == s;
        lemma_decimal_is_octet(n);
    }
}

proof fn lemma_decimal_is_octet(n: nat)
    requires
        n < 256,
    ensures
        is_octet(decimal(n)),
        digits_value(decimal(n)) == n,
        !decimal(n).contains('.'),
        !decimal(n).contains(':'),
{
    law_numbers_are_written_plainly(n);
    let s = decimal(n);
    assert(1 <= s.len() <= 3) by {
        reveal_with_fuel(decimal, 4);
    }
    assert(all_digits(s)) by {
        assert forall|i: int| 0 <= i < s.len() implies is_digit(#[trigger] s[i]) by {
            assert('0' <= s[i] <= '9');
        }
    }
    if n == 0 {
        assert(s.len() == 1);
    }
}

proof fn lemma_no_colon(s: Seq<char>)
    requires
        !s.contains(':'),
    ensures
        find(s, seq![':', ':']) is None,
        split(s, ':') == seq![s],
{
    let pattern = seq![':', ':'];
    lemma_find_shape(s, pattern);
    if let Some(i) = find(s, pattern) {
        assert(s.skip(i)[0] == pattern[0]);
        assert(s.contains(s[i]));
    }
    law_split_undoes_join(s, ':', s);
}

/// A dotted-decimal address is a loopback address just where its first number is
/// 127.
pub proof fn law_dotted_decimal_is_loopback_by_its_first_number(a: nat, b: nat, c: nat, d: nat)
    requires
        a < 256,
        b < 256,
        c < 256,
        d < 256,
    ensures
        is_loopback_address(
            decimal(a) + seq!['.'] + (decimal(b) + seq!['.'] + (decimal(c) + seq!['.'] + decimal(
                d,
            ))),
        ) <==> a == 127,
{
    lemma_decimal_is_octet(a);
    lemma_decimal_is_octet(b);
    lemma_decimal_is_octet(c);
    lemma_decimal_is_octet(d);
    let two = decimal(c) + seq!['.'] + decimal(d);
    let three = decimal(b) + seq!['.'] + two;
    let s = decimal(a) + seq!['.'] + three;
    law_split_undoes_join(decimal(d), '.', two);
    law_split_undoes_join(decimal(c), '.', decimal(d));
    law_split_undoes_join(decimal(b), '.', two);
    law_split_undoes_join(decimal(a), '.', three);
    let parts = split(s, '.');
    assert(parts =~= seq![decimal(a), decimal(b), decimal(c), decimal(d)]);
    assert(ipv4_octets(s) is Some);
    let o = ipv4_octets(s)->0;
    assert(o[0] == digits_value(parts[0]));
    assert(!s.contains(':')) by {
        if s.contains(':') {
            let i = choose|i: int| 0 <= i < s.len() && s[i] == ':';
            let x = decimal(a).len() as int;
            let y = x + 1 + decimal(b).len();
            let z = y + 1 + decimal(c).len();
            if i < x {
                assert(decimal(a)[i] == ':');
            } else if x < i < y {
                assert(decimal(b)[i - x - 1] == ':');
            } else if y < i < z {
                assert(decimal(c)[i - y - 1] == ':');
            } else if z < i {
                assert(decimal(d)[i - z - 1] == ':');
            }
        }
    }
    lemma_no_colon(s);
    assert(seq![s][0] == s);
    assert(groups_of(seq![s]) is Some && groups_of(seq![s])->0.len() == 2);
    assert(ipv6_groups(s) is None);
}

/// A colon-separated address has eight groups, and is a loopback address just
/// where the last is one and all others are zero.
pub proof fn law_grouped_address_is_loopback_by_its_groups(s: Seq<char>)
    requires
        ipv6_groups(s) is Some,
        ipv4_octets(s) is None,
    ensures
        ipv6_groups(s)->0.len() == 8,
        is_loopback_address(s) <==> ipv6_groups(s)->0[7] == 1 && forall|i: int|
            0 <= i < 7 ==> #[trigger] ipv6_groups(s)->0[i] == 0,
{
    let g = ipv6_groups(s)->0;
    if g[7] == 1 && (forall|i: int| 0 <= i < 7 ==> #[trigger] ipv6_groups(s)->0[i] == 0) {
        assert(g =~= zeros(7).push(1));
    }
    if is_loopback_address(s) {
        assert(g =~= zeros(7).push(1));
    }
}

/// What is no address is no loopback address.
pub proof fn law_other_texts_are_not_loopback(s: Seq<char>)
    requires
        ipv6_groups(s) is None,
        ipv4_octets(s) is None,
    ensures
        !is_loopback_address(s),
{
}

/// Hexadecimal digits in either case spell a number, the last being the least.
pub proof fn law_groups_spell_hexadecimal_numbers(s: Seq<char>, c: char)
    ensures
        hex_value(Seq::empty()) == 0,
        '0' <= c <= '9' ==> hex_value(s.push(c)) == 16 * hex_value(s) + (c as int - '0' as int),
        'a' <= c <= 'f' ==> hex_value(s.push(c)) == 16 * hex_value(s) + (c as int - 'a' as int
            + 10),
        'A' <= c <= 'F' ==> hex_value(s.push(c)) == 16 * hex_value(s) + (c as int - 'A' as int
            + 10),
        is_hex_digit(c) <==> '0' <= c <= '9' || 'a' <= c <= 'f' || 'A' <= c <= 'F',
{
    assert(s.push(c).drop_last() =~= s);
    assert(s.push(c).last() == c);
}

/// Groups are read one after the other, each of one to four hexadecimal digits; in
/// place of the last two a dotted-decimal address may stand.
pub proof fn law_groups_are_read_in_turn(part: Seq<char>, rest: Seq<Seq<char>>)
    ensures
        groups_of(Seq::empty()) == Some(Seq::<int>::empty()),
        rest.len() > 0 && !is_hex_group(part) ==> groups_of(seq![part] + rest) is None,
        rest.len() > 0 && is_hex_group(part) && groups_of(rest) is Some ==> groups_of(
            seq![part] + rest,
        ) == Some(seq![hex_value(part)] + groups_of(rest)->0),
        is_hex_group(part) ==> groups_of(seq![part]) == Some(seq![hex_value(part)]),
        is_hex_group(part) ==> 1 <= part.len() <= 4,
        ipv4_octets(part) matches Some(o) ==> groups_of(seq![part]) == Some(
            seq![256 * o[0] + o[1], 256 * o[2] + o[3]],
        ),
{
    let all = seq![part] + rest;
    assert(all[0] == part);
    assert(all.skip(1) =~= rest);
    let one = seq![part];
    assert(one.skip(1) =~= Seq::<Seq<char>>::empty());
    if is_hex_group(part) {
        lemma_hex_group_is_no_address(part);
        assert(seq![hex_value(part)] + Seq::<int>::empty() =~= seq![hex_value(part)]);
    }
}

proof fn lemma_hex_group_is_no_address(part: Seq<char>)
    requires
        is_hex_group(part),
    ensures
        ipv4_octets(part) is None,
{
    assert(!part.contains('.')) by {
        if part.contains('.') {
            let i = choose|i: int| 0 <= i < part.len() && part[i] == '.';
            assert(is_hex_digit(part[i]));
        }
    }
    law_split_undoes_join(part, '.', part);
}

/// Two colons stand for as many groups of zero as are missing, and for at least
/// one.
pub proof fn law_two_colons_stand_for_zeros(head: Seq<char>, tail: Seq<char>)
    requires
        find(head + seq![':', ':'] + tail, seq![':', ':']) == Some(head.len() as int),
    ensures
        ({
            let g = ipv6_groups(head + seq![':', ':'] + tail);
            let first = side_groups(head);
            let last = side_groups(tail);
            &&& g is Some ==> first is Some && last is Some && first->0.len() + last->0.len() <= 7
            &&& g is Some ==> g->0.len() == 8
            &&& g is Some ==> g->0.take(first->0.len() as int) == first->0
            &&& g is Some ==> g->0.skip(8 - last->0.len()) == last->0
            &&& g is Some ==> forall|i: int|
                first->0.len() <= i < 8 - last->0.len() ==> #[trigger] g->0[i] == 0
            &&& first is Some && last is Some && first->0.len() + last->0.len() <= 7
                && !ends_in_ipv4(head) ==> g is Some
            &&& ends_in_ipv4(head) ==> g is None
        }),
{
    let s = head + seq![':', ':'] + tail;
    let k = head.len() as int;
    assert(s.take(k) =~= head);
    assert(s.skip(k + 2) =~= tail);
    if let Some(g) = ipv6_groups(s) {
        let h = side_groups(head)->0;
        let t = side_groups(tail)->0;
        assert(g.take(h.len() as int) =~= h);
        assert(g.skip(8 - t.len()) =~= t);
    }
}

/// Without two colons an address gives all of its eight groups.
pub proof fn law_full_address_has_eight_groups(s: Seq<char>)
    requires
        find(s, seq![':', ':']) is None,
    ensures
        ipv6_groups(s) is Some <==> side_groups(s) is Some && side_groups(s)->0.len() == 8,
        ipv6_groups(s) is Some ==> ipv6_groups(s) == side_groups(s),
        s.len() > 0 ==> side_groups(s) == groups_of(split(s, ':')),
        side_groups(Seq::empty()) == Some(Seq::<int>::empty()),
{
}

} // verus!
