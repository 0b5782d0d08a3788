//! The grammar of IP address literals.
//!
//! A common name that is an IP literal goes into a certificate as an IP
//! entry, any other as a DNS entry, so the certificate pipeline has to tell
//! the two apart. The grammar is that of the textual forms of RFC 4291 and
//! of dotted-quad IPv4 without leading zeros, with nothing before or after
//! the address.

use vstd::prelude::*;
use crate::text::{
    ascii_digit, hex_digit, is_ascii_digit, is_hex_digit, lemma_split_pieces,
    lemma_split_without_separator, slice_chars, split,
    split_chars, to_chars, views,
};

verus! {

/// The number that a run of decimal digits denotes.
pub open spec fn decimal_value(p: Seq<char>) -> nat
    decreases p.len(),
{
    if p.len() == 0 {
        0
    } else {
        10 * decimal_value(p.drop_last()) + ((p.last() as u32) - ('0' as u32)) as nat
    }
}

/// One of the four numbers of a dotted quad: one to three decimal digits,
/// no leading zero, at most 255.
pub open spec fn ipv4_octet(p: Seq<char>) -> bool {
    &&& 1 <= p.len() <= 3
    &&& forall|i: int| 0 <= i < p.len() ==> ascii_digit(#[trigger] p[i])
    &&& (p.len() > 1 ==> p[0] != '0')
    &&& decimal_value(p) <= 255
}

/// Four octets separated by dots.
pub open spec fn ipv4_literal(s: Seq<char>) -> bool {
    let parts = split(s, '.');
    &&& parts.len() == 4
    &&& forall|i: int| 0 <= i < 4 ==> ipv4_octet(#[trigger] parts[i])
}

/// One 16-bit group of an IPv6 literal: one to four hexadecimal digits.
pub open spec fn hex_group(p: Seq<char>) -> bool {
    &&& 1 <= p.len() <= 4
    &&& forall|i: int| 0 <= i < p.len() ==> hex_digit(#[trigger] p[i])
}

/// Every piece is a hexadecimal group.
pub open spec fn all_hex_groups(parts: Seq<Seq<char>>) -> bool {
    forall|i: int| 0 <= i < parts.len() ==> hex_group(#[trigger] parts[i])
}

/// How many 16-bit groups a colon-separated run denotes, if it is one.
///
/// Empty text denotes no group. Otherwise every piece is a hexadecimal
/// group; where `embedded_ipv4` allows it, the last piece may instead be a
/// dotted quad, which stands for two groups.
pub open spec fn group_count(s: Seq<char>, embedded_ipv4: bool) -> Option<nat> {
    let parts = split(s, ':');
    if s.len() == 0 {
        Some(0nat)
    } else if all_hex_groups(parts) {
        Some(parts.len())
    } else if embedded_ipv4 && all_hex_groups(parts.drop_last()) && ipv4_literal(parts.last()) {
        Some(parts.len() + 1)
    } else {
        None
    }
}

/// Two colons in a row start at index `k`.
pub open spec fn double_colon_at(s: Seq<char>, k: int) -> bool {
    0 <= k && k + 1 < s.len() && s[k] == ':' && s[k + 1] == ':'
}

/// The double colon at `k` stands for at least one group of zeros: what is
/// written before and after it comes to seven groups at most, and only
/// what follows may end in a dotted quad.
pub open spec fn compressed_at(s: Seq<char>, k: int) -> bool {
    &&& double_colon_at(s, k)
    &&& group_count(s.take(k), false) matches Some(head)
    &&& group_count(s.skip(k + 2), true) matches Some(tail)
    &&& head + tail <= 7
}

/// Either all eight groups are written out, or a double colon stands for
/// the ones left out.
pub open spec fn ipv6_literal(s: Seq<char>) -> bool {
    ||| group_count(s, true) == Some(8nat)
    ||| exists|k: int| compressed_at(s, k)
}

/// The text is an IPv4 or an IPv6 address.
pub open spec fn ip_literal(s: Seq<char>) -> bool {
    ipv4_literal(s) || ipv6_literal(s)
}

/// Text that ends in the separator ends in an empty piece.
pub proof fn lemma_split_trailing_separator(s: Seq<char>, sep: char)
    requires
        s.len() > 0,
        s.last() == sep,
    ensures
        split(s, sep).last().len() == 0,
{
    lemma_split_pieces(s.drop_last(), sep);
}

/// Two separators in a row leave an empty piece that is not the last one.
pub proof fn lemma_split_double_separator(s: Seq<char>, sep: char, k: int)
    requires
        0 <= k,
        k + 1 < s.len(),
        s[k] == sep,
        s[k + 1] == sep,
    ensures
        exists|i: int| 0 <= i < split(s, sep).len() - 1 && (#[trigger] split(s, sep)[i]).len() == 0,
    decreases s.len(),
{
    let front = s.drop_last();
    let before = split(front, sep);
    lemma_split_pieces(front, sep);
    if k + 1 == s.len() - 1 {
        lemma_split_trailing_separator(front, sep);
        assert(split(s, sep)[before.len() - 1].len() == 0);
    } else {
        lemma_split_double_separator(front, sep, k);
        let i = choose|i: int| 0 <= i < before.len() - 1 && (#[trigger] before[i]).len() == 0;
        assert(split(s, sep)[i] == before[i]);
    }
}

/// Text with two colons in a row is no run of groups.
pub proof fn lemma_double_colon_breaks_run(s: Seq<char>, k: int, embedded_ipv4: bool)
    requires
        double_colon_at(s, k),
    ensures
        group_count(s, embedded_ipv4) is None,
{
    lemma_split_double_separator(s, ':', k);
    let parts = split(s, ':');
    let i = choose|i: int| 0 <= i < parts.len() - 1 && (#[trigger] parts[i]).len() == 0;
    assert(!hex_group(parts[i]));
    assert(parts.drop_last()[i] == parts[i]);
}

/// An IP literal holds a dot or a colon.
pub proof fn lemma_ip_literal_has_separator(s: Seq<char>)
    requires
        ip_literal(s),
    ensures
        s.contains('.') || s.contains(':'),
{
    if ipv4_literal(s) {
        if !s.contains('.') {
            lemma_split_without_separator(s, '.');
        }
    } else if group_count(s, true) == Some(8nat) {
        if !s.contains(':') {
            lemma_split_without_separator(s, ':');
        }
    } else {
        let k = choose|k: int| compressed_at(s, k);
        assert(s[k] == ':');
    }
}

/// Whether `p` is an octet of a dotted quad.
pub fn is_ipv4_octet(p: &[char]) -> (r: bool)
    ensures
        r == ipv4_octet(p@),
{
    if p.len() < 1 || p.len() > 3 {
        return false;
    }
    let mut value: u32 = 0;
    let mut i: usize = 0;
    while i < p.len()
        invariant
            i <= p.len() <= 3,
            forall|j: int| 0 <= j < i ==> ascii_digit(#[trigger] p@[j]),
            value == decimal_value(p@.take(i as int)),
            value <= 999,
            i <= 2 ==> value <= 99,
            i <= 1 ==> value <= 9,
            i == 0 ==> value == 0,
        decreases p.len() - i,
    {
        let c = p[i];
        if !is_ascii_digit(c) {
            return false;
        }
        assert(p@.take(i + 1).drop_last() == p@.take(i as int));
        value = value * 10 + ((c as u32) - ('0' as u32));
        i += 1;
    }
    assert(p@.take(p.len() as int) == p@);
    if p.len() > 1 && p[0] == '0' {
        return false;
    }
    value <= 255
}

/// Whether `s` is a dotted quad.
pub fn is_ipv4_literal(s: &[char]) -> (r: bool)
    ensures
        r == ipv4_literal(s@),
{
    let parts = split_chars(s, '.');
    if parts.len() != 4 {
        return false;
    }
    let mut i: usize = 0;
    while i < 4
        invariant
            i <= 4,
            parts.len() == 4,
            views(parts@) == split(s@, '.'),
            forall|j: int| 0 <= j < i ==> ipv4_octet(#[trigger] split(s@, '.')[j]),
        decreases 4 - i,
    {
        assert(views(parts@)[i as int] == parts@[i as int]@);
        if !is_ipv4_octet(parts[i].as_slice()) {
            return false;
        }
        i += 1;
    }
    true
}

/// Whether `p` is a hexadecimal group.
pub fn is_hex_group(p: &[char]) -> (r: bool)
    ensures
        r == hex_group(p@),
{
    if p.len() < 1 || p.len() > 4 {
        return false;
    }
    let mut i: usize = 0;
    while i < p.len()
        invariant
            i <= p.len(),
            forall|j: int| 0 <= j < i ==> hex_digit(#[trigger] p@[j]),
        decreases p.len() - i,
    {
        if !is_hex_digit(p[i]) {
            return false;
        }
        i += 1;
    }
    true
}

/// The number of groups that `s` denotes, counted up to nine: an address has
/// eight, so nine stands for "too many".
pub fn count_groups(s: &[char], embedded_ipv4: bool) -> (r: Option<usize>)
    ensures
        match group_count(s@, embedded_ipv4) {
            Some(n) => r == Some(if n <= 9 { n as usize } else { 9usize }),
            None => r is None,
        },
{
    if s.len() == 0 {
        return Some(0);
    }
    let parts = split_chars(s, ':');
    proof {
        lemma_split_pieces(s@, ':');
    }
    let ghost pieces = split(s@, ':');
    let last = parts.len() - 1;
    let mut i: usize = 0;
    while i < last
        invariant
            i <= last,
            last == parts.len() - 1,
            s@.len() > 0,
            pieces == split(s@, ':'),
            views(parts@) == pieces,
            forall|j: int| 0 <= j < i ==> hex_group(#[trigger] pieces[j]),
        decreases last - i,
    {
        assert(pieces[i as int] == parts@[i as int]@);
        if !is_hex_group(parts[i].as_slice()) {
            assert(!all_hex_groups(pieces));
            assert(pieces.drop_last()[i as int] == pieces[i as int]);
            assert(!all_hex_groups(pieces.drop_last()));
            return None;
        }
        i += 1;
    }
    assert(pieces[last as int] == parts@[last as int]@);
    assert(all_hex_groups(pieces.drop_last())) by {
        assert forall|j: int| 0 <= j < pieces.drop_last().len() implies hex_group(
            #[trigger] pieces.drop_last()[j],
        ) by {
            assert(pieces.drop_last()[j] == pieces[j]);
        }
    }
    if is_hex_group(parts[last].as_slice()) {
        if parts.len() > 9 {
            Some(9)
        } else {
            Some(parts.len())
        }
    } else if embedded_ipv4 && is_ipv4_literal(parts[last].as_slice()) {
        if parts.len() >= 9 {
            Some(9)
        } else {
            Some(parts.len() + 1)
        }
    } else {
        None
    }
}

/// The index at which the first pair of colons starts, if there is one.
pub fn find_double_colon(s: &[char]) -> (r: Option<usize>)
    ensures
        match r {
            Some(k) => double_colon_at(s@, k as int) && forall|j: int|
                0 <= j < k ==> !double_colon_at(s@, j),
            None => forall|j: int| !double_colon_at(s@, j),
        },
{
    if s.len() < 2 {
        return None;
    }
    let mut i: usize = 0;
    while i < s.len() - 1
        invariant
            i <= s.len() - 1,
            forall|j: int| 0 <= j < i ==> !double_colon_at(s@, j),
        decreases s.len() - i,
    {
        if s[i] == ':' && s[i + 1] == ':' {
            return Some(i);
        }
        i += 1;
    }
    None
}

/// Whether `s` is an IPv6 address.
pub fn is_ipv6_literal(s: &[char]) -> (r: bool)
    ensures
        r == ipv6_literal(s@),
{
    match find_double_colon(s) {
        None => {
            let n = count_groups(s, true);
            n == Some(8)
        },
        Some(k) => {
            assert(double_colon_at(s@, k as int));
            let n = s.len();
            assert(k + 2 <= n);
            let head = slice_chars(s, 0, k);
            let tail = slice_chars(s, k + 2, n);
            assert(head@ == s@.take(k as int));
            assert(tail@ == s@.skip(k + 2));
            let h = count_groups(head.as_slice(), false);
            let t = count_groups(tail.as_slice(), true);
            let r = match (h, t) {
                (Some(h), Some(t)) => h + t <= 7,
                _ => false,
            };
            proof {
                assert(r == compressed_at(s@, k as int));
                lemma_double_colon_breaks_run(s@, k as int, true);
                assert forall|j: int| j != k implies !compressed_at(s@, j) by {
                    if double_colon_at(s@, j) {
                        assert(j > k);
                        let before = s@.take(j);
                        if j == k + 1 {
                            lemma_split_trailing_separator(before, ':');
                            lemma_split_pieces(before, ':');
                            let parts = split(before, ':');
                            assert(!hex_group(parts[parts.len() - 1]));
                        } else {
                            assert(double_colon_at(before, k as int));
                            lemma_double_colon_breaks_run(before, k as int, false);
                        }
                    }
                }
            }
            r
        },
    }
}

/// Whether `s` is an IP address, of either family.
pub fn is_ip_literal(s: &str) -> (r: bool)
    ensures
        r == ip_literal(s@),
{
    let chars = to_chars(s);
    is_ipv4_literal(chars.as_slice()) || is_ipv6_literal(chars.as_slice())
}

} // verus!
