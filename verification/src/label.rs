//! DNS labels made from module identifiers.
//!
//! A module identifier may hold characters that no DNS name can carry. The
//! rule that turns it into a label is fixed: drop what stands before the
//! first ASCII letter, keep of the rest only ASCII letters, digits and
//! hyphens, in lower case, cut the result at 63 characters, and drop the
//! hyphens that it ends in. What is left is a DNS label, or nothing where
//! the identifier holds no ASCII letter.

use vstd::prelude::*;
use crate::text::{
    ascii_alphanumeric, ascii_digit, ascii_letter, ascii_lower, from_chars, is_ascii_alphanumeric,
    is_ascii_letter, slice_chars, to_chars,
};

verus! {

/// The greatest length of a DNS label.
pub const LABEL_MAX: usize = 63;

/// A character that is kept when a label is made: an ASCII letter, a digit
/// or a hyphen.
pub open spec fn label_source_char(c: char) -> bool {
    ascii_alphanumeric(c) || c == '-'
}

/// A character of a finished label: a lower-case ASCII letter, a digit or a
/// hyphen.
pub open spec fn label_char(c: char) -> bool {
    ('a' <= c && c <= 'z') || ascii_digit(c) || c == '-'
}

/// `s` without what stands before its first ASCII letter.
pub open spec fn strip_leading(s: Seq<char>) -> Seq<char>
    decreases s.len(),
{
    if s.len() == 0 || ascii_letter(s[0]) {
        s
    } else {
        strip_leading(s.skip(1))
    }
}

/// `s` without the hyphens that it ends in.
pub open spec fn strip_trailing(s: Seq<char>) -> Seq<char>
    decreases s.len(),
{
    if s.len() == 0 || s.last() != '-' {
        s
    } else {
        strip_trailing(s.drop_last())
    }
}

/// The first `limit` characters of `s`, or all of `s` where it has no more.
pub open spec fn cut(s: Seq<char>, limit: int) -> Seq<char> {
    if s.len() > limit {
        s.take(limit)
    } else {
        s
    }
}

/// A label that a DNS name can hold: one to 63 lower-case ASCII letters,
/// digits and hyphens, the first a letter and the last no hyphen.
pub open spec fn valid_dns_label(label: Seq<char>) -> bool {
    &&& 1 <= label.len() <= LABEL_MAX
    &&& forall|i: int| 0 <= i < label.len() ==> label_char(#[trigger] label[i])
    &&& 'a' <= label[0] && label[0] <= 'z'
    &&& label.last() != '-'
}

/// The letters, digits and hyphens of `s`, in order and in lower case.
pub open spec fn keep_label_chars(s: Seq<char>) -> Seq<char>
    decreases s.len(),
{
    if s.len() == 0 {
        s
    } else if label_source_char(s.last()) {
        keep_label_chars(s.drop_last()).push(ascii_lower(s.last()))
    } else {
        keep_label_chars(s.drop_last())
    }
}

/// The DNS label that stands for `name`.
pub open spec fn dns_label(name: Seq<char>) -> Seq<char> {
    strip_trailing(cut(keep_label_chars(strip_leading(name)), LABEL_MAX as int))
}

/// What is kept holds label characters only.
pub proof fn lemma_kept_chars(s: Seq<char>)
    ensures
        keep_label_chars(s).len() <= s.len(),
        forall|i: int|
            0 <= i < keep_label_chars(s).len() ==> label_char(#[trigger] keep_label_chars(s)[i]),
    decreases s.len(),
{
    if s.len() > 0 {
        lemma_kept_chars(s.drop_last());
    }
}

/// The first character of `s`, where it is kept, is the first that is kept.
proof fn lemma_kept_first(s: Seq<char>)
    requires
        s.len() > 0,
        label_source_char(s[0]),
    ensures
        keep_label_chars(s).len() > 0,
        keep_label_chars(s)[0] == ascii_lower(s[0]),
    decreases s.len(),
{
    let front = s.drop_last();
    if s.len() > 1 {
        assert(front[0] == s[0]);
        lemma_kept_first(front);
    } else {
        assert(keep_label_chars(front).len() == 0);
    }
}

/// What is left once the leading characters are stripped is empty or
/// starts with an ASCII letter.
proof fn lemma_stripped_leading(s: Seq<char>)
    ensures
        strip_leading(s).len() > 0 ==> ascii_letter(strip_leading(s)[0]),
    decreases s.len(),
{
    if s.len() > 0 && !ascii_letter(s[0]) {
        lemma_stripped_leading(s.skip(1));
    }
}

/// What is left once the trailing hyphens are stripped is the beginning of
/// the text, and is empty or ends in another character than a hyphen.
proof fn lemma_stripped_trailing(s: Seq<char>)
    ensures
        strip_trailing(s).len() <= s.len(),
        strip_trailing(s) == s.take(strip_trailing(s).len() as int),
        strip_trailing(s).len() > 0 ==> strip_trailing(s).last() != '-',
    decreases s.len(),
{
    if s.len() > 0 && s.last() == '-' {
        lemma_stripped_trailing(s.drop_last());
        let kept = strip_trailing(s.drop_last());
        assert(s.drop_last().take(kept.len() as int) == s.take(kept.len() as int));
    } else {
        assert(s.take(s.len() as int) == s);
    }
}

/// A label is a DNS label, unless it is empty.
pub proof fn lemma_dns_label_shape(name: Seq<char>)
    ensures
        dns_label(name).len() == 0 || valid_dns_label(dns_label(name)),
        forall|i: int| 0 <= i < dns_label(name).len() ==> label_char(#[trigger] dns_label(name)[i]),
{
    let lead = strip_leading(name);
    let kept = keep_label_chars(lead);
    let short = cut(kept, LABEL_MAX as int);
    let label = dns_label(name);
    lemma_stripped_leading(name);
    lemma_kept_chars(lead);
    lemma_stripped_trailing(short);
    assert forall|i: int| 0 <= i < label.len() implies label_char(#[trigger] label[i]) by {
        assert(label[i] == short[i]);
        assert(short[i] == kept[i]);
    }
    if label.len() > 0 {
        assert(lead.len() > 0);
        lemma_kept_first(lead);
        assert(label[0] == short[0]);
        assert(short[0] == kept[0]);
    }
}

/// The DNS label that stands for `name`. It is empty where the name holds
/// no ASCII letter.
pub fn sanitize_dns_label(name: &str) -> (label: String)
    ensures
        label@ == dns_label(name@),
{
    let chars = to_chars(name);
    let n = chars.len();
    let mut start: usize = 0;
    assert(chars@.skip(0) == chars@);
    while start < n && !is_ascii_letter(chars[start])
        invariant
            start <= n == chars.len(),
            strip_leading(chars@) == strip_leading(chars@.skip(start as int)),
        decreases n - start,
    {
        assert(chars@.skip(start as int).skip(1) == chars@.skip(start + 1));
        start += 1;
    }
    let ghost lead = chars@.skip(start as int);
    assert(strip_leading(chars@) == lead);
    let mut kept: Vec<char> = Vec::new();
    let mut i: usize = start;
    assert(chars@.subrange(start as int, start as int) == Seq::<char>::empty());
    while i < n
        invariant
            start <= i <= n == chars.len(),
            kept@ == keep_label_chars(chars@.subrange(start as int, i as int)),
        decreases n - i,
    {
        let c = chars[i];
        assert(chars@.subrange(start as int, i + 1).drop_last() == chars@.subrange(
            start as int,
            i as int,
        ));
        if is_ascii_alphanumeric(c) || c == '-' {
            kept.push(lower(c));
        }
        i += 1;
    }
    assert(chars@.subrange(start as int, n as int) == lead);
    let mut end: usize = if kept.len() > LABEL_MAX {
        LABEL_MAX
    } else {
        kept.len()
    };
    let ghost short = cut(kept@, LABEL_MAX as int);
    assert(short == kept@.take(end as int));
    while end > 0 && kept[end - 1] == '-'
        invariant
            end <= kept.len(),
            strip_trailing(short) == strip_trailing(kept@.take(end as int)),
        decreases end,
    {
        assert(kept@.take(end as int).drop_last() == kept@.take(end - 1));
        end -= 1;
    }
    let label = slice_chars(kept.as_slice(), 0, end);
    assert(label@ == kept@.take(end as int));
    from_chars(label.as_slice())
}

/// The lower-case form of an ASCII capital letter; any other character as
/// it is.
pub fn lower(c: char) -> (r: char)
    ensures
        r == ascii_lower(c),
{
    if 'A' <= c && c <= 'Z' {
        ((c as u8) + 32) as char
    } else {
        c
    }
}

} // verus!
