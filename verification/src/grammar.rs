//! The grammar of one part of a `scope/name` package identifier.
//!
//! A part (the scope or the name) is acceptable when it is 3 to 32 characters
//! long, drawn from `[a-z0-9_]`, not entirely digits, and neither starts nor
//! ends with an underscore. The checks are applied in a fixed order and stop
//! at the first one that fails; [`part_fault`] names that first failure.

use vstd::prelude::*;

verus! {

/// Lower-case ASCII letter.
pub open spec fn is_lower_char(c: char) -> bool {
    'a' <= c && c <= 'z'
}

/// ASCII digit.
pub open spec fn is_digit_char(c: char) -> bool {
    '0' <= c && c <= '9'
}

/// A character a part may contain: lower-case ASCII letter, digit, or underscore.
pub open spec fn is_name_char(c: char) -> bool {
    is_lower_char(c) || is_digit_char(c) || c == '_'
}

/// A part must be 3 to 32 characters long, inclusive.
pub open spec fn len_ok(p: Seq<char>) -> bool {
    3 <= p.len() && p.len() <= 32
}

/// Every character of the part is an ASCII digit.
pub open spec fn all_digits(p: Seq<char>) -> bool {
    forall|i: int| 0 <= i < p.len() ==> is_digit_char(#[trigger] p[i])
}

/// The part starts or ends with an underscore.
pub open spec fn underscore_edged(p: Seq<char>) -> bool {
    p.len() > 0 && (p[0] == '_' || p[p.len() - 1] == '_')
}

/// Every character of the part is drawn from `[a-z0-9_]`.
pub open spec fn chars_ok(p: Seq<char>) -> bool {
    forall|i: int| 0 <= i < p.len() ==> is_name_char(#[trigger] p[i])
}

/// The full checklist for one part of a package name.
pub open spec fn valid_part(p: Seq<char>) -> bool {
    len_ok(p) && !all_digits(p) && !underscore_edged(p) && chars_ok(p)
}

/// Which rule of the checklist a rejected part broke.
#[derive(Debug, Clone, Copy, PartialEq, Eq, Structural)]
pub enum PartFault {
    Length,
    Digits,
    Underscore,
    Chars,
}

/// The first rule the part breaks, in checklist order, or `None` for a valid part.
pub open spec fn part_fault(p: Seq<char>) -> Option<PartFault> {
    if !len_ok(p) {
        Some(PartFault::Length)
    } else if all_digits(p) {
        Some(PartFault::Digits)
    } else if underscore_edged(p) {
        Some(PartFault::Underscore)
    } else if !chars_ok(p) {
        Some(PartFault::Chars)
    } else {
        None
    }
}

/// Upper-case ASCII letter; never a name character.
pub open spec fn is_upper_char(c: char) -> bool {
    'A' <= c && c <= 'Z'
}

/// Length boundaries of the checklist: parts of length 2 or 33 are rejected
/// for their length alone; parts of length 3 or 32 pass when every other rule
/// is met.
pub proof fn lemma_length_boundaries(p: Seq<char>)
    ensures
        p.len() == 2 ==> part_fault(p) == Some(PartFault::Length),
        p.len() == 33 ==> part_fault(p) == Some(PartFault::Length),
        (p.len() == 3 || p.len() == 32) && !all_digits(p) && !underscore_edged(p) && chars_ok(p)
            ==> part_fault(p) is None,
{
}

/// A part made entirely of digits is rejected even when its length is valid.
pub proof fn lemma_all_digits_rejected(p: Seq<char>)
    requires
        len_ok(p),
        all_digits(p),
    ensures
        part_fault(p) == Some(PartFault::Digits),
{
}

/// A part that starts or ends with an underscore is rejected once the earlier
/// rules (length, all-digits) pass.
pub proof fn lemma_underscore_edges_rejected(p: Seq<char>)
    requires
        len_ok(p),
        !all_digits(p),
        underscore_edged(p),
    ensures
        part_fault(p) == Some(PartFault::Underscore),
{
}

/// Upper-case letters are not permitted: a part holding one is rejected for
/// its characters once the earlier rules pass. Case is never normalized.
pub proof fn lemma_uppercase_rejected(p: Seq<char>, i: int)
    requires
        len_ok(p),
        !all_digits(p),
        !underscore_edged(p),
        0 <= i < p.len(),
        is_upper_char(p[i]),
    ensures
        part_fault(p) == Some(PartFault::Chars),
{
    assert(!is_name_char(p[i]));
}

fn char_is_digit(c: char) -> (r: bool)
    ensures
        r == is_digit_char(c),
{
    '0' <= c && c <= '9'
}

fn char_is_name(c: char) -> (r: bool)
    ensures
        r == is_name_char(c),
{
    ('a' <= c && c <= 'z') || ('0' <= c && c <= '9') || c == '_'
}

fn all_chars_digits(part: &str) -> (r: bool)
    ensures
        r == all_digits(part@),
{
    let n = part.unicode_len();
    let mut i: usize = 0;
    while i < n
        invariant
            n == part@.len(),
            0 <= i <= n,
            forall|j: int| 0 <= j < i ==> is_digit_char(#[trigger] part@[j]),
        decreases n - i,
    {
        if !char_is_digit(part.get_char(i)) {
            assert(!is_digit_char(part@[i as int]));
            return false;
        }
        i += 1;
    }
    true
}

fn all_chars_name(part: &str) -> (r: bool)
    ensures
        r == chars_ok(part@),
{
    let n = part.unicode_len();
    let mut i: usize = 0;
    while i < n
        invariant
            n == part@.len(),
            0 <= i <= n,
            forall|j: int| 0 <= j < i ==> is_name_char(#[trigger] part@[j]),
        decreases n - i,
    {
        if !char_is_name(part.get_char(i)) {
            assert(!is_name_char(part@[i as int]));
            return false;
        }
        i += 1;
    }
    true
}

/// Check one part against the checklist and report the first broken rule.
pub fn check_part(part: &str) -> (r: Option<PartFault>)
    ensures
        r == part_fault(part@),
{
    let n = part.unicode_len();
    if n < 3 || 32 < n {
        return Some(PartFault::Length);
    }
    if all_chars_digits(part) {
        return Some(PartFault::Digits);
    }
    let first = part.get_char(0);
    let last = part.get_char(n - 1);
    if first == '_' || last == '_' {
        return Some(PartFault::Underscore);
    }
    if !all_chars_name(part) {
        return Some(PartFault::Chars);
    }
    None
}

/// The input contains a `/` separator somewhere.
pub open spec fn has_slash(s: Seq<char>) -> bool {
    exists|i: int| 0 <= i < s.len() && (#[trigger] s[i]) == '/'
}

/// `i` is the index of the first `/` in `s`.
pub open spec fn is_first_slash(s: Seq<char>, i: int) -> bool {
    &&& 0 <= i < s.len()
    &&& s[i] == '/'
    &&& forall|j: int| 0 <= j < i ==> (#[trigger] s[j]) != '/'
}

/// The index of the first `/` in `s`; meaningful only when `has_slash(s)`.
pub open spec fn slash_index(s: Seq<char>) -> int {
    choose|i: int| is_first_slash(s, i)
}

/// Everything before the first `/`.
pub open spec fn scope_of(s: Seq<char>) -> Seq<char> {
    s.subrange(0, slash_index(s))
}

/// Everything after the first `/`.
pub open spec fn name_of(s: Seq<char>) -> Seq<char> {
    s.subrange(slash_index(s) + 1, s.len() as int)
}

/// The whole input is acceptable to the scoped-name grammar: it has a
/// separator, and both the scope before it and the name after it pass the
/// checklist.
pub open spec fn scoped_parses(s: Seq<char>) -> bool {
    has_slash(s) && part_fault(scope_of(s)) is None && part_fault(name_of(s)) is None
}

/// Two parts joined by a single separator character.
pub open spec fn joined(scope: Seq<char>, name: Seq<char>, sep: char) -> Seq<char> {
    scope + seq![sep] + name
}

/// Every `/` replaced by `+`, character for character.
pub open spec fn replace_slash(s: Seq<char>) -> Seq<char> {
    s.map_values(|c: char| if c == '/' { '+' } else { c })
}

/// The first `/` of a string is unique, so a witness pins down `slash_index`.
pub proof fn lemma_first_slash_index(s: Seq<char>, i: int)
    requires
        is_first_slash(s, i),
    ensures
        has_slash(s),
        slash_index(s) == i,
{
    assert(has_slash(s));
    let k = choose|k: int| is_first_slash(s, k);
    assert(is_first_slash(s, k));
    if k < i {
        assert(s[k] != '/');
    } else if i < k {
        assert(s[i] != '/');
    }
}

/// Find the first `/` of the input, if any.
pub fn find_first_slash(s: &str) -> (r: Option<usize>)
    ensures
        match r {
            Some(i) => is_first_slash(s@, i as int),
            None => !has_slash(s@),
        },
{
    let n = s.unicode_len();
    let mut i: usize = 0;
    while i < n
        invariant
            n == s@.len(),
            0 <= i <= n,
            forall|j: int| 0 <= j < i ==> (#[trigger] s@[j]) != '/',
        decreases n - i,
    {
        if s.get_char(i) == '/' {
            return Some(i);
        }
        i += 1;
    }
    None
}

} // verus!
