//! Character-level string helpers shared by the parsers and argument builders.

use vstd::prelude::*;

verus! {

// ---------------------------------------------------------------------
// Occurrences of a pattern
// ---------------------------------------------------------------------

/// `p` occurs in `s` starting at index `i`.
pub open spec fn occurs_at(s: Seq<char>, p: Seq<char>, i: int) -> bool {
    0 <= i && i + p.len() <= s.len() && s.subrange(i, i + p.len()) == p
}

/// `p` occurs somewhere in `s`.
pub open spec fn contains_seq(s: Seq<char>, p: Seq<char>) -> bool {
    exists|i: int| occurs_at(s, p, i)
}

/// `i` is the leftmost occurrence of `p` in `s`.
pub open spec fn is_first_occurrence(s: Seq<char>, p: Seq<char>, i: int) -> bool {
    occurs_at(s, p, i) && forall|j: int| 0 <= j < i ==> !occurs_at(s, p, j)
}

/// The leftmost occurrence of `p` in `s`, if any.
pub open spec fn first_occurrence(s: Seq<char>, p: Seq<char>) -> Option<int> {
    if contains_seq(s, p) {
        Some(choose|i: int| is_first_occurrence(s, p, i))
    } else {
        None
    }
}

/// `s` starts with `p`.
pub open spec fn starts_with(s: Seq<char>, p: Seq<char>) -> bool {
    p.len() <= s.len() && s.subrange(0, p.len() as int) == p
}

/// `s` ends with `p`.
pub open spec fn ends_with(s: Seq<char>, p: Seq<char>) -> bool {
    p.len() <= s.len() && s.subrange(s.len() - p.len(), s.len() as int) == p
}

/// The leftmost occurrence is unique.
pub proof fn lemma_first_occurrence_unique(s: Seq<char>, p: Seq<char>, i: int)
    requires
        is_first_occurrence(s, p, i),
    ensures
        first_occurrence(s, p) == Some(i),
{
    let k = choose|k: int| is_first_occurrence(s, p, k);
    assert(is_first_occurrence(s, p, k));
    if k < i {
        assert(!occurs_at(s, p, k));
    } else if i < k {
        assert(!occurs_at(s, p, i));
    }
}

/// Whenever `p` occurs in `s`, it has a leftmost occurrence.
pub proof fn lemma_first_occurrence_exists(s: Seq<char>, p: Seq<char>, w: int)
    requires
        occurs_at(s, p, w),
    ensures
        first_occurrence(s, p) matches Some(i) && is_first_occurrence(s, p, i),
    decreases w,
{
    if exists|j: int| 0 <= j < w && occurs_at(s, p, j) {
        let j = choose|j: int| 0 <= j < w && occurs_at(s, p, j);
        lemma_first_occurrence_exists(s, p, j);
    } else {
        assert(is_first_occurrence(s, p, w));
        lemma_first_occurrence_unique(s, p, w);
    }
}

/// A leftmost occurrence, when there is one, is an occurrence.
pub proof fn lemma_first_occurrence_occurs(s: Seq<char>, p: Seq<char>)
    ensures
        first_occurrence(s, p) matches Some(i) ==> is_first_occurrence(s, p, i),
{
    if contains_seq(s, p) {
        let w = choose|w: int| occurs_at(s, p, w);
        lemma_first_occurrence_exists(s, p, w);
    }
}

/// The characters of `s`, in order.
pub fn chars_of(s: &str) -> (v: Vec<char>)
    ensures
        v@ == s@,
{
    let mut v: Vec<char> = Vec::new();
    for c in it: s.chars()
        invariant
            v@ == it.seq().take(it.index() as int),
    {
        v.push(c);
    }
    v
}

/// Whether `p` occurs in `s` at index `i`.
pub fn matches_at(s: &Vec<char>, p: &Vec<char>, i: usize) -> (r: bool)
    ensures
        r == occurs_at(s@, p@, i as int),
{
    if i > s.len() || p.len() > s.len() - i {
        return false;
    }
    let mut k: usize = 0;
    while k < p.len()
        invariant
            i + p.len() <= s.len(),
            k <= p.len(),
            forall|j: int| 0 <= j < k ==> s@[i + j] == p@[j],
        decreases p.len() - k,
    {
        if s[i + k] != p[k] {
            assert(s@.subrange(i as int, i + p.len())[k as int] != p@[k as int]);
            return false;
        }
        k = k + 1;
    }
    assert(s@.subrange(i as int, i + p.len()) =~= p@);
    true
}

/// The leftmost index at which `p` occurs in `s`.
pub fn find_seq(s: &Vec<char>, p: &Vec<char>) -> (r: Option<usize>)
    ensures
        match r {
            Some(i) => first_occurrence(s@, p@) == Some(i as int),
            None => first_occurrence(s@, p@) is None,
        },
{
    let mut i: usize = 0;
    loop
        invariant
            i <= s.len(),
            forall|j: int| 0 <= j < i ==> !occurs_at(s@, p@, j),
        ensures
            forall|j: int| 0 <= j <= s.len() ==> !occurs_at(s@, p@, j),
        decreases s.len() - i,
    {
        if matches_at(s, p, i) {
            proof {
                lemma_first_occurrence_unique(s@, p@, i as int);
            }
            return Some(i);
        }
        if i == s.len() {
            break;
        }
        i = i + 1;
    }
    assert forall|j: int| !occurs_at(s@, p@, j) by {
        if 0 <= j <= s.len() {
        }
    }
    None
}

/// Whether `p` occurs in `s`.
pub fn contains_chars(s: &Vec<char>, p: &Vec<char>) -> (r: bool)
    ensures
        r == contains_seq(s@, p@),
{
    match find_seq(s, p) {
        Some(i) => {
            proof {
                let k = choose|k: int| is_first_occurrence(s@, p@, k);
                assert(contains_seq(s@, p@));
                let w = choose|w: int| occurs_at(s@, p@, w);
                lemma_first_occurrence_exists(s@, p@, w);
            }
            true
        },
        None => false,
    }
}

/// Whether `s` starts with `p`.
pub fn starts_with_chars(s: &Vec<char>, p: &Vec<char>) -> (r: bool)
    ensures
        r == starts_with(s@, p@),
{
    matches_at(s, p, 0)
}

/// Whether `s` ends with `p`.
pub fn ends_with_chars(s: &Vec<char>, p: &Vec<char>) -> (r: bool)
    ensures
        r == ends_with(s@, p@),
{
    if p.len() > s.len() {
        return false;
    }
    matches_at(s, p, s.len() - p.len())
}

/// Whether two strings hold the same characters.
pub fn str_eq(a: &str, b: &str) -> (r: bool)
    ensures
        r == (a@ == b@),
{
    let x = chars_of(a);
    let y = chars_of(b);
    if x.len() != y.len() {
        return false;
    }
    let r = matches_at(&x, &y, 0);
    if r {
        assert(x@ =~= x@.subrange(0, y@.len() as int));
    } else {
        assert(x@.subrange(0, y@.len() as int) =~= x@);
    }
    r
}

// ---------------------------------------------------------------------
// Case mapping
// ---------------------------------------------------------------------

/// What `str::to_lowercase` returns for a string (Unicode lowercase mapping,
/// which may change the length of the string).
pub uninterp spec fn lowercase_of(s: Seq<char>) -> Seq<char>;

/// Every character of `s` is ASCII.
pub open spec fn is_ascii_text(s: Seq<char>) -> bool {
    forall|i: int| 0 <= i < s.len() ==> (s[i] as u32) < 128
}

/// `str::to_lowercase`: the Unicode lowercase form of `s`. The contract names
/// the result; of the Unicode case tables it states only that ASCII text is
/// lowercased letter by letter (`A`-`Z` to `a`-`z`, all else unchanged).
#[verifier::external_body]
pub(crate) fn to_lowercase(s: &str) -> (r: String)
    ensures
        r@ == lowercase_of(s@),
        is_ascii_text(s@) ==> r@ == s@.map_values(|c: char| ascii_lower_char(c)),
{
    s.to_lowercase()
}

/// What `str::to_uppercase` returns for a string (Unicode uppercase mapping,
/// which may change the length of the string).
pub uninterp spec fn uppercase_of(s: Seq<char>) -> Seq<char>;

/// `str::to_uppercase`: the Unicode uppercase form of `s`. The contract names
/// the result; of the Unicode case tables it states only that ASCII text is
/// uppercased letter by letter (`a`-`z` to `A`-`Z`, all else unchanged).
#[verifier::external_body]
pub(crate) fn to_uppercase(s: &str) -> (r: String)
    ensures
        r@ == uppercase_of(s@),
        is_ascii_text(s@) ==> r@ == s@.map_values(|c: char| ascii_upper_char(c)),
{
    s.to_uppercase()
}

// ---------------------------------------------------------------------
// Regular-expression captures
// ---------------------------------------------------------------------

/// What the `regex` crate gives for capture group `group` when `pattern` is
/// compiled and its leftmost match in `text` is taken: the group's text, or
/// nothing when the pattern does not compile, does not match, or the group
/// took no part in the match.
pub uninterp spec fn regex_capture(pattern: Seq<char>, text: Seq<char>, group: int) -> Option<Seq<char>>;

/// `regex::Regex::new(pattern)` then `captures(text)` and `get(group)`: the
/// text of capture group `group` of the leftmost match. The contract names
/// that result; the matching rules of the crate are not restated here.
#[verifier::external_body]
pub(crate) fn capture(pattern: &str, text: &str, group: usize) -> (r: Option<String>)
    ensures
        match r {
            Some(m) => regex_capture(pattern@, text@, group as int) == Some(m@),
            None => regex_capture(pattern@, text@, group as int) is None,
        },
{
    regex::Regex::new(pattern).ok().and_then(
        |re| re.captures(text).and_then(|c| c.get(group).map(|m| m.as_str().to_string())),
    )
}

/// ASCII lowercase of one character (other characters are unchanged).
pub open spec fn ascii_lower_char(c: char) -> char {
    if 'A' <= c <= 'Z' {
        ((c as u32) + 32) as char
    } else {
        c
    }
}

/// ASCII uppercase of one character (other characters are unchanged).
pub open spec fn ascii_upper_char(c: char) -> char {
    if 'a' <= c <= 'z' {
        ((c as u32) - 32) as char
    } else {
        c
    }
}

/// Lowercases one character the ASCII way.
pub fn ascii_lower(c: char) -> (r: char)
    ensures
        r == ascii_lower_char(c),
{
    if 'A' <= c && c <= 'Z' {
        ((c as u8) + 32) as char
    } else {
        c
    }
}

/// `a` and `b` are equal up to ASCII case.
pub open spec fn eq_ignore_ascii_case(a: Seq<char>, b: Seq<char>) -> bool {
    a.len() == b.len() && forall|i: int|
        0 <= i < a.len() ==> ascii_lower_char(a[i]) == ascii_lower_char(b[i])
}

/// Compares two strings up to ASCII case.
pub fn str_eq_ignore_ascii_case(a: &str, b: &str) -> (r: bool)
    ensures
        r == eq_ignore_ascii_case(a@, b@),
{
    let x = chars_of(a);
    let y = chars_of(b);
    if x.len() != y.len() {
        return false;
    }
    let mut i: usize = 0;
    while i < x.len()
        invariant
            x@ == a@,
            y@ == b@,
            x.len() == y.len(),
            i <= x.len(),
            forall|j: int| 0 <= j < i ==> ascii_lower_char(x@[j]) == ascii_lower_char(y@[j]),
        decreases x.len() - i,
    {
        if ascii_lower(x[i]) != ascii_lower(y[i]) {
            return false;
        }
        i = i + 1;
    }
    true
}

// ---------------------------------------------------------------------
// Decimal numbers
// ---------------------------------------------------------------------

/// The value of a decimal digit character.
pub open spec fn digit_value(c: char) -> int {
    (c as int) - ('0' as int)
}

/// `c` is one of `0`..`9`.
pub open spec fn is_digit(c: char) -> bool {
    '0' <= c <= '9'
}

/// The value of a string of decimal digits (most significant first).
pub open spec fn digits_value(d: Seq<char>) -> int
    decreases d.len(),
{
    if d.len() == 0 {
        0
    } else {
        digits_value(d.drop_last()) * 10 + digit_value(d.last())
    }
}

/// The characters of `n` written in decimal without leading zeros.
pub open spec fn nat_decimal(n: nat) -> Seq<char>
    decreases n,
{
    if n < 10 {
        seq![(('0' as int) + n) as char]
    } else {
        nat_decimal(n / 10).push((('0' as int) + n % 10) as char)
    }
}

/// The characters of `x` written in decimal, with a leading `-` when negative.
pub open spec fn int_decimal(x: int) -> Seq<char> {
    if x < 0 {
        seq!['-'].add(nat_decimal((-x) as nat))
    } else {
        nat_decimal(x as nat)
    }
}

/// `d` consists of ASCII digits only.
pub open spec fn all_digits(d: Seq<char>) -> bool {
    forall|i: int| 0 <= i < d.len() ==> is_digit(d[i])
}

/// The digits part of an unsigned number: `s` without one leading `+`.
pub open spec fn unsigned_digits(s: Seq<char>) -> Seq<char> {
    if s.len() > 0 && s[0] == '+' {
        s.skip(1)
    } else {
        s
    }
}

/// What `str::parse::<u32>` accepts: an optional `+`, then one or more ASCII
/// digits whose value fits in a `u32`.
pub open spec fn parse_u32_spec(s: Seq<char>) -> Option<u32> {
    let d = unsigned_digits(s);
    if d.len() == 0 || !all_digits(d) || digits_value(d) > u32::MAX {
        None
    } else {
        Some(digits_value(d) as u32)
    }
}

/// The decimal form of `n` is a non-empty run of digits worth `n`.
pub proof fn lemma_nat_decimal_digits(n: nat)
    ensures
        nat_decimal(n).len() >= 1,
        all_digits(nat_decimal(n)),
        digits_value(nat_decimal(n)) == n,
    decreases n,
{
    let d = nat_decimal(n);
    if n >= 10 {
        lemma_nat_decimal_digits(n / 10);
        assert(d.drop_last() =~= nat_decimal(n / 10));
        assert(digit_value(d.last()) == n % 10);
        assert(digits_value(d) == digits_value(d.drop_last()) * 10 + digit_value(d.last()));
        assert(digits_value(d.drop_last()) == n / 10);
        assert((n / 10) * 10 + n % 10 == n);
    } else {
        assert(d.drop_last() =~= Seq::<char>::empty());
        assert(digit_value(d.last()) == n);
        assert(digits_value(d) == digits_value(d.drop_last()) * 10 + digit_value(d.last()));
    }
}

/// Parsing the decimal form of a `u32` gives it back.
pub proof fn lemma_parse_u32_decimal(n: u32)
    ensures
        parse_u32_spec(nat_decimal(n as nat)) == Some(n),
{
    lemma_nat_decimal_digits(n as nat);
    let d = nat_decimal(n as nat);
    assert(is_digit(d[0]));
    assert(unsigned_digits(d) == d);
}

/// Appending a digit never makes the value smaller.
proof fn lemma_digits_value_monotone(d: Seq<char>)
    requires
        forall|i: int| 0 <= i < d.len() ==> is_digit(d[i]),
    ensures
        digits_value(d) >= 0,
        d.len() > 0 ==> digits_value(d) >= digits_value(d.drop_last()),
    decreases d.len(),
{
    if d.len() > 0 {
        lemma_digits_value_monotone(d.drop_last());
    }
}

/// A longer run of digits is worth at least as much as its prefix.
proof fn lemma_digits_value_prefix(d: Seq<char>, k: int)
    requires
        0 <= k <= d.len(),
        forall|i: int| 0 <= i < d.len() ==> is_digit(d[i]),
    ensures
        digits_value(d) >= digits_value(d.take(k)),
    decreases d.len() - k,
{
    if k < d.len() {
        lemma_digits_value_prefix(d, k + 1);
        let t = d.take(k + 1);
        assert(t.drop_last() =~= d.take(k));
        lemma_digits_value_monotone(t);
    } else {
        assert(d.take(k) =~= d);
    }
}

/// Parses a decimal `u32` the way `str::parse::<u32>` does.
pub fn parse_u32(s: &Vec<char>) -> (r: Option<u32>)
    ensures
        r == parse_u32_spec(s@),
{
    let start: usize = if s.len() > 0 && s[0] == '+' {
        1
    } else {
        0
    };
    let ghost d = unsigned_digits(s@);
    assert(d =~= s@.skip(start as int));
    if start >= s.len() {
        return None;
    }
    let mut acc: u64 = 0;
    let mut i: usize = start;
    while i < s.len()
        invariant
            start <= i <= s.len(),
            d == unsigned_digits(s@),
            d =~= s@.skip(start as int),
            forall|j: int| 0 <= j < i - start ==> is_digit(d[j]),
            acc == digits_value(d.take(i - start)),
            acc <= u32::MAX,
        decreases s.len() - i,
    {
        let c = s[i];
        assert(d[i - start] == c);
        if !('0' <= c && c <= '9') {
            assert(!is_digit(d[i - start]));
            assert(!all_digits(d));
            return None;
        }
        let v = (c as u64) - ('0' as u64);
        proof {
            let t = d.take(i - start + 1);
            assert(t.drop_last() =~= d.take(i - start));
            assert(t.last() == c);
            assert(digits_value(t) == acc * 10 + v);
        }
        let next = acc * 10 + v;
        if next > 4294967295 {
            proof {
                if all_digits(d) {
                    lemma_digits_value_prefix(d, i - start + 1);
                }
            }
            return None;
        }
        acc = next;
        i = i + 1;
    }
    assert(d.take(d.len() as int) =~= d);
    Some(acc as u32)
}

/// The digit character of `d`.
fn digit_char(d: u8) -> (c: char)
    requires
        d < 10,
    ensures
        c == (('0' as int) + d) as char,
{
    (48u8 + d) as char
}

/// The decimal form of `n`, most significant digit first.
fn nat_string(n: u128) -> (s: String)
    ensures
        s@ == nat_decimal(n as nat),
    decreases n,
{
    if n < 10 {
        let mut s = String::new();
        push_char(&mut s, digit_char(n as u8));
        proof {
            assert(s@ =~= seq![(('0' as int) + n) as char]);
        }
        s
    } else {
        let mut s = nat_string(n / 10);
        push_char(&mut s, digit_char((n % 10) as u8));
        s
    }
}

/// The decimal form of a number, with a leading `-` when negative and no
/// leading zeros (what `to_string` gives for an integer).
pub(crate) fn decimal_string(x: i128) -> (s: String)
    ensures
        s@ == int_decimal(x as int),
{
    if x < 0 {
        let m: u128 = if x == i128::MIN {
            (i128::MAX as u128) + 1
        } else {
            (-x) as u128
        };
        let digits = nat_string(m);
        let mut s = String::new();
        push_char(&mut s, '-');
        let r = s.concat(digits.as_str());
        proof {
            assert(r@ =~= seq!['-'].add(nat_decimal((-x) as nat)));
        }
        r
    } else {
        nat_string(x as u128)
    }
}

// ---------------------------------------------------------------------
// Whitespace
// ---------------------------------------------------------------------

/// `char::is_whitespace`: the Unicode `White_Space` property.
pub open spec fn is_whitespace(c: char) -> bool {
    ('\u{9}' <= c <= '\u{d}') || c == ' ' || c == '\u{85}' || c == '\u{a0}' || c == '\u{1680}'
        || ('\u{2000}' <= c <= '\u{200a}') || c == '\u{2028}' || c == '\u{2029}' || c
        == '\u{202f}' || c == '\u{205f}' || c == '\u{3000}'
}

/// Whether a character is Unicode whitespace.
pub fn char_is_whitespace(c: char) -> (r: bool)
    ensures
        r == is_whitespace(c),
{
    ('\u{9}' <= c && c <= '\u{d}') || c == ' ' || c == '\u{85}' || c == '\u{a0}' || c
        == '\u{1680}' || ('\u{2000}' <= c && c <= '\u{200a}') || c == '\u{2028}' || c
        == '\u{2029}' || c == '\u{202f}' || c == '\u{205f}' || c == '\u{3000}'
}

/// `s` without leading whitespace.
pub open spec fn trim_start(s: Seq<char>) -> Seq<char>
    decreases s.len(),
{
    if s.len() > 0 && is_whitespace(s[0]) {
        trim_start(s.drop_first())
    } else {
        s
    }
}

/// `s` without trailing whitespace.
pub open spec fn trim_end(s: Seq<char>) -> Seq<char>
    decreases s.len(),
{
    if s.len() > 0 && is_whitespace(s.last()) {
        trim_end(s.drop_last())
    } else {
        s
    }
}

/// `str::trim`: `s` without leading and trailing whitespace.
pub open spec fn trim(s: Seq<char>) -> Seq<char> {
    trim_end(trim_start(s))
}

proof fn lemma_trim_start_skip(s: Seq<char>, k: int)
    requires
        0 <= k <= s.len(),
        forall|j: int| 0 <= j < k ==> is_whitespace(s[j]),
    ensures
        trim_start(s) == trim_start(s.skip(k)),
    decreases k,
{
    if k > 0 {
        assert(s.skip(1) =~= s.drop_first());
        lemma_trim_start_skip(s.drop_first(), k - 1);
        assert(s.drop_first().skip(k - 1) =~= s.skip(k));
    } else {
        assert(s.skip(0) =~= s);
    }
}

proof fn lemma_trim_end_take(s: Seq<char>, k: int)
    requires
        0 <= k <= s.len(),
        forall|j: int| k <= j < s.len() ==> is_whitespace(s[j]),
    ensures
        trim_end(s) == trim_end(s.take(k)),
    decreases s.len() - k,
{
    if k < s.len() {
        assert(s.take(s.len() - 1) =~= s.drop_last());
        lemma_trim_end_take(s.drop_last(), k);
        assert(s.drop_last().take(k) =~= s.take(k));
    } else {
        assert(s.take(k) =~= s);
    }
}

/// The characters of `s[from..to]` with leading and trailing whitespace removed.
pub fn trim_range(s: &Vec<char>, from: usize, to: usize) -> (r: Vec<char>)
    requires
        from <= to <= s.len(),
    ensures
        r@ == trim(s@.subrange(from as int, to as int)),
{
    let ghost t = s@.subrange(from as int, to as int);
    let mut a = from;
    while a < to && char_is_whitespace(s[a])
        invariant
            from <= a <= to <= s.len(),
            forall|j: int| from <= j < a ==> is_whitespace(s@[j]),
        decreases to - a,
    {
        a = a + 1;
    }
    proof {
        lemma_trim_start_skip(t, a - from);
        assert(t.skip(a - from) =~= s@.subrange(a as int, to as int));
    }
    let ghost u = s@.subrange(a as int, to as int);
    let mut b = to;
    while b > a && char_is_whitespace(s[b - 1])
        invariant
            a <= b <= to,
            to <= s.len(),
            forall|j: int| b <= j < to ==> is_whitespace(s@[j]),
        decreases b,
    {
        b = b - 1;
    }
    proof {
        lemma_trim_end_take(u, b - a);
        assert(u.take(b - a) =~= s@.subrange(a as int, b as int));
        let w = s@.subrange(a as int, b as int);
        if w.len() > 0 {
            assert(!is_whitespace(w[0]));
            assert(!is_whitespace(w.last()));
        }
    }
    let mut r: Vec<char> = Vec::new();
    let mut i = a;
    while i < b
        invariant
            a <= i <= b <= s.len(),
            r@ =~= s@.subrange(a as int, i as int),
        decreases b - i,
    {
        r.push(s[i]);
        i = i + 1;
    }
    r
}

/// The characters of `s[from..to]`.
pub fn sub_chars(s: &Vec<char>, from: usize, to: usize) -> (r: Vec<char>)
    requires
        from <= to <= s.len(),
    ensures
        r@ == s@.subrange(from as int, to as int),
{
    let mut r: Vec<char> = Vec::new();
    let mut i = from;
    while i < to
        invariant
            from <= i <= to <= s.len(),
            r@ =~= s@.subrange(from as int, i as int),
        decreases to - i,
    {
        r.push(s[i]);
        i = i + 1;
    }
    r
}

/// Builds a `String` from characters.
pub fn string_of_chars(v: &Vec<char>) -> (s: String)
    ensures
        s@ == v@,
{
    let mut s = String::new();
    let mut i: usize = 0;
    while i < v.len()
        invariant
            i <= v.len(),
            s@ =~= v@.take(i as int),
        decreases v.len() - i,
    {
        push_char(&mut s, v[i]);
        i = i + 1;
    }
    s
}

/// `String::push`: appends one character.
#[verifier::external_body]
pub(crate) fn push_char(s: &mut String, c: char)
    ensures
        final(s)@ == old(s)@.push(c),
{
    s.push(c);
}

// ---------------------------------------------------------------------
// Splitting at a character
// ---------------------------------------------------------------------

/// `str::split` with a character: the pieces of `s` between the occurrences
/// of `c`, in order (one piece more than there are occurrences).
pub open spec fn split_char(s: Seq<char>, c: char) -> Seq<Seq<char>>
    decreases s.len(),
{
    if s.len() == 0 {
        seq![Seq::<char>::empty()]
    } else {
        let rest = split_char(s.drop_last(), c);
        if s.last() == c {
            rest.push(Seq::<char>::empty())
        } else {
            rest.update(rest.len() - 1, rest.last().push(s.last()))
        }
    }
}

/// There is always at least one piece.
pub proof fn lemma_split_char_nonempty(s: Seq<char>, c: char)
    ensures
        split_char(s, c).len() >= 1,
    decreases s.len(),
{
    if s.len() > 0 {
        lemma_split_char_nonempty(s.drop_last(), c);
    }
}

/// Without the separator, the whole string is the only piece.
pub proof fn lemma_split_char_none(s: Seq<char>, c: char)
    requires
        forall|i: int| 0 <= i < s.len() ==> s[i] != c,
    ensures
        split_char(s, c) == seq![s],
    decreases s.len(),
{
    if s.len() > 0 {
        lemma_split_char_none(s.drop_last(), c);
        assert(s.drop_last().push(s.last()) =~= s);
        assert(seq![s.drop_last()].update(0, s.drop_last().push(s.last())) =~= seq![s]);
    } else {
        assert(s =~= Seq::<char>::empty());
    }
}

/// Splitting `a`, the separator, then `b` gives the pieces of `a` followed by
/// the pieces of `b`.
pub proof fn lemma_split_char_concat(a: Seq<char>, b: Seq<char>, c: char)
    ensures
        split_char(a.push(c) + b, c) == split_char(a, c) + split_char(b, c),
    decreases b.len(),
{
    let s = a.push(c) + b;
    if b.len() == 0 {
        assert(s =~= a.push(c));
        assert(s.drop_last() =~= a);
        assert(split_char(a, c).push(Seq::<char>::empty()) =~= split_char(a, c) + seq![
            Seq::<char>::empty(),
        ]);
    } else {
        lemma_split_char_concat(a, b.drop_last(), c);
        lemma_split_char_nonempty(b.drop_last(), c);
        assert(s.drop_last() =~= a.push(c) + b.drop_last());
        assert(s.last() == b.last());
        let pa = split_char(a, c);
        let pb = split_char(b.drop_last(), c);
        if b.last() == c {
            assert((pa + pb).push(Seq::<char>::empty()) =~= pa + pb.push(Seq::<char>::empty()));
        } else {
            assert((pa + pb).update((pa + pb).len() - 1, (pa + pb).last().push(b.last())) =~= pa
                + pb.update(pb.len() - 1, pb.last().push(b.last())));
        }
    }
}

/// No piece holds the separator.
pub proof fn lemma_split_char_pieces(s: Seq<char>, c: char)
    ensures
        forall|k: int, j: int|
            0 <= k < split_char(s, c).len() && 0 <= j < split_char(s, c)[k].len()
                ==> #[trigger] split_char(s, c)[k][j] != c,
    decreases s.len(),
{
    if s.len() > 0 {
        lemma_split_char_pieces(s.drop_last(), c);
        lemma_split_char_nonempty(s.drop_last(), c);
        let rest = split_char(s.drop_last(), c);
        if s.last() != c {
            let p = split_char(s, c);
            assert forall|k: int, j: int| 0 <= k < p.len() && 0 <= j < p[k].len() implies #[trigger] p[k][j]
                != c by {
                if k == rest.len() - 1 {
                    assert(p[k] == rest.last().push(s.last()));
                    if j < rest.last().len() {
                        assert(p[k][j] == rest[k][j]);
                    }
                } else {
                    assert(p[k] == rest[k]);
                }
            }
        } else {
            let p = split_char(s, c);
            assert forall|k: int, j: int| 0 <= k < p.len() && 0 <= j < p[k].len() implies #[trigger] p[k][j]
                != c by {
                if k < rest.len() {
                    assert(p[k] == rest[k]);
                }
            }
        }
    }
}

/// The characters of a string that may be absent.
pub open spec fn opt_view(o: Option<String>) -> Option<Seq<char>> {
    match o {
        Some(s) => Some(s@),
        None => None,
    }
}

/// A string that may be absent, absent counting as empty.
pub open spec fn or_empty(o: Option<Seq<char>>) -> Seq<char> {
    match o {
        Some(s) => s,
        None => Seq::empty(),
    }
}

/// The characters of each string.
pub open spec fn string_views(v: Seq<String>) -> Seq<Seq<char>> {
    v.map_values(|s: String| s@)
}

/// The characters of each piece.
pub open spec fn piece_views(v: Seq<Vec<char>>) -> Seq<Seq<char>> {
    v.map_values(|x: Vec<char>| x@)
}

/// Splits `s` at every `c`.
pub fn split_chars(s: &Vec<char>, c: char) -> (r: Vec<Vec<char>>)
    ensures
        piece_views(r@) == split_char(s@, c),
{
    let mut pieces: Vec<Vec<char>> = Vec::new();
    let mut cur: Vec<char> = Vec::new();
    let mut i: usize = 0;
    proof {
        assert(s@.take(0) =~= Seq::<char>::empty());
        assert(piece_views(pieces@).push(cur@) =~= seq![Seq::<char>::empty()]);
    }
    while i < s.len()
        invariant
            i <= s.len(),
            piece_views(pieces@).push(cur@) == split_char(s@.take(i as int), c),
        decreases s.len() - i,
    {
        let x = s[i];
        let ghost before = piece_views(pieces@);
        let ghost cur_before = cur@;
        proof {
            let t = s@.take(i + 1);
            assert(t.drop_last() =~= s@.take(i as int));
            assert(t.last() == x);
        }
        if x == c {
            pieces.push(cur);
            cur = Vec::new();
            proof {
                assert(piece_views(pieces@) =~= before.push(cur_before));
                assert(piece_views(pieces@).push(cur@) =~= before.push(cur_before).push(
                    Seq::<char>::empty(),
                ));
            }
        } else {
            cur.push(x);
            proof {
                let old_all = before.push(cur_before);
                assert(piece_views(pieces@).push(cur@) =~= old_all.update(
                    old_all.len() - 1,
                    old_all.last().push(x),
                ));
            }
        }
        i = i + 1;
    }
    let ghost before = piece_views(pieces@);
    let ghost last = cur@;
    pieces.push(cur);
    proof {
        assert(s@.take(s.len() as int) =~= s@);
        assert(piece_views(pieces@) =~= before.push(last));
    }
    pieces
}

// ---------------------------------------------------------------------
// Words and lines
// ---------------------------------------------------------------------

/// The run of non-whitespace characters at the start of `s`.
pub open spec fn leading_word(s: Seq<char>) -> Seq<char>
    decreases s.len(),
{
    if s.len() == 0 || is_whitespace(s[0]) {
        Seq::<char>::empty()
    } else {
        seq![s[0]] + leading_word(s.drop_first())
    }
}

/// `split_whitespace().next()`: the first word of `s`, if any.
pub open spec fn first_word(s: Seq<char>) -> Option<Seq<char>> {
    let t = trim_start(s);
    if t.len() == 0 {
        None
    } else {
        Some(leading_word(t))
    }
}

proof fn lemma_leading_word_run(s: Seq<char>, k: int)
    requires
        0 <= k <= s.len(),
        forall|j: int| 0 <= j < k ==> !is_whitespace(s[j]),
        k == s.len() || is_whitespace(s[k]),
    ensures
        leading_word(s) == s.take(k),
    decreases k,
{
    if k == 0 {
        assert(s.take(0) =~= Seq::<char>::empty());
    } else {
        lemma_leading_word_run(s.drop_first(), k - 1);
        assert(seq![s[0]] + s.drop_first().take(k - 1) =~= s.take(k));
    }
}

/// The first word of `s`, if any.
pub fn first_word_of(s: &Vec<char>) -> (r: Option<Vec<char>>)
    ensures
        match r {
            Some(w) => first_word(s@) == Some(w@),
            None => first_word(s@) is None,
        },
{
    let mut i: usize = 0;
    while i < s.len() && char_is_whitespace(s[i])
        invariant
            i <= s.len(),
            forall|j: int| 0 <= j < i ==> is_whitespace(s@[j]),
        decreases s.len() - i,
    {
        i = i + 1;
    }
    proof {
        lemma_trim_start_skip(s@, i as int);
        assert(s@.skip(i as int).len() == 0 || !is_whitespace(s@.skip(i as int)[0]) ==> trim_start(
            s@.skip(i as int),
        ) == s@.skip(i as int));
    }
    if i == s.len() {
        return None;
    }
    let mut j: usize = i;
    while j < s.len() && !char_is_whitespace(s[j])
        invariant
            i <= j <= s.len(),
            forall|m: int| i <= m < j ==> !is_whitespace(s@[m]),
        decreases s.len() - j,
    {
        j = j + 1;
    }
    proof {
        let t = s@.skip(i as int);
        lemma_leading_word_run(t, j - i);
        assert(t.take(j - i) =~= s@.subrange(i as int, j as int));
    }
    Some(sub_chars(s, i, j))
}

/// `s` without one trailing carriage return.
pub open spec fn strip_cr(s: Seq<char>) -> Seq<char> {
    if s.len() > 0 && s.last() == '\r' {
        s.drop_last()
    } else {
        s
    }
}

/// `str::lines`: the pieces between line feeds, each without a trailing
/// carriage return; a final empty piece (text ending with a line feed, or
/// empty text) is no line.
pub open spec fn lines_of(s: Seq<char>) -> Seq<Seq<char>> {
    let pieces = split_char(s, '\n');
    let kept = if pieces.last().len() == 0 {
        pieces.drop_last()
    } else {
        pieces
    };
    kept.map_values(|p: Seq<char>| strip_cr(p))
}

/// The lines of a text.
pub fn lines(s: &str) -> (r: Vec<Vec<char>>)
    ensures
        piece_views(r@) == lines_of(s@),
{
    let pieces = split_chars(&chars_of(s), '\n');
    proof {
        lemma_split_char_nonempty(s@, '\n');
    }
    let n = if pieces[pieces.len() - 1].len() == 0 {
        pieces.len() - 1
    } else {
        pieces.len()
    };
    let ghost all = split_char(s@, '\n');
    let ghost kept = if all.last().len() == 0 {
        all.drop_last()
    } else {
        all
    };
    proof {
        assert(pieces@.len() == all.len());
        assert(pieces@[pieces@.len() - 1]@ == all.last());
        assert(kept.len() == n);
    }
    let mut out: Vec<Vec<char>> = Vec::new();
    let mut i: usize = 0;
    while i < n
        invariant
            i <= n,
            n <= pieces@.len(),
            kept.len() == n,
            piece_views(pieces@) == all,
            forall|k: int| 0 <= k < n ==> kept[k] == all[k],
            piece_views(out@) == kept.take(i as int).map_values(|p: Seq<char>| strip_cr(p)),
        decreases n - i,
    {
        let p = &pieces[i];
        proof {
            assert(p@ == all[i as int]);
        }
        let line = if p.len() > 0 && p[p.len() - 1] == '\r' {
            sub_chars(p, 0, p.len() - 1)
        } else {
            sub_chars(p, 0, p.len())
        };
        proof {
            assert(line@ == strip_cr(p@)) by {
                if p@.len() > 0 && p@.last() == '\r' {
                    assert(p@.subrange(0, p@.len() - 1) =~= p@.drop_last());
                } else {
                    assert(p@.subrange(0, p@.len() as int) =~= p@);
                }
            }
        }
        let ghost before = piece_views(out@);
        out.push(line);
        proof {
            assert(piece_views(out@) =~= before.push(line@));
            assert(kept.take(i + 1).map_values(|p: Seq<char>| strip_cr(p)) =~= kept.take(
                i as int,
            ).map_values(|p: Seq<char>| strip_cr(p)).push(strip_cr(kept[i as int])));
        }
        i = i + 1;
    }
    proof {
        assert(kept.take(n as int) =~= kept);
    }
    out
}

// ---------------------------------------------------------------------
// Replacing and stripping
// ---------------------------------------------------------------------

/// `str::replace`: every leftmost, non-overlapping occurrence of `p` in `s`
/// replaced by `q` (for a non-empty `p`).
pub open spec fn replace_all(s: Seq<char>, p: Seq<char>, q: Seq<char>) -> Seq<char>
    decreases s.len(),
{
    if p.len() == 0 {
        s
    } else {
        match first_occurrence(s, p) {
            Some(i) => if 0 <= i && i + p.len() <= s.len() {
                s.take(i) + q + replace_all(s.skip(i + p.len()), p, q)
            } else {
                s
            },
            None => s,
        }
    }
}

/// Replaces every occurrence of `p` (not empty) in `s` by `q`.
pub fn replace_all_chars(s: &Vec<char>, p: &Vec<char>, q: &Vec<char>) -> (r: Vec<char>)
    requires
        p.len() > 0,
    ensures
        r@ == replace_all(s@, p@, q@),
{
    let mut out: Vec<char> = Vec::new();
    let mut pos: usize = 0;
    proof {
        assert(s@.skip(0) =~= s@);
    }
    loop
        invariant
            pos <= s.len(),
            p.len() > 0,
            out@ + replace_all(s@.skip(pos as int), p@, q@) == replace_all(s@, p@, q@),
        decreases s.len() - pos,
    {
        let rest = sub_chars(s, pos, s.len());
        proof {
            assert(rest@ =~= s@.skip(pos as int));
        }
        match find_seq(&rest, p) {
            None => {
                let ghost before = out@;
                let mut k: usize = 0;
                while k < rest.len()
                    invariant
                        k <= rest.len(),
                        out@ == before + rest@.take(k as int),
                    decreases rest.len() - k,
                {
                    out.push(rest[k]);
                    proof {
                        assert(rest@.take(k + 1) =~= rest@.take(k as int).push(rest@[k as int]));
                    }
                    k = k + 1;
                }
                proof {
                    assert(rest@.take(rest@.len() as int) =~= rest@);
                }
                return out;
            },
            Some(i) => {
                proof {
                    lemma_first_occurrence_occurs(rest@, p@);
                    assert(occurs_at(rest@, p@, i as int));
                }
                let ghost before = out@;
                let mut k: usize = 0;
                while k < i
                    invariant
                        k <= i,
                        i <= rest.len(),
                        out@ == before + rest@.take(k as int),
                    decreases i - k,
                {
                    out.push(rest[k]);
                    proof {
                        assert(rest@.take(k + 1) =~= rest@.take(k as int).push(rest@[k as int]));
                    }
                    k = k + 1;
                }
                let ghost mid = out@;
                let mut m: usize = 0;
                while m < q.len()
                    invariant
                        m <= q.len(),
                        out@ == mid + q@.take(m as int),
                    decreases q.len() - m,
                {
                    out.push(q[m]);
                    proof {
                        assert(q@.take(m + 1) =~= q@.take(m as int).push(q@[m as int]));
                    }
                    m = m + 1;
                }
                proof {
                    assert(q@.take(q@.len() as int) =~= q@);
                    assert(rest@.skip(i + p@.len()) =~= s@.skip(pos + i + p@.len()));
                    assert(out@ =~= before + (rest@.take(i as int) + q@));
                    assert(replace_all(rest@, p@, q@) == rest@.take(i as int) + q@ + replace_all(
                        rest@.skip(i + p@.len()),
                        p@,
                        q@,
                    ));
                    vstd::seq_lib::lemma_concat_associative(
                        before,
                        rest@.take(i as int) + q@,
                        replace_all(rest@.skip(i + p@.len()), p@, q@),
                    );
                }
                pos = pos + i + p.len();
            },
        }
    }
}

/// `str::trim_end_matches` with a string: `s` without any number of
/// trailing copies of `p` (for a non-empty `p`).
pub open spec fn strip_suffixes(s: Seq<char>, p: Seq<char>) -> Seq<char>
    decreases s.len(),
{
    if p.len() > 0 && ends_with(s, p) {
        strip_suffixes(s.take(s.len() - p.len()), p)
    } else {
        s
    }
}

/// Removes trailing copies of `p` (not empty) from `s`.
pub fn strip_suffixes_chars(s: &Vec<char>, p: &Vec<char>) -> (r: Vec<char>)
    requires
        p.len() > 0,
    ensures
        r@ == strip_suffixes(s@, p@),
{
    let mut end: usize = s.len();
    proof {
        assert(s@.take(end as int) =~= s@);
    }
    loop
        invariant
            end <= s.len(),
            p.len() > 0,
            strip_suffixes(s@.take(end as int), p@) == strip_suffixes(s@, p@),
        decreases end,
    {
        let cur = sub_chars(s, 0, end);
        proof {
            assert(cur@ =~= s@.take(end as int));
        }
        if !ends_with_chars(&cur, p) {
            return cur;
        }
        proof {
            assert(s@.take(end as int).take(end - p@.len()) =~= s@.take(end - p@.len()));
        }
        end = end - p.len();
    }
}

/// `str::split_whitespace`: the maximal runs of non-whitespace characters of
/// `s`, in order.
pub open spec fn words_of(s: Seq<char>) -> Seq<Seq<char>>
    decreases s.len(),
{
    let t = trim_start(s);
    let w = leading_word(t);
    if t.len() > 0 && 0 < w.len() <= t.len() <= s.len() {
        seq![w] + words_of(t.skip(w.len() as int))
    } else {
        Seq::<Seq<char>>::empty()
    }
}

proof fn lemma_trim_start_len(s: Seq<char>)
    ensures
        trim_start(s).len() <= s.len(),
        trim_start(s).len() > 0 ==> !is_whitespace(trim_start(s)[0]),
    decreases s.len(),
{
    if s.len() > 0 && is_whitespace(s[0]) {
        lemma_trim_start_len(s.drop_first());
    }
}

proof fn lemma_leading_word_len(s: Seq<char>)
    ensures
        leading_word(s).len() <= s.len(),
        s.len() > 0 && !is_whitespace(s[0]) ==> leading_word(s).len() > 0,
    decreases s.len(),
{
    if s.len() > 0 && !is_whitespace(s[0]) {
        lemma_leading_word_len(s.drop_first());
    }
}

/// The words of a text.
pub fn words(s: &Vec<char>) -> (r: Vec<Vec<char>>)
    ensures
        piece_views(r@) == words_of(s@),
{
    let mut out: Vec<Vec<char>> = Vec::new();
    let mut i: usize = 0;
    proof {
        assert(s@.skip(0) =~= s@);
        assert(piece_views(out@) =~= Seq::<Seq<char>>::empty());
    }
    while i < s.len()
        invariant
            i <= s.len(),
            piece_views(out@) + words_of(s@.skip(i as int)) == words_of(s@),
        decreases s.len() - i,
    {
        let mut a = i;
        while a < s.len() && char_is_whitespace(s[a])
            invariant
                i <= a <= s.len(),
                forall|j: int| i <= j < a ==> is_whitespace(s@[j]),
            decreases s.len() - a,
        {
            a = a + 1;
        }
        let ghost rest = s@.skip(i as int);
        proof {
            lemma_trim_start_skip(rest, a - i);
            assert(rest.skip(a - i) =~= s@.skip(a as int));
        }
        if a == s.len() {
            proof {
                assert(s@.skip(a as int).len() == 0);
                assert(trim_start(s@.skip(a as int)) == s@.skip(a as int));
                assert(words_of(rest) =~= Seq::<Seq<char>>::empty());
                assert(piece_views(out@) + words_of(rest) =~= piece_views(out@));
            }
            return out;
        }
        let mut b = a;
        while b < s.len() && !char_is_whitespace(s[b])
            invariant
                a <= b <= s.len(),
                forall|m: int| a <= m < b ==> !is_whitespace(s@[m]),
            decreases s.len() - b,
        {
            b = b + 1;
        }
        let w = sub_chars(s, a, b);
        proof {
            let t = s@.skip(a as int);
            assert(trim_start(t) == t);
            assert(trim_start(rest) == t);
            lemma_leading_word_run(t, b - a);
            assert(t.take(b - a) =~= w@);
            lemma_trim_start_len(rest);
            lemma_leading_word_len(t);
            assert(t.skip(b - a) =~= s@.skip(b as int));
            assert(words_of(rest) == seq![w@] + words_of(s@.skip(b as int)));
        }
        let ghost before = piece_views(out@);
        out.push(w);
        proof {
            assert(piece_views(out@) =~= before.push(w@));
            assert(before + (seq![w@] + words_of(s@.skip(b as int))) =~= before.push(w@) + words_of(
                s@.skip(b as int),
            ));
        }
        i = b;
    }
    proof {
        assert(s@.skip(i as int).len() == 0);
        assert(words_of(s@.skip(i as int)) =~= Seq::<Seq<char>>::empty());
        assert(piece_views(out@) + Seq::<Seq<char>>::empty() =~= piece_views(out@));
    }
    out
}

} // verus!
