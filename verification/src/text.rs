//! Character-level text operations with their specifications.
//!
//! Strings are viewed as sequences of Unicode scalar values (`Seq<char>`).
//! Every operation here works on `Vec<char>` or `&str` and states its result
//! over the spec functions defined in this module.
use vstd::prelude::*;
use vstd::utf8::{encode_scalar, encode_utf8};

use crate::scan::concat_chars;

verus! {

// ---------------------------------------------------------------------------
// Specifications
// ---------------------------------------------------------------------------
/// Unicode `White_Space`, as `char::is_whitespace` defines it.
pub open spec fn is_ws(c: char) -> bool {
    let u = c as u32;
    ||| 0x9 <= u <= 0xd
    ||| u == 0x20
    ||| u == 0x85
    ||| u == 0xa0
    ||| u == 0x1680
    ||| 0x2000 <= u <= 0x200a
    ||| u == 0x2028
    ||| u == 0x2029
    ||| u == 0x202f
    ||| u == 0x205f
    ||| u == 0x3000
}

/// Number of whitespace characters at the start of `s`.
pub open spec fn leading_ws(s: Seq<char>) -> nat
    decreases s.len(),
{
    if s.len() > 0 && is_ws(s[0]) {
        1 + leading_ws(s.drop_first())
    } else {
        0
    }
}

/// Number of whitespace characters at the end of `s`.
pub open spec fn trailing_ws(s: Seq<char>) -> nat
    decreases s.len(),
{
    if s.len() > 0 && is_ws(s.last()) {
        1 + trailing_ws(s.drop_last())
    } else {
        0
    }
}

/// `s` without its leading whitespace (`str::trim_start`).
pub open spec fn trim_start(s: Seq<char>) -> Seq<char> {
    s.skip(leading_ws(s) as int)
}

/// `s` without its trailing whitespace (`str::trim_end`).
pub open spec fn trim_end(s: Seq<char>) -> Seq<char> {
    s.take(s.len() - trailing_ws(s))
}

/// `s` without leading and trailing whitespace (`str::trim`).
pub open spec fn trim(s: Seq<char>) -> Seq<char> {
    trim_end(trim_start(s))
}

/// `pat` occurs in `s` starting at index `i`.
pub open spec fn occurs_at(s: Seq<char>, pat: Seq<char>, i: int) -> bool {
    0 <= i && i + pat.len() <= s.len() && s.subrange(i, i + pat.len()) == pat
}

/// `s` from index `k` on, with each occurrence of the non-empty `from`
/// found scanning left to right replaced by `to`.
pub open spec fn replace_from(s: Seq<char>, from: Seq<char>, to: Seq<char>, k: int) -> Seq<char>
    decreases s.len() - k,
{
    if k < 0 || k >= s.len() || from.len() == 0 {
        Seq::empty()
    } else if occurs_at(s, from, k) {
        to + replace_from(s, from, to, k + from.len())
    } else {
        seq![s[k]] + replace_from(s, from, to, k + 1)
    }
}

/// `to` before, between and after the characters of `s`.
pub open spec fn interleave(s: Seq<char>, to: Seq<char>) -> Seq<char>
    decreases s.len(),
{
    if s.len() == 0 {
        to
    } else {
        to + seq![s[0]] + interleave(s.drop_first(), to)
    }
}

/// `str::replace`: every non-overlapping occurrence of `from`, left to
/// right, replaced by `to`; an empty `from` puts `to` around every character.
pub open spec fn replace_str(s: Seq<char>, from: Seq<char>, to: Seq<char>) -> Seq<char> {
    if from.len() == 0 {
        interleave(s, to)
    } else {
        replace_from(s, from, to, 0)
    }
}

/// Replacing a text by itself from index `k` on gives the rest of `s`.
proof fn lemma_replace_from_identity(s: Seq<char>, f: Seq<char>, k: int)
    requires
        f.len() > 0,
        0 <= k <= s.len(),
    ensures
        replace_from(s, f, f, k) == s.skip(k),
    decreases s.len() - k,
{
    if k < s.len() {
        if occurs_at(s, f, k) {
            lemma_replace_from_identity(s, f, k + f.len());
            assert(s.skip(k) =~= f + s.skip(k + f.len()));
        } else {
            lemma_replace_from_identity(s, f, k + 1);
            assert(s.skip(k) =~= seq![s[k]] + s.skip(k + 1));
        }
    } else {
        assert(s.skip(k) =~= Seq::<char>::empty());
    }
}

/// Without an occurrence of `f` from index `k` on, replacing it leaves the
/// rest of `s` as it is.
proof fn lemma_replace_from_absent(s: Seq<char>, f: Seq<char>, to: Seq<char>, k: int)
    requires
        f.len() > 0,
        0 <= k <= s.len(),
        forall|j: int| k <= j ==> !#[trigger] occurs_at(s, f, j),
    ensures
        replace_from(s, f, to, k) == s.skip(k),
    decreases s.len() - k,
{
    if k < s.len() {
        lemma_replace_from_absent(s, f, to, k + 1);
        assert(s.skip(k) =~= seq![s[k]] + s.skip(k + 1));
    } else {
        assert(s.skip(k) =~= Seq::<char>::empty());
    }
}

/// Law: replacing a non-empty text by itself changes nothing.
pub proof fn law_replace_identity(s: Seq<char>, f: Seq<char>)
    requires
        f.len() > 0,
    ensures
        replace_str(s, f, f) == s,
{
    lemma_replace_from_identity(s, f, 0);
    assert(s.skip(0) =~= s);
}

/// Law: replacing a non-empty text that does not occur changes nothing.
pub proof fn law_replace_absent(s: Seq<char>, f: Seq<char>, to: Seq<char>)
    requires
        f.len() > 0,
        forall|j: int| !#[trigger] occurs_at(s, f, j),
    ensures
        replace_str(s, f, to) == s,
{
    lemma_replace_from_absent(s, f, to, 0);
    assert(s.skip(0) =~= s);
}

/// The first index at or after `k` where `pat` occurs in `s`.
pub open spec fn find_from(s: Seq<char>, pat: Seq<char>, k: int) -> Option<int>
    decreases s.len() + 1 - k,
{
    if k < 0 || k > s.len() || k + pat.len() > s.len() {
        None
    } else if occurs_at(s, pat, k) {
        Some(k)
    } else {
        find_from(s, pat, k + 1)
    }
}

/// The first index where `pat` occurs in `s` (`str::find`, counted in chars).
pub open spec fn find(s: Seq<char>, pat: Seq<char>) -> Option<int> {
    find_from(s, pat, 0)
}

/// `pat` occurs somewhere in `s` (`str::contains`).
pub open spec fn contains(s: Seq<char>, pat: Seq<char>) -> bool {
    find(s, pat) is Some
}

/// The first index of the character `c` in `s`.
pub open spec fn find_char(s: Seq<char>, c: char) -> Option<int> {
    find(s, seq![c])
}

/// `s` split at every occurrence of `sep` (`str::split` with a char).
pub open spec fn split(s: Seq<char>, sep: char) -> Seq<Seq<char>>
    decreases s.len(),
{
    match find_char(s, sep) {
        Some(i) => if 0 <= i < s.len() {
            seq![s.take(i)] + split(s.skip(i + 1), sep)
        } else {
            seq![s]
        },
        None => seq![s],
    }
}

/// ASCII lower-casing of one character (`char::to_ascii_lowercase`).
pub open spec fn ascii_lower(c: char) -> char {
    if 'A' <= c <= 'Z' {
        ((c as u32) + 32) as char
    } else {
        c
    }
}

/// Every character is ASCII.
pub open spec fn is_ascii_text(s: Seq<char>) -> bool {
    forall|i: int| 0 <= i < s.len() ==> (#[trigger] s[i] as u32) < 128
}

/// ASCII lower-casing of a string (`str::to_ascii_lowercase`).
pub open spec fn ascii_lowercase(s: Seq<char>) -> Seq<char> {
    s.map_values(|c: char| ascii_lower(c))
}

/// `str::eq_ignore_ascii_case`.
pub open spec fn eq_ignore_ascii_case(a: Seq<char>, b: Seq<char>) -> bool {
    a.len() == b.len() && forall|i: int| 0 <= i < a.len() ==> ascii_lower(a[i]) == ascii_lower(b[i])
}

/// ASCII decimal digit.
pub open spec fn is_digit(c: char) -> bool {
    '0' <= c <= '9'
}

/// The value of a decimal digit character.
pub open spec fn digit_value(c: char) -> int {
    (c as u32) - ('0' as u32)
}

/// The value of a string of decimal digits.
pub open spec fn digits_value(d: Seq<char>) -> int
    decreases d.len(),
{
    if d.len() == 0 {
        0
    } else {
        digits_value(d.drop_last()) * 10 + digit_value(d.last())
    }
}

/// The digits of a `u32` literal, after an optional leading `+`.
pub open spec fn u32_digits(s: Seq<char>) -> Seq<char> {
    if s.len() > 0 && s[0] == '+' {
        s.drop_first()
    } else {
        s
    }
}

/// `str::parse::<u32>`: an optional `+`, then one or more decimal digits whose
/// value fits in a `u32`.
pub open spec fn parse_u32(s: Seq<char>) -> Option<u32> {
    let d = u32_digits(s);
    if d.len() > 0 && (forall|i: int| 0 <= i < d.len() ==> is_digit(d[i])) && digits_value(d)
        <= u32::MAX {
        Some(digits_value(d) as u32)
    } else {
        None
    }
}

/// `s` with every `from` replaced by `to` (`str::replace` with chars).
pub open spec fn replace_char(s: Seq<char>, from: char, to: char) -> Seq<char> {
    s.map_values(|c: char| if c == from { to } else { c })
}

/// `s` without any number of leading `c` (`str::trim_start_matches` with a char).
pub open spec fn trim_start_char(s: Seq<char>, c: char) -> Seq<char>
    decreases s.len(),
{
    if s.len() > 0 && s[0] == c {
        trim_start_char(s.drop_first(), c)
    } else {
        s
    }
}

/// `s` without any number of trailing `c`.
pub open spec fn trim_end_char(s: Seq<char>, c: char) -> Seq<char>
    decreases s.len(),
{
    if s.len() > 0 && s.last() == c {
        trim_end_char(s.drop_last(), c)
    } else {
        s
    }
}

/// `str::trim_matches` with a char.
pub open spec fn trim_char(s: Seq<char>, c: char) -> Seq<char> {
    trim_end_char(trim_start_char(s, c), c)
}

/// The views of a sequence of strings.
pub open spec fn views(v: Seq<String>) -> Seq<Seq<char>> {
    v.map_values(|s: String| s@)
}

/// The number of bytes of the UTF-8 encoding of `s` (`str::len`).
pub open spec fn byte_len(s: Seq<char>) -> nat {
    encode_utf8(s).len()
}

/// The decimal digit character of a number below ten.
pub open spec fn digit_char(d: int) -> char {
    ((d + 48) as u32) as char
}

/// The decimal representation of a number, without leading zeros.
pub open spec fn decimal(n: nat) -> Seq<char>
    decreases n,
{
    if n < 10 {
        seq![digit_char(n as int)]
    } else {
        decimal(n / 10).push(digit_char((n % 10) as int))
    }
}

/// A number's decimal digits padded with leading zeros to `width` (`{:0w}`).
pub open spec fn zero_padded(n: nat, width: nat) -> Seq<char> {
    let d = decimal(n);
    if d.len() < width {
        Seq::new((width - d.len()) as nat, |i: int| '0') + d
    } else {
        d
    }
}

/// The views of a sequence of string slices.
pub open spec fn str_views(v: Seq<&str>) -> Seq<Seq<char>> {
    v.map_values(|s: &str| s@)
}

/// What `str::to_lowercase` gives for a string (full Unicode lower-casing).
pub uninterp spec fn lowercase(s: Seq<char>) -> Seq<char>;

/// The views of a sequence of character vectors.
pub open spec fn vec_views(v: Seq<Vec<char>>) -> Seq<Seq<char>> {
    v.map_values(|s: Vec<char>| s@)
}

// ---------------------------------------------------------------------------
// Lemmas
// ---------------------------------------------------------------------------
/// A found index is an occurrence, and none comes earlier.
pub proof fn lemma_find_from_props(s: Seq<char>, pat: Seq<char>, k: int)
    requires
        0 <= k,
    ensures
        find_from(s, pat, k) matches Some(i) ==> k <= i && occurs_at(s, pat, i) && (forall|j: int|
            k <= j < i ==> !occurs_at(s, pat, j)),
        find_from(s, pat, k) is None ==> forall|j: int| k <= j ==> !occurs_at(s, pat, j),
    decreases s.len() + 1 - k,
{
    if k > s.len() || k + pat.len() > s.len() {
    } else if occurs_at(s, pat, k) {
    } else {
        lemma_find_from_props(s, pat, k + 1);
    }
}

/// A match found by `find` is an occurrence that fits in the string, and no
/// earlier index matches.
pub proof fn lemma_found(s: Seq<char>, pat: Seq<char>, i: int)
    requires
        find(s, pat) == Some(i),
    ensures
        0 <= i,
        i + pat.len() <= s.len(),
        occurs_at(s, pat, i),
        forall|j: int| 0 <= j < i ==> !occurs_at(s, pat, j),
{
    lemma_find_from_props(s, pat, 0);
}

/// Encoding a string with one more character appends that character's bytes.
pub proof fn lemma_encode_push(s: Seq<char>, c: char)
    ensures
        encode_utf8(s.push(c)) == encode_utf8(s) + encode_scalar(c as u32),
    decreases s.len(),
{
    if s.len() == 0 {
        assert(s.push(c).drop_first() =~= Seq::<char>::empty());
        assert(encode_utf8(Seq::<char>::empty()) =~= Seq::<u8>::empty());
        assert(encode_scalar(c as u32) + Seq::<u8>::empty() =~= encode_scalar(c as u32));
    } else {
        assert(s.push(c).drop_first() =~= s.drop_first().push(c));
        lemma_encode_push(s.drop_first(), c);
        assert(encode_utf8(s.push(c)) =~= encode_utf8(s) + encode_scalar(c as u32));
    }
}

/// A prefix never has more bytes than the whole string.
pub proof fn lemma_byte_len_prefix_mono(s: Seq<char>, i: int)
    requires
        0 <= i <= s.len(),
    ensures
        byte_len(s.take(i)) <= byte_len(s),
    decreases s.len() - i,
{
    if i < s.len() {
        assert(s.take(i + 1) =~= s.take(i).push(s[i]));
        lemma_encode_push(s.take(i), s[i]);
        lemma_byte_len_prefix_mono(s, i + 1);
    } else {
        assert(s.take(i) =~= s);
    }
}

/// The leading-whitespace count stays within the string.
pub proof fn lemma_leading_ws_bound(s: Seq<char>)
    ensures
        leading_ws(s) <= s.len(),
        forall|i: int| 0 <= i < leading_ws(s) ==> is_ws(s[i]),
        leading_ws(s) < s.len() ==> !is_ws(s[leading_ws(s) as int]),
    decreases s.len(),
{
    if s.len() > 0 && is_ws(s[0]) {
        lemma_leading_ws_bound(s.drop_first());
        assert forall|i: int| 0 <= i < leading_ws(s) implies is_ws(s[i]) by {
            if i > 0 {
                assert(s[i] == s.drop_first()[i - 1]);
            }
        }
    }
}

/// The trailing-whitespace count stays within the string.
pub proof fn lemma_trailing_ws_bound(s: Seq<char>)
    ensures
        trailing_ws(s) <= s.len(),
        forall|i: int| s.len() - trailing_ws(s) <= i < s.len() ==> is_ws(s[i]),
        trailing_ws(s) < s.len() ==> !is_ws(s[s.len() - trailing_ws(s) - 1]),
    decreases s.len(),
{
    if s.len() > 0 && is_ws(s.last()) {
        lemma_trailing_ws_bound(s.drop_last());
        assert forall|i: int| s.len() - trailing_ws(s) <= i < s.len() implies is_ws(s[i]) by {
            if i < s.len() - 1 {
                assert(s[i] == s.drop_last()[i]);
            }
        }
    }
}

/// `digits_value` of a prefix grows by one digit at a time.
pub proof fn lemma_digits_value_push(d: Seq<char>, i: int)
    requires
        0 <= i < d.len(),
    ensures
        digits_value(d.take(i + 1)) == digits_value(d.take(i)) * 10 + digit_value(d[i]),
{
    assert(d.take(i + 1).drop_last() =~= d.take(i));
}

/// A longer digit string has at least the value of its prefix.
pub proof fn lemma_digits_value_nonneg(d: Seq<char>)
    requires
        forall|i: int| 0 <= i < d.len() ==> is_digit(d[i]),
    ensures
        digits_value(d) >= 0,
    decreases d.len(),
{
    if d.len() > 0 {
        lemma_digits_value_nonneg(d.drop_last());
    }
}

/// The value of a digit string is at least the value of any of its prefixes.
pub proof fn lemma_digits_value_mono(d: Seq<char>, i: int)
    requires
        0 <= i <= d.len(),
        forall|k: int| 0 <= k < d.len() ==> is_digit(d[k]),
    ensures
        digits_value(d.take(i)) <= digits_value(d),
    decreases d.len() - i,
{
    if i < d.len() {
        lemma_digits_value_push(d, i);
        lemma_digits_value_nonneg(d.take(i));
        lemma_digits_value_mono(d, i + 1);
    } else {
        assert(d.take(i) =~= d);
    }
}

/// A non-digit after the optional sign makes the parse fail.
pub proof fn lemma_parse_u32_nondigit(s: Seq<char>, j: int)
    requires
        0 <= j < u32_digits(s).len(),
        !is_digit(u32_digits(s)[j]),
    ensures
        parse_u32(s) is None,
{
}

/// A prefix of digits whose value exceeds `u32::MAX` makes the parse fail.
pub proof fn lemma_parse_u32_overflow(s: Seq<char>, j: int)
    requires
        0 <= j <= u32_digits(s).len(),
        digits_value(u32_digits(s).take(j)) > u32::MAX,
    ensures
        parse_u32(s) is None,
{
    let d = u32_digits(s);
    if forall|k: int| 0 <= k < d.len() ==> is_digit(d[k]) {
        lemma_digits_value_mono(d, j);
    }
}

// ---------------------------------------------------------------------------
// Trusted std operations without a vstd specification
// ---------------------------------------------------------------------------
/// `String::push`: appends one character.
#[verifier::external_body]
pub(crate) fn push_char(s: &mut String, c: char)
    ensures
        final(s)@ == old(s)@.push(c),
{
    s.push(c);
}

/// `str::to_lowercase`: the lowercase equivalent of a string, as a new
/// `String`. The result is named, not described: Unicode lower-casing is
/// defined by tables too long to state here. On ASCII text it is ASCII
/// lower-casing, the Unicode lowercase mapping of 'A' to 'Z' being 'a' to 'z'
/// and every other ASCII character mapping to itself.
#[verifier::external_body]
pub(crate) fn to_lowercase(s: &str) -> (r: String)
    ensures
        r@ == lowercase(s@),
        is_ascii_text(s@) ==> r@ == ascii_lowercase(s@),
{
    s.to_lowercase()
}

// ---------------------------------------------------------------------------
// Executable operations
// ---------------------------------------------------------------------------
/// The number of bytes that encode `c` in UTF-8 (`char::len_utf8`).
pub fn utf8_width(c: char) -> (r: usize)
    ensures
        r == encode_scalar(c as u32).len(),
        1 <= r <= 4,
{
    let u = c as u32;
    proof {
        vstd::utf8::char_is_scalar(c);
    }
    if u <= 0x7f {
        1
    } else if u <= 0x7ff {
        2
    } else if u <= 0xffff {
        3
    } else {
        4
    }
}

/// The byte length of the first `n` characters of `v`.
pub fn prefix_byte_len(v: &Vec<char>, n: usize) -> (r: usize)
    requires
        n <= v.len(),
        byte_len(v@.take(n as int)) <= usize::MAX,
    ensures
        r == byte_len(v@.take(n as int)),
{
    let mut total: usize = 0;
    let mut i: usize = 0;
    assert(v@.take(0) =~= Seq::<char>::empty());
    assert(encode_utf8(Seq::<char>::empty()) =~= Seq::<u8>::empty());
    while i < n
        invariant
            0 <= i <= n <= v.len(),
            byte_len(v@.take(n as int)) <= usize::MAX,
            total == byte_len(v@.take(i as int)),
        decreases n - i,
    {
        proof {
            assert(v@.take(i + 1) =~= v@.take(i as int).push(v@[i as int]));
            lemma_encode_push(v@.take(i as int), v@[i as int]);
            lemma_byte_len_prefix_mono(v@.take(n as int), i + 1);
            assert(v@.take(n as int).take(i + 1) =~= v@.take(i + 1));
        }
        total = total + utf8_width(v[i]);
        i = i + 1;
    }
    total
}

/// The byte length of the first `n` characters of `v`, in a type wide enough
/// for any length.
pub fn prefix_byte_len_wide(v: &Vec<char>, n: usize) -> (r: u128)
    requires
        n <= v.len(),
    ensures
        r == byte_len(v@.take(n as int)),
{
    let mut total: u128 = 0;
    let mut i: usize = 0;
    assert(v@.take(0) =~= Seq::<char>::empty());
    assert(encode_utf8(Seq::<char>::empty()) =~= Seq::<u8>::empty());
    while i < n
        invariant
            0 <= i <= n <= v.len(),
            total == byte_len(v@.take(i as int)),
            total <= 4 * i,
        decreases n - i,
    {
        proof {
            assert(v@.take(i + 1) =~= v@.take(i as int).push(v@[i as int]));
            lemma_encode_push(v@.take(i as int), v@[i as int]);
        }
        total = total + utf8_width(v[i]) as u128;
        i = i + 1;
    }
    total
}

/// The decimal representation of a number (`u64::to_string`).
pub fn u64_to_string(n: u64) -> (r: String)
    ensures
        r@ == decimal(n as nat),
    decreases n,
{
    if n < 10 {
        let mut s = String::new();
        let c = ((n as u8) + 48) as char;
        assert(c == digit_char(n as int));
        push_char(&mut s, c);
        assert(s@ =~= seq![c]);
        s
    } else {
        let mut s = u64_to_string(n / 10);
        let c = (((n % 10) as u8) + 48) as char;
        assert(c == digit_char((n % 10) as int));
        push_char(&mut s, c);
        s
    }
}

/// A number's digits padded with leading zeros to a width.
pub fn zero_padded_string(n: u64, width: usize) -> (r: String)
    ensures
        r@ == zero_padded(n as nat, width as nat),
{
    let digits = u64_to_string(n);
    let dv = chars_of(digits.as_str());
    if dv.len() < width {
        let mut s = String::new();
        let mut k: usize = 0;
        let pad = width - dv.len();
        while k < pad
            invariant
                0 <= k <= pad,
                s@ == Seq::new(k as nat, |i: int| '0'),
            decreases pad - k,
        {
            push_char(&mut s, '0');
            assert(s@ =~= Seq::new((k + 1) as nat, |i: int| '0'));
            k = k + 1;
        }
        push_str(&mut s, digits.as_str());
        s
    } else {
        digits
    }
}

/// The characters of a string.
pub fn chars_of(s: &str) -> (r: Vec<char>)
    ensures
        r@ == s@,
{
    broadcast use vstd::string::group_string_axioms;

    let mut r: Vec<char> = Vec::new();
    for c in it: s.chars()
        invariant
            r@ == it.seq().take(it.index() as int),
            it.seq() == s@,
    {
        r.push(c);
    }
    r
}

/// A string made of the characters `v[start..end]`.
pub fn string_of_range(v: &Vec<char>, start: usize, end: usize) -> (r: String)
    requires
        start <= end <= v.len(),
    ensures
        r@ == v@.subrange(start as int, end as int),
{
    let mut r = String::new();
    let mut i = start;
    while i < end
        invariant
            start <= i <= end <= v.len(),
            r@ == v@.subrange(start as int, i as int),
        decreases end - i,
    {
        push_char(&mut r, v[i]);
        assert(v@.subrange(start as int, i + 1) =~= v@.subrange(start as int, i as int).push(v@[i as int]));
        i = i + 1;
    }
    r
}

/// A string made of the characters of `v`.
pub fn string_of(v: &Vec<char>) -> (r: String)
    ensures
        r@ == v@,
{
    let r = string_of_range(v, 0, v.len());
    assert(v@.subrange(0, v@.len() as int) =~= v@);
    r
}

/// A string equal to `s`.
pub fn copy_str(s: &str) -> (r: String)
    ensures
        r@ == s@,
{
    let v = chars_of(s);
    string_of(&v)
}

/// Appends `s` to `out`.
pub fn push_str(out: &mut String, s: &str)
    ensures
        final(out)@ == old(out)@ + s@,
{
    let v = chars_of(s);
    let mut i: usize = 0;
    while i < v.len()
        invariant
            0 <= i <= v.len(),
            v@ == s@,
            out@ == old(out)@ + v@.take(i as int),
        decreases v.len() - i,
    {
        push_char(out, v[i]);
        assert(v@.take(i + 1) =~= v@.take(i as int).push(v@[i as int]));
        i = i + 1;
    }
    assert(v@.take(v.len() as int) =~= v@);
}

/// `v[start..end]` as a new vector.
pub fn sub_chars(v: &Vec<char>, start: usize, end: usize) -> (r: Vec<char>)
    requires
        start <= end <= v.len(),
    ensures
        r@ == v@.subrange(start as int, end as int),
{
    let mut r: Vec<char> = Vec::new();
    let mut i = start;
    while i < end
        invariant
            start <= i <= end <= v.len(),
            r@ == v@.subrange(start as int, i as int),
        decreases end - i,
    {
        r.push(v[i]);
        assert(v@.subrange(start as int, i + 1) =~= v@.subrange(start as int, i as int).push(v@[i as int]));
        i = i + 1;
    }
    r
}

/// Character equality of two vectors.
pub fn chars_eq(a: &Vec<char>, b: &Vec<char>) -> (r: bool)
    ensures
        r == (a@ == b@),
{
    if a.len() != b.len() {
        return false;
    }
    let mut i: usize = 0;
    while i < a.len()
        invariant
            a.len() == b.len(),
            0 <= i <= a.len(),
            forall|k: int| 0 <= k < i ==> a@[k] == b@[k],
        decreases a.len() - i,
    {
        if a[i] != b[i] {
            return false;
        }
        i = i + 1;
    }
    assert(a@ =~= b@);
    true
}

/// Character equality of two strings.
pub fn str_eq(a: &str, b: &str) -> (r: bool)
    ensures
        r == (a@ == b@),
{
    let av = chars_of(a);
    let bv = chars_of(b);
    chars_eq(&av, &bv)
}

/// `char::is_whitespace`.
pub fn is_ws_char(c: char) -> (r: bool)
    ensures
        r == is_ws(c),
{
    let u = c as u32;
    (0x9 <= u && u <= 0xd) || u == 0x20 || u == 0x85 || u == 0xa0 || u == 0x1680 || (0x2000 <= u
        && u <= 0x200a) || u == 0x2028 || u == 0x2029 || u == 0x202f || u == 0x205f || u == 0x3000
}

/// The bounds `(a, b)` such that `v[a..b]` is `v` trimmed.
pub fn trim_bounds(v: &Vec<char>) -> (r: (usize, usize))
    ensures
        r.0 <= r.1 <= v.len(),
        v@.subrange(r.0 as int, r.1 as int) == trim(v@),
{
    let mut a: usize = 0;
    proof {
        lemma_leading_ws_bound(v@);
    }
    while a < v.len() && is_ws_char(v[a])
        invariant
            0 <= a <= leading_ws(v@) <= v.len(),
            leading_ws(v@) < v.len() ==> !is_ws(v@[leading_ws(v@) as int]),
            forall|i: int| 0 <= i < leading_ws(v@) ==> is_ws(v@[i]),
        decreases v.len() - a,
    {
        a = a + 1;
    }
    assert(a == leading_ws(v@));
    let ghost t = v@.skip(a as int);
    proof {
        lemma_trailing_ws_bound(t);
    }
    let mut b: usize = v.len();
    while b > a && is_ws_char(v[b - 1])
        invariant
            a <= b <= v.len(),
            t == v@.skip(a as int),
            v.len() - b <= trailing_ws(t) <= t.len(),
            trailing_ws(t) < t.len() ==> !is_ws(t[t.len() - trailing_ws(t) - 1]),
            forall|i: int| t.len() - trailing_ws(t) <= i < t.len() ==> is_ws(t[i]),
        decreases b,
    {
        assert(v@[b - 1] == t[(b - 1 - a) as int]);
        b = b - 1;
    }
    if b > a {
        assert(v@[b - 1] == t[(b - 1 - a) as int]);
    }
    assert(v.len() - b == trailing_ws(t));
    assert(v@.subrange(a as int, b as int) =~= trim(v@));
    (a, b)
}

/// `str::trim` on a character vector.
pub fn trim_chars(v: &Vec<char>) -> (r: Vec<char>)
    ensures
        r@ == trim(v@),
{
    let (a, b) = trim_bounds(v);
    sub_chars(v, a, b)
}

/// Whether `pat` occurs in `v` at index `i`.
pub fn occurs_at_exec(v: &Vec<char>, pat: &Vec<char>, i: usize) -> (r: bool)
    ensures
        r == occurs_at(v@, pat@, i as int),
{
    if pat.len() > v.len() || i > v.len() - pat.len() {
        return false;
    }
    let mut k: usize = 0;
    while k < pat.len()
        invariant
            i + pat.len() <= v.len(),
            0 <= k <= pat.len(),
            forall|j: int| 0 <= j < k ==> v@[i + j] == pat@[j],
        decreases pat.len() - k,
    {
        if v[i + k] != pat[k] {
            assert(v@.subrange(i as int, i + pat.len())[k as int] != pat@[k as int]);
            return false;
        }
        k = k + 1;
    }
    assert(v@.subrange(i as int, i + pat.len()) =~= pat@);
    true
}

/// The first occurrence of `pat` in `v` at or after `from`.
pub fn find_from_exec(v: &Vec<char>, pat: &Vec<char>, from: usize) -> (r: Option<usize>)
    ensures
        match r {
            Some(i) => find_from(v@, pat@, from as int) == Some(i as int),
            None => find_from(v@, pat@, from as int) is None,
        },
{
    if pat.len() > v.len() {
        return None;
    }
    let last = v.len() - pat.len();
    let mut k = from;
    while k <= last
        invariant
            pat.len() <= v.len(),
            last == v.len() - pat.len(),
            from <= k,
            find_from(v@, pat@, from as int) == find_from(v@, pat@, k as int),
        decreases last - k,
    {
        if occurs_at_exec(v, pat, k) {
            return Some(k);
        }
        if k == last {
            assert(find_from(v@, pat@, k + 1) is None);
            return None;
        }
        k = k + 1;
    }
    None
}

/// `str::find` on character vectors.
pub fn find_exec(v: &Vec<char>, pat: &Vec<char>) -> (r: Option<usize>)
    ensures
        match r {
            Some(i) => find(v@, pat@) == Some(i as int),
            None => find(v@, pat@) is None,
        },
{
    find_from_exec(v, pat, 0)
}

/// The first index of `c` in `v`.
pub fn find_char_exec(v: &Vec<char>, c: char) -> (r: Option<usize>)
    ensures
        match r {
            Some(i) => find_char(v@, c) == Some(i as int),
            None => find_char(v@, c) is None,
        },
{
    let pat = vec![c];
    assert(pat@ =~= seq![c]);
    find_exec(v, &pat)
}

/// `str::contains` on strings.
pub fn str_contains(s: &str, pat: &str) -> (r: bool)
    ensures
        r == contains(s@, pat@),
{
    let v = chars_of(s);
    let p = chars_of(pat);
    find_exec(&v, &p).is_some()
}

/// `str::starts_with` on character vectors.
pub fn starts_with(v: &Vec<char>, pat: &Vec<char>) -> (r: bool)
    ensures
        r == pat@.is_prefix_of(v@),
{
    let r = occurs_at_exec(v, pat, 0);
    proof {
        if r {
            assert(pat@.is_prefix_of(v@)) by {
                assert forall|j: int| 0 <= j < pat@.len() implies pat@[j] == v@[j] by {
                    assert(v@.subrange(0, pat@.len() as int)[j] == v@[j]);
                }
            }
        } else if pat@.is_prefix_of(v@) {
            assert(v@.subrange(0, pat@.len() as int) =~= pat@);
        }
    }
    r
}

/// `str::starts_with` on strings.
pub fn str_starts_with(s: &str, pat: &str) -> (r: bool)
    ensures
        r == pat@.is_prefix_of(s@),
{
    let v = chars_of(s);
    let p = chars_of(pat);
    starts_with(&v, &p)
}

/// `str::replace` on strings.
pub fn replace_str_exec(s: &str, from: &str, to: &str) -> (r: String)
    ensures
        r@ == replace_str(s@, from@, to@),
{
    let v = chars_of(s);
    let f = chars_of(from);
    let t = chars_of(to);
    let mut out: Vec<char> = Vec::new();
    if f.len() == 0 {
        let mut k: usize = 0;
        assert(v@.skip(0) =~= v@);
        while k < v.len()
            invariant
                0 <= k <= v.len(),
                out@ + interleave(v@.skip(k as int), t@) == interleave(v@, t@),
            decreases v.len() - k,
        {
            assert(v@.skip(k as int).drop_first() =~= v@.skip(k + 1));
            assert(v@.skip(k as int)[0] == v@[k as int]);
            let ghost before = out@;
            out = concat_chars(&out, &t);
            out.push(v[k]);
            assert(out@ + interleave(v@.skip(k + 1), t@) =~= before + interleave(v@.skip(k as int), t@));
            k = k + 1;
        }
        out = concat_chars(&out, &t);
        assert(v@.skip(k as int).len() == 0);
        return string_of(&out);
    }
    let mut k: usize = 0;
    while k < v.len()
        invariant
            f@.len() > 0,
            0 <= k <= v.len(),
            out@ + replace_from(v@, f@, t@, k as int) == replace_from(v@, f@, t@, 0),
        decreases v.len() - k,
    {
        let ghost before = out@;
        if occurs_at_exec(&v, &f, k) {
            out = concat_chars(&out, &t);
            assert(out@ + replace_from(v@, f@, t@, k + f@.len()) =~= before + replace_from(v@, f@, t@, k as int));
            k = k + f.len();
        } else {
            out.push(v[k]);
            assert(out@ + replace_from(v@, f@, t@, k + 1) =~= before + replace_from(v@, f@, t@, k as int));
            k = k + 1;
        }
    }
    assert(out@ =~= replace_from(v@, f@, t@, 0));
    string_of(&out)
}

/// `str::ends_with` on strings.
pub fn str_ends_with(s: &str, pat: &str) -> (r: bool)
    ensures
        r == pat@.is_suffix_of(s@),
{
    let v = chars_of(s);
    let p = chars_of(pat);
    if p.len() > v.len() {
        return false;
    }
    let off: usize = v.len() - p.len();
    let mut i: usize = 0;
    while i < p.len()
        invariant
            v@ == s@,
            p@ == pat@,
            off + p.len() == v.len(),
            0 <= i <= p.len(),
            forall|k: int| 0 <= k < i ==> p@[k] == v@[off + k],
        decreases p.len() - i,
    {
        if p[i] != v[off + i] {
            proof {
                if p@.is_suffix_of(v@) {
                    assert(p@[i as int] == v@.subrange(off as int, v@.len() as int)[i as int]);
                }
            }
            return false;
        }
        i = i + 1;
    }
    assert(p@ =~= v@.subrange(off as int, v@.len() as int));
    true
}

/// `char::to_ascii_lowercase`.
pub fn to_ascii_lower(c: char) -> (r: char)
    ensures
        r == ascii_lower(c),
{
    if 'A' <= c && c <= 'Z' {
        let u: u8 = (c as u8) + 32;
        u as char
    } else {
        c
    }
}

/// `str::eq_ignore_ascii_case` on character vectors.
pub fn chars_eq_ignore_ascii_case(a: &Vec<char>, b: &Vec<char>) -> (r: bool)
    ensures
        r == eq_ignore_ascii_case(a@, b@),
{
    if a.len() != b.len() {
        return false;
    }
    let mut i: usize = 0;
    while i < a.len()
        invariant
            a.len() == b.len(),
            0 <= i <= a.len(),
            forall|k: int| 0 <= k < i ==> ascii_lower(a@[k]) == ascii_lower(b@[k]),
        decreases a.len() - i,
    {
        if to_ascii_lower(a[i]) != to_ascii_lower(b[i]) {
            return false;
        }
        i = i + 1;
    }
    true
}

/// `str::eq_ignore_ascii_case`.
pub fn str_eq_ignore_ascii_case(a: &str, b: &str) -> (r: bool)
    ensures
        r == eq_ignore_ascii_case(a@, b@),
{
    let av = chars_of(a);
    let bv = chars_of(b);
    chars_eq_ignore_ascii_case(&av, &bv)
}

/// `str::split` with a character separator.
pub fn split_chars(v: &Vec<char>, sep: char) -> (r: Vec<Vec<char>>)
    ensures
        vec_views(r@) == split(v@, sep),
{
    let mut r: Vec<Vec<char>> = Vec::new();
    let mut start: usize = 0;
    let ghost pat = seq![sep];
    assert(v@.skip(0) =~= v@);
    assert(vec_views(r@) =~= Seq::<Seq<char>>::empty());
    loop
        invariant
            0 <= start <= v.len(),
            pat == seq![sep],
            vec_views(r@) + split(v@.skip(start as int), sep) == split(v@, sep),
        decreases v.len() - start,
    {
        let rest = sub_chars(v, start, v.len());
        assert(rest@ =~= v@.skip(start as int));
        match find_char_exec(&rest, sep) {
            Some(i) => {
                proof {
                    lemma_find_from_props(rest@, pat, 0);
                }
                let piece = sub_chars(&rest, 0, i);
                assert(piece@ =~= rest@.take(i as int));
                assert(rest@.skip(i + 1) =~= v@.skip(start + i + 1));
                let ghost old_r = r@;
                r.push(piece);
                assert(vec_views(r@) =~= vec_views(old_r).push(piece@));
                assert(vec_views(r@) + split(v@.skip(start + i + 1), sep) =~= vec_views(old_r)
                    + split(v@.skip(start as int), sep));
                start = start + i + 1;
            },
            None => {
                let ghost old_r = r@;
                r.push(rest);
                assert(vec_views(r@) =~= vec_views(old_r).push(rest@));
                assert(vec_views(r@) =~= vec_views(old_r) + split(v@.skip(start as int), sep));
                return r;
            },
        }
    }
}

/// `str::parse::<u32>` on a character vector.
pub fn parse_u32_exec(v: &Vec<char>) -> (r: Option<u32>)
    ensures
        r == parse_u32(v@),
{
    let start: usize = if v.len() > 0 && v[0] == '+' {
        1
    } else {
        0
    };
    let ghost d = u32_digits(v@);
    assert(d =~= v@.skip(start as int));
    if start >= v.len() {
        return None;
    }
    let mut acc: u64 = 0;
    let mut i = start;
    while i < v.len()
        invariant
            start <= i <= v.len(),
            d == v@.skip(start as int),
            d == u32_digits(v@),
            forall|k: int| 0 <= k < i - start ==> is_digit(d[k]),
            acc == digits_value(d.take(i - start)),
            acc <= u32::MAX,
        decreases v.len() - i,
    {
        let c = v[i];
        if !('0' <= c && c <= '9') {
            assert(d[i - start] == c);
            proof {
                lemma_parse_u32_nondigit(v@, i - start);
            }
            return None;
        }
        proof {
            lemma_digits_value_push(d, i - start);
        }
        let dv = (c as u32 - '0' as u32) as u64;
        acc = acc * 10 + dv;
        i = i + 1;
        if acc > 0xffff_ffff {
            proof {
                lemma_parse_u32_overflow(v@, i - start);
            }
            return None;
        }
    }
    assert(d.take(d.len() as int) =~= d);
    Some(acc as u32)
}

/// `str::parse::<u32>` on a string.
pub fn parse_u32_str(s: &str) -> (r: Option<u32>)
    ensures
        r == parse_u32(s@),
{
    let v = chars_of(s);
    parse_u32_exec(&v)
}

/// `str::replace` of one character by another.
pub fn replace_char_exec(v: &Vec<char>, from: char, to: char) -> (r: Vec<char>)
    ensures
        r@ == replace_char(v@, from, to),
{
    let mut r: Vec<char> = Vec::new();
    let mut i: usize = 0;
    while i < v.len()
        invariant
            0 <= i <= v.len(),
            r@ == replace_char(v@.take(i as int), from, to),
        decreases v.len() - i,
    {
        let c = if v[i] == from {
            to
        } else {
            v[i]
        };
        r.push(c);
        assert(replace_char(v@.take(i + 1), from, to) =~= replace_char(v@.take(i as int), from, to).push(c));
        i = i + 1;
    }
    assert(v@.take(v.len() as int) =~= v@);
    r
}

/// `str::trim_matches` with a character.
pub fn trim_char_exec(v: &Vec<char>, c: char) -> (r: Vec<char>)
    ensures
        r@ == trim_char(v@, c),
{
    let mut a: usize = 0;
    assert(v@.skip(0) =~= v@);
    while a < v.len() && v[a] == c
        invariant
            0 <= a <= v.len(),
            trim_start_char(v@, c) == trim_start_char(v@.skip(a as int), c),
        decreases v.len() - a,
    {
        assert(v@.skip(a as int).drop_first() =~= v@.skip(a + 1));
        a = a + 1;
    }
    let ghost t = v@.skip(a as int);
    assert(trim_start_char(t, c) == t);
    let mut b: usize = v.len();
    while b > a && v[b - 1] == c
        invariant
            a <= b <= v.len(),
            t == v@.skip(a as int),
            trim_end_char(t, c) == trim_end_char(v@.subrange(a as int, b as int), c),
        decreases b,
    {
        assert(v@.subrange(a as int, b as int).drop_last() =~= v@.subrange(a as int, b - 1));
        b = b - 1;
    }
    assert(v@.subrange(a as int, b as int) =~= t.take(b - a));
    sub_chars(v, a, b)
}

/// `a` comes before `b` in code-point order.
pub open spec fn text_lt_from(a: Seq<char>, b: Seq<char>, k: int) -> bool
    decreases a.len() - k,
{
    if k < 0 || k >= a.len() {
        0 <= k < b.len()
    } else if k >= b.len() {
        false
    } else if a[k] != b[k] {
        (a[k] as u32) < (b[k] as u32)
    } else {
        text_lt_from(a, b, k + 1)
    }
}

/// No text comes before itself.
pub proof fn lemma_text_lt_irreflexive(a: Seq<char>, k: int)
    ensures
        !text_lt_from(a, a, k),
    decreases a.len() - k,
{
    if 0 <= k < a.len() {
        lemma_text_lt_irreflexive(a, k + 1);
    }
}

/// Code-point order on texts is transitive.
pub proof fn lemma_text_lt_transitive(a: Seq<char>, b: Seq<char>, c: Seq<char>, k: int)
    requires
        text_lt_from(a, b, k),
        text_lt_from(b, c, k),
    ensures
        text_lt_from(a, c, k),
    decreases a.len() - k,
{
    if 0 <= k < a.len() && k < b.len() && k < c.len() && a[k] == b[k] && b[k] == c[k] {
        lemma_text_lt_transitive(a, b, c, k + 1);
    }
}

} // verus!
