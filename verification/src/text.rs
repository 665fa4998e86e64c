//! String helpers shared by the contract: byte lengths, comparisons,
//! decimal rendering of integers and Unicode character classes.
use vstd::prelude::*;
use vstd::string::*;

verus! {

/// Unicode lowercase mapping that `str::to_lowercase` computes.
pub uninterp spec fn lowercase_chars(s: Seq<char>) -> Seq<char>;

/// Whether `char::is_alphanumeric` holds of a character.
pub uninterp spec fn alphanumeric_char(c: char) -> bool;

/// Whether a character has the Unicode White_Space property, which is what
/// `char::is_whitespace` tests: tab to carriage return, space, next line, no-break space,
/// Ogham space mark, the spaces U+2000 to U+200A, the line and paragraph separators, narrow
/// no-break space, medium mathematical space and ideographic space.
pub open spec fn whitespace_char(c: char) -> bool {
    let v = c as u32;
    ||| 0x09 <= v <= 0x0D
    ||| v == 0x20
    ||| v == 0x85
    ||| v == 0xA0
    ||| v == 0x1680
    ||| 0x2000 <= v <= 0x200A
    ||| v == 0x2028
    ||| v == 0x2029
    ||| v == 0x202F
    ||| v == 0x205F
    ||| v == 0x3000
}

/// `str::to_lowercase`: the lowercase mapping of every character.
/// Its result depends on the characters of `s` alone and is left as a name.
#[verifier::external_body]
pub(crate) fn to_lowercase(s: &str) -> (r: String)
    ensures
        r@ == lowercase_chars(s@),
{
    s.to_lowercase()
}

/// `char::is_alphanumeric`, the Unicode Alphabetic or Numeric property.
#[verifier::external_body]
pub(crate) fn is_alphanumeric(c: char) -> (r: bool)
    ensures
        r == alphanumeric_char(c),
{
    c.is_alphanumeric()
}

/// Whether a character is Unicode whitespace, as `char::is_whitespace` decides.
pub(crate) fn is_whitespace(c: char) -> (r: bool)
    ensures
        r == whitespace_char(c),
{
    let v = c as u32;
    (0x09 <= v && v <= 0x0D) || v == 0x20 || v == 0x85 || v == 0xA0 || v == 0x1680
        || (0x2000 <= v && v <= 0x200A) || v == 0x2028 || v == 0x2029 || v == 0x202F || v == 0x205F
        || v == 0x3000
}

/// `String::push`: appends one character.
#[verifier::external_body]
pub(crate) fn push_char(s: &mut String, c: char)
    ensures
        final(s)@ == old(s)@.push(c),
{
    s.push(c)
}

/// The number of bytes of the UTF-8 encoding of `s`, which is what `str::len` returns.
pub open spec fn byte_len(s: &str) -> nat {
    s.spec_bytes().len()
}

/// The byte length that `str::len` reports for a string with these characters.
pub open spec fn blen(s: Seq<char>) -> nat {
    (vstd::utf8::encode_utf8(s).len() as usize) as nat
}

/// Compares two string slices character by character.
pub fn str_eq(a: &str, b: &str) -> (r: bool)
    ensures
        r == (a@ == b@),
{
    let n = a.unicode_len();
    let m = b.unicode_len();
    if n != m {
        return false;
    }
    let mut i: usize = 0;
    while i < n
        invariant
            n == a@.len(),
            m == b@.len(),
            n == m,
            i <= n,
            forall|j: int| 0 <= j < i ==> a@[j] == b@[j],
        decreases n - i,
    {
        if a.get_char(i) != b.get_char(i) {
            assert(a@[i as int] != b@[i as int]);
            return false;
        }
        i = i + 1;
    }
    assert(a@ =~= b@);
    true
}

/// Whether `needle` occurs as a contiguous run of characters inside `hay`.
pub open spec fn contains_chars(hay: Seq<char>, needle: Seq<char>) -> bool {
    exists|k: int| 0 <= k && k + needle.len() <= hay.len() && #[trigger] hay.subrange(k, k + needle.len()) == needle
}

/// Whether `hay` ends with `suffix`.
pub open spec fn ends_with_chars(hay: Seq<char>, suffix: Seq<char>) -> bool {
    suffix.len() <= hay.len() && hay.subrange(hay.len() - suffix.len(), hay.len() as int) == suffix
}

/// Whether the characters of `hay` starting at `k` spell `needle`.
fn matches_at(hay: &str, needle: &str, k: usize) -> (r: bool)
    requires
        k + needle@.len() <= hay@.len(),
        hay@.len() <= usize::MAX,
    ensures
        r == (hay@.subrange(k as int, k + needle@.len()) == needle@),
{
    let m = needle.unicode_len();
    let mut i: usize = 0;
    while i < m
        invariant
            m == needle@.len(),
            k + m <= hay@.len(),
            hay@.len() <= usize::MAX,
            i <= m,
            forall|j: int| 0 <= j < i ==> hay@[k + j] == needle@[j],
        decreases m - i,
    {
        if hay.get_char(k + i) != needle.get_char(i) {
            assert(hay@.subrange(k as int, k + m)[i as int] != needle@[i as int]);
            return false;
        }
        i = i + 1;
    }
    assert(hay@.subrange(k as int, k + m) =~= needle@);
    true
}

/// `str::contains` for a pattern string.
pub fn str_contains(hay: &str, needle: &str) -> (r: bool)
    ensures
        r == contains_chars(hay@, needle@),
{
    let n = hay.unicode_len();
    let m = needle.unicode_len();
    if m > n {
        return false;
    }
    if m == 0 {
        assert(hay@.subrange(0int, 0int + needle@.len()) =~= needle@);
        return true;
    }
    let mut k: usize = 0;
    while k <= n - m
        invariant
            n == hay@.len(),
            m == needle@.len(),
            0 < m <= n,
            k <= n - m + 1,
            forall|j: int| 0 <= j < k ==> #[trigger] hay@.subrange(j, j + m) != needle@,
        decreases n - m + 1 - k,
    {
        if matches_at(hay, needle, k) {
            assert(hay@.subrange(k as int, k + needle@.len()) == needle@);
            return true;
        }
        k = k + 1;
    }
    assert forall|j: int| 0 <= j && j + m <= n implies #[trigger] hay@.subrange(j, j + m) != needle@ by {
        assert(j < k);
    }
    false
}

/// `str::ends_with` for a pattern string.
pub fn str_ends_with(hay: &str, suffix: &str) -> (r: bool)
    ensures
        r == ends_with_chars(hay@, suffix@),
{
    let n = hay.unicode_len();
    let m = suffix.unicode_len();
    if m > n {
        return false;
    }
    matches_at(hay, suffix, n - m)
}

/// The decimal digit character of a number below ten.
pub open spec fn digit_char(d: nat) -> char {
    ((d + 48) as u32) as char
}

/// The decimal representation of a natural number, as `u64::to_string` renders it.
pub open spec fn decimal_chars(n: nat) -> Seq<char>
    decreases n,
{
    if n < 10 {
        seq![digit_char(n)]
    } else {
        decimal_chars(n / 10).push(digit_char(n % 10))
    }
}

fn digit_to_char(d: u64) -> (c: char)
    requires
        d < 10,
    ensures
        c == digit_char(d as nat),
{
    let c: char = match d {
        0 => '0',
        1 => '1',
        2 => '2',
        3 => '3',
        4 => '4',
        5 => '5',
        6 => '6',
        7 => '7',
        8 => '8',
        _ => '9',
    };
    c
}

proof fn lemma_decimal_nonempty(n: nat)
    ensures
        decimal_chars(n).len() >= 1,
    decreases n,
{
    if n >= 10 {
        lemma_decimal_nonempty(n / 10);
    }
}

/// Renders a `u128` in decimal, as `to_string` does.
pub fn u128_to_string(n: u128) -> (r: String)
    ensures
        r@ == decimal_chars(n as nat),
    decreases n,
{
    if n < 10 {
        let mut s = String::new();
        push_char(&mut s, digit_to_char(n as u64));
        assert(s@ =~= decimal_chars(n as nat));
        s
    } else {
        let mut s = u128_to_string(n / 10);
        push_char(&mut s, digit_to_char((n % 10) as u64));
        s
    }
}

/// Renders a `u64` in decimal, as `to_string` does.
pub fn u64_to_string(n: u64) -> (r: String)
    ensures
        r@ == decimal_chars(n as nat),
{
    u128_to_string(n as u128)
}

/// Renders a `bool` as `to_string` does.
pub open spec fn bool_chars(b: bool) -> Seq<char> {
    if b {
        "true"@
    } else {
        "false"@
    }
}

/// Renders a `bool` as `to_string` does.
pub fn bool_to_string(b: bool) -> (r: String)
    ensures
        r@ == bool_chars(b),
{
    if b {
        String::from_str("true")
    } else {
        String::from_str("false")
    }
}

/// Joins two strings.
pub fn concat2(a: &str, b: &str) -> (r: String)
    ensures
        r@ == a@ + b@,
{
    let s = String::from_str(a);
    s.concat(b)
}

/// Joins three strings.
pub fn concat3(a: &str, b: &str, c: &str) -> (r: String)
    ensures
        r@ == a@ + b@ + c@,
{
    let s = String::from_str(a);
    let s = s.concat(b);
    s.concat(c)
}

/// Joins four strings.
pub fn concat4(a: &str, b: &str, c: &str, d: &str) -> (r: String)
    ensures
        r@ == a@ + b@ + c@ + d@,
{
    let s = String::from_str(a);
    let s = s.concat(b);
    let s = s.concat(c);
    s.concat(d)
}

/// Copies a list of strings element by element.
pub fn copy_strings(v: &Vec<String>) -> (r: Vec<String>)
    ensures
        r@ == v@,
{
    let mut r: Vec<String> = Vec::new();
    let mut i: usize = 0;
    while i < v.len()
        invariant
            i <= v.len(),
            r@ == v@.subrange(0, i as int),
        decreases v.len() - i,
    {
        r.push(v[i].clone());
        assert(r@ =~= v@.subrange(0, i + 1));
        i = i + 1;
    }
    assert(v@.subrange(0, v.len() as int) =~= v@);
    r
}

} // verus!
