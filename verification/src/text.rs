//! Characters, decimal numbers and the few string operations the screens need.

use vstd::prelude::*;
use vstd::utf8::encode_utf8;
use crate::lists::{first_index, lemma_first_index};

verus! {

/// An ASCII decimal digit.
pub open spec fn is_digit(c: char) -> bool {
    '0' <= c && c <= '9'
}

/// Every character of `s` is an ASCII decimal digit.
pub open spec fn all_digits(s: Seq<char>) -> bool {
    forall|i: int| 0 <= i < s.len() ==> is_digit(#[trigger] s[i])
}

/// The value of a digit character.
pub open spec fn digit_value(c: char) -> nat {
    (c as nat - '0' as nat) as nat
}

/// The number that a string of decimal digits spells (most significant first).
pub open spec fn digits_value(s: Seq<char>) -> nat
    decreases s.len(),
{
    if s.len() == 0 {
        0
    } else {
        digits_value(s.drop_last()) * 10 + digit_value(s.last())
    }
}

/// The digits of an unsigned number as `FromStr` reads them: an optional `+`
/// and at least one digit.
pub open spec fn unsigned_body(s: Seq<char>) -> Seq<char> {
    if s.len() > 0 && s[0] == '+' {
        s.drop_first()
    } else {
        s
    }
}

/// What `str::parse::<u32>` gives back for `s`.
pub open spec fn parse_u32_spec(s: Seq<char>) -> Option<u32> {
    let body = unsigned_body(s);
    if body.len() > 0 && all_digits(body) && digits_value(body) <= u32::MAX {
        Some(digits_value(body) as u32)
    } else {
        None
    }
}

/// What `str::parse::<i32>` gives back for `s`: an optional sign, then at
/// least one digit, and a value that fits in `i32`.
pub open spec fn parse_i32_spec(s: Seq<char>) -> Option<i32> {
    if s.len() > 0 && s[0] == '-' {
        let body = s.drop_first();
        if body.len() > 0 && all_digits(body) && digits_value(body) <= 0x8000_0000 {
            Some((0 - digits_value(body)) as i32)
        } else {
            None
        }
    } else {
        let body = unsigned_body(s);
        if body.len() > 0 && all_digits(body) && digits_value(body) <= i32::MAX {
            Some(digits_value(body) as i32)
        } else {
            None
        }
    }
}

/// The character of a digit value.
pub open spec fn digit_char(d: nat) -> char {
    ('0' as nat + d) as char
}

/// The decimal spelling of a natural number, without leading zeros.
pub open spec fn decimal_nat(n: nat) -> Seq<char>
    decreases n,
{
    if n < 10 {
        seq![digit_char(n)]
    } else {
        decimal_nat(n / 10).push(digit_char(n % 10))
    }
}

/// The decimal spelling of `n` is a non-empty run of digits that reads back
/// as `n`, with one digit per power of ten.
pub proof fn lemma_decimal_nat(n: nat)
    ensures
        decimal_nat(n).len() > 0,
        all_digits(decimal_nat(n)),
        digits_value(decimal_nat(n)) == n,
        n < 10 ==> decimal_nat(n).len() == 1,
        10 <= n < 100 ==> decimal_nat(n).len() == 2,
        100 <= n < 1000 ==> decimal_nat(n).len() == 3,
        1000 <= n < 10000 ==> decimal_nat(n).len() == 4,
        n >= 10000 ==> decimal_nat(n).len() >= 5,
    decreases n,
{
    let s = decimal_nat(n);
    if n < 10 {
        assert(s.drop_last() =~= Seq::<char>::empty());
        assert(s.last() == digit_char(n));
        assert(digit_value(digit_char(n)) == n);
        assert(digits_value(s) == digits_value(s.drop_last()) * 10 + digit_value(s.last()));
    } else {
        lemma_decimal_nat(n / 10);
        let t = decimal_nat(n / 10);
        assert(s.drop_last() =~= t);
        assert(s.last() == digit_char(n % 10));
        assert(digit_value(digit_char(n % 10)) == n % 10);
        assert(n / 10 * 10 + n % 10 == n);
        assert(digits_value(s) == digits_value(t) * 10 + digit_value(s.last()));
        assert forall|i: int| 0 <= i < s.len() implies is_digit(#[trigger] s[i]) by {
            if i < t.len() {
                assert(s[i] == t[i]);
            }
        }
    }
}

/// Leading zeros do not change the value of a run of digits.
pub proof fn lemma_leading_zeros(z: Seq<char>, s: Seq<char>)
    requires
        forall|i: int| 0 <= i < z.len() ==> #[trigger] z[i] == '0',
    ensures
        digits_value(z + s) == digits_value(s),
    decreases s.len(),
{
    if s.len() == 0 {
        lemma_zeros_value(z);
        assert(z + s =~= z);
    } else {
        assert((z + s).drop_last() =~= z + s.drop_last());
        assert((z + s).last() == s.last());
        lemma_leading_zeros(z, s.drop_last());
    }
}

/// A run of zeros is worth zero.
pub proof fn lemma_zeros_value(z: Seq<char>)
    requires
        forall|i: int| 0 <= i < z.len() ==> #[trigger] z[i] == '0',
    ensures
        digits_value(z) == 0,
    decreases z.len(),
{
    if z.len() > 0 {
        assert(z.last() == '0');
        lemma_zeros_value(z.drop_last());
    }
}

/// A run of digits reads as an `i32` or `u32` of its value, when the value
/// fits.
pub proof fn lemma_parse_digits(s: Seq<char>)
    requires
        s.len() > 0,
        all_digits(s),
    ensures
        digits_value(s) <= i32::MAX ==> parse_i32_spec(s) == Some(digits_value(s) as i32),
        digits_value(s) <= u32::MAX ==> parse_u32_spec(s) == Some(digits_value(s) as u32),
{
    assert(is_digit(s[0]));
    assert(unsigned_body(s) == s);
}

/// The decimal spelling of an integer, as `Display` writes it for the
/// primitive integer types.
pub open spec fn decimal_int(n: int) -> Seq<char> {
    if n < 0 {
        seq!['-'] + decimal_nat((0 - n) as nat)
    } else {
        decimal_nat(n as nat)
    }
}

/// Appends the decimal spelling of `m` to `s`.
fn push_decimal(s: &mut String, m: u64)
    ensures
        final(s)@ == old(s)@ + decimal_nat(m as nat),
    decreases m,
{
    if m >= 10 {
        push_decimal(s, m / 10);
    }
    let digit: u8 = (m % 10) as u8;
    let c: char = (48u8 + digit) as char;
    assert(c == digit_char((m % 10) as nat));
    let ghost before = s@;
    push_char(s, c);
    assert(s@ =~= old(s)@ + decimal_nat(m as nat)) by {
        if m >= 10 {
            assert(decimal_nat(m as nat) == decimal_nat((m / 10) as nat).push(c));
        } else {
            assert(decimal_nat(m as nat) == seq![c]);
        }
    }
}

/// Writes `n` in decimal, as `ToString` on `i64` does: a `-` for a negative
/// number, then its digits without leading zeros.
pub fn decimal_string(n: i64) -> (s: String)
    ensures
        s@ == decimal_int(n as int),
{
    let mut s = String::new();
    if n < 0 {
        push_char(&mut s, '-');
        let magnitude: u64 = (-(n + 1)) as u64 + 1;
        push_decimal(&mut s, magnitude);
        assert(s@ =~= seq!['-'] + decimal_nat((0 - n) as nat));
    } else {
        push_decimal(&mut s, n as u64);
        assert(s@ =~= decimal_nat(n as nat));
    }
    s
}

/// Appends one character to a string (`String::push`).
#[verifier::external_body]
pub fn push_char(s: &mut String, c: char)
    ensures
        final(s)@ == old(s)@.push(c),
{
    s.push(c)
}

/// The characters of `s`, one per element.
pub fn chars_of(s: &str) -> (v: Vec<char>)
    ensures
        v@ == s@,
{
    let n = s.unicode_len();
    let mut v: Vec<char> = Vec::new();
    let mut i: usize = 0;
    while i < n
        invariant
            n == s@.len(),
            i <= n,
            v@ == s@.take(i as int),
        decreases n - i,
    {
        let c = s.get_char(i);
        v.push(c);
        i = i + 1;
        assert(v@ =~= s@.take(i as int));
    }
    assert(v@ =~= s@);
    v
}

/// A string made of the characters `v[from..to]`.
pub fn string_of(v: &Vec<char>, from: usize, to: usize) -> (s: String)
    requires
        from <= to <= v@.len(),
    ensures
        s@ == v@.subrange(from as int, to as int),
{
    let mut s = String::new();
    let mut i = from;
    while i < to
        invariant
            from <= i <= to <= v@.len(),
            s@ == v@.subrange(from as int, i as int),
        decreases to - i,
    {
        push_char(&mut s, v[i]);
        i = i + 1;
        assert(s@ =~= v@.subrange(from as int, i as int));
    }
    s
}

/// Whether `v[from..to]` is a non-empty run of digits, and its value capped
/// at `cap`.
pub(crate) fn digit_run(v: &Vec<char>, from: usize, to: usize, cap: u64) -> (res: (bool, u64))
    requires
        from <= to <= v@.len(),
        0 < cap <= 0x1_0000_0000,
    ensures
        res.0 == (from < to && all_digits(v@.subrange(from as int, to as int))),
        res.0 ==> res.1 == (if digits_value(v@.subrange(from as int, to as int)) < cap {
            digits_value(v@.subrange(from as int, to as int))
        } else {
            cap as nat
        }),
{
    if from == to {
        return (false, 0);
    }
    let ghost whole = v@.subrange(from as int, to as int);
    let mut acc: u64 = 0;
    let mut i = from;
    while i < to
        invariant
            from <= i <= to <= v@.len(),
            0 < cap <= 0x1_0000_0000,
            whole == v@.subrange(from as int, to as int),
            all_digits(v@.subrange(from as int, i as int)),
            acc == (if digits_value(v@.subrange(from as int, i as int)) < cap {
                digits_value(v@.subrange(from as int, i as int))
            } else {
                cap as nat
            }),
        decreases to - i,
    {
        let c = v[i];
        if !('0' <= c && c <= '9') {
            assert(whole[i - from] == c);
            return (false, 0);
        }
        let d = (c as u64) - ('0' as u64);
        let ghost prev = v@.subrange(from as int, i as int);
        let ghost next = v@.subrange(from as int, i + 1);
        assert(next.drop_last() =~= prev);
        assert(digits_value(next) == digits_value(prev) * 10 + d);
        let t = acc * 10 + d;
        acc = if t < cap {
            t
        } else {
            cap
        };
        i = i + 1;
        assert forall|j: int| 0 <= j < next.len() implies is_digit(#[trigger] next[j]) by {
            if j < prev.len() {
                assert(next[j] == prev[j]);
            }
        }
    }
    (true, acc)
}

/// Reads `v[from..to]` as `str::parse::<u32>` does.
pub fn parse_u32_range(v: &Vec<char>, from: usize, to: usize) -> (res: Option<u32>)
    requires
        from <= to <= v@.len(),
    ensures
        res == parse_u32_spec(v@.subrange(from as int, to as int)),
{
    let ghost s = v@.subrange(from as int, to as int);
    let mut start = from;
    if from < to && v[from] == '+' {
        start = from + 1;
    }
    assert(unsigned_body(s) =~= v@.subrange(start as int, to as int));
    let (ok, value) = digit_run(v, start, to, 0x1_0000_0000);
    if ok && value < 0x1_0000_0000 {
        Some(value as u32)
    } else {
        None
    }
}

/// Reads `v[from..to]` as `str::parse::<i32>` does.
pub fn parse_i32_range(v: &Vec<char>, from: usize, to: usize) -> (res: Option<i32>)
    requires
        from <= to <= v@.len(),
    ensures
        res == parse_i32_spec(v@.subrange(from as int, to as int)),
{
    let ghost s = v@.subrange(from as int, to as int);
    if from < to && v[from] == '-' {
        assert(s.drop_first() =~= v@.subrange(from + 1, to as int));
        let (ok, value) = digit_run(v, from + 1, to, 0x8000_0001);
        if ok && value <= 0x8000_0000 {
            let r: i64 = 0 - (value as i64);
            Some(r as i32)
        } else {
            None
        }
    } else {
        let mut start = from;
        if from < to && v[from] == '+' {
            start = from + 1;
        }
        assert(unsigned_body(s) =~= v@.subrange(start as int, to as int));
        let (ok, value) = digit_run(v, start, to, 0x8000_0000);
        if ok && value < 0x8000_0000 {
            Some(value as i32)
        } else {
            None
        }
    }
}

/// The lower-case form of a text, as `str::to_lowercase` computes it (the
/// Unicode lower-case mapping of every character).
pub uninterp spec fn lowercase(s: Seq<char>) -> Seq<char>;

/// `str::to_lowercase`: the result is the lower-case form of `s`, a function
/// of `s` alone.
#[verifier::external_body]
pub fn to_lowercase(s: &str) -> (r: String)
    ensures
        r@ == lowercase(s@),
{
    s.to_lowercase()
}

/// `needle` occurs in `hay` as a run of consecutive characters (the empty
/// text occurs in every text).
pub open spec fn occurs_in(needle: Seq<char>, hay: Seq<char>) -> bool {
    exists|k: int|
        0 <= k <= hay.len() - needle.len() && #[trigger] hay.subrange(k, k + needle.len())
            == needle
}

/// Whether `needle` stands in `hay` from index `k` on.
fn matches_at(hay: &Vec<char>, needle: &Vec<char>, k: usize) -> (b: bool)
    requires
        k + needle@.len() <= hay@.len(),
    ensures
        b == (hay@.subrange(k as int, k + needle@.len()) == needle@),
{
    let hay_len = hay.len();
    let mut i: usize = 0;
    while i < needle.len()
        invariant
            hay_len == hay@.len(),
            k + needle@.len() <= hay@.len(),
            i <= needle@.len(),
            forall|j: int| 0 <= j < i ==> hay@[k + j] == needle@[j],
        decreases needle@.len() - i,
    {
        if hay[k + i] != needle[i] {
            assert(hay@.subrange(k as int, k + needle@.len())[i as int] != needle@[i as int]);
            return false;
        }
        i = i + 1;
    }
    assert(hay@.subrange(k as int, k + needle@.len()) =~= needle@);
    true
}

/// Whether `needle` occurs in `hay` (`str::contains` with a text pattern).
pub fn contains_text(hay: &str, needle: &str) -> (b: bool)
    ensures
        b == occurs_in(needle@, hay@),
{
    let h = chars_of(hay);
    let n = chars_of(needle);
    if n.len() > h.len() {
        return false;
    }
    let last = h.len() - n.len();
    let mut k: usize = 0;
    while k <= last
        invariant
            h@ == hay@,
            n@ == needle@,
            last == h@.len() - n@.len(),
            k <= last + 1,
            forall|j: int| 0 <= j < k ==> #[trigger] h@.subrange(j, j + n@.len()) != n@,
        decreases last + 1 - k,
    {
        if matches_at(&h, &n, k) {
            return true;
        }
        if k == last {
            return false;
        }
        k = k + 1;
    }
    false
}

/// The number of bytes of the UTF-8 encoding of a text, as `str::len`
/// reports it.
pub open spec fn byte_len(s: Seq<char>) -> int {
    encode_utf8(s).len() as usize as int
}

/// The character is `c`.
pub open spec fn is_char(c: char) -> spec_fn(char) -> bool {
    |x: char| x == c
}

/// The first index of a `.` in a text.
pub open spec fn dot_index(s: Seq<char>) -> Option<int> {
    first_index(s, is_char('.'))
}

/// A price already has two decimals and the new text is longer: the input is
/// ignored.
pub open spec fn price_input_full(old_input: Seq<char>, new_value: Seq<char>) -> bool {
    &&& byte_len(new_value) > byte_len(old_input)
    &&& match dot_index(old_input) {
        Some(k) => byte_len(old_input) - byte_len(old_input.take(k)) > 2,
        None => false,
    }
}

/// The first index of `c` in `v`.
pub fn find_char(v: &Vec<char>, c: char) -> (r: Option<usize>)
    ensures
        r matches Some(k) ==> k < v@.len() && first_index(v@, is_char(c)) == Some(k as int),
        r is None ==> first_index(v@, is_char(c)) is None,
{
    let mut k: usize = 0;
    while k < v.len()
        invariant
            k <= v@.len(),
            forall|j: int| 0 <= j < k ==> v@[j] != c,
        decreases v@.len() - k,
    {
        if v[k] == c {
            proof {
                lemma_first_index(v@, is_char(c), Some(k as int));
            }
            return Some(k);
        }
        k = k + 1;
    }
    proof {
        lemma_first_index(v@, is_char(c), None);
    }
    None
}

/// Whether a price text already has two decimals and `new_value` is longer.
pub fn price_text_full(old_input: &String, new_value: &String) -> (b: bool)
    ensures
        b == price_input_full(old_input@, new_value@),
{
    let new_len = new_value.as_str().len();
    let old_len = old_input.as_str().len();
    if new_len <= old_len {
        return false;
    }
    let chars = chars_of(old_input.as_str());
    match find_char(&chars, '.') {
        None => {
            assert(dot_index(old_input@) is None);
            false
        },
        Some(k) => {
            let prefix_len = old_input.as_str().substring_char(0, k).len();
            assert(old_input@.subrange(0, k as int) =~= old_input@.take(k as int));
            (old_len as i128) - (prefix_len as i128) > 2
        },
    }
}

} // verus!
