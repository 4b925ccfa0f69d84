//! Character-level building blocks: views of strings as character
//! sequences, decimal rendering of integers, trimming and character classes.

use vstd::prelude::*;

verus! {

/// The characters of a string slice, in order.
#[verifier::external_body]
pub(crate) fn chars_of(s: &str) -> (chars: Vec<char>)
    ensures
        chars@ == s@,
{
    s.chars().collect()
}

/// Appends one character to a string (`String::push`).
#[verifier::external_body]
pub(crate) fn push_char(s: &mut String, c: char)
    ensures
        final(s)@ == old(s)@.push(c),
{
    s.push(c);
}

/// Content equality of two string slices (`PartialEq` for `str`).
#[verifier::external_body]
pub(crate) fn str_eq(a: &str, b: &str) -> (same: bool)
    ensures
        same == (a@ == b@),
{
    a == b
}

/// A string holding the characters `chars[lo..hi]`.
pub fn string_from_range(chars: &Vec<char>, lo: usize, hi: usize) -> (s: String)
    requires
        lo <= hi <= chars@.len(),
    ensures
        s@ == chars@.subrange(lo as int, hi as int),
{
    let mut s = String::new();
    let mut i: usize = lo;
    while i < hi
        invariant
            lo <= i <= hi <= chars@.len(),
            s@ == chars@.subrange(lo as int, i as int),
        decreases hi - i,
    {
        push_char(&mut s, chars[i]);
        assert(chars@.subrange(lo as int, i + 1) == chars@.subrange(lo as int, i as int).push(chars@[i as int]));
        i = i + 1;
    }
    s
}

/// A string holding exactly the characters of `s` (an owned copy).
pub fn owned(s: &str) -> (r: String)
    ensures
        r@ == s@,
{
    String::from_str(s)
}

// ---------------------------------------------------------------------------
// Decimal rendering
// ---------------------------------------------------------------------------

/// The ASCII digit for a value below ten.
pub open spec fn digit_char(d: nat) -> char {
    if d == 0 { '0' }
    else if d == 1 { '1' }
    else if d == 2 { '2' }
    else if d == 3 { '3' }
    else if d == 4 { '4' }
    else if d == 5 { '5' }
    else if d == 6 { '6' }
    else if d == 7 { '7' }
    else if d == 8 { '8' }
    else { '9' }
}

/// The shortest decimal digits of a natural number (no sign, no leading zeros).
pub open spec fn nat_decimal(n: nat) -> Seq<char>
    decreases n,
{
    if n < 10 {
        seq![digit_char(n)]
    } else {
        nat_decimal(n / 10).push(digit_char(n % 10))
    }
}

/// The decimal text of an integer as Rust's `Display` writes it: a leading
/// `-` for negative values, then the digits of the magnitude.
pub open spec fn int_decimal(n: int) -> Seq<char> {
    if n < 0 {
        seq!['-'] + nat_decimal((-n) as nat)
    } else {
        nat_decimal(n as nat)
    }
}

fn digit_of(d: u64) -> (c: char)
    requires
        d < 10,
    ensures
        c == digit_char(d as nat),
{
    if d == 0 { '0' }
    else if d == 1 { '1' }
    else if d == 2 { '2' }
    else if d == 3 { '3' }
    else if d == 4 { '4' }
    else if d == 5 { '5' }
    else if d == 6 { '6' }
    else if d == 7 { '7' }
    else if d == 8 { '8' }
    else { '9' }
}

/// Appends the decimal digits of `n` to `out`.
pub fn push_u64_decimal(out: &mut String, n: u64)
    ensures
        final(out)@ == old(out)@ + nat_decimal(n as nat),
    decreases n,
{
    if n >= 10 {
        push_u64_decimal(out, n / 10);
    }
    push_char(out, digit_of(n % 10));
    proof {
        if n >= 10 {
            assert(nat_decimal(n as nat) == nat_decimal((n / 10) as nat).push(digit_char((n % 10) as nat)));
        }
    }
}

/// Appends the decimal text of `n` (with a `-` when negative) to `out`.
pub fn push_i64_decimal(out: &mut String, n: i64)
    ensures
        final(out)@ == old(out)@ + int_decimal(n as int),
{
    if n < 0 {
        push_char(out, '-');
        let magnitude: u64 = if n == i64::MIN {
            9223372036854775808u64
        } else {
            (-n) as u64
        };
        push_u64_decimal(out, magnitude);
    } else {
        push_u64_decimal(out, n as u64);
    }
}

/// The decimal text of a signed integer.
pub fn i64_decimal(n: i64) -> (s: String)
    ensures
        s@ == int_decimal(n as int),
{
    let mut s = String::new();
    push_i64_decimal(&mut s, n);
    s
}

/// The decimal text of an unsigned integer.
pub fn u64_decimal(n: u64) -> (s: String)
    ensures
        s@ == nat_decimal(n as nat),
{
    let mut s = String::new();
    push_u64_decimal(&mut s, n);
    s
}

// ---------------------------------------------------------------------------
// Trimming
// ---------------------------------------------------------------------------

/// `s` without any run of `c` at its end.
pub open spec fn strip_trailing(s: Seq<char>, c: char) -> Seq<char>
    decreases s.len(),
{
    if s.len() > 0 && s.last() == c {
        strip_trailing(s.drop_last(), c)
    } else {
        s
    }
}

pub proof fn lemma_strip_trailing_prefix(s: Seq<char>, c: char, k: int)
    requires
        0 <= k <= s.len(),
        forall|j: int| k <= j < s.len() ==> s[j] == c,
    ensures
        strip_trailing(s, c) == strip_trailing(s.subrange(0, k), c),
    decreases s.len() - k,
{
    if k < s.len() {
        assert(s.last() == c);
        assert(strip_trailing(s, c) == strip_trailing(s.drop_last(), c));
        lemma_strip_trailing_prefix(s.drop_last(), c, k);
        assert(s.drop_last().subrange(0, k) == s.subrange(0, k));
    } else {
        assert(s.subrange(0, k) == s);
    }
}

/// Stripping is idempotent: a stripped text has nothing left to strip.
pub proof fn lemma_strip_trailing_idempotent(s: Seq<char>, c: char)
    ensures
        strip_trailing(strip_trailing(s, c), c) == strip_trailing(s, c),
    decreases s.len(),
{
    if s.len() > 0 && s.last() == c {
        lemma_strip_trailing_idempotent(s.drop_last(), c);
    }
}

/// Appending a run of `c` does not change what stripping leaves.
pub proof fn lemma_strip_trailing_run(s: Seq<char>, run: Seq<char>, c: char)
    requires
        forall|i: int| 0 <= i < run.len() ==> run[i] == c,
    ensures
        strip_trailing(s + run, c) == strip_trailing(s, c),
{
    let t = s + run;
    assert forall|j: int| s.len() <= j < t.len() implies t[j] == c by {
        assert(t[j] == run[j - s.len()]);
    }
    lemma_strip_trailing_prefix(t, c, s.len() as int);
    assert(t.subrange(0, s.len() as int) == s);
}

/// `s` with every trailing `/` removed.
pub fn trim_trailing_slashes(s: &str) -> (r: String)
    ensures
        r@ == strip_trailing(s@, '/'),
{
    let chars = chars_of(s);
    let mut end: usize = chars.len();
    while end > 0 && chars[end - 1] == '/'
        invariant
            end <= chars@.len(),
            chars@ == s@,
            forall|j: int| end <= j < chars@.len() ==> chars@[j] == '/',
        decreases end,
    {
        end = end - 1;
    }
    proof {
        lemma_strip_trailing_prefix(s@, '/', end as int);
        let t = s@.subrange(0, end as int);
        if end > 0 {
            assert(t.last() != '/');
        }
        assert(strip_trailing(t, '/') == t);
    }
    string_from_range(&chars, 0, end)
}

/// The Unicode `White_Space` property (the characters that `char::is_whitespace` accepts).
pub open spec fn is_white_space(c: char) -> bool {
    let v = c as u32;
    ||| 0x09 <= v <= 0x0d
    ||| v == 0x20
    ||| v == 0x85
    ||| v == 0xa0
    ||| v == 0x1680
    ||| 0x2000 <= v <= 0x200a
    ||| v == 0x2028
    ||| v == 0x2029
    ||| v == 0x202f
    ||| v == 0x205f
    ||| v == 0x3000
}

/// Whether `c` has the Unicode `White_Space` property.
pub fn white_space(c: char) -> (b: bool)
    ensures
        b == is_white_space(c),
{
    let v = c as u32;
    (0x09 <= v && v <= 0x0d) || v == 0x20 || v == 0x85 || v == 0xa0 || v == 0x1680 || (0x2000
        <= v && v <= 0x200a) || v == 0x2028 || v == 0x2029 || v == 0x202f || v == 0x205f || v
        == 0x3000
}

/// The number of leading white-space characters of `s`.
pub open spec fn leading_white(s: Seq<char>) -> nat
    decreases s.len(),
{
    if s.len() > 0 && is_white_space(s[0]) {
        1 + leading_white(s.drop_first())
    } else {
        0
    }
}

/// `s` with leading and trailing white space removed, as `str::trim` does.
pub open spec fn trim_white(s: Seq<char>) -> Seq<char>
    decreases s.len(),
{
    if s.len() > 0 && is_white_space(s[0]) {
        trim_white(s.drop_first())
    } else if s.len() > 0 && is_white_space(s.last()) {
        trim_white(s.drop_last())
    } else {
        s
    }
}

proof fn lemma_trim_white_window(s: Seq<char>, lo: int, hi: int)
    requires
        0 <= lo <= hi <= s.len(),
        forall|j: int| 0 <= j < lo ==> is_white_space(#[trigger] s[j]),
        forall|j: int| hi <= j < s.len() ==> is_white_space(#[trigger] s[j]),
        lo < hi ==> !is_white_space(s[lo]) && !is_white_space(s[hi - 1]),
        lo == hi ==> hi == s.len(),
    ensures
        trim_white(s) == s.subrange(lo, hi),
    decreases s.len(),
{
    if s.len() == 0 {
        assert(s.subrange(lo, hi) =~= s);
    } else if is_white_space(s[0]) {
        let t = s.drop_first();
        assert forall|j: int| 0 <= j < lo - 1 implies is_white_space(#[trigger] t[j]) by {
            assert(t[j] == s[j + 1]);
        }
        assert forall|j: int| hi - 1 <= j < t.len() implies is_white_space(#[trigger] t[j]) by {
            assert(t[j] == s[j + 1]);
        }
        if lo == hi {
            lemma_trim_white_window(t, hi - 1, hi - 1);
            assert(t.subrange(hi - 1, hi - 1) =~= s.subrange(lo, hi));
        } else {
            assert(lo >= 1);
            lemma_trim_white_window(t, lo - 1, hi - 1);
            assert(t.subrange(lo - 1, hi - 1) =~= s.subrange(lo, hi));
        }
    } else if is_white_space(s.last()) {
        let t = s.drop_last();
        assert(lo == 0);
        assert forall|j: int| hi <= j < t.len() implies is_white_space(#[trigger] t[j]) by {
            assert(t[j] == s[j]);
        }
        if lo == hi {
            assert(false);
        } else {
            assert(hi <= t.len());
            lemma_trim_white_window(t, lo, hi);
            assert(t.subrange(lo, hi) =~= s.subrange(lo, hi));
        }
    } else {
        if lo > 0 {
            assert(is_white_space(s[0]));
        }
        if hi < s.len() {
            assert(is_white_space(s[s.len() - 1]));
        }
        if lo == hi {
            assert(s.len() == 0);
        }
        assert(s.subrange(lo, hi) =~= s);
    }
}

/// `s` with leading and trailing Unicode white space removed (`str::trim`).
pub fn trim_white_space(s: &str) -> (r: String)
    ensures
        r@ == trim_white(s@),
{
    let chars = chars_of(s);
    let n = chars.len();
    let mut lo: usize = 0;
    while lo < n && white_space(chars[lo])
        invariant
            lo <= n,
            n == chars@.len(),
            chars@ == s@,
            forall|j: int| 0 <= j < lo ==> is_white_space(#[trigger] chars@[j]),
        decreases n - lo,
    {
        lo = lo + 1;
    }
    let mut hi: usize = n;
    while hi > lo && white_space(chars[hi - 1])
        invariant
            lo <= hi <= n,
            n == chars@.len(),
            chars@ == s@,
            forall|j: int| 0 <= j < lo ==> is_white_space(#[trigger] chars@[j]),
            forall|j: int| hi <= j < n ==> is_white_space(#[trigger] chars@[j]),
            lo < n ==> !is_white_space(chars@[lo as int]),
        decreases hi,
    {
        hi = hi - 1;
    }
    proof {
        lemma_trim_white_window(s@, lo as int, hi as int);
    }
    string_from_range(&chars, lo, hi)
}

} // verus!

verus! {

// ---------------------------------------------------------------------------
// Decimal parsing
// ---------------------------------------------------------------------------

/// Whether `c` is an ASCII decimal digit.
pub open spec fn is_digit(c: char) -> bool {
    '0' <= c && c <= '9'
}

/// Whether every character of `s` is an ASCII decimal digit.
pub open spec fn all_digits(s: Seq<char>) -> bool {
    forall|i: int| 0 <= i < s.len() ==> is_digit(#[trigger] s[i])
}

/// The value of a string of decimal digits.
pub open spec fn digits_value(s: Seq<char>) -> nat
    decreases s.len(),
{
    if s.len() == 0 {
        0
    } else {
        digits_value(s.drop_last()) * 10 + ((s.last() as u32) - ('0' as u32)) as nat
    }
}

/// `s` without a leading `+`.
pub open spec fn without_plus(s: Seq<char>) -> Seq<char> {
    if s.len() > 0 && s[0] == '+' {
        s.drop_first()
    } else {
        s
    }
}

/// What `str::parse::<u64>` yields: an optional `+` followed by at least one
/// digit, with a value that fits in 64 bits.
pub open spec fn parsed_u64(s: Seq<char>) -> Option<u64> {
    let d = without_plus(s);
    if d.len() > 0 && all_digits(d) && digits_value(d) <= u64::MAX {
        Some(digits_value(d) as u64)
    } else {
        None
    }
}

/// What `str::parse::<i64>` yields: an optional `+` or `-` followed by at
/// least one digit, with a value in the range of `i64`.
pub open spec fn parsed_i64(s: Seq<char>) -> Option<i64> {
    if s.len() > 0 && s[0] == '-' {
        let d = s.drop_first();
        if d.len() > 0 && all_digits(d) && digits_value(d) <= 0x8000_0000_0000_0000 {
            Some((-(digits_value(d) as int)) as i64)
        } else {
            None
        }
    } else {
        let d = without_plus(s);
        if d.len() > 0 && all_digits(d) && digits_value(d) <= i64::MAX {
            Some(digits_value(d) as i64)
        } else {
            None
        }
    }
}

proof fn lemma_digits_value_grows(s: Seq<char>, k: int)
    requires
        0 <= k <= s.len(),
        all_digits(s),
    ensures
        digits_value(s.subrange(0, k)) <= digits_value(s),
    decreases s.len() - k,
{
    if k < s.len() {
        lemma_digits_value_grows(s, k + 1);
        let t = s.subrange(0, k + 1);
        assert(t.drop_last() == s.subrange(0, k));
        assert(is_digit(s[k]));
    } else {
        assert(s.subrange(0, k) == s);
    }
}

/// The value of the digits `chars[start..]`, when they are all digits, there
/// is at least one, and the value fits in 64 bits.
fn digits_u64(chars: &Vec<char>, start: usize) -> (value: Option<u64>)
    requires
        start <= chars@.len(),
    ensures
        ({
            let d = chars@.subrange(start as int, chars@.len() as int);
            value == if d.len() > 0 && all_digits(d) && digits_value(d) <= u64::MAX {
                Some(digits_value(d) as u64)
            } else {
                None
            }
        }),
{
    let ghost d = chars@.subrange(start as int, chars@.len() as int);
    if start >= chars.len() {
        return None;
    }
    let mut value: u64 = 0;
    let mut i: usize = start;
    while i < chars.len()
        invariant
            start <= i <= chars@.len(),
            d == chars@.subrange(start as int, chars@.len() as int),
            all_digits(d.subrange(0, i - start)),
            value == digits_value(d.subrange(0, i - start)),
        decreases chars@.len() - i,
    {
        let c = chars[i];
        assert(d[i - start] == c);
        if c < '0' || c > '9' {
            assert(!all_digits(d));
            return None;
        }
        let digit = (c as u32 - '0' as u32) as u64;
        let ghost next = d.subrange(0, i - start + 1);
        assert(next.drop_last() == d.subrange(0, i - start));
        assert(all_digits(next));
        match value.checked_mul(10) {
            Some(scaled) => match scaled.checked_add(digit) {
                Some(v) => {
                    value = v;
                },
                None => {
                    proof {
                        if all_digits(d) {
                            lemma_digits_value_grows(d, i - start + 1);
                        }
                    }
                    return None;
                },
            },
            None => {
                proof {
                    if all_digits(d) {
                        lemma_digits_value_grows(d, i - start + 1);
                    }
                }
                return None;
            },
        }
        i = i + 1;
    }
    assert(d.subrange(0, i - start) == d);
    Some(value)
}

/// Parses a decimal unsigned integer as `str::parse::<u64>` does.
pub fn parse_u64(s: &str) -> (value: Option<u64>)
    ensures
        value == parsed_u64(s@),
{
    let chars = chars_of(s);
    let start: usize = if chars.len() > 0 && chars[0] == '+' { 1 } else { 0 };
    assert(chars@.subrange(start as int, chars@.len() as int) == without_plus(s@));
    digits_u64(&chars, start)
}

/// Parses a decimal signed integer as `str::parse::<i64>` does.
pub fn parse_i64(s: &str) -> (value: Option<i64>)
    ensures
        value == parsed_i64(s@),
{
    let chars = chars_of(s);
    if chars.len() > 0 && chars[0] == '-' {
        assert(chars@.subrange(1, chars@.len() as int) == s@.drop_first());
        match digits_u64(&chars, 1) {
            Some(m) => {
                if m <= 0x8000_0000_0000_0000u64 {
                    if m == 0x8000_0000_0000_0000u64 {
                        Some(i64::MIN)
                    } else {
                        Some(-(m as i64))
                    }
                } else {
                    None
                }
            },
            None => None,
        }
    } else {
        let start: usize = if chars.len() > 0 && chars[0] == '+' { 1 } else { 0 };
        assert(chars@.subrange(start as int, chars@.len() as int) == without_plus(s@));
        match digits_u64(&chars, start) {
            Some(m) => {
                if m <= 0x7fff_ffff_ffff_ffffu64 {
                    Some(m as i64)
                } else {
                    None
                }
            },
            None => None,
        }
    }
}

} // verus!
