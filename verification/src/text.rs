//! Verified helpers on texts: comparison, fields, trimming, decimal numbers.

use vstd::prelude::*;
use vstd::string::*;
use vstd::utf8::*;

verus! {

/// Whether two string slices hold the same characters.
pub fn str_eq(a: &str, b: &str) -> (r: bool)
    ensures
        r == (a@ == b@),
{
    let x = a.as_bytes();
    let y = b.as_bytes();
    proof {
        encode_utf8_decode_utf8(a@);
        encode_utf8_decode_utf8(b@);
    }
    if x.len() != y.len() {
        return false;
    }
    let n: usize = x.len();
    let mut i: usize = 0;
    while i < n
        invariant
            i <= n,
            n == x@.len(),
            n == y@.len(),
            x@ == a.spec_bytes(),
            y@ == b.spec_bytes(),
            forall|j: int| 0 <= j < i ==> x@[j] == y@[j],
        decreases n - i,
    {
        if x[i] != y[i] {
            return false;
        }
        i += 1;
    }
    assert(x@ =~= y@);
    true
}

/// The characters of `s`, in order.
pub fn chars_of(s: &str) -> (v: Vec<char>)
    ensures
        v@ == s@,
{
    let mut v: Vec<char> = Vec::new();
    for c in it: s.chars()
        invariant
            v@ == it.seq().take(it.index() as int),
            it.seq() == s@,
    {
        v.push(c);
    }
    v
}

/// Whether `s` ends with `suffix`.
pub open spec fn has_suffix(s: Seq<char>, suffix: Seq<char>) -> bool {
    suffix.len() <= s.len() && s.subrange(s.len() - suffix.len(), s.len() as int) == suffix
}

pub fn ends_with(s: &str, suffix: &str) -> (r: bool)
    ensures
        r == has_suffix(s@, suffix@),
{
    let n = s.unicode_len();
    let m = suffix.unicode_len();
    if m > n {
        return false;
    }
    let tail = s.substring_char(n - m, n);
    str_eq(tail, suffix)
}

/// Number of characters of `s` before the first `c`; the length of `s` where
/// `c` does not occur.
pub open spec fn index_of(s: Seq<char>, c: char) -> int
    decreases s.len(),
{
    if s.len() == 0 || s[0] == c {
        0
    } else {
        1 + index_of(s.drop_first(), c)
    }
}

/// `index_of` is the least position that holds `c`, or the length.
pub proof fn index_of_is_first(s: Seq<char>, c: char)
    ensures
        0 <= index_of(s, c) <= s.len(),
        forall|j: int| 0 <= j < index_of(s, c) ==> s[j] != c,
        index_of(s, c) < s.len() ==> s[index_of(s, c)] == c,
    decreases s.len(),
{
    if s.len() > 0 && s[0] != c {
        let rest = s.drop_first();
        index_of_is_first(rest, c);
        assert forall|j: int| 0 <= j < index_of(s, c) implies s[j] != c by {
            if j > 0 {
                assert(s[j] == rest[j - 1]);
            }
        }
    }
}

/// A position with the properties of `index_of` is `index_of`.
proof fn index_of_unique(s: Seq<char>, c: char, k: int)
    requires
        0 <= k <= s.len(),
        forall|j: int| 0 <= j < k ==> s[j] != c,
        k < s.len() ==> s[k] == c,
    ensures
        k == index_of(s, c),
{
    index_of_is_first(s, c);
}

/// What stands in `s` before the first `sep`: all of `s` where `sep` does
/// not occur.
pub open spec fn first_field(s: Seq<char>, sep: char) -> Seq<char> {
    s.take(index_of(s, sep))
}

/// Characters with the Unicode property `White_Space`.
pub open spec fn is_whitespace(c: char) -> bool {
    let n = c as u32;
    ||| 0x09 <= n <= 0x0D
    ||| n == 0x20
    ||| n == 0x85
    ||| n == 0xA0
    ||| n == 0x1680
    ||| 0x2000 <= n <= 0x200A
    ||| n == 0x2028
    ||| n == 0x2029
    ||| n == 0x202F
    ||| n == 0x205F
    ||| n == 0x3000
}

pub fn char_is_whitespace(c: char) -> (r: bool)
    ensures
        r == is_whitespace(c),
{
    let n: u32 = c as u32;
    (0x09 <= n && n <= 0x0D) || n == 0x20 || n == 0x85 || n == 0xA0 || n == 0x1680 || (0x2000 <= n
        && n <= 0x200A) || n == 0x2028 || n == 0x2029 || n == 0x202F || n == 0x205F || n == 0x3000
}

/// Number of whitespace characters at the start of `s`.
pub open spec fn leading_space(s: Seq<char>) -> int
    decreases s.len(),
{
    if s.len() > 0 && is_whitespace(s[0]) {
        1 + leading_space(s.drop_first())
    } else {
        0
    }
}

/// Number of whitespace characters at the end of `s`.
pub open spec fn trailing_space(s: Seq<char>) -> int
    decreases s.len(),
{
    if s.len() > 0 && is_whitespace(s.last()) {
        1 + trailing_space(s.drop_last())
    } else {
        0
    }
}

/// `s` without the whitespace at its start and at its end.
pub open spec fn trimmed(s: Seq<char>) -> Seq<char> {
    let rest = s.skip(leading_space(s));
    rest.take(rest.len() - trailing_space(rest))
}

proof fn leading_space_unique(s: Seq<char>, k: int)
    requires
        0 <= k <= s.len(),
        forall|j: int| 0 <= j < k ==> is_whitespace(s[j]),
        k < s.len() ==> !is_whitespace(s[k]),
    ensures
        k == leading_space(s),
    decreases s.len(),
{
    if s.len() > 0 && is_whitespace(s[0]) {
        leading_space_unique(s.drop_first(), k - 1);
    }
}

proof fn trailing_space_unique(s: Seq<char>, k: int)
    requires
        0 <= k <= s.len(),
        forall|j: int| s.len() - k <= j < s.len() ==> is_whitespace(s[j]),
        k < s.len() ==> !is_whitespace(s[s.len() - k - 1]),
    ensures
        k == trailing_space(s),
    decreases s.len(),
{
    if s.len() > 0 && is_whitespace(s.last()) {
        trailing_space_unique(s.drop_last(), k - 1);
    }
}

/// The first field of `s` by `sep`, trimmed.
pub fn first_field_trimmed(s: &str, sep: char) -> (r: String)
    ensures
        r@ == trimmed(first_field(s@, sep)),
{
    let chars = chars_of(s);
    let n: usize = chars.len();
    let mut end: usize = 0;
    while end < n && chars[end] != sep
        invariant
            end <= n,
            n == chars@.len(),
            forall|j: int| 0 <= j < end ==> chars@[j] != sep,
        decreases n - end,
    {
        end += 1;
    }
    proof {
        index_of_unique(chars@, sep, end as int);
    }
    let ghost field = chars@.take(end as int);
    let mut from: usize = 0;
    while from < end && char_is_whitespace(chars[from])
        invariant
            from <= end <= n,
            n == chars@.len(),
            forall|j: int| 0 <= j < from ==> is_whitespace(chars@[j]),
        decreases end - from,
    {
        from += 1;
    }
    proof {
        leading_space_unique(field, from as int);
    }
    let ghost rest = field.skip(from as int);
    let mut to: usize = end;
    while to > from && char_is_whitespace(chars[to - 1])
        invariant
            from <= to <= end <= n,
            n == chars@.len(),
            forall|j: int| to <= j < end ==> is_whitespace(chars@[j]),
        decreases to - from,
    {
        to -= 1;
    }
    proof {
        trailing_space_unique(rest, (end - to) as int);
    }
    s.substring_char(from, to).to_owned()
}

/// Whether `c` is one of the ten decimal digits.
pub open spec fn is_digit(c: char) -> bool {
    '0' <= c <= '9'
}

/// Whether `s` holds decimal digits only.
pub open spec fn all_digits(s: Seq<char>) -> bool {
    forall|i: int| 0 <= i < s.len() ==> is_digit(#[trigger] s[i])
}

/// The number that a sequence of decimal digits writes.
pub open spec fn digits_value(s: Seq<char>) -> nat
    decreases s.len(),
{
    if s.len() == 0 {
        0
    } else {
        10 * digits_value(s.drop_last()) + (s.last() as u32 - '0' as u32) as nat
    }
}

/// The integer that `s` writes in decimal, where it lies between `min` and
/// `max`: an optional `+`, or `-` where `min` is negative, then one or more
/// digits and nothing else.
pub open spec fn decimal(s: Seq<char>, min: int, max: int) -> Option<int> {
    let negative = s.len() > 0 && s[0] == '-' && min < 0;
    let signed = negative || (s.len() > 0 && s[0] == '+');
    let digits = if signed {
        s.skip(1)
    } else {
        s
    };
    let value = if negative {
        -(digits_value(digits) as int)
    } else {
        digits_value(digits) as int
    };
    if digits.len() > 0 && all_digits(digits) && min <= value <= max {
        Some(value)
    } else {
        None
    }
}

/// Reads a decimal integer between `min` and `max`.
pub fn parse_decimal(s: &str, min: i128, max: i128) -> (r: Option<i128>)
    ensures
        r matches Some(v) ==> decimal(s@, min as int, max as int) == Some(v as int),
        r is None ==> decimal(s@, min as int, max as int) is None,
{
    let chars = chars_of(s);
    let n: usize = chars.len();
    let negative = n > 0 && chars[0] == '-' && min < 0;
    let signed = negative || (n > 0 && chars[0] == '+');
    let start: usize = if signed {
        1
    } else {
        0
    };
    let ghost digits = chars@.skip(start as int);
    assert(digits =~= (if signed {
        s@.skip(1)
    } else {
        s@
    }));
    if start == n {
        return None;
    }
    let mut magnitude: u128 = 0;
    let mut over = false;
    let mut i: usize = start;
    while i < n
        invariant
            start <= i <= n,
            start < n,
            n == chars@.len(),
            chars@ == s@,
            negative == (n > 0 && chars@[0] == '-' && min < 0),
            signed == (negative || (n > 0 && chars@[0] == '+')),
            start == (if signed {
                1usize
            } else {
                0usize
            }),
            digits == chars@.skip(start as int),
            digits == (if signed {
                s@.skip(1)
            } else {
                s@
            }),
            forall|j: int| 0 <= j < i - start ==> is_digit(#[trigger] digits[j]),
            !over ==> magnitude == digits_value(digits.take(i - start)),
            over ==> digits_value(digits.take(i - start)) > u128::MAX,
        decreases n - i,
    {
        let c = chars[i];
        if !('0' <= c && c <= '9') {
            proof {
                let k = i - start;
                assert(!is_digit(digits[k]));
            }
            return None;
        }
        let d: u128 = (c as u32 - '0' as u32) as u128;
        proof {
            let next = digits.take(i - start + 1);
            assert(next.drop_last() =~= digits.take(i - start));
        }
        if !over {
            match magnitude.checked_mul(10) {
                None => {
                    over = true;
                },
                Some(tenfold) => match tenfold.checked_add(d) {
                    None => {
                        over = true;
                    },
                    Some(grown) => {
                        magnitude = grown;
                    },
                },
            }
        }
        i += 1;
    }
    assert(digits.take(n - start) =~= digits);
    if over {
        return None;
    }
    let value: i128 = if negative {
        if magnitude > 0x8000_0000_0000_0000_0000_0000_0000_0000 {
            return None;
        } else if magnitude == 0x8000_0000_0000_0000_0000_0000_0000_0000 {
            i128::MIN
        } else {
            -(magnitude as i128)
        }
    } else {
        if magnitude > 0x7fff_ffff_ffff_ffff_ffff_ffff_ffff_ffff {
            return None;
        } else {
            magnitude as i128
        }
    };
    if min <= value && value <= max {
        Some(value)
    } else {
        None
    }
}

/// The character that writes the digit `d`.
pub open spec fn digit_char(d: nat) -> char {
    if d == 0 {
        '0'
    } else if d == 1 {
        '1'
    } else if d == 2 {
        '2'
    } else if d == 3 {
        '3'
    } else if d == 4 {
        '4'
    } else if d == 5 {
        '5'
    } else if d == 6 {
        '6'
    } else if d == 7 {
        '7'
    } else if d == 8 {
        '8'
    } else {
        '9'
    }
}

/// The decimal digits of `n`, without leading zeros.
pub open spec fn digits_of(n: nat) -> Seq<char>
    decreases n,
{
    if n < 10 {
        seq![digit_char(n)]
    } else {
        digits_of(n / 10).push(digit_char(n % 10))
    }
}

/// The decimal text of an integer: a `-` before the digits of a negative
/// number.
pub open spec fn decimal_of(n: int) -> Seq<char> {
    if n < 0 {
        seq!['-'] + digits_of((-n) as nat)
    } else {
        digits_of(n as nat)
    }
}

/// The text of one digit.
fn digit_text(d: u64) -> (s: &'static str)
    requires
        d < 10,
    ensures
        s@ == seq![digit_char(d as nat)],
{
    proof {
        reveal_strlit("0");
        reveal_strlit("1");
        reveal_strlit("2");
        reveal_strlit("3");
        reveal_strlit("4");
        reveal_strlit("5");
        reveal_strlit("6");
        reveal_strlit("7");
        reveal_strlit("8");
        reveal_strlit("9");
    }
    let s = if d == 0 {
        "0"
    } else if d == 1 {
        "1"
    } else if d == 2 {
        "2"
    } else if d == 3 {
        "3"
    } else if d == 4 {
        "4"
    } else if d == 5 {
        "5"
    } else if d == 6 {
        "6"
    } else if d == 7 {
        "7"
    } else if d == 8 {
        "8"
    } else {
        "9"
    };
    s
}

/// Appends the decimal digits of `n` to `out`.
pub fn push_digits(out: &mut String, n: u64)
    ensures
        final(out)@ == old(out)@ + digits_of(n as nat),
    decreases n,
{
    if n >= 10 {
        push_digits(out, n / 10);
    }
    out.append(digit_text(n % 10));
}

/// Appends the decimal text of `n` to `out`.
pub fn push_decimal(out: &mut String, n: i64)
    ensures
        final(out)@ == old(out)@ + decimal_of(n as int),
{
    if n < 0 {
        proof {
            reveal_strlit("-");
        }
        out.append("-");
        let magnitude: u64 = if n == i64::MIN {
            0x8000_0000_0000_0000
        } else {
            (-n) as u64
        };
        push_digits(out, magnitude);
    } else {
        push_digits(out, n as u64);
    }
}

/// The digits of a number write that number.
pub proof fn digits_write_their_number(n: nat)
    ensures
        all_digits(digits_of(n)),
        digits_of(n).len() > 0,
        digits_value(digits_of(n)) == n,
    decreases n,
{
    if n < 10 {
        assert(digits_value(digits_of(n).drop_last()) == 0);
    } else {
        digits_write_their_number(n / 10);
        assert(digits_of(n).drop_last() =~= digits_of(n / 10));
    }
}

/// A number written in decimal is read back as itself.
pub proof fn decimal_round_trip(n: int, min: int, max: int)
    requires
        min <= n <= max,
        min < 0 || n >= 0,
    ensures
        decimal(decimal_of(n), min, max) == Some(n),
{
    let s = decimal_of(n);
    if n < 0 {
        digits_write_their_number((-n) as nat);
        assert(s.skip(1) =~= digits_of((-n) as nat));
    } else {
        digits_write_their_number(n as nat);
    }
}

/// The truth value that `s` writes: `true` or `false` and nothing else.
pub open spec fn truth(s: Seq<char>) -> Option<bool> {
    if s == "true"@ {
        Some(true)
    } else if s == "false"@ {
        Some(false)
    } else {
        None
    }
}

pub fn parse_bool(s: &str) -> (r: Option<bool>)
    ensures
        r == truth(s@),
{
    if str_eq(s, "true") {
        Some(true)
    } else if str_eq(s, "false") {
        Some(false)
    } else {
        None
    }
}

} // verus!
