//! Texts: comparing them, and reading integers, truth values and decimal
//! numbers from them.

use vstd::prelude::*;
use vstd::string::StrSliceExecFns;
use vstd::utf8::{encode_utf8, encode_utf8_decode_utf8, is_ascii_chars, is_ascii_chars_encode_utf8};

verus! {

/// The numbers of the ASCII characters that numbers are written with.
const PLUS: u8 = 43;

const MINUS: u8 = 45;

const POINT: u8 = 46;

const DIGIT_0: u8 = 48;

const DIGIT_9: u8 = 57;

const UPPER_A: u8 = 65;

const UPPER_E: u8 = 69;

const UPPER_Z: u8 = 90;

const LOWER_E: u8 = 101;

/// Whether two string slices hold the same characters.
///
/// The comparison walks the UTF-8 bytes; since the encoding is injective, equal
/// bytes mean equal character sequences.
pub fn str_eq(a: &str, b: &str) -> (r: bool)
    ensures
        r == (a@ == b@),
{
    let x = a.as_bytes();
    let y = b.as_bytes();
    proof {
        encode_utf8_decode_utf8(a@);
        encode_utf8_decode_utf8(b@);
    }
    if x.len() != y.len() {
        return false;
    }
    let mut i: usize = 0;
    while i < x.len()
        invariant
            i <= x.len(),
            x.len() == y.len(),
            x@ == encode_utf8(a@),
            y@ == encode_utf8(b@),
            forall|j: int| 0 <= j < i ==> x@[j] == y@[j],
        decreases x.len() - i,
    {
        if x[i] != y[i] {
            return false;
        }
        i += 1;
    }
    assert(x@ =~= y@);
    true
}

/// Whether `c` is one of the ten decimal digits.
pub open spec fn is_digit(c: char) -> bool {
    '0' <= c && c <= '9'
}

/// The number that a decimal digit stands for.
pub open spec fn digit_value(c: char) -> int {
    c as int - '0' as int
}

/// The number that a sequence of decimal digits is read as.
pub open spec fn decimal_value(digits: Seq<char>) -> int
    decreases digits.len(),
{
    if digits.len() == 0 {
        0
    } else {
        decimal_value(digits.drop_last()) * 10 + digit_value(digits.last())
    }
}

/// Whether every character of `s` is a decimal digit.
pub open spec fn all_digits(s: Seq<char>) -> bool {
    forall|i: int| 0 <= i < s.len() ==> is_digit(#[trigger] s[i])
}

/// Whether `s` begins with a plus or minus sign.
pub open spec fn has_sign(s: Seq<char>) -> bool {
    s.len() > 0 && (s[0] == '+' || s[0] == '-')
}

/// The integer that a text denotes: an optional sign and then one or more
/// decimal digits, with nothing before, between or after.
pub open spec fn integer_of_text(s: Seq<char>) -> Option<int> {
    let digits = if has_sign(s) {
        s.skip(1)
    } else {
        s
    };
    if digits.len() > 0 && all_digits(digits) {
        if s[0] == '-' {
            Some(-decimal_value(digits))
        } else {
            Some(decimal_value(digits))
        }
    } else {
        None
    }
}

/// The 32-bit integer that a text denotes, if it denotes an integer in range.
pub open spec fn i32_of_text(s: Seq<char>) -> Option<i32> {
    match integer_of_text(s) {
        Some(v) => if i32::MIN <= v <= i32::MAX {
            Some(v as i32)
        } else {
            None
        },
        None => None,
    }
}

/// The truth value that a text denotes: `true` or `false`, spelled exactly so.
pub open spec fn bool_of_text(s: Seq<char>) -> Option<bool> {
    if s == "true"@ {
        Some(true)
    } else if s == "false"@ {
        Some(false)
    } else {
        None
    }
}

/// The bytes of a text that holds ASCII characters only: one byte per
/// character, with the character's number.
pub fn ascii_bytes(text: &str) -> (r: Option<&[u8]>)
    ensures
        match r {
            Some(bytes) => is_ascii_chars(text@) && bytes@.len() == text@.len() && forall|i: int|
                0 <= i < bytes@.len() ==> #[trigger] bytes@[i] as int == text@[i] as int,
            None => !is_ascii_chars(text@),
        },
{
    if text.is_ascii() {
        let bytes = text.as_bytes();
        proof {
            is_ascii_chars_encode_utf8(text@);
            assert forall|i: int| 0 <= i < bytes@.len() implies #[trigger] bytes@[i] as int
                == text@[i] as int by {
                assert(text@[i] as u8 == encode_utf8(text@)[i]);
                assert('\0' <= text@[i] <= '\u{7f}');
            }
        }
        Some(bytes)
    } else {
        None
    }
}

/// Read a text as a 32-bit integer.
pub fn parse_i32(text: &str) -> (r: Option<i32>)
    ensures
        r == i32_of_text(text@),
{
    let bytes = match ascii_bytes(text) {
        Some(b) => b,
        None => {
            proof {
                lemma_integer_text_is_ascii(text@);
            }
            return None;
        },
    };
    let n = bytes.len();
    if n == 0 {
        return None;
    }
    let negative = bytes[0] == MINUS;
    let start: usize = if bytes[0] == MINUS || bytes[0] == PLUS {
        1
    } else {
        0
    };
    let ghost digits = if has_sign(text@) {
        text@.skip(1)
    } else {
        text@
    };
    assert(bytes@[0] as int == text@[0] as int);
    assert(negative == (text@[0] == '-'));
    assert(has_sign(text@) == (start == 1));
    assert(digits =~= text@.skip(start as int));
    if start == n {
        return None;
    }
    let mut acc: i64 = 0;
    let mut too_big = false;
    let mut i: usize = start;
    while i < n
        invariant
            start <= i <= n,
            n == bytes@.len(),
            n == text@.len(),
            digits == text@.skip(start as int),
            digits == if has_sign(text@) {
                text@.skip(1)
            } else {
                text@
            },
            0 <= acc,
            forall|k: int| 0 <= k < n ==> #[trigger] bytes@[k] as int == text@[k] as int,
            all_digits(digits.take(i - start)),
            !too_big ==> acc == decimal_value(digits.take(i - start)) && acc <= 2147483648,
            too_big ==> decimal_value(digits.take(i - start)) > 2147483648,
        decreases n - i,
    {
        let b = bytes[i];
        let ghost prefix = digits.take(i - start);
        let ghost longer = digits.take(i - start + 1);
        proof {
            assert(digits[i - start] == text@[i as int]);
            assert(longer.drop_last() =~= prefix);
            assert(longer.last() == text@[i as int]);
        }
        if b < DIGIT_0 || b > DIGIT_9 {
            proof {
                assert(!is_digit(digits[i - start]));
            }
            return None;
        }
        proof {
            assert(is_digit(text@[i as int]));
            assert(digit_value(text@[i as int]) == b - DIGIT_0);
            assert forall|k: int| 0 <= k < longer.len() implies is_digit(#[trigger] longer[k]) by {
                if k < prefix.len() {
                    assert(longer[k] == prefix[k]);
                }
            }
        }
        if !too_big {
            acc = acc * 10 + (b - DIGIT_0) as i64;
            if acc > 2147483648 {
                too_big = true;
            }
        }
        i += 1;
    }
    proof {
        assert(digits.take(n - start) =~= digits);
    }
    if too_big {
        None
    } else if negative {
        Some((-acc) as i32)
    } else if acc <= 2147483647 {
        Some(acc as i32)
    } else {
        None
    }
}

/// A text that denotes an integer holds ASCII characters only.
pub proof fn lemma_integer_text_is_ascii(s: Seq<char>)
    ensures
        integer_of_text(s) is Some ==> is_ascii_chars(s),
{
    if integer_of_text(s) is Some {
        let digits = if has_sign(s) {
            s.skip(1)
        } else {
            s
        };
        assert forall|i: int| 0 <= i < s.len() implies '\0' <= #[trigger] s[i] <= '\u{7f}' by {
            if has_sign(s) {
                if i > 0 {
                    assert(is_digit(digits[i - 1]));
                }
            } else {
                assert(is_digit(digits[i]));
            }
        }
    }
}

/// Read a text as a truth value.
pub fn parse_bool(text: &str) -> (r: Option<bool>)
    ensures
        r == bool_of_text(text@),
{
    if str_eq(text, "true") {
        Some(true)
    } else if str_eq(text, "false") {
        Some(false)
    } else {
        None
    }
}

/// The number of decimal digits that stand in a row from position `i` on.
pub open spec fn digit_run(s: Seq<char>, i: int) -> int
    decreases s.len() - i,
{
    if 0 <= i < s.len() && is_digit(s[i]) {
        1 + digit_run(s, i + 1)
    } else {
        0
    }
}

/// Whether `s` is an exponent: `e` or `E`, an optional sign, and one or more digits.
pub open spec fn is_exponent_text(s: Seq<char>) -> bool {
    let digits = if has_sign(s.skip(1)) {
        s.skip(2)
    } else {
        s.skip(1)
    };
    s.len() > 0 && (s[0] == 'e' || s[0] == 'E') && digits.len() > 0 && all_digits(digits)
}

/// Whether `s` is an unsigned decimal number: digits with at most one point
/// among them and at least one digit in all, and then an optional exponent.
pub open spec fn is_number_text(s: Seq<char>) -> bool {
    let whole = digit_run(s, 0);
    let point = whole < s.len() && s[whole] == '.';
    let fraction = if point {
        digit_run(s, whole + 1)
    } else {
        0
    };
    let end = if point {
        whole + 1 + fraction
    } else {
        whole
    };
    whole + fraction >= 1 && (end == s.len() || is_exponent_text(s.skip(end)))
}

/// The number of the lower-case letter for the number of an upper-case ASCII
/// letter, and any other number unchanged.
pub open spec fn lower_code(c: int) -> int {
    if 65 <= c <= 90 {
        c + 32
    } else {
        c
    }
}

/// Whether `s` spells `word` when the case of ASCII letters is ignored.
pub open spec fn spells(s: Seq<char>, word: Seq<char>) -> bool {
    s.len() == word.len() && forall|i: int|
        0 <= i < s.len() ==> lower_code(#[trigger] s[i] as int) == word[i] as int
}

/// Whether `s` names one of the values that are no numbers: infinity, or not-a-number.
pub open spec fn is_special_text(s: Seq<char>) -> bool {
    spells(s, "inf"@) || spells(s, "infinity"@) || spells(s, "nan"@)
}

/// Whether a text is the decimal notation of a floating-point value: an
/// optional sign, and then a number or the name of a special value. Only ASCII
/// characters occur in such a text.
pub open spec fn is_decimal_text(s: Seq<char>) -> bool {
    let body = if has_sign(s) {
        s.skip(1)
    } else {
        s
    };
    is_ascii_chars(s) && (is_number_text(body) || is_special_text(body))
}

/// Count the digits that stand in a row from position `from` on.
fn count_digits(bytes: &[u8], from: usize, Ghost(s): Ghost<Seq<char>>) -> (end: usize)
    requires
        from <= bytes@.len(),
        bytes@.len() == s.len(),
        forall|k: int| 0 <= k < bytes@.len() ==> #[trigger] bytes@[k] as int == s[k] as int,
    ensures
        from <= end <= bytes@.len(),
        end - from == digit_run(s, from as int),
        forall|k: int| from <= k < end ==> is_digit(#[trigger] s[k]),
        end < bytes@.len() ==> !is_digit(s[end as int]),
{
    let mut i: usize = from;
    while i < bytes.len()
        invariant
            from <= i <= bytes@.len(),
            bytes@.len() == s.len(),
            forall|k: int| 0 <= k < bytes@.len() ==> #[trigger] bytes@[k] as int == s[k] as int,
            digit_run(s, from as int) == (i - from) + digit_run(s, i as int),
            forall|k: int| from <= k < i ==> is_digit(#[trigger] s[k]),
        decreases bytes@.len() - i,
    {
        assert(bytes@[i as int] as int == s[i as int] as int);
        if bytes[i] < DIGIT_0 || bytes[i] > DIGIT_9 {
            assert(!is_digit(s[i as int]));
            return i;
        }
        assert(is_digit(s[i as int]));
        i += 1;
    }
    i
}

/// Whether the bytes from position `from` on spell `word`, ignoring the case
/// of ASCII letters.
fn spells_from(bytes: &[u8], from: usize, word: &str, Ghost(s): Ghost<Seq<char>>) -> (r: bool)
    requires
        from <= bytes@.len(),
        bytes@.len() == s.len(),
        forall|k: int| 0 <= k < bytes@.len() ==> #[trigger] bytes@[k] as int == s[k] as int,
        is_ascii_chars(word@),
    ensures
        r == spells(s.skip(from as int), word@),
{
    let w = match ascii_bytes(word) {
        Some(w) => w,
        None => {
            return false;
        },
    };
    let ghost body = s.skip(from as int);
    let n = bytes.len();
    if n - from != w.len() {
        return false;
    }
    let mut i: usize = 0;
    while i < w.len()
        invariant
            i <= w@.len(),
            n == bytes@.len(),
            from <= bytes@.len(),
            bytes@.len() - from == w@.len(),
            bytes@.len() == s.len(),
            w@.len() == word@.len(),
            body == s.skip(from as int),
            forall|k: int| 0 <= k < bytes@.len() ==> #[trigger] bytes@[k] as int == s[k] as int,
            forall|k: int| 0 <= k < w@.len() ==> #[trigger] w@[k] as int == word@[k] as int,
            forall|k: int| 0 <= k < i ==> lower_code(#[trigger] body[k] as int) == word@[k] as int,
        decreases w@.len() - i,
    {
        let b = bytes[from + i];
        let lowered: u8 = if UPPER_A <= b && b <= UPPER_Z {
            b + 32
        } else {
            b
        };
        assert(bytes@[from + i] as int == s[from + i] as int);
        assert(body[i as int] == s[from + i]);
        assert(w@[i as int] as int == word@[i as int] as int);
        if lowered != w[i] {
            assert(lower_code(body[i as int] as int) != word@[i as int] as int);
            return false;
        }
        i += 1;
    }
    true
}

/// Whether the bytes from position `at` on are an exponent.
fn is_exponent_at(bytes: &[u8], at: usize, Ghost(s): Ghost<Seq<char>>) -> (r: bool)
    requires
        at < bytes@.len(),
        bytes@.len() == s.len(),
        forall|k: int| 0 <= k < bytes@.len() ==> #[trigger] bytes@[k] as int == s[k] as int,
    ensures
        r == is_exponent_text(s.skip(at as int)),
{
    let n = bytes.len();
    let ghost tail = s.skip(at as int);
    proof {
        assert(bytes@[at as int] as int == s[at as int] as int);
        assert(tail[0] == s[at as int]);
    }
    if bytes[at] != LOWER_E && bytes[at] != UPPER_E {
        return false;
    }
    let signed = at + 1 < n && (bytes[at + 1] == MINUS || bytes[at + 1] == PLUS);
    proof {
        if at + 1 < n {
            assert(bytes@[at + 1] as int == s[at + 1] as int);
            assert(tail.skip(1)[0] == s[at + 1]);
        }
        assert(has_sign(tail.skip(1)) == signed);
    }
    let from = if signed {
        at + 2
    } else {
        at + 1
    };
    let ghost digits = s.skip(from as int);
    proof {
        assert(tail.skip(1) =~= s.skip(at + 1));
        if signed {
            assert(tail.skip(2) =~= s.skip(at + 2));
        }
    }
    let last = count_digits(bytes, from, Ghost(s));
    proof {
        if last == n {
            assert forall|k: int| 0 <= k < digits.len() implies is_digit(#[trigger] digits[k]) by {
                assert(digits[k] == s[from + k]);
            }
        } else {
            assert(digits[last - from] == s[last as int]);
        }
    }
    from < n && last == n
}

/// Whether the bytes from position `start` on are an unsigned decimal number.
fn is_number_at(bytes: &[u8], start: usize, Ghost(s): Ghost<Seq<char>>) -> (r: bool)
    requires
        start <= bytes@.len(),
        bytes@.len() == s.len(),
        forall|k: int| 0 <= k < bytes@.len() ==> #[trigger] bytes@[k] as int == s[k] as int,
    ensures
        r == is_number_text(s.skip(start as int)),
{
    let n = bytes.len();
    let ghost body = s.skip(start as int);
    let whole_end = count_digits(bytes, start, Ghost(s));
    proof {
        lemma_digit_run_skip(s, start as int, 0);
    }
    let point = whole_end < n && bytes[whole_end] == POINT;
    proof {
        if whole_end < n {
            assert(bytes@[whole_end as int] as int == s[whole_end as int] as int);
            assert(body[whole_end - start] == s[whole_end as int]);
        }
    }
    let end = if point {
        let fraction_end = count_digits(bytes, whole_end + 1, Ghost(s));
        proof {
            lemma_digit_run_skip(s, start as int, whole_end + 1 - start);
        }
        fraction_end
    } else {
        whole_end
    };
    let digits = if point {
        end - start - 1
    } else {
        end - start
    };
    if digits == 0 {
        return false;
    }
    if end == n {
        return true;
    }
    proof {
        assert(body.skip(end - start) =~= s.skip(end as int));
    }
    is_exponent_at(bytes, end, Ghost(s))
}

/// Whether a text is the decimal notation of a floating-point value.
pub fn is_decimal(text: &str) -> (r: bool)
    ensures
        r == is_decimal_text(text@),
{
    let bytes = match ascii_bytes(text) {
        Some(b) => b,
        None => {
            return false;
        },
    };
    let n = bytes.len();
    let ghost s = text@;
    let start: usize = if n > 0 && (bytes[0] == MINUS || bytes[0] == PLUS) {
        1
    } else {
        0
    };
    proof {
        if n > 0 {
            assert(bytes@[0] as int == s[0] as int);
        }
        assert(has_sign(s) == (start == 1));
        assert(s.skip(0) =~= s);
        lemma_special_words();
    }
    spells_from(bytes, start, "inf", Ghost(s)) || spells_from(bytes, start, "infinity", Ghost(s))
        || spells_from(bytes, start, "nan", Ghost(s)) || is_number_at(bytes, start, Ghost(s))
}

/// The names of the special values hold ASCII characters only.
proof fn lemma_special_words()
    ensures
        is_ascii_chars("inf"@),
        is_ascii_chars("infinity"@),
        is_ascii_chars("nan"@),
{
    reveal_strlit("inf");
    reveal_strlit("infinity");
    reveal_strlit("nan");
}

/// The digits that stand in a row in a text are the same when a prefix of the
/// text is left out.
pub proof fn lemma_digit_run_skip(s: Seq<char>, start: int, i: int)
    requires
        0 <= start <= s.len(),
        0 <= i,
    ensures
        digit_run(s.skip(start), i) == digit_run(s, start + i),
    decreases s.len() - start - i,
{
    if i < s.len() - start {
        assert(s.skip(start)[i] == s[start + i]);
        if is_digit(s[start + i]) {
            lemma_digit_run_skip(s, start, i + 1);
        }
    }
}

} // verus!
