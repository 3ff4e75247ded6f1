//! Validation of numbers typed as text: whole numbers, and decimals written
//! with a comma or a period.

use vstd::prelude::*;
use crate::helpers::decimal::{digit_value, is_digit};

verus! {

/// `c` is a plus or a minus sign.
pub open spec fn is_sign(c: char) -> bool {
    c == '+' || c == '-'
}

/// `c` separates whole part and fraction: a period, or the comma that is
/// read as one.
pub open spec fn is_separator(c: char) -> bool {
    c == '.' || c == ','
}

/// `c` introduces an exponent.
pub open spec fn is_exponent_mark(c: char) -> bool {
    c == 'e' || c == 'E'
}

/// `c` is the lower-case ASCII letter `letter` or its upper-case form.
pub open spec fn same_letter(c: char, letter: char) -> bool {
    c == letter || c as int + 32 == letter as int
}

/// How many characters a leading sign takes: one or none.
pub open spec fn sign_length(s: Seq<char>) -> int {
    if s.len() > 0 && is_sign(s[0]) {
        1
    } else {
        0
    }
}

/// Every character of `s` from `from` up to `to` is a digit.
pub open spec fn digits_between(s: Seq<char>, from: int, to: int) -> bool {
    forall|i: int| from <= i < to ==> is_digit(#[trigger] s[i])
}

/// The number that a run of digits denotes, read from the left.
pub open spec fn digits_value(s: Seq<char>) -> nat
    decreases s.len(),
{
    if s.len() == 0 {
        0
    } else {
        digits_value(s.drop_last()) * 10 + digit_value(s.last())
    }
}

/// `s` denotes a 32-bit signed integer: an optional sign, then one or more
/// digits whose value, with the sign, lies between -2147483648 and 2147483647.
pub open spec fn is_i32_text(s: Seq<char>) -> bool {
    let from = sign_length(s);
    let magnitude = digits_value(s.subrange(from, s.len() as int));
    &&& from < s.len()
    &&& digits_between(s, from, s.len() as int)
    &&& if s[0] == '-' {
        magnitude <= 2147483648
    } else {
        magnitude <= 2147483647
    }
}

/// From `at` to its end `s` is an exponent: the mark, an optional sign, and
/// one or more digits.
pub open spec fn is_exponent_at(s: Seq<char>, at: int) -> bool {
    let digits = if at + 1 < s.len() && is_sign(s[at + 1]) {
        at + 2
    } else {
        at + 1
    };
    &&& 0 <= at < s.len()
    &&& is_exponent_mark(s[at])
    &&& digits < s.len()
    &&& digits_between(s, digits, s.len() as int)
}

/// From `from` to its end `s` is a decimal number whose whole digits end
/// at `p` and whose mantissa ends at `q`: digits, optionally a separator
/// and more digits, with at least one digit in all, optionally an exponent.
pub open spec fn number_split(s: Seq<char>, from: int, p: int, q: int) -> bool {
    &&& 0 <= from <= p <= q <= s.len()
    &&& digits_between(s, from, p)
    &&& (q == p || (is_separator(s[p]) && digits_between(s, p + 1, q)))
    &&& (p > from || q > p + 1)
    &&& (q == s.len() || is_exponent_at(s, q))
}

/// From `from` to its end `s` is a decimal number.
pub open spec fn is_number_from(s: Seq<char>, from: int) -> bool {
    exists|p: int, q: int| number_split(s, from, p, q)
}

/// From `from` to its end `s` spells `word`, in letters of either case.
pub open spec fn is_word_from(s: Seq<char>, from: int, word: Seq<char>) -> bool {
    &&& s.len() - from == word.len()
    &&& forall|i: int| 0 <= i < word.len() ==> same_letter(#[trigger] s[from + i], word[i])
}

/// From `from` to its end `s` names an infinity or a not-a-number.
pub open spec fn is_special_from(s: Seq<char>, from: int) -> bool {
    ||| is_word_from(s, from, seq!['i', 'n', 'f'])
    ||| is_word_from(s, from, seq!['n', 'a', 'n'])
    ||| is_word_from(s, from, seq!['i', 'n', 'f', 'i', 'n', 'i', 't', 'y'])
}

/// `s` denotes a floating-point number once its commas are read as periods:
/// an optional sign, then a decimal number or one of the special names.
pub open spec fn is_float_text(s: Seq<char>) -> bool {
    is_special_from(s, sign_length(s)) || is_number_from(s, sign_length(s))
}

/// A run of digits that starts at `from` ends where the first other
/// character stands, and nowhere else.
pub proof fn lemma_digit_run_end(s: Seq<char>, from: int, a: int, b: int)
    requires
        0 <= from <= a <= s.len(),
        from <= b <= s.len(),
        digits_between(s, from, a),
        digits_between(s, from, b),
        a == s.len() || !is_digit(s[a]),
        b == s.len() || !is_digit(s[b]),
    ensures
        a == b,
{
    if a < b {
        assert(is_digit(s[a]));
    }
    if b < a {
        assert(is_digit(s[b]));
    }
}

/// Reading one more digit multiplies the value by ten and adds the digit.
pub proof fn lemma_digits_value_push(s: Seq<char>, c: char)
    ensures
        digits_value(s.push(c)) == digits_value(s) * 10 + digit_value(c),
{
    assert(s.push(c).drop_last() =~= s);
}

/// The value of a run of digits is at least the value of each of its
/// beginnings.
pub proof fn lemma_digits_value_grows(s: Seq<char>, k: int)
    requires
        0 <= k <= s.len(),
    ensures
        digits_value(s.subrange(0, k)) <= digits_value(s),
    decreases s.len(),
{
    if k == s.len() {
        assert(s.subrange(0, k) =~= s);
    } else {
        lemma_digits_value_grows(s.drop_last(), k);
        assert(s.drop_last().subrange(0, k) =~= s.subrange(0, k));
    }
}

/// The characters of a text, in order.
pub fn characters(text: &str) -> (chars: Vec<char>)
    ensures
        chars@ == text@,
{
    let mut chars: Vec<char> = Vec::new();
    for c in it: text.chars()
        invariant
            it.seq() == text@,
            chars@ == text@.subrange(0, it.index() as int),
    {
        chars.push(c);
        assert(chars@ =~= text@.subrange(0, it.index() + 1));
    }
    assert(chars@ =~= text@);
    chars
}

/// The end of the run of digits that starts at `from`.
pub fn digits_end(chars: &Vec<char>, from: usize) -> (end: usize)
    requires
        from <= chars.len(),
    ensures
        from <= end <= chars.len(),
        digits_between(chars@, from as int, end as int),
        end == chars.len() || !is_digit(chars@[end as int]),
{
    let mut end: usize = from;
    while end < chars.len() && chars[end] >= '0' && chars[end] <= '9'
        invariant
            from <= end <= chars.len(),
            digits_between(chars@, from as int, end as int),
        decreases chars.len() - end,
    {
        end += 1;
    }
    end
}

/// Whether the text is empty or denotes a 32-bit signed integer.
pub fn validate_int(value: &str) -> (valid: bool)
    ensures
        valid == (value@.len() == 0 || is_i32_text(value@)),
{
    let chars = characters(value);
    let n = chars.len();
    if n == 0 {
        return true;
    }
    let negative = chars[0] == '-';
    let from: usize = if chars[0] == '-' || chars[0] == '+' {
        1
    } else {
        0
    };
    if from == n {
        return false;
    }
    let limit: u64 = if negative {
        2147483648
    } else {
        2147483647
    };
    let ghost digits = chars@.subrange(from as int, n as int);
    let mut magnitude: u64 = 0;
    let mut i: usize = from;
    while i < n
        invariant
            from <= i <= n,
            n == chars.len(),
            chars@ == value@,
            from == sign_length(chars@),
            limit == if chars@[0] == '-' { 2147483648u64 } else { 2147483647u64 },
            digits == chars@.subrange(from as int, n as int),
            digits_between(chars@, from as int, i as int),
            magnitude == digits_value(digits.subrange(0, i - from)),
            magnitude <= limit <= 2147483648,
        decreases n - i,
    {
        let c = chars[i];
        if !(c >= '0' && c <= '9') {
            return false;
        }
        let digit: u64 = (c as u64) - ('0' as u64);
        proof {
            lemma_digits_value_push(digits.subrange(0, i - from), c);
            assert(digits.subrange(0, i - from).push(c) =~= digits.subrange(0, i + 1 - from));
        }
        magnitude = magnitude * 10 + digit;
        if magnitude > limit {
            proof {
                lemma_digits_value_grows(digits, i + 1 - from);
            }
            return false;
        }
        i += 1;
    }
    assert(digits.subrange(0, n - from) =~= digits);
    true
}

/// Whether `chars` holds the letter `lower` or `upper` at `at`.
fn letter_at(chars: &Vec<char>, at: usize, lower: char, upper: char) -> (found: bool)
    requires
        at < chars.len(),
        upper as int + 32 == lower as int,
    ensures
        found == same_letter(chars@[at as int], lower),
{
    chars[at] == lower || chars[at] == upper
}

/// Whether `chars` from `from` on names an infinity or a not-a-number.
fn special_from(chars: &Vec<char>, from: usize) -> (found: bool)
    requires
        from <= chars.len(),
    ensures
        found == is_special_from(chars@, from as int),
{
    let n = chars.len() - from;
    let ghost s = chars@;
    let ghost inf = seq!['i', 'n', 'f'];
    let ghost nan = seq!['n', 'a', 'n'];
    let ghost infinity = seq!['i', 'n', 'f', 'i', 'n', 'i', 't', 'y'];
    if n == 3 {
        let is_inf = letter_at(chars, from, 'i', 'I') && letter_at(chars, from + 1, 'n', 'N')
            && letter_at(chars, from + 2, 'f', 'F');
        let is_nan = letter_at(chars, from, 'n', 'N') && letter_at(chars, from + 1, 'a', 'A')
            && letter_at(chars, from + 2, 'n', 'N');
        proof {
            assert(is_word_from(s, from as int, inf) ==> is_inf) by {
                if is_word_from(s, from as int, inf) {
                    assert(same_letter(s[from + 0], inf[0]));
                    assert(same_letter(s[from + 1], inf[1]));
                    assert(same_letter(s[from + 2], inf[2]));
                }
            }
            assert(is_word_from(s, from as int, nan) ==> is_nan) by {
                if is_word_from(s, from as int, nan) {
                    assert(same_letter(s[from + 0], nan[0]));
                    assert(same_letter(s[from + 1], nan[1]));
                    assert(same_letter(s[from + 2], nan[2]));
                }
            }
        }
        is_inf || is_nan
    } else if n == 8 {
        let found = letter_at(chars, from, 'i', 'I') && letter_at(chars, from + 1, 'n', 'N')
            && letter_at(chars, from + 2, 'f', 'F') && letter_at(chars, from + 3, 'i', 'I')
            && letter_at(chars, from + 4, 'n', 'N') && letter_at(chars, from + 5, 'i', 'I')
            && letter_at(chars, from + 6, 't', 'T') && letter_at(chars, from + 7, 'y', 'Y');
        proof {
            assert(is_word_from(s, from as int, infinity) ==> found) by {
                if is_word_from(s, from as int, infinity) {
                    assert(same_letter(s[from + 0], infinity[0]));
                    assert(same_letter(s[from + 1], infinity[1]));
                    assert(same_letter(s[from + 2], infinity[2]));
                    assert(same_letter(s[from + 3], infinity[3]));
                    assert(same_letter(s[from + 4], infinity[4]));
                    assert(same_letter(s[from + 5], infinity[5]));
                    assert(same_letter(s[from + 6], infinity[6]));
                    assert(same_letter(s[from + 7], infinity[7]));
                }
            }
        }
        found
    } else {
        false
    }
}

/// Whether `chars` from `at` on is an exponent.
fn exponent_at(chars: &Vec<char>, at: usize) -> (found: bool)
    requires
        at < chars.len(),
    ensures
        found == is_exponent_at(chars@, at as int),
{
    let n = chars.len();
    if !(chars[at] == 'e' || chars[at] == 'E') {
        return false;
    }
    let digits: usize = if at + 1 < n && (chars[at + 1] == '+' || chars[at + 1] == '-') {
        at + 2
    } else {
        at + 1
    };
    if digits >= n {
        return false;
    }
    let end = digits_end(chars, digits);
    proof {
        if digits_between(chars@, digits as int, n as int) {
            lemma_digit_run_end(chars@, digits as int, end as int, n as int);
        }
    }
    end == n
}

/// Whether `chars` from `from` on is a decimal number.
fn number_from(chars: &Vec<char>, from: usize) -> (found: bool)
    requires
        from <= chars.len(),
    ensures
        found == is_number_from(chars@, from as int),
{
    let n = chars.len();
    let ghost s = chars@;
    let p = digits_end(chars, from);
    let q = if p < n && (chars[p] == '.' || chars[p] == ',') {
        digits_end(chars, p + 1)
    } else {
        p
    };
    let found = if p == from && q - p <= 1 {
        false
    } else if q == n {
        true
    } else {
        exponent_at(chars, q)
    };
    proof {
        if found {
            assert(number_split(s, from as int, p as int, q as int));
        } else {
            assert forall|other_p: int, other_q: int| !number_split(s, from as int, other_p, other_q) by {
                if number_split(s, from as int, other_p, other_q) {
                    lemma_digit_run_end(s, from as int, p as int, other_p);
                    if other_q > other_p {
                        lemma_digit_run_end(s, p + 1, q as int, other_q);
                    }
                }
            }
        }
    }
    found
}

/// Whether the text is empty or denotes a floating-point number once its
/// commas are read as periods.
pub fn validate_float(value: &str) -> (valid: bool)
    ensures
        valid == (value@.len() == 0 || is_float_text(value@)),
{
    let chars = characters(value);
    if chars.len() == 0 {
        return true;
    }
    let from: usize = if chars[0] == '-' || chars[0] == '+' {
        1
    } else {
        0
    };
    special_from(&chars, from) || number_from(&chars, from)
}

} // verus!
