//! The response-body grammar.
//!
//! The service answers with JSON envelopes.  The spec functions in this
//! module define, over character sequences, exactly which bodies are
//! syntactically valid and what typed value each one denotes: object members
//! may come in any order, unknown members are skipped, an optional member
//! may be `null` or absent, a duplicate or missing required member makes the
//! body malformed.  The executable parser is proved to return precisely what
//! the grammar denotes.

use vstd::prelude::*;
use vstd::string::StrSliceExecFns;

verus! {

/// JSON insignificant whitespace.
pub open spec fn is_ws(c: char) -> bool {
    c == ' ' || c == '\t' || c == '\n' || c == '\r'
}

/// The first index at or after `i` that does not hold whitespace.
pub open spec fn skip_ws(s: Seq<char>, i: int) -> int
    decreases s.len() - i,
{
    if 0 <= i && i < s.len() && is_ws(s[i]) {
        skip_ws(s, i + 1)
    } else {
        i
    }
}

pub proof fn lemma_skip_ws_bounds(s: Seq<char>, i: int)
    requires
        0 <= i <= s.len(),
    ensures
        i <= skip_ws(s, i) <= s.len(),
    decreases s.len() - i,
{
    if i < s.len() && is_ws(s[i]) {
        lemma_skip_ws_bounds(s, i + 1);
    }
}

/// A decimal digit.
pub open spec fn is_digit(c: char) -> bool {
    ('0' as u32) <= (c as u32) && (c as u32) <= ('9' as u32)
}

/// The first index at or after `i` that does not hold a digit.
pub open spec fn skip_digits(s: Seq<char>, i: int) -> int
    decreases s.len() - i,
{
    if 0 <= i && i < s.len() && is_digit(s[i]) {
        skip_digits(s, i + 1)
    } else {
        i
    }
}

pub proof fn lemma_skip_digits_bounds(s: Seq<char>, i: int)
    requires
        0 <= i <= s.len(),
    ensures
        i <= skip_digits(s, i) <= s.len(),
    decreases s.len() - i,
{
    if i < s.len() && is_digit(s[i]) {
        lemma_skip_digits_bounds(s, i + 1);
    }
}

/// The character a short escape stands for, if the escape exists.
pub open spec fn esc_short(c: char) -> Option<char> {
    if c == '"' { Some('"') }
    else if c == '\\' { Some('\\') }
    else if c == '/' { Some('/') }
    else if c == 'b' { Some('\u{8}') }
    else if c == 'f' { Some('\u{c}') }
    else if c == 'n' { Some('\n') }
    else if c == 'r' { Some('\r') }
    else if c == 't' { Some('\t') }
    else { None }
}

/// The value of one hexadecimal digit, upper or lower case.
pub open spec fn hex_val(c: char) -> Option<int> {
    if ('0' as u32) <= (c as u32) && (c as u32) <= ('9' as u32) {
        Some((c as u32) - ('0' as u32))
    } else if ('a' as u32) <= (c as u32) && (c as u32) <= ('f' as u32) {
        Some((c as u32) - ('a' as u32) + 10)
    } else if ('A' as u32) <= (c as u32) && (c as u32) <= ('F' as u32) {
        Some((c as u32) - ('A' as u32) + 10)
    } else {
        None
    }
}

/// The rest of a string literal, starting right after the opening quote:
/// the decoded content and the index right after the closing quote.  A raw
/// control character, a bad escape, or a `\u` escape naming a surrogate
/// makes the literal malformed.
pub open spec fn str_rest(s: Seq<char>, i: int) -> Option<(Seq<char>, int)>
    decreases s.len() - i,
{
    if !(0 <= i && i < s.len()) {
        None
    } else {
        let c = s[i];
        if c == '"' {
            Some((Seq::empty(), i + 1))
        } else if c == '\\' {
            if i + 1 < s.len() {
                let e = s[i + 1];
                if e == 'u' {
                    if i + 6 <= s.len() {
                        match (hex_val(s[i + 2]), hex_val(s[i + 3]), hex_val(s[i + 4]), hex_val(
                            s[i + 5],
                        )) {
                            (Some(h0), Some(h1), Some(h2), Some(h3)) => {
                                let v = h0 * 4096 + h1 * 256 + h2 * 16 + h3;
                                if 0xD800 <= v && v < 0xE000 {
                                    None
                                } else {
                                    match str_rest(s, i + 6) {
                                        Some((t, j)) => Some((seq![v as char] + t, j)),
                                        None => None,
                                    }
                                }
                            },
                            _ => None,
                        }
                    } else {
                        None
                    }
                } else {
                    match esc_short(e) {
                        Some(d) => match str_rest(s, i + 2) {
                            Some((t, j)) => Some((seq![d] + t, j)),
                            None => None,
                        },
                        None => None,
                    }
                }
            } else {
                None
            }
        } else if (c as u32) < 0x20 {
            None
        } else {
            match str_rest(s, i + 1) {
                Some((t, j)) => Some((seq![s[i]] + t, j)),
                None => None,
            }
        }
    }
}

pub proof fn lemma_str_rest_bounds(s: Seq<char>, i: int)
    requires
        str_rest(s, i) is Some,
    ensures
        i < (str_rest(s, i)->0).1 <= s.len(),
    decreases s.len() - i,
{
    let c = s[i];
    if c == '"' {
    } else if c == '\\' {
        if s[i + 1] == 'u' {
            lemma_str_rest_bounds(s, i + 6);
        } else {
            lemma_str_rest_bounds(s, i + 2);
        }
    } else {
        lemma_str_rest_bounds(s, i + 1);
    }
}

/// The integer part of a number: `0`, or a nonzero digit followed by more
/// digits.
pub open spec fn skip_int_part(s: Seq<char>, i: int) -> Option<int> {
    if 0 <= i && i < s.len() && is_digit(s[i]) {
        if s[i] == '0' {
            Some(i + 1)
        } else {
            Some(skip_digits(s, i))
        }
    } else {
        None
    }
}

/// An optional fraction part: `.` followed by at least one digit.
pub open spec fn skip_frac(s: Seq<char>, i: int) -> Option<int> {
    if 0 <= i && i < s.len() && s[i] == '.' {
        if skip_digits(s, i + 1) > i + 1 {
            Some(skip_digits(s, i + 1))
        } else {
            None
        }
    } else {
        Some(i)
    }
}

/// An optional exponent part: `e` or `E`, an optional sign, and at least
/// one digit.
pub open spec fn skip_exp(s: Seq<char>, i: int) -> Option<int> {
    if 0 <= i && i < s.len() && (s[i] == 'e' || s[i] == 'E') {
        if i + 1 < s.len() && (s[i + 1] == '+' || s[i + 1] == '-') {
            if skip_digits(s, i + 2) > i + 2 {
                Some(skip_digits(s, i + 2))
            } else {
                None
            }
        } else {
            if skip_digits(s, i + 1) > i + 1 {
                Some(skip_digits(s, i + 1))
            } else {
                None
            }
        }
    } else {
        Some(i)
    }
}

/// A whole JSON number, checked for shape only; its value plays no role in
/// any envelope.
pub open spec fn skip_number(s: Seq<char>, i: int) -> Option<int> {
    let a = if 0 <= i && i < s.len() && s[i] == '-' {
        i + 1
    } else {
        i
    };
    match skip_int_part(s, a) {
        None => None,
        Some(b) => match skip_frac(s, b) {
            None => None,
            Some(c) => skip_exp(s, c),
        },
    }
}


/// The four-character literal `true` stands at `i`.
pub open spec fn lit_true(s: Seq<char>, i: int) -> bool {
    i + 4 <= s.len() && s[i] == 't' && s[i + 1] == 'r' && s[i + 2] == 'u' && s[i + 3] == 'e'
}

/// The five-character literal `false` stands at `i`.
pub open spec fn lit_false(s: Seq<char>, i: int) -> bool {
    i + 5 <= s.len() && s[i] == 'f' && s[i + 1] == 'a' && s[i + 2] == 'l' && s[i + 3] == 's'
        && s[i + 4] == 'e'
}

/// The four-character literal `null` stands at `i`.
pub open spec fn lit_null(s: Seq<char>, i: int) -> bool {
    i + 4 <= s.len() && s[i] == 'n' && s[i + 1] == 'u' && s[i + 2] == 'l' && s[i + 3] == 'l'
}

/// One JSON value of any shape, skipped: the index right after it.  Unknown
/// members of an envelope are checked against this part of the grammar and
/// their content is discarded.
pub open spec fn skip_value(s: Seq<char>, i: int) -> Option<int>
    decreases s.len() - i, 0int,
{
    if !(0 <= i && i < s.len()) {
        None
    } else {
        let c = s[i];
        if c == '"' {
            match str_rest(s, i + 1) {
                Some((t, j)) => Some(j),
                None => None,
            }
        } else if c == '{' {
            skip_obj_rest(s, i + 1, true)
        } else if c == '[' {
            skip_arr_rest(s, i + 1, true)
        } else if c == 't' {
            if lit_true(s, i) {
                Some(i + 4)
            } else {
                None
            }
        } else if c == 'f' {
            if lit_false(s, i) {
                Some(i + 5)
            } else {
                None
            }
        } else if c == 'n' {
            if lit_null(s, i) {
                Some(i + 4)
            } else {
                None
            }
        } else {
            skip_number(s, i)
        }
    }
}

/// The rest of an object being skipped: `i` stands right after the opening
/// brace (`first`) or right after a comma.
pub open spec fn skip_obj_rest(s: Seq<char>, i: int, first: bool) -> Option<int>
    decreases s.len() - i, 1int,
{
    if !(0 <= i && i <= s.len()) {
        None
    } else {
        let j = skip_ws(s, i);
        if !(i <= j && j < s.len()) {
            None
        } else if first && s[j] == '}' {
            Some(j + 1)
        } else if s[j] == '"' {
            match str_rest(s, j + 1) {
                None => None,
                Some((key, k)) => {
                    if !(j + 1 < k && k <= s.len()) {
                        None
                    } else {
                        let l = skip_ws(s, k);
                        if !(k <= l && l < s.len()) {
                            None
                        } else if s[l] == ':' {
                            let m = skip_ws(s, l + 1);
                            if !(l + 1 <= m && m <= s.len()) {
                                None
                            } else {
                                match skip_value(s, m) {
                                    None => None,
                                    Some(v_end) => {
                                        if !(m < v_end && v_end <= s.len()) {
                                            None
                                        } else {
                                            let n = skip_ws(s, v_end);
                                            if !(v_end <= n && n < s.len()) {
                                                None
                                            } else if s[n] == ',' {
                                                skip_obj_rest(s, n + 1, false)
                                            } else if s[n] == '}' {
                                                Some(n + 1)
                                            } else {
                                                None
                                            }
                                        }
                                    },
                                }
                            }
                        } else {
                            None
                        }
                    }
                },
            }
        } else {
            None
        }
    }
}

/// The rest of an array being skipped: `i` stands right after the opening
/// bracket (`first`) or right after a comma.
pub open spec fn skip_arr_rest(s: Seq<char>, i: int, first: bool) -> Option<int>
    decreases s.len() - i, 1int,
{
    if !(0 <= i && i <= s.len()) {
        None
    } else {
        let j = skip_ws(s, i);
        if !(i <= j && j < s.len()) {
            None
        } else if first && s[j] == ']' {
            Some(j + 1)
        } else {
            match skip_value(s, j) {
                None => None,
                Some(v_end) => {
                    if !(j < v_end && v_end <= s.len()) {
                        None
                    } else {
                        let n = skip_ws(s, v_end);
                        if !(v_end <= n && n < s.len()) {
                            None
                        } else if s[n] == ',' {
                            skip_arr_rest(s, n + 1, false)
                        } else if s[n] == ']' {
                            Some(n + 1)
                        } else {
                            None
                        }
                    }
                },
            }
        }
    }
}





/// Relies on char::from_u32: the result is the character with exactly that
/// code, and absent exactly for surrogate codes and codes beyond the last
/// code point.
#[verifier::external_body]
fn char_from_u32(v: u32) -> (r: Option<char>)
    ensures
        r matches Some(c) ==> c as u32 == v,
        (r is None) <==> (0xD800 <= v < 0xE000 || v > 0x10FFFF),
{
    char::from_u32(v)
}

/// The characters of a string, one by one.
pub fn str_to_chars(s: &str) -> (v: Vec<char>)
    ensures
        v@ == s@,
{
    let n = s.unicode_len();
    let mut v: Vec<char> = Vec::new();
    let mut i: usize = 0;
    while i < n
        invariant
            n == s@.len(),
            i <= n,
            v@ == s@.subrange(0, i as int),
        decreases n - i,
    {
        v.push(s.get_char(i));
        proof {
            assert(v@ =~= s@.subrange(0, i + 1));
        }
        i = i + 1;
    }
    proof {
        assert(s@.subrange(0, n as int) =~= s@);
    }
    v
}

/// Whitespace skipping, executably.
pub fn skip_ws_x(s: &Vec<char>, i: usize) -> (j: usize)
    requires
        i <= s@.len(),
    ensures
        j as int == skip_ws(s@, i as int),
        i <= j <= s@.len(),
{
    let mut cur: usize = i;
    while cur < s.len() && is_ws_x(s[cur])
        invariant
            i <= cur <= s@.len(),
            skip_ws(s@, i as int) == skip_ws(s@, cur as int),
        decreases s@.len() - cur,
    {
        cur = cur + 1;
    }
    proof {
        lemma_skip_ws_bounds(s@, cur as int);
    }
    cur
}

/// One whitespace character, executably.
fn is_ws_x(c: char) -> (r: bool)
    ensures
        r == is_ws(c),
{
    c == ' ' || c == '\t' || c == '\n' || c == '\r'
}

/// One digit, executably.
fn is_digit_x(c: char) -> (r: bool)
    ensures
        r == is_digit(c),
{
    ('0' as u32) <= (c as u32) && (c as u32) <= ('9' as u32)
}

/// Digit skipping, executably.
fn skip_digits_x(s: &Vec<char>, i: usize) -> (j: usize)
    requires
        i <= s@.len(),
    ensures
        j as int == skip_digits(s@, i as int),
        i <= j <= s@.len(),
{
    let mut cur: usize = i;
    while cur < s.len() && is_digit_x(s[cur])
        invariant
            i <= cur <= s@.len(),
            skip_digits(s@, i as int) == skip_digits(s@, cur as int),
        decreases s@.len() - cur,
    {
        cur = cur + 1;
    }
    proof {
        lemma_skip_digits_bounds(s@, cur as int);
    }
    cur
}

/// One hexadecimal digit's value, executably.
fn hex_val_x(c: char) -> (r: Option<u32>)
    ensures
        match r {
            Some(v) => hex_val(c) == Some(v as int) && v < 16,
            None => hex_val(c) is None,
        },
{
    if ('0' as u32) <= (c as u32) && (c as u32) <= ('9' as u32) {
        Some((c as u32) - ('0' as u32))
    } else if ('a' as u32) <= (c as u32) && (c as u32) <= ('f' as u32) {
        Some((c as u32) - ('a' as u32) + 10)
    } else if ('A' as u32) <= (c as u32) && (c as u32) <= ('F' as u32) {
        Some((c as u32) - ('A' as u32) + 10)
    } else {
        None
    }
}

/// One short escape's character, executably.
fn esc_short_x(c: char) -> (r: Option<char>)
    ensures
        r == esc_short(c),
{
    if c == '"' { Some('"') }
    else if c == '\\' { Some('\\') }
    else if c == '/' { Some('/') }
    else if c == 'b' { Some('\u{8}') }
    else if c == 'f' { Some('\u{c}') }
    else if c == 'n' { Some('\n') }
    else if c == 'r' { Some('\r') }
    else if c == 't' { Some('\t') }
    else { None }
}

/// A string literal's rest, executably: from right after the opening quote
/// to right after the closing one, decoding escapes into the content.
pub fn str_rest_x(s: &Vec<char>, i: usize) -> (r: Option<(String, usize)>)
    requires
        i <= s@.len(),
    ensures
        match r {
            Some(p) => str_rest(s@, i as int) matches Some(q) && q.0 == p.0@ && q.1 == p.1 as int
                && i < p.1 <= s@.len(),
            None => str_rest(s@, i as int) is None,
        },
{
    let mut cur: usize = i;
    let mut acc = String::new();
    loop
        invariant
            i <= cur <= s@.len(),
            (str_rest(s@, i as int) is Some) == (str_rest(s@, cur as int) is Some),
            str_rest(s@, cur as int) matches Some(q) ==> str_rest(s@, i as int) matches Some(p)
                && p.0 == acc@ + q.0 && p.1 == q.1,
        decreases s@.len() - cur,
    {
        if cur >= s.len() {
            return None;
        }
        let c = s[cur];
        if c == '"' {
            proof {
                assert(str_rest(s@, cur as int) matches Some(q) && q.0 == Seq::<char>::empty()
                    && q.1 == cur + 1);
                assert(acc@ + Seq::<char>::empty() =~= acc@);
                lemma_str_rest_bounds(s@, i as int);
            }
            return Some((acc, cur + 1));
        } else if c == '\\' {
            if s.len() - cur < 2 {
                return None;
            }
            let e = s[cur + 1];
            if e == 'u' {
                if s.len() - cur < 6 {
                    return None;
                }
                let h0 = hex_val_x(s[cur + 2]);
                let h1 = hex_val_x(s[cur + 3]);
                let h2 = hex_val_x(s[cur + 4]);
                let h3 = hex_val_x(s[cur + 5]);
                match (h0, h1, h2, h3) {
                    (Some(v0), Some(v1), Some(v2), Some(v3)) => {
                        let v: u32 = v0 * 4096 + v1 * 256 + v2 * 16 + v3;
                        if 0xD800 <= v && v < 0xE000 {
                            return None;
                        }
                        match char_from_u32(v) {
                            Some(d) => {
                                let ghost cur0 = cur as int;
                                let ghost acc0 = acc@;
                                crate::json::push_char(&mut acc, d);
                                cur = cur + 6;
                                proof {
                                    assert(d as u32 == v);
                                    vstd::utf8::char_u32_cast(d, v);
                                    assert(v as int == v0 * 4096 + v1 * 256 + v2 * 16 + v3);
                                    assert(d == (v0 * 4096 + v1 * 256 + v2 * 16 + v3) as char);
                                    assert(str_rest(s@, cur0) == (match str_rest(s@, cur as int) {
                                        Some((t, j)) => Some((seq![d] + t, j)),
                                        None => None,
                                    }));
                                    if str_rest(s@, cur as int) is Some {
                                        let t = str_rest(s@, cur as int)->0;
                                        assert(acc0 + (seq![d] + t.0) =~= acc@ + t.0);
                                    }
                                }
                            },
                            None => {
                                proof {
                                    assert(v <= 0xFFFF);
                                    assert(false);
                                }
                                return None;
                            },
                        }
                    },
                    _ => {
                        return None;
                    },
                }
            } else {
                match esc_short_x(e) {
                    Some(d) => {
                        let ghost cur0 = cur as int;
                        let ghost acc0 = acc@;
                        crate::json::push_char(&mut acc, d);
                        cur = cur + 2;
                        proof {
                            assert(str_rest(s@, cur0) == (match str_rest(s@, cur as int) {
                                Some((t, j)) => Some((seq![d] + t, j)),
                                None => None,
                            }));
                            if str_rest(s@, cur as int) is Some {
                                let t = str_rest(s@, cur as int)->0;
                                assert(acc0 + (seq![d] + t.0) =~= acc@ + t.0);
                            }
                        }
                    },
                    None => {
                        return None;
                    },
                }
            }
        } else if (c as u32) < 0x20 {
            return None;
        } else {
            let ghost cur0 = cur as int;
            let ghost acc0 = acc@;
            crate::json::push_char(&mut acc, c);
            cur = cur + 1;
            proof {
                assert(str_rest(s@, cur0) == (match str_rest(s@, cur as int) {
                    Some((t, j)) => Some((seq![c] + t, j)),
                    None => None,
                }));
                if str_rest(s@, cur as int) is Some {
                    let t = str_rest(s@, cur as int)->0;
                    assert(acc0 + (seq![c] + t.0) =~= acc@ + t.0);
                }
            }
        }
    }
}


/// A number's integer part, executably.
fn skip_int_part_x(s: &Vec<char>, i: usize) -> (r: Option<usize>)
    requires
        i <= s@.len(),
    ensures
        match r {
            Some(j) => skip_int_part(s@, i as int) == Some(j as int) && i < j <= s@.len(),
            None => skip_int_part(s@, i as int) is None,
        },
{
    if i < s.len() && is_digit_x(s[i]) {
        if s[i] == '0' {
            Some(i + 1)
        } else {
            let j = skip_digits_x(s, i);
            proof {
                assert(skip_digits(s@, i as int) == skip_digits(s@, i + 1));
                lemma_skip_digits_bounds(s@, i + 1);
            }
            Some(j)
        }
    } else {
        None
    }
}

/// A number's fraction part, executably.
fn skip_frac_x(s: &Vec<char>, i: usize) -> (r: Option<usize>)
    requires
        i <= s@.len(),
    ensures
        match r {
            Some(j) => skip_frac(s@, i as int) == Some(j as int) && i <= j <= s@.len(),
            None => skip_frac(s@, i as int) is None,
        },
{
    if i < s.len() && s[i] == '.' {
        let d = skip_digits_x(s, i + 1);
        if d > i + 1 {
            Some(d)
        } else {
            None
        }
    } else {
        Some(i)
    }
}

/// A number's exponent part, executably.
fn skip_exp_x(s: &Vec<char>, i: usize) -> (r: Option<usize>)
    requires
        i <= s@.len(),
    ensures
        match r {
            Some(j) => skip_exp(s@, i as int) == Some(j as int) && i <= j <= s@.len(),
            None => skip_exp(s@, i as int) is None,
        },
{
    if i < s.len() && (s[i] == 'e' || s[i] == 'E') {
        if i + 1 < s.len() && (s[i + 1] == '+' || s[i + 1] == '-') {
            let d = skip_digits_x(s, i + 2);
            if d > i + 2 {
                Some(d)
            } else {
                None
            }
        } else {
            let d = skip_digits_x(s, i + 1);
            if d > i + 1 {
                Some(d)
            } else {
                None
            }
        }
    } else {
        Some(i)
    }
}

/// A whole number, executably.
fn skip_number_x(s: &Vec<char>, i: usize) -> (r: Option<usize>)
    requires
        i <= s@.len(),
    ensures
        match r {
            Some(j) => skip_number(s@, i as int) == Some(j as int) && i < j <= s@.len(),
            None => skip_number(s@, i as int) is None,
        },
{
    let a = if i < s.len() && s[i] == '-' {
        i + 1
    } else {
        i
    };
    match skip_int_part_x(s, a) {
        None => None,
        Some(b) => match skip_frac_x(s, b) {
            None => None,
            Some(c) => skip_exp_x(s, c),
        },
    }
}

/// The literal `true` at `i`, executably.
fn lit_true_x(s: &Vec<char>, i: usize) -> (r: bool)
    requires
        i <= s@.len(),
    ensures
        r == lit_true(s@, i as int),
{
    s.len() - i >= 4 && s[i] == 't' && s[i + 1] == 'r' && s[i + 2] == 'u' && s[i + 3] == 'e'
}

/// The literal `false` at `i`, executably.
fn lit_false_x(s: &Vec<char>, i: usize) -> (r: bool)
    requires
        i <= s@.len(),
    ensures
        r == lit_false(s@, i as int),
{
    s.len() - i >= 5 && s[i] == 'f' && s[i + 1] == 'a' && s[i + 2] == 'l' && s[i + 3] == 's'
        && s[i + 4] == 'e'
}

/// The literal `null` at `i`, executably.
pub fn lit_null_x(s: &Vec<char>, i: usize) -> (r: bool)
    requires
        i <= s@.len(),
    ensures
        r == lit_null(s@, i as int),
{
    s.len() - i >= 4 && s[i] == 'n' && s[i + 1] == 'u' && s[i + 2] == 'l' && s[i + 3] == 'l'
}

/// One value of any shape skipped, executably.
pub fn skip_value_x(s: &Vec<char>, i: usize) -> (r: Option<usize>)
    requires
        i <= s@.len(),
    ensures
        match r {
            Some(j) => skip_value(s@, i as int) == Some(j as int) && i < j <= s@.len(),
            None => skip_value(s@, i as int) is None,
        },
    decreases s@.len() - i, 0int,
{
    if i >= s.len() {
        return None;
    }
    let c = s[i];
    if c == '"' {
        match str_rest_x(s, i + 1) {
            Some((_t, j)) => Some(j),
            None => None,
        }
    } else if c == '{' {
        skip_obj_rest_x(s, i + 1, true)
    } else if c == '[' {
        skip_arr_rest_x(s, i + 1, true)
    } else if c == 't' {
        if lit_true_x(s, i) {
            Some(i + 4)
        } else {
            None
        }
    } else if c == 'f' {
        if lit_false_x(s, i) {
            Some(i + 5)
        } else {
            None
        }
    } else if c == 'n' {
        if lit_null_x(s, i) {
            Some(i + 4)
        } else {
            None
        }
    } else {
        skip_number_x(s, i)
    }
}

/// The rest of an object skipped, executably.
fn skip_obj_rest_x(s: &Vec<char>, i: usize, first: bool) -> (r: Option<usize>)
    requires
        i <= s@.len(),
    ensures
        match r {
            Some(j) => skip_obj_rest(s@, i as int, first) == Some(j as int) && i <= j <= s@.len(),
            None => skip_obj_rest(s@, i as int, first) is None,
        },
    decreases s@.len() - i, 1int,
{
    let j = skip_ws_x(s, i);
    if j >= s.len() {
        return None;
    }
    if first && s[j] == '}' {
        return Some(j + 1);
    }
    if s[j] != '"' {
        return None;
    }
    match str_rest_x(s, j + 1) {
        None => None,
        Some((_key, k)) => {
            let l = skip_ws_x(s, k);
            if l >= s.len() {
                return None;
            }
            if s[l] != ':' {
                return None;
            }
            let m = skip_ws_x(s, l + 1);
            match skip_value_x(s, m) {
                None => None,
                Some(v_end) => {
                    let n = skip_ws_x(s, v_end);
                    if n >= s.len() {
                        return None;
                    }
                    if s[n] == ',' {
                        skip_obj_rest_x(s, n + 1, false)
                    } else if s[n] == '}' {
                        Some(n + 1)
                    } else {
                        None
                    }
                },
            }
        },
    }
}

/// The rest of an array skipped, executably.
fn skip_arr_rest_x(s: &Vec<char>, i: usize, first: bool) -> (r: Option<usize>)
    requires
        i <= s@.len(),
    ensures
        match r {
            Some(j) => skip_arr_rest(s@, i as int, first) == Some(j as int) && i <= j <= s@.len(),
            None => skip_arr_rest(s@, i as int, first) is None,
        },
    decreases s@.len() - i, 1int,
{
    let j = skip_ws_x(s, i);
    if j >= s.len() {
        return None;
    }
    if first && s[j] == ']' {
        return Some(j + 1);
    }
    match skip_value_x(s, j) {
        None => None,
        Some(v_end) => {
            let n = skip_ws_x(s, v_end);
            if n >= s.len() {
                return None;
            }
            if s[n] == ',' {
                skip_arr_rest_x(s, n + 1, false)
            } else if s[n] == ']' {
                Some(n + 1)
            } else {
                None
            }
        },
    }
}

} // verus!
