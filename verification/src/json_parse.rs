//! A recursive-descent JSON parser producing [`Json`] values.
//!
//! The parser accepts standard JSON text: whitespace between tokens, string
//! escapes including `\uXXXX` and surrogate pairs, and arbitrary nesting up
//! to a fixed depth.  Integers that fit an `i64` become [`Json::Int`]; any
//! other number keeps its verbatim token as [`Json::NumRaw`].

use vstd::prelude::*;
use crate::json::{Json, JsonV, json_view, views_of, lemma_views_of, member_views_of,
    lemma_member_views_of};
use crate::strutil::{push_char, str_chars};

verus! {

/// Nesting deeper than this is rejected rather than risking the stack.
pub const MAX_DEPTH: u32 = 512;

/// The character with this Unicode scalar value.
pub open spec fn char_of_scalar(v: int) -> char {
    choose|c: char| (#[trigger] (c as u32)) == v
}

/// Relies on `char::from_u32`: `Some` exactly for valid Unicode scalar
/// values (below the surrogate range or between it and `0x10FFFF`), and the
/// returned character has that scalar value — it is the one character
/// [`char_of_scalar`] names, since a character is its scalar value.
#[verifier::external_body]
fn char_from_u32(v: u32) -> (r: Option<char>)
    ensures
        r is Some <==> (v < 0xD800 || (0xE000 <= v && v <= 0x10FFFF)),
        r matches Some(c) ==> c as u32 == v && c == char_of_scalar(v as int),
{
    char::from_u32(v)
}

/// What follows is the specification-level reading of a JSON text: one
/// function per layer of the grammar, mirrored exactly by the executable
/// parser below, whose contracts tie each result to these functions.
///
/// The first index at or after `i` holding no whitespace.
pub open spec fn sp_ws(s: Seq<char>, i: int) -> int
    decreases s.len() - i,
{
    if 0 <= i && i < s.len() && (s[i] == ' ' || s[i] == '\t' || s[i] == '\n' || s[i] == '\r') {
        sp_ws(s, i + 1)
    } else {
        i
    }
}

/// The numeric value of a hexadecimal digit character, if it is one.
pub open spec fn sp_hex_val(c: char) -> Option<int> {
    if 48 <= c as u32 <= 57 {
        Some((c as u32) as int - 48)
    } else if 97 <= c as u32 <= 102 {
        Some((c as u32) as int - 97 + 10)
    } else if 65 <= c as u32 <= 70 {
        Some((c as u32) as int - 65 + 10)
    } else {
        None
    }
}

/// The value of the four hexadecimal digits at `i`, if they are there.
pub open spec fn sp_hex4(s: Seq<char>, i: int) -> Option<int> {
    if i + 4 > s.len() {
        None
    } else {
        match (sp_hex_val(s[i]), sp_hex_val(s[i + 1]), sp_hex_val(s[i + 2]), sp_hex_val(s[i + 3])) {
            (Some(d0), Some(d1), Some(d2), Some(d3)) => Some(((d0 * 16 + d1) * 16 + d2) * 16 + d3),
            _ => None,
        }
    }
}

/// Prepends one decoded character to the rest of a string body.
pub open spec fn sp_cons_char(c: char, rest: Option<(Seq<char>, int)>) -> Option<(Seq<char>, int)> {
    match rest {
        Some((t, n)) => Some((seq![c] + t, n)),
        None => None,
    }
}

/// The decoded body of a string literal read from `p` up to its closing
/// quote, with the index just past the quote.
pub open spec fn sp_string_body(s: Seq<char>, p: int) -> Option<(Seq<char>, int)>
    decreases s.len() - p,
{
    if p < 0 || p >= s.len() {
        None
    } else if s[p] == '"' {
        Some((Seq::empty(), p + 1))
    } else if s[p] == '\\' {
        if p + 1 >= s.len() {
            None
        } else {
            let e = s[p + 1];
            if e == '"' { sp_cons_char('"', sp_string_body(s, p + 2)) }
            else if e == '\\' { sp_cons_char('\\', sp_string_body(s, p + 2)) }
            else if e == '/' { sp_cons_char('/', sp_string_body(s, p + 2)) }
            else if e == 'b' { sp_cons_char('\u{08}', sp_string_body(s, p + 2)) }
            else if e == 'f' { sp_cons_char('\u{0c}', sp_string_body(s, p + 2)) }
            else if e == 'n' { sp_cons_char('\n', sp_string_body(s, p + 2)) }
            else if e == 'r' { sp_cons_char('\r', sp_string_body(s, p + 2)) }
            else if e == 't' { sp_cons_char('\t', sp_string_body(s, p + 2)) }
            else if e == 'u' {
                match sp_hex4(s, p + 2) {
                    Some(v) => {
                        if 0xD800 <= v < 0xDC00 {
                            // a high surrogate: the low half must follow
                            if p + 8 > s.len() || s[p + 6] != '\\' || s[p + 7] != 'u' {
                                None
                            } else {
                                match sp_hex4(s, p + 8) {
                                    Some(lo) => if 0xDC00 <= lo < 0xE000 {
                                        sp_cons_char(
                                            char_of_scalar(
                                                0x10000 + (v - 0xD800) * 0x400 + (lo - 0xDC00),
                                            ),
                                            sp_string_body(s, p + 12),
                                        )
                                    } else {
                                        None
                                    },
                                    None => None,
                                }
                            }
                        } else if v < 0xD800 || v >= 0xE000 {
                            sp_cons_char(char_of_scalar(v), sp_string_body(s, p + 6))
                        } else {
                            // a lone low surrogate
                            None
                        }
                    }
                    None => None,
                }
            } else {
                None
            }
        }
    } else {
        sp_cons_char(s[p], sp_string_body(s, p + 1))
    }
}

/// A string literal read from its opening quote at `i`: the decoded body
/// and the index just past the closing quote.
pub open spec fn sp_string(s: Seq<char>, i: int) -> Option<(Seq<char>, int)> {
    if 0 <= i < s.len() && s[i] == '"' {
        sp_string_body(s, i + 1)
    } else {
        None
    }
}

/// Whether `c` is a decimal digit.
pub open spec fn sp_is_digit(c: char) -> bool {
    48 <= c as u32 <= 57
}

/// Whether `c` may appear in a number token after its first character.
pub open spec fn sp_is_number_char(c: char) -> bool {
    sp_is_digit(c) || c == '.' || c == 'e' || c == 'E' || c == '+' || c == '-'
}

/// The first index at or after `j` holding no number character.
pub open spec fn sp_num_end(s: Seq<char>, j: int) -> int
    decreases s.len() - j,
{
    if 0 <= j && j < s.len() && sp_is_number_char(s[j]) {
        sp_num_end(s, j + 1)
    } else {
        j
    }
}

/// Every character in `[a, b)` is a decimal digit.
pub open spec fn sp_all_digits(s: Seq<char>, a: int, b: int) -> bool {
    forall|j: int| a <= j < b ==> sp_is_digit(#[trigger] s[j])
}

/// The value of the decimal digits in `[a, b)`.
pub open spec fn sp_dec_val(s: Seq<char>, a: int, b: int) -> int
    decreases b - a,
{
    if a >= b {
        0
    } else {
        sp_dec_val(s, a, b - 1) * 10 + ((s[b - 1] as u32) as int - 48)
    }
}

/// A number token read from `i` (a minus sign or digit): the whole token
/// as far as number characters run, an `Int` when it is a plain integer
/// that fits an `i64`, and the verbatim token otherwise.
pub open spec fn sp_number(s: Seq<char>, i: int) -> Option<(JsonV, int)> {
    if !(0 <= i < s.len()) {
        None
    } else {
        let q = if s[i] == '-' { i + 1 } else { i };
        if q >= s.len() || !sp_is_digit(s[q]) {
            None
        } else {
            let e = sp_num_end(s, q + 1);
            if sp_all_digits(s, q + 1, e) && sp_dec_val(s, q, e) <= i64::MAX {
                let v = sp_dec_val(s, q, e);
                Some((JsonV::Int(if s[i] == '-' { -v } else { v }), e))
            } else {
                Some((JsonV::NumRaw(s.subrange(i, e)), e))
            }
        }
    }
}

/// Whether the word lies at `i` in `s`.
pub open spec fn sp_word_at(s: Seq<char>, i: int, word: Seq<char>) -> bool {
    0 <= i && i + word.len() <= s.len() && s.subrange(i, i + word.len()) == word
}

/// One JSON value read from `i` (no leading whitespace) with the index
/// just past it; `None` when the text has no value there or nesting
/// exceeds `depth`.
pub open spec fn sp_value(s: Seq<char>, i: int, depth: int) -> Option<(JsonV, int)>
    decreases depth, 1int, s.len() - i,
{
    if depth <= 0 || !(0 <= i < s.len()) {
        None
    } else {
        let c = s[i];
        if c == '"' {
            match sp_string(s, i) {
                Some((st, n)) => Some((JsonV::Str(st), n)),
                None => None,
            }
        } else if c == '{' {
            let k = sp_ws(s, i + 1);
            if k < s.len() && s[k] == '}' {
                Some((JsonV::Obj(Seq::empty()), k + 1))
            } else {
                match sp_members(s, i + 1, depth) {
                    Some((ms, n)) => Some((JsonV::Obj(ms), n)),
                    None => None,
                }
            }
        } else if c == '[' {
            let k0 = sp_ws(s, i + 1);
            if k0 < s.len() && s[k0] == ']' {
                Some((JsonV::Arr(Seq::empty()), k0 + 1))
            } else {
                match sp_items(s, i + 1, depth) {
                    Some((vs, n)) => Some((JsonV::Arr(vs), n)),
                    None => None,
                }
            }
        } else if c == 't' {
            if sp_word_at(s, i, seq!['t', 'r', 'u', 'e']) {
                Some((JsonV::Bool(true), i + 4))
            } else {
                None
            }
        } else if c == 'f' {
            if sp_word_at(s, i, seq!['f', 'a', 'l', 's', 'e']) {
                Some((JsonV::Bool(false), i + 5))
            } else {
                None
            }
        } else if c == 'n' {
            if sp_word_at(s, i, seq!['n', 'u', 'l', 'l']) {
                Some((JsonV::Null, i + 4))
            } else {
                None
            }
        } else if c == '-' || sp_is_digit(c) {
            sp_number(s, i)
        } else {
            None
        }
    }
}

/// The comma-separated items of a non-empty array read from `k` (just
/// past the bracket or comma) up to the closing bracket, with the index
/// just past it.
pub open spec fn sp_items(s: Seq<char>, k: int, depth: int) -> Option<(Seq<JsonV>, int)>
    decreases depth, 0int, s.len() - k,
{
    if depth <= 0 || !(0 <= k <= s.len()) {
        None
    } else {
        let k1 = sp_ws(s, k);
        match sp_value(s, k1, depth - 1) {
            Some((v, k2)) => {
                // the reading only moves forward; the bound below keeps
                // that visible to the termination check
                let k3 = if sp_ws(s, k2) < k { k } else { sp_ws(s, k2) };
                if k3 >= s.len() {
                    None
                } else if s[k3] == ',' {
                    match sp_items(s, k3 + 1, depth) {
                        Some((t, n)) => Some((seq![v] + t, n)),
                        None => None,
                    }
                } else if s[k3] == ']' {
                    Some((seq![v], k3 + 1))
                } else {
                    None
                }
            }
            None => None,
        }
    }
}

/// The comma-separated members of a non-empty object read from `k` (just
/// past the brace or comma) up to the closing brace, with the index just
/// past it.
pub open spec fn sp_members(s: Seq<char>, k: int, depth: int) -> Option<
    (Seq<(Seq<char>, JsonV)>, int),
>
    decreases depth, 0int, s.len() - k,
{
    if depth <= 0 || !(0 <= k <= s.len()) {
        None
    } else {
        let k0 = sp_ws(s, k);
        match sp_string(s, k0) {
            Some((key, k1)) => {
                let k2 = sp_ws(s, k1);
                if k2 >= s.len() || s[k2] != ':' {
                    None
                } else {
                    let k3 = sp_ws(s, k2 + 1);
                    match sp_value(s, k3, depth - 1) {
                        Some((val, k4)) => {
                            // forward-motion bound, as in `sp_items`
                            let k5 = if sp_ws(s, k4) < k { k } else { sp_ws(s, k4) };
                            if k5 >= s.len() {
                                None
                            } else if s[k5] == ',' {
                                match sp_members(s, k5 + 1, depth) {
                                    Some((t, n)) => Some((seq![(key, val)] + t, n)),
                                    None => None,
                                }
                            } else if s[k5] == '}' {
                                Some((seq![(key, val)], k5 + 1))
                            } else {
                                None
                            }
                        }
                        None => None,
                    }
                }
            }
            None => None,
        }
    }
}

/// The reading of a complete JSON text: one value, optionally surrounded
/// by whitespace, with nothing after it.
pub open spec fn spec_parse_json(text: Seq<char>) -> Option<JsonV> {
    let i = sp_ws(text, 0);
    match sp_value(text, i, MAX_DEPTH as int) {
        Some((j, n)) => if sp_ws(text, n) == text.len() {
            Some(j)
        } else {
            None
        },
        None => None,
    }
}

/// Advances past whitespace, exactly as [`sp_ws`] reads it.
fn skip_ws(s: &Vec<char>, i: usize) -> (r: usize)
    requires
        i <= s@.len(),
    ensures
        i <= r <= s@.len(),
        r as int == sp_ws(s@, i as int),
{
    let mut p = i;
    while p < s.len() && (s[p] == ' ' || s[p] == '\t' || s[p] == '\n' || s[p] == '\r')
        invariant
            i <= p <= s@.len(),
            sp_ws(s@, i as int) == sp_ws(s@, p as int),
        decreases s@.len() - p,
    {
        p = p + 1;
    }
    p
}

/// The numeric value of a hexadecimal digit character, if it is one.
fn hex_val(c: char) -> (r: Option<u32>)
    ensures
        r matches Some(v) ==> v < 16,
        match r {
            Some(v) => sp_hex_val(c) == Some(v as int),
            None => sp_hex_val(c) is None,
        },
{
    let u = c as u32;
    if u >= 48 && u <= 57 {
        Some(u - 48)
    } else if u >= 97 && u <= 102 {
        Some(u - 97 + 10)
    } else if u >= 65 && u <= 70 {
        Some(u - 65 + 10)
    } else {
        None
    }
}

/// Reads the four hex digits of a `\u` escape starting at `i`, exactly as
/// [`sp_hex4`] reads them.
fn parse_hex4(s: &Vec<char>, i: usize) -> (r: Option<(u32, usize)>)
    requires
        i <= s@.len(),
    ensures
        r matches Some((v, n)) ==> n == i + 4 && n <= s@.len() && v <= 0xFFFF,
        match r {
            Some((v, n)) => sp_hex4(s@, i as int) == Some(v as int) && n == i + 4,
            None => sp_hex4(s@, i as int) is None,
        },
{
    if s.len() - i < 4 {
        return None;
    }
    let d0 = match hex_val(s[i]) {
        Some(d) => d,
        None => {
            return None;
        }
    };
    let d1 = match hex_val(s[i + 1]) {
        Some(d) => d,
        None => {
            return None;
        }
    };
    let d2 = match hex_val(s[i + 2]) {
        Some(d) => d,
        None => {
            return None;
        }
    };
    let d3 = match hex_val(s[i + 3]) {
        Some(d) => d,
        None => {
            return None;
        }
    };
    let v = ((d0 * 16 + d1) * 16 + d2) * 16 + d3;
    Some((v, i + 4))
}

/// Reads a string literal starting at the opening quote `s[i]`, exactly as
/// [`sp_string`] reads it.
#[verifier::rlimit(100)]
fn parse_string(s: &Vec<char>, i: usize) -> (r: Option<(String, usize)>)
    requires
        i < s@.len(),
    ensures
        r matches Some((_, n)) ==> i < n <= s@.len(),
        match r {
            Some((st, n)) => sp_string(s@, i as int) == Some((st@, n as int)),
            None => sp_string(s@, i as int) is None,
        },
{
    if s[i] != '"' {
        return None;
    }
    assert(i < s.len());
    let mut out = String::new();
    let mut p = i + 1;
    loop
        invariant
            i < p <= s@.len(),
            i < s@.len() && s@[i as int] == '"',
            match sp_string_body(s@, p as int) {
                Some((t, n)) => sp_string_body(s@, i as int + 1) == Some((out@ + t, n)),
                None => sp_string_body(s@, i as int + 1) is None,
            },
        decreases s@.len() - p,
    {
        if p >= s.len() {
            return None;
        }
        let c = s[p];
        if c == '"' {
            proof {
                assert(sp_string_body(s@, p as int) == Some((Seq::<char>::empty(), p + 1)));
                assert(out@ + Seq::<char>::empty() =~= out@);
            }
            return Some((out, p + 1));
        } else if c == '\\' {
            if p + 1 >= s.len() {
                return None;
            }
            let e = s[p + 1];
            let ghost pre = out@;
            if e == '"' {
                push_char(&mut out, '"');
                proof {
                    step_string_body(s@, i as int + 1, p as int, pre, '"', p + 2);
                }
                p = p + 2;
            } else if e == '\\' {
                push_char(&mut out, '\\');
                proof {
                    step_string_body(s@, i as int + 1, p as int, pre, '\\', p + 2);
                }
                p = p + 2;
            } else if e == '/' {
                push_char(&mut out, '/');
                proof {
                    step_string_body(s@, i as int + 1, p as int, pre, '/', p + 2);
                }
                p = p + 2;
            } else if e == 'b' {
                push_char(&mut out, '\u{08}');
                proof {
                    step_string_body(s@, i as int + 1, p as int, pre, '\u{08}', p + 2);
                }
                p = p + 2;
            } else if e == 'f' {
                push_char(&mut out, '\u{0c}');
                proof {
                    step_string_body(s@, i as int + 1, p as int, pre, '\u{0c}', p + 2);
                }
                p = p + 2;
            } else if e == 'n' {
                push_char(&mut out, '\n');
                proof {
                    step_string_body(s@, i as int + 1, p as int, pre, '\n', p + 2);
                }
                p = p + 2;
            } else if e == 'r' {
                push_char(&mut out, '\r');
                proof {
                    step_string_body(s@, i as int + 1, p as int, pre, '\r', p + 2);
                }
                p = p + 2;
            } else if e == 't' {
                push_char(&mut out, '\t');
                proof {
                    step_string_body(s@, i as int + 1, p as int, pre, '\t', p + 2);
                }
                p = p + 2;
            } else if e == 'u' {
                let (v, n) = match parse_hex4(s, p + 2) {
                    Some(pair) => pair,
                    None => {
                        return None;
                    }
                };
                if v >= 0xD800 && v < 0xDC00 {
                    // a high surrogate: the low half must follow
                    if s.len() - n < 2 || s[n] != '\\' || s[n + 1] != 'u' {
                        return None;
                    }
                    let (lo, n2) = match parse_hex4(s, n + 2) {
                        Some(pair) => pair,
                        None => {
                            return None;
                        }
                    };
                    if !(lo >= 0xDC00 && lo < 0xE000) {
                        return None;
                    }
                    let scalar: u32 = 0x10000 + (v - 0xD800) * 0x400 + (lo - 0xDC00);
                    assert(0x10000 <= scalar <= 0x10FFFF);
                    match char_from_u32(scalar) {
                        Some(c2) => {
                            push_char(&mut out, c2);
                            proof {
                                step_string_body(s@, i as int + 1, p as int, pre, c2, p + 12);
                            }
                            p = n2;
                        }
                        None => {
                            // unreachable: the combined scalar is always a
                            // valid character
                            return None;
                        }
                    }
                } else {
                    match char_from_u32(v) {
                        Some(c2) => {
                            push_char(&mut out, c2);
                            proof {
                                step_string_body(s@, i as int + 1, p as int, pre, c2, p + 6);
                            }
                            p = n;
                        }
                        None => {
                            // a lone low surrogate
                            return None;
                        }
                    }
                }
            } else {
                return None;
            }
        } else {
            let ghost pre = out@;
            push_char(&mut out, c);
            proof {
                step_string_body(s@, i as int + 1, p as int, pre, c, p + 1);
            }
            p = p + 1;
        }
    }
}

/// One decoding step of a string body: when the body at `p` is the
/// character `c` followed by the body at `next`, the accumulated text
/// grows by `c`.
proof fn step_string_body(s: Seq<char>, start: int, p: int, acc: Seq<char>, c: char, next: int)
    requires
        sp_string_body(s, p) == sp_cons_char(c, sp_string_body(s, next)),
        match sp_string_body(s, p) {
            Some((t, n)) => sp_string_body(s, start) == Some((acc + t, n)),
            None => sp_string_body(s, start) is None,
        },
    ensures
        match sp_string_body(s, next) {
            Some((t, n)) => sp_string_body(s, start) == Some(((acc + seq![c]) + t, n)),
            None => sp_string_body(s, start) is None,
        },
{
    match sp_string_body(s, next) {
        Some((t, n)) => {
            assert(sp_string_body(s, p) == Some((seq![c] + t, n)));
            assert(acc + (seq![c] + t) =~= (acc + seq![c]) + t);
        }
        None => {}
    }
}

/// Whether `c` is a decimal digit.
fn is_digit(c: char) -> (r: bool)
    ensures
        r == (48 <= c as u32 <= 57),
{
    let u = c as u32;
    u >= 48 && u <= 57
}

/// Whether `c` may appear in a number token after its first character.
fn is_number_char(c: char) -> (r: bool)
    ensures
        r == sp_is_number_char(c),
{
    is_digit(c) || c == '.' || c == 'e' || c == 'E' || c == '+' || c == '-'
}

/// Reads a number token starting at `s[i]` (a digit or `-`), exactly as
/// [`sp_number`] reads it: a plain integer that fits an `i64` becomes
/// `Json::Int`; any other token is kept verbatim as `Json::NumRaw`.
#[verifier::rlimit(60)]
fn parse_number(s: &Vec<char>, i: usize) -> (r: Option<(Json, usize)>)
    requires
        i < s@.len(),
    ensures
        r matches Some((_, n)) ==> i < n <= s@.len(),
        match r {
            Some((j, n)) => sp_number(s@, i as int) == Some((json_view(j), n as int)),
            None => sp_number(s@, i as int) is None,
        },
{
    let slen = s.len();
    let start = i;
    let mut q = i;
    if s[q] == '-' {
        assert(q < slen);
        q = q + 1;
    }
    if q >= s.len() || !is_digit(s[q]) {
        return None;
    }
    // scan the whole token: the first digit, then every character that may
    // belong to a number
    let mut end = q + 1;
    let mut simple = true;
    while end < s.len() && is_number_char(s[end])
        invariant
            i < end <= s@.len(),
            q < end,
            sp_num_end(s@, q as int + 1) == sp_num_end(s@, end as int),
            simple == sp_all_digits(s@, q as int + 1, end as int),
        decreases s@.len() - end,
    {
        if !is_digit(s[end]) {
            simple = false;
            proof {
                assert(!sp_all_digits(s@, q as int + 1, end as int + 1)) by {
                    assert(!sp_is_digit(s@[end as int]));
                }
            }
        } else {
            proof {
                assert(sp_all_digits(s@, q as int + 1, end as int) ==> sp_all_digits(
                    s@,
                    q as int + 1,
                    end as int + 1,
                ));
                assert(!sp_all_digits(s@, q as int + 1, end as int) ==> !sp_all_digits(
                    s@,
                    q as int + 1,
                    end as int + 1,
                ));
            }
        }
        end = end + 1;
    }
    proof {
        assert(sp_num_end(s@, q as int + 1) == end as int);
    }
    if simple {
        // an optional sign followed by digits only: accumulate into an i64
        let neg = s[start] == '-';
        let mut v: i64 = 0;
        let mut k = q;
        let mut fits = true;
        while k < end
            invariant
                q <= k <= end,
                end <= s@.len(),
                0 <= v,
                sp_is_digit(s@[q as int]),
                sp_all_digits(s@, q as int + 1, end as int),
                fits ==> v as int == sp_dec_val(s@, q as int, k as int),
                !fits ==> sp_dec_val(s@, q as int, k as int) > i64::MAX,
            decreases end - k,
        {
            proof {
                if k > q {
                    assert(q as int + 1 <= k < end);
                }
                assert(sp_is_digit(s@[k as int]));
            }
            let u = s[k] as u32;
            if fits && u >= 48 && u <= 57 {
                let d = (u - 48) as i64;
                if v > (i64::MAX - d) / 10 {
                    fits = false;
                    proof {
                        assert(((i64::MAX - d) / 10) * 10 >= i64::MAX - d - 9);
                        assert(v as int * 10 >= ((i64::MAX - d) / 10 + 1) * 10);
                        assert(sp_dec_val(s@, q as int, k as int + 1) > i64::MAX);
                    }
                } else {
                    proof {
                        assert(((i64::MAX - d) / 10) * 10 <= i64::MAX - d);
                        assert(v as int * 10 <= ((i64::MAX - d) / 10) * 10);
                    }
                    v = v * 10 + d;
                }
            } else if fits && !(u >= 48 && u <= 57) {
                fits = false;
            } else {
                proof {
                    assert(!fits);
                    assert(sp_dec_val(s@, q as int, k as int + 1) == sp_dec_val(
                        s@,
                        q as int,
                        k as int,
                    ) * 10 + (u as int - 48));
                    assert(sp_dec_val(s@, q as int, k as int) * 10 >= sp_dec_val(
                        s@,
                        q as int,
                        k as int,
                    ));
                }
            }
            k = k + 1;
        }
        if fits {
            let v = if neg {
                -v
            } else {
                v
            };
            return Some((Json::Int(v), end));
        }
    }
    // keep the verbatim token
    let mut raw = String::new();
    let mut k = start;
    while k < end
        invariant
            start <= k <= end,
            end <= s@.len(),
            raw@ == s@.subrange(start as int, k as int),
        decreases end - k,
    {
        let ghost pre = raw@;
        push_char(&mut raw, s[k]);
        proof {
            assert(s@.subrange(start as int, k as int + 1) =~= pre.push(s@[k as int]));
        }
        k = k + 1;
    }
    proof {
        assert(raw@ == s@.subrange(start as int, end as int));
    }
    Some((Json::NumRaw(raw), end))
}

/// Checks that the characters of `word` follow at `s[i]` (used for the
/// `true`, `false` and `null` literals).
fn expect_word(s: &Vec<char>, i: usize, word: &Vec<char>) -> (r: bool)
    requires
        i <= s@.len(),
    ensures
        r ==> i + word@.len() <= s@.len(),
        r == sp_word_at(s@, i as int, word@),
{
    let slen = s.len();
    if word.len() > slen - i {
        proof {
            assert(!sp_word_at(s@, i as int, word@));
        }
        return false;
    }
    assert(i + word@.len() <= slen);
    let mut k: usize = 0;
    while k < word.len()
        invariant
            slen == s@.len(),
            i + word@.len() <= slen,
            k <= word@.len(),
            forall|j: int| 0 <= j < k ==> s@[i + j] == word@[j],
        decreases word@.len() - k,
    {
        if s[i + k] != word[k] {
            proof {
                if sp_word_at(s@, i as int, word@) {
                    assert(s@.subrange(i as int, i + word@.len())[k as int] == s@[i + k]);
                }
            }
            return false;
        }
        k = k + 1;
    }
    proof {
        assert(s@.subrange(i as int, i + word@.len()) =~= word@);
    }
    true
}

/// Reads one JSON value starting at `s[i]` (no leading whitespace),
/// exactly as [`sp_value`] reads it; on success the returned index lies
/// just past the value.
#[verifier::loop_isolation(false)]
#[verifier::rlimit(100)]
fn parse_value(s: &Vec<char>, i: usize, depth: u32) -> (r: Option<(Json, usize)>)
    requires
        i <= s@.len(),
    ensures
        r matches Some((_, n)) ==> i < n <= s@.len(),
        match r {
            Some((j, n)) => sp_value(s@, i as int, depth as int) == Some((json_view(j), n as int)),
            None => sp_value(s@, i as int, depth as int) is None,
        },
    decreases s@.len() - i,
{
    if depth == 0 || i >= s.len() {
        return None;
    }
    let c = s[i];
    if c == '"' {
        match parse_string(s, i) {
            Some((st, n)) => Some((Json::Str(st), n)),
            None => None,
        }
    } else if c == '{' {
        let mut members: Vec<(String, Json)> = Vec::new();
        let kc = skip_ws(s, i + 1);
        if kc < s.len() && s[kc] == '}' {
            proof {
                assert(member_views_of(members@) =~= Seq::<(Seq<char>, JsonV)>::empty());
            }
            return Some((Json::Obj(members), kc + 1));
        }
        let mut k = i + 1;
        loop
            invariant
                i < k <= s@.len(),
                match sp_members(s@, k as int, depth as int) {
                    Some((t, n)) => sp_members(s@, i as int + 1, depth as int) == Some(
                        (member_views_of(members@) + t, n),
                    ),
                    None => sp_members(s@, i as int + 1, depth as int) is None,
                },
            decreases s@.len() - k,
        {
            let k0 = skip_ws(s, k);
            if k0 >= s.len() {
                return None;
            }
            let (key, k1) = match parse_string(s, k0) {
                Some(p) => p,
                None => {
                    return None;
                }
            };
            let k2 = skip_ws(s, k1);
            if k2 >= s.len() || s[k2] != ':' {
                return None;
            }
            let k3 = skip_ws(s, k2 + 1);
            let (val, k4) = match parse_value(s, k3, depth - 1) {
                Some(p) => p,
                None => {
                    return None;
                }
            };
            let ghost pre = members@;
            let ghost keyv = key@;
            let ghost valv = json_view(val);
            members.push((key, val));
            proof {
                lemma_member_views_of(pre);
                lemma_member_views_of(members@);
                assert(member_views_of(members@) =~= member_views_of(pre) + seq![(keyv, valv)]);
            }
            let k5 = skip_ws(s, k4);
            if k5 >= s.len() {
                return None;
            }
            if s[k5] == ',' {
                proof {
                    let tail = sp_members(s@, k5 as int + 1, depth as int);
                    match tail {
                        Some((t2, n2)) => {
                            assert((member_views_of(pre) + (seq![(keyv, valv)] + t2))
                                =~= (member_views_of(members@) + t2));
                        }
                        None => {}
                    }
                }
                k = k5 + 1;
            } else if s[k5] == '}' {
                proof {
                    assert(member_views_of(pre) + seq![(keyv, valv)] =~= member_views_of(
                        members@,
                    ));
                }
                return Some((Json::Obj(members), k5 + 1));
            } else {
                return None;
            }
        }
    } else if c == '[' {
        let mut items: Vec<Json> = Vec::new();
        let k0 = skip_ws(s, i + 1);
        if k0 < s.len() && s[k0] == ']' {
            proof {
                assert(views_of(items@) =~= Seq::<JsonV>::empty());
            }
            return Some((Json::Arr(items), k0 + 1));
        }
        let mut k = i + 1;
        loop
            invariant
                i < k <= s@.len(),
                match sp_items(s@, k as int, depth as int) {
                    Some((t, n)) => sp_items(s@, i as int + 1, depth as int) == Some(
                        (views_of(items@) + t, n),
                    ),
                    None => sp_items(s@, i as int + 1, depth as int) is None,
                },
            decreases s@.len() - k,
        {
            let k1 = skip_ws(s, k);
            let (val, k2) = match parse_value(s, k1, depth - 1) {
                Some(p) => p,
                None => {
                    return None;
                }
            };
            let ghost pre = items@;
            let ghost valv = json_view(val);
            items.push(val);
            proof {
                lemma_views_of(pre);
                lemma_views_of(items@);
                assert(views_of(items@) =~= views_of(pre) + seq![valv]);
            }
            let k3 = skip_ws(s, k2);
            if k3 >= s.len() {
                return None;
            }
            if s[k3] == ',' {
                proof {
                    let tail = sp_items(s@, k3 as int + 1, depth as int);
                    match tail {
                        Some((t2, n2)) => {
                            assert((views_of(pre) + (seq![valv] + t2)) =~= (views_of(items@)
                                + t2));
                        }
                        None => {}
                    }
                }
                k = k3 + 1;
            } else if s[k3] == ']' {
                proof {
                    assert(views_of(pre) + seq![valv] =~= views_of(items@));
                }
                return Some((Json::Arr(items), k3 + 1));
            } else {
                return None;
            }
        }
    } else if c == 't' {
        let word = vec!['t', 'r', 'u', 'e'];
        proof {
            assert(word@ =~= seq!['t', 'r', 'u', 'e']);
        }
        if expect_word(s, i, &word) {
            Some((Json::Bool(true), i + 4))
        } else {
            None
        }
    } else if c == 'f' {
        let word = vec!['f', 'a', 'l', 's', 'e'];
        proof {
            assert(word@ =~= seq!['f', 'a', 'l', 's', 'e']);
        }
        if expect_word(s, i, &word) {
            Some((Json::Bool(false), i + 5))
        } else {
            None
        }
    } else if c == 'n' {
        let word = vec!['n', 'u', 'l', 'l'];
        proof {
            assert(word@ =~= seq!['n', 'u', 'l', 'l']);
        }
        if expect_word(s, i, &word) {
            Some((Json::Null, i + 4))
        } else {
            None
        }
    } else if c == '-' || is_digit(c) {
        parse_number(s, i)
    } else {
        None
    }
}

/// Parses a complete JSON text, exactly as [`spec_parse_json`] reads it:
/// one value, optionally surrounded by whitespace, with nothing after it.
pub fn parse_json(text: &str) -> (r: Option<Json>)
    ensures
        match r {
            Some(j) => spec_parse_json(text@) == Some(json_view(j)),
            None => spec_parse_json(text@) is None,
        },
{
    let chars = str_chars(text);
    let i = skip_ws(&chars, 0);
    match parse_value(&chars, i, MAX_DEPTH) {
        Some((j, n)) => {
            let n2 = skip_ws(&chars, n);
            if n2 == chars.len() {
                Some(j)
            } else {
                None
            }
        }
        None => None,
    }
}

} // verus!
