//! The JSON dialect used on the wire.
//!
//! Every document the engine reads or writes is a single JSON object
//! whose member values are scalars: strings, numbers, booleans or null.
//! Numbers are kept as their raw spelling, so no numeric meaning is lost;
//! the fields the engine consumes are read back as `u64` where needed.
//! The grammar below is the reference for both the parser and the
//! printer: each executable function is proved to return exactly what
//! the corresponding specification function denotes.

use vstd::prelude::*;
use crate::chars::{
    is_digit, u64_of_num_text, str_to_chars, chars_to_string, char_from_u32, chars_eq,
    dec_rep, u64_to_dec, parse_u64,
};

verus! {

/// A scalar member value.
pub enum JsonValue {
    Null,
    Bool(bool),
    /// The raw spelling of a JSON number.
    Num(Vec<char>),
    /// The decoded content of a JSON string.
    Str(Vec<char>),
}

/// One `key: value` pair of an object.
pub struct Member {
    pub key: Vec<char>,
    pub value: JsonValue,
}

/// The mathematical value of a scalar.
pub enum JsonValueV {
    Null,
    Bool(bool),
    Num(Seq<char>),
    Str(Seq<char>),
}

/// The mathematical value of a member.
pub struct MemberV {
    pub key: Seq<char>,
    pub value: JsonValueV,
}

impl View for JsonValue {
    type V = JsonValueV;

    open spec fn view(&self) -> JsonValueV {
        match self {
            JsonValue::Null => JsonValueV::Null,
            JsonValue::Bool(b) => JsonValueV::Bool(*b),
            JsonValue::Num(t) => JsonValueV::Num(t@),
            JsonValue::Str(t) => JsonValueV::Str(t@),
        }
    }
}

impl View for Member {
    type V = MemberV;

    open spec fn view(&self) -> MemberV {
        MemberV { key: self.key@, value: self.value@ }
    }
}

// ------------------------------------------------------------------
// The grammar.
// ------------------------------------------------------------------

/// JSON insignificant whitespace.
pub open spec fn is_ws(c: char) -> bool {
    c == ' ' || c == '\t' || c == '\n' || c == '\r'
}

/// The first index at or after `i` holding a non-whitespace character.
pub open spec fn skip_ws(s: Seq<char>, i: int) -> int
    decreases s.len() - i,
{
    if i < s.len() && is_ws(s[i]) {
        skip_ws(s, i + 1)
    } else {
        i
    }
}

/// The value of a hexadecimal digit.
pub open spec fn hex_val(c: char) -> Option<u32> {
    let u = c as u32;
    if 48 <= u && u <= 57 {
        Some((u - 48) as u32)
    } else if 97 <= u && u <= 102 {
        Some((u - 87) as u32)
    } else if 65 <= u && u <= 70 {
        Some((u - 55) as u32)
    } else {
        None
    }
}

/// The value of the four hexadecimal digits at `i`.
pub open spec fn hex4(s: Seq<char>, i: int) -> Option<u32> {
    if i + 4 <= s.len() {
        match (hex_val(s[i]), hex_val(s[i + 1]), hex_val(s[i + 2]), hex_val(s[i + 3])) {
            (Some(a), Some(b), Some(c), Some(d)) => Some(
                ((a * 4096 + b * 256 + c * 16 + d) as u32),
            ),
            _ => None,
        }
    } else {
        None
    }
}

/// A code point outside the surrogate range, representable as a `char`.
pub open spec fn is_scalar_code(v: u32) -> bool {
    v < 0xD800 || (0xE000 <= v && v <= 0x10FFFF)
}

/// Decodes a string body starting at `i` (just past the opening quote),
/// with `acc` the content decoded so far; yields the content and the
/// index just past the closing quote.
pub open spec fn parse_str_body(s: Seq<char>, i: int, acc: Seq<char>) -> Option<(Seq<char>, int)>
    decreases s.len() - i, 1int,
{
    if i < 0 || i >= s.len() {
        None
    } else if s[i] == '"' {
        Some((acc, i + 1))
    } else if s[i] == '\\' {
        if i + 1 < s.len() {
            let c = s[i + 1];
            if c == '"' {
                parse_str_body(s, i + 2, acc.push('"'))
            } else if c == '\\' {
                parse_str_body(s, i + 2, acc.push('\\'))
            } else if c == '/' {
                parse_str_body(s, i + 2, acc.push('/'))
            } else if c == 'b' {
                parse_str_body(s, i + 2, acc.push('\u{0008}'))
            } else if c == 'f' {
                parse_str_body(s, i + 2, acc.push('\u{000C}'))
            } else if c == 'n' {
                parse_str_body(s, i + 2, acc.push('\n'))
            } else if c == 'r' {
                parse_str_body(s, i + 2, acc.push('\r'))
            } else if c == 't' {
                parse_str_body(s, i + 2, acc.push('\t'))
            } else if c == 'u' {
                parse_unicode(s, i + 2, acc)
            } else {
                None
            }
        } else {
            None
        }
    } else if (s[i] as u32) < 0x20 {
        None
    } else {
        parse_str_body(s, i + 1, acc.push(s[i]))
    }
}

/// Decodes a `\u` escape whose four digits start at `i`; a high
/// surrogate must be followed by a `\u`-escaped low surrogate.
pub open spec fn parse_unicode(s: Seq<char>, i: int, acc: Seq<char>) -> Option<(Seq<char>, int)>
    decreases s.len() - i, 0int,
{
    match hex4(s, i) {
        None => None,
        Some(v) => {
            if is_scalar_code(v) {
                parse_str_body(s, i + 4, acc.push(v as char))
            } else if v < 0xDC00 {
                if i + 6 <= s.len() && s[i + 4] == '\\' && s[i + 5] == 'u' {
                    match hex4(s, i + 6) {
                        None => None,
                        Some(lo) => {
                            if 0xDC00 <= lo && lo < 0xE000 {
                                let code = (0x10000 + (v - 0xD800) * 0x400 + (lo
                                    - 0xDC00)) as u32;
                                parse_str_body(s, i + 10, acc.push(code as char))
                            } else {
                                None
                            }
                        },
                    }
                } else {
                    None
                }
            } else {
                None
            }
        },
    }
}

/// The first index at or after `i` holding a non-digit.
pub open spec fn scan_digits(s: Seq<char>, i: int) -> int
    decreases s.len() - i,
{
    if i < s.len() && is_digit(s[i]) {
        scan_digits(s, i + 1)
    } else {
        i
    }
}

/// Scans a JSON number starting at `i`; yields its raw spelling and the
/// index just past it.
pub open spec fn parse_number(s: Seq<char>, i: int) -> Option<(JsonValueV, int)> {
    let j0 = if i < s.len() && s[i] == '-' {
        i + 1
    } else {
        i
    };
    if j0 < s.len() && is_digit(s[j0]) {
        let j1 = if s[j0] == '0' {
            j0 + 1
        } else {
            scan_digits(s, j0)
        };
        let j2 = if j1 < s.len() && s[j1] == '.' {
            scan_digits(s, j1 + 1)
        } else {
            j1
        };
        if j1 < s.len() && s[j1] == '.' && j2 == j1 + 1 {
            None
        } else {
            let j3 = if j2 < s.len() && (s[j2] == 'e' || s[j2] == 'E') {
                let k0 = if j2 + 1 < s.len() && (s[j2 + 1] == '+' || s[j2 + 1] == '-') {
                    j2 + 2
                } else {
                    j2 + 1
                };
                scan_digits(s, k0)
            } else {
                j2
            };
            let k0 = if j2 + 1 < s.len() && (s[j2 + 1] == '+' || s[j2 + 1] == '-') {
                j2 + 2
            } else {
                j2 + 1
            };
            if j2 < s.len() && (s[j2] == 'e' || s[j2] == 'E') && j3 == k0 {
                None
            } else {
                Some((JsonValueV::Num(s.subrange(i, j3)), j3))
            }
        }
    } else {
        None
    }
}

/// Whether the literal `lit` occurs in `s` starting at `i`.
pub open spec fn has_lit(s: Seq<char>, i: int, lit: Seq<char>) -> bool {
    0 <= i && i + lit.len() <= s.len() && s.subrange(i, i + lit.len()) == lit
}

/// Scans one scalar value starting at `i` (no leading whitespace).
pub open spec fn parse_value_at(s: Seq<char>, i: int) -> Option<(JsonValueV, int)> {
    if i < 0 || i >= s.len() {
        None
    } else if s[i] == '"' {
        match parse_str_body(s, i + 1, Seq::empty()) {
            Some((cs, j)) => Some((JsonValueV::Str(cs), j)),
            None => None,
        }
    } else if s[i] == 't' {
        if has_lit(s, i, seq!['t', 'r', 'u', 'e']) {
            Some((JsonValueV::Bool(true), i + 4))
        } else {
            None
        }
    } else if s[i] == 'f' {
        if has_lit(s, i, seq!['f', 'a', 'l', 's', 'e']) {
            Some((JsonValueV::Bool(false), i + 5))
        } else {
            None
        }
    } else if s[i] == 'n' {
        if has_lit(s, i, seq!['n', 'u', 'l', 'l']) {
            Some((JsonValueV::Null, i + 4))
        } else {
            None
        }
    } else if s[i] == '-' || is_digit(s[i]) {
        parse_number(s, i)
    } else {
        None
    }
}

/// Scans one `key: value` member starting at `i` (at the key's quote).
pub open spec fn parse_member(s: Seq<char>, i: int) -> Option<(MemberV, int)> {
    if 0 <= i && i < s.len() && s[i] == '"' {
        match parse_str_body(s, i + 1, Seq::empty()) {
            Some((k, j)) => {
                let j2 = skip_ws(s, j);
                if j2 < s.len() && s[j2] == ':' {
                    let j3 = skip_ws(s, j2 + 1);
                    match parse_value_at(s, j3) {
                        Some((v, j4)) => Some((MemberV { key: k, value: v }, j4)),
                        None => None,
                    }
                } else {
                    None
                }
            },
            None => None,
        }
    } else {
        None
    }
}

// ------------------------------------------------------------------
// Bounds: every scan that succeeds advances and stays inside the text.
// ------------------------------------------------------------------

pub proof fn lemma_skip_ws_bounds(s: Seq<char>, i: int)
    requires
        0 <= i <= s.len(),
    ensures
        i <= skip_ws(s, i) <= s.len(),
    decreases s.len() - i,
{
    if i < s.len() && is_ws(s[i]) {
        lemma_skip_ws_bounds(s, i + 1);
    }
}

pub proof fn lemma_str_body_bounds(s: Seq<char>, i: int, acc: Seq<char>)
    requires
        0 <= i,
    ensures
        match parse_str_body(s, i, acc) {
            Some((_, j)) => i < j <= s.len(),
            None => true,
        },
    decreases s.len() - i, 1int,
{
    if i < s.len() {
        if s[i] == '"' {
        } else if s[i] == '\\' {
            if i + 1 < s.len() {
                let c = s[i + 1];
                if c == 'u' {
                    lemma_unicode_bounds(s, i + 2, acc);
                } else if c == '"' || c == '\\' || c == '/' || c == 'b' || c == 'f' || c == 'n'
                    || c == 'r' || c == 't' {
                    lemma_str_body_bounds(s, i + 2, acc.push(if c == '"' {
                        '"'
                    } else if c == '\\' {
                        '\\'
                    } else if c == '/' {
                        '/'
                    } else if c == 'b' {
                        '\u{0008}'
                    } else if c == 'f' {
                        '\u{000C}'
                    } else if c == 'n' {
                        '\n'
                    } else if c == 'r' {
                        '\r'
                    } else {
                        '\t'
                    }));
                }
            }
        } else if (s[i] as u32) < 0x20 {
        } else {
            lemma_str_body_bounds(s, i + 1, acc.push(s[i]));
        }
    }
}

pub proof fn lemma_unicode_bounds(s: Seq<char>, i: int, acc: Seq<char>)
    requires
        0 <= i,
    ensures
        match parse_unicode(s, i, acc) {
            Some((_, j)) => i < j <= s.len(),
            None => true,
        },
    decreases s.len() - i, 0int,
{
    match hex4(s, i) {
        None => {},
        Some(v) => {
            if is_scalar_code(v) {
                lemma_str_body_bounds(s, i + 4, acc.push(v as char));
            } else if v < 0xDC00 {
                if i + 6 <= s.len() && s[i + 4] == '\\' && s[i + 5] == 'u' {
                    match hex4(s, i + 6) {
                        None => {},
                        Some(lo) => {
                            if 0xDC00 <= lo && lo < 0xE000 {
                                let code = (0x10000 + (v - 0xD800) * 0x400 + (lo
                                    - 0xDC00)) as u32;
                                lemma_str_body_bounds(s, i + 10, acc.push(code as char));
                            }
                        },
                    }
                }
            }
        },
    }
}

pub proof fn lemma_scan_digits_bounds(s: Seq<char>, i: int)
    requires
        0 <= i <= s.len(),
    ensures
        i <= scan_digits(s, i) <= s.len(),
    decreases s.len() - i,
{
    if i < s.len() && is_digit(s[i]) {
        lemma_scan_digits_bounds(s, i + 1);
    }
}

pub proof fn lemma_number_bounds(s: Seq<char>, i: int)
    requires
        0 <= i <= s.len(),
    ensures
        match parse_number(s, i) {
            Some((_, j)) => i < j <= s.len(),
            None => true,
        },
{
    let j0 = if i < s.len() && s[i] == '-' {
        i + 1
    } else {
        i
    };
    if j0 < s.len() && is_digit(s[j0]) {
        lemma_scan_digits_bounds(s, j0);
        let j1 = if s[j0] == '0' {
            j0 + 1
        } else {
            scan_digits(s, j0)
        };
        if j1 < s.len() && s[j1] == '.' {
            lemma_scan_digits_bounds(s, j1 + 1);
        }
        let j2 = if j1 < s.len() && s[j1] == '.' {
            scan_digits(s, j1 + 1)
        } else {
            j1
        };
        if 0 <= j2 + 1 && j2 + 1 <= s.len() {
            lemma_scan_digits_bounds(s, j2 + 1);
        }
        if 0 <= j2 + 2 && j2 + 2 <= s.len() {
            lemma_scan_digits_bounds(s, j2 + 2);
        }
    }
}

pub proof fn lemma_value_bounds(s: Seq<char>, i: int)
    requires
        0 <= i <= s.len(),
    ensures
        match parse_value_at(s, i) {
            Some((_, j)) => i < j <= s.len(),
            None => true,
        },
{
    if i < s.len() {
        if s[i] == '"' {
            lemma_str_body_bounds(s, i + 1, Seq::empty());
        } else if s[i] == '-' || is_digit(s[i]) {
            lemma_number_bounds(s, i);
        }
    }
}

pub proof fn lemma_member_bounds(s: Seq<char>, i: int)
    requires
        0 <= i <= s.len(),
    ensures
        match parse_member(s, i) {
            Some((_, j)) => i < j <= s.len(),
            None => true,
        },
{
    if i < s.len() && s[i] == '"' {
        lemma_str_body_bounds(s, i + 1, Seq::empty());
        match parse_str_body(s, i + 1, Seq::empty()) {
            Some((k, j)) => {
                lemma_skip_ws_bounds(s, j);
                let j2 = skip_ws(s, j);
                if j2 < s.len() && s[j2] == ':' {
                    lemma_skip_ws_bounds(s, j2 + 1);
                    let j3 = skip_ws(s, j2 + 1);
                    lemma_value_bounds(s, j3);
                }
            },
            None => {},
        }
    }
}

// ------------------------------------------------------------------
// Member lists and whole documents.
// ------------------------------------------------------------------

/// Scans members separated by commas, starting at a member; `acc` holds
/// the members already read.
pub open spec fn parse_members(s: Seq<char>, i: int, acc: Seq<MemberV>) -> Option<
    (Seq<MemberV>, int),
>
    decreases s.len() - i,
    via parse_members_decreases
{
    match parse_member(s, i) {
        None => None,
        Some((m, j)) => {
            let j2 = skip_ws(s, j);
            if j2 < s.len() && s[j2] == ',' {
                let j3 = skip_ws(s, j2 + 1);
                parse_members(s, j3, acc.push(m))
            } else {
                Some((acc.push(m), j))
            }
        },
    }
}

#[via_fn]
proof fn parse_members_decreases(s: Seq<char>, i: int, acc: Seq<MemberV>) {
    if 0 <= i <= s.len() {
        lemma_member_bounds(s, i);
        match parse_member(s, i) {
            None => {},
            Some((m, j)) => {
                lemma_skip_ws_bounds(s, j);
                let j2 = skip_ws(s, j);
                if j2 < s.len() && s[j2] == ',' {
                    lemma_skip_ws_bounds(s, j2 + 1);
                }
            },
        }
    }
}

/// The members of a whole document: one object, with nothing but
/// whitespace around it.
pub open spec fn parse_object_text(s: Seq<char>) -> Option<Seq<MemberV>> {
    let i = skip_ws(s, 0);
    if i < s.len() && s[i] == '{' {
        let j = skip_ws(s, i + 1);
        if j < s.len() && s[j] == '}' {
            if skip_ws(s, j + 1) == s.len() {
                Some(Seq::empty())
            } else {
                None
            }
        } else {
            match parse_members(s, j, Seq::empty()) {
                Some((ms, k)) => {
                    let k2 = skip_ws(s, k);
                    if k2 < s.len() && s[k2] == '}' && skip_ws(s, k2 + 1) == s.len() {
                        Some(ms)
                    } else {
                        None
                    }
                },
                None => None,
            }
        }
    } else {
        None
    }
}

// ------------------------------------------------------------------
// The executable parser: each function returns exactly what the
// specification function of the same name denotes.
// ------------------------------------------------------------------

/// The member views of a member list.
pub open spec fn members_view(v: Seq<Member>) -> Seq<MemberV> {
    v.map_values(|m: Member| m@)
}

fn skip_ws_exec(s: &Vec<char>, i: usize) -> (r: usize)
    requires
        i <= s@.len(),
    ensures
        r == skip_ws(s@, i as int),
        i <= r <= s@.len(),
{
    let n = s.len();
    let mut cur = i;
    while cur < n && (s[cur] == ' ' || s[cur] == '\t' || s[cur] == '\n' || s[cur] == '\r')
        invariant
            i <= cur <= n,
            n == s@.len(),
            skip_ws(s@, cur as int) == skip_ws(s@, i as int),
        decreases n - cur,
    {
        cur = cur + 1;
    }
    cur
}

fn hex_val_exec(c: char) -> (r: Option<u32>)
    ensures
        r == hex_val(c),
{
    let u = c as u32;
    if 48 <= u && u <= 57 {
        Some(u - 48)
    } else if 97 <= u && u <= 102 {
        Some(u - 87)
    } else if 65 <= u && u <= 70 {
        Some(u - 55)
    } else {
        None
    }
}

fn hex4_exec(s: &Vec<char>, i: usize) -> (r: Option<u32>)
    requires
        i <= s@.len(),
    ensures
        r == hex4(s@, i as int),
{
    if s.len() - i < 4 {
        return None;
    }
    let a = hex_val_exec(s[i]);
    let b = hex_val_exec(s[i + 1]);
    let c = hex_val_exec(s[i + 2]);
    let d = hex_val_exec(s[i + 3]);
    match (a, b, c, d) {
        (Some(a), Some(b), Some(c), Some(d)) => Some(a * 4096 + b * 256 + c * 16 + d),
        _ => None,
    }
}

fn parse_str_body_exec(s: &Vec<char>, i: usize, acc: Vec<char>) -> (r: Option<(Vec<char>, usize)>)
    requires
        i <= s@.len(),
    ensures
        match r {
            Some((cs, j)) => parse_str_body(s@, i as int, acc@) == Some((cs@, j as int)) && i < j
                <= s@.len(),
            None => parse_str_body(s@, i as int, acc@) is None,
        },
    decreases s@.len() - i, 1int,
{
    if i >= s.len() {
        return None;
    }
    let c0 = s[i];
    if c0 == '"' {
        Some((acc, i + 1))
    } else if c0 == '\\' {
        if i + 1 < s.len() {
            let c = s[i + 1];
            if c == 'u' {
                parse_unicode_exec(s, i + 2, acc)
            } else {
                let rep: char = if c == '"' {
                    '"'
                } else if c == '\\' {
                    '\\'
                } else if c == '/' {
                    '/'
                } else if c == 'b' {
                    '\u{0008}'
                } else if c == 'f' {
                    '\u{000C}'
                } else if c == 'n' {
                    '\n'
                } else if c == 'r' {
                    '\r'
                } else if c == 't' {
                    '\t'
                } else {
                    return None;
                };
                let mut acc = acc;
                acc.push(rep);
                parse_str_body_exec(s, i + 2, acc)
            }
        } else {
            None
        }
    } else if (c0 as u32) < 0x20 {
        None
    } else {
        let mut acc = acc;
        acc.push(c0);
        parse_str_body_exec(s, i + 1, acc)
    }
}

fn parse_unicode_exec(s: &Vec<char>, i: usize, acc: Vec<char>) -> (r: Option<(Vec<char>, usize)>)
    requires
        i <= s@.len(),
    ensures
        match r {
            Some((cs, j)) => parse_unicode(s@, i as int, acc@) == Some((cs@, j as int)) && i < j
                <= s@.len(),
            None => parse_unicode(s@, i as int, acc@) is None,
        },
    decreases s@.len() - i, 0int,
{
    let n = s.len();
    match hex4_exec(s, i) {
        None => None,
        Some(v) => {
            assert(i + 4 <= n);
            if v < 0xD800 || (0xE000 <= v && v <= 0x10FFFF) {
                let mut acc = acc;
                acc.push(char_from_u32(v));
                parse_str_body_exec(s, i + 4, acc)
            } else if v < 0xDC00 {
                if s.len() - i >= 6 && s[i + 4] == '\\' && s[i + 5] == 'u' {
                    match hex4_exec(s, i + 6) {
                        None => None,
                        Some(lo) => {
                            if 0xDC00 <= lo && lo < 0xE000 {
                                let code = 0x10000 + (v - 0xD800) * 0x400 + (lo - 0xDC00);
                                let mut acc = acc;
                                acc.push(char_from_u32(code));
                                parse_str_body_exec(s, i + 10, acc)
                            } else {
                                None
                            }
                        },
                    }
                } else {
                    None
                }
            } else {
                None
            }
        },
    }
}

fn is_digit_exec(c: char) -> (r: bool)
    ensures
        r == is_digit(c),
{
    let u = c as u32;
    48 <= u && u <= 57
}

fn scan_digits_exec(s: &Vec<char>, i: usize) -> (r: usize)
    requires
        i <= s@.len(),
    ensures
        r == scan_digits(s@, i as int),
        i <= r <= s@.len(),
{
    let n = s.len();
    let mut cur = i;
    while cur < n && is_digit_exec(s[cur])
        invariant
            i <= cur <= n,
            n == s@.len(),
            scan_digits(s@, cur as int) == scan_digits(s@, i as int),
        decreases n - cur,
    {
        cur = cur + 1;
    }
    cur
}

/// The characters of `s` from `i` (inclusive) to `j` (exclusive).
pub fn subrange_vec(s: &Vec<char>, i: usize, j: usize) -> (r: Vec<char>)
    requires
        i <= j <= s@.len(),
    ensures
        r@ == s@.subrange(i as int, j as int),
{
    let mut r: Vec<char> = Vec::new();
    let mut k = i;
    while k < j
        invariant
            i <= k <= j <= s@.len(),
            r@ == s@.subrange(i as int, k as int),
        decreases j - k,
    {
        r.push(s[k]);
        assert(r@ =~= s@.subrange(i as int, k + 1 as int));
        k = k + 1;
    }
    r
}

fn parse_number_exec(s: &Vec<char>, i: usize) -> (r: Option<(JsonValue, usize)>)
    requires
        i <= s@.len(),
    ensures
        match r {
            Some((v, j)) => parse_number(s@, i as int) == Some((v@, j as int)) && i < j
                <= s@.len(),
            None => parse_number(s@, i as int) is None,
        },
{
    let n = s.len();
    let j0 = if i < n && s[i] == '-' {
        i + 1
    } else {
        i
    };
    if !(j0 < n && is_digit_exec(s[j0])) {
        return None;
    }
    let j1 = if s[j0] == '0' {
        j0 + 1
    } else {
        scan_digits_exec(s, j0)
    };
    proof {
        if s@[j0 as int] != '0' {
            assert(scan_digits(s@, j0 as int) == scan_digits(s@, j0 + 1));
            lemma_scan_digits_bounds(s@, j0 + 1);
        }
        assert(j0 < j1);
    }
    let has_frac = j1 < n && s[j1] == '.';
    let j2 = if has_frac {
        scan_digits_exec(s, j1 + 1)
    } else {
        j1
    };
    if has_frac && j2 == j1 + 1 {
        return None;
    }
    let has_exp = j2 < n && (s[j2] == 'e' || s[j2] == 'E');
    if has_exp {
        let k0 = if n - j2 > 1 && (s[j2 + 1] == '+' || s[j2 + 1] == '-') {
            j2 + 2
        } else {
            j2 + 1
        };
        let j3 = scan_digits_exec(s, k0);
        if j3 == k0 {
            return None;
        }
        let raw = subrange_vec(s, i, j3);
        return Some((JsonValue::Num(raw), j3));
    }
    let j3 = j2;
    let raw = subrange_vec(s, i, j3);
    Some((JsonValue::Num(raw), j3))
}

fn parse_value_at_exec(s: &Vec<char>, i: usize) -> (r: Option<(JsonValue, usize)>)
    requires
        i <= s@.len(),
    ensures
        match r {
            Some((v, j)) => parse_value_at(s@, i as int) == Some((v@, j as int)) && i < j
                <= s@.len(),
            None => parse_value_at(s@, i as int) is None,
        },
{
    if i >= s.len() {
        return None;
    }
    let c0 = s[i];
    if c0 == '"' {
        match parse_str_body_exec(s, i + 1, Vec::new()) {
            Some((cs, j)) => Some((JsonValue::Str(cs), j)),
            None => None,
        }
    } else if c0 == 't' {
        if s.len() - i >= 4 && s[i + 1] == 'r' && s[i + 2] == 'u' && s[i + 3] == 'e' {
            assert(s@.subrange(i as int, i + 4 as int) =~= seq!['t', 'r', 'u', 'e']);
            Some((JsonValue::Bool(true), i + 4))
        } else {
            assert(!has_lit(s@, i as int, seq!['t', 'r', 'u', 'e'])) by {
                if has_lit(s@, i as int, seq!['t', 'r', 'u', 'e']) {
                    assert(s@.subrange(i as int, i + 4 as int)[1] == 'r');
                    assert(s@.subrange(i as int, i + 4 as int)[2] == 'u');
                    assert(s@.subrange(i as int, i + 4 as int)[3] == 'e');
                }
            }
            None
        }
    } else if c0 == 'f' {
        if s.len() - i >= 5 && s[i + 1] == 'a' && s[i + 2] == 'l' && s[i + 3] == 's' && s[i + 4]
            == 'e' {
            assert(s@.subrange(i as int, i + 5 as int) =~= seq!['f', 'a', 'l', 's', 'e']);
            Some((JsonValue::Bool(false), i + 5))
        } else {
            assert(!has_lit(s@, i as int, seq!['f', 'a', 'l', 's', 'e'])) by {
                if has_lit(s@, i as int, seq!['f', 'a', 'l', 's', 'e']) {
                    assert(s@.subrange(i as int, i + 5 as int)[1] == 'a');
                    assert(s@.subrange(i as int, i + 5 as int)[2] == 'l');
                    assert(s@.subrange(i as int, i + 5 as int)[3] == 's');
                    assert(s@.subrange(i as int, i + 5 as int)[4] == 'e');
                }
            }
            None
        }
    } else if c0 == 'n' {
        if s.len() - i >= 4 && s[i + 1] == 'u' && s[i + 2] == 'l' && s[i + 3] == 'l' {
            assert(s@.subrange(i as int, i + 4 as int) =~= seq!['n', 'u', 'l', 'l']);
            Some((JsonValue::Null, i + 4))
        } else {
            assert(!has_lit(s@, i as int, seq!['n', 'u', 'l', 'l'])) by {
                if has_lit(s@, i as int, seq!['n', 'u', 'l', 'l']) {
                    assert(s@.subrange(i as int, i + 4 as int)[1] == 'u');
                    assert(s@.subrange(i as int, i + 4 as int)[2] == 'l');
                    assert(s@.subrange(i as int, i + 4 as int)[3] == 'l');
                }
            }
            None
        }
    } else if c0 == '-' || is_digit_exec(c0) {
        parse_number_exec(s, i)
    } else {
        None
    }
}

fn parse_member_exec(s: &Vec<char>, i: usize) -> (r: Option<(Member, usize)>)
    requires
        i <= s@.len(),
    ensures
        match r {
            Some((m, j)) => parse_member(s@, i as int) == Some((m@, j as int)) && i < j
                <= s@.len(),
            None => parse_member(s@, i as int) is None,
        },
{
    if !(i < s.len() && s[i] == '"') {
        return None;
    }
    match parse_str_body_exec(s, i + 1, Vec::new()) {
        None => None,
        Some((k, j)) => {
            let j2 = skip_ws_exec(s, j);
            if j2 < s.len() && s[j2] == ':' {
                let j3 = skip_ws_exec(s, j2 + 1);
                match parse_value_at_exec(s, j3) {
                    Some((v, j4)) => Some((Member { key: k, value: v }, j4)),
                    None => None,
                }
            } else {
                None
            }
        },
    }
}

fn parse_members_exec(s: &Vec<char>, i: usize, acc: Vec<Member>) -> (r: Option<
    (Vec<Member>, usize),
>)
    requires
        i <= s@.len(),
    ensures
        match r {
            Some((ms, j)) => parse_members(s@, i as int, members_view(acc@)) == Some(
                (members_view(ms@), j as int),
            ) && j <= s@.len(),
            None => parse_members(s@, i as int, members_view(acc@)) is None,
        },
    decreases s@.len() - i,
{
    match parse_member_exec(s, i) {
        None => None,
        Some((m, j)) => {
            let ghost pre = members_view(acc@);
            let mut acc = acc;
            acc.push(m);
            proof {
                assert(members_view(acc@) =~= pre.push(m@));
            }
            let j2 = skip_ws_exec(s, j);
            if j2 < s.len() && s[j2] == ',' {
                let j3 = skip_ws_exec(s, j2 + 1);
                parse_members_exec(s, j3, acc)
            } else {
                Some((acc, j))
            }
        },
    }
}

/// Parses a whole document per `parse_object_text`.
pub fn parse_object(s: &Vec<char>) -> (r: Option<Vec<Member>>)
    ensures
        match r {
            Some(ms) => parse_object_text(s@) == Some(members_view(ms@)),
            None => parse_object_text(s@) is None,
        },
{
    let i = skip_ws_exec(s, 0);
    if !(i < s.len() && s[i] == '{') {
        return None;
    }
    let j = skip_ws_exec(s, i + 1);
    if j < s.len() && s[j] == '}' {
        if skip_ws_exec(s, j + 1) == s.len() {
            let r: Vec<Member> = Vec::new();
            assert(members_view(r@) =~= Seq::<MemberV>::empty());
            Some(r)
        } else {
            None
        }
    } else {
        proof {
            assert(members_view(Seq::<Member>::empty()) =~= Seq::<MemberV>::empty());
        }
        match parse_members_exec(s, j, Vec::new()) {
            Some((ms, k)) => {
                let k2 = skip_ws_exec(s, k);
                if k2 < s.len() && s[k2] == '}' && skip_ws_exec(s, k2 + 1) == s.len() {
                    Some(ms)
                } else {
                    None
                }
            },
            None => None,
        }
    }
}

// ------------------------------------------------------------------
// Printing.
// ------------------------------------------------------------------

/// A hexadecimal digit, lower case.
pub open spec fn hex_digit(d: u32) -> char {
    if d < 10 {
        ((48 + d) as u8) as char
    } else {
        ((87 + d) as u8) as char
    }
}

/// The spelling of one character inside a printed JSON string.
pub open spec fn esc_char(c: char) -> Seq<char> {
    if c == '"' {
        seq!['\\', '"']
    } else if c == '\\' {
        seq!['\\', '\\']
    } else if c == '\n' {
        seq!['\\', 'n']
    } else if c == '\r' {
        seq!['\\', 'r']
    } else if c == '\t' {
        seq!['\\', 't']
    } else if (c as u32) < 0x20 {
        seq!['\\', 'u', '0', '0', hex_digit((c as u32) / 16), hex_digit((c as u32) % 16)]
    } else {
        seq![c]
    }
}

/// The printed body of a JSON string with content `s`.
pub open spec fn ser_str_body(s: Seq<char>) -> Seq<char>
    decreases s.len(),
{
    if s.len() == 0 {
        Seq::empty()
    } else {
        ser_str_body(s.drop_last()) + esc_char(s.last())
    }
}

/// The printed form of a JSON string with content `s`, quotes included.
pub open spec fn ser_string(s: Seq<char>) -> Seq<char> {
    seq!['"'] + ser_str_body(s) + seq!['"']
}

/// Appends the view of `lit` to `out`.
pub fn push_str(out: &mut Vec<char>, lit: &str)
    ensures
        final(out)@ == old(out)@ + lit@,
{
    let mut cs = str_to_chars(lit);
    out.append(&mut cs);
}

fn hex_digit_exec(d: u32) -> (r: char)
    requires
        d < 16,
    ensures
        r == hex_digit(d),
{
    if d < 10 {
        ((48 + d) as u8) as char
    } else {
        ((87 + d) as u8) as char
    }
}

/// Appends the escaped body of `s` to `out`.
fn push_escaped(out: &mut Vec<char>, s: &Vec<char>)
    ensures
        final(out)@ == old(out)@ + ser_str_body(s@),
{
    let n = s.len();
    let mut i: usize = 0;
    proof {
        assert(s@.take(0) =~= Seq::<char>::empty());
        assert(out@ =~= out@ + ser_str_body(s@.take(0)));
    }
    while i < n
        invariant
            i <= n,
            n == s@.len(),
            out@ == old(out)@ + ser_str_body(s@.take(i as int)),
        decreases n - i,
    {
        let c = s[i];
        proof {
            assert(s@.take(i + 1).drop_last() =~= s@.take(i as int));
            assert(s@.take(i + 1).last() == s@[i as int]);
        }
        if c == '"' {
            out.push('\\');
            out.push('"');
        } else if c == '\\' {
            out.push('\\');
            out.push('\\');
        } else if c == '\n' {
            out.push('\\');
            out.push('n');
        } else if c == '\r' {
            out.push('\\');
            out.push('r');
        } else if c == '\t' {
            out.push('\\');
            out.push('t');
        } else if (c as u32) < 0x20 {
            let u = c as u32;
            out.push('\\');
            out.push('u');
            out.push('0');
            out.push('0');
            out.push(hex_digit_exec(u / 16));
            out.push(hex_digit_exec(u % 16));
        } else {
            out.push(c);
        }
        proof {
            assert(out@ =~= old(out)@ + ser_str_body(s@.take(i + 1)));
        }
        i = i + 1;
    }
    proof {
        assert(s@.take(n as int) =~= s@);
    }
}

/// Appends the printed JSON string with content `s` to `out`.
pub fn push_json_string(out: &mut Vec<char>, s: &Vec<char>)
    ensures
        final(out)@ == old(out)@ + ser_string(s@),
{
    out.push('"');
    push_escaped(out, s);
    out.push('"');
    proof {
        assert(out@ =~= old(out)@ + ser_string(s@));
    }
}

/// Appends the decimal spelling of `v` to `out`.
pub fn push_dec(out: &mut Vec<char>, v: u64)
    ensures
        final(out)@ == old(out)@ + dec_rep(v as nat),
{
    let mut d = u64_to_dec(v);
    out.append(&mut d);
}

/// The printed form of a boolean.
pub open spec fn ser_bool(b: bool) -> Seq<char> {
    if b {
        seq!['t', 'r', 'u', 'e']
    } else {
        seq!['f', 'a', 'l', 's', 'e']
    }
}

/// Appends `true` or `false` to `out`.
pub fn push_bool(out: &mut Vec<char>, b: bool)
    ensures
        final(out)@ == old(out)@ + ser_bool(b),
{
    if b {
        push_str(out, "true");
        proof {
            reveal_strlit("true");
            assert(out@ =~= old(out)@ + ser_bool(b));
        }
    } else {
        push_str(out, "false");
        proof {
            reveal_strlit("false");
            assert(out@ =~= old(out)@ + ser_bool(b));
        }
    }
}

// ------------------------------------------------------------------
// Reading fields out of a parsed object.
// ------------------------------------------------------------------

/// How many members of `ms` carry the key `k`.
pub open spec fn count_key(ms: Seq<MemberV>, k: Seq<char>) -> nat
    decreases ms.len(),
{
    if ms.len() == 0 {
        0
    } else {
        count_key(ms.drop_last(), k) + if ms.last().key == k {
            1nat
        } else {
            0nat
        }
    }
}

/// The value of the last member of `ms` carrying the key `k`.
pub open spec fn lookup_key(ms: Seq<MemberV>, k: Seq<char>) -> Option<JsonValueV>
    decreases ms.len(),
{
    if ms.len() == 0 {
        None
    } else if ms.last().key == k {
        Some(ms.last().value)
    } else {
        lookup_key(ms.drop_last(), k)
    }
}

/// The string value of field `k`, defined only when `k` occurs exactly
/// once and holds a string.
pub open spec fn str_field(ms: Seq<MemberV>, k: Seq<char>) -> Option<Seq<char>> {
    if count_key(ms, k) == 1 {
        match lookup_key(ms, k) {
            Some(JsonValueV::Str(s)) => Some(s),
            _ => None,
        }
    } else {
        None
    }
}

/// The boolean value of field `k`, defined only when `k` occurs exactly
/// once and holds a boolean.
pub open spec fn bool_field(ms: Seq<MemberV>, k: Seq<char>) -> Option<bool> {
    if count_key(ms, k) == 1 {
        match lookup_key(ms, k) {
            Some(JsonValueV::Bool(b)) => Some(b),
            _ => None,
        }
    } else {
        None
    }
}

/// The `u64` value of field `k`, defined only when `k` occurs exactly
/// once and holds a plain natural number fitting a `u64`.
pub open spec fn u64_field(ms: Seq<MemberV>, k: Seq<char>) -> Option<u64> {
    if count_key(ms, k) == 1 {
        match lookup_key(ms, k) {
            Some(JsonValueV::Num(t)) => u64_of_num_text(t),
            _ => None,
        }
    } else {
        None
    }
}

/// Finds the index of the single member with key `key`; `None` when the
/// key is absent or repeated.
fn find_unique(ms: &Vec<Member>, key: &str) -> (r: Option<usize>)
    ensures
        match r {
            Some(idx) => idx < ms@.len() && count_key(members_view(ms@), key@) == 1 && lookup_key(
                members_view(ms@),
                key@,
            ) == Some(ms@[idx as int]@.value),
            None => count_key(members_view(ms@), key@) != 1,
        },
{
    let kc = str_to_chars(key);
    let ghost mv = members_view(ms@);
    let n = ms.len();
    let mut i: usize = 0;
    let mut cnt: usize = 0;
    let mut idx: usize = 0;
    proof {
        assert(mv.take(0) =~= Seq::<MemberV>::empty());
    }
    while i < n
        invariant
            i <= n,
            n == ms@.len(),
            mv == members_view(ms@),
            kc@ == key@,
            cnt <= i,
            cnt == count_key(mv.take(i as int), key@),
            cnt > 0 ==> idx < i && mv[idx as int].key == key@ && lookup_key(
                mv.take(i as int),
                key@,
            ) == Some(mv[idx as int].value),
            cnt == 0 ==> lookup_key(mv.take(i as int), key@) is None,
        decreases n - i,
    {
        proof {
            assert(mv.take(i + 1).drop_last() =~= mv.take(i as int));
            assert(mv.take(i + 1).last() == mv[i as int]);
        }
        if chars_eq(&ms[i].key, &kc) {
            cnt = cnt + 1;
            idx = i;
        }
        i = i + 1;
    }
    proof {
        assert(mv.take(n as int) =~= mv);
    }
    if cnt == 1 {
        Some(idx)
    } else {
        None
    }
}

/// Copies a character sequence.
pub fn clone_chars(v: &Vec<char>) -> (r: Vec<char>)
    ensures
        r@ == v@,
{
    let n = v.len();
    let mut r: Vec<char> = Vec::new();
    let mut i: usize = 0;
    while i < n
        invariant
            i <= n,
            n == v@.len(),
            r@ == v@.take(i as int),
        decreases n - i,
    {
        r.push(v[i]);
        assert(r@ =~= v@.take(i + 1));
        i = i + 1;
    }
    assert(r@ =~= v@);
    r
}

/// Reads the string field `key` per `str_field`.
pub fn get_str_field(ms: &Vec<Member>, key: &str) -> (r: Option<Vec<char>>)
    ensures
        match r {
            Some(v) => str_field(members_view(ms@), key@) == Some(v@),
            None => str_field(members_view(ms@), key@) is None,
        },
{
    match find_unique(ms, key) {
        Some(idx) => match &ms[idx].value {
            JsonValue::Str(s) => Some(clone_chars(s)),
            _ => None,
        },
        None => None,
    }
}

/// Reads the boolean field `key` per `bool_field`.
pub fn get_bool_field(ms: &Vec<Member>, key: &str) -> (r: Option<bool>)
    ensures
        r == bool_field(members_view(ms@), key@),
{
    match find_unique(ms, key) {
        Some(idx) => match &ms[idx].value {
            JsonValue::Bool(b) => Some(*b),
            _ => None,
        },
        None => None,
    }
}

/// Reads the numeric field `key` per `u64_field`.
pub fn get_u64_field(ms: &Vec<Member>, key: &str) -> (r: Option<u64>)
    ensures
        r == u64_field(members_view(ms@), key@),
{
    match find_unique(ms, key) {
        Some(idx) => match &ms[idx].value {
            JsonValue::Num(t) => parse_u64(t),
            _ => None,
        },
        None => None,
    }
}

} // verus!
