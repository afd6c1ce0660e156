//! The text grammar: signed decimal integers, `true`/`false`,
//! symbols (letter or underscore start, alphanumeric or underscore
//! body, one optional trailing `?` or `!`) or pure operator symbols
//! (runs of `> < + - * / % =`), double-quoted text with backslash
//! escapes, parenthesized sequences, and a leading `'` producing one
//! layer of quoting.  Alternatives are tried in the order: quote,
//! boolean, number, symbol, text, sequence; the first that matches
//! wins, and each consumes the longest run it can.

use vstd::prelude::*;

use crate::value::{LispVal, SpecVal};

verus! {

/// Whitespace accepted between expressions.
pub open spec fn is_ws(c: char) -> bool {
    c == ' ' || c == '\t' || c == '\n' || c == '\r'
}

/// A decimal digit.
pub open spec fn is_digit(c: char) -> bool {
    '0' <= c <= '9'
}

/// An ASCII letter.
pub open spec fn is_alpha(c: char) -> bool {
    ('a' <= c <= 'z') || ('A' <= c <= 'Z')
}

/// A character allowed in the body of an identifier.
pub open spec fn is_ident_char(c: char) -> bool {
    is_alpha(c) || is_digit(c) || c == '_'
}

/// A character of a pure operator symbol.
pub open spec fn is_opchar(c: char) -> bool {
    c == '>' || c == '<' || c == '+' || c == '-' || c == '*' || c == '/' || c == '%' || c == '='
}

/// Clamps an index into the valid range of `s`.
pub open spec fn clamp_pos(s: Seq<char>, p: int) -> int {
    if p < 0 {
        0
    } else if p > s.len() {
        s.len() as int
    } else {
        p
    }
}

/// The first index at or after `pos` that does not hold whitespace.
pub open spec fn spec_skip_ws(s: Seq<char>, pos: int) -> int
    decreases s.len() - pos,
        when 0 <= pos <= s.len()
{
    if pos < s.len() && is_ws(s[pos]) {
        spec_skip_ws(s, pos + 1)
    } else {
        pos
    }
}

/// Skipping whitespace stays inside the string and lands on the first
/// non-whitespace character.
pub proof fn lemma_skip_ws(s: Seq<char>, pos: int)
    requires
        0 <= pos <= s.len(),
    ensures
        pos <= spec_skip_ws(s, pos) <= s.len(),
        spec_skip_ws(s, pos) < s.len() ==> !is_ws(s[spec_skip_ws(s, pos)]),
    decreases s.len() - pos,
{
    if pos < s.len() && is_ws(s[pos]) {
        lemma_skip_ws(s, pos + 1);
    }
}

/// The end of the run of decimal digits starting at `pos`.
pub open spec fn spec_digit_end(s: Seq<char>, pos: int) -> int
    decreases s.len() - pos,
        when 0 <= pos <= s.len()
{
    if pos < s.len() && is_digit(s[pos]) {
        spec_digit_end(s, pos + 1)
    } else {
        pos
    }
}

/// The end of the run of operator characters starting at `pos`.
pub open spec fn spec_op_end(s: Seq<char>, pos: int) -> int
    decreases s.len() - pos,
        when 0 <= pos <= s.len()
{
    if pos < s.len() && is_opchar(s[pos]) {
        spec_op_end(s, pos + 1)
    } else {
        pos
    }
}

/// The end of the run of identifier characters starting at `pos`.
pub open spec fn spec_ident_end(s: Seq<char>, pos: int) -> int
    decreases s.len() - pos,
        when 0 <= pos <= s.len()
{
    if pos < s.len() && is_ident_char(s[pos]) {
        spec_ident_end(s, pos + 1)
    } else {
        pos
    }
}

/// A digit run stays inside the string and ends at the first
/// non-digit.
pub proof fn lemma_digit_end(s: Seq<char>, pos: int)
    requires
        0 <= pos <= s.len(),
    ensures
        pos <= spec_digit_end(s, pos) <= s.len(),
        spec_digit_end(s, pos) < s.len() ==> !is_digit(s[spec_digit_end(s, pos)]),
        forall|j: int| pos <= j < spec_digit_end(s, pos) ==> is_digit(s[j]),
    decreases s.len() - pos,
{
    if pos < s.len() && is_digit(s[pos]) {
        lemma_digit_end(s, pos + 1);
    }
}

/// An operator run stays inside the string.
pub proof fn lemma_op_end(s: Seq<char>, pos: int)
    requires
        0 <= pos <= s.len(),
    ensures
        pos <= spec_op_end(s, pos) <= s.len(),
    decreases s.len() - pos,
{
    if pos < s.len() && is_opchar(s[pos]) {
        lemma_op_end(s, pos + 1);
    }
}

/// An identifier run stays inside the string.
pub proof fn lemma_ident_end(s: Seq<char>, pos: int)
    requires
        0 <= pos <= s.len(),
    ensures
        pos <= spec_ident_end(s, pos) <= s.len(),
    decreases s.len() - pos,
{
    if pos < s.len() && is_ident_char(s[pos]) {
        lemma_ident_end(s, pos + 1);
    }
}

/// The numeric value of one decimal digit character.
pub open spec fn digit_value(c: char) -> int {
    if c == '0' {
        0
    } else if c == '1' {
        1
    } else if c == '2' {
        2
    } else if c == '3' {
        3
    } else if c == '4' {
        4
    } else if c == '5' {
        5
    } else if c == '6' {
        6
    } else if c == '7' {
        7
    } else if c == '8' {
        8
    } else {
        9
    }
}

/// The value of the digit string `s[from..to]`, most significant
/// digit first.
pub open spec fn spec_digits_value(s: Seq<char>, from: int, to: int) -> int
    decreases to - from,
        when 0 <= from <= to <= s.len()
{
    if to <= from {
        0
    } else {
        spec_digits_value(s, from, to - 1) * 10 + digit_value(s[to - 1])
    }
}

/// Whether the keyword `true` stands at `pos`.
pub open spec fn spec_has_true(s: Seq<char>, pos: int) -> bool {
    &&& 0 <= pos
    &&& pos + 4 <= s.len()
    &&& s[pos] == 't'
    &&& s[pos + 1] == 'r'
    &&& s[pos + 2] == 'u'
    &&& s[pos + 3] == 'e'
}

/// Whether the keyword `false` stands at `pos`.
pub open spec fn spec_has_false(s: Seq<char>, pos: int) -> bool {
    &&& 0 <= pos
    &&& pos + 5 <= s.len()
    &&& s[pos] == 'f'
    &&& s[pos + 1] == 'a'
    &&& s[pos + 2] == 'l'
    &&& s[pos + 3] == 's'
    &&& s[pos + 4] == 'e'
}

/// A signed decimal integer at `pos`: an optional sign, then the
/// longest digit run.  A value outside the 64-bit signed range does
/// not parse as a number (the symbol alternative is tried next).
pub open spec fn spec_parse_number(s: Seq<char>, pos: int) -> Option<(SpecVal, int)> {
    if pos < 0 || pos >= s.len() {
        None
    } else {
        let neg = s[pos] == '-';
        let dstart = if s[pos] == '-' || s[pos] == '+' {
            pos + 1
        } else {
            pos
        };
        if dstart >= s.len() || !is_digit(s[dstart]) {
            None
        } else {
            let dend = spec_digit_end(s, dstart);
            let magnitude = spec_digits_value(s, dstart, dend);
            let value = if neg {
                -magnitude
            } else {
                magnitude
            };
            if i64::MIN <= value <= i64::MAX {
                Some((SpecVal::Number(value as i64), dend))
            } else {
                None
            }
        }
    }
}

/// A symbol at `pos`: a run of operator characters, or a letter or
/// underscore followed by alphanumerics and underscores with one
/// optional trailing `?` or `!`.
pub open spec fn spec_parse_symbol(s: Seq<char>, pos: int) -> Option<(Seq<char>, int)> {
    if pos < 0 || pos >= s.len() {
        None
    } else if is_opchar(s[pos]) {
        let end = spec_op_end(s, pos);
        Some((s.subrange(pos, clamp_pos(s, end)), clamp_pos(s, end)))
    } else if is_alpha(s[pos]) || s[pos] == '_' {
        let end = clamp_pos(s, spec_ident_end(s, pos + 1));
        let end2 = if end < s.len() && (s[end] == '?' || s[end] == '!') {
            end + 1
        } else {
            end
        };
        Some((s.subrange(pos, end2), end2))
    } else {
        None
    }
}

/// The replacement character for one escape code inside quoted text.
pub open spec fn spec_escape_of(c: char) -> Option<char> {
    if c == 'n' {
        Some('\n')
    } else if c == 't' {
        Some('\t')
    } else if c == 'r' {
        Some('\r')
    } else if c == '"' {
        Some('"')
    } else if c == '\\' {
        Some('\\')
    } else {
        None
    }
}

/// The contents of a double-quoted text literal from `pos` to its
/// closing quote: plain characters and backslash escapes.  Fails on an
/// unterminated literal or an unknown escape code.
pub open spec fn spec_parse_text_rest(s: Seq<char>, pos: int) -> Option<(Seq<char>, int)>
    decreases s.len() - pos,
        when 0 <= pos <= s.len()
{
    if pos >= s.len() {
        None
    } else if s[pos] == '"' {
        Some((Seq::empty(), pos + 1))
    } else if s[pos] == '\\' {
        if pos + 1 >= s.len() {
            None
        } else {
            match spec_escape_of(s[pos + 1]) {
                None => None,
                Some(e) => match spec_parse_text_rest(s, pos + 2) {
                    None => None,
                    Some((t, end)) => Some((seq![e] + t, end)),
                },
            }
        }
    } else {
        match spec_parse_text_rest(s, pos + 1) {
            None => None,
            Some((t, end)) => Some((seq![s[pos]] + t, end)),
        }
    }
}

/// One expression starting exactly at `pos` (no leading whitespace):
/// the alternatives in order.
pub open spec fn spec_parse_core(s: Seq<char>, pos: int) -> Option<(SpecVal, int)>
    decreases s.len() - pos, 0int,
        when 0 <= pos <= s.len()
{
    if pos >= s.len() {
        None
    } else if s[pos] == '\'' {
        match spec_parse_expr(s, pos + 1) {
            Some((v, p)) => Some((SpecVal::Unevaluated(Box::new(v)), p)),
            None => None,
        }
    } else if spec_has_true(s, pos) {
        Some((SpecVal::Boolean(true), pos + 4))
    } else if spec_has_false(s, pos) {
        Some((SpecVal::Boolean(false), pos + 5))
    } else {
        match spec_parse_number(s, pos) {
            Some(r) => Some(r),
            None => match spec_parse_symbol(s, pos) {
                Some((name, p)) => Some((SpecVal::Symbol(name), p)),
                None => if s[pos] == '"' {
                    match spec_parse_text_rest(s, pos + 1) {
                        Some((t, p)) => Some((SpecVal::Text(t), p)),
                        None => None,
                    }
                } else if s[pos] == '(' {
                    let (vs, p) = spec_parse_items(s, pos + 1);
                    if p < s.len() && s[p] == ')' {
                        Some((SpecVal::List(vs), p + 1))
                    } else {
                        None
                    }
                } else {
                    None
                },
            },
        }
    }
}

/// One expression at `pos`, with whitespace trimmed before and after.
pub open spec fn spec_parse_expr(s: Seq<char>, pos: int) -> Option<(SpecVal, int)>
    decreases s.len() - pos, 1int,
        when 0 <= pos <= s.len()
{
    proof {
        lemma_skip_ws(s, pos);
    }
    let start = spec_skip_ws(s, pos);
    match spec_parse_core(s, start) {
        Some((v, end)) => Some((v, spec_skip_ws(s, clamp_pos(s, end)))),
        None => None,
    }
}

/// As many expressions as parse, one after another, from `pos`; stops
/// where no further expression parses (or one would consume nothing).
pub open spec fn spec_parse_items(s: Seq<char>, pos: int) -> (Seq<SpecVal>, int)
    decreases s.len() - pos, 2int,
        when 0 <= pos <= s.len()
{
    match spec_parse_expr(s, pos) {
        None => (Seq::empty(), pos),
        Some((v, p)) => if pos < p <= s.len() {
            let (vs, e) = spec_parse_items(s, p);
            (seq![v] + vs, e)
        } else {
            (Seq::empty(), pos)
        },
    }
}

/// One whole expression from the start of the input: the parsed value
/// and the index where the remainder begins.
pub open spec fn spec_parse(s: Seq<char>) -> Option<(SpecVal, int)> {
    spec_parse_expr(s, 0)
}


/// The parse failure value: the input did not match the grammar.
#[derive(Debug, Clone, Copy, PartialEq, Eq, Structural)]
pub struct ParseError {
}

/// The characters of a string slice, in order.
pub fn chars_of(s: &str) -> (r: Vec<char>)
    ensures
        r@ == s@,
{
    let n = s.unicode_len();
    let mut r: Vec<char> = Vec::new();
    let mut i: usize = 0;
    while i < n
        invariant
            i <= n,
            n == s@.len(),
            r@.len() == i,
            forall|j: int| 0 <= j < i ==> r@[j] == s@[j],
        decreases n - i,
    {
        r.push(s.get_char(i));
        i = i + 1;
    }
    proof {
        assert(r@ =~= s@);
    }
    r
}

/// The string holding `chars[from..to]`.
fn string_from_range(chars: &Vec<char>, from: usize, to: usize) -> (r: String)
    requires
        from <= to <= chars@.len(),
    ensures
        r@ == chars@.subrange(from as int, to as int),
{
    let mut r = String::new();
    let mut i = from;
    while i < to
        invariant
            from <= i <= to <= chars@.len(),
            r@ == chars@.subrange(from as int, i as int),
        decreases to - i,
    {
        crate::strutil::push_char(&mut r, chars[i]);
        proof {
            assert(chars@.subrange(from as int, i + 1) =~= chars@.subrange(from as int, i as int)
                .push(chars@[i as int]));
        }
        i = i + 1;
    }
    r
}

/// Whitespace, executable form.
fn ws_char(c: char) -> (r: bool)
    ensures
        r == is_ws(c),
{
    c == ' ' || c == '\t' || c == '\n' || c == '\r'
}

/// A decimal digit, executable form.
fn digit_char_q(c: char) -> (r: bool)
    ensures
        r == is_digit(c),
{
    '0' <= c && c <= '9'
}

/// An ASCII letter, executable form.
fn alpha_char_q(c: char) -> (r: bool)
    ensures
        r == is_alpha(c),
{
    ('a' <= c && c <= 'z') || ('A' <= c && c <= 'Z')
}

/// An identifier-body character, executable form.
fn ident_char_q(c: char) -> (r: bool)
    ensures
        r == is_ident_char(c),
{
    alpha_char_q(c) || digit_char_q(c) || c == '_'
}

/// An operator character, executable form.
fn op_char_q(c: char) -> (r: bool)
    ensures
        r == is_opchar(c),
{
    c == '>' || c == '<' || c == '+' || c == '-' || c == '*' || c == '/' || c == '%' || c == '='
}

/// Skips whitespace from `pos`.
fn skip_ws_at(chars: &Vec<char>, pos: usize) -> (r: usize)
    requires
        pos <= chars@.len(),
    ensures
        r as int == spec_skip_ws(chars@, pos as int),
        pos <= r <= chars@.len(),
{
    let n = chars.len();
    let mut i = pos;
    while i < n && ws_char(chars[i])
        invariant
            pos <= i <= n,
            n == chars@.len(),
            spec_skip_ws(chars@, pos as int) == spec_skip_ws(chars@, i as int),
        decreases n - i,
    {
        i = i + 1;
    }
    i
}

/// The end of the digit run from `pos`.
fn digit_end_at(chars: &Vec<char>, pos: usize) -> (r: usize)
    requires
        pos <= chars@.len(),
    ensures
        r as int == spec_digit_end(chars@, pos as int),
        pos <= r <= chars@.len(),
{
    let n = chars.len();
    let mut i = pos;
    while i < n && digit_char_q(chars[i])
        invariant
            pos <= i <= n,
            n == chars@.len(),
            spec_digit_end(chars@, pos as int) == spec_digit_end(chars@, i as int),
        decreases n - i,
    {
        i = i + 1;
    }
    i
}

/// The end of the operator run from `pos`.
fn op_end_at(chars: &Vec<char>, pos: usize) -> (r: usize)
    requires
        pos <= chars@.len(),
    ensures
        r as int == spec_op_end(chars@, pos as int),
        pos <= r <= chars@.len(),
{
    let n = chars.len();
    let mut i = pos;
    while i < n && op_char_q(chars[i])
        invariant
            pos <= i <= n,
            n == chars@.len(),
            spec_op_end(chars@, pos as int) == spec_op_end(chars@, i as int),
        decreases n - i,
    {
        i = i + 1;
    }
    i
}

/// The end of the identifier run from `pos`.
fn ident_end_at(chars: &Vec<char>, pos: usize) -> (r: usize)
    requires
        pos <= chars@.len(),
    ensures
        r as int == spec_ident_end(chars@, pos as int),
        pos <= r <= chars@.len(),
{
    let n = chars.len();
    let mut i = pos;
    while i < n && ident_char_q(chars[i])
        invariant
            pos <= i <= n,
            n == chars@.len(),
            spec_ident_end(chars@, pos as int) == spec_ident_end(chars@, i as int),
        decreases n - i,
    {
        i = i + 1;
    }
    i
}

/// The value of one digit character, executable form.
fn digit_val_exec(c: char) -> (r: u64)
    ensures
        r as int == digit_value(c),
        r <= 9,
{
    if c == '0' {
        0
    } else if c == '1' {
        1
    } else if c == '2' {
        2
    } else if c == '3' {
        3
    } else if c == '4' {
        4
    } else if c == '5' {
        5
    } else if c == '6' {
        6
    } else if c == '7' {
        7
    } else if c == '8' {
        8
    } else {
        9
    }
}

/// Digit-string values are never negative.
proof fn lemma_digits_value_nonneg(s: Seq<char>, from: int, to: int)
    requires
        0 <= from <= to <= s.len(),
    ensures
        spec_digits_value(s, from, to) >= 0,
    decreases to - from,
{
    if to > from {
        lemma_digits_value_nonneg(s, from, to - 1);
    }
}

/// A longer digit string has at least the value of its prefix.
proof fn lemma_digits_value_monotone(s: Seq<char>, from: int, i: int, j: int)
    requires
        0 <= from <= i <= j <= s.len(),
    ensures
        spec_digits_value(s, from, j) >= spec_digits_value(s, from, i),
    decreases j - i,
{
    if j > i {
        lemma_digits_value_monotone(s, from, i, j - 1);
        lemma_digits_value_nonneg(s, from, j - 1);
    }
}

/// A signed decimal integer from `pos` (see [`spec_parse_number`]).
fn parse_number_at(chars: &Vec<char>, pos: usize) -> (r: Option<(LispVal, usize)>)
    requires
        pos <= chars@.len(),
    ensures
        match (r, spec_parse_number(chars@, pos as int)) {
            (Some((v, p)), Some((sv, sp))) => v@ == sv && p as int == sp && p <= chars@.len(),
            (None, None) => true,
            _ => false,
        },
{
    let n = chars.len();
    if pos >= n {
        return None;
    }
    let c = chars[pos];
    let neg = c == '-';
    let dstart = if c == '-' || c == '+' {
        pos + 1
    } else {
        pos
    };
    if dstart >= n {
        return None;
    }
    if !digit_char_q(chars[dstart]) {
        return None;
    }
    let dend = digit_end_at(chars, dstart);
    proof {
        lemma_digit_end(chars@, dstart as int);
    }
    let mut mag: u64 = 0;
    let mut i = dstart;
    while i < dend
        invariant
            dstart <= i <= dend <= n,
            n == chars@.len(),
            pos < n,
            neg == (chars@[pos as int] == '-'),
            dstart as int == if chars@[pos as int] == '-' || chars@[pos as int] == '+' {
                pos + 1
            } else {
                pos as int
            },
            is_digit(chars@[dstart as int]),
            dend as int == spec_digit_end(chars@, dstart as int),
            mag as int == spec_digits_value(chars@, dstart as int, i as int),
        decreases dend - i,
    {
        let d = digit_val_exec(chars[i]);
        let stepped = match mag.checked_mul(10) {
            Some(m) => m.checked_add(d),
            None => None,
        };
        match stepped {
            Some(m2) => {
                mag = m2;
            },
            None => {
                proof {
                    assert(spec_digits_value(chars@, dstart as int, i + 1) == mag * 10 + d);
                    assert(spec_digits_value(chars@, dstart as int, i + 1) > u64::MAX);
                    lemma_digits_value_monotone(chars@, dstart as int, i + 1, dend as int);
                    assert(spec_digits_value(chars@, dstart as int, dend as int) > i64::MAX);
                }
                return None;
            },
        }
        i = i + 1;
    }
    if neg {
        if mag > 9223372036854775808u64 {
            proof {
                lemma_digits_value_nonneg(chars@, dstart as int, dend as int);
            }
            return None;
        }
        let v: i64 = if mag == 9223372036854775808u64 {
            i64::MIN
        } else {
            -(mag as i64)
        };
        Some((LispVal::Number(v), dend))
    } else {
        if mag > 9223372036854775807u64 {
            return None;
        }
        Some((LispVal::Number(mag as i64), dend))
    }
}

/// A symbol from `pos` (see [`spec_parse_symbol`]).
fn parse_symbol_at(chars: &Vec<char>, pos: usize) -> (r: Option<(String, usize)>)
    requires
        pos <= chars@.len(),
    ensures
        match (r, spec_parse_symbol(chars@, pos as int)) {
            (Some((v, p)), Some((sv, sp))) => v@ == sv && p as int == sp && pos < p <= chars@.len(),
            (None, None) => true,
            _ => false,
        },
{
    let n = chars.len();
    if pos >= n {
        return None;
    }
    let c = chars[pos];
    if op_char_q(c) {
        let end = op_end_at(chars, pos);
        proof {
            lemma_op_end(chars@, pos as int);
            assert(spec_op_end(chars@, pos as int) == spec_op_end(chars@, pos + 1));
            lemma_op_end(chars@, pos + 1);
            assert(clamp_pos(chars@, spec_op_end(chars@, pos as int)) == end as int);
        }
        let name = string_from_range(chars, pos, end);
        Some((name, end))
    } else if alpha_char_q(c) || c == '_' {
        let end = ident_end_at(chars, pos + 1);
        proof {
            lemma_ident_end(chars@, pos + 1);
            assert(clamp_pos(chars@, spec_ident_end(chars@, pos + 1)) == end as int);
        }
        let end2 = if end < n && (chars[end] == '?' || chars[end] == '!') {
            end + 1
        } else {
            end
        };
        let name = string_from_range(chars, pos, end2);
        Some((name, end2))
    } else {
        None
    }
}

/// The replacement for one escape code, executable form.
fn escape_of_exec(c: char) -> (r: Option<char>)
    ensures
        r == spec_escape_of(c),
{
    if c == 'n' {
        Some('\n')
    } else if c == 't' {
        Some('\t')
    } else if c == 'r' {
        Some('\r')
    } else if c == '"' {
        Some('"')
    } else if c == '\\' {
        Some('\\')
    } else {
        None
    }
}

/// The contents of a quoted text literal from `pos` to its closing
/// quote (see [`spec_parse_text_rest`]).
fn parse_text_rest_at(chars: &Vec<char>, pos: usize) -> (r: Option<(String, usize)>)
    requires
        pos <= chars@.len(),
    ensures
        match (r, spec_parse_text_rest(chars@, pos as int)) {
            (Some((v, p)), Some((sv, sp))) => v@ == sv && p as int == sp && p <= chars@.len(),
            (None, None) => true,
            _ => false,
        },
    decreases chars@.len() - pos,
{
    let n = chars.len();
    if pos >= n {
        return None;
    }
    let c = chars[pos];
    if c == '"' {
        Some((String::new(), pos + 1))
    } else if c == '\\' {
        if pos + 1 >= n {
            None
        } else {
            match escape_of_exec(chars[pos + 1]) {
                None => None,
                Some(e) => match parse_text_rest_at(chars, pos + 2) {
                    None => None,
                    Some((t, end)) => {
                        let mut s2 = String::new();
                        crate::strutil::push_char(&mut s2, e);
                        s2.append(t.as_str());
                        proof {
                            assert(s2@ =~= seq![e] + t@);
                        }
                        Some((s2, end))
                    },
                },
            }
        }
    } else {
        match parse_text_rest_at(chars, pos + 1) {
            None => None,
            Some((t, end)) => {
                let mut s2 = String::new();
                crate::strutil::push_char(&mut s2, c);
                s2.append(t.as_str());
                proof {
                    assert(s2@ =~= seq![c] + t@);
                }
                Some((s2, end))
            },
        }
    }
}

/// Whether `true` stands at `pos`, executable form.
fn has_true_at(chars: &Vec<char>, pos: usize) -> (r: bool)
    requires
        pos <= chars@.len(),
    ensures
        r == spec_has_true(chars@, pos as int),
{
    let n = chars.len();
    n - pos >= 4 && chars[pos] == 't' && chars[pos + 1] == 'r' && chars[pos + 2] == 'u'
        && chars[pos + 3] == 'e'
}

/// Whether `false` stands at `pos`, executable form.
fn has_false_at(chars: &Vec<char>, pos: usize) -> (r: bool)
    requires
        pos <= chars@.len(),
    ensures
        r == spec_has_false(chars@, pos as int),
{
    let n = chars.len();
    n - pos >= 5 && chars[pos] == 'f' && chars[pos + 1] == 'a' && chars[pos + 2] == 'l'
        && chars[pos + 3] == 's' && chars[pos + 4] == 'e'
}

/// One expression starting exactly at `pos` (see [`spec_parse_core`]).
fn parse_core_at(chars: &Vec<char>, pos: usize) -> (r: Option<(LispVal, usize)>)
    requires
        pos <= chars@.len(),
    ensures
        match (r, spec_parse_core(chars@, pos as int)) {
            (Some((v, p)), Some((sv, sp))) => v@ == sv && p as int == sp && p <= chars@.len(),
            (None, None) => true,
            _ => false,
        },
    decreases chars@.len() - pos, 0int,
{
    let n = chars.len();
    if pos >= n {
        return None;
    }
    let c = chars[pos];
    if c == '\'' {
        match parse_expr_at(chars, pos + 1) {
            Some((v, p)) => Some((LispVal::Unevaluated(Box::new(v)), p)),
            None => None,
        }
    } else if has_true_at(chars, pos) {
        Some((LispVal::Boolean(true), pos + 4))
    } else if has_false_at(chars, pos) {
        Some((LispVal::Boolean(false), pos + 5))
    } else {
        match parse_number_at(chars, pos) {
            Some((v, p)) => Some((v, p)),
            None => match parse_symbol_at(chars, pos) {
                Some((name, p)) => Some((LispVal::Symbol(name), p)),
                None => {
                    if c == '"' {
                        match parse_text_rest_at(chars, pos + 1) {
                            Some((t, p)) => Some((LispVal::Text(t), p)),
                            None => None,
                        }
                    } else if c == '(' {
                        let (vs, p) = parse_items_at(chars, pos + 1);
                        if p < n && chars[p] == ')' {
                            Some((LispVal::List(vs), p + 1))
                        } else {
                            None
                        }
                    } else {
                        None
                    }
                },
            },
        }
    }
}

/// One expression at `pos` with surrounding whitespace trimmed (see
/// [`spec_parse_expr`]).
fn parse_expr_at(chars: &Vec<char>, pos: usize) -> (r: Option<(LispVal, usize)>)
    requires
        pos <= chars@.len(),
    ensures
        match (r, spec_parse_expr(chars@, pos as int)) {
            (Some((v, p)), Some((sv, sp))) => v@ == sv && p as int == sp && p <= chars@.len(),
            (None, None) => true,
            _ => false,
        },
    decreases chars@.len() - pos, 1int,
{
    let start = skip_ws_at(chars, pos);
    match parse_core_at(chars, start) {
        Some((v, end)) => {
            proof {
                assert(clamp_pos(chars@, end as int) == end as int);
            }
            let e2 = skip_ws_at(chars, end);
            Some((v, e2))
        },
        None => None,
    }
}

/// As many expressions as parse from `pos` (see [`spec_parse_items`]).
fn parse_items_at(chars: &Vec<char>, pos: usize) -> (r: (Vec<LispVal>, usize))
    requires
        pos <= chars@.len(),
    ensures
        ({
            let (vs, e) = spec_parse_items(chars@, pos as int);
            crate::value::deeps(r.0@) == vs && r.1 as int == e && pos <= r.1 <= chars@.len()
        }),
    decreases chars@.len() - pos, 2int,
{
    match parse_expr_at(chars, pos) {
        None => {
            proof {
                assert(crate::value::deeps(Seq::<LispVal>::empty()) =~= Seq::<SpecVal>::empty());
            }
            (Vec::new(), pos)
        },
        Some((v, p)) => {
            if p > pos {
                let (vs, e) = parse_items_at(chars, p);
                let mut vs = vs;
                let ghost post = vs@;
                vs.insert(0, v);
                proof {
                    crate::value::lemma_deeps(vs@);
                    crate::value::lemma_deeps(post);
                    assert(crate::value::deeps(vs@) =~= seq![vs@[0].deep()]
                        + crate::value::deeps(post));
                }
                (vs, e)
            } else {
                proof {
                    assert(crate::value::deeps(Seq::<LispVal>::empty())
                        =~= Seq::<SpecVal>::empty());
                }
                (Vec::new(), pos)
            }
        },
    }
}

/// Parses one expression from the start of the input, returning the
/// value and the remaining text, or the parse failure (see
/// [`spec_parse`]): the result is `Ok` exactly when the input's start
/// matches the grammar.
pub fn parse(input: &str) -> (r: Result<(LispVal, String), ParseError>)
    ensures
        match (r, spec_parse(input@)) {
            (Ok((v, rest)), Some((sv, sp))) => v@ == sv && rest@ == input@.skip(sp),
            (Err(_), None) => true,
            _ => false,
        },
{
    let chars = chars_of(input);
    match parse_expr_at(&chars, 0) {
        Some((v, p)) => {
            let rest = string_from_range(&chars, p, chars.len());
            proof {
                assert(chars@.subrange(p as int, chars@.len() as int) =~= input@.skip(p as int));
            }
            Ok((v, rest))
        },
        None => Err(ParseError {  }),
    }
}

} // verus!
