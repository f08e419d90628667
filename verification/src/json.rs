//! A small JSON document model with a verified serializer and parser.
//! Every frame this gateway sends or receives is JSON text; this module
//! is the single place where that text is produced and read.
//!
//! The serializer's output is pinned character for character by `jtext`.
//! The parser is verified to terminate and never panic, and to consume a
//! well-delimited span; what an accepted document means is pinned one
//! level up, where frames are classified field by field.
//!
//! Numbers are restricted to signed 64-bit integers: every quantity in the
//! gateway's protocol (costs, amounts, ids, versions) is integral.

use vstd::prelude::*;

verus! {

/// One member of a JSON object: a key and its value.
pub struct Member {
    pub key: String,
    pub value: Json,
}

/// A JSON document.
pub enum Json {
    Null,
    Bool(bool),
    Int(i64),
    Str(String),
    Arr(Vec<Json>),
    Obj(Vec<Member>),
}

/// The lowercase hex digit for a nibble.
pub open spec fn hex_digit(n: int) -> char {
    if n == 0 { '0' } else if n == 1 { '1' } else if n == 2 { '2' } else if n == 3 { '3' }
    else if n == 4 { '4' } else if n == 5 { '5' } else if n == 6 { '6' } else if n == 7 { '7' }
    else if n == 8 { '8' } else if n == 9 { '9' } else if n == 10 { 'a' } else if n == 11 { 'b' }
    else if n == 12 { 'c' } else if n == 13 { 'd' } else if n == 14 { 'e' } else { 'f' }
}

/// How one character is written inside a JSON string literal: quote,
/// backslash and control characters are escaped, everything else stands
/// as itself.
pub open spec fn esc_char(c: char) -> Seq<char> {
    if c == '"' { seq!['\\', '"'] }
    else if c == '\\' { seq!['\\', '\\'] }
    else if c == '\n' { seq!['\\', 'n'] }
    else if c == '\r' { seq!['\\', 'r'] }
    else if c == '\t' { seq!['\\', 't'] }
    else if (c as u32) < 32 {
        seq!['\\', 'u', '0', '0', hex_digit((c as u32) as int / 16), hex_digit((c as u32) as int % 16)]
    } else { seq![c] }
}

/// The escaped body of a JSON string literal, from character `i` on.
pub open spec fn esc_str_from(s: Seq<char>, i: int) -> Seq<char>
    decreases s.len() - i,
{
    if i < 0 || i >= s.len() { Seq::empty() } else { esc_char(s[i]) + esc_str_from(s, i + 1) }
}

/// The escaped body of a JSON string literal.
pub open spec fn esc_str(s: Seq<char>) -> Seq<char> {
    esc_str_from(s, 0)
}

/// Decimal digits of a non-negative integer, most significant first.
pub open spec fn nat_text(n: int) -> Seq<char>
    decreases n,
{
    if n <= 0 { seq![hex_digit(0)] }
    else if n < 10 { seq![hex_digit(n)] }
    else { nat_text(n / 10) + seq![hex_digit(n % 10)] }
}

/// Decimal rendering of an integer, with a leading minus sign if negative.
pub open spec fn int_text(n: int) -> Seq<char> {
    if n < 0 { seq!['-'] + nat_text(-n) } else { nat_text(n) }
}

/// The canonical text of a JSON value: no whitespace, members in the order
/// given, strings minimally escaped, integers in decimal.
pub open spec fn jtext(v: Json) -> Seq<char>
    decreases v,
{
    match v {
        Json::Null => seq!['n', 'u', 'l', 'l'],
        Json::Bool(b) => if b { seq!['t', 'r', 'u', 'e'] } else { seq!['f', 'a', 'l', 's', 'e'] },
        Json::Int(n) => int_text(n as int),
        Json::Str(s) => seq!['"'] + esc_str(s@) + seq!['"'],
        Json::Arr(items) => seq!['['] + arr_text_from(items@, 0) + seq![']'],
        Json::Obj(members) => seq!['{'] + obj_text_from(members@, 0) + seq!['}'],
    }
}

/// The comma-separated texts of array elements from index `i` on.
pub open spec fn arr_text_from(items: Seq<Json>, i: int) -> Seq<char>
    decreases items, items.len() - i,
{
    if i < 0 || i >= items.len() { Seq::empty() }
    else if i + 1 == items.len() { jtext(items[i]) }
    else { jtext(items[i]) + seq![','] + arr_text_from(items, i + 1) }
}

/// The comma-separated texts of object members from index `i` on.
pub open spec fn obj_text_from(members: Seq<Member>, i: int) -> Seq<char>
    decreases members, members.len() - i,
{
    if i < 0 || i >= members.len() { Seq::empty() }
    else if i + 1 == members.len() { member_text(members[i]) }
    else { member_text(members[i]) + seq![','] + obj_text_from(members, i + 1) }
}

/// The text of one object member: quoted key, colon, value.
pub open spec fn member_text(m: Member) -> Seq<char>
    decreases m,
{
    seq!['"'] + esc_str(m.key@) + seq!['"', ':'] + jtext(m.value)
}

/// The lowercase hex digit character for a nibble, executable form.
fn hex_digit_char(n: u32) -> (c: char)
    requires
        n < 16,
    ensures
        c == hex_digit(n as int),
{
    match n {
        0 => '0', 1 => '1', 2 => '2', 3 => '3', 4 => '4', 5 => '5', 6 => '6', 7 => '7',
        8 => '8', 9 => '9', 10 => 'a', 11 => 'b', 12 => 'c', 13 => 'd', 14 => 'e', _ => 'f',
    }
}

/// Writes one string-literal character, escaped as `esc_char` says.
fn write_esc_char(c: char, out: &mut Vec<char>)
    ensures
        final(out)@ == old(out)@ + esc_char(c),
{
    if c == '"' {
        out.push('\\');
        out.push('"');
    } else if c == '\\' {
        out.push('\\');
        out.push('\\');
    } else if c == '\n' {
        out.push('\\');
        out.push('n');
    } else if c == '\r' {
        out.push('\\');
        out.push('r');
    } else if c == '\t' {
        out.push('\\');
        out.push('t');
    } else if (c as u32) < 32 {
        out.push('\\');
        out.push('u');
        out.push('0');
        out.push('0');
        out.push(hex_digit_char((c as u32) / 16));
        out.push(hex_digit_char((c as u32) % 16));
    } else {
        out.push(c);
    }
}

/// Writes the escaped body of a JSON string literal.
fn write_esc_str(s: &str, out: &mut Vec<char>)
    ensures
        final(out)@ == old(out)@ + esc_str(s@),
{
    let n = s.unicode_len();
    let mut i: usize = 0;
    while i < n
        invariant
            n == s@.len(),
            i <= n,
            out@ + esc_str_from(s@, i as int) == old(out)@ + esc_str(s@),
        decreases n - i,
    {
        write_esc_char(s.get_char(i), out);
        i = i + 1;
    }
}

/// Writes the decimal digits of `n`, most significant first.
fn write_nat(n: u64, out: &mut Vec<char>)
    ensures
        final(out)@ == old(out)@ + nat_text(n as int),
    decreases n,
{
    if n >= 10 {
        write_nat(n / 10, out);
        out.push(hex_digit_char((n % 10) as u32));
    } else {
        out.push(hex_digit_char(n as u32));
    }
}

/// Writes the decimal rendering of `n`, with a minus sign if negative.
pub fn write_int_chars(n: i64, out: &mut Vec<char>)
    ensures
        final(out)@ == old(out)@ + int_text(n as int),
{
    write_int(n, out);
}

/// Writes the decimal rendering of `n`, with a minus sign if negative.
fn write_int(n: i64, out: &mut Vec<char>)
    ensures
        final(out)@ == old(out)@ + int_text(n as int),
{
    if n < 0 {
        out.push('-');
        let mag: u64 = (-(n as i128)) as u64;
        write_nat(mag, out);
    } else {
        write_nat(n as u64, out);
    }
}

/// Appends the canonical text of `v` to `out`.
pub fn write_json(v: &Json, out: &mut Vec<char>)
    ensures
        final(out)@ == old(out)@ + jtext(*v),
    decreases *v,
{
    match v {
        Json::Null => {
            out.push('n');
            out.push('u');
            out.push('l');
            out.push('l');
        }
        Json::Bool(b) => {
            if *b {
                out.push('t');
                out.push('r');
                out.push('u');
                out.push('e');
            } else {
                out.push('f');
                out.push('a');
                out.push('l');
                out.push('s');
                out.push('e');
            }
        }
        Json::Int(n) => {
            write_int(*n, out);
        }
        Json::Str(s) => {
            out.push('"');
            write_esc_str(s.as_str(), out);
            out.push('"');
        }
        Json::Arr(items) => {
            out.push('[');
            write_arr(items, 0, out);
            out.push(']');
        }
        Json::Obj(members) => {
            out.push('{');
            write_obj(members, 0, out);
            out.push('}');
        }
    }
}

/// Writes the comma-separated texts of array elements from index `i` on.
fn write_arr(items: &Vec<Json>, i: usize, out: &mut Vec<char>)
    requires
        i <= items@.len(),
    ensures
        final(out)@ == old(out)@ + arr_text_from(items@, i as int),
    decreases *items, items@.len() - i,
{
    if i < items.len() {
        write_json(&items[i], out);
        if i + 1 < items.len() {
            out.push(',');
        }
        write_arr(items, i + 1, out);
    }
}

/// Writes the comma-separated texts of object members from index `i` on.
fn write_obj(members: &Vec<Member>, i: usize, out: &mut Vec<char>)
    requires
        i <= members@.len(),
    ensures
        final(out)@ == old(out)@ + obj_text_from(members@, i as int),
    decreases *members, members@.len() - i,
{
    if i < members.len() {
        out.push('"');
        write_esc_str(members[i].key.as_str(), out);
        out.push('"');
        out.push(':');
        write_json(&members[i].value, out);
        if i + 1 < members.len() {
            out.push(',');
        }
        proof {
            assert(out@ =~= old(out)@ + member_text(members@[i as int]) + (
            if i + 1 < members@.len() { seq![','] } else { Seq::<char>::empty() }));
        }
        write_obj(members, i + 1, out);
        proof {
            assert(out@ =~= old(out)@ + obj_text_from(members@, i as int));
        }
    }
}

/// The canonical text of `v`, as a vector of characters.
pub fn json_chars(v: &Json) -> (out: Vec<char>)
    ensures
        out@ == jtext(*v),
{
    let mut out: Vec<char> = Vec::new();
    write_json(v, &mut out);
    out
}

/// Relies on String::push: appends exactly the given character.
#[verifier::external_body]
fn push_char(s: &mut String, c: char)
    ensures
        final(s)@ == old(s)@ + seq![c],
{
    s.push(c);
}

/// Relies on char::from_u32: Some exactly when the code is a Unicode scalar
/// value (not a surrogate, not above char::MAX), and then the char has that
/// code.
#[verifier::external_body]
fn char_from_code(code: u32) -> (r: Option<char>)
    ensures
        r matches Some(c) ==> c as u32 == code,
        r is None <==> (0xD800 <= code < 0xE000 || code > 0x10FFFF),
{
    char::from_u32(code)
}

/// The characters of `s`, in order.
pub fn chars_of_str(s: &str) -> (r: Vec<char>)
    ensures
        r@ == s@,
{
    let n = s.unicode_len();
    let mut out: Vec<char> = Vec::new();
    let mut i: usize = 0;
    while i < n
        invariant
            n == s@.len(),
            i <= n,
            out@ == s@.subrange(0, i as int),
        decreases n - i,
    {
        out.push(s.get_char(i));
        i = i + 1;
    }
    proof {
        assert(out@ =~= s@);
    }
    out
}

/// The string holding exactly the characters of `v`, in order.
pub fn string_of_chars(v: &Vec<char>) -> (r: String)
    ensures
        r@ == v@,
{
    let mut out = String::new();
    let mut i: usize = 0;
    while i < v.len()
        invariant
            i <= v@.len(),
            out@ == v@.subrange(0, i as int),
        decreases v@.len() - i,
    {
        push_char(&mut out, v[i]);
        proof {
            assert(out@ =~= v@.subrange(0, i + 1 as int));
        }
        i = i + 1;
    }
    proof {
        assert(out@ =~= v@);
    }
    out
}

/// The canonical text of `v`, as a string.
pub fn json_string(v: &Json) -> (r: String)
    ensures
        r@ == jtext(*v),
{
    let chars = json_chars(v);
    string_of_chars(&chars)
}

/// Whether a character is JSON whitespace.
pub open spec fn is_ws(c: char) -> bool {
    c == ' ' || c == '\n' || c == '\r' || c == '\t'
}

/// The first position at or after `pos` holding a non-whitespace character.
fn skip_ws(s: &Vec<char>, pos: usize) -> (p: usize)
    requires
        pos <= s@.len(),
    ensures
        pos <= p <= s@.len(),
        p < s@.len() ==> !is_ws(s@[p as int]),
    decreases s@.len() - pos,
{
    let mut cur = pos;
    loop
        invariant
            pos <= cur <= s@.len(),
        ensures
            pos <= cur <= s@.len(),
            cur < s@.len() ==> !is_ws(s@[cur as int]),
        decreases s@.len() - cur,
    {
        if cur >= s.len() {
            break;
        }
        let c = s[cur];
        if c == ' ' || c == '\n' || c == '\r' || c == '\t' {
            cur = cur + 1;
        } else {
            break;
        }
    }
    cur
}

/// The numeric value of a decimal digit character, if it is one.
fn digit_value(c: char) -> (r: Option<u64>)
    ensures
        r matches Some(d) ==> d < 10,
{
    let code = c as u32;
    if 48 <= code && code <= 57 {
        Some((code - 48) as u64)
    } else {
        None
    }
}

/// The numeric value of a hex digit character, if it is one.
fn hex_value(c: char) -> (r: Option<u32>)
    ensures
        r matches Some(d) ==> d < 16,
{
    let code = c as u32;
    if 48 <= code && code <= 57 {
        Some(code - 48)
    } else if 97 <= code && code <= 102 {
        Some(code - 97 + 10)
    } else if 65 <= code && code <= 70 {
        Some(code - 65 + 10)
    } else {
        None
    }
}

/// Reads a JSON string literal starting at the opening quote at `pos`.
/// Astral characters must appear directly; surrogate-pair escapes are not
/// accepted.
fn parse_string(s: &Vec<char>, pos: usize) -> (r: Option<(String, usize)>)
    requires
        pos < s@.len(),
    ensures
        r matches Some(sp) ==> pos < sp.1 <= s@.len(),
    decreases s@.len() - pos,
{
    if s[pos] != '"' {
        return None;
    }
    let n = s.len();
    let mut out = String::new();
    let mut cur = pos + 1;
    loop
        invariant
            pos < cur <= n,
            n == s@.len(),
        decreases n - cur,
    {
        if cur >= n {
            return None;
        }
        let c = s[cur];
        if c == '"' {
            return Some((out, cur + 1));
        }
        if c == '\\' {
            if cur + 1 >= n {
                return None;
            }
            let e = s[cur + 1];
            if e == '"' || e == '\\' || e == '/' {
                push_char(&mut out, e);
                cur = cur + 2;
            } else if e == 'n' {
                push_char(&mut out, '\n');
                cur = cur + 2;
            } else if e == 'r' {
                push_char(&mut out, '\r');
                cur = cur + 2;
            } else if e == 't' {
                push_char(&mut out, '\t');
                cur = cur + 2;
            } else if e == 'b' {
                push_char(&mut out, '\u{8}');
                cur = cur + 2;
            } else if e == 'f' {
                push_char(&mut out, '\u{c}');
                cur = cur + 2;
            } else if e == 'u' {
                if n - cur < 6 {
                    return None;
                }
                let mut code: u32 = 0;
                let mut k: usize = 0;
                while k < 4
                    invariant
                        k <= 4,
                        n - cur >= 6,
                        n == s@.len(),
                        code < (if k == 0 { 1u32 } else if k == 1 { 16u32 } else if k == 2 {
                            256u32
                        } else if k == 3 { 4096u32 } else { 65536u32 }),
                    decreases 4 - k,
                {
                    match hex_value(s[cur + 2 + k]) {
                        Some(d) => {
                            code = code * 16 + d;
                        }
                        None => {
                            return None;
                        }
                    }
                    k = k + 1;
                }
                match char_from_code(code) {
                    Some(c2) => {
                        push_char(&mut out, c2);
                        cur = cur + 6;
                    }
                    None => {
                        return None;
                    }
                }
            } else {
                return None;
            }
        } else if (c as u32) < 32 {
            return None;
        } else {
            push_char(&mut out, c);
            cur = cur + 1;
        }
    }
}

/// Reads a JSON integer starting at `pos`. Numbers with a fractional part
/// or an exponent, and values outside the signed 64-bit range, are refused.
fn parse_number(s: &Vec<char>, pos: usize) -> (r: Option<(Json, usize)>)
    requires
        pos < s@.len(),
    ensures
        r matches Some(vp) ==> pos < vp.1 <= s@.len(),
    decreases s@.len() - pos,
{
    let n = s.len();
    let mut cur = pos;
    let neg = s[cur] == '-';
    if neg {
        cur = cur + 1;
    }
    if cur >= n {
        return None;
    }
    let mut acc: u64 = 0;
    let mut digits: usize = 0;
    loop
        invariant
            pos <= cur <= n,
            n == s@.len(),
            acc <= 0x8000_0000_0000_0000u64,
            digits > 0 ==> pos < cur,
            digits <= n,
        ensures
            pos <= cur <= n,
            acc <= 0x8000_0000_0000_0000u64,
            digits > 0 ==> pos < cur,
        decreases n - cur,
    {
        if cur >= n {
            break;
        }
        let code = s[cur] as u32;
        if !(48 <= code && code <= 57) {
            break;
        }
        let d = (code - 48) as u64;
        if acc > (0x8000_0000_0000_0000u64 - d) / 10 {
            return None;
        }
        proof {
            assert(acc * 10 + d <= 0x8000_0000_0000_0000u64) by (nonlinear_arith)
                requires
                    acc <= (0x8000_0000_0000_0000u64 - d) / 10,
                    d < 10,
            ;
        }
        acc = acc * 10 + d;
        if digits < n {
            digits = digits + 1;
        }
        cur = cur + 1;
    }
    if digits == 0 {
        return None;
    }
    if cur < n {
        let c = s[cur];
        if c == '.' || c == 'e' || c == 'E' {
            return None;
        }
    }
    if neg {
        if acc == 0x8000_0000_0000_0000u64 {
            Some((Json::Int(i64::MIN), cur))
        } else {
            Some((Json::Int(-(acc as i64)), cur))
        }
    } else {
        if acc >= 0x8000_0000_0000_0000u64 {
            None
        } else {
            Some((Json::Int(acc as i64), cur))
        }
    }
}

/// Reads one JSON value starting at `pos` (no leading whitespace). On
/// success the returned position is just past the value's last character.
pub fn parse_value(s: &Vec<char>, pos: usize) -> (r: Option<(Json, usize)>)
    requires
        pos <= s@.len(),
    ensures
        r matches Some(vp) ==> pos < vp.1 <= s@.len(),
    decreases s@.len() - pos, 0int,
{
    let n = s.len();
    if pos >= n {
        return None;
    }
    let c = s[pos];
    if c == 'n' {
        if n - pos >= 4 && s[pos + 1] == 'u' && s[pos + 2] == 'l' && s[pos + 3] == 'l' {
            Some((Json::Null, pos + 4))
        } else {
            None
        }
    } else if c == 't' {
        if n - pos >= 4 && s[pos + 1] == 'r' && s[pos + 2] == 'u' && s[pos + 3] == 'e' {
            Some((Json::Bool(true), pos + 4))
        } else {
            None
        }
    } else if c == 'f' {
        if n - pos >= 5 && s[pos + 1] == 'a' && s[pos + 2] == 'l' && s[pos + 3] == 's'
            && s[pos + 4] == 'e' {
            Some((Json::Bool(false), pos + 5))
        } else {
            None
        }
    } else if c == '"' {
        match parse_string(s, pos) {
            Some((text, p)) => Some((Json::Str(text), p)),
            None => None,
        }
    } else if c == '[' {
        let cur = skip_ws(s, pos + 1);
        if cur < n && s[cur] == ']' {
            return Some((Json::Arr(Vec::new()), cur + 1));
        }
        parse_arr_rest(s, cur, Vec::new(), Ghost(pos))
    } else if c == '{' {
        let cur = skip_ws(s, pos + 1);
        if cur < n && s[cur] == '}' {
            return Some((Json::Obj(Vec::new()), cur + 1));
        }
        parse_obj_rest(s, cur, Vec::new(), Ghost(pos))
    } else {
        parse_number(s, pos)
    }
}

/// Reads the remaining elements of an array whose opening bracket stood at
/// `start`, with `cur` at the start of the next element.
fn parse_arr_rest(s: &Vec<char>, cur: usize, items: Vec<Json>, start: Ghost<usize>) -> (r: Option<
    (Json, usize),
>)
    requires
        start@ < cur <= s@.len(),
    ensures
        r matches Some(vp) ==> start@ < vp.1 <= s@.len(),
    decreases s@.len() - cur, 1int,
{
    let n = s.len();
    let mut items = items;
    match parse_value(s, cur) {
        None => None,
        Some((v, p)) => {
            items.push(v);
            let after = skip_ws(s, p);
            if after < n && s[after] == ',' {
                let next = skip_ws(s, after + 1);
                parse_arr_rest(s, next, items, start)
            } else if after < n && s[after] == ']' {
                Some((Json::Arr(items), after + 1))
            } else {
                None
            }
        }
    }
}

/// Reads the remaining members of an object whose opening brace stood at
/// `start`, with `cur` at the start of the next key.
fn parse_obj_rest(s: &Vec<char>, cur: usize, members: Vec<Member>, start: Ghost<usize>) -> (r:
    Option<(Json, usize)>)
    requires
        start@ < cur <= s@.len(),
    ensures
        r matches Some(vp) ==> start@ < vp.1 <= s@.len(),
    decreases s@.len() - cur, 1int,
{
    let n = s.len();
    let mut members = members;
    if cur >= n {
        return None;
    }
    match parse_string(s, cur) {
        None => None,
        Some((key, p)) => {
            let colon = skip_ws(s, p);
            if !(colon < n && s[colon] == ':') {
                return None;
            }
            let vstart = skip_ws(s, colon + 1);
            match parse_value(s, vstart) {
                None => None,
                Some((v, p2)) => {
                    members.push(Member { key, value: v });
                    let after = skip_ws(s, p2);
                    if after < n && s[after] == ',' {
                        let next = skip_ws(s, after + 1);
                        parse_obj_rest(s, next, members, start)
                    } else if after < n && s[after] == '}' {
                        Some((Json::Obj(members), after + 1))
                    } else {
                        None
                    }
                }
            }
        }
    }
}

/// Reads a complete JSON document: one value, possibly surrounded by
/// whitespace, spanning the whole text.
pub fn parse_json(s: &Vec<char>) -> (r: Option<Json>)
{
    let start = skip_ws(s, 0);
    match parse_value(s, start) {
        None => None,
        Some((v, p)) => {
            let rest = skip_ws(s, p);
            if rest == s.len() {
                Some(v)
            } else {
                None
            }
        }
    }
}

/// Reads a complete JSON document from a string.
pub fn parse_json_str(s: &str) -> (r: Option<Json>)
{
    let chars = chars_of_str(s);
    parse_json(&chars)
}

} // verus!
