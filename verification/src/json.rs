//! A JSON document model with a verified printer and parser.
//!
//! Numbers keep their lexical text, so a document round-trips without any
//! floating-point arithmetic; object members keep their order. The printer
//! emits the compact form (no whitespace); the parser accepts standard JSON
//! with escapes and insignificant whitespace.

use crate::chars::{string_to_chars, chars_to_string, digit_char, is_digit, dec_int, push_dec_i64};
use vstd::prelude::*;

verus! {

/// Mathematical model of a JSON value.
#[verifier::ext_equal]
pub enum JsonV {
    Null,
    Bool(bool),
    /// A number, as its lexical text.
    Num(Seq<char>),
    Str(Seq<char>),
    Arr(Seq<JsonV>),
    Obj(Seq<(Seq<char>, JsonV)>),
}

/// Executable JSON value. Its view is a `JsonV`.
pub enum Json {
    Null,
    Bool(bool),
    /// A number, as its lexical text.
    Num(String),
    Str(String),
    Arr(Vec<Json>),
    Obj(Vec<(String, Json)>),
}

pub open spec fn jview(v: Json) -> JsonV
    decreases v, 0int,
{
    match v {
        Json::Null => JsonV::Null,
        Json::Bool(b) => JsonV::Bool(b),
        Json::Num(t) => JsonV::Num(t@),
        Json::Str(s) => JsonV::Str(s@),
        Json::Arr(items) => JsonV::Arr(jview_arr(items@, 0)),
        Json::Obj(members) => JsonV::Obj(jview_obj(members@, 0)),
    }
}

pub open spec fn jview_arr(items: Seq<Json>, i: int) -> Seq<JsonV>
    decreases items, items.len() - i,
{
    if i < 0 || i >= items.len() {
        Seq::empty()
    } else {
        seq![jview(items[i])] + jview_arr(items, i + 1)
    }
}

pub open spec fn jview_obj(members: Seq<(String, Json)>, i: int) -> Seq<(Seq<char>, JsonV)>
    decreases members, members.len() - i,
{
    if i < 0 || i >= members.len() {
        Seq::empty()
    } else {
        seq![(members[i].0@, jview(members[i].1))] + jview_obj(members, i + 1)
    }
}

impl View for Json {
    type V = JsonV;

    open spec fn view(&self) -> JsonV {
        jview(*self)
    }
}

pub proof fn lemma_jview_arr(items: Seq<Json>, i: int)
    requires
        0 <= i <= items.len(),
    ensures
        jview_arr(items, i).len() == items.len() - i,
        forall|j: int| i <= j < items.len() ==> jview_arr(items, i)[j - i] == jview(#[trigger] items[j]),
    decreases items.len() - i,
{
    if i < items.len() {
        lemma_jview_arr(items, i + 1);
    }
}

pub proof fn lemma_jview_obj(members: Seq<(String, Json)>, i: int)
    requires
        0 <= i <= members.len(),
    ensures
        jview_obj(members, i).len() == members.len() - i,
        forall|j: int|
            i <= j < members.len() ==> jview_obj(members, i)[j - i] == (
            #[trigger] members[j].0@,
            jview(members[j].1),
            ),
    decreases members.len() - i,
{
    if i < members.len() {
        lemma_jview_obj(members, i + 1);
    }
}

/// Hexadecimal digit (lower case) for a value below sixteen.
pub open spec fn hex_char(d: nat) -> char
    recommends
        d < 16,
{
    if d < 10 {
        digit_char(d)
    } else if d == 10 {
        'a'
    } else if d == 11 {
        'b'
    } else if d == 12 {
        'c'
    } else if d == 13 {
        'd'
    } else if d == 14 {
        'e'
    } else {
        'f'
    }
}

/// How the printer writes one character inside a JSON string: quotes and
/// backslashes are escaped, control characters take their short escape or a
/// `\u00..` escape, anything else stands as itself.
pub open spec fn escape_char(c: char) -> Seq<char> {
    if c == '"' {
        seq!['\\', '"']
    } else if c == '\\' {
        seq!['\\', '\\']
    } else if c == '\u{8}' {
        seq!['\\', 'b']
    } else if c == '\t' {
        seq!['\\', 't']
    } else if c == '\n' {
        seq!['\\', 'n']
    } else if c == '\u{c}' {
        seq!['\\', 'f']
    } else if c == '\r' {
        seq!['\\', 'r']
    } else if (c as u32) < 0x20 {
        seq!['\\', 'u', '0', '0', hex_char((c as u32 / 16) as nat), hex_char((c as u32 % 16) as nat)]
    } else {
        seq![c]
    }
}

/// The body of a printed JSON string: every character escaped in turn.
pub open spec fn escape_string(s: Seq<char>) -> Seq<char>
    decreases s.len(),
{
    if s.len() == 0 {
        Seq::empty()
    } else {
        escape_char(s[0]) + escape_string(s.drop_first())
    }
}

/// The compact printed form of a JSON value: no whitespace, members and
/// elements in order, numbers as their stored lexeme.
pub open spec fn print_json(v: JsonV) -> Seq<char>
    decreases v, 0int,
{
    match v {
        JsonV::Null => "null"@,
        JsonV::Bool(b) => if b {
            "true"@
        } else {
            "false"@
        },
        JsonV::Num(t) => t,
        JsonV::Str(s) => seq!['"'] + escape_string(s) + seq!['"'],
        JsonV::Arr(items) => seq!['['] + print_arr_from(items, 0) + seq![']'],
        JsonV::Obj(members) => seq!['{'] + print_obj_from(members, 0) + seq!['}'],
    }
}

pub open spec fn print_arr_from(items: Seq<JsonV>, i: int) -> Seq<char>
    decreases items, items.len() - i,
{
    if i < 0 || i >= items.len() {
        Seq::empty()
    } else {
        let lead: Seq<char> = if i > 0 {
            seq![',']
        } else {
            Seq::empty()
        };
        lead + print_json(items[i]) + print_arr_from(items, i + 1)
    }
}

pub open spec fn print_obj_from(members: Seq<(Seq<char>, JsonV)>, i: int) -> Seq<char>
    decreases members, members.len() - i,
{
    if i < 0 || i >= members.len() {
        Seq::empty()
    } else {
        let lead: Seq<char> = if i > 0 {
            seq![',']
        } else {
            Seq::empty()
        };
        lead + seq!['"'] + escape_string(members[i].0) + seq!['"', ':'] + print_json(members[i].1)
            + print_obj_from(members, i + 1)
    }
}

fn push_escaped_char(c: char, out: &mut Vec<char>)
    ensures
        final(out)@ == old(out)@ + escape_char(c),
{
    if c == '"' {
        out.push('\\');
        out.push('"');
    } else if c == '\\' {
        out.push('\\');
        out.push('\\');
    } else if c == '\u{8}' {
        out.push('\\');
        out.push('b');
    } else if c == '\t' {
        out.push('\\');
        out.push('t');
    } else if c == '\n' {
        out.push('\\');
        out.push('n');
    } else if c == '\u{c}' {
        out.push('\\');
        out.push('f');
    } else if c == '\r' {
        out.push('\\');
        out.push('r');
    } else if (c as u32) < 0x20 {
        out.push('\\');
        out.push('u');
        out.push('0');
        out.push('0');
        let hi: u32 = (c as u32) / 16;
        let lo: u32 = (c as u32) % 16;
        out.push(hex_char_exec(hi));
        out.push(hex_char_exec(lo));
    } else {
        out.push(c);
    }
    assert(out@ =~= old(out)@ + escape_char(c));
}

fn hex_char_exec(d: u32) -> (r: char)
    requires
        d < 16,
    ensures
        r == hex_char(d as nat),
{
    if d == 0 {
        '0'
    } else if d == 1 {
        '1'
    } else if d == 2 {
        '2'
    } else if d == 3 {
        '3'
    } else if d == 4 {
        '4'
    } else if d == 5 {
        '5'
    } else if d == 6 {
        '6'
    } else if d == 7 {
        '7'
    } else if d == 8 {
        '8'
    } else if d == 9 {
        '9'
    } else if d == 10 {
        'a'
    } else if d == 11 {
        'b'
    } else if d == 12 {
        'c'
    } else if d == 13 {
        'd'
    } else if d == 14 {
        'e'
    } else {
        'f'
    }
}

proof fn lemma_escape_string_snoc(s: Seq<char>, i: int)
    requires
        0 <= i < s.len(),
    ensures
        escape_string(s.take(i + 1)) == escape_string(s.take(i)) + escape_char(s[i]),
    decreases i,
{
    let a = s.take(i + 1);
    let b = s.take(i);
    if i == 0 {
        assert(a.drop_first() =~= Seq::<char>::empty());
        assert(a[0] == s[0]);
        assert(escape_string(Seq::<char>::empty()) =~= Seq::<char>::empty());
        assert(escape_string(a) =~= escape_char(s[0]));
        assert(escape_string(b) =~= Seq::<char>::empty());
        assert(escape_string(b) + escape_char(s[0]) =~= escape_char(s[0]));
    } else {
        lemma_escape_string_snoc(s.drop_first(), i - 1);
        assert(a.drop_first() =~= s.drop_first().take(i));
        assert(b.drop_first() =~= s.drop_first().take(i - 1));
        assert(a[0] == s[0] && b[0] == s[0]);
        assert(s.drop_first()[i - 1] == s[i]);
        assert(escape_string(a) == escape_char(s[0]) + escape_string(s.drop_first().take(i)));
        assert(escape_string(b) + escape_char(s[i]) == escape_char(s[0]) + (escape_string(
            s.drop_first().take(i - 1),
        ) + escape_char(s[i]))) by {
            assert(escape_char(s[0]) + escape_string(s.drop_first().take(i - 1)) + escape_char(s[i])
                =~= escape_char(s[0]) + (escape_string(s.drop_first().take(i - 1)) + escape_char(
                s[i],
            )));
        }
    }
}

/// Writes the printed body of a JSON string (escapes applied, no quotes).
fn write_escaped(s: &str, out: &mut Vec<char>)
    ensures
        final(out)@ == old(out)@ + escape_string(s@),
{
    let cs = string_to_chars(s);
    let mut i: usize = 0;
    assert(s@.take(0) =~= Seq::<char>::empty());
    while i < cs.len()
        invariant
            0 <= i <= cs.len(),
            cs@ == s@,
            out@ == old(out)@ + escape_string(s@.take(i as int)),
        decreases cs.len() - i,
    {
        push_escaped_char(cs[i], out);
        proof {
            lemma_escape_string_snoc(s@, i as int);
        }
        i += 1;
    }
    assert(s@.take(s@.len() as int) =~= s@);
}

/// Writes the compact printed form of `v` onto the end of `out`.
pub fn write_json(v: &Json, out: &mut Vec<char>)
    ensures
        final(out)@ == old(out)@ + print_json(v@),
    decreases *v, 0int,
{
    match v {
        Json::Null => {
            out.push('n');
            out.push('u');
            out.push('l');
            out.push('l');
            proof {
                reveal_strlit("null");
                assert(out@ =~= old(out)@ + print_json(v@));
            }
        },
        Json::Bool(b) => {
            if *b {
                out.push('t');
                out.push('r');
                out.push('u');
                out.push('e');
                proof {
                    reveal_strlit("true");
                    assert(out@ =~= old(out)@ + print_json(v@));
                }
            } else {
                out.push('f');
                out.push('a');
                out.push('l');
                out.push('s');
                out.push('e');
                proof {
                    reveal_strlit("false");
                    assert(out@ =~= old(out)@ + print_json(v@));
                }
            }
        },
        Json::Num(t) => {
            let cs = string_to_chars(t.as_str());
            let mut k: usize = 0;
            while k < cs.len()
                invariant
                    0 <= k <= cs.len(),
                    cs@ == t@,
                    out@ == old(out)@ + t@.take(k as int),
                decreases cs.len() - k,
            {
                out.push(cs[k]);
                assert(out@ =~= old(out)@ + t@.take(k + 1));
                k += 1;
            }
            assert(t@.take(t@.len() as int) =~= t@);
        },
        Json::Str(s) => {
            out.push('"');
            write_escaped(s.as_str(), out);
            out.push('"');
            assert(out@ =~= old(out)@ + print_json(v@));
        },
        Json::Arr(items) => {
            out.push('[');
            write_arr_items(items, 0, out);
            out.push(']');
            proof {
                lemma_jview_arr(items@, 0);
                assert(out@ =~= old(out)@ + print_json(v@));
            }
        },
        Json::Obj(members) => {
            out.push('{');
            write_obj_items(members, 0, out);
            out.push('}');
            proof {
                lemma_jview_obj(members@, 0);
                assert(out@ =~= old(out)@ + print_json(v@));
            }
        },
    }
}

fn write_arr_items(items: &Vec<Json>, i: usize, out: &mut Vec<char>)
    requires
        i <= items@.len(),
    ensures
        final(out)@ == old(out)@ + print_arr_from(jview_arr(items@, 0), i as int),
    decreases items@, items@.len() - i,
{
    proof {
        lemma_jview_arr(items@, 0);
    }
    let ghost vs = jview_arr(items@, 0);
    if i < items.len() {
        if i > 0 {
            out.push(',');
        }
        write_json(&items[i], out);
        write_arr_items(items, i + 1, out);
        assert(out@ =~= old(out)@ + print_arr_from(vs, i as int));
    } else {
        assert(out@ =~= old(out)@ + print_arr_from(vs, i as int));
    }
}

fn write_obj_items(members: &Vec<(String, Json)>, i: usize, out: &mut Vec<char>)
    requires
        i <= members@.len(),
    ensures
        final(out)@ == old(out)@ + print_obj_from(jview_obj(members@, 0), i as int),
    decreases members@, members@.len() - i,
{
    proof {
        lemma_jview_obj(members@, 0);
    }
    let ghost vs = jview_obj(members@, 0);
    if i < members.len() {
        if i > 0 {
            out.push(',');
        }
        out.push('"');
        write_escaped(members[i].0.as_str(), out);
        out.push('"');
        out.push(':');
        write_json(&members[i].1, out);
        write_obj_items(members, i + 1, out);
        assert(out@ =~= old(out)@ + print_obj_from(vs, i as int));
    } else {
        assert(out@ =~= old(out)@ + print_obj_from(vs, i as int));
    }
}

/// The compact printed form of `v`, as a string.
pub fn to_text(v: &Json) -> (r: String)
    ensures
        r@ == print_json(v@),
{
    let mut out: Vec<char> = Vec::new();
    write_json(v, &mut out);
    chars_to_string(&out)
}

// ------------------------------------------------------------------
// Parsing
// ------------------------------------------------------------------
/// JSON insignificant whitespace.
pub open spec fn is_ws(c: char) -> bool {
    c == ' ' || c == '\t' || c == '\n' || c == '\r'
}

/// First position at or after `i` holding no whitespace.
pub open spec fn ws_end(s: Seq<char>, i: int) -> int
    decreases s.len() - i,
{
    if 0 <= i < s.len() && is_ws(s[i]) {
        ws_end(s, i + 1)
    } else {
        i
    }
}

/// Value of a hexadecimal digit character, of either case.
pub open spec fn hex_digit_val(c: char) -> Option<u32> {
    if '0' <= c && c <= '9' {
        Some((c as u32 - '0' as u32) as u32)
    } else if 'a' <= c && c <= 'f' {
        Some((c as u32 - 'a' as u32 + 10) as u32)
    } else if 'A' <= c && c <= 'F' {
        Some((c as u32 - 'A' as u32 + 10) as u32)
    } else {
        None
    }
}

/// The code denoted by the four hexadecimal digits at `i`.
pub open spec fn hex4_val(s: Seq<char>, i: int) -> Option<u32> {
    if i + 4 <= s.len() {
        match (hex_digit_val(s[i]), hex_digit_val(s[i + 1]), hex_digit_val(s[i + 2]), hex_digit_val(
            s[i + 3],
        )) {
            (Some(a), Some(b), Some(c), Some(d)) => Some((4096 * a + 256 * b + 16 * c + d) as u32),
            _ => None,
        }
    } else {
        None
    }
}

/// Parses the body of a JSON string, starting after the opening quote;
/// returns the decoded characters and the position after the closing quote.
/// Surrogate escape codes are rejected.
pub open spec fn parse_string_body(s: Seq<char>, i: int) -> Option<(Seq<char>, int)>
    decreases s.len() - i,
{
    if i < 0 || i >= s.len() {
        None
    } else if s[i] == '"' {
        Some((Seq::empty(), i + 1))
    } else if s[i] == '\\' {
        if i + 1 >= s.len() {
            None
        } else {
            let e = s[i + 1];
            if e == '"' || e == '\\' || e == '/' {
                match parse_string_body(s, i + 2) {
                    Some((r, j)) => Some((seq![e] + r, j)),
                    None => None,
                }
            } else if e == 'b' {
                match parse_string_body(s, i + 2) {
                    Some((r, j)) => Some((seq!['\u{8}'] + r, j)),
                    None => None,
                }
            } else if e == 'f' {
                match parse_string_body(s, i + 2) {
                    Some((r, j)) => Some((seq!['\u{c}'] + r, j)),
                    None => None,
                }
            } else if e == 'n' {
                match parse_string_body(s, i + 2) {
                    Some((r, j)) => Some((seq!['\n'] + r, j)),
                    None => None,
                }
            } else if e == 'r' {
                match parse_string_body(s, i + 2) {
                    Some((r, j)) => Some((seq!['\r'] + r, j)),
                    None => None,
                }
            } else if e == 't' {
                match parse_string_body(s, i + 2) {
                    Some((r, j)) => Some((seq!['\t'] + r, j)),
                    None => None,
                }
            } else if e == 'u' {
                match hex4_val(s, i + 2) {
                    Some(code) => if 0xD800 <= code && code < 0xE000 {
                        None
                    } else {
                        match parse_string_body(s, i + 6) {
                            Some((r, j)) => Some((seq![code as char] + r, j)),
                            None => None,
                        }
                    },
                    None => None,
                }
            } else {
                None
            }
        }
    } else if (s[i] as u32) < 0x20 {
        None
    } else {
        match parse_string_body(s, i + 1) {
            Some((r, j)) => Some((seq![s[i]] + r, j)),
            None => None,
        }
    }
}

/// The characters a number lexeme may use.
pub open spec fn is_num_char(c: char) -> bool {
    is_digit(c) || c == '-' || c == '+' || c == '.' || c == 'e' || c == 'E'
}

/// First position at or after `i` holding no number character.
pub open spec fn num_char_end(s: Seq<char>, i: int) -> int
    decreases s.len() - i,
{
    if 0 <= i < s.len() && is_num_char(s[i]) {
        num_char_end(s, i + 1)
    } else {
        i
    }
}

/// First position at or after `i` holding no decimal digit.
pub open spec fn digits_end(s: Seq<char>, i: int) -> int
    decreases s.len() - i,
{
    if 0 <= i < s.len() && is_digit(s[i]) {
        digits_end(s, i + 1)
    } else {
        i
    }
}

/// End of the integer part of a number lexeme: an optional minus sign, then
/// either a single zero or a digit run without a leading zero.
pub open spec fn int_part_end(s: Seq<char>) -> Option<int> {
    let start: int = if s.len() >= 1 && s[0] == '-' {
        1
    } else {
        0
    };
    if start >= s.len() || !is_digit(s[start]) {
        None
    } else if s[start] == '0' {
        Some(start + 1)
    } else {
        Some(digits_end(s, start))
    }
}

/// End of the optional fraction part starting at `i`: a dot must carry at
/// least one digit.
pub open spec fn frac_part_end(s: Seq<char>, i: int) -> Option<int> {
    if 0 <= i < s.len() && s[i] == '.' {
        let j = digits_end(s, i + 1);
        if j == i + 1 {
            None
        } else {
            Some(j)
        }
    } else {
        Some(i)
    }
}

/// End of the optional exponent part starting at `i`.
pub open spec fn exp_part_end(s: Seq<char>, i: int) -> Option<int> {
    if 0 <= i < s.len() && (s[i] == 'e' || s[i] == 'E') {
        let k: int = if i + 1 < s.len() && (s[i + 1] == '+' || s[i + 1] == '-') {
            i + 2
        } else {
            i + 1
        };
        let j = digits_end(s, k);
        if j == k {
            None
        } else {
            Some(j)
        }
    } else {
        Some(i)
    }
}

/// Whether the whole text is one JSON number lexeme.
pub open spec fn is_json_number(t: Seq<char>) -> bool {
    match int_part_end(t) {
        Some(a) => match frac_part_end(t, a) {
            Some(b) => match exp_part_end(t, b) {
                Some(c) => c == t.len(),
                None => false,
            },
            None => false,
        },
        None => false,
    }
}

/// Parses a number lexeme at `i`: takes the longest run of number characters
/// and accepts it when it is a well-formed lexeme.
pub open spec fn parse_number(s: Seq<char>, i: int) -> Option<(Seq<char>, int)> {
    let e = num_char_end(s, i);
    let t = s.subrange(i, e);
    if is_json_number(t) {
        Some((t, e))
    } else {
        None
    }
}

/// Whether the four characters of `lit` stand at `i` in `s`.
pub open spec fn has_lit(s: Seq<char>, i: int, lit: Seq<char>) -> bool {
    &&& 0 <= i
    &&& i + lit.len() <= s.len()
    &&& s.subrange(i, i + lit.len()) == lit
}

/// Parses one JSON value at `i` (no leading whitespace). The fuel bounds the
/// recursion; `json_fuel` is always enough for the given text.
pub open spec fn parse_value(s: Seq<char>, i: int, fuel: nat) -> Option<(JsonV, int)>
    decreases fuel,
{
    if fuel == 0 {
        None
    } else if i < 0 || i >= s.len() {
        None
    } else {
        let c = s[i];
        if c == 'n' {
            if has_lit(s, i, "null"@) {
                Some((JsonV::Null, i + 4))
            } else {
                None
            }
        } else if c == 't' {
            if has_lit(s, i, "true"@) {
                Some((JsonV::Bool(true), i + 4))
            } else {
                None
            }
        } else if c == 'f' {
            if has_lit(s, i, "false"@) {
                Some((JsonV::Bool(false), i + 5))
            } else {
                None
            }
        } else if c == '"' {
            match parse_string_body(s, i + 1) {
                Some((st, j)) => Some((JsonV::Str(st), j)),
                None => None,
            }
        } else if c == '{' {
            let j = ws_end(s, i + 1);
            if j < s.len() && s[j] == '}' {
                Some((JsonV::Obj(Seq::empty()), j + 1))
            } else {
                match parse_members(s, j, (fuel - 1) as nat) {
                    Some((ms, k)) => Some((JsonV::Obj(ms), k)),
                    None => None,
                }
            }
        } else if c == '[' {
            let j = ws_end(s, i + 1);
            if j < s.len() && s[j] == ']' {
                Some((JsonV::Arr(Seq::empty()), j + 1))
            } else {
                match parse_elements(s, j, (fuel - 1) as nat) {
                    Some((es, k)) => Some((JsonV::Arr(es), k)),
                    None => None,
                }
            }
        } else if c == '-' || is_digit(c) {
            match parse_number(s, i) {
                Some((t, j)) => Some((JsonV::Num(t), j)),
                None => None,
            }
        } else {
            None
        }
    }
}

/// Parses the members of an object from the start of a key up to and past the
/// closing brace.
pub open spec fn parse_members(s: Seq<char>, i: int, fuel: nat) -> Option<
    (Seq<(Seq<char>, JsonV)>, int),
>
    decreases fuel,
{
    if fuel == 0 {
        None
    } else if i < 0 || i >= s.len() || s[i] != '"' {
        None
    } else {
        match parse_string_body(s, i + 1) {
            Some((key, j1)) => {
                let j2 = ws_end(s, j1);
                if j2 < s.len() && s[j2] == ':' {
                    let j3 = ws_end(s, j2 + 1);
                    match parse_value(s, j3, (fuel - 1) as nat) {
                        Some((v, j4)) => {
                            let j5 = ws_end(s, j4);
                            if j5 < s.len() && s[j5] == ',' {
                                let j6 = ws_end(s, j5 + 1);
                                match parse_members(s, j6, (fuel - 1) as nat) {
                                    Some((rest, j7)) => Some((seq![(key, v)] + rest, j7)),
                                    None => None,
                                }
                            } else if j5 < s.len() && s[j5] == '}' {
                                Some((seq![(key, v)], j5 + 1))
                            } else {
                                None
                            }
                        },
                        None => None,
                    }
                } else {
                    None
                }
            },
            None => None,
        }
    }
}

/// Parses the elements of an array from the start of a value up to and past
/// the closing bracket.
pub open spec fn parse_elements(s: Seq<char>, i: int, fuel: nat) -> Option<(Seq<JsonV>, int)>
    decreases fuel,
{
    if fuel == 0 {
        None
    } else {
        match parse_value(s, i, (fuel - 1) as nat) {
            Some((v, j1)) => {
                let j2 = ws_end(s, j1);
                if j2 < s.len() && s[j2] == ',' {
                    let j3 = ws_end(s, j2 + 1);
                    match parse_elements(s, j3, (fuel - 1) as nat) {
                        Some((rest, j4)) => Some((seq![v] + rest, j4)),
                        None => None,
                    }
                } else if j2 < s.len() && s[j2] == ']' {
                    Some((seq![v], j2 + 1))
                } else {
                    None
                }
            },
            None => None,
        }
    }
}

/// Enough fuel for any document of this length.
pub open spec fn json_fuel(s: Seq<char>) -> nat {
    2 * s.len() + 2
}

/// The document denoted by the text: one JSON value, with whitespace allowed
/// around it, and nothing else.
pub open spec fn spec_parse_json(s: Seq<char>) -> Option<JsonV> {
    let i = ws_end(s, 0);
    match parse_value(s, i, json_fuel(s)) {
        Some((v, j)) => if ws_end(s, j) == s.len() {
            Some(v)
        } else {
            None
        },
        None => None,
    }
}

proof fn lemma_num_char_end_bounds(s: Seq<char>, i: int)
    requires
        0 <= i <= s.len(),
    ensures
        i <= num_char_end(s, i) <= s.len(),
    decreases s.len() - i,
{
    if i < s.len() && is_num_char(s[i]) {
        lemma_num_char_end_bounds(s, i + 1);
    }
}

proof fn lemma_ws_end_bounds(s: Seq<char>, i: int)
    requires
        0 <= i <= s.len(),
    ensures
        i <= ws_end(s, i) <= s.len(),
    decreases s.len() - i,
{
    if i < s.len() && is_ws(s[i]) {
        lemma_ws_end_bounds(s, i + 1);
    }
}

fn is_ws_x(c: char) -> (b: bool)
    ensures
        b == is_ws(c),
{
    c == ' ' || c == '\t' || c == '\n' || c == '\r'
}

fn skip_ws(t: &Vec<char>, i: usize) -> (r: usize)
    requires
        i <= t.len(),
    ensures
        r as int == ws_end(t@, i as int),
        i <= r <= t.len(),
{
    let mut k: usize = i;
    loop
        invariant
            i <= k <= t.len(),
            ws_end(t@, i as int) == ws_end(t@, k as int),
        decreases t.len() - k,
    {
        if k < t.len() && is_ws_x(t[k]) {
            k += 1;
        } else {
            return k;
        }
    }
}

fn is_digit_x(c: char) -> (b: bool)
    ensures
        b == is_digit(c),
{
    '0' <= c && c <= '9'
}

fn digits_end_x(t: &Vec<char>, i: usize) -> (r: usize)
    requires
        i <= t.len(),
    ensures
        r as int == digits_end(t@, i as int),
        i <= r <= t.len(),
{
    let mut k: usize = i;
    loop
        invariant
            i <= k <= t.len(),
            digits_end(t@, i as int) == digits_end(t@, k as int),
        decreases t.len() - k,
    {
        if k < t.len() && is_digit_x(t[k]) {
            k += 1;
        } else {
            return k;
        }
    }
}

fn num_char_end_x(t: &Vec<char>, i: usize) -> (r: usize)
    requires
        i <= t.len(),
    ensures
        r as int == num_char_end(t@, i as int),
        i <= r <= t.len(),
{
    let mut k: usize = i;
    loop
        invariant
            i <= k <= t.len(),
            num_char_end(t@, i as int) == num_char_end(t@, k as int),
        decreases t.len() - k,
    {
        if k < t.len() {
            let c = t[k];
            if ('0' <= c && c <= '9') || c == '-' || c == '+' || c == '.' || c == 'e' || c == 'E' {
                k += 1;
                continue ;
            }
        }
        return k;
    }
}

/// Whether the whole text is one JSON number lexeme.
pub fn number_valid(t: &Vec<char>) -> (r: bool)
    ensures
        r == is_json_number(t@),
{
    let start: usize = if t.len() >= 1 && t[0] == '-' {
        1
    } else {
        0
    };
    if start >= t.len() || !is_digit_x(t[start]) {
        return false;
    }
    let a: usize = if t[start] == '0' {
        start + 1
    } else {
        digits_end_x(t, start)
    };
    // Fraction part.
    let b: usize;
    if a < t.len() && t[a] == '.' {
        let j = digits_end_x(t, a + 1);
        if j == a + 1 {
            return false;
        }
        b = j;
    } else {
        b = a;
    }
    // Exponent part.
    if b < t.len() && (t[b] == 'e' || t[b] == 'E') {
        let k: usize = if b + 1 < t.len() && (t[b + 1] == '+' || t[b + 1] == '-') {
            b + 2
        } else {
            b + 1
        };
        let j = digits_end_x(t, k);
        if j == k {
            return false;
        }
        j == t.len()
    } else {
        b == t.len()
    }
}

fn hex_digit_val_x(c: char) -> (r: Option<u32>)
    ensures
        r == hex_digit_val(c),
{
    if '0' <= c && c <= '9' {
        Some(c as u32 - '0' as u32)
    } else if 'a' <= c && c <= 'f' {
        Some(c as u32 - 'a' as u32 + 10)
    } else if 'A' <= c && c <= 'F' {
        Some(c as u32 - 'A' as u32 + 10)
    } else {
        None
    }
}

fn hex4_val_x(t: &Vec<char>, i: usize) -> (r: Option<u32>)
    requires
        i + 4 <= t.len(),
    ensures
        r == hex4_val(t@, i as int),
        r matches Some(u) ==> u <= 0xFFFF,
{
    let a = hex_digit_val_x(t[i]);
    let b = hex_digit_val_x(t[i + 1]);
    let c = hex_digit_val_x(t[i + 2]);
    let d = hex_digit_val_x(t[i + 3]);
    match (a, b, c, d) {
        (Some(a), Some(b), Some(c), Some(d)) => Some(4096 * a + 256 * b + 16 * c + d),
        _ => None,
    }
}

/// Relies on `char::from_u32`: `Some` exactly for Unicode scalar values (not
/// a surrogate code, at most 0x10FFFF), and the returned character has the
/// given code.
#[verifier::external_body]
fn char_from_u32(u: u32) -> (r: Option<char>)
    ensures
        (r is Some) <==> (u < 0xD800 || (0xE000 <= u && u <= 0x10FFFF)),
        r matches Some(c) ==> c == u as char,
{
    char::from_u32(u)
}

/// Prefixes the characters of a partial string-parse result.
pub open spec fn with_prefix(p: Seq<char>, o: Option<(Seq<char>, int)>) -> Option<
    (Seq<char>, int),
> {
    match o {
        Some((r, j)) => Some((p + r, j)),
        None => None,
    }
}

proof fn lemma_with_prefix_assoc(p: Seq<char>, c: char, o: Option<(Seq<char>, int)>)
    ensures
        with_prefix(p.push(c), o) == with_prefix(p, with_prefix(seq![c], o)),
{
    match o {
        Some((r, j)) => {
            assert(p.push(c) + r =~= p + (seq![c] + r));
        },
        None => {},
    }
}

fn parse_string_body_x(t: &Vec<char>, i: usize) -> (r: Option<(Vec<char>, usize)>)
    requires
        i <= t.len(),
    ensures
        match r {
            Some((cs, j)) => {
                &&& parse_string_body(t@, i as int) == Some((cs@, j as int))
                &&& i < j <= t.len()
            },
            None => parse_string_body(t@, i as int) == None::<(Seq<char>, int)>,
        },
{
    let mut acc: Vec<char> = Vec::new();
    let mut k: usize = i;
    loop
        invariant
            i <= k <= t.len(),
            parse_string_body(t@, i as int) == with_prefix(acc@, parse_string_body(t@, k as int)),
        decreases t.len() - k,
    {
        if k >= t.len() {
            return None;
        }
        let c = t[k];
        if c == '"' {
            assert(acc@ + Seq::<char>::empty() =~= acc@);
            return Some((acc, k + 1));
        } else if c == '\\' {
            if t.len() - k < 2 {
                return None;
            }
            let e = t[k + 1];
            let decoded: char;
            if e == '"' || e == '\\' || e == '/' {
                decoded = e;
            } else if e == 'b' {
                decoded = '\u{8}';
            } else if e == 'f' {
                decoded = '\u{c}';
            } else if e == 'n' {
                decoded = '\n';
            } else if e == 'r' {
                decoded = '\r';
            } else if e == 't' {
                decoded = '\t';
            } else if e == 'u' {
                if t.len() - k < 6 {
                    return None;
                }
                let code = match hex4_val_x(t, k + 2) {
                    Some(code) => code,
                    None => {
                        return None;
                    },
                };
                if 0xD800 <= code && code < 0xE000 {
                    return None;
                }
                let c2 = match char_from_u32(code) {
                    Some(c2) => c2,
                    None => {
                        proof {
                            assert(false);
                        }
                        return None;
                    },
                };
                proof {
                    lemma_with_prefix_assoc(acc@, c2, parse_string_body(t@, k + 6));
                }
                acc.push(c2);
                k = k + 6;
                continue ;
            } else {
                return None;
            }
            proof {
                lemma_with_prefix_assoc(acc@, decoded, parse_string_body(t@, k + 2));
            }
            acc.push(decoded);
            k = k + 2;
        } else if (c as u32) < 0x20 {
            return None;
        } else {
            proof {
                lemma_with_prefix_assoc(acc@, c, parse_string_body(t@, k + 1));
            }
            acc.push(c);
            k = k + 1;
        }
    }
}

/// Prefixes the members of a partial object-parse result.
pub open spec fn with_members(p: Seq<(Seq<char>, JsonV)>, o: Option<(Seq<(Seq<char>, JsonV)>, int)>)
    -> Option<(Seq<(Seq<char>, JsonV)>, int)> {
    match o {
        Some((r, j)) => Some((p + r, j)),
        None => None,
    }
}

/// Prefixes the elements of a partial array-parse result.
pub open spec fn with_elements(p: Seq<JsonV>, o: Option<(Seq<JsonV>, int)>) -> Option<
    (Seq<JsonV>, int),
> {
    match o {
        Some((r, j)) => Some((p + r, j)),
        None => None,
    }
}

pub proof fn lemma_jview_arr_push(items: Seq<Json>, x: Json, i: int)
    requires
        0 <= i <= items.len(),
    ensures
        jview_arr(items.push(x), i) == jview_arr(items, i).push(jview(x)),
    decreases items.len() - i,
{
    let a = items.push(x);
    if i < items.len() {
        lemma_jview_arr_push(items, x, i + 1);
        assert(a[i] == items[i]);
        assert(jview_arr(a, i) =~= jview_arr(items, i).push(jview(x)));
    } else {
        assert(a[i] == x);
        assert(jview_arr(a, i + 1) =~= Seq::<JsonV>::empty());
        assert(jview_arr(a, i) =~= jview_arr(items, i).push(jview(x)));
    }
}

pub proof fn lemma_jview_obj_push(members: Seq<(String, Json)>, x: (String, Json), i: int)
    requires
        0 <= i <= members.len(),
    ensures
        jview_obj(members.push(x), i) == jview_obj(members, i).push((x.0@, jview(x.1))),
    decreases members.len() - i,
{
    let a = members.push(x);
    if i < members.len() {
        lemma_jview_obj_push(members, x, i + 1);
        assert(a[i] == members[i]);
        assert(jview_obj(a, i) =~= jview_obj(members, i).push((x.0@, jview(x.1))));
    } else {
        assert(a[i] == x);
        assert(jview_obj(a, i + 1) =~= Seq::<(Seq<char>, JsonV)>::empty());
        assert(jview_obj(a, i) =~= jview_obj(members, i).push((x.0@, jview(x.1))));
    }
}

fn parse_value_x(t: &Vec<char>, i: usize, Ghost(fuel): Ghost<nat>) -> (r: Option<(Json, usize)>)
    requires
        i <= t.len(),
        fuel >= 2 * (t.len() - i) + 1,
    ensures
        match r {
            Some((v, j)) => {
                &&& parse_value(t@, i as int, fuel) == Some((v@, j as int))
                &&& i < j <= t.len()
            },
            None => parse_value(t@, i as int, fuel) == None::<(JsonV, int)>,
        },
    decreases fuel,
{
    if i >= t.len() {
        return None;
    }
    let c = t[i];
    if c == 'n' {
        if t.len() - i >= 4 && t[i + 1] == 'u' && t[i + 2] == 'l' && t[i + 3] == 'l' {
            proof {
                reveal_strlit("null");
                assert(t@.subrange(i as int, i + 4) =~= "null"@);
            }
            Some((Json::Null, i + 4))
        } else {
            proof {
                reveal_strlit("null");
                if has_lit(t@, i as int, "null"@) {
                    assert(t@.subrange(i as int, i + 4)[1] == t@[i + 1]);
                    assert(t@.subrange(i as int, i + 4)[2] == t@[i + 2]);
                    assert(t@.subrange(i as int, i + 4)[3] == t@[i + 3]);
                }
            }
            None
        }
    } else if c == 't' {
        if t.len() - i >= 4 && t[i + 1] == 'r' && t[i + 2] == 'u' && t[i + 3] == 'e' {
            proof {
                reveal_strlit("true");
                assert(t@.subrange(i as int, i + 4) =~= "true"@);
            }
            Some((Json::Bool(true), i + 4))
        } else {
            proof {
                reveal_strlit("true");
                if has_lit(t@, i as int, "true"@) {
                    assert(t@.subrange(i as int, i + 4)[1] == t@[i + 1]);
                    assert(t@.subrange(i as int, i + 4)[2] == t@[i + 2]);
                    assert(t@.subrange(i as int, i + 4)[3] == t@[i + 3]);
                }
            }
            None
        }
    } else if c == 'f' {
        if t.len() - i >= 5 && t[i + 1] == 'a' && t[i + 2] == 'l' && t[i + 3] == 's' && t[i + 4]
            == 'e' {
            proof {
                reveal_strlit("false");
                assert(t@.subrange(i as int, i + 5) =~= "false"@);
            }
            Some((Json::Bool(false), i + 5))
        } else {
            proof {
                reveal_strlit("false");
                if has_lit(t@, i as int, "false"@) {
                    assert(t@.subrange(i as int, i + 5)[1] == t@[i + 1]);
                    assert(t@.subrange(i as int, i + 5)[2] == t@[i + 2]);
                    assert(t@.subrange(i as int, i + 5)[3] == t@[i + 3]);
                    assert(t@.subrange(i as int, i + 5)[4] == t@[i + 4]);
                }
            }
            None
        }
    } else if c == '"' {
        match parse_string_body_x(t, i + 1) {
            Some((cs, j)) => Some((Json::Str(chars_to_string(&cs)), j)),
            None => None,
        }
    } else if c == '{' {
        let j = skip_ws(t, i + 1);
        if j < t.len() && t[j] == '}' {
            let empty_members: Vec<(String, Json)> = Vec::new();
            let v = Json::Obj(empty_members);
            assert(v@ == JsonV::Obj(Seq::<(Seq<char>, JsonV)>::empty()));
            Some((v, j + 1))
        } else {
            match parse_members_x(t, j, Ghost((fuel - 1) as nat)) {
                Some((ms, k)) => Some((Json::Obj(ms), k)),
                None => None,
            }
        }
    } else if c == '[' {
        let j = skip_ws(t, i + 1);
        if j < t.len() && t[j] == ']' {
            let empty_items: Vec<Json> = Vec::new();
            let v = Json::Arr(empty_items);
            assert(v@ == JsonV::Arr(Seq::<JsonV>::empty()));
            Some((v, j + 1))
        } else {
            match parse_elements_x(t, j, Ghost((fuel - 1) as nat)) {
                Some((es, k)) => Some((Json::Arr(es), k)),
                None => None,
            }
        }
    } else if c == '-' || ('0' <= c && c <= '9') {
        let e = num_char_end_x(t, i);
        proof {
            assert(is_num_char(t@[i as int]));
            assert(num_char_end(t@, i as int) == num_char_end(t@, i + 1));
            lemma_num_char_end_bounds(t@, i + 1);
        }
        assert(e > i);
        let mut lex: Vec<char> = Vec::new();
        let mut k: usize = i;
        while k < e
            invariant
                i <= k <= e <= t.len(),
                lex@ == t@.subrange(i as int, k as int),
            decreases e - k,
        {
            lex.push(t[k]);
            assert(lex@ =~= t@.subrange(i as int, k + 1));
            k += 1;
        }
        if number_valid(&lex) {
            let st = chars_to_string(&lex);
            Some((Json::Num(st), e))
        } else {
            None
        }
    } else {
        None
    }
}

fn parse_members_x(t: &Vec<char>, i: usize, Ghost(fuel): Ghost<nat>) -> (r: Option<
    (Vec<(String, Json)>, usize),
>)
    requires
        i <= t.len(),
        fuel >= 2 * (t.len() - i) + 2,
    ensures
        match r {
            Some((ms, j)) => {
                &&& parse_members(t@, i as int, fuel) == Some((jview_obj(ms@, 0), j as int))
                &&& i < j <= t.len()
            },
            None => parse_members(t@, i as int, fuel) == None::<(Seq<(Seq<char>, JsonV)>, int)>,
        },
    decreases fuel,
{
    let mut acc: Vec<(String, Json)> = Vec::new();
    let mut k: usize = i;
    let ghost mut fuel_k: nat = fuel;
    proof {
        assert(jview_obj(acc@, 0) + Seq::<(Seq<char>, JsonV)>::empty()
            =~= jview_obj(acc@, 0));
    }
    loop
        invariant
            i <= k <= t.len(),
            fuel_k >= 2 * (t.len() - k) + 2,
            fuel_k <= fuel,
            parse_members(t@, i as int, fuel) == with_members(
                jview_obj(acc@, 0),
                parse_members(t@, k as int, fuel_k),
            ),
        decreases fuel_k,
    {
        if k >= t.len() {
            return None;
        }
        if t[k] != '"' {
            return None;
        }
        let (key_cs, j1) = match parse_string_body_x(t, k + 1) {
            Some(p) => p,
            None => {
                return None;
            },
        };
        let key = chars_to_string(&key_cs);
        let j2 = skip_ws(t, j1);
        if !(j2 < t.len() && t[j2] == ':') {
            return None;
        }
        let j3 = skip_ws(t, j2 + 1);
        let (v, j4) = match parse_value_x(t, j3, Ghost((fuel_k - 1) as nat)) {
            Some(p) => p,
            None => {
                return None;
            },
        };
        let j5 = skip_ws(t, j4);
        let ghost old_acc = acc@;
        proof {
            lemma_jview_obj_push(acc@, (key, v), 0);
        }
        acc.push((key, v));
        if j5 < t.len() && t[j5] == ',' {
            let j6 = skip_ws(t, j5 + 1);
            proof {
                let kv = (key@, v@);
                let tail = parse_members(t@, j6 as int, (fuel_k - 1) as nat);
                match tail {
                    Some((rest, j7)) => {
                        assert(jview_obj(old_acc, 0) + (seq![kv] + rest) =~= jview_obj(acc@, 0)
                            + rest);
                    },
                    None => {},
                }
            }
            k = j6;
            proof {
                fuel_k = (fuel_k - 1) as nat;
            }
        } else if j5 < t.len() && t[j5] == '}' {
            proof {
                let kv = (key@, v@);
                assert(jview_obj(old_acc, 0) + seq![kv] =~= jview_obj(acc@, 0));
            }
            return Some((acc, j5 + 1));
        } else {
            return None;
        }
    }
}

fn parse_elements_x(t: &Vec<char>, i: usize, Ghost(fuel): Ghost<nat>) -> (r: Option<
    (Vec<Json>, usize),
>)
    requires
        i <= t.len(),
        fuel >= 2 * (t.len() - i) + 2,
    ensures
        match r {
            Some((es, j)) => {
                &&& parse_elements(t@, i as int, fuel) == Some((jview_arr(es@, 0), j as int))
                &&& i < j <= t.len()
            },
            None => parse_elements(t@, i as int, fuel) == None::<(Seq<JsonV>, int)>,
        },
    decreases fuel,
{
    let mut acc: Vec<Json> = Vec::new();
    let mut k: usize = i;
    let ghost mut fuel_k: nat = fuel;
    loop
        invariant
            i <= k <= t.len(),
            fuel_k >= 2 * (t.len() - k) + 2,
            fuel_k <= fuel,
            parse_elements(t@, i as int, fuel) == with_elements(
                jview_arr(acc@, 0),
                parse_elements(t@, k as int, fuel_k),
            ),
        decreases fuel_k,
    {
        let (v, j1) = match parse_value_x(t, k, Ghost((fuel_k - 1) as nat)) {
            Some(p) => p,
            None => {
                return None;
            },
        };
        let j2 = skip_ws(t, j1);
        let ghost old_acc = acc@;
        proof {
            lemma_jview_arr_push(acc@, v, 0);
        }
        acc.push(v);
        if j2 < t.len() && t[j2] == ',' {
            let j3 = skip_ws(t, j2 + 1);
            proof {
                let tail = parse_elements(t@, j3 as int, (fuel_k - 1) as nat);
                match tail {
                    Some((rest, j4)) => {
                        assert(jview_arr(old_acc, 0) + (seq![v@] + rest) =~= jview_arr(acc@, 0)
                            + rest);
                    },
                    None => {},
                }
            }
            k = j3;
            proof {
                fuel_k = (fuel_k - 1) as nat;
            }
        } else if j2 < t.len() && t[j2] == ']' {
            proof {
                assert(jview_arr(old_acc, 0) + seq![v@] =~= jview_arr(acc@, 0));
            }
            return Some((acc, j2 + 1));
        } else {
            return None;
        }
    }
}

/// Parses the text as one JSON document: exactly one value with optional
/// surrounding whitespace.
pub fn parse_json(s: &str) -> (r: Option<Json>)
    ensures
        match r {
            Some(v) => spec_parse_json(s@) == Some(v@),
            None => spec_parse_json(s@) == None::<JsonV>,
        },
{
    let t = string_to_chars(s);
    let i = skip_ws(&t, 0);
    proof {
        lemma_ws_end_bounds(s@, 0);
    }
    match parse_value_x(&t, i, Ghost(json_fuel(s@))) {
        Some((v, j)) => {
            let e = skip_ws(&t, j);
            if e == t.len() {
                Some(v)
            } else {
                None
            }
        },
        None => None,
    }
}

/// First member of the object with the given key, if any.
pub open spec fn obj_lookup(ms: Seq<(Seq<char>, JsonV)>, key: Seq<char>) -> Option<JsonV>
    decreases ms.len(),
{
    if ms.len() == 0 {
        None
    } else if ms[0].0 == key {
        Some(ms[0].1)
    } else {
        obj_lookup(ms.drop_first(), key)
    }
}

/// Looks a key up among an object's members, returning the first match.
pub fn obj_get<'a>(members: &'a Vec<(String, Json)>, key: &str) -> (r: Option<&'a Json>)
    ensures
        match r {
            Some(v) => obj_lookup(jview_obj(members@, 0), key@) == Some(v@),
            None => obj_lookup(jview_obj(members@, 0), key@) == None::<JsonV>,
        },
{
    proof {
        lemma_jview_obj(members@, 0);
    }
    let ghost vs = jview_obj(members@, 0);
    proof {
        assert(vs.skip(0) =~= vs);
    }
    let mut i: usize = 0;
    loop
        invariant
            0 <= i <= members.len(),
            vs == jview_obj(members@, 0),
            vs.len() == members@.len(),
            forall|j: int|
                0 <= j < members@.len() ==> vs[j] == (
                #[trigger] members@[j].0@,
                jview(members@[j].1),
                ),
            obj_lookup(vs, key@) == obj_lookup(vs.skip(i as int), key@),
        decreases members.len() - i,
    {
        if i >= members.len() {
            assert(vs.skip(i as int) =~= Seq::<(Seq<char>, JsonV)>::empty());
            return None;
        }
        assert(vs.skip(i as int)[0] == vs[i as int]);
        if crate::chars::str_eq(members[i].0.as_str(), key) {
            return Some(&members[i].1);
        }
        assert(vs.skip(i as int).drop_first() =~= vs.skip(i + 1));
        i += 1;
    }
}

// ------------------------------------------------------------------
// Typed field access over objects
// ------------------------------------------------------------------
/// One optional member: present when the value is given.
pub open spec fn opt_member(key: Seq<char>, o: Option<JsonV>) -> Seq<(Seq<char>, JsonV)> {
    match o {
        Some(v) => seq![(key, v)],
        None => Seq::empty(),
    }
}

/// Members of an object built from a field list: each field contributes its
/// member exactly when its value is present.
pub open spec fn opt_members(fields: Seq<(Seq<char>, Option<JsonV>)>) -> Seq<(Seq<char>, JsonV)>
    decreases fields.len(),
{
    if fields.len() == 0 {
        Seq::empty()
    } else {
        opt_member(fields[0].0, fields[0].1) + opt_members(fields.drop_first())
    }
}

/// Whether the key stands in none of the fields.
pub open spec fn key_absent(fields: Seq<(Seq<char>, Option<JsonV>)>, key: Seq<char>) -> bool {
    forall|i: int| 0 <= i < fields.len() ==> (#[trigger] fields[i]).0 != key
}

/// Pairwise distinct field keys.
pub open spec fn distinct_keys(fields: Seq<(Seq<char>, Option<JsonV>)>) -> bool {
    forall|i: int, j: int|
        0 <= i < j < fields.len() ==> (#[trigger] fields[i]).0 != (#[trigger] fields[j]).0
}

pub proof fn lemma_opt_members_absent(fields: Seq<(Seq<char>, Option<JsonV>)>, key: Seq<char>)
    requires
        key_absent(fields, key),
    ensures
        obj_lookup(opt_members(fields), key) == None::<JsonV>,
    decreases fields.len(),
{
    if fields.len() > 0 {
        assert(fields[0].0 != key);
        lemma_opt_members_absent(fields.drop_first(), key);
        match fields[0].1 {
            Some(v) => {
                let ms = opt_members(fields);
                assert(ms == seq![(fields[0].0, v)] + opt_members(fields.drop_first()));
                assert(ms.drop_first() =~= opt_members(fields.drop_first()));
            },
            None => {
                assert(opt_members(fields) =~= opt_members(fields.drop_first()));
            },
        }
    }
}

/// Looking a field key up in the built object yields exactly that field's
/// value, when the keys are distinct.
pub proof fn lemma_opt_members_lookup(fields: Seq<(Seq<char>, Option<JsonV>)>, i: int)
    requires
        distinct_keys(fields),
        0 <= i < fields.len(),
    ensures
        obj_lookup(opt_members(fields), fields[i].0) == fields[i].1,
    decreases fields.len(),
{
    let key = fields[i].0;
    if i == 0 {
        match fields[0].1 {
            Some(v) => {
                let ms = opt_members(fields);
                assert(ms == seq![(key, v)] + opt_members(fields.drop_first()));
                assert(ms[0] == (key, v));
            },
            None => {
                assert(opt_members(fields) =~= opt_members(fields.drop_first()));
                assert(key_absent(fields.drop_first(), key)) by {
                    assert(forall|j: int|
                        0 <= j < fields.drop_first().len() ==> #[trigger] fields.drop_first()[j]
                            == fields[j + 1]);
                }
                lemma_opt_members_absent(fields.drop_first(), key);
            },
        }
    } else {
        assert(fields[0].0 != key);
        assert(forall|j: int|
            0 <= j < fields.drop_first().len() ==> #[trigger] fields.drop_first()[j] == fields[j
                + 1]);
        lemma_opt_members_lookup(fields.drop_first(), i - 1);
        match fields[0].1 {
            Some(v) => {
                let ms = opt_members(fields);
                assert(ms == seq![(fields[0].0, v)] + opt_members(fields.drop_first()));
                assert(ms.drop_first() =~= opt_members(fields.drop_first()));
                assert(ms[0].0 == fields[0].0);
            },
            None => {
                assert(opt_members(fields) =~= opt_members(fields.drop_first()));
            },
        }
    }
}

/// Every key of the built object is one of the field keys.
pub proof fn lemma_opt_members_keys(fields: Seq<(Seq<char>, Option<JsonV>)>)
    ensures
        forall|j: int|
            0 <= j < opt_members(fields).len() ==> exists|i: int|
                0 <= i < fields.len() && (#[trigger] opt_members(fields)[j]).0 == fields[i].0,
    decreases fields.len(),
{
    if fields.len() > 0 {
        lemma_opt_members_keys(fields.drop_first());
        let ms = opt_members(fields);
        let rest = opt_members(fields.drop_first());
        assert forall|j: int| 0 <= j < ms.len() implies exists|i: int|
            0 <= i < fields.len() && (#[trigger] ms[j]).0 == fields[i].0 by {
            match fields[0].1 {
                Some(v) => {
                    if j == 0 {
                        assert(ms[0].0 == fields[0].0);
                    } else {
                        assert(ms[j] == rest[j - 1]);
                        let i0 = choose|i0: int|
                            0 <= i0 < fields.drop_first().len() && rest[j - 1].0
                                == fields.drop_first()[i0].0;
                        assert(fields.drop_first()[i0] == fields[i0 + 1]);
                        assert(ms[j].0 == fields[i0 + 1].0);
                    }
                },
                None => {
                    assert(ms =~= rest);
                    let dfst = fields.drop_first();
                    let i0 = choose|i0: int|
                        0 <= i0 < dfst.len() && rest[j].0 == dfst[i0].0;
                    assert(fields.drop_first()[i0] == fields[i0 + 1]);
                    assert(ms[j].0 == fields[i0 + 1].0);
                },
            }
        }
    }
}

/// Splitting the field list at `i`: the object members grow by that field's
/// optional member.
pub proof fn lemma_opt_members_snoc(fields: Seq<(Seq<char>, Option<JsonV>)>, i: int)
    requires
        0 <= i < fields.len(),
    ensures
        opt_members(fields.take(i + 1)) == opt_members(fields.take(i)) + opt_member(
            fields[i].0,
            fields[i].1,
        ),
    decreases i,
{
    let a = fields.take(i + 1);
    let b = fields.take(i);
    if i == 0 {
        assert(a.drop_first() =~= Seq::<(Seq<char>, Option<JsonV>)>::empty());
        assert(opt_members(a.drop_first()) =~= Seq::<(Seq<char>, JsonV)>::empty());
        assert(a[0] == fields[0]);
        assert(opt_members(a) =~= opt_member(fields[0].0, fields[0].1));
        assert(opt_members(b) =~= Seq::<(Seq<char>, JsonV)>::empty());
        assert(opt_members(b) + opt_member(fields[0].0, fields[0].1) =~= opt_member(
            fields[0].0,
            fields[0].1,
        ));
    } else {
        lemma_opt_members_snoc(fields.drop_first(), i - 1);
        assert(a.drop_first() =~= fields.drop_first().take(i));
        assert(b.drop_first() =~= fields.drop_first().take(i - 1));
        assert(a[0] == fields[0] && b[0] == fields[0]);
        assert(fields.drop_first()[i - 1] == fields[i]);
        let m0 = opt_member(fields[0].0, fields[0].1);
        let mi = opt_member(fields[i].0, fields[i].1);
        assert(opt_members(a) == m0 + (opt_members(fields.drop_first().take(i - 1)) + mi));
        assert(opt_members(b) + mi =~= m0 + (opt_members(fields.drop_first().take(i - 1)) + mi));
    }
}

/// Pushes one member onto an object under construction.
pub fn push_member(ms: &mut Vec<(String, Json)>, key: &str, v: Json)
    ensures
        jview_obj(final(ms)@, 0) == jview_obj(old(ms)@, 0).push((key@, v@)),
{
    let k = key.to_owned();
    proof {
        lemma_jview_obj_push(ms@, (k, v), 0);
    }
    ms.push((k, v));
}

/// View of an optional JSON value.
pub open spec fn opt_jview(v: Option<Json>) -> Option<JsonV> {
    match v {
        Some(j) => Some(jview(j)),
        None => None,
    }
}

/// Appends one optional member onto an object under construction.
pub fn push_opt_member(ms: &mut Vec<(String, Json)>, key: &str, v: Option<Json>)
    ensures
        jview_obj(final(ms)@, 0) == jview_obj(old(ms)@, 0) + opt_member(key@, opt_jview(v)),
{
    match v {
        Some(j) => {
            let ghost before = jview_obj(ms@, 0);
            let ghost jv = j@;
            push_member(ms, key, j);
            proof {
                assert(jview_obj(ms@, 0) =~= before + opt_member(key@, Some(jv)));
            }
        },
        None => {
            proof {
                assert(jview_obj(ms@, 0) =~= jview_obj(ms@, 0) + opt_member(
                    key@,
                    None::<JsonV>,
                ));
            }
        },
    }
}

/// Optional member value for an optional integer field.
pub open spec fn jv_opt_i32(o: Option<i32>) -> Option<JsonV> {
    match o {
        Some(d) => Some(encode_int(d as int)),
        None => None,
    }
}

/// Optional member value for an optional unsigned field.
pub open spec fn jv_opt_u32(o: Option<u32>) -> Option<JsonV> {
    match o {
        Some(d) => Some(encode_int(d as int)),
        None => None,
    }
}

/// Optional member value for an optional boolean field.
pub open spec fn jv_opt_bool(o: Option<bool>) -> Option<JsonV> {
    match o {
        Some(b) => Some(JsonV::Bool(b)),
        None => None,
    }
}

/// Optional member value for an optional number field.
pub open spec fn jv_opt_num(o: Option<Seq<char>>) -> Option<JsonV> {
    match o {
        Some(t) => Some(JsonV::Num(t)),
        None => None,
    }
}

/// A JSON number holding the decimal text of an integer.
pub open spec fn encode_int(n: int) -> JsonV {
    JsonV::Num(dec_int(n))
}

/// Builds the JSON number for an integer.
pub fn x_encode_int(n: i64) -> (r: Json)
    ensures
        r@ == encode_int(n as int),
{
    let mut cs: Vec<char> = Vec::new();
    push_dec_i64(n, &mut cs);
    assert(cs@ =~= dec_int(n as int));
    Json::Num(chars_to_string(&cs))
}

// Field readers, specification level. Each returns `None` on a type error and
// `Some` with the decoded value otherwise; the `def_` forms substitute the
// default when the key is absent, the `opt_` forms give optional fields where
// a JSON `null` counts as absent.
pub open spec fn req_str_field(ms: Seq<(Seq<char>, JsonV)>, key: Seq<char>) -> Option<Seq<char>> {
    match obj_lookup(ms, key) {
        Some(JsonV::Str(s)) => Some(s),
        _ => None,
    }
}

pub open spec fn def_str_field(ms: Seq<(Seq<char>, JsonV)>, key: Seq<char>, d: Seq<char>) -> Option<
    Seq<char>,
> {
    match obj_lookup(ms, key) {
        Some(JsonV::Str(s)) => Some(s),
        None => Some(d),
        _ => None,
    }
}

pub open spec fn def_bool_field(ms: Seq<(Seq<char>, JsonV)>, key: Seq<char>, d: bool) -> Option<
    bool,
> {
    match obj_lookup(ms, key) {
        Some(JsonV::Bool(b)) => Some(b),
        None => Some(d),
        _ => None,
    }
}

pub open spec fn req_int_field(ms: Seq<(Seq<char>, JsonV)>, key: Seq<char>, lo: int, hi: int)
    -> Option<int> {
    match obj_lookup(ms, key) {
        Some(JsonV::Num(t)) => match crate::chars::int_text_value(t) {
            Some(n) => if lo <= n <= hi {
                Some(n)
            } else {
                None
            },
            None => None,
        },
        _ => None,
    }
}

pub open spec fn def_int_field(
    ms: Seq<(Seq<char>, JsonV)>,
    key: Seq<char>,
    lo: int,
    hi: int,
    d: int,
) -> Option<int> {
    match obj_lookup(ms, key) {
        None => Some(d),
        _ => req_int_field(ms, key, lo, hi),
    }
}

pub open spec fn req_num_field(ms: Seq<(Seq<char>, JsonV)>, key: Seq<char>) -> Option<Seq<char>> {
    match obj_lookup(ms, key) {
        Some(JsonV::Num(t)) => if is_json_number(t) {
            Some(t)
        } else {
            None
        },
        _ => None,
    }
}

pub open spec fn def_num_field(ms: Seq<(Seq<char>, JsonV)>, key: Seq<char>, d: Seq<char>) -> Option<
    Seq<char>,
> {
    match obj_lookup(ms, key) {
        None => Some(d),
        _ => req_num_field(ms, key),
    }
}

pub open spec fn opt_bool_field(ms: Seq<(Seq<char>, JsonV)>, key: Seq<char>) -> Option<
    Option<bool>,
> {
    match obj_lookup(ms, key) {
        None => Some(None),
        Some(JsonV::Null) => Some(None),
        Some(JsonV::Bool(b)) => Some(Some(b)),
        _ => None,
    }
}

pub open spec fn opt_int_field(ms: Seq<(Seq<char>, JsonV)>, key: Seq<char>, lo: int, hi: int)
    -> Option<Option<int>> {
    match obj_lookup(ms, key) {
        None => Some(None),
        Some(JsonV::Null) => Some(None),
        _ => match req_int_field(ms, key, lo, hi) {
            Some(n) => Some(Some(n)),
            None => None,
        },
    }
}

pub open spec fn opt_num_field(ms: Seq<(Seq<char>, JsonV)>, key: Seq<char>) -> Option<
    Option<Seq<char>>,
> {
    match obj_lookup(ms, key) {
        None => Some(None),
        Some(JsonV::Null) => Some(None),
        _ => match req_num_field(ms, key) {
            Some(t) => Some(Some(t)),
            None => None,
        },
    }
}

// Field readers, executable level, each proved against its specification.
pub fn x_req_str(ms: &Vec<(String, Json)>, key: &str) -> (r: Option<String>)
    ensures
        match r {
            Some(s) => req_str_field(jview_obj(ms@, 0), key@) == Some(s@),
            None => req_str_field(jview_obj(ms@, 0), key@) == None::<Seq<char>>,
        },
{
    match obj_get(ms, key) {
        Some(v) => match v {
            Json::Str(s) => Some(s.clone()),
            _ => None,
        },
        None => None,
    }
}

pub fn x_def_str(ms: &Vec<(String, Json)>, key: &str, d: &str) -> (r: Option<String>)
    ensures
        match r {
            Some(s) => def_str_field(jview_obj(ms@, 0), key@, d@) == Some(s@),
            None => def_str_field(jview_obj(ms@, 0), key@, d@) == None::<Seq<char>>,
        },
{
    match obj_get(ms, key) {
        Some(v) => match v {
            Json::Str(s) => Some(s.clone()),
            _ => None,
        },
        None => Some(d.to_owned()),
    }
}

pub fn x_def_bool(ms: &Vec<(String, Json)>, key: &str, d: bool) -> (r: Option<bool>)
    ensures
        match r {
            Some(b) => def_bool_field(jview_obj(ms@, 0), key@, d) == Some(b),
            None => def_bool_field(jview_obj(ms@, 0), key@, d) == None::<bool>,
        },
{
    match obj_get(ms, key) {
        Some(v) => match v {
            Json::Bool(b) => Some(*b),
            _ => None,
        },
        None => Some(d),
    }
}

pub fn x_req_int(ms: &Vec<(String, Json)>, key: &str, lo: i64, hi: i64) -> (r: Option<i64>)
    requires
        lo <= hi,
    ensures
        match r {
            Some(n) => req_int_field(jview_obj(ms@, 0), key@, lo as int, hi as int) == Some(
                n as int,
            ) && lo <= n <= hi,
            None => req_int_field(jview_obj(ms@, 0), key@, lo as int, hi as int) == None::<int>,
        },
{
    match obj_get(ms, key) {
        Some(v) => match v {
            Json::Num(t) => {
                let cs = string_to_chars(t.as_str());
                crate::chars::parse_int_text(&cs, lo, hi)
            },
            _ => None,
        },
        None => None,
    }
}

pub fn x_def_int(ms: &Vec<(String, Json)>, key: &str, lo: i64, hi: i64, d: i64) -> (r: Option<i64>)
    requires
        lo <= hi,
        lo <= d <= hi,
    ensures
        match r {
            Some(n) => def_int_field(jview_obj(ms@, 0), key@, lo as int, hi as int, d as int)
                == Some(n as int) && lo <= n <= hi,
            None => def_int_field(jview_obj(ms@, 0), key@, lo as int, hi as int, d as int)
                == None::<int>,
        },
{
    match obj_get(ms, key) {
        Some(v) => match v {
            Json::Num(t) => {
                let cs = string_to_chars(t.as_str());
                crate::chars::parse_int_text(&cs, lo, hi)
            },
            _ => None,
        },
        None => Some(d),
    }
}

pub fn x_req_num(ms: &Vec<(String, Json)>, key: &str) -> (r: Option<String>)
    ensures
        match r {
            Some(t) => req_num_field(jview_obj(ms@, 0), key@) == Some(t@),
            None => req_num_field(jview_obj(ms@, 0), key@) == None::<Seq<char>>,
        },
{
    match obj_get(ms, key) {
        Some(v) => match v {
            Json::Num(t) => {
                let cs = string_to_chars(t.as_str());
                if number_valid(&cs) {
                    Some(t.clone())
                } else {
                    None
                }
            },
            _ => None,
        },
        None => None,
    }
}

pub fn x_def_num(ms: &Vec<(String, Json)>, key: &str, d: &str) -> (r: Option<String>)
    ensures
        match r {
            Some(t) => def_num_field(jview_obj(ms@, 0), key@, d@) == Some(t@),
            None => def_num_field(jview_obj(ms@, 0), key@, d@) == None::<Seq<char>>,
        },
{
    match obj_get(ms, key) {
        Some(v) => match v {
            Json::Num(t) => {
                let cs = string_to_chars(t.as_str());
                if number_valid(&cs) {
                    Some(t.clone())
                } else {
                    None
                }
            },
            _ => None,
        },
        None => Some(d.to_owned()),
    }
}

pub fn x_opt_bool(ms: &Vec<(String, Json)>, key: &str) -> (r: Option<Option<bool>>)
    ensures
        match r {
            Some(o) => opt_bool_field(jview_obj(ms@, 0), key@) == Some(o),
            None => opt_bool_field(jview_obj(ms@, 0), key@) == None::<Option<bool>>,
        },
{
    match obj_get(ms, key) {
        Some(v) => match v {
            Json::Bool(b) => Some(Some(*b)),
            Json::Null => Some(None),
            _ => None,
        },
        None => Some(None),
    }
}

pub fn x_opt_int(ms: &Vec<(String, Json)>, key: &str, lo: i64, hi: i64) -> (r: Option<Option<i64>>)
    requires
        lo <= hi,
    ensures
        match r {
            Some(o) => match o {
                Some(n) => opt_int_field(jview_obj(ms@, 0), key@, lo as int, hi as int) == Some(
                    Some(n as int),
                ) && lo <= n <= hi,
                None => opt_int_field(jview_obj(ms@, 0), key@, lo as int, hi as int) == Some(
                    None::<int>,
                ),
            },
            None => opt_int_field(jview_obj(ms@, 0), key@, lo as int, hi as int) == None::<
                Option<int>,
            >,
        },
{
    match obj_get(ms, key) {
        Some(v) => match v {
            Json::Num(t) => {
                let cs = string_to_chars(t.as_str());
                match crate::chars::parse_int_text(&cs, lo, hi) {
                    Some(n) => Some(Some(n)),
                    None => None,
                }
            },
            Json::Null => Some(None),
            _ => None,
        },
        None => Some(None),
    }
}

pub fn x_opt_num(ms: &Vec<(String, Json)>, key: &str) -> (r: Option<Option<String>>)
    ensures
        match r {
            Some(o) => match o {
                Some(t) => opt_num_field(jview_obj(ms@, 0), key@) == Some(Some(t@)),
                None => opt_num_field(jview_obj(ms@, 0), key@) == Some(None::<Seq<char>>),
            },
            None => opt_num_field(jview_obj(ms@, 0), key@) == None::<Option<Seq<char>>>,
        },
{
    match obj_get(ms, key) {
        Some(v) => match v {
            Json::Num(t) => {
                let cs = string_to_chars(t.as_str());
                if number_valid(&cs) {
                    Some(Some(t.clone()))
                } else {
                    None
                }
            },
            Json::Null => Some(None),
            _ => None,
        },
        None => Some(None),
    }
}

} // verus!
