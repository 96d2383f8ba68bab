//! The wire-protocol codec, outbound side.
//!
//! A request is one JSON object per line: `{"command":C,"params":P}` followed
//! by exactly one newline. The spec functions below define that text exactly
//! (including JSON string escaping and decimal number printing), and
//! [`encode_request`] is proved to produce it. The framing invariant — the
//! serialized request contains no newline before its terminator — is proved
//! as well, so a request can never be mistaken for more than one message.

use vstd::prelude::*;

use crate::json::JsonValue;

verus! {

broadcast use vstd::std_specs::vec::group_vec_axioms;

/// The hexadecimal digit character for `d` (lower case), for `0 <= d < 16`.
pub open spec fn hex_char(d: int) -> char {
    if d == 0 {
        '0'
    } else if d == 1 {
        '1'
    } else if d == 2 {
        '2'
    } else if d == 3 {
        '3'
    } else if d == 4 {
        '4'
    } else if d == 5 {
        '5'
    } else if d == 6 {
        '6'
    } else if d == 7 {
        '7'
    } else if d == 8 {
        '8'
    } else if d == 9 {
        '9'
    } else if d == 10 {
        'a'
    } else if d == 11 {
        'b'
    } else if d == 12 {
        'c'
    } else if d == 13 {
        'd'
    } else if d == 14 {
        'e'
    } else {
        'f'
    }
}

/// How one character appears inside a JSON string value: quotation mark,
/// backslash and control characters are escaped, everything else stands
/// as itself.
pub open spec fn esc_char(c: char) -> Seq<char> {
    if c == '"' {
        seq!['\\', '"']
    } else if c == '\\' {
        seq!['\\', '\\']
    } else if c == '\n' {
        seq!['\\', 'n']
    } else if c == '\r' {
        seq!['\\', 'r']
    } else if c == '\t' {
        seq!['\\', 't']
    } else if c == '\u{8}' {
        seq!['\\', 'b']
    } else if c == '\u{c}' {
        seq!['\\', 'f']
    } else if (c as u32) < 0x20 {
        seq!['\\', 'u', '0', '0', hex_char((c as u32 / 16) as int), hex_char((c as u32 % 16) as int)]
    } else {
        seq![c]
    }
}

/// The escaped body of a JSON string value holding the characters `s`.
pub open spec fn esc(s: Seq<char>) -> Seq<char>
    decreases s.len(),
{
    if s.len() == 0 {
        Seq::empty()
    } else {
        esc(s.drop_last()) + esc_char(s.last())
    }
}

/// A complete JSON string value: the escaped characters between quotes.
pub open spec fn str_text(s: Seq<char>) -> Seq<char> {
    seq!['"'] + esc(s) + seq!['"']
}

/// The decimal digits of a non-negative integer, most significant first.
pub open spec fn nat_text(n: int) -> Seq<char>
    recommends
        n >= 0,
    decreases n,
{
    if n < 10 {
        seq![hex_char(n)]
    } else {
        nat_text(n / 10) + seq![hex_char(n % 10)]
    }
}

/// The decimal text of an integer, with a leading minus sign when negative.
pub open spec fn int_text(i: int) -> Seq<char> {
    if i < 0 {
        seq!['-'] + nat_text(-i)
    } else {
        nat_text(i)
    }
}

/// The JSON text of one structured value.
pub open spec fn val_text(v: JsonValue) -> Seq<char>
    decreases v, 0int,
{
    match v {
        JsonValue::Null => "null"@,
        JsonValue::Bool(b) => if b {
            "true"@
        } else {
            "false"@
        },
        JsonValue::Int(i) => int_text(i as int),
        JsonValue::Str(s) => str_text(s@),
        JsonValue::Arr(items) => seq!['['] + arr_text(items@, 0) + seq![']'],
        JsonValue::Obj(pairs) => seq!['{'] + obj_text(pairs@, 0) + seq!['}'],
    }
}

/// The comma-separated JSON texts of `items[i..]`.
pub open spec fn arr_text(items: Seq<JsonValue>, i: int) -> Seq<char>
    decreases items, items.len() - i,
{
    if i < 0 || i >= items.len() {
        Seq::empty()
    } else {
        val_text(items[i]) + (if i + 1 < items.len() {
            seq![',']
        } else {
            Seq::<char>::empty()
        }) + arr_text(items, i + 1)
    }
}

/// The comma-separated `"key":value` members of `pairs[i..]`.
pub open spec fn obj_text(pairs: Seq<(String, JsonValue)>, i: int) -> Seq<char>
    decreases pairs, pairs.len() - i,
{
    if i < 0 || i >= pairs.len() {
        Seq::empty()
    } else {
        str_text(pairs[i].0@) + seq![':'] + val_text(pairs[i].1) + (if i + 1 < pairs.len() {
            seq![',']
        } else {
            Seq::<char>::empty()
        }) + obj_text(pairs, i + 1)
    }
}

/// One whole request line, given the JSON text of its parameter payload:
/// the request object followed by exactly one newline terminator.
pub open spec fn request_line_text(command: Seq<char>, params_text: Seq<char>) -> Seq<char> {
    "{\"command\":"@ + str_text(command) + ",\"params\":"@ + params_text + "}\n"@
}

/// Holds when no character of `s` is a newline: `s` fits on one line.
pub open spec fn one_line(s: Seq<char>) -> bool {
    forall|k: int| 0 <= k < s.len() ==> s[k] != '\n'
}

/// Concatenation fits on one line exactly when both halves do.
pub proof fn lemma_one_line_concat(a: Seq<char>, b: Seq<char>)
    ensures
        one_line(a + b) <==> (one_line(a) && one_line(b)),
{
    if one_line(a) && one_line(b) {
        assert forall|k: int| 0 <= k < (a + b).len() implies (a + b)[k] != '\n' by {
            if k < a.len() {
                assert((a + b)[k] == a[k]);
            } else {
                assert((a + b)[k] == b[k - a.len()]);
            }
        }
    }
    if one_line(a + b) {
        assert forall|k: int| 0 <= k < a.len() implies a[k] != '\n' by {
            assert((a + b)[k] == a[k]);
        }
        assert forall|k: int| 0 <= k < b.len() implies b[k] != '\n' by {
            assert((a + b)[k + a.len()] == b[k]);
        }
    }
}

/// The escape of any single character stays on one line.
pub proof fn lemma_esc_char_one_line(c: char)
    ensures
        one_line(esc_char(c)),
{
}

/// The escaped body of a string value stays on one line.
pub proof fn lemma_esc_one_line(s: Seq<char>)
    ensures
        one_line(esc(s)),
    decreases s.len(),
{
    if s.len() == 0 {
    } else {
        lemma_esc_one_line(s.drop_last());
        lemma_esc_char_one_line(s.last());
        lemma_one_line_concat(esc(s.drop_last()), esc_char(s.last()));
    }
}

/// A complete JSON string value stays on one line.
pub proof fn lemma_str_text_one_line(s: Seq<char>)
    ensures
        one_line(str_text(s)),
{
    lemma_esc_one_line(s);
    lemma_one_line_concat(seq!['"'], esc(s));
    lemma_one_line_concat(seq!['"'] + esc(s), seq!['"']);
}

/// Decimal digits stay on one line.
pub proof fn lemma_nat_text_one_line(n: int)
    ensures
        one_line(nat_text(n)),
    decreases n,
{
    if n < 10 {
    } else {
        lemma_nat_text_one_line(n / 10);
        lemma_one_line_concat(nat_text(n / 10), seq![hex_char(n % 10)]);
    }
}

/// Decimal integer text stays on one line.
pub proof fn lemma_int_text_one_line(i: int)
    ensures
        one_line(int_text(i)),
{
    lemma_nat_text_one_line(i);
    if i < 0 {
        lemma_nat_text_one_line(-i);
        lemma_one_line_concat(seq!['-'], nat_text(-i));
    }
}

/// The JSON text of any structured value stays on one line: a parameter
/// payload can never smuggle a message boundary into the stream.
pub proof fn lemma_val_text_one_line(v: JsonValue)
    ensures
        one_line(val_text(v)),
    decreases v, 0int,
{
    reveal_strlit("null");
    reveal_strlit("true");
    reveal_strlit("false");
    match v {
        JsonValue::Null => {
        },
        JsonValue::Bool(b) => {
        },
        JsonValue::Int(i) => {
            lemma_int_text_one_line(i as int);
        },
        JsonValue::Str(s) => {
            lemma_str_text_one_line(s@);
        },
        JsonValue::Arr(items) => {
            lemma_arr_text_one_line(items@, 0);
            lemma_one_line_concat(seq!['['], arr_text(items@, 0));
            lemma_one_line_concat(seq!['['] + arr_text(items@, 0), seq![']']);
        },
        JsonValue::Obj(pairs) => {
            lemma_obj_text_one_line(pairs@, 0);
            lemma_one_line_concat(seq!['{'], obj_text(pairs@, 0));
            lemma_one_line_concat(seq!['{'] + obj_text(pairs@, 0), seq!['}']);
        },
    }
}

/// The members of an array stay on one line.
pub proof fn lemma_arr_text_one_line(items: Seq<JsonValue>, i: int)
    ensures
        one_line(arr_text(items, i)),
    decreases items, items.len() - i,
{
    if i < 0 || i >= items.len() {
    } else {
        let sep = if i + 1 < items.len() {
            seq![',']
        } else {
            Seq::<char>::empty()
        };
        lemma_val_text_one_line(items[i]);
        lemma_arr_text_one_line(items, i + 1);
        lemma_one_line_concat(val_text(items[i]), sep);
        lemma_one_line_concat(val_text(items[i]) + sep, arr_text(items, i + 1));
    }
}

/// The members of an object stay on one line.
pub proof fn lemma_obj_text_one_line(pairs: Seq<(String, JsonValue)>, i: int)
    ensures
        one_line(obj_text(pairs, i)),
    decreases pairs, pairs.len() - i,
{
    if i < 0 || i >= pairs.len() {
    } else {
        let sep = if i + 1 < pairs.len() {
            seq![',']
        } else {
            Seq::<char>::empty()
        };
        lemma_str_text_one_line(pairs[i].0@);
        lemma_val_text_one_line(pairs[i].1);
        lemma_obj_text_one_line(pairs, i + 1);
        lemma_one_line_concat(str_text(pairs[i].0@), seq![':']);
        lemma_one_line_concat(str_text(pairs[i].0@) + seq![':'], val_text(pairs[i].1));
        lemma_one_line_concat(
            str_text(pairs[i].0@) + seq![':'] + val_text(pairs[i].1),
            sep,
        );
        lemma_one_line_concat(
            str_text(pairs[i].0@) + seq![':'] + val_text(pairs[i].1) + sep,
            obj_text(pairs, i + 1),
        );
    }
}

/// Framing law: a request line for any command and any parameter payload is
/// exactly one line — it ends with a newline, and no earlier character is
/// one, so the worker sees exactly one message per request.
pub proof fn lemma_request_line_framing(command: Seq<char>, params: JsonValue)
    ensures
        request_line_text(command, val_text(params)).len() > 0,
        request_line_text(command, val_text(params)).last() == '\n',
        one_line(request_line_text(command, val_text(params)).drop_last()),
{
    reveal_strlit("{\"command\":");
    reveal_strlit(",\"params\":");
    reveal_strlit("}\n");
    let a = "{\"command\":"@;
    let b = ",\"params\":"@;
    let t = request_line_text(command, val_text(params));
    lemma_str_text_one_line(command);
    lemma_val_text_one_line(params);
    assert(one_line(a)) by {
        assert forall|k: int| 0 <= k < a.len() implies a[k] != '\n' by {}
    }
    assert(one_line(b)) by {
        assert forall|k: int| 0 <= k < b.len() implies b[k] != '\n' by {}
    }
    lemma_one_line_concat(a, str_text(command));
    lemma_one_line_concat(a + str_text(command), b);
    lemma_one_line_concat(a + str_text(command) + b, val_text(params));
    let head = a + str_text(command) + b + val_text(params);
    assert(t == head + "}\n"@);
    assert(t.drop_last() =~= head + seq!['}']);
    lemma_one_line_concat(head, seq!['}']);
    assert(t.last() == '\n');
}

/// Relies on `<String as FromIterator<char>>` via `collect`: the collected
/// string holds exactly the characters of `v`, in order.
#[verifier::external_body]
fn chars_to_string(v: Vec<char>) -> (r: String)
    ensures
        r@ == v@,
{
    v.into_iter().collect()
}

/// The hexadecimal digit character for `d` (lower case).
fn hex_char_exec(d: u32) -> (c: char)
    requires
        d < 16,
    ensures
        c == hex_char(d as int),
{
    match d {
        0 => '0',
        1 => '1',
        2 => '2',
        3 => '3',
        4 => '4',
        5 => '5',
        6 => '6',
        7 => '7',
        8 => '8',
        9 => '9',
        10 => 'a',
        11 => 'b',
        12 => 'c',
        13 => 'd',
        14 => 'e',
        _ => 'f',
    }
}

/// Appends the characters of `s` to `out`, unchanged.
fn append_raw(out: &mut Vec<char>, s: &str)
    ensures
        final(out)@ == old(out)@ + s@,
{
    let n: usize = s.unicode_len();
    let mut i: usize = 0;
    while i < n
        invariant
            n == s@.len(),
            i <= n,
            out@ == old(out)@ + s@.take(i as int),
        decreases n - i,
    {
        let c: char = s.get_char(i);
        out.push(c);
        proof {
            assert(s@.take(i + 1) =~= s@.take(i as int) + seq![s@[i as int]]);
        }
        i = i + 1;
    }
    proof {
        assert(s@.take(n as int) =~= s@);
    }
}

/// Appends the escape of one character to `out`.
fn append_esc_char(out: &mut Vec<char>, c: char)
    ensures
        final(out)@ == old(out)@ + esc_char(c),
{
    if c == '"' {
        out.push('\\');
        out.push('"');
    } else if c == '\\' {
        out.push('\\');
        out.push('\\');
    } else if c == '\n' {
        out.push('\\');
        out.push('n');
    } else if c == '\r' {
        out.push('\\');
        out.push('r');
    } else if c == '\t' {
        out.push('\\');
        out.push('t');
    } else if c == '\u{8}' {
        out.push('\\');
        out.push('b');
    } else if c == '\u{c}' {
        out.push('\\');
        out.push('f');
    } else if (c as u32) < 0x20 {
        out.push('\\');
        out.push('u');
        out.push('0');
        out.push('0');
        out.push(hex_char_exec((c as u32) / 16));
        out.push(hex_char_exec((c as u32) % 16));
    } else {
        out.push(c);
    }
    proof {
        assert(final(out)@ =~= old(out)@ + esc_char(c));
    }
}

/// Appends a complete JSON string value holding the characters of `s`.
fn append_str_value(out: &mut Vec<char>, s: &str)
    ensures
        final(out)@ == old(out)@ + str_text(s@),
{
    out.push('"');
    let n: usize = s.unicode_len();
    let mut i: usize = 0;
    while i < n
        invariant
            n == s@.len(),
            i <= n,
            out@ == old(out)@ + seq!['"'] + esc(s@.take(i as int)),
        decreases n - i,
    {
        let c: char = s.get_char(i);
        append_esc_char(out, c);
        proof {
            let t = s@.take(i + 1);
            assert(t.drop_last() =~= s@.take(i as int));
            assert(t.last() == s@[i as int]);
            assert(esc(t) == esc(s@.take(i as int)) + esc_char(s@[i as int]));
        }
        i = i + 1;
    }
    out.push('"');
    proof {
        assert(s@.take(n as int) =~= s@);
        assert(final(out)@ =~= old(out)@ + str_text(s@));
    }
}

/// Appends the decimal digits of `n`, most significant first.
fn append_nat(out: &mut Vec<char>, n: u64)
    ensures
        final(out)@ == old(out)@ + nat_text(n as int),
    decreases n,
{
    if n < 10 {
        out.push(hex_char_exec(n as u32));
        proof {
            assert(final(out)@ =~= old(out)@ + nat_text(n as int));
        }
    } else {
        append_nat(out, n / 10);
        out.push(hex_char_exec((n % 10) as u32));
        proof {
            assert(final(out)@ =~= old(out)@ + nat_text(n as int));
        }
    }
}

/// Appends the decimal text of `i`, with a minus sign when negative.
fn append_int(out: &mut Vec<char>, i: i64)
    ensures
        final(out)@ == old(out)@ + int_text(i as int),
{
    if i < 0 {
        out.push('-');
        let stepped: i64 = i + 1;
        let negated: i64 = -stepped;
        let magnitude: u64 = (negated as u64) + 1;
        assert(magnitude as int == -(i as int));
        append_nat(out, magnitude);
        proof {
            assert(final(out)@ =~= old(out)@ + int_text(i as int));
        }
    } else {
        append_nat(out, i as u64);
    }
}

/// Appends the JSON text of one structured value.
fn append_val(out: &mut Vec<char>, v: &JsonValue)
    ensures
        final(out)@ == old(out)@ + val_text(*v),
    decreases *v, 0int,
{
    match v {
        JsonValue::Null => {
            append_raw(out, "null");
        },
        JsonValue::Bool(b) => {
            if *b {
                append_raw(out, "true");
            } else {
                append_raw(out, "false");
            }
        },
        JsonValue::Int(i) => {
            append_int(out, *i);
        },
        JsonValue::Str(s) => {
            append_str_value(out, s.as_str());
        },
        JsonValue::Arr(items) => {
            out.push('[');
            append_arr(out, items, 0);
            out.push(']');
            proof {
                assert(final(out)@ =~= old(out)@ + val_text(*v));
            }
        },
        JsonValue::Obj(pairs) => {
            out.push('{');
            append_obj(out, pairs, 0);
            out.push('}');
            proof {
                assert(final(out)@ =~= old(out)@ + val_text(*v));
            }
        },
    }
}

/// Appends the comma-separated JSON texts of `items[i..]`.
fn append_arr(out: &mut Vec<char>, items: &Vec<JsonValue>, i: usize)
    requires
        i <= items.len(),
    ensures
        final(out)@ == old(out)@ + arr_text(items@, i as int),
    decreases *items, items.len() - i,
{
    if i < items.len() {
        append_val(out, &items[i]);
        if i + 1 < items.len() {
            out.push(',');
        }
        append_arr(out, items, i + 1);
        proof {
            assert(final(out)@ =~= old(out)@ + arr_text(items@, i as int));
        }
    }
}

/// Appends the comma-separated `"key":value` members of `pairs[i..]`.
fn append_obj(out: &mut Vec<char>, pairs: &Vec<(String, JsonValue)>, i: usize)
    requires
        i <= pairs.len(),
    ensures
        final(out)@ == old(out)@ + obj_text(pairs@, i as int),
    decreases *pairs, pairs.len() - i,
{
    if i < pairs.len() {
        append_str_value(out, pairs[i].0.as_str());
        out.push(':');
        append_val(out, &pairs[i].1);
        if i + 1 < pairs.len() {
            out.push(',');
        }
        append_obj(out, pairs, i + 1);
        proof {
            assert(final(out)@ =~= old(out)@ + obj_text(pairs@, i as int));
        }
    }
}

/// Encodes one request: builds the `{"command":C,"params":P}` object and
/// appends exactly one newline terminator. Total: every command name and
/// every parameter value has a representation on the wire.
pub fn encode_request(command: &str, params: &JsonValue) -> (line: String)
    ensures
        line@ == request_line_text(command@, val_text(*params)),
        line@.len() > 0,
        line@.last() == '\n',
        one_line(line@.drop_last()),
{
    proof {
        lemma_request_line_framing(command@, *params);
    }
    let mut out: Vec<char> = Vec::new();
    append_raw(&mut out, "{\"command\":");
    append_str_value(&mut out, command);
    append_raw(&mut out, ",\"params\":");
    append_val(&mut out, params);
    append_raw(&mut out, "}\n");
    proof {
        assert(out@ =~= request_line_text(command@, val_text(*params)));
    }
    chars_to_string(out)
}

} // verus!
