//! The JSON values this server writes on the wire, and their exact text.
//! Replies are built as `Json` trees and rendered by a verified emitter
//! whose output is pinned character by character.

use vstd::prelude::*;

use crate::text::{dec_rep_int, money_rep, string_from_chars};

verus! {

/// A JSON value to be written out.
pub enum Json {
    Null,
    Bool(bool),
    Int(i64),
    /// An amount in cents, written as dollars with two decimal digits.
    Money(u64),
    Str(String),
    /// Already-rendered JSON text, embedded as it stands.
    Raw(String),
    Arr(Vec<Json>),
    Obj(Vec<(String, Json)>),
}

/// The character for one hexadecimal digit.
pub open spec fn hex_char(d: int) -> char {
    if d < 10 {
        ((48 + d) as u8) as char
    } else {
        ((87 + d) as u8) as char
    }
}

/// How one character of a JSON string is written: quotes, backslashes and
/// the common control characters get short escapes, other control
/// characters a four-digit escape, everything else stands as itself.
pub open spec fn esc_char(c: char) -> Seq<char> {
    if c == '"' {
        seq!['\\', '"']
    } else if c == '\\' {
        seq!['\\', '\\']
    } else if c == '\n' {
        seq!['\\', 'n']
    } else if c == '\r' {
        seq!['\\', 'r']
    } else if c == '\t' {
        seq!['\\', 't']
    } else if (c as int) < 32 {
        seq!['\\', 'u', '0', '0', hex_char(c as int / 16), hex_char(c as int % 16)]
    } else {
        seq![c]
    }
}

/// A whole string escaped for a JSON string literal.
pub open spec fn spec_escape(s: Seq<char>) -> Seq<char>
    decreases s.len(),
{
    if s.len() == 0 {
        Seq::empty()
    } else {
        spec_escape(s.drop_last()) + esc_char(s.last())
    }
}

/// The exact text of a JSON value.
pub open spec fn spec_emit(v: Json) -> Seq<char>
    decreases v,
{
    match v {
        Json::Null => "null"@,
        Json::Bool(b) => if b {
            "true"@
        } else {
            "false"@
        },
        Json::Int(i) => dec_rep_int(i as int),
        Json::Money(c) => money_rep(c as nat),
        Json::Str(s) => seq!['"'] + spec_escape(s@) + seq!['"'],
        Json::Raw(s) => s@,
        Json::Arr(items) => seq!['['] + spec_emit_items(items@) + seq![']'],
        Json::Obj(fields) => seq!['{'] + spec_emit_fields(fields@) + seq!['}'],
    }
}

/// The comma-separated texts of an array's elements.
pub open spec fn spec_emit_items(items: Seq<Json>) -> Seq<char>
    decreases items,
{
    if items.len() == 0 {
        Seq::empty()
    } else if items.len() == 1 {
        spec_emit(items.last())
    } else {
        spec_emit_items(items.drop_last()) + seq![','] + spec_emit(items.last())
    }
}

/// The comma-separated `"key":value` texts of an object's fields.
pub open spec fn spec_emit_field(f: (String, Json)) -> Seq<char>
    decreases f,
{
    seq!['"'] + spec_escape(f.0@) + seq!['"', ':'] + spec_emit(f.1)
}

pub open spec fn spec_emit_fields(fields: Seq<(String, Json)>) -> Seq<char>
    decreases fields,
{
    if fields.len() == 0 {
        Seq::empty()
    } else if fields.len() == 1 {
        spec_emit_field(fields.last())
    } else {
        spec_emit_fields(fields.drop_last()) + seq![','] + spec_emit_field(fields.last())
    }
}

/// Append the characters of `s` to `out`.
fn push_str_chars(out: &mut Vec<char>, s: &str)
    ensures
        final(out)@ == old(out)@ + s@,
{
    let n = s.unicode_len();
    let mut i: usize = 0;
    while i < n
        invariant
            n == s@.len(),
            i <= n,
            out@ == old(out)@ + s@.take(i as int),
        decreases n - i,
    {
        out.push(s.get_char(i));
        i = i + 1;
        proof {
            assert(out@ =~= old(out)@ + s@.take(i as int));
        }
    }
    proof {
        assert(out@ =~= old(out)@ + s@);
    }
}

fn push_escaped(out: &mut Vec<char>, s: &str)
    ensures
        final(out)@ == old(out)@ + spec_escape(s@),
{
    let n = s.unicode_len();
    let mut i: usize = 0;
    proof {
        assert(out@ =~= old(out)@ + spec_escape(s@.take(0)));
    }
    while i < n
        invariant
            n == s@.len(),
            i <= n,
            out@ == old(out)@ + spec_escape(s@.take(i as int)),
        decreases n - i,
    {
        let c = s.get_char(i);
        if c == '"' {
            out.push('\\');
            out.push('"');
        } else if c == '\\' {
            out.push('\\');
            out.push('\\');
        } else if c == '\n' {
            out.push('\\');
            out.push('n');
        } else if c == '\r' {
            out.push('\\');
            out.push('r');
        } else if c == '\t' {
            out.push('\\');
            out.push('t');
        } else if (c as u32) < 32 {
            out.push('\\');
            out.push('u');
            out.push('0');
            out.push('0');
            let lo = (c as u32) % 16;
            let hi = (c as u32) / 16;
            if hi < 10 {
                out.push(((48 + hi) as u8) as char);
            } else {
                out.push(((87 + hi) as u8) as char);
            }
            if lo < 10 {
                out.push(((48 + lo) as u8) as char);
            } else {
                out.push(((87 + lo) as u8) as char);
            }
        } else {
            out.push(c);
        }
        proof {
            assert(s@.take(i + 1).drop_last() =~= s@.take(i as int));
            assert(s@.take(i + 1).last() == s@[i as int]);
            assert(out@ =~= old(out)@ + spec_escape(s@.take(i + 1)));
        }
        i = i + 1;
    }
    proof {
        assert(s@.take(n as int) =~= s@);
    }
}

/// Write the exact text of `v` onto the end of `out`.
fn emit_into(v: &Json, out: &mut Vec<char>)
    ensures
        final(out)@ == old(out)@ + spec_emit(*v),
    decreases *v,
{
    match v {
        Json::Null => {
            push_str_chars(out, "null");
        }
        Json::Bool(b) => {
            if *b {
                push_str_chars(out, "true");
            } else {
                push_str_chars(out, "false");
            }
        }
        Json::Int(i) => {
            let s = crate::text::i64_to_string(*i);
            push_str_chars(out, s.as_str());
        }
        Json::Money(c) => {
            let s = crate::text::cents_to_string(*c);
            push_str_chars(out, s.as_str());
        }
        Json::Str(s) => {
            out.push('"');
            push_escaped(out, s.as_str());
            out.push('"');
            proof {
                assert(out@ =~= old(out)@ + spec_emit(*v));
            }
        }
        Json::Raw(s) => {
            push_str_chars(out, s.as_str());
        }
        Json::Arr(items) => {
            out.push('[');
            let mut i: usize = 0;
            while i < items.len()
                invariant
                    *v == Json::Arr(*items),
                    i <= items@.len(),
                    out@ == old(out)@ + seq!['['] + spec_emit_items(items@.take(i as int)),
                decreases items@.len() - i,
            {
                if i > 0 {
                    out.push(',');
                }
                proof {
                    assert(*items == v->Arr_0);
                    assert(decreases_to!(*v => v->Arr_0));
                    assert(decreases_to!(*items => items@));
                    assert(decreases_to!(items@ => items@[i as int]));
                }
                emit_into(&items[i], out);
                proof {
                    assert(items@.take(i + 1).drop_last() =~= items@.take(i as int));
                    assert(items@.take(i + 1).last() == items@[i as int]);
                    assert(out@ =~= old(out)@ + seq!['['] + spec_emit_items(items@.take(i + 1)));
                }
                i = i + 1;
            }
            out.push(']');
            proof {
                assert(items@.take(items@.len() as int) =~= items@);
                assert(out@ =~= old(out)@ + spec_emit(*v));
            }
        }
        Json::Obj(fields) => {
            out.push('{');
            let mut i: usize = 0;
            while i < fields.len()
                invariant
                    *v == Json::Obj(*fields),
                    i <= fields@.len(),
                    out@ == old(out)@ + seq!['{'] + spec_emit_fields(fields@.take(i as int)),
                decreases fields@.len() - i,
            {
                if i > 0 {
                    out.push(',');
                }
                out.push('"');
                push_escaped(out, fields[i].0.as_str());
                out.push('"');
                out.push(':');
                proof {
                    assert(*fields == v->Obj_0);
                    assert(decreases_to!(*v => v->Obj_0));
                    assert(decreases_to!(*fields => fields@));
                    assert(decreases_to!(fields@ => fields@[i as int]));
                    assert(decreases_to!(fields@[i as int] => fields@[i as int].1));
                }
                emit_into(&fields[i].1, out);
                proof {
                    assert(fields@.take(i + 1).drop_last() =~= fields@.take(i as int));
                    assert(fields@.take(i + 1).last() == fields@[i as int]);
                    assert(spec_emit_field(fields@[i as int]) =~= seq!['"'] + spec_escape(
                        fields@[i as int].0@,
                    ) + seq!['"', ':'] + spec_emit(fields@[i as int].1));
                    assert(out@ =~= old(out)@ + seq!['{'] + spec_emit_fields(fields@.take(i + 1)));
                }
                i = i + 1;
            }
            out.push('}');
            proof {
                assert(fields@.take(fields@.len() as int) =~= fields@);
                assert(out@ =~= old(out)@ + spec_emit(*v));
            }
        }
    }
}

/// The exact text of a JSON value, as a string.
pub fn json_text(v: &Json) -> (r: String)
    ensures
        r@ == spec_emit(*v),
{
    let mut out: Vec<char> = Vec::new();
    emit_into(v, &mut out);
    string_from_chars(&out)
}

// The lemmas below flatten the emitted text of small field and element
// lists, pinning the form of values built with a known shape.
pub proof fn lemma_emit_fields_1(f: Seq<(String, Json)>)
    requires
        f.len() == 1,
    ensures
        spec_emit_fields(f) == spec_emit_field(f[0]),
{
    assert(f.take(1) =~= seq![f[0]]);
    assert(spec_emit_fields(f.take(1)) == spec_emit_field(f[0]));
    assert(f.take(1) =~= f);
}

pub proof fn lemma_emit_fields_2(f: Seq<(String, Json)>)
    requires
        f.len() == 2,
    ensures
        spec_emit_fields(f) == spec_emit_field(f[0]) + seq![','] + spec_emit_field(f[1]),
{
    assert(f.take(1) =~= seq![f[0]]);
    assert(spec_emit_fields(f.take(1)) == spec_emit_field(f[0]));
    assert(f.take(2).drop_last() =~= f.take(1));
    assert(f.take(2).last() == f[1]);
    assert(spec_emit_fields(f.take(2)) == spec_emit_fields(f.take(1)) + seq![','] + spec_emit_field(f[1]));
    assert(f.take(2) =~= f);
}

pub proof fn lemma_emit_fields_3(f: Seq<(String, Json)>)
    requires
        f.len() == 3,
    ensures
        spec_emit_fields(f) == spec_emit_field(f[0]) + seq![','] + spec_emit_field(f[1]) + seq![','] + spec_emit_field(f[2]),
{
    assert(f.take(1) =~= seq![f[0]]);
    assert(spec_emit_fields(f.take(1)) == spec_emit_field(f[0]));
    assert(f.take(2).drop_last() =~= f.take(1));
    assert(f.take(2).last() == f[1]);
    assert(spec_emit_fields(f.take(2)) == spec_emit_fields(f.take(1)) + seq![','] + spec_emit_field(f[1]));
    assert(f.take(3).drop_last() =~= f.take(2));
    assert(f.take(3).last() == f[2]);
    assert(spec_emit_fields(f.take(3)) == spec_emit_fields(f.take(2)) + seq![','] + spec_emit_field(f[2]));
    assert(f.take(3) =~= f);
}

pub proof fn lemma_emit_fields_4(f: Seq<(String, Json)>)
    requires
        f.len() == 4,
    ensures
        spec_emit_fields(f) == spec_emit_field(f[0]) + seq![','] + spec_emit_field(f[1]) + seq![','] + spec_emit_field(f[2]) + seq![','] + spec_emit_field(f[3]),
{
    assert(f.take(1) =~= seq![f[0]]);
    assert(spec_emit_fields(f.take(1)) == spec_emit_field(f[0]));
    assert(f.take(2).drop_last() =~= f.take(1));
    assert(f.take(2).last() == f[1]);
    assert(spec_emit_fields(f.take(2)) == spec_emit_fields(f.take(1)) + seq![','] + spec_emit_field(f[1]));
    assert(f.take(3).drop_last() =~= f.take(2));
    assert(f.take(3).last() == f[2]);
    assert(spec_emit_fields(f.take(3)) == spec_emit_fields(f.take(2)) + seq![','] + spec_emit_field(f[2]));
    assert(f.take(4).drop_last() =~= f.take(3));
    assert(f.take(4).last() == f[3]);
    assert(spec_emit_fields(f.take(4)) == spec_emit_fields(f.take(3)) + seq![','] + spec_emit_field(f[3]));
    assert(f.take(4) =~= f);
}

pub proof fn lemma_emit_fields_6(f: Seq<(String, Json)>)
    requires
        f.len() == 6,
    ensures
        spec_emit_fields(f) == spec_emit_field(f[0]) + seq![','] + spec_emit_field(f[1]) + seq![','] + spec_emit_field(f[2]) + seq![','] + spec_emit_field(f[3]) + seq![','] + spec_emit_field(f[4]) + seq![','] + spec_emit_field(f[5]),
{
    assert(f.take(1) =~= seq![f[0]]);
    assert(spec_emit_fields(f.take(1)) == spec_emit_field(f[0]));
    assert(f.take(2).drop_last() =~= f.take(1));
    assert(f.take(2).last() == f[1]);
    assert(spec_emit_fields(f.take(2)) == spec_emit_fields(f.take(1)) + seq![','] + spec_emit_field(f[1]));
    assert(f.take(3).drop_last() =~= f.take(2));
    assert(f.take(3).last() == f[2]);
    assert(spec_emit_fields(f.take(3)) == spec_emit_fields(f.take(2)) + seq![','] + spec_emit_field(f[2]));
    assert(f.take(4).drop_last() =~= f.take(3));
    assert(f.take(4).last() == f[3]);
    assert(spec_emit_fields(f.take(4)) == spec_emit_fields(f.take(3)) + seq![','] + spec_emit_field(f[3]));
    assert(f.take(5).drop_last() =~= f.take(4));
    assert(f.take(5).last() == f[4]);
    assert(spec_emit_fields(f.take(5)) == spec_emit_fields(f.take(4)) + seq![','] + spec_emit_field(f[4]));
    assert(f.take(6).drop_last() =~= f.take(5));
    assert(f.take(6).last() == f[5]);
    assert(spec_emit_fields(f.take(6)) == spec_emit_fields(f.take(5)) + seq![','] + spec_emit_field(f[5]));
    assert(f.take(6) =~= f);
}

pub proof fn lemma_emit_items_1(f: Seq<Json>)
    requires
        f.len() == 1,
    ensures
        spec_emit_items(f) == spec_emit(f[0]),
{
    assert(f.take(1) =~= seq![f[0]]);
    assert(spec_emit_items(f.take(1)) == spec_emit(f[0]));
    assert(f.take(1) =~= f);
}

pub proof fn lemma_emit_items_2(f: Seq<Json>)
    requires
        f.len() == 2,
    ensures
        spec_emit_items(f) == spec_emit(f[0]) + seq![','] + spec_emit(f[1]),
{
    assert(f.take(1) =~= seq![f[0]]);
    assert(spec_emit_items(f.take(1)) == spec_emit(f[0]));
    assert(f.take(2).drop_last() =~= f.take(1));
    assert(f.take(2).last() == f[1]);
    assert(spec_emit_items(f.take(2)) == spec_emit_items(f.take(1)) + seq![','] + spec_emit(f[1]));
    assert(f.take(2) =~= f);
}

pub proof fn lemma_emit_items_3(f: Seq<Json>)
    requires
        f.len() == 3,
    ensures
        spec_emit_items(f) == spec_emit(f[0]) + seq![','] + spec_emit(f[1]) + seq![','] + spec_emit(f[2]),
{
    assert(f.take(1) =~= seq![f[0]]);
    assert(spec_emit_items(f.take(1)) == spec_emit(f[0]));
    assert(f.take(2).drop_last() =~= f.take(1));
    assert(f.take(2).last() == f[1]);
    assert(spec_emit_items(f.take(2)) == spec_emit_items(f.take(1)) + seq![','] + spec_emit(f[1]));
    assert(f.take(3).drop_last() =~= f.take(2));
    assert(f.take(3).last() == f[2]);
    assert(spec_emit_items(f.take(3)) == spec_emit_items(f.take(2)) + seq![','] + spec_emit(f[2]));
    assert(f.take(3) =~= f);
}

pub proof fn lemma_emit_items_4(f: Seq<Json>)
    requires
        f.len() == 4,
    ensures
        spec_emit_items(f) == spec_emit(f[0]) + seq![','] + spec_emit(f[1]) + seq![','] + spec_emit(f[2]) + seq![','] + spec_emit(f[3]),
{
    assert(f.take(1) =~= seq![f[0]]);
    assert(spec_emit_items(f.take(1)) == spec_emit(f[0]));
    assert(f.take(2).drop_last() =~= f.take(1));
    assert(f.take(2).last() == f[1]);
    assert(spec_emit_items(f.take(2)) == spec_emit_items(f.take(1)) + seq![','] + spec_emit(f[1]));
    assert(f.take(3).drop_last() =~= f.take(2));
    assert(f.take(3).last() == f[2]);
    assert(spec_emit_items(f.take(3)) == spec_emit_items(f.take(2)) + seq![','] + spec_emit(f[2]));
    assert(f.take(4).drop_last() =~= f.take(3));
    assert(f.take(4).last() == f[3]);
    assert(spec_emit_items(f.take(4)) == spec_emit_items(f.take(3)) + seq![','] + spec_emit(f[3]));
    assert(f.take(4) =~= f);
}

pub proof fn lemma_emit_items_6(f: Seq<Json>)
    requires
        f.len() == 6,
    ensures
        spec_emit_items(f) == spec_emit(f[0]) + seq![','] + spec_emit(f[1]) + seq![','] + spec_emit(f[2]) + seq![','] + spec_emit(f[3]) + seq![','] + spec_emit(f[4]) + seq![','] + spec_emit(f[5]),
{
    assert(f.take(1) =~= seq![f[0]]);
    assert(spec_emit_items(f.take(1)) == spec_emit(f[0]));
    assert(f.take(2).drop_last() =~= f.take(1));
    assert(f.take(2).last() == f[1]);
    assert(spec_emit_items(f.take(2)) == spec_emit_items(f.take(1)) + seq![','] + spec_emit(f[1]));
    assert(f.take(3).drop_last() =~= f.take(2));
    assert(f.take(3).last() == f[2]);
    assert(spec_emit_items(f.take(3)) == spec_emit_items(f.take(2)) + seq![','] + spec_emit(f[2]));
    assert(f.take(4).drop_last() =~= f.take(3));
    assert(f.take(4).last() == f[3]);
    assert(spec_emit_items(f.take(4)) == spec_emit_items(f.take(3)) + seq![','] + spec_emit(f[3]));
    assert(f.take(5).drop_last() =~= f.take(4));
    assert(f.take(5).last() == f[4]);
    assert(spec_emit_items(f.take(5)) == spec_emit_items(f.take(4)) + seq![','] + spec_emit(f[4]));
    assert(f.take(6).drop_last() =~= f.take(5));
    assert(f.take(6).last() == f[5]);
    assert(spec_emit_items(f.take(6)) == spec_emit_items(f.take(5)) + seq![','] + spec_emit(f[5]));
    assert(f.take(6) =~= f);
}

} // verus!
