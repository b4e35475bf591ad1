//! A JSON value tree and its exact text encoding.
//!
//! OCPP frames are JSON arrays; the simulator builds them as [`Json`] values
//! and serializes them with [`write_json`].  The encoding is pinned down, to
//! the character, by the specification function [`json_text`]: compact form,
//! no whitespace, keys and strings escaped the way [`esc_char`] describes.

use vstd::prelude::*;
use crate::strutil::push_char;

verus! {

/// An owned JSON value.
///
/// Numbers are split in two: `Int` holds any integer that fits an `i64`
/// (the only numbers the simulator itself produces), while `NumRaw` carries
/// the verbatim token of any other number met while parsing, so that it can
/// be re-emitted unchanged.
#[derive(Debug, PartialEq, Eq)]
pub enum Json {
    Null,
    Bool(bool),
    Int(i64),
    NumRaw(String),
    Str(String),
    Arr(Vec<Json>),
    Obj(Vec<(String, Json)>),
}

/// The mathematical model of a JSON value: strings are character sequences,
/// collections are `Seq`s.
#[verifier::ext_equal]
pub enum JsonV {
    Null,
    Bool(bool),
    Int(int),
    NumRaw(Seq<char>),
    Str(Seq<char>),
    Arr(Seq<JsonV>),
    Obj(Seq<(Seq<char>, JsonV)>),
}

/// The model of a JSON value.
pub open spec fn json_view(j: Json) -> JsonV
    decreases j,
{
    match j {
        Json::Null => JsonV::Null,
        Json::Bool(b) => JsonV::Bool(b),
        Json::Int(i) => JsonV::Int(i as int),
        Json::NumRaw(s) => JsonV::NumRaw(s@),
        Json::Str(s) => JsonV::Str(s@),
        Json::Arr(items) => JsonV::Arr(views_of(items@)),
        Json::Obj(members) => JsonV::Obj(member_views_of(members@)),
    }
}

/// The models of a sequence of JSON values, in order.
pub open spec fn views_of(items: Seq<Json>) -> Seq<JsonV>
    decreases items,
{
    if items.len() == 0 {
        Seq::empty()
    } else {
        seq![json_view(items[0])] + views_of(items.drop_first())
    }
}

/// The models of a sequence of object members, in order.
pub open spec fn member_views_of(members: Seq<(String, Json)>) -> Seq<(Seq<char>, JsonV)>
    decreases members,
{
    if members.len() == 0 {
        Seq::empty()
    } else {
        seq![(members[0].0@, json_view(members[0].1))] + member_views_of(members.drop_first())
    }
}

/// `views_of` maps each element to its model.
pub proof fn lemma_views_of(items: Seq<Json>)
    ensures
        views_of(items).len() == items.len(),
        forall|i: int| 0 <= i < items.len() ==> views_of(items)[i] == json_view(items[i]),
    decreases items.len(),
{
    if items.len() > 0 {
        lemma_views_of(items.drop_first());
    }
}

/// `member_views_of` maps each member to its model.
pub proof fn lemma_member_views_of(members: Seq<(String, Json)>)
    ensures
        member_views_of(members).len() == members.len(),
        forall|i: int| 0 <= i < members.len() ==> member_views_of(members)[i] == (
            members[i].0@,
            json_view(members[i].1),
        ),
    decreases members.len(),
{
    if members.len() > 0 {
        lemma_member_views_of(members.drop_first());
    }
}

impl View for Json {
    type V = JsonV;

    open spec fn view(&self) -> JsonV {
        json_view(*self)
    }
}

/// The decimal digit character for `d`.
pub open spec fn dec_digit(d: int) -> char
    recommends
        0 <= d < 10,
{
    if d == 0 { '0' }
    else if d == 1 { '1' }
    else if d == 2 { '2' }
    else if d == 3 { '3' }
    else if d == 4 { '4' }
    else if d == 5 { '5' }
    else if d == 6 { '6' }
    else if d == 7 { '7' }
    else if d == 8 { '8' }
    else { '9' }
}

/// The lowercase hexadecimal digit character for `d`.
pub open spec fn hex_digit(d: int) -> char
    recommends
        0 <= d < 16,
{
    if d < 10 { dec_digit(d) }
    else if d == 10 { 'a' }
    else if d == 11 { 'b' }
    else if d == 12 { 'c' }
    else if d == 13 { 'd' }
    else if d == 14 { 'e' }
    else { 'f' }
}

/// The decimal representation of a non-negative integer, most significant
/// digit first, with no leading zeros (`0` itself is the single digit `0`).
pub open spec fn dec_rep(n: int) -> Seq<char>
    recommends
        n >= 0,
    decreases n,
{
    if n < 10 {
        seq![dec_digit(n)]
    } else {
        dec_rep(n / 10) + seq![dec_digit(n % 10)]
    }
}

/// The decimal representation of an integer, with a leading minus sign when
/// negative.
pub open spec fn int_text(i: int) -> Seq<char> {
    if i < 0 {
        seq!['-'] + dec_rep(-i)
    } else {
        dec_rep(i)
    }
}

/// How a single character appears inside a JSON string literal: quote and
/// backslash get a backslash escape, the named control characters use their
/// short forms, any other control character becomes `\u00xx`, and everything
/// else stands for itself.
pub open spec fn esc_char(c: char) -> Seq<char> {
    if c == '"' { seq!['\\', '"'] }
    else if c == '\\' { seq!['\\', '\\'] }
    else if c == '\u{08}' { seq!['\\', 'b'] }
    else if c == '\t' { seq!['\\', 't'] }
    else if c == '\n' { seq!['\\', 'n'] }
    else if c == '\u{0c}' { seq!['\\', 'f'] }
    else if c == '\r' { seq!['\\', 'r'] }
    else if (c as u32) < 0x20 {
        seq!['\\', 'u', '0', '0', hex_digit((c as u32) as int / 16), hex_digit((c as u32) as int % 16)]
    } else {
        seq![c]
    }
}

/// The body of a JSON string literal: each character escaped.
pub open spec fn esc_str(s: Seq<char>) -> Seq<char>
    decreases s.len(),
{
    if s.len() == 0 {
        Seq::empty()
    } else {
        esc_char(s[0]) + esc_str(s.drop_first())
    }
}

/// A complete JSON string literal, quotes included.
pub open spec fn str_lit_text(s: Seq<char>) -> Seq<char> {
    seq!['"'] + esc_str(s) + seq!['"']
}

/// The compact text of a JSON value: no whitespace, `,` and `:` as the only
/// separators, object members in the order the value holds them.
pub open spec fn json_text(v: JsonV) -> Seq<char>
    decreases v,
{
    match v {
        JsonV::Null => seq!['n', 'u', 'l', 'l'],
        JsonV::Bool(b) => if b {
            seq!['t', 'r', 'u', 'e']
        } else {
            seq!['f', 'a', 'l', 's', 'e']
        },
        JsonV::Int(i) => int_text(i),
        JsonV::NumRaw(s) => s,
        JsonV::Str(s) => str_lit_text(s),
        JsonV::Arr(items) => seq!['['] + arr_items_text(items) + seq![']'],
        JsonV::Obj(members) => seq!['{'] + obj_members_text(members) + seq!['}'],
    }
}

/// The comma-separated texts of an array's items.
pub open spec fn arr_items_text(items: Seq<JsonV>) -> Seq<char>
    decreases items,
{
    if items.len() == 0 {
        Seq::empty()
    } else if items.len() == 1 {
        json_text(items[0])
    } else {
        json_text(items[0]) + seq![','] + arr_items_text(items.drop_first())
    }
}

/// The comma-separated `"key":value` texts of an object's members.
pub open spec fn obj_members_text(members: Seq<(Seq<char>, JsonV)>) -> Seq<char>
    decreases members,
{
    if members.len() == 0 {
        Seq::empty()
    } else {
        let head = str_lit_text(members[0].0) + seq![':'] + json_text(members[0].1);
        if members.len() == 1 {
            head
        } else {
            head + seq![','] + obj_members_text(members.drop_first())
        }
    }
}

/// Appending one more item extends the joined text at its end.
proof fn lemma_arr_items_snoc(items: Seq<JsonV>, x: JsonV)
    ensures
        arr_items_text(items.push(x)) == if items.len() == 0 {
            json_text(x)
        } else {
            arr_items_text(items) + seq![','] + json_text(x)
        },
    decreases items.len(),
{
    if items.len() == 0 {
        assert(items.push(x) =~= seq![x]);
        assert(arr_items_text(items.push(x)) == json_text(x));
    } else {
        assert(items.push(x).drop_first() =~= items.drop_first().push(x));
        lemma_arr_items_snoc(items.drop_first(), x);
        if items.len() == 1 {
            assert(arr_items_text(items) == json_text(items[0]));
        } else {
            assert(arr_items_text(items) == json_text(items[0]) + seq![',']
                + arr_items_text(items.drop_first()));
        }
    }
}

/// Appending one more member extends the joined text at its end.
proof fn lemma_obj_members_snoc(members: Seq<(Seq<char>, JsonV)>, k: Seq<char>, v: JsonV)
    ensures
        obj_members_text(members.push((k, v))) == if members.len() == 0 {
            str_lit_text(k) + seq![':'] + json_text(v)
        } else {
            obj_members_text(members) + seq![','] + str_lit_text(k) + seq![':'] + json_text(v)
        },
    decreases members.len(),
{
    if members.len() == 0 {
        assert(members.push((k, v)) =~= seq![(k, v)]);
    } else {
        assert(members.push((k, v)).drop_first() =~= members.drop_first().push((k, v)));
        lemma_obj_members_snoc(members.drop_first(), k, v);
    }
}

/// Escaping one more character extends the escaped text at its end.
proof fn lemma_esc_str_snoc(s: Seq<char>, c: char)
    ensures
        esc_str(s.push(c)) == esc_str(s) + esc_char(c),
    decreases s.len(),
{
    if s.len() == 0 {
        assert(s.push(c) =~= seq![c]);
        assert(seq![c].drop_first() =~= Seq::<char>::empty());
        assert(esc_str(s.push(c)) == esc_char(c) + esc_str(seq![c].drop_first()));
        assert(esc_char(c) + Seq::<char>::empty() =~= esc_char(c));
        assert(esc_str(s) + esc_char(c) =~= esc_char(c));
    } else {
        assert(s.push(c).drop_first() =~= s.drop_first().push(c));
        lemma_esc_str_snoc(s.drop_first(), c);
        assert(esc_str(s.push(c)) =~= esc_str(s) + esc_char(c));
    }
}

/// The decimal digit character for `d`.
pub fn dec_digit_char(d: u64) -> (c: char)
    requires
        d < 10,
    ensures
        c == dec_digit(d as int),
{
    match d {
        0 => '0',
        1 => '1',
        2 => '2',
        3 => '3',
        4 => '4',
        5 => '5',
        6 => '6',
        7 => '7',
        8 => '8',
        _ => '9',
    }
}

/// The lowercase hexadecimal digit character for `d`.
fn hex_digit_char(d: u32) -> (c: char)
    requires
        d < 16,
    ensures
        c == hex_digit(d as int),
{
    match d {
        0 => '0',
        1 => '1',
        2 => '2',
        3 => '3',
        4 => '4',
        5 => '5',
        6 => '6',
        7 => '7',
        8 => '8',
        9 => '9',
        10 => 'a',
        11 => 'b',
        12 => 'c',
        13 => 'd',
        14 => 'e',
        _ => 'f',
    }
}

/// Appends the decimal representation of `n` to `out`.
pub fn write_u64_dec(n: u64, out: &mut String)
    ensures
        final(out)@ == old(out)@ + dec_rep(n as int),
    decreases n,
{
    if n < 10 {
        push_char(out, dec_digit_char(n));
    } else {
        write_u64_dec(n / 10, out);
        push_char(out, dec_digit_char(n % 10));
    }
}

/// Appends the decimal representation of `i`, sign included, to `out`.
fn write_i64(i: i64, out: &mut String)
    ensures
        final(out)@ == old(out)@ + int_text(i as int),
{
    if i < 0 {
        push_char(out, '-');
        // magnitude of `i`, computed without overflowing `i64::MIN`
        let m: u64 = (-(i + 1)) as u64 + 1;
        assert(m as int == -(i as int));
        write_u64_dec(m, out);
        assert(out@ =~= old(out)@ + int_text(i as int));
    } else {
        write_u64_dec(i as u64, out);
    }
}

/// Appends the escaped body of a string literal (no quotes) to `out`.
fn write_escaped(s: &str, out: &mut String)
    ensures
        final(out)@ == old(out)@ + esc_str(s@),
{
    let n = s.unicode_len();
    let mut i: usize = 0;
    while i < n
        invariant
            n == s@.len(),
            i <= n,
            out@ == old(out)@ + esc_str(s@.subrange(0, i as int)),
        decreases n - i,
    {
        let c = s.get_char(i);
        proof {
            lemma_esc_str_snoc(s@.subrange(0, i as int), c);
            assert(s@.subrange(0, i as int).push(c) =~= s@.subrange(0, i as int + 1));
        }
        let u = c as u32;
        if c == '"' {
            push_char(out, '\\');
            push_char(out, '"');
        } else if c == '\\' {
            push_char(out, '\\');
            push_char(out, '\\');
        } else if c == '\u{08}' {
            push_char(out, '\\');
            push_char(out, 'b');
        } else if c == '\t' {
            push_char(out, '\\');
            push_char(out, 't');
        } else if c == '\n' {
            push_char(out, '\\');
            push_char(out, 'n');
        } else if c == '\u{0c}' {
            push_char(out, '\\');
            push_char(out, 'f');
        } else if c == '\r' {
            push_char(out, '\\');
            push_char(out, 'r');
        } else if u < 0x20 {
            push_char(out, '\\');
            push_char(out, 'u');
            push_char(out, '0');
            push_char(out, '0');
            push_char(out, hex_digit_char(u / 16));
            push_char(out, hex_digit_char(u % 16));
        } else {
            push_char(out, c);
        }
        i = i + 1;
        assert(out@ =~= old(out)@ + esc_str(s@.subrange(0, i as int)));
    }
    assert(s@.subrange(0, n as int) =~= s@);
}

/// Appends a complete string literal, quotes included, to `out`.
fn write_str_lit(s: &str, out: &mut String)
    ensures
        final(out)@ == old(out)@ + str_lit_text(s@),
{
    push_char(out, '"');
    write_escaped(s, out);
    push_char(out, '"');
    assert(out@ =~= old(out)@ + str_lit_text(s@));
}

/// Appends the compact text of `j` to `out`; [`json_text`] gives the exact
/// characters.
pub fn write_json(j: &Json, out: &mut String)
    ensures
        final(out)@ == old(out)@ + json_text(j@),
    decreases j,
{
    match j {
        Json::Null => {
            proof {
                reveal_strlit("null");
            }
            out.append("null");
            assert(out@ =~= old(out)@ + json_text(j@));
        }
        Json::Bool(b) => {
            proof {
                reveal_strlit("true");
                reveal_strlit("false");
            }
            if *b {
                out.append("true");
            } else {
                out.append("false");
            }
            assert(out@ =~= old(out)@ + json_text(j@));
        }
        Json::Int(i) => {
            write_i64(*i, out);
        }
        Json::NumRaw(s) => {
            out.append(s.as_str());
        }
        Json::Str(s) => {
            write_str_lit(s.as_str(), out);
        }
        Json::Arr(items) => {
            push_char(out, '[');
            let ghost base = out@;
            let ghost s = views_of(items@);
            proof {
                lemma_views_of(items@);
            }
            let mut i: usize = 0;
            while i < items.len()
                invariant
                    i <= items@.len(),
                    *j == Json::Arr(*items),
                    s == views_of(items@),
                    s.len() == items@.len(),
                    forall|k: int| 0 <= k < items@.len() ==> s[k] == json_view(items@[k]),
                    out@ == base + arr_items_text(s.subrange(0, i as int)),
                decreases items@.len() - i,
            {
                if i > 0 {
                    push_char(out, ',');
                }
                proof {
                    assert(j->Arr_0 == *items);
                    assert(decreases_to!(*j => j->Arr_0));
                    assert(decreases_to!(*items => items@));
                    assert(decreases_to!(items@ => items@[i as int]));
                }
                write_json(&items[i], out);
                proof {
                    lemma_arr_items_snoc(s.subrange(0, i as int), s[i as int]);
                    assert(s.subrange(0, i as int).push(s[i as int]) =~= s.subrange(
                        0,
                        i as int + 1,
                    ));
                    assert(out@ =~= base + arr_items_text(s.subrange(0, i as int + 1)));
                }
                i = i + 1;
            }
            push_char(out, ']');
            proof {
                assert(s.subrange(0, s.len() as int) =~= s);
                assert(out@ =~= old(out)@ + json_text(j@));
            }
        }
        Json::Obj(members) => {
            push_char(out, '{');
            let ghost base = out@;
            let ghost s = member_views_of(members@);
            proof {
                lemma_member_views_of(members@);
            }
            let mut i: usize = 0;
            while i < members.len()
                invariant
                    i <= members@.len(),
                    *j == Json::Obj(*members),
                    s == member_views_of(members@),
                    s.len() == members@.len(),
                    forall|k: int| 0 <= k < members@.len() ==> s[k] == (
                        members@[k].0@,
                        json_view(members@[k].1),
                    ),
                    out@ == base + obj_members_text(s.subrange(0, i as int)),
                decreases members@.len() - i,
            {
                if i > 0 {
                    push_char(out, ',');
                }
                write_str_lit(members[i].0.as_str(), out);
                push_char(out, ':');
                proof {
                    assert(j->Obj_0 == *members);
                    assert(decreases_to!(*j => j->Obj_0));
                    assert(decreases_to!(*members => members@));
                    assert(decreases_to!(members@ => members@[i as int]));
                    assert(decreases_to!(members@[i as int] => members@[i as int].1));
                }
                write_json(&members[i].1, out);
                proof {
                    lemma_obj_members_snoc(s.subrange(0, i as int), s[i as int].0, s[i as int].1);
                    assert(s.subrange(0, i as int).push(s[i as int]) =~= s.subrange(
                        0,
                        i as int + 1,
                    ));
                    assert(out@ =~= base + obj_members_text(s.subrange(0, i as int + 1)));
                }
                i = i + 1;
            }
            push_char(out, '}');
            proof {
                assert(s.subrange(0, s.len() as int) =~= s);
                assert(out@ =~= old(out)@ + json_text(j@));
            }
        }
    }
}

/// The value under the first member named `k`, if the value is an object
/// with such a member.
pub open spec fn obj_lookup(v: JsonV, k: Seq<char>) -> Option<JsonV> {
    match v {
        JsonV::Obj(members) => obj_members_lookup(members, k),
        _ => None,
    }
}

/// The value under the first member named `k`.
pub open spec fn obj_members_lookup(members: Seq<(Seq<char>, JsonV)>, k: Seq<char>) -> Option<
    JsonV,
>
    decreases members.len(),
{
    if members.len() == 0 {
        None
    } else if members[0].0 == k {
        Some(members[0].1)
    } else {
        obj_members_lookup(members.drop_first(), k)
    }
}

/// Looks up the first member named `key` of an object.
pub fn obj_get<'a>(j: &'a Json, key: &str) -> (r: Option<&'a Json>)
    ensures
        match r {
            Some(v) => obj_lookup(json_view(*j), key@) == Some(json_view(*v)),
            None => obj_lookup(json_view(*j), key@) is None,
        },
{
    let members = match j {
        Json::Obj(members) => members,
        _ => {
            return None;
        }
    };
    proof {
        lemma_member_views_of(members@);
    }
    let ghost mv = member_views_of(members@);
    assert(json_view(*j) == JsonV::Obj(mv));
    let n = members.len();
    assert(mv.subrange(0, n as int) =~= mv);
    let mut i: usize = 0;
    while i < n
        invariant
            n == members@.len(),
            i <= n,
            mv == member_views_of(members@),
            json_view(*j) == JsonV::Obj(mv),
            mv.len() == n,
            forall|x: int| 0 <= x < n ==> mv[x] == (members@[x].0@, json_view(members@[x].1)),
            obj_members_lookup(mv, key@) == obj_members_lookup(mv.subrange(i as int, n as int), key@),
        decreases n - i,
    {
        proof {
            assert(mv.subrange(i as int, n as int)[0] == mv[i as int]);
        }
        if crate::strutil::str_eq(members[i].0.as_str(), key) {
            return Some(&members[i].1);
        }
        proof {
            assert(mv.subrange(i as int, n as int).drop_first() =~= mv.subrange(
                i as int + 1,
                n as int,
            ));
        }
        i = i + 1;
    }
    proof {
        assert(mv.subrange(n as int, n as int) =~= Seq::<(Seq<char>, JsonV)>::empty());
    }
    None
}

/// The compact text of `j` as a fresh string.
pub fn json_to_string(j: &Json) -> (r: String)
    ensures
        r@ == json_text(j@),
{
    let mut out = String::new();
    write_json(j, &mut out);
    out
}

} // verus!
