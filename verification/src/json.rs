//! The wire value model.
//!
//! `JsonValue` is the executable form of a gateway JSON document; `JsonSpec`
//! is its mathematical view.  `append_json` renders a value as compact JSON
//! text, and the rendering is pinned, character for character, by the
//! `json_text` specification.  Numbers on this wire are either unsigned
//! integers or fixed-point coordinates held in millionths of a degree, which
//! is all the gateway contract uses.

use vstd::prelude::*;

use crate::num::{append_dec, append_digit, append_micro, dec_digit, dec_text, micro_text};

verus! {

/// Mathematical model of a wire JSON document.
pub ghost enum JsonSpec {
    Null,
    Bool(bool),
    UInt(int),
    Micro(int),
    Str(Seq<char>),
    Arr(Seq<JsonSpec>),
    Obj(Seq<(Seq<char>, JsonSpec)>),
}

/// Executable wire JSON document; its view is a `JsonSpec`.
pub enum JsonValue {
    Null,
    Bool(bool),
    UInt(u64),
    /// A fixed-point number: the wire value is this amount of millionths.
    Micro(i64),
    Str(String),
    Arr(Vec<JsonValue>),
    Obj(Vec<(String, JsonValue)>),
}

pub open spec fn jv_view(v: JsonValue) -> JsonSpec
    decreases v,
{
    match v {
        JsonValue::Null => JsonSpec::Null,
        JsonValue::Bool(b) => JsonSpec::Bool(b),
        JsonValue::UInt(n) => JsonSpec::UInt(n as int),
        JsonValue::Micro(m) => JsonSpec::Micro(m as int),
        JsonValue::Str(s) => JsonSpec::Str(s@),
        JsonValue::Arr(vs) => JsonSpec::Arr(arr_view(vs@)),
        JsonValue::Obj(ps) => JsonSpec::Obj(obj_view(ps@)),
    }
}

pub open spec fn arr_view(vs: Seq<JsonValue>) -> Seq<JsonSpec>
    decreases vs,
{
    if vs.len() == 0 {
        Seq::empty()
    } else {
        arr_view(vs.drop_last()).push(jv_view(vs.last()))
    }
}

pub open spec fn obj_view(ps: Seq<(String, JsonValue)>) -> Seq<(Seq<char>, JsonSpec)>
    decreases ps,
{
    if ps.len() == 0 {
        Seq::empty()
    } else {
        obj_view(ps.drop_last()).push((ps.last().0@, jv_view(ps.last().1)))
    }
}

impl View for JsonValue {
    type V = JsonSpec;

    open spec fn view(&self) -> JsonSpec {
        jv_view(*self)
    }
}

pub proof fn lemma_arr_view_index(vs: Seq<JsonValue>)
    ensures
        arr_view(vs).len() == vs.len(),
        forall|i: int| 0 <= i < vs.len() ==> arr_view(vs)[i] == jv_view(vs[i]),
    decreases vs.len(),
{
    if vs.len() > 0 {
        lemma_arr_view_index(vs.drop_last());
    }
}

pub proof fn lemma_obj_view_index(ps: Seq<(String, JsonValue)>)
    ensures
        obj_view(ps).len() == ps.len(),
        forall|i: int|
            0 <= i < ps.len() ==> obj_view(ps)[i] == (ps[i].0@, jv_view(ps[i].1)),
    decreases ps.len(),
{
    if ps.len() > 0 {
        lemma_obj_view_index(ps.drop_last());
    }
}

/// The hexadecimal digit character for a value in `0 ..= 15`.
pub open spec fn hex_digit(d: int) -> char {
    if d < 10 {
        dec_digit(d)
    } else if d == 10 {
        'a'
    } else if d == 11 {
        'b'
    } else if d == 12 {
        'c'
    } else if d == 13 {
        'd'
    } else if d == 14 {
        'e'
    } else {
        'f'
    }
}

/// How one character is written inside a JSON string literal: quotes and
/// backslashes get a backslash escape, control characters a `\u00..` escape,
/// every other character stands for itself.
pub open spec fn esc_char(c: char) -> Seq<char> {
    if c == '"' {
        seq!['\\', '"']
    } else if c == '\\' {
        seq!['\\', '\\']
    } else if (c as int) < 32 {
        seq!['\\', 'u', '0', '0', hex_digit(c as int / 16), hex_digit(c as int % 16)]
    } else {
        seq![c]
    }
}

pub open spec fn esc_text(t: Seq<char>) -> Seq<char>
    decreases t.len(),
{
    if t.len() == 0 {
        Seq::empty()
    } else {
        esc_text(t.drop_last()) + esc_char(t.last())
    }
}

/// A JSON string literal: the escaped text between double quotes.
pub open spec fn str_text(t: Seq<char>) -> Seq<char> {
    seq!['"'] + esc_text(t) + seq!['"']
}

/// The compact JSON rendering of a wire document.
pub open spec fn json_text(v: JsonSpec) -> Seq<char>
    decreases v,
{
    match v {
        JsonSpec::Null => "null"@,
        JsonSpec::Bool(b) => if b {
            "true"@
        } else {
            "false"@
        },
        JsonSpec::UInt(n) => dec_text(n),
        JsonSpec::Micro(m) => micro_text(m),
        JsonSpec::Str(t) => str_text(t),
        JsonSpec::Arr(vs) => "["@ + arr_text(vs) + "]"@,
        JsonSpec::Obj(ps) => "{"@ + obj_text(ps) + "}"@,
    }
}

pub open spec fn arr_text(vs: Seq<JsonSpec>) -> Seq<char>
    decreases vs,
{
    if vs.len() == 0 {
        Seq::empty()
    } else if vs.len() == 1 {
        json_text(vs[0])
    } else {
        arr_text(vs.drop_last()) + ","@ + json_text(vs.last())
    }
}

pub open spec fn pair_text(p: (Seq<char>, JsonSpec)) -> Seq<char>
    decreases p,
{
    str_text(p.0) + ":"@ + json_text(p.1)
}

pub open spec fn obj_text(ps: Seq<(Seq<char>, JsonSpec)>) -> Seq<char>
    decreases ps,
{
    if ps.len() == 0 {
        Seq::empty()
    } else if ps.len() == 1 {
        pair_text(ps[0])
    } else {
        obj_text(ps.drop_last()) + ","@ + pair_text(ps.last())
    }
}

/// Relies on `String::push`: appends exactly the one character.
#[verifier::external_body]
pub(crate) fn push_char(out: &mut String, c: char)
    ensures
        final(out)@ == old(out)@ + seq![c],
{
    out.push(c);
}

/// Appends the hexadecimal digit character for `d`.
fn append_hex_digit(out: &mut String, d: u32)
    requires
        d < 16,
    ensures
        final(out)@ == old(out)@ + seq![hex_digit(d as int)],
{
    if d < 10 {
        append_digit(out, d as u64);
    } else {
        proof {
            reveal_strlit("a");
            reveal_strlit("b");
            reveal_strlit("c");
            reveal_strlit("d");
            reveal_strlit("e");
            reveal_strlit("f");
        }
        match d {
            10 => out.append("a"),
            11 => out.append("b"),
            12 => out.append("c"),
            13 => out.append("d"),
            14 => out.append("e"),
            _ => out.append("f"),
        }
        proof {
            assert(final(out)@ =~= old(out)@ + seq![hex_digit(d as int)]);
        }
    }
}

/// Character-for-character equality of two string slices.
pub fn str_eq(a: &str, b: &str) -> (r: bool)
    ensures
        r == (a@ == b@),
{
    let n = a.unicode_len();
    let m = b.unicode_len();
    if n != m {
        return false;
    }
    let mut i: usize = 0;
    while i < n
        invariant
            n == a@.len(),
            n == b@.len(),
            i <= n,
            forall|j: int| 0 <= j < i ==> a@[j] == b@[j],
        decreases n - i,
    {
        if a.get_char(i) != b.get_char(i) {
            return false;
        }
        i += 1;
    }
    proof {
        assert(a@ =~= b@);
    }
    true
}

/// Appends the text with every character escaped as JSON requires.
pub fn append_escaped(out: &mut String, s: &str)
    ensures
        final(out)@ == old(out)@ + esc_text(s@),
{
    let n = s.unicode_len();
    let mut i: usize = 0;
    while i < n
        invariant
            n == s@.len(),
            i <= n,
            out@ == old(out)@ + esc_text(s@.take(i as int)),
        decreases n - i,
    {
        let c = s.get_char(i);
        if c == '"' {
            proof {
                reveal_strlit("\\\"");
            }
            out.append("\\\"");
        } else if c == '\\' {
            proof {
                reveal_strlit("\\\\");
            }
            out.append("\\\\");
        } else if (c as u32) < 32 {
            proof {
                reveal_strlit("\\u00");
            }
            out.append("\\u00");
            let v: u32 = c as u32;
            append_hex_digit(out, v / 16);
            append_hex_digit(out, v % 16);
        } else {
            push_char(out, c);
        }
        proof {
            assert(s@.take(i + 1).drop_last() =~= s@.take(i as int));
            assert(s@.take(i + 1).last() == s@[i as int]);
            assert(out@ =~= old(out)@ + esc_text(s@.take(i + 1)));
        }
        i += 1;
    }
    proof {
        assert(s@.take(n as int) =~= s@);
    }
}

/// Appends a JSON string literal holding the given text.
pub fn append_json_string(out: &mut String, s: &str)
    ensures
        final(out)@ == old(out)@ + str_text(s@),
{
    proof {
        reveal_strlit("\"");
    }
    out.append("\"");
    append_escaped(out, s);
    out.append("\"");
    proof {
        assert(final(out)@ =~= old(out)@ + str_text(s@));
    }
}

/// A wire document whose fixed-point numbers lie within the range the
/// renderer accepts; every document the library builds satisfies this.
pub open spec fn json_wf(v: JsonSpec) -> bool
    decreases v,
{
    match v {
        JsonSpec::Micro(m) => -1000000000 <= m <= 1000000000,
        JsonSpec::Arr(vs) => arr_wf(vs),
        JsonSpec::Obj(ps) => obj_wf(ps),
        _ => true,
    }
}

pub open spec fn arr_wf(vs: Seq<JsonSpec>) -> bool
    decreases vs,
{
    vs.len() == 0 || (arr_wf(vs.drop_last()) && json_wf(vs.last()))
}

pub open spec fn obj_wf(ps: Seq<(Seq<char>, JsonSpec)>) -> bool
    decreases ps,
{
    ps.len() == 0 || (obj_wf(ps.drop_last()) && json_wf(ps.last().1))
}

pub proof fn lemma_arr_wf_index(vs: Seq<JsonSpec>)
    requires
        arr_wf(vs),
    ensures
        forall|i: int| 0 <= i < vs.len() ==> #[trigger] json_wf(vs[i]),
    decreases vs.len(),
{
    if vs.len() > 0 {
        lemma_arr_wf_index(vs.drop_last());
        assert forall|i: int| 0 <= i < vs.len() implies #[trigger] json_wf(vs[i]) by {
            if i < vs.len() - 1 {
                assert(vs.drop_last()[i] == vs[i]);
                assert(json_wf(vs.drop_last()[i]));
            } else {
                assert(vs[i] == vs.last());
            }
        }
    }
}

pub proof fn lemma_obj_wf_index(ps: Seq<(Seq<char>, JsonSpec)>)
    requires
        obj_wf(ps),
    ensures
        forall|i: int| 0 <= i < ps.len() ==> #[trigger] json_wf(ps[i].1),
    decreases ps.len(),
{
    if ps.len() > 0 {
        lemma_obj_wf_index(ps.drop_last());
        assert forall|i: int| 0 <= i < ps.len() implies #[trigger] json_wf(ps[i].1) by {
            if i < ps.len() - 1 {
                assert(ps.drop_last()[i] == ps[i]);
                assert(json_wf(ps.drop_last()[i].1));
            } else {
                assert(ps[i] == ps.last());
            }
        }
    }
}

/// Appends the compact JSON rendering of the document.
pub fn append_json(out: &mut String, v: &JsonValue)
    requires
        json_wf(v@),
    ensures
        final(out)@ == old(out)@ + json_text(v@),
    decreases *v,
{
    match v {
        JsonValue::Null => {
            out.append("null");
        },
        JsonValue::Bool(b) => {
            if *b {
                out.append("true");
            } else {
                out.append("false");
            }
        },
        JsonValue::UInt(n) => {
            append_dec(out, *n);
        },
        JsonValue::Micro(m) => {
            append_micro(out, *m);
        },
        JsonValue::Str(s) => {
            append_json_string(out, s.as_str());
        },
        JsonValue::Arr(vs) => {
            proof {
                lemma_arr_view_index(vs@);
            }
            out.append("[");
            let ghost pre = out@;
            let n = vs.len();
            let mut i: usize = 0;
            while i < n
                invariant
                    json_wf(jv_view(*v)),
                    *v == JsonValue::Arr(*vs),
                    n == vs@.len(),
                    i <= n,
                    arr_view(vs@).len() == vs@.len(),
                    forall|j: int| 0 <= j < vs@.len() ==> arr_view(vs@)[j] == jv_view(vs@[j]),
                    out@ == pre + arr_text(arr_view(vs@.take(i as int))),
                decreases n - i,
            {
                let ghost a_prev = arr_view(vs@.take(i as int));
                if i > 0 {
                    out.append(",");
                }
                proof {
                    assert(jv_view(*v) == JsonSpec::Arr(arr_view(vs@)));
                    lemma_arr_wf_index(arr_view(vs@));
                    assert(arr_view(vs@)[i as int] == jv_view(vs@[i as int]));
                    assert(json_wf(arr_view(vs@)[i as int]));
                }
                append_json(out, &vs[i]);
                proof {
                    assert(vs@.take(i + 1).drop_last() =~= vs@.take(i as int));
                    let b = arr_view(vs@.take(i + 1));
                    assert(b == a_prev.push(jv_view(vs@[i as int])));
                    assert(a_prev.len() == i) by {
                        lemma_arr_view_index(vs@.take(i as int));
                    }
                    if i > 0 {
                        assert(b.drop_last() =~= a_prev);
                        assert(arr_text(b) == arr_text(a_prev) + ","@ + json_text(
                            jv_view(vs@[i as int]),
                        ));
                    } else {
                        assert(arr_text(b) == json_text(jv_view(vs@[i as int])));
                    }
                    assert(out@ =~= pre + arr_text(b));
                }
                i += 1;
            }
            out.append("]");
            proof {
                assert(vs@.take(n as int) =~= vs@);
                assert(final(out)@ =~= old(out)@ + json_text(v@));
            }
        },
        JsonValue::Obj(ps) => {
            proof {
                lemma_obj_view_index(ps@);
            }
            out.append("{");
            let ghost pre = out@;
            let n = ps.len();
            let mut i: usize = 0;
            while i < n
                invariant
                    json_wf(jv_view(*v)),
                    *v == JsonValue::Obj(*ps),
                    n == ps@.len(),
                    i <= n,
                    obj_view(ps@).len() == ps@.len(),
                    forall|j: int|
                        0 <= j < ps@.len() ==> obj_view(ps@)[j] == (
                        ps@[j].0@,
                        jv_view(ps@[j].1),
                        ),
                    out@ == pre + obj_text(obj_view(ps@.take(i as int))),
                decreases n - i,
            {
                let ghost o_prev = obj_view(ps@.take(i as int));
                if i > 0 {
                    out.append(",");
                }
                let p = &ps[i];
                append_json_string(out, p.0.as_str());
                out.append(":");
                proof {
                    assert(jv_view(*v) == JsonSpec::Obj(obj_view(ps@)));
                    lemma_obj_wf_index(obj_view(ps@));
                    assert(obj_view(ps@)[i as int] == (ps@[i as int].0@, jv_view(ps@[i as int].1)));
                    assert(json_wf(obj_view(ps@)[i as int].1));
                }
                append_json(out, &p.1);
                proof {
                    assert(ps@.take(i + 1).drop_last() =~= ps@.take(i as int));
                    let b = obj_view(ps@.take(i + 1));
                    assert(b == o_prev.push((ps@[i as int].0@, jv_view(ps@[i as int].1))));
                    assert(o_prev.len() == i) by {
                        lemma_obj_view_index(ps@.take(i as int));
                    }
                    if i > 0 {
                        assert(b.drop_last() =~= o_prev);
                        assert(obj_text(b) == obj_text(o_prev) + ","@ + pair_text(b.last()));
                    } else {
                        assert(obj_text(b) == pair_text(b[0]));
                    }
                    assert(out@ =~= pre + obj_text(b));
                }
                i += 1;
            }
            out.append("}");
            proof {
                assert(ps@.take(n as int) =~= ps@);
                assert(final(out)@ =~= old(out)@ + json_text(v@));
            }
        },
    }
}

/// Renders a wire document as compact JSON text.
pub fn render_json(v: &JsonValue) -> (s: String)
    requires
        json_wf(v@),
    ensures
        s@ == json_text(v@),
{
    let mut out = String::new();
    append_json(&mut out, v);
    out
}

/// Appends one pair to an object under construction.
pub fn obj_push(ps: &mut Vec<(String, JsonValue)>, key: &str, val: JsonValue)
    ensures
        obj_view(final(ps)@) == obj_view(old(ps)@).push((key@, jv_view(val))),
        obj_wf(obj_view(final(ps)@)) == (obj_wf(obj_view(old(ps)@)) && json_wf(jv_view(val))),
{
    let ghost prior = ps@;
    ps.push((key.to_owned(), val));
    proof {
        assert(ps@.drop_last() =~= prior);
        assert(obj_view(ps@).drop_last() =~= obj_view(prior));
    }
}

/// Appends one element to an array under construction.
pub fn arr_push(vs: &mut Vec<JsonValue>, val: JsonValue)
    ensures
        arr_view(final(vs)@) == arr_view(old(vs)@).push(jv_view(val)),
        arr_wf(arr_view(final(vs)@)) == (arr_wf(arr_view(old(vs)@)) && json_wf(jv_view(val))),
{
    let ghost prior = vs@;
    vs.push(val);
    proof {
        assert(vs@.drop_last() =~= prior);
        assert(arr_view(vs@).drop_last() =~= arr_view(prior));
    }
}

/// First value bound to `key` in an object's pair list, if any.
pub open spec fn obj_lookup(ps: Seq<(Seq<char>, JsonSpec)>, key: Seq<char>) -> Option<JsonSpec>
    decreases ps.len(),
{
    if ps.len() == 0 {
        None
    } else if ps[0].0 == key {
        Some(ps[0].1)
    } else {
        obj_lookup(ps.drop_first(), key)
    }
}

proof fn lemma_obj_lookup_skip(ps: Seq<(Seq<char>, JsonSpec)>, key: Seq<char>, i: int)
    requires
        0 <= i <= ps.len(),
        forall|j: int| 0 <= j < i ==> ps[j].0 != key,
    ensures
        obj_lookup(ps, key) == obj_lookup(ps.skip(i), key),
    decreases i,
{
    if i > 0 {
        assert(ps[0].0 != key);
        lemma_obj_lookup_skip(ps.drop_first(), key, i - 1);
        assert(ps.drop_first().skip(i - 1) =~= ps.skip(i));
    } else {
        assert(ps.skip(0) =~= ps);
    }
}

/// Looks a key up in an object's pair list; first binding wins.
pub fn obj_get<'a>(ps: &'a Vec<(String, JsonValue)>, key: &str) -> (r: Option<&'a JsonValue>)
    ensures
        match r {
            Some(v) => obj_lookup(obj_view(ps@), key@) == Some(v@),
            None => obj_lookup(obj_view(ps@), key@) is None,
        },
{
    proof {
        lemma_obj_view_index(ps@);
    }
    let n = ps.len();
    let mut i: usize = 0;
    while i < n
        invariant
            n == ps@.len(),
            i <= n,
            obj_view(ps@).len() == ps@.len(),
            forall|j: int|
                0 <= j < ps@.len() ==> obj_view(ps@)[j] == (ps@[j].0@, jv_view(ps@[j].1)),
            forall|j: int| 0 <= j < i ==> obj_view(ps@)[j].0 != key@,
        decreases n - i,
    {
        let p = &ps[i];
        if str_eq(p.0.as_str(), key) {
            proof {
                lemma_obj_lookup_skip(obj_view(ps@), key@, i as int);
                assert(obj_view(ps@).skip(i as int)[0] == obj_view(ps@)[i as int]);
            }
            return Some(&p.1);
        }
        i += 1;
    }
    proof {
        lemma_obj_lookup_skip(obj_view(ps@), key@, n as int);
        assert(obj_view(ps@).skip(n as int).len() == 0);
    }
    None
}

} // verus!
