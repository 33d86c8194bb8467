//! JSON request bodies. The library lays out objects itself; each string
//! value is escaped by serde_json.

use vstd::prelude::*;

verus! {

/// `s` as a JSON string literal, quotes and escapes included.
pub uninterp spec fn json_string_of(s: Seq<char>) -> Seq<char>;

/// Relies on `serde_json::to_string` on a `str`: it writes the string as a
/// JSON string literal. The writer is a `Vec`, which never fails, so the
/// error arm is never taken.
#[verifier::external_body]
fn json_string(s: &str) -> (r: String)
    ensures
        r@ == json_string_of(s@),
{
    serde_json::to_string(s).unwrap_or_default()
}

/// `"name":value`
pub open spec fn member_text(m: (Seq<char>, Seq<char>)) -> Seq<char> {
    json_string_of(m.0) + ":"@ + m.1
}

/// The members of an object, separated by commas.
pub open spec fn members_text(ms: Seq<(Seq<char>, Seq<char>)>) -> Seq<char>
    decreases ms.len(),
{
    if ms.len() == 0 {
        Seq::empty()
    } else if ms.len() == 1 {
        member_text(ms[0])
    } else {
        members_text(ms.drop_last()) + ","@ + member_text(ms.last())
    }
}

/// A JSON object whose members are the names and JSON values of `ms`.
pub open spec fn object_text(ms: Seq<(Seq<char>, Seq<char>)>) -> Seq<char> {
    "{"@ + members_text(ms) + "}"@
}

/// A JSON value for the text `s`.
pub fn string_value(s: &str) -> (r: String)
    ensures
        r@ == json_string_of(s@),
{
    json_string(s)
}

/// The JSON value `true` or `false`.
pub fn bool_value(b: bool) -> (r: String)
    ensures
        r@ == bool_text(b),
{
    if b {
        String::from_str("true")
    } else {
        String::from_str("false")
    }
}

/// A JSON object from pairs of a member name and the member's JSON value.
pub fn object(members: &Vec<(String, String)>) -> (r: String)
    ensures
        r@ == object_text(crate::dispatch::pairs_view(members@)),
{
    let ghost ms = crate::dispatch::pairs_view(members@);
    let mut out = String::from_str("{");
    let mut i: usize = 0;
    while i < members.len()
        invariant
            i <= members.len(),
            ms == crate::dispatch::pairs_view(members@),
            out@ == "{"@ + members_text(ms.subrange(0, i as int)),
        decreases members.len() - i,
    {
        let ghost before = out@;
        if i > 0 {
            out.append(",");
        }
        let name = json_string(members[i].0.as_str());
        out.append(name.as_str());
        out.append(":");
        out.append(members[i].1.as_str());
        proof {
            let pre = ms.subrange(0, i as int);
            let now = ms.subrange(0, i + 1);
            assert(now.drop_last() =~= pre);
            assert(now.last() == ms[i as int]);
            if i == 0 {
                assert(pre =~= Seq::<(Seq<char>, Seq<char>)>::empty());
                assert(members_text(pre) =~= Seq::<char>::empty());
                assert(out@ =~= "{"@ + member_text(ms[i as int]));
            } else {
                assert(out@ =~= "{"@ + (members_text(pre) + ","@ + member_text(ms[i as int])));
            }
        }
        i = i + 1;
    }
    assert(ms.subrange(0, members.len() as int) =~= ms);
    out.append("}");
    out
}

/// Items separated by commas.
pub open spec fn joined_text(items: Seq<Seq<char>>) -> Seq<char>
    decreases items.len(),
{
    if items.len() == 0 {
        Seq::empty()
    } else if items.len() == 1 {
        items[0]
    } else {
        joined_text(items.drop_last()) + ","@ + items.last()
    }
}

/// A JSON array of the given JSON values.
pub open spec fn array_text(items: Seq<Seq<char>>) -> Seq<char> {
    "["@ + joined_text(items) + "]"@
}

pub open spec fn texts_view(items: Seq<String>) -> Seq<Seq<char>> {
    items.map_values(|x: String| x@)
}

/// A JSON array of the JSON values in `items`.
pub fn array(items: &Vec<String>) -> (r: String)
    ensures
        r@ == array_text(texts_view(items@)),
{
    let ghost vs = texts_view(items@);
    let mut out = String::from_str("[");
    let mut i: usize = 0;
    while i < items.len()
        invariant
            i <= items.len(),
            vs == texts_view(items@),
            out@ == "["@ + joined_text(vs.subrange(0, i as int)),
        decreases items.len() - i,
    {
        if i > 0 {
            out.append(",");
        }
        out.append(items[i].as_str());
        proof {
            let pre = vs.subrange(0, i as int);
            let now = vs.subrange(0, i + 1);
            assert(now.drop_last() =~= pre);
            assert(now.last() == vs[i as int]);
            if i == 0 {
                assert(pre =~= Seq::<Seq<char>>::empty());
                assert(out@ =~= "["@ + vs[i as int]);
            } else {
                assert(out@ =~= "["@ + (joined_text(pre) + ","@ + vs[i as int]));
            }
        }
        i = i + 1;
    }
    assert(vs.subrange(0, items.len() as int) =~= vs);
    out.append("]");
    out
}

pub open spec fn bool_text(b: bool) -> Seq<char> {
    if b {
        "true"@
    } else {
        "false"@
    }
}

} // verus!
