//! Endpoint resolution: a base address joined with a path template whose
//! `{name}` placeholders are replaced from a list of named parameters.

use vstd::prelude::*;
use crate::dispatch::pairs_view;

verus! {

/// Position of the `}` that closes a placeholder name scanned from `i`, or -1
/// when the text ends, or a `{` comes, before any `}`.
pub open spec fn name_end(t: Seq<char>, i: int) -> int
    decreases t.len() - i,
{
    if i < 0 || i >= t.len() {
        -1
    } else if t[i] == '}' {
        i
    } else if t[i] == '{' {
        -1
    } else {
        name_end(t, i + 1)
    }
}

/// The value of the first parameter called `name`.
pub open spec fn lookup(params: Seq<(Seq<char>, Seq<char>)>, name: Seq<char>) -> Option<Seq<char>>
    decreases params.len(),
{
    if params.len() == 0 {
        None
    } else if params[0].0 == name {
        Some(params[0].1)
    } else {
        lookup(params.drop_first(), name)
    }
}

/// The template with every `{name}` that has a parameter replaced by its
/// value, in one pass from left to right; a placeholder without a parameter
/// stays as it is, braces included.
pub open spec fn substituted(t: Seq<char>, params: Seq<(Seq<char>, Seq<char>)>) -> Seq<char>
    decreases t.len(),
{
    if t.len() == 0 {
        Seq::<char>::empty()
    } else {
        let j = name_end(t, 1);
        if t[0] == '{' && 0 < j < t.len() {
            let piece = match lookup(params, t.subrange(1, j)) {
                Some(v) => v,
                None => t.subrange(0, j + 1),
            };
            piece + substituted(t.subrange(j + 1, t.len() as int), params)
        } else {
            seq![t[0]] + substituted(t.subrange(1, t.len() as int), params)
        }
    }
}

/// The full URL for `template` on the server at `base_url`.
pub open spec fn resolved(base_url: Seq<char>, template: Seq<char>, params: Seq<(Seq<char>, Seq<char>)>) -> Seq<char> {
    base_url + substituted(template, params)
}

/// `{name}` as it stands in a template.
pub open spec fn placeholder(name: Seq<char>) -> Seq<char> {
    seq!['{'] + name + seq!['}']
}

/// A name that can stand between braces.
pub open spec fn plain_name(name: Seq<char>) -> bool {
    forall|k: int| 0 <= k < name.len() ==> name[k] != '{' && name[k] != '}'
}

proof fn lemma_name_end_range(t: Seq<char>, i: int)
    ensures
        name_end(t, i) == -1 || (i <= name_end(t, i) < t.len()),
    decreases t.len() - i,
{
    if 0 <= i < t.len() && t[i] != '}' && t[i] != '{' {
        lemma_name_end_range(t, i + 1);
    }
}

/// Scanning a prefix is not affected by text that begins with `{`.
proof fn lemma_name_end_prefix(pre: Seq<char>, x: Seq<char>, i: int)
    requires
        0 <= i <= pre.len(),
        x.len() > 0,
        x[0] == '{',
    ensures
        name_end(pre + x, i) == name_end(pre, i),
    decreases pre.len() - i,
{
    let u = pre + x;
    if i < pre.len() {
        assert(u[i] == pre[i]);
        if pre[i] != '}' && pre[i] != '{' {
            lemma_name_end_prefix(pre, x, i + 1);
        }
    } else {
        assert(u[i] == x[0]);
    }
}

/// Substitution splits in front of a `{`.
proof fn lemma_substituted_split(pre: Seq<char>, x: Seq<char>, params: Seq<(Seq<char>, Seq<char>)>)
    requires
        x.len() > 0,
        x[0] == '{',
    ensures
        substituted(pre + x, params) == substituted(pre, params) + substituted(x, params),
    decreases pre.len(),
{
    let u = pre + x;
    if pre.len() == 0 {
        assert(u =~= x);
        assert(substituted(pre, params) =~= Seq::<char>::empty());
        assert(Seq::<char>::empty() + substituted(x, params) =~= substituted(x, params));
    } else {
        let n = pre.len() as int;
        lemma_name_end_prefix(pre, x, 1);
        lemma_name_end_range(pre, 1);
        let j = name_end(pre, 1);
        assert(u[0] == pre[0]);
        if pre[0] == '{' && 0 < j < n {
            assert(u.subrange(1, j) =~= pre.subrange(1, j));
            assert(u.subrange(0, j + 1) =~= pre.subrange(0, j + 1));
            assert(u.subrange(j + 1, u.len() as int) =~= pre.subrange(j + 1, n) + x);
            lemma_substituted_split(pre.subrange(j + 1, n), x, params);
            let piece = match lookup(params, pre.subrange(1, j)) {
                Some(v) => v,
                None => pre.subrange(0, j + 1),
            };
            assert(piece + (substituted(pre.subrange(j + 1, n), params) + substituted(x, params))
                =~= (piece + substituted(pre.subrange(j + 1, n), params)) + substituted(x, params));
        } else {
            assert(u.subrange(1, u.len() as int) =~= pre.subrange(1, n) + x);
            lemma_substituted_split(pre.subrange(1, n), x, params);
            assert(seq![pre[0]] + (substituted(pre.subrange(1, n), params) + substituted(x, params))
                =~= (seq![pre[0]] + substituted(pre.subrange(1, n), params)) + substituted(x, params));
        }
    }
}

proof fn lemma_name_end_placeholder(name: Seq<char>, post: Seq<char>, i: int)
    requires
        plain_name(name),
        1 <= i <= name.len() + 1,
    ensures
        name_end(placeholder(name) + post, i) == name.len() + 1,
    decreases name.len() + 1 - i,
{
    let u = placeholder(name) + post;
    if i <= name.len() {
        assert(u[i] == name[i - 1]);
        lemma_name_end_placeholder(name, post, i + 1);
    } else {
        assert(u[i] == '}');
    }
}

/// Two resolutions of the same base, template and parameters give the same
/// URL.
pub proof fn lemma_resolve_deterministic(
    base: Seq<char>,
    template: Seq<char>,
    params: Seq<(Seq<char>, Seq<char>)>,
    first: Seq<char>,
    second: Seq<char>,
)
    requires
        first == resolved(base, template, params),
        second == resolved(base, template, params),
    ensures
        first == second,
{
}

/// A placeholder that no parameter names comes through verbatim: the result is the base, the
/// resolved text before the placeholder, the placeholder itself, then the
/// resolved text after it.
pub proof fn lemma_unmatched_placeholder_kept(
    base: Seq<char>,
    pre: Seq<char>,
    name: Seq<char>,
    post: Seq<char>,
    params: Seq<(Seq<char>, Seq<char>)>,
)
    requires
        plain_name(name),
        lookup(params, name) is None,
    ensures
        resolved(base, pre + placeholder(name) + post, params) == base + substituted(pre, params)
            + placeholder(name) + substituted(post, params),
{
    let x = placeholder(name) + post;
    assert(pre + placeholder(name) + post =~= pre + x);
    lemma_substituted_split(pre, x, params);
    lemma_name_end_placeholder(name, post, 1);
    let j: int = name.len() as int + 1;
    assert(x.subrange(1, j) =~= name);
    assert(x.subrange(0, j + 1) =~= placeholder(name));
    assert(x.subrange(j + 1, x.len() as int) =~= post);
    assert(base + (substituted(pre, params) + (placeholder(name) + substituted(post, params)))
        =~= base + substituted(pre, params) + placeholder(name) + substituted(post, params));
}

/// Index of the first parameter called `name`.
fn find_param(params: &Vec<(String, String)>, name: &String) -> (r: Option<usize>)
    ensures
        match r {
            Some(k) => k < params.len() && lookup(pairs_view(params@), name@) == Some(
                params@[k as int].1@,
            ),
            None => lookup(pairs_view(params@), name@) is None,
        },
{
    let ghost ps = pairs_view(params@);
    let mut k: usize = 0;
    assert(ps.subrange(0, params.len() as int) =~= ps);
    while k < params.len()
        invariant
            k <= params.len(),
            ps == pairs_view(params@),
            lookup(ps, name@) == lookup(ps.subrange(k as int, params.len() as int), name@),
        decreases params.len() - k,
    {
        let ghost rest = ps.subrange(k as int, params.len() as int);
        if params[k].0 == *name {
            return Some(k);
        }
        assert(rest.drop_first() =~= ps.subrange(k + 1, params.len() as int));
        k = k + 1;
    }
    None
}

/// Joins `base_url` and `template`, replacing each `{name}` placeholder of the
/// template that has an entry in `params`. Unknown placeholders are kept
/// verbatim and parameters the template does not mention are ignored.
pub fn resolve(base_url: &str, template: &str, params: &Vec<(String, String)>) -> (r: String)
    ensures
        r@ == resolved(base_url@, template@, pairs_view(params@)),
{
    let n = template.unicode_len();
    let mut out = String::from_str(base_url);
    let mut i: usize = 0;
    assert(template@.subrange(0, n as int) =~= template@);
    while i < n
        invariant
            n == template@.len(),
            i <= n,
            out@ + substituted(template@.subrange(i as int, n as int), pairs_view(params@))
                == base_url@ + substituted(template@, pairs_view(params@)),
        decreases n - i,
    {
        let ghost s = template@.subrange(i as int, n as int);
        let c = template.get_char(i);
        let mut j: usize = i + 1;
        if c == '{' {
            while j < n && template.get_char(j) != '}' && template.get_char(j) != '{'
                invariant
                    n == template@.len(),
                    i < n,
                    i + 1 <= j <= n,
                    s == template@.subrange(i as int, n as int),
                    name_end(s, 1) == name_end(s, j - i),
                decreases n - j,
            {
                j = j + 1;
            }
        }
        if c == '{' && j < n && template.get_char(j) == '}' {
            assert(name_end(s, (j - i) as int) == j - i);
            let name = String::from_str(template.substring_char(i + 1, j));
            assert(name@ =~= s.subrange(1, (j - i) as int));
            assert(template@.subrange(j + 1, n as int) =~= s.subrange((j - i) + 1, s.len() as int));
            match find_param(params, &name) {
                Some(k) => {
                    out.append(params[k].1.as_str());
                },
                None => {
                    let lit = template.substring_char(i, j + 1);
                    assert(lit@ =~= s.subrange(0, (j - i) + 1));
                    out.append(lit);
                },
            }
            i = j + 1;
        } else {
            let one = template.substring_char(i, i + 1);
            assert(one@ =~= seq![s[0]]);
            assert(template@.subrange(i + 1, n as int) =~= s.subrange(1, s.len() as int));
            out.append(one);
            i = i + 1;
        }
    }
    assert(template@.subrange(n as int, n as int) =~= Seq::<char>::empty());
    out
}

/// Whether the template holds a placeholder that no parameter names.
pub open spec fn unresolved(t: Seq<char>, params: Seq<(Seq<char>, Seq<char>)>) -> bool
    decreases t.len(),
{
    if t.len() == 0 {
        false
    } else {
        let j = name_end(t, 1);
        if t[0] == '{' && 0 < j < t.len() {
            lookup(params, t.subrange(1, j)) is None || unresolved(t.subrange(j + 1, t.len() as int), params)
        } else {
            unresolved(t.subrange(1, t.len() as int), params)
        }
    }
}

/// Whether some placeholder of `template` has no entry in `params`.
pub fn has_unresolved(template: &str, params: &Vec<(String, String)>) -> (r: bool)
    ensures
        r == unresolved(template@, pairs_view(params@)),
{
    let n = template.unicode_len();
    let mut i: usize = 0;
    assert(template@.subrange(0, n as int) =~= template@);
    while i < n
        invariant
            n == template@.len(),
            i <= n,
            unresolved(template@, pairs_view(params@)) == unresolved(
                template@.subrange(i as int, n as int),
                pairs_view(params@),
            ),
        decreases n - i,
    {
        let ghost s = template@.subrange(i as int, n as int);
        let c = template.get_char(i);
        let mut j: usize = i + 1;
        if c == '{' {
            while j < n && template.get_char(j) != '}' && template.get_char(j) != '{'
                invariant
                    n == template@.len(),
                    i < n,
                    i + 1 <= j <= n,
                    s == template@.subrange(i as int, n as int),
                    name_end(s, 1) == name_end(s, j - i),
                decreases n - j,
            {
                j = j + 1;
            }
        }
        if c == '{' && j < n && template.get_char(j) == '}' {
            assert(name_end(s, (j - i) as int) == j - i);
            let name = String::from_str(template.substring_char(i + 1, j));
            assert(name@ =~= s.subrange(1, (j - i) as int));
            assert(template@.subrange(j + 1, n as int) =~= s.subrange((j - i) + 1, s.len() as int));
            if find_param(params, &name).is_none() {
                return true;
            }
            i = j + 1;
        } else {
            assert(template@.subrange(i + 1, n as int) =~= s.subrange(1, s.len() as int));
            i = i + 1;
        }
    }
    false
}

/// Like `resolve`, but none when a placeholder of `template` has no entry in
/// `params`.
pub fn resolve_all(base_url: &str, template: &str, params: &Vec<(String, String)>) -> (r: Option<String>)
    ensures
        unresolved(template@, pairs_view(params@)) <==> r is None,
        r is Some ==> r->0@ == resolved(base_url@, template@, pairs_view(params@)),
{
    if has_unresolved(template, params) {
        None
    } else {
        Some(resolve(base_url, template, params))
    }
}

} // verus!
