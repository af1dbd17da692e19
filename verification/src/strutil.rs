//! Verified helpers over strings: equality, lexicographic order, and the
//! small pieces of text processing the compiler needs (operation-id
//! segmentation, component-reference prefix stripping, path templates).

use vstd::prelude::*;

verus! {

/// Executable string equality, specified through the views.
pub fn str_eq(a: &str, b: &str) -> (r: bool)
    ensures
        r == (a@ == b@),
{
    let a_owned = a.to_owned();
    let b_owned = b.to_owned();
    a_owned == b_owned
}

/// Strict lexicographic order on character sequences, by code point.
/// This is the order in which resource and type names are kept.
pub open spec fn lex_lt(a: Seq<char>, b: Seq<char>) -> bool
    decreases a.len(),
{
    if b.len() == 0 {
        false
    } else if a.len() == 0 {
        true
    } else if a[0] == b[0] {
        lex_lt(a.skip(1), b.skip(1))
    } else {
        (a[0] as int) < (b[0] as int)
    }
}

pub proof fn lemma_lex_lt_irrefl(a: Seq<char>)
    ensures
        !lex_lt(a, a),
    decreases a.len(),
{
    if a.len() > 0 {
        lemma_lex_lt_irrefl(a.skip(1));
    }
}

/// For distinct sequences, exactly one direction of the order holds.
pub proof fn lemma_lex_lt_connected(a: Seq<char>, b: Seq<char>)
    ensures
        lex_lt(a, b) ==> !lex_lt(b, a),
        !lex_lt(a, b) && !lex_lt(b, a) ==> a =~= b,
    decreases a.len(),
{
    if a.len() == 0 && b.len() == 0 {
        assert(a =~= b);
    } else if a.len() > 0 && b.len() > 0 && a[0] == b[0] {
        lemma_lex_lt_connected(a.skip(1), b.skip(1));
        if !lex_lt(a, b) && !lex_lt(b, a) {
            assert(a.skip(1) =~= b.skip(1));
            assert forall|i: int| 0 <= i < a.len() implies a[i] == b[i] by {
                if i > 0 {
                    assert(a[i] == a.skip(1)[i - 1]);
                    assert(b[i] == b.skip(1)[i - 1]);
                }
            }
            assert(a =~= b);
        }
    } else if a.len() > 0 && b.len() > 0 {
        if !lex_lt(a, b) && !lex_lt(b, a) {
            assert((a[0] as int) == (b[0] as int));
            assert(a[0] == b[0]);
        }
    }
}

pub proof fn lemma_lex_lt_trans(a: Seq<char>, b: Seq<char>, c: Seq<char>)
    ensures
        lex_lt(a, b) && lex_lt(b, c) ==> lex_lt(a, c),
    decreases a.len(),
{
    if a.len() > 0 && b.len() > 0 && c.len() > 0 {
        lemma_lex_lt_trans(a.skip(1), b.skip(1), c.skip(1));
    }
}

/// A shared prefix does not affect the order of the remainders.
proof fn lemma_lex_lt_common_prefix(a: Seq<char>, b: Seq<char>, i: int)
    requires
        0 <= i <= a.len(),
        i <= b.len(),
        forall|j: int| 0 <= j < i ==> a[j] == b[j],
    ensures
        lex_lt(a, b) == lex_lt(a.skip(i), b.skip(i)),
    decreases i,
{
    if i > 0 {
        assert(a[0] == b[0]);
        assert(lex_lt(a, b) == lex_lt(a.skip(1), b.skip(1)));
        lemma_lex_lt_common_prefix(a.skip(1), b.skip(1), i - 1);
        assert(a.skip(1).skip(i - 1) =~= a.skip(i));
        assert(b.skip(1).skip(i - 1) =~= b.skip(i));
    } else {
        assert(a.skip(0) =~= a);
        assert(b.skip(0) =~= b);
    }
}

/// Executable strict lexicographic comparison.
pub fn str_lt(a: &str, b: &str) -> (r: bool)
    ensures
        r == lex_lt(a@, b@),
{
    let a_len = a.unicode_len();
    let b_len = b.unicode_len();
    let mut i: usize = 0;
    loop
        invariant
            i <= a_len,
            i <= b_len,
            a_len == a@.len(),
            b_len == b@.len(),
            forall|j: int| 0 <= j < i ==> a@[j] == b@[j],
        decreases a_len - i,
    {
        proof {
            lemma_lex_lt_common_prefix(a@, b@, i as int);
        }
        if i >= b_len {
            assert(b@.skip(i as int).len() == 0);
            return false;
        }
        if i >= a_len {
            assert(a@.skip(i as int).len() == 0);
            return true;
        }
        let ca = a.get_char(i);
        let cb = b.get_char(i);
        if ca != cb {
            assert(a@.skip(i as int)[0] == ca);
            assert(b@.skip(i as int)[0] == cb);
            return (ca as u32) < (cb as u32);
        }
        i += 1;
    }
}

/// First position of `c` in `s`, if any.
pub open spec fn find_char(s: Seq<char>, c: char) -> Option<int>
    decreases s.len(),
{
    if s.len() == 0 {
        None
    } else if s[0] == c {
        Some(0int)
    } else {
        match find_char(s.skip(1), c) {
            None => None,
            Some(i) => Some(i + 1),
        }
    }
}

pub proof fn lemma_find_char(s: Seq<char>, c: char)
    ensures
        match find_char(s, c) {
            None => forall|j: int| 0 <= j < s.len() ==> s[j] != c,
            Some(i) => 0 <= i < s.len() && s[i] == c && forall|j: int| 0 <= j < i ==> s[j] != c,
        },
    decreases s.len(),
{
    if s.len() > 0 && s[0] != c {
        lemma_find_char(s.skip(1), c);
        match find_char(s.skip(1), c) {
            None => {
                assert forall|j: int| 0 <= j < s.len() implies s[j] != c by {
                    if j > 0 {
                        assert(s[j] == s.skip(1)[j - 1]);
                    }
                }
            },
            Some(i) => {
                assert(s[i + 1] == s.skip(1)[i]);
                assert forall|j: int| 0 <= j < i + 1 implies s[j] != c by {
                    if j > 0 {
                        assert(s[j] == s.skip(1)[j - 1]);
                    }
                }
            },
        }
    }
}

/// Executable search for the first occurrence of a character.
pub fn find_char_exec(s: &str, c: char) -> (r: Option<usize>)
    ensures
        match r {
            None => find_char(s@, c) is None,
            Some(i) => find_char(s@, c) == Some(i as int),
        },
{
    let len = s.unicode_len();
    let mut i: usize = 0;
    proof {
        lemma_find_char(s@, c);
    }
    loop
        invariant
            i <= len,
            len == s@.len(),
            forall|j: int| 0 <= j < i ==> s@[j] != c,
            match find_char(s@, c) {
                None => forall|j: int| 0 <= j < s@.len() ==> s@[j] != c,
                Some(k) => 0 <= k < s@.len() && s@[k] == c && forall|j: int| 0 <= j < k
                    ==> s@[j] != c,
            },
        decreases len - i,
    {
        if i >= len {
            proof {
                if find_char(s@, c) is Some {
                    let k = find_char(s@, c)->Some_0;
                    assert(s@[k] != c);
                }
            }
            return None;
        }
        if s.get_char(i) == c {
            proof {
                if find_char(s@, c) is None {
                    assert(s@[i as int] != c);
                }
                let k = find_char(s@, c)->Some_0;
                if k < i {
                    assert(s@[k] != c);
                }
                if k > i {
                    assert(s@[i as int] != c);
                }
            }
            return Some(i);
        }
        i += 1;
    }
}

/// The conventional prefix under which component schemas are referenced.
pub open spec fn schema_ref_prefix() -> Seq<char> {
    "#/components/schemas/"@
}

/// The bare component name carried by a `$ref` string, when the string
/// uses the conventional component-schema prefix.
pub open spec fn schema_name_of(r: Seq<char>) -> Option<Seq<char>> {
    let p = schema_ref_prefix();
    if r.len() >= p.len() && r.subrange(0, p.len() as int) == p {
        Some(r.skip(p.len() as int))
    } else {
        None
    }
}

/// `schema_name_of` lifted over an optional reference string.
pub open spec fn opt_schema_name(r: Option<Seq<char>>) -> Option<Seq<char>> {
    match r {
        None => None,
        Some(s) => schema_name_of(s),
    }
}

/// Extracts the component name from an optional `$ref` string.
pub fn get_schema_name(reference: &Option<String>) -> (r: Option<String>)
    ensures
        match r {
            None => opt_schema_name(match reference {
                Some(s) => Some(s@),
                None => None,
            }) is None,
            Some(n) => opt_schema_name(match reference {
                Some(s) => Some(s@),
                None => None,
            }) == Some(n@),
        },
{
    let s = match reference {
        Some(s) => s,
        None => {
            return None;
        },
    };
    let p = "#/components/schemas/";
    let p_len = p.unicode_len();
    let s_len = s.as_str().unicode_len();
    if s_len < p_len {
        return None;
    }
    let head = s.as_str().substring_char(0, p_len);
    if !str_eq(head, p) {
        return None;
    }
    let tail = s.as_str().substring_char(p_len, s_len);
    assert(tail@ =~= s@.skip(p_len as int));
    Some(tail.to_owned())
}

/// Splitting a string at its dots, accepted only when that yields exactly
/// three segments (the segments may be empty).
pub open spec fn split3(s: Seq<char>) -> Option<(Seq<char>, Seq<char>, Seq<char>)> {
    match find_char(s, '.') {
        None => None,
        Some(i) => {
            let rest = s.skip(i + 1);
            match find_char(rest, '.') {
                None => None,
                Some(j) => {
                    let tail = rest.skip(j + 1);
                    if find_char(tail, '.') is Some {
                        None
                    } else {
                        Some((s.take(i), rest.take(j), tail))
                    }
                },
            }
        },
    }
}

/// Splits an identifier into exactly three dot-separated segments.
pub fn split3_exec(s: &str) -> (r: Option<(String, String, String)>)
    ensures
        match r {
            None => split3(s@) is None,
            Some(segs) => split3(s@) == Some((segs.0@, segs.1@, segs.2@)),
        },
{
    proof {
        lemma_find_char(s@, '.');
    }
    let len = s.unicode_len();
    let i = match find_char_exec(s, '.') {
        None => {
            return None;
        },
        Some(i) => i,
    };
    let first = s.substring_char(0, i);
    assert(first@ =~= s@.take(i as int));
    let rest = s.substring_char(i + 1, len);
    assert(rest@ =~= s@.skip(i as int + 1));
    let rest_len = len - (i + 1);
    let j = match find_char_exec(rest, '.') {
        None => {
            return None;
        },
        Some(j) => j,
    };
    proof {
        lemma_find_char(rest@, '.');
    }
    let second = rest.substring_char(0, j);
    assert(second@ =~= rest@.take(j as int));
    let tail = rest.substring_char(j + 1, rest_len);
    assert(tail@ =~= rest@.skip(j as int + 1));
    match find_char_exec(tail, '.') {
        Some(_) => None,
        None => Some((first.to_owned(), second.to_owned(), tail.to_owned())),
    }
}

/// The placeholder names that appear in a path template, in order:
/// each maximal run between a `{` and the next `}`.
pub open spec fn template_params(p: Seq<char>) -> Seq<Seq<char>>
    decreases p.len(),
    via template_params_decreases
{
    match find_char(p, '{') {
        None => Seq::empty(),
        Some(i) => {
            let rest = p.skip(i + 1);
            match find_char(rest, '}') {
                None => Seq::empty(),
                Some(j) => seq![rest.take(j)] + template_params(rest.skip(j + 1)),
            }
        },
    }
}

#[via_fn]
proof fn template_params_decreases(p: Seq<char>) {
    lemma_find_char(p, '{');
    if let Some(i) = find_char(p, '{') {
        let rest = p.skip(i + 1);
        lemma_find_char(rest, '}');
    }
}

/// Extracts the placeholder names from a path template.
pub fn template_params_exec(p: &str) -> (r: Vec<String>)
    ensures
        r@.map_values(|s: String| s@) == template_params(p@),
    decreases p@.len(),
{
    proof {
        lemma_find_char(p@, '{');
    }
    let len = p.unicode_len();
    let i = match find_char_exec(p, '{') {
        None => {
            assert(Seq::<String>::empty().map_values(|s: String| s@) =~= template_params(p@));
            return Vec::new();
        },
        Some(i) => i,
    };
    let rest = p.substring_char(i + 1, len);
    assert(rest@ =~= p@.skip(i as int + 1));
    proof {
        lemma_find_char(rest@, '}');
    }
    let j = match find_char_exec(rest, '}') {
        None => {
            assert(Seq::<String>::empty().map_values(|s: String| s@) =~= template_params(p@));
            return Vec::new();
        },
        Some(j) => j,
    };
    let name = rest.substring_char(0, j).to_owned();
    assert(name@ =~= rest@.take(j as int));
    let rest_len = len - (i + 1);
    let tail = rest.substring_char(j + 1, rest_len);
    assert(tail@ =~= rest@.skip(j as int + 1));
    let mut out = template_params_exec(tail);
    out.insert(0, name);
    assert(out@.map_values(|s: String| s@) =~= template_params(p@));
    out
}

/// The views of a sequence of strings.
pub open spec fn str_views(v: Seq<String>) -> Seq<Seq<char>> {
    v.map_values(|s: String| s@)
}

/// Whether some string in `xs` has exactly the content `x`.
pub fn contains_str(xs: &Vec<String>, x: &str) -> (b: bool)
    ensures
        b == str_views(xs@).contains(x@),
{
    let mut i: usize = 0;
    while i < xs.len()
        invariant
            i <= xs@.len(),
            forall|j: int| 0 <= j < i ==> str_views(xs@)[j] != x@,
        decreases xs@.len() - i,
    {
        if str_eq(xs[i].as_str(), x) {
            assert(str_views(xs@)[i as int] == x@);
            assert(str_views(xs@).contains(x@));
            return true;
        }
        i += 1;
    }
    assert(forall|j: int| 0 <= j < str_views(xs@).len() ==> str_views(xs@)[j] != x@);
    false
}

/// How many strings in `xs` have exactly the content `x`.
pub open spec fn count_matches(xs: Seq<Seq<char>>, x: Seq<char>) -> nat {
    xs.filter(|y: Seq<char>| y == x).len()
}

/// Counts the strings in `xs` whose content equals `x`.
pub fn count_matches_exec(xs: &Vec<String>, x: &str) -> (n: usize)
    ensures
        n == count_matches(str_views(xs@), x@),
{
    let mut n: usize = 0;
    let mut i: usize = 0;
    while i < xs.len()
        invariant
            i <= xs@.len(),
            n <= i,
            n == count_matches(str_views(xs@).take(i as int), x@),
        decreases xs@.len() - i,
    {
        proof {
            let pred = |y: Seq<char>| y == x@;
            str_views(xs@).take(i as int).lemma_filter_push(str_views(xs@)[i as int], pred);
            assert(str_views(xs@).take(i as int).push(str_views(xs@)[i as int]) =~= str_views(
                xs@,
            ).take(i as int + 1));
        }
        if str_eq(xs[i].as_str(), x) {
            n = n + 1;
        }
        i = i + 1;
    }
    assert(str_views(xs@).take(xs@.len() as int) =~= str_views(xs@));
    n
}

} // verus!
