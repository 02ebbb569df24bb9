//! Reading file names out of diff text and out of git's NUL-delimited listings.
use vstd::prelude::*;
use crate::text::{
    chars_of, has_prefix, is_white_space, same_chars, split_on, split_text, starts_with,
    string_of, views, white_space,
};

verus! {

/// `s` without its leading whitespace.
pub open spec fn skip_ws(s: Seq<char>) -> Seq<char>
    decreases s.len(),
{
    if s.len() > 0 && is_white_space(s[0]) {
        skip_ws(s.drop_first())
    } else {
        s
    }
}

/// Length of the run of non-whitespace at the start of `s`.
pub open spec fn word_len(s: Seq<char>) -> nat
    decreases s.len(),
{
    if s.len() > 0 && !is_white_space(s[0]) {
        1 + word_len(s.drop_first())
    } else {
        0
    }
}

/// The first whitespace-separated word of `s`, and what follows it.
pub open spec fn next_word(s: Seq<char>) -> Option<(Seq<char>, Seq<char>)> {
    let t = skip_ws(s);
    if t.len() == 0 {
        None
    } else {
        Some((t.take(word_len(t) as int), t.skip(word_len(t) as int)))
    }
}

/// A header path without its `a/` or `b/` side marker.
pub open spec fn strip_side(c: Seq<char>) -> Seq<char> {
    if has_prefix(c, "b/"@) {
        c.skip("b/"@.len() as int)
    } else if has_prefix(c, "a/"@) {
        c.skip("a/"@.len() as int)
    } else {
        c
    }
}

/// The file a header names: the post-image path when present, else the
/// pre-image one; nothing for the null device or an empty path.
pub open spec fn normalized_path(a: Option<Seq<char>>, b: Option<Seq<char>>) -> Option<Seq<char>> {
    let candidate = if b is Some {
        b
    } else {
        a
    };
    match candidate {
        None => None,
        Some(c) => {
            let s = strip_side(c);
            if s == "/dev/null"@ || s.len() == 0 {
                None
            } else {
                Some(s)
            }
        },
    }
}

/// The file named by one line, if it is a `diff --git` header.
pub open spec fn header_path(line: Seq<char>) -> Option<Seq<char>> {
    if !has_prefix(line, "diff --git "@) {
        None
    } else {
        let rest = line.skip("diff --git "@.len() as int);
        match next_word(rest) {
            None => normalized_path(None, None),
            Some((a, after_a)) => match next_word(after_a) {
                None => normalized_path(Some(a), None),
                Some((b, _)) => normalized_path(Some(a), Some(b)),
            },
        }
    }
}

/// The files named by the headers among `lines`, in order.
pub open spec fn header_paths(lines: Seq<Seq<char>>) -> Seq<Seq<char>>
    decreases lines.len(),
{
    if lines.len() == 0 {
        Seq::empty()
    } else {
        let prev = header_paths(lines.drop_last());
        match header_path(lines.last()) {
            Some(p) => prev.push(p),
            None => prev,
        }
    }
}

/// The files that a diff touches, one per `diff --git` header, in order.
pub open spec fn diff_paths(diff: Seq<char>) -> Seq<Seq<char>> {
    header_paths(split_on(diff, '\n'))
}

/// The non-empty pieces, in order.
pub open spec fn non_empty(pieces: Seq<Seq<char>>) -> Seq<Seq<char>>
    decreases pieces.len(),
{
    if pieces.len() == 0 {
        Seq::empty()
    } else {
        let prev = non_empty(pieces.drop_last());
        if pieces.last().len() > 0 {
            prev.push(pieces.last())
        } else {
            prev
        }
    }
}

/// The paths of the `?? ` (untracked) entries, in order.
pub open spec fn untracked_entries(pieces: Seq<Seq<char>>) -> Seq<Seq<char>>
    decreases pieces.len(),
{
    if pieces.len() == 0 {
        Seq::empty()
    } else {
        let prev = untracked_entries(pieces.drop_last());
        if has_prefix(pieces.last(), "?? "@) {
            prev.push(pieces.last().skip("?? "@.len() as int))
        } else {
            prev
        }
    }
}

/// Entries of a NUL-delimited name listing.
pub open spec fn listed_names(output: Seq<char>) -> Seq<Seq<char>> {
    non_empty(split_on(output, '\0'))
}

/// Untracked paths of a NUL-delimited porcelain status scan, in scan order.
pub open spec fn untracked_paths(output: Seq<char>) -> Seq<Seq<char>> {
    untracked_entries(split_on(output, '\0'))
}

/// First index at or after `i` that is not whitespace.
pub fn skip_ws_from(cs: &Vec<char>, i: usize) -> (j: usize)
    requires
        i <= cs@.len(),
    ensures
        i <= j <= cs@.len(),
        cs@.skip(j as int) == skip_ws(cs@.skip(i as int)),
        j < cs@.len() ==> !is_white_space(cs@[j as int]),
{
    let mut j = i;
    while j < cs.len() && white_space(cs[j])
        invariant
            i <= j <= cs@.len(),
            skip_ws(cs@.skip(i as int)) == skip_ws(cs@.skip(j as int)),
        decreases cs@.len() - j,
    {
        proof {
            assert(cs@.skip(j as int).drop_first() =~= cs@.skip(j + 1));
        }
        j = j + 1;
    }
    j
}

/// First index at or after `i` that is whitespace, or the end.
fn word_end_from(cs: &Vec<char>, i: usize) -> (j: usize)
    requires
        i <= cs@.len(),
    ensures
        i <= j <= cs@.len(),
        j - i == word_len(cs@.skip(i as int)),
{
    let mut j = i;
    while j < cs.len() && !white_space(cs[j])
        invariant
            i <= j <= cs@.len(),
            word_len(cs@.skip(i as int)) == (j - i) + word_len(cs@.skip(j as int)),
        decreases cs@.len() - j,
    {
        proof {
            assert(cs@.skip(j as int).drop_first() =~= cs@.skip(j + 1));
        }
        j = j + 1;
    }
    j
}

/// The next word of `cs[i..]`, as its bounds.
fn next_word_at(cs: &Vec<char>, i: usize) -> (r: Option<(usize, usize)>)
    requires
        i <= cs@.len(),
    ensures
        match r {
            None => next_word(cs@.skip(i as int)) is None,
            Some((from, to)) => i <= from < to <= cs@.len() && next_word(cs@.skip(i as int))
                == Some((cs@.subrange(from as int, to as int), cs@.skip(to as int))),
        },
{
    let from = skip_ws_from(cs, i);
    if from == cs.len() {
        return None;
    }
    let to = word_end_from(cs, from);
    proof {
        let t = cs@.skip(from as int);
        assert(t[0] == cs@[from as int]);
        assert(!is_white_space(t[0]));
        assert(word_len(t) > 0);
        assert(t.take(word_len(t) as int) =~= cs@.subrange(from as int, to as int));
        assert(t.skip(word_len(t) as int) =~= cs@.skip(to as int));
    }
    Some((from, to))
}

/// The path without its `a/` or `b/` marker.
fn strip_side_of(c: &Vec<char>) -> (r: Vec<char>)
    ensures
        r@ == strip_side(c@),
{
    let b = chars_of("b/");
    let a = chars_of("a/");
    if starts_with(c, &b) {
        vec_tail(c, b.len())
    } else if starts_with(c, &a) {
        vec_tail(c, a.len())
    } else {
        vec_tail(c, 0)
    }
}

fn vec_tail(c: &Vec<char>, from: usize) -> (r: Vec<char>)
    requires
        from <= c@.len(),
    ensures
        r@ == c@.skip(from as int),
{
    let mut r: Vec<char> = Vec::new();
    let mut i = from;
    while i < c.len()
        invariant
            from <= i <= c@.len(),
            r@ == c@.subrange(from as int, i as int),
        decreases c@.len() - i,
    {
        r.push(c[i]);
        proof {
            assert(c@.subrange(from as int, i + 1) =~= c@.subrange(from as int, i as int).push(
                c@[i as int],
            ));
        }
        i = i + 1;
    }
    assert(c@.subrange(from as int, c@.len() as int) =~= c@.skip(from as int));
    r
}

pub open spec fn opt_view(o: Option<&str>) -> Option<Seq<char>> {
    match o {
        Some(s) => Some(s@),
        None => None,
    }
}

/// The file a header names, from its two path words.
pub fn normalize_diff_path(a_path: Option<&str>, b_path: Option<&str>) -> (r: Option<String>)
    ensures
        match r {
            None => normalized_path(opt_view(a_path), opt_view(b_path)) is None,
            Some(p) => normalized_path(opt_view(a_path), opt_view(b_path))
                == Some(p@),
        },
{
    let candidate = match b_path {
        Some(b) => b,
        None => match a_path {
            Some(a) => a,
            None => {
                return None;
            },
        },
    };
    let cs = chars_of(candidate);
    let stripped = strip_side_of(&cs);
    let null_device = chars_of("/dev/null");
    if stripped.len() == 0 || same_chars(&stripped, &null_device) {
        None
    } else {
        Some(string_of(&stripped, 0, stripped.len()))
    }
}

/// The file named by `line`, if it is a `diff --git` header.
fn header_file(line: &str) -> (r: Option<String>)
    ensures
        match r {
            None => header_path(line@) is None,
            Some(p) => header_path(line@) == Some(p@),
        },
{
    let cs = chars_of(line);
    let prefix = chars_of("diff --git ");
    if !starts_with(&cs, &prefix) {
        return None;
    }
    proof {
        assert(cs@.skip(prefix@.len() as int) == line@.skip("diff --git "@.len() as int));
    }
    match next_word_at(&cs, prefix.len()) {
        None => normalize_diff_path(None, None),
        Some((a_from, a_to)) => {
            let a = string_of(&cs, a_from, a_to);
            match next_word_at(&cs, a_to) {
                None => normalize_diff_path(Some(a.as_str()), None),
                Some((b_from, b_to)) => {
                    let b = string_of(&cs, b_from, b_to);
                    normalize_diff_path(Some(a.as_str()), Some(b.as_str()))
                },
            }
        },
    }
}

/// The files that `diff` touches, one per `diff --git` header, in order.
pub fn diff_files(diff: &str) -> (r: Vec<String>)
    ensures
        views(r@) == diff_paths(diff@),
{
    let lines = split_text(diff, '\n');
    let mut out: Vec<String> = Vec::new();
    let mut i: usize = 0;
    while i < lines.len()
        invariant
            i <= lines@.len(),
            views(lines@) == split_on(diff@, '\n'),
            views(out@) == header_paths(views(lines@).take(i as int)),
        decreases lines@.len() - i,
    {
        proof {
            assert(views(lines@).take(i + 1).drop_last() =~= views(lines@).take(i as int));
            assert(views(lines@).take(i + 1).last() == lines@[i as int]@);
        }
        let ghost prior = out@;
        match header_file(lines[i].as_str()) {
            Some(p) => {
                out.push(p);
                assert(views(out@) =~= views(prior).push(p@));
            },
            None => {},
        }
        i = i + 1;
    }
    assert(views(lines@).take(lines@.len() as int) =~= views(lines@));
    out
}

/// The entries of a NUL-delimited name listing, in order.
pub fn listed_files(output: &str) -> (r: Vec<String>)
    ensures
        views(r@) == listed_names(output@),
{
    let pieces = split_text(output, '\0');
    let mut out: Vec<String> = Vec::new();
    let mut i: usize = 0;
    while i < pieces.len()
        invariant
            i <= pieces@.len(),
            views(pieces@) == split_on(output@, '\0'),
            views(out@) == non_empty(views(pieces@).take(i as int)),
        decreases pieces@.len() - i,
    {
        proof {
            assert(views(pieces@).take(i + 1).drop_last() =~= views(pieces@).take(i as int));
            assert(views(pieces@).take(i + 1).last() == pieces@[i as int]@);
        }
        let ghost prior = out@;
        if pieces[i].as_str().unicode_len() > 0 {
            out.push(pieces[i].clone());
            assert(views(out@) =~= views(prior).push(pieces@[i as int]@));
        }
        i = i + 1;
    }
    assert(views(pieces@).take(pieces@.len() as int) =~= views(pieces@));
    out
}

/// The untracked paths of a NUL-delimited porcelain status scan, in scan order.
pub fn untracked_files(output: &str) -> (r: Vec<String>)
    ensures
        views(r@) == untracked_paths(output@),
{
    let pieces = split_text(output, '\0');
    let marker = chars_of("?? ");
    let mut out: Vec<String> = Vec::new();
    let mut i: usize = 0;
    while i < pieces.len()
        invariant
            i <= pieces@.len(),
            marker@ == "?? "@,
            views(pieces@) == split_on(output@, '\0'),
            views(out@) == untracked_entries(views(pieces@).take(i as int)),
        decreases pieces@.len() - i,
    {
        proof {
            assert(views(pieces@).take(i + 1).drop_last() =~= views(pieces@).take(i as int));
            assert(views(pieces@).take(i + 1).last() == pieces@[i as int]@);
        }
        let ghost prior = out@;
        let cs = chars_of(pieces[i].as_str());
        if starts_with(&cs, &marker) {
            let path = string_of(&cs, marker.len(), cs.len());
            out.push(path);
            assert(cs@.subrange(marker@.len() as int, cs@.len() as int) =~= cs@.skip(
                marker@.len() as int,
            ));
            assert(views(out@) =~= views(prior).push(path@));
        }
        i = i + 1;
    }
    assert(views(pieces@).take(pieces@.len() as int) =~= views(pieces@));
    out
}

} // verus!
