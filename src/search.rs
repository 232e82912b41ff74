//! Selecting the lines of a text that contain a query.

use vstd::prelude::*;
use crate::text::{
    contains_seq, lines_of, lower_of, lowercase, split_lines, string_views, text_contains, views,
};

verus! {

/// `line` contains `query`, character for character.
pub open spec fn matches_exact(query: Seq<char>, line: Seq<char>) -> bool {
    contains_seq(line, query)
}

/// The lines of `contents` that contain `query`, in order.
pub open spec fn search_spec(query: Seq<char>, contents: Seq<char>) -> Seq<Seq<char>> {
    lines_of(contents).filter(|l: Seq<char>| matches_exact(query, l))
}

/// Returns the lines of `contents` that contain `query`, in the order in
/// which they appear, each as a slice of `contents` without its terminator.
pub fn search<'a>(query: &str, contents: &'a str) -> (r: Vec<&'a str>)
    ensures
        views(r@) == search_spec(query@, contents@),
{
    let lines = split_lines(contents);
    let ghost all = lines_of(contents@);
    let ghost pred = |l: Seq<char>| matches_exact(query@, l);
    let mut result: Vec<&'a str> = Vec::new();
    let mut i: usize = 0;
    while i < lines.len()
        invariant
            i <= lines.len(),
            views(lines@) == all,
            all == lines_of(contents@),
            pred == (|l: Seq<char>| matches_exact(query@, l)),
            views(result@) == all.take(i as int).filter(pred),
        decreases lines.len() - i,
    {
        let line = lines[i];
        proof {
            assert(all.take(i + 1).drop_last() =~= all.take(i as int));
            assert(all.take(i + 1).last() == line@);
            reveal(Seq::filter);
        }
        let found = text_contains(line, query);
        assert(pred(line@) == found);
        if found {
            result.push(line);
            assert(views(result@) =~= views(result@).drop_last().push(line@));
        }
        i += 1;
    }
    assert(all.take(lines.len() as int) =~= all);
    result
}

/// `line` contains `query` once both are lowercased.
pub open spec fn matches_folded(query: Seq<char>, line: Seq<char>) -> bool {
    contains_seq(lower_of(line), lower_of(query))
}

/// The lines of `contents` that contain `query` when both are lowercased,
/// in order and in their own casing.
pub open spec fn search_case_insensitive_spec(query: Seq<char>, contents: Seq<char>) -> Seq<
    Seq<char>,
> {
    lines_of(contents).filter(|l: Seq<char>| matches_folded(query, l))
}

/// The entries of `lines` whose key, at the same index of `keys`, contains
/// `query`, in order.
pub open spec fn select_by_key(
    lines: Seq<Seq<char>>,
    keys: Seq<Seq<char>>,
    query: Seq<char>,
) -> Seq<Seq<char>>
    decreases lines.len(),
{
    if lines.len() == 0 {
        Seq::empty()
    } else {
        let prev = select_by_key(lines.drop_last(), keys.drop_last(), query);
        if contains_seq(keys[lines.len() - 1], query) {
            prev.push(lines.last())
        } else {
            prev
        }
    }
}

/// Returns the entries of `lines` whose key at the same index of `keys`
/// contains `query`, in order. With the lowercased lines as keys and the
/// lowercased query, this is the case-insensitive selection.
pub fn keep_matching<'a>(lines: &Vec<&'a str>, keys: &Vec<String>, query: &str) -> (r: Vec<
    &'a str,
>)
    requires
        lines.len() == keys.len(),
    ensures
        views(r@) == select_by_key(views(lines@), string_views(keys@), query@),
{
    let ghost ls = views(lines@);
    let ghost ks = string_views(keys@);
    let mut result: Vec<&'a str> = Vec::new();
    let mut i: usize = 0;
    while i < lines.len()
        invariant
            i <= lines.len(),
            lines.len() == keys.len(),
            ls == views(lines@),
            ks == string_views(keys@),
            views(result@) == select_by_key(ls.take(i as int), ks.take(i as int), query@),
        decreases lines.len() - i,
    {
        let line = lines[i];
        proof {
            assert(ls.take(i + 1).drop_last() =~= ls.take(i as int));
            assert(ks.take(i + 1).drop_last() =~= ks.take(i as int));
            assert(ls.take(i + 1).last() == line@);
            assert(ks.take(i + 1)[i as int] == keys@[i as int]@);
        }
        if text_contains(keys[i].as_str(), query) {
            result.push(line);
            assert(views(result@) =~= views(result@).drop_last().push(line@));
        }
        i += 1;
    }
    assert(ls.take(lines.len() as int) =~= ls);
    assert(ks.take(lines.len() as int) =~= ks);
    result
}

/// Selecting by the lowercased lines is filtering by `matches_folded`.
proof fn lemma_select_by_folded_keys(lines: Seq<Seq<char>>, keys: Seq<Seq<char>>, query: Seq<char>)
    requires
        keys.len() == lines.len(),
        forall|j: int| 0 <= j < lines.len() ==> keys[j] == lower_of(#[trigger] lines[j]),
    ensures
        select_by_key(lines, keys, lower_of(query)) == lines.filter(
            |l: Seq<char>| matches_folded(query, l),
        ),
    decreases lines.len(),
{
    reveal(Seq::filter);
    if lines.len() > 0 {
        let n = lines.len() - 1;
        assert(keys[n] == lower_of(lines[n]));
        lemma_select_by_folded_keys(lines.drop_last(), keys.drop_last(), query);
    }
}

/// Returns the lines of `contents` that contain `query` once both are
/// lowercased, in the order in which they appear and in their own casing.
pub fn search_case_insensitive<'a>(query: &str, contents: &'a str) -> (r: Vec<&'a str>)
    ensures
        views(r@) == search_case_insensitive_spec(query@, contents@),
{
    let folded_query = lowercase(query);
    let lines = split_lines(contents);
    let mut keys: Vec<String> = Vec::new();
    let mut i: usize = 0;
    while i < lines.len()
        invariant
            i <= lines.len(),
            keys.len() == i,
            forall|j: int| 0 <= j < i ==> #[trigger] keys@[j]@ == lower_of(lines@[j]@),
        decreases lines.len() - i,
    {
        keys.push(lowercase(lines[i]));
        i += 1;
    }
    proof {
        let ls = views(lines@);
        let ks = string_views(keys@);
        assert forall|j: int| 0 <= j < ls.len() implies ks[j] == lower_of(#[trigger] ls[j]) by {
            assert(keys@[j]@ == lower_of(lines@[j]@));
        }
        lemma_select_by_folded_keys(ls, ks, query@);
    }
    keep_matching(&lines, &keys, folded_query.as_str())
}

} // verus!
