//! Properties that hold of the search functions and the configuration for
//! all inputs.

use vstd::prelude::*;
use crate::config::{ignore_case_of, is_on};
use crate::search::{matches_exact, search_case_insensitive_spec, search_spec};
use crate::text::{contains_seq, lines_of};

verus! {

/// Every text contains the empty text.
pub proof fn lemma_empty_is_contained(hay: Seq<char>)
    ensures
        contains_seq(hay, Seq::empty()),
{
    let empty = Seq::<char>::empty();
    assert(hay.subrange(0, 0int + empty.len()) =~= empty);
}

/// Filtering lines by the empty query keeps every line.
proof fn lemma_filter_empty_query(lines: Seq<Seq<char>>)
    ensures
        lines.filter(|l: Seq<char>| matches_exact(Seq::empty(), l)) == lines,
    decreases lines.len(),
{
    reveal(Seq::filter);
    if lines.len() > 0 {
        lemma_filter_empty_query(lines.drop_last());
        lemma_empty_is_contained(lines.last());
        assert(lines.drop_last().push(lines.last()) =~= lines);
    }
}

/// An empty query matches every line: the case-sensitive search returns
/// all lines of the contents.
pub proof fn lemma_empty_query_returns_every_line(contents: Seq<char>)
    ensures
        search_spec(Seq::empty(), contents) == lines_of(contents),
{
    lemma_filter_empty_query(lines_of(contents));
}

/// Searching is a function of the query and the contents alone: two runs on
/// the same inputs give the same lines, for either kind of matching.
pub proof fn lemma_search_is_repeatable(
    query: Seq<char>,
    contents: Seq<char>,
    first: Seq<Seq<char>>,
    second: Seq<Seq<char>>,
    ignore_case: bool,
)
    requires
        ignore_case ==> first == search_case_insensitive_spec(query, contents),
        ignore_case ==> second == search_case_insensitive_spec(query, contents),
        !ignore_case ==> first == search_spec(query, contents),
        !ignore_case ==> second == search_spec(query, contents),
    ensures
        first == second,
{
}

/// An explicit fourth argument decides alone: whatever `IGNORE_CASE` holds,
/// matching ignores case exactly when that argument is `"1"`.
pub proof fn lemma_argument_overrides_variable(
    args: Seq<String>,
    var_a: Option<Seq<char>>,
    var_b: Option<Seq<char>>,
)
    requires
        args.len() >= 4,
    ensures
        ignore_case_of(args, var_a) == is_on(args[3]@),
        ignore_case_of(args, var_a) == ignore_case_of(args, var_b),
{
}

/// Without a fourth argument, matching ignores case exactly when
/// `IGNORE_CASE` is set to `"1"`; unset or any other value leaves it off.
pub proof fn lemma_variable_decides_without_argument(
    args: Seq<String>,
    var: Option<Seq<char>>,
)
    requires
        args.len() < 4,
    ensures
        ignore_case_of(args, var) == (var == Some(seq!['1'])),
{
}

} // verus!
