//! The run configuration, resolved from the argument list and the value of
//! the `IGNORE_CASE` environment variable.

use vstd::prelude::*;
use vstd::string::StrSliceExecFns;
use crate::search::{search, search_case_insensitive, search_case_insensitive_spec, search_spec};
use crate::text::views;

verus! {

/// The text `"1"`, the only value that turns case-insensitive matching on.
pub open spec fn is_on(s: Seq<char>) -> bool {
    s == seq!['1']
}

/// Whether matching ignores case: an explicit fourth argument decides when
/// present; otherwise the `IGNORE_CASE` variable, when set to `"1"`.
pub open spec fn ignore_case_of(args: Seq<String>, ignore_case_var: Option<Seq<char>>) -> bool {
    if args.len() >= 4 {
        is_on(args[3]@)
    } else {
        match ignore_case_var {
            Some(v) => is_on(v),
            None => false,
        }
    }
}

/// The value of an optional text, as characters.
pub open spec fn opt_view(v: Option<&str>) -> Option<Seq<char>> {
    match v {
        Some(s) => Some(s@),
        None => None,
    }
}

/// The message of the error for an argument list that is too short.
pub open spec fn not_enough_arguments() -> Seq<char> {
    "not enough arguments"@
}

/// Returns whether `s` is exactly `"1"`.
fn flag_is_on(s: &str) -> (r: bool)
    ensures
        r == is_on(s@),
{
    if s.unicode_len() != 1 {
        return false;
    }
    let c = s.get_char(0);
    assert(c == '1' ==> s@ =~= seq!['1']);
    c == '1'
}

/// What one run searches for, where, and how.
pub struct Config<'a> {
    pub query: &'a str,
    pub file_path: &'a str,
    pub ignore_case: bool,
}

impl<'a> Config<'a> {
    /// Builds the configuration from the program's arguments (the program's
    /// name first) and the value of `IGNORE_CASE`, `None` when it is unset.
    /// Fails when fewer than two arguments follow the program's name.
    pub fn build(args: &'a [String], ignore_case_var: Option<&str>) -> (r: Result<
        Config<'a>,
        &'static str,
    >)
        ensures
            r is Err <==> args@.len() < 3,
            r matches Err(e) ==> e@ == not_enough_arguments(),
            r matches Ok(c) ==> {
                &&& c.query@ == args@[1]@
                &&& c.file_path@ == args@[2]@
                &&& c.ignore_case == ignore_case_of(args@, opt_view(ignore_case_var))
            },
    {
        if args.len() < 3 {
            proof {
                reveal_strlit("not enough arguments");
            }
            return Err("not enough arguments");
        }
        let query = args[1].as_str();
        let file_path = args[2].as_str();
        let ignore_case = if args.len() >= 4 {
            flag_is_on(args[3].as_str())
        } else {
            match ignore_case_var {
                Some(v) => flag_is_on(v),
                None => false,
            }
        };
        Ok(Config { query, file_path, ignore_case })
    }

    /// Returns the lines of `contents` that match the query, case-insensitively
    /// when the configuration says so.
    pub fn matching_lines<'b>(&self, contents: &'b str) -> (r: Vec<&'b str>)
        ensures
            views(r@) == if self.ignore_case {
                search_case_insensitive_spec(self.query@, contents@)
            } else {
                search_spec(self.query@, contents@)
            },
    {
        if self.ignore_case {
            search_case_insensitive(self.query, contents)
        } else {
            search(self.query, contents)
        }
    }
}

} // verus!
