//! The interface allow/deny filter: an ordered list of name-matching
//! patterns plus a polarity flag, evaluated against each interface name.

use vstd::prelude::*;

verus! {

/// A configured rule set. With `is_list_ignored` true the patterns name
/// the interfaces to exclude and everything else is included; with it
/// false the patterns name the sole interfaces to include.
#[derive(Clone, Debug)]
pub struct Filter {
    pub is_list_ignored: bool,
    pub list: Vec<String>,
}

/// Whether the pattern, read as a regular expression, matches somewhere in
/// the interface name. The outside regex engine decides this; it is a
/// function of the two strings alone.
pub uninterp spec fn regex_match(pattern: Seq<char>, name: Seq<char>) -> bool;

/// Relies on regex::Regex::new and regex::Regex::is_match: whether the
/// pattern, compiled as a regular expression, matches somewhere in the
/// name. A pattern that does not compile matches no name. The result
/// depends on the pattern and the name alone.
#[verifier::external_body]
fn pattern_matches(pattern: &str, name: &str) -> (r: bool)
    ensures
        r == regex_match(pattern@, name@),
{
    match regex::Regex::new(pattern) {
        Ok(re) => re.is_match(name),
        Err(_) => false,
    }
}

/// Whether some pattern of the list matches the name.
pub open spec fn any_pattern_matches(list: Seq<String>, name: Seq<char>) -> bool {
    exists|i: int| 0 <= i < list.len() && regex_match(list[i]@, name)
}

/// The filter decision for one interface name: with no rule set every
/// interface is included; otherwise a matched name is included exactly
/// when the list is an ignore list, and an unmatched name exactly when it
/// is not.
pub open spec fn spec_should_include(name: Seq<char>, filter: Option<Filter>) -> bool {
    match filter {
        None => true,
        Some(f) => {
            if any_pattern_matches(f.list@, name) {
                !f.is_list_ignored
            } else {
                f.is_list_ignored
            }
        },
    }
}

/// Decide whether the named interface takes part in the aggregate. The
/// decision depends only on the name and the rule set; an absent rule set
/// includes every interface.
pub fn should_include(name: &str, filter: &Option<Filter>) -> (keep: bool)
    ensures
        keep == spec_should_include(name@, *filter),
        filter.is_none() ==> keep,
{
    match filter {
        None => true,
        Some(f) => {
            let n = f.list.len();
            let mut matched = false;
            let mut i: usize = 0;
            while i < n
                invariant
                    n == f.list@.len(),
                    i <= n,
                    matched == (exists|j: int|
                        0 <= j < i && regex_match(f.list@[j]@, name@)),
                decreases n - i,
            {
                if pattern_matches(f.list[i].as_str(), name) {
                    matched = true;
                }
                i = i + 1;
            }
            if matched {
                !f.is_list_ignored
            } else {
                f.is_list_ignored
            }
        },
    }
}

} // verus!
