//! Locations written with a leading `~` for the user's home directory.
//!
//! Paths are text with `/` between the components.

use vstd::prelude::*;
use vstd::string::StrSliceExecFns;
use crate::key::entry_location;
use crate::key::join_location;

verus! {

/// `rest` seen from `base`: `rest` itself where it starts at the root, else
/// the two joined by one separator.
pub open spec fn joined(base: Seq<char>, rest: Seq<char>) -> Seq<char> {
    if rest.len() > 0 && rest[0] == '/' {
        rest
    } else {
        entry_location(base, rest)
    }
}

/// Joins `rest` onto `base`. A `rest` that starts at the root replaces
/// `base`.
pub fn join(base: &str, rest: &str) -> (path: String)
    ensures
        path@ == joined(base@, rest@),
{
    if rest.unicode_len() > 0 && rest.get_char(0) == '/' {
        rest.to_owned()
    } else {
        join_location(base, rest)
    }
}

/// Whether `path` is `~/` and something, possibly nothing, after it.
pub open spec fn under_home(path: Seq<char>) -> bool {
    path.len() >= 2 && path[0] == '~' && path[1] == '/'
}

/// Whether `path` is `~` alone.
pub open spec fn is_home(path: Seq<char>) -> bool {
    path.len() == 1 && path[0] == '~'
}

/// `path` with a leading `~` replaced by `home`.
///
/// `~` alone is the home directory and `~/rest` is `rest` under it; both are
/// `None` where no home directory is known. Every other path stands for
/// itself, `~user` among them.
pub open spec fn expanded(path: Seq<char>, home: Option<Seq<char>>) -> Option<Seq<char>> {
    if under_home(path) {
        match home {
            Some(home) => Some(joined(home, path.skip(2))),
            None => None,
        }
    } else if is_home(path) {
        home
    } else {
        Some(path)
    }
}

/// Takes a path and expands the home directory if it is `~` or starts with
/// `~/`. `home` is the user's home directory, where one is known.
pub fn expand_home_dir(path: &str, home: Option<&str>) -> (full: Option<String>)
    ensures
        full.deep_view() == expanded(path@, home.deep_view()),
{
    let len = path.unicode_len();
    if len >= 2 && path.get_char(0) == '~' && path.get_char(1) == '/' {
        match home {
            Some(home) => {
                let rest = path.substring_char(2, len);
                assert(rest@ =~= path@.skip(2));
                Some(join(home, rest))
            },
            None => None,
        }
    } else if len == 1 && path.get_char(0) == '~' {
        match home {
            Some(home) => Some(home.to_owned()),
            None => None,
        }
    } else {
        Some(path.to_owned())
    }
}

} // verus!
