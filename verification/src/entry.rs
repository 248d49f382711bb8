//! The entry filter: turning raw discovery results into candidate paths.
//!
//! A discovery result is either an error (reported, then discarded) or a
//! directory entry. Only regular files survive; a surviving path loses a
//! leading `./` so later display and matching see root-relative paths no
//! matter how the walk prefixed them.

use vstd::prelude::*;
use vstd::string::StrSliceExecFns;

verus! {

/// One result of directory discovery, as the walk engine reports it: either
/// an error carrying its rendered message, or an entry with its path and —
/// where the platform reports one — whether it is a regular file.
pub enum Entry {
    Error(String),
    Found { path: String, is_file: Option<bool> },
}

/// The normalized form of a discovered path: a leading `./` component is
/// stripped once, any other path is kept unchanged.
pub open spec fn strip_dot_slash_spec(s: Seq<char>) -> Seq<char> {
    if s.len() >= 2 && s[0] == '.' && s[1] == '/' {
        s.subrange(2, s.len() as int)
    } else {
        s
    }
}

/// Whether a discovery result survives the filter: it must be a successful
/// entry whose file type is known to be a regular file.
pub open spec fn is_candidate(e: Entry) -> bool {
    match e {
        Entry::Error(_) => false,
        Entry::Found { path: _, is_file } => is_file == Some(true),
    }
}

/// What the filter hands on for a discovery result: the normalized path for
/// a surviving regular file, nothing otherwise.
pub open spec fn filter_spec(e: Entry) -> Option<Seq<char>> {
    match e {
        Entry::Error(_) => None,
        Entry::Found { path, is_file } => if is_file == Some(true) {
            Some(strip_dot_slash_spec(path@))
        } else {
            None
        },
    }
}

/// Strips one leading `./` from a path, if present.
pub fn strip_dot_slash(path: String) -> (r: String)
    ensures
        r@ == strip_dot_slash_spec(path@),
{
    let s: &str = path.as_str();
    let n: usize = s.unicode_len();
    if n >= 2 && s.get_char(0) == '.' && s.get_char(1) == '/' {
        let rest: &str = s.substring_char(2, n);
        rest.to_owned()
    } else {
        path
    }
}

/// Normalizes one discovery result: errors and non-regular-file entries are
/// discarded, a regular file's path comes back with a leading `./` removed.
pub fn filter_result(result: Entry) -> (r: Option<String>)
    ensures
        match r {
            Some(p) => filter_spec(result) == Some(p@),
            None => filter_spec(result) is None,
        },
{
    let entry = match result {
        Entry::Found { path, is_file } => (path, is_file),
        Entry::Error(_) => {
            return None;
        },
    };
    let (path, is_file) = entry;
    match is_file {
        Some(true) => Some(strip_dot_slash(path)),
        _ => None,
    }
}

/// A discovered path that begins with `./` is delivered with exactly that
/// prefix removed; every other path is delivered unchanged.
pub proof fn lemma_prefix_normalization(s: Seq<char>)
    ensures
        s.len() >= 2 && s[0] == '.' && s[1] == '/' ==> strip_dot_slash_spec(s) == s.subrange(
            2,
            s.len() as int,
        ),
        !(s.len() >= 2 && s[0] == '.' && s[1] == '/') ==> strip_dot_slash_spec(s) == s,
{
}

} // verus!
