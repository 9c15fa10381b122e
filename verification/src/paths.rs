//! Paths as the library builds them: strings whose components are separated
//! by `/`.

use vstd::prelude::*;
use vstd::string::*;

verus! {

/// The path `base` extended by `rel`. An absolute `rel` replaces `base`;
/// otherwise `rel` follows `base`, after a `/` unless `base` is empty or
/// ends with one.
pub open spec fn join_path_spec(base: Seq<char>, rel: Seq<char>) -> Seq<char> {
    if rel.len() > 0 && rel[0] == '/' {
        rel
    } else if base.len() == 0 || base.last() == '/' {
        base + rel
    } else {
        base + seq!['/'] + rel
    }
}

/// Extends the path `base` by `rel`.
pub fn join_path(base: &str, rel: &str) -> (path: String)
    ensures
        path@ == join_path_spec(base@, rel@),
{
    if rel.unicode_len() > 0 && rel.get_char(0) == '/' {
        return rel.to_owned();
    }
    let mut path = base.to_owned();
    let len: usize = base.unicode_len();
    if len > 0 && base.get_char(len - 1) != '/' {
        proof {
            reveal_strlit("/");
            assert("/"@ =~= seq!['/']);
        }
        path.append("/");
    }
    path.append(rel);
    path
}

/// The directory of the application below the home directory `home`, or
/// below the current directory where no home directory is known.
pub open spec fn app_dir_spec(home: Option<Seq<char>>) -> Seq<char> {
    join_path_spec(
        match home {
            Some(home) => home,
            None => "."@,
        },
        ".transcribble"@,
    )
}

/// Finds the directory of the application.
pub fn app_dir(home: Option<&str>) -> (dir: String)
    ensures
        dir@ == app_dir_spec(
            match home {
                Some(home) => Some(home@),
                None => None,
            },
        ),
{
    match home {
        Some(home) => join_path(home, ".transcribble"),
        None => join_path(".", ".transcribble"),
    }
}

} // verus!
