//! The host that the tool is installed on: its operating system, and how it
//! names an executable and a path inside a directory.

use crate::text::ends_with;
use vstd::prelude::*;

verus! {

/// The operating system of the host.
#[derive(Clone, Copy, Debug, PartialEq, Eq)]
pub enum HostOS {
    Android,
    Dragonfly,
    FreeBSD,
    IOS,
    Linux,
    MacOS,
    NetBSD,
    OpenBSD,
    Solaris,
    Windows,
}

/// The file name of the executable `name` on `os`: on Windows it ends in
/// `.exe`, elsewhere it is the name as it stands.
pub open spec fn bin_name(name: Seq<char>, os: HostOS) -> Seq<char> {
    if os is Windows {
        name + ".exe"@
    } else {
        name
    }
}

/// The file name of the executable `name` on `os`.
pub fn format_bin_name(name: &str, os: HostOS) -> (formatted: String)
    ensures
        formatted@ == bin_name(name@, os),
{
    let mut formatted = String::from_str(name);
    match os {
        HostOS::Windows => {
            formatted.append(".exe");
        },
        _ => {},
    }
    formatted
}

/// The path of `fragment` inside the directory `dir`: the directory, one
/// separator where the directory is not empty and does not end in one, then
/// the fragment.
pub open spec fn joined(dir: Seq<char>, fragment: Seq<char>) -> Seq<char> {
    if dir.len() == 0 || dir.last() == '/' {
        dir + fragment
    } else {
        dir + "/"@ + fragment
    }
}

/// The path of `fragment` inside the directory `dir`.
pub fn join(dir: &str, fragment: &str) -> (path: String)
    ensures
        path@ == joined(dir@, fragment@),
{
    let separated = dir.is_empty() || ends_with(dir, "/");
    assert(separated == (dir@.len() == 0 || dir@.last() == '/')) by {
        reveal_strlit("/");
        if dir@.len() > 0 {
            let tail = dir@.subrange(dir@.len() - 1, dir@.len() as int);
            assert(tail[0] == dir@.last());
            if dir@.last() == '/' {
                assert(tail =~= "/"@);
            }
        }
    }
    let mut path = String::from_str(dir);
    if !separated {
        path.append("/");
    }
    path.append(fragment);
    path
}

} // verus!
