//! Paths as text.
//!
//! The crate is handed the paths of the directories that its caller made, as
//! text, and says where inside them the files of a daemon are. Components are
//! parted by `/`.

use vstd::prelude::*;
use vstd::string::*;

verus! {

/// `name` inside `dir`. An absolute `name` stands for itself, and so does any
/// `name` where `dir` is empty; else the two are put together with one `/`
/// between them, which is not doubled where `dir` already ends in one.
pub open spec fn spec_join(dir: Seq<char>, name: Seq<char>) -> Seq<char> {
    if dir.len() == 0 || (name.len() > 0 && name[0] == '/') {
        name
    } else if dir.last() == '/' {
        dir + name
    } else {
        dir + seq!['/'] + name
    }
}

/// The path of `name` inside `dir`.
pub fn join(dir: &str, name: &str) -> (path: String)
    ensures
        path@ == spec_join(dir@, name@),
{
    let dir_len: usize = dir.unicode_len();
    let name_len: usize = name.unicode_len();
    if dir_len == 0 || (name_len > 0 && name.get_char(0) == '/') {
        return String::from_str(name);
    }
    let mut path = String::from_str(dir);
    if dir.get_char(dir_len - 1) != '/' {
        proof {
            reveal_strlit("/");
            assert("/"@ =~= seq!['/']);
        }
        path.append("/");
    }
    path.append(name);
    path
}

} // verus!
