//! Locating the static assets (badges, icons) inside their directory.

use vstd::prelude::*;
use vstd::string::*;

verus! {

/// The path of the file `name` inside the directory `dir`: `name` itself
/// when `dir` is empty, `dir` followed by `name` when `dir` already ends in
/// a separator, and the two joined by `/` otherwise.
pub open spec fn joined_path(dir: Seq<char>, name: Seq<char>) -> Seq<char> {
    if dir.len() == 0 || dir.last() == '/' {
        dir + name
    } else {
        dir + seq!['/'] + name
    }
}

/// The path of the asset file `name` inside the directory `dir`.
pub fn asset_path(dir: &str, name: &str) -> (r: String)
    ensures
        r@ == joined_path(dir@, name@),
{
    let n = dir.unicode_len();
    let mut path = String::from_str(dir);
    if n > 0 && dir.get_char(n - 1) != '/' {
        proof {
            reveal_strlit("/");
        }
        path.append("/");
    }
    path.append(name);
    path
}

} // verus!
