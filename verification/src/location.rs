//! Where the application keeps its files: a directory named `.comparingapp`
//! in the user's home directory, holding the database file.

use vstd::prelude::*;

verus! {

/// A path with a relative component appended, as `PathBuf::join` writes it on
/// Unix: a `/` goes between them unless the path is empty or already ends in one.
pub open spec fn joined_path(base: Seq<char>, component: Seq<char>) -> Seq<char> {
    if base.len() == 0 || base.last() == '/' {
        base + component
    } else {
        base + "/"@ + component
    }
}

fn join_path(base: &str, component: &str) -> (r: String)
    ensures
        r@ == joined_path(base@, component@),
{
    let n = base.unicode_len();
    let mut path = String::from_str(base);
    if n == 0 {
    } else if base.get_char(n - 1) == '/' {
        proof {
            assert(base@.last() == base@[n - 1]);
        }
    } else {
        path.append("/");
    }
    path.append(component);
    path
}

/// The application directory under a home directory.
pub fn application_directory(home: &str) -> (r: String)
    ensures
        r@ == joined_path(home@, ".comparingapp"@),
{
    join_path(home, ".comparingapp")
}

/// The database file inside the application directory.
pub fn database_path(directory: &str) -> (r: String)
    ensures
        r@ == joined_path(directory@, "comparison.db"@),
{
    join_path(directory, "comparison.db")
}

} // verus!
