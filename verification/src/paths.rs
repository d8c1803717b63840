//! Where the files of this program lie.
//!
//! A path is held as text, with `/` between its parts.

use vstd::prelude::*;

use crate::text::{glue, glue3, owned_text, text_of};

verus! {

/// The name of the directory that holds this program's files.
pub const RELAY_DIR: &'static str = ".agents-relay";

/// A file that is to be written.
#[derive(Debug, PartialEq, Eq)]
pub struct FileToWrite {
    pub path: String,
    pub text: String,
}

/// `leaf` below `base`; a `leaf` that starts at the root stands for itself.
pub open spec fn joined(base: Seq<char>, leaf: Seq<char>) -> Seq<char> {
    if leaf.len() > 0 && leaf[0] == '/' {
        leaf
    } else if base.len() == 0 || base.last() == '/' {
        base + leaf
    } else {
        base + "/"@ + leaf
    }
}

/// The home directory, or the current one where there is none.
pub open spec fn home_or_here(home: Option<Seq<char>>) -> Seq<char> {
    match home {
        Some(h) => h,
        None => "."@,
    }
}

/// The path of `leaf` in this program's directory.
pub open spec fn relay_file(home: Option<Seq<char>>, leaf: Seq<char>) -> Seq<char> {
    joined(joined(home_or_here(home), RELAY_DIR@), leaf)
}

/// `leaf` below `base`.
pub fn join_path(base: &str, leaf: &str) -> (r: String)
    ensures
        r@ == joined(base@, leaf@),
{
    let b = crate::text::chars_of(base);
    let l = crate::text::chars_of(leaf);
    if l.len() > 0 && l[0] == '/' {
        leaf.to_owned()
    } else if b.len() == 0 || b[b.len() - 1] == '/' {
        glue(base, leaf)
    } else {
        glue3(base, "/", leaf)
    }
}

/// `dirs::home_dir`: the user's home directory, as the environment gives it, with
/// what is no Unicode in it replaced. Nothing is promised of it.
#[verifier::external_body]
pub(crate) fn home_dir() -> (r: Option<String>) {
    dirs::home_dir().map(|p| p.to_string_lossy().into_owned())
}

/// The path of `leaf` in this program's directory below `home`.
pub fn relay_path(home: Option<&str>, leaf: &str) -> (r: String)
    ensures
        r@ == relay_file(text_of(home), leaf@),
{
    let base = match home {
        Some(h) => h,
        None => ".",
    };
    let dir = join_path(base, RELAY_DIR);
    join_path(dir.as_str(), leaf)
}

/// The path of `leaf` in this program's directory below the user's home directory.
pub fn relay_path_at_home(leaf: &str) -> (r: String)
    ensures
        exists|home: Option<Seq<char>>| r@ == #[trigger] relay_file(home, leaf@),
{
    let home = home_dir();
    let r = relay_path(crate::text::slice(&home), leaf);
    proof {
        assert(r@ == relay_file(owned_text(home), leaf@));
    }
    r
}

/// A path below another stands behind it with one `/` between them. One that starts at the root
/// stands for itself.
pub proof fn a_path_stands_below_another(base: Seq<char>, leaf: Seq<char>)
    ensures
        leaf.len() > 0 && leaf[0] == '/' ==> joined(base, leaf) == leaf,
        base.len() > 0 && base.last() != '/' && (leaf.len() == 0 || leaf[0] != '/') ==> joined(
            base,
            leaf,
        ) == base + seq!['/'] + leaf,
        base.len() > 0 && base.last() == '/' && (leaf.len() == 0 || leaf[0] != '/') ==> joined(
            base,
            leaf,
        ) == base + leaf,
        leaf.len() > 0 ==> joined(Seq::empty(), leaf) == leaf,
{
    reveal_strlit("/");
    assert("/"@ =~= seq!['/']);
    assert(Seq::<char>::empty() + leaf =~= leaf);
}

/// The files of this program lie in one directory below the home directory, or below the current
/// one where there is no home directory.
pub proof fn all_files_lie_in_one_directory(home: Seq<char>, leaf: Seq<char>)
    requires
        leaf.len() > 0 && leaf[0] != '/',
    ensures
        home.len() > 0 && home.last() != '/' ==> relay_file(Some(home), leaf) == home + "/"@
            + ".agents-relay"@ + "/"@ + leaf,
        relay_file(None, leaf) == "."@ + "/"@ + ".agents-relay"@ + "/"@ + leaf,
{
    reveal_strlit(".agents-relay");
    reveal_strlit(".");
    assert(".agents-relay"@.len() == 13 && ".agents-relay"@[0] == '.' && ".agents-relay"@[12]
        == 'y');
    assert("."@.len() == 1 && "."@[0] == '.');
}

} // verus!
