//! Telling agents apart by the names of their programs.

use vstd::prelude::*;

use crate::text::{a_part_stands_between_two_others, begins_with, contains, includes, same};

verus! {

/// Whether a program is an editor of the Visual Studio Code family, by its name in lower case.
/// A name that merely has `code` in it, such as that of another tool, does not count.
pub open spec fn names_vscode(n: Seq<char>) -> bool {
    ||| n == "code"@
    ||| "code "@.is_prefix_of(n)
    ||| "code-server"@.is_prefix_of(n)
    ||| contains(n, "vscode"@)
    ||| n == "codium"@
}

/// Whether a program is an editor of the Visual Studio Code family, by its name in lower case.
pub fn is_vscode(n: &str) -> (r: bool)
    ensures
        r == names_vscode(n@),
{
    same(n, "code") || begins_with(n, "code ") || begins_with(n, "code-server") || includes(
        n,
        "vscode",
    ) || same(n, "codium")
}

/// The name of an editor of the family is `code` or `codium`, begins with `code` and a blank or as
/// that of the server does, or has `vscode` in it. No other name that has `code` in it is one.
pub proof fn editors_are_named_like_this(n: Seq<char>, rest: Seq<char>)
    ensures
        names_vscode("code"@) && names_vscode("codium"@),
        names_vscode("code "@ + rest) && names_vscode("code-server"@ + rest),
        names_vscode(n + "vscode"@ + rest),
        n != "code"@ && n != "codium"@ && !"code "@.is_prefix_of(n) && !"code-server"@.is_prefix_of(
            n,
        ) && !contains(n, "vscode"@) ==> !names_vscode(n),
{
    a_part_stands_between_two_others(n + "vscode"@ + rest, "vscode"@);
    let a = "code "@ + rest;
    assert("code "@ =~= a.subrange(0, "code "@.len() as int));
    let b = "code-server"@ + rest;
    assert("code-server"@ =~= b.subrange(0, "code-server"@.len() as int));
}

} // verus!
