//! Unix-style path composition.
//!
//! Paths are held as plain strings. Joining follows the usual Unix rule:
//! an absolute right-hand side replaces the left-hand side, otherwise the
//! two are glued with a single `'/'` separator.

use vstd::prelude::*;

verus! {

/// The join of `base` and `child`: `child` alone when it is absolute or
/// `base` is empty, otherwise `base`, a separator if one is missing, and
/// `child`.
pub open spec fn path_join(base: Seq<char>, child: Seq<char>) -> Seq<char> {
    if child.len() > 0 && child[0] == '/' {
        child
    } else if base.len() == 0 {
        child
    } else if base.last() == '/' {
        base + child
    } else {
        base + seq!['/'] + child
    }
}

/// Join two path fragments as [`path_join`] describes.
pub fn join_path(base: &str, child: &str) -> (r: String)
    ensures
        r@ == path_join(base@, child@),
{
    let child_len = child.unicode_len();
    if child_len > 0 && child.get_char(0) == '/' {
        return child.to_owned();
    }
    let base_len = base.unicode_len();
    if base_len == 0 {
        return child.to_owned();
    }
    let mut r = base.to_owned();
    if base.get_char(base_len - 1) != '/' {
        r.append("/");
        proof {
            reveal_strlit("/");
            assert("/"@ =~= seq!['/']);
        }
    }
    r.append(child);
    proof {
        assert(r@ =~= path_join(base@, child@));
    }
    r
}

/// The conventional build-output location of the release artifact named
/// `name`.
pub open spec fn release_artifact(name: Seq<char>) -> Seq<char> {
    "target/release/"@ + name
}

/// Compose the build-output path of the release artifact named `name`.
pub fn release_artifact_path(name: &str) -> (r: String)
    ensures
        r@ == release_artifact(name@),
{
    let mut r: String = "target/release/".to_owned();
    r.append(name);
    r
}

} // verus!
