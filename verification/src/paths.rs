//! Slash-separated paths as texts.

use vstd::prelude::*;

use crate::text::{ends_with, starts_with};

verus! {

/// A path read from the place `base`: an absolute path stands alone.
pub open spec fn joined_path(base: Seq<char>, path: Seq<char>) -> Seq<char> {
    if path.len() > 0 && path[0] == '/' {
        path
    } else if base.len() == 0 || base.last() == '/' {
        base + path
    } else {
        base + "/"@ + path
    }
}

/// Reads a path from the place `base`.
pub fn join_path(base: &str, path: &str) -> (out: String)
    ensures
        out@ == joined_path(base@, path@),
{
    proof {
        reveal_strlit("/");
    }
    if starts_with(path, "/") {
        assert("/"@[0] == path@[0]);
        return path.to_owned();
    }
    assert(path@.len() > 0 && path@[0] == '/' ==> path@.subrange(0, 1) =~= "/"@);
    let slash = ends_with(base, "/");
    assert(base@.len() > 0 && base@.last() == '/' ==> base@.subrange(
        base@.len() - 1,
        base@.len() as int,
    ) =~= "/"@);
    if base.is_empty() || slash {
        assert(slash ==> "/"@[0] == base@.last());
        base.to_owned().concat(path)
    } else {
        base.to_owned().concat("/").concat(path)
    }
}

/// A relative path is put behind its base with one slash between them, and an absolute path stands
/// for itself.
pub proof fn paths_are_joined_by_one_slash(base: Seq<char>, path: Seq<char>)
    requires
        path.len() == 0 || path[0] != '/',
    ensures
        base.len() > 0 && base.last() != '/' ==> joined_path(base, path) == base + seq!['/'] + path,
        base.len() > 0 && base.last() == '/' ==> joined_path(base, path) == base + path,
        base.len() == 0 ==> joined_path(base, path) == path,
        joined_path(base, seq!['/'] + path) == seq!['/'] + path,
{
    reveal_strlit("/");
    assert("/"@ =~= seq!['/']);
    if base.len() == 0 {
        assert(base + path =~= path);
    }
}

} // verus!
