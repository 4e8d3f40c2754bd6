//! A model of the slice of POSIX path syntax the library relies on: a path
//! is a sequence of characters, '/' separates components, and a filename is
//! a nonempty component free of separators.

use vstd::prelude::*;
use vstd::string::*;

verus! {

/// A filename component: nonempty and free of path separators.
pub open spec fn valid_name(name: Seq<char>) -> bool {
    &&& name.len() > 0
    &&& forall|i: int| 0 <= i < name.len() ==> name[i] != '/'
}

/// The path of the entry called `name` directly inside the directory `dir`.
pub open spec fn join_spec(dir: Seq<char>, name: Seq<char>) -> Seq<char> {
    dir + seq!['/'] + name
}

/// `path` denotes an entry lying strictly inside the directory `dir`.
pub open spec fn strictly_inside(path: Seq<char>, dir: Seq<char>) -> bool {
    exists|name: Seq<char>| valid_name(name) && path == #[trigger] join_spec(dir, name)
}

/// The suffix of `p` after its last '/': all of `p` when it has no
/// separator, and empty when `p` is empty or ends in a separator.
pub open spec fn base_name(p: Seq<char>) -> Seq<char>
    decreases p.len(),
{
    if p.len() == 0 {
        Seq::empty()
    } else if p.last() == '/' {
        Seq::empty()
    } else {
        base_name(p.drop_last()).push(p.last())
    }
}

/// The final filename component of `p`, if `p` has one.
///
/// The reading is the library's own: a path ending in a separator has no
/// filename, and a final `..` component counts as a name.  The resolved
/// self paths the library feeds it always end in a real filename, where the
/// two readings agree.
pub open spec fn file_name_spec(p: Seq<char>) -> Option<Seq<char>> {
    if base_name(p).len() == 0 {
        None
    } else {
        Some(base_name(p))
    }
}

/// When every character of `p` at or after position `i` is a non-separator
/// and position `i` sits just after a separator (or at the start), the base
/// name of `p` is exactly the suffix of `p` starting at `i`.
proof fn lemma_base_name_is_suffix(p: Seq<char>, i: int)
    requires
        0 <= i <= p.len(),
        forall|j: int| i <= j < p.len() ==> p[j] != '/',
        i > 0 ==> p[i - 1] == '/',
    ensures
        base_name(p) == p.subrange(i, p.len() as int),
    decreases p.len(),
{
    if p.len() == i {
        assert(base_name(p) =~= p.subrange(i, p.len() as int));
    } else {
        lemma_base_name_is_suffix(p.drop_last(), i);
        assert(p.drop_last().subrange(i, p.len() - 1) =~= p.subrange(i, p.len() - 1));
        assert(base_name(p) =~= p.subrange(i, p.len() as int));
    }
}

/// Appends `name` to the directory path `dir` with a separator between.
pub fn join_path(dir: &str, name: &str) -> (r: String)
    ensures
        r@ == join_spec(dir@, name@),
{
    let mut r = String::from_str(dir);
    r.append("/");
    r.append(name);
    proof {
        reveal_strlit("/");
        assert(r@ =~= join_spec(dir@, name@));
    }
    r
}

/// Returns the final filename component of `path`, or `None` when `path` is
/// empty or ends in a separator.
pub fn file_name(path: &str) -> (r: Option<String>)
    ensures
        r matches Some(n) ==> file_name_spec(path@) == Some(n@) && valid_name(n@),
        r is None ==> file_name_spec(path@) is None,
{
    let len = path.unicode_len();
    let mut i = len;
    while i > 0 && path.get_char(i - 1) != '/'
        invariant
            i <= len,
            len == path@.len(),
            forall|j: int| i <= j < len ==> path@[j] != '/',
        decreases i,
    {
        i = i - 1;
    }
    proof {
        lemma_base_name_is_suffix(path@, i as int);
    }
    if i == len {
        None
    } else {
        Some(path.substring_char(i, len).to_owned())
    }
}

} // verus!
