//! Mapping a request path to a filesystem path under the base directory,
//! and taking a path's base file name.

use vstd::prelude::*;

verus! {

use vstd::string::*;

/// The fixed base directory, with the separator that joining appends.
pub open spec fn base_dir_prefix() -> Seq<char> {
    "static/"@
}

/// The filesystem path a request path resolves to: the base directory
/// joined with the request path, taken verbatim.
pub open spec fn resolved_spec(path: Seq<char>) -> Seq<char> {
    base_dir_prefix() + path
}

/// The base file name of a path: what follows the last `/`, or the whole
/// path when it holds none; empty when the path ends in `/`.
pub open spec fn base_name_spec(p: Seq<char>) -> Seq<char>
    decreases p.len(),
{
    if p.len() == 0 {
        Seq::empty()
    } else if p.last() == '/' {
        Seq::empty()
    } else {
        base_name_spec(p.drop_last()).push(p.last())
    }
}

/// Joins the base directory and the request path, without sanitization.
pub fn resolve_path(path: &str) -> (r: String)
    ensures
        r@ == resolved_spec(path@),
{
    let mut s: String = String::from_str("static/");
    s.append(path);
    s
}

/// When no `/` occurs at or after position `i`, and `i` is the start of the
/// final component, the base name is exactly the suffix from `i`.
proof fn lemma_base_name_after_slash(p: Seq<char>, i: int)
    requires
        0 <= i <= p.len(),
        forall|k: int| i <= k < p.len() ==> p[k] != '/',
        i == 0 || p[i - 1] == '/',
    ensures
        base_name_spec(p) == p.subrange(i, p.len() as int),
    decreases p.len() - i,
{
    if i == p.len() {
        assert(p.subrange(i, p.len() as int) =~= Seq::<char>::empty());
        if i > 0 {
            assert(p.last() == '/');
        }
    } else {
        assert(p.last() != '/');
        let q = p.drop_last();
        lemma_base_name_after_slash(q, i);
        assert(q.subrange(i, q.len() as int).push(p.last()) =~= p.subrange(
            i,
            p.len() as int,
        ));
    }
}

/// Returns the base file name of `p`: the characters after its last `/`.
pub fn base_name(p: &str) -> (r: String)
    ensures
        r@ == base_name_spec(p@),
{
    let n: usize = p.unicode_len();
    let mut i: usize = n;
    while i > 0 && p.get_char(i - 1) != '/'
        invariant
            i <= n,
            n == p@.len(),
            forall|k: int| i <= k < n ==> p@[k] != '/',
        decreases i,
    {
        i = i - 1;
    }
    let suffix = p.substring_char(i, n);
    proof {
        lemma_base_name_after_slash(p@, i as int);
    }
    String::from_str(suffix)
}

} // verus!
