//! Resolution of validated relative paths against a sandbox root.
//!
//! The resolver joins a `RelativePath` to the configured root and keeps
//! the structural safety net of re-checking that the result still lies
//! under the root. Because the input type already forbids `..` segments
//! and absolute prefixes, the check is proven to pass: resolution cannot
//! fail and the result is always a descendant of the root.

use vstd::prelude::*;

use crate::errors::ValidationError;
use crate::path::RelativePath;

verus! {

/// How a relative path is joined to a root: a single separator is
/// inserted unless the root is empty or already ends with one.
pub open spec fn joined_path(root: Seq<char>, rel: Seq<char>) -> Seq<char> {
    if root.len() == 0 {
        rel
    } else if root[root.len() - 1] == '/' {
        root + rel
    } else {
        root + "/"@ + rel
    }
}

/// `p` lies under `root`: it carries `root` as a prefix.
pub open spec fn is_descendant_of(p: Seq<char>, root: Seq<char>) -> bool {
    p.len() >= root.len() && p.subrange(0, root.len() as int) == root
}

/// Joining any relative path to any root yields a descendant of the
/// root: the sandbox cannot be escaped by construction.
pub proof fn lemma_joined_path_descends(root: Seq<char>, rel: Seq<char>)
    ensures
        is_descendant_of(joined_path(root, rel), root),
{
    let p = joined_path(root, rel);
    if root.len() == 0 {
        assert(p.subrange(0, 0) =~= root);
    } else if root[root.len() - 1] == '/' {
        assert(p.subrange(0, root.len() as int) =~= root);
    } else {
        assert(p.subrange(0, root.len() as int) =~= root);
    }
}

/// For every relative path with no `.` or `..` segment, no leading
/// separator, no leading space and no doubled separator, construction
/// succeeds and resolution against any root yields a descendant of that
/// root.
pub proof fn lemma_valid_paths_resolve_inside_root(root: Seq<char>, s: Seq<char>)
    requires
        crate::path::rel_path_ok(s),
    ensures
        crate::path::rel_path_outcome(s) == Ok::<Seq<char>, ValidationError>(s),
        is_descendant_of(joined_path(root, s), root),
{
    lemma_joined_path_descends(root, s);
}

/// `s` starts with `prefix`, compared character by character.
pub fn str_starts_with(s: &str, prefix: &str) -> (r: bool)
    ensures
        r == is_descendant_of(s@, prefix@),
{
    let n = s.unicode_len();
    let m = prefix.unicode_len();
    if m > n {
        return false;
    }
    let mut i: usize = 0;
    while i < m
        invariant
            n == s@.len(),
            m == prefix@.len(),
            m <= n,
            i <= m,
            forall|j: int| 0 <= j < i ==> s@[j] == prefix@[j],
        decreases m - i,
    {
        if s.get_char(i) != prefix.get_char(i) {
            assert(s@.subrange(0, m as int)[i as int] != prefix@[i as int]);
            return false;
        }
        i = i + 1;
    }
    proof {
        assert(s@.subrange(0, m as int) =~= prefix@);
    }
    true
}

/// Joins a file name to a directory, inserting the separator the join
/// spec asks for.
pub fn join_under(dir: &str, name: &str) -> (r: String)
    ensures
        r@ == joined_path(dir@, name@),
{
    let n = dir.unicode_len();
    if n == 0 {
        return name.to_owned();
    }
    let mut full = dir.to_owned();
    if dir.get_char(n - 1) != '/' {
        full.append("/");
    }
    full.append(name);
    full
}

/// The sandbox: a configured root below which every resolved path lies.
pub struct PathSandbox {
    base_dir: String,
}

impl View for PathSandbox {
    type V = Seq<char>;

    closed spec fn view(&self) -> Seq<char> {
        self.base_dir@
    }
}

impl PathSandbox {
    pub fn new(base_dir: String) -> (r: Self)
        ensures
            r@ == base_dir@,
    {
        PathSandbox { base_dir }
    }

    /// Joins the validated relative path to the root. The prefix check
    /// is kept as a structural safety net, and proven never to fire:
    /// resolution always succeeds and the result is a descendant of the
    /// root.
    pub fn resolve_path(&self, path: &RelativePath) -> (r: Result<String, ValidationError>)
        ensures
            r matches Ok(p) && p@ == joined_path(self@, path@) && is_descendant_of(p@, self@),
    {
        let full = join_under(self.base_dir.as_str(), path.as_str());
        proof {
            lemma_joined_path_descends(self@, path@);
        }
        if !str_starts_with(full.as_str(), self.base_dir.as_str()) {
            return Err(ValidationError::PathTraversal);
        }
        Ok(full)
    }
}

} // verus!
