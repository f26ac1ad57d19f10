//! Relative paths that are structurally incapable of escaping a sandbox.
//!
//! A `RelativePath` is validated once, at construction: it must not start
//! with `/` or a space, must not contain a doubled separator, and must not
//! contain a path segment equal to `.` or `..`. Everything downstream may
//! rely on these facts without re-checking.

use vstd::prelude::*;

use crate::errors::ValidationError;

verus! {

/// A `..` segment occupies positions `i .. i + 2` and is delimited by `/`
/// or by an end of the string.
pub open spec fn dotdot_at(s: Seq<char>, i: int) -> bool {
    &&& 0 <= i
    &&& i + 2 <= s.len()
    &&& s[i] == '.'
    &&& s[i + 1] == '.'
    &&& (i == 0 || s[i - 1] == '/')
    &&& (i + 2 == s.len() || s[i + 2] == '/')
}

/// A `.` segment occupies position `i` and is delimited by `/` or by an
/// end of the string.
pub open spec fn dot_at(s: Seq<char>, i: int) -> bool {
    &&& 0 <= i < s.len()
    &&& s[i] == '.'
    &&& (i == 0 || s[i - 1] == '/')
    &&& (i + 1 == s.len() || s[i + 1] == '/')
}

/// Two adjacent separators at positions `i` and `i + 1`.
pub open spec fn double_sep_at(s: Seq<char>, i: int) -> bool {
    &&& 0 <= i
    &&& i + 2 <= s.len()
    &&& s[i] == '/'
    &&& s[i + 1] == '/'
}

pub open spec fn has_dotdot_segment(s: Seq<char>) -> bool {
    exists|i: int| dotdot_at(s, i)
}

pub open spec fn has_dot_segment(s: Seq<char>) -> bool {
    exists|i: int| dot_at(s, i)
}

pub open spec fn has_double_sep(s: Seq<char>) -> bool {
    exists|i: int| double_sep_at(s, i)
}

pub open spec fn starts_with_sep(s: Seq<char>) -> bool {
    s.len() > 0 && s[0] == '/'
}

pub open spec fn starts_with_space(s: Seq<char>) -> bool {
    s.len() > 0 && s[0] == ' '
}

/// All the structural conditions a sandbox-relative path must meet.
pub open spec fn rel_path_ok(s: Seq<char>) -> bool {
    &&& !starts_with_sep(s)
    &&& !starts_with_space(s)
    &&& !has_double_sep(s)
    &&& !has_dotdot_segment(s)
    &&& !has_dot_segment(s)
}

/// The exact outcome of validating a candidate path `s`: the checks run
/// in a fixed order and the first violated one names the failure.
pub open spec fn rel_path_outcome(s: Seq<char>) -> Result<Seq<char>, ValidationError> {
    if starts_with_sep(s) {
        Err(ValidationError::AbsolutePath)
    } else if starts_with_space(s) {
        Err(ValidationError::InvalidPath)
    } else if has_double_sep(s) {
        Err(ValidationError::InvalidPath)
    } else if has_dotdot_segment(s) {
        Err(ValidationError::PathTraversal)
    } else if has_dot_segment(s) {
        Err(ValidationError::InvalidPath)
    } else {
        Ok(s)
    }
}

/// A caller-supplied path that has passed sandbox-relative validation.
#[derive(Clone, Debug, PartialEq, Eq)]
pub struct RelativePath {
    inner: String,
}

impl View for RelativePath {
    type V = Seq<char>;

    closed spec fn view(&self) -> Seq<char> {
        self.inner@
    }
}

impl RelativePath {
    /// Validation is the only way to obtain a `RelativePath`; the checks
    /// run in a fixed order and each failure kind is specific.
    pub fn new(path: &str) -> (r: Result<Self, ValidationError>)
        ensures
            r matches Ok(p) ==> rel_path_outcome(path@) == Ok::<Seq<char>, ValidationError>(
                path@,
            ) && p@ == path@ && rel_path_ok(p@),
            r matches Err(e) ==> rel_path_outcome(path@) == Err::<Seq<char>, ValidationError>(e),
    {
        let n = path.unicode_len();
        if n > 0 && path.get_char(0) == '/' {
            return Err(ValidationError::AbsolutePath);
        }
        if n > 0 && path.get_char(0) == ' ' {
            return Err(ValidationError::InvalidPath);
        }
        let mut i: usize = 0;
        while i + 1 < n
            invariant
                n == path@.len(),
                i <= n,
                n > 0 ==> i < n,
                !starts_with_sep(path@),
                !starts_with_space(path@),
                forall|j: int| 0 <= j < i ==> !double_sep_at(path@, j),
            decreases n - i,
        {
            if path.get_char(i) == '/' && path.get_char(i + 1) == '/' {
                assert(double_sep_at(path@, i as int));
                return Err(ValidationError::InvalidPath);
            }
            i = i + 1;
        }
        assert forall|j: int| !double_sep_at(path@, j) by {
            if 0 <= j && j + 2 <= n {
                assert(j < i);
            }
        }

        let mut i: usize = 0;
        while i < n
            invariant
                n == path@.len(),
                i <= n,
                !starts_with_sep(path@),
                !starts_with_space(path@),
                !has_double_sep(path@),
                forall|j: int| 0 <= j < i ==> !dotdot_at(path@, j),
            decreases n - i,
        {
            if path.get_char(i) == '.' && i + 1 < n && path.get_char(i + 1) == '.' && (i == 0
                || path.get_char(i - 1) == '/') && (i + 2 == n || path.get_char(i + 2) == '/') {
                assert(dotdot_at(path@, i as int));
                return Err(ValidationError::PathTraversal);
            }
            i = i + 1;
        }
        assert forall|j: int| !dotdot_at(path@, j) by {
            if 0 <= j && j + 2 <= n {
                assert(j < i);
            }
        }

        let mut i: usize = 0;
        while i < n
            invariant
                n == path@.len(),
                i <= n,
                !starts_with_sep(path@),
                !starts_with_space(path@),
                !has_double_sep(path@),
                !has_dotdot_segment(path@),
                forall|j: int| 0 <= j < i ==> !dot_at(path@, j),
            decreases n - i,
        {
            if path.get_char(i) == '.' && (i == 0 || path.get_char(i - 1) == '/') && (i + 1 == n
                || path.get_char(i + 1) == '/') {
                assert(dot_at(path@, i as int));
                return Err(ValidationError::InvalidPath);
            }
            i = i + 1;
        }
        assert forall|j: int| !dot_at(path@, j) by {
            if 0 <= j < n {
                assert(j < i);
            }
        }

        Ok(RelativePath { inner: path.to_owned() })
    }

    pub fn as_str(&self) -> (r: &str)
        ensures
            r@ == self@,
    {
        self.inner.as_str()
    }
}

/// Every constructed `RelativePath` satisfies all structural conditions:
/// validation succeeds exactly on the paths that meet them.
pub proof fn lemma_new_accepts_exactly_valid(s: Seq<char>)
    ensures
        rel_path_outcome(s) is Ok <==> rel_path_ok(s),
        rel_path_outcome(s) is Ok ==> rel_path_outcome(s) == Ok::<Seq<char>, ValidationError>(s),
{
}

/// Every violating path fails with the failure kind that names its
/// violation — traversal, absolute, or malformed — never a generic one;
/// the checks run in the order written here.
pub proof fn lemma_violations_fail_with_their_kind(s: Seq<char>)
    ensures
        starts_with_sep(s) ==> rel_path_outcome(s) == Err::<Seq<char>, ValidationError>(
            ValidationError::AbsolutePath,
        ),
        !starts_with_sep(s) && starts_with_space(s) ==> rel_path_outcome(s) == Err::<
            Seq<char>,
            ValidationError,
        >(ValidationError::InvalidPath),
        !starts_with_sep(s) && !starts_with_space(s) && has_double_sep(s) ==> rel_path_outcome(s)
            == Err::<Seq<char>, ValidationError>(ValidationError::InvalidPath),
        !starts_with_sep(s) && !starts_with_space(s) && !has_double_sep(s) && has_dotdot_segment(s)
            ==> rel_path_outcome(s) == Err::<Seq<char>, ValidationError>(
            ValidationError::PathTraversal,
        ),
        !starts_with_sep(s) && !starts_with_space(s) && !has_double_sep(s) && !has_dotdot_segment(
            s,
        ) && has_dot_segment(s) ==> rel_path_outcome(s) == Err::<Seq<char>, ValidationError>(
            ValidationError::InvalidPath,
        ),
{
}

} // verus!
