//! Filenames restricted to characters that are legal on every major
//! filesystem.
//!
//! A `WindowsCompatibleFilename` is non-empty, at most 310 characters
//! long, and contains none of the reserved characters
//! `/ \ : * ? " < > |` nor the NUL character. Construction is the only
//! validation point.

use vstd::prelude::*;

use crate::errors::ValidationError;

verus! {

pub const MAX_FILENAME_LENGTH: usize = 310;

/// The characters a filename may never contain.
pub open spec fn is_reserved_char(c: char) -> bool {
    ||| c == '/'
    ||| c == '\\'
    ||| c == ':'
    ||| c == '*'
    ||| c == '?'
    ||| c == '"'
    ||| c == '<'
    ||| c == '>'
    ||| c == '|'
    ||| c == '\u{0}'
}

pub open spec fn has_reserved_char(s: Seq<char>) -> bool {
    exists|i: int| 0 <= i < s.len() && is_reserved_char(s[i])
}

/// The exact outcome of validating a candidate filename `s`: the checks
/// run in a fixed order and the first violated one names the failure.
pub open spec fn filename_outcome(s: Seq<char>) -> Result<Seq<char>, ValidationError> {
    if s.len() == 0 {
        Err(ValidationError::EmptyValue)
    } else if s.len() > MAX_FILENAME_LENGTH {
        Err(ValidationError::ExceedsMaxLength)
    } else if has_reserved_char(s) {
        Err(ValidationError::InvalidCharacter)
    } else {
        Ok(s)
    }
}

pub open spec fn filename_ok(s: Seq<char>) -> bool {
    &&& s.len() > 0
    &&& s.len() <= MAX_FILENAME_LENGTH
    &&& !has_reserved_char(s)
}

/// A filename that has passed validation; immutable once constructed.
#[derive(Clone, Debug, PartialEq, Eq)]
pub struct WindowsCompatibleFilename {
    inner: String,
}

impl View for WindowsCompatibleFilename {
    type V = Seq<char>;

    closed spec fn view(&self) -> Seq<char> {
        self.inner@
    }
}

impl WindowsCompatibleFilename {
    /// Validation is the only way to obtain a filename value.
    pub fn new(filename: &str) -> (r: Result<Self, ValidationError>)
        ensures
            r matches Ok(f) ==> filename_outcome(filename@) == Ok::<
                Seq<char>,
                ValidationError,
            >(filename@) && f@ == filename@ && filename_ok(f@),
            r matches Err(e) ==> filename_outcome(filename@) == Err::<
                Seq<char>,
                ValidationError,
            >(e),
    {
        let n = filename.unicode_len();
        if n == 0 {
            return Err(ValidationError::EmptyValue);
        }
        if n > MAX_FILENAME_LENGTH {
            return Err(ValidationError::ExceedsMaxLength);
        }
        let mut i: usize = 0;
        while i < n
            invariant
                n == filename@.len(),
                i <= n,
                0 < n <= MAX_FILENAME_LENGTH,
                forall|j: int| 0 <= j < i ==> !is_reserved_char(filename@[j]),
            decreases n - i,
        {
            let c = filename.get_char(i);
            if c == '/' || c == '\\' || c == ':' || c == '*' || c == '?' || c == '"' || c == '<'
                || c == '>' || c == '|' || c == '\u{0}' {
                assert(is_reserved_char(filename@[i as int]));
                return Err(ValidationError::InvalidCharacter);
            }
            i = i + 1;
        }
        Ok(WindowsCompatibleFilename { inner: filename.to_owned() })
    }

    pub fn as_str(&self) -> (r: &str)
        ensures
            r@ == self@,
    {
        self.inner.as_str()
    }
}

} // verus!
