//! MIME types in `type/subtype` shape, both parts non-empty.

use vstd::prelude::*;

use crate::errors::ValidationError;

verus! {

/// Position `k` carries the single `/` of a well-shaped MIME string, with
/// a non-empty part on each side.
pub open spec fn mime_split_at(s: Seq<char>, k: int) -> bool {
    &&& 0 < k
    &&& k + 1 < s.len()
    &&& s[k] == '/'
    &&& forall|j: int| 0 <= j < s.len() && s[j] == '/' ==> j == k
}

pub open spec fn mime_str_ok(s: Seq<char>) -> bool {
    exists|k: int| mime_split_at(s, k)
}

/// A MIME type split into its two parts.
#[derive(Clone, Debug, PartialEq, Eq, Hash)]
pub struct MimeType {
    type_part: String,
    subtype_part: String,
}

impl View for MimeType {
    type V = (Seq<char>, Seq<char>);

    closed spec fn view(&self) -> (Seq<char>, Seq<char>) {
        (self.type_part@, self.subtype_part@)
    }
}

impl MimeType {
    /// Parses `type/subtype`: succeeds exactly on the well-shaped
    /// strings; rejects the empty string as empty, anything else
    /// ill-shaped — no `/`, more than one `/`, or an empty part — as an
    /// invalid character.
    pub fn new(mime_str: &str) -> (r: Result<Self, ValidationError>)
        ensures
            r is Ok <==> mime_str_ok(mime_str@),
            mime_str@.len() == 0 ==> r == Err::<MimeType, ValidationError>(
                ValidationError::EmptyValue,
            ),
            mime_str@.len() > 0 && !mime_str_ok(mime_str@) ==> r == Err::<
                MimeType,
                ValidationError,
            >(ValidationError::InvalidCharacter),
            r matches Ok(m) ==> exists|k: int|
                mime_split_at(mime_str@, k) && m@.0 == mime_str@.subrange(0, k) && m@.1
                    == mime_str@.subrange(k + 1, mime_str@.len() as int),
    {
        let n = mime_str.unicode_len();
        if n == 0 {
            proof {
                assert forall|j: int| !mime_split_at(mime_str@, j) by {}
            }
            return Err(ValidationError::EmptyValue);
        }
        let mut i: usize = 0;
        let mut slash: Option<usize> = None;
        while i < n
            invariant
                n == mime_str@.len(),
                i <= n,
                slash matches Some(k) ==> k < i && mime_str@[k as int] == '/' && (forall|j: int|
                    0 <= j < i && mime_str@[j] == '/' ==> j == k as int),
                slash is None ==> forall|j: int| 0 <= j < i ==> mime_str@[j] != '/',
            decreases n - i,
        {
            if mime_str.get_char(i) == '/' {
                match slash {
                    None => {
                        slash = Some(i);
                    },
                    Some(first) => {
                        // two distinct separators: no position can carry
                        // the single one a well-shaped string has
                        assert(!mime_str_ok(mime_str@)) by {
                            assert forall|j: int| !mime_split_at(mime_str@, j) by {
                                if mime_split_at(mime_str@, j) {
                                    assert(first as int == j);
                                    assert(i as int == j);
                                }
                            }
                        }
                        return Err(ValidationError::InvalidCharacter);
                    },
                }
            }
            i = i + 1;
        }
        match slash {
            None => {
                proof {
                    assert forall|j: int| !mime_split_at(mime_str@, j) by {
                        if mime_split_at(mime_str@, j) {
                            assert(mime_str@[j] != '/');
                        }
                    }
                }
                Err(ValidationError::InvalidCharacter)
            },
            Some(k) => {
                if k == 0 || k + 1 == n {
                    assert(!mime_str_ok(mime_str@)) by {
                        assert forall|j: int| !mime_split_at(mime_str@, j) by {
                            if mime_split_at(mime_str@, j) {
                                assert(j == k as int);
                            }
                        }
                    }
                    return Err(ValidationError::InvalidCharacter);
                }
                assert(mime_split_at(mime_str@, k as int));
                let type_part = mime_str.substring_char(0, k).to_owned();
                let subtype_part = mime_str.substring_char(k + 1, n).to_owned();
                Ok(MimeType { type_part, subtype_part })
            },
        }
    }

    /// The inherent counterpart of the standard conversion from `&str`.
    pub fn try_from(value: &str) -> (r: Result<Self, ValidationError>)
        ensures
            r is Ok <==> mime_str_ok(value@),
            value@.len() == 0 ==> r == Err::<MimeType, ValidationError>(
                ValidationError::EmptyValue,
            ),
            value@.len() > 0 && !mime_str_ok(value@) ==> r == Err::<MimeType, ValidationError>(
                ValidationError::InvalidCharacter,
            ),
            r matches Ok(m) ==> exists|k: int|
                mime_split_at(value@, k) && m@.0 == value@.subrange(0, k) && m@.1
                    == value@.subrange(k + 1, value@.len() as int),
    {
        Self::new(value)
    }

    /// Accepts any two non-empty parts, already split.
    pub fn from_parts(type_part: String, subtype_part: String) -> (r: Result<
        Self,
        ValidationError,
    >)
        ensures
            type_part@.len() == 0 || subtype_part@.len() == 0 ==> r == Err::<
                MimeType,
                ValidationError,
            >(ValidationError::EmptyValue),
            type_part@.len() > 0 && subtype_part@.len() > 0 ==> (r matches Ok(m) && m@ == (
                type_part@,
                subtype_part@,
            )),
    {
        if type_part.as_str().unicode_len() == 0 || subtype_part.as_str().unicode_len() == 0 {
            return Err(ValidationError::EmptyValue);
        }
        Ok(MimeType { type_part, subtype_part })
    }

    pub fn type_part(&self) -> (r: &str)
        ensures
            r@ == self@.0,
    {
        self.type_part.as_str()
    }

    pub fn subtype(&self) -> (r: &str)
        ensures
            r@ == self@.1,
    {
        self.subtype_part.as_str()
    }

    /// The `type/subtype` rendering.
    pub fn as_str(&self) -> (r: String)
        ensures
            r@ == self@.0 + "/"@ + self@.1,
    {
        let mut out = self.type_part.clone();
        out.append("/");
        out.append(self.subtype_part.as_str());
        out
    }

    pub fn is_text(&self) -> (r: bool)
        ensures
            r == (self@.0 == "text"@),
    {
        self.type_part == String::from_str("text")
    }

    pub fn is_binary(&self) -> (r: bool)
        ensures
            r == (self@.0 != "text"@),
    {
        !self.is_text()
    }

    pub fn is_application(&self) -> (r: bool)
        ensures
            r == (self@.0 == "application"@),
    {
        self.type_part == String::from_str("application")
    }
}

} // verus!
