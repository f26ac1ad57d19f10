//! Credentials and their constant-time verification.

use vstd::prelude::*;

use subtle::ConstantTimeEq;

use crate::errors::AuthenticationError;
use crate::errors::ValidationError;

verus! {

/// `c` occurs somewhere in `s`.
pub open spec fn contains_char(s: Seq<char>, c: char) -> bool {
    exists|i: int| 0 <= i < s.len() && s[i] == c
}

/// Relies on subtle's constant-time slice equality: the comparison runs
/// in time independent of the contents and is true exactly when the two
/// strings are equal (UTF-8 renders equal strings as equal bytes and
/// distinct strings as distinct bytes).
#[verifier::external_body]
fn str_ct_eq(a: &str, b: &str) -> (r: bool)
    ensures
        r == (a@ == b@),
{
    a.as_bytes().ct_eq(b.as_bytes()).into()
}

fn str_contains_char(s: &str, c: char) -> (r: bool)
    ensures
        r == contains_char(s@, c),
{
    let n = s.unicode_len();
    let mut i: usize = 0;
    while i < n
        invariant
            n == s@.len(),
            i <= n,
            forall|j: int| 0 <= j < i ==> s@[j] != c,
        decreases n - i,
    {
        if s.get_char(i) == c {
            return true;
        }
        i = i + 1;
    }
    false
}

/// A username/password pair; the username may not contain the `:` that
/// separates the two on the wire, and neither part may be empty.
#[derive(Clone, Debug)]
pub struct BasicAuthCredentials {
    username: String,
    password: String,
}

impl View for BasicAuthCredentials {
    type V = (Seq<char>, Seq<char>);

    closed spec fn view(&self) -> (Seq<char>, Seq<char>) {
        (self.username@, self.password@)
    }
}

impl BasicAuthCredentials {
    pub fn new(username: &str, password: &str) -> (r: Result<Self, ValidationError>)
        ensures
            username@.len() == 0 || password@.len() == 0 ==> r == Err::<
                BasicAuthCredentials,
                ValidationError,
            >(ValidationError::EmptyValue),
            username@.len() > 0 && password@.len() > 0 && contains_char(username@, ':') ==> r
                == Err::<BasicAuthCredentials, ValidationError>(ValidationError::InvalidCharacter),
            username@.len() > 0 && password@.len() > 0 && !contains_char(username@, ':') ==> (
            r matches Ok(c) && c@ == (username@, password@)),
    {
        if username.unicode_len() == 0 || password.unicode_len() == 0 {
            return Err(ValidationError::EmptyValue);
        }
        if str_contains_char(username, ':') {
            return Err(ValidationError::InvalidCharacter);
        }
        Ok(BasicAuthCredentials { username: username.to_owned(), password: password.to_owned() })
    }

    pub fn username(&self) -> (r: &str)
        ensures
            r@ == self@.0,
    {
        self.username.as_str()
    }

    pub fn password(&self) -> (r: &str)
        ensures
            r@ == self@.1,
    {
        self.password.as_str()
    }

    /// Whether the supplied pair matches this one; both parts are
    /// compared in constant time, and the answer is exact.
    pub fn verify(&self, username: &str, password: &str) -> (r: bool)
        ensures
            r == (self@.0 == username@ && self@.1 == password@),
    {
        let u_match = str_ct_eq(self.username.as_str(), username);
        let p_match = str_ct_eq(self.password.as_str(), password);
        u_match && p_match
    }
}

/// Credential equality is defined by `verify`: both parts must match.
impl PartialEq for BasicAuthCredentials {
    fn eq(&self, other: &Self) -> (r: bool) {
        self.verify(other.username.as_str(), other.password.as_str())
    }
}

impl Eq for BasicAuthCredentials {

}

impl vstd::std_specs::cmp::PartialEqSpecImpl for BasicAuthCredentials {
    open spec fn obeys_eq_spec() -> bool {
        true
    }

    open spec fn eq_spec(&self, other: &Self) -> bool {
        self@ == other@
    }
}

/// The yes/no credential capability: holds the expected pair and answers
/// verification requests in constant time.
pub struct BasicAuthService {
    expected_username: String,
    expected_password: String,
}

impl View for BasicAuthService {
    type V = (Seq<char>, Seq<char>);

    closed spec fn view(&self) -> (Seq<char>, Seq<char>) {
        (self.expected_username@, self.expected_password@)
    }
}

impl BasicAuthService {
    pub fn new(username: &str, password: &str) -> (r: Self)
        ensures
            r@ == (username@, password@),
    {
        BasicAuthService {
            expected_username: username.to_owned(),
            expected_password: password.to_owned(),
        }
    }

    /// Accepts exactly the expected pair; everything else is an
    /// invalid-credentials failure.
    pub fn verify_credentials(&self, credentials: &BasicAuthCredentials) -> (r: Result<
        (),
        AuthenticationError,
    >)
        ensures
            r is Ok <==> credentials@ == self@,
            r matches Err(e) ==> e == AuthenticationError::InvalidCredentials,
    {
        let username_matches = str_ct_eq(self.expected_username.as_str(), credentials.username());
        let password_matches = str_ct_eq(self.expected_password.as_str(), credentials.password());
        if username_matches && password_matches {
            Ok(())
        } else {
            Err(AuthenticationError::InvalidCredentials)
        }
    }
}

} // verus!
