//! Bookkeeping for spill files: unique names, the bounded collision
//! retry, and deletion exactly once.
//!
//! The file system work itself — creating the file with create-only
//! semantics, restricting its permissions, deleting it — is done by the
//! application shell; this module decides the name to try, whether a
//! collision may be retried, and whether a deletion is still owed.

use vstd::prelude::*;

use rand::Rng;

use crate::decimal::decimal_of;
use crate::decimal::u64_to_string;
use crate::errors::InfrastructureError;
use crate::magic_result::now_unix_millis;
use crate::sandbox::join_under;
use crate::sandbox::joined_path;

verus! {

/// How many name collisions are tolerated before the operation fails.
pub const MAX_FILENAME_RETRIES: u32 = 10;

pub open spec fn is_ascii_alphanumeric_char(c: char) -> bool {
    ||| 48 <= c as u32 <= 57
    ||| 65 <= c as u32 <= 90
    ||| 97 <= c as u32 <= 122
}

pub open spec fn is_lower_hex_char(c: char) -> bool {
    ||| 48 <= c as u32 <= 57
    ||| 97 <= c as u32 <= 102
}

pub open spec fn all_alnum(s: Seq<char>) -> bool {
    forall|i: int| 0 <= i < s.len() ==> is_ascii_alphanumeric_char(s[i])
}

pub open spec fn all_lower_hex(s: Seq<char>) -> bool {
    forall|i: int| 0 <= i < s.len() ==> is_lower_hex_char(s[i])
}

/// Relies on rand's alphanumeric distribution: every sample is one
/// character of `A-Z a-z 0-9`, so the collected string has exactly `len`
/// characters, all alphanumeric; which ones is random.
#[verifier::external_body]
fn random_alphanumeric(len: usize) -> (r: String)
    ensures
        r@.len() == len as nat,
        all_alnum(r@),
{
    rand::thread_rng().sample_iter(&rand::distributions::Alphanumeric).take(len).map(
        char::from,
    ).collect()
}

/// Relies on uuid::Uuid::new_v4 and its simple rendering: 32 lowercase
/// hexadecimal characters, without hyphens.
#[verifier::external_body]
fn fresh_uuid_simple() -> (r: String)
    ensures
        r@.len() == 32,
        all_lower_hex(r@),
{
    uuid::Uuid::new_v4().simple().to_string()
}

/// The shape of a candidate spill-file name: a timestamp, a unique token
/// and an independent random suffix, so a collision is both
/// distinguishable by cause and astronomically unlikely.
pub open spec fn temp_filename_of(ts: nat, token: Seq<char>, suffix: Seq<char>) -> Seq<char> {
    "temp_"@ + decimal_of(ts) + "_"@ + token + "_"@ + suffix + ".tmp"@
}

/// Assembles a candidate name from its three parts.
fn make_temp_filename(ts: u64, token: &str, suffix: &str) -> (r: String)
    ensures
        r@ == temp_filename_of(ts as nat, token@, suffix@),
{
    let mut s = String::from_str("temp_");
    let ts_text = u64_to_string(ts);
    s.append(ts_text.as_str());
    s.append("_");
    s.append(token);
    s.append("_");
    s.append(suffix);
    s.append(".tmp");
    s
}

/// The name of one spill-file candidate: a timestamp in decimal, a
/// 32-character lowercase-hexadecimal token, and an 8-character
/// alphanumeric suffix, in the fixed frame.
pub open spec fn candidate_name(p: Seq<char>) -> bool {
    exists|ts: nat, token: Seq<char>, suffix: Seq<char>|
        token.len() == 32 && all_lower_hex(token) && suffix.len() == 8 && all_alnum(suffix) && p
            == temp_filename_of(ts, token, suffix)
}

/// A candidate spill-file path: a candidate name joined under the spill
/// directory.
pub open spec fn spill_candidate(dir: Seq<char>, p: Seq<char>) -> bool {
    exists|name: Seq<char>| candidate_name(name) && p == joined_path(dir, name)
}

/// A fresh candidate name: the current clock reading, a fresh token, and
/// an eight-character random suffix.
pub fn generate_unique_filename() -> (r: String)
    ensures
        candidate_name(r@),
{
    let millis = now_unix_millis();
    let ts: u64 = if millis >= 0 {
        millis as u64
    } else {
        0
    };
    let token = fresh_uuid_simple();
    let suffix = random_alphanumeric(8);
    let r = make_temp_filename(ts, token.as_str(), suffix.as_str());
    proof {
        assert(token@.len() == 32 && all_lower_hex(token@) && suffix@.len() == 8 && all_alnum(
            suffix@,
        ) && r@ == temp_filename_of(ts as nat, token@, suffix@));
    }
    r
}

/// The bounded collision retry: called when a candidate name already
/// existed, it either advances the attempt counter or gives up with the
/// dedicated retries-exceeded failure. This is the only automatic retry
/// in the crate.
pub fn next_attempt_after_collision(attempts: u32) -> (r: Result<u32, InfrastructureError>)
    requires
        attempts < MAX_FILENAME_RETRIES,
    ensures
        attempts + 1 < MAX_FILENAME_RETRIES ==> r == Ok::<u32, InfrastructureError>(
            (attempts + 1) as u32,
        ),
        attempts + 1 >= MAX_FILENAME_RETRIES ==> (r matches Err(e)
            && e matches InfrastructureError::MaxRetriesExceeded(m) && m@
            == "Failed to generate unique temp filename"@),
{
    let next = attempts + 1;
    if next >= MAX_FILENAME_RETRIES {
        Err(
            InfrastructureError::MaxRetriesExceeded(
                String::from_str("Failed to generate unique temp filename"),
            ),
        )
    } else {
        Ok(next)
    }
}

/// The owner of one spill file's lifecycle: it carries the candidate
/// path the file is to be created at and whether the deletion owed for
/// it has been performed. Disposal is idempotent: the first reckoning
/// yields the deletion, every later one yields nothing.
pub struct TempFileHandler {
    path: String,
    cleaned_up: bool,
}

impl TempFileHandler {
    pub closed spec fn spec_path(&self) -> Seq<char> {
        self.path@
    }

    pub closed spec fn is_cleaned_up(&self) -> bool {
        self.cleaned_up
    }

    /// A handler for one fresh candidate under the spill directory: its
    /// path is always a candidate name — timestamp, token and suffix in
    /// the fixed frame — joined under that directory, and its deletion
    /// is owed.
    pub fn new(spill_dir: &str) -> (r: Self)
        ensures
            spill_candidate(spill_dir@, r.spec_path()),
            !r.is_cleaned_up(),
    {
        let name = generate_unique_filename();
        let path = join_under(spill_dir, name.as_str());
        proof {
            assert(candidate_name(name@) && path@ == joined_path(spill_dir@, name@));
        }
        TempFileHandler { path, cleaned_up: false }
    }

    pub fn path(&self) -> (r: &str)
        ensures
            r@ == self.spec_path(),
    {
        self.path.as_str()
    }

    /// Settles the deletion owed for the file: true exactly on the first
    /// call, after which the debt is recorded as paid. Safe to invoke any
    /// number of times.
    pub fn begin_cleanup(&mut self) -> (delete_now: bool)
        ensures
            delete_now == !old(self).is_cleaned_up(),
            final(self).is_cleaned_up(),
            final(self).spec_path() == old(self).spec_path(),
    {
        let delete_now = !self.cleaned_up;
        self.cleaned_up = true;
        delete_now
    }
}

/// The factory of spill files: it remembers the spill directory in which
/// the application shell creates them.
pub struct FsTempStorageService {
    temp_dir: String,
}

impl FsTempStorageService {
    pub fn new(temp_dir: String) -> (r: Self)
        ensures
            r.spec_temp_dir() == temp_dir@,
    {
        FsTempStorageService { temp_dir }
    }

    pub closed spec fn spec_temp_dir(&self) -> Seq<char> {
        self.temp_dir@
    }

    pub fn temp_dir(&self) -> (r: &str)
        ensures
            r@ == self.spec_temp_dir(),
    {
        self.temp_dir.as_str()
    }
}

} // verus!
