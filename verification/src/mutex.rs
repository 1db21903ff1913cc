//! The single-instance guard: the name of the system mutex that stands for
//! the running bridge, and what the attempt to create it means.

use vstd::prelude::*;
use vstd::string::*;
use md5::Digest;

verus! {

/// The namespace that makes a mutex visible to every session of the
/// machine.
pub const GLOBAL_PREFIX: &'static str = "Global\\";

/// The error code of a call that succeeded.
pub const ERROR_SUCCESS: u32 = 0;

/// The error code of a create call that found the object in place.
pub const ERROR_ALREADY_EXISTS: u32 = 183;

/// The MD5 digest of a text's UTF-8 bytes, in lower-case hexadecimal
/// digits.
pub uninterp spec fn md5_hex(text: Seq<char>) -> Seq<char>;

/// Calls `Md5::digest` on the text's bytes and formats the digest in
/// lower-case hexadecimal digits.
#[verifier::external_body]
fn digest_hex(text: &str) -> (hex: String)
    ensures
        hex@ == md5_hex(text@),
{
    format!("{:x}", md5::Md5::digest(text))
}

/// The name of the mutex of an executable: the global namespace, then the
/// digest of the executable's path.
pub open spec fn mutex_name_of(executable: Seq<char>) -> Seq<char> {
    GLOBAL_PREFIX@ + md5_hex(executable)
}

/// The name of the mutex that stands for a running instance of the
/// executable at the given path.
pub fn mutex_name(executable: &str) -> (name: String)
    ensures
        name@ == mutex_name_of(executable@),
{
    let mut name = String::from_str(GLOBAL_PREFIX);
    name.append(digest_hex(executable).as_str());
    name
}

/// What the attempt to create the mutex came to.
#[derive(Clone, Copy, Debug, PartialEq, Eq, Structural)]
pub enum MutexOutcome {
    /// The mutex is new: this is the only instance.
    Created,
    /// The mutex was there: another instance is running.
    AlreadyRunning,
    /// The mutex could not be created.
    Failed,
}

/// Reads the error code that the system reports after the create call.
pub fn create_outcome(error: u32) -> (outcome: MutexOutcome)
    ensures
        outcome == if error == ERROR_SUCCESS {
            MutexOutcome::Created
        } else if error == ERROR_ALREADY_EXISTS {
            MutexOutcome::AlreadyRunning
        } else {
            MutexOutcome::Failed
        },
{
    if error == ERROR_SUCCESS {
        MutexOutcome::Created
    } else if error == ERROR_ALREADY_EXISTS {
        MutexOutcome::AlreadyRunning
    } else {
        MutexOutcome::Failed
    }
}

} // verus!
