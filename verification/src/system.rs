//! What the library reads from the machine it runs on: the user's home
//! directory, the platform's path separator, the clock and whether a file
//! exists. Nothing is known of these
//! answers beyond what each item states.

use vstd::prelude::*;
use crate::text::is_platform_separator;

verus! {

/// The user's home directory as `directories::BaseDirs::new()` finds it
/// (on Unix `$HOME` when it is set and not empty, else the password
/// database), as the bytes of its path (`OsStr::as_encoded_bytes`, the raw
/// bytes on Unix); `None` when it finds none. Nothing is stated of it: which
/// home comes back depends on the environment.
#[verifier::external_body]
pub(crate) fn home_dir() -> (r: Option<Vec<u8>>)
{
    match directories::BaseDirs::new() {
        Some(dirs) => Some(dirs.home_dir().as_os_str().as_encoded_bytes().to_vec()),
        None => None,
    }
}

/// `std::path::MAIN_SEPARATOR`: the character that separates the parts of
/// a path on the platform the library was built for, `/` on Unix and `\`
/// on Windows. Which of the two it is depends on the platform.
#[verifier::external_body]
pub(crate) fn path_separator() -> (r: char)
    ensures
        is_platform_separator(r),
{
    std::path::MAIN_SEPARATOR
}

/// Milliseconds since the Unix epoch by the system clock (`SystemTime::now`),
/// or 0 when the clock stands before the epoch. Nothing is stated of the
/// value: it is the time.
#[verifier::external_body]
pub(crate) fn now_ms() -> (r: u128) {
    match std::time::SystemTime::now().duration_since(std::time::UNIX_EPOCH) {
        Ok(duration) => duration.as_millis(),
        Err(_) => 0,
    }
}

/// `Path::exists`: whether something is on disk at `path`. Nothing is stated
/// of the answer: it depends on the disk.
#[verifier::external_body]
pub(crate) fn path_exists(path: &str) -> (r: bool) {
    std::path::Path::new(path).exists()
}

} // verus!
