//! What the running system reports: the user's standard directories and the
//! current time. These answers depend on the environment and on the moment of
//! the call, so nothing is promised about them; the logic that uses them takes
//! them as arguments and is verified for every value. The library handles
//! paths as text: a home or configuration directory whose path is not valid
//! Unicode is reported as unknown (`None`), and a local data directory as
//! `NotText`, so that no other directory is used in its place.

use vstd::prelude::*;

verus! {

/// `dirs::home_dir`: the user's home directory, when it can be determined and is valid Unicode.
#[verifier::external_body]
pub fn home_dir() -> Option<String> {
    match dirs::home_dir() {
        Some(p) => p.into_os_string().into_string().ok(),
        None => None,
    }
}

/// What the system reports of a directory.
#[derive(Debug, Clone, PartialEq, Eq)]
pub enum DirLookup {
    /// The directory, as text.
    Found(String),
    /// The system does not know the directory.
    Missing,
    /// The system knows the directory, but its path is not valid Unicode.
    NotText,
}

/// `dirs::data_local_dir`: the user's local data directory; `NotText` when
/// it is known but its path is not valid Unicode.
#[verifier::external_body]
pub fn data_local_dir() -> DirLookup {
    match dirs::data_local_dir() {
        Some(p) => match p.into_os_string().into_string() {
            Ok(s) => DirLookup::Found(s),
            Err(_) => DirLookup::NotText,
        },
        None => DirLookup::Missing,
    }
}

/// `dirs::config_dir`: the user's configuration directory, when it can be determined and is valid Unicode.
#[verifier::external_body]
pub fn config_dir() -> Option<String> {
    match dirs::config_dir() {
        Some(p) => p.into_os_string().into_string().ok(),
        None => None,
    }
}

#[verifier::external_type_specification]
#[verifier::external_body]
pub struct ExSystemTime(std::time::SystemTime);

/// `SystemTime::now`: the current time of the system clock.
#[verifier::external_body]
pub fn system_time_now() -> std::time::SystemTime {
    std::time::SystemTime::now()
}

/// `SystemTime::duration_since(UNIX_EPOCH)`, in whole seconds; `None` when the
/// time lies before the epoch.
#[verifier::external_body]
pub fn whole_seconds_since_epoch(t: &std::time::SystemTime) -> Option<u64> {
    match t.duration_since(std::time::UNIX_EPOCH) {
        Ok(d) => Some(d.as_secs()),
        Err(_) => None,
    }
}

} // verus!
