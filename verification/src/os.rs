//! The few places where the library touches the machine: user
//! directories, file-existence probes, random names and the CPU count.
//! Each function here is a trusted wrapper around one outside call;
//! everything that can be proved about their results is proved in the
//! callers, which take these results as plain values.

use vstd::prelude::*;

verus! {

/// Relies on dirs::data_dir: the platform's per-user data directory,
/// if the platform defines one.  Nothing is promised of the value.
#[verifier::external_body]
pub fn data_dir() -> (r: Option<String>) {
    dirs::data_dir().and_then(|p| p.into_os_string().into_string().ok())
}

/// Relies on dirs::document_dir: the user's documents directory, if
/// the platform defines one.
#[verifier::external_body]
pub fn document_dir() -> (r: Option<String>) {
    dirs::document_dir().and_then(|p| p.into_os_string().into_string().ok())
}

/// Relies on dirs::home_dir: the user's home directory, if the
/// platform defines one.
#[verifier::external_body]
pub fn home_dir() -> (r: Option<String>) {
    dirs::home_dir().and_then(|p| p.into_os_string().into_string().ok())
}

/// Relies on std::path::Path::exists: whether `path` names an existing
/// filesystem entry right now.  The answer depends on the disk, so
/// nothing relates two calls.
#[verifier::external_body]
pub fn path_exists(path: &str) -> (r: bool) {
    std::path::Path::new(path).exists()
}

/// Relies on std::path::Path::read_dir and the entries' metadata: the
/// byte sizes of the entries of a directory, in no promised order.  A
/// missing or unreadable directory yields the empty vector.
#[verifier::external_body]
pub fn dir_entry_sizes(path: &str) -> (r: Vec<u64>) {
    std::path::Path::new(path)
        .read_dir()
        .map(|rd| {
            rd.filter_map(|e| e.ok())
                .filter_map(|e| e.metadata().ok().map(|m| m.len()))
                .collect()
        })
        .unwrap_or_default()
}

/// Relies on uuid::Uuid::new_v4 and its Display form: a random
/// hyphenated UUID, which is always 36 ASCII characters long.
#[verifier::external_body]
pub fn random_name() -> (r: String)
    ensures
        r@.len() == 36,
{
    uuid::Uuid::new_v4().to_string()
}

/// Relies on num_cpus::get: the number of logical CPUs available,
/// which its documentation promises is at least 1.
#[verifier::external_body]
pub fn cpu_count() -> (r: usize)
    ensures
        r >= 1,
{
    num_cpus::get()
}

} // verus!
