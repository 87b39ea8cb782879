use vstd::prelude::*;

verus! {

/// Relies on `which::which`: the path of an executable named `name` found on
/// the host's search path, if there is one. What it finds depends on the
/// host, so nothing is promised of it.
#[verifier::external_body]
pub(crate) fn find_executable(name: &str) -> (r: Option<String>) {
    match which::which(name) {
        Ok(path) => Some(path.to_string_lossy().into_owned()),
        Err(_) => None,
    }
}

/// Relies on `dirs::home_dir`: the current user's home directory, if the
/// host can tell. It depends on the host, so nothing is promised of it.
#[verifier::external_body]
pub(crate) fn home_directory() -> (r: Option<String>) {
    match dirs::home_dir() {
        Some(path) => Some(path.to_string_lossy().into_owned()),
        None => None,
    }
}

} // verus!
