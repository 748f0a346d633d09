//! Trusted filesystem probes. Each result depends on what is on disk at the
//! moment of the call, so nothing is promised of it; every function that
//! consumes a probe result takes it as a plain value and is verified for
//! every value of it.

use vstd::prelude::*;

verus! {

/// Relies on std::path::Path::exists; the result depends on the filesystem,
/// so nothing is promised of it.
#[verifier::external_body]
pub(crate) fn path_exists(p: &str) -> bool {
    std::path::Path::new(p).exists()
}

/// Relies on std::path::Path::is_dir; the result depends on the filesystem,
/// so nothing is promised of it.
#[verifier::external_body]
pub(crate) fn path_is_dir(p: &str) -> bool {
    std::path::Path::new(p).is_dir()
}

/// Relies on std::path::Path::is_file; the result depends on the filesystem,
/// so nothing is promised of it.
#[verifier::external_body]
pub(crate) fn path_is_file(p: &str) -> bool {
    std::path::Path::new(p).is_file()
}

} // verus!
