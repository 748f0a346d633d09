//! Toolchain data types, compiler-binary resolution, and the validation and
//! description decisions.
//!
//! Resolution probes the filesystem; the probe results are plain booleans,
//! and every decision over them is a verified function with an exact
//! contract. Verdicts over a subprocess run take the run's outcome as a
//! plain value, so they are verified for every outcome.

use vstd::prelude::*;
use vstd::string::*;
use crate::errors::BuildError;
use crate::probes::{path_exists, path_is_dir, path_is_file};
use crate::text::{spec_contains_darwin, contains_darwin, spec_third_field, third_whitespace_field};

verus! {

/// One usable compiler installation.
#[derive(Debug, PartialEq)]
pub struct Toolchain {
    pub version: String,
    pub path: String,
    pub is_swiftly: bool,
}

impl Clone for Toolchain {
    /// A clone carries the same version, path and origin.
    fn clone(&self) -> (r: Self)
        ensures
            r@ == self@,
    {
        Toolchain {
            version: self.version.clone(),
            path: self.path.clone(),
            is_swiftly: self.is_swiftly,
        }
    }
}

/// The mathematical model of a `Toolchain`.
pub struct ToolchainModel {
    pub version: Seq<char>,
    pub path: Seq<char>,
    pub is_swiftly: bool,
}

impl View for Toolchain {
    type V = ToolchainModel;

    open spec fn view(&self) -> ToolchainModel {
        ToolchainModel { version: self.version@, path: self.path@, is_swiftly: self.is_swiftly }
    }
}

/// The aggregate a discovery scan returns.
#[derive(Debug, PartialEq)]
pub struct ToolchainResult {
    pub swiftly_installed: bool,
    pub swiftly_version: Option<String>,
    pub toolchains: Vec<Toolchain>,
}

/// The mathematical model of a `ToolchainResult`.
pub struct DiscoveryModel {
    pub swiftly_installed: bool,
    pub swiftly_version: Option<Seq<char>>,
    pub toolchains: Seq<ToolchainModel>,
}

impl View for ToolchainResult {
    type V = DiscoveryModel;

    open spec fn view(&self) -> DiscoveryModel {
        DiscoveryModel {
            swiftly_installed: self.swiftly_installed,
            swiftly_version: match self.swiftly_version {
                Option::None => Option::None,
                Option::Some(v) => Option::Some(v@),
            },
            toolchains: self.toolchains@.map_values(|t: Toolchain| t@),
        }
    }
}

/// The outcome of running one subprocess to completion and capturing its
/// output, as a plain value.
#[derive(Debug)]
pub enum RunOutcome {
    /// The process could not be started, or its output could not be read.
    LaunchFailed,
    /// The process ran; `success` is whether it exited with code zero, and
    /// `stdout` is its captured standard output.
    Ran { success: bool, stdout: String },
}

/// The fixed relative location of the compiler binary inside a toolchain tree.
pub open spec fn spec_swift_bin_path(toolchain_path: Seq<char>) -> Seq<char> {
    toolchain_path + "/usr/bin/swift"@
}

/// Joins the candidate toolchain root with the fixed binary subpath.
pub fn swift_bin_path(toolchain_path: &str) -> (r: String)
    ensures
        r@ == spec_swift_bin_path(toolchain_path@),
{
    let root = String::from_str(toolchain_path);
    root.concat("/usr/bin/swift")
}

/// The resolution decision over the two filesystem probe results: a path that
/// is not a directory is invalid, a directory without the expected binary
/// lacks the compiler, and otherwise the binary path is fixed by convention.
pub fn resolve_swift_bin(toolchain_path: &str, is_dir: bool, bin_is_file: bool) -> (r: Result<
    String,
    BuildError,
>)
    ensures
        !is_dir ==> r == Err::<String, BuildError>(BuildError::InvalidToolchainPath),
        is_dir && !bin_is_file ==> r == Err::<String, BuildError>(BuildError::BinaryNotFound),
        is_dir && bin_is_file ==> (r matches Ok(p) && p@ == spec_swift_bin_path(toolchain_path@)),
{
    if !is_dir {
        Err(BuildError::InvalidToolchainPath)
    } else if !bin_is_file {
        Err(BuildError::BinaryNotFound)
    } else {
        Ok(swift_bin_path(toolchain_path))
    }
}

/// Locates the compiler binary of a candidate toolchain installation.
///
/// The filesystem probes decide which branch is taken; whatever they return,
/// a success carries exactly the conventional binary path, and a failure is
/// one of the two resolution errors.
pub fn swift_bin(toolchain_path: &str) -> (r: Result<String, BuildError>)
    ensures
        r matches Ok(p) ==> p@ == spec_swift_bin_path(toolchain_path@),
        r matches Err(e) ==> (e == BuildError::InvalidToolchainPath || e
            == BuildError::BinaryNotFound),
{
    let dir_ok = path_exists(toolchain_path) && path_is_dir(toolchain_path);
    let bin = swift_bin_path(toolchain_path);
    let bin_ok = path_exists(bin.as_str()) && path_is_file(bin.as_str());
    resolve_swift_bin(toolchain_path, dir_ok, bin_ok)
}

/// The validation decision: a toolchain is usable exactly when its binary
/// resolved and the version query ran and exited successfully.
///
/// Every failure mode collapses to `false`; the decision is total and never
/// propagates an error.
pub fn toolchain_usable(bin: &Result<String, BuildError>, run: &RunOutcome) -> (r: bool)
    ensures
        r <==> (bin is Ok && (match *run {
            RunOutcome::Ran { success, .. } => success,
            RunOutcome::LaunchFailed => false,
        })),
{
    match bin {
        Err(_) => false,
        Ok(_) => match run {
            RunOutcome::LaunchFailed => false,
            RunOutcome::Ran { success, .. } => *success,
        },
    }
}

/// The target-SDK decision: the toolchain supports the target platform exactly
/// when its binary resolved, the SDK listing ran and exited successfully, and
/// the listing names the "darwin" SDK.
///
/// Every failure mode collapses to `false`.
pub fn sdk_supported(bin: &Result<String, BuildError>, run: &RunOutcome) -> (r: bool)
    ensures
        r <==> (bin is Ok && (match *run {
            RunOutcome::Ran { success, stdout } => success && spec_contains_darwin(stdout@),
            RunOutcome::LaunchFailed => false,
        })),
{
    match bin {
        Err(_) => false,
        Ok(_) => match run {
            RunOutcome::LaunchFailed => false,
            RunOutcome::Ran { success, stdout } => *success && contains_darwin(stdout.as_str()),
        },
    }
}

/// Describes a validated toolchain from the outcome of its version query.
///
/// An unvalidated path is invalid; a resolution failure propagates unchanged;
/// a query that could not run is a spawn failure; otherwise the version is
/// the third whitespace-delimited field of the query output, and its absence
/// is a parse failure.
pub fn toolchain_info_from(
    toolchain_path: &str,
    is_swiftly: bool,
    validated: bool,
    bin: Result<String, BuildError>,
    run: &RunOutcome,
) -> (r: Result<Toolchain, BuildError>)
    ensures
        ({
            if !validated {
                r == Err::<Toolchain, BuildError>(BuildError::InvalidToolchainPath)
            } else {
                match bin {
                    Err(e) => r == Err::<Toolchain, BuildError>(e),
                    Ok(_) => match *run {
                        RunOutcome::LaunchFailed => r == Err::<Toolchain, BuildError>(
                            BuildError::SpawnError,
                        ),
                        RunOutcome::Ran { stdout, .. } => match spec_third_field(stdout@) {
                            Option::None => r == Err::<Toolchain, BuildError>(
                                BuildError::VersionParseError,
                            ),
                            Option::Some(v) => (r matches Ok(t) && t@.version == v && t@.path
                                == toolchain_path@ && t@.is_swiftly == is_swiftly),
                        },
                    },
                }
            }
        }),
{
    if !validated {
        return Err(BuildError::InvalidToolchainPath);
    }
    match bin {
        Err(e) => Err(e),
        Ok(_) => match run {
            RunOutcome::LaunchFailed => Err(BuildError::SpawnError),
            RunOutcome::Ran { stdout, .. } => match third_whitespace_field(stdout.as_str()) {
                Option::None => Err(BuildError::VersionParseError),
                Option::Some(version) => Ok(
                    Toolchain { version, path: String::from_str(toolchain_path), is_swiftly },
                ),
            },
        },
    }
}

} // verus!
