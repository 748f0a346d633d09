//! Discovery of toolchains managed by swiftly: locating the manager's home
//! directory from injected environment values, decoding its persisted
//! configuration, and assembling the discovery result.
//!
//! Environment values and validation outcomes enter as plain parameters, so
//! every decision here is a verified function of its inputs.

use vstd::prelude::*;
use vstd::string::*;
use crate::errors::BuildError;
use crate::probes::path_exists;
use crate::text::{spec_strip_artifact, strip_trailing_artifact, lemma_strip_push_artifact};
use crate::toolchain::{Toolchain, ToolchainModel, ToolchainResult, DiscoveryModel};

verus! {

/// The manager's persisted state: the toolchain versions it claims to have
/// installed, and its own version.
#[derive(Debug, PartialEq)]
pub struct SwiftlyConfig {
    pub installed_toolchains: Vec<String>,
    pub version: String,
}

/// What the manager's configuration text decodes to: the installed-version
/// list and the manager version, or nothing when the text is not a valid
/// config document.
///
/// This names the result of serde_json's decoding, which depends on the text
/// alone; no contract states what the name is on given values, so concrete
/// checks reach the logic through `read_manager_config_from`.
pub uninterp spec fn manager_config_of(s: Seq<char>) -> Option<(Seq<Seq<char>>, Seq<char>)>;

/// The plain-value view of a decoded configuration.
pub open spec fn decoded_view(r: Option<(Vec<String>, String)>) -> Option<
    (Seq<Seq<char>>, Seq<char>),
> {
    match r {
        Option::None => Option::None,
        Option::Some((vs, ver)) => Option::Some((vs.deep_view(), ver@)),
    }
}

/// Relies on serde_json: decodes a JSON object and reads its
/// "installedToolchains" string array and "version" string, which is the
/// manager's config document; the decoded fields depend on the text alone.
#[verifier::external_body]
fn decode_manager_config(content: &str) -> (r: Option<(Vec<String>, String)>)
    ensures
        decoded_view(r) == manager_config_of(content@),
{
    let v: serde_json::Value = match serde_json::from_str(content) {
        Ok(v) => v,
        Err(_) => return None,
    };
    let arr = v.get("installedToolchains")?.as_array()?;
    let versions = arr.iter().map(|x| x.as_str().map(|s| s.to_string())).collect::<Option<
        Vec<String>,
    >>()?;
    let version = v.get("version")?.as_str()?.to_string();
    Some((versions, version))
}

/// Reads the manager's configuration out of the config file's content:
/// strips the stray trailing artifact, then decodes the cleaned text.
pub fn read_manager_config_from(content: &str) -> (r: Result<SwiftlyConfig, BuildError>)
    ensures
        ({
            match manager_config_of(spec_strip_artifact(content@)) {
                Option::None => r == Err::<SwiftlyConfig, BuildError>(BuildError::ConfigParseError),
                Option::Some(d) => (r matches Ok(c) && c.installed_toolchains.deep_view() == d.0
                    && c.version@ == d.1),
            }
        }),
{
    let cleaned = strip_trailing_artifact(content);
    match decode_manager_config(cleaned.as_str()) {
        Option::None => Err(BuildError::ConfigParseError),
        Option::Some((installed_toolchains, version)) => Ok(
            SwiftlyConfig { installed_toolchains, version },
        ),
    }
}

/// A content with one stray trailing artifact character decodes to exactly
/// the same manager configuration as the content without it.
pub proof fn lemma_trailing_artifact_config(content: Seq<char>)
    ensures
        manager_config_of(spec_strip_artifact(content.push('%'))) == manager_config_of(
            spec_strip_artifact(content),
        ),
{
    lemma_strip_push_artifact(content);
}

/// The plain-value view of an optional path.
pub open spec fn opt_str_view(o: Option<String>) -> Option<Seq<char>> {
    match o {
        Option::None => Option::None,
        Option::Some(s) => Option::Some(s@),
    }
}

/// The manager's default data directory relative to the user's home.
pub open spec fn spec_default_manager_path(home: Seq<char>) -> Seq<char> {
    home + "/.local/share/swiftly"@
}

/// The home-resolution decision: a non-empty explicit override wins; failing
/// that, the user-home-relative default counts only when it is present on
/// disk; otherwise the manager is absent, which is a normal state.
pub open spec fn spec_locate_manager_home(
    swiftly_env: Option<Seq<char>>,
    home_env: Option<Seq<char>>,
    default_present: bool,
) -> Option<Seq<char>> {
    let sh = match swiftly_env {
        Option::Some(s) => s,
        Option::None => Seq::empty(),
    };
    if sh.len() > 0 {
        Option::Some(sh)
    } else {
        let h = match home_env {
            Option::Some(s) => s,
            Option::None => Seq::empty(),
        };
        if h.len() > 0 && default_present {
            Option::Some(spec_default_manager_path(h))
        } else {
            Option::None
        }
    }
}

/// Resolves the manager's home directory from the injected environment
/// values and the presence of the default data directory on disk.
pub fn locate_manager_home(
    swiftly_env: &Option<String>,
    home_env: &Option<String>,
    default_present: bool,
) -> (r: Option<String>)
    ensures
        opt_str_view(r) == spec_locate_manager_home(
            opt_str_view(*swiftly_env),
            opt_str_view(*home_env),
            default_present,
        ),
{
    if let Option::Some(s) = swiftly_env {
        if !s.as_str().is_empty() {
            return Option::Some(s.clone());
        }
    }
    if let Option::Some(h) = home_env {
        if !h.as_str().is_empty() && default_present {
            return Option::Some(h.clone().concat("/.local/share/swiftly"));
        }
    }
    Option::None
}

/// Resolves the manager's home directory, probing the filesystem for the
/// default data directory. The probe decides between the two locate
/// outcomes; the decision itself is `locate_manager_home`, which is exact.
pub fn get_swiftly_path(swiftly_env: &Option<String>, home_env: &Option<String>) -> (r: Option<
    String,
>)
    ensures
        opt_str_view(r) == spec_locate_manager_home(
            opt_str_view(*swiftly_env),
            opt_str_view(*home_env),
            true,
        ) || opt_str_view(r) == spec_locate_manager_home(
            opt_str_view(*swiftly_env),
            opt_str_view(*home_env),
            false,
        ),
{
    let default_present = if let Option::Some(h) = home_env {
        if !h.as_str().is_empty() {
            let candidate = h.clone().concat("/.local/share/swiftly");
            path_exists(candidate.as_str())
        } else {
            false
        }
    } else {
        false
    };
    locate_manager_home(swiftly_env, home_env, default_present)
}

/// Requires the manager's home to be present, as the config reader does.
pub fn manager_home_required(home: &Option<String>) -> (r: Result<String, BuildError>)
    ensures
        match *home {
            Option::None => r == Err::<String, BuildError>(BuildError::ManagerNotFound),
            Option::Some(h) => (r matches Ok(p) && p@ == h@),
        },
{
    match home {
        Option::None => Err(BuildError::ManagerNotFound),
        Option::Some(h) => Ok(h.clone()),
    }
}

/// The location of the manager's config file under its home directory.
pub fn config_file_path(home: &str) -> (r: String)
    ensures
        r@ == home@ + "/config.json"@,
{
    String::from_str(home).concat("/config.json")
}

/// The root of one managed toolchain installation.
pub open spec fn spec_candidate_path(home: Seq<char>, version: Seq<char>) -> Seq<char> {
    home + "/toolchains/"@ + version
}

fn candidate_path(home: &str, version: &str) -> (r: String)
    ensures
        r@ == spec_candidate_path(home@, version@),
{
    String::from_str(home).concat("/toolchains/").concat(version)
}

/// The models of a sequence of toolchains.
pub open spec fn models_of(ts: Seq<Toolchain>) -> Seq<ToolchainModel> {
    ts.map_values(|t: Toolchain| t@)
}

/// One candidate per installed version, in config order, rooted under the
/// manager's "toolchains" directory and marked as managed.
pub open spec fn spec_candidate_models(home: Seq<char>, versions: Seq<Seq<char>>) -> Seq<
    ToolchainModel,
> {
    Seq::new(
        versions.len(),
        |i: int|
            ToolchainModel {
                version: versions[i],
                path: spec_candidate_path(home, versions[i]),
                is_swiftly: true,
            },
    )
}

/// Builds the candidate list for the installed versions, in config order.
pub fn candidate_toolchains(home: &str, versions: &Vec<String>) -> (r: Vec<Toolchain>)
    ensures
        models_of(r@) == spec_candidate_models(home@, versions.deep_view()),
{
    let mut out: Vec<Toolchain> = Vec::new();
    let mut idx: usize = 0;
    while idx < versions.len()
        invariant
            idx <= versions@.len(),
            out@.len() == idx,
            forall|i: int|
                0 <= i < idx ==> (#[trigger] out@[i])@ == spec_candidate_models(
                    home@,
                    versions.deep_view(),
                )[i],
        decreases versions@.len() - idx,
    {
        let v = &versions[idx];
        let t = Toolchain {
            version: v.clone(),
            path: candidate_path(home, v.as_str()),
            is_swiftly: true,
        };
        out.push(t);
        idx = idx + 1;
    }
    proof {
        assert(models_of(out@) =~= spec_candidate_models(home@, versions.deep_view()));
    }
    out
}

/// Keeps, in order, exactly the candidates whose validation answer is true.
pub open spec fn spec_filter_validated(ts: Seq<ToolchainModel>, valid: Seq<bool>) -> Seq<
    ToolchainModel,
>
    decreases ts.len(),
{
    if ts.len() == 0 {
        Seq::empty()
    } else {
        let rest = spec_filter_validated(ts.drop_first(), valid.drop_first());
        if valid.len() > 0 && valid[0] {
            seq![ts[0]] + rest
        } else {
            rest
        }
    }
}

/// Filters the candidate list down to the validated ones, keeping order.
pub fn filter_validated(candidates: &Vec<Toolchain>, valid: &Vec<bool>) -> (r: Vec<Toolchain>)
    requires
        valid@.len() == candidates@.len(),
    ensures
        models_of(r@) == spec_filter_validated(models_of(candidates@), valid@),
{
    let ghost all = models_of(candidates@);
    let mut out: Vec<Toolchain> = Vec::new();
    let mut idx: usize = 0;
    proof {
        assert(all.skip(0) =~= all);
        assert(valid@.skip(0) =~= valid@);
        assert(models_of(out@) =~= Seq::<ToolchainModel>::empty());
    }
    while idx < candidates.len()
        invariant
            idx <= candidates@.len(),
            valid@.len() == candidates@.len(),
            all == models_of(candidates@),
            spec_filter_validated(all, valid@) == models_of(out@) + spec_filter_validated(
                all.skip(idx as int),
                valid@.skip(idx as int),
            ),
        decreases candidates@.len() - idx,
    {
        let ghost ms = all.skip(idx as int);
        let ghost vs = valid@.skip(idx as int);
        proof {
            assert(ms.drop_first() =~= all.skip(idx as int + 1));
            assert(vs.drop_first() =~= valid@.skip(idx as int + 1));
            assert(ms[0] == all[idx as int]);
            assert(all[idx as int] == candidates@[idx as int]@);
            assert(vs[0] == valid@[idx as int]);
        }
        let ghost before = out@;
        if valid[idx] {
            out.push(candidates[idx].clone());
            proof {
                assert(models_of(out@) =~= models_of(before).push(candidates@[idx as int]@));
                assert(models_of(out@) =~= models_of(before) + seq![ms[0]]);
                assert(models_of(out@) + spec_filter_validated(ms.drop_first(), vs.drop_first())
                    =~= models_of(before) + spec_filter_validated(ms, vs));
            }
        } else {
            proof {
                assert(spec_filter_validated(ms.drop_first(), vs.drop_first())
                    == spec_filter_validated(ms, vs));
            }
        }
        idx = idx + 1;
    }
    proof {
        assert(all.skip(candidates@.len() as int) =~= Seq::<ToolchainModel>::empty());
        assert(models_of(out@) =~= spec_filter_validated(all, valid@));
    }
    out
}

/// The discovery result when the manager is present: its own version, and
/// the validated candidates in config order.
pub open spec fn spec_discovery(
    home: Seq<char>,
    versions: Seq<Seq<char>>,
    manager_version: Seq<char>,
    valid: Seq<bool>,
) -> DiscoveryModel {
    DiscoveryModel {
        swiftly_installed: true,
        swiftly_version: Option::Some(manager_version),
        toolchains: spec_filter_validated(spec_candidate_models(home, versions), valid),
    }
}

/// The discovery result when the manager is absent: not installed, no
/// manager version, no toolchains. Absence is a success, not an error.
pub open spec fn spec_absent_discovery() -> DiscoveryModel {
    DiscoveryModel {
        swiftly_installed: false,
        swiftly_version: Option::None,
        toolchains: Seq::empty(),
    }
}

/// The scan's answer when no manager home was found.
pub fn discovery_absent() -> (r: ToolchainResult)
    ensures
        r@ == spec_absent_discovery(),
{
    let r = ToolchainResult {
        swiftly_installed: false,
        swiftly_version: Option::None,
        toolchains: Vec::new(),
    };
    proof {
        assert(r@.toolchains =~= Seq::<ToolchainModel>::empty());
        assert(r@ =~= spec_absent_discovery());
    }
    r
}

/// Assembles the discovery result for a present manager from its config and
/// the per-candidate validation answers.
pub fn assemble_discovery(home: &str, config: &SwiftlyConfig, valid: &Vec<bool>) -> (r:
    ToolchainResult)
    requires
        valid@.len() == config.installed_toolchains@.len(),
    ensures
        r@ == spec_discovery(
            home@,
            config.installed_toolchains.deep_view(),
            config.version@,
            valid@,
        ),
{
    let candidates = candidate_toolchains(home, &config.installed_toolchains);
    proof {
        assert(models_of(candidates@).len() == config.installed_toolchains.deep_view().len());
    }
    let kept = filter_validated(&candidates, valid);
    let r = ToolchainResult {
        swiftly_installed: true,
        swiftly_version: Option::Some(config.version.clone()),
        toolchains: kept,
    };
    proof {
        assert(r@ =~= spec_discovery(
            home@,
            config.installed_toolchains.deep_view(),
            config.version@,
            valid@,
        ));
    }
    r
}

/// Discovery is idempotent: two scans over the same environment, the same
/// config and the same validation answers yield identical results, entry
/// for entry and in the same order.
pub proof fn lemma_discovery_idempotent(
    r1: ToolchainResult,
    r2: ToolchainResult,
    home: Seq<char>,
    versions: Seq<Seq<char>>,
    manager_version: Seq<char>,
    valid: Seq<bool>,
)
    requires
        r1@ == spec_discovery(home, versions, manager_version, valid),
        r2@ == spec_discovery(home, versions, manager_version, valid),
    ensures
        r1@ == r2@,
{
}

} // verus!
