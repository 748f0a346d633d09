//! The build pipeline orchestrator: the compile invocation's arguments, and
//! the fail-fast composition of config loading, binary resolution, the
//! streamed compile, packaging, cleaning and deployment.
//!
//! The collaborators at the pipeline's edges — the config loader, the
//! packer, the deployer and the subprocess itself — run outside the
//! library; their outcomes enter as plain values, so the composition is
//! verified for every outcome.

use vstd::prelude::*;
use vstd::string::*;
use crate::errors::BuildError;
use crate::stream::{
    SpawnOutcome, spec_stream_records, spec_stream_result, run_and_stream, emit_record,
};

verus! {

/// Caller-supplied build configuration: debug or release compilation.
#[derive(Clone, Copy, Debug, PartialEq, Eq, Structural)]
pub struct BuildSettings {
    pub debug: bool,
}

/// The compile invocation: the build subcommand, the compilation mode
/// selected by the settings, and the fixed target-platform SDK selector.
pub open spec fn spec_build_args(debug: bool) -> Seq<Seq<char>> {
    seq![
        "build"@,
        "-c"@,
        if debug {
            "debug"@
        } else {
            "release"@
        },
        "--swift-sdk"@,
        "arm64-apple-ios"@,
    ]
}

/// Constructs the compiler arguments for one build.
pub fn build_command_args(settings: &BuildSettings) -> (r: Vec<String>)
    ensures
        r.deep_view() == spec_build_args(settings.debug),
{
    let mut args: Vec<String> = Vec::new();
    args.push(String::from_str("build"));
    args.push(String::from_str("-c"));
    if settings.debug {
        args.push(String::from_str("debug"));
    } else {
        args.push(String::from_str("release"));
    }
    args.push(String::from_str("--swift-sdk"));
    args.push(String::from_str("arm64-apple-ios"));
    proof {
        assert(args.deep_view() =~= spec_build_args(settings.debug));
    }
    args
}

/// The package-clean invocation.
pub open spec fn spec_clean_args() -> Seq<Seq<char>> {
    seq!["package"@, "clean"@]
}

/// Constructs the compiler arguments for one clean.
pub fn clean_command_args() -> (r: Vec<String>)
    ensures
        r.deep_view() == spec_clean_args(),
{
    let mut args: Vec<String> = Vec::new();
    args.push(String::from_str("package"));
    args.push(String::from_str("clean"));
    proof {
        assert(args.deep_view() =~= spec_clean_args());
    }
    args
}

/// Every record one build delivers to the sink, in order: the config-load
/// failure alone when loading fails; nothing when resolution fails; else
/// the streamed run's records, then the packer's record.
pub open spec fn spec_pipeline_records(
    config_loaded: Result<(), String>,
    bin_ok: bool,
    run: SpawnOutcome,
    pack: Result<String, String>,
    emit: bool,
) -> Seq<Seq<char>> {
    match config_loaded {
        Err(m) => seq!["Failed to load project config: "@ + m@],
        Ok(_) => if !bin_ok {
            Seq::empty()
        } else {
            let streamed = spec_stream_records(run, emit);
            match spec_stream_result(run, emit) {
                Err(_) => streamed,
                Ok(_) => match pack {
                    Ok(_) => streamed.push("Pack Success"@),
                    Err(m) => streamed.push("Failed to pack app: "@ + m@),
                },
            }
        },
    }
}

/// True when the error is a downstream-collaborator failure carrying
/// exactly the given message.
pub open spec fn spec_downstream_err<T>(r: Result<T, BuildError>, msg: Seq<char>) -> bool {
    match r {
        Err(BuildError::DownstreamFailure(m)) => m@ == msg,
        _ => false,
    }
}

/// What one build returns for given collaborator outcomes: the first
/// failure in pipeline order, or the artifact path the packer produced.
pub open spec fn spec_pipeline_result_ok(
    r: Result<String, BuildError>,
    config_loaded: Result<(), String>,
    bin: Result<String, BuildError>,
    run: SpawnOutcome,
    pack: Result<String, String>,
    emit: bool,
) -> bool {
    match config_loaded {
        Err(m) => spec_downstream_err(r, "Failed to load project config: "@ + m@),
        Ok(_) => match bin {
            Err(e) => r == Err::<String, BuildError>(e),
            Ok(_) => match spec_stream_result(run, emit) {
                Err(e) => r == Err::<String, BuildError>(e),
                Ok(_) => match pack {
                    Ok(app) => (r matches Ok(p) && p@ == app@),
                    Err(m) => spec_downstream_err(r, "Failed to pack app: "@ + m@),
                },
            },
        },
    }
}

/// Runs one build to completion over its collaborators' outcomes: loads the
/// project config, resolves the compiler, streams the compile, and packs
/// the result. Fail-fast: the first failure is surfaced once to the sink
/// (resolution failures propagate without a record, as the caller reports
/// them) and returned.
pub fn build_pipeline(
    config_loaded: &Result<(), String>,
    bin: Result<String, BuildError>,
    run: &SpawnOutcome,
    pack: &Result<String, String>,
    emit_exit_code: bool,
    sink: &mut Vec<String>,
) -> (r: Result<String, BuildError>)
    ensures
        final(sink).deep_view() == old(sink).deep_view() + spec_pipeline_records(
            *config_loaded,
            bin is Ok,
            *run,
            *pack,
            emit_exit_code,
        ),
        spec_pipeline_result_ok(r, *config_loaded, bin, *run, *pack, emit_exit_code),
{
    let ghost before = sink.deep_view();
    match config_loaded {
        Err(m) => {
            let msg = String::from_str("Failed to load project config: ").concat(m.as_str());
            let failure = msg.clone();
            emit_record(sink, msg);
            proof {
                assert(sink.deep_view() =~= before + spec_pipeline_records(
                    *config_loaded,
                    bin is Ok,
                    *run,
                    *pack,
                    emit_exit_code,
                ));
            }
            Err(BuildError::DownstreamFailure(failure))
        },
        Ok(_) => {
            match bin {
                Err(e) => {
                    proof {
                        assert(sink.deep_view() =~= before + spec_pipeline_records(
                            *config_loaded,
                            false,
                            *run,
                            *pack,
                            emit_exit_code,
                        ));
                    }
                    Err(e)
                },
                Ok(_) => {
                    match run_and_stream(run, emit_exit_code, sink) {
                        Err(e) => Err(e),
                        Ok(_) => {
                            let ghost streamed = sink.deep_view();
                            match pack {
                                Ok(app) => {
                                    emit_record(sink, String::from_str("Pack Success"));
                                    proof {
                                        assert(sink.deep_view() =~= before + spec_pipeline_records(
                                            *config_loaded,
                                            true,
                                            *run,
                                            *pack,
                                            emit_exit_code,
                                        ));
                                    }
                                    Ok(app.clone())
                                },
                                Err(m) => {
                                    let msg = String::from_str("Failed to pack app: ").concat(
                                        m.as_str(),
                                    );
                                    let failure = msg.clone();
                                    emit_record(sink, msg);
                                    proof {
                                        assert(sink.deep_view() =~= before + spec_pipeline_records(
                                            *config_loaded,
                                            true,
                                            *run,
                                            *pack,
                                            emit_exit_code,
                                        ));
                                    }
                                    Err(BuildError::DownstreamFailure(failure))
                                },
                            }
                        },
                    }
                },
            }
        },
    }
}

/// The plain-build and deploy entries first hold the chosen toolchain to
/// its validation answer: an unvalidated toolchain is rejected before any
/// collaborator runs, with no record delivered.
pub fn build_entry(
    validated: bool,
    config_loaded: &Result<(), String>,
    bin: Result<String, BuildError>,
    run: &SpawnOutcome,
    pack: &Result<String, String>,
    emit_exit_code: bool,
    sink: &mut Vec<String>,
) -> (r: Result<String, BuildError>)
    ensures
        !validated ==> final(sink).deep_view() == old(sink).deep_view() && r == Err::<
            String,
            BuildError,
        >(BuildError::InvalidToolchainPath),
        validated ==> final(sink).deep_view() == old(sink).deep_view() + spec_pipeline_records(
            *config_loaded,
            bin is Ok,
            *run,
            *pack,
            emit_exit_code,
        ) && spec_pipeline_result_ok(r, *config_loaded, bin, *run, *pack, emit_exit_code),
{
    if !validated {
        return Err(BuildError::InvalidToolchainPath);
    }
    build_pipeline(config_loaded, bin, run, pack, emit_exit_code, sink)
}

/// What build-then-deploy returns: the build pipeline's failure unchanged,
/// a deployment failure wrapped with its context, or success.
pub open spec fn spec_deploy_result_ok(
    r: Result<(), BuildError>,
    config_loaded: Result<(), String>,
    bin: Result<String, BuildError>,
    run: SpawnOutcome,
    pack: Result<String, String>,
    sideload: Result<(), String>,
) -> bool {
    match config_loaded {
        Err(m) => spec_downstream_err(r, "Failed to load project config: "@ + m@),
        Ok(_) => match bin {
            Err(e) => r == Err::<(), BuildError>(e),
            Ok(_) => match spec_stream_result(run, false) {
                Err(e) => r == Err::<(), BuildError>(e),
                Ok(_) => match pack {
                    Err(m) => spec_downstream_err(r, "Failed to pack app: "@ + m@),
                    Ok(_) => match sideload {
                        Ok(_) => r == Ok::<(), BuildError>(()),
                        Err(m) => spec_downstream_err(r, "Failed to sideload app: "@ + m@),
                    },
                },
            },
        },
    }
}

/// Build-then-deploy: the build runs with the terminal marker suppressed on
/// success, so the deploy phase's own completion is the one observed; on
/// success the artifact goes to the deployer, whose failure is wrapped with
/// its context and delivers no record of its own.
pub fn deploy_entry(
    validated: bool,
    config_loaded: &Result<(), String>,
    bin: Result<String, BuildError>,
    run: &SpawnOutcome,
    pack: &Result<String, String>,
    sideload: &Result<(), String>,
    sink: &mut Vec<String>,
) -> (r: Result<(), BuildError>)
    ensures
        !validated ==> final(sink).deep_view() == old(sink).deep_view() && r == Err::<
            (),
            BuildError,
        >(BuildError::InvalidToolchainPath),
        validated ==> final(sink).deep_view() == old(sink).deep_view() + spec_pipeline_records(
            *config_loaded,
            bin is Ok,
            *run,
            *pack,
            false,
        ) && spec_deploy_result_ok(r, *config_loaded, bin, *run, *pack, *sideload),
{
    if !validated {
        return Err(BuildError::InvalidToolchainPath);
    }
    match build_pipeline(config_loaded, bin, run, pack, false, sink) {
        Err(e) => Err(e),
        Ok(_) => match sideload {
            Ok(_) => Ok(()),
            Err(m) => {
                let msg = String::from_str("Failed to sideload app: ").concat(m.as_str());
                Err(BuildError::DownstreamFailure(msg))
            },
        },
    }
}

/// Cleans the package: resolves the compiler (a failure propagates without
/// a record), announces the clean, and streams the package-clean invocation
/// with unconditional marker emission.
pub fn clean_pipeline(bin: Result<String, BuildError>, run: &SpawnOutcome, sink: &mut Vec<String>)
    -> (r: Result<(), BuildError>)
    ensures
        ({
            let before = old(sink).deep_view();
            let after = final(sink).deep_view();
            match bin {
                Err(e) => after == before && r == Err::<(), BuildError>(e),
                Ok(_) => after == before.push("Cleaning..."@) + spec_stream_records(*run, true)
                    && r == spec_stream_result(*run, true),
            }
        }),
{
    match bin {
        Err(e) => Err(e),
        Ok(_) => {
            emit_record(sink, String::from_str("Cleaning..."));
            run_and_stream(run, true, sink)
        },
    }
}

} // verus!
