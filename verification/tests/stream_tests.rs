use swiftbuild::errors::{BuildError, StreamKind};
use swiftbuild::pipeline::{
    build_command_args, build_entry, build_pipeline, clean_command_args, clean_pipeline,
    deploy_entry, BuildSettings,
};
use swiftbuild::stream::{
    reader_records, run_and_stream, terminal_marker, LineEvent, SpawnOutcome, WaitOutcome,
};

fn lines(texts: &[&str]) -> Vec<LineEvent> {
    texts.iter().map(|t| LineEvent::Line(t.to_string())).collect()
}

fn streams(stdout: &[&str], stderr: &[&str], wait: WaitOutcome) -> SpawnOutcome {
    SpawnOutcome::Streams { stdout: lines(stdout), stderr: lines(stderr), wait }
}

#[test]
fn marker_shape() {
    assert_eq!(terminal_marker(0), "command.done.0");
    assert_eq!(terminal_marker(17), "command.done.17");
    assert_eq!(terminal_marker(999), "command.done.999");
    assert_eq!(terminal_marker(-2), "command.done.-2");
}

#[test]
fn reader_forwards_lines_in_order() {
    let r = reader_records(&lines(&["one", "two", "three"]));
    assert_eq!(r, vec!["one", "two", "three"]);
}

#[test]
fn reader_decode_failure_stops_with_reserved_marker() {
    let events = vec![
        LineEvent::Line("one".to_string()),
        LineEvent::DecodeFailure,
        LineEvent::Line("never".to_string()),
    ];
    assert_eq!(reader_records(&events), vec!["one", "command.done.999"]);
}

#[test]
fn all_lines_delivered_before_marker() {
    let outcome = streams(&["o1", "o2"], &["e1", "e2", "e3"], WaitOutcome::Exited(0));
    let mut sink: Vec<String> = Vec::new();
    let r = run_and_stream(&outcome, true, &mut sink);
    assert!(r.is_ok());
    assert_eq!(sink, vec!["o1", "o2", "e1", "e2", "e3", "command.done.0"]);
}

#[test]
fn silent_success_emits_no_marker() {
    let outcome = streams(&["o1"], &["e1"], WaitOutcome::Exited(0));
    let mut sink: Vec<String> = Vec::new();
    let r = run_and_stream(&outcome, false, &mut sink);
    assert!(r.is_ok());
    assert_eq!(sink, vec!["o1", "e1"]);
}

#[test]
fn nonzero_exit_always_marks_and_fails() {
    for emit in [false, true] {
        let outcome = streams(&["out"], &[], WaitOutcome::Exited(17));
        let mut sink: Vec<String> = Vec::new();
        let r = run_and_stream(&outcome, emit, &mut sink);
        assert_eq!(sink, vec!["out", "command.done.17"]);
        assert!(matches!(r, Err(BuildError::CommandFailed(17))));
    }
}

#[test]
fn missing_exit_code_defaults_to_one() {
    let outcome = streams(&[], &[], WaitOutcome::NoExitCode);
    let mut sink: Vec<String> = Vec::new();
    let r = run_and_stream(&outcome, false, &mut sink);
    assert_eq!(sink, vec!["command.done.1"]);
    assert!(matches!(r, Err(BuildError::CommandFailed(1))));
}

#[test]
fn spawn_failure_is_one_record() {
    let mut sink: Vec<String> = Vec::new();
    let r = run_and_stream(&SpawnOutcome::SpawnFailed, true, &mut sink);
    assert_eq!(sink, vec!["Failed to spawn build command"]);
    assert!(matches!(r, Err(BuildError::SpawnError)));
}

#[test]
fn stream_acquisition_failures_name_the_stream() {
    let mut sink: Vec<String> = Vec::new();
    let r = run_and_stream(&SpawnOutcome::StdoutUnavailable, true, &mut sink);
    assert_eq!(sink, vec!["Failed to get stdout"]);
    assert!(matches!(r, Err(BuildError::StreamAcquisitionError(StreamKind::Stdout))));
    let mut sink2: Vec<String> = Vec::new();
    let r2 = run_and_stream(&SpawnOutcome::StderrUnavailable, true, &mut sink2);
    assert_eq!(sink2, vec!["Failed to get stderr"]);
    assert!(matches!(r2, Err(BuildError::StreamAcquisitionError(StreamKind::Stderr))));
}

#[test]
fn wait_failure_is_one_record() {
    let outcome = streams(&["o"], &[], WaitOutcome::WaitFailed);
    let mut sink: Vec<String> = Vec::new();
    let r = run_and_stream(&outcome, true, &mut sink);
    assert_eq!(sink, vec!["o", "Failed to wait for command"]);
    assert!(matches!(r, Err(BuildError::WaitError)));
}

#[test]
fn build_args_select_mode() {
    let debug = build_command_args(&BuildSettings { debug: true });
    assert_eq!(debug, vec!["build", "-c", "debug", "--swift-sdk", "arm64-apple-ios"]);
    let release = build_command_args(&BuildSettings { debug: false });
    assert_eq!(release, vec!["build", "-c", "release", "--swift-sdk", "arm64-apple-ios"]);
}

#[test]
fn clean_args_are_fixed() {
    assert_eq!(clean_command_args(), vec!["package", "clean"]);
}

#[test]
fn config_load_failure_aborts_build() {
    let mut sink: Vec<String> = Vec::new();
    let r = build_pipeline(
        &Err("missing Package.swift".to_string()),
        Ok("/t/usr/bin/swift".to_string()),
        &streams(&[], &[], WaitOutcome::Exited(0)),
        &Ok("/out/app".to_string()),
        true,
        &mut sink,
    );
    assert_eq!(sink, vec!["Failed to load project config: missing Package.swift"]);
    match r {
        Err(BuildError::DownstreamFailure(m)) => {
            assert_eq!(m, "Failed to load project config: missing Package.swift")
        }
        _ => panic!("expected a downstream failure"),
    }
}

#[test]
fn resolution_failure_propagates_without_record() {
    let mut sink: Vec<String> = Vec::new();
    let r = build_pipeline(
        &Ok(()),
        Err(BuildError::BinaryNotFound),
        &streams(&[], &[], WaitOutcome::Exited(0)),
        &Ok("/out/app".to_string()),
        true,
        &mut sink,
    );
    assert!(sink.is_empty());
    assert!(matches!(r, Err(BuildError::BinaryNotFound)));
}

#[test]
fn successful_build_packs_and_reports() {
    let mut sink: Vec<String> = Vec::new();
    let r = build_pipeline(
        &Ok(()),
        Ok("/t/usr/bin/swift".to_string()),
        &streams(&["Compiling"], &[], WaitOutcome::Exited(0)),
        &Ok("/out/App.app".to_string()),
        true,
        &mut sink,
    );
    assert_eq!(sink, vec!["Compiling", "command.done.0", "Pack Success"]);
    assert_eq!(r.unwrap(), "/out/App.app");
}

#[test]
fn failed_compile_skips_packing() {
    let mut sink: Vec<String> = Vec::new();
    let r = build_pipeline(
        &Ok(()),
        Ok("/t/usr/bin/swift".to_string()),
        &streams(&[], &["error: no target"], WaitOutcome::Exited(2)),
        &Ok("/out/App.app".to_string()),
        true,
        &mut sink,
    );
    assert_eq!(sink, vec!["error: no target", "command.done.2"]);
    assert!(matches!(r, Err(BuildError::CommandFailed(2))));
}

#[test]
fn pack_failure_is_surfaced_once() {
    let mut sink: Vec<String> = Vec::new();
    let r = build_pipeline(
        &Ok(()),
        Ok("/t/usr/bin/swift".to_string()),
        &streams(&[], &[], WaitOutcome::Exited(0)),
        &Err("no artifacts".to_string()),
        true,
        &mut sink,
    );
    assert_eq!(sink, vec!["command.done.0", "Failed to pack app: no artifacts"]);
    match r {
        Err(BuildError::DownstreamFailure(m)) => assert_eq!(m, "Failed to pack app: no artifacts"),
        _ => panic!("expected a downstream failure"),
    }
}

#[test]
fn unvalidated_toolchain_rejected_before_work() {
    let mut sink: Vec<String> = Vec::new();
    let r = build_entry(
        false,
        &Ok(()),
        Ok("/t/usr/bin/swift".to_string()),
        &streams(&["x"], &[], WaitOutcome::Exited(0)),
        &Ok("/out".to_string()),
        true,
        &mut sink,
    );
    assert!(sink.is_empty());
    assert!(matches!(r, Err(BuildError::InvalidToolchainPath)));
}

#[test]
fn deploy_suppresses_marker_and_hands_off() {
    let mut sink: Vec<String> = Vec::new();
    let r = deploy_entry(
        true,
        &Ok(()),
        Ok("/t/usr/bin/swift".to_string()),
        &streams(&["Compiling"], &[], WaitOutcome::Exited(0)),
        &Ok("/out/App.app".to_string()),
        &Ok(()),
        &mut sink,
    );
    assert_eq!(sink, vec!["Compiling", "Pack Success"]);
    assert!(r.is_ok());
}

#[test]
fn deploy_wraps_sideload_failure() {
    let mut sink: Vec<String> = Vec::new();
    let r = deploy_entry(
        true,
        &Ok(()),
        Ok("/t/usr/bin/swift".to_string()),
        &streams(&[], &[], WaitOutcome::Exited(0)),
        &Ok("/out/App.app".to_string()),
        &Err("no device".to_string()),
        &mut sink,
    );
    assert_eq!(sink, vec!["Pack Success"]);
    match r {
        Err(BuildError::DownstreamFailure(m)) => {
            assert_eq!(m, "Failed to sideload app: no device")
        }
        _ => panic!("expected a downstream failure"),
    }
}

#[test]
fn clean_announces_then_streams() {
    let mut sink: Vec<String> = Vec::new();
    let r = clean_pipeline(
        Ok("/t/usr/bin/swift".to_string()),
        &streams(&["Cleaned build folder"], &[], WaitOutcome::Exited(0)),
        &mut sink,
    );
    assert_eq!(sink, vec!["Cleaning...", "Cleaned build folder", "command.done.0"]);
    assert!(r.is_ok());
}

#[test]
fn clean_propagates_resolution_failure() {
    let mut sink: Vec<String> = Vec::new();
    let r = clean_pipeline(
        Err(BuildError::InvalidToolchainPath),
        &streams(&[], &[], WaitOutcome::Exited(0)),
        &mut sink,
    );
    assert!(sink.is_empty());
    assert!(matches!(r, Err(BuildError::InvalidToolchainPath)));
}
