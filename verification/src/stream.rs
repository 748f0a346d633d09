//! The streaming protocol of one subprocess run: the records each stream
//! reader forwards to the sink, the terminal marker, and the full outcome of
//! draining both streams and waiting for the exit code.
//!
//! The subprocess itself runs outside the library; its transcript enters as
//! a plain value, so the protocol decision is verified for every transcript.
//! The sink is modelled as the ordered sequence of records delivered to it.

use vstd::prelude::*;
use vstd::string::*;
use crate::errors::{BuildError, StreamKind};
use crate::text::{spec_decimal, decimal_string};

verus! {

/// One read from a child's output stream: a decoded line, or a decode
/// failure.
#[derive(Debug)]
pub enum LineEvent {
    Line(String),
    DecodeFailure,
}

/// How waiting for the child ended: the wait itself failed, the child exited
/// with a code, or the child ended without reporting a code.
#[derive(Clone, Copy, Debug, PartialEq, Eq, Structural)]
pub enum WaitOutcome {
    WaitFailed,
    Exited(i32),
    NoExitCode,
}

/// The transcript of one attempt to run a child process with both output
/// streams captured.
#[derive(Debug)]
pub enum SpawnOutcome {
    /// The process could not be started.
    SpawnFailed,
    /// The child's standard output stream was unavailable.
    StdoutUnavailable,
    /// The child's standard error stream was unavailable.
    StderrUnavailable,
    /// The child ran; each stream's reads, in source order, and the wait.
    Streams { stdout: Vec<LineEvent>, stderr: Vec<LineEvent>, wait: WaitOutcome },
}

/// The exit code reserved for a stream-decode failure.
pub open spec fn spec_decode_failure_code() -> int {
    999
}

/// The terminal marker for an exit code.
pub open spec fn spec_marker(code: int) -> Seq<char> {
    "command.done."@ + spec_decimal(code)
}

/// Renders the terminal marker `command.done.<code>`.
pub fn terminal_marker(code: i32) -> (r: String)
    ensures
        r@ == spec_marker(code as int),
{
    String::from_str("command.done.").concat(decimal_string(code).as_str())
}

/// The text a single stream event contributes to the sink.
pub open spec fn spec_event_record(e: LineEvent) -> Seq<char> {
    match e {
        LineEvent::Line(s) => s@,
        LineEvent::DecodeFailure => spec_marker(spec_decode_failure_code()),
    }
}

/// The records one stream reader forwards: every decoded line verbatim, in
/// source order; a decode failure forwards the reserved marker and stops the
/// reader without touching the sibling stream.
pub open spec fn spec_reader_records(events: Seq<LineEvent>) -> Seq<Seq<char>>
    decreases events.len(),
{
    if events.len() == 0 {
        Seq::empty()
    } else {
        match events[0] {
            LineEvent::Line(s) => seq![s@] + spec_reader_records(events.drop_first()),
            LineEvent::DecodeFailure => seq![spec_marker(spec_decode_failure_code())],
        }
    }
}

/// True when every read of a stream decoded successfully.
pub open spec fn spec_all_lines(events: Seq<LineEvent>) -> bool {
    forall|i: int| 0 <= i < events.len() ==> events[i] is Line
}

/// A stream with no decode failure delivers exactly one record per line,
/// verbatim and in source order.
pub proof fn lemma_reader_records_all_lines(events: Seq<LineEvent>)
    requires
        spec_all_lines(events),
    ensures
        spec_reader_records(events).len() == events.len(),
        forall|i: int|
            0 <= i < events.len() ==> spec_reader_records(events)[i] == spec_event_record(
                events[i],
            ),
    decreases events.len(),
{
    if events.len() > 0 {
        let rest = events.drop_first();
        assert(forall|j: int| 0 <= j < rest.len() ==> rest[j] == events[j + 1]);
        lemma_reader_records_all_lines(rest);
        assert forall|i: int|
            0 <= i < events.len() implies spec_reader_records(events)[i] == spec_event_record(
            events[i],
        ) by {
            if i > 0 {
                assert(spec_reader_records(events)[i] == spec_reader_records(rest)[i - 1]);
                assert(rest[i - 1] == events[i]);
            }
        }
    }
}

/// Delivers one record to the sink.
pub fn emit_record(sink: &mut Vec<String>, record: String)
    ensures
        final(sink).deep_view() == old(sink).deep_view().push(record@),
{
    let ghost before = sink.deep_view();
    sink.push(record);
    proof {
        assert(sink.deep_view() =~= before.push(sink@[sink@.len() - 1]@));
    }
}

/// Computes the records of one stream's reader.
pub fn reader_records(events: &Vec<LineEvent>) -> (r: Vec<String>)
    ensures
        r.deep_view() == spec_reader_records(events@),
{
    let mut out: Vec<String> = Vec::new();
    let mut i: usize = 0;
    proof {
        assert(events@.skip(0) =~= events@);
        assert(out.deep_view() =~= Seq::<Seq<char>>::empty());
    }
    while i < events.len()
        invariant
            i <= events@.len(),
            spec_reader_records(events@) == out.deep_view() + spec_reader_records(
                events@.skip(i as int),
            ),
        decreases events@.len() - i,
    {
        let ghost suffix = events@.skip(i as int);
        let ghost before = out.deep_view();
        proof {
            assert(suffix.drop_first() =~= events@.skip(i as int + 1));
            assert(suffix[0] == events@[i as int]);
        }
        match &events[i] {
            LineEvent::Line(s) => {
                let line = s.clone();
                out.push(line);
                proof {
                    assert(out.deep_view() =~= before.push(events@[i as int]->Line_0@));
                    assert(out.deep_view() + spec_reader_records(suffix.drop_first()) =~= before
                        + spec_reader_records(suffix));
                }
            },
            LineEvent::DecodeFailure => {
                out.push(terminal_marker(999));
                proof {
                    assert(out.deep_view() =~= before.push(
                        spec_marker(spec_decode_failure_code()),
                    ));
                    assert(spec_reader_records(suffix) =~= seq![
                        spec_marker(spec_decode_failure_code()),
                    ]);
                    assert(out.deep_view() =~= before + spec_reader_records(suffix));
                }
                return out;
            },
        }
        i = i + 1;
    }
    proof {
        assert(events@.skip(events@.len() as int) =~= Seq::<LineEvent>::empty());
        assert(out.deep_view() =~= spec_reader_records(events@));
    }
    out
}

/// Delivers a batch of records to the sink, in order.
fn emit_all(sink: &mut Vec<String>, records: Vec<String>)
    ensures
        final(sink).deep_view() == old(sink).deep_view() + records.deep_view(),
{
    let ghost target = old(sink).deep_view() + records.deep_view();
    let mut rest = records;
    sink.append(&mut rest);
    proof {
        assert(sink.deep_view() =~= target);
    }
}

/// The exit code a wait outcome reports; a missing code defaults to 1.
pub open spec fn spec_exit_code(w: WaitOutcome) -> int {
    match w {
        WaitOutcome::Exited(c) => c as int,
        WaitOutcome::NoExitCode => 1,
        WaitOutcome::WaitFailed => 1,
    }
}

/// Every record one full run delivers to the sink, in order: one error
/// record for a failed spawn or acquisition; otherwise both readers'
/// records, then a wait-failure record or the terminal marker when owed.
pub open spec fn spec_stream_records(outcome: SpawnOutcome, emit: bool) -> Seq<Seq<char>> {
    match outcome {
        SpawnOutcome::SpawnFailed => seq!["Failed to spawn build command"@],
        SpawnOutcome::StdoutUnavailable => seq!["Failed to get stdout"@],
        SpawnOutcome::StderrUnavailable => seq!["Failed to get stderr"@],
        SpawnOutcome::Streams { stdout, stderr, wait } => {
            let drained = spec_reader_records(stdout@) + spec_reader_records(stderr@);
            match wait {
                WaitOutcome::WaitFailed => drained.push("Failed to wait for command"@),
                _ => {
                    let code = spec_exit_code(wait);
                    if code != 0 || emit {
                        drained.push(spec_marker(code))
                    } else {
                        drained
                    }
                },
            }
        },
    }
}

/// What one full run returns for a given transcript: the matching failure,
/// `CommandFailed` for a non-zero exit, success for a zero exit.
pub open spec fn spec_stream_result(outcome: SpawnOutcome, emit: bool) -> Result<(), BuildError> {
    match outcome {
        SpawnOutcome::SpawnFailed => Err(BuildError::SpawnError),
        SpawnOutcome::StdoutUnavailable => Err(
            BuildError::StreamAcquisitionError(StreamKind::Stdout),
        ),
        SpawnOutcome::StderrUnavailable => Err(
            BuildError::StreamAcquisitionError(StreamKind::Stderr),
        ),
        SpawnOutcome::Streams { wait, .. } => match wait {
            WaitOutcome::WaitFailed => Err(BuildError::WaitError),
            _ => {
                let code = spec_exit_code(wait);
                if code == 0 {
                    Ok(())
                } else {
                    Err(BuildError::CommandFailed(code as i32))
                }
            },
        },
    }
}

/// What one full run delivers to the sink and returns, for a given
/// transcript:
///
/// - a spawn or stream-acquisition failure delivers exactly one error record
///   and fails with the matching error;
/// - otherwise both streams are drained, each reader's records in source
///   order (standard output's records here ahead of standard error's; the
///   two real readers interleave freely, and no order between the streams is
///   promised to callers);
/// - a failed wait delivers one error record and fails;
/// - the terminal marker `command.done.<code>` is delivered exactly when the
///   code is non-zero or unconditional emission was requested, after every
///   line record;
/// - a zero exit code succeeds; a non-zero code fails with that code.
pub fn run_and_stream(outcome: &SpawnOutcome, emit_terminal_marker: bool, sink: &mut Vec<String>)
    -> (r: Result<(), BuildError>)
    ensures
        final(sink).deep_view() == old(sink).deep_view() + spec_stream_records(
            *outcome,
            emit_terminal_marker,
        ),
        r == spec_stream_result(*outcome, emit_terminal_marker),
{
    let ghost before = sink.deep_view();
    match outcome {
        SpawnOutcome::SpawnFailed => {
            emit_record(sink, String::from_str("Failed to spawn build command"));
            proof {
                assert(sink.deep_view() =~= before + spec_stream_records(
                    *outcome,
                    emit_terminal_marker,
                ));
            }
            Err(BuildError::SpawnError)
        },
        SpawnOutcome::StdoutUnavailable => {
            emit_record(sink, String::from_str("Failed to get stdout"));
            proof {
                assert(sink.deep_view() =~= before + spec_stream_records(
                    *outcome,
                    emit_terminal_marker,
                ));
            }
            Err(BuildError::StreamAcquisitionError(StreamKind::Stdout))
        },
        SpawnOutcome::StderrUnavailable => {
            emit_record(sink, String::from_str("Failed to get stderr"));
            proof {
                assert(sink.deep_view() =~= before + spec_stream_records(
                    *outcome,
                    emit_terminal_marker,
                ));
            }
            Err(BuildError::StreamAcquisitionError(StreamKind::Stderr))
        },
        SpawnOutcome::Streams { stdout, stderr, wait } => {
            let stdout_records = reader_records(stdout);
            emit_all(sink, stdout_records);
            let stderr_records = reader_records(stderr);
            emit_all(sink, stderr_records);
            let ghost drained = before + spec_reader_records(stdout@) + spec_reader_records(
                stderr@,
            );
            proof {
                assert(sink.deep_view() =~= drained);
            }
            let r = match wait {
                WaitOutcome::WaitFailed => {
                    emit_record(sink, String::from_str("Failed to wait for command"));
                    Err(BuildError::WaitError)
                },
                WaitOutcome::Exited(c) => finish_run(*c, emit_terminal_marker, sink),
                WaitOutcome::NoExitCode => finish_run(1, emit_terminal_marker, sink),
            };
            proof {
                assert(sink.deep_view() =~= before + spec_stream_records(
                    *outcome,
                    emit_terminal_marker,
                ));
            }
            r
        },
    }
}

/// Emits the terminal marker when owed and turns the exit code into the
/// call's result.
fn finish_run(code: i32, emit_terminal_marker: bool, sink: &mut Vec<String>) -> (r: Result<
    (),
    BuildError,
>)
    ensures
        final(sink).deep_view() == (if code != 0 || emit_terminal_marker {
            old(sink).deep_view().push(spec_marker(code as int))
        } else {
            old(sink).deep_view()
        }),
        r == (if code == 0 {
            Ok::<(), BuildError>(())
        } else {
            Err::<(), BuildError>(BuildError::CommandFailed(code))
        }),
{
    if code != 0 || emit_terminal_marker {
        emit_record(sink, terminal_marker(code));
    }
    if code != 0 {
        Err(BuildError::CommandFailed(code))
    } else {
        Ok(())
    }
}

/// A run whose streams decode wholly — N lines on standard output and M on
/// standard error — delivers exactly N + M line records to the sink, each
/// stream verbatim and in source order, before any terminal marker.
pub proof fn lemma_all_lines_delivered(outcome: SpawnOutcome, emit: bool)
    requires
        ({
            match outcome {
                SpawnOutcome::Streams { stdout, stderr, wait } => spec_all_lines(stdout@)
                    && spec_all_lines(stderr@) && wait != WaitOutcome::WaitFailed,
                _ => false,
            }
        }),
    ensures
        ({
            match outcome {
                SpawnOutcome::Streams { stdout, stderr, wait } => {
                    let recs = spec_stream_records(outcome, emit);
                    let n = stdout@.len() as int;
                    let m = stderr@.len() as int;
                    let code = spec_exit_code(wait);
                    let markers: int = if code != 0 || emit {
                        1
                    } else {
                        0
                    };
                    recs.len() == n + m + markers && (forall|i: int|
                        0 <= i < n ==> recs[i] == spec_event_record(stdout@[i])) && (forall|j: int|
                        0 <= j < m ==> recs[n + j] == spec_event_record(stderr@[j])) && ((code != 0
                        || emit) ==> recs[n + m] == spec_marker(code))
                },
                _ => true,
            }
        }),
{
    match outcome {
        SpawnOutcome::Streams { stdout, stderr, wait } => {
            lemma_reader_records_all_lines(stdout@);
            lemma_reader_records_all_lines(stderr@);
        },
        _ => {},
    }
}

/// With unconditional emission off, a zero exit adds no terminal marker:
/// the sink receives exactly the two readers' records and the run succeeds.
/// With it on, exactly one marker — for the zero code — follows them.
pub proof fn lemma_zero_exit_marker(outcome: SpawnOutcome)
    requires
        ({
            match outcome {
                SpawnOutcome::Streams { wait, .. } => spec_exit_code(wait) == 0,
                _ => false,
            }
        }),
    ensures
        ({
            match outcome {
                SpawnOutcome::Streams { stdout, stderr, wait } => {
                    let drained = spec_reader_records(stdout@) + spec_reader_records(stderr@);
                    spec_stream_records(outcome, false) == drained && spec_stream_records(
                        outcome,
                        true,
                    ) == drained.push(spec_marker(0)) && spec_stream_result(outcome, false)
                        == Ok::<(), BuildError>(()) && spec_stream_result(outcome, true) == Ok::<
                        (),
                        BuildError,
                    >(())
                },
                _ => true,
            }
        }),
{
}

/// A non-zero exit always appends its terminal marker and fails the run
/// with exactly that code, whatever the emission flag.
pub proof fn lemma_nonzero_exit_marker(outcome: SpawnOutcome, emit: bool)
    requires
        ({
            match outcome {
                SpawnOutcome::Streams { wait, .. } => wait != WaitOutcome::WaitFailed
                    && spec_exit_code(wait) != 0,
                _ => false,
            }
        }),
    ensures
        ({
            match outcome {
                SpawnOutcome::Streams { stdout, stderr, wait } => {
                    let drained = spec_reader_records(stdout@) + spec_reader_records(stderr@);
                    let code = spec_exit_code(wait);
                    spec_stream_records(outcome, emit) == drained.push(spec_marker(code))
                        && spec_stream_result(outcome, emit) == Err::<(), BuildError>(
                        BuildError::CommandFailed(code as i32),
                    )
                },
                _ => true,
            }
        }),
{
}

} // verus!
