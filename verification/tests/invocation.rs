//! End-to-end scenarios: real child processes, their captured pipes decoded
//! into lines and fed through the multiplexer in arrival order per origin,
//! as an application driver does.

use nx_mux::mux::{IoType, Multiplexer, MuxEvent};
use nx_mux::nx::{ExitStatus, InvokeError, Nx, Output};
use nx_mux::streamable_command::Command;

/// Splits one captured pipe into its decoded lines; a decode failure is
/// reported like a read failure on that pipe.
fn decode_lines(bytes: &[u8]) -> Result<Vec<String>, String> {
    match String::from_utf8(bytes.to_vec()) {
        Ok(text) => Ok(text.lines().map(|l| l.to_string()).collect()),
        Err(e) => Err(e.to_string()),
    }
}

/// Drains one invocation to completion: runs the child described by `cmd`
/// with both pipes captured, feeds every line into a fresh multiplexer
/// (alternating between the origins, so both are interleaved), and returns
/// the aggregated output together with the multiplexed items.
fn invoke(cmd: &Command) -> Result<(Output, Vec<(IoType, String)>), InvokeError> {
    let rt = tokio::runtime::Builder::new_current_thread()
        .enable_all()
        .build()
        .unwrap();
    let raw = rt.block_on(async {
        let mut c = tokio::process::Command::new(cmd.program().as_str());
        for a in cmd.args().iter() {
            c.arg(a);
        }
        if let Some(d) = cmd.workdir() {
            c.current_dir(d);
        }
        c.output().await
    });
    let raw = match raw {
        Ok(o) => o,
        Err(e) => return Err(InvokeError::Spawn(e.to_string())),
    };

    let mut mux = Multiplexer::new(cmd.clone_sink());
    mux.register(IoType::StdOut);
    mux.register(IoType::StdErr);

    let mut pending: Vec<(IoType, Result<Vec<String>, String>)> = vec![
        (IoType::StdOut, decode_lines(&raw.stdout)),
        (IoType::StdErr, decode_lines(&raw.stderr)),
    ];
    let mut items: Vec<(IoType, String)> = Vec::new();
    let mut exhausted = false;
    let mut level = 0;
    while !exhausted && !mux.has_failed() {
        exhausted = true;
        for (tag, lines) in pending.iter_mut() {
            match lines {
                Ok(ls) => {
                    if level < ls.len() {
                        exhausted = false;
                        let line = ls[level].clone();
                        items.push((tag.clone(), line.clone()));
                        mux.on_event(MuxEvent::Line(tag.clone(), line));
                    }
                }
                Err(msg) => {
                    mux.on_event(MuxEvent::ReadError(tag.clone(), msg.clone()));
                    break;
                }
            }
        }
        level += 1;
    }
    if mux.has_failed() {
        return Err(mux.take_failure().unwrap());
    }
    mux.on_event(MuxEvent::Eof(IoType::StdOut));
    mux.on_event(MuxEvent::Eof(IoType::StdErr));
    assert!(mux.is_done());

    let status = ExitStatus::from_code(raw.status.code());
    Ok((mux.finish(status), items))
}

fn sh(script: &str) -> Command {
    let mut cmd = Command::new("sh");
    cmd.arg("-c");
    cmd.arg(script);
    cmd
}

#[test]
fn interleaved_writes_aggregate_per_origin() {
    let cmd = sh("printf 'a\\nb\\n' 1>&2; printf 'c\\nd\\n'");
    let (out, items) = invoke(&cmd).unwrap();
    assert!(out.status.success());
    assert_eq!(out.stdout, "c\nd");
    assert_eq!(out.stderr, "a\nb");

    let outs: Vec<&str> = items
        .iter()
        .filter(|(t, _)| *t == IoType::StdOut)
        .map(|(_, l)| l.as_str())
        .collect();
    let errs: Vec<&str> = items
        .iter()
        .filter(|(t, _)| *t == IoType::StdErr)
        .map(|(_, l)| l.as_str())
        .collect();
    assert_eq!(outs, vec!["c", "d"]);
    assert_eq!(errs, vec!["a", "b"]);
    assert_eq!(items.len(), 4);
}

#[test]
fn heavy_interleaving_keeps_per_origin_order() {
    let cmd = sh("for i in 1 2 3 4 5; do echo out$i; echo err$i 1>&2; done");
    let (out, _) = invoke(&cmd).unwrap();
    assert!(out.status.success());
    assert_eq!(out.stdout, "out1\nout2\nout3\nout4\nout5");
    assert_eq!(out.stderr, "err1\nerr2\nerr3\nerr4\nerr5");
}

#[test]
fn exit_code_is_reported_exactly() {
    let cmd = sh("exit 7");
    let (out, _) = invoke(&cmd).unwrap();
    assert_eq!(out.status.code(), Some(7));
    assert!(!out.status.success());
    assert_eq!(out.status, ExitStatus::Exited(7));
}

#[test]
fn silent_child_yields_empty_buffers_and_success() {
    let cmd = sh("exit 0");
    let (out, items) = invoke(&cmd).unwrap();
    assert!(out.status.success());
    assert_eq!(out.stdout, "");
    assert_eq!(out.stderr, "");
    assert!(items.is_empty());
}

#[test]
fn one_sided_child_terminates_cleanly() {
    let cmd = sh("printf 'only\\nstdout\\n'");
    let (out, items) = invoke(&cmd).unwrap();
    assert_eq!(out.stdout, "only\nstdout");
    assert_eq!(out.stderr, "");
    assert!(items.iter().all(|(t, _)| *t == IoType::StdOut));
}

#[test]
fn missing_program_is_a_spawn_failure() {
    let cmd = Command::new("surely-no-such-program-on-any-path");
    let err = invoke(&cmd).unwrap_err();
    assert!(matches!(err, InvokeError::Spawn(_)));
    let action = Nx::conclude(Err(err));
    match action {
        nx_mux::action::Action::Error(m) => assert!(m.starts_with("spawn failure: ")),
        other => panic!("expected an error action, got {:?}", other),
    }
}

#[test]
fn invalid_utf8_is_a_pipe_read_failure() {
    let cmd = sh("printf 'ok\\n\\377\\376\\n'");
    let err = invoke(&cmd).unwrap_err();
    assert!(matches!(err, InvokeError::PipeRead(IoType::StdOut, _)));
}

#[test]
fn sink_with_no_receiver_never_fails_the_invocation() {
    let (tx, rx) = tokio::sync::mpsc::unbounded_channel::<String>();
    drop(rx);
    let mut cmd = sh("printf 'c\\nd\\n'; printf 'a\\nb\\n' 1>&2");
    cmd.command_log_tx(tx);
    let (out, _) = invoke(&cmd).unwrap();
    assert!(out.status.success());
    assert_eq!(out.stdout, "c\nd");
    assert_eq!(out.stderr, "a\nb");
}

#[test]
fn sink_receives_every_multiplexed_line() {
    let (tx, mut rx) = tokio::sync::mpsc::unbounded_channel::<String>();
    let mut cmd = sh("printf 'c\\nd\\n'");
    cmd.command_log_tx(tx);
    let (out, _) = invoke(&cmd).unwrap();
    assert_eq!(out.stdout, "c\nd");
    let mut seen: Vec<String> = Vec::new();
    while let Ok(line) = rx.try_recv() {
        seen.push(line);
    }
    assert_eq!(seen, vec!["c".to_string(), "d".to_string()]);
}
