use std::collections::HashMap;

use code_runner::machine::{CpuTime, Event, Location, ProcessOutput};
use code_runner::types::{Execution, ExecutionError, ExecutionResult, ExecutionTransfer, File, FilePath};
use code_runner::worker::{continues_batch, entry_name_of, Action, Staging, Worker};

const ROOT: &str = "/scratch/w1";

/// What the caller of a worker would do, with the disk and the blob store in memory.
#[derive(Default)]
struct World {
    files: HashMap<String, Vec<u8>>,
    blobs: HashMap<String, Vec<u8>>,
    puts: Vec<String>,
    launches: Vec<Vec<u8>>,
    executable: Vec<String>,
}

fn exited(code: i32, stdout: &[u8], stderr: &[u8]) -> ProcessOutput {
    ProcessOutput {
        code,
        stdout: stdout.to_vec(),
        stderr: stderr.to_vec(),
        cpu: Some(CpuTime { user_ms: 3, system_ms: 4 }),
        vmrss_kb: Some(1200),
    }
}

fn run_with<F: Fn(&[u8]) -> Event>(w: &mut Worker, world: &mut World, exec: Execution, child: F) -> Result<ExecutionResult, ExecutionError> {
    let mut run = w.begin(exec);
    let mut event = Event::Done;
    for _ in 0..1000 {
        event = match w.step(&mut run, event) {
            Action::Proceed => Event::Done,
            Action::Load { from, make_executable } => {
                let found = match &from {
                    Location::Host { path } | Location::Scratch { path } => {
                        if make_executable {
                            world.executable.push(path.clone());
                        }
                        world.files.get(path).cloned()
                    }
                    Location::Blob { id } => world.blobs.get(id).cloned(),
                };
                match found {
                    Some(content) => Event::Loaded { content },
                    None => Event::Failed { message: "not found".to_string() },
                }
            }
            Action::Store { to, content, executable } => {
                match to {
                    Location::Host { path } | Location::Scratch { path } => {
                        if executable {
                            world.executable.push(path.clone());
                        }
                        world.files.insert(path, content);
                    }
                    Location::Blob { id } => {
                        world.puts.push(id.clone());
                        world.blobs.insert(id, content);
                    }
                }
                Event::Done
            }
            Action::Launch { stdin } => {
                let input = stdin.unwrap_or_default();
                world.launches.push(input.clone());
                child(&input)
            }
            Action::Finish { outcome } => {
                assert!(matches!(w.step(&mut run, Event::Done), Action::Idle));
                return outcome;
            }
            Action::Idle => panic!("a run that is over was stepped"),
        };
    }
    panic!("the run did not finish")
}

fn run_child<F: Fn(&[u8]) -> ProcessOutput>(w: &mut Worker, world: &mut World, exec: Execution, child: F) -> Result<ExecutionResult, ExecutionError> {
    run_with(w, world, exec, |i| Event::Exited { output: child(i) })
}

fn exec(program: &str) -> Execution {
    Execution {
        program: program.to_string(),
        args: vec![],
        time_limit: 1,
        wall_time_limit: 2,
        memory_limit: 64 * 1024 * 1024,
        copy_out: vec![],
        copy_in: vec![],
        return_files: vec![],
        die_on_error: false,
        autofix: None,
    }
}

fn edge(from: FilePath, to: FilePath) -> ExecutionTransfer {
    ExecutionTransfer { from, to }
}

fn local(name: &str) -> FilePath {
    FilePath::Local { name: name.to_string(), executable: false }
}

fn remote(id: &str) -> FilePath {
    FilePath::Remote { id: id.to_string() }
}

fn stdout() -> FilePath {
    FilePath::Stdout { max_size: None }
}

fn upper_echo(input: &[u8]) -> ProcessOutput {
    let mut out = input.to_ascii_uppercase();
    out.push(b'\n');
    exited(0, &out, b"")
}

fn cat(input: &[u8]) -> ProcessOutput {
    exited(0, input, b"")
}

fn names(r: &ExecutionResult) -> Vec<String> {
    r.return_files.iter().map(|f| f.name.clone()).collect()
}

#[test]
fn two_stage_pipeline() {
    let mut w = Worker::new(ROOT.to_string());
    let mut world = World::default();
    world.blobs.insert("in".to_string(), b"hello".to_vec());

    let mut e1 = exec("/usr/bin/python3");
    e1.copy_in = vec![edge(remote("in"), FilePath::Stdin {})];
    e1.copy_out = vec![edge(stdout(), FilePath::Tmp { id: 1 })];
    let r1 = run_child(&mut w, &mut world, e1, upper_echo).unwrap();
    assert_eq!(r1.exit_code, 0);

    let mut e2 = exec("/bin/cat");
    e2.copy_in = vec![edge(FilePath::Tmp { id: 1 }, FilePath::Stdin {})];
    e2.return_files = vec![stdout()];
    let r2 = run_child(&mut w, &mut world, e2, cat).unwrap();
    assert_eq!(r2.exit_code, 0);
    assert_eq!(r2.return_files.len(), 1);
    assert_eq!(r2.return_files[0].name, "stdout");
    assert_eq!(r2.return_files[0].content, b"HELLO\n".to_vec());
}

#[test]
fn nonzero_exit_skips_copy_out() {
    let mut w = Worker::new(ROOT.to_string());
    let mut world = World::default();
    let mut e = exec("/bin/sleep");
    e.copy_out = vec![edge(stdout(), remote("out")), edge(stdout(), local("log"))];
    e.return_files = vec![FilePath::Stderr { max_size: None }];
    let r = run_child(&mut w, &mut world, e, |_| exited(137, b"partial", b"killed")).unwrap();
    assert_eq!(r.exit_code, 137);
    assert!(world.puts.is_empty());
    assert!(world.blobs.is_empty());
    assert!(world.files.is_empty());
    assert_eq!(names(&r), vec!["stderr"]);
    assert_eq!(r.return_files[0].content, b"killed".to_vec());
}

#[test]
fn return_files_keep_request_order() {
    let mut w = Worker::new(ROOT.to_string());
    let mut world = World::default();
    world.blobs.insert("b1".to_string(), b"blob".to_vec());
    world.files.insert(format!("{}/a.txt", ROOT), b"A".to_vec());
    let mut e = exec("/bin/echo");
    e.copy_in = vec![edge(FilePath::Data { content: b"t".to_vec() }, FilePath::Tmp { id: 42 })];
    e.return_files = vec![
        FilePath::Stderr { max_size: None },
        FilePath::Tmp { id: 42 },
        local("a.txt"),
        remote("b1"),
        stdout(),
    ];
    let r = run_child(&mut w, &mut world, e, |_| exited(0, b"out\n", b"err")).unwrap();
    assert_eq!(names(&r), vec!["stderr", "tmp_42", "a.txt", "remote_b1", "stdout"]);
    let contents: Vec<Vec<u8>> = r.return_files.iter().map(|f| f.content.clone()).collect();
    assert_eq!(contents, vec![b"err".to_vec(), b"t".to_vec(), b"A".to_vec(), b"blob".to_vec(), b"out\n".to_vec()]);
}

#[test]
fn later_directive_wins() {
    let mut w = Worker::new(ROOT.to_string());
    let mut world = World::default();
    let mut e = exec("/bin/true");
    e.copy_in = vec![
        edge(FilePath::Data { content: b"first".to_vec() }, local("x")),
        edge(FilePath::Data { content: b"second".to_vec() }, local("x")),
        edge(FilePath::Data { content: b"one".to_vec() }, FilePath::Tmp { id: 42 }),
        edge(FilePath::Data { content: b"two".to_vec() }, FilePath::Tmp { id: 42 }),
    ];
    e.return_files = vec![local("x"), FilePath::Tmp { id: 42 }];
    let r = run_child(&mut w, &mut world, e, cat).unwrap();
    assert_eq!(world.files.get(&format!("{}/x", ROOT)), Some(&b"second".to_vec()));
    assert_eq!(r.return_files[0].content, b"second".to_vec());
    assert_eq!(r.return_files[1].content, b"two".to_vec());
}

#[test]
fn returned_tmp_is_consumed() {
    let mut w = Worker::new(ROOT.to_string());
    let mut world = World::default();
    let mut e1 = exec("/bin/true");
    e1.copy_in = vec![edge(FilePath::Data { content: b"keep".to_vec() }, FilePath::Tmp { id: 5 })];
    e1.return_files = vec![FilePath::Tmp { id: 5 }];
    let r1 = run_child(&mut w, &mut world, e1, cat).unwrap();
    assert_eq!(r1.return_files[0].content, b"keep".to_vec());

    let mut e2 = exec("/bin/true");
    e2.return_files = vec![FilePath::Tmp { id: 5 }];
    let r2 = run_child(&mut w, &mut world, e2, cat).unwrap();
    assert_eq!(r2.return_files[0].name, "tmp_5");
    assert!(r2.return_files[0].content.is_empty());
}

#[test]
fn remote_put_then_read() {
    let mut w = Worker::new(ROOT.to_string());
    let mut world = World::default();
    let mut e = exec("/bin/echo");
    e.copy_out = vec![edge(stdout(), remote("r7"))];
    e.return_files = vec![remote("r7")];
    let r = run_child(&mut w, &mut world, e, |_| exited(0, b"payload\n", b"")).unwrap();
    assert_eq!(world.puts, vec!["r7"]);
    assert_eq!(r.return_files[0].name, "remote_r7");
    assert_eq!(r.return_files[0].content, b"payload\n".to_vec());
}

#[test]
fn local_file_survives_between_executions() {
    let mut w = Worker::new(ROOT.to_string());
    let mut world = World::default();
    let mut e1 = exec("/bin/echo");
    e1.copy_out = vec![edge(stdout(), local("shared"))];
    run_child(&mut w, &mut world, e1, |_| exited(0, b"data\n", b"")).unwrap();

    let mut e2 = exec("/bin/true");
    e2.return_files = vec![local("shared")];
    let r2 = run_child(&mut w, &mut world, e2, cat).unwrap();
    assert_eq!(r2.return_files[0].name, "shared");
    assert_eq!(r2.return_files[0].content, b"data\n".to_vec());
}

#[test]
fn tmp_then_stdin_round_trip() {
    let mut w = Worker::new(ROOT.to_string());
    let mut world = World::default();
    world.files.insert("/host/input.txt".to_string(), b"from host".to_vec());
    let mut e = exec("/bin/cat");
    e.copy_in = vec![
        edge(local("/host/input.txt"), FilePath::Tmp { id: 7 }),
        edge(FilePath::Tmp { id: 7 }, FilePath::Stdin {}),
    ];
    run_child(&mut w, &mut world, e, cat).unwrap();
    assert_eq!(world.launches, vec![b"from host".to_vec()]);
}

#[test]
fn stdout_cap_zero_is_empty() {
    let mut w = Worker::new(ROOT.to_string());
    let mut world = World::default();
    let mut e = exec("/bin/echo");
    e.return_files = vec![FilePath::Stdout { max_size: Some(0) }];
    let r = run_child(&mut w, &mut world, e, |_| exited(0, b"abc\n", b"")).unwrap();
    assert!(r.return_files[0].content.is_empty());
}

#[test]
fn stdout_cap_at_least_length_is_full() {
    let mut w = Worker::new(ROOT.to_string());
    let mut world = World::default();
    let mut e = exec("/bin/echo");
    e.return_files = vec![FilePath::Stdout { max_size: Some(4) }, FilePath::Stdout { max_size: Some(100) }, FilePath::Stderr { max_size: Some(2) }];
    let r = run_child(&mut w, &mut world, e, |_| exited(0, b"abc\n", b"xyz")).unwrap();
    assert_eq!(r.return_files[0].content, b"abc\n".to_vec());
    assert_eq!(r.return_files[1].content, b"abc\n".to_vec());
    assert_eq!(r.return_files[2].content, b"xy".to_vec());
}

#[test]
fn missing_tmp_reads_empty() {
    let mut w = Worker::new(ROOT.to_string());
    let mut world = World::default();
    let mut e = exec("/bin/cat");
    e.copy_in = vec![edge(FilePath::Tmp { id: 99 }, FilePath::Stdin {})];
    e.return_files = vec![FilePath::Tmp { id: 98 }];
    let r = run_child(&mut w, &mut world, e, cat).unwrap();
    assert_eq!(world.launches, vec![Vec::<u8>::new()]);
    assert_eq!(r.return_files[0].name, "tmp_98");
    assert!(r.return_files[0].content.is_empty());
}

#[test]
fn autofix_applies_to_stdout_only() {
    let mut w = Worker::new(ROOT.to_string());
    let mut world = World::default();
    let mut e = exec("/bin/echo");
    e.return_files = vec![stdout(), FilePath::Stderr { max_size: None }];
    let r = run_child(&mut w, &mut world, e, |_| exited(0, b"a  \t\nb\r\n", b"e  \n")).unwrap();
    assert_eq!(r.return_files[0].content, b"a\nb\n".to_vec());
    assert_eq!(r.return_files[1].content, b"e  \n".to_vec());
}

#[test]
fn autofix_false_keeps_stdout() {
    let mut w = Worker::new(ROOT.to_string());
    let mut world = World::default();
    let mut e = exec("/bin/echo");
    e.autofix = Some(false);
    e.return_files = vec![stdout()];
    let r = run_child(&mut w, &mut world, e, |_| exited(0, b"a  ", b"")).unwrap();
    assert_eq!(r.return_files[0].content, b"a  ".to_vec());
}

#[test]
fn resource_figures() {
    let mut w = Worker::new(ROOT.to_string());
    let mut world = World::default();
    let r = run_child(&mut w, &mut world, exec("/bin/sh"), |_| exited(0, b"", b"")).unwrap();
    assert_eq!(r.time_used, 7);
    assert_eq!(r.memory_used, 1200);
    let r = run_child(&mut w, &mut world, exec("/bin/sh"), |_| ProcessOutput {
        code: 0,
        stdout: vec![],
        stderr: vec![],
        cpu: None,
        vmrss_kb: None,
    })
    .unwrap();
    assert_eq!(r.time_used, 0);
    assert_eq!(r.memory_used, 0);
}

#[test]
fn launch_gets_stdin_and_executable_loads() {
    let mut w = Worker::new(ROOT.to_string());
    let mut world = World::default();
    world.files.insert("/host/prog".to_string(), b"#!/bin/sh".to_vec());
    let mut e = exec("/box/prog");
    e.copy_in = vec![edge(FilePath::Local { name: "/host/prog".to_string(), executable: true }, FilePath::Local { name: "prog".to_string(), executable: true })];
    run_child(&mut w, &mut world, e, cat).unwrap();
    assert_eq!(world.files.get(&format!("{}/prog", ROOT)), Some(&b"#!/bin/sh".to_vec()));
    assert_eq!(world.executable, vec!["/host/prog".to_string(), format!("{}/prog", ROOT)]);
}

#[test]
fn unsupported_copy_in_source() {
    let mut w = Worker::new(ROOT.to_string());
    let mut world = World::default();
    let mut e = exec("/bin/true");
    e.copy_in = vec![edge(stdout(), FilePath::Stdin {})];
    let err = run_child(&mut w, &mut world, e, cat).unwrap_err();
    assert_eq!(err.message, "Unsupported file path for copy_in");
    assert!(world.launches.is_empty());
}

#[test]
fn unsupported_copy_in_sink() {
    let mut w = Worker::new(ROOT.to_string());
    let mut world = World::default();
    let mut e = exec("/bin/true");
    e.copy_in = vec![edge(FilePath::Data { content: b"x".to_vec() }, FilePath::Data { content: vec![] })];
    let err = run_child(&mut w, &mut world, e, cat).unwrap_err();
    assert_eq!(err.message, "Unsupported file path for copy_in");
}

#[test]
fn unsupported_copy_out_sink() {
    let mut w = Worker::new(ROOT.to_string());
    let mut world = World::default();
    let mut e = exec("/bin/true");
    e.copy_out = vec![edge(stdout(), FilePath::Stdin {})];
    let err = run_child(&mut w, &mut world, e, cat).unwrap_err();
    assert_eq!(err.message, "Unsupported file path for copy_out");
}

#[test]
fn unsupported_return_file() {
    let mut w = Worker::new(ROOT.to_string());
    let mut world = World::default();
    let mut e = exec("/bin/true");
    e.return_files = vec![FilePath::Stdin {}];
    let err = run_child(&mut w, &mut world, e, cat).unwrap_err();
    assert_eq!(err.message, "Unsupported file path for return_files");
}

#[test]
fn failed_load_ends_run() {
    let mut w = Worker::new(ROOT.to_string());
    let mut world = World::default();
    let mut e = exec("/bin/true");
    e.copy_in = vec![edge(remote("missing"), FilePath::Stdin {})];
    let err = run_child(&mut w, &mut world, e, cat).unwrap_err();
    assert_eq!(err.message, "not found");
    assert!(world.launches.is_empty());
}

#[test]
fn spawn_and_wait_failures() {
    let mut w = Worker::new(ROOT.to_string());
    let mut world = World::default();
    let err = run_with(&mut w, &mut world, exec("/nope"), |_| Event::SpawnFailed { message: "no such file".to_string() }).unwrap_err();
    assert_eq!(err.message, "Failed to spawn process: no such file");
    let err = run_with(&mut w, &mut world, exec("/bin/true"), |_| Event::WaitFailed { message: "interrupted".to_string() }).unwrap_err();
    assert_eq!(err.message, "Failed to wait for process output: interrupted");
}

#[test]
fn unexpected_event_ends_run() {
    let mut w = Worker::new(ROOT.to_string());
    let mut run = w.begin(exec("/bin/true"));
    match w.step(&mut run, Event::Loaded { content: vec![1] }) {
        Action::Finish { outcome: Err(e) } => assert_eq!(e.message, "Unexpected event for the pending action"),
        other => panic!("unexpected action {:?}", other),
    }
    assert!(matches!(w.step(&mut run, Event::Done), Action::Idle));
}

#[test]
fn die_on_error_stops_batch() {
    let mut w = Worker::new(ROOT.to_string());
    let mut world = World::default();
    let mut e1 = exec("/bin/false");
    e1.die_on_error = true;
    let e2 = exec("/bin/true");
    let mut results = vec![];
    for (e, code) in vec![(e1, 1), (e2, 0)] {
        let die = e.die_on_error;
        let outcome = run_child(&mut w, &mut world, e, |_| exited(code, b"", b""));
        let go_on = continues_batch(die, &outcome);
        results.push(outcome);
        if !go_on {
            break;
        }
    }
    assert_eq!(results.len(), 1);
    assert_eq!(results[0].as_ref().unwrap().exit_code, 1);
    assert_eq!(world.launches.len(), 1);
}

#[test]
fn batch_continuation_rules() {
    let ok = |code: i32| -> Result<ExecutionResult, ExecutionError> {
        Ok(ExecutionResult { exit_code: code, time_used: 0, memory_used: 0, return_files: vec![] })
    };
    assert!(continues_batch(true, &ok(0)));
    assert!(!continues_batch(true, &ok(1)));
    assert!(continues_batch(false, &ok(1)));
    assert!(!continues_batch(false, &Err(ExecutionError { message: "x".to_string() })));
}

#[test]
fn staging_initial_files() {
    let w = Worker::new(ROOT.to_string());
    match w.write_file(&File::Local { name: "main.py".to_string(), content: b"print(1)".to_vec() }) {
        Staging::Write { path, content } => {
            assert_eq!(path, format!("{}/main.py", ROOT));
            assert_eq!(content, b"print(1)".to_vec());
        }
        other => panic!("unexpected staging {:?}", other),
    }
    match w.write_file(&File::Remote { name: "in.txt".to_string(), id: "abc".to_string() }) {
        Staging::FetchThenWrite { id, path } => {
            assert_eq!(id, "abc");
            assert_eq!(path, format!("{}/in.txt", ROOT));
        }
        other => panic!("unexpected staging {:?}", other),
    }
}

#[test]
fn cleanup_drops_buffers() {
    let mut w = Worker::new(ROOT.to_string());
    let mut world = World::default();
    let mut e = exec("/bin/true");
    e.copy_in = vec![edge(FilePath::Data { content: b"z".to_vec() }, FilePath::Tmp { id: 3 })];
    run_child(&mut w, &mut world, e, cat).unwrap();
    assert_eq!(w.cleanup(), ROOT);
    let mut e = exec("/bin/true");
    e.return_files = vec![FilePath::Tmp { id: 3 }];
    let r = run_child(&mut w, &mut world, e, cat).unwrap();
    assert!(r.return_files[0].content.is_empty());
}

#[test]
fn entry_names() {
    assert_eq!(entry_name_of(&FilePath::Tmp { id: 12 }), Some("tmp_12".to_string()));
    assert_eq!(entry_name_of(&remote("q")), Some("remote_q".to_string()));
    assert_eq!(entry_name_of(&local("f")), Some("f".to_string()));
    assert_eq!(entry_name_of(&FilePath::Data { content: vec![] }), None);
}
