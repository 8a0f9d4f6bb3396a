use simple_command::report::RunError;
use simple_command::session::begin;
use simple_command::session::ReadResult;
use simple_command::session::Session;
use simple_command::session::WaitResult;
use simple_command::numeral::format_i32;
use simple_command::tokens::tokenize;

fn views(toks: &[String]) -> Vec<&str> {
    toks.iter().map(|s| s.as_str()).collect()
}

#[test]
fn tokenize_splits_on_whitespace() {
    assert_eq!(views(&tokenize("echo hello world")), vec!["echo", "hello", "world"]);
}

#[test]
fn tokenize_collapses_runs_and_trims() {
    assert_eq!(views(&tokenize("  ls   -l  ")), vec!["ls", "-l"]);
    assert_eq!(views(&tokenize("\tgcc\n-c main.c\r\n")), vec!["gcc", "-c", "main.c"]);
}

#[test]
fn tokenize_understands_unicode_whitespace() {
    assert_eq!(views(&tokenize("a\u{2003}b\u{a0}c")), vec!["a", "b", "c"]);
}

#[test]
fn tokenize_empty_and_blank() {
    assert_eq!(views(&tokenize("")), Vec::<&str>::new());
    assert_eq!(views(&tokenize("   \t \n ")), Vec::<&str>::new());
}

#[test]
fn empty_command_is_rejected_before_anything_else() {
    assert!(matches!(begin(""), Err(RunError::EmptyCommand)));
    assert!(matches!(begin("  \t\n  "), Err(RunError::EmptyCommand)));
    assert!(matches!(begin("\u{2000}\u{3000}"), Err(RunError::EmptyCommand)));
}

#[test]
fn empty_command_message() {
    let e = begin("").unwrap_err();
    assert_eq!(e.message_text(), "No command specified");
}

#[test]
fn begin_splits_program_and_arguments() {
    let s = begin("cc -O2 -o out main.c").unwrap();
    assert_eq!(s.command, "cc -O2 -o out main.c");
    assert_eq!(s.program, "cc");
    assert_eq!(views(&s.args), vec!["-O2", "-o", "out", "main.c"]);
    assert!(s.captured.is_empty());
}

#[test]
fn spawn_failure_carries_the_os_error() {
    let e = RunError::SpawnFailure { os_error: String::from("No such file or directory") };
    let text = e.message_text();
    assert_eq!(text, "Failed to spawn command: No such file or directory");
}

#[test]
fn quiet_success_returns_normally_with_empty_buffer() {
    let mut s = begin("true").unwrap();
    let done = s
        .poll(ReadResult::Data(Vec::new()), ReadResult::Data(Vec::new()))
        .unwrap();
    assert!(done);
    assert!(s.captured.is_empty());
    let r = s.finish(WaitResult::Status { success: true, code: Some(0) });
    assert!(r.is_ok());
}

#[test]
fn success_with_output_returns_normally() {
    let mut s = begin("echo hello").unwrap();
    let done = s
        .poll(ReadResult::Data(b"hello\n".to_vec()), ReadResult::Data(Vec::new()))
        .unwrap();
    assert!(!done);
    let done = s
        .poll(ReadResult::Data(Vec::new()), ReadResult::Data(Vec::new()))
        .unwrap();
    assert!(done);
    assert_eq!(s.captured, b"hello\n".to_vec());
    let r = s.finish(WaitResult::Status { success: true, code: Some(0) });
    assert!(r.is_ok());
}

#[test]
fn success_with_large_output_drains_fully() {
    // Far past a typical 64 KiB pipe buffer, fed in pipe-sized chunks.
    let mut s = begin("generate").unwrap();
    let chunk = vec![b'x'; 65536];
    let mut total = 0usize;
    for _ in 0..3 {
        let done = s
            .poll(ReadResult::Data(chunk.clone()), ReadResult::Data(Vec::new()))
            .unwrap();
        assert!(!done);
        total += chunk.len();
    }
    let done = s
        .poll(ReadResult::Data(Vec::new()), ReadResult::Data(Vec::new()))
        .unwrap();
    assert!(done);
    assert_eq!(s.captured.len(), total);
    assert!(total > 65536);
    let r = s.finish(WaitResult::Status { success: true, code: Some(0) });
    assert!(r.is_ok());
}

#[test]
fn drain_interleaves_stdout_before_stderr_within_a_round() {
    let mut s = begin("mix").unwrap();
    s.poll(
        ReadResult::Data(b"out1 ".to_vec()),
        ReadResult::Data(b"err1 ".to_vec()),
    )
    .unwrap();
    s.poll(
        ReadResult::Data(b"out2".to_vec()),
        ReadResult::Data(b"err2".to_vec()),
    )
    .unwrap();
    assert_eq!(s.captured, b"out1 err1 out2err2".to_vec());
}

#[test]
fn failure_diagnostic_holds_code_command_and_both_texts() {
    let mut s = begin("sh script.sh").unwrap();
    s.poll(
        ReadResult::Data(b"to stdout\n".to_vec()),
        ReadResult::Data(b"to stderr\n".to_vec()),
    )
    .unwrap();
    let e = s
        .finish(WaitResult::Status { success: false, code: Some(3) })
        .unwrap_err();
    match &e {
        RunError::CommandFailed { command, code, output } => {
            assert_eq!(command, "sh script.sh");
            assert_eq!(*code, Some(3));
            assert_eq!(output, "to stdout\nto stderr\n");
        }
        other => panic!("unexpected error kind: {:?}", other),
    }
    let text = e.message_text();
    assert_eq!(
        text,
        "\nCommand \"sh script.sh\" failed with return value 3\nto stdout\nto stderr\n"
    );
    assert!(text.contains("3"));
    assert!(text.contains("sh script.sh"));
    assert!(text.contains("to stdout"));
    assert!(text.contains("to stderr"));
}

#[test]
fn failure_without_code_says_so() {
    let s = begin("crashy").unwrap();
    let e = s
        .finish(WaitResult::Status { success: false, code: None })
        .unwrap_err();
    assert_eq!(e.message_text(), "\nCommand \"crashy\" failed with no return value\n");
}

#[test]
fn failure_output_is_decoded_lossily() {
    let mut s = begin("binary").unwrap();
    s.poll(
        ReadResult::Data(vec![b'o', b'k', 0xff, 0xfe, b'!']),
        ReadResult::Data(Vec::new()),
    )
    .unwrap();
    let e = s
        .finish(WaitResult::Status { success: false, code: Some(1) })
        .unwrap_err();
    let text = e.message_text();
    assert!(text.contains("ok\u{fffd}\u{fffd}!"));
}

#[test]
fn read_failure_names_the_failing_streams() {
    let mut s = begin("cat file").unwrap();
    let e = s
        .poll(
            ReadResult::Failed(String::from("Input/output error")),
            ReadResult::Data(b"partial".to_vec()),
        )
        .unwrap_err();
    match &e {
        RunError::StreamReadFailure { stdout_error, stderr_error } => {
            assert_eq!(stdout_error.as_deref(), Some("Input/output error"));
            assert!(stderr_error.is_none());
        }
        other => panic!("unexpected error kind: {:?}", other),
    }
    assert_eq!(
        e.message_text(),
        "Failed to read stdout or stderr\nstdout: Input/output error"
    );
    // The buffer is left untouched by the failing round.
    assert!(s.captured.is_empty());

    let e2 = s
        .poll(
            ReadResult::Failed(String::from("eio")),
            ReadResult::Failed(String::from("ebadf")),
        )
        .unwrap_err();
    assert_eq!(
        e2.message_text(),
        "Failed to read stdout or stderr\nstdout: eio\nstderr: ebadf"
    );
}

#[test]
fn wait_failure_carries_the_os_error() {
    let s = begin("slow").unwrap();
    let e = s
        .finish(WaitResult::Failed(String::from("No child processes")))
        .unwrap_err();
    assert_eq!(e.message_text(), "Failed to wait for command: No child processes");
}

#[test]
fn rerunning_the_same_command_ends_the_same_way() {
    let run = || {
        let mut s = begin("echo twice").unwrap();
        s.poll(ReadResult::Data(b"twice\n".to_vec()), ReadResult::Data(Vec::new()))
            .unwrap();
        s.poll(ReadResult::Data(Vec::new()), ReadResult::Data(Vec::new()))
            .unwrap();
        s.finish(WaitResult::Status { success: true, code: Some(0) })
    };
    let first = run();
    let second = run();
    assert!(first.is_ok());
    assert!(second.is_ok());

    let failing_run = || {
        let s = begin("false").unwrap();
        s.finish(WaitResult::Status { success: false, code: Some(1) })
            .unwrap_err()
            .message_text()
    };
    assert_eq!(failing_run(), failing_run());
}

#[test]
fn format_i32_exact_values() {
    assert_eq!(format_i32(0), "0");
    assert_eq!(format_i32(7), "7");
    assert_eq!(format_i32(42), "42");
    assert_eq!(format_i32(-3), "-3");
    assert_eq!(format_i32(300), "300");
    assert_eq!(format_i32(2147483647), "2147483647");
    assert_eq!(format_i32(-2147483648), "-2147483648");
}

#[test]
fn session_is_plain_data() {
    let s: Session = begin("a b").unwrap();
    assert_eq!(s.program, "a");
    assert_eq!(views(&s.args), vec!["b"]);
}
