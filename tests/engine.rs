use remote_control::engine::{
    make_command, output_result, process_msg, run_once_result, send_file_result, RunOutcome,
    ShellCommand, Step, WriteOutcome, RECEIVE_TIMEOUT_SECS,
};
use remote_control::message::{MyError, MyMessage, MyResponseKind};

const NOTICE: &str = "output is not available when a command runs more than once";

fn shell(program: &str, flag: &str, line: &str) -> ShellCommand {
    ShellCommand { program: program.to_string(), args: vec![flag.to_string(), line.to_string()] }
}

fn failure(msg: &str, when: &str) -> MyError {
    MyError { msg: msg.to_string(), when: when.to_string() }
}

#[test]
fn echo_is_answered_with_prefixed_text() {
    let step = process_msg(MyMessage::Echo("hello world".to_string()), false);
    assert_eq!(step, Step::Reply(Ok(MyResponseKind::Echo("Echo : hello world".to_string()))));
}

#[test]
fn posix_shell_invocation() {
    assert_eq!(make_command("ls -la", false), shell("sh", "-c", "ls -la"));
}

#[test]
fn command_prompt_invocation() {
    assert_eq!(make_command("dir", true), shell("cmd", "/C", "dir"));
}

#[test]
fn single_run_is_waited_for() {
    let m = MyMessage::RunCommand { command: "echo hi".to_string(), exec_number: 1 };
    assert_eq!(process_msg(m, false), Step::RunOnce(shell("sh", "-c", "echo hi")));
    assert_eq!(RECEIVE_TIMEOUT_SECS, 3);
}

#[test]
fn repeated_run_answers_at_once_with_fixed_notice() {
    for n in [2usize, 3, 100] {
        let m = MyMessage::RunCommand { command: "sleep 60".to_string(), exec_number: n };
        let expected = Step::RunDetached {
            command: shell("sh", "-c", "sleep 60"),
            times: n,
            reply: Ok(MyResponseKind::RunCommand {
                stdout: NOTICE.to_string(),
                stderr: NOTICE.to_string(),
            }),
        };
        assert_eq!(process_msg(m, false), expected);
    }
}

#[test]
fn zero_runs_start_nothing() {
    let m = MyMessage::RunCommand { command: "x".to_string(), exec_number: 0 };
    match process_msg(m, true) {
        Step::RunDetached { times, .. } => assert_eq!(times, 0),
        other => panic!("unexpected step {:?}", other),
    }
}

#[test]
fn send_file_asks_for_a_write() {
    let m = MyMessage::SendFile { filename: "out.txt".to_string(), contents: "hello".to_string() };
    assert_eq!(
        process_msg(m, false),
        Step::WriteFile { filename: "out.txt".to_string(), contents: "hello".to_string() }
    );
}

#[test]
fn finished_run_reports_trimmed_streams() {
    let r = run_once_result(RunOutcome::Finished {
        stdout: b"hello\n".to_vec(),
        stderr: b"".to_vec(),
    });
    assert_eq!(
        r,
        Ok(MyResponseKind::RunCommand { stdout: "hello".to_string(), stderr: "".to_string() })
    );
}

#[test]
fn finished_run_decodes_shift_jis() {
    let r = run_once_result(RunOutcome::Finished {
        stdout: vec![0x83, 0x65, 0x83, 0x58, 0x83, 0x67, b'\r', b'\n'],
        stderr: b"  warn  ".to_vec(),
    });
    assert_eq!(
        r,
        Ok(MyResponseKind::RunCommand { stdout: "テスト".to_string(), stderr: "  warn".to_string() })
    );
}

#[test]
fn output_keeps_leading_space_and_drops_trailing() {
    assert_eq!(
        output_result("  a b \t\n", "\u{3000}x\u{3000}"),
        Ok(MyResponseKind::RunCommand { stdout: "  a b".to_string(), stderr: "\u{3000}x".to_string() })
    );
}

#[test]
fn timed_out_run_is_a_receive_timeout() {
    let r = run_once_result(RunOutcome::TimedOut("timed out waiting on channel".to_string()));
    assert_eq!(r, Err(failure("timed out waiting on channel", "receive-timeout")));
}

#[test]
fn failed_run_is_a_command_execution_failure() {
    let r = run_once_result(RunOutcome::Failed("No such file or directory".to_string()));
    assert_eq!(r, Err(failure("No such file or directory", "command execution")));
}

#[test]
fn write_outcomes() {
    assert_eq!(send_file_result(WriteOutcome::Written), Ok(MyResponseKind::SendFile));
    assert_eq!(
        send_file_result(WriteOutcome::CreateFailed("denied".to_string())),
        Err(failure("denied", "create-file"))
    );
    assert_eq!(
        send_file_result(WriteOutcome::WriteFailed("disk full".to_string())),
        Err(failure("disk full", "write"))
    );
    assert_eq!(
        send_file_result(WriteOutcome::FlushFailed("io".to_string())),
        Err(failure("io", "flush"))
    );
}
