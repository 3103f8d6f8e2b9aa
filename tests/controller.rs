use remote_control::codec::{decode_message, encode_response};
use remote_control::controller::{
    help_string, parse_line, parse_words, process, process_response, received_response,
    send_file_frame, Controller, ControllerAction, ParseKind, ProcessType, Rendered,
};
use remote_control::message::{MyError, MyMessage, MyResponse, MyResponseKind};

fn words(line: &str) -> Vec<String> {
    line.split_whitespace().map(|w| w.to_string()).collect()
}

#[test]
fn run_command_keeps_every_word() {
    assert_eq!(
        parse_line("RC -w ping 1"),
        Ok(ParseKind::RunCommand { command: "-w ping 1".to_string() })
    );
    assert_eq!(
        parse_line("runcommand   ls    -la"),
        Ok(ParseKind::RunCommand { command: "ls -la".to_string() })
    );
}

#[test]
fn send_file_with_new_name() {
    assert_eq!(
        parse_line("SF a.txt b.txt"),
        Ok(ParseKind::SendFile { path: "a.txt".to_string(), filename: "b.txt".to_string() })
    );
}

#[test]
fn send_file_name_defaults_to_path() {
    assert_eq!(
        parse_line("SendFile dir/a.txt"),
        Ok(ParseKind::SendFile { path: "dir/a.txt".to_string(), filename: "dir/a.txt".to_string() })
    );
}

#[test]
fn send_file_without_path_is_refused() {
    let e = parse_line("sendfile").unwrap_err();
    assert_eq!(e.when, "checking the arguments of SendFile");
}

#[test]
fn echo_verbs() {
    let hello = Ok(ParseKind::Echo("hello world".to_string()));
    assert_eq!(parse_line("SM hello   world"), hello);
    assert_eq!(parse_line("SimpleMessage hello world"), hello);
    assert_eq!(parse_line("ECHO hello world\n"), hello);
    assert_eq!(parse_line("SM").unwrap_err().msg, "no message was given");
}

#[test]
fn aliases_are_case_sensitive() {
    assert_eq!(parse_line("sm hi").unwrap_err().msg, "unknown command");
    assert_eq!(parse_line("rc ls").unwrap_err().msg, "unknown command");
}

#[test]
fn ls_is_case_insensitive() {
    assert_eq!(parse_line("ls"), Ok(ParseKind::Ls));
    assert_eq!(parse_line("LS"), Ok(ParseKind::Ls));
    assert_eq!(parse_line("Ls extra"), Ok(ParseKind::Ls));
}

#[test]
fn end_and_help() {
    assert_eq!(parse_line("end"), Ok(ParseKind::End));
    assert_eq!(parse_line("EXIT"), Ok(ParseKind::End));
    assert_eq!(parse_line("end now").unwrap_err().msg, "too many arguments");
    assert_eq!(parse_line("Help"), Ok(ParseKind::Help));
}

#[test]
fn set_exec_number() {
    assert_eq!(parse_line("SN 3"), Ok(ParseKind::SetExecNumber(3)));
    assert_eq!(parse_line("setexecnumber +4"), Ok(ParseKind::SetExecNumber(4)));
    assert_eq!(parse_line("SN").unwrap_err().msg, "no execution count was given");
    assert_eq!(
        parse_line("SN two").unwrap_err().msg,
        "the execution count is not a non-negative integer"
    );
    assert_eq!(
        parse_line("SN -1").unwrap_err().msg,
        "the execution count is not a non-negative integer"
    );
    assert_eq!(parse_line("SN 0").unwrap_err().msg, "the execution count must be at least 1");
    assert_eq!(parse_line("SN 2 3").unwrap_err().msg, "unexpected extra arguments");
}

#[test]
fn empty_and_unknown_lines() {
    assert_eq!(
        parse_line("   \n"),
        Err(MyError { msg: "enter a command".to_string(), when: "reading the command".to_string() })
    );
    assert_eq!(
        parse_line("bogus 1"),
        Err(MyError { msg: "unknown command".to_string(), when: "parsing the command".to_string() })
    );
}

#[test]
fn words_with_given_lowercase_verb() {
    assert_eq!(
        parse_words(&words("Exit"), &"exit".to_string()),
        Ok(ParseKind::End)
    );
    assert_eq!(
        parse_words(&words("RC a b"), &"rc".to_string()),
        Ok(ParseKind::RunCommand { command: "a b".to_string() })
    );
}

#[test]
fn process_maps_commands() {
    assert_eq!(
        process(ParseKind::RunCommand { command: "x".to_string() }, 4),
        ProcessType::NormalMessage(MyMessage::RunCommand { command: "x".to_string(), exec_number: 4 })
    );
    assert_eq!(process(ParseKind::Ls, 1), ProcessType::Prompt);
    assert_eq!(process(ParseKind::Help, 1), ProcessType::Prompt);
    assert_eq!(process(ParseKind::End, 1), ProcessType::End);
    assert_eq!(process(ParseKind::SetExecNumber(2), 1), ProcessType::SetExecNumber(2));
}

#[test]
fn session_count_goes_into_run_requests() {
    let mut c = Controller::new();
    assert_eq!(c.exec_number, 1);
    assert_eq!(
        c.on_command(ParseKind::SetExecNumber(5)),
        ControllerAction::SendText("execution count set".to_string())
    );
    assert_eq!(c.exec_number, 5);
    match c.on_command(ParseKind::RunCommand { command: "ping".to_string() }) {
        ControllerAction::SendBinary(b) => assert_eq!(
            decode_message(&b),
            Ok(MyMessage::RunCommand { command: "ping".to_string(), exec_number: 5 })
        ),
        other => panic!("unexpected action {:?}", other),
    }
    assert_eq!(c.on_command(ParseKind::End), ControllerAction::Close);
    assert_eq!(
        c.on_command(ParseKind::SendFile { path: "a".to_string(), filename: "b".to_string() }),
        ControllerAction::ReadFile { path: "a".to_string(), filename: "b".to_string() }
    );
}

#[test]
fn send_file_frame_carries_contents() {
    let b = send_file_frame("b.txt".to_string(), "data".to_string());
    assert_eq!(
        decode_message(&b),
        Ok(MyMessage::SendFile { filename: "b.txt".to_string(), contents: "data".to_string() })
    );
}

#[test]
fn undecodable_result_is_shown_as_notice() {
    assert_eq!(
        received_response(&[5]),
        Ok(MyResponseKind::Echo("the received result could not be decoded".to_string()))
    );
    let r: MyResponse = Ok(MyResponseKind::SendFile);
    assert_eq!(received_response(&encode_response(&r)), r);
}

#[test]
fn rendering() {
    let out = |s: &str| Some(s.to_string());
    assert_eq!(
        process_response(&Ok(MyResponseKind::Echo("Echo : hi".to_string()))),
        Rendered { out: out("Echo : hi"), err: None }
    );
    assert_eq!(
        process_response(&Ok(MyResponseKind::RunCommand {
            stdout: "o".to_string(),
            stderr: "e".to_string()
        })),
        Rendered { out: out("stdout :\no"), err: out("stderr :\ne") }
    );
    assert_eq!(
        process_response(&Ok(MyResponseKind::SendFile)),
        Rendered { out: out("file sent"), err: None }
    );
    let e = MyError { msg: "denied".to_string(), when: "write".to_string() };
    assert_eq!(e.to_string(), "msg : denied\nwhen : write");
    assert_eq!(process_response(&Err(e)), Rendered { out: None, err: out("msg : denied\nwhen : write") });
}

#[test]
fn help_lists_the_verbs() {
    let h = help_string();
    for verb in [
        "help",
        "end(exit)",
        "ls",
        "SendFile(SF)",
        "SimpleMessage(SM)",
        "RunCommand(RC)",
        "SetExecNumber(SN)",
    ] {
        assert!(h.contains(verb), "{}", verb);
    }
    assert_eq!(help_string(), h);
}
