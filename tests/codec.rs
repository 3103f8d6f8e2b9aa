use remote_control::codec::{decode_message, decode_response, encode_message, encode_response};
use remote_control::message::{MyError, MyMessage, MyResponse, MyResponseKind};

fn echo(s: &str) -> MyMessage {
    MyMessage::Echo(s.to_string())
}

#[test]
fn echo_request_round_trip() {
    let m = echo("hello");
    assert_eq!(decode_message(&encode_message(&m)), Ok(m));
}

#[test]
fn run_command_request_round_trip() {
    let m = MyMessage::RunCommand { command: "ls -la /tmp".to_string(), exec_number: 5 };
    assert_eq!(decode_message(&encode_message(&m)), Ok(m));
}

#[test]
fn largest_repeat_count_round_trip() {
    let m = MyMessage::RunCommand { command: "true".to_string(), exec_number: usize::MAX };
    assert_eq!(decode_message(&encode_message(&m)), Ok(m));
}

#[test]
fn send_file_request_round_trip() {
    let m = MyMessage::SendFile { filename: "out.txt".to_string(), contents: "hello".to_string() };
    assert_eq!(decode_message(&encode_message(&m)), Ok(m));
}

#[test]
fn non_ascii_and_empty_texts_round_trip() {
    for m in [
        echo("テスト ünïcode 🚀"),
        echo(""),
        MyMessage::SendFile { filename: "".to_string(), contents: "".to_string() },
    ] {
        assert_eq!(decode_message(&encode_message(&m)), Ok(m.clone()));
    }
}

#[test]
fn request_frames_follow_bincode_layout() {
    assert_eq!(encode_message(&echo("hi")), bincode::serialize(&(0u32, "hi")).unwrap());
    let run = MyMessage::RunCommand { command: "ping".to_string(), exec_number: 7 };
    assert_eq!(encode_message(&run), bincode::serialize(&(1u32, "ping", 7u64)).unwrap());
    let send = MyMessage::SendFile { filename: "a".to_string(), contents: "bc".to_string() };
    assert_eq!(encode_message(&send), bincode::serialize(&(2u32, "a", "bc")).unwrap());
}

#[test]
fn echo_frame_exact_bytes() {
    assert_eq!(encode_message(&echo("hi")), vec![0, 0, 0, 0, 2, 0, 0, 0, 0, 0, 0, 0, b'h', b'i']);
}

#[test]
fn result_frames_follow_bincode_layout() {
    let ok: MyResponse = Ok(MyResponseKind::Echo("x".to_string()));
    assert_eq!(encode_response(&ok), bincode::serialize(&(0u32, 0u32, "x")).unwrap());
    let ack: MyResponse = Ok(MyResponseKind::SendFile);
    assert_eq!(encode_response(&ack), bincode::serialize(&(0u32, 2u32)).unwrap());
    let err: MyResponse = Err(MyError { msg: "m".to_string(), when: "w".to_string() });
    assert_eq!(encode_response(&err), bincode::serialize(&(1u32, "m", "w")).unwrap());
}

#[test]
fn result_round_trips() {
    let all: Vec<MyResponse> = vec![
        Ok(MyResponseKind::Echo("Echo : hi".to_string())),
        Ok(MyResponseKind::RunCommand { stdout: "out".to_string(), stderr: "".to_string() }),
        Ok(MyResponseKind::SendFile),
        Err(MyError { msg: "denied".to_string(), when: "create-file".to_string() }),
    ];
    for r in all {
        assert_eq!(decode_response(&encode_response(&r)), Ok(r.clone()));
    }
}

#[test]
fn trailing_bytes_are_ignored() {
    let mut b = encode_message(&echo("abc"));
    b.extend_from_slice(&[9, 9, 9]);
    assert_eq!(decode_message(&b), Ok(echo("abc")));
}

#[test]
fn empty_frame_is_rejected() {
    let e = decode_message(&[]).unwrap_err();
    assert_eq!(e.when, "decode");
}

#[test]
fn unknown_request_tag_is_rejected() {
    let e = decode_message(&[3, 0, 0, 0, 0, 0, 0, 0, 0, 0, 0, 0]).unwrap_err();
    assert_eq!(e.when, "decode");
    assert_eq!(e.msg, "unknown variant tag");
}

#[test]
fn truncated_string_is_rejected() {
    let mut b = encode_message(&echo("hello"));
    b.truncate(b.len() - 1);
    assert_eq!(decode_message(&b).unwrap_err().when, "decode");
}

#[test]
fn invalid_utf8_is_rejected() {
    let b = vec![0, 0, 0, 0, 2, 0, 0, 0, 0, 0, 0, 0, 0xff, 0xfe];
    assert_eq!(decode_message(&b).unwrap_err().when, "decode");
}

#[test]
fn missing_repeat_count_is_rejected() {
    let full = encode_message(&MyMessage::RunCommand { command: "x".to_string(), exec_number: 1 });
    assert_eq!(decode_message(&full[..full.len() - 1]).unwrap_err().when, "decode");
}

#[test]
fn unknown_result_tag_is_rejected() {
    assert_eq!(decode_response(&[2, 0, 0, 0]).unwrap_err().when, "decode");
    assert_eq!(decode_response(&[0, 0, 0, 0, 3, 0, 0, 0]).unwrap_err().when, "decode");
}

#[test]
fn zero_repeat_count_is_rejected() {
    let frame = bincode::serialize(&(1u32, "ls", 0u64)).unwrap();
    let e = decode_message(&frame).unwrap_err();
    assert_eq!(e.when, "decode");
    assert_eq!(e.msg, "repeat count is zero or out of range");
}
