//! Frames: one request or one result per frame, each a variant tag followed by
//! the variant's fields in declaration order. A result frame is tagged `Ok` or
//! `Err` first, then carries the outcome or the failure.

use vstd::bytes::*;
use vstd::prelude::*;
use vstd::slice::slice_subrange;
use vstd::utf8::*;

use crate::message::{
    response_view, ErrorView, MessageView, MyError, MyMessage, MyResponse, MyResponseKind,
    ResponseKindView, ResponseView,
};
use crate::wire::{
    get_str, get_u32, get_u64, lemma_str_field, lemma_u32_field, lemma_u64_field, put_str, put_u32,
    put_u64, str_bytes, str_field, str_fits, u32_field, u64_field,
};

verus! {

/// The bytes that follow the string field `s` at the front of `b`.
pub open spec fn after_str(b: Seq<u8>, s: Seq<char>) -> Seq<u8> {
    b.subrange(8 + encode_utf8(s).len() as int, b.len() as int)
}

/// Two string fields in a row.
pub open spec fn two_str_fields(b: Seq<u8>) -> Option<(Seq<char>, Seq<char>)> {
    match str_field(b) {
        Some(s) => match str_field(after_str(b, s)) {
            Some(t) => Some((s, t)),
            None => None,
        },
        None => None,
    }
}

/// The frame of a request.
pub open spec fn message_bytes(m: MessageView) -> Seq<u8> {
    match m {
        MessageView::Echo(s) => spec_u32_to_le_bytes(0) + str_bytes(s),
        MessageView::RunCommand { command, exec_number } => spec_u32_to_le_bytes(1) + str_bytes(
            command,
        ) + spec_u64_to_le_bytes(exec_number as u64),
        MessageView::SendFile { filename, contents } => spec_u32_to_le_bytes(2) + str_bytes(filename)
            + str_bytes(contents),
    }
}

/// The request that a frame holds, if it holds one.
pub open spec fn parse_message(b: Seq<u8>) -> Option<MessageView> {
    match u32_field(b) {
        Some(tag) => {
            let body = b.subrange(4, b.len() as int);
            if tag == 0 {
                match str_field(body) {
                    Some(s) => Some(MessageView::Echo(s)),
                    None => None,
                }
            } else if tag == 1 {
                match str_field(body) {
                    Some(c) => match u64_field(after_str(body, c)) {
                        Some(n) => if 1 <= n <= usize::MAX {
                            Some(MessageView::RunCommand { command: c, exec_number: n as usize })
                        } else {
                            None
                        },
                        None => None,
                    },
                    None => None,
                }
            } else if tag == 2 {
                match two_str_fields(body) {
                    Some((f, c)) => Some(MessageView::SendFile { filename: f, contents: c }),
                    None => None,
                }
            } else {
                None
            }
        },
        None => None,
    }
}

/// A request as it may travel: every string fits in a string field, and a
/// command runs at least once.
pub open spec fn message_fits(m: MessageView) -> bool {
    match m {
        MessageView::Echo(s) => str_fits(s),
        MessageView::RunCommand { command, exec_number } => str_fits(command) && exec_number >= 1,
        MessageView::SendFile { filename, contents } => str_fits(filename) && str_fits(contents),
    }
}

/// The fields of a successful outcome, after its tag.
pub open spec fn kind_bytes(k: ResponseKindView) -> Seq<u8> {
    match k {
        ResponseKindView::Echo(s) => spec_u32_to_le_bytes(0) + str_bytes(s),
        ResponseKindView::RunCommand { stdout, stderr } => spec_u32_to_le_bytes(1) + str_bytes(stdout)
            + str_bytes(stderr),
        ResponseKindView::SendFile => spec_u32_to_le_bytes(2),
    }
}

/// The frame of a result.
pub open spec fn response_bytes(r: ResponseView) -> Seq<u8> {
    match r {
        Ok(k) => spec_u32_to_le_bytes(0) + kind_bytes(k),
        Err(e) => spec_u32_to_le_bytes(1) + str_bytes(e.msg) + str_bytes(e.when),
    }
}

/// The successful outcome that `b` holds, if it holds one.
pub open spec fn parse_kind(b: Seq<u8>) -> Option<ResponseKindView> {
    match u32_field(b) {
        Some(tag) => {
            let body = b.subrange(4, b.len() as int);
            if tag == 0 {
                match str_field(body) {
                    Some(s) => Some(ResponseKindView::Echo(s)),
                    None => None,
                }
            } else if tag == 1 {
                match two_str_fields(body) {
                    Some((o, e)) => Some(ResponseKindView::RunCommand { stdout: o, stderr: e }),
                    None => None,
                }
            } else if tag == 2 {
                Some(ResponseKindView::SendFile)
            } else {
                None
            }
        },
        None => None,
    }
}

/// The result that a frame holds, if it holds one.
pub open spec fn parse_response(b: Seq<u8>) -> Option<ResponseView> {
    match u32_field(b) {
        Some(tag) => {
            let body = b.subrange(4, b.len() as int);
            if tag == 0 {
                match parse_kind(body) {
                    Some(k) => Some(Ok(k)),
                    None => None,
                }
            } else if tag == 1 {
                match two_str_fields(body) {
                    Some((m, w)) => Some(Err(ErrorView { msg: m, when: w })),
                    None => None,
                }
            } else {
                None
            }
        },
        None => None,
    }
}

/// Every string in the result fits in a string field.
pub open spec fn response_fits(r: ResponseView) -> bool {
    match r {
        Ok(ResponseKindView::Echo(s)) => str_fits(s),
        Ok(ResponseKindView::RunCommand { stdout, stderr }) => str_fits(stdout) && str_fits(stderr),
        Ok(ResponseKindView::SendFile) => true,
        Err(e) => str_fits(e.msg) && str_fits(e.when),
    }
}

/// Encodes a request as one frame.
pub fn encode_message(m: &MyMessage) -> (r: Vec<u8>)
    ensures
        r@ == message_bytes(m@),
{
    let mut out: Vec<u8> = Vec::new();
    match m {
        MyMessage::Echo(s) => {
            put_u32(&mut out, 0);
            put_str(&mut out, s.as_str());
        },
        MyMessage::RunCommand { command, exec_number } => {
            put_u32(&mut out, 1);
            put_str(&mut out, command.as_str());
            put_u64(&mut out, *exec_number as u64);
        },
        MyMessage::SendFile { filename, contents } => {
            put_u32(&mut out, 2);
            put_str(&mut out, filename.as_str());
            put_str(&mut out, contents.as_str());
        },
    }
    out
}

/// Encodes a result as one frame.
pub fn encode_response(r: &MyResponse) -> (out: Vec<u8>)
    ensures
        out@ == response_bytes(response_view(*r)),
{
    let mut out: Vec<u8> = Vec::new();
    match r {
        Ok(k) => {
            put_u32(&mut out, 0);
            match k {
                MyResponseKind::Echo(s) => {
                    put_u32(&mut out, 0);
                    put_str(&mut out, s.as_str());
                },
                MyResponseKind::RunCommand { stdout, stderr } => {
                    put_u32(&mut out, 1);
                    put_str(&mut out, stdout.as_str());
                    put_str(&mut out, stderr.as_str());
                },
                MyResponseKind::SendFile => {
                    put_u32(&mut out, 2);
                },
            }
        },
        Err(e) => {
            put_u32(&mut out, 1);
            put_str(&mut out, e.msg.as_str());
            put_str(&mut out, e.when.as_str());
        },
    }
    assert(out@ =~= response_bytes(response_view(*r)));
    out
}

/// The failure that an unknown variant tag is reported as.
fn unknown_tag() -> (e: MyError)
    ensures
        e.when@ == "decode"@,
{
    MyError::new(String::from_str("unknown variant tag"), String::from_str("decode"))
}

/// Reads two string fields in a row.
fn get_two_strs(b: &[u8]) -> (r: Result<(String, String), MyError>)
    ensures
        match r {
            Ok((s, t)) => two_str_fields(b@) == Some((s@, t@)),
            Err(e) => two_str_fields(b@) is None && e.when@ == "decode"@,
        },
{
    match get_str(b) {
        Ok((s, n)) => {
            let rest = slice_subrange(b, n, b.len());
            match get_str(rest) {
                Ok((t, _)) => Ok((s, t)),
                Err(e) => Err(e),
            }
        },
        Err(e) => Err(e),
    }
}

/// Decodes a frame into a request. Bytes after the request are ignored.
pub fn decode_message(b: &[u8]) -> (r: Result<MyMessage, MyError>)
    ensures
        match r {
            Ok(m) => parse_message(b@) == Some(m@),
            Err(e) => parse_message(b@) is None && e.when@ == "decode"@,
        },
{
    let tag = match get_u32(b) {
        Ok(t) => t,
        Err(e) => return Err(e),
    };
    let body = slice_subrange(b, 4, b.len());
    if tag == 0 {
        match get_str(body) {
            Ok((s, _)) => Ok(MyMessage::Echo(s)),
            Err(e) => Err(e),
        }
    } else if tag == 1 {
        match get_str(body) {
            Ok((command, n)) => {
                let rest = slice_subrange(body, n, body.len());
                match get_u64(rest) {
                    Ok(x) => if 1 <= x && x <= usize::MAX as u64 {
                        Ok(MyMessage::RunCommand { command, exec_number: x as usize })
                    } else {
                        Err(
                            MyError::new(
                                String::from_str("repeat count is zero or out of range"),
                                String::from_str("decode"),
                            ),
                        )
                    },
                    Err(e) => Err(e),
                }
            },
            Err(e) => Err(e),
        }
    } else if tag == 2 {
        match get_two_strs(body) {
            Ok((filename, contents)) => Ok(MyMessage::SendFile { filename, contents }),
            Err(e) => Err(e),
        }
    } else {
        Err(unknown_tag())
    }
}

/// Decodes the fields of a successful outcome.
fn decode_kind(b: &[u8]) -> (r: Result<MyResponseKind, MyError>)
    ensures
        match r {
            Ok(k) => parse_kind(b@) == Some(k@),
            Err(e) => parse_kind(b@) is None && e.when@ == "decode"@,
        },
{
    let tag = match get_u32(b) {
        Ok(t) => t,
        Err(e) => return Err(e),
    };
    let body = slice_subrange(b, 4, b.len());
    if tag == 0 {
        match get_str(body) {
            Ok((s, _)) => Ok(MyResponseKind::Echo(s)),
            Err(e) => Err(e),
        }
    } else if tag == 1 {
        match get_two_strs(body) {
            Ok((stdout, stderr)) => Ok(MyResponseKind::RunCommand { stdout, stderr }),
            Err(e) => Err(e),
        }
    } else if tag == 2 {
        Ok(MyResponseKind::SendFile)
    } else {
        Err(unknown_tag())
    }
}

/// Decodes a frame into a result. The outer `Err` says that the frame holds no
/// result; the inner one is a failure that the frame reports.
pub fn decode_response(b: &[u8]) -> (r: Result<MyResponse, MyError>)
    ensures
        match r {
            Ok(x) => parse_response(b@) == Some(response_view(x)),
            Err(e) => parse_response(b@) is None && e.when@ == "decode"@,
        },
{
    let tag = match get_u32(b) {
        Ok(t) => t,
        Err(e) => return Err(e),
    };
    let body = slice_subrange(b, 4, b.len());
    if tag == 0 {
        match decode_kind(body) {
            Ok(k) => Ok(Ok(k)),
            Err(e) => Err(e),
        }
    } else if tag == 1 {
        match get_two_strs(body) {
            Ok((msg, when)) => Ok(Err(MyError { msg, when })),
            Err(e) => Err(e),
        }
    } else {
        Err(unknown_tag())
    }
}

/// Two string fields in a row, followed by `rest`, read back as the two strings.
proof fn lemma_two_str_fields(s: Seq<char>, t: Seq<char>, rest: Seq<u8>)
    requires
        str_fits(s),
        str_fits(t),
    ensures
        two_str_fields(str_bytes(s) + str_bytes(t) + rest) == Some((s, t)),
{
    let b = str_bytes(s) + str_bytes(t) + rest;
    assert(b =~= str_bytes(s) + (str_bytes(t) + rest));
    lemma_str_field(s, str_bytes(t) + rest);
    lemma_str_field(t, rest);
}

/// Round trip of requests: decoding the frame of a request gives that request
/// back, whatever bytes follow the frame.
pub proof fn lemma_message_round_trip(m: MessageView, trailing: Seq<u8>)
    requires
        message_fits(m),
    ensures
        parse_message(message_bytes(m) + trailing) == Some(m),
{
    let b = message_bytes(m) + trailing;
    match m {
        MessageView::Echo(s) => {
            let body = str_bytes(s) + trailing;
            assert(b =~= spec_u32_to_le_bytes(0) + body);
            lemma_u32_field(0, body);
            lemma_str_field(s, trailing);
        },
        MessageView::RunCommand { command, exec_number } => {
            let tail = spec_u64_to_le_bytes(exec_number as u64) + trailing;
            let body = str_bytes(command) + tail;
            assert(b =~= spec_u32_to_le_bytes(1) + body);
            lemma_u32_field(1, body);
            lemma_str_field(command, tail);
            lemma_u64_field(exec_number as u64, trailing);
        },
        MessageView::SendFile { filename, contents } => {
            let body = str_bytes(filename) + str_bytes(contents) + trailing;
            assert(b =~= spec_u32_to_le_bytes(2) + body);
            lemma_u32_field(2, body);
            lemma_two_str_fields(filename, contents, trailing);
        },
    }
}

/// Round trip of results: decoding the frame of a result gives that result
/// back, whatever bytes follow the frame.
pub proof fn lemma_response_round_trip(r: ResponseView, trailing: Seq<u8>)
    requires
        response_fits(r),
    ensures
        parse_response(response_bytes(r) + trailing) == Some(r),
{
    let b = response_bytes(r) + trailing;
    match r {
        Ok(k) => {
            let body = kind_bytes(k) + trailing;
            assert(b =~= spec_u32_to_le_bytes(0) + body);
            lemma_u32_field(0, body);
            match k {
                ResponseKindView::Echo(s) => {
                    let inner = str_bytes(s) + trailing;
                    assert(body =~= spec_u32_to_le_bytes(0) + inner);
                    lemma_u32_field(0, inner);
                    lemma_str_field(s, trailing);
                },
                ResponseKindView::RunCommand { stdout, stderr } => {
                    let inner = str_bytes(stdout) + str_bytes(stderr) + trailing;
                    assert(body =~= spec_u32_to_le_bytes(1) + inner);
                    lemma_u32_field(1, inner);
                    lemma_two_str_fields(stdout, stderr, trailing);
                },
                ResponseKindView::SendFile => {
                    lemma_u32_field(2, trailing);
                },
            }
        },
        Err(e) => {
            let body = str_bytes(e.msg) + str_bytes(e.when) + trailing;
            assert(b =~= spec_u32_to_le_bytes(1) + body);
            lemma_u32_field(1, body);
            lemma_two_str_fields(e.msg, e.when, trailing);
        },
    }
}

} // verus!
