//! The execution engine: what an agent does with one request.
//!
//! Running a process and writing a file are performed by the caller. The engine
//! says what to perform (a [`Step`]) and turns what came of it into the one
//! result that answers the request.

use vstd::prelude::*;

use crate::message::{
    response_view, ErrorView, MessageView, MyError, MyMessage, MyResponse, MyResponseKind,
    ResponseKindView, ResponseView,
};
use crate::text::{is_white_space, trim_end, without_trailing_space};

verus! {

/// How long an agent waits for the output of a command that runs once.
pub const RECEIVE_TIMEOUT_SECS: u64 = 3;

/// A program and its arguments: a command line handed to the platform's shell.
#[derive(Debug, Clone, PartialEq, Eq)]
pub struct ShellCommand {
    pub program: String,
    pub args: Vec<String>,
}

pub struct ShellView {
    pub program: Seq<char>,
    pub args: Seq<Seq<char>>,
}

impl View for ShellCommand {
    type V = ShellView;

    open spec fn view(&self) -> ShellView {
        ShellView { program: self.program@, args: self.args@.map_values(|a: String| a@) }
    }
}

/// `cmd /C <line>` where the shell is the command prompt, `sh -c <line>`
/// elsewhere.
pub open spec fn shell_for(line: Seq<char>, windows: bool) -> ShellView {
    if windows {
        ShellView { program: "cmd"@, args: seq!["/C"@, line] }
    } else {
        ShellView { program: "sh"@, args: seq!["-c"@, line] }
    }
}

/// Builds the shell invocation of a command line.
pub fn make_command(line: &str, windows: bool) -> (r: ShellCommand)
    ensures
        r@ == shell_for(line@, windows),
{
    let (program, flag) = if windows {
        (String::from_str("cmd"), String::from_str("/C"))
    } else {
        (String::from_str("sh"), String::from_str("-c"))
    };
    let mut args: Vec<String> = Vec::new();
    args.push(flag);
    args.push(String::from_str(line));
    let r = ShellCommand { program, args };
    assert(r@.args =~= shell_for(line@, windows).args);
    r
}

/// What the caller performs for one request.
#[derive(Debug, PartialEq, Eq)]
pub enum Step {
    /// Send this result back now.
    Reply(MyResponse),
    /// Run the command once and wait at most [`RECEIVE_TIMEOUT_SECS`] for its
    /// output; [`run_once_result`] then gives the result.
    RunOnce(ShellCommand),
    /// Start the command `times` times without waiting for any of them, and
    /// send `reply` back at once. Their failures are not reported.
    RunDetached { command: ShellCommand, times: usize, reply: MyResponse },
    /// Create or truncate `filename`, write `contents` to it and flush it;
    /// [`send_file_result`] then gives the result.
    WriteFile { filename: String, contents: String },
}

pub enum StepView {
    Reply(ResponseView),
    RunOnce(ShellView),
    RunDetached { command: ShellView, times: usize, reply: ResponseView },
    WriteFile { filename: Seq<char>, contents: Seq<char> },
}

impl View for Step {
    type V = StepView;

    open spec fn view(&self) -> StepView {
        match self {
            Step::Reply(r) => StepView::Reply(response_view(*r)),
            Step::RunOnce(c) => StepView::RunOnce(c@),
            Step::RunDetached { command, times, reply } => StepView::RunDetached {
                command: command@,
                times: *times,
                reply: response_view(*reply),
            },
            Step::WriteFile { filename, contents } => StepView::WriteFile {
                filename: filename@,
                contents: contents@,
            },
        }
    }
}

/// The text that stands for both streams of a command that runs more than once.
pub open spec fn multi_run_notice() -> Seq<char> {
    "output is not available when a command runs more than once"@
}

/// The result sent back at once for a command that runs more than once.
pub open spec fn multi_run_reply() -> ResponseView {
    Ok(ResponseKindView::RunCommand { stdout: multi_run_notice(), stderr: multi_run_notice() })
}

/// What the engine asks for, for each request.
pub open spec fn step_for(m: MessageView, windows: bool) -> StepView {
    match m {
        MessageView::Echo(s) => StepView::Reply(Ok(ResponseKindView::Echo("Echo : "@ + s))),
        MessageView::RunCommand { command, exec_number } => if exec_number == 1 {
            StepView::RunOnce(shell_for(command, windows))
        } else {
            StepView::RunDetached {
                command: shell_for(command, windows),
                times: exec_number,
                reply: multi_run_reply(),
            }
        },
        MessageView::SendFile { filename, contents } => StepView::WriteFile { filename, contents },
    }
}

/// Decides what to perform for one request: an echo is answered at once; a
/// command that runs once is run and waited for; one that runs any other number
/// of times is started that many times and answered at once; a file is written.
pub fn process_msg(msg: MyMessage, windows: bool) -> (r: Step)
    ensures
        r@ == step_for(msg@, windows),
{
    match msg {
        MyMessage::Echo(s) => {
            let mut text = String::from_str("Echo : ");
            text.append(s.as_str());
            Step::Reply(Ok(MyResponseKind::Echo(text)))
        },
        MyMessage::RunCommand { command, exec_number } => {
            let shell = make_command(command.as_str(), windows);
            if exec_number == 1 {
                Step::RunOnce(shell)
            } else {
                let stdout = String::from_str(
                    "output is not available when a command runs more than once",
                );
                let stderr = stdout.clone();
                Step::RunDetached {
                    command: shell,
                    times: exec_number,
                    reply: Ok(MyResponseKind::RunCommand { stdout, stderr }),
                }
            }
        },
        MyMessage::SendFile { filename, contents } => Step::WriteFile { filename, contents },
    }
}

/// What Shift_JIS decoding makes of a byte string. A leading byte-order mark
/// of UTF-8 or UTF-16 selects that encoding instead; malformed sequences become
/// U+FFFD.
pub uninterp spec fn shift_jis_text(b: Seq<u8>) -> Seq<char>;

/// Relies on `encoding_rs::SHIFT_JIS.decode`: the decoded text depends on the
/// bytes alone, and no bytes decode to no text. It panics only where
/// `3 * (len + 1)` overflows `usize`.
#[verifier::external_body]
pub(crate) fn decode_shift_jis(b: &[u8]) -> (r: String)
    requires
        b@.len() < usize::MAX / 3,
    ensures
        r@ == shift_jis_text(b@),
        b@.len() == 0 ==> r@.len() == 0,
{
    encoding_rs::SHIFT_JIS.decode(b).0.into_owned()
}

/// How a command that runs once ended, as far as the agent saw it.
#[derive(Debug, Clone, PartialEq, Eq)]
pub enum RunOutcome {
    /// The process exited and its captured streams came back in time.
    Finished { stdout: Vec<u8>, stderr: Vec<u8> },
    /// The process could not be started or its output not collected.
    Failed(String),
    /// Nothing came back within [`RECEIVE_TIMEOUT_SECS`]; the process is left
    /// to run.
    TimedOut(String),
}

/// The text of one captured stream: decoded, without trailing white space.
pub open spec fn stream_text(b: Seq<u8>, r: Seq<char>) -> bool {
    without_trailing_space(shift_jis_text(b), r)
}

/// The result of a command whose two streams decoded to `stdout` and `stderr`:
/// both without their trailing white space.
pub fn output_result(stdout: &str, stderr: &str) -> (r: MyResponse)
    ensures
        r matches Ok(MyResponseKind::RunCommand { stdout: o, stderr: e }) && without_trailing_space(
            stdout@,
            o@,
        ) && without_trailing_space(stderr@, e@),
{
    Ok(MyResponseKind::RunCommand { stdout: trim_end(stdout), stderr: trim_end(stderr) })
}

/// The result of a command that ran once. Its streams are decoded as Shift_JIS
/// and lose their trailing white space; a failure to run it is reported in
/// phase "command execution", a timeout in phase "receive-timeout".
pub fn run_once_result(outcome: RunOutcome) -> (r: MyResponse)
    requires
        outcome matches RunOutcome::Finished { stdout, stderr } ==> stdout@.len() < usize::MAX / 3
            && stderr@.len() < usize::MAX / 3,
    ensures
        match outcome {
            RunOutcome::Finished { stdout, stderr } => r matches Ok(
                MyResponseKind::RunCommand { stdout: o, stderr: e },
            ) && stream_text(stdout@, o@) && stream_text(stderr@, e@),
            RunOutcome::Failed(cause) => response_view(r) == Err::<ResponseKindView, ErrorView>(
                ErrorView { msg: cause@, when: "command execution"@ },
            ),
            RunOutcome::TimedOut(cause) => response_view(r) == Err::<ResponseKindView, ErrorView>(
                ErrorView { msg: cause@, when: "receive-timeout"@ },
            ),
        },
{
    match outcome {
        RunOutcome::Finished { stdout, stderr } => {
            let o = decode_shift_jis(stdout.as_slice());
            let e = decode_shift_jis(stderr.as_slice());
            output_result(o.as_str(), e.as_str())
        },
        RunOutcome::Failed(cause) => Err(MyError::new(cause, String::from_str("command execution"))),
        RunOutcome::TimedOut(cause) => Err(MyError::new(cause, String::from_str("receive-timeout"))),
    }
}

/// A command that runs once is run and waited for; when it finishes in time,
/// [`run_once_result`] answers with `Ok`, and where its standard output holds
/// anything but white space, the stdout sent back is not empty.
pub proof fn lemma_printed_output_is_kept(
    command: Seq<char>,
    windows: bool,
    bytes: Seq<u8>,
    stdout: Seq<char>,
    i: int,
)
    requires
        stream_text(bytes, stdout),
        0 <= i < shift_jis_text(bytes).len(),
        !is_white_space(shift_jis_text(bytes)[i]),
    ensures
        step_for(MessageView::RunCommand { command, exec_number: 1 }, windows) == StepView::RunOnce(
            shell_for(command, windows),
        ),
        stdout.len() > 0,
{
    if stdout.len() == 0 {
        assert(is_white_space(shift_jis_text(bytes)[i]));
    }
}

/// How writing a file ended.
#[derive(Debug, Clone, PartialEq, Eq)]
pub enum WriteOutcome {
    /// Created, written in full and flushed.
    Written,
    /// The file could not be created or truncated.
    CreateFailed(String),
    /// Writing the contents failed.
    WriteFailed(String),
    /// Flushing the written contents failed.
    FlushFailed(String),
}

/// The result of writing a file: an acknowledgement, or a failure in the phase
/// that failed ("create-file", "write" or "flush").
pub fn send_file_result(outcome: WriteOutcome) -> (r: MyResponse)
    ensures
        response_view(r) == match outcome {
            WriteOutcome::Written => Ok(ResponseKindView::SendFile),
            WriteOutcome::CreateFailed(cause) => Err(ErrorView { msg: cause@, when: "create-file"@ }),
            WriteOutcome::WriteFailed(cause) => Err(ErrorView { msg: cause@, when: "write"@ }),
            WriteOutcome::FlushFailed(cause) => Err(ErrorView { msg: cause@, when: "flush"@ }),
        },
{
    match outcome {
        WriteOutcome::Written => Ok(MyResponseKind::SendFile),
        WriteOutcome::CreateFailed(cause) => Err(MyError::new(cause, String::from_str("create-file"))),
        WriteOutcome::WriteFailed(cause) => Err(MyError::new(cause, String::from_str("write"))),
        WriteOutcome::FlushFailed(cause) => Err(MyError::new(cause, String::from_str("flush"))),
    }
}

} // verus!
