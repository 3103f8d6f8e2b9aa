//! The controller's side: one typed command line becomes at most one request,
//! and each result that comes back is rendered for the operator.
//!
//! Verbs are matched case-insensitively, and their short aliases exactly:
//! `SimpleMessage`/`Echo`/`SM`, `RunCommand`/`RC`, `SendFile`/`SF`,
//! `SetExecNumber`/`SN`, `End`/`Exit`, `Help` and `Ls`.

use vstd::prelude::*;

use crate::codec::{decode_response, encode_message, message_bytes, parse_response};
use crate::message::{
    response_view, ErrorView, MessageView, MyError, MyMessage, MyResponse, MyResponseKind,
    ResponseKindView,
};
use crate::text::{
    join, join_from, lower_of, lowercase, parse_usize, same_text, split_words, usize_text, views,
    words,
};

verus! {

/// A command line, understood.
#[derive(Debug, Clone, PartialEq, Eq)]
pub enum ParseKind {
    /// Send a text to be echoed.
    Echo(String),
    /// Run a command line on the agent.
    RunCommand { command: String },
    /// Send the local file at `path`, to be written as `filename`.
    SendFile { path: String, filename: String },
    /// Set how many times later commands run.
    SetExecNumber(usize),
    /// End the session.
    End,
    /// List the local working directory.
    Ls,
    /// Show the usage text.
    Help,
}

pub enum ParseKindView {
    Echo(Seq<char>),
    RunCommand { command: Seq<char> },
    SendFile { path: Seq<char>, filename: Seq<char> },
    SetExecNumber(usize),
    End,
    Ls,
    Help,
}

impl View for ParseKind {
    type V = ParseKindView;

    open spec fn view(&self) -> ParseKindView {
        match self {
            ParseKind::Echo(s) => ParseKindView::Echo(s@),
            ParseKind::RunCommand { command } => ParseKindView::RunCommand { command: command@ },
            ParseKind::SendFile { path, filename } => ParseKindView::SendFile {
                path: path@,
                filename: filename@,
            },
            ParseKind::SetExecNumber(n) => ParseKindView::SetExecNumber(*n),
            ParseKind::End => ParseKindView::End,
            ParseKind::Ls => ParseKindView::Ls,
            ParseKind::Help => ParseKindView::Help,
        }
    }
}

pub open spec fn parse_view(r: Result<ParseKind, MyError>) -> Result<ParseKindView, ErrorView> {
    match r {
        Ok(k) => Ok(k@),
        Err(e) => Err(e@),
    }
}

pub open spec fn refused(msg: Seq<char>, when: Seq<char>) -> Result<ParseKindView, ErrorView> {
    Err(ErrorView { msg, when })
}

/// What a command line means, given its words `ws` and the lowercase form
/// `lower` of its first word.
pub open spec fn parse_spec(ws: Seq<Seq<char>>, lower: Seq<char>) -> Result<ParseKindView, ErrorView> {
    if ws.len() == 0 {
        refused("enter a command"@, "reading the command"@)
    } else {
        let verb = ws[0];
        let args = ws.drop_first();
        if lower == "simplemessage"@ || lower == "echo"@ || verb == "SM"@ {
            if args.len() == 0 {
                refused("no message was given"@, "checking the arguments of SimpleMessage"@)
            } else {
                Ok(ParseKindView::Echo(join(args)))
            }
        } else if lower == "runcommand"@ || verb == "RC"@ {
            if args.len() == 0 {
                refused("no command line was given"@, "checking the arguments of RunCommand"@)
            } else {
                Ok(ParseKindView::RunCommand { command: join(args) })
            }
        } else if lower == "end"@ || lower == "exit"@ {
            if args.len() > 0 {
                refused("too many arguments"@, "checking the arguments of End"@)
            } else {
                Ok(ParseKindView::End)
            }
        } else if lower == "sendfile"@ || verb == "SF"@ {
            if args.len() == 0 {
                refused("no file path was given"@, "checking the arguments of SendFile"@)
            } else {
                Ok(
                    ParseKindView::SendFile {
                        path: args[0],
                        filename: if args.len() >= 2 {
                            args[1]
                        } else {
                            args[0]
                        },
                    },
                )
            }
        } else if lower == "ls"@ {
            Ok(ParseKindView::Ls)
        } else if lower == "help"@ {
            Ok(ParseKindView::Help)
        } else if lower == "setexecnumber"@ || verb == "SN"@ {
            if args.len() == 0 {
                refused("no execution count was given"@, "checking the arguments of SetExecNumber"@)
            } else {
                match usize_text(args[0]) {
                    None => refused(
                        "the execution count is not a non-negative integer"@,
                        "checking the arguments of SetExecNumber"@,
                    ),
                    Some(n) => if n == 0 {
                        refused(
                            "the execution count must be at least 1"@,
                            "checking the arguments of SetExecNumber"@,
                        )
                    } else if args.len() > 1 {
                        refused(
                            "unexpected extra arguments"@,
                            "checking the arguments of SetExecNumber"@,
                        )
                    } else {
                        Ok(ParseKindView::SetExecNumber(n))
                    },
                }
            }
        } else {
            refused("unknown command"@, "parsing the command"@)
        }
    }
}

fn refuse(msg: &str, when: &str) -> (r: Result<ParseKind, MyError>)
    ensures
        parse_view(r) == refused(msg@, when@),
{
    Err(MyError::new(String::from_str(msg), String::from_str(when)))
}

/// Understands a command line already split into words, given the lowercase
/// form of its first word.
pub fn parse_words(ws: &Vec<String>, verb_lower: &String) -> (r: Result<ParseKind, MyError>)
    ensures
        parse_view(r) == parse_spec(views(ws@), verb_lower@),
{
    if ws.len() == 0 {
        return refuse("enter a command", "reading the command");
    }
    let ghost all = views(ws@);
    assert(all.drop_first() =~= all.subrange(1, all.len() as int));
    let verb = &ws[0];
    let nargs = ws.len() - 1;
    if same_text(verb_lower, "simplemessage") || same_text(verb_lower, "echo") || same_text(
        verb,
        "SM",
    ) {
        if nargs == 0 {
            refuse("no message was given", "checking the arguments of SimpleMessage")
        } else {
            Ok(ParseKind::Echo(join_from(ws, 1)))
        }
    } else if same_text(verb_lower, "runcommand") || same_text(verb, "RC") {
        if nargs == 0 {
            refuse("no command line was given", "checking the arguments of RunCommand")
        } else {
            Ok(ParseKind::RunCommand { command: join_from(ws, 1) })
        }
    } else if same_text(verb_lower, "end") || same_text(verb_lower, "exit") {
        if nargs > 0 {
            refuse("too many arguments", "checking the arguments of End")
        } else {
            Ok(ParseKind::End)
        }
    } else if same_text(verb_lower, "sendfile") || same_text(verb, "SF") {
        if nargs == 0 {
            refuse("no file path was given", "checking the arguments of SendFile")
        } else {
            let path = ws[1].clone();
            let filename = if nargs >= 2 {
                ws[2].clone()
            } else {
                ws[1].clone()
            };
            Ok(ParseKind::SendFile { path, filename })
        }
    } else if same_text(verb_lower, "ls") {
        Ok(ParseKind::Ls)
    } else if same_text(verb_lower, "help") {
        Ok(ParseKind::Help)
    } else if same_text(verb_lower, "setexecnumber") || same_text(verb, "SN") {
        if nargs == 0 {
            refuse("no execution count was given", "checking the arguments of SetExecNumber")
        } else {
            match parse_usize(ws[1].as_str()) {
                None => refuse(
                    "the execution count is not a non-negative integer",
                    "checking the arguments of SetExecNumber",
                ),
                Some(n) => if n == 0 {
                    refuse(
                        "the execution count must be at least 1",
                        "checking the arguments of SetExecNumber",
                    )
                } else if nargs > 1 {
                    refuse("unexpected extra arguments", "checking the arguments of SetExecNumber")
                } else {
                    Ok(ParseKind::SetExecNumber(n))
                },
            }
        }
    } else {
        refuse("unknown command", "parsing the command")
    }
}

/// The lowercase form of the first word, or nothing where there is no word.
pub open spec fn verb_lower_of(ws: Seq<Seq<char>>) -> Seq<char> {
    if ws.len() > 0 {
        lower_of(ws[0])
    } else {
        Seq::empty()
    }
}

/// Understands one typed command line.
pub fn parse_line(line: &str) -> (r: Result<ParseKind, MyError>)
    ensures
        parse_view(r) == parse_spec(words(line@), verb_lower_of(words(line@))),
{
    let ws = split_words(line);
    let verb_lower = if ws.len() > 0 {
        lowercase(ws[0].as_str())
    } else {
        String::new()
    };
    parse_words(&ws, &verb_lower)
}

/// What a command line leads to.
#[derive(Debug, Clone, PartialEq, Eq)]
pub enum ProcessType {
    /// Send this request.
    NormalMessage(MyMessage),
    /// End the session.
    End,
    /// Set how many times later commands run.
    SetExecNumber(usize),
    /// Read the local file at `path`, then send it to be written as `filename`.
    ReadFile { path: String, filename: String },
    /// Nothing to send: ask for the next command line.
    Prompt,
}

/// Turns an understood command line into what it leads to, with later commands
/// running `exec_number` times.
pub fn process(kind: ParseKind, exec_number: usize) -> (r: ProcessType)
    ensures
        match kind {
            ParseKind::Echo(s) => r matches ProcessType::NormalMessage(m) && m@ == MessageView::Echo(
                s@,
            ),
            ParseKind::RunCommand { command } => r matches ProcessType::NormalMessage(m) && m@
                == (MessageView::RunCommand { command: command@, exec_number }),
            ParseKind::SendFile { path, filename } => r matches ProcessType::ReadFile {
                path: p,
                filename: f,
            } && p@ == path@ && f@ == filename@,
            ParseKind::SetExecNumber(n) => r == ProcessType::SetExecNumber(n),
            ParseKind::End => r == ProcessType::End,
            ParseKind::Ls => r == ProcessType::Prompt,
            ParseKind::Help => r == ProcessType::Prompt,
        },
{
    match kind {
        ParseKind::Echo(s) => ProcessType::NormalMessage(MyMessage::Echo(s)),
        ParseKind::RunCommand { command } => ProcessType::NormalMessage(
            MyMessage::RunCommand { command, exec_number },
        ),
        ParseKind::SendFile { path, filename } => ProcessType::ReadFile { path, filename },
        ParseKind::SetExecNumber(n) => ProcessType::SetExecNumber(n),
        ParseKind::End => ProcessType::End,
        ParseKind::Ls => ProcessType::Prompt,
        ParseKind::Help => ProcessType::Prompt,
    }
}

/// What the controller does next.
#[derive(Debug, Clone, PartialEq, Eq)]
pub enum ControllerAction {
    /// Send this request frame.
    SendBinary(Vec<u8>),
    /// Send a text frame.
    SendText(String),
    /// Read the local file at `path`; then send it with [`send_file_frame`], or
    /// report the failure and prompt again.
    ReadFile { path: String, filename: String },
    /// Close the connection and end the session.
    Close,
    /// Ask for the next command line.
    Prompt,
}

/// A controller's session: how many times a command runs. That count is never
/// zero.
#[derive(Debug, Clone, PartialEq, Eq)]
pub struct Controller {
    pub exec_number: usize,
}

impl Controller {
    pub open spec fn wf(&self) -> bool {
        self.exec_number >= 1
    }

    /// A session in which a command runs once.
    pub fn new() -> (r: Controller)
        ensures
            r.exec_number == 1,
            r.wf(),
    {
        Controller { exec_number: 1 }
    }

    /// Acts on an understood command line: a request is encoded for sending,
    /// carrying the session's count when it runs a command; a new count is
    /// kept and acknowledged by a text frame.
    pub fn on_command(&mut self, kind: ParseKind) -> (r: ControllerAction)
        requires
            old(self).wf(),
            kind matches ParseKind::SetExecNumber(n) ==> n >= 1,
        ensures
            final(self).wf(),
            match kind {
                ParseKind::SetExecNumber(n) => final(self).exec_number == n && (r
                    matches ControllerAction::SendText(t) && t@ == "execution count set"@),
                _ => final(self).exec_number == old(self).exec_number,
            },
            match kind {
                ParseKind::Echo(s) => r matches ControllerAction::SendBinary(b) && b@
                    == message_bytes(MessageView::Echo(s@)),
                ParseKind::RunCommand { command } => r matches ControllerAction::SendBinary(b) && b@
                    == message_bytes(
                    MessageView::RunCommand {
                        command: command@,
                        exec_number: old(self).exec_number,
                    },
                ),
                ParseKind::SendFile { path, filename } => r matches ControllerAction::ReadFile {
                    path: p,
                    filename: f,
                } && p@ == path@ && f@ == filename@,
                ParseKind::SetExecNumber(_) => true,
                ParseKind::End => r == ControllerAction::Close,
                ParseKind::Ls => r == ControllerAction::Prompt,
                ParseKind::Help => r == ControllerAction::Prompt,
            },
    {
        match process(kind, self.exec_number) {
            ProcessType::NormalMessage(m) => ControllerAction::SendBinary(encode_message(&m)),
            ProcessType::End => ControllerAction::Close,
            ProcessType::SetExecNumber(n) => {
                self.exec_number = n;
                ControllerAction::SendText(String::from_str("execution count set"))
            },
            ProcessType::ReadFile { path, filename } => ControllerAction::ReadFile { path, filename },
            ProcessType::Prompt => ControllerAction::Prompt,
        }
    }
}

/// The frame that sends a local file's contents, to be written as `filename`.
pub fn send_file_frame(filename: String, contents: String) -> (r: Vec<u8>)
    ensures
        r@ == message_bytes(MessageView::SendFile { filename: filename@, contents: contents@ }),
{
    encode_message(&MyMessage::SendFile { filename, contents })
}

/// The text that stands for a result frame that could not be decoded.
pub open spec fn undecodable_notice() -> Seq<char> {
    "the received result could not be decoded"@
}

/// The result that a received frame holds; a frame that holds none is shown as
/// an echo of a notice saying so.
pub fn received_response(bytes: &[u8]) -> (r: MyResponse)
    ensures
        match parse_response(bytes@) {
            Some(x) => response_view(r) == x,
            None => response_view(r) == Ok::<ResponseKindView, ErrorView>(
                ResponseKindView::Echo(undecodable_notice()),
            ),
        },
{
    match decode_response(bytes) {
        Ok(x) => x,
        Err(_) => Ok(
            MyResponseKind::Echo(String::from_str("the received result could not be decoded")),
        ),
    }
}

/// What to show the operator: a text for standard output and one for standard
/// error, each when there is one.
#[derive(Debug, Clone, PartialEq, Eq)]
pub struct Rendered {
    pub out: Option<String>,
    pub err: Option<String>,
}

/// Renders a result: an echo as its text, a command's output as two labelled
/// blocks, an acknowledgement as a line saying so, and a failure with both its
/// message and its phase.
pub fn process_response(res: &MyResponse) -> (r: Rendered)
    ensures
        match res {
            Ok(MyResponseKind::Echo(s)) => (r.out matches Some(o) && o@ == s@) && r.err is None,
            Ok(MyResponseKind::RunCommand { stdout, stderr }) => (r.out matches Some(o) && o@
                == "stdout :\n"@ + stdout@) && (r.err matches Some(e) && e@ == "stderr :\n"@
                + stderr@),
            Ok(MyResponseKind::SendFile) => (r.out matches Some(o) && o@ == "file sent"@) && r.err
                is None,
            Err(me) => r.out is None && (r.err matches Some(e) && e@ == "msg : "@ + me.msg@
                + "\nwhen : "@ + me.when@),
        },
{
    match res {
        Ok(MyResponseKind::Echo(s)) => Rendered { out: Some(s.clone()), err: None },
        Ok(MyResponseKind::RunCommand { stdout, stderr }) => {
            let mut o = String::from_str("stdout :\n");
            o.append(stdout.as_str());
            let mut e = String::from_str("stderr :\n");
            e.append(stderr.as_str());
            Rendered { out: Some(o), err: Some(e) }
        },
        Ok(MyResponseKind::SendFile) => Rendered { out: Some(String::from_str("file sent")), err: None },
        Err(me) => Rendered { out: None, err: Some(me.to_string()) },
    }
}

/// The usage text: each verb, its alias and its arguments.
pub open spec fn usage_text() -> Seq<char> {
    "\
help                    show the commands that can be run
end(exit)               end the program
ls                      show this program's directory and the files in it
SendFile(SF)            send a file
    first argument: the path of the file to send
    second argument: the name (with extension) to write it as on the agent
        (optional; the path given is used by default)
SimpleMessage(SM)       send a message, which the agent echoes back
    takes the message as any number of words
RunCommand(RC)          run a command line on the agent
    takes the command line as any number of words
    with an execution count of 1 the output is waited for and shown
SetExecNumber(SN)       set how many times RunCommand runs a command
    first argument: a positive integer
    with 2 or more the output is not available"@
}

/// The usage text.
pub fn help_string() -> (r: &'static str)
    ensures
        r@ == usage_text(),
{
    "\
help                    show the commands that can be run
end(exit)               end the program
ls                      show this program's directory and the files in it
SendFile(SF)            send a file
    first argument: the path of the file to send
    second argument: the name (with extension) to write it as on the agent
        (optional; the path given is used by default)
SimpleMessage(SM)       send a message, which the agent echoes back
    takes the message as any number of words
RunCommand(RC)          run a command line on the agent
    takes the command line as any number of words
    with an execution count of 1 the output is waited for and shown
SetExecNumber(SN)       set how many times RunCommand runs a command
    first argument: a positive integer
    with 2 or more the output is not available"
}

} // verus!
