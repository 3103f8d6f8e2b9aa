//! The request and result vocabulary shared by agents and controllers.

use vstd::prelude::*;

verus! {

/// A request sent from a controller to an agent.
#[derive(Debug, Clone, PartialEq, Eq)]
pub enum MyMessage {
    /// Ask the agent to echo a text back.
    Echo(String),
    /// Run a shell command line `exec_number` times.
    RunCommand { command: String, exec_number: usize },
    /// Write `contents` to `filename`, relative to the agent's working directory.
    SendFile { filename: String, contents: String },
}

/// What a request is, as values.
pub enum MessageView {
    Echo(Seq<char>),
    RunCommand { command: Seq<char>, exec_number: usize },
    SendFile { filename: Seq<char>, contents: Seq<char> },
}

impl View for MyMessage {
    type V = MessageView;

    open spec fn view(&self) -> MessageView {
        match self {
            MyMessage::Echo(s) => MessageView::Echo(s@),
            MyMessage::RunCommand { command, exec_number } => MessageView::RunCommand {
                command: command@,
                exec_number: *exec_number,
            },
            MyMessage::SendFile { filename, contents } => MessageView::SendFile {
                filename: filename@,
                contents: contents@,
            },
        }
    }
}

/// The successful outcome of one request.
#[derive(Debug, Clone, PartialEq, Eq)]
pub enum MyResponseKind {
    Echo(String),
    RunCommand { stdout: String, stderr: String },
    SendFile,
}

/// What a successful outcome is, as values.
pub enum ResponseKindView {
    Echo(Seq<char>),
    RunCommand { stdout: Seq<char>, stderr: Seq<char> },
    SendFile,
}

impl View for MyResponseKind {
    type V = ResponseKindView;

    open spec fn view(&self) -> ResponseKindView {
        match self {
            MyResponseKind::Echo(s) => ResponseKindView::Echo(s@),
            MyResponseKind::RunCommand { stdout, stderr } => ResponseKindView::RunCommand {
                stdout: stdout@,
                stderr: stderr@,
            },
            MyResponseKind::SendFile => ResponseKindView::SendFile,
        }
    }
}

/// A failure: `msg` is the proximate cause, `when` names the phase that failed.
#[derive(Debug, Clone, PartialEq, Eq)]
pub struct MyError {
    pub msg: String,
    pub when: String,
}

/// What a failure is, as values.
pub struct ErrorView {
    pub msg: Seq<char>,
    pub when: Seq<char>,
}

impl View for MyError {
    type V = ErrorView;

    open spec fn view(&self) -> ErrorView {
        ErrorView { msg: self.msg@, when: self.when@ }
    }
}

/// The result of processing exactly one request.
pub type MyResponse = Result<MyResponseKind, MyError>;

/// What a result is, as values.
pub type ResponseView = Result<ResponseKindView, ErrorView>;

pub open spec fn response_view(r: MyResponse) -> ResponseView {
    match r {
        Ok(k) => Ok(k@),
        Err(e) => Err(e@),
    }
}

impl MyError {
    pub fn new(msg: String, when: String) -> (r: MyError)
        ensures
            r.msg@ == msg@,
            r.when@ == when@,
    {
        MyError { msg, when }
    }

    /// The two-line rendering shown to an operator.
    pub fn to_string(&self) -> (r: String)
        ensures
            r@ == "msg : "@ + self.msg@ + "\nwhen : "@ + self.when@,
    {
        let mut r = String::from_str("msg : ");
        r.append(self.msg.as_str());
        r.append("\nwhen : ");
        r.append(self.when.as_str());
        r
    }
}

} // verus!
