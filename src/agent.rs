//! The agent's side of a connection: what it does with each event.
//!
//! Frames on one connection are handled one at a time, and each binary frame is
//! answered by exactly one result, a malformed one included. When the
//! connection ends, the agent waits a fixed delay and connects again, forever.

use vstd::prelude::*;

use crate::codec::{decode_message, message_bytes, parse_message};
use crate::engine::{process_msg, step_for, Step, StepView};
use crate::message::{ErrorView, MessageView, MyError, ResponseKindView};
use crate::wire::str_fits;

verus! {

/// How long the agent waits before it connects again.
pub const RECONNECT_DELAY_SECS: u64 = 3;

/// Something that happened on the agent's connection.
#[derive(Debug, Clone, PartialEq, Eq)]
pub enum AgentEvent {
    /// The connection was established.
    Opened,
    /// A text frame arrived.
    Text(String),
    /// A binary frame arrived.
    Binary(Vec<u8>),
    /// The connection ended normally.
    Closed,
    /// The connection failed or could not be made.
    Lost(String),
}

/// What the agent does next.
#[derive(Debug, PartialEq, Eq)]
pub enum AgentAction {
    /// Send a text frame.
    SendText(String),
    /// Perform a step of the execution engine and send the result it gives as
    /// a binary frame.
    Perform(Step),
    /// Record `log` if there is one, wait `delay_secs` seconds, then connect
    /// again.
    Reconnect { log: Option<MyError>, delay_secs: u64 },
}

/// The text frame an agent sends once connected.
pub open spec fn greeting() -> Seq<char> {
    "connection established"@
}

/// What answering a binary frame takes: the step for the request it holds, or,
/// when it holds none, a failure of phase "decode" sent back at once.
pub open spec fn frame_step(b: Seq<u8>, windows: bool, s: StepView) -> bool {
    match parse_message(b) {
        Some(m) => s == step_for(m, windows),
        None => s matches StepView::Reply(Err(e)) && e.when == "decode"@,
    }
}

/// Decodes a binary frame and decides what to perform for the request in it.
/// A frame that holds no request is answered with the decoding failure.
pub fn process_bytes(bytes: &[u8], windows: bool) -> (r: Step)
    ensures
        frame_step(bytes@, windows, r@),
{
    match decode_message(bytes) {
        Ok(m) => process_msg(m, windows),
        Err(e) => Step::Reply(Err(e)),
    }
}

/// Decides the agent's answer to one event.
pub fn on_event(event: AgentEvent, windows: bool) -> (r: AgentAction)
    ensures
        match event {
            AgentEvent::Opened => r matches AgentAction::SendText(t) && t@ == greeting(),
            AgentEvent::Text(t) => r matches AgentAction::SendText(u) && u@ == "Echo:"@ + t@,
            AgentEvent::Binary(b) => r matches AgentAction::Perform(s) && frame_step(
                b@,
                windows,
                s@,
            ),
            AgentEvent::Closed => r matches AgentAction::Reconnect { log: None, delay_secs }
                && delay_secs == RECONNECT_DELAY_SECS,
            AgentEvent::Lost(cause) => r matches AgentAction::Reconnect {
                log: Some(e),
                delay_secs,
            } && e@ == (ErrorView { msg: cause@, when: "connection"@ }) && delay_secs
                == RECONNECT_DELAY_SECS,
        },
{
    match event {
        AgentEvent::Opened => AgentAction::SendText(String::from_str("connection established")),
        AgentEvent::Text(t) => {
            let mut u = String::from_str("Echo:");
            u.append(t.as_str());
            AgentAction::SendText(u)
        },
        AgentEvent::Binary(b) => AgentAction::Perform(process_bytes(b.as_slice(), windows)),
        AgentEvent::Closed => AgentAction::Reconnect { log: None, delay_secs: RECONNECT_DELAY_SECS },
        AgentEvent::Lost(cause) => AgentAction::Reconnect {
            log: Some(MyError::new(cause, String::from_str("connection"))),
            delay_secs: RECONNECT_DELAY_SECS,
        },
    }
}

/// A malformed frame does not end the exchange: it is answered at once with a
/// failure of phase "decode", and a well-formed echo request that follows it on
/// the same connection is answered with its echo. Each frame gets exactly one
/// result, in order.
pub proof fn lemma_malformed_frame_then_echo(
    bad: Seq<u8>,
    text: Seq<char>,
    windows: bool,
    first: StepView,
    second: StepView,
)
    requires
        parse_message(bad) is None,
        str_fits(text),
        frame_step(bad, windows, first),
        frame_step(message_bytes(MessageView::Echo(text)), windows, second),
    ensures
        first matches StepView::Reply(Err(e)) && e.when == "decode"@,
        second == StepView::Reply(Ok(ResponseKindView::Echo("Echo : "@ + text))),
{
    crate::codec::lemma_message_round_trip(MessageView::Echo(text), Seq::empty());
    assert(message_bytes(MessageView::Echo(text)) + Seq::<u8>::empty() =~= message_bytes(
        MessageView::Echo(text),
    ));
}

} // verus!
