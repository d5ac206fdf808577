//! The command and response exchange with the modem.
//!
//! The library decides; the caller owns the transport. For one command the
//! caller writes what `frame_command` returns, then keeps doing what the
//! `Exchange` directs (read, pause, finish) and reports back what happened.

use vstd::prelude::*;
use vstd::string::*;
use vstd::utf8::{decode_utf8, valid_utf8};
use crate::decode::{decode_lossy, lossy_text};
use crate::error::ErrorKind;
use crate::text::{
    chars_of, find_token, has_token, is_space, lemma_token_survives_trim, token_at, trim, trimmed,
};

verus! {

/// How long to pause, in milliseconds, after a read that brought nothing.
pub const POLL_BACKOFF_MS: u64 = 50;

/// How long to wait for the response to a query, in milliseconds.
pub const COMMAND_TIMEOUT_MS: u64 = 2000;

/// The outcome of one command: whether the modem acknowledged it, and the
/// text it sent back.
#[derive(Clone, Debug, PartialEq, Eq)]
pub struct CommandResult {
    pub success: bool,
    pub raw_text: String,
}

/// A `CommandResult` as a mathematical value.
pub struct CommandResultView {
    pub success: bool,
    pub raw_text: Seq<char>,
}

impl View for CommandResult {
    type V = CommandResultView;

    open spec fn view(&self) -> CommandResultView {
        CommandResultView { success: self.success, raw_text: self.raw_text@ }
    }
}

/// What the caller is to do next in an exchange.
#[derive(Clone, Copy, Debug, PartialEq, Eq, Structural)]
pub enum Directive {
    /// Read from the transport and report what came.
    Read,
    /// Pause for so many milliseconds, then ask again with `resume`.
    Pause { millis: u64 },
    /// Stop, and take the result with `finish`.
    Finish,
}

/// The text holds a final token: `OK` or `ERROR` as a word of its own.
pub open spec fn is_terminal(text: Seq<char>) -> bool {
    has_token(text, "OK"@) || has_token(text, "ERROR"@)
}

/// The text holds the acknowledgement: `OK` as a word of its own.
pub open spec fn is_acknowledged(text: Seq<char>) -> bool {
    has_token(text, "OK"@)
}

/// The bytes to write for `command`: the command and a line end.
pub fn frame_command(command: &str) -> (line: String)
    ensures
        line@ == command@ + "\r\n"@,
{
    let mut line = command.to_owned();
    line.append("\r\n");
    line
}

impl CommandResult {
    /// The result of a command that could not be sent because no transport
    /// is connected.
    pub fn unavailable() -> (r: CommandResult)
        ensures
            r@ == (CommandResultView { success: false, raw_text: "transport not connected"@ }),
    {
        CommandResult { success: false, raw_text: String::from_str("transport not connected") }
    }

    /// The result of a command whose write failed; `description` says how.
    pub fn send_failed(description: &str) -> (r: CommandResult)
        ensures
            r@ == (CommandResultView {
                success: false,
                raw_text: "send failed: "@ + description@,
            }),
    {
        let mut text = String::from_str("send failed: ");
        text.append(description);
        CommandResult { success: false, raw_text: text }
    }
}

/// The state of an exchange as a mathematical value.
pub struct ExchangeView {
    /// The text received so far.
    pub received: Seq<char>,
    /// The time allowed for the response, in milliseconds.
    pub timeout_ms: u64,
    /// The description of the read failure that ended the exchange.
    pub fault: Option<Seq<char>>,
}

impl ExchangeView {
    /// Nothing more is to be read: a final token arrived, or a read failed.
    pub open spec fn settled(self) -> bool {
        self.fault is Some || is_terminal(self.received)
    }

    /// What to do after `elapsed_ms` milliseconds: finish where the exchange
    /// is settled, the caller asked to stop, or the time is up; else read.
    pub open spec fn next(self, elapsed_ms: u64, stop: bool) -> Directive {
        if self.settled() || stop || elapsed_ms >= self.timeout_ms {
            Directive::Finish
        } else {
            Directive::Read
        }
    }

    /// The exchange after `text` arrived. A settled exchange takes no more.
    pub open spec fn with_text(self, text: Seq<char>) -> ExchangeView {
        if self.settled() {
            self
        } else {
            ExchangeView { received: self.received + text, ..self }
        }
    }

    /// The exchange after a read failed. A settled exchange stays as it is.
    pub open spec fn with_fault(self, description: Seq<char>) -> ExchangeView {
        if self.settled() {
            self
        } else {
            ExchangeView { fault: Some(description), ..self }
        }
    }

    /// The result of the exchange. After a read failure it is a failure that
    /// holds the description; otherwise it holds the trimmed text, and it is
    /// a success exactly when the text holds the acknowledgement.
    pub open spec fn result(self) -> CommandResultView {
        match self.fault {
            Some(description) => CommandResultView {
                success: false,
                raw_text: "receive failed: "@ + description,
            },
            None => CommandResultView {
                success: is_acknowledged(self.received),
                raw_text: trimmed(self.received),
            },
        }
    }

    /// Why the exchange failed, if it did.
    pub open spec fn failure(self) -> Option<ErrorKind> {
        if self.fault is Some {
            Some(ErrorKind::TransportIo)
        } else if !is_terminal(self.received) {
            Some(ErrorKind::ProtocolTimeout)
        } else {
            None
        }
    }
}

/// An exchange succeeds exactly when no read failed and the text holds `OK`
/// as a word of its own, which it then also does in the text of the result.
/// So a response that holds only `ERROR`, or nothing, is a failure.
pub proof fn lemma_success_iff_acknowledged(e: ExchangeView)
    ensures
        e.result().success == (e.fault is None && has_token(e.received, "OK"@)),
        e.fault is None ==> e.result().success == has_token(e.result().raw_text, "OK"@),
        e.received.len() == 0 ==> !e.result().success,
{
    reveal_strlit("OK");
    let ok = "OK"@;
    assert(!is_space(ok[0]) && !is_space(ok[1]));
    lemma_token_survives_trim(e.received, ok);
    if e.received.len() == 0 && has_token(e.received, ok) {
        let i = choose|i: int| token_at(e.received, ok, i);
        assert(false);
    }
}

/// An exchange that ended with a success has no failure to report, and one
/// that has a failure to report did not succeed.
pub proof fn lemma_success_excludes_failure(e: ExchangeView)
    ensures
        e.result().success ==> e.failure() is None,
        e.failure() is Some ==> !e.result().success,
{
}

/// Once an exchange is settled it finishes whatever the time, and neither
/// text nor a failed read changes it.
pub proof fn lemma_settled_is_closed(e: ExchangeView, text: Seq<char>, elapsed_ms: u64, stop: bool)
    requires
        e.settled(),
    ensures
        e.next(elapsed_ms, stop) == Directive::Finish,
        e.with_text(text) == e,
        e.with_fault(text) == e,
{
}

/// One command's wait for its response.
pub struct Exchange {
    received: String,
    timeout_ms: u64,
    fault: Option<String>,
    acknowledged: bool,
    rejected: bool,
}

impl View for Exchange {
    type V = ExchangeView;

    closed spec fn view(&self) -> ExchangeView {
        ExchangeView {
            received: self.received@,
            timeout_ms: self.timeout_ms,
            fault: match self.fault {
                Some(d) => Some(d@),
                None => None,
            },
        }
    }
}

impl Exchange {
    #[verifier::type_invariant]
    spec fn inv(self) -> bool {
        &&& self.acknowledged == has_token(self.received@, "OK"@)
        &&& self.rejected == has_token(self.received@, "ERROR"@)
    }

    /// An exchange that allows `timeout_ms` milliseconds for the response.
    pub fn new(timeout_ms: u64) -> (e: Exchange)
        ensures
            e@ == (ExchangeView { received: Seq::empty(), timeout_ms, fault: None }),
            !e@.settled(),
    {
        proof {
            reveal_strlit("OK");
            reveal_strlit("ERROR");
        }
        let received = String::new();
        let ok = chars_of("OK");
        let error = chars_of("ERROR");
        let v = chars_of(received.as_str());
        let acknowledged = find_token(&v, &ok);
        let rejected = find_token(&v, &error);
        Exchange { received, timeout_ms, fault: None, acknowledged, rejected }
    }

    /// What to do next, `elapsed_ms` milliseconds after the command was
    /// written; `stop` says that the caller wants the exchange to end.
    pub fn resume(&self, elapsed_ms: u64, stop: bool) -> (d: Directive)
        ensures
            d == self@.next(elapsed_ms, stop),
    {
        proof {
            use_type_invariant(self);
        }
        if self.fault.is_some() || self.acknowledged || self.rejected || stop || elapsed_ms
            >= self.timeout_ms {
            Directive::Finish
        } else {
            Directive::Read
        }
    }

    /// Takes in what a read brought. Nothing (`bytes` is empty) asks for a
    /// pause; otherwise the bytes are decoded and added to the text, and the
    /// next step is as `resume` says. Bytes that are valid UTF-8 decode to
    /// the text that they encode.
    pub fn on_data(&mut self, bytes: &[u8], elapsed_ms: u64, stop: bool) -> (d: Directive)
        ensures
            old(self)@.settled() ==> final(self)@ == old(self)@ && d == Directive::Finish,
            !old(self)@.settled() && bytes@.len() == 0 ==> final(self)@ == old(self)@ && d == (
            Directive::Pause { millis: POLL_BACKOFF_MS }),
            !old(self)@.settled() && bytes@.len() > 0 ==> final(self)@ == old(self)@.with_text(
                lossy_text(bytes@),
            ) && d == final(self)@.next(elapsed_ms, stop),
            valid_utf8(bytes@) ==> lossy_text(bytes@) == decode_utf8(bytes@),
    {
        proof {
            use_type_invariant(&*self);
        }
        let chunk = decode_lossy(bytes);
        if self.fault.is_some() || self.acknowledged || self.rejected {
            return Directive::Finish;
        }
        if bytes.len() == 0 {
            return Directive::Pause { millis: POLL_BACKOFF_MS };
        }
        let mut received = self.received.clone();
        received.append(chunk.as_str());
        let ok = chars_of("OK");
        let error = chars_of("ERROR");
        let v = chars_of(received.as_str());
        let acknowledged = find_token(&v, &ok);
        let rejected = find_token(&v, &error);
        *self = Exchange {
            received,
            timeout_ms: self.timeout_ms,
            fault: None,
            acknowledged,
            rejected,
        };
        self.resume(elapsed_ms, stop)
    }

    /// Takes in that a read brought nothing within its own short timeout:
    /// pause before the next one.
    pub fn on_silence(&self) -> (d: Directive)
        ensures
            d == if self@.settled() {
                Directive::Finish
            } else {
                Directive::Pause { millis: POLL_BACKOFF_MS }
            },
    {
        proof {
            use_type_invariant(self);
        }
        if self.fault.is_some() || self.acknowledged || self.rejected {
            Directive::Finish
        } else {
            Directive::Pause { millis: POLL_BACKOFF_MS }
        }
    }

    /// Takes in that a read failed; `description` says how. The exchange
    /// ends, and its result is a failure that holds the description.
    pub fn on_fault(&mut self, description: &str) -> (d: Directive)
        ensures
            final(self)@ == old(self)@.with_fault(description@),
            d == Directive::Finish,
    {
        proof {
            use_type_invariant(&*self);
        }
        if self.fault.is_some() || self.acknowledged || self.rejected {
            return Directive::Finish;
        }
        self.fault = Some(description.to_owned());
        Directive::Finish
    }

    /// The result of the exchange as it stands.
    pub fn finish(&self) -> (r: CommandResult)
        ensures
            r@ == self@.result(),
    {
        proof {
            use_type_invariant(self);
        }
        match &self.fault {
            Some(description) => {
                let mut text = String::from_str("receive failed: ");
                text.append(description.as_str());
                CommandResult { success: false, raw_text: text }
            },
            None => CommandResult {
                success: self.acknowledged,
                raw_text: trim(self.received.as_str()),
            },
        }
    }

    /// Why the exchange failed, if it did: a read failure, or no final token
    /// by the time it ended.
    pub fn failure(&self) -> (kind: Option<ErrorKind>)
        ensures
            kind == self@.failure(),
    {
        proof {
            use_type_invariant(self);
        }
        if self.fault.is_some() {
            Some(ErrorKind::TransportIo)
        } else if !self.acknowledged && !self.rejected {
            Some(ErrorKind::ProtocolTimeout)
        } else {
            None
        }
    }
}

} // verus!
