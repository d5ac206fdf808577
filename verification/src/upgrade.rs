//! The firmware upgrade: its state, and the sequence that drives it.
//!
//! The sequence sends nothing itself. `UpgradeSequence::start` and
//! `UpgradeSequence::on_reply` say which command to send next; the caller
//! sends it and hands back the result. Once the transfer is acknowledged the
//! state is resolved by `UpgradeState::apply`, which takes the notifications
//! of the modem, and by `UpgradeState::poll`, which takes the time.

use vstd::prelude::*;
use vstd::string::*;
use crate::decimal::{decimal_text, push_decimal};
use crate::engine::{CommandResult, CommandResultView, COMMAND_TIMEOUT_MS};
use crate::error::ErrorKind;
use crate::notify::{update_event, SubType, UnsolicitedEvent};
use crate::parser::{
    registration, registration_of, signal, signal_of, version_number, version_of,
    version_of_reply, NetworkStatus, Registration, REGISTRATION_PATTERN, SIGNAL_PATTERN,
    VERSION_NUMBER_PATTERN,
};
use crate::pattern::{first_capture, first_match, text_of};

verus! {

/// The longest URL, in characters, that a transfer request may hold.
pub const MAX_URL_LENGTH: usize = 700;

/// How long to wait for the acknowledgement of the transfer request, in
/// milliseconds.
pub const TRANSFER_TIMEOUT_MS: u64 = 5000;

/// How long to pause between two looks at the state while the upgrade runs,
/// in milliseconds.
pub const COMPLETION_POLL_MS: u64 = 500;

/// The command that asks for the firmware version.
pub const VERSION_QUERY: &'static str = "AT+QGMR";

/// The command that asks for the registration status.
pub const REGISTRATION_QUERY: &'static str = "AT+CREG?";

/// The command that asks for the signal strength.
pub const SIGNAL_QUERY: &'static str = "AT+CSQ";

/// What the modem does once the new firmware is in place.
#[derive(Clone, Copy, Debug, PartialEq, Eq, Structural)]
pub enum ResetMode {
    /// It waits to be restarted.
    Manual,
    /// It restarts by itself.
    Automatic,
}

impl ResetMode {
    /// The number that stands for the mode in the transfer request.
    pub open spec fn flag(self) -> int {
        match self {
            ResetMode::Manual => 0,
            ResetMode::Automatic => 1,
        }
    }

    /// The number that stands for the mode in the transfer request.
    pub fn code(&self) -> (n: i64)
        ensures
            n == self.flag(),
    {
        match self {
            ResetMode::Manual => 0,
            ResetMode::Automatic => 1,
        }
    }
}

/// Where an upgrade stands.
#[derive(Clone, Copy, Debug, PartialEq, Eq, Structural)]
pub enum Phase {
    Idle,
    VersionCheck,
    NetworkCheck,
    TransferRequested,
    AwaitingCompletion,
    Succeeded,
    Failed,
    TimedOut,
}

impl Phase {
    /// The place of the phase in the order of an upgrade. The three ends
    /// share the last place.
    pub open spec fn rank(self) -> nat {
        match self {
            Phase::Idle => 0,
            Phase::VersionCheck => 1,
            Phase::NetworkCheck => 2,
            Phase::TransferRequested => 3,
            Phase::AwaitingCompletion => 4,
            Phase::Succeeded => 5,
            Phase::Failed => 5,
            Phase::TimedOut => 5,
        }
    }

    /// The upgrade has ended.
    pub open spec fn is_final(self) -> bool {
        self == Phase::Succeeded || self == Phase::Failed || self == Phase::TimedOut
    }

    /// Whether the upgrade has ended.
    pub fn ended(&self) -> (b: bool)
        ensures
            b == self.is_final(),
    {
        match self {
            Phase::Succeeded => true,
            Phase::Failed => true,
            Phase::TimedOut => true,
            _ => false,
        }
    }
}

/// The state of an upgrade: where it stands, the result code that the modem
/// reported, and why it failed.
#[derive(Clone, Debug, PartialEq, Eq)]
pub struct UpgradeState {
    pub phase: Phase,
    pub result_code: Option<i32>,
    pub error_message: Option<String>,
    pub error: Option<ErrorKind>,
}

/// An `UpgradeState` as a mathematical value.
pub struct UpgradeStateView {
    pub phase: Phase,
    pub result_code: Option<i32>,
    pub error_message: Option<Seq<char>>,
    pub error: Option<ErrorKind>,
}

impl View for UpgradeState {
    type V = UpgradeStateView;

    open spec fn view(&self) -> UpgradeStateView {
        UpgradeStateView {
            phase: self.phase,
            result_code: self.result_code,
            error_message: text_of(self.error_message),
            error: self.error,
        }
    }
}

/// What the caller of `UpgradeState::poll` is to do.
#[derive(Clone, Copy, Debug, PartialEq, Eq, Structural)]
pub enum WaitStep {
    /// The upgrade has ended.
    Resolved { success: bool, result_code: Option<i32> },
    /// Pause for so many milliseconds, then poll again.
    Sleep { millis: u64 },
}

/// What a result code of the upgrade means.
pub open spec fn result_code_meaning(code: int) -> Seq<char> {
    if code == 0 {
        "upgrade succeeded"@
    } else if code == 504 {
        "upgrade failed"@
    } else if code == 505 {
        "package checksum error"@
    } else if code == 506 {
        "firmware integrity hash mismatch"@
    } else if code == 507 {
        "package version mismatch"@
    } else if code == 552 {
        "package project name mismatch"@
    } else if code == 553 {
        "package baseline name mismatch"@
    } else {
        "unknown result code"@
    }
}

/// What the result code `code` means.
pub fn describe_result_code(code: i32) -> (t: &'static str)
    ensures
        t@ == result_code_meaning(code as int),
{
    match code {
        0 => "upgrade succeeded",
        504 => "upgrade failed",
        505 => "package checksum error",
        506 => "firmware integrity hash mismatch",
        507 => "package version mismatch",
        552 => "package project name mismatch",
        553 => "package baseline name mismatch",
        _ => "unknown result code",
    }
}

impl UpgradeStateView {
    /// The state in `phase`, with no result and no failure.
    pub open spec fn at(phase: Phase) -> UpgradeStateView {
        UpgradeStateView { phase, result_code: None, error_message: None, error: None }
    }

    /// The state of an upgrade that failed before the modem reported a
    /// result.
    pub open spec fn failed(kind: ErrorKind, message: Seq<char>) -> UpgradeStateView {
        UpgradeStateView {
            phase: Phase::Failed,
            result_code: None,
            error_message: Some(message),
            error: Some(kind),
        }
    }

    /// The state of an upgrade that the modem reported as ended with `code`.
    pub open spec fn ended_with(code: i32) -> UpgradeStateView {
        if code == 0 {
            UpgradeStateView {
                phase: Phase::Succeeded,
                result_code: Some(0i32),
                error_message: None,
                error: None,
            }
        } else {
            UpgradeStateView {
                phase: Phase::Failed,
                result_code: Some(code),
                error_message: Some((ErrorKind::UpgradeFailed { code }).description()),
                error: Some(ErrorKind::UpgradeFailed { code }),
            }
        }
    }

    /// The state of an upgrade whose end was not reported in time.
    pub open spec fn timed_out() -> UpgradeStateView {
        UpgradeStateView {
            phase: Phase::TimedOut,
            result_code: None,
            error_message: Some(ErrorKind::UpgradeTimedOut.description()),
            error: Some(ErrorKind::UpgradeTimedOut),
        }
    }

    /// The fields agree with the phase: a result code stands only with
    /// `Succeeded` (where it is 0) and `Failed` (where it is not), and a
    /// failure and its message stand exactly with `Failed` and `TimedOut`.
    pub open spec fn wf(self) -> bool {
        match self.phase {
            Phase::Succeeded => self.result_code == Some(0i32) && self.error is None
                && self.error_message is None,
            Phase::Failed => self.result_code != Some(0i32) && self.error is Some
                && self.error_message is Some,
            Phase::TimedOut => self.result_code is None && self.error == Some(
                ErrorKind::UpgradeTimedOut,
            ) && self.error_message is Some,
            _ => self.result_code is None && self.error is None && self.error_message is None,
        }
    }

    /// The state after the notification `event`. Only the report of the end
    /// of the upgrade, and only while it is awaited, changes the state: to
    /// `Succeeded` for the code 0, to `Failed` with the code otherwise.
    pub open spec fn after_event(self, event: UnsolicitedEvent) -> UpgradeStateView {
        if self.phase == Phase::AwaitingCompletion && event.subtype == SubType::End {
            match event.payload {
                Some(code) => Self::ended_with(code),
                None => self,
            }
        } else {
            self
        }
    }

    /// The state after a look at the clock, `elapsed_ms` milliseconds into a
    /// wait of at most `max_wait_ms`: an upgrade that has not ended when the
    /// time is up has timed out.
    pub open spec fn after_poll(self, elapsed_ms: u64, max_wait_ms: u64) -> UpgradeStateView {
        if !self.phase.is_final() && elapsed_ms >= max_wait_ms {
            Self::timed_out()
        } else {
            self
        }
    }

    /// How the start of the upgrade came out: well where the end of the
    /// upgrade is awaited, and otherwise badly, with the message of the
    /// failure or, where the state holds none, with a fixed text.
    pub open spec fn start_outcome(self) -> Result<(), Seq<char>> {
        if self.phase == Phase::AwaitingCompletion {
            Ok(())
        } else {
            match self.error_message {
                Some(message) => Err(message),
                None => Err("the upgrade did not start"@),
            }
        }
    }

    /// What `poll` tells its caller in this state.
    pub open spec fn wait_step(self) -> WaitStep {
        if self.phase.is_final() {
            WaitStep::Resolved {
                success: self.phase == Phase::Succeeded,
                result_code: self.result_code,
            }
        } else {
            WaitStep::Sleep { millis: COMPLETION_POLL_MS }
        }
    }
}

impl UpgradeState {
    /// The state before any upgrade: `Idle`.
    pub fn new() -> (s: UpgradeState)
        ensures
            s@ == UpgradeStateView::at(Phase::Idle),
            s@.wf(),
    {
        UpgradeState::at(Phase::Idle)
    }

    /// The state in `phase`, with no result and no failure.
    pub fn at(phase: Phase) -> (s: UpgradeState)
        ensures
            s@ == UpgradeStateView::at(phase),
    {
        UpgradeState { phase, result_code: None, error_message: None, error: None }
    }

    /// How the start of the upgrade came out, once the sequence has nothing
    /// more to send: `Ok` exactly where the modem acknowledged the transfer
    /// request and the end of the upgrade is awaited, and otherwise the
    /// message of the failure.
    pub fn start_outcome(&self) -> (r: Result<(), String>)
        ensures
            r is Ok <==> self@.phase == Phase::AwaitingCompletion,
            match r {
                Ok(_) => self@.start_outcome() is Ok,
                Err(message) => self@.start_outcome() == Err::<(), Seq<char>>(message@),
            },
    {
        match self.phase {
            Phase::AwaitingCompletion => Ok(()),
            _ => match &self.error_message {
                Some(message) => Err(message.clone()),
                None => Err(String::from_str("the upgrade did not start")),
            },
        }
    }

    /// Takes in a notification of the modem.
    pub fn apply(&mut self, event: UnsolicitedEvent)
        ensures
            final(self)@ == old(self)@.after_event(event),
            old(self)@.wf() ==> final(self)@.wf(),
    {
        match self.phase {
            Phase::AwaitingCompletion => {},
            _ => {
                return ;
            },
        }
        match event.subtype {
            SubType::End => {},
            _ => {
                return ;
            },
        }
        match event.payload {
            Some(code) => {
                if code == 0 {
                    *self = UpgradeState {
                        phase: Phase::Succeeded,
                        result_code: Some(0),
                        error_message: None,
                        error: None,
                    };
                } else {
                    let kind = ErrorKind::UpgradeFailed { code };
                    *self = UpgradeState {
                        phase: Phase::Failed,
                        result_code: Some(code),
                        error_message: Some(kind.describe()),
                        error: Some(kind),
                    };
                }
            },
            None => {},
        }
    }

    /// Looks at the clock, `elapsed_ms` milliseconds into a wait of at most
    /// `max_wait_ms`, and says whether the upgrade has ended. An upgrade
    /// that has not ended when the time is up ends here as `TimedOut`.
    pub fn poll(&mut self, elapsed_ms: u64, max_wait_ms: u64) -> (step: WaitStep)
        ensures
            final(self)@ == old(self)@.after_poll(elapsed_ms, max_wait_ms),
            step == final(self)@.wait_step(),
            old(self)@.wf() ==> final(self)@.wf(),
    {
        if self.phase.ended() {
            return WaitStep::Resolved {
                success: match self.phase {
                    Phase::Succeeded => true,
                    _ => false,
                },
                result_code: self.result_code,
            };
        }
        if elapsed_ms >= max_wait_ms {
            *self = UpgradeState {
                phase: Phase::TimedOut,
                result_code: None,
                error_message: Some(ErrorKind::UpgradeTimedOut.describe()),
                error: Some(ErrorKind::UpgradeTimedOut),
            };
            return WaitStep::Resolved { success: false, result_code: None };
        }
        WaitStep::Sleep { millis: COMPLETION_POLL_MS }
    }
}

/// What the caller of an upgrade sequence is to do next.
#[derive(Clone, Debug, PartialEq, Eq)]
pub enum Action {
    /// Send `command`, allow `timeout_ms` milliseconds for the response, and
    /// hand the result to `on_reply`.
    Send { command: String, timeout_ms: u64 },
    /// The transfer runs: listen for notifications and poll the state.
    AwaitCompletion,
    /// The sequence has ended; nothing is to be sent.
    Stop,
}

/// An `Action` as a mathematical value.
pub enum ActionView {
    Send { command: Seq<char>, timeout_ms: u64 },
    AwaitCompletion,
    Stop,
}

impl View for Action {
    type V = ActionView;

    open spec fn view(&self) -> ActionView {
        match self {
            Action::Send { command, timeout_ms } => ActionView::Send {
                command: command@,
                timeout_ms: *timeout_ms,
            },
            Action::AwaitCompletion => ActionView::AwaitCompletion,
            Action::Stop => ActionView::Stop,
        }
    }
}

/// The transfer request for `url`: the URL in quotes, the number of the
/// reset mode, and the time allowed for the transfer in seconds.
pub open spec fn transfer_command_text(url: Seq<char>, mode: ResetMode, timeout_seconds: int)
    -> Seq<char> {
    "AT+QFOTADL=\""@ + url + "\","@ + decimal_text(mode.flag()) + ","@ + decimal_text(
        timeout_seconds,
    )
}

/// The transfer request for `url`.
pub fn transfer_command(url: &str, mode: ResetMode, timeout_seconds: i32) -> (command: String)
    ensures
        command@ == transfer_command_text(url@, mode, timeout_seconds as int),
{
    let mut command = String::from_str("AT+QFOTADL=\"");
    command.append(url);
    command.append("\",");
    push_decimal(&mut command, mode.code());
    command.append(",");
    push_decimal(&mut command, timeout_seconds as i64);
    command
}

/// The message of the failure to register: the status in words, or nothing
/// where no status was read.
pub open spec fn not_registered_message(status: Option<Registration>) -> Seq<char> {
    "network not registered: "@ + match status {
        Some(r) => r.description(),
        None => Seq::empty(),
    }
}

/// An upgrade sequence as a mathematical value.
pub struct UpgradeSequenceView {
    pub state: UpgradeStateView,
    pub url: Seq<char>,
    pub reset_mode: ResetMode,
    pub timeout_seconds: i32,
    /// The firmware version before the upgrade, where it could be read.
    pub firmware_version: Option<Seq<char>>,
    /// The numeric suffix of that version, where it has one.
    pub version_number: Option<Seq<char>>,
    pub network: NetworkStatus,
    /// In `NetworkCheck`: the registration has been asked for, and the
    /// response that is awaited is that to the signal query.
    pub registration_seen: bool,
}

impl UpgradeSequenceView {
    /// The sequence for a request, before anything was sent. A URL of more
    /// than 700 characters fails it at once.
    pub open spec fn started(url: Seq<char>, reset_mode: ResetMode, timeout_seconds: i32)
        -> UpgradeSequenceView {
        UpgradeSequenceView {
            state: if url.len() > MAX_URL_LENGTH {
                UpgradeStateView::failed(
                    ErrorKind::Validation,
                    "URL length exceeds the limit of 700 characters"@,
                )
            } else {
                UpgradeStateView::at(Phase::VersionCheck)
            },
            url,
            reset_mode,
            timeout_seconds,
            firmware_version: None,
            version_number: None,
            network: NetworkStatus { registration: None, signal: None },
            registration_seen: false,
        }
    }

    /// What is to be done in this state of the sequence, where a response
    /// is not what decides it.
    pub open spec fn action(self) -> ActionView {
        match self.state.phase {
            Phase::VersionCheck => ActionView::Send {
                command: VERSION_QUERY@,
                timeout_ms: COMMAND_TIMEOUT_MS,
            },
            Phase::NetworkCheck => if self.registration_seen {
                ActionView::Send { command: SIGNAL_QUERY@, timeout_ms: COMMAND_TIMEOUT_MS }
            } else {
                ActionView::Send { command: REGISTRATION_QUERY@, timeout_ms: COMMAND_TIMEOUT_MS }
            },
            Phase::TransferRequested => ActionView::Send {
                command: transfer_command_text(
                    self.url,
                    self.reset_mode,
                    self.timeout_seconds as int,
                ),
                timeout_ms: TRANSFER_TIMEOUT_MS,
            },
            Phase::AwaitingCompletion => ActionView::AwaitCompletion,
            _ => ActionView::Stop,
        }
    }

    /// The sequence after the response to the version query: the version is
    /// kept where the response holds one, and the network is looked at next
    /// in any case.
    pub open spec fn after_version(self, reply: CommandResultView) -> UpgradeSequenceView {
        let firmware = version_of(reply);
        UpgradeSequenceView {
            state: UpgradeStateView::at(Phase::NetworkCheck),
            firmware_version: firmware,
            version_number: match firmware {
                Some(v) => first_match(VERSION_NUMBER_PATTERN@, v),
                None => None,
            },
            registration_seen: false,
            ..self
        }
    }

    /// The sequence after the response to the registration query.
    pub open spec fn after_registration(self, reply: CommandResultView) -> UpgradeSequenceView {
        UpgradeSequenceView {
            network: NetworkStatus {
                registration: if reply.success {
                    registration_of(first_capture(REGISTRATION_PATTERN@, reply.raw_text, 1))
                } else {
                    None
                },
                signal: self.network.signal,
            },
            registration_seen: true,
            ..self
        }
    }

    /// The sequence after the response to the signal query: the transfer is
    /// requested where the modem is registered, at home or roaming, and the
    /// upgrade fails where it is not.
    pub open spec fn after_signal(self, reply: CommandResultView) -> UpgradeSequenceView {
        let registration = self.network.registration;
        UpgradeSequenceView {
            state: if registration matches Some(r) && r.is_registered() {
                UpgradeStateView::at(Phase::TransferRequested)
            } else {
                UpgradeStateView::failed(
                    ErrorKind::NetworkNotRegistered,
                    not_registered_message(registration),
                )
            },
            network: NetworkStatus {
                registration,
                signal: if reply.success {
                    signal_of(first_capture(SIGNAL_PATTERN@, reply.raw_text, 1))
                } else {
                    None
                },
            },
            ..self
        }
    }

    /// The sequence after the response to the transfer request: the end of
    /// the upgrade is awaited where the modem acknowledged the request, and
    /// the upgrade fails where it did not.
    pub open spec fn after_transfer(self, reply: CommandResultView) -> UpgradeSequenceView {
        UpgradeSequenceView {
            state: if reply.success {
                UpgradeStateView::at(Phase::AwaitingCompletion)
            } else {
                UpgradeStateView::failed(
                    ErrorKind::TransferRejected,
                    "transfer request rejected: "@ + reply.raw_text,
                )
            },
            ..self
        }
    }

    /// The sequence after the response to the command that was sent last.
    /// Where no command was to be sent, a response changes nothing.
    pub open spec fn after_reply(self, reply: CommandResultView) -> UpgradeSequenceView {
        match self.state.phase {
            Phase::VersionCheck => self.after_version(reply),
            Phase::NetworkCheck => if self.registration_seen {
                self.after_signal(reply)
            } else {
                self.after_registration(reply)
            },
            Phase::TransferRequested => self.after_transfer(reply),
            _ => self,
        }
    }
}

/// A notification moves the upgrade forward or not at all: the phase never
/// goes back, an upgrade that has ended stays as it is, and a well-formed
/// state stays well formed.
pub proof fn lemma_event_moves_forward(s: UpgradeStateView, event: UnsolicitedEvent)
    ensures
        s.after_event(event).phase.rank() >= s.phase.rank(),
        s.phase.is_final() ==> s.after_event(event) == s,
        s.wf() ==> s.after_event(event).wf(),
{
}

/// The report of the end of the upgrade resolves the wait: the code 0 to
/// `Succeeded`, any other code to `Failed`, and either way the state holds
/// the code.
pub proof fn lemma_completion_resolves(s: UpgradeStateView, code: i32)
    requires
        s.phase == Phase::AwaitingCompletion,
    ensures
        s.after_event(update_event(SubType::End, Some(code))).result_code == Some(code),
        code == 0 ==> s.after_event(update_event(SubType::End, Some(code))).phase
            == Phase::Succeeded,
        code != 0 ==> s.after_event(update_event(SubType::End, Some(code))).phase == Phase::Failed
            && s.after_event(update_event(SubType::End, Some(code))).error == Some(
            ErrorKind::UpgradeFailed { code },
        ),
{
}

/// Reports of progress and of the download are for information only: they
/// leave the state as it is.
pub proof fn lemma_progress_changes_nothing(s: UpgradeStateView, event: UnsolicitedEvent)
    requires
        event.subtype != SubType::End,
    ensures
        s.after_event(event) == s,
{
}

/// A look at the clock moves the upgrade forward or not at all, and an
/// upgrade that has not ended when the time is up is `TimedOut`, with no
/// result code.
pub proof fn lemma_poll_moves_forward(s: UpgradeStateView, elapsed_ms: u64, max_wait_ms: u64)
    ensures
        s.after_poll(elapsed_ms, max_wait_ms).phase.rank() >= s.phase.rank(),
        s.phase.is_final() ==> s.after_poll(elapsed_ms, max_wait_ms) == s,
        s.wf() ==> s.after_poll(elapsed_ms, max_wait_ms).wf(),
        !s.phase.is_final() && elapsed_ms >= max_wait_ms ==> s.after_poll(
            elapsed_ms,
            max_wait_ms,
        ).phase == Phase::TimedOut && s.after_poll(elapsed_ms, max_wait_ms).result_code is None
            && s.after_poll(elapsed_ms, max_wait_ms).wait_step() == (WaitStep::Resolved {
            success: false,
            result_code: None,
        }),
        !s.phase.is_final() && elapsed_ms < max_wait_ms ==> s.after_poll(elapsed_ms, max_wait_ms)
            == s && s.wait_step() == (WaitStep::Sleep { millis: COMPLETION_POLL_MS }),
{
}

/// A URL of at most 700 characters begins the sequence with the version
/// query; a longer one fails it before anything is to be sent.
pub proof fn lemma_url_limit(url: Seq<char>, reset_mode: ResetMode, timeout_seconds: i32)
    ensures
        url.len() <= 700 ==> UpgradeSequenceView::started(
            url,
            reset_mode,
            timeout_seconds,
        ).state.phase == Phase::VersionCheck && UpgradeSequenceView::started(
            url,
            reset_mode,
            timeout_seconds,
        ).action() == (ActionView::Send {
            command: VERSION_QUERY@,
            timeout_ms: COMMAND_TIMEOUT_MS,
        }),
        url.len() > 700 ==> UpgradeSequenceView::started(
            url,
            reset_mode,
            timeout_seconds,
        ).state.phase == Phase::Failed && UpgradeSequenceView::started(
            url,
            reset_mode,
            timeout_seconds,
        ).state.error == Some(ErrorKind::Validation) && UpgradeSequenceView::started(
            url,
            reset_mode,
            timeout_seconds,
        ).action() == ActionView::Stop,
        UpgradeSequenceView::started(url, reset_mode, timeout_seconds).state.wf(),
{
}

/// A response moves the sequence forward or not at all: the phase never
/// goes back, a sequence that has ended or awaits the end of the upgrade
/// stays as it is, and a well-formed state stays well formed.
pub proof fn lemma_reply_moves_forward(q: UpgradeSequenceView, reply: CommandResultView)
    ensures
        q.after_reply(reply).state.phase.rank() >= q.state.phase.rank(),
        q.state.phase.is_final() || q.state.phase == Phase::AwaitingCompletion ==> q.after_reply(
            reply,
        ) == q,
        q.state.wf() ==> q.after_reply(reply).state.wf(),
{
}

/// The transfer is requested only with a registered modem, and its end is
/// awaited only after the modem acknowledged the request.
pub proof fn lemma_reply_guards(q: UpgradeSequenceView, reply: CommandResultView)
    ensures
        q.state.phase != Phase::TransferRequested && q.after_reply(reply).state.phase
            == Phase::TransferRequested ==> (q.network.registration matches Some(r)
            && r.is_registered()),
        q.state.phase != Phase::AwaitingCompletion && q.after_reply(reply).state.phase
            == Phase::AwaitingCompletion ==> q.state.phase == Phase::TransferRequested
            && reply.success,
{
}

/// One upgrade, from the request to the acknowledgement of the transfer.
pub struct UpgradeSequence {
    state: UpgradeState,
    url: String,
    reset_mode: ResetMode,
    timeout_seconds: i32,
    firmware_version: Option<String>,
    version_number: Option<String>,
    network: NetworkStatus,
    registration_seen: bool,
}

impl View for UpgradeSequence {
    type V = UpgradeSequenceView;

    closed spec fn view(&self) -> UpgradeSequenceView {
        UpgradeSequenceView {
            state: self.state@,
            url: self.url@,
            reset_mode: self.reset_mode,
            timeout_seconds: self.timeout_seconds,
            firmware_version: text_of(self.firmware_version),
            version_number: text_of(self.version_number),
            network: self.network,
            registration_seen: self.registration_seen,
        }
    }
}

impl UpgradeSequence {
    /// What is to be done in the state in which the sequence stands.
    fn next_action(&self) -> (action: Action)
        ensures
            action@ == self@.action(),
    {
        match self.state.phase {
            Phase::VersionCheck => Action::Send {
                command: String::from_str(VERSION_QUERY),
                timeout_ms: COMMAND_TIMEOUT_MS,
            },
            Phase::NetworkCheck => if self.registration_seen {
                Action::Send {
                    command: String::from_str(SIGNAL_QUERY),
                    timeout_ms: COMMAND_TIMEOUT_MS,
                }
            } else {
                Action::Send {
                    command: String::from_str(REGISTRATION_QUERY),
                    timeout_ms: COMMAND_TIMEOUT_MS,
                }
            },
            Phase::TransferRequested => Action::Send {
                command: transfer_command(
                    self.url.as_str(),
                    self.reset_mode,
                    self.timeout_seconds,
                ),
                timeout_ms: TRANSFER_TIMEOUT_MS,
            },
            Phase::AwaitingCompletion => Action::AwaitCompletion,
            _ => Action::Stop,
        }
    }

    /// Begins an upgrade from `url`. A URL of more than 700 characters is
    /// refused: the sequence fails at once and nothing is to be sent.
    /// Otherwise the firmware version is asked for first.
    pub fn start(url: &str, reset_mode: ResetMode, timeout_seconds: i32) -> (r: (
        UpgradeSequence,
        Action,
    ))
        ensures
            r.0@ == UpgradeSequenceView::started(url@, reset_mode, timeout_seconds),
            r.1@ == r.0@.action(),
            r.0@.state.wf(),
    {
        let state = if url.unicode_len() > MAX_URL_LENGTH {
            UpgradeState {
                phase: Phase::Failed,
                result_code: None,
                error_message: Some(
                    String::from_str("URL length exceeds the limit of 700 characters"),
                ),
                error: Some(ErrorKind::Validation),
            }
        } else {
            UpgradeState::at(Phase::VersionCheck)
        };
        let sequence = UpgradeSequence {
            state,
            url: url.to_owned(),
            reset_mode,
            timeout_seconds,
            firmware_version: None,
            version_number: None,
            network: NetworkStatus { registration: None, signal: None },
            registration_seen: false,
        };
        let action = sequence.next_action();
        (sequence, action)
    }

    /// Takes in the result of the command that was sent last, and says what
    /// to do next.
    pub fn on_reply(&mut self, reply: &CommandResult) -> (action: Action)
        ensures
            final(self)@ == old(self)@.after_reply(reply@),
            action@ == final(self)@.action(),
            old(self)@.state.wf() ==> final(self)@.state.wf(),
    {
        match self.state.phase {
            Phase::VersionCheck => {
                let firmware = version_of_reply(reply);
                let number = match &firmware {
                    Some(v) => version_number(v.as_str()),
                    None => None,
                };
                self.state = UpgradeState::at(Phase::NetworkCheck);
                self.firmware_version = firmware;
                self.version_number = number;
                self.registration_seen = false;
            },
            Phase::NetworkCheck => {
                if !self.registration_seen {
                    let status = if reply.success {
                        registration(reply.raw_text.as_str())
                    } else {
                        None
                    };
                    self.network = NetworkStatus { registration: status, signal: self.network.signal };
                    self.registration_seen = true;
                } else {
                    let strength = if reply.success {
                        signal(reply.raw_text.as_str())
                    } else {
                        None
                    };
                    let status = self.network.registration;
                    self.network = NetworkStatus { registration: status, signal: strength };
                    let registered = match &status {
                        Some(r) => r.registered(),
                        None => false,
                    };
                    if registered {
                        self.state = UpgradeState::at(Phase::TransferRequested);
                    } else {
                        let mut message = String::from_str("network not registered: ");
                        match &status {
                            Some(r) => {
                                let words = r.describe();
                                message.append(words.as_str());
                            },
                            None => {
                                assert(message@ + Seq::<char>::empty() =~= message@);
                            },
                        }
                        self.state = UpgradeState {
                            phase: Phase::Failed,
                            result_code: None,
                            error_message: Some(message),
                            error: Some(ErrorKind::NetworkNotRegistered),
                        };
                    }
                }
            },
            Phase::TransferRequested => {
                if reply.success {
                    self.state = UpgradeState::at(Phase::AwaitingCompletion);
                } else {
                    let mut message = String::from_str("transfer request rejected: ");
                    message.append(reply.raw_text.as_str());
                    self.state = UpgradeState {
                        phase: Phase::Failed,
                        result_code: None,
                        error_message: Some(message),
                        error: Some(ErrorKind::TransferRejected),
                    };
                }
            },
            _ => {},
        }
        self.next_action()
    }

    /// The state of the upgrade.
    pub fn state(&self) -> (s: &UpgradeState)
        ensures
            s@ == self@.state,
    {
        &self.state
    }

    /// Gives up the sequence for the state of the upgrade, which `apply` and
    /// `poll` resolve from here on.
    pub fn into_state(self) -> (s: UpgradeState)
        ensures
            s@ == self@.state,
    {
        self.state
    }

    /// The firmware version before the upgrade, where it could be read.
    pub fn firmware_version(&self) -> (v: &Option<String>)
        ensures
            text_of(*v) == self@.firmware_version,
    {
        &self.firmware_version
    }

    /// The numeric suffix of the firmware version, where it has one.
    pub fn version_number(&self) -> (v: &Option<String>)
        ensures
            text_of(*v) == self@.version_number,
    {
        &self.version_number
    }

    /// What the modem told about the network.
    pub fn network(&self) -> (n: NetworkStatus)
        ensures
            n == self@.network,
    {
        self.network
    }
}

} // verus!
