use modem_fota::engine::{frame_command, CommandResult, Directive, Exchange, COMMAND_TIMEOUT_MS};
use modem_fota::error::ErrorKind;
use modem_fota::notify::Listener;
use modem_fota::parser::{module_info, network_status, Registration, Signal};
use modem_fota::upgrade::{Action, Phase, ResetMode, UpgradeSequence, UpgradeState, WaitStep};
use std::collections::VecDeque;

/// A transport that answers each command with the next prepared reply and
/// hands it out in small pieces.
struct ScriptedTransport {
    replies: VecDeque<Vec<u8>>,
    unread: VecDeque<u8>,
    written: Vec<u8>,
    piece: usize,
}

impl ScriptedTransport {
    fn new(replies: &[&str], piece: usize) -> Self {
        ScriptedTransport {
            replies: replies.iter().map(|r| r.as_bytes().to_vec()).collect(),
            unread: VecDeque::new(),
            written: Vec::new(),
            piece,
        }
    }

    fn write(&mut self, bytes: &[u8]) {
        self.written.extend_from_slice(bytes);
        if let Some(reply) = self.replies.pop_front() {
            self.unread.extend(reply);
        }
    }

    fn read(&mut self) -> Vec<u8> {
        let n = self.piece.min(self.unread.len());
        self.unread.drain(..n).collect()
    }

    fn push_unsolicited(&mut self, text: &str) {
        self.unread.extend(text.as_bytes().iter().copied());
    }
}

/// One command over the scripted transport, driven by the library. Time
/// passes only in the pauses.
fn exchange(transport: &mut ScriptedTransport, command: &str, timeout_ms: u64) -> CommandResult {
    exchange_with_failure(transport, command, timeout_ms).0
}

/// One command, with the failure that the exchange has to report.
fn exchange_with_failure(
    transport: &mut ScriptedTransport,
    command: &str,
    timeout_ms: u64,
) -> (CommandResult, Option<ErrorKind>) {
    transport.write(frame_command(command).as_bytes());
    let mut exchange = Exchange::new(timeout_ms);
    let mut elapsed = 0u64;
    let mut directive = exchange.resume(elapsed, false);
    loop {
        match directive {
            Directive::Read => {
                let bytes = transport.read();
                directive = if bytes.is_empty() {
                    exchange.on_silence()
                } else {
                    exchange.on_data(&bytes, elapsed, false)
                };
            }
            Directive::Pause { millis } => {
                elapsed += millis;
                directive = exchange.resume(elapsed, false);
            }
            Directive::Finish => break,
        }
    }
    (exchange.finish(), exchange.failure())
}

/// Runs a sequence up to the point where nothing more is to be sent.
fn run_sequence(transport: &mut ScriptedTransport, url: &str) -> (UpgradeSequence, Action) {
    let (mut sequence, mut action) = UpgradeSequence::start(url, ResetMode::Manual, 50);
    loop {
        match &action {
            Action::Send { command, timeout_ms } => {
                let result = exchange(transport, command, *timeout_ms);
                action = sequence.on_reply(&result);
            }
            _ => return (sequence, action),
        }
    }
}

/// Waits for the end of the upgrade: reads, feeds the listener, polls.
fn await_completion(
    transport: &mut ScriptedTransport,
    state: &mut UpgradeState,
    max_wait_ms: u64,
) -> WaitStep {
    let mut listener = Listener::new();
    let mut elapsed = 0u64;
    loop {
        let bytes = transport.read();
        for event in listener.feed(&bytes) {
            state.apply(event);
        }
        match state.poll(elapsed, max_wait_ms) {
            WaitStep::Sleep { millis } => elapsed += millis,
            resolved => return resolved,
        }
    }
}

const GOOD_REPLIES: [&str; 4] = [
    "EG800KEULCR07A07M04_01.300.01.300\r\nOK",
    "+CREG: 0,1\r\nOK",
    "+CSQ: 20,99\r\nOK",
    "OK",
];

#[test]
fn probe_succeeds_when_the_reply_is_ok() {
    let mut transport = ScriptedTransport::new(&["OK"], 256);
    let result = exchange(&mut transport, "AT", COMMAND_TIMEOUT_MS);
    assert_eq!(result, CommandResult { success: true, raw_text: "OK".to_string() });
    assert_eq!(transport.written, b"AT\r\n");
}

#[test]
fn probe_fails_when_nothing_comes() {
    let mut transport = ScriptedTransport::new(&[], 256);
    let result = exchange(&mut transport, "AT", COMMAND_TIMEOUT_MS);
    assert_eq!(result, CommandResult { success: false, raw_text: String::new() });
}

#[test]
fn probe_fails_when_the_reply_is_error() {
    let mut transport = ScriptedTransport::new(&["\r\nERROR\r\n"], 3);
    let result = exchange(&mut transport, "AT", COMMAND_TIMEOUT_MS);
    assert_eq!(result, CommandResult { success: false, raw_text: "ERROR".to_string() });
}

#[test]
fn queries_over_the_transport_give_module_and_network_facts() {
    let mut transport = ScriptedTransport::new(
        &[
            "AT+QGMR\r\r\nEG800KEULCR07A07M04_01.300.01.300\r\n\r\nOK\r\n",
            "\r\n861234567890123\r\n\r\nOK\r\n",
            "\r\n+CPIN: READY\r\n\r\nOK\r\n",
            "\r\n+CREG: 0,1\r\n\r\nOK\r\n",
            "\r\n+CSQ: 10,99\r\n\r\nOK\r\n",
        ],
        5,
    );
    let version = exchange(&mut transport, "AT+QGMR", 2000);
    let identifier = exchange(&mut transport, "AT+GSN", 2000);
    let (sim, sim_failure) = exchange_with_failure(&mut transport, "AT+CPIN?", 2000);
    let info = module_info(&version, &identifier, &sim, sim_failure);
    assert_eq!(info.firmware_version, Some("EG800KEULCR07A07M04_01.300.01.300".to_string()));
    assert_eq!(info.version_number, Some("01.300.01.300".to_string()));
    assert_eq!(info.identifier, Some("861234567890123".to_string()));
    assert_eq!(info.sim_status, Some("ready".to_string()));
    let registration = exchange(&mut transport, "AT+CREG?", 2000);
    let signal = exchange(&mut transport, "AT+CSQ", 2000);
    let status = network_status(&registration, &signal);
    assert_eq!(status.registration, Some(Registration::RegisteredHome));
    assert_eq!(status.signal, Some(Signal::Level { rssi: 10, dbm: -93 }));
    assert_eq!(transport.written, b"AT+QGMR\r\nAT+GSN\r\nAT+CPIN?\r\nAT+CREG?\r\nAT+CSQ\r\n");
}

#[test]
fn upgrade_succeeds_end_to_end() {
    let mut replies = vec!["OK"];
    replies.extend(GOOD_REPLIES);
    let mut transport = ScriptedTransport::new(&replies, 7);
    assert!(exchange(&mut transport, "AT", COMMAND_TIMEOUT_MS).success);
    let (sequence, action) = run_sequence(&mut transport, "http://server/fota.bin");
    assert_eq!(action, Action::AwaitCompletion);
    assert_eq!(sequence.state().phase, Phase::AwaitingCompletion);
    assert_eq!(sequence.version_number(), &Some("01.300.01.300".to_string()));
    assert_eq!(
        transport.written,
        b"AT\r\nAT+QGMR\r\nAT+CREG?\r\nAT+CSQ\r\nAT+QFOTADL=\"http://server/fota.bin\",0,50\r\n"
    );
    let version_number = sequence.version_number().clone();
    let mut state = sequence.into_state();
    transport.push_unsolicited(
        "\r\n+QIND: \"FOTA\",\"HTTPSTART\"\r\n\r\n+QIND: \"FOTA\",\"HTTPEND\",0\r\n\r\n+QIND: \"FOTA\",\"UPDATING\",7\r\n\r\n+QIND: \"FOTA\",\"UPDATING\",96\r\n\r\n+QIND: \"FOTA\",\"END\",0\r\n",
    );
    let outcome = await_completion(&mut transport, &mut state, 300_000);
    assert_eq!(outcome, WaitStep::Resolved { success: true, result_code: Some(0) });
    assert_eq!(state.phase, Phase::Succeeded);
    assert_eq!(state.result_code, Some(0));
    assert_eq!(state.error, None);
    assert_eq!(version_number, Some("01.300.01.300".to_string()));
}

#[test]
fn upgrade_times_out_without_a_completion_notification() {
    let mut transport = ScriptedTransport::new(&GOOD_REPLIES, 256);
    let (sequence, action) = run_sequence(&mut transport, "http://server/fota.bin");
    assert_eq!(action, Action::AwaitCompletion);
    let mut state = sequence.into_state();
    transport.push_unsolicited("\r\n+QIND: \"FOTA\",\"UPDATING\",50\r\n");
    let outcome = await_completion(&mut transport, &mut state, 300_000);
    assert_eq!(outcome, WaitStep::Resolved { success: false, result_code: None });
    assert_eq!(state.phase, Phase::TimedOut);
    assert_eq!(state.result_code, None);
    assert_eq!(state.error, Some(ErrorKind::UpgradeTimedOut));
}

#[test]
fn upgrade_fails_with_the_code_of_the_completion_notification() {
    let mut transport = ScriptedTransport::new(&GOOD_REPLIES, 4);
    let (sequence, action) = run_sequence(&mut transport, "http://server/fota.bin");
    assert_eq!(action, Action::AwaitCompletion);
    let mut state = sequence.into_state();
    transport.push_unsolicited("\r\n+QIND: \"FOTA\",\"END\",506\r\n");
    let outcome = await_completion(&mut transport, &mut state, 300_000);
    assert_eq!(outcome, WaitStep::Resolved { success: false, result_code: Some(506) });
    assert_eq!(state.phase, Phase::Failed);
    assert_eq!(state.result_code, Some(506));
    assert_eq!(state.error, Some(ErrorKind::UpgradeFailed { code: 506 }));
}

#[test]
fn oversized_url_sends_no_bytes() {
    let mut transport = ScriptedTransport::new(&GOOD_REPLIES, 256);
    let url = format!("http://server/{}", "x".repeat(687));
    assert_eq!(url.len(), 701);
    let (sequence, action) = run_sequence(&mut transport, &url);
    assert_eq!(action, Action::Stop);
    assert_eq!(sequence.state().phase, Phase::Failed);
    assert_eq!(sequence.state().error, Some(ErrorKind::Validation));
    assert!(transport.written.is_empty());
    assert_eq!(transport.replies.len(), 4);
}

#[test]
fn url_at_the_limit_is_sent() {
    let mut transport = ScriptedTransport::new(&GOOD_REPLIES, 256);
    let url = format!("http://server/{}", "x".repeat(686));
    assert_eq!(url.len(), 700);
    let (sequence, action) = run_sequence(&mut transport, &url);
    assert_eq!(action, Action::AwaitCompletion);
    assert_eq!(sequence.state().phase, Phase::AwaitingCompletion);
    let expected = format!("AT+QGMR\r\nAT+CREG?\r\nAT+CSQ\r\nAT+QFOTADL=\"{}\",0,50\r\n", url);
    assert_eq!(transport.written, expected.as_bytes());
}

#[test]
fn unregistered_modem_never_gets_the_transfer_request() {
    let mut transport = ScriptedTransport::new(
        &["V1\r\nOK", "+CREG: 0,2\r\nOK", "+CSQ: 99,99\r\nOK", "OK"],
        256,
    );
    let (sequence, action) = run_sequence(&mut transport, "http://server/fota.bin");
    assert_eq!(action, Action::Stop);
    assert_eq!(sequence.state().phase, Phase::Failed);
    assert_eq!(sequence.state().error, Some(ErrorKind::NetworkNotRegistered));
    assert_eq!(
        sequence.state().error_message,
        Some("network not registered: searching".to_string())
    );
    assert_eq!(transport.written, b"AT+QGMR\r\nAT+CREG?\r\nAT+CSQ\r\n");
}

#[test]
fn silent_modem_fails_the_sequence_at_the_network_check() {
    let mut transport = ScriptedTransport::new(&[], 256);
    let (sequence, action) = run_sequence(&mut transport, "http://server/fota.bin");
    assert_eq!(action, Action::Stop);
    assert_eq!(sequence.state().phase, Phase::Failed);
    assert_eq!(sequence.state().error, Some(ErrorKind::NetworkNotRegistered));
    assert_eq!(sequence.firmware_version(), &None);
}

#[test]
fn module_info_passes_an_error_status_text_through_as_the_sim_status() {
    let mut transport = ScriptedTransport::new(
        &["\r\nERROR\r\n", "\r\nERROR\r\n", "\r\n+CME ERROR: 10\r\n"],
        256,
    );
    let version = exchange(&mut transport, "AT+QGMR", 2000);
    let identifier = exchange(&mut transport, "AT+GSN", 2000);
    let (sim, sim_failure) = exchange_with_failure(&mut transport, "AT+CPIN?", 2000);
    assert_eq!(sim_failure, None);
    let info = module_info(&version, &identifier, &sim, sim_failure);
    assert_eq!(info.firmware_version, None);
    assert_eq!(info.version_number, None);
    assert_eq!(info.identifier, None);
    assert_eq!(info.sim_status, Some("+CME ERROR: 10".to_string()));
}

#[test]
fn module_info_has_no_sim_status_when_the_modem_is_silent() {
    let mut transport = ScriptedTransport::new(&["V1\r\nOK", "861234567890123\r\nOK"], 256);
    let version = exchange(&mut transport, "AT+QGMR", 2000);
    let identifier = exchange(&mut transport, "AT+GSN", 2000);
    let (sim, sim_failure) = exchange_with_failure(&mut transport, "AT+CPIN?", 2000);
    assert_eq!(sim_failure, Some(ErrorKind::ProtocolTimeout));
    let info = module_info(&version, &identifier, &sim, sim_failure);
    assert_eq!(info.firmware_version, Some("V1".to_string()));
    assert_eq!(info.identifier, Some("861234567890123".to_string()));
    assert_eq!(info.sim_status, None);
}
