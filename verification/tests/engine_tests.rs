use modem_fota::engine::{
    frame_command, CommandResult, Directive, Exchange, COMMAND_TIMEOUT_MS, POLL_BACKOFF_MS,
};
use modem_fota::error::ErrorKind;

#[test]
fn frame_command_adds_the_line_end() {
    assert_eq!(frame_command("AT"), "AT\r\n");
    assert_eq!(frame_command("AT+QGMR"), "AT+QGMR\r\n");
    assert_eq!(frame_command(""), "\r\n");
    assert_eq!(frame_command("AT+QFOTADL=\"http://h/é\",0,50"), "AT+QFOTADL=\"http://h/é\",0,50\r\n");
}

#[test]
fn the_timings_are_as_documented() {
    assert_eq!(POLL_BACKOFF_MS, 50);
    assert_eq!(COMMAND_TIMEOUT_MS, 2000);
}

#[test]
fn unavailable_transport_is_a_failure() {
    assert_eq!(
        CommandResult::unavailable(),
        CommandResult { success: false, raw_text: "transport not connected".to_string() }
    );
}

#[test]
fn failed_write_is_a_failure_that_holds_the_description() {
    assert_eq!(
        CommandResult::send_failed("broken pipe"),
        CommandResult { success: false, raw_text: "send failed: broken pipe".to_string() }
    );
    assert_eq!(
        CommandResult::send_failed("OK"),
        CommandResult { success: false, raw_text: "send failed: OK".to_string() }
    );
}

#[test]
fn a_new_exchange_reads_first() {
    let e = Exchange::new(2000);
    assert_eq!(e.resume(0, false), Directive::Read);
    assert_eq!(e.resume(1999, false), Directive::Read);
}

#[test]
fn an_exchange_finishes_when_the_time_is_up() {
    let e = Exchange::new(2000);
    assert_eq!(e.resume(2000, false), Directive::Finish);
    assert_eq!(e.resume(u64::MAX, false), Directive::Finish);
    assert_eq!(Exchange::new(0).resume(0, false), Directive::Finish);
}

#[test]
fn an_exchange_finishes_when_asked_to_stop() {
    let mut e = Exchange::new(2000);
    assert_eq!(e.resume(0, true), Directive::Finish);
    assert_eq!(e.on_data(b"+CSQ: ", 10, true), Directive::Finish);
    assert_eq!(e.finish(), CommandResult { success: false, raw_text: "+CSQ:".to_string() });
}

#[test]
fn ok_ends_the_exchange_with_success() {
    let mut e = Exchange::new(2000);
    assert_eq!(e.on_data(b"\r\nOK\r\n", 10, false), Directive::Finish);
    assert_eq!(e.finish(), CommandResult { success: true, raw_text: "OK".to_string() });
    assert_eq!(e.failure(), None);
}

#[test]
fn error_ends_the_exchange_with_failure() {
    let mut e = Exchange::new(2000);
    assert_eq!(e.on_data(b"\r\nERROR\r\n", 10, false), Directive::Finish);
    assert_eq!(e.finish(), CommandResult { success: false, raw_text: "ERROR".to_string() });
    assert_eq!(e.failure(), None);
    let mut c = Exchange::new(2000);
    assert_eq!(c.on_data(b"\r\n+CME ERROR: 10\r\n", 10, false), Directive::Finish);
    assert_eq!(c.finish(), CommandResult { success: false, raw_text: "+CME ERROR: 10".to_string() });
}

#[test]
fn nothing_before_the_timeout_is_a_failure_with_empty_text() {
    let mut e = Exchange::new(100);
    assert_eq!(e.resume(0, false), Directive::Read);
    assert_eq!(e.on_silence(), Directive::Pause { millis: 50 });
    assert_eq!(e.resume(50, false), Directive::Read);
    assert_eq!(e.on_data(b"", 50, false), Directive::Pause { millis: 50 });
    assert_eq!(e.resume(100, false), Directive::Finish);
    assert_eq!(e.finish(), CommandResult { success: false, raw_text: String::new() });
    assert_eq!(e.failure(), Some(ErrorKind::ProtocolTimeout));
}

#[test]
fn text_without_a_final_token_keeps_the_exchange_reading() {
    let mut e = Exchange::new(2000);
    assert_eq!(e.on_data(b"\r\n+CREG: 0,1\r\n", 10, false), Directive::Read);
    assert_eq!(e.on_data(b"\r\nOK\r\n", 20, false), Directive::Finish);
    assert_eq!(e.finish(), CommandResult { success: true, raw_text: "+CREG: 0,1\r\n\r\nOK".to_string() });
}

#[test]
fn text_without_a_final_token_times_out_with_what_came() {
    let mut e = Exchange::new(2000);
    assert_eq!(e.on_data(b"\r\n+CSQ: 20,99\r\n", 2000, false), Directive::Finish);
    assert_eq!(e.finish(), CommandResult { success: false, raw_text: "+CSQ: 20,99".to_string() });
    assert_eq!(e.failure(), Some(ErrorKind::ProtocolTimeout));
}

#[test]
fn a_token_split_over_two_reads_is_found() {
    let mut e = Exchange::new(2000);
    assert_eq!(e.on_data(b"\r\nO", 10, false), Directive::Read);
    assert_eq!(e.on_data(b"K\r\n", 20, false), Directive::Finish);
    assert_eq!(e.finish(), CommandResult { success: true, raw_text: "OK".to_string() });
}

#[test]
fn ok_inside_another_word_does_not_end_the_exchange() {
    let mut e = Exchange::new(2000);
    assert_eq!(e.on_data(b"\r\nNOKIA_BROOK_1.0\r\n", 10, false), Directive::Read);
    assert_eq!(e.finish(), CommandResult { success: false, raw_text: "NOKIA_BROOK_1.0".to_string() });
    assert_eq!(e.on_data(b"\r\nOK\r\n", 20, false), Directive::Finish);
    assert_eq!(
        e.finish(),
        CommandResult { success: true, raw_text: "NOKIA_BROOK_1.0\r\n\r\nOK".to_string() }
    );
}

#[test]
fn ok_that_grows_into_a_longer_word_stops_counting() {
    let mut e = Exchange::new(2000);
    assert_eq!(e.on_data(b"x OK", 10, false), Directive::Finish);
    assert!(e.finish().success);
    let mut f = Exchange::new(2000);
    assert_eq!(f.on_data(b"x O", 10, false), Directive::Read);
    assert_eq!(f.on_data(b"KAY", 20, false), Directive::Read);
    assert!(!f.finish().success);
}

#[test]
fn a_response_with_both_tokens_is_a_success() {
    let mut e = Exchange::new(2000);
    assert_eq!(e.on_data(b"ERROR\r\nOK\r\n", 10, false), Directive::Finish);
    assert_eq!(e.finish(), CommandResult { success: true, raw_text: "ERROR\r\nOK".to_string() });
}

#[test]
fn a_settled_exchange_takes_no_more() {
    let mut e = Exchange::new(2000);
    assert_eq!(e.on_data(b"OK\r\n", 10, false), Directive::Finish);
    assert_eq!(e.on_data(b"ERROR more", 20, false), Directive::Finish);
    assert_eq!(e.on_silence(), Directive::Finish);
    assert_eq!(e.on_fault("late"), Directive::Finish);
    assert_eq!(e.resume(0, false), Directive::Finish);
    assert_eq!(e.finish(), CommandResult { success: true, raw_text: "OK".to_string() });
    assert_eq!(e.failure(), None);
}

#[test]
fn a_failed_read_ends_the_exchange_with_its_description() {
    let mut e = Exchange::new(2000);
    assert_eq!(e.on_data(b"+CSQ: 2", 10, false), Directive::Read);
    assert_eq!(e.on_fault("device unplugged"), Directive::Finish);
    assert_eq!(e.resume(20, false), Directive::Finish);
    assert_eq!(
        e.finish(),
        CommandResult { success: false, raw_text: "receive failed: device unplugged".to_string() }
    );
    assert_eq!(e.failure(), Some(ErrorKind::TransportIo));
}

#[test]
fn a_failed_read_is_a_failure_even_if_its_description_says_ok() {
    let mut e = Exchange::new(2000);
    assert_eq!(e.on_fault("OK"), Directive::Finish);
    assert_eq!(e.finish(), CommandResult { success: false, raw_text: "receive failed: OK".to_string() });
}

#[test]
fn bytes_that_are_not_utf8_are_replaced_not_dropped() {
    let mut e = Exchange::new(2000);
    assert_eq!(e.on_data(&[0xff, b'a', 0xc3], 10, false), Directive::Read);
    assert_eq!(e.on_data(&[0xa9, b' ', b'O', b'K'], 20, false), Directive::Finish);
    assert_eq!(
        e.finish(),
        CommandResult { success: true, raw_text: "\u{fffd}a\u{fffd}\u{fffd} OK".to_string() }
    );
}

#[test]
fn utf8_text_is_decoded() {
    let mut e = Exchange::new(2000);
    assert_eq!(e.on_data("é\r\nOK".as_bytes(), 10, false), Directive::Finish);
    assert_eq!(e.finish(), CommandResult { success: true, raw_text: "é\r\nOK".to_string() });
}

#[test]
fn failures_have_their_kind_in_words() {
    assert_eq!(ErrorKind::TransportUnavailable.describe(), "transport not connected");
    assert_eq!(ErrorKind::TransportIo.describe(), "transport read or write failed");
    assert_eq!(
        ErrorKind::ProtocolTimeout.describe(),
        "no final response within the command timeout"
    );
    assert_eq!(ErrorKind::Validation.describe(), "request refused before sending");
    assert_eq!(ErrorKind::NetworkNotRegistered.describe(), "network not registered");
    assert_eq!(ErrorKind::TransferRejected.describe(), "transfer request not acknowledged");
    assert_eq!(
        ErrorKind::UpgradeFailed { code: 506 }.describe(),
        "upgrade failed with result code 506"
    );
    assert_eq!(
        ErrorKind::UpgradeFailed { code: -7 }.describe(),
        "upgrade failed with result code -7"
    );
    assert_eq!(
        ErrorKind::UpgradeTimedOut.describe(),
        "no completion notification within the maximum wait"
    );
}
