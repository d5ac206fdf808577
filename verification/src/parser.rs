//! Extraction of facts from the free-form text of responses.
//!
//! A fact that is missing from a response is reported as absent; no response
//! text makes a function of this module fail.

use vstd::prelude::*;
use vstd::string::*;
use crate::decimal::{decimal_field, decimal_text, parse_decimal, push_decimal};
use crate::engine::{CommandResult, CommandResultView};
use crate::error::ErrorKind;
use crate::pattern::{capture_first, find_first, first_capture, first_match, text_of};
use crate::text::{
    after_first_line, chars_of, contains, contains_text, first_line, has_line_feed,
    lemma_line_len, lemma_line_len_bounds, lemma_trim_idempotent, lemma_trimmed_bounds, line_end,
    range_equals, range_starts_with, starts_with, trim_bounds, trimmed,
};

verus! {

/// The expression for the numeric suffix of a version string: four runs of
/// digits separated by dots, at the very end.
pub const VERSION_NUMBER_PATTERN: &'static str = r"(\d+\.\d+\.\d+\.\d+)$";

/// The expression for an equipment identifier: a run of exactly fifteen
/// digits with no digit before or after it. Group 1 is the identifier.
pub const IDENTIFIER_PATTERN: &'static str = r"(?:^|\D)(\d{15})(?:\D|$)";

/// The expression for the registration report, `+CREG: <n>,<code>`. Group 1
/// is the code.
pub const REGISTRATION_PATTERN: &'static str = r"\+CREG:\s*\d+,(\d+)";

/// The expression for the signal report, `+CSQ: <rssi>,<ber>`. Group 1 is the
/// signal strength index.
pub const SIGNAL_PATTERN: &'static str = r"\+CSQ:\s*(\d+),";

/// The signal strength index that stands for "not known or not detectable".
pub const RSSI_UNDETECTABLE: i32 = 99;

/// How the modem stands with the network.
#[derive(Clone, Copy, Debug, PartialEq, Eq, Structural)]
pub enum Registration {
    Unregistered,
    RegisteredHome,
    Searching,
    Denied,
    Unknown,
    RegisteredRoaming,
}

impl Registration {
    /// The status that a registration code stands for. Every integer has
    /// one: a code outside 0..=5 stands for `Unknown`.
    pub open spec fn for_code(code: int) -> Registration {
        if code == 0 {
            Registration::Unregistered
        } else if code == 1 {
            Registration::RegisteredHome
        } else if code == 2 {
            Registration::Searching
        } else if code == 3 {
            Registration::Denied
        } else if code == 5 {
            Registration::RegisteredRoaming
        } else {
            Registration::Unknown
        }
    }

    /// The status that the code field of a registration report stands for.
    /// A field that holds no number stands for `Unknown`.
    pub open spec fn for_field(field: Seq<char>) -> Registration {
        match decimal_field(field) {
            Some(code) => Self::for_code(code),
            None => Registration::Unknown,
        }
    }

    /// The modem is registered, at home or roaming.
    pub open spec fn is_registered(self) -> bool {
        self == Registration::RegisteredHome || self == Registration::RegisteredRoaming
    }

    /// The status in words.
    pub open spec fn description(self) -> Seq<char> {
        match self {
            Registration::Unregistered => "not registered"@,
            Registration::RegisteredHome => "registered (home)"@,
            Registration::Searching => "searching"@,
            Registration::Denied => "registration denied"@,
            Registration::Unknown => "unknown"@,
            Registration::RegisteredRoaming => "registered (roaming)"@,
        }
    }

    /// The status that `code` stands for.
    pub fn from_code(code: i32) -> (r: Registration)
        ensures
            r == Self::for_code(code as int),
    {
        match code {
            0 => Registration::Unregistered,
            1 => Registration::RegisteredHome,
            2 => Registration::Searching,
            3 => Registration::Denied,
            5 => Registration::RegisteredRoaming,
            _ => Registration::Unknown,
        }
    }

    /// The status that the code field of a registration report stands for.
    pub fn from_field(field: &str) -> (r: Registration)
        ensures
            r == Self::for_field(field@),
    {
        match parse_decimal(field) {
            Some(code) => Self::from_code(code),
            None => Registration::Unknown,
        }
    }

    /// Whether the modem is registered, at home or roaming.
    pub fn registered(&self) -> (b: bool)
        ensures
            b == self.is_registered(),
    {
        match self {
            Registration::RegisteredHome => true,
            Registration::RegisteredRoaming => true,
            _ => false,
        }
    }

    /// The status in words.
    pub fn describe(&self) -> (t: String)
        ensures
            t@ == self.description(),
    {
        match self {
            Registration::Unregistered => String::from_str("not registered"),
            Registration::RegisteredHome => String::from_str("registered (home)"),
            Registration::Searching => String::from_str("searching"),
            Registration::Denied => String::from_str("registration denied"),
            Registration::Unknown => String::from_str("unknown"),
            Registration::RegisteredRoaming => String::from_str("registered (roaming)"),
        }
    }
}

/// The strength of the received signal.
#[derive(Clone, Copy, Debug, PartialEq, Eq, Structural)]
pub enum Signal {
    /// The modem reported the index 99: not known or not detectable.
    Undetectable,
    /// The reported index, and the power level in dBm that it stands for.
    Level { rssi: i32, dbm: i64 },
}

impl Signal {
    /// The power level in dBm that the index `rssi` stands for.
    pub open spec fn dbm_of(rssi: int) -> int {
        -113 + 2 * rssi
    }

    /// The signal that the index `rssi` stands for.
    pub open spec fn for_index(rssi: int) -> Signal {
        if rssi == RSSI_UNDETECTABLE {
            Signal::Undetectable
        } else {
            Signal::Level { rssi: rssi as i32, dbm: Self::dbm_of(rssi) as i64 }
        }
    }

    /// The signal that the index field of a signal report stands for. A field
    /// that holds no number stands for `Undetectable`.
    pub open spec fn for_field(field: Seq<char>) -> Signal {
        match decimal_field(field) {
            Some(rssi) => Self::for_index(rssi),
            None => Signal::Undetectable,
        }
    }

    /// A level never holds the index 99, and its power level is the one that
    /// its index stands for.
    pub open spec fn wf(self) -> bool {
        match self {
            Signal::Undetectable => true,
            Signal::Level { rssi, dbm } => rssi != RSSI_UNDETECTABLE && dbm == Self::dbm_of(
                rssi as int,
            ),
        }
    }

    /// The signal in words: `RSSI=<index> (<power>dBm)` for a level.
    pub open spec fn description(self) -> Seq<char> {
        match self {
            Signal::Undetectable => "unknown or undetectable"@,
            Signal::Level { rssi, dbm } => "RSSI="@ + decimal_text(rssi as int) + " ("@
                + decimal_text(dbm as int) + "dBm)"@,
        }
    }

    /// The signal that the index `rssi` stands for.
    pub fn from_index(rssi: i32) -> (s: Signal)
        ensures
            s == Self::for_index(rssi as int),
            s.wf(),
    {
        if rssi == RSSI_UNDETECTABLE {
            Signal::Undetectable
        } else {
            Signal::Level { rssi, dbm: -113 + 2 * (rssi as i64) }
        }
    }

    /// The signal that the index field of a signal report stands for.
    pub fn from_field(field: &str) -> (s: Signal)
        ensures
            s == Self::for_field(field@),
            s.wf(),
    {
        match parse_decimal(field) {
            Some(rssi) => Self::from_index(rssi),
            None => Signal::Undetectable,
        }
    }

    /// The signal in words.
    pub fn describe(&self) -> (t: String)
        ensures
            t@ == self.description(),
    {
        match self {
            Signal::Undetectable => String::from_str("unknown or undetectable"),
            Signal::Level { rssi, dbm } => {
                let mut t = String::from_str("RSSI=");
                push_decimal(&mut t, *rssi as i64);
                t.append(" (");
                push_decimal(&mut t, *dbm);
                t.append("dBm)");
                t
            },
        }
    }
}

/// What the modem told about itself. A fact that no response held is absent.
#[derive(Clone, Debug, PartialEq, Eq)]
pub struct ModuleInfo {
    pub firmware_version: Option<String>,
    pub version_number: Option<String>,
    pub identifier: Option<String>,
    pub sim_status: Option<String>,
}

/// A `ModuleInfo` as a mathematical value.
pub struct ModuleInfoView {
    pub firmware_version: Option<Seq<char>>,
    pub version_number: Option<Seq<char>>,
    pub identifier: Option<Seq<char>>,
    pub sim_status: Option<Seq<char>>,
}

impl View for ModuleInfo {
    type V = ModuleInfoView;

    open spec fn view(&self) -> ModuleInfoView {
        ModuleInfoView {
            firmware_version: text_of(self.firmware_version),
            version_number: text_of(self.version_number),
            identifier: text_of(self.identifier),
            sim_status: text_of(self.sim_status),
        }
    }
}

/// What the modem told about the network. A fact that no response held is
/// absent.
#[derive(Clone, Copy, Debug, PartialEq, Eq, Structural)]
pub struct NetworkStatus {
    pub registration: Option<Registration>,
    pub signal: Option<Signal>,
}

/// A line can be the firmware version: it is not empty, it is not the echo
/// of a command (which begins with `AT`), and it is not the final `OK`.
pub open spec fn is_version_line(line: Seq<char>) -> bool {
    &&& line.len() > 0
    &&& !starts_with(line, "AT"@)
    &&& line != "OK"@
}

/// The firmware version in the response to the version query: the first
/// line that, once trimmed, can be one.
pub open spec fn version_line(text: Seq<char>) -> Option<Seq<char>>
    decreases text.len(),
{
    let line = trimmed(first_line(text));
    if is_version_line(line) {
        Some(line)
    } else if has_line_feed(text) {
        version_line(after_first_line(text))
    } else {
        None
    }
}

/// The SIM status in the response to the SIM query: `ready` where the
/// response holds `READY`, and the response itself where it does not.
pub open spec fn sim_status_of(text: Seq<char>) -> Seq<char> {
    if contains(text, "READY"@) {
        "ready"@
    } else {
        text
    }
}

/// The registration status that a captured code field stands for.
pub open spec fn registration_of(field: Option<Seq<char>>) -> Option<Registration> {
    match field {
        Some(f) => Some(Registration::for_field(f)),
        None => None,
    }
}

/// The signal that a captured index field stands for.
pub open spec fn signal_of(field: Option<Seq<char>>) -> Option<Signal> {
    match field {
        Some(f) => Some(Signal::for_field(f)),
        None => None,
    }
}

/// The firmware version that the response to the version query gives: the
/// version line of its text where the modem acknowledged the query, and
/// nothing where it did not.
pub open spec fn version_of(reply: CommandResultView) -> Option<Seq<char>> {
    if reply.success {
        version_line(reply.raw_text)
    } else {
        None
    }
}

/// The facts in the responses to the version, identifier and SIM queries.
/// The version and the identifier are read from acknowledged responses only.
/// The SIM status is there whenever the modem answered the SIM query, with
/// `READY` or with an error status text: it is absent only where the
/// exchange had a failure to report (`sim_failure`), that is where no
/// complete answer was had.
pub open spec fn module_info_of(
    version: CommandResultView,
    identifier: CommandResultView,
    sim: CommandResultView,
    sim_failure: Option<ErrorKind>,
) -> ModuleInfoView {
    let firmware = version_of(version);
    ModuleInfoView {
        firmware_version: firmware,
        version_number: match firmware {
            Some(v) => first_match(VERSION_NUMBER_PATTERN@, v),
            None => None,
        },
        identifier: if identifier.success {
            first_capture(IDENTIFIER_PATTERN@, identifier.raw_text, 1)
        } else {
            None
        },
        sim_status: if sim_failure is None {
            Some(sim_status_of(sim.raw_text))
        } else {
            None
        },
    }
}

/// The facts in the responses to the registration and signal queries. A
/// response that was not acknowledged gives no fact.
pub open spec fn network_status_of(
    registration: CommandResultView,
    signal: CommandResultView,
) -> NetworkStatus {
    NetworkStatus {
        registration: if registration.success {
            registration_of(first_capture(REGISTRATION_PATTERN@, registration.raw_text, 1))
        } else {
            None
        },
        signal: if signal.success {
            signal_of(first_capture(SIGNAL_PATTERN@, signal.raw_text, 1))
        } else {
            None
        },
    }
}

/// Reading the firmware version is idempotent: a version that was read from
/// a response reads as itself.
pub proof fn lemma_version_line_idempotent(text: Seq<char>)
    ensures
        version_line(text) matches Some(version) ==> version_line(version) == Some(version),
    decreases text.len(),
{
    let line = trimmed(first_line(text));
    if is_version_line(line) {
        lemma_line_len_bounds(text);
        lemma_trimmed_bounds(first_line(text));
        lemma_line_len(line, line.len() as int);
        assert(first_line(line) =~= line);
        lemma_trim_idempotent(first_line(text));
    } else if has_line_feed(text) {
        lemma_version_line_idempotent(after_first_line(text));
    }
}

/// Every integer is a registration code with a status of its own: the codes
/// 0 to 5 stand for the six statuses, and every other integer stands for
/// `Unknown`.
pub proof fn lemma_registration_total(code: int)
    ensures
        code == 0 ==> Registration::for_code(code) == Registration::Unregistered,
        code == 1 ==> Registration::for_code(code) == Registration::RegisteredHome,
        code == 2 ==> Registration::for_code(code) == Registration::Searching,
        code == 3 ==> Registration::for_code(code) == Registration::Denied,
        code == 4 ==> Registration::for_code(code) == Registration::Unknown,
        code == 5 ==> Registration::for_code(code) == Registration::RegisteredRoaming,
        code < 0 || code > 5 ==> Registration::for_code(code) == Registration::Unknown,
{
}

/// Every signal that an index field stands for is well formed: the index 99
/// is never a level, and the power level of a level is `-113 + 2 * rssi`.
pub proof fn lemma_signal_wf(field: Seq<char>)
    ensures
        Signal::for_field(field).wf(),
        match decimal_field(field) {
            Some(rssi) => Signal::for_field(field) == if rssi == 99 {
                Signal::Undetectable
            } else {
                Signal::Level { rssi: rssi as i32, dbm: (-113 + 2 * rssi) as i64 }
            },
            None => Signal::for_field(field) == Signal::Undetectable,
        },
{
}

/// The firmware version in `text`, the response to the version query.
pub fn firmware_version(text: &str) -> (version: Option<String>)
    ensures
        text_of(version) == version_line(text@),
{
    let v = chars_of(text);
    let echo = chars_of("AT");
    let ok = chars_of("OK");
    let mut from: usize = 0;
    assert(v@.skip(0) =~= v@);
    loop
        invariant
            from <= v.len(),
            v@ == text@,
            echo@ == "AT"@,
            ok@ == "OK"@,
            version_line(text@) == version_line(v@.skip(from as int)),
        decreases v.len() - from,
    {
        let ghost rest = v@.skip(from as int);
        let end = line_end(&v, from);
        let (a, b) = trim_bounds(&v, from, end);
        proof {
            assert(first_line(rest) =~= v@.subrange(from as int, end as int));
        }
        if b > a && !range_starts_with(&v, a, b, &echo) && !range_equals(&v, a, b, &ok) {
            return Some(text.substring_char(a, b).to_owned());
        }
        if end == v.len() {
            return None;
        }
        proof {
            assert(after_first_line(rest) =~= v@.skip(end + 1));
        }
        from = end + 1;
    }
}

/// The numeric suffix of the version string `version`, where it has one.
pub fn version_number(version: &str) -> (number: Option<String>)
    ensures
        text_of(number) == first_match(VERSION_NUMBER_PATTERN@, version@),
{
    find_first(VERSION_NUMBER_PATTERN, version)
}

/// The equipment identifier in `text`, the response to the identifier query.
pub fn identifier(text: &str) -> (found: Option<String>)
    ensures
        text_of(found) == first_capture(IDENTIFIER_PATTERN@, text@, 1),
{
    capture_first(IDENTIFIER_PATTERN, text, 1)
}

/// The SIM status in `text`, the response to the SIM query.
pub fn sim_status(text: &str) -> (status: String)
    ensures
        status@ == sim_status_of(text@),
{
    if contains_text(text, "READY") {
        String::from_str("ready")
    } else {
        text.to_owned()
    }
}

/// The registration status in `text`, the response to the registration query.
pub fn registration(text: &str) -> (status: Option<Registration>)
    ensures
        status == registration_of(first_capture(REGISTRATION_PATTERN@, text@, 1)),
{
    match capture_first(REGISTRATION_PATTERN, text, 1) {
        Some(field) => Some(Registration::from_field(field.as_str())),
        None => None,
    }
}

/// The signal strength in `text`, the response to the signal query.
pub fn signal(text: &str) -> (strength: Option<Signal>)
    ensures
        strength == signal_of(first_capture(SIGNAL_PATTERN@, text@, 1)),
        strength matches Some(s) ==> s.wf(),
{
    match capture_first(SIGNAL_PATTERN, text, 1) {
        Some(field) => Some(Signal::from_field(field.as_str())),
        None => None,
    }
}

/// The firmware version that `reply`, the result of the version query,
/// gives.
pub fn version_of_reply(reply: &CommandResult) -> (version: Option<String>)
    ensures
        text_of(version) == version_of(reply@),
{
    if reply.success {
        firmware_version(reply.raw_text.as_str())
    } else {
        None
    }
}

/// The facts in the responses to the version, identifier and SIM queries.
/// `sim_failure` is the failure of the exchange of the SIM query, as
/// `Exchange::failure` reports it, or the reason why the query could not be
/// sent; `None` says that the modem answered.
pub fn module_info(
    version: &CommandResult,
    identifier_reply: &CommandResult,
    sim: &CommandResult,
    sim_failure: Option<ErrorKind>,
) -> (info: ModuleInfo)
    ensures
        info@ == module_info_of(version@, identifier_reply@, sim@, sim_failure),
{
    let firmware = version_of_reply(version);
    let number = match &firmware {
        Some(v) => version_number(v.as_str()),
        None => None,
    };
    let id = if identifier_reply.success {
        identifier(identifier_reply.raw_text.as_str())
    } else {
        None
    };
    let status = match sim_failure {
        None => Some(sim_status(sim.raw_text.as_str())),
        Some(_) => None,
    };
    ModuleInfo { firmware_version: firmware, version_number: number, identifier: id, sim_status: status }
}

/// The facts in the responses to the registration and signal queries.
pub fn network_status(registration_reply: &CommandResult, signal_reply: &CommandResult) -> (status:
    NetworkStatus)
    ensures
        status == network_status_of(registration_reply@, signal_reply@),
        status.signal matches Some(s) ==> s.wf(),
{
    let reg = if registration_reply.success {
        registration(registration_reply.raw_text.as_str())
    } else {
        None
    };
    let sig = if signal_reply.success {
        signal(signal_reply.raw_text.as_str())
    } else {
        None
    };
    NetworkStatus { registration: reg, signal: sig }
}

} // verus!
