//! The kinds of failure that the library reports.

use vstd::prelude::*;
use vstd::string::*;
use crate::decimal::{decimal_text, push_decimal};

verus! {

/// Why a command or an upgrade failed.
#[derive(Clone, Copy, Debug, PartialEq, Eq, Structural)]
pub enum ErrorKind {
    /// No transport is connected.
    TransportUnavailable,
    /// Writing to or reading from the transport failed.
    TransportIo,
    /// No final token arrived within the time allowed for the command.
    ProtocolTimeout,
    /// A request was refused before anything was sent.
    Validation,
    /// The modem is not registered with a network.
    NetworkNotRegistered,
    /// The modem did not acknowledge the transfer request.
    TransferRejected,
    /// The upgrade ended with a result code other than 0.
    UpgradeFailed { code: i32 },
    /// No end of the upgrade was reported within the time allowed.
    UpgradeTimedOut,
}

impl ErrorKind {
    /// The kind in words.
    pub open spec fn description(self) -> Seq<char> {
        match self {
            ErrorKind::TransportUnavailable => "transport not connected"@,
            ErrorKind::TransportIo => "transport read or write failed"@,
            ErrorKind::ProtocolTimeout => "no final response within the command timeout"@,
            ErrorKind::Validation => "request refused before sending"@,
            ErrorKind::NetworkNotRegistered => "network not registered"@,
            ErrorKind::TransferRejected => "transfer request not acknowledged"@,
            ErrorKind::UpgradeFailed { code } => "upgrade failed with result code "@
                + decimal_text(code as int),
            ErrorKind::UpgradeTimedOut => "no completion notification within the maximum wait"@,
        }
    }

    /// The kind in words.
    pub fn describe(&self) -> (t: String)
        ensures
            t@ == self.description(),
    {
        match self {
            ErrorKind::TransportUnavailable => String::from_str("transport not connected"),
            ErrorKind::TransportIo => String::from_str("transport read or write failed"),
            ErrorKind::ProtocolTimeout => String::from_str(
                "no final response within the command timeout",
            ),
            ErrorKind::Validation => String::from_str("request refused before sending"),
            ErrorKind::NetworkNotRegistered => String::from_str("network not registered"),
            ErrorKind::TransferRejected => String::from_str("transfer request not acknowledged"),
            ErrorKind::UpgradeFailed { code } => {
                let mut t = String::from_str("upgrade failed with result code ");
                push_decimal(&mut t, *code as i64);
                t
            },
            ErrorKind::UpgradeTimedOut => String::from_str(
                "no completion notification within the maximum wait",
            ),
        }
    }
}

} // verus!
