//! The error taxonomy of the controller.
//!
//! Discovery and connection failures during startup abort construction
//! entirely; write failures propagate immediately; the force-retry
//! orchestrator reports exhaustion with the number of attempts made.

use vstd::prelude::*;

verus! {

/// Every failure the controller can report.
#[derive(Clone, Copy, Debug, PartialEq, Eq, Structural)]
pub enum DeskError {
    /// The adapter never reported a usable powered-on state.
    AdapterUnavailable,
    /// The discovery/connection event source stopped emitting.
    ScanTerminated,
    /// Connecting failed and the retry budget is spent; carries the
    /// number of connect attempts made.
    ConnectFailed { attempts: u8 },
    /// A required characteristic was missing after service discovery.
    CharacteristicMissing,
    /// A command write was not accepted by the platform.
    WriteFailed,
    /// The operation's external timeout fired.
    Timeout,
    /// A forced motion command never reached its goal; carries the
    /// number of attempts made.
    RetryExhausted { attempts: u8 },
}

impl DeskError {
    /// The fixed description of the error kind.
    pub open spec fn spec_describe(self) -> Seq<char> {
        match self {
            DeskError::AdapterUnavailable => "no usable bluetooth adapter"@,
            DeskError::ScanTerminated => "the adapter stopped looking for peripherals"@,
            DeskError::ConnectFailed { .. } => "connecting to the desk failed"@,
            DeskError::CharacteristicMissing => "a required characteristic is missing"@,
            DeskError::WriteFailed => "failed to write a command"@,
            DeskError::Timeout => "the operation timed out"@,
            DeskError::RetryExhausted { .. } => "the desk never reached the intended height"@,
        }
    }

    /// A short fixed description of the error kind.
    pub fn describe(&self) -> (r: &'static str)
        ensures
            r@ == self.spec_describe(),
    {
        match self {
            DeskError::AdapterUnavailable => "no usable bluetooth adapter",
            DeskError::ScanTerminated => "the adapter stopped looking for peripherals",
            DeskError::ConnectFailed { .. } => "connecting to the desk failed",
            DeskError::CharacteristicMissing => "a required characteristic is missing",
            DeskError::WriteFailed => "failed to write a command",
            DeskError::Timeout => "the operation timed out",
            DeskError::RetryExhausted { .. } => "the desk never reached the intended height",
        }
    }
}

/// A low-level platform error, carried as its message.
#[derive(Clone, Debug)]
pub struct BluetoothError {
    message: String,
}

impl BluetoothError {
    /// The message the platform reported.
    pub closed spec fn spec_message(self) -> Seq<char> {
        self.message@
    }

    /// Wrap a platform message.
    pub fn new(message: String) -> (r: BluetoothError)
        ensures
            r.spec_message() == message@,
    {
        BluetoothError { message }
    }

    /// The message the platform reported.
    pub fn message(&self) -> (r: &str)
        ensures
            r@ == self.spec_message(),
    {
        self.message.as_str()
    }
}

impl From<String> for BluetoothError {
    fn from(s: String) -> (r: BluetoothError) {
        BluetoothError { message: s }
    }
}

impl vstd::std_specs::convert::FromSpecImpl<String> for BluetoothError {
    open spec fn obeys_from_spec() -> bool {
        true
    }

    closed spec fn from_spec(s: String) -> BluetoothError {
        BluetoothError { message: s }
    }
}

/// Converting a message into a [`BluetoothError`] keeps the message.
pub proof fn lemma_bluetooth_error_from(s: String)
    ensures
        <BluetoothError as vstd::std_specs::convert::FromSpec<String>>::from_spec(
            s,
        ).spec_message() == s@,
{
}

} // verus!
