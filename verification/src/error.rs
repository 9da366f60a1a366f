//! Error values and the status check shared by every operation.

use vstd::prelude::*;

verus! {

/// Status with which the counter subsystem reports success.
pub const PAPI_OK: i32 = 0;

/// Why an argument was turned down.
#[derive(Clone, Copy, Debug, PartialEq, Eq, Structural)]
pub enum Reason {
    /// The facility was initialised without a configuration.
    NoConfiguration,
    /// The configuration holds no preset table.
    NoPresets,
    /// The preset table has no entry of the given name.
    UnknownPreset,
    /// A builder without events was asked for an event set.
    NoEvents,
    /// The sample was never initialised, or carries another fingerprint than
    /// the event set.
    SampleNotInitialized,
    /// A builder cannot be duplicated.
    BuilderNotCloneable,
}

/// What an operation of this library can fail with.
#[derive(Clone, Copy, Debug, PartialEq, Eq, Structural)]
pub enum Error {
    /// The counter subsystem refused a call; the payload is the status it
    /// returned.
    PapiError(i32),
    /// An event name could not be resolved to a code.
    InvalidEvent,
    /// The caller's input was malformed.
    InvalidArgument(Reason),
    /// Every physical counter register is taken.
    OutOfHardwareCounters,
    /// The counter subsystem was built for another version than the caller.
    VersionMismatch,
    /// The counter subsystem could not set up thread support.
    ThreadSupport,
}

/// The verdict on a status: success on `PAPI_OK`, the status itself as a
/// hardware failure otherwise.
pub open spec fn verdict(code: i32) -> Result<(), Error> {
    if code == PAPI_OK {
        Ok(())
    } else {
        Err(Error::PapiError(code))
    }
}

/// Turns a status returned by the counter subsystem into a `Result`.
pub fn check(code: i32) -> (r: Result<(), Error>)
    ensures
        r == verdict(code),
{
    if code == PAPI_OK {
        Ok(())
    } else {
        Err(Error::PapiError(code))
    }
}

impl Reason {
    /// The sentence that explains the reason.
    pub fn text(&self) -> (r: &'static str)
        ensures
            r@ == match *self {
                Reason::NoConfiguration => "No configuration set"@,
                Reason::NoPresets => "No presets configured"@,
                Reason::UnknownPreset => "Preset doesn't exist"@,
                Reason::NoEvents => "Cannot create EventSet without events!"@,
                Reason::SampleNotInitialized => "Sample is not initialized"@,
                Reason::BuilderNotCloneable => "EventSetBuilder cannot be cloned"@,
            },
    {
        match self {
            Reason::NoConfiguration => "No configuration set",
            Reason::NoPresets => "No presets configured",
            Reason::UnknownPreset => "Preset doesn't exist",
            Reason::NoEvents => "Cannot create EventSet without events!",
            Reason::SampleNotInitialized => "Sample is not initialized",
            Reason::BuilderNotCloneable => "EventSetBuilder cannot be cloned",
        }
    }
}

impl Error {
    /// A short description of the kind of failure.
    pub fn description(&self) -> (r: &'static str)
        ensures
            r@ == match *self {
                Error::PapiError(_) => "PAPI command failed"@,
                Error::InvalidEvent => "invalid event name"@,
                Error::InvalidArgument(_) => "invalid argument"@,
                Error::OutOfHardwareCounters => "out of hardware counters"@,
                Error::VersionMismatch => "PAPI library version mismatch!"@,
                Error::ThreadSupport => "Unable to initialize PAPI threads"@,
            },
    {
        match self {
            Error::PapiError(_) => "PAPI command failed",
            Error::InvalidEvent => "invalid event name",
            Error::InvalidArgument(_) => "invalid argument",
            Error::OutOfHardwareCounters => "out of hardware counters",
            Error::VersionMismatch => "PAPI library version mismatch!",
            Error::ThreadSupport => "Unable to initialize PAPI threads",
        }
    }
}

} // verus!
