//! The service's error taxonomy: every failure a caller can observe, whether
//! from a device command or from lifecycle misuse, as one fault kind with a
//! human-readable message.

use vstd::prelude::*;

verus! {

/// A caller-visible failure. Per-call faults (`InvalidParameter`,
/// `OutOfRange`, `DeviceIOError`) are carried in a fault reply and never
/// terminate the worker; lifecycle faults (`AlreadyRunning`, `NotRunning`,
/// `RegistrationError`, `PublishError`) are reported synchronously to the
/// caller of the lifecycle operation.
#[derive(Clone, Copy, PartialEq, Eq, Structural, Debug)]
pub enum Fault {
    /// A brightness value outside the unit interval was supplied.
    InvalidParameter,
    /// A pixel index at or beyond the device length was supplied.
    OutOfRange,
    /// The transfer to the physical device failed.
    DeviceIOError,
    /// `start` was called while the service was not stopped.
    AlreadyRunning,
    /// `stop` was called while no worker exists.
    NotRunning,
    /// The worker could not register the service name with the endpoint.
    RegistrationError,
    /// The worker could not publish the call handler on the endpoint.
    PublishError,
}

impl Fault {
    /// The human-readable text carried beside the fault kind in a reply.
    pub fn message(&self) -> (m: &'static str)
        ensures
            self is InvalidParameter ==> m@ == "brightness out of range"@,
            self is OutOfRange ==> m@ == "pixel index out of range"@,
            self is DeviceIOError ==> m@ == "transfer to the device failed"@,
            self is AlreadyRunning ==> m@ == "service is already running"@,
            self is NotRunning ==> m@ == "service is not running"@,
            self is RegistrationError ==> m@ == "could not register the service name"@,
            self is PublishError ==> m@ == "could not publish the call handler"@,
    {
        match self {
            Fault::InvalidParameter => "brightness out of range",
            Fault::OutOfRange => "pixel index out of range",
            Fault::DeviceIOError => "transfer to the device failed",
            Fault::AlreadyRunning => "service is already running",
            Fault::NotRunning => "service is not running",
            Fault::RegistrationError => "could not register the service name",
            Fault::PublishError => "could not publish the call handler",
        }
    }
}

} // verus!
