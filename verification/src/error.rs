//! The kinds of failure that device start-up and request handling can meet.

use vstd::prelude::*;

verus! {

/// A failure while the device is being set up. Every one of them is fatal:
/// start-up is abandoned and nothing is retried.
#[derive(Clone, Copy, Debug, PartialEq, Eq, Hash)]
pub enum SetupError {
    /// The radio could not report its hardware address.
    HardwareQuery,
    /// A single-owner resource (storage partition, event loop, radio
    /// peripherals) was already held by someone else.
    ResourceAcquisition,
    /// The provisioning service refused its identifier, its security
    /// parameters, or could not be started.
    ProvisioningConfig,
    /// The network interface rejected a configuration.
    NetworkConfig,
}

/// A failure while one request is being served.
#[derive(Clone, Copy, Debug, PartialEq, Eq, Hash)]
pub enum RequestError {
    /// The wrapped handler, or the writing of a response, failed. The cause
    /// is not looked into.
    RequestHandling,
    /// The lock around the shared cooldown record was poisoned by an earlier
    /// panic.
    LockPoisoned,
}

/// How far the damage of a failure reaches.
#[derive(Clone, Copy, Debug, PartialEq, Eq, Hash)]
pub enum Reach {
    /// Only the connection at hand fails; the process goes on.
    Connection,
    /// The process cannot go on.
    Process,
}

impl SetupError {
    /// A short description for the operator's log.
    pub fn describe(self) -> (text: &'static str)
        ensures
            text@ == match self {
                SetupError::HardwareQuery => "hardware address query failed"@,
                SetupError::ResourceAcquisition => "resource already held"@,
                SetupError::ProvisioningConfig => "provisioning service setup failed"@,
                SetupError::NetworkConfig => "network configuration rejected"@,
            },
    {
        match self {
            SetupError::HardwareQuery => "hardware address query failed",
            SetupError::ResourceAcquisition => "resource already held",
            SetupError::ProvisioningConfig => "provisioning service setup failed",
            SetupError::NetworkConfig => "network configuration rejected",
        }
    }
}

impl RequestError {
    /// A failed handler costs one connection; a poisoned lock costs the
    /// process.
    pub open spec fn spec_reach(self) -> Reach {
        match self {
            RequestError::RequestHandling => Reach::Connection,
            RequestError::LockPoisoned => Reach::Process,
        }
    }

    #[verifier::when_used_as_spec(spec_reach)]
    pub fn reach(self) -> (r: Reach)
        ensures
            r == self.spec_reach(),
    {
        match self {
            RequestError::RequestHandling => Reach::Connection,
            RequestError::LockPoisoned => Reach::Process,
        }
    }

    /// A short description for the operator's log.
    pub fn describe(self) -> (text: &'static str)
        ensures
            text@ == match self {
                RequestError::RequestHandling => "request handling failed"@,
                RequestError::LockPoisoned => "cooldown lock poisoned"@,
            },
    {
        match self {
            RequestError::RequestHandling => "request handling failed",
            RequestError::LockPoisoned => "cooldown lock poisoned",
        }
    }
}

} // verus!
