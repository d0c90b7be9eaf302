use vstd::prelude::*;

verus! {

/// A port mapping a gateway granted: the external port it opened.
#[derive(Debug, Clone, Copy)]
pub struct UpnpPortMappingLease {
    gateway_external_port: u16,
}

impl UpnpPortMappingLease {
    pub closed spec fn spec_external_port(self) -> u16 {
        self.gateway_external_port
    }

    /// The lease of a mapping whose external port is `port`.
    pub fn new(port: u16) -> (l: UpnpPortMappingLease)
        ensures
            l.spec_external_port() == port,
    {
        UpnpPortMappingLease { gateway_external_port: port }
    }

    /// The external port the gateway opened.
    pub fn gateway_external_port(&self) -> (p: u16)
        ensures
            p == self.spec_external_port(),
    {
        self.gateway_external_port
    }
}

/// What one attempt to open a port mapping (by UPnP IGD or by NAT-PMP) gave.
#[derive(Debug)]
pub enum MappingAttempt {
    /// The gateway mapped the port; this is the external port.
    Mapped(u16),
    /// No gateway answered.
    NoGateway,
    /// The attempt failed; the message says why.
    Failed(String),
}

/// What follows a UPnP IGD attempt: done with its lease, or a NAT-PMP attempt.
#[derive(Debug, Clone, Copy)]
pub enum MappingStep {
    Done(UpnpPortMappingLease),
    TryNatPmp,
}

/// A successful IGD mapping is the lease; anything else falls back to NAT-PMP.
pub fn after_igd(attempt: &MappingAttempt) -> (s: MappingStep)
    ensures
        match attempt {
            MappingAttempt::Mapped(p) => s matches MappingStep::Done(l) && l.spec_external_port() == p,
            _ => s is TryNatPmp,
        },
{
    match attempt {
        MappingAttempt::Mapped(p) => MappingStep::Done(UpnpPortMappingLease::new(*p)),
        _ => MappingStep::TryNatPmp,
    }
}

/// A successful NAT-PMP mapping is the lease; anything else leaves the port unmapped.
pub fn after_nat_pmp(attempt: &MappingAttempt) -> (l: Option<UpnpPortMappingLease>)
    ensures
        match attempt {
            MappingAttempt::Mapped(p) => l matches Some(l) && l.spec_external_port() == p,
            _ => l is None,
        },
{
    match attempt {
        MappingAttempt::Mapped(p) => Some(UpnpPortMappingLease::new(*p)),
        _ => None,
    }
}

/// A NAT-PMP client that reports the gateway `0.0.0.0` found no gateway.
pub fn nat_pmp_gateway_found(gateway: u32) -> (b: bool)
    ensures
        b == (gateway != 0),
{
    gateway != 0
}

} // verus!
