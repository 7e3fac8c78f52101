//! States shared by several resource records.
use vstd::prelude::*;

verus! {

/// Service state of an edge or a gateway.
#[derive(Clone, Copy, Debug, PartialEq, Eq, Hash, Structural)]
#[non_exhaustive]
pub enum ServiceState {
    InService,
    OutOfService,
    PendingService,
    Quiesced,
}

/// Activation state of an edge or a gateway.
#[derive(Clone, Copy, Debug, PartialEq, Eq, Hash, Structural)]
#[non_exhaustive]
pub enum ActivationState {
    Unassigned,
    Pending,
    Activated,
    ReactivationPending,
}

/// A transport protocol.
#[derive(Clone, Copy, Debug, PartialEq, Eq, Hash, Structural)]
#[non_exhaustive]
pub enum TcpOrUdp {
    Tcp,
    Udp,
}

/// Bastion state of an enterprise or a gateway.
#[derive(Clone, Copy, Debug, PartialEq, Eq, Hash, Structural)]
#[non_exhaustive]
pub enum BastionState {
    Unconfigured,
    StageRequested,
    UnstageRequested,
    Staged,
    Unstaged,
}

/// Certificate mode of an edge, an enterprise or a gateway.
#[derive(Clone, Copy, Debug, PartialEq, Eq, Hash, Structural)]
#[non_exhaustive]
pub enum EndpointPkiMode {
    CertificateDisabled,
    CertificateOptional,
    CertificateRequired,
}

/// The integer type of the API.
pub type Integer = i32;

} // verus!
