//! Edge records.
use vstd::prelude::*;
use crate::common::{ActivationState, EndpointPkiMode, Integer, ServiceState};
use crate::tinyint::TinyInt;

verus! {

#[derive(Clone, Copy, Debug, PartialEq, Eq, Hash, Structural)]
#[non_exhaustive]
pub enum BastionPromotedState {
    Unconfigured,
    StageRequested,
    UnstageRequested,
    Staged,
    Unstaged,
    PromotionRequested,
    PromotionPending,
    Promoted,
}

#[derive(Clone, Copy, Debug, PartialEq, Eq, Hash, Structural)]
#[non_exhaustive]
pub enum EdgeState {
    NeverActivated,
    Degraded,
    Offline,
    Disabled,
    Expired,
    Connected,
}

#[derive(Clone, Copy, Debug, PartialEq, Eq, Hash, Structural)]
#[non_exhaustive]
pub enum HaState {
    Unconfigured,
    PendingInit,
    PendingConfirmation,
    PendingConfirmed,
    PendingDissociation,
    Ready,
    Failed,
}

/// An edge as the API describes it.
#[derive(Clone, Debug)]
pub struct EdgeObject {
    pub activation_key: String,
    pub activation_key_expires: String,
    pub activation_state: ActivationState,
    pub activation_time: String,
    pub alerts_enabled: TinyInt,
    pub bastion_state: BastionPromotedState,
    pub build_number: String,
    pub created: String,
    pub custom_info: String,
    pub description: String,
    pub device_family: String,
    pub device_id: String,
    pub dns_name: String,
    pub edge_state: EdgeState,
    pub edge_state_time: String,
    pub endpoint_pki_mode: EndpointPkiMode,
    pub enterprise_id: Integer,
    pub factory_software_version: String,
    pub factory_build_number: String,
    pub ha_last_contact: String,
    pub ha_previous_state: HaState,
    pub ha_serial_number: String,
    pub ha_state: HaState,
    pub id: Integer,
    pub is_live: Integer,
    pub last_contact: String,
    pub logical_id: String,
    pub model_number: String,
    pub modified: String,
    pub name: String,
    pub operator_alerts_enabled: TinyInt,
    pub self_mac_address: String,
    pub serial_number: String,
    pub service_state: ServiceState,
    pub service_up_since: String,
    pub site_id: Integer,
    pub software_updated: String,
    pub software_version: String,
    pub system_up_since: String,
}

} // verus!
