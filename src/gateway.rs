//! Gateway records.
use vstd::prelude::*;
use crate::common::{Integer, TcpOrUdp};
use crate::date_time::{DateTime, Interval};
use crate::edge::EdgeObject;
use crate::ipv4::Ipv4Addr;
use crate::network_address::Address;

verus! {

/// A metric that can be asked of a gateway.
#[derive(Clone, Copy, Debug, PartialEq, Eq, Hash, Structural)]
#[non_exhaustive]
pub enum GatewayMetric {
    TunnelCount,
    MemoryPct,
    FlowCount,
    CpuPct,
    HandoffQueueDrops,
    ConnectedEdges,
    TunnelCountV6,
}

/// A set of gateway metrics, each held once, in the order first given.
#[derive(Clone, Debug)]
pub struct GatewayMetrics {
    metrics: Vec<GatewayMetric>,
}

impl View for GatewayMetrics {
    type V = Set<GatewayMetric>;

    closed spec fn view(&self) -> Set<GatewayMetric> {
        self.metrics@.to_set()
    }
}

impl GatewayMetrics {
    /// No metric is held twice.
    pub closed spec fn wf(&self) -> bool {
        self.metrics@.no_duplicates()
    }

    /// The set of the metrics in `items`.
    pub fn from_slice(items: &[GatewayMetric]) -> (r: GatewayMetrics)
        ensures
            r.wf(),
            r@ == items@.to_set(),
    {
        let mut metrics: Vec<GatewayMetric> = Vec::new();
        let mut i: usize = 0;
        while i < items.len()
            invariant
                i <= items@.len(),
                metrics@.no_duplicates(),
                metrics@.to_set() == items@.subrange(0, i as int).to_set(),
            decreases items@.len() - i,
        {
            let m = items[i];
            let ghost before = metrics@;
            if !contains_metric(&metrics, m) {
                metrics.push(m);
                proof {
                    before.lemma_push_to_set_commute(m);
                }
            }
            proof {
                items@.subrange(0, i as int).lemma_push_to_set_commute(m);
                assert(items@.subrange(0, i + 1) =~= items@.subrange(0, i as int).push(m));
                assert(metrics@.to_set() =~= items@.subrange(0, i + 1).to_set());
            }
            i = i + 1;
        }
        assert(items@.subrange(0, items@.len() as int) =~= items@);
        GatewayMetrics { metrics }
    }

    /// Whether the set holds `m`.
    pub fn contains(&self, m: GatewayMetric) -> (r: bool)
        ensures
            r == self@.contains(m),
    {
        contains_metric(&self.metrics, m)
    }

    /// How many metrics the set holds.
    pub fn len(&self) -> (r: usize)
        requires
            self.wf(),
        ensures
            r == self@.len(),
    {
        proof {
            self.metrics@.unique_seq_to_set();
        }
        self.metrics.len()
    }
}

fn contains_metric(v: &Vec<GatewayMetric>, m: GatewayMetric) -> (r: bool)
    ensures
        r == v@.to_set().contains(m),
        r == v@.contains(m),
{
    let mut i: usize = 0;
    while i < v.len()
        invariant
            i <= v@.len(),
            forall|j: int| 0 <= j < i ==> v@[j] != m,
        decreases v@.len() - i,
    {
        if v[i] == m {
            assert(v@[i as int] == m);
            return true;
        }
        i = i + 1;
    }
    false
}

/// The body of a request for gateway status metrics.
#[derive(Clone, Debug)]
pub struct GetGatewayStatusMetrics {
    pub gateway_id: Integer,
    pub interval: Interval,
    pub metrics: GatewayMetrics,
}

#[derive(Clone, Copy, Debug, PartialEq, Eq, Hash, Structural)]
#[non_exhaustive]
pub enum GatewayState {
    NeverActivated,
    Degraded,
    Quiesced,
    Disabled,
    OutOfService,
    Connected,
    Offline,
}

/// A certificate held by a gateway.
#[derive(Clone, Debug)]
pub struct GatewayCertificate {
    pub id: Integer,
    pub created: DateTime,
    pub csr_id: Integer,
    pub gateway_id: Integer,
    pub network_id: Integer,
    pub certificate: String,
    pub serial_number: String,
    pub subject_key_id: String,
    pub finger_print: String,
    pub finger_print_256: String,
    pub valid_from: DateTime,
    pub valid_to: DateTime,
}

#[derive(Clone, Copy, Debug, PartialEq, Eq, Hash, Structural)]
#[non_exhaustive]
pub enum GatewayType {
    Other,
    Super,
    Datacenter,
    Handoff,
    SuperAlt,
    Primary,
    Secondary,
}

/// A subnet handed off by a gateway.
#[derive(Clone, Debug)]
pub struct GatewayHandoffDetailSubnet {
    pub name: String,
    pub route_cost: u8,
    pub cidr_ip: Address<Ipv4Addr>,
    pub cidr_prefix: u8,
    pub encrypt: bool,
    pub hand_off_type: GatewayHandoffDetailSubnetHandoffType,
}

#[derive(Clone, Copy, Debug, PartialEq, Eq, Hash, Structural)]
#[non_exhaustive]
pub enum GatewayHandoffDetailSubnetHandoffType {
    Nat,
    Vlan,
}

#[derive(Clone, Copy, Debug, PartialEq, Eq, Hash, Structural)]
#[non_exhaustive]
pub enum GatewayHandoffType {
    NoHandoff,
    Allow,
    Only,
}

/// The ICMP probe of a handoff.
#[derive(Clone, Debug)]
pub struct GatewayHandoffDetailIcmpProbe {
    pub enabled: bool,
    pub probe_type: Option<String>,
    pub c_tag: Option<Integer>,
    pub s_tag: Option<Integer>,
    pub destination_ip: Option<Address<Ipv4Addr>>,
    pub frequency_seconds: Option<Integer>,
    pub threshold: Option<Integer>,
}

/// The ICMP responder of a handoff.
#[derive(Clone, Debug)]
pub struct GatewayHandoffDetailIcmpResponder {
    pub enabled: bool,
    pub ip_address: Address<Ipv4Addr>,
    pub mode: String,
}

/// The handoff settings of a gateway.
#[derive(Clone, Debug)]
pub struct GatewayHandoffDetail {
    pub typ: Option<String>,
    pub subnets: Vec<GatewayHandoffDetailSubnet>,
    pub icmp_probe: GatewayHandoffDetailIcmpProbe,
    pub icmp_responder: GatewayHandoffDetailIcmpResponder,
}

/// An edge handed off to a gateway.
#[derive(Clone, Debug)]
pub struct GatewayHandoffEdge {
    pub _edge_object: EdgeObject,
    pub edge_id: Integer,
    pub is_primary: Integer,
    pub pinned: Integer,
    pub enterprise_logical_id: String,
    pub enterprise_name: String,
}

#[derive(Clone, Copy, Debug, PartialEq, Eq, Hash, Structural)]
#[non_exhaustive]
pub enum GatewayRoleType {
    DataPlane,
    ControlPlane,
    VpnTunnel,
    OnPremise,
    Cde,
    Cws,
}

/// A role that a gateway plays.
#[derive(Clone, Debug)]
pub struct GatewayRole {
    pub created: DateTime,
    pub gateway_id: Integer,
    pub gateway_role: GatewayRoleType,
    pub required: Integer,
}

#[derive(Clone, Copy, Debug, PartialEq, Eq, Hash, Structural)]
#[non_exhaustive]
pub enum SyslogLocalFacility {
    Local0,
    Local1,
    Local2,
    Local3,
    Local4,
    Local5,
    Local6,
    Local7,
}

#[derive(Clone, Copy, Debug, PartialEq, Eq, Hash, Structural)]
#[non_exhaustive]
pub enum GatewaySyslogCollectorSeverity {
    Info,
}

/// Where a gateway sends its syslog.
#[derive(Clone, Debug)]
pub struct GatewaySyslogCollectorSettings {
    pub host: Option<String>,
    pub port: Option<u16>,
    pub protocol: Option<TcpOrUdp>,
    pub severity: Option<GatewaySyslogCollectorSeverity>,
}

/// The syslog settings of a gateway.
#[derive(Clone, Debug)]
pub struct GatewaySyslogSettings {
    pub tag: String,
    pub facility_code: SyslogLocalFacility,
    pub collectors: Vec<GatewaySyslogCollectorSettings>,
}

/// The IPsec settings of a gateway.
#[derive(Clone, Debug)]
pub struct IpsecGatewayDetail {
    pub enabled: bool,
    pub strict_host_check: bool,
    pub strict_host_check_d_n: Option<String>,
}

} // verus!
