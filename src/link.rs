use vstd::prelude::*;
use vstd::utf8::encode_utf8;
use crate::bounded::ssid_bytes;
use crate::identity::{channel_from_draw, identity_name, NodeIdentity, CHANNEL_COUNT};
use crate::selector::{parent_ssid, parent_ssid_of, ApRecord, RadioError};

verus! {

/// Password used when attaching to a parent.
pub const PASS: &'static str = "wifi";

/// Upper bound, in seconds, on the wait for the radio to settle after configuration.
pub const STATUS_TIMEOUT_SECS: u64 = 20;

/// Period, in seconds, of the scan tick.
pub const SCAN_PERIOD_SECS: u64 = 5;

/// Client side of the radio.
#[derive(Copy, Clone, Debug, PartialEq, Eq, Structural)]
pub enum ClientLink {
    Idle,
    Connecting,
    Connected,
}

/// Access-point side of the radio.
#[derive(Copy, Clone, Debug, PartialEq, Eq, Structural)]
pub enum ApLink {
    Idle,
    Started,
}

/// What the radio reports about both of its roles.
#[derive(Copy, Clone, Debug, PartialEq, Eq, Structural)]
pub struct LinkStatus {
    pub client: ClientLink,
    pub ap: ApLink,
}

/// How a settled radio status is read.
#[derive(Copy, Clone, Debug, PartialEq, Eq, Structural)]
pub enum LinkOutcome {
    /// Attached to a parent and broadcasting: normal mesh participation.
    ConnectedAndBroadcasting,
    /// Broadcasting without a parent: an isolated root.
    BroadcastingOnly,
    /// Anything else: a fatal startup error.
    Unexpected,
}

pub open spec fn is_transitional_spec(s: LinkStatus) -> bool {
    s.client == ClientLink::Connecting
}

pub open spec fn outcome_of(s: LinkStatus) -> LinkOutcome {
    if s.client == ClientLink::Connected && s.ap == ApLink::Started {
        LinkOutcome::ConnectedAndBroadcasting
    } else if s.ap == ApLink::Started {
        LinkOutcome::BroadcastingOnly
    } else {
        LinkOutcome::Unexpected
    }
}

impl LinkStatus {
    /// The radio is still on its way to a stable state.
    pub fn is_transitional(&self) -> (r: bool)
        ensures
            r == is_transitional_spec(*self),
    {
        match self.client {
            ClientLink::Connecting => true,
            _ => false,
        }
    }

    /// Reads a status into one of the three outcomes.
    pub fn classify(&self) -> (r: LinkOutcome)
        ensures
            r == outcome_of(*self),
    {
        match (self.client, self.ap) {
            (ClientLink::Connected, ApLink::Started) => LinkOutcome::ConnectedAndBroadcasting,
            (_, ApLink::Started) => LinkOutcome::BroadcastingOnly,
            _ => LinkOutcome::Unexpected,
        }
    }
}

/// Why startup cannot go on.
#[derive(Copy, Clone, Debug, PartialEq, Eq, Structural)]
pub enum StartupError {
    /// The radio did not settle within the timeout.
    StatusTimeout,
    /// The radio settled in a state that is neither of the two accepted ones.
    UnexpectedStatus(LinkStatus),
}

/// One decision of the bounded wait for the radio to settle.
#[derive(Copy, Clone, Debug, PartialEq, Eq, Structural)]
pub enum WaitStep {
    /// Poll the status again later.
    KeepWaiting,
    /// The radio settled in an accepted state.
    Settled(LinkOutcome),
    /// Startup failed.
    Failed(StartupError),
}

/// Decides, from the status just read and the time spent so far, whether the
/// wait goes on, ends well, or ends the startup.
pub fn wait_step(status: LinkStatus, elapsed_ms: u64, timeout_ms: u64) -> (r: WaitStep)
    ensures
        is_transitional_spec(status) && elapsed_ms < timeout_ms ==> r == WaitStep::KeepWaiting,
        is_transitional_spec(status) && elapsed_ms >= timeout_ms
            ==> r == WaitStep::Failed(StartupError::StatusTimeout),
        !is_transitional_spec(status) && outcome_of(status) != LinkOutcome::Unexpected
            ==> r == WaitStep::Settled(outcome_of(status)),
        !is_transitional_spec(status) && outcome_of(status) == LinkOutcome::Unexpected
            ==> r == WaitStep::Failed(StartupError::UnexpectedStatus(status)),
{
    if status.is_transitional() {
        if elapsed_ms < timeout_ms {
            WaitStep::KeepWaiting
        } else {
            WaitStep::Failed(StartupError::StatusTimeout)
        }
    } else {
        match status.classify() {
            LinkOutcome::Unexpected => WaitStep::Failed(StartupError::UnexpectedStatus(status)),
            outcome => WaitStep::Settled(outcome),
        }
    }
}

/// The dual-role radio configuration: a client towards the parent and an
/// access point that broadcasts this node's own identity.
#[derive(Debug)]
pub struct MixedConfig {
    pub client_ssid: String,
    pub client_password: String,
    pub client_channel: u8,
    pub ap_ssid: heapless::String<32>,
    pub ap_channel: u8,
}

/// Builds the configuration from one scan, this node's identity and one random
/// draw for the channel.
pub fn plan_configuration(records: &Vec<ApRecord>, identity: &NodeIdentity, channel_draw: u32)
    -> (r: MixedConfig)
    ensures
        r.client_ssid@ == parent_ssid_of(records@),
        r.client_password@ == PASS@,
        r.client_channel as nat == channel_draw as nat % CHANNEL_COUNT as nat,
        ssid_bytes(r.ap_ssid) == encode_utf8(identity_name(identity.suffix_spec())),
        r.ap_channel == r.client_channel,
{
    let channel = channel_from_draw(channel_draw);
    MixedConfig {
        client_ssid: parent_ssid(records),
        client_password: String::from_str(PASS),
        client_channel: channel,
        ap_ssid: identity.broadcast_ssid(),
        ap_channel: channel,
    }
}

/// Builds the startup configuration from the outcome of the startup scan. A
/// failed scan counts as a scan that saw nothing: the node aims at the
/// default network and comes up as a root.
pub fn plan_configuration_from_scan(
    result: &Result<Vec<ApRecord>, RadioError>,
    identity: &NodeIdentity,
    channel_draw: u32,
) -> (r: MixedConfig)
    ensures
        result matches Ok(records) ==> r.client_ssid@ == parent_ssid_of(records@),
        result is Err ==> r.client_ssid@ == parent_ssid_of(Seq::empty()),
        r.client_password@ == PASS@,
        r.client_channel as nat == channel_draw as nat % CHANNEL_COUNT as nat,
        ssid_bytes(r.ap_ssid) == encode_utf8(identity_name(identity.suffix_spec())),
        r.ap_channel == r.client_channel,
{
    match result {
        Ok(records) => plan_configuration(records, identity, channel_draw),
        Err(_) => {
            let none: Vec<ApRecord> = Vec::new();
            plan_configuration(&none, identity, channel_draw)
        },
    }
}

} // verus!
