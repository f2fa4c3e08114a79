use mesh_node::identity::{channel_from_draw, NodeIdentity};
use mesh_node::link::{
    plan_configuration, plan_configuration_from_scan, wait_step, ApLink, ClientLink, LinkOutcome, LinkStatus, StartupError,
    WaitStep,
};
use mesh_node::selector::{parent_ssid, strongest_index, ApRecord, RadioError, DEFAULT_SSID};

fn rec(ssid: &str, signal_strength: i8, channel: u8) -> ApRecord {
    ApRecord { ssid: ssid.to_string(), signal_strength, channel }
}

#[test]
fn strongest_record_is_elected() {
    let records = vec![rec("A", -70, 3), rec("B", -40, 6)];
    assert_eq!(strongest_index(&records), Some(1));
    assert_eq!(parent_ssid(&records), "B");
}

#[test]
fn strongest_record_anywhere_in_scan() {
    let records = vec![rec("X", -20, 1), rec("Y", -90, 2), rec("Z", -55, 11)];
    assert_eq!(strongest_index(&records), Some(0));
    assert_eq!(parent_ssid(&records), "X");
}

#[test]
fn tie_goes_to_last_of_equally_strong() {
    let records = vec![rec("first", -50, 1), rec("weak", -80, 2), rec("second", -50, 3)];
    assert_eq!(strongest_index(&records), Some(2));
    assert_eq!(parent_ssid(&records), "second");
}

#[test]
fn empty_scan_falls_back_to_default() {
    let records: Vec<ApRecord> = Vec::new();
    assert_eq!(strongest_index(&records), None);
    assert_eq!(parent_ssid(&records), DEFAULT_SSID);
    assert_eq!(DEFAULT_SSID, "FB-WLAN-OG");
}

#[test]
fn extreme_signal_strengths() {
    let records = vec![rec("low", i8::MIN, 0), rec("high", i8::MAX, 12)];
    assert_eq!(parent_ssid(&records), "high");
}

#[test]
fn identity_digits_least_significant_first() {
    let id = NodeIdentity::from_seed(123_456_789);
    assert_eq!(id.suffix(), 123_456_789);
    assert_eq!(id.name(), "esp-m-987654321");
}

#[test]
fn identity_seed_is_reduced() {
    assert_eq!(NodeIdentity::from_seed(999_999_999).name(), "esp-m-000000000");
    let id = NodeIdentity::from_seed(u32::MAX);
    assert_eq!(id.suffix(), 294_967_299);
    assert_eq!(id.name(), "esp-m-992769492");
    assert_eq!(NodeIdentity::from_seed(42).name(), "esp-m-240000000");
}

#[test]
fn identity_has_fixed_length() {
    for seed in [0u32, 7, 1_000, 55_555_555, 4_000_000_000] {
        let name = NodeIdentity::from_seed(seed).name();
        assert_eq!(name.len(), 15);
        assert!(name.starts_with("esp-m-"));
    }
}

#[test]
fn broadcast_ssid_holds_the_name() {
    let id = NodeIdentity::from_seed(123_456_789);
    let ssid = id.broadcast_ssid();
    assert_eq!(ssid.as_str(), "esp-m-987654321");
    assert_eq!(ssid.len(), 15);
    assert_eq!(NodeIdentity::from_seed(0).broadcast_ssid().as_str(), "esp-m-000000000");
}

#[test]
fn channel_is_below_thirteen() {
    assert_eq!(channel_from_draw(0), 0);
    assert_eq!(channel_from_draw(12), 12);
    assert_eq!(channel_from_draw(13), 0);
    assert_eq!(channel_from_draw(27), 1);
    assert_eq!(channel_from_draw(u32::MAX), (u32::MAX % 13) as u8);
    for d in 0u32..200 {
        assert!(channel_from_draw(d) < 13);
    }
}

#[test]
fn scenario_two_networks_connects_to_strongest() {
    let records = vec![rec("A", -70, 3), rec("B", -40, 6)];
    let identity = NodeIdentity::from_seed(123_456_789);
    let config = plan_configuration(&records, &identity, 20);
    assert_eq!(config.client_ssid, "B");
    assert_eq!(config.client_password, "wifi");
    assert_eq!(config.client_channel, 7);
    assert_eq!(config.ap_channel, 7);
    assert_eq!(config.ap_ssid.as_str(), "esp-m-987654321");
    let status = LinkStatus { client: ClientLink::Connected, ap: ApLink::Started };
    assert_eq!(status.classify(), LinkOutcome::ConnectedAndBroadcasting);
    assert_eq!(wait_step(status, 1_000, 20_000), WaitStep::Settled(LinkOutcome::ConnectedAndBroadcasting));
}

#[test]
fn scenario_empty_scan_becomes_root() {
    let records: Vec<ApRecord> = Vec::new();
    let identity = NodeIdentity::from_seed(5);
    let config = plan_configuration(&records, &identity, 3);
    assert_eq!(config.client_ssid, "FB-WLAN-OG");
    assert_eq!(config.ap_ssid.as_str(), "esp-m-500000000");
    assert_eq!(config.ap_channel, 3);
    let status = LinkStatus { client: ClientLink::Idle, ap: ApLink::Started };
    assert_eq!(status.classify(), LinkOutcome::BroadcastingOnly);
    assert_eq!(wait_step(status, 0, 20_000), WaitStep::Settled(LinkOutcome::BroadcastingOnly));
}

#[test]
fn transitional_status_waits_then_times_out() {
    let status = LinkStatus { client: ClientLink::Connecting, ap: ApLink::Started };
    assert!(status.is_transitional());
    assert_eq!(wait_step(status, 19_999, 20_000), WaitStep::KeepWaiting);
    assert_eq!(wait_step(status, 20_000, 20_000), WaitStep::Failed(StartupError::StatusTimeout));
}

#[test]
fn access_point_down_is_unexpected() {
    let status = LinkStatus { client: ClientLink::Connected, ap: ApLink::Idle };
    assert!(!status.is_transitional());
    assert_eq!(status.classify(), LinkOutcome::Unexpected);
    assert_eq!(
        wait_step(status, 0, 20_000),
        WaitStep::Failed(StartupError::UnexpectedStatus(status))
    );
    let idle = LinkStatus { client: ClientLink::Idle, ap: ApLink::Idle };
    assert_eq!(idle.classify(), LinkOutcome::Unexpected);
}

#[test]
fn failed_startup_scan_plans_root() {
    let identity = NodeIdentity::from_seed(9);
    let config = plan_configuration_from_scan(&Err(RadioError), &identity, 14);
    assert_eq!(config.client_ssid, "FB-WLAN-OG");
    assert_eq!(config.ap_ssid.as_str(), "esp-m-900000000");
    assert_eq!(config.client_channel, 1);
    let ok = plan_configuration_from_scan(&Ok(vec![rec("A", -70, 3), rec("B", -40, 6)]), &identity, 0);
    assert_eq!(ok.client_ssid, "B");
}
