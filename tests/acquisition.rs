use bluespy::address::Address;
use bluespy::discovery::{
    acquire, on_race_input, race, AcquireError, DiscoveryEvent, DiscoveryOutcome, RaceInput,
    DISCOVERY_TIMEOUT_SECS,
};
use bluespy::fallback::{classify_fallback_output, classify_pair_streams, fallback_pair_command};
use bluespy::text::contains;

fn target() -> Address {
    Address::new([0xA1, 0xB1, 0xC1, 0xD1, 0xE1, 0xF1])
}

fn other() -> Address {
    Address::new([0x11, 0x22, 0x33, 0x44, 0x55, 0x66])
}

#[test]
fn found_event_at_two_wins() {
    let events = vec![DiscoveryEvent { at: 2, device: target() }];
    let r = race(&target(), 20, &events);
    match r.outcome {
        DiscoveryOutcome::Found(d) => assert_eq!(d, target()),
        DiscoveryOutcome::TimedOut => panic!("timed out"),
    }
    assert_eq!(r.at, 2);
}

#[test]
fn no_events_time_out_at_deadline() {
    let r = race(&target(), 20, &vec![]);
    assert!(matches!(r.outcome, DiscoveryOutcome::TimedOut));
    assert_eq!(r.at, 20);
}

#[test]
fn other_devices_are_passed_over() {
    let events = vec![
        DiscoveryEvent { at: 1, device: other() },
        DiscoveryEvent { at: 5, device: target() },
        DiscoveryEvent { at: 6, device: other() },
    ];
    let r = race(&target(), 20, &events);
    assert!(matches!(r.outcome, DiscoveryOutcome::Found(_)));
    assert_eq!(r.at, 5);
}

#[test]
fn target_after_deadline_times_out() {
    let events = vec![
        DiscoveryEvent { at: 3, device: other() },
        DiscoveryEvent { at: 20, device: target() },
    ];
    let r = race(&target(), DISCOVERY_TIMEOUT_SECS, &events);
    assert!(matches!(r.outcome, DiscoveryOutcome::TimedOut));
    assert_eq!(r.at, 20);
}

#[test]
fn race_steps() {
    assert!(on_race_input(&target(), RaceInput::DeviceAdded(other())).is_none());
    assert!(matches!(
        on_race_input(&target(), RaceInput::DeviceAdded(target())),
        Some(DiscoveryOutcome::Found(_))
    ));
    assert!(matches!(
        on_race_input(&target(), RaceInput::TimerElapsed),
        Some(DiscoveryOutcome::TimedOut)
    ));
}

#[test]
fn timeout_enters_fallback_once() {
    let r = race(&target(), 20, &vec![DiscoveryEvent { at: 4, device: other() }]);
    let ok = acquire(&r.outcome, &target(), true);
    assert_eq!(ok.fallback_attempts, 1);
    let acquired = ok.result.unwrap();
    assert!(acquired.via_fallback);
    assert_eq!(acquired.device, target());
    let bad = acquire(&r.outcome, &target(), false);
    assert_eq!(bad.fallback_attempts, 1);
    assert_eq!(bad.result.unwrap_err(), AcquireError::Unreachable);
}

#[test]
fn found_device_skips_fallback() {
    let r = race(&target(), 20, &vec![DiscoveryEvent { at: 2, device: target() }]);
    let rep = acquire(&r.outcome, &target(), false);
    assert_eq!(rep.fallback_attempts, 0);
    assert!(!rep.result.unwrap().via_fallback);
}

#[test]
fn authentication_failure_is_unreachable() {
    assert!(!classify_fallback_output("pairing failed: status 0x05 (Authentication Failed)"));
}

#[test]
fn fallback_markers_classify() {
    assert!(!classify_fallback_output("failed"));
    assert!(!classify_fallback_output("status 0x05 (Authentication Failed)"));
    assert!(classify_fallback_output(""));
    assert!(classify_fallback_output("paired successfully"));
    assert!(classify_fallback_output("Failed"));
}

#[test]
fn fallback_streams_are_joined() {
    assert!(!classify_pair_streams("Pairing with A1 ", "failed"));
    assert!(!classify_pair_streams("fai", "led"));
    assert!(classify_pair_streams("Paired with A1", ""));
}

#[test]
fn fallback_pair_command_uses_no_io() {
    let c = fallback_pair_command(&target());
    assert_eq!(c.program, "btmgmt");
    assert_eq!(c.args, vec!["pair", "-c", "3", "A1:B1:C1:D1:E1:F1"]);
}

#[test]
fn substring_search_edges() {
    assert!(contains("abc", ""));
    assert!(contains("", ""));
    assert!(!contains("", "a"));
    assert!(contains("xxabc", "abc"));
    assert!(!contains("ab", "abc"));
    assert!(!contains("abxc", "abc"));
}
