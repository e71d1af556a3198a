use bluespy::address::Address;
use bluespy::capture::{
    profile_command, record_command, recording_file, run_capture, CaptureAction, CaptureError,
    CaptureOutcome, CaptureSession, PollTick,
};
use bluespy::connection::{connect_action, ConnectAction};
use bluespy::playback::{
    check_sink_listed, playback_command, playback_sink, playback_verdict, PlaybackError,
    DEFAULT_SINK, SINK_ERROR,
};

fn quiet(n: usize) -> Vec<PollTick> {
    vec![PollTick { exited: false, cancel_requested: false }; n]
}

#[test]
fn cancel_at_500ms_terminates_once() {
    let mut ticks = quiet(5);
    ticks.push(PollTick { exited: false, cancel_requested: true });
    ticks.push(PollTick { exited: false, cancel_requested: true });
    let r = run_capture(true, true, &ticks);
    assert_eq!(r.outcome, CaptureOutcome::Cancelled);
    assert_eq!(r.terminations, 1);
    assert_eq!(r.polls, 6);
}

#[test]
fn profile_failure_spawns_nothing() {
    let r = run_capture(false, true, &quiet(3));
    assert_eq!(r.outcome, CaptureOutcome::Failed(CaptureError::Profile));
    assert_eq!(r.spawn_attempts, 0);
    assert_eq!(r.terminations, 0);
}

#[test]
fn spawn_failure_ends_session() {
    let r = run_capture(true, false, &quiet(3));
    assert_eq!(r.outcome, CaptureOutcome::Failed(CaptureError::Spawn));
    assert_eq!(r.spawn_attempts, 1);
    assert_eq!(r.terminations, 0);
}

#[test]
fn natural_exit_completes_without_termination() {
    let mut ticks = quiet(3);
    ticks.push(PollTick { exited: true, cancel_requested: false });
    ticks.push(PollTick { exited: false, cancel_requested: true });
    let r = run_capture(true, true, &ticks);
    assert_eq!(r.outcome, CaptureOutcome::Completed);
    assert_eq!(r.terminations, 0);
    assert_eq!(r.polls, 4);
}

#[test]
fn exit_and_cancel_in_one_poll_completes() {
    let mut ticks = quiet(2);
    ticks.push(PollTick { exited: true, cancel_requested: true });
    let r = run_capture(true, true, &ticks);
    assert_eq!(r.outcome, CaptureOutcome::Completed);
    assert_eq!(r.terminations, 0);
}

#[test]
fn quiet_polls_leave_session_recording() {
    let r = run_capture(true, true, &quiet(4));
    assert_eq!(r.outcome, CaptureOutcome::Pending);
    assert_eq!(r.polls, 4);
    assert_eq!(r.terminations, 0);
}

#[test]
fn session_steps_and_ignores_late_events() {
    let mut s = CaptureSession::new();
    assert_eq!(s.on_profile_result(true), CaptureAction::Spawn);
    assert_eq!(s.on_spawn_result(true), CaptureAction::Wait);
    let quiet_tick = PollTick { exited: false, cancel_requested: false };
    assert_eq!(s.on_poll(quiet_tick), CaptureAction::Wait);
    let stop = PollTick { exited: false, cancel_requested: true };
    assert_eq!(s.on_poll(stop), CaptureAction::Terminate);
    assert_eq!(s.on_poll(stop), CaptureAction::Finish);
    assert_eq!(s.terminations, 1);
    assert!(s.cancelled);
    assert!(s.is_finished());
    assert_eq!(s.on_spawn_result(true), CaptureAction::Finish);
    assert_eq!(s.spawn_attempts, 1);
}

#[test]
fn capture_commands() {
    let a = Address::new([0xA1, 0xB1, 0xC1, 0xD1, 0xE1, 0xF1]);
    let p = profile_command(&a);
    assert_eq!(p.program, "pactl");
    assert_eq!(p.args, vec!["set-card-profile", "bluez_card.A1_B1_C1_D1_E1_F1", "headset-head-unit"]);
    let r = record_command(&a, "out.wav");
    assert_eq!(r.program, "parecord");
    assert_eq!(r.args, vec!["-d", "bluez_input.A1_B1_C1_D1_E1_F1.0", "out.wav"]);
    assert_eq!(recording_file(None), "recording.wav");
    assert_eq!(recording_file(Some("x.wav".to_string())), "x.wav");
}

#[test]
fn connection_is_idempotent() {
    assert_eq!(connect_action(true), ConnectAction::Skip);
    assert_eq!(connect_action(false), ConnectAction::Connect);
}

#[test]
fn playback_defaults_and_verdicts() {
    assert_eq!(playback_sink(None), DEFAULT_SINK);
    assert_eq!(playback_sink(Some("sink0".to_string())), "sink0");
    let c = playback_command("sink0", "rec.wav");
    assert_eq!(c.program, "paplay");
    assert_eq!(c.args, vec!["-d", "sink0", "rec.wav"]);
    assert_eq!(playback_verdict(false, false), Err(PlaybackError::NotLaunched));
    assert_eq!(playback_verdict(true, false), Err(PlaybackError::Failed));
    assert_eq!(playback_verdict(true, true), Ok(()));
}

#[test]
fn sink_must_be_listed() {
    let listing = "Card #0\n\tName: alsa_card.pci-0000_00_05.0\n";
    assert_eq!(
        check_sink_listed(listing, "alsa_card.pci-0000_00_05.0").unwrap(),
        "alsa_card.pci-0000_00_05.0"
    );
    assert_eq!(check_sink_listed(listing, "alsa_card.pci-10000000").unwrap_err(), SINK_ERROR);
}
