use vstd::prelude::*;
use vstd::string::StringExecFns;
use crate::address::{Address, address_text};
use crate::adapter::{ToolCommand, command_of, lemma_words};

verus! {

/// Audio profile that capture needs on the target's card.
pub const CAPTURE_PROFILE: &'static str = "headset-head-unit";

/// Output file name used when the caller names none.
pub const DEFAULT_RECORDING: &'static str = "recording.wav";

/// Milliseconds between two polls of the recording process.
pub const POLL_INTERVAL_MS: u64 = 100;

/// Why a capture session failed.
#[derive(Clone, Copy, Debug, PartialEq, Eq, Structural)]
pub enum CaptureError {
    /// Setting the audio profile failed; nothing was spawned.
    Profile,
    /// The recording process could not be spawned.
    Spawn,
}

/// Where a capture session stands.
#[derive(Clone, Copy, Debug, PartialEq, Eq, Structural)]
pub enum CaptureOutcome {
    Pending,
    Completed,
    Cancelled,
    Failed(CaptureError),
}

/// What the session asks its driver to do next.
#[derive(Clone, Copy, Debug, PartialEq, Eq, Structural)]
pub enum CaptureAction {
    /// Set the capture profile on the target's card.
    SetProfile,
    /// Spawn the recording process.
    Spawn,
    /// Wait one poll interval, then poll again.
    Wait,
    /// Send the recording process one termination request; the session is over.
    Terminate,
    /// The session is over; nothing is left to do.
    Finish,
}

/// One poll of a recording process: whether it had exited, and whether the
/// cancellation flag was set when it was read.
#[derive(Clone, Copy, Debug, PartialEq, Eq, Structural)]
pub struct PollTick {
    pub exited: bool,
    pub cancel_requested: bool,
}

/// State of one capture session, from profile configuration to its end.
#[derive(Clone, Copy, Debug)]
pub struct CaptureSession {
    pub profile_configured: bool,
    pub spawn_attempts: u64,
    pub child_running: bool,
    pub cancelled: bool,
    pub terminations: u64,
    pub outcome: CaptureOutcome,
}

/// The card that the capture profile is set on: `bluez_card.` and the address
/// with underscores for colons.
pub open spec fn card_name_text(addr: Seq<u8>) -> Seq<char> {
    "bluez_card."@ + address_text(addr, '_')
}

/// The source that is recorded: `bluez_input.`, the address with underscores for
/// colons, and `.0`.
pub open spec fn source_name_text(addr: Seq<u8>) -> Seq<char> {
    "bluez_input."@ + address_text(addr, '_') + ".0"@
}

/// Name of the audio card of the device at `addr`.
pub fn card_name(addr: &Address) -> (r: String)
    ensures
        r@ == card_name_text(addr.octets@),
{
    proof {
        reveal_strlit("_");
    }
    let id = addr.text_with("_");
    String::from_str("bluez_card.").concat(id.as_str())
}

/// Name of the audio source of the device at `addr`.
pub fn source_name(addr: &Address) -> (r: String)
    ensures
        r@ == source_name_text(addr.octets@),
{
    proof {
        reveal_strlit("_");
    }
    let id = addr.text_with("_");
    String::from_str("bluez_input.").concat(id.as_str()).concat(".0")
}

/// The file to record to: the one given, else `recording.wav`.
pub fn recording_file(name: Option<String>) -> (r: String)
    ensures
        name matches Some(n) ==> r@ == n@,
        name is None ==> r@ == DEFAULT_RECORDING@,
{
    match name {
        Some(n) => n,
        None => String::from_str(DEFAULT_RECORDING),
    }
}

/// `pactl set-card-profile <card> headset-head-unit` for the target's card.
pub fn profile_command(target: &Address) -> (r: ToolCommand)
    ensures
        r.words() == seq!["pactl"@, "set-card-profile"@, card_name_text(target.octets@),
            CAPTURE_PROFILE@],
{
    let card = card_name(target);
    let c = card.as_str();
    let r = command_of("pactl", &["set-card-profile", c, CAPTURE_PROFILE]);
    proof {
        lemma_words(r, "pactl", seq!["set-card-profile", c, CAPTURE_PROFILE]);
        assert(crate::adapter::words_of("pactl", seq!["set-card-profile", c, CAPTURE_PROFILE])
            =~= seq!["pactl"@, "set-card-profile"@, c@, CAPTURE_PROFILE@]);
    }
    r
}

/// `parecord -d <source> <file>`: records the target's source into `file`.
pub fn record_command(target: &Address, file: &str) -> (r: ToolCommand)
    ensures
        r.words() == seq!["parecord"@, "-d"@, source_name_text(target.octets@), file@],
{
    let source = source_name(target);
    let src = source.as_str();
    let r = command_of("parecord", &["-d", src, file]);
    proof {
        lemma_words(r, "parecord", seq!["-d", src, file]);
        assert(crate::adapter::words_of("parecord", seq!["-d", src, file]) =~= seq![
            "parecord"@,
            "-d"@,
            src@,
            file@,
        ]);
    }
    r
}

/// A poll that settles the session: the process exited, or stop was requested.
pub open spec fn decisive(t: PollTick) -> bool {
    t.exited || t.cancel_requested
}

/// What supervision makes of a run of polls: the outcome, the number of
/// termination requests, and the number of polls read. The first decisive poll
/// ends it; within it a natural exit wins over the cancellation flag.
pub open spec fn supervision(ticks: Seq<PollTick>) -> (CaptureOutcome, nat, nat)
    decreases ticks.len(),
{
    if ticks.len() == 0 {
        (CaptureOutcome::Pending, 0, 0)
    } else if ticks[0].exited {
        (CaptureOutcome::Completed, 0, 1)
    } else if ticks[0].cancel_requested {
        (CaptureOutcome::Cancelled, 1, 1)
    } else {
        let rest = supervision(ticks.drop_first());
        (rest.0, rest.1, rest.2 + 1)
    }
}

/// A whole session: profile, spawn, then supervision of the polls. Gives the
/// outcome, the spawn attempts, the termination requests and the polls read.
pub open spec fn capture_run(profile_ok: bool, spawn_ok: bool, ticks: Seq<PollTick>) -> (
    CaptureOutcome,
    nat,
    nat,
    nat,
) {
    if !profile_ok {
        (CaptureOutcome::Failed(CaptureError::Profile), 0, 0, 0)
    } else if !spawn_ok {
        (CaptureOutcome::Failed(CaptureError::Spawn), 1, 0, 0)
    } else {
        let s = supervision(ticks);
        (s.0, 1, s.1, s.2)
    }
}

impl CaptureSession {
    /// The session's own invariant: at most one child, spawned only after the
    /// profile was set, and one termination request exactly on cancellation.
    pub open spec fn wf(&self) -> bool {
        &&& self.spawn_attempts <= 1
        &&& self.spawn_attempts == 1 ==> self.profile_configured
        &&& self.child_running ==> self.spawn_attempts == 1 && self.outcome
            == CaptureOutcome::Pending
        &&& self.terminations <= 1
        &&& (self.terminations == 1 <==> self.outcome == CaptureOutcome::Cancelled)
        &&& (self.cancelled <==> self.outcome == CaptureOutcome::Cancelled)
        &&& self.outcome == CaptureOutcome::Failed(CaptureError::Profile) ==> self.spawn_attempts
            == 0
        &&& self.outcome == CaptureOutcome::Pending && self.spawn_attempts == 1
            ==> self.child_running
    }

    /// The session is recording: a child runs and nothing has ended it.
    pub open spec fn is_recording(&self) -> bool {
        self.child_running && self.outcome == CaptureOutcome::Pending
    }

    /// A fresh session, before the profile is set.
    pub fn new() -> (r: CaptureSession)
        ensures
            r.wf(),
            !r.profile_configured,
            r.spawn_attempts == 0,
            !r.child_running,
            !r.cancelled,
            r.terminations == 0,
            r.outcome == CaptureOutcome::Pending,
    {
        CaptureSession {
            profile_configured: false,
            spawn_attempts: 0,
            child_running: false,
            cancelled: false,
            terminations: 0,
            outcome: CaptureOutcome::Pending,
        }
    }

    /// The session is over.
    pub fn is_finished(&self) -> (r: bool)
        ensures
            r == (self.outcome != CaptureOutcome::Pending),
    {
        !matches!(self.outcome, CaptureOutcome::Pending)
    }

    /// Takes the result of setting the profile. Success asks for the spawn; failure
    /// ends the session with a profile error and nothing spawned. Outside the
    /// first stage the result is ignored.
    pub fn on_profile_result(&mut self, ok: bool) -> (action: CaptureAction)
        requires
            old(self).wf(),
        ensures
            final(self).wf(),
            !old(self).profile_configured && old(self).outcome == CaptureOutcome::Pending ==> {
                if ok {
                    &&& final(self).profile_configured
                    &&& action == CaptureAction::Spawn
                    &&& final(self).outcome == CaptureOutcome::Pending
                    &&& final(self).spawn_attempts == 0
                } else {
                    &&& final(self).outcome == CaptureOutcome::Failed(CaptureError::Profile)
                    &&& action == CaptureAction::Finish
                    &&& final(self).spawn_attempts == 0
                }
            },
            old(self).profile_configured || old(self).outcome != CaptureOutcome::Pending
                ==> *final(self) == *old(self) && action == CaptureAction::Finish,
    {
        if self.profile_configured || !matches!(self.outcome, CaptureOutcome::Pending) {
            return CaptureAction::Finish;
        }
        if ok {
            self.profile_configured = true;
            CaptureAction::Spawn
        } else {
            self.outcome = CaptureOutcome::Failed(CaptureError::Profile);
            CaptureAction::Finish
        }
    }

    /// Takes the result of spawning the recording process, which is counted as
    /// one attempt. Success starts recording; failure ends the session with a
    /// spawn error. Unless the profile is set and nothing was spawned yet, the
    /// result is ignored.
    pub fn on_spawn_result(&mut self, ok: bool) -> (action: CaptureAction)
        requires
            old(self).wf(),
        ensures
            final(self).wf(),
            old(self).profile_configured && old(self).spawn_attempts == 0 && old(self).outcome
                == CaptureOutcome::Pending ==> {
                &&& final(self).spawn_attempts == 1
                &&& final(self).profile_configured
                &&& final(self).terminations == 0
                &&& if ok {
                    &&& final(self).is_recording()
                    &&& action == CaptureAction::Wait
                } else {
                    &&& final(self).outcome == CaptureOutcome::Failed(CaptureError::Spawn)
                    &&& !final(self).child_running
                    &&& action == CaptureAction::Finish
                }
            },
            !(old(self).profile_configured && old(self).spawn_attempts == 0 && old(self).outcome
                == CaptureOutcome::Pending) ==> *final(self) == *old(self) && action
                == CaptureAction::Finish,
    {
        if !self.profile_configured || self.spawn_attempts != 0 || !matches!(
            self.outcome,
            CaptureOutcome::Pending,
        ) {
            return CaptureAction::Finish;
        }
        self.spawn_attempts = 1;
        if ok {
            self.child_running = true;
            CaptureAction::Wait
        } else {
            self.outcome = CaptureOutcome::Failed(CaptureError::Spawn);
            CaptureAction::Finish
        }
    }

    /// Takes one poll of a recording session. Natural exit is looked at first and
    /// completes the session with no termination request; otherwise a set
    /// cancellation flag cancels it with exactly one termination request;
    /// otherwise recording goes on. Outside recording the poll is ignored.
    pub fn on_poll(&mut self, tick: PollTick) -> (action: CaptureAction)
        requires
            old(self).wf(),
        ensures
            final(self).wf(),
            final(self).spawn_attempts == old(self).spawn_attempts,
            final(self).profile_configured == old(self).profile_configured,
            old(self).is_recording() ==> {
                if tick.exited {
                    &&& final(self).outcome == CaptureOutcome::Completed
                    &&& final(self).terminations == 0
                    &&& !final(self).child_running
                    &&& action == CaptureAction::Finish
                } else if tick.cancel_requested {
                    &&& final(self).outcome == CaptureOutcome::Cancelled
                    &&& final(self).cancelled
                    &&& final(self).terminations == 1
                    &&& !final(self).child_running
                    &&& action == CaptureAction::Terminate
                } else {
                    &&& *final(self) == *old(self)
                    &&& action == CaptureAction::Wait
                }
            },
            !old(self).is_recording() ==> *final(self) == *old(self) && action
                == CaptureAction::Finish,
    {
        if !(self.child_running && matches!(self.outcome, CaptureOutcome::Pending)) {
            return CaptureAction::Finish;
        }
        if tick.exited {
            self.child_running = false;
            self.outcome = CaptureOutcome::Completed;
            CaptureAction::Finish
        } else if tick.cancel_requested {
            self.child_running = false;
            self.cancelled = true;
            self.terminations = 1;
            self.outcome = CaptureOutcome::Cancelled;
            CaptureAction::Terminate
        } else {
            CaptureAction::Wait
        }
    }
}

/// What a whole capture session came to.
#[derive(Clone, Copy, Debug, PartialEq, Eq, Structural)]
pub struct CaptureReport {
    pub outcome: CaptureOutcome,
    pub spawn_attempts: u64,
    pub terminations: u64,
    pub polls: u64,
}

/// Polls before the first decisive one change nothing: supervision of the whole
/// run is supervision of what follows them, with those polls counted.
proof fn lemma_supervision_skip(ticks: Seq<PollTick>, i: int)
    requires
        0 <= i <= ticks.len(),
        forall|j: int| 0 <= j < i ==> !decisive(#[trigger] ticks[j]),
    ensures
        supervision(ticks) == (
            supervision(ticks.subrange(i, ticks.len() as int)).0,
            supervision(ticks.subrange(i, ticks.len() as int)).1,
            supervision(ticks.subrange(i, ticks.len() as int)).2 + i as nat,
        ),
    decreases i,
{
    if i == 0 {
        assert(ticks.subrange(0, ticks.len() as int) =~= ticks);
    } else {
        assert(!decisive(ticks[0]));
        let rest = ticks.drop_first();
        assert forall|j: int| 0 <= j < i - 1 implies !decisive(#[trigger] rest[j]) by {
            assert(rest[j] == ticks[j + 1]);
        }
        lemma_supervision_skip(rest, i - 1);
        assert(rest.subrange(i - 1, rest.len() as int) =~= ticks.subrange(i, ticks.len() as int));
    }
}

/// Runs a capture session on given results: whether the profile was set,
/// whether the spawn succeeded, and the polls of the recording process in
/// order. Polls that come after the session ended are not read.
pub fn run_capture(profile_ok: bool, spawn_ok: bool, ticks: &Vec<PollTick>) -> (r: CaptureReport)
    ensures
        capture_run(profile_ok, spawn_ok, ticks@) == (
            r.outcome,
            r.spawn_attempts as nat,
            r.terminations as nat,
            r.polls as nat,
        ),
{
    let mut s = CaptureSession::new();
    let a = s.on_profile_result(profile_ok);
    if !matches!(a, CaptureAction::Spawn) {
        return CaptureReport {
            outcome: s.outcome,
            spawn_attempts: s.spawn_attempts,
            terminations: s.terminations,
            polls: 0,
        };
    }
    let a = s.on_spawn_result(spawn_ok);
    if !matches!(a, CaptureAction::Wait) {
        return CaptureReport {
            outcome: s.outcome,
            spawn_attempts: s.spawn_attempts,
            terminations: s.terminations,
            polls: 0,
        };
    }
    let n = ticks.len();
    let mut i: usize = 0;
    while i < n
        invariant
            n == ticks@.len(),
            i <= n,
            profile_ok && spawn_ok,
            s.wf(),
            s.is_recording(),
            s.spawn_attempts == 1,
            s.terminations == 0,
            forall|j: int| 0 <= j < i ==> !decisive(#[trigger] ticks@[j]),
        decreases n - i,
    {
        let t = ticks[i];
        let a = s.on_poll(t);
        if !matches!(a, CaptureAction::Wait) {
            proof {
                lemma_supervision_skip(ticks@, i as int);
                let rest = ticks@.subrange(i as int, n as int);
                assert(rest[0] == t);
                assert(rest.len() > 0);
                assert(decisive(t));
                if t.exited {
                    assert(supervision(rest) == (CaptureOutcome::Completed, 0nat, 1nat));
                } else {
                    assert(supervision(rest) == (CaptureOutcome::Cancelled, 1nat, 1nat));
                }
            }
            return CaptureReport {
                outcome: s.outcome,
                spawn_attempts: s.spawn_attempts,
                terminations: s.terminations,
                polls: (i + 1) as u64,
            };
        }
        i = i + 1;
    }
    proof {
        lemma_supervision_skip(ticks@, n as int);
        assert(ticks@.subrange(n as int, n as int).len() == 0);
    }
    CaptureReport {
        outcome: s.outcome,
        spawn_attempts: s.spawn_attempts,
        terminations: s.terminations,
        polls: n as u64,
    }
}

/// A child that exits before the cancellation flag is ever seen set ends the
/// session as completed, and no termination request is sent.
pub proof fn lemma_natural_exit_completes(ticks: Seq<PollTick>, i: int)
    requires
        0 <= i < ticks.len(),
        ticks[i].exited,
        forall|j: int| 0 <= j <= i ==> !(#[trigger] ticks[j]).cancel_requested,
    ensures
        supervision(ticks).0 == CaptureOutcome::Completed,
        supervision(ticks).1 == 0,
    decreases i,
{
    if !ticks[0].exited {
        let rest = ticks.drop_first();
        assert(!ticks[0].cancel_requested);
        assert forall|j: int| 0 <= j <= i - 1 implies !(#[trigger] rest[j]).cancel_requested by {
            assert(rest[j] == ticks[j + 1]);
        }
        assert(rest[i - 1] == ticks[i]);
        lemma_natural_exit_completes(rest, i - 1);
    }
}

/// A cancellation flag seen set while the child still runs cancels the session
/// with exactly one termination request, no later than the poll that saw it.
pub proof fn lemma_cancel_terminates_once(ticks: Seq<PollTick>, i: int)
    requires
        0 <= i < ticks.len(),
        ticks[i].cancel_requested,
        forall|j: int| 0 <= j <= i ==> !(#[trigger] ticks[j]).exited,
    ensures
        supervision(ticks).0 == CaptureOutcome::Cancelled,
        supervision(ticks).1 == 1,
        1 <= supervision(ticks).2 <= i + 1,
    decreases i,
{
    assert(!ticks[0].exited);
    if !ticks[0].cancel_requested {
        let rest = ticks.drop_first();
        assert forall|j: int| 0 <= j <= i - 1 implies !(#[trigger] rest[j]).exited by {
            assert(rest[j] == ticks[j + 1]);
        }
        assert(rest[i - 1] == ticks[i]);
        lemma_cancel_terminates_once(rest, i - 1);
    }
}

/// A child that exits in the very poll in which the cancellation flag is first
/// seen set counts as completed: the exit is looked at first.
pub proof fn lemma_exit_wins_tie(ticks: Seq<PollTick>, i: int)
    requires
        0 <= i < ticks.len(),
        ticks[i].exited,
        ticks[i].cancel_requested,
        forall|j: int| 0 <= j < i ==> !decisive(#[trigger] ticks[j]),
    ensures
        supervision(ticks).0 == CaptureOutcome::Completed,
        supervision(ticks).1 == 0,
        supervision(ticks).2 == i + 1,
{
    lemma_supervision_skip(ticks, i);
    assert(ticks.subrange(i, ticks.len() as int)[0] == ticks[i]);
}

/// A session whose profile cannot be set fails with a profile error, and
/// nothing is spawned or terminated.
pub proof fn lemma_profile_failure_spawns_nothing(spawn_ok: bool, ticks: Seq<PollTick>)
    ensures
        capture_run(false, spawn_ok, ticks) == (
            CaptureOutcome::Failed(CaptureError::Profile),
            0nat,
            0nat,
            0nat,
        ),
{
}

} // verus!
