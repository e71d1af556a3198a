use vstd::prelude::*;
use crate::address::Address;

verus! {

/// Seconds that discovery waits for the target before it gives up.
pub const DISCOVERY_TIMEOUT_SECS: u64 = 20;

/// How a discovery race ended.
#[derive(Clone, Copy, Debug)]
pub enum DiscoveryOutcome {
    /// The target announced itself; the race is over.
    Found(Address),
    /// The deadline passed first.
    TimedOut,
}

/// What the race hears next: a device announced itself, or the timer fired.
#[derive(Clone, Copy, Debug)]
pub enum RaceInput {
    DeviceAdded(Address),
    TimerElapsed,
}

/// A device-added event and the time at which it was delivered.
#[derive(Clone, Copy, Debug)]
pub struct DiscoveryEvent {
    pub at: u64,
    pub device: Address,
}

/// How a race ended and when.
#[derive(Clone, Copy, Debug)]
pub struct RaceResult {
    pub outcome: DiscoveryOutcome,
    pub at: u64,
}

/// Why the target could not be acquired.
#[derive(Clone, Copy, Debug, PartialEq, Eq, Structural)]
pub enum AcquireError {
    /// Discovery timed out and pairing by address alone failed as well.
    Unreachable,
}

/// A device that acquisition reached, and whether that took the fallback.
#[derive(Clone, Copy, Debug)]
pub struct Acquired {
    pub device: Address,
    pub via_fallback: bool,
}

/// Acquisition's result and the number of fallback pairing attempts it made.
#[derive(Clone, Copy, Debug)]
pub struct AcquireReport {
    pub result: Result<Acquired, AcquireError>,
    pub fallback_attempts: u64,
}

/// The event announces the target before the deadline.
pub open spec fn announces(e: DiscoveryEvent, target: Address, deadline: u64) -> bool {
    e.at < deadline && e.device.octets@ == target.octets@
}

/// Delivery times never go back.
pub open spec fn in_time_order(events: Seq<DiscoveryEvent>) -> bool {
    forall|i: int, j: int| 0 <= i <= j < events.len() ==> events[i].at <= events[j].at
}

/// The race over events in delivery order: the first event that announces the
/// target wins; an event at or after the deadline, or the end of the feed,
/// leaves the timer to fire at the deadline.
pub open spec fn race_spec(target: Address, deadline: u64, events: Seq<DiscoveryEvent>) -> (
    DiscoveryOutcome,
    u64,
)
    decreases events.len(),
{
    if events.len() == 0 || events[0].at >= deadline {
        (DiscoveryOutcome::TimedOut, deadline)
    } else if events[0].device.octets@ == target.octets@ {
        (DiscoveryOutcome::Found(events[0].device), events[0].at)
    } else {
        race_spec(target, deadline, events.drop_first())
    }
}

/// Acquisition after a race: a found device is taken as it is; after a timeout
/// one fallback pairing attempt decides, by whether its output read reachable.
pub open spec fn acquisition(outcome: DiscoveryOutcome, target: Address, fallback_reachable: bool) -> (
    Result<Acquired, AcquireError>,
    nat,
) {
    match outcome {
        DiscoveryOutcome::Found(d) => (Ok(Acquired { device: d, via_fallback: false }), 0),
        DiscoveryOutcome::TimedOut => if fallback_reachable {
            (Ok(Acquired { device: target, via_fallback: true }), 1)
        } else {
            (Err(AcquireError::Unreachable), 1)
        },
    }
}

/// One step of the race: the answer once it is decided, `None` while it goes on.
/// A device other than the target is passed over.
pub fn on_race_input(target: &Address, input: RaceInput) -> (r: Option<DiscoveryOutcome>)
    ensures
        input matches RaceInput::TimerElapsed ==> r matches Some(DiscoveryOutcome::TimedOut),
        input matches RaceInput::DeviceAdded(d) ==> if d.octets@ == target.octets@ {
            r == Some(DiscoveryOutcome::Found(d))
        } else {
            r is None
        },
{
    match input {
        RaceInput::TimerElapsed => Some(DiscoveryOutcome::TimedOut),
        RaceInput::DeviceAdded(d) => if d.same_as(target) {
            Some(DiscoveryOutcome::Found(d))
        } else {
            None
        },
    }
}

/// Runs the race for `target` over events in delivery order, against a timer
/// that fires at `deadline`.
pub fn race(target: &Address, deadline: u64, events: &Vec<DiscoveryEvent>) -> (r: RaceResult)
    ensures
        race_spec(*target, deadline, events@) == (r.outcome, r.at),
{
    let n = events.len();
    let mut i: usize = 0;
    assert(events@.subrange(0, n as int) =~= events@);
    while i < n
        invariant
            n == events@.len(),
            i <= n,
            race_spec(*target, deadline, events@) == race_spec(
                *target,
                deadline,
                events@.subrange(i as int, n as int),
            ),
        decreases n - i,
    {
        let e = events[i];
        proof {
            let rest = events@.subrange(i as int, n as int);
            assert(rest[0] == e);
            assert(rest.drop_first() =~= events@.subrange(i + 1, n as int));
        }
        if e.at >= deadline {
            return RaceResult { outcome: DiscoveryOutcome::TimedOut, at: deadline };
        }
        if let Some(outcome) = on_race_input(target, RaceInput::DeviceAdded(e.device)) {
            return RaceResult { outcome, at: e.at };
        }
        i = i + 1;
    }
    proof {
        assert(events@.subrange(n as int, n as int).len() == 0);
    }
    RaceResult { outcome: DiscoveryOutcome::TimedOut, at: deadline }
}

/// Acquires `target` from a race's outcome and, used only after a timeout, the
/// classification of one fallback pairing attempt.
pub fn acquire(outcome: &DiscoveryOutcome, target: &Address, fallback_reachable: bool) -> (r:
    AcquireReport)
    ensures
        acquisition(*outcome, *target, fallback_reachable) == (
            r.result,
            r.fallback_attempts as nat,
        ),
{
    match outcome {
        DiscoveryOutcome::Found(d) => AcquireReport {
            result: Ok(Acquired { device: *d, via_fallback: false }),
            fallback_attempts: 0,
        },
        DiscoveryOutcome::TimedOut => if fallback_reachable {
            AcquireReport {
                result: Ok(Acquired { device: *target, via_fallback: true }),
                fallback_attempts: 1,
            }
        } else {
            AcquireReport { result: Err(AcquireError::Unreachable), fallback_attempts: 1 }
        },
    }
}

/// When an event announces the target before the deadline, the race finds that
/// device, by the time of that event, and does not time out.
pub proof fn lemma_found_before_deadline(
    target: Address,
    deadline: u64,
    events: Seq<DiscoveryEvent>,
    i: int,
)
    requires
        in_time_order(events),
        0 <= i < events.len(),
        announces(events[i], target, deadline),
    ensures
        race_spec(target, deadline, events).0 matches DiscoveryOutcome::Found(d) && d.octets@
            == target.octets@,
        race_spec(target, deadline, events).1 <= events[i].at,
    decreases i,
{
    if i > 0 && !(events[0].device.octets@ == target.octets@) {
        assert(events[0].at <= events[i].at);
        let rest = events.drop_first();
        assert(rest[i - 1] == events[i]);
        assert forall|a: int, b: int| 0 <= a <= b < rest.len() implies rest[a].at <= rest[b].at by {
            assert(rest[a] == events[a + 1] && rest[b] == events[b + 1]);
        }
        lemma_found_before_deadline(target, deadline, rest, i - 1);
    } else if i > 0 {
        assert(events[0].at <= events[i].at);
    }
}

/// When no event announces the target before the deadline, the race times out,
/// at the deadline, and acquisition makes exactly one fallback attempt.
pub proof fn lemma_timeout_enters_fallback_once(
    target: Address,
    deadline: u64,
    events: Seq<DiscoveryEvent>,
    fallback_reachable: bool,
)
    requires
        forall|i: int| 0 <= i < events.len() ==> !announces(#[trigger] events[i], target, deadline),
    ensures
        race_spec(target, deadline, events) == (DiscoveryOutcome::TimedOut, deadline),
        acquisition(race_spec(target, deadline, events).0, target, fallback_reachable).1 == 1,
    decreases events.len(),
{
    if events.len() > 0 && events[0].at < deadline {
        assert(!announces(events[0], target, deadline));
        let rest = events.drop_first();
        assert forall|i: int| 0 <= i < rest.len() implies !announces(
            #[trigger] rest[i],
            target,
            deadline,
        ) by {
            assert(rest[i] == events[i + 1]);
        }
        lemma_timeout_enters_fallback_once(target, deadline, rest, fallback_reachable);
    }
}

/// A device found by discovery is acquired without any fallback attempt.
pub proof fn lemma_found_skips_fallback(d: Address, target: Address, fallback_reachable: bool)
    ensures
        acquisition(DiscoveryOutcome::Found(d), target, fallback_reachable) == (
            Ok::<Acquired, AcquireError>(Acquired { device: d, via_fallback: false }),
            0nat,
        ),
{
}

} // verus!
