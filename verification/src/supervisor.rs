//! Backend readiness supervisor.
//!
//! After the backend process is spawned, it is probed with plain GET requests
//! until its HTTP stack answers. A probe either yields a status code or finds
//! the backend unreachable. Only unreachable probes count against the attempt
//! cap; a reachable backend that answers with a non-ready status is probed
//! again without spending an attempt. The caller performs the actual probes
//! and feeds each result into [`Supervisor::step`].

use vstd::prelude::*;

verus! {

/// Number of unreachable probes after which startup is abandoned.
pub const MAX_PROBE_ATTEMPTS: u32 = 10;

/// Seconds to wait after spawning the backend before the first probe.
pub const STARTUP_GRACE_SECONDS: u64 = 1;

/// Seconds to wait after an unreachable probe before the next one.
pub const PROBE_RETRY_DELAY_SECONDS: u64 = 2;

/// The outcome of one readiness probe against the backend's root URL.
#[derive(Clone, Copy)]
pub enum ProbeResult {
    /// The backend answered with this HTTP status code.
    Status(u16),
    /// No HTTP response: connection refused, reset, or timed out.
    Unreachable,
}

/// What the caller must do after reporting one probe result.
#[derive(Clone, Copy, PartialEq, Eq, Structural, Debug)]
pub enum ProbeStep {
    /// The backend is ready; startup succeeds and probing stops.
    Ready,
    /// The backend answered but is not ready yet; probe again at once.
    ProbeAgain,
    /// The backend was unreachable; wait the retry delay, then probe again.
    RetryAfterDelay,
    /// The attempt cap is exhausted; startup has failed.
    GiveUp,
}

/// How a whole startup sequence ends.
#[derive(Clone, Copy, PartialEq, Eq, Structural, Debug)]
pub enum StartupOutcome {
    /// A probe saw a ready status before the attempt cap was spent.
    Ready,
    /// The attempt cap was spent on unreachable probes.
    Failed,
    /// The given probe results ran out before either of the above.
    Pending,
}

/// A status code that counts as "backend ready": any success (2xx) or 404,
/// both of which show a live HTTP stack even if the route is missing.
pub open spec fn is_ready_status(s: u16) -> bool {
    (200 <= s < 300) || s == 404
}

/// Executable form of [`is_ready_status`].
pub fn status_is_ready(s: u16) -> (r: bool)
    ensures
        r == is_ready_status(s),
{
    (200 <= s && s < 300) || s == 404
}

/// The outcome of running the supervisor over a sequence of probe results,
/// starting with `attempts` unreachable probes already counted.
pub open spec fn startup_outcome(events: Seq<ProbeResult>, attempts: nat) -> StartupOutcome
    decreases events.len(),
{
    if attempts >= MAX_PROBE_ATTEMPTS {
        StartupOutcome::Failed
    } else if events.len() == 0 {
        StartupOutcome::Pending
    } else {
        match events[0] {
            ProbeResult::Status(s) => if is_ready_status(s) {
                StartupOutcome::Ready
            } else {
                startup_outcome(events.skip(1), attempts)
            },
            ProbeResult::Unreachable => startup_outcome(events.skip(1), (attempts + 1) as nat),
        }
    }
}

/// A probe result that shows the backend ready: a 2xx or 404 status.
pub open spec fn is_ready_event(e: ProbeResult) -> bool {
    match e {
        ProbeResult::Status(s) => is_ready_status(s),
        ProbeResult::Unreachable => false,
    }
}

/// How many probes in `events` found the backend unreachable.
pub open spec fn unreachable_count(events: Seq<ProbeResult>) -> nat
    decreases events.len(),
{
    if events.len() == 0 {
        0
    } else {
        (match events[0] {
            ProbeResult::Unreachable => 1 as nat,
            ProbeResult::Status(_) => 0 as nat,
        }) + unreachable_count(events.skip(1))
    }
}

proof fn lemma_startup_ready_from(events: Seq<ProbeResult>, k: int, attempts: nat)
    requires
        0 <= k < events.len(),
        is_ready_event(events[k]),
        forall|j: int| 0 <= j < k ==> !is_ready_event(#[trigger] events[j]),
        attempts + unreachable_count(events.take(k)) < MAX_PROBE_ATTEMPTS,
    ensures
        startup_outcome(events, attempts) == StartupOutcome::Ready,
    decreases k,
{
    if k == 0 {
        assert(events.take(0).len() == 0);
    } else {
        let rest = events.skip(1);
        assert(events.take(k)[0] == events[0]);
        assert(events.take(k).skip(1) =~= rest.take(k - 1));
        assert(rest[k - 1] == events[k]);
        assert forall|j: int| 0 <= j < k - 1 implies !is_ready_event(#[trigger] rest[j]) by {
            assert(rest[j] == events[j + 1]);
        }
        match events[0] {
            ProbeResult::Status(s) => {
                assert(!is_ready_status(s));
                lemma_startup_ready_from(rest, k - 1, attempts);
            },
            ProbeResult::Unreachable => {
                lemma_startup_ready_from(rest, k - 1, (attempts + 1) as nat);
            },
        }
    }
}

/// Law (readiness gate, success half): if some probe sees a ready status, no
/// earlier probe did, and fewer unreachable probes than the attempt cap come
/// before it, the startup sequence ends ready.
pub proof fn lemma_startup_succeeds(events: Seq<ProbeResult>, k: int)
    requires
        0 <= k < events.len(),
        is_ready_event(events[k]),
        forall|j: int| 0 <= j < k ==> !is_ready_event(#[trigger] events[j]),
        unreachable_count(events.take(k)) < MAX_PROBE_ATTEMPTS,
    ensures
        startup_outcome(events, 0) == StartupOutcome::Ready,
{
    lemma_startup_ready_from(events, k, 0);
}

proof fn lemma_startup_fails_from(events: Seq<ProbeResult>, attempts: nat)
    requires
        events.len() + attempts >= MAX_PROBE_ATTEMPTS,
        forall|j: int|
            0 <= j < MAX_PROBE_ATTEMPTS - attempts ==> #[trigger] events[j] is Unreachable,
    ensures
        startup_outcome(events, attempts) == StartupOutcome::Failed,
    decreases MAX_PROBE_ATTEMPTS - attempts,
{
    if attempts >= MAX_PROBE_ATTEMPTS {
    } else {
        let rest = events.skip(1);
        assert(events[0] is Unreachable);
        assert forall|j: int|
            0 <= j < MAX_PROBE_ATTEMPTS - (attempts + 1) implies #[trigger] rest[j]
            is Unreachable by {
            assert(rest[j] == events[j + 1]);
        }
        lemma_startup_fails_from(rest, (attempts + 1) as nat);
    }
}

/// Law (readiness gate, failure half): if the backend is unreachable for the
/// whole attempt cap, startup fails, whatever the later probes would see.
pub proof fn lemma_startup_fails(events: Seq<ProbeResult>)
    requires
        events.len() >= MAX_PROBE_ATTEMPTS,
        forall|j: int|
            0 <= j < MAX_PROBE_ATTEMPTS ==> #[trigger] events[j] is Unreachable,
    ensures
        startup_outcome(events, 0) == StartupOutcome::Failed,
{
    lemma_startup_fails_from(events, 0);
}

/// The startup gate: counts unreachable probes against the attempt cap and
/// decides, per probe result, whether the server may start serving.
pub struct Supervisor {
    /// Unreachable probes seen so far.
    pub attempts: u32,
}

impl Supervisor {
    /// A fresh supervisor with no attempts spent.
    pub fn new() -> (s: Supervisor)
        ensures
            s.attempts == 0,
    {
        Supervisor { attempts: 0 }
    }

    /// Feed one probe result in; the returned step tells the caller whether
    /// to serve, probe again (after a delay if the backend was unreachable),
    /// or give up.
    pub fn step(&mut self, probe: ProbeResult) -> (a: ProbeStep)
        requires
            old(self).attempts < MAX_PROBE_ATTEMPTS,
        ensures
            match probe {
                ProbeResult::Status(s) => {
                    &&& final(self).attempts == old(self).attempts
                    &&& a == (if is_ready_status(s) {
                        ProbeStep::Ready
                    } else {
                        ProbeStep::ProbeAgain
                    })
                },
                ProbeResult::Unreachable => {
                    &&& final(self).attempts == old(self).attempts + 1
                    &&& a == (if old(self).attempts + 1 < MAX_PROBE_ATTEMPTS {
                        ProbeStep::RetryAfterDelay
                    } else {
                        ProbeStep::GiveUp
                    })
                },
            },
    {
        match probe {
            ProbeResult::Status(s) => {
                if status_is_ready(s) {
                    ProbeStep::Ready
                } else {
                    ProbeStep::ProbeAgain
                }
            },
            ProbeResult::Unreachable => {
                self.attempts = self.attempts + 1;
                if self.attempts < MAX_PROBE_ATTEMPTS {
                    ProbeStep::RetryAfterDelay
                } else {
                    ProbeStep::GiveUp
                }
            },
        }
    }
}

/// Run the supervisor over a whole sequence of probe results, as the startup
/// loop would: the result is exactly what [`startup_outcome`] predicts.
pub fn run_probes(events: &Vec<ProbeResult>) -> (r: StartupOutcome)
    ensures
        r == startup_outcome(events@, 0),
{
    let mut sup = Supervisor::new();
    let mut i: usize = 0;
    proof {
        assert(events@.skip(0) =~= events@);
    }
    while i < events.len()
        invariant
            0 <= i <= events@.len(),
            sup.attempts < MAX_PROBE_ATTEMPTS,
            startup_outcome(events@, 0) == startup_outcome(
                events@.skip(i as int),
                sup.attempts as nat,
            ),
        decreases events@.len() - i,
    {
        let ev = events[i];
        proof {
            assert(events@.skip(i as int)[0] == events@[i as int]);
            assert(events@.skip(i as int).skip(1) =~= events@.skip(i as int + 1));
        }
        let a = sup.step(ev);
        match a {
            ProbeStep::Ready => {
                return StartupOutcome::Ready;
            },
            ProbeStep::GiveUp => {
                proof {
                    assert(startup_outcome(events@.skip(i as int + 1), sup.attempts as nat)
                        == StartupOutcome::Failed);
                }
                return StartupOutcome::Failed;
            },
            _ => {},
        }
        i = i + 1;
    }
    proof {
        assert(events@.skip(i as int) =~= Seq::<ProbeResult>::empty());
    }
    StartupOutcome::Pending
}

} // verus!
