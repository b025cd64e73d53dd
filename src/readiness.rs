//! Waiting for a freshly started backend to accept connections.
//!
//! The poller decides; the caller probes. After each connection attempt the
//! caller reports whether it succeeded, and the poller says whether the
//! backend is ready, whether to wait `POLL_INTERVAL_MS` and probe again, or
//! whether to give up.
use vstd::prelude::*;

verus! {

/// The most connection attempts made before giving up.
pub const MAX_ATTEMPTS: u32 = 60;

/// The pause between two connection attempts, in milliseconds.
pub const POLL_INTERVAL_MS: u64 = 500;

/// How long one connection attempt may take, in milliseconds.
pub const CONNECT_TIMEOUT_MS: u64 = 500;

/// Where a readiness poll stands, with the number of attempts made so far.
#[derive(Clone, Copy, Debug, PartialEq, Eq, Structural)]
pub enum PollStatus {
    /// No attempt has succeeded yet and more may be made.
    Waiting { attempts: u32 },
    /// The attempt with this number succeeded.
    Ready { attempts: u32 },
    /// Every allowed attempt failed.
    TimedOut { attempts: u32 },
}

impl PollStatus {
    /// Whether the poll is over, one way or the other.
    pub open spec fn spec_is_finished(self) -> bool {
        !(self is Waiting)
    }

    /// Whether the poll is over, one way or the other.
    #[verifier::when_used_as_spec(spec_is_finished)]
    pub fn is_finished(self) -> (r: bool)
        ensures
            r == self.spec_is_finished(),
    {
        match self {
            PollStatus::Waiting { .. } => false,
            _ => true,
        }
    }
}

/// The statuses that a poll can reach.
pub open spec fn status_wf(s: PollStatus) -> bool {
    match s {
        PollStatus::Waiting { attempts } => attempts < MAX_ATTEMPTS,
        PollStatus::Ready { attempts } => 1 <= attempts <= MAX_ATTEMPTS,
        PollStatus::TimedOut { attempts } => attempts == MAX_ATTEMPTS,
    }
}

/// The status before any attempt.
pub open spec fn initial_status() -> PollStatus {
    PollStatus::Waiting { attempts: 0 }
}

/// The status after one more attempt, which connected or not. A finished
/// poll stays as it is.
pub open spec fn step(s: PollStatus, connected: bool) -> PollStatus {
    match s {
        PollStatus::Waiting { attempts } => {
            if connected {
                PollStatus::Ready { attempts: (attempts + 1) as u32 }
            } else if attempts + 1 >= MAX_ATTEMPTS {
                PollStatus::TimedOut { attempts: (attempts + 1) as u32 }
            } else {
                PollStatus::Waiting { attempts: (attempts + 1) as u32 }
            }
        },
        _ => s,
    }
}

/// The status after the attempts in `probes`, in order, starting from `s`.
pub open spec fn run(s: PollStatus, probes: Seq<bool>) -> PollStatus
    decreases probes.len(),
{
    if probes.len() == 0 {
        s
    } else {
        run(step(s, probes[0]), probes.skip(1))
    }
}

/// A readiness poll in progress.
pub struct ReadinessPoller {
    status: PollStatus,
}

impl View for ReadinessPoller {
    type V = PollStatus;

    closed spec fn view(&self) -> PollStatus {
        self.status
    }
}

impl ReadinessPoller {
    #[verifier::type_invariant]
    closed spec fn inv(self) -> bool {
        status_wf(self.status)
    }

    /// A poll that has made no attempt yet.
    pub fn new() -> (r: Self)
        ensures
            r@ == initial_status(),
    {
        ReadinessPoller { status: PollStatus::Waiting { attempts: 0 } }
    }

    /// Where the poll stands.
    pub fn status(&self) -> (r: PollStatus)
        ensures
            r == self@,
            status_wf(r),
    {
        proof {
            use_type_invariant(self);
        }
        self.status
    }

    /// Records the outcome of one connection attempt and returns the new
    /// status. Once the poll is finished, further outcomes change nothing.
    pub fn record(&mut self, connected: bool) -> (r: PollStatus)
        ensures
            final(self)@ == step(old(self)@, connected),
            r == final(self)@,
            status_wf(r),
    {
        proof {
            use_type_invariant(&*self);
        }
        let next = match self.status {
            PollStatus::Waiting { attempts } => {
                let made: u32 = attempts + 1;
                if connected {
                    PollStatus::Ready { attempts: made }
                } else if made >= MAX_ATTEMPTS {
                    PollStatus::TimedOut { attempts: made }
                } else {
                    PollStatus::Waiting { attempts: made }
                }
            },
            finished => finished,
        };
        self.status = next;
        next
    }
}

/// A finished poll ignores any further attempts.
pub proof fn lemma_finished_stays(s: PollStatus, probes: Seq<bool>)
    requires
        s.spec_is_finished(),
    ensures
        run(s, probes) == s,
    decreases probes.len(),
{
    if probes.len() > 0 {
        lemma_finished_stays(step(s, probes[0]), probes.skip(1));
    }
}

/// From `a` failed attempts, `m` more failures followed by a success make the
/// poll ready at attempt `a + m + 1`, provided that is within the limit.
proof fn lemma_ready_after(a: u32, m: nat, probes: Seq<bool>)
    requires
        a + m + 1 <= MAX_ATTEMPTS,
        m < probes.len(),
        probes[m as int],
        forall|j: int| 0 <= j < m ==> !probes[j],
    ensures
        run(PollStatus::Waiting { attempts: a }, probes) == (PollStatus::Ready {
            attempts: (a + m + 1) as u32,
        }),
    decreases m,
{
    let s = PollStatus::Waiting { attempts: a };
    if m == 0 {
        lemma_finished_stays(step(s, probes[0]), probes.skip(1));
    } else {
        let rest = probes.skip(1);
        assert forall|j: int| 0 <= j < m - 1 implies !rest[j] by {
            assert(rest[j] == probes[j + 1]);
        }
        assert(rest[m - 1] == probes[m as int]);
        lemma_ready_after((a + 1) as u32, (m - 1) as nat, rest);
    }
}

/// From `a` failed attempts, failures up to the limit time the poll out
/// after exactly `MAX_ATTEMPTS` attempts.
proof fn lemma_times_out_after(a: u32, probes: Seq<bool>)
    requires
        a < MAX_ATTEMPTS,
        a + probes.len() >= MAX_ATTEMPTS,
        forall|j: int| 0 <= j < MAX_ATTEMPTS - a ==> !probes[j],
    ensures
        run(PollStatus::Waiting { attempts: a }, probes) == (PollStatus::TimedOut {
            attempts: MAX_ATTEMPTS,
        }),
    decreases MAX_ATTEMPTS - a,
{
    let s = PollStatus::Waiting { attempts: a };
    let rest = probes.skip(1);
    if a + 1 >= MAX_ATTEMPTS {
        lemma_finished_stays(step(s, probes[0]), rest);
    } else {
        assert forall|j: int| 0 <= j < MAX_ATTEMPTS - (a + 1) implies !rest[j] by {
            assert(rest[j] == probes[j + 1]);
        }
        lemma_times_out_after((a + 1) as u32, rest);
    }
}

/// While every attempt so far has failed and the limit is not reached, the
/// poll is still waiting and has counted each attempt.
proof fn lemma_waiting_after(a: u32, probes: Seq<bool>)
    requires
        a + probes.len() < MAX_ATTEMPTS,
        forall|j: int| 0 <= j < probes.len() ==> !probes[j],
    ensures
        run(PollStatus::Waiting { attempts: a }, probes) == (PollStatus::Waiting {
            attempts: (a + probes.len()) as u32,
        }),
    decreases probes.len(),
{
    if probes.len() > 0 {
        let rest = probes.skip(1);
        assert forall|j: int| 0 <= j < rest.len() implies !rest[j] by {
            assert(rest[j] == probes[j + 1]);
        }
        lemma_waiting_after((a + 1) as u32, rest);
    }
}

/// A backend that first accepts a connection at attempt `n`, within the
/// limit, is reported ready at attempt `n`, whatever later attempts would
/// have shown.
pub proof fn lemma_ready_at_first_success(probes: Seq<bool>, n: nat)
    requires
        1 <= n <= MAX_ATTEMPTS,
        n <= probes.len(),
        probes[n - 1],
        forall|j: int| 0 <= j < n - 1 ==> !probes[j],
    ensures
        run(initial_status(), probes) == (PollStatus::Ready { attempts: n as u32 }),
        forall|k: nat| k < n ==> run(initial_status(), #[trigger] probes.take(k as int)) == (
        PollStatus::Waiting { attempts: k as u32 }),
{
    lemma_ready_after(0, (n - 1) as nat, probes);
    assert forall|k: nat| k < n implies run(initial_status(), #[trigger] probes.take(k as int))
        == (PollStatus::Waiting { attempts: k as u32 }) by {
        let pre = probes.take(k as int);
        assert forall|j: int| 0 <= j < pre.len() implies !pre[j] by {
            assert(pre[j] == probes[j]);
        }
        lemma_waiting_after(0, pre);
    }
}

/// A backend that never accepts a connection makes the poll give up after
/// exactly `MAX_ATTEMPTS` attempts: it is still waiting after any fewer.
pub proof fn lemma_times_out_when_never_ready(probes: Seq<bool>)
    requires
        probes.len() >= MAX_ATTEMPTS,
        forall|j: int| 0 <= j < probes.len() ==> !probes[j],
    ensures
        run(initial_status(), probes) == (PollStatus::TimedOut { attempts: MAX_ATTEMPTS }),
        forall|k: nat| k < MAX_ATTEMPTS ==> run(initial_status(), #[trigger] probes.take(k as int))
            == (PollStatus::Waiting { attempts: k as u32 }),
{
    lemma_times_out_after(0, probes);
    assert forall|k: nat| k < MAX_ATTEMPTS implies run(
        initial_status(),
        #[trigger] probes.take(k as int),
    ) == (PollStatus::Waiting { attempts: k as u32 }) by {
        let pre = probes.take(k as int);
        assert forall|j: int| 0 <= j < pre.len() implies !pre[j] by {
            assert(pre[j] == probes[j]);
        }
        lemma_waiting_after(0, pre);
    }
}

} // verus!
