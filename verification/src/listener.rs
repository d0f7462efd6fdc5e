//! How the server's listener answers the outcome of each accept: it serves a
//! connection that was accepted, and tolerates five failed accepts in all,
//! waiting two seconds after each; the sixth failure shuts it down.

use vstd::prelude::*;

verus! {

/// The number of failed accepts that the listener tolerates.
pub const MAX_RETRIES: i32 = 5;

/// The seconds that the listener waits after a failed accept.
pub const RETRY_DELAY_SECS: u64 = 2;

/// What the listener does next.
#[derive(PartialEq, Eq, Structural, Debug, Clone, Copy)]
pub enum ListenerAction {
    /// Serve the accepted connection, then accept again.
    Serve,
    /// Wait this many seconds, then accept again.
    RetryAfter { secs: u64 },
    /// Stop listening: too many accepts failed.
    Shutdown,
}

/// The state of the listener's retry policy: the failed accepts it will
/// still tolerate (negative once it has shut down).
pub struct AcceptRetry {
    attempts_left: i32,
}

/// One step of the policy: from the attempts left and whether the accept
/// succeeded to the attempts left after it and the action.
pub open spec fn listener_step(attempts_left: int, accepted: bool) -> (int, ListenerAction) {
    if attempts_left < 0 {
        (attempts_left, ListenerAction::Shutdown)
    } else if accepted {
        (attempts_left, ListenerAction::Serve)
    } else if attempts_left - 1 < 0 {
        (attempts_left - 1, ListenerAction::Shutdown)
    } else {
        (attempts_left - 1, ListenerAction::RetryAfter { secs: RETRY_DELAY_SECS })
    }
}

/// The number of failed accepts among `events` (`true`: accepted).
pub open spec fn failed_accepts(events: Seq<bool>) -> nat
    decreases events.len(),
{
    if events.len() == 0 {
        0
    } else {
        failed_accepts(events.drop_last()) + if events.last() {
            0nat
        } else {
            1nat
        }
    }
}

/// The attempts left and the actions taken after a run of accept outcomes,
/// starting from `start` attempts.
pub open spec fn listener_run(start: int, events: Seq<bool>) -> (int, Seq<ListenerAction>)
    decreases events.len(),
{
    if events.len() == 0 {
        (start, Seq::empty())
    } else {
        let prev = listener_run(start, events.drop_last());
        let next = listener_step(prev.0, events.last());
        (next.0, prev.1.push(next.1))
    }
}

/// The action that a fresh listener takes on the `i`-th accept outcome: it
/// shuts down once more than five accepts have failed, and otherwise serves
/// an accepted connection or retries after two seconds.
pub open spec fn expected_action(events: Seq<bool>, i: int) -> ListenerAction {
    if failed_accepts(events.take(i + 1)) > MAX_RETRIES {
        ListenerAction::Shutdown
    } else if events[i] {
        ListenerAction::Serve
    } else {
        ListenerAction::RetryAfter { secs: RETRY_DELAY_SECS }
    }
}

/// The attempts left after a run: five less the failures, but never below -1.
proof fn lemma_run_state(events: Seq<bool>)
    ensures
        listener_run(MAX_RETRIES as int, events).0 == if failed_accepts(events) > MAX_RETRIES {
            -1
        } else {
            MAX_RETRIES - failed_accepts(events)
        },
        listener_run(MAX_RETRIES as int, events).1.len() == events.len(),
    decreases events.len(),
{
    if events.len() > 0 {
        lemma_run_state(events.drop_last());
    }
}

/// Over any run of accept outcomes, a fresh listener serves every accepted
/// connection and retries after every failed accept until the sixth failure,
/// and from the sixth failure on it shuts down.
pub proof fn lemma_listener_run(events: Seq<bool>, i: int)
    requires
        0 <= i < events.len(),
    ensures
        listener_run(MAX_RETRIES as int, events).1[i] == expected_action(events, i),
    decreases events.len(),
{
    let n = events.len();
    let prefix = events.drop_last();
    lemma_run_state(prefix);
    lemma_run_state(events);
    if i < n - 1 {
        lemma_listener_run(prefix, i);
        assert(prefix.take(i + 1) =~= events.take(i + 1));
        assert(prefix[i] == events[i]);
    } else {
        assert(events.take(i + 1) =~= events);
    }
}

/// Failed accepts only accumulate along a run.
proof fn lemma_failures_monotone(events: Seq<bool>, i: int, j: int)
    requires
        0 <= i <= j <= events.len(),
    ensures
        failed_accepts(events.take(i)) <= failed_accepts(events.take(j)),
    decreases j - i,
{
    if i < j {
        lemma_failures_monotone(events, i, j - 1);
        assert(events.take(j).drop_last() =~= events.take(j - 1));
    }
}

/// Once the listener has shut down, it stays shut down.
pub proof fn lemma_shutdown_is_final(events: Seq<bool>, i: int, j: int)
    requires
        0 <= i <= j < events.len(),
        listener_run(MAX_RETRIES as int, events).1[i] == ListenerAction::Shutdown,
    ensures
        listener_run(MAX_RETRIES as int, events).1[j] == ListenerAction::Shutdown,
{
    lemma_listener_run(events, i);
    lemma_listener_run(events, j);
    lemma_failures_monotone(events, i + 1, j + 1);
}

impl View for AcceptRetry {
    type V = int;

    closed spec fn view(&self) -> int {
        self.attempts_left as int
    }
}

impl AcceptRetry {
    #[verifier::type_invariant]
    spec fn inv(self) -> bool {
        -1 <= self.attempts_left <= MAX_RETRIES
    }

    /// The policy of a listener that has just bound its address.
    pub fn new() -> (r: AcceptRetry)
        ensures
            r@ == MAX_RETRIES as int,
    {
        AcceptRetry { attempts_left: MAX_RETRIES }
    }

    /// The failed accepts still tolerated (negative once shut down).
    pub fn attempts_left(&self) -> (n: i32)
        ensures
            n as int == self@,
    {
        self.attempts_left
    }

    /// Takes the outcome of one accept and says what to do next. Once the
    /// policy has shut down it keeps answering `Shutdown`.
    pub fn on_accept(&mut self, accepted: bool) -> (action: ListenerAction)
        ensures
            (final(self)@, action) == listener_step(old(self)@, accepted),
    {
        proof {
            use_type_invariant(&*self);
        }
        if self.attempts_left < 0 {
            ListenerAction::Shutdown
        } else if accepted {
            ListenerAction::Serve
        } else {
            self.attempts_left = self.attempts_left - 1;
            if self.attempts_left < 0 {
                ListenerAction::Shutdown
            } else {
                ListenerAction::RetryAfter { secs: RETRY_DELAY_SECS }
            }
        }
    }
}

} // verus!
