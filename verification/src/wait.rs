//! The wait for finality: a bounded poll loop as an explicit state machine.
//!
//! The loop only watches. Stopping it stops the polling and nothing else: a
//! transaction that was broadcast stays broadcast, and no action of this
//! machine asks for anything but another poll.

use vstd::prelude::*;

verus! {

/// Polls allowed by default before the wait gives up.
pub const DEFAULT_MAX_POLLS: u32 = 60;

/// Failed polls tolerated by default before the wait gives up.
pub const DEFAULT_MAX_RETRIES: u32 = 3;

/// Pause between two polls by default, in milliseconds.
pub const DEFAULT_POLL_INTERVAL_MS: u64 = 5000;

/// What the node reports of a transaction.
#[derive(Clone, Copy, Debug, PartialEq, Eq, Structural)]
pub enum TxStatus {
    Received,
    Pending,
    Accepted,
    Rejected,
}

/// What one poll brought back.
#[derive(Clone, Copy, Debug, PartialEq, Eq, Structural)]
pub enum PollOutcome {
    /// The node answered with a status.
    Status(TxStatus),
    /// The request did not get through.
    TransportError,
}

/// Where the wait stands. `Accepted`, `Rejected` and `TimedOut` are final.
#[derive(Clone, Copy, Debug, PartialEq, Eq, Structural)]
pub enum WaitState {
    Received,
    Pending,
    Accepted,
    Rejected,
    TimedOut,
}

/// The bounds of a wait.
#[derive(Clone, Copy, Debug, PartialEq, Eq, Structural)]
pub struct WaitPolicy {
    /// Polls after which a transaction that is still not final is given up.
    pub max_polls: u32,
    /// Failed polls that are tolerated; one more ends the wait.
    pub max_retries: u32,
    /// Pause before each poll, in milliseconds.
    pub interval_ms: u64,
}

/// What the caller should do next.
#[derive(Clone, Copy, Debug, PartialEq, Eq, Structural)]
pub enum WaitAction {
    /// Pause for `after_ms` milliseconds, ask the node once, report the outcome.
    Poll { after_ms: u64 },
    /// The wait is over in the given final state.
    Stop(WaitState),
}

/// The model of a wait: its state and what it has counted so far.
pub struct WaitView {
    pub state: WaitState,
    pub polls: nat,
    pub errors: nat,
    pub policy: WaitPolicy,
}

/// Whether a state is final: nothing observed later changes it.
pub open spec fn is_final(s: WaitState) -> bool {
    s is Accepted || s is Rejected || s is TimedOut
}

/// The wait before its first poll. A policy that allows no poll has timed out
/// at once.
pub open spec fn wait_start(policy: WaitPolicy) -> WaitView {
    WaitView {
        state: if policy.max_polls == 0 {
            WaitState::TimedOut
        } else {
            WaitState::Received
        },
        polls: 0,
        errors: 0,
        policy,
    }
}

/// One observation. A final state absorbs everything. Otherwise the poll is
/// counted; a final status is taken over; a status that is not final leaves
/// the wait pending unless the polls are used up; a failed poll is counted and
/// leaves the state as it was unless the retries or the polls are used up.
pub open spec fn wait_step(w: WaitView, o: PollOutcome) -> WaitView {
    if is_final(w.state) {
        w
    } else {
        let polls = w.polls + 1;
        match o {
            PollOutcome::Status(TxStatus::Accepted) => WaitView {
                state: WaitState::Accepted,
                polls,
                ..w
            },
            PollOutcome::Status(TxStatus::Rejected) => WaitView {
                state: WaitState::Rejected,
                polls,
                ..w
            },
            PollOutcome::Status(_) => WaitView {
                state: if polls >= w.policy.max_polls {
                    WaitState::TimedOut
                } else {
                    WaitState::Pending
                },
                polls,
                ..w
            },
            PollOutcome::TransportError => WaitView {
                state: if w.errors + 1 > w.policy.max_retries || polls >= w.policy.max_polls {
                    WaitState::TimedOut
                } else {
                    w.state
                },
                polls,
                errors: w.errors + 1,
                ..w
            },
        }
    }
}

/// The wait after a sequence of observations, taken in order.
pub open spec fn wait_run(w: WaitView, outcomes: Seq<PollOutcome>) -> WaitView
    decreases outcomes.len(),
{
    if outcomes.len() == 0 {
        w
    } else {
        wait_step(wait_run(w, outcomes.drop_last()), outcomes.last())
    }
}

/// What holds of every wait that was started and stepped: the counts stay
/// within the policy, and a wait that is not final has polls left.
pub open spec fn wait_wf(w: WaitView) -> bool {
    &&& w.polls <= w.policy.max_polls
    &&& w.errors <= w.polls
    &&& !is_final(w.state) ==> w.polls < w.policy.max_polls
}

/// Whether an outcome is a status that is not final.
pub open spec fn is_not_yet_final(o: PollOutcome) -> bool {
    o == PollOutcome::Status(TxStatus::Received) || o == PollOutcome::Status(TxStatus::Pending)
}

/// A running wait for finality.
#[derive(Clone, Copy, Debug, PartialEq, Eq)]
pub struct WaitLoop {
    state: WaitState,
    polls: u32,
    errors: u32,
    policy: WaitPolicy,
}

impl View for WaitLoop {
    type V = WaitView;

    closed spec fn view(&self) -> WaitView {
        WaitView {
            state: self.state,
            polls: self.polls as nat,
            errors: self.errors as nat,
            policy: self.policy,
        }
    }
}

impl WaitPolicy {
    /// The default bounds.
    pub fn standard() -> (r: WaitPolicy)
        ensures
            r == (WaitPolicy {
                max_polls: DEFAULT_MAX_POLLS,
                max_retries: DEFAULT_MAX_RETRIES,
                interval_ms: DEFAULT_POLL_INTERVAL_MS,
            }),
    {
        WaitPolicy {
            max_polls: DEFAULT_MAX_POLLS,
            max_retries: DEFAULT_MAX_RETRIES,
            interval_ms: DEFAULT_POLL_INTERVAL_MS,
        }
    }
}

impl WaitState {
    /// Whether the state is final.
    pub fn is_final(&self) -> (r: bool)
        ensures
            r == is_final(*self),
    {
        match self {
            WaitState::Accepted | WaitState::Rejected | WaitState::TimedOut => true,
            _ => false,
        }
    }
}

impl WaitLoop {
    #[verifier::type_invariant]
    spec fn inv(self) -> bool {
        wait_wf(self@)
    }

    /// A wait that has not polled yet.
    pub fn new(policy: WaitPolicy) -> (r: WaitLoop)
        ensures
            r@ == wait_start(policy),
    {
        let state = if policy.max_polls == 0 {
            WaitState::TimedOut
        } else {
            WaitState::Received
        };
        WaitLoop { state, polls: 0, errors: 0, policy }
    }

    /// The state of the wait.
    pub fn state(&self) -> (r: WaitState)
        ensures
            r == self@.state,
    {
        self.state
    }

    /// Polls made so far.
    pub fn polls(&self) -> (r: u32)
        ensures
            r == self@.polls,
    {
        self.polls
    }

    /// Polls that failed so far.
    pub fn errors(&self) -> (r: u32)
        ensures
            r == self@.errors,
    {
        self.errors
    }

    /// The bounds the wait runs under.
    pub fn policy(&self) -> (r: WaitPolicy)
        ensures
            r == self@.policy,
    {
        self.policy
    }

    /// Whether the wait is over.
    pub fn is_done(&self) -> (r: bool)
        ensures
            r == is_final(self@.state),
    {
        self.state.is_final()
    }

    /// What to do next: poll again while the state is not final, stop once it is.
    pub fn next_action(&self) -> (r: WaitAction)
        ensures
            r == (if is_final(self@.state) {
                WaitAction::Stop(self@.state)
            } else {
                WaitAction::Poll { after_ms: self@.policy.interval_ms }
            }),
    {
        if self.state.is_final() {
            WaitAction::Stop(self.state)
        } else {
            WaitAction::Poll { after_ms: self.policy.interval_ms }
        }
    }

    /// Takes in the outcome of one poll.
    pub fn observe(&mut self, outcome: PollOutcome)
        ensures
            final(self)@ == wait_step(old(self)@, outcome),
    {
        proof {
            use_type_invariant(&*self);
        }
        if self.state.is_final() {
            return ;
        }
        let polls: u32 = self.polls + 1;
        let spent = polls >= self.policy.max_polls;
        match outcome {
            PollOutcome::Status(TxStatus::Accepted) => {
                self.state = WaitState::Accepted;
                self.polls = polls;
            },
            PollOutcome::Status(TxStatus::Rejected) => {
                self.state = WaitState::Rejected;
                self.polls = polls;
            },
            PollOutcome::Status(_) => {
                self.state = if spent {
                    WaitState::TimedOut
                } else {
                    WaitState::Pending
                };
                self.polls = polls;
            },
            PollOutcome::TransportError => {
                let errors: u32 = self.errors + 1;
                if errors > self.policy.max_retries || spent {
                    self.state = WaitState::TimedOut;
                }
                self.polls = polls;
                self.errors = errors;
            },
        }
    }
}

/// Runs a wait over recorded outcomes, in order, and returns where it ends.
/// Outcomes after the one that made the wait final are not looked at.
pub fn run_wait(policy: WaitPolicy, outcomes: &Vec<PollOutcome>) -> (r: WaitLoop)
    ensures
        r@ == wait_run(wait_start(policy), outcomes@),
{
    let mut w = WaitLoop::new(policy);
    let mut i: usize = 0;
    while i < outcomes.len() && !w.is_done()
        invariant
            i <= outcomes.len(),
            w@ == wait_run(wait_start(policy), outcomes@.take(i as int)),
        decreases outcomes.len() - i,
    {
        w.observe(outcomes[i]);
        proof {
            assert(outcomes@.take(i + 1).drop_last() =~= outcomes@.take(i as int));
        }
        i += 1;
    }
    proof {
        assert(outcomes@.take(outcomes.len() as int) =~= outcomes@);
        if i < outcomes.len() {
            lemma_final_absorbs(wait_start(policy), outcomes@, i as int);
        }
    }
    w
}

/// Once a prefix of the observations has made the wait final, the rest
/// changes nothing.
pub proof fn lemma_final_absorbs(w: WaitView, outcomes: Seq<PollOutcome>, k: int)
    requires
        0 <= k <= outcomes.len(),
        is_final(wait_run(w, outcomes.take(k)).state),
    ensures
        wait_run(w, outcomes) == wait_run(w, outcomes.take(k)),
    decreases outcomes.len() - k,
{
    if k == outcomes.len() {
        assert(outcomes.take(k) =~= outcomes);
    } else {
        assert(outcomes.take(k + 1).drop_last() =~= outcomes.take(k));
        lemma_final_absorbs(w, outcomes, k + 1);
    }
}

/// One observation keeps the counts within the policy.
pub proof fn lemma_wait_step_keeps_wf(w: WaitView, o: PollOutcome)
    requires
        wait_wf(w),
    ensures
        wait_wf(wait_step(w, o)),
        wait_step(w, o).policy == w.policy,
{
}

/// Every wait that was started and stepped keeps its counts within the policy.
pub proof fn lemma_run_keeps_wf(w: WaitView, outcomes: Seq<PollOutcome>)
    requires
        wait_wf(w),
    ensures
        wait_wf(wait_run(w, outcomes)),
        wait_run(w, outcomes).policy == w.policy,
        wait_run(w, outcomes).polls <= w.polls + outcomes.len(),
        !is_final(wait_run(w, outcomes).state) ==> wait_run(w, outcomes).polls == w.polls
            + outcomes.len(),
    decreases outcomes.len(),
{
    if outcomes.len() > 0 {
        lemma_run_keeps_wf(w, outcomes.drop_last());
    }
}

/// The wait never blocks for ever: after as many observations as the policy
/// allows polls, whatever they were, the state is final.
pub proof fn lemma_wait_terminates(policy: WaitPolicy, outcomes: Seq<PollOutcome>)
    requires
        outcomes.len() >= policy.max_polls,
    ensures
        is_final(wait_run(wait_start(policy), outcomes).state),
        wait_run(wait_start(policy), outcomes).polls <= policy.max_polls,
{
    lemma_run_keeps_wf(wait_start(policy), outcomes);
}

/// While only statuses that are not final come in, and polls are left, the
/// wait is pending and has counted every one of them.
pub proof fn lemma_pending_prefix(policy: WaitPolicy, outcomes: Seq<PollOutcome>)
    requires
        outcomes.len() < policy.max_polls,
        forall|j: int| 0 <= j < outcomes.len() ==> is_not_yet_final(#[trigger] outcomes[j]),
    ensures
        wait_run(wait_start(policy), outcomes).polls == outcomes.len(),
        wait_run(wait_start(policy), outcomes).errors == 0,
        wait_run(wait_start(policy), outcomes).policy == policy,
        wait_run(wait_start(policy), outcomes).state == (if outcomes.len() == 0 {
            WaitState::Received
        } else {
            WaitState::Pending
        }),
    decreases outcomes.len(),
{
    if outcomes.len() > 0 {
        lemma_pending_prefix(policy, outcomes.drop_last());
    }
}

/// The first final status decides: when the first `k` polls bring statuses
/// that are not final and poll `k` brings `Accepted` or `Rejected` within the
/// bound, the wait ends in that state after exactly `k + 1` polls, whatever
/// is observed afterwards.
pub proof fn lemma_first_final_status_decides(
    policy: WaitPolicy,
    outcomes: Seq<PollOutcome>,
    k: int,
)
    requires
        0 <= k < outcomes.len(),
        k < policy.max_polls,
        forall|j: int| 0 <= j < k ==> is_not_yet_final(#[trigger] outcomes[j]),
        outcomes[k] == PollOutcome::Status(TxStatus::Accepted) || outcomes[k]
            == PollOutcome::Status(TxStatus::Rejected),
    ensures
        wait_run(wait_start(policy), outcomes).polls == k + 1,
        outcomes[k] == PollOutcome::Status(TxStatus::Accepted) ==> wait_run(
            wait_start(policy),
            outcomes,
        ).state == WaitState::Accepted,
        outcomes[k] == PollOutcome::Status(TxStatus::Rejected) ==> wait_run(
            wait_start(policy),
            outcomes,
        ).state == WaitState::Rejected,
{
    let head = outcomes.take(k + 1);
    assert(head.drop_last() =~= outcomes.take(k));
    assert forall|j: int| 0 <= j < k implies is_not_yet_final(#[trigger] outcomes.take(k)[j]) by {
        assert(outcomes.take(k)[j] == outcomes[j]);
    }
    lemma_pending_prefix(policy, outcomes.take(k));
    assert(head.last() == outcomes[k]);
    lemma_final_absorbs(wait_start(policy), outcomes, k + 1);
}

/// A transaction that never becomes final is given up: when every poll up to
/// the bound brings a status that is not final, the wait ends in `TimedOut`
/// after exactly as many polls as the policy allows.
pub proof fn lemma_all_pending_times_out(policy: WaitPolicy, outcomes: Seq<PollOutcome>)
    requires
        outcomes.len() >= policy.max_polls,
        forall|j: int|
            0 <= j < policy.max_polls ==> is_not_yet_final(#[trigger] outcomes[j]),
    ensures
        wait_run(wait_start(policy), outcomes).state == WaitState::TimedOut,
        wait_run(wait_start(policy), outcomes).polls == policy.max_polls,
{
    let n = policy.max_polls as int;
    if n == 0 {
        assert(outcomes.take(0) =~= Seq::<PollOutcome>::empty());
        lemma_final_absorbs(wait_start(policy), outcomes, 0);
    } else {
        let head = outcomes.take(n);
        assert(head.drop_last() =~= outcomes.take(n - 1));
        assert forall|j: int| 0 <= j < n - 1 implies is_not_yet_final(
            #[trigger] outcomes.take(n - 1)[j],
        ) by {
            assert(outcomes.take(n - 1)[j] == outcomes[j]);
        }
        lemma_pending_prefix(policy, outcomes.take(n - 1));
        assert(head.last() == outcomes[n - 1]);
        lemma_final_absorbs(wait_start(policy), outcomes, n);
    }
}

} // verus!
