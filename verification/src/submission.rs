//! Signing, sending and the optional wait, as one state machine.
//!
//! The caller performs what the machine asks for (sign, send, poll) and
//! reports what happened; the machine decides what comes next and what the
//! command reports in the end. Once the node has handed out a transaction
//! hash, no later event can turn the run into a failure or lose the hash.

use vstd::prelude::*;
use crate::address::{expected_address, target_of};
use crate::felt::{Felt, opt_felt};
use crate::signer::SigningIdentity;
use crate::transaction::UnsignedTransaction;
use crate::wait::{PollOutcome, WaitLoop, WaitPolicy, WaitState, WaitView};
use crate::wait::{is_final, lemma_wait_step_keeps_wf, wait_start, wait_step, wait_wf};

verus! {

/// What a submission that went through reports.
#[derive(Clone, Copy, Debug, PartialEq, Eq)]
pub struct SubmissionResult {
    pub transaction_hash: Felt,
    /// The contract or class address, for the kinds of transaction that have one.
    pub address: Option<Felt>,
    /// The final state of the wait, if a wait was asked for.
    pub status: Option<WaitState>,
}

pub struct SubmissionResultView {
    pub transaction_hash: Seq<u8>,
    pub address: Option<Seq<u8>>,
    pub status: Option<WaitState>,
}

impl View for SubmissionResult {
    type V = SubmissionResultView;

    open spec fn view(&self) -> SubmissionResultView {
        SubmissionResultView {
            transaction_hash: self.transaction_hash@,
            address: opt_felt(self.address),
            status: self.status,
        }
    }
}

/// Why a submission did not go through. Neither variant carries key material:
/// a signing failure carries nothing at all.
#[derive(Clone, Debug, PartialEq, Eq)]
pub enum SubmissionError {
    /// The transaction could not be signed.
    SigningFailed,
    /// The node or the network refused the transaction; the payload is theirs.
    Rejected { payload: String },
}

pub enum SubmissionErrorView {
    SigningFailed,
    Rejected { payload: Seq<char> },
}

impl View for SubmissionError {
    type V = SubmissionErrorView;

    open spec fn view(&self) -> SubmissionErrorView {
        match self {
            SubmissionError::SigningFailed => SubmissionErrorView::SigningFailed,
            SubmissionError::Rejected { payload } => SubmissionErrorView::Rejected {
                payload: payload@,
            },
        }
    }
}

/// What the caller reports back.
#[derive(Clone, Debug, PartialEq, Eq)]
pub enum SubmitEvent {
    /// The transaction is signed.
    Signed,
    /// Signing failed.
    SigningFailed,
    /// The node took the transaction.
    Sent { transaction_hash: Felt, address: Option<Felt> },
    /// The node or the network refused the transaction.
    SendFailed { payload: String },
    /// One poll of the wait came back.
    Polled(PollOutcome),
}

pub enum SubmitEventView {
    Signed,
    SigningFailed,
    Sent { transaction_hash: Seq<u8>, address: Option<Seq<u8>> },
    SendFailed { payload: Seq<char> },
    Polled(PollOutcome),
}

impl View for SubmitEvent {
    type V = SubmitEventView;

    open spec fn view(&self) -> SubmitEventView {
        match self {
            SubmitEvent::Signed => SubmitEventView::Signed,
            SubmitEvent::SigningFailed => SubmitEventView::SigningFailed,
            SubmitEvent::Sent { transaction_hash, address } => SubmitEventView::Sent {
                transaction_hash: transaction_hash@,
                address: opt_felt(*address),
            },
            SubmitEvent::SendFailed { payload } => SubmitEventView::SendFailed {
                payload: payload@,
            },
            SubmitEvent::Polled(o) => SubmitEventView::Polled(*o),
        }
    }
}

/// What the caller is asked to do.
#[derive(Clone, Copy, Debug, PartialEq, Eq, Structural)]
pub enum SubmitAction {
    /// Sign the transaction. `unlock_keystore` says whether the keystore has
    /// to be decrypted first, which asks for the passphrase.
    Sign { unlock_keystore: bool },
    /// Send the signed transaction to the node.
    Send,
    /// Pause for `after_ms` milliseconds, then ask the node for the status.
    Poll { after_ms: u64 },
    /// Nothing is left to do: read the outcome.
    Done,
}

/// The stage a submission is in.
#[derive(Clone, Copy, Debug, PartialEq, Eq, Structural)]
pub enum SubmitPhase {
    Signing,
    Sending,
    Waiting,
    Finished,
    Failed,
}

/// The model of a submission.
pub struct SubmissionView {
    pub phase: SubmitPhase,
    /// Whether the signer is a keystore.
    pub keystore: bool,
    /// Whether the keystore has been decrypted, now or earlier in this run.
    pub unlocked: bool,
    /// Whether a wait for finality was asked for.
    pub wait_requested: bool,
    /// The address that the transaction is known to lead to, if any.
    pub expected_address: Option<Seq<u8>>,
    pub wait: WaitView,
    pub transaction_hash: Option<Seq<u8>>,
    pub address: Option<Seq<u8>>,
    pub error: Option<SubmissionErrorView>,
}

/// A submission before anything was done.
pub open spec fn submit_start(
    keystore: bool,
    unlocked: bool,
    wait_requested: bool,
    policy: WaitPolicy,
    expected_address: Option<Seq<u8>>,
) -> SubmissionView {
    SubmissionView {
        phase: SubmitPhase::Signing,
        keystore,
        unlocked,
        wait_requested,
        expected_address,
        wait: wait_start(policy),
        transaction_hash: None,
        address: None,
        error: None,
    }
}

/// One step. Each phase listens to its own events and ignores the others;
/// `Finished` and `Failed` ignore everything. The address reported is the one
/// the transaction is known to lead to, else the one the node names.
pub open spec fn submit_step(s: SubmissionView, e: SubmitEventView) -> SubmissionView {
    match (s.phase, e) {
        (SubmitPhase::Signing, SubmitEventView::Signed) => SubmissionView {
            phase: SubmitPhase::Sending,
            unlocked: s.unlocked || s.keystore,
            ..s
        },
        (SubmitPhase::Signing, SubmitEventView::SigningFailed) => SubmissionView {
            phase: SubmitPhase::Failed,
            error: Some(SubmissionErrorView::SigningFailed),
            ..s
        },
        (SubmitPhase::Sending, SubmitEventView::Sent { transaction_hash, address }) => {
            SubmissionView {
                phase: if s.wait_requested && !is_final(s.wait.state) {
                    SubmitPhase::Waiting
                } else {
                    SubmitPhase::Finished
                },
                transaction_hash: Some(transaction_hash),
                address: if s.expected_address is Some {
                    s.expected_address
                } else {
                    address
                },
                ..s
            }
        },
        (SubmitPhase::Sending, SubmitEventView::SendFailed { payload }) => SubmissionView {
            phase: SubmitPhase::Failed,
            error: Some(SubmissionErrorView::Rejected { payload }),
            ..s
        },
        (SubmitPhase::Waiting, SubmitEventView::Polled(o)) => {
            let wait = wait_step(s.wait, o);
            SubmissionView {
                phase: if is_final(wait.state) {
                    SubmitPhase::Finished
                } else {
                    SubmitPhase::Waiting
                },
                wait,
                ..s
            }
        },
        _ => s,
    }
}

/// The submission after a sequence of events, taken in order.
pub open spec fn submit_run(s: SubmissionView, events: Seq<SubmitEventView>) -> SubmissionView
    decreases events.len(),
{
    if events.len() == 0 {
        s
    } else {
        submit_step(submit_run(s, events.drop_last()), events.last())
    }
}

/// What the caller is asked to do in a given state.
pub open spec fn submit_action(s: SubmissionView) -> SubmitAction {
    match s.phase {
        SubmitPhase::Signing => SubmitAction::Sign { unlock_keystore: s.keystore && !s.unlocked },
        SubmitPhase::Sending => SubmitAction::Send,
        SubmitPhase::Waiting => SubmitAction::Poll { after_ms: s.wait.policy.interval_ms },
        SubmitPhase::Finished | SubmitPhase::Failed => SubmitAction::Done,
    }
}

/// What is known of the transaction so far: present as soon as the node has
/// handed out the hash. The status is there only after a wait that was asked
/// for has come to its end.
pub open spec fn submit_report(s: SubmissionView) -> Option<SubmissionResultView> {
    match s.transaction_hash {
        Some(h) => Some(
            SubmissionResultView {
                transaction_hash: h,
                address: s.address,
                status: if s.wait_requested && s.phase is Finished {
                    Some(s.wait.state)
                } else {
                    None
                },
            },
        ),
        None => None,
    }
}

/// What holds of every submission that was started and stepped.
pub open spec fn submit_wf(s: SubmissionView) -> bool {
    &&& wait_wf(s.wait)
    &&& (s.phase is Signing || s.phase is Sending) ==> s.transaction_hash is None && s.error is None
    &&& s.transaction_hash is None ==> s.address is None
    &&& (s.phase is Waiting || s.phase is Finished) ==> s.transaction_hash is Some && s.error is None
    &&& s.phase is Failed ==> s.transaction_hash is None && s.error is Some
    &&& s.phase is Waiting ==> s.wait_requested && !is_final(s.wait.state)
    &&& s.phase is Finished && s.wait_requested ==> is_final(s.wait.state)
    &&& !(s.phase is Waiting || s.phase is Finished) ==> s.wait == wait_start(s.wait.policy)
}

/// A submission in progress.
#[derive(Debug, PartialEq, Eq)]
pub struct Submission {
    phase: SubmitPhase,
    keystore: bool,
    unlocked: bool,
    wait_requested: bool,
    expected_address: Option<Felt>,
    wait: WaitLoop,
    transaction_hash: Option<Felt>,
    address: Option<Felt>,
    error: Option<SubmissionError>,
}

/// The model of an optional error.
pub open spec fn opt_error(e: Option<SubmissionError>) -> Option<SubmissionErrorView> {
    match e {
        Some(v) => Some(v@),
        None => None,
    }
}

impl View for Submission {
    type V = SubmissionView;

    closed spec fn view(&self) -> SubmissionView {
        SubmissionView {
            phase: self.phase,
            keystore: self.keystore,
            unlocked: self.unlocked,
            wait_requested: self.wait_requested,
            expected_address: opt_felt(self.expected_address),
            wait: self.wait@,
            transaction_hash: opt_felt(self.transaction_hash),
            address: opt_felt(self.address),
            error: opt_error(self.error),
        }
    }
}

impl SubmissionError {
    /// A copy with the same payload.
    pub fn clone_error(&self) -> (r: SubmissionError)
        ensures
            r@ == self@,
    {
        match self {
            SubmissionError::SigningFailed => SubmissionError::SigningFailed,
            SubmissionError::Rejected { payload } => SubmissionError::Rejected {
                payload: payload.clone(),
            },
        }
    }
}

impl Submission {
    #[verifier::type_invariant]
    spec fn inv(self) -> bool {
        submit_wf(self@)
    }

    /// Starts a submission. `keystore` says whether the signer is a keystore,
    /// `unlocked` whether it was decrypted earlier in this run, `wait` whether
    /// to wait for finality, under the bounds of `policy`; `expected_address`
    /// is the address that the transaction is known to lead to, if any.
    pub fn start(
        keystore: bool,
        unlocked: bool,
        wait: bool,
        policy: WaitPolicy,
        expected_address: Option<Felt>,
    ) -> (r: Submission)
        ensures
            r@ == submit_start(keystore, unlocked, wait, policy, opt_felt(expected_address)),
    {
        Submission {
            phase: SubmitPhase::Signing,
            keystore,
            unlocked,
            wait_requested: wait,
            expected_address,
            wait: WaitLoop::new(policy),
            transaction_hash: None,
            address: None,
            error: None,
        }
    }

    /// The stage the submission is in.
    pub fn phase(&self) -> (r: SubmitPhase)
        ensures
            r == self@.phase,
    {
        self.phase
    }

    /// Whether the keystore counts as decrypted after what happened so far.
    pub fn keystore_unlocked(&self) -> (r: bool)
        ensures
            r == self@.unlocked,
    {
        self.unlocked
    }

    /// The wait as it stands.
    pub fn wait(&self) -> (r: WaitLoop)
        ensures
            r@ == self@.wait,
    {
        self.wait
    }

    /// What to do next.
    pub fn next_action(&self) -> (r: SubmitAction)
        ensures
            r == submit_action(self@),
    {
        match self.phase {
            SubmitPhase::Signing => SubmitAction::Sign {
                unlock_keystore: self.keystore && !self.unlocked,
            },
            SubmitPhase::Sending => SubmitAction::Send,
            SubmitPhase::Waiting => SubmitAction::Poll { after_ms: self.wait.policy().interval_ms },
            SubmitPhase::Finished | SubmitPhase::Failed => SubmitAction::Done,
        }
    }

    /// Takes in what the caller reports.
    pub fn step(&mut self, event: &SubmitEvent)
        ensures
            final(self)@ == submit_step(old(self)@, event@),
    {
        proof {
            use_type_invariant(&*self);
        }
        match self.phase {
            SubmitPhase::Signing => match event {
                SubmitEvent::Signed => {
                    *self = Submission {
                        phase: SubmitPhase::Sending,
                        keystore: self.keystore,
                        unlocked: self.unlocked || self.keystore,
                        wait_requested: self.wait_requested,
                        expected_address: self.expected_address,
                        wait: self.wait,
                        transaction_hash: None,
                        address: None,
                        error: None,
                    };
                },
                SubmitEvent::SigningFailed => {
                    *self = Submission {
                        phase: SubmitPhase::Failed,
                        keystore: self.keystore,
                        unlocked: self.unlocked,
                        wait_requested: self.wait_requested,
                        expected_address: self.expected_address,
                        wait: self.wait,
                        transaction_hash: None,
                        address: None,
                        error: Some(SubmissionError::SigningFailed),
                    };
                },
                _ => {},
            },
            SubmitPhase::Sending => match event {
                SubmitEvent::Sent { transaction_hash, address } => {
                    let phase = if self.wait_requested && !self.wait.is_done() {
                        SubmitPhase::Waiting
                    } else {
                        SubmitPhase::Finished
                    };
                    proof {
                        if self.wait_requested && is_final(self.wait@.state) {
                            assert(self.wait@ == wait_start(self.wait@.policy));
                        }
                    }
                    *self = Submission {
                        phase,
                        keystore: self.keystore,
                        unlocked: self.unlocked,
                        wait_requested: self.wait_requested,
                        expected_address: self.expected_address,
                        wait: self.wait,
                        transaction_hash: Some(*transaction_hash),
                        address: if self.expected_address.is_some() {
                            self.expected_address
                        } else {
                            *address
                        },
                        error: None,
                    };
                },
                SubmitEvent::SendFailed { payload } => {
                    *self = Submission {
                        phase: SubmitPhase::Failed,
                        keystore: self.keystore,
                        unlocked: self.unlocked,
                        wait_requested: self.wait_requested,
                        expected_address: self.expected_address,
                        wait: self.wait,
                        transaction_hash: None,
                        address: None,
                        error: Some(SubmissionError::Rejected { payload: payload.clone() }),
                    };
                },
                _ => {},
            },
            SubmitPhase::Waiting => match event {
                SubmitEvent::Polled(o) => {
                    let mut wait = self.wait;
                    wait.observe(*o);
                    let phase = if wait.is_done() {
                        SubmitPhase::Finished
                    } else {
                        SubmitPhase::Waiting
                    };
                    proof {
                        lemma_wait_step_keeps_wf(self.wait@, *o);
                    }
                    *self = Submission {
                        phase,
                        keystore: self.keystore,
                        unlocked: self.unlocked,
                        wait_requested: self.wait_requested,
                        expected_address: self.expected_address,
                        wait,
                        transaction_hash: self.transaction_hash,
                        address: self.address,
                        error: None,
                    };
                },
                _ => {},
            },
            SubmitPhase::Finished | SubmitPhase::Failed => {},
        }
    }

    /// What is known of the transaction so far; `None` until the node has
    /// handed out the hash.
    pub fn report(&self) -> (r: Option<SubmissionResult>)
        ensures
            match r {
                Some(v) => submit_report(self@) == Some(v@),
                None => submit_report(self@) is None,
            },
    {
        match self.transaction_hash {
            Some(h) => Some(
                SubmissionResult {
                    transaction_hash: h,
                    address: self.address,
                    status: if self.wait_requested && self.phase == SubmitPhase::Finished {
                        Some(self.wait.state())
                    } else {
                        None
                    },
                },
            ),
            None => None,
        }
    }

    /// The outcome of the command: `None` while work is left, the result once
    /// the submission is finished, the error once it has failed.
    pub fn outcome(&self) -> (r: Option<Result<SubmissionResult, SubmissionError>>)
        ensures
            r is Some <==> (self@.phase is Finished || self@.phase is Failed),
            self@.phase is Finished ==> (r matches Some(Ok(v)) && submit_report(self@) == Some(v@)),
            self@.phase is Failed ==> (r matches Some(Err(e)) && self@.error == Some(e@)),
    {
        proof {
            use_type_invariant(self);
        }
        match self.phase {
            SubmitPhase::Finished => match self.report() {
                Some(v) => Some(Ok(v)),
                None => None,
            },
            SubmitPhase::Failed => match &self.error {
                Some(e) => Some(Err(e.clone_error())),
                None => None,
            },
            _ => None,
        }
    }
}

/// The models of a list of events, in order.
pub open spec fn events_view(events: Seq<SubmitEvent>) -> Seq<SubmitEventView> {
    Seq::new(events.len(), |i: int| events[i]@)
}

/// Starts the submission of a transaction that `identity` signs. `unlocked`
/// says whether the keystore was decrypted earlier in this run. Nothing is
/// signed or sent here: the submission asks for each step in turn.
pub fn submit(
    tx: &UnsignedTransaction,
    identity: &SigningIdentity,
    unlocked: bool,
    wait: bool,
    policy: WaitPolicy,
) -> (r: Submission)
    ensures
        r@ == submit_start(identity@ is KeystoreEntry, unlocked, wait, policy, target_of(tx@)),
{
    Submission::start(identity.is_keystore(), unlocked, wait, policy, expected_address(tx))
}

/// Runs a submission over recorded events, in order, and returns where it ends.
pub fn run_submission(start: Submission, events: &Vec<SubmitEvent>) -> (r: Submission)
    ensures
        r@ == submit_run(start@, events_view(events@)),
{
    let ghost from = start@;
    let mut s = start;
    let mut i: usize = 0;
    assert(events_view(events@).take(0) =~= Seq::<SubmitEventView>::empty());
    while i < events.len()
        invariant
            i <= events.len(),
            s@ == submit_run(from, events_view(events@).take(i as int)),
        decreases events.len() - i,
    {
        s.step(&events[i]);
        proof {
            assert(events_view(events@).take(i + 1).drop_last() =~= events_view(events@).take(
                i as int,
            ));
        }
        i += 1;
    }
    proof {
        assert(events_view(events@).take(events.len() as int) =~= events_view(events@));
    }
    s
}

/// Every submission that was started and stepped is well formed.
pub proof fn lemma_step_keeps_wf(s: SubmissionView, e: SubmitEventView)
    requires
        submit_wf(s),
    ensures
        submit_wf(submit_step(s, e)),
{
}

/// The hash survives: once the node has handed out a transaction hash, no
/// sequence of later events loses it, changes it or the address, or turns the
/// submission into a failure. Nor is anything signed or sent again: all that
/// is ever asked for afterwards is another poll.
pub proof fn lemma_hash_survives(s: SubmissionView, events: Seq<SubmitEventView>)
    requires
        submit_wf(s),
        s.transaction_hash is Some,
    ensures
        submit_wf(submit_run(s, events)),
        submit_run(s, events).transaction_hash == s.transaction_hash,
        submit_run(s, events).address == s.address,
        submit_run(s, events).expected_address == s.expected_address,
        submit_run(s, events).error is None,
        submit_run(s, events).phase is Waiting || submit_run(s, events).phase is Finished,
        submit_report(submit_run(s, events)) is Some,
        submit_action(submit_run(s, events)) is Poll || submit_action(submit_run(s, events)) is Done,
    decreases events.len(),
{
    if events.len() > 0 {
        lemma_hash_survives(s, events.drop_last());
    }
}

/// A status is reported only for a wait that was asked for and has ended, and
/// it is then a final state.
pub proof fn lemma_status_only_after_wait(s: SubmissionView)
    requires
        submit_wf(s),
    ensures
        submit_report(s) matches Some(r) ==> (r.status is Some <==> s.wait_requested
            && s.phase is Finished),
        submit_report(s) matches Some(r) ==> (r.status matches Some(st) ==> is_final(st)),
{
}

/// The keystore is decrypted at most once in a run: after a submission that
/// signed with a keystore, the keystore counts as unlocked and stays so, and a
/// submission started with it unlocked never asks to unlock it.
pub proof fn lemma_unlock_once(s: SubmissionView, events: Seq<SubmitEventView>)
    ensures
        s.unlocked ==> submit_run(s, events).unlocked,
        submit_run(s, events).keystore == s.keystore,
        s.unlocked ==> submit_action(submit_run(s, events)) != (SubmitAction::Sign {
            unlock_keystore: true,
        }),
        s.phase is Signing && !(submit_run(s, events).phase is Signing || submit_run(
            s,
            events,
        ).phase is Failed) && s.keystore ==> submit_run(s, events).unlocked,
    decreases events.len(),
{
    if events.len() > 0 {
        lemma_unlock_once(s, events.drop_last());
    }
}

} // verus!
