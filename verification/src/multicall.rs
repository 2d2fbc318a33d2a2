//! Ordered batches of calls, run one entry at a time.
//!
//! Entries are attempted strictly in the order of the batch. The first entry
//! that cannot be submitted ends the run: it is reported with its index, after
//! the results of the entries before it, and no entry after it is attempted.
//! What earlier entries did on the chain stays done.

use vstd::prelude::*;
use crate::felt::{Felt, copy_felts, felts_view};
use crate::submission::{SubmissionError, SubmissionErrorView, SubmissionResult, SubmissionResultView};
use crate::transaction::{BuildError, FeePolicy, TxKind, TxParams, TxParamsView, UnsignedTransaction};
use crate::transaction::{UnsignedTransactionView, build, built};

verus! {

/// One call of a batch.
#[derive(Clone, Debug, PartialEq, Eq)]
pub struct CallSpec {
    pub contract_address: Felt,
    pub selector: Felt,
    pub calldata: Vec<Felt>,
}

pub struct CallSpecView {
    pub contract_address: Seq<u8>,
    pub selector: Seq<u8>,
    pub calldata: Seq<Seq<u8>>,
}

impl View for CallSpec {
    type V = CallSpecView;

    open spec fn view(&self) -> CallSpecView {
        CallSpecView {
            contract_address: self.contract_address@,
            selector: self.selector@,
            calldata: felts_view(self.calldata@),
        }
    }
}

/// The calls of a batch, in the order in which they are to run.
#[derive(Clone, Debug, PartialEq, Eq)]
pub struct MulticallBatch {
    pub calls: Vec<CallSpec>,
}

/// Why an entry could not be submitted.
#[derive(Clone, Debug, PartialEq, Eq)]
pub enum EntryError {
    /// Its transaction could not be built.
    Build(BuildError),
    /// Its transaction could not be signed or was refused.
    Submission(SubmissionError),
}

pub enum EntryErrorView {
    Build(BuildError),
    Submission(SubmissionErrorView),
}

impl View for EntryError {
    type V = EntryErrorView;

    open spec fn view(&self) -> EntryErrorView {
        match self {
            EntryError::Build(e) => EntryErrorView::Build(*e),
            EntryError::Submission(e) => EntryErrorView::Submission(e@),
        }
    }
}

/// What became of one entry.
#[derive(Clone, Debug, PartialEq, Eq)]
pub enum EntryOutcome {
    /// The node took its transaction.
    Submitted(SubmissionResult),
    /// It could not be submitted.
    Failed(EntryError),
}

pub enum EntryOutcomeView {
    Submitted(SubmissionResultView),
    Failed(EntryErrorView),
}

impl View for EntryOutcome {
    type V = EntryOutcomeView;

    open spec fn view(&self) -> EntryOutcomeView {
        match self {
            EntryOutcome::Submitted(r) => EntryOutcomeView::Submitted(r@),
            EntryOutcome::Failed(e) => EntryOutcomeView::Failed(e@),
        }
    }
}

/// The models of a list of outcomes, in order.
pub open spec fn outcomes_view(v: Seq<EntryOutcome>) -> Seq<EntryOutcomeView> {
    Seq::new(v.len(), |i: int| v[i]@)
}

/// The parameters of the invoke that runs a call.
pub open spec fn call_params(c: CallSpecView) -> TxParamsView {
    TxParamsView {
        class_payload: None,
        class_hash: None,
        constructor_calldata: None,
        salt: None,
        unique: false,
        contract_address: Some(c.contract_address),
        selector: Some(c.selector),
        calldata: Some(c.calldata),
    }
}

/// Whether the first `n` outcomes are all submissions.
pub open spec fn all_submitted(outcomes: Seq<EntryOutcomeView>, n: int) -> bool {
    forall|j: int| 0 <= j < n && j < outcomes.len() ==> (#[trigger] outcomes[j]) is Submitted
}

/// Whether a run over a batch of `total` entries, fed these outcomes in
/// order, stops after `n` attempts: every attempt but the last was
/// submitted, and the run went on until the batch or the outcomes were
/// used up or an attempt failed.
pub open spec fn stops_after(total: nat, outcomes: Seq<EntryOutcomeView>, n: int) -> bool {
    &&& 0 <= n <= total
    &&& n <= outcomes.len()
    &&& all_submitted(outcomes, n - 1)
    &&& (n == total || n == outcomes.len() || (n > 0 && outcomes[n - 1] is Failed))
}

/// The model of a run: the size of the batch and the results so far.
pub struct MulticallView {
    pub total: nat,
    pub results: Seq<EntryOutcomeView>,
}

/// Whether the run goes on: entries are left and none has failed.
pub open spec fn can_continue(v: MulticallView) -> bool {
    v.results.len() < v.total && (v.results.len() == 0 || v.results.last() is Submitted)
}

/// The run after the outcome of the entry that was due. A run that has
/// stopped takes nothing in.
pub open spec fn record_step(v: MulticallView, o: EntryOutcomeView) -> MulticallView {
    if can_continue(v) {
        MulticallView { results: v.results.push(o), ..v }
    } else {
        v
    }
}

/// The run after a sequence of outcomes, taken in order.
pub open spec fn record_all(v: MulticallView, outcomes: Seq<EntryOutcomeView>) -> MulticallView
    decreases outcomes.len(),
{
    if outcomes.len() == 0 {
        v
    } else {
        record_step(record_all(v, outcomes.drop_last()), outcomes.last())
    }
}

/// The index of the entry that failed, if one did.
pub open spec fn failure_at(v: MulticallView) -> Option<int> {
    if v.results.len() > 0 && v.results.last() is Failed {
        Some(v.results.len() - 1)
    } else {
        None
    }
}

/// What holds of every run: no more results than entries, and no failure
/// but in the last place.
pub open spec fn multicall_wf(v: MulticallView) -> bool {
    &&& v.results.len() <= v.total
    &&& all_submitted(v.results, v.results.len() - 1)
}

/// A run over a batch.
#[derive(Debug, PartialEq, Eq)]
pub struct MulticallRun {
    total: usize,
    results: Vec<EntryOutcome>,
}

impl View for MulticallRun {
    type V = MulticallView;

    closed spec fn view(&self) -> MulticallView {
        MulticallView { total: self.total as nat, results: outcomes_view(self.results@) }
    }
}

impl CallSpec {
    /// The parameters of the invoke that runs this call.
    pub fn params(&self) -> (r: TxParams)
        ensures
            r@ == call_params(self@),
    {
        TxParams {
            class_payload: None,
            class_hash: None,
            constructor_calldata: None,
            salt: None,
            unique: false,
            contract_address: Some(self.contract_address),
            selector: Some(self.selector),
            calldata: Some(copy_felts(&self.calldata)),
        }
    }

    /// Builds the invoke that runs this call. Chain id and nonce are those
    /// fetched for this entry; `estimate` is what the fee-estimate query for
    /// this entry brought.
    pub fn transaction(
        &self,
        sender: &Felt,
        chain_id: &Felt,
        nonce: &Felt,
        explicit_max_fee: Option<u128>,
        estimate: Option<u128>,
        policy: &FeePolicy,
    ) -> (r: Result<UnsignedTransaction, BuildError>)
        ensures
            match r {
                Ok(tx) => built(
                    TxKind::Invoke,
                    call_params(self@),
                    sender@,
                    chain_id@,
                    nonce@,
                    explicit_max_fee,
                    estimate,
                    policy.percent(),
                ) == Ok::<UnsignedTransactionView, BuildError>(tx@),
                Err(e) => built(
                    TxKind::Invoke,
                    call_params(self@),
                    sender@,
                    chain_id@,
                    nonce@,
                    explicit_max_fee,
                    estimate,
                    policy.percent(),
                ) == Err::<UnsignedTransactionView, BuildError>(e),
            },
    {
        build(
            TxKind::Invoke,
            self.params(),
            sender,
            chain_id,
            nonce,
            explicit_max_fee,
            estimate,
            policy,
        )
    }
}

impl EntryError {
    /// A copy with the same content.
    pub fn clone_error(&self) -> (r: EntryError)
        ensures
            r@ == self@,
    {
        match self {
            EntryError::Build(e) => EntryError::Build(*e),
            EntryError::Submission(e) => EntryError::Submission(e.clone_error()),
        }
    }
}

impl EntryOutcome {
    /// A copy with the same content.
    pub fn clone_outcome(&self) -> (r: EntryOutcome)
        ensures
            r@ == self@,
    {
        match self {
            EntryOutcome::Submitted(v) => EntryOutcome::Submitted(*v),
            EntryOutcome::Failed(e) => EntryOutcome::Failed(e.clone_error()),
        }
    }

    /// Whether the entry was submitted.
    pub fn is_submitted(&self) -> (r: bool)
        ensures
            r == (self@ is Submitted),
    {
        match self {
            EntryOutcome::Submitted(_) => true,
            EntryOutcome::Failed(_) => false,
        }
    }
}

impl MulticallRun {
    #[verifier::type_invariant]
    spec fn inv(self) -> bool {
        multicall_wf(self@)
    }

    /// A run over a batch of `total` entries, before the first attempt.
    pub fn new(total: usize) -> (r: MulticallRun)
        ensures
            r@ == (MulticallView { total: total as nat, results: Seq::empty() }),
    {
        let r = MulticallRun { total, results: Vec::new() };
        assert(r@.results =~= Seq::<EntryOutcomeView>::empty());
        r
    }

    /// A run over the entries of a batch.
    pub fn over(batch: &MulticallBatch) -> (r: MulticallRun)
        ensures
            r@ == (MulticallView { total: batch.calls@.len(), results: Seq::empty() }),
    {
        MulticallRun::new(batch.calls.len())
    }

    /// The index of the entry to attempt next; `None` once the batch is
    /// through or an entry has failed.
    pub fn next_entry(&self) -> (r: Option<usize>)
        ensures
            r is Some <==> can_continue(self@),
            r matches Some(i) ==> i == self@.results.len(),
    {
        let n = self.results.len();
        if n < self.total && (n == 0 || self.results[n - 1].is_submitted()) {
            Some(n)
        } else {
            None
        }
    }

    /// Takes in the outcome of the entry that was due.
    pub fn record(&mut self, outcome: EntryOutcome)
        ensures
            final(self)@ == record_step(old(self)@, outcome@),
    {
        proof {
            use_type_invariant(&*self);
        }
        if self.next_entry().is_none() {
            return ;
        }
        let ghost before = self@;
        let ghost o = outcome@;
        let total = self.total;
        let mut results = Vec::new();
        core::mem::swap(&mut results, &mut self.results);
        results.push(outcome);
        proof {
            assert(outcomes_view(results@) =~= before.results.push(o));
            lemma_record_keeps_wf(before, o);
        }
        *self = MulticallRun { total, results };
    }

    /// The results so far, one for each entry attempted, in batch order.
    pub fn results(&self) -> (r: &Vec<EntryOutcome>)
        ensures
            outcomes_view(r@) == self@.results,
            multicall_wf(self@),
    {
        proof {
            use_type_invariant(self);
        }
        &self.results
    }

    /// The number of entries attempted.
    pub fn attempted(&self) -> (r: usize)
        ensures
            r == self@.results.len(),
    {
        self.results.len()
    }

    /// The index of the entry that failed, if one did. It is the last one
    /// attempted.
    pub fn failure_index(&self) -> (r: Option<usize>)
        ensures
            match r {
                Some(i) => failure_at(self@) == Some(i as int),
                None => failure_at(self@) is None,
            },
    {
        let n = self.results.len();
        if n > 0 && !self.results[n - 1].is_submitted() {
            Some(n - 1)
        } else {
            None
        }
    }
}

/// Runs a batch of `total` entries over recorded outcomes, in order, and
/// returns where the run ends. Outcomes after the one that ended the run are
/// not taken in.
pub fn run_recorded(total: usize, outcomes: &Vec<EntryOutcome>) -> (r: MulticallRun)
    ensures
        r@ == record_all(
            MulticallView { total: total as nat, results: Seq::empty() },
            outcomes_view(outcomes@),
        ),
        r@.total == total,
        stops_after(total as nat, outcomes_view(outcomes@), r@.results.len() as int),
        r@.results == outcomes_view(outcomes@).take(r@.results.len() as int),
{
    let ghost all = outcomes_view(outcomes@);
    let ghost start = MulticallView { total: total as nat, results: Seq::empty() };
    let mut run = MulticallRun::new(total);
    let mut i: usize = 0;
    assert(all.take(0) =~= Seq::<EntryOutcomeView>::empty());
    while i < outcomes.len()
        invariant
            i <= outcomes.len(),
            all == outcomes_view(outcomes@),
            run@ == record_all(start, all.take(i as int)),
        decreases outcomes.len() - i,
    {
        run.record(outcomes[i].clone_outcome());
        proof {
            assert(all.take(i + 1).drop_last() =~= all.take(i as int));
            assert(all.take(i + 1).last() == all[i as int]);
        }
        i += 1;
    }
    proof {
        assert(all.take(outcomes.len() as int) =~= all);
        lemma_run_stops(total as nat, all);
    }
    run
}

/// Recording an outcome keeps the run well formed.
pub proof fn lemma_record_keeps_wf(v: MulticallView, o: EntryOutcomeView)
    requires
        multicall_wf(v),
    ensures
        multicall_wf(record_step(v, o)),
{
    if can_continue(v) {
        let w = record_step(v, o);
        assert forall|j: int| 0 <= j < w.results.len() - 1 && j < w.results.len() implies (
        #[trigger] w.results[j]) is Submitted by {
            assert(w.results[j] == v.results[j]);
            if j < v.results.len() - 1 {
                assert(v.results[j] is Submitted);
            }
        }
    }
}

/// Fail fast, in order: a run fed any outcomes reports a prefix of them, one
/// result for each entry attempted; it stops at the first failure, at the end
/// of the batch or at the end of the outcomes, whichever comes first; and no
/// entry after a failure is attempted.
pub proof fn lemma_run_stops(total: nat, outcomes: Seq<EntryOutcomeView>)
    ensures
        ({
            let r = record_all(MulticallView { total, results: Seq::empty() }, outcomes);
            &&& r.total == total
            &&& multicall_wf(r)
            &&& stops_after(total, outcomes, r.results.len() as int)
            &&& r.results == outcomes.take(r.results.len() as int)
        }),
    decreases outcomes.len(),
{
    let start = MulticallView { total, results: Seq::empty() };
    if outcomes.len() == 0 {
        assert(outcomes.take(0) =~= Seq::<EntryOutcomeView>::empty());
    } else {
        let head = outcomes.drop_last();
        lemma_run_stops(total, head);
        let before = record_all(start, head);
        let n = before.results.len() as int;
        if can_continue(before) {
            assert(n == head.len()) by {
                if n < head.len() {
                    assert(head[n - 1] == before.results[n - 1]);
                }
            }
            assert(before.results.push(outcomes.last()) =~= outcomes.take(n + 1));
            assert forall|j: int| 0 <= j < n && j < outcomes.len() implies (
            #[trigger] outcomes[j]) is Submitted by {
                assert(outcomes[j] == before.results[j]);
                if j < n - 1 {
                    assert(head[j] is Submitted);
                }
            }
        } else {
            assert(before.results =~= outcomes.take(n));
            assert forall|j: int| 0 <= j < n - 1 && j < outcomes.len() implies (
            #[trigger] outcomes[j]) is Submitted by {
                assert(outcomes[j] == head[j]);
            }
            if n > 0 {
                assert(outcomes[n - 1] == head[n - 1]);
                assert(before.results[n - 1] == head[n - 1]);
            }
        }
    }
}

/// The number of attempts is determined: two counts at which a run over the
/// same batch and outcomes stops are the same count.
pub proof fn lemma_stop_is_unique(total: nat, outcomes: Seq<EntryOutcomeView>, a: int, b: int)
    requires
        stops_after(total, outcomes, a),
        stops_after(total, outcomes, b),
    ensures
        a == b,
{
    if a < b {
        assert(outcomes[a - 1] is Submitted);
    } else if b < a {
        assert(outcomes[b - 1] is Submitted);
    }
}

/// A failure ends the run: when entry `k` is the first that fails, exactly
/// `k + 1` entries are attempted, whatever the later outcomes would have been.
pub proof fn lemma_failure_ends_run(total: nat, outcomes: Seq<EntryOutcomeView>, k: int)
    requires
        0 <= k < outcomes.len(),
        k < total,
        outcomes[k] is Failed,
        forall|j: int| 0 <= j < k ==> (#[trigger] outcomes[j]) is Submitted,
    ensures
        record_all(MulticallView { total, results: Seq::empty() }, outcomes).results
            == outcomes.take(k + 1),
        failure_at(record_all(MulticallView { total, results: Seq::empty() }, outcomes)) == Some(k),
{
    lemma_run_stops(total, outcomes);
    let r = record_all(MulticallView { total, results: Seq::empty() }, outcomes);
    assert(stops_after(total, outcomes, k + 1));
    lemma_stop_is_unique(total, outcomes, r.results.len() as int, k + 1);
}

} // verus!
