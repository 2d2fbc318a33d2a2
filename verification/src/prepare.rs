//! What is fetched from the network before a transaction is built.
//!
//! Chain id and nonce are fetched for every transaction, in that order, and
//! never taken over from an earlier one: a preparation starts with neither.
//! A fee estimate is fetched once, and only where no maximal fee was given.
//! The transaction that deploys an account is the first of its account: its
//! nonce is zero and is not asked for.

use vstd::prelude::*;
use crate::felt::{Felt, zero_bytes};
use crate::felt::opt_felt;
use crate::transaction::{BuildError, FeePolicy, TxKind, TxParams, UnsignedTransaction};
use crate::transaction::{UnsignedTransactionView, build, built};

verus! {

/// What the caller is asked to fetch.
#[derive(Clone, Copy, Debug, PartialEq, Eq, Structural)]
pub enum Query {
    ChainId,
    Nonce,
    FeeEstimate,
}

/// What a query brought.
#[derive(Clone, Copy, Debug, PartialEq, Eq)]
pub enum Answer {
    ChainId(Felt),
    Nonce(Felt),
    /// The estimate, or `None` where the query failed.
    FeeEstimate(Option<u128>),
}

pub enum AnswerView {
    ChainId(Seq<u8>),
    Nonce(Seq<u8>),
    FeeEstimate(Option<u128>),
}

impl View for Answer {
    type V = AnswerView;

    open spec fn view(&self) -> AnswerView {
        match self {
            Answer::ChainId(c) => AnswerView::ChainId(c@),
            Answer::Nonce(n) => AnswerView::Nonce(n@),
            Answer::FeeEstimate(e) => AnswerView::FeeEstimate(*e),
        }
    }
}

/// How far a preparation has come.
#[derive(Clone, Copy, Debug, PartialEq, Eq, Structural)]
pub enum Stage {
    NeedChainId,
    NeedNonce,
    NeedEstimate,
    Ready,
}

/// The model of a preparation.
pub struct PreparationView {
    pub stage: Stage,
    /// Whether the transaction deploys the account that sends it.
    pub account_deployment: bool,
    pub explicit_max_fee: Option<u128>,
    pub chain_id: Option<Seq<u8>>,
    pub nonce: Option<Seq<u8>>,
    pub estimate: Option<u128>,
}

/// A preparation before anything was fetched.
pub open spec fn prepare_start(explicit_max_fee: Option<u128>, account_deployment: bool) -> PreparationView {
    PreparationView {
        stage: Stage::NeedChainId,
        account_deployment,
        explicit_max_fee,
        chain_id: None,
        nonce: None,
        estimate: None,
    }
}

/// The query that is due, if any.
pub open spec fn pending_query(p: PreparationView) -> Option<Query> {
    match p.stage {
        Stage::NeedChainId => Some(Query::ChainId),
        Stage::NeedNonce => Some(Query::Nonce),
        Stage::NeedEstimate => Some(Query::FeeEstimate),
        Stage::Ready => None,
    }
}

/// The stage that follows once the nonce is there: an estimate is asked for
/// only where no maximal fee was given.
pub open spec fn stage_after_nonce(explicit_max_fee: Option<u128>) -> Stage {
    if explicit_max_fee is None {
        Stage::NeedEstimate
    } else {
        Stage::Ready
    }
}

/// One step: the answer to the query that is due is taken in, any other is
/// ignored. For the deployment of an account the nonce is zero as soon as
/// the chain id is there, and is not asked for.
pub open spec fn prepare_step(p: PreparationView, a: AnswerView) -> PreparationView {
    match (p.stage, a) {
        (Stage::NeedChainId, AnswerView::ChainId(c)) => if p.account_deployment {
            PreparationView {
                stage: stage_after_nonce(p.explicit_max_fee),
                chain_id: Some(c),
                nonce: Some(zero_bytes()),
                ..p
            }
        } else {
            PreparationView { stage: Stage::NeedNonce, chain_id: Some(c), ..p }
        },
        (Stage::NeedNonce, AnswerView::Nonce(n)) => PreparationView {
            stage: stage_after_nonce(p.explicit_max_fee),
            nonce: Some(n),
            ..p
        },
        (Stage::NeedEstimate, AnswerView::FeeEstimate(e)) => PreparationView {
            stage: Stage::Ready,
            estimate: e,
            ..p
        },
        _ => p,
    }
}

/// The preparation after a sequence of answers, taken in order.
pub open spec fn prepare_run(p: PreparationView, answers: Seq<AnswerView>) -> PreparationView
    decreases answers.len(),
{
    if answers.len() == 0 {
        p
    } else {
        prepare_step(prepare_run(p, answers.drop_last()), answers.last())
    }
}

/// How many queries have been answered at a stage.
pub open spec fn stage_rank(s: Stage) -> nat {
    match s {
        Stage::NeedChainId => 0,
        Stage::NeedNonce => 1,
        Stage::NeedEstimate => 2,
        Stage::Ready => 3,
    }
}

/// How many fee estimates have been taken in at a stage: one once an
/// estimate was asked for and answered, none before and none where a
/// maximal fee was given.
pub open spec fn estimates_taken(p: PreparationView) -> nat {
    if p.stage is Ready && p.explicit_max_fee is None {
        1
    } else {
        0
    }
}

/// What holds of every preparation that was started and stepped.
pub open spec fn prepare_wf(p: PreparationView) -> bool {
    &&& p.chain_id is Some <==> stage_rank(p.stage) >= 1
    &&& p.nonce is Some <==> stage_rank(p.stage) >= 2
    &&& p.stage is NeedEstimate ==> p.explicit_max_fee is None
    &&& p.stage is NeedNonce ==> !p.account_deployment
    &&& p.account_deployment && p.nonce is Some ==> p.nonce == Some(zero_bytes())
    &&& p.estimate is Some ==> p.stage is Ready && p.explicit_max_fee is None
}

/// A preparation in progress.
#[derive(Clone, Copy, Debug, PartialEq, Eq)]
pub struct Preparation {
    stage: Stage,
    account_deployment: bool,
    explicit_max_fee: Option<u128>,
    chain_id: Option<Felt>,
    nonce: Option<Felt>,
    estimate: Option<u128>,
}

impl View for Preparation {
    type V = PreparationView;

    closed spec fn view(&self) -> PreparationView {
        PreparationView {
            stage: self.stage,
            account_deployment: self.account_deployment,
            explicit_max_fee: self.explicit_max_fee,
            chain_id: opt_felt(self.chain_id),
            nonce: opt_felt(self.nonce),
            estimate: self.estimate,
        }
    }
}

impl Preparation {
    #[verifier::type_invariant]
    spec fn inv(self) -> bool {
        prepare_wf(self@)
    }

    /// Starts the preparation of one transaction of an account that exists.
    pub fn new(explicit_max_fee: Option<u128>) -> (r: Preparation)
        ensures
            r@ == prepare_start(explicit_max_fee, false),
    {
        Preparation {
            stage: Stage::NeedChainId,
            account_deployment: false,
            explicit_max_fee,
            chain_id: None,
            nonce: None,
            estimate: None,
        }
    }

    /// Starts the preparation of the transaction that deploys an account.
    /// No nonce will be asked for: the nonce is zero.
    pub fn for_account_deployment(explicit_max_fee: Option<u128>) -> (r: Preparation)
        ensures
            r@ == prepare_start(explicit_max_fee, true),
    {
        Preparation {
            stage: Stage::NeedChainId,
            account_deployment: true,
            explicit_max_fee,
            chain_id: None,
            nonce: None,
            estimate: None,
        }
    }

    /// The chain id, once it was fetched.
    pub fn chain_id(&self) -> (r: Option<Felt>)
        ensures
            opt_felt(r) == self@.chain_id,
    {
        self.chain_id
    }

    /// The nonce, once it is there.
    pub fn nonce(&self) -> (r: Option<Felt>)
        ensures
            opt_felt(r) == self@.nonce,
    {
        self.nonce
    }

    /// How far the preparation has come.
    pub fn stage(&self) -> (r: Stage)
        ensures
            r == self@.stage,
    {
        self.stage
    }

    /// The query to make next; `None` once everything is there.
    pub fn next_query(&self) -> (r: Option<Query>)
        ensures
            r == pending_query(self@),
    {
        match self.stage {
            Stage::NeedChainId => Some(Query::ChainId),
            Stage::NeedNonce => Some(Query::Nonce),
            Stage::NeedEstimate => Some(Query::FeeEstimate),
            Stage::Ready => None,
        }
    }

    /// Takes in the answer to a query.
    pub fn record(&mut self, answer: Answer)
        ensures
            final(self)@ == prepare_step(old(self)@, answer@),
    {
        proof {
            use_type_invariant(&*self);
        }
        let after_nonce = if self.explicit_max_fee.is_none() {
            Stage::NeedEstimate
        } else {
            Stage::Ready
        };
        match (self.stage, answer) {
            (Stage::NeedChainId, Answer::ChainId(c)) => {
                if self.account_deployment {
                    *self = Preparation {
                        stage: after_nonce,
                        account_deployment: true,
                        explicit_max_fee: self.explicit_max_fee,
                        chain_id: Some(c),
                        nonce: Some(Felt::zero()),
                        estimate: None,
                    };
                } else {
                    *self = Preparation {
                        stage: Stage::NeedNonce,
                        account_deployment: false,
                        explicit_max_fee: self.explicit_max_fee,
                        chain_id: Some(c),
                        nonce: None,
                        estimate: None,
                    };
                }
            },
            (Stage::NeedNonce, Answer::Nonce(n)) => {
                *self = Preparation {
                    stage: after_nonce,
                    account_deployment: self.account_deployment,
                    explicit_max_fee: self.explicit_max_fee,
                    chain_id: self.chain_id,
                    nonce: Some(n),
                    estimate: None,
                };
            },
            (Stage::NeedEstimate, Answer::FeeEstimate(e)) => {
                *self = Preparation {
                    stage: Stage::Ready,
                    account_deployment: self.account_deployment,
                    explicit_max_fee: self.explicit_max_fee,
                    chain_id: self.chain_id,
                    nonce: self.nonce,
                    estimate: e,
                };
            },
            _ => {},
        }
    }

    /// Builds the transaction from what was fetched; `None` while a query
    /// is still due.
    pub fn finish(&self, kind: TxKind, params: TxParams, sender: &Felt, policy: &FeePolicy) -> (r:
        Option<Result<UnsignedTransaction, BuildError>>)
        ensures
            r is Some <==> self@.stage is Ready,
            r matches Some(Ok(tx)) ==> self@.chain_id is Some && self@.nonce is Some && built(
                kind,
                params@,
                sender@,
                self@.chain_id->0,
                self@.nonce->0,
                self@.explicit_max_fee,
                self@.estimate,
                policy.percent(),
            ) == Ok::<UnsignedTransactionView, BuildError>(tx@),
            r matches Some(Err(e)) ==> self@.chain_id is Some && self@.nonce is Some && built(
                kind,
                params@,
                sender@,
                self@.chain_id->0,
                self@.nonce->0,
                self@.explicit_max_fee,
                self@.estimate,
                policy.percent(),
            ) == Err::<UnsignedTransactionView, BuildError>(e),
    {
        proof {
            use_type_invariant(self);
        }
        match (self.stage, self.chain_id, self.nonce) {
            (Stage::Ready, Some(chain_id), Some(nonce)) => Some(
                build(
                    kind,
                    params,
                    sender,
                    &chain_id,
                    &nonce,
                    self.explicit_max_fee,
                    self.estimate,
                    policy,
                ),
            ),
            _ => None,
        }
    }
}

/// A step keeps a preparation well formed, never goes back, takes in at
/// most one estimate, and asks for a nonce only for an account that exists.
pub proof fn lemma_prepare_step(p: PreparationView, a: AnswerView)
    requires
        prepare_wf(p),
    ensures
        prepare_wf(prepare_step(p, a)),
        prepare_step(p, a).explicit_max_fee == p.explicit_max_fee,
        prepare_step(p, a).account_deployment == p.account_deployment,
        pending_query(prepare_step(p, a)) == Some(Query::Nonce) ==> !p.account_deployment,
        stage_rank(p.stage) <= stage_rank(prepare_step(p, a).stage),
        estimates_taken(prepare_step(p, a)) == estimates_taken(p) + (if p.stage is NeedEstimate
            && a is FeeEstimate {
            1nat
        } else {
            0nat
        }),
{
}

/// Exactly one fee estimate, and only where none was given: however a
/// preparation is answered, it asks for an estimate only where no maximal
/// fee was given, and once it is ready it has taken in exactly one estimate
/// in that case and none otherwise. The deployment of an account never asks
/// for a nonce, and the nonce it holds is zero.
pub proof fn lemma_one_estimate(
    explicit_max_fee: Option<u128>,
    account_deployment: bool,
    answers: Seq<AnswerView>,
)
    ensures
        ({
            let p = prepare_run(prepare_start(explicit_max_fee, account_deployment), answers);
            &&& prepare_wf(p)
            &&& p.explicit_max_fee == explicit_max_fee
            &&& p.account_deployment == account_deployment
            &&& pending_query(p) == Some(Query::Nonce) ==> !account_deployment
            &&& account_deployment && p.nonce is Some ==> p.nonce == Some(zero_bytes())
            &&& pending_query(p) == Some(Query::FeeEstimate) ==> explicit_max_fee is None
            &&& estimates_taken(p) <= 1
            &&& p.stage is Ready ==> estimates_taken(p) == (if explicit_max_fee is None {
                1nat
            } else {
                0nat
            })
        }),
    decreases answers.len(),
{
    if answers.len() > 0 {
        lemma_one_estimate(explicit_max_fee, account_deployment, answers.drop_last());
        lemma_prepare_step(
            prepare_run(prepare_start(explicit_max_fee, account_deployment), answers.drop_last()),
            answers.last(),
        );
    }
}

/// Fresh values only: a preparation answered in turn holds exactly the chain
/// id, the nonce and the estimate it was given, and a preparation that was
/// just started holds none from before.
pub proof fn lemma_answers_taken_in_turn(
    explicit_max_fee: Option<u128>,
    chain_id: Seq<u8>,
    nonce: Seq<u8>,
    estimate: Option<u128>,
)
    ensures
        prepare_start(explicit_max_fee, false).chain_id is None,
        prepare_start(explicit_max_fee, false).nonce is None,
        ({
            let answers = seq![
                AnswerView::ChainId(chain_id),
                AnswerView::Nonce(nonce),
                AnswerView::FeeEstimate(estimate),
            ];
            let p = prepare_run(prepare_start(explicit_max_fee, false), answers);
            &&& p.stage is Ready
            &&& p.chain_id == Some(chain_id)
            &&& p.nonce == Some(nonce)
            &&& p.estimate == (if explicit_max_fee is None {
                estimate
            } else {
                None
            })
        }),
{
    let start = prepare_start(explicit_max_fee, false);
    let answers = seq![
        AnswerView::ChainId(chain_id),
        AnswerView::Nonce(nonce),
        AnswerView::FeeEstimate(estimate),
    ];
    let two = answers.drop_last();
    let one = two.drop_last();
    assert(one.drop_last() =~= Seq::<AnswerView>::empty());
    assert(prepare_run(start, one.drop_last()) == start);
    assert(one.last() == AnswerView::ChainId(chain_id));
    assert(two.last() == AnswerView::Nonce(nonce));
    assert(answers.last() == AnswerView::FeeEstimate(estimate));
    assert(prepare_run(start, one) == prepare_step(start, AnswerView::ChainId(chain_id)));
    assert(prepare_run(start, two) == prepare_step(
        prepare_run(start, one),
        AnswerView::Nonce(nonce),
    ));
}

/// A preparation that is ready stays as it is: no later answer replaces the
/// chain id, the nonce or the estimate.
pub proof fn lemma_ready_is_settled(p: PreparationView, answers: Seq<AnswerView>)
    requires
        p.stage is Ready,
    ensures
        prepare_run(p, answers) == p,
    decreases answers.len(),
{
    if answers.len() > 0 {
        lemma_ready_is_settled(p, answers.drop_last());
    }
}

} // verus!
