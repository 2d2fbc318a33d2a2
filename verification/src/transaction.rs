//! Building the unsigned transaction for a declare, a deploy or an invoke.
//!
//! The builder asks nothing of the network itself. The caller fetches chain
//! id and nonce afresh for every transaction, fetches one fee estimate where no
//! maximal fee was given, and hands all of it in.

use vstd::prelude::*;
use vstd::string::*;
use crate::felt::{Felt, felts_view};
use crate::felt::opt_felt;

verus! {

/// Percent of the estimate that is authorised by default.
pub const DEFAULT_OVERHEAD_PERCENT: u32 = 150;

/// The kinds of transaction.
#[derive(Clone, Copy, Debug, PartialEq, Eq, Structural)]
pub enum TxKind {
    Declare,
    Deploy,
    Invoke,
}

/// The parameters a transaction may need.
#[derive(Clone, Copy, Debug, PartialEq, Eq, Structural)]
pub enum Param {
    ClassPayload,
    ClassHash,
    ConstructorCalldata,
    Salt,
    ContractAddress,
    Selector,
    Calldata,
}

#[derive(Clone, Copy, Debug, PartialEq, Eq, Structural)]
pub enum BuildError {
    /// The kind of transaction needs a parameter that was not given.
    MissingParameter(Param),
    /// No maximal fee was given and no estimate could be had.
    FeeEstimationFailed,
    /// The estimate with its overhead does not fit the fee's range.
    FeeOutOfRange,
    /// The function name has a character outside ASCII.
    InvalidFunctionName,
}

/// A warning that does not stop a build: the chain decides.
#[derive(Clone, Copy, Debug, PartialEq, Eq, Structural)]
pub enum BuildWarning {
    /// The balance is below the maximal fee.
    InsufficientBalanceLikely,
}

/// What was given for a transaction. Which fields must be there depends on
/// the kind: a declare needs the class payload; a deploy the class hash, the
/// constructor calldata and the salt; an invoke the contract address, the
/// selector and the calldata.
#[derive(Clone, Debug, PartialEq, Eq)]
pub struct TxParams {
    pub class_payload: Option<Vec<u8>>,
    pub class_hash: Option<Felt>,
    pub constructor_calldata: Option<Vec<Felt>>,
    pub salt: Option<Felt>,
    pub unique: bool,
    pub contract_address: Option<Felt>,
    pub selector: Option<Felt>,
    pub calldata: Option<Vec<Felt>>,
}

pub struct TxParamsView {
    pub class_payload: Option<Seq<u8>>,
    pub class_hash: Option<Seq<u8>>,
    pub constructor_calldata: Option<Seq<Seq<u8>>>,
    pub salt: Option<Seq<u8>>,
    pub unique: bool,
    pub contract_address: Option<Seq<u8>>,
    pub selector: Option<Seq<u8>>,
    pub calldata: Option<Seq<Seq<u8>>>,
}

/// The bytes of an optional list of elements.
pub open spec fn opt_felts(v: Option<Vec<Felt>>) -> Option<Seq<Seq<u8>>> {
    match v {
        Some(l) => Some(felts_view(l@)),
        None => None,
    }
}

/// The bytes of an optional byte string.
pub open spec fn opt_bytes(v: Option<Vec<u8>>) -> Option<Seq<u8>> {
    match v {
        Some(l) => Some(l@),
        None => None,
    }
}

impl View for TxParams {
    type V = TxParamsView;

    open spec fn view(&self) -> TxParamsView {
        TxParamsView {
            class_payload: opt_bytes(self.class_payload),
            class_hash: opt_felt(self.class_hash),
            constructor_calldata: opt_felts(self.constructor_calldata),
            salt: opt_felt(self.salt),
            unique: self.unique,
            contract_address: opt_felt(self.contract_address),
            selector: opt_felt(self.selector),
            calldata: opt_felts(self.calldata),
        }
    }
}

/// What a transaction carries besides its envelope.
#[derive(Clone, Debug, PartialEq, Eq)]
pub enum TxPayload {
    Declare { class_payload: Vec<u8> },
    Deploy { class_hash: Felt, constructor_calldata: Vec<Felt>, salt: Felt, unique: bool },
    Invoke { contract_address: Felt, selector: Felt, calldata: Vec<Felt> },
}

pub enum TxPayloadView {
    Declare { class_payload: Seq<u8> },
    Deploy { class_hash: Seq<u8>, constructor_calldata: Seq<Seq<u8>>, salt: Seq<u8>, unique: bool },
    Invoke { contract_address: Seq<u8>, selector: Seq<u8>, calldata: Seq<Seq<u8>> },
}

impl View for TxPayload {
    type V = TxPayloadView;

    open spec fn view(&self) -> TxPayloadView {
        match self {
            TxPayload::Declare { class_payload } => TxPayloadView::Declare {
                class_payload: class_payload@,
            },
            TxPayload::Deploy {
                class_hash,
                constructor_calldata,
                salt,
                unique,
            } => TxPayloadView::Deploy {
                class_hash: class_hash@,
                constructor_calldata: felts_view(constructor_calldata@),
                salt: salt@,
                unique: *unique,
            },
            TxPayload::Invoke { contract_address, selector, calldata } => TxPayloadView::Invoke {
                contract_address: contract_address@,
                selector: selector@,
                calldata: felts_view(calldata@),
            },
        }
    }
}

/// A transaction ready to be signed.
#[derive(Clone, Debug, PartialEq, Eq)]
pub struct UnsignedTransaction {
    pub sender: Felt,
    pub nonce: Felt,
    pub max_fee: u128,
    pub chain_id: Felt,
    pub payload: TxPayload,
}

pub struct UnsignedTransactionView {
    pub sender: Seq<u8>,
    pub nonce: Seq<u8>,
    pub max_fee: nat,
    pub chain_id: Seq<u8>,
    pub payload: TxPayloadView,
}

impl View for UnsignedTransaction {
    type V = UnsignedTransactionView;

    open spec fn view(&self) -> UnsignedTransactionView {
        UnsignedTransactionView {
            sender: self.sender@,
            nonce: self.nonce@,
            max_fee: self.max_fee as nat,
            chain_id: self.chain_id@,
            payload: self.payload@,
        }
    }
}

/// The kind a payload belongs to.
pub open spec fn payload_kind(p: TxPayloadView) -> TxKind {
    match p {
        TxPayloadView::Declare { .. } => TxKind::Declare,
        TxPayloadView::Deploy { .. } => TxKind::Deploy,
        TxPayloadView::Invoke { .. } => TxKind::Invoke,
    }
}

/// The payload of a transaction of the given kind, or the first parameter
/// that the kind needs and that is missing.
pub open spec fn payload_of(kind: TxKind, p: TxParamsView) -> Result<TxPayloadView, Param> {
    match kind {
        TxKind::Declare => match p.class_payload {
            Some(class_payload) => Ok(TxPayloadView::Declare { class_payload }),
            None => Err(Param::ClassPayload),
        },
        TxKind::Deploy => match (p.class_hash, p.constructor_calldata, p.salt) {
            (None, _, _) => Err(Param::ClassHash),
            (Some(_), None, _) => Err(Param::ConstructorCalldata),
            (Some(_), Some(_), None) => Err(Param::Salt),
            (Some(class_hash), Some(constructor_calldata), Some(salt)) => Ok(
                TxPayloadView::Deploy { class_hash, constructor_calldata, salt, unique: p.unique },
            ),
        },
        TxKind::Invoke => match (p.contract_address, p.selector, p.calldata) {
            (None, _, _) => Err(Param::ContractAddress),
            (Some(_), None, _) => Err(Param::Selector),
            (Some(_), Some(_), None) => Err(Param::Calldata),
            (Some(contract_address), Some(selector), Some(calldata)) => Ok(
                TxPayloadView::Invoke { contract_address, selector, calldata },
            ),
        },
    }
}

/// The estimate with its overhead: `percent` hundredths of it, rounded up.
pub open spec fn fee_with_overhead(estimate: nat, percent: nat) -> nat {
    (estimate * percent + 99) / 100
}

/// The maximal fee of a transaction: the one given, else the estimate with
/// its overhead.
pub open spec fn max_fee_of(explicit: Option<u128>, estimate: Option<u128>, percent: nat) -> Result<
    nat,
    BuildError,
> {
    match explicit {
        Some(fee) => Ok(fee as nat),
        None => match estimate {
            None => Err(BuildError::FeeEstimationFailed),
            Some(e) => if fee_with_overhead(e as nat, percent) <= u128::MAX {
                Ok(fee_with_overhead(e as nat, percent))
            } else {
                Err(BuildError::FeeOutOfRange)
            },
        },
    }
}

/// The transaction that `build` returns, or the error it fails with. A
/// missing parameter is reported before anything about the fee.
pub open spec fn built(
    kind: TxKind,
    params: TxParamsView,
    sender: Seq<u8>,
    chain_id: Seq<u8>,
    nonce: Seq<u8>,
    explicit: Option<u128>,
    estimate: Option<u128>,
    percent: nat,
) -> Result<UnsignedTransactionView, BuildError> {
    match payload_of(kind, params) {
        Err(p) => Err(BuildError::MissingParameter(p)),
        Ok(payload) => match max_fee_of(explicit, estimate, percent) {
            Err(e) => Err(e),
            Ok(max_fee) => Ok(UnsignedTransactionView { sender, nonce, max_fee, chain_id, payload }),
        },
    }
}

/// How much of an estimate is authorised as the maximal fee.
#[derive(Clone, Copy, Debug, PartialEq, Eq)]
pub struct FeePolicy {
    overhead_percent: u32,
}

impl FeePolicy {
    #[verifier::type_invariant]
    spec fn inv(self) -> bool {
        self.overhead_percent > 100
    }

    /// The percent of the estimate that is authorised; always above 100.
    pub closed spec fn percent(self) -> nat {
        self.overhead_percent as nat
    }

    /// A policy that authorises `overhead_percent` hundredths of the estimate.
    /// Only a percentage above 100 leaves a margin, so no other is accepted.
    pub fn new(overhead_percent: u32) -> (r: Option<FeePolicy>)
        ensures
            r is Some <==> overhead_percent > 100,
            r matches Some(p) ==> p.percent() == overhead_percent,
    {
        if overhead_percent > 100 {
            Some(FeePolicy { overhead_percent })
        } else {
            None
        }
    }

    /// The default policy: one and a half times the estimate.
    pub fn standard() -> (r: FeePolicy)
        ensures
            r.percent() == DEFAULT_OVERHEAD_PERCENT,
    {
        FeePolicy { overhead_percent: DEFAULT_OVERHEAD_PERCENT }
    }

    /// The percent of the estimate that is authorised.
    pub fn overhead_percent(&self) -> (r: u32)
        ensures
            r == self.percent(),
            r > 100,
    {
        proof {
            use_type_invariant(self);
        }
        self.overhead_percent
    }

    /// The estimate with its overhead, or `None` where that is beyond the
    /// range of a fee.
    pub fn apply(&self, estimate: u128) -> (r: Option<u128>)
        ensures
            match r {
                Some(fee) => fee == fee_with_overhead(estimate as nat, self.percent()),
                None => fee_with_overhead(estimate as nat, self.percent()) > u128::MAX,
            },
    {
        let p: u128 = self.overhead_percent as u128;
        let q: u128 = estimate / 100;
        let rem: u128 = estimate % 100;
        assert(rem * p <= 99 * 0xffff_ffff) by (nonlinear_arith)
            requires
                rem <= 99,
                p <= 0xffff_ffff,
        ;
        let tail: u128 = (rem * p + 99) / 100;
        proof {
            let e = estimate as int;
            assert(e * p == 100 * (q * p) + rem * p) by (nonlinear_arith)
                requires
                    e == 100 * q + rem,
            ;
            assert(fee_with_overhead(estimate as nat, self.percent()) == q * p + tail);
        }
        match q.checked_mul(p) {
            None => None,
            Some(head) => head.checked_add(tail),
        }
    }
}

/// The most of a resource that a fee pays for.
#[derive(Clone, Copy, Debug, PartialEq, Eq, Structural)]
pub struct ResourceBound {
    pub max_amount: u64,
    pub max_price_per_unit: u128,
}

/// The units that `max_fee` pays for at `price` each, as far as a bound can
/// hold them. At price zero every amount is paid for.
pub open spec fn units_for(max_fee: nat, price: nat) -> nat {
    if price == 0 || max_fee / price > u64::MAX {
        u64::MAX as nat
    } else {
        max_fee / price
    }
}

/// The bound on a resource that authorises as much of `max_fee` as whole
/// units at `price_per_unit` allow, and never more than `max_fee`.
pub fn resource_bound(max_fee: u128, price_per_unit: u128) -> (r: ResourceBound)
    ensures
        r.max_price_per_unit == price_per_unit,
        r.max_amount == units_for(max_fee as nat, price_per_unit as nat),
        price_per_unit > 0 ==> r.max_amount * price_per_unit <= max_fee,
{
    if price_per_unit == 0 {
        return ResourceBound { max_amount: u64::MAX, max_price_per_unit: price_per_unit };
    }
    let units: u128 = max_fee / price_per_unit;
    let max_amount: u64 = if units > u64::MAX as u128 {
        u64::MAX
    } else {
        units as u64
    };
    proof {
        vstd::arithmetic::div_mod::lemma_fundamental_div_mod(max_fee as int, price_per_unit as int);
        vstd::arithmetic::div_mod::lemma_mod_bound(max_fee as int, price_per_unit as int);
        assert(max_amount * price_per_unit <= units * price_per_unit) by (nonlinear_arith)
            requires
                max_amount <= units,
                price_per_unit > 0,
        ;
        assert(units * price_per_unit == price_per_unit * units) by (nonlinear_arith);
    }
    ResourceBound { max_amount, max_price_per_unit: price_per_unit }
}

/// How many fee estimates a build needs: one where no maximal fee was given,
/// none where one was.
pub fn fee_estimates_needed(explicit_max_fee: Option<u128>) -> (n: u32)
    ensures
        n == (if explicit_max_fee is None {
            1u32
        } else {
            0u32
        }),
{
    match explicit_max_fee {
        Some(_) => 0,
        None => 1,
    }
}

/// Settles the maximal fee: the one given, else the estimate with its overhead.
pub fn resolve_max_fee(explicit_max_fee: Option<u128>, estimate: Option<u128>, policy: &FeePolicy) -> (r:
    Result<u128, BuildError>)
    ensures
        match r {
            Ok(fee) => max_fee_of(explicit_max_fee, estimate, policy.percent()) == Ok::<
                nat,
                BuildError,
            >(fee as nat),
            Err(e) => max_fee_of(explicit_max_fee, estimate, policy.percent()) == Err::<
                nat,
                BuildError,
            >(e),
        },
{
    match explicit_max_fee {
        Some(fee) => Ok(fee),
        None => match estimate {
            None => Err(BuildError::FeeEstimationFailed),
            Some(e) => match policy.apply(e) {
                Some(fee) => Ok(fee),
                None => Err(BuildError::FeeOutOfRange),
            },
        },
    }
}

/// Picks out of the parameters what the kind needs.
pub fn payload_for(kind: TxKind, params: TxParams) -> (r: Result<TxPayload, Param>)
    ensures
        match r {
            Ok(p) => payload_of(kind, params@) == Ok::<TxPayloadView, Param>(p@),
            Err(e) => payload_of(kind, params@) == Err::<TxPayloadView, Param>(e),
        },
{
    match kind {
        TxKind::Declare => match params.class_payload {
            Some(class_payload) => Ok(TxPayload::Declare { class_payload }),
            None => Err(Param::ClassPayload),
        },
        TxKind::Deploy => match params.class_hash {
            None => Err(Param::ClassHash),
            Some(class_hash) => match params.constructor_calldata {
                None => Err(Param::ConstructorCalldata),
                Some(constructor_calldata) => match params.salt {
                    None => Err(Param::Salt),
                    Some(salt) => Ok(
                        TxPayload::Deploy {
                            class_hash,
                            constructor_calldata,
                            salt,
                            unique: params.unique,
                        },
                    ),
                },
            },
        },
        TxKind::Invoke => match params.contract_address {
            None => Err(Param::ContractAddress),
            Some(contract_address) => match params.selector {
                None => Err(Param::Selector),
                Some(selector) => match params.calldata {
                    None => Err(Param::Calldata),
                    Some(calldata) => Ok(TxPayload::Invoke { contract_address, selector, calldata }),
                },
            },
        },
    }
}

/// Builds the unsigned transaction. `estimate` is what the fee-estimate query
/// brought, `None` where it failed or was not made; it is looked at only
/// where no maximal fee was given.
pub fn build(
    kind: TxKind,
    params: TxParams,
    sender: &Felt,
    chain_id: &Felt,
    nonce: &Felt,
    explicit_max_fee: Option<u128>,
    estimate: Option<u128>,
    policy: &FeePolicy,
) -> (r: Result<UnsignedTransaction, BuildError>)
    ensures
        match r {
            Ok(tx) => built(
                kind,
                params@,
                sender@,
                chain_id@,
                nonce@,
                explicit_max_fee,
                estimate,
                policy.percent(),
            ) == Ok::<UnsignedTransactionView, BuildError>(tx@),
            Err(e) => built(
                kind,
                params@,
                sender@,
                chain_id@,
                nonce@,
                explicit_max_fee,
                estimate,
                policy.percent(),
            ) == Err::<UnsignedTransactionView, BuildError>(e),
        },
        r matches Ok(tx) ==> payload_kind(tx@.payload) == kind,
{
    match payload_for(kind, params) {
        Err(p) => Err(BuildError::MissingParameter(p)),
        Ok(payload) => match resolve_max_fee(explicit_max_fee, estimate, policy) {
            Err(e) => Err(e),
            Ok(max_fee) => Ok(
                UnsignedTransaction {
                    sender: *sender,
                    nonce: *nonce,
                    max_fee,
                    chain_id: *chain_id,
                    payload,
                },
            ),
        },
    }
}

impl UnsignedTransaction {
    /// The kind of the transaction.
    pub fn kind(&self) -> (r: TxKind)
        ensures
            r == payload_kind(self@.payload),
    {
        match &self.payload {
            TxPayload::Declare { .. } => TxKind::Declare,
            TxPayload::Deploy { .. } => TxKind::Deploy,
            TxPayload::Invoke { .. } => TxKind::Invoke,
        }
    }

    /// The warning to show with the transaction, given the sender's balance:
    /// a balance below the maximal fee is likely not to suffice.
    pub fn balance_warning(&self, balance: u128) -> (r: Option<BuildWarning>)
        ensures
            r == (if balance < self.max_fee {
                Some(BuildWarning::InsufficientBalanceLikely)
            } else {
                None
            }),
    {
        if balance < self.max_fee {
            Some(BuildWarning::InsufficientBalanceLikely)
        } else {
            None
        }
    }
}

/// The estimate is never authorised as it is: with its overhead it is
/// strictly more, for every estimate above zero.
pub proof fn lemma_overhead_exceeds_estimate(estimate: nat, policy: FeePolicy)
    requires
        estimate > 0,
        policy.percent() > 100,
    ensures
        fee_with_overhead(estimate, policy.percent()) > estimate,
        max_fee_of(None, Some(estimate as u128), policy.percent()) != Ok::<nat, BuildError>(
            estimate,
        ),
{
    let p = policy.percent();
    assert(estimate * p >= estimate * 101) by (nonlinear_arith)
        requires
            p >= 101,
            estimate >= 0,
    ;
}

/// A maximal fee that was given is taken as it is, whatever the estimate.
pub proof fn lemma_explicit_fee_wins(fee: u128, e1: Option<u128>, e2: Option<u128>, percent: nat)
    ensures
        max_fee_of(Some(fee), e1, percent) == Ok::<nat, BuildError>(fee as nat),
        max_fee_of(Some(fee), e1, percent) == max_fee_of(Some(fee), e2, percent),
{
}

} // verus!
