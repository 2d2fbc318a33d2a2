//! The records of the accounts file and their lifecycle: create, add, deploy, delete.
//!
//! A record is found by its network and its name together; no two records
//! share both. Nothing here reads or writes a file: the store is the content
//! of the file, and the caller persists it.

use vstd::prelude::*;
use vstd::string::*;
use crate::address::{account_address, account_target};
use crate::felt::{Felt, felts_view};
use crate::felt::opt_felt;
use crate::submission::{SubmissionError, SubmissionResult, SubmissionResultView};
use crate::text::str_eq;
use crate::transaction::{TxParams, TxParamsView};
use crate::wait::WaitState;

verus! {

/// One account of the accounts file.
#[derive(Clone, Debug, PartialEq, Eq)]
pub struct AccountRecord {
    pub network: String,
    pub name: String,
    pub address: Felt,
    pub public_key: Felt,
    pub private_key: Felt,
    /// The class the account is an instance of, where it is known.
    pub class_hash: Option<Felt>,
    /// The salt the address was computed with, where it is known.
    pub salt: Option<Felt>,
    /// Whether the account exists on the chain; `false` while deployment is pending.
    pub deployed: bool,
}

pub struct AccountRecordView {
    pub network: Seq<char>,
    pub name: Seq<char>,
    pub address: Seq<u8>,
    pub public_key: Seq<u8>,
    pub private_key: Seq<u8>,
    pub class_hash: Option<Seq<u8>>,
    pub salt: Option<Seq<u8>>,
    pub deployed: bool,
}

impl View for AccountRecord {
    type V = AccountRecordView;

    open spec fn view(&self) -> AccountRecordView {
        AccountRecordView {
            network: self.network@,
            name: self.name@,
            address: self.address@,
            public_key: self.public_key@,
            private_key: self.private_key@,
            class_hash: opt_felt(self.class_hash),
            salt: opt_felt(self.salt),
            deployed: self.deployed,
        }
    }
}

#[derive(Clone, Copy, Debug, PartialEq, Eq, Structural)]
pub enum AccountError {
    /// No record of that name on that network.
    AccountNotFound,
    /// A record of that name on that network is there already.
    AccountAlreadyExists,
    /// The account is deployed already.
    AlreadyDeployed,
    /// The record lacks the class hash or the salt that a deployment needs.
    NotDeployable,
}

/// The models of a list of records, in order.
pub open spec fn records_view(v: Seq<AccountRecord>) -> Seq<AccountRecordView> {
    Seq::new(v.len(), |i: int| v[i]@)
}

/// Whether a record is the one of that name on that network.
pub open spec fn is_account(r: AccountRecordView, network: Seq<char>, name: Seq<char>) -> bool {
    r.network == network && r.name == name
}

/// Whether the records hold one of that name on that network.
pub open spec fn has_account(s: Seq<AccountRecordView>, network: Seq<char>, name: Seq<char>) -> bool {
    exists|i: int| 0 <= i < s.len() && is_account(#[trigger] s[i], network, name)
}

/// The place of the record of that name on that network, where there is one.
pub open spec fn position_of(s: Seq<AccountRecordView>, network: Seq<char>, name: Seq<char>) -> int {
    choose|i: int| 0 <= i < s.len() && is_account(#[trigger] s[i], network, name)
}

/// The record of that name on that network, if there is one.
pub open spec fn lookup(s: Seq<AccountRecordView>, network: Seq<char>, name: Seq<char>) -> Option<
    AccountRecordView,
> {
    if has_account(s, network, name) {
        Some(s[position_of(s, network, name)])
    } else {
        None
    }
}

/// Whether no two records share network and name.
pub open spec fn unique_accounts(s: Seq<AccountRecordView>) -> bool {
    forall|i: int, j: int|
        0 <= i < s.len() && 0 <= j < s.len() && i != j ==> !is_account(
            #[trigger] s[i],
            (#[trigger] s[j]).network,
            s[j].name,
        )
}

/// The record with its deployment marked as done.
pub open spec fn as_deployed(r: AccountRecordView) -> AccountRecordView {
    AccountRecordView { deployed: true, ..r }
}

/// The record that `create` writes.
pub open spec fn created_record(
    network: Seq<char>,
    name: Seq<char>,
    class_hash: Seq<u8>,
    salt: Seq<u8>,
    public_key: Seq<u8>,
    private_key: Seq<u8>,
) -> AccountRecordView {
    AccountRecordView {
        network,
        name,
        address: account_target(class_hash, salt, public_key),
        public_key,
        private_key,
        class_hash: Some(class_hash),
        salt: Some(salt),
        deployed: false,
    }
}

/// Whether a submission counts as a deployment that went through: it was
/// taken by the node and, where its finality was waited for, accepted.
pub open spec fn deploy_succeeded(r: SubmissionResultView) -> bool {
    r.status is None || r.status == Some(WaitState::Accepted)
}

/// The parameters of the transaction that deploys an account: its class, its
/// salt, its public key as the only calldata, not tied to a deployer.
pub open spec fn deploy_params(r: AccountRecordView) -> TxParamsView {
    TxParamsView {
        class_payload: None,
        class_hash: r.class_hash,
        constructor_calldata: Some(seq![r.public_key]),
        salt: r.salt,
        unique: false,
        contract_address: None,
        selector: None,
        calldata: None,
    }
}

/// The bytes of the class that a new account is an instance of where none is
/// named: `0x04d07e40e93398ed3c76981e72dd1fd22557a78ce36c0515f679e27f0bb5bc5f`.
pub open spec fn default_class_bytes() -> Seq<u8> {
    seq![
        0x04u8, 0xd0, 0x7e, 0x40, 0xe9, 0x33, 0x98, 0xed, 0x3c, 0x76, 0x98, 0x1e, 0x72, 0xdd, 0x1f,
        0xd2, 0x25, 0x57, 0xa7, 0x8c, 0xe3, 0x6c, 0x05, 0x15, 0xf6, 0x79, 0xe2, 0x7f, 0x0b, 0xb5,
        0xbc, 0x5f,
    ]
}

/// The class of a new account: the one named, else the default.
pub fn account_class(named: Option<Felt>) -> (r: Felt)
    ensures
        r@ == (match named {
            Some(c) => c@,
            None => default_class_bytes(),
        }),
{
    match named {
        Some(c) => c,
        None => {
            let r = Felt {
                bytes: [
                    0x04u8, 0xd0, 0x7e, 0x40, 0xe9, 0x33, 0x98, 0xed, 0x3c, 0x76, 0x98, 0x1e, 0x72,
                    0xdd, 0x1f, 0xd2, 0x25, 0x57, 0xa7, 0x8c, 0xe3, 0x6c, 0x05, 0x15, 0xf6, 0x79,
                    0xe2, 0x7f, 0x0b, 0xb5, 0xbc, 0x5f,
                ],
            };
            assert(r@ =~= default_class_bytes());
            r
        },
    }
}

/// The records of an accounts file.
#[derive(Debug, PartialEq, Eq)]
pub struct AccountsStore {
    records: Vec<AccountRecord>,
}

impl View for AccountsStore {
    type V = Seq<AccountRecordView>;

    closed spec fn view(&self) -> Seq<AccountRecordView> {
        records_view(self.records@)
    }
}

impl AccountRecord {
    /// A copy with the same content.
    pub fn clone_record(&self) -> (r: AccountRecord)
        ensures
            r@ == self@,
    {
        AccountRecord {
            network: self.network.clone(),
            name: self.name.clone(),
            address: self.address,
            public_key: self.public_key,
            private_key: self.private_key,
            class_hash: self.class_hash,
            salt: self.salt,
            deployed: self.deployed,
        }
    }

    /// Whether this is the record of that name on that network.
    pub fn is_account(&self, network: &str, name: &str) -> (r: bool)
        ensures
            r == is_account(self@, network@, name@),
    {
        str_eq(self.network.as_str(), network) && str_eq(self.name.as_str(), name)
    }
}

impl AccountsStore {
    #[verifier::type_invariant]
    spec fn inv(self) -> bool {
        unique_accounts(records_view(self.records@))
    }

    /// A store without records.
    pub fn new() -> (r: AccountsStore)
        ensures
            r@ == Seq::<AccountRecordView>::empty(),
            unique_accounts(r@),
    {
        let r = AccountsStore { records: Vec::new() };
        assert(r@ =~= Seq::<AccountRecordView>::empty());
        r
    }

    /// The number of records.
    pub fn len(&self) -> (r: usize)
        ensures
            r == self@.len(),
            unique_accounts(self@),
    {
        proof {
            use_type_invariant(self);
        }
        self.records.len()
    }

    /// The record at place `i`, in file order.
    pub fn get(&self, i: usize) -> (r: Option<&AccountRecord>)
        ensures
            i < self@.len() ==> (r matches Some(rec) && rec@ == self@[i as int]),
            i >= self@.len() ==> r is None,
    {
        if i < self.records.len() {
            Some(&self.records[i])
        } else {
            None
        }
    }

    /// The place of the record of that name on that network.
    pub fn position(&self, network: &str, name: &str) -> (r: Option<usize>)
        ensures
            r is Some <==> has_account(self@, network@, name@),
            r matches Some(i) ==> i == position_of(self@, network@, name@) && i < self@.len(),
    {
        proof {
            use_type_invariant(self);
        }
        let mut i: usize = 0;
        while i < self.records.len()
            invariant
                i <= self.records.len(),
                unique_accounts(self@),
                forall|j: int| 0 <= j < i ==> !is_account(#[trigger] self@[j], network@, name@),
            decreases self.records.len() - i,
        {
            if self.records[i].is_account(network, name) {
                proof {
                    assert(is_account(self@[i as int], network@, name@));
                    let k = position_of(self@, network@, name@);
                    assert(is_account(self@[k], self@[i as int].network, self@[i as int].name));
                }
                return Some(i);
            }
            i += 1;
        }
        None
    }

    /// The record of that name on that network.
    pub fn find(&self, network: &str, name: &str) -> (r: Option<&AccountRecord>)
        ensures
            match r {
                Some(rec) => lookup(self@, network@, name@) == Some(rec@),
                None => lookup(self@, network@, name@) is None,
            },
    {
        match self.position(network, name) {
            Some(i) => Some(&self.records[i]),
            None => None,
        }
    }

    /// Adds an account that exists already, as it is given. Fails, and leaves
    /// the store as it was, where the name is taken on that network.
    pub fn add(&mut self, record: AccountRecord) -> (r: Result<(), AccountError>)
        ensures
            r is Err <==> has_account(old(self)@, record@.network, record@.name),
            r matches Err(e) ==> e == AccountError::AccountAlreadyExists && final(self)@ == old(
                self,
            )@,
            r is Ok ==> final(self)@ == old(self)@.push(record@),
    {
        proof {
            use_type_invariant(&*self);
        }
        if self.position(record.network.as_str(), record.name.as_str()).is_some() {
            return Err(AccountError::AccountAlreadyExists);
        }
        let ghost before = self@;
        let ghost rec = record@;
        let mut records = Vec::new();
        core::mem::swap(&mut records, &mut self.records);
        records.push(record);
        proof {
            assert(records_view(records@) =~= before.push(rec));
            lemma_push_keeps_unique(before, rec);
        }
        *self = AccountsStore { records };
        Ok(())
    }

    /// Creates an account: computes its address from class hash, salt and
    /// public key, and records it as pending deployment. Nothing is sent.
    /// Fails, and leaves the store as it was, where the name is taken on that
    /// network.
    pub fn create(
        &mut self,
        network: &str,
        name: &str,
        class_hash: &Felt,
        salt: &Felt,
        public_key: &Felt,
        private_key: &Felt,
    ) -> (r: Result<Felt, AccountError>)
        ensures
            r is Err <==> has_account(old(self)@, network@, name@),
            r matches Err(e) ==> e == AccountError::AccountAlreadyExists && final(self)@ == old(
                self,
            )@,
            r matches Ok(address) ==> address@ == account_target(class_hash@, salt@, public_key@)
                && final(self)@ == old(self)@.push(
                created_record(
                    network@,
                    name@,
                    class_hash@,
                    salt@,
                    public_key@,
                    private_key@,
                ),
            ),
    {
        let address = account_address(class_hash, salt, public_key);
        let record = AccountRecord {
            network: network.to_owned(),
            name: name.to_owned(),
            address,
            public_key: *public_key,
            private_key: *private_key,
            class_hash: Some(*class_hash),
            salt: Some(*salt),
            deployed: false,
        };
        match self.add(record) {
            Ok(()) => Ok(address),
            Err(e) => Err(e),
        }
    }

    /// Prepares the deployment of a pending account: the parameters of its
    /// deployment transaction and the address that sends it. The store is
    /// not changed.
    pub fn begin_deploy(&self, network: &str, name: &str) -> (r: Result<(TxParams, Felt), AccountError>)
        ensures
            match lookup(self@, network@, name@) {
                None => r == Err::<(TxParams, Felt), AccountError>(AccountError::AccountNotFound),
                Some(rec) => if rec.deployed {
                    r == Err::<(TxParams, Felt), AccountError>(AccountError::AlreadyDeployed)
                } else if rec.class_hash is None || rec.salt is None {
                    r == Err::<(TxParams, Felt), AccountError>(AccountError::NotDeployable)
                } else {
                    r matches Ok(p) && p.0@ == deploy_params(rec) && p.1@ == rec.address
                },
            },
    {
        match self.find(network, name) {
            None => Err(AccountError::AccountNotFound),
            Some(rec) => {
                if rec.deployed {
                    return Err(AccountError::AlreadyDeployed);
                }
                match (rec.class_hash, rec.salt) {
                    (Some(class_hash), Some(salt)) => {
                        let mut calldata: Vec<Felt> = Vec::new();
                        calldata.push(rec.public_key);
                        assert(felts_view(calldata@) =~= seq![rec@.public_key]);
                        Ok(
                            (
                                TxParams {
                                    class_payload: None,
                                    class_hash: Some(class_hash),
                                    constructor_calldata: Some(calldata),
                                    salt: Some(salt),
                                    unique: false,
                                    contract_address: None,
                                    selector: None,
                                    calldata: None,
                                },
                                rec.address,
                            ),
                        )
                    },
                    _ => Err(AccountError::NotDeployable),
                }
            },
        }
    }

    /// Marks the account of that name on that network as deployed.
    pub fn mark_deployed(&mut self, network: &str, name: &str) -> (r: Result<(), AccountError>)
        ensures
            r is Err <==> !has_account(old(self)@, network@, name@),
            r matches Err(e) ==> e == AccountError::AccountNotFound && final(self)@ == old(self)@,
            r is Ok ==> final(self)@ == old(self)@.update(
                position_of(old(self)@, network@, name@),
                as_deployed(old(self)@[position_of(old(self)@, network@, name@)]),
            ),
    {
        proof {
            use_type_invariant(&*self);
        }
        match self.position(network, name) {
            None => Err(AccountError::AccountNotFound),
            Some(i) => {
                let ghost before = self@;
                let mut records = Vec::new();
                core::mem::swap(&mut records, &mut self.records);
                let mut rec = records.remove(i);
                rec.deployed = true;
                records.insert(i, rec);
                proof {
                    assert(records_view(records@) =~= before.update(
                        i as int,
                        as_deployed(before[i as int]),
                    ));
                    lemma_update_keeps_unique(before, i as int);
                }
                *self = AccountsStore { records };
                Ok(())
            },
        }
    }

    /// Takes in how the deployment of an account ended. A deployment that
    /// went through marks the record as deployed; after any other the record
    /// stays pending, so that the deployment can be tried again.
    pub fn finish_deploy(
        &mut self,
        network: &str,
        name: &str,
        outcome: &Result<SubmissionResult, SubmissionError>,
    ) -> (r: Result<(), AccountError>)
        ensures
            (outcome matches Ok(res) && deploy_succeeded(res@)) ==> {
                &&& r is Err <==> !has_account(old(self)@, network@, name@)
                &&& r matches Err(e) ==> e == AccountError::AccountNotFound && final(self)@ == old(
                    self,
                )@
                &&& r is Ok ==> final(self)@ == old(self)@.update(
                    position_of(old(self)@, network@, name@),
                    as_deployed(old(self)@[position_of(old(self)@, network@, name@)]),
                )
            },
            !(outcome matches Ok(res) && deploy_succeeded(res@)) ==> r is Ok && final(self)@ == old(
                self,
            )@,
    {
        match outcome {
            Ok(res) => {
                let went_through = match res.status {
                    None => true,
                    Some(WaitState::Accepted) => true,
                    Some(_) => false,
                };
                if went_through {
                    self.mark_deployed(network, name)
                } else {
                    Ok(())
                }
            },
            Err(_) => Ok(()),
        }
    }

    /// Removes the record of that name on that network, and no other. Fails,
    /// and leaves the store as it was, where there is no such record.
    pub fn delete(&mut self, network: &str, name: &str) -> (r: Result<(), AccountError>)
        ensures
            r is Err <==> !has_account(old(self)@, network@, name@),
            r matches Err(e) ==> e == AccountError::AccountNotFound && final(self)@ == old(self)@,
            r is Ok ==> final(self)@ == old(self)@.remove(position_of(old(self)@, network@, name@)),
            r is Ok ==> !has_account(final(self)@, network@, name@),
    {
        proof {
            use_type_invariant(&*self);
        }
        match self.position(network, name) {
            None => Err(AccountError::AccountNotFound),
            Some(i) => {
                let ghost before = self@;
                let mut records = Vec::new();
                core::mem::swap(&mut records, &mut self.records);
                let _ = records.remove(i);
                proof {
                    assert(records_view(records@) =~= before.remove(i as int));
                    lemma_remove_keeps_unique(before, i as int);
                    lemma_removed_is_gone(before, network@, name@);
                }
                *self = AccountsStore { records };
                Ok(())
            },
        }
    }
}

/// Adding a record under a name that is free keeps the names unique.
pub proof fn lemma_push_keeps_unique(s: Seq<AccountRecordView>, rec: AccountRecordView)
    requires
        unique_accounts(s),
        !has_account(s, rec.network, rec.name),
    ensures
        unique_accounts(s.push(rec)),
{
    let t = s.push(rec);
    assert forall|i: int, j: int| 0 <= i < t.len() && 0 <= j < t.len() && i != j implies !is_account(
        #[trigger] t[i],
        (#[trigger] t[j]).network,
        t[j].name,
    ) by {
        if i < s.len() && j < s.len() {
            assert(t[i] == s[i] && t[j] == s[j]);
        } else if i < s.len() {
            assert(t[i] == s[i]);
            assert(!is_account(s[i], rec.network, rec.name));
        } else {
            assert(t[j] == s[j]);
            assert(!is_account(s[j], rec.network, rec.name));
        }
    }
}

/// Marking a record as deployed keeps the names unique.
pub proof fn lemma_update_keeps_unique(s: Seq<AccountRecordView>, k: int)
    requires
        unique_accounts(s),
        0 <= k < s.len(),
    ensures
        unique_accounts(s.update(k, as_deployed(s[k]))),
{
    let t = s.update(k, as_deployed(s[k]));
    assert forall|i: int, j: int| 0 <= i < t.len() && 0 <= j < t.len() && i != j implies !is_account(
        #[trigger] t[i],
        (#[trigger] t[j]).network,
        t[j].name,
    ) by {
        assert(t[i].network == s[i].network && t[i].name == s[i].name);
        assert(t[j].network == s[j].network && t[j].name == s[j].name);
        assert(!is_account(s[i], s[j].network, s[j].name));
    }
}

/// Removing a record keeps the names unique.
pub proof fn lemma_remove_keeps_unique(s: Seq<AccountRecordView>, k: int)
    requires
        unique_accounts(s),
        0 <= k < s.len(),
    ensures
        unique_accounts(s.remove(k)),
{
    let t = s.remove(k);
    assert forall|i: int, j: int| 0 <= i < t.len() && 0 <= j < t.len() && i != j implies !is_account(
        #[trigger] t[i],
        (#[trigger] t[j]).network,
        t[j].name,
    ) by {
        let a = if i < k { i } else { i + 1 };
        let b = if j < k { j } else { j + 1 };
        assert(t[i] == s[a] && t[j] == s[b]);
        assert(!is_account(s[a], s[b].network, s[b].name));
    }
}

/// Once the record of a name is removed, no record of that name is left on
/// that network.
pub proof fn lemma_removed_is_gone(s: Seq<AccountRecordView>, network: Seq<char>, name: Seq<char>)
    requires
        unique_accounts(s),
        has_account(s, network, name),
    ensures
        !has_account(s.remove(position_of(s, network, name)), network, name),
{
    let k = position_of(s, network, name);
    let t = s.remove(k);
    assert forall|i: int| 0 <= i < t.len() implies !is_account(#[trigger] t[i], network, name) by {
        let a = if i < k { i } else { i + 1 };
        assert(t[i] == s[a]);
        assert(!is_account(s[a], s[k].network, s[k].name));
    }
}

/// The store after an account was created under a free name, deployed and
/// deleted again.
pub open spec fn after_round_trip(
    s: Seq<AccountRecordView>,
    created: AccountRecordView,
) -> Seq<AccountRecordView> {
    let added = s.push(created);
    let at = position_of(added, created.network, created.name);
    let deployed = added.update(at, as_deployed(added[at]));
    deployed.remove(position_of(deployed, created.network, created.name))
}

/// Create, deploy, delete: an account that is created under a free name,
/// deployed and then deleted leaves no record behind, and every other record
/// is where and what it was.
pub proof fn lemma_create_deploy_delete_round_trip(
    s: Seq<AccountRecordView>,
    created: AccountRecordView,
)
    requires
        unique_accounts(s),
        !has_account(s, created.network, created.name),
    ensures
        after_round_trip(s, created) == s,
        !has_account(after_round_trip(s, created), created.network, created.name),
        lookup(after_round_trip(s, created), created.network, created.name) is None,
{
    let network = created.network;
    let name = created.name;
    let added = s.push(created);
    lemma_push_keeps_unique(s, created);
    let n = s.len() as int;
    assert(is_account(added[n], network, name));
    let at = position_of(added, network, name);
    assert(at == n) by {
        if at != n {
            assert(added[at] == s[at]);
            assert(is_account(s[at], network, name));
        }
    }
    let deployed = added.update(at, as_deployed(added[at]));
    lemma_update_keeps_unique(added, at);
    assert(is_account(deployed[n], network, name));
    let gone = position_of(deployed, network, name);
    assert(gone == n) by {
        if gone != n {
            assert(deployed[gone] == s[gone]);
            assert(is_account(s[gone], network, name));
        }
    }
    assert(deployed.remove(gone) =~= s);
}

} // verus!
