use cast::accounts::{AccountError, AccountRecord, AccountsStore};
use cast::address::account_address;
use cast::felt::Felt;
use cast::signer::{resolve, resolve_exclusive, SignerError, SigningIdentity};
use cast::submission::{SubmissionError, SubmissionResult};
use cast::transaction::TxParams;
use cast::wait::WaitState;

fn acc_felt(v: u8) -> Felt {
    let mut bytes = [0u8; 32];
    bytes[31] = v;
    Felt { bytes }
}

fn record(network: &str, name: &str, v: u8) -> AccountRecord {
    AccountRecord {
        network: network.to_string(),
        name: name.to_string(),
        address: acc_felt(v),
        public_key: acc_felt(v + 1),
        private_key: acc_felt(v + 2),
        class_hash: None,
        salt: None,
        deployed: true,
    }
}

fn store_with(records: Vec<AccountRecord>) -> AccountsStore {
    let mut store = AccountsStore::new();
    for r in records {
        assert_eq!(store.add(r), Ok(()));
    }
    store
}

fn sent_result(status: Option<WaitState>) -> Result<SubmissionResult, SubmissionError> {
    Ok(SubmissionResult { transaction_hash: acc_felt(99), address: None, status })
}

#[test]
fn create_deploy_delete_leaves_no_record() {
    let mut store = store_with(vec![record("SN_MAIN", "other", 1)]);
    let address = store
        .create("SN_MAIN", "alice", &acc_felt(10), &acc_felt(11), &acc_felt(12), &acc_felt(13))
        .unwrap();
    assert_eq!(address, account_address(&acc_felt(10), &acc_felt(11), &acc_felt(12)));
    assert_eq!(store.len(), 2);
    let (params, sender) = store.begin_deploy("SN_MAIN", "alice").unwrap();
    assert_eq!(sender, address);
    assert_eq!(params.class_hash, Some(acc_felt(10)));
    assert_eq!(store.finish_deploy("SN_MAIN", "alice", &sent_result(None)), Ok(()));
    assert!(store.find("SN_MAIN", "alice").unwrap().deployed);
    assert_eq!(store.delete("SN_MAIN", "alice"), Ok(()));
    assert_eq!(store.find("SN_MAIN", "alice"), None);
    assert_eq!(store.len(), 1);
    assert_eq!(store.get(0), Some(&record("SN_MAIN", "other", 1)));
    assert_eq!(store, store_with(vec![record("SN_MAIN", "other", 1)]));
}

#[test]
fn create_records_a_pending_account_at_the_computed_address() {
    let mut store = AccountsStore::new();
    let address = store
        .create("SN_SEPOLIA", "alice", &acc_felt(10), &acc_felt(11), &acc_felt(12), &acc_felt(13))
        .unwrap();
    assert_eq!(
        store.find("SN_SEPOLIA", "alice"),
        Some(&AccountRecord {
            network: "SN_SEPOLIA".to_string(),
            name: "alice".to_string(),
            address,
            public_key: acc_felt(12),
            private_key: acc_felt(13),
            class_hash: Some(acc_felt(10)),
            salt: Some(acc_felt(11)),
            deployed: false,
        })
    );
    assert_ne!(address, acc_felt(12));
}

#[test]
fn create_under_a_taken_name_fails_and_changes_nothing() {
    let mut store = store_with(vec![record("SN_MAIN", "alice", 1)]);
    let r = store.create("SN_MAIN", "alice", &acc_felt(10), &acc_felt(11), &acc_felt(12), &acc_felt(13));
    assert_eq!(r, Err(AccountError::AccountAlreadyExists));
    assert_eq!(store, store_with(vec![record("SN_MAIN", "alice", 1)]));
}

#[test]
fn same_name_on_another_network_is_another_account() {
    let mut store = store_with(vec![record("SN_MAIN", "alice", 1)]);
    assert_eq!(store.add(record("SN_SEPOLIA", "alice", 5)), Ok(()));
    assert_eq!(store.add(record("SN_MAIN", "alice", 9)), Err(AccountError::AccountAlreadyExists));
    assert_eq!(store.len(), 2);
    assert_eq!(store.find("SN_SEPOLIA", "alice").map(|r| r.address), Some(acc_felt(5)));
    assert_eq!(store.find("SN_MAIN", "alice").map(|r| r.address), Some(acc_felt(1)));
    assert_eq!(store.position("SN_SEPOLIA", "alice"), Some(1));
    assert_eq!(store.position("SN_GOERLI", "alice"), None);
}

#[test]
fn add_imports_an_account_as_given() {
    let mut store = AccountsStore::new();
    assert_eq!(store.add(record("SN_MAIN", "imported", 1)), Ok(()));
    assert_eq!(store.find("SN_MAIN", "imported"), Some(&record("SN_MAIN", "imported", 1)));
    assert_eq!(record("a", "b", 3).clone_record(), record("a", "b", 3));
    assert!(record("a", "b", 3).is_account("a", "b"));
    assert!(!record("a", "b", 3).is_account("a", "c"));
    assert!(!record("a", "b", 3).is_account("b", "a"));
}

#[test]
fn delete_removes_only_the_named_account_on_that_network() {
    let mut store = store_with(vec![
        record("SN_MAIN", "alice", 1),
        record("SN_SEPOLIA", "alice", 5),
        record("SN_MAIN", "bob", 9),
    ]);
    assert_eq!(store.delete("SN_MAIN", "alice"), Ok(()));
    assert_eq!(
        store,
        store_with(vec![record("SN_SEPOLIA", "alice", 5), record("SN_MAIN", "bob", 9)])
    );
}

#[test]
fn delete_of_absent_account_is_an_error() {
    let mut store = store_with(vec![record("SN_MAIN", "alice", 1)]);
    assert_eq!(store.delete("SN_SEPOLIA", "alice"), Err(AccountError::AccountNotFound));
    assert_eq!(store.delete("SN_MAIN", "bob"), Err(AccountError::AccountNotFound));
    assert_eq!(store.len(), 1);
    assert_eq!(store.delete("SN_MAIN", "alice"), Ok(()));
    assert_eq!(store.delete("SN_MAIN", "alice"), Err(AccountError::AccountNotFound));
    assert_eq!(store.get(0), None);
}

#[test]
fn failed_deployment_leaves_the_account_pending() {
    let mut store = AccountsStore::new();
    store
        .create("SN_MAIN", "alice", &acc_felt(10), &acc_felt(11), &acc_felt(12), &acc_felt(13))
        .unwrap();
    let rejected = Err(SubmissionError::Rejected { payload: "insufficient balance".to_string() });
    assert_eq!(store.finish_deploy("SN_MAIN", "alice", &rejected), Ok(()));
    assert!(!store.find("SN_MAIN", "alice").unwrap().deployed);
    assert_eq!(store.finish_deploy("SN_MAIN", "alice", &Err(SubmissionError::SigningFailed)), Ok(()));
    assert_eq!(
        store.finish_deploy("SN_MAIN", "alice", &sent_result(Some(WaitState::Rejected))),
        Ok(())
    );
    assert_eq!(
        store.finish_deploy("SN_MAIN", "alice", &sent_result(Some(WaitState::TimedOut))),
        Ok(())
    );
    assert!(!store.find("SN_MAIN", "alice").unwrap().deployed);
    assert!(store.begin_deploy("SN_MAIN", "alice").is_ok());
    assert_eq!(
        store.finish_deploy("SN_MAIN", "alice", &sent_result(Some(WaitState::Accepted))),
        Ok(())
    );
    assert!(store.find("SN_MAIN", "alice").unwrap().deployed);
}

#[test]
fn deployment_is_prepared_from_the_record() {
    let mut store = AccountsStore::new();
    let address = store
        .create("SN_MAIN", "alice", &acc_felt(10), &acc_felt(11), &acc_felt(12), &acc_felt(13))
        .unwrap();
    assert_eq!(
        store.begin_deploy("SN_MAIN", "alice"),
        Ok((
            TxParams {
                class_payload: None,
                class_hash: Some(acc_felt(10)),
                constructor_calldata: Some(vec![acc_felt(12)]),
                salt: Some(acc_felt(11)),
                unique: false,
                contract_address: None,
                selector: None,
                calldata: None,
            },
            address
        ))
    );
}

#[test]
fn deployment_is_refused_where_it_cannot_be_made() {
    let mut store = store_with(vec![record("SN_MAIN", "imported", 1)]);
    assert_eq!(store.begin_deploy("SN_MAIN", "nobody"), Err(AccountError::AccountNotFound));
    assert_eq!(store.begin_deploy("SN_MAIN", "imported"), Err(AccountError::AlreadyDeployed));
    let mut bare = record("SN_MAIN", "bare", 5);
    bare.deployed = false;
    assert_eq!(store.add(bare), Ok(()));
    assert_eq!(store.begin_deploy("SN_MAIN", "bare"), Err(AccountError::NotDeployable));
    assert_eq!(store.mark_deployed("SN_MAIN", "nobody"), Err(AccountError::AccountNotFound));
    assert_eq!(
        store.finish_deploy("SN_MAIN", "nobody", &sent_result(None)),
        Err(AccountError::AccountNotFound)
    );
    assert_eq!(store.mark_deployed("SN_MAIN", "bare"), Ok(()));
    assert!(store.find("SN_MAIN", "bare").unwrap().deployed);
    assert_eq!(store.position("SN_MAIN", "bare"), Some(1));
}

#[test]
fn signer_from_accounts_file_is_found_by_name_and_network() {
    let store = store_with(vec![record("SN_MAIN", "alice", 1), record("SN_SEPOLIA", "alice", 5)]);
    assert_eq!(
        resolve("alice", "", "SN_SEPOLIA", &store),
        Ok(SigningIdentity::AccountsFileEntry {
            identifier: "alice".to_string(),
            private_key: acc_felt(7),
            account_address: acc_felt(5),
            public_key: acc_felt(6),
        })
    );
}

#[test]
fn signer_absent_on_the_network_is_not_found() {
    let store = store_with(vec![record("SN_MAIN", "alice", 1)]);
    assert_eq!(resolve("alice", "", "SN_SEPOLIA", &store), Err(SignerError::SignerNotFound));
    assert_eq!(resolve("bob", "", "SN_MAIN", &store), Err(SignerError::SignerNotFound));
    assert_eq!(resolve("", "", "SN_MAIN", &store), Err(SignerError::SignerNotFound));
}

#[test]
fn keystore_path_selects_the_keystore_and_opens_nothing() {
    let store = store_with(vec![record("SN_MAIN", "alice", 1)]);
    let id = resolve("alice", "keys/k.json", "SN_MAIN", &store).unwrap();
    assert_eq!(
        id,
        SigningIdentity::KeystoreEntry {
            keystore_path: "keys/k.json".to_string(),
            account_descriptor_path: "alice".to_string(),
        }
    );
    assert!(id.is_keystore());
    assert_eq!(id.address(), None);
    let id = resolve("descriptor.json", "k.json", "SN_MAIN", &AccountsStore::new()).unwrap();
    assert!(id.is_keystore());
}

#[test]
fn resolution_gives_exactly_one_kind_of_identity() {
    let store = store_with(vec![record("SN_MAIN", "alice", 1)]);
    for keystore in ["", "k.json"] {
        let id = resolve("alice", keystore, "SN_MAIN", &store).unwrap();
        let is_entry = matches!(id, SigningIdentity::AccountsFileEntry { .. });
        assert_ne!(id.is_keystore(), is_entry);
        assert_eq!(id.is_keystore(), !keystore.is_empty());
        assert_eq!(id.address().is_some(), keystore.is_empty());
    }
}

#[test]
fn keystore_together_with_a_name_is_ambiguous() {
    let store = store_with(vec![record("SN_MAIN", "alice", 1)]);
    assert_eq!(
        resolve_exclusive("descriptor.json", &Some("alice".to_string()), "k.json", "SN_MAIN", &store),
        Err(SignerError::AmbiguousSignerSource)
    );
}

#[test]
fn exclusive_resolution_uses_the_one_source_given() {
    let store = store_with(vec![record("SN_MAIN", "alice", 1), record("SN_MAIN", "bob", 5)]);
    let by_name =
        resolve_exclusive("bob", &Some("alice".to_string()), "", "SN_MAIN", &store).unwrap();
    assert_eq!(by_name.address(), Some(acc_felt(1)));
    let by_identifier = resolve_exclusive("bob", &None, "", "SN_MAIN", &store).unwrap();
    assert_eq!(by_identifier.address(), Some(acc_felt(5)));
    let by_keystore = resolve_exclusive("descriptor.json", &None, "k.json", "SN_MAIN", &store).unwrap();
    assert!(by_keystore.is_keystore());
    let empty_name =
        resolve_exclusive("descriptor.json", &Some(String::new()), "k.json", "SN_MAIN", &store)
            .unwrap();
    assert!(empty_name.is_keystore());
    assert_eq!(
        resolve_exclusive("bob", &Some("carol".to_string()), "", "SN_MAIN", &store),
        Err(SignerError::SignerNotFound)
    );
}
