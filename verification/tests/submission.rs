use cast::felt::Felt;
use cast::address::deployed_address;
use cast::signer::SigningIdentity;
use cast::submission::{
    run_submission, submit, Submission, SubmissionError, SubmissionResult, SubmitAction,
    SubmitEvent, SubmitPhase,
};
use cast::transaction::{TxPayload, UnsignedTransaction};
use cast::wait::{PollOutcome, TxStatus, WaitPolicy, WaitState};

fn sub_felt(v: u8) -> Felt {
    let mut bytes = [0u8; 32];
    bytes[31] = v;
    Felt { bytes }
}

fn sub_policy(max_polls: u32) -> WaitPolicy {
    WaitPolicy { max_polls, max_retries: 1, interval_ms: 250 }
}

fn sent(hash: u8) -> SubmitEvent {
    SubmitEvent::Sent { transaction_hash: sub_felt(hash), address: Some(sub_felt(hash + 1)) }
}

fn polled(status: TxStatus) -> SubmitEvent {
    SubmitEvent::Polled(PollOutcome::Status(status))
}

#[test]
fn submission_without_wait_finishes_with_hash_and_no_status() {
    let mut s = Submission::start(false, false, false, sub_policy(5), None);
    assert_eq!(s.phase(), SubmitPhase::Signing);
    assert_eq!(s.next_action(), SubmitAction::Sign { unlock_keystore: false });
    assert_eq!(s.outcome(), None);
    assert_eq!(s.report(), None);
    s.step(&SubmitEvent::Signed);
    assert_eq!(s.next_action(), SubmitAction::Send);
    s.step(&sent(7));
    assert_eq!(s.phase(), SubmitPhase::Finished);
    assert_eq!(s.next_action(), SubmitAction::Done);
    let expected = SubmissionResult {
        transaction_hash: sub_felt(7),
        address: Some(sub_felt(8)),
        status: None,
    };
    assert_eq!(s.outcome(), Some(Ok(expected)));
    assert_eq!(s.report(), Some(expected));
}

#[test]
fn submission_with_wait_reports_the_final_status() {
    let events = vec![
        SubmitEvent::Signed,
        sent(7),
        polled(TxStatus::Pending),
        polled(TxStatus::Pending),
        polled(TxStatus::Accepted),
    ];
    let s = run_submission(Submission::start(false, false, true, sub_policy(10), None), &events);
    assert_eq!(s.phase(), SubmitPhase::Finished);
    assert_eq!(s.wait().polls(), 3);
    assert_eq!(
        s.outcome(),
        Some(Ok(SubmissionResult {
            transaction_hash: sub_felt(7),
            address: Some(sub_felt(8)),
            status: Some(WaitState::Accepted),
        }))
    );
}

#[test]
fn hash_is_reported_while_the_wait_is_still_running() {
    let events = vec![SubmitEvent::Signed, sent(3), polled(TxStatus::Pending)];
    let s = run_submission(Submission::start(false, false, true, sub_policy(10), None), &events);
    assert_eq!(s.phase(), SubmitPhase::Waiting);
    assert_eq!(s.next_action(), SubmitAction::Poll { after_ms: 250 });
    assert_eq!(s.outcome(), None);
    assert_eq!(
        s.report(),
        Some(SubmissionResult {
            transaction_hash: sub_felt(3),
            address: Some(sub_felt(4)),
            status: None,
        })
    );
}

#[test]
fn wait_timeout_keeps_the_hash_and_is_no_error() {
    let events = vec![
        SubmitEvent::Signed,
        sent(3),
        polled(TxStatus::Pending),
        SubmitEvent::Polled(PollOutcome::TransportError),
        SubmitEvent::Polled(PollOutcome::TransportError),
    ];
    let s = run_submission(Submission::start(false, false, true, sub_policy(10), None), &events);
    assert_eq!(
        s.outcome(),
        Some(Ok(SubmissionResult {
            transaction_hash: sub_felt(3),
            address: Some(sub_felt(4)),
            status: Some(WaitState::TimedOut),
        }))
    );
}

#[test]
fn rejected_after_wait_is_reported_with_the_hash() {
    let events = vec![SubmitEvent::Signed, sent(3), polled(TxStatus::Rejected)];
    let s = run_submission(Submission::start(false, false, true, sub_policy(10), None), &events);
    assert_eq!(
        s.outcome(),
        Some(Ok(SubmissionResult {
            transaction_hash: sub_felt(3),
            address: Some(sub_felt(4)),
            status: Some(WaitState::Rejected),
        }))
    );
}

#[test]
fn wait_that_allows_no_poll_finishes_timed_out_at_once() {
    let events = vec![SubmitEvent::Signed, sent(3)];
    let s = run_submission(Submission::start(false, false, true, sub_policy(0), None), &events);
    assert_eq!(s.phase(), SubmitPhase::Finished);
    assert_eq!(
        s.outcome(),
        Some(Ok(SubmissionResult {
            transaction_hash: sub_felt(3),
            address: Some(sub_felt(4)),
            status: Some(WaitState::TimedOut),
        }))
    );
}

#[test]
fn signing_failure_is_fatal_and_carries_no_payload() {
    let events = vec![SubmitEvent::SigningFailed, SubmitEvent::Signed, sent(1)];
    let s = run_submission(Submission::start(true, false, true, sub_policy(10), None), &events);
    assert_eq!(s.phase(), SubmitPhase::Failed);
    assert_eq!(s.outcome(), Some(Err(SubmissionError::SigningFailed)));
    assert_eq!(s.report(), None);
    assert_eq!(s.next_action(), SubmitAction::Done);
}

#[test]
fn provider_rejection_passes_its_payload_through() {
    let events = vec![
        SubmitEvent::Signed,
        SubmitEvent::SendFailed { payload: "invalid nonce: expected 5".to_string() },
        sent(1),
    ];
    let s = run_submission(Submission::start(false, false, false, sub_policy(10), None), &events);
    assert_eq!(
        s.outcome(),
        Some(Err(SubmissionError::Rejected { payload: "invalid nonce: expected 5".to_string() }))
    );
    assert_eq!(
        SubmissionError::Rejected { payload: "x".to_string() }.clone_error(),
        SubmissionError::Rejected { payload: "x".to_string() }
    );
}

#[test]
fn keystore_is_unlocked_once() {
    let mut first = Submission::start(true, false, false, sub_policy(5), None);
    assert_eq!(first.next_action(), SubmitAction::Sign { unlock_keystore: true });
    assert!(!first.keystore_unlocked());
    first.step(&SubmitEvent::Signed);
    assert!(first.keystore_unlocked());
    first.step(&sent(1));
    let second = Submission::start(true, first.keystore_unlocked(), false, sub_policy(5), None);
    assert_eq!(second.next_action(), SubmitAction::Sign { unlock_keystore: false });
}

#[test]
fn accounts_file_signer_never_asks_to_unlock() {
    let mut s = Submission::start(false, false, false, sub_policy(5), None);
    assert_eq!(s.next_action(), SubmitAction::Sign { unlock_keystore: false });
    s.step(&SubmitEvent::Signed);
    assert!(!s.keystore_unlocked());
}

#[test]
fn events_out_of_turn_are_ignored() {
    let mut s = Submission::start(false, false, true, sub_policy(5), None);
    s.step(&sent(9));
    s.step(&polled(TxStatus::Accepted));
    s.step(&SubmitEvent::SendFailed { payload: "x".to_string() });
    assert_eq!(s.phase(), SubmitPhase::Signing);
    s.step(&SubmitEvent::Signed);
    s.step(&SubmitEvent::Signed);
    s.step(&SubmitEvent::SigningFailed);
    s.step(&polled(TxStatus::Accepted));
    assert_eq!(s.phase(), SubmitPhase::Sending);
    s.step(&sent(9));
    s.step(&sent(10));
    s.step(&SubmitEvent::SendFailed { payload: "late".to_string() });
    s.step(&SubmitEvent::SigningFailed);
    assert_eq!(s.phase(), SubmitPhase::Waiting);
    assert_eq!(s.report().map(|r| r.transaction_hash), Some(sub_felt(9)));
}

#[test]
fn nothing_changes_a_finished_submission() {
    let events = vec![
        SubmitEvent::Signed,
        sent(3),
        polled(TxStatus::Accepted),
        polled(TxStatus::Rejected),
        SubmitEvent::SigningFailed,
        SubmitEvent::SendFailed { payload: "late".to_string() },
        sent(5),
    ];
    let s = run_submission(Submission::start(false, false, true, sub_policy(10), None), &events);
    assert_eq!(
        s.outcome(),
        Some(Ok(SubmissionResult {
            transaction_hash: sub_felt(3),
            address: Some(sub_felt(4)),
            status: Some(WaitState::Accepted),
        }))
    );
    assert_eq!(s.wait().polls(), 1);
}

fn deploy_tx(unique: bool) -> UnsignedTransaction {
    UnsignedTransaction {
        sender: sub_felt(50),
        nonce: sub_felt(1),
        max_fee: 10,
        chain_id: sub_felt(2),
        payload: TxPayload::Deploy {
            class_hash: sub_felt(60),
            constructor_calldata: vec![sub_felt(61)],
            salt: sub_felt(62),
            unique,
        },
    }
}

fn entry_identity() -> SigningIdentity {
    SigningIdentity::AccountsFileEntry {
        identifier: "alice".to_string(),
        private_key: sub_felt(70),
        account_address: sub_felt(50),
        public_key: sub_felt(71),
    }
}

#[test]
fn deploy_reports_the_computed_address() {
    let tx = deploy_tx(true);
    let expected = deployed_address(&sub_felt(50), &sub_felt(60), &sub_felt(62), true, &vec![sub_felt(61)]);
    let events = vec![SubmitEvent::Signed, sent(7)];
    let s = run_submission(submit(&tx, &entry_identity(), false, false, sub_policy(5)), &events);
    assert_eq!(
        s.outcome(),
        Some(Ok(SubmissionResult {
            transaction_hash: sub_felt(7),
            address: Some(expected),
            status: None,
        }))
    );
    assert_ne!(expected, sub_felt(8));
}

#[test]
fn invoke_reports_the_address_the_node_names() {
    let tx = UnsignedTransaction {
        payload: TxPayload::Invoke {
            contract_address: sub_felt(1),
            selector: sub_felt(2),
            calldata: vec![],
        },
        ..deploy_tx(false)
    };
    let with_address = vec![SubmitEvent::Signed, sent(7)];
    let s = run_submission(submit(&tx, &entry_identity(), false, false, sub_policy(5)), &with_address);
    assert_eq!(s.report().and_then(|r| r.address), Some(sub_felt(8)));
    let without = vec![
        SubmitEvent::Signed,
        SubmitEvent::Sent { transaction_hash: sub_felt(7), address: None },
    ];
    let s = run_submission(submit(&tx, &entry_identity(), false, false, sub_policy(5)), &without);
    assert_eq!(s.report().and_then(|r| r.address), None);
}

#[test]
fn submit_asks_to_unlock_a_keystore_that_is_locked() {
    let keystore = SigningIdentity::KeystoreEntry {
        keystore_path: "k.json".to_string(),
        account_descriptor_path: "a.json".to_string(),
    };
    let locked = submit(&deploy_tx(false), &keystore, false, false, sub_policy(5));
    assert_eq!(locked.next_action(), SubmitAction::Sign { unlock_keystore: true });
    let unlocked = submit(&deploy_tx(false), &keystore, true, false, sub_policy(5));
    assert_eq!(unlocked.next_action(), SubmitAction::Sign { unlock_keystore: false });
    let entry = submit(&deploy_tx(false), &entry_identity(), false, false, sub_policy(5));
    assert_eq!(entry.next_action(), SubmitAction::Sign { unlock_keystore: false });
}
