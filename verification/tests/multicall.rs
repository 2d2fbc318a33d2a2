use cast::felt::Felt;
use cast::multicall::{
    run_recorded, CallSpec, EntryError, EntryOutcome, MulticallBatch, MulticallRun,
};
use cast::submission::{SubmissionError, SubmissionResult};
use cast::transaction::{BuildError, FeePolicy, Param, TxKind, TxParams, TxPayload};

fn mc_felt(v: u8) -> Felt {
    let mut bytes = [0u8; 32];
    bytes[31] = v;
    Felt { bytes }
}

fn ok(hash: u8) -> EntryOutcome {
    EntryOutcome::Submitted(SubmissionResult {
        transaction_hash: mc_felt(hash),
        address: None,
        status: None,
    })
}

fn fail(text: &str) -> EntryOutcome {
    EntryOutcome::Failed(EntryError::Submission(SubmissionError::Rejected {
        payload: text.to_string(),
    }))
}

fn call(v: u8) -> CallSpec {
    CallSpec { contract_address: mc_felt(v), selector: mc_felt(v + 1), calldata: vec![mc_felt(v + 2)] }
}

#[test]
fn batch_ok_ok_fail_ok_reports_three_entries_and_stops() {
    let outcomes = vec![ok(1), ok(2), fail("boom"), ok(4)];
    let run = run_recorded(4, &outcomes);
    assert_eq!(run.results(), &vec![ok(1), ok(2), fail("boom")]);
    assert_eq!(run.attempted(), 3);
    assert_eq!(run.failure_index(), Some(2));
    assert_eq!(run.next_entry(), None);
}

#[test]
fn index_after_a_failure_is_never_offered() {
    let mut run = MulticallRun::new(4);
    assert_eq!(run.next_entry(), Some(0));
    run.record(ok(1));
    assert_eq!(run.next_entry(), Some(1));
    run.record(ok(2));
    assert_eq!(run.next_entry(), Some(2));
    run.record(fail("boom"));
    assert_eq!(run.next_entry(), None);
    run.record(ok(4));
    assert_eq!(run.next_entry(), None);
    assert_eq!(run.attempted(), 3);
    assert_eq!(run.failure_index(), Some(2));
}

#[test]
fn batch_without_failure_runs_to_its_end_in_order() {
    let outcomes = vec![ok(1), ok(2), ok(3)];
    let run = run_recorded(3, &outcomes);
    assert_eq!(run.results(), &outcomes);
    assert_eq!(run.failure_index(), None);
    assert_eq!(run.next_entry(), None);
}

#[test]
fn outcomes_beyond_the_batch_are_not_taken_in() {
    let run = run_recorded(2, &vec![ok(1), ok(2), ok(3), fail("late")]);
    assert_eq!(run.results(), &vec![ok(1), ok(2)]);
    assert_eq!(run.failure_index(), None);
}

#[test]
fn failure_of_the_first_entry_stops_at_once() {
    let run = run_recorded(3, &vec![fail("first"), ok(2), ok(3)]);
    assert_eq!(run.results(), &vec![fail("first")]);
    assert_eq!(run.failure_index(), Some(0));
}

#[test]
fn failure_of_the_last_entry_is_reported_after_all_others() {
    let run = run_recorded(3, &vec![ok(1), ok(2), fail("last")]);
    assert_eq!(run.attempted(), 3);
    assert_eq!(run.failure_index(), Some(2));
}

#[test]
fn build_failure_of_an_entry_stops_the_run_too() {
    let failed = EntryOutcome::Failed(EntryError::Build(BuildError::FeeEstimationFailed));
    let run = run_recorded(3, &vec![ok(1), failed.clone(), ok(3)]);
    assert_eq!(run.results(), &vec![ok(1), failed.clone()]);
    assert_eq!(run.failure_index(), Some(1));
    assert_eq!(failed.clone_outcome(), failed);
    assert!(!failed.is_submitted());
    assert!(ok(1).is_submitted());
}

#[test]
fn empty_batch_attempts_nothing() {
    let batch = MulticallBatch { calls: vec![] };
    let mut run = MulticallRun::over(&batch);
    assert_eq!(run.next_entry(), None);
    run.record(ok(1));
    assert_eq!(run.attempted(), 0);
    assert_eq!(run.failure_index(), None);
}

#[test]
fn run_that_is_fed_too_little_waits_for_the_next_entry() {
    let batch = MulticallBatch { calls: vec![call(1), call(4), call(7)] };
    let mut run = MulticallRun::over(&batch);
    run.record(ok(1));
    assert_eq!(run.next_entry(), Some(1));
    assert_eq!(run.attempted(), 1);
}

#[test]
fn call_becomes_an_invoke_with_its_own_nonce_and_fee() {
    let c = call(1);
    assert_eq!(
        c.params(),
        TxParams {
            class_payload: None,
            class_hash: None,
            constructor_calldata: None,
            salt: None,
            unique: false,
            contract_address: Some(mc_felt(1)),
            selector: Some(mc_felt(2)),
            calldata: Some(vec![mc_felt(3)]),
        }
    );
    let policy = FeePolicy::standard();
    let first = c
        .transaction(&mc_felt(9), &mc_felt(8), &mc_felt(5), None, Some(100), &policy)
        .unwrap();
    let second = c
        .transaction(&mc_felt(9), &mc_felt(8), &mc_felt(6), None, Some(200), &policy)
        .unwrap();
    assert_eq!(first.kind(), TxKind::Invoke);
    assert_eq!(first.nonce, mc_felt(5));
    assert_eq!(second.nonce, mc_felt(6));
    assert_eq!(first.max_fee, 150);
    assert_eq!(second.max_fee, 300);
    assert_eq!(
        first.payload,
        TxPayload::Invoke {
            contract_address: mc_felt(1),
            selector: mc_felt(2),
            calldata: vec![mc_felt(3)],
        }
    );
    assert_eq!(
        c.transaction(&mc_felt(9), &mc_felt(8), &mc_felt(5), None, None, &policy),
        Err(BuildError::FeeEstimationFailed)
    );
    assert_ne!(
        Err::<TxPayload, Param>(Param::Calldata),
        cast::transaction::payload_for(TxKind::Invoke, c.params())
    );
}
