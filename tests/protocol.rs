use pool_manager::manager::Manager;
use pool_manager::types::{Phase, PoolError, TIMEOUT_INTERVAL};
use sha2::{Digest, Sha256};

fn sha(data: &[u8]) -> [u8; 32] {
    Sha256::digest(data).into()
}

fn s(x: &str) -> String {
    x.to_string()
}

fn ops() -> [String; 3] {
    [s("A"), s("B"), s("C")]
}

/// Registers A, B and C, opens pool 7 at time 1000 and finalizes it as "P".
fn executing_pool() -> Manager {
    let mut m = Manager::new();
    for a in ["A", "B", "C"] {
        m.register(s(a), format!("tee-{}", a), vec![1, 2], true).unwrap();
    }
    assert_eq!(m.init_creation(7, s("A"), [0x12; 32], 1000), Ok(Phase::Creation));
    assert_eq!(m.finalize_creation(7, s("P"), ops(), 1005, true), Ok(Phase::Executing));
    m
}

#[test]
fn new_registry_starts_at_zero_commitment() {
    let m = Manager::new();
    assert_eq!(m.current_epoch(), [0u8; 32]);
    assert!(m.pool(7).is_none());
}

#[test]
fn registry_commitment_is_fold_over_addresses() {
    let mut m = Manager::new();
    m.register(s("A"), s("tee-A"), vec![], true).unwrap();
    m.register(s("B"), s("tee-B"), vec![], true).unwrap();
    let mut h1 = vec![0u8; 32];
    h1.extend_from_slice(b"A");
    let e1 = sha(&h1);
    let mut h2 = e1.to_vec();
    h2.extend_from_slice(b"B");
    assert_eq!(m.current_epoch(), sha(&h2));
}

#[test]
fn registry_commitment_depends_on_order() {
    let mut m1 = Manager::new();
    m1.register(s("A"), s("x"), vec![], true).unwrap();
    m1.register(s("B"), s("y"), vec![], true).unwrap();
    let mut m2 = Manager::new();
    m2.register(s("B"), s("y"), vec![], true).unwrap();
    m2.register(s("A"), s("x"), vec![], true).unwrap();
    assert_ne!(m1.current_epoch(), m2.current_epoch());
}

#[test]
fn reregistering_fails_and_keeps_commitment() {
    let mut m = Manager::new();
    m.register(s("A"), s("tee-A"), vec![], true).unwrap();
    let before = m.current_epoch();
    assert_eq!(m.register(s("A"), s("other"), vec![9], true), Err(PoolError::AlreadyRegistered));
    assert_eq!(m.current_epoch(), before);
    assert_eq!(m.resolve(&s("A")).unwrap().tee_signature_address, "tee-A");
}

#[test]
fn rejected_attestation_is_not_registered() {
    let mut m = Manager::new();
    assert_eq!(m.register(s("A"), s("tee-A"), vec![], false), Err(PoolError::AttestationInvalid));
    assert_eq!(m.current_epoch(), [0u8; 32]);
    assert!(matches!(m.resolve(&s("A")), Err(PoolError::UnknownOperator)));
}

#[test]
fn resolve_returns_registered_operator() {
    let m = executing_pool();
    let o = m.resolve(&s("B")).unwrap();
    assert_eq!(o.address, "B");
    assert_eq!(o.tee_signature_address, "tee-B");
    assert!(o.initialized);
    assert_eq!(o.tee_encryption_key, vec![1, 2]);
}

#[test]
fn init_creation_snapshots_epoch_and_deadline() {
    let mut m = Manager::new();
    m.register(s("A"), s("tee-A"), vec![], true).unwrap();
    let epoch = m.current_epoch();
    assert_eq!(m.init_creation(1, s("A"), [3; 32], 500), Ok(Phase::Creation));
    let c = m.pool(1).unwrap();
    assert_eq!(c.phase, Phase::Creation);
    assert_eq!(c.incremental_tx_hash, epoch);
    assert_eq!(c.deadline, 500 + TIMEOUT_INTERVAL);
    assert_eq!(c.deadline, 515);
    assert!(c.pool_address.is_none());
    assert_eq!(c.code_hash, [3; 32]);
}

#[test]
fn init_creation_errors() {
    let mut m = Manager::new();
    m.register(s("A"), s("tee-A"), vec![], true).unwrap();
    assert_eq!(m.init_creation(1, s("Z"), [0; 32], 0), Err(PoolError::UnknownOperator));
    assert!(m.pool(1).is_none());
    m.init_creation(1, s("A"), [0; 32], 0).unwrap();
    assert_eq!(m.init_creation(1, s("A"), [1; 32], 5), Err(PoolError::PoolExists));
    assert_eq!(m.pool(1).unwrap().code_hash, [0; 32]);
}

#[test]
fn creation_request_digest_layout() {
    let mut m = Manager::new();
    m.register(s("A"), s("tee-A"), vec![], true).unwrap();
    m.init_creation(7, s("A"), [0x12; 32], 0).unwrap();
    let q = m.creation_request(7, &s("P"), &ops()).unwrap();
    let mut pre = b"Creation-Attest".to_vec();
    pre.extend_from_slice(&7u128.to_le_bytes());
    pre.extend_from_slice(&m.current_epoch());
    pre.extend_from_slice(b"P");
    pre.extend_from_slice(&[0x12; 32]);
    pre.extend_from_slice(b"ABC");
    assert_eq!(q.digest, sha(&pre));
    assert_eq!(q.signer, "tee-A");
}

#[test]
fn creation_signature_is_bound_to_epoch() {
    let mut m = Manager::new();
    m.register(s("A"), s("tee-A"), vec![], true).unwrap();
    m.init_creation(1, s("A"), [0; 32], 0).unwrap();
    m.register(s("B"), s("tee-B"), vec![], true).unwrap();
    m.init_creation(2, s("A"), [0; 32], 0).unwrap();
    let q1 = m.creation_request(1, &s("P"), &ops()).unwrap();
    let q2 = m.creation_request(2, &s("P"), &ops()).unwrap();
    assert_ne!(m.pool(1).unwrap().incremental_tx_hash, m.pool(2).unwrap().incremental_tx_hash);
    // Pool 1's commitment recomputed with pool 2's epoch differs from its own.
    let mut pre = b"Creation-Attest".to_vec();
    pre.extend_from_slice(&1u128.to_le_bytes());
    pre.extend_from_slice(&m.pool(2).unwrap().incremental_tx_hash);
    pre.extend_from_slice(b"P");
    pre.extend_from_slice(&[0; 32]);
    pre.extend_from_slice(b"ABC");
    assert_ne!(q1.digest, sha(&pre));
    assert_ne!(q1.digest, q2.digest);
}

#[test]
fn creation_request_errors() {
    let mut m = executing_pool();
    assert!(matches!(m.creation_request(9, &s("P"), &ops()), Err(PoolError::PoolNotFound)));
    assert!(matches!(m.creation_request(7, &s("P"), &ops()), Err(PoolError::WrongPhase)));
    m.init_creation(8, s("A"), [0; 32], 0).unwrap();
    assert!(m.creation_request(8, &s("Q"), &ops()).is_ok());
}

#[test]
fn finalize_after_deadline_fails_and_stays_in_creation() {
    let mut m = Manager::new();
    m.register(s("A"), s("tee-A"), vec![], true).unwrap();
    m.init_creation(7, s("A"), [0; 32], 1000).unwrap();
    assert_eq!(m.finalize_creation(7, s("P"), ops(), 1016, true), Err(PoolError::DeadlineExpired));
    let c = m.pool(7).unwrap();
    assert_eq!(c.phase, Phase::Creation);
    assert!(c.pool_address.is_none());
}

#[test]
fn finalize_at_deadline_succeeds() {
    let mut m = Manager::new();
    m.register(s("A"), s("tee-A"), vec![], true).unwrap();
    m.init_creation(7, s("A"), [0; 32], 1000).unwrap();
    assert_eq!(m.finalize_creation(7, s("P"), ops(), 1015, true), Ok(Phase::Executing));
}

#[test]
fn finalize_errors() {
    let mut m = Manager::new();
    m.register(s("A"), s("tee-A"), vec![], true).unwrap();
    assert_eq!(m.finalize_creation(7, s("P"), ops(), 0, true), Err(PoolError::PoolNotFound));
    m.init_creation(7, s("A"), [0; 32], 0).unwrap();
    assert_eq!(m.finalize_creation(7, s("P"), ops(), 0, false), Err(PoolError::InvalidSignature));
    assert_eq!(m.pool(7).unwrap().phase, Phase::Creation);
    m.finalize_creation(7, s("P"), ops(), 0, true).unwrap();
    assert_eq!(m.finalize_creation(7, s("P"), ops(), 0, true), Err(PoolError::WrongPhase));
}

#[test]
fn deposit_and_withdraw_while_executing() {
    let m = executing_pool();
    let t = m.deposit_to_contract(7, 100).unwrap();
    assert_eq!(t.to, "P");
    assert_eq!(t.amount, 100);
    let w = m.withdraw(7, &s("P"), s("R"), 50).unwrap();
    assert_eq!(w.to, "R");
    assert_eq!(w.amount, 50);
}

#[test]
fn withdraw_by_other_caller_is_unauthorized() {
    let m = executing_pool();
    assert!(matches!(m.withdraw(7, &s("R"), s("R"), 50), Err(PoolError::UnauthorizedCaller)));
}

#[test]
fn deposit_and_withdraw_need_executing_phase() {
    let mut m = Manager::new();
    m.register(s("A"), s("tee-A"), vec![], true).unwrap();
    assert!(matches!(m.deposit_to_contract(7, 1), Err(PoolError::PoolNotFound)));
    assert!(matches!(m.withdraw(7, &s("P"), s("R"), 1), Err(PoolError::PoolNotFound)));
    m.init_creation(7, s("A"), [0; 32], 0).unwrap();
    assert!(matches!(m.deposit_to_contract(7, 1), Err(PoolError::WrongPhase)));
    assert!(matches!(m.withdraw(7, &s("P"), s("R"), 1), Err(PoolError::WrongPhase)));
    let mut m = executing_pool();
    m.challenge_executor(7, &[1], 2000).unwrap();
    assert!(matches!(m.deposit_to_contract(7, 1), Err(PoolError::WrongPhase)));
    assert!(matches!(m.withdraw(7, &s("P"), s("R"), 1), Err(PoolError::WrongPhase)));
}

#[test]
fn scenario_create_challenge_and_answer() {
    let m0 = executing_pool();
    let c = m0.pool(7).unwrap();
    assert_eq!(c.phase, Phase::Executing);
    assert_eq!(c.pool_address.as_deref(), Some("P"));
    assert_eq!(c.operators, [Some(s("A")), Some(s("B")), Some(s("C"))]);
    let mut m = m0;
    assert_eq!(m.challenge_executor(7, &[1, 2, 3], 2000), Ok(Phase::ChallengeExecutor));
    let c = m.pool(7).unwrap();
    assert_eq!(c.phase, Phase::ChallengeExecutor);
    assert_eq!(c.exec_challenge_hash, Some(sha(&[1, 2, 3])));
    assert_eq!(c.deadline, 2015);
    let q = m.executor_request(7, &[4, 5]).unwrap();
    assert_eq!(q.signer, "tee-A");
    assert_eq!(m.executor_response(7, 2010, true), Ok(Phase::Executing));
    let c = m.pool(7).unwrap();
    assert_eq!(c.phase, Phase::Executing);
    assert_eq!(c.exec_challenge_hash, None);
}

#[test]
fn executor_request_digest_layout() {
    let mut m = executing_pool();
    m.challenge_executor(7, &[1], 2000).unwrap();
    let q = m.executor_request(7, &[4, 5]).unwrap();
    let mut pre = b"Challenge-Response".to_vec();
    pre.extend_from_slice(&7u128.to_le_bytes());
    pre.extend_from_slice(&m.pool(7).unwrap().incremental_tx_hash);
    pre.extend_from_slice(&[4, 5]);
    assert_eq!(q.digest, sha(&pre));
}

#[test]
fn executor_request_errors() {
    let mut m = executing_pool();
    assert!(matches!(m.executor_request(9, &[]), Err(PoolError::PoolNotFound)));
    assert!(matches!(m.executor_request(7, &[]), Err(PoolError::WrongPhase)));
    let mut n = Manager::new();
    n.register(s("A"), s("tee-A"), vec![], true).unwrap();
    n.init_creation(1, s("A"), [0; 32], 0).unwrap();
    n.finalize_creation(1, s("P"), [s("X"), s("A"), s("A")], 0, true).unwrap();
    n.challenge_executor(1, &[], 0).unwrap();
    assert!(matches!(n.executor_request(1, &[]), Err(PoolError::UnknownOperator)));
    m.challenge_executor(7, &[], 0).unwrap();
    assert!(m.executor_request(7, &[]).is_ok());
}

#[test]
fn scenario_timeout_crashes_pool() {
    let mut m = executing_pool();
    m.challenge_executor(7, &[9], 2000).unwrap();
    assert_eq!(m.executor_response(7, 2016, true), Err(PoolError::DeadlineExpired));
    assert_eq!(m.pool(7).unwrap().phase, Phase::ChallengeExecutor);
    assert_eq!(m.check_timeout(7, 2000 + TIMEOUT_INTERVAL + 1), Ok(Phase::Crashed));
    assert_eq!(m.pool(7).unwrap().phase, Phase::Crashed);
    assert!(matches!(m.deposit_to_contract(7, 1), Err(PoolError::WrongPhase)));
    assert!(matches!(m.withdraw(7, &s("P"), s("R"), 1), Err(PoolError::WrongPhase)));
    assert_eq!(m.challenge_executor(7, &[1], 3000), Err(PoolError::WrongPhase));
    assert_eq!(m.challenge_watchdog(7, 1, &[1], 3000), Err(PoolError::WrongPhase));
    assert_eq!(m.check_timeout(7, 4000), Err(PoolError::WrongPhase));
}

#[test]
fn executor_response_errors() {
    let mut m = executing_pool();
    assert_eq!(m.executor_response(9, 0, true), Err(PoolError::PoolNotFound));
    assert_eq!(m.executor_response(7, 0, true), Err(PoolError::WrongPhase));
    m.challenge_executor(7, &[1], 2000).unwrap();
    assert_eq!(m.executor_response(7, 2001, false), Err(PoolError::InvalidSignature));
    assert_eq!(m.pool(7).unwrap().phase, Phase::ChallengeExecutor);
    assert_eq!(m.executor_response(7, 2015, true), Ok(Phase::Executing));
}

#[test]
fn check_timeout_before_deadline_changes_nothing() {
    let mut m = executing_pool();
    assert_eq!(m.check_timeout(9, 0), Err(PoolError::PoolNotFound));
    assert_eq!(m.check_timeout(7, 5000), Err(PoolError::WrongPhase));
    m.challenge_executor(7, &[1], 2000).unwrap();
    assert_eq!(m.check_timeout(7, 2015), Ok(Phase::ChallengeExecutor));
    assert_eq!(m.pool(7).unwrap().phase, Phase::ChallengeExecutor);
}

#[test]
fn nested_watchdog_dispute_restores_executor_dispute() {
    let mut m = executing_pool();
    m.challenge_executor(7, &[1, 2], 2000).unwrap();
    assert_eq!(m.challenge_watchdog(7, 2, &[7], 2005), Ok(Phase::ChallengeWatchdog));
    let c = m.pool(7).unwrap();
    assert_eq!(c.phase, Phase::ChallengeWatchdog);
    assert_eq!(c.fallback_phase, Phase::ChallengeExecutor);
    assert_eq!(c.deadline, 2020);
    assert_eq!(c.watchdog_challenge_hash, Some(sha(&[7])));
    assert_eq!(c.challenged_watchdogs, [0, 0, 1]);
    assert_eq!(c.watchdogs_challenged, 1);
    let q = m.watchdog_request(7, 2, &[8]).unwrap();
    assert_eq!(q.signer, "tee-C");
    assert_eq!(m.watchdog_response(7, 2, 2018, true), Ok(Phase::ChallengeExecutor));
    let c = m.pool(7).unwrap();
    assert_eq!(c.phase, Phase::ChallengeExecutor);
    assert_eq!(c.exec_challenge_hash, Some(sha(&[1, 2])));
    assert_eq!(c.deadline, 2015);
    assert_eq!(c.fallback_phase, Phase::Unset);
    assert_eq!(c.watchdog_challenge_hash, None);
    assert_eq!(c.watchdogs_challenged, 0);
}

#[test]
fn watchdog_dispute_from_executing() {
    let mut m = executing_pool();
    assert_eq!(m.challenge_watchdog(7, 1, &[7], 100), Ok(Phase::ChallengeWatchdog));
    assert_eq!(m.watchdog_response(7, 1, 110, true), Ok(Phase::Executing));
    assert_eq!(m.pool(7).unwrap().phase, Phase::Executing);
    assert_eq!(m.pool(7).unwrap().challenged_watchdogs, [0, 1, 0]);
}

#[test]
fn watchdog_request_digest_layout() {
    let mut m = executing_pool();
    m.challenge_watchdog(7, 1, &[7], 100).unwrap();
    let q = m.watchdog_request(7, 1, &[3]).unwrap();
    let mut pre = b"Watchdog-Response".to_vec();
    pre.extend_from_slice(&7u128.to_le_bytes());
    pre.extend_from_slice(&m.pool(7).unwrap().incremental_tx_hash);
    pre.extend_from_slice(&[3]);
    assert_eq!(q.digest, sha(&pre));
    assert_eq!(q.signer, "tee-B");
}

#[test]
fn watchdog_errors() {
    let mut m = executing_pool();
    assert_eq!(m.challenge_watchdog(9, 1, &[], 0), Err(PoolError::PoolNotFound));
    assert_eq!(m.challenge_watchdog(7, 0, &[], 0), Err(PoolError::InvalidSlot));
    assert_eq!(m.challenge_watchdog(7, 3, &[], 0), Err(PoolError::InvalidSlot));
    assert_eq!(m.watchdog_response(7, 1, 0, true), Err(PoolError::WrongPhase));
    assert!(matches!(m.watchdog_request(7, 1, &[]), Err(PoolError::WrongPhase)));
    assert!(matches!(m.watchdog_request(9, 1, &[]), Err(PoolError::PoolNotFound)));
    m.challenge_watchdog(7, 1, &[], 100).unwrap();
    assert_eq!(m.challenge_watchdog(7, 2, &[], 100), Err(PoolError::WrongPhase));
    assert!(matches!(m.watchdog_request(7, 2, &[]), Err(PoolError::InvalidSlot)));
    assert_eq!(m.watchdog_response(9, 1, 0, true), Err(PoolError::PoolNotFound));
    assert_eq!(m.watchdog_response(7, 2, 100, true), Err(PoolError::InvalidSlot));
    assert_eq!(m.watchdog_response(7, 1, 100, false), Err(PoolError::InvalidSignature));
    assert_eq!(m.watchdog_response(7, 1, 116, true), Err(PoolError::DeadlineExpired));
    assert_eq!(m.check_timeout(7, 116), Ok(Phase::Crashed));
    assert_eq!(m.pool(7).unwrap().fallback_phase, Phase::Unset);
}

#[test]
fn watchdog_request_unknown_operator() {
    let mut m = Manager::new();
    m.register(s("A"), s("tee-A"), vec![], true).unwrap();
    m.init_creation(1, s("A"), [0; 32], 0).unwrap();
    m.finalize_creation(1, s("P"), [s("A"), s("X"), s("A")], 0, true).unwrap();
    m.challenge_watchdog(1, 1, &[], 0).unwrap();
    assert!(matches!(m.watchdog_request(1, 1, &[]), Err(PoolError::UnknownOperator)));
}
