//! Phases, errors and the records kept by the registry and for each pool.
use vstd::prelude::*;

verus! {

/// Number of operator slots of a pool.
pub const POOL_SIZE: usize = 3;

/// Seconds granted for each awaited response.
pub const TIMEOUT_INTERVAL: u64 = 15;

/// Phase of a pool's lifecycle.
#[derive(Debug, Clone, Copy, PartialEq, Eq, Structural)]
pub enum Phase {
    Unset,
    Creation,
    Executing,
    ChallengeExecutor,
    ChallengeWatchdog,
    Crashed,
}

/// Why an operation was refused.
#[derive(Debug, Clone, Copy, PartialEq, Eq, Structural)]
pub enum PoolError {
    AlreadyRegistered,
    UnknownOperator,
    AttestationInvalid,
    PoolExists,
    PoolNotFound,
    WrongPhase,
    DeadlineExpired,
    InvalidSignature,
    UnauthorizedCaller,
    InvalidSlot,
}

/// A registered TEE-backed operator.
pub struct Operator {
    pub address: String,
    pub initialized: bool,
    pub tee_signature_address: String,
    pub tee_encryption_key: Vec<u8>,
}

/// State of one pool.
pub struct Contract {
    pub phase: Phase,
    /// Registry commitment captured when the pool was created.
    pub incremental_tx_hash: [u8; 32],
    pub pool_address: Option<String>,
    pub creation_operator: String,
    pub operators: [Option<String>; 3],
    pub executive_operator: usize,
    pub code_hash: [u8; 32],
    /// Phase restored once an open watchdog dispute is answered.
    pub fallback_phase: Phase,
    /// Deadline restored together with `fallback_phase`.
    pub fallback_deadline: u64,
    pub watchdogs_challenged: u8,
    pub exec_challenge_hash: Option<[u8; 32]>,
    pub watchdog_challenge_hash: Option<[u8; 32]>,
    pub challenged_watchdogs: [u8; 3],
    /// Slot of the watchdog under dispute, meaningful in `ChallengeWatchdog`.
    pub watchdog_slot: usize,
    pub deadline: u64,
}

/// Mathematical model of a pool.
pub struct ContractView {
    pub phase: Phase,
    pub incremental_tx_hash: Seq<u8>,
    pub pool_address: Option<Seq<char>>,
    pub creation_operator: Seq<char>,
    pub operators: Seq<Option<Seq<char>>>,
    pub executive_operator: usize,
    pub code_hash: Seq<u8>,
    pub fallback_phase: Phase,
    pub fallback_deadline: u64,
    pub watchdogs_challenged: u8,
    pub exec_challenge_hash: Option<Seq<u8>>,
    pub watchdog_challenge_hash: Option<Seq<u8>>,
    pub challenged_watchdogs: Seq<u8>,
    pub watchdog_slot: usize,
    pub deadline: u64,
}

pub open spec fn opt_str(o: Option<String>) -> Option<Seq<char>> {
    match o {
        Some(s) => Some(s@),
        None => None,
    }
}

pub open spec fn opt_hash(o: Option<[u8; 32]>) -> Option<Seq<u8>> {
    match o {
        Some(h) => Some(h@),
        None => None,
    }
}

impl View for Contract {
    type V = ContractView;

    open spec fn view(&self) -> ContractView {
        ContractView {
            phase: self.phase,
            incremental_tx_hash: self.incremental_tx_hash@,
            pool_address: opt_str(self.pool_address),
            creation_operator: self.creation_operator@,
            operators: seq![
                opt_str(self.operators[0]),
                opt_str(self.operators[1]),
                opt_str(self.operators[2]),
            ],
            executive_operator: self.executive_operator,
            code_hash: self.code_hash@,
            fallback_phase: self.fallback_phase,
            fallback_deadline: self.fallback_deadline,
            watchdogs_challenged: self.watchdogs_challenged,
            exec_challenge_hash: opt_hash(self.exec_challenge_hash),
            watchdog_challenge_hash: opt_hash(self.watchdog_challenge_hash),
            challenged_watchdogs: self.challenged_watchdogs@,
            watchdog_slot: self.watchdog_slot,
            deadline: self.deadline,
        }
    }
}

/// What an external signature verifier must check: a digest and the
/// signing identity it must verify against.
pub struct SigningRequest {
    pub digest: [u8; 32],
    pub signer: String,
}

/// A transfer for the external ledger to carry out.
pub struct Transfer {
    pub to: String,
    pub amount: u64,
}

} // verus!
