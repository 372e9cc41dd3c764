//! The operator registry and the pool lifecycle and dispute engine.
use std::collections::HashMap;
use vstd::prelude::*;

use crate::hashing::{
    calculate_executor_signed_hash, calculate_signed_hash, calculate_watchdog_signed_hash,
    chain_hash, creation_preimage, executor_tag, hash_message, response_preimage, sha256_of,
    utf8, watchdog_tag,
};
use crate::types::{
    opt_str, Contract, ContractView, Operator, Phase, PoolError, SigningRequest,
    Transfer, POOL_SIZE, TIMEOUT_INTERVAL,
};

verus! {

broadcast use vstd::std_specs::hash::group_hash_axioms;

/// Registry commitment after the given addresses registered, in order.
pub open spec fn registry_chain(addrs: Seq<Seq<char>>) -> Seq<u8>
    decreases addrs.len(),
{
    if addrs.len() == 0 {
        Seq::new(32, |_i: int| 0u8)
    } else {
        sha256_of(registry_chain(addrs.drop_last()) + utf8(addrs.last()))
    }
}

/// Addresses of the given operators, in order.
pub open spec fn addresses_of(ops: Seq<Operator>) -> Seq<Seq<char>> {
    ops.map_values(|o: Operator| o.address@)
}

/// A counter raised by one, held at its largest value.
pub open spec fn bump(x: u8) -> u8 {
    if x < u8::MAX {
        (x + 1) as u8
    } else {
        x
    }
}

/// A counter lowered by one, held at zero.
pub open spec fn drop_one(x: u8) -> u8 {
    if x > 0 {
        (x - 1) as u8
    } else {
        x
    }
}

/// A pool just opened for creation.
pub open spec fn fresh_pool(
    epoch: Seq<u8>,
    creation_operator: Seq<char>,
    code_hash: Seq<u8>,
    now: u64,
) -> ContractView {
    ContractView {
        phase: Phase::Creation,
        incremental_tx_hash: epoch,
        pool_address: None,
        creation_operator,
        operators: seq![None, None, None],
        executive_operator: 0,
        code_hash,
        fallback_phase: Phase::Unset,
        fallback_deadline: 0,
        watchdogs_challenged: 0,
        exec_challenge_hash: None,
        watchdog_challenge_hash: None,
        challenged_watchdogs: seq![0u8, 0u8, 0u8],
        watchdog_slot: 0,
        deadline: (now + TIMEOUT_INTERVAL) as u64,
    }
}

/// Pool `c` once finalized with the given address and operators.
pub open spec fn finalized(c: ContractView, pool_address: Seq<char>, ops: Seq<Seq<char>>) -> ContractView {
    ContractView {
        phase: Phase::Executing,
        pool_address: Some(pool_address),
        operators: seq![Some(ops[0]), Some(ops[1]), Some(ops[2])],
        ..c
    }
}

/// Pool `c` once its executive operator is challenged over `message` at `now`.
pub open spec fn challenged_executor(c: ContractView, message: Seq<u8>, now: u64) -> ContractView {
    ContractView {
        phase: Phase::ChallengeExecutor,
        deadline: (now + TIMEOUT_INTERVAL) as u64,
        exec_challenge_hash: Some(sha256_of(message)),
        watchdogs_challenged: 0,
        ..c
    }
}

/// Pool `c` once its executive operator answered the open challenge.
pub open spec fn executor_answered(c: ContractView) -> ContractView {
    ContractView { phase: Phase::Executing, exec_challenge_hash: None, ..c }
}

/// Pool `c` once the watchdog in `slot` is challenged over `message` at `now`.
pub open spec fn challenged_watchdog(
    c: ContractView,
    slot: usize,
    message: Seq<u8>,
    now: u64,
) -> ContractView {
    ContractView {
        phase: Phase::ChallengeWatchdog,
        fallback_phase: c.phase,
        fallback_deadline: c.deadline,
        watchdog_challenge_hash: Some(sha256_of(message)),
        challenged_watchdogs: c.challenged_watchdogs.update(
            slot as int,
            bump(c.challenged_watchdogs[slot as int]),
        ),
        watchdogs_challenged: bump(c.watchdogs_challenged),
        watchdog_slot: slot,
        deadline: (now + TIMEOUT_INTERVAL) as u64,
        ..c
    }
}

/// Pool `c` once the challenged watchdog answered: the interrupted phase
/// and its deadline are back.
pub open spec fn watchdog_answered(c: ContractView) -> ContractView {
    ContractView {
        phase: c.fallback_phase,
        deadline: c.fallback_deadline,
        fallback_phase: Phase::Unset,
        watchdog_challenge_hash: None,
        watchdogs_challenged: drop_one(c.watchdogs_challenged),
        ..c
    }
}

/// Pool `c` frozen after an overdue response.
pub open spec fn crashed(c: ContractView) -> ContractView {
    ContractView { phase: Phase::Crashed, fallback_phase: Phase::Unset, ..c }
}

/// Operators and pools, with the registry's commitment chain.
pub struct Manager {
    contracts: HashMap<u128, Contract>,
    operators: Vec<Operator>,
    operator_incremental_hash: [u8; 32],
}

impl Manager {
    /// Registered operators, in registration order.
    pub closed spec fn registry(&self) -> Seq<Operator> {
        self.operators@
    }

    /// Registered addresses, in registration order.
    pub open spec fn addresses(&self) -> Seq<Seq<char>> {
        addresses_of(self.registry())
    }

    /// Current registry commitment.
    pub closed spec fn epoch(&self) -> Seq<u8> {
        self.operator_incremental_hash@
    }

    /// Pools by identifier.
    pub closed spec fn pools(&self) -> Map<u128, ContractView> {
        self.contracts@.map_values(|c: Contract| c@)
    }

    pub open spec fn is_registered(&self, a: Seq<char>) -> bool {
        self.addresses().contains(a)
    }

    /// Signing identity of the registered operator `a`.
    pub open spec fn signer_of(&self, a: Seq<char>) -> Seq<char> {
        let i = choose|i: int| 0 <= i < self.registry().len() && self.registry()[i].address@ == a;
        self.registry()[i].tee_signature_address@
    }

    /// Invariant of a pool record relative to the registry.
    pub open spec fn pool_wf(&self, c: ContractView) -> bool {
        &&& c.phase != Phase::Unset
        &&& c.pool_address.is_some() <==> c.phase != Phase::Creation
        &&& c.incremental_tx_hash.len() == 32
        &&& c.code_hash.len() == 32
        &&& c.executive_operator < POOL_SIZE
        &&& c.operators.len() == POOL_SIZE
        &&& c.challenged_watchdogs.len() == POOL_SIZE
        &&& c.phase != Phase::Creation ==> forall|k: int|
            0 <= k < POOL_SIZE ==> (#[trigger] c.operators[k]).is_some()
        &&& c.phase == Phase::ChallengeWatchdog ==> {
            &&& c.fallback_phase == Phase::Executing || c.fallback_phase
                == Phase::ChallengeExecutor
            &&& c.watchdog_slot < POOL_SIZE
            &&& c.watchdog_slot != c.executive_operator
        }
        &&& c.phase != Phase::ChallengeWatchdog ==> c.fallback_phase == Phase::Unset
        &&& self.is_registered(c.creation_operator)
    }

    /// Well-formedness: addresses are unique, every operator passed
    /// attestation, the commitment folds the addresses in order, and every
    /// pool record is consistent.
    pub closed spec fn wf(&self) -> bool {
        &&& forall|i: int, j: int|
            0 <= i < j < self.operators@.len() ==> self.operators@[i].address@
                != self.operators@[j].address@
        &&& forall|i: int| 0 <= i < self.operators@.len() ==> self.operators@[i].initialized
        &&& self.epoch() == registry_chain(self.addresses())
        &&& forall|id: u128| #[trigger] self.pools().contains_key(id) ==> self.pool_wf(self.pools()[id])
    }

    /// An empty registry at the all-zero commitment, with no pools.
    pub fn new() -> (r: Manager)
        ensures
            r.wf(),
            r.registry() == Seq::<Operator>::empty(),
            r.epoch() == Seq::new(32, |_i: int| 0u8),
            r.pools() == Map::<u128, ContractView>::empty(),
    {
        let r = Manager {
            contracts: HashMap::new(),
            operators: Vec::new(),
            operator_incremental_hash: [0u8; 32],
        };
        proof {
            assert(r.pools() =~= Map::<u128, ContractView>::empty());
            assert(r.epoch() =~= Seq::new(32, |_i: int| 0u8));
            assert(r.addresses() =~= Seq::<Seq<char>>::empty());
        }
        r
    }

    /// Index of the operator registered under `address`.
    fn find_operator(&self, address: &String) -> (r: Option<usize>)
        ensures
            match r {
                Some(i) => i < self.registry().len() && self.registry()[i as int].address@
                    == address@,
                None => !self.is_registered(address@),
            },
    {
        let mut i: usize = 0;
        while i < self.operators.len()
            invariant
                i <= self.operators@.len(),
                forall|j: int| 0 <= j < i ==> self.operators@[j].address@ != address@,
            decreases self.operators@.len() - i,
        {
            if self.operators[i].address == *address {
                return Some(i);
            }
            i = i + 1;
        }
        proof {
            if self.is_registered(address@) {
                let k = choose|k: int|
                    0 <= k < self.addresses().len() && self.addresses()[k] == address@;
                assert(self.operators@[k].address@ == address@);
            }
        }
        None
    }

    /// Admits an operator whose attestation the external verifier judged by
    /// `attestation_valid`, and folds its address into the commitment.
    pub fn register(
        &mut self,
        address: String,
        tee_signature_address: String,
        tee_encryption_key: Vec<u8>,
        attestation_valid: bool,
    ) -> (r: Result<(), PoolError>)
        requires
            old(self).wf(),
        ensures
            final(self).wf(),
            final(self).pools() == old(self).pools(),
            old(self).is_registered(address@) ==> r == Err::<(), PoolError>(
                PoolError::AlreadyRegistered,
            ),
            !old(self).is_registered(address@) && !attestation_valid ==> r == Err::<(), PoolError>(
                PoolError::AttestationInvalid,
            ),
            !old(self).is_registered(address@) && attestation_valid ==> r is Ok,
            r is Err ==> final(self).registry() == old(self).registry() && final(self).epoch()
                == old(self).epoch(),
            r is Ok ==> {
                &&& final(self).registry() == old(self).registry().push(
                    Operator {
                        address,
                        initialized: true,
                        tee_signature_address,
                        tee_encryption_key,
                    },
                )
                &&& final(self).epoch() == sha256_of(old(self).epoch() + utf8(address@))
            },
    {
        if let Some(i) = self.find_operator(&address) {
            proof {
                assert(self.addresses()[i as int] == address@);
            }
            return Err(PoolError::AlreadyRegistered);
        }
        if !attestation_valid {
            return Err(PoolError::AttestationInvalid);
        }
        let next = chain_hash(&self.operator_incremental_hash, &address);
        let ghost old_pools = self.pools();
        let ghost old_addrs = self.addresses();
        self.operators.push(
            Operator { address, initialized: true, tee_signature_address, tee_encryption_key },
        );
        self.operator_incremental_hash = next;
        proof {
            assert(self.addresses().drop_last() =~= old_addrs);
            assert forall|a: Seq<char>| old_addrs.contains(a) implies self.addresses().contains(
                a,
            ) by {
                let k = choose|k: int| 0 <= k < old_addrs.len() && old_addrs[k] == a;
                assert(self.addresses()[k] == a);
            }
            assert(self.pools() == old_pools);
            assert(self.addresses().last() == address@);
            assert(self.epoch() == registry_chain(self.addresses()));
            assert forall|i: int, j: int|
                0 <= i < j < self.operators@.len() implies self.operators@[i].address@
                != self.operators@[j].address@ by {
                if j == self.operators@.len() - 1 {
                    assert(old_addrs[i] == self.operators@[i].address@);
                }
            }
            assert forall|id: u128| #[trigger] self.pools().contains_key(id) implies self.pool_wf(
                self.pools()[id],
            ) by {
                assert(old_addrs.contains(self.pools()[id].creation_operator));
            }
        }
        Ok(())
    }

    /// The operator registered under `address`.
    pub fn resolve(&self, address: &String) -> (r: Result<&Operator, PoolError>)
        requires
            self.wf(),
        ensures
            match r {
                Ok(o) => self.is_registered(address@) && o.address@ == address@
                    && o.tee_signature_address@ == self.signer_of(address@) && o.initialized,
                Err(e) => !self.is_registered(address@) && e == PoolError::UnknownOperator,
            },
    {
        match self.find_operator(address) {
            Some(i) => {
                proof {
                    assert(self.addresses()[i as int] == address@);
                    let j = choose|j: int|
                        0 <= j < self.registry().len() && self.registry()[j].address@ == address@;
                    assert(i == j);
                }
                Ok(&self.operators[i])
            },
            None => Err(PoolError::UnknownOperator),
        }
    }

    /// Takes pool `id` out of the store.
    fn take(&mut self, id: u128) -> (c: Contract)
        requires
            old(self).wf(),
            old(self).pools().contains_key(id),
        ensures
            c@ == old(self).pools()[id],
            final(self).pools() == old(self).pools().remove(id),
            final(self).registry() == old(self).registry(),
            final(self).epoch() == old(self).epoch(),
            final(self).wf(),
    {
        let ghost old_pools = self.pools();
        let c = self.contracts.remove(&id).unwrap();
        proof {
            assert(self.pools() =~= old_pools.remove(id));
        }
        c
    }

    /// Stores `c` as pool `id`.
    fn put(&mut self, id: u128, c: Contract)
        requires
            old(self).wf(),
            old(self).pool_wf(c@),
        ensures
            final(self).pools() == old(self).pools().insert(id, c@),
            final(self).registry() == old(self).registry(),
            final(self).epoch() == old(self).epoch(),
            final(self).wf(),
    {
        let ghost old_pools = self.pools();
        let ghost v = c@;
        self.contracts.insert(id, c);
        proof {
            assert(self.pools() =~= old_pools.insert(id, v));
        }
    }

    /// Opens pool `id` in `Creation` at the current registry commitment.
    pub fn init_creation(
        &mut self,
        id: u128,
        creation_operator: String,
        code_hash: [u8; 32],
        now: u64,
    ) -> (r: Result<Phase, PoolError>)
        requires
            old(self).wf(),
            now <= u64::MAX - TIMEOUT_INTERVAL,
        ensures
            final(self).wf(),
            final(self).registry() == old(self).registry(),
            final(self).epoch() == old(self).epoch(),
            old(self).pools().contains_key(id) ==> r == Err::<Phase, PoolError>(
                PoolError::PoolExists,
            ),
            !old(self).pools().contains_key(id) && !old(self).is_registered(creation_operator@)
                ==> r == Err::<Phase, PoolError>(PoolError::UnknownOperator),
            !old(self).pools().contains_key(id) && old(self).is_registered(creation_operator@)
                ==> r == Ok::<Phase, PoolError>(Phase::Creation),
            r is Err ==> final(self).pools() == old(self).pools(),
            r is Ok ==> final(self).pools() == old(self).pools().insert(
                id,
                fresh_pool(old(self).epoch(), creation_operator@, code_hash@, now),
            ),
    {
        if self.contracts.contains_key(&id) {
            return Err(PoolError::PoolExists);
        }
        if let Some(i) = self.find_operator(&creation_operator) {
            proof {
                assert(self.addresses()[i as int] == creation_operator@);
            }
        } else {
            return Err(PoolError::UnknownOperator);
        }
        let c = Contract {
            phase: Phase::Creation,
            incremental_tx_hash: self.operator_incremental_hash,
            pool_address: None,
            creation_operator,
            operators: [None, None, None],
            executive_operator: 0,
            code_hash,
            fallback_phase: Phase::Unset,
            fallback_deadline: 0,
            watchdogs_challenged: 0,
            exec_challenge_hash: None,
            watchdog_challenge_hash: None,
            challenged_watchdogs: [0u8; 3],
            watchdog_slot: 0,
            deadline: now + TIMEOUT_INTERVAL,
        };
        proof {
            assert(c@.operators =~= seq![None, None, None]);
            assert(c@.challenged_watchdogs =~= seq![0u8, 0u8, 0u8]);
            assert(c@ == fresh_pool(self.epoch(), c.creation_operator@, code_hash@, now));
        }
        self.put(id, c);
        Ok(Phase::Creation)
    }

    /// What the creation operator must have signed to finalize pool `id`
    /// with the given address and operators, and its signing identity.
    pub fn creation_request(
        &self,
        id: u128,
        pool_address: &String,
        pool_operators: &[String; 3],
    ) -> (r: Result<SigningRequest, PoolError>)
        requires
            self.wf(),
        ensures
            !self.pools().contains_key(id) ==> r == Err::<SigningRequest, PoolError>(
                PoolError::PoolNotFound,
            ),
            self.pools().contains_key(id) && self.pools()[id].phase != Phase::Creation ==> r
                == Err::<SigningRequest, PoolError>(PoolError::WrongPhase),
            self.pools().contains_key(id) && self.pools()[id].phase == Phase::Creation ==> r is Ok,
            r matches Ok(q) ==> {
                let c = self.pools()[id];
                &&& q.digest@ == sha256_of(
                    creation_preimage(
                        id,
                        c.incremental_tx_hash,
                        pool_address@,
                        c.code_hash,
                        seq![pool_operators[0]@, pool_operators[1]@, pool_operators[2]@],
                    ),
                )
                &&& q.signer@ == self.signer_of(c.creation_operator)
            },
    {
        let c = match self.contracts.get(&id) {
            Some(c) => c,
            None => return Err(PoolError::PoolNotFound),
        };
        if c.phase != Phase::Creation {
            return Err(PoolError::WrongPhase);
        }
        let digest = calculate_signed_hash(
            id,
            &c.incremental_tx_hash,
            pool_address,
            &c.code_hash,
            pool_operators,
        );
        match self.resolve(&c.creation_operator) {
            Ok(o) => Ok(SigningRequest { digest, signer: o.tee_signature_address.clone() }),
            Err(e) => Err(e),
        }
    }

    /// Moves pool `id` from `Creation` to `Executing` with the given address
    /// and operators, given the external verifier's verdict on the signature
    /// over the digest of `creation_request`.
    pub fn finalize_creation(
        &mut self,
        id: u128,
        pool_address: String,
        pool_operators: [String; 3],
        now: u64,
        signature_valid: bool,
    ) -> (r: Result<Phase, PoolError>)
        requires
            old(self).wf(),
        ensures
            final(self).wf(),
            final(self).registry() == old(self).registry(),
            final(self).epoch() == old(self).epoch(),
            !old(self).pools().contains_key(id) ==> r == Err::<Phase, PoolError>(
                PoolError::PoolNotFound,
            ),
            old(self).pools().contains_key(id) ==> {
                let c = old(self).pools()[id];
                &&& c.phase != Phase::Creation ==> r == Err::<Phase, PoolError>(
                    PoolError::WrongPhase,
                )
                &&& c.phase == Phase::Creation && now > c.deadline ==> r == Err::<
                    Phase,
                    PoolError,
                >(PoolError::DeadlineExpired)
                &&& c.phase == Phase::Creation && now <= c.deadline && !signature_valid ==> r
                    == Err::<Phase, PoolError>(PoolError::InvalidSignature)
                &&& c.phase == Phase::Creation && now <= c.deadline && signature_valid ==> r
                    == Ok::<Phase, PoolError>(Phase::Executing)
            },
            r is Err ==> final(self).pools() == old(self).pools(),
            r is Ok ==> final(self).pools() == old(self).pools().insert(
                id,
                finalized(
                    old(self).pools()[id],
                    pool_address@,
                    seq![pool_operators[0]@, pool_operators[1]@, pool_operators[2]@],
                ),
            ),
    {
        match self.contracts.get(&id) {
            Some(c) => {
                if c.phase != Phase::Creation {
                    return Err(PoolError::WrongPhase);
                }
                if now > c.deadline {
                    return Err(PoolError::DeadlineExpired);
                }
            },
            None => return Err(PoolError::PoolNotFound),
        }
        if !signature_valid {
            return Err(PoolError::InvalidSignature);
        }
        let ghost before = self.pools()[id];
        proof {
            assert(self.pool_wf(before));
        }
        let mut c = self.take(id);
        c.phase = Phase::Executing;
        c.pool_address = Some(pool_address);
        c.operators = [
            Some(pool_operators[0].clone()),
            Some(pool_operators[1].clone()),
            Some(pool_operators[2].clone()),
        ];
        proof {
            assert(c@.operators[0].is_some() && c@.operators[1].is_some()
                && c@.operators[2].is_some());
            assert(self.is_registered(c@.creation_operator));
        }
        self.put(id, c);
        Ok(Phase::Executing)
    }

    /// The transfer that forwards a deposit of `amount` to pool `id`.
    pub fn deposit_to_contract(&self, id: u128, amount: u64) -> (r: Result<Transfer, PoolError>)
        requires
            self.wf(),
        ensures
            !self.pools().contains_key(id) ==> r == Err::<Transfer, PoolError>(
                PoolError::PoolNotFound,
            ),
            self.pools().contains_key(id) && self.pools()[id].phase != Phase::Executing ==> r
                == Err::<Transfer, PoolError>(PoolError::WrongPhase),
            self.pools().contains_key(id) && self.pools()[id].phase == Phase::Executing ==> r is Ok,
            r matches Ok(t) ==> Some(t.to@) == self.pools()[id].pool_address && t.amount == amount,
    {
        let c = match self.contracts.get(&id) {
            Some(c) => c,
            None => return Err(PoolError::PoolNotFound),
        };
        if c.phase != Phase::Executing {
            return Err(PoolError::WrongPhase);
        }
        proof {
            assert(self.pool_wf(self.pools()[id]));
        }
        match &c.pool_address {
            Some(a) => Ok(Transfer { to: a.clone(), amount }),
            None => Err(PoolError::WrongPhase),
        }
    }

    /// The transfer of `amount` from pool `id` to `receiver`, requested by
    /// `caller`, which must be the pool's own address.
    pub fn withdraw(&self, id: u128, caller: &String, receiver: String, amount: u64) -> (r: Result<
        Transfer,
        PoolError,
    >)
        requires
            self.wf(),
        ensures
            !self.pools().contains_key(id) ==> r == Err::<Transfer, PoolError>(
                PoolError::PoolNotFound,
            ),
            self.pools().contains_key(id) && self.pools()[id].phase != Phase::Executing ==> r
                == Err::<Transfer, PoolError>(PoolError::WrongPhase),
            self.pools().contains_key(id) && self.pools()[id].phase == Phase::Executing
                && self.pools()[id].pool_address != Some(caller@) ==> r == Err::<
                Transfer,
                PoolError,
            >(PoolError::UnauthorizedCaller),
            self.pools().contains_key(id) && self.pools()[id].phase == Phase::Executing
                && self.pools()[id].pool_address == Some(caller@) ==> r == Ok::<
                Transfer,
                PoolError,
            >(Transfer { to: receiver, amount }),
    {
        let c = match self.contracts.get(&id) {
            Some(c) => c,
            None => return Err(PoolError::PoolNotFound),
        };
        if c.phase != Phase::Executing {
            return Err(PoolError::WrongPhase);
        }
        match &c.pool_address {
            Some(a) => {
                if *a != *caller {
                    return Err(PoolError::UnauthorizedCaller);
                }
            },
            None => return Err(PoolError::UnauthorizedCaller),
        }
        Ok(Transfer { to: receiver, amount })
    }

    /// Opens a dispute of the executive operator of pool `id` over `message`.
    pub fn challenge_executor(&mut self, id: u128, message: &[u8], now: u64) -> (r: Result<
        Phase,
        PoolError,
    >)
        requires
            old(self).wf(),
            now <= u64::MAX - TIMEOUT_INTERVAL,
        ensures
            final(self).wf(),
            final(self).registry() == old(self).registry(),
            final(self).epoch() == old(self).epoch(),
            !old(self).pools().contains_key(id) ==> r == Err::<Phase, PoolError>(
                PoolError::PoolNotFound,
            ),
            old(self).pools().contains_key(id) && old(self).pools()[id].phase != Phase::Executing
                ==> r == Err::<Phase, PoolError>(PoolError::WrongPhase),
            old(self).pools().contains_key(id) && old(self).pools()[id].phase == Phase::Executing
                ==> r == Ok::<Phase, PoolError>(Phase::ChallengeExecutor),
            r is Err ==> final(self).pools() == old(self).pools(),
            r is Ok ==> final(self).pools() == old(self).pools().insert(
                id,
                challenged_executor(old(self).pools()[id], message@, now),
            ),
    {
        match self.contracts.get(&id) {
            Some(c) => {
                if c.phase != Phase::Executing {
                    return Err(PoolError::WrongPhase);
                }
            },
            None => return Err(PoolError::PoolNotFound),
        }
        proof {
            assert(self.pool_wf(self.pools()[id]));
        }
        let mut c = self.take(id);
        c.phase = Phase::ChallengeExecutor;
        c.deadline = now + TIMEOUT_INTERVAL;
        c.exec_challenge_hash = Some(hash_message(message));
        c.watchdogs_challenged = 0;
        self.put(id, c);
        Ok(Phase::ChallengeExecutor)
    }

    /// What the executive operator of pool `id` must have signed to answer
    /// the open challenge with `response`, and its signing identity.
    pub fn executor_request(&self, id: u128, response: &[u8]) -> (r: Result<
        SigningRequest,
        PoolError,
    >)
        requires
            self.wf(),
        ensures
            !self.pools().contains_key(id) ==> r == Err::<SigningRequest, PoolError>(
                PoolError::PoolNotFound,
            ),
            self.pools().contains_key(id) ==> {
                let c = self.pools()[id];
                let exec = c.operators[c.executive_operator as int]->Some_0;
                &&& c.phase != Phase::ChallengeExecutor ==> r == Err::<SigningRequest, PoolError>(
                    PoolError::WrongPhase,
                )
                &&& c.phase == Phase::ChallengeExecutor && !self.is_registered(exec) ==> r
                    == Err::<SigningRequest, PoolError>(PoolError::UnknownOperator)
                &&& c.phase == Phase::ChallengeExecutor && self.is_registered(exec) ==> r is Ok
                &&& r matches Ok(q) ==> {
                    &&& q.digest@ == sha256_of(
                        response_preimage(executor_tag(), id, c.incremental_tx_hash, response@),
                    )
                    &&& q.signer@ == self.signer_of(exec)
                }
            },
    {
        let c = match self.contracts.get(&id) {
            Some(c) => c,
            None => return Err(PoolError::PoolNotFound),
        };
        if c.phase != Phase::ChallengeExecutor {
            return Err(PoolError::WrongPhase);
        }
        proof {
            assert(self.contracts@.contains_key(id));
            assert(self.pools().contains_key(id));
            assert(self.pool_wf(self.pools()[id]));
            assert(self.pools()[id].operators[c.executive_operator as int] == opt_str(
                c.operators[c.executive_operator as int],
            ));
        }
        let exec = match &c.operators[c.executive_operator] {
            Some(a) => a,
            None => return Err(PoolError::UnknownOperator),
        };
        let digest = calculate_executor_signed_hash(id, &c.incremental_tx_hash, response);
        match self.resolve(exec) {
            Ok(o) => Ok(SigningRequest { digest, signer: o.tee_signature_address.clone() }),
            Err(e) => Err(e),
        }
    }

    /// Closes the executor dispute of pool `id`, given the external
    /// verifier's verdict on the signature over the digest of
    /// `executor_request`.
    pub fn executor_response(&mut self, id: u128, now: u64, signature_valid: bool) -> (r: Result<
        Phase,
        PoolError,
    >)
        requires
            old(self).wf(),
        ensures
            final(self).wf(),
            final(self).registry() == old(self).registry(),
            final(self).epoch() == old(self).epoch(),
            !old(self).pools().contains_key(id) ==> r == Err::<Phase, PoolError>(
                PoolError::PoolNotFound,
            ),
            old(self).pools().contains_key(id) ==> {
                let c = old(self).pools()[id];
                &&& c.phase != Phase::ChallengeExecutor ==> r == Err::<Phase, PoolError>(
                    PoolError::WrongPhase,
                )
                &&& c.phase == Phase::ChallengeExecutor && now > c.deadline ==> r == Err::<
                    Phase,
                    PoolError,
                >(PoolError::DeadlineExpired)
                &&& c.phase == Phase::ChallengeExecutor && now <= c.deadline && !signature_valid
                    ==> r == Err::<Phase, PoolError>(PoolError::InvalidSignature)
                &&& c.phase == Phase::ChallengeExecutor && now <= c.deadline && signature_valid
                    ==> r == Ok::<Phase, PoolError>(Phase::Executing)
            },
            r is Err ==> final(self).pools() == old(self).pools(),
            r is Ok ==> final(self).pools() == old(self).pools().insert(
                id,
                executor_answered(old(self).pools()[id]),
            ),
    {
        match self.contracts.get(&id) {
            Some(c) => {
                if c.phase != Phase::ChallengeExecutor {
                    return Err(PoolError::WrongPhase);
                }
                if now > c.deadline {
                    return Err(PoolError::DeadlineExpired);
                }
            },
            None => return Err(PoolError::PoolNotFound),
        }
        if !signature_valid {
            return Err(PoolError::InvalidSignature);
        }
        proof {
            assert(self.pool_wf(self.pools()[id]));
        }
        let mut c = self.take(id);
        c.phase = Phase::Executing;
        c.exec_challenge_hash = None;
        self.put(id, c);
        Ok(Phase::Executing)
    }

    /// Opens a dispute of the watchdog in `slot` of pool `id` over `message`,
    /// keeping the current phase and deadline to restore once it is answered.
    pub fn challenge_watchdog(&mut self, id: u128, slot: usize, message: &[u8], now: u64) -> (r:
        Result<Phase, PoolError>)
        requires
            old(self).wf(),
            now <= u64::MAX - TIMEOUT_INTERVAL,
        ensures
            final(self).wf(),
            final(self).registry() == old(self).registry(),
            final(self).epoch() == old(self).epoch(),
            !old(self).pools().contains_key(id) ==> r == Err::<Phase, PoolError>(
                PoolError::PoolNotFound,
            ),
            old(self).pools().contains_key(id) ==> {
                let c = old(self).pools()[id];
                let open = c.phase == Phase::Executing || c.phase == Phase::ChallengeExecutor;
                let valid_slot = slot < POOL_SIZE && slot != c.executive_operator;
                &&& !open ==> r == Err::<Phase, PoolError>(PoolError::WrongPhase)
                &&& open && !valid_slot ==> r == Err::<Phase, PoolError>(PoolError::InvalidSlot)
                &&& open && valid_slot ==> r == Ok::<Phase, PoolError>(Phase::ChallengeWatchdog)
            },
            r is Err ==> final(self).pools() == old(self).pools(),
            r is Ok ==> final(self).pools() == old(self).pools().insert(
                id,
                challenged_watchdog(old(self).pools()[id], slot, message@, now),
            ),
    {
        match self.contracts.get(&id) {
            Some(c) => {
                if c.phase != Phase::Executing && c.phase != Phase::ChallengeExecutor {
                    return Err(PoolError::WrongPhase);
                }
                if slot >= POOL_SIZE || slot == c.executive_operator {
                    return Err(PoolError::InvalidSlot);
                }
            },
            None => return Err(PoolError::PoolNotFound),
        }
        proof {
            assert(self.pool_wf(self.pools()[id]));
        }
        let mut c = self.take(id);
        let ghost before = c@;
        c.fallback_phase = c.phase;
        c.fallback_deadline = c.deadline;
        c.phase = Phase::ChallengeWatchdog;
        c.watchdog_challenge_hash = Some(hash_message(message));
        let count = c.challenged_watchdogs[slot];
        c.challenged_watchdogs[slot] = if count < u8::MAX {
            count + 1
        } else {
            count
        };
        if c.watchdogs_challenged < u8::MAX {
            c.watchdogs_challenged = c.watchdogs_challenged + 1;
        }
        c.watchdog_slot = slot;
        c.deadline = now + TIMEOUT_INTERVAL;
        proof {
            assert(c@.challenged_watchdogs =~= before.challenged_watchdogs.update(
                slot as int,
                bump(before.challenged_watchdogs[slot as int]),
            ));
        }
        self.put(id, c);
        Ok(Phase::ChallengeWatchdog)
    }

    /// What the watchdog in `slot` of pool `id` must have signed to answer
    /// its open challenge with `response`, and its signing identity.
    pub fn watchdog_request(&self, id: u128, slot: usize, response: &[u8]) -> (r: Result<
        SigningRequest,
        PoolError,
    >)
        requires
            self.wf(),
        ensures
            !self.pools().contains_key(id) ==> r == Err::<SigningRequest, PoolError>(
                PoolError::PoolNotFound,
            ),
            self.pools().contains_key(id) ==> {
                let c = self.pools()[id];
                let w = c.operators[slot as int]->Some_0;
                &&& c.phase != Phase::ChallengeWatchdog ==> r == Err::<SigningRequest, PoolError>(
                    PoolError::WrongPhase,
                )
                &&& c.phase == Phase::ChallengeWatchdog && slot != c.watchdog_slot ==> r == Err::<
                    SigningRequest,
                    PoolError,
                >(PoolError::InvalidSlot)
                &&& c.phase == Phase::ChallengeWatchdog && slot == c.watchdog_slot
                    && !self.is_registered(w) ==> r == Err::<SigningRequest, PoolError>(
                    PoolError::UnknownOperator,
                )
                &&& c.phase == Phase::ChallengeWatchdog && slot == c.watchdog_slot
                    && self.is_registered(w) ==> r is Ok
                &&& r matches Ok(q) ==> {
                    &&& q.digest@ == sha256_of(
                        response_preimage(watchdog_tag(), id, c.incremental_tx_hash, response@),
                    )
                    &&& q.signer@ == self.signer_of(w)
                }
            },
    {
        let c = match self.contracts.get(&id) {
            Some(c) => c,
            None => return Err(PoolError::PoolNotFound),
        };
        if c.phase != Phase::ChallengeWatchdog {
            return Err(PoolError::WrongPhase);
        }
        if slot != c.watchdog_slot {
            return Err(PoolError::InvalidSlot);
        }
        proof {
            assert(self.contracts@.contains_key(id));
            assert(self.pools().contains_key(id));
            assert(self.pool_wf(self.pools()[id]));
            assert(self.pools()[id].operators[slot as int] == opt_str(c.operators[slot as int]));
        }
        let w = match &c.operators[slot] {
            Some(a) => a,
            None => return Err(PoolError::UnknownOperator),
        };
        let digest = calculate_watchdog_signed_hash(id, &c.incremental_tx_hash, response);
        match self.resolve(w) {
            Ok(o) => Ok(SigningRequest { digest, signer: o.tee_signature_address.clone() }),
            Err(e) => Err(e),
        }
    }

    /// Closes the watchdog dispute of pool `id` and restores the phase and
    /// deadline it interrupted, given the external verifier's verdict on the
    /// signature over the digest of `watchdog_request`.
    pub fn watchdog_response(&mut self, id: u128, slot: usize, now: u64, signature_valid: bool) -> (r:
        Result<Phase, PoolError>)
        requires
            old(self).wf(),
        ensures
            final(self).wf(),
            final(self).registry() == old(self).registry(),
            final(self).epoch() == old(self).epoch(),
            !old(self).pools().contains_key(id) ==> r == Err::<Phase, PoolError>(
                PoolError::PoolNotFound,
            ),
            old(self).pools().contains_key(id) ==> {
                let c = old(self).pools()[id];
                let open = c.phase == Phase::ChallengeWatchdog;
                &&& !open ==> r == Err::<Phase, PoolError>(PoolError::WrongPhase)
                &&& open && slot != c.watchdog_slot ==> r == Err::<Phase, PoolError>(
                    PoolError::InvalidSlot,
                )
                &&& open && slot == c.watchdog_slot && now > c.deadline ==> r == Err::<
                    Phase,
                    PoolError,
                >(PoolError::DeadlineExpired)
                &&& open && slot == c.watchdog_slot && now <= c.deadline && !signature_valid ==> r
                    == Err::<Phase, PoolError>(PoolError::InvalidSignature)
                &&& open && slot == c.watchdog_slot && now <= c.deadline && signature_valid ==> r
                    == Ok::<Phase, PoolError>(c.fallback_phase)
            },
            r is Err ==> final(self).pools() == old(self).pools(),
            r is Ok ==> final(self).pools() == old(self).pools().insert(
                id,
                watchdog_answered(old(self).pools()[id]),
            ),
    {
        match self.contracts.get(&id) {
            Some(c) => {
                if c.phase != Phase::ChallengeWatchdog {
                    return Err(PoolError::WrongPhase);
                }
                if slot != c.watchdog_slot {
                    return Err(PoolError::InvalidSlot);
                }
                if now > c.deadline {
                    return Err(PoolError::DeadlineExpired);
                }
            },
            None => return Err(PoolError::PoolNotFound),
        }
        if !signature_valid {
            return Err(PoolError::InvalidSignature);
        }
        proof {
            assert(self.pool_wf(self.pools()[id]));
        }
        let mut c = self.take(id);
        let restored = c.fallback_phase;
        c.phase = c.fallback_phase;
        c.deadline = c.fallback_deadline;
        c.fallback_phase = Phase::Unset;
        c.watchdog_challenge_hash = None;
        if c.watchdogs_challenged > 0 {
            c.watchdogs_challenged = c.watchdogs_challenged - 1;
        }
        self.put(id, c);
        Ok(restored)
    }

    /// Crashes pool `id` when the response awaited in its open dispute is
    /// overdue at `now`; otherwise leaves it as it is. Returns the phase
    /// after the check. A pool still in `Creation` holds no funds and is not
    /// crashed: past its deadline it simply cannot be finalized.
    pub fn check_timeout(&mut self, id: u128, now: u64) -> (r: Result<Phase, PoolError>)
        requires
            old(self).wf(),
        ensures
            final(self).wf(),
            final(self).registry() == old(self).registry(),
            final(self).epoch() == old(self).epoch(),
            !old(self).pools().contains_key(id) ==> r == Err::<Phase, PoolError>(
                PoolError::PoolNotFound,
            ),
            old(self).pools().contains_key(id) ==> {
                let c = old(self).pools()[id];
                let disputed = c.phase == Phase::ChallengeExecutor || c.phase
                    == Phase::ChallengeWatchdog;
                &&& !disputed ==> r == Err::<Phase, PoolError>(PoolError::WrongPhase)
                &&& disputed && now <= c.deadline ==> r == Ok::<Phase, PoolError>(c.phase)
                &&& disputed && now > c.deadline ==> r == Ok::<Phase, PoolError>(Phase::Crashed)
            },
            r != Ok::<Phase, PoolError>(Phase::Crashed) ==> final(self).pools() == old(
                self,
            ).pools(),
            r == Ok::<Phase, PoolError>(Phase::Crashed) ==> final(self).pools() == old(
                self,
            ).pools().insert(
                id,
                crashed(old(self).pools()[id]),
            ),
    {
        match self.contracts.get(&id) {
            Some(c) => {
                if c.phase != Phase::ChallengeExecutor && c.phase != Phase::ChallengeWatchdog {
                    return Err(PoolError::WrongPhase);
                }
                if now <= c.deadline {
                    return Ok(c.phase);
                }
            },
            None => return Err(PoolError::PoolNotFound),
        }
        proof {
            assert(self.pool_wf(self.pools()[id]));
        }
        let mut c = self.take(id);
        c.phase = Phase::Crashed;
        c.fallback_phase = Phase::Unset;
        self.put(id, c);
        Ok(Phase::Crashed)
    }

    /// The registry commitment is the hash chain folded over the registered
    /// addresses in registration order, starting from 32 zero bytes.
    pub proof fn lemma_epoch_is_fold(&self)
        requires
            self.wf(),
        ensures
            self.epoch() == registry_chain(self.addresses()),
    {
    }

    /// The record of pool `id`.
    pub fn pool(&self, id: u128) -> (r: Option<&Contract>)
        ensures
            match r {
                Some(c) => self.pools().contains_key(id) && c@ == self.pools()[id],
                None => !self.pools().contains_key(id),
            },
    {
        self.contracts.get(&id)
    }

    /// The current registry commitment.
    pub fn current_epoch(&self) -> (r: [u8; 32])
        ensures
            r@ == self.epoch(),
    {
        self.operator_incremental_hash
    }
}

} // verus!
