//! Properties of the protocol that span several operations.
use vstd::prelude::*;

use crate::hashing::{creation_preimage, creation_tag, id_bytes, le_bytes, utf8};
use crate::manager::{
    challenged_executor, challenged_watchdog, crashed, executor_answered, watchdog_answered,
};
use crate::types::{ContractView, Phase, POOL_SIZE, TIMEOUT_INTERVAL};

verus! {

proof fn lemma_le_bytes_len(x: nat, n: nat)
    ensures
        le_bytes(x, n).len() == n,
    decreases n,
{
    if n > 0 {
        lemma_le_bytes_len(x / 256, (n - 1) as nat);
    }
}

/// Anti-replay: two creation commitments for the same pool and the same
/// fields, taken at different registry epochs, hash different byte strings,
/// so a signature over one does not finalize a pool created at the other.
pub proof fn creation_commitment_binds_epoch(
    id: u128,
    e1: Seq<u8>,
    e2: Seq<u8>,
    pool_address: Seq<char>,
    code_hash: Seq<u8>,
    ops: Seq<Seq<char>>,
)
    requires
        e1.len() == 32,
        e2.len() == 32,
        e1 != e2,
    ensures
        creation_preimage(id, e1, pool_address, code_hash, ops) != creation_preimage(
            id,
            e2,
            pool_address,
            code_hash,
            ops,
        ),
{
    lemma_le_bytes_len(id as nat, 16);
    let start: int = (creation_tag().len() + id_bytes(id).len()) as int;
    let with_e1 = creation_preimage(id, e1, pool_address, code_hash, ops);
    let with_e2 = creation_preimage(id, e2, pool_address, code_hash, ops);
    let head = creation_tag() + id_bytes(id);
    assert(with_e1.subrange(start, start + 32) =~= e1) by {
        assert(with_e1 == head + e1 + (utf8(pool_address) + code_hash + utf8(ops[0]) + utf8(ops[1])
            + utf8(ops[2])));
    }
    assert(with_e2.subrange(start, start + 32) =~= e2) by {
        assert(with_e2 == head + e2 + (utf8(pool_address) + code_hash + utf8(ops[0]) + utf8(ops[1])
            + utf8(ops[2])));
    }
}

/// An executor challenge opened at `t0` leaves a window of one timeout:
/// an answer at `t1` within it returns the pool to `Executing`, and past it
/// the answer is overdue and the timeout check crashes the pool.
pub proof fn executor_dispute_round(c: ContractView, message: Seq<u8>, t0: u64, t1: u64)
    requires
        c.phase == Phase::Executing,
        t0 <= u64::MAX - TIMEOUT_INTERVAL,
    ensures
        challenged_executor(c, message, t0).phase == Phase::ChallengeExecutor,
        t1 <= t0 + TIMEOUT_INTERVAL ==> {
            &&& t1 <= challenged_executor(c, message, t0).deadline
            &&& executor_answered(challenged_executor(c, message, t0)).phase == Phase::Executing
        },
        t1 > t0 + TIMEOUT_INTERVAL ==> {
            &&& t1 > challenged_executor(c, message, t0).deadline
            &&& crashed(challenged_executor(c, message, t0)).phase == Phase::Crashed
        },
{
}

/// A watchdog challenge nested in an executor dispute remembers it, and its
/// answer restores the executor dispute with its challenge commitment and
/// its deadline as they were.
pub proof fn watchdog_dispute_nests(c: ContractView, slot: usize, message: Seq<u8>, now: u64)
    requires
        c.phase == Phase::ChallengeExecutor,
        slot < POOL_SIZE,
        slot != c.executive_operator,
    ensures
        challenged_watchdog(c, slot, message, now).fallback_phase == Phase::ChallengeExecutor,
        watchdog_answered(challenged_watchdog(c, slot, message, now)).phase
            == Phase::ChallengeExecutor,
        watchdog_answered(challenged_watchdog(c, slot, message, now)).exec_challenge_hash
            == c.exec_challenge_hash,
        watchdog_answered(challenged_watchdog(c, slot, message, now)).deadline == c.deadline,
        watchdog_answered(challenged_watchdog(c, slot, message, now)).fallback_phase
            == Phase::Unset,
{
}

} // verus!
