//! Byte layouts of the signed commitments and the one hash primitive used.
use vstd::prelude::*;
use vstd::utf8::encode_utf8;

verus! {

/// SHA-256 of a byte sequence, as computed by the `sha2` crate.
pub uninterp spec fn sha256_of(data: Seq<u8>) -> Seq<u8>;

/// Domain tag of the creation attestation.
pub open spec fn creation_tag() -> Seq<u8> {
    seq![67u8, 114, 101, 97, 116, 105, 111, 110, 45, 65, 116, 116, 101, 115, 116]
}

/// Domain tag of an executor's answer to a challenge.
pub open spec fn executor_tag() -> Seq<u8> {
    seq![67u8, 104, 97, 108, 108, 101, 110, 103, 101, 45, 82, 101, 115, 112, 111, 110, 115, 101]
}

/// Domain tag of a watchdog's answer to a challenge.
pub open spec fn watchdog_tag() -> Seq<u8> {
    seq![87u8, 97, 116, 99, 104, 100, 111, 103, 45, 82, 101, 115, 112, 111, 110, 115, 101]
}

/// The `n` low-order bytes of `x`, least significant first.
pub open spec fn le_bytes(x: nat, n: nat) -> Seq<u8>
    decreases n,
{
    if n == 0 {
        Seq::empty()
    } else {
        seq![(x % 256) as u8] + le_bytes(x / 256, (n - 1) as nat)
    }
}

/// Little-endian encoding of a pool identifier.
pub open spec fn id_bytes(id: u128) -> Seq<u8> {
    le_bytes(id as nat, 16)
}

/// UTF-8 bytes of a string.
pub open spec fn utf8(s: Seq<char>) -> Seq<u8> {
    encode_utf8(s)
}

/// Bytes hashed for the creation attestation of a pool.
pub open spec fn creation_preimage(
    id: u128,
    epoch: Seq<u8>,
    pool_address: Seq<char>,
    code_hash: Seq<u8>,
    ops: Seq<Seq<char>>,
) -> Seq<u8> {
    creation_tag() + id_bytes(id) + epoch + utf8(pool_address) + code_hash + utf8(ops[0]) + utf8(
        ops[1],
    ) + utf8(ops[2])
}

/// Bytes hashed for a signed answer to a challenge, under the given domain tag.
pub open spec fn response_preimage(
    tag: Seq<u8>,
    id: u128,
    epoch: Seq<u8>,
    response: Seq<u8>,
) -> Seq<u8> {
    tag + id_bytes(id) + epoch + response
}

/// Relies on `sha2::Sha256::digest`: the 32-byte SHA-256 digest of `data`.
#[verifier::external_body]
pub(crate) fn hash_message(data: &[u8]) -> (r: [u8; 32])
    ensures
        r@ == sha256_of(data@),
{
    <sha2::Sha256 as sha2::Digest>::digest(data).into()
}

/// Appends `b` to `out`.
fn push_all(out: &mut Vec<u8>, b: &[u8])
    ensures
        final(out)@ == old(out)@ + b@,
{
    let mut i: usize = 0;
    while i < b.len()
        invariant
            i <= b@.len(),
            out@ == old(out)@ + b@.subrange(0, i as int),
        decreases b@.len() - i,
    {
        out.push(b[i]);
        i = i + 1;
        proof {
            assert(b@.subrange(0, i as int) == b@.subrange(0, i - 1) + seq![b@[i - 1]]);
        }
    }
    proof {
        assert(b@.subrange(0, b@.len() as int) == b@);
    }
}

/// Appends the little-endian bytes of `id` to `out`.
fn push_id(out: &mut Vec<u8>, id: u128)
    ensures
        final(out)@ == old(out)@ + id_bytes(id),
{
    let mut x: u128 = id;
    let mut i: usize = 0;
    while i < 16
        invariant
            i <= 16,
            old(out)@ + le_bytes(id as nat, 16) == out@ + le_bytes(x as nat, (16 - i) as nat),
        decreases 16 - i,
    {
        proof {
            let rest = le_bytes((x / 256) as nat, (16 - i - 1) as nat);
            assert(le_bytes(x as nat, (16 - i) as nat) == seq![(x % 256) as u8] + rest);
            assert(out@ + (seq![(x % 256) as u8] + rest) == (out@ + seq![(x % 256) as u8])
                + rest);
        }
        out.push((x % 256) as u8);
        x = x / 256;
        i = i + 1;
    }
    proof {
        assert(le_bytes(x as nat, 0) == Seq::<u8>::empty());
        assert(out@ + Seq::<u8>::empty() == out@);
    }
}

/// Appends the UTF-8 bytes of `s` to `out`.
fn push_str(out: &mut Vec<u8>, s: &String)
    ensures
        final(out)@ == old(out)@ + utf8(s@),
{
    let b = s.as_str().as_bytes();
    push_all(out, b);
}

/// Digest signed by the creation operator to finalize pool `id`.
pub fn calculate_signed_hash(
    id: u128,
    epoch: &[u8; 32],
    pool_address: &String,
    code_hash: &[u8; 32],
    pool_operators: &[String; 3],
) -> (r: [u8; 32])
    ensures
        r@ == sha256_of(
            creation_preimage(
                id,
                epoch@,
                pool_address@,
                code_hash@,
                seq![pool_operators[0]@, pool_operators[1]@, pool_operators[2]@],
            ),
        ),
{
    let mut data: Vec<u8> = Vec::new();
    let tag: [u8; 15] = [67, 114, 101, 97, 116, 105, 111, 110, 45, 65, 116, 116, 101, 115, 116];
    push_all(&mut data, &tag);
    push_id(&mut data, id);
    push_all(&mut data, epoch);
    push_str(&mut data, pool_address);
    push_all(&mut data, code_hash);
    push_str(&mut data, &pool_operators[0]);
    push_str(&mut data, &pool_operators[1]);
    push_str(&mut data, &pool_operators[2]);
    hash_message(data.as_slice())
}

/// Digest signed by the executive operator to answer a challenge on pool `id`.
pub fn calculate_executor_signed_hash(id: u128, epoch: &[u8; 32], response: &[u8]) -> (r: [u8; 32])
    ensures
        r@ == sha256_of(response_preimage(executor_tag(), id, epoch@, response@)),
{
    let mut data: Vec<u8> = Vec::new();
    let tag: [u8; 18] = [67, 104, 97, 108, 108, 101, 110, 103, 101, 45, 82, 101, 115, 112, 111, 110, 115, 101];
    push_all(&mut data, &tag);
    push_id(&mut data, id);
    push_all(&mut data, epoch);
    push_all(&mut data, response);
    hash_message(data.as_slice())
}

/// Digest signed by a challenged watchdog to answer on pool `id`.
pub fn calculate_watchdog_signed_hash(id: u128, epoch: &[u8; 32], response: &[u8]) -> (r: [u8; 32])
    ensures
        r@ == sha256_of(response_preimage(watchdog_tag(), id, epoch@, response@)),
{
    let mut data: Vec<u8> = Vec::new();
    let tag: [u8; 17] = [87, 97, 116, 99, 104, 100, 111, 103, 45, 82, 101, 115, 112, 111, 110, 115, 101];
    push_all(&mut data, &tag);
    push_id(&mut data, id);
    push_all(&mut data, epoch);
    push_all(&mut data, response);
    hash_message(data.as_slice())
}

/// Next registry commitment after `address` joins: the hash of the previous
/// commitment followed by the address bytes.
pub fn chain_hash(previous: &[u8; 32], address: &String) -> (r: [u8; 32])
    ensures
        r@ == sha256_of(previous@ + utf8(address@)),
{
    let mut data: Vec<u8> = Vec::new();
    push_all(&mut data, previous);
    push_str(&mut data, address);
    hash_message(data.as_slice())
}

} // verus!
