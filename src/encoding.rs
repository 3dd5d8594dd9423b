//! The canonical byte encodings of a validator set and of a batch, and the
//! checkpoint and batch hashes taken over them.
use crate::crypto::{sha256, sha256_of};
use vstd::prelude::*;

verus! {

/// The arguments that define a validator set. Position `i` binds
/// `validators[i]` to `powers[i]`.
#[derive(Debug, Clone)]
pub struct ValsetArgs {
    pub validators: Vec<[u8; 32]>,
    pub powers: Vec<u32>,
    pub valset_nonce: u64,
    pub reward_amount: i128,
    pub reward_token: [u8; 32],
}

/// `v` as `n` big-endian bytes (the low `n` bytes of `v`).
pub open spec fn be_bytes(v: nat, n: nat) -> Seq<u8>
    decreases n,
{
    if n == 0 {
        Seq::empty()
    } else {
        be_bytes(v / 256, (n - 1) as nat).push((v % 256) as u8)
    }
}

pub open spec fn u32_be(v: u32) -> Seq<u8> {
    be_bytes(v as nat, 4)
}

pub open spec fn u64_be(v: u64) -> Seq<u8> {
    be_bytes(v as nat, 8)
}

/// A signed amount in its 16-byte two's complement form.
pub open spec fn i128_be(v: i128) -> Seq<u8> {
    be_bytes((v as u128) as nat, 16)
}

/// The length of a list, written before its items.
pub open spec fn len_prefix(n: nat) -> Seq<u8> {
    be_bytes(n, 8)
}

pub open spec fn keys_bytes(keys: Seq<[u8; 32]>) -> Seq<u8>
    decreases keys.len(),
{
    if keys.len() == 0 {
        Seq::empty()
    } else {
        keys_bytes(keys.drop_last()) + keys.last()@
    }
}

pub open spec fn powers_bytes(powers: Seq<u32>) -> Seq<u8>
    decreases powers.len(),
{
    if powers.len() == 0 {
        Seq::empty()
    } else {
        powers_bytes(powers.drop_last()) + u32_be(powers.last())
    }
}

pub open spec fn amounts_bytes(amounts: Seq<i128>) -> Seq<u8>
    decreases amounts.len(),
{
    if amounts.len() == 0 {
        Seq::empty()
    } else {
        amounts_bytes(amounts.drop_last()) + i128_be(amounts.last())
    }
}

/// The domain tag of a checkpoint: the ASCII bytes of "valsetargs".
pub open spec fn valset_tag() -> Seq<u8> {
    seq![118u8, 97, 108, 115, 101, 116, 97, 114, 103, 115]
}

/// The domain tag of a batch: the ASCII bytes of "transactionbatch".
pub open spec fn batch_tag() -> Seq<u8> {
    seq![116u8, 114, 97, 110, 115, 97, 99, 116, 105, 111, 110, 98, 97, 116, 99, 104]
}

/// The canonical encoding of `(valset, chain_id, "valsetargs")`.
pub open spec fn valset_encoding(valset: ValsetArgs, chain_id: Seq<u8>) -> Seq<u8> {
    len_prefix(valset.validators@.len()) + keys_bytes(valset.validators@) + len_prefix(
        valset.powers@.len(),
    ) + powers_bytes(valset.powers@) + u64_be(valset.valset_nonce) + i128_be(
        valset.reward_amount,
    ) + valset.reward_token@ + chain_id + valset_tag()
}

/// The canonical encoding of `("transactionbatch", chain_id, amounts,
/// destinations, fees, batch_nonce, token_contract, batch_timeout)`.
pub open spec fn batch_encoding(
    chain_id: Seq<u8>,
    amounts: Seq<i128>,
    destinations: Seq<[u8; 32]>,
    fees: Seq<i128>,
    batch_nonce: u32,
    token_contract: Seq<u8>,
    batch_timeout: u32,
) -> Seq<u8> {
    batch_tag() + (chain_id + (batch_lists(amounts, destinations, fees) + (u32_be(batch_nonce) + (
    token_contract + u32_be(batch_timeout)))))
}

/// The three length-prefixed lists of a batch, as they follow the chain id.
pub open spec fn batch_lists(amounts: Seq<i128>, destinations: Seq<[u8; 32]>, fees: Seq<i128>) -> Seq<
    u8,
> {
    len_prefix(amounts.len()) + (amounts_bytes(amounts) + (len_prefix(destinations.len()) + (
    keys_bytes(destinations) + (len_prefix(fees.len()) + amounts_bytes(fees)))))
}

/// The checkpoint of a validator set on a chain.
pub open spec fn checkpoint_of(valset: ValsetArgs, chain_id: Seq<u8>) -> Seq<u8> {
    sha256_of(valset_encoding(valset, chain_id))
}

/// The hash that validators sign to approve a batch.
pub open spec fn batch_hash_of(
    chain_id: Seq<u8>,
    amounts: Seq<i128>,
    destinations: Seq<[u8; 32]>,
    fees: Seq<i128>,
    batch_nonce: u32,
    token_contract: Seq<u8>,
    batch_timeout: u32,
) -> Seq<u8> {
    sha256_of(
        batch_encoding(
            chain_id,
            amounts,
            destinations,
            fees,
            batch_nonce,
            token_contract,
            batch_timeout,
        ),
    )
}

/// `256` to the power `n`.
pub open spec fn pow256(n: nat) -> nat
    decreases n,
{
    if n == 0 {
        1
    } else {
        256 * pow256((n - 1) as nat)
    }
}

proof fn lemma_pow256_values()
    ensures
        pow256(4) == 0x1_0000_0000,
        pow256(8) == 0x1_0000_0000_0000_0000,
        pow256(16) == 0x1_0000_0000_0000_0000_0000_0000_0000_0000,
{
    reveal_with_fuel(pow256, 17);
}

proof fn lemma_be_len(v: nat, n: nat)
    ensures
        be_bytes(v, n).len() == n,
    decreases n,
{
    if n > 0 {
        lemma_be_len(v / 256, (n - 1) as nat);
    }
}

proof fn lemma_be_injective(v: nat, w: nat, n: nat)
    requires
        v < pow256(n),
        w < pow256(n),
        be_bytes(v, n) == be_bytes(w, n),
    ensures
        v == w,
    decreases n,
{
    if n > 0 {
        let m = (n - 1) as nat;
        let p = pow256(m);
        assert(be_bytes(v, n).drop_last() =~= be_bytes(v / 256, m));
        assert(be_bytes(w, n).drop_last() =~= be_bytes(w / 256, m));
        assert(v / 256 < p) by (nonlinear_arith)
            requires
                v < 256 * p,
        ;
        assert(w / 256 < p) by (nonlinear_arith)
            requires
                w < 256 * p,
        ;
        lemma_be_injective(v / 256, w / 256, m);
        assert(be_bytes(v, n).last() == (v % 256) as u8);
        assert(be_bytes(w, n).last() == (w % 256) as u8);
        assert(v == 256 * (v / 256) + v % 256);
        assert(w == 256 * (w / 256) + w % 256);
    }
}

proof fn lemma_split(x1: Seq<u8>, y1: Seq<u8>, x2: Seq<u8>, y2: Seq<u8>)
    requires
        x1 + y1 == x2 + y2,
        x1.len() == x2.len() || y1.len() == y2.len(),
    ensures
        x1 == x2,
        y1 == y2,
{
    assert((x1 + y1).len() == (x2 + y2).len());
    assert(x1 =~= (x1 + y1).subrange(0, x1.len() as int));
    assert(x2 =~= (x2 + y2).subrange(0, x2.len() as int));
    assert(y1 =~= (x1 + y1).subrange(x1.len() as int, (x1 + y1).len() as int));
    assert(y2 =~= (x2 + y2).subrange(x2.len() as int, (x2 + y2).len() as int));
}

proof fn lemma_array_view_injective(a: [u8; 32], b: [u8; 32])
    requires
        a@ == b@,
    ensures
        a == b,
{
    assert forall|i: int| 0 <= i < 32 implies a[i] == b[i] by {
        vstd::array::lemma_array_index(a, i);
        vstd::array::lemma_array_index(b, i);
    }
    vstd::array::axiom_array_ext_equal(a, b);
    assert(a =~= b);
}

proof fn lemma_keys_len(s: Seq<[u8; 32]>)
    ensures
        keys_bytes(s).len() == 32 * s.len(),
    decreases s.len(),
{
    if s.len() > 0 {
        lemma_keys_len(s.drop_last());
    }
}

proof fn lemma_keys_injective(s: Seq<[u8; 32]>, t: Seq<[u8; 32]>)
    requires
        s.len() == t.len(),
        keys_bytes(s) == keys_bytes(t),
    ensures
        s == t,
    decreases s.len(),
{
    if s.len() > 0 {
        lemma_keys_len(s.drop_last());
        lemma_keys_len(t.drop_last());
        lemma_split(keys_bytes(s.drop_last()), s.last()@, keys_bytes(t.drop_last()), t.last()@);
        lemma_keys_injective(s.drop_last(), t.drop_last());
        lemma_array_view_injective(s.last(), t.last());
        assert(s =~= s.drop_last().push(s.last()));
        assert(t =~= t.drop_last().push(t.last()));
    } else {
        assert(s =~= t);
    }
}

proof fn lemma_powers_len(s: Seq<u32>)
    ensures
        powers_bytes(s).len() == 4 * s.len(),
    decreases s.len(),
{
    if s.len() > 0 {
        lemma_powers_len(s.drop_last());
        lemma_be_len(s.last() as nat, 4);
    }
}

proof fn lemma_powers_injective(s: Seq<u32>, t: Seq<u32>)
    requires
        s.len() == t.len(),
        powers_bytes(s) == powers_bytes(t),
    ensures
        s == t,
    decreases s.len(),
{
    if s.len() > 0 {
        lemma_powers_len(s.drop_last());
        lemma_powers_len(t.drop_last());
        lemma_split(
            powers_bytes(s.drop_last()),
            u32_be(s.last()),
            powers_bytes(t.drop_last()),
            u32_be(t.last()),
        );
        lemma_powers_injective(s.drop_last(), t.drop_last());
        lemma_pow256_values();
        lemma_be_injective(s.last() as nat, t.last() as nat, 4);
        assert(s =~= s.drop_last().push(s.last()));
        assert(t =~= t.drop_last().push(t.last()));
    } else {
        assert(s =~= t);
    }
}

proof fn lemma_i128_injective(a: i128, b: i128)
    requires
        i128_be(a) == i128_be(b),
    ensures
        a == b,
{
    lemma_pow256_values();
    lemma_be_injective((a as u128) as nat, (b as u128) as nat, 16);
    assert((a as u128) == (b as u128) ==> a == b) by (bit_vector);
}

proof fn lemma_amounts_len(s: Seq<i128>)
    ensures
        amounts_bytes(s).len() == 16 * s.len(),
    decreases s.len(),
{
    if s.len() > 0 {
        lemma_amounts_len(s.drop_last());
        lemma_be_len((s.last() as u128) as nat, 16);
    }
}

proof fn lemma_amounts_injective(s: Seq<i128>, t: Seq<i128>)
    requires
        s.len() == t.len(),
        amounts_bytes(s) == amounts_bytes(t),
    ensures
        s == t,
    decreases s.len(),
{
    if s.len() > 0 {
        lemma_amounts_len(s.drop_last());
        lemma_amounts_len(t.drop_last());
        lemma_split(
            amounts_bytes(s.drop_last()),
            i128_be(s.last()),
            amounts_bytes(t.drop_last()),
            i128_be(t.last()),
        );
        lemma_amounts_injective(s.drop_last(), t.drop_last());
        lemma_i128_injective(s.last(), t.last());
        assert(s =~= s.drop_last().push(s.last()));
        assert(t =~= t.drop_last().push(t.last()));
    } else {
        assert(s =~= t);
    }
}

/// Equal length prefixes of lists whose lengths fit in 64 bits give equal
/// lengths.
proof fn lemma_len_prefix_injective(n: nat, m: nat)
    requires
        n < 0x1_0000_0000_0000_0000,
        m < 0x1_0000_0000_0000_0000,
        len_prefix(n) == len_prefix(m),
    ensures
        n == m,
{
    lemma_pow256_values();
    lemma_be_injective(n, m, 8);
}

/// Distinct validator sets, or distinct chain ids, have distinct canonical
/// encodings: changing any one field (a key, a power, the nonce, a reward
/// field, the chain id) changes the bytes that the checkpoint hashes.
pub proof fn law_valset_encoding_injective(
    a: ValsetArgs,
    b: ValsetArgs,
    chain_a: Seq<u8>,
    chain_b: Seq<u8>,
)
    requires
        chain_a.len() == 32,
        chain_b.len() == 32,
        valset_encoding(a, chain_a) == valset_encoding(b, chain_b),
    ensures
        a.validators@ == b.validators@,
        a.powers@ == b.powers@,
        a.valset_nonce == b.valset_nonce,
        a.reward_amount == b.reward_amount,
        a.reward_token == b.reward_token,
        chain_a == chain_b,
{
    let (va, vb) = (a.validators@, b.validators@);
    let (pa, pb) = (a.powers@, b.powers@);
    assert(a.validators.len() == va.len() && b.validators.len() == vb.len());
    assert(a.powers.len() == pa.len() && b.powers.len() == pb.len());
    let head_a = len_prefix(va.len()) + keys_bytes(va) + len_prefix(pa.len()) + powers_bytes(pa);
    let head_b = len_prefix(vb.len()) + keys_bytes(vb) + len_prefix(pb.len()) + powers_bytes(pb);
    let tail_a = u64_be(a.valset_nonce) + (i128_be(a.reward_amount) + (a.reward_token@ + (chain_a
        + valset_tag())));
    let tail_b = u64_be(b.valset_nonce) + (i128_be(b.reward_amount) + (b.reward_token@ + (chain_b
        + valset_tag())));
    lemma_be_len(a.valset_nonce as nat, 8);
    lemma_be_len(b.valset_nonce as nat, 8);
    lemma_be_len((#[verifier::truncate] (a.reward_amount as u128)) as nat, 16);
    lemma_be_len((#[verifier::truncate] (b.reward_amount as u128)) as nat, 16);
    assert(valset_encoding(a, chain_a) =~= head_a + tail_a);
    assert(valset_encoding(b, chain_b) =~= head_b + tail_b);
    lemma_split(head_a, tail_a, head_b, tail_b);
    // The fixed-width tail.
    lemma_split(
        u64_be(a.valset_nonce),
        i128_be(a.reward_amount) + (a.reward_token@ + (chain_a + valset_tag())),
        u64_be(b.valset_nonce),
        i128_be(b.reward_amount) + (b.reward_token@ + (chain_b + valset_tag())),
    );
    lemma_split(
        i128_be(a.reward_amount),
        a.reward_token@ + (chain_a + valset_tag()),
        i128_be(b.reward_amount),
        b.reward_token@ + (chain_b + valset_tag()),
    );
    lemma_split(a.reward_token@, chain_a + valset_tag(), b.reward_token@, chain_b + valset_tag());
    lemma_split(chain_a, valset_tag(), chain_b, valset_tag());
    lemma_pow256_values();
    lemma_be_injective(a.valset_nonce as nat, b.valset_nonce as nat, 8);
    lemma_i128_injective(a.reward_amount, b.reward_amount);
    lemma_array_view_injective(a.reward_token, b.reward_token);
    // The length-prefixed lists.
    lemma_be_len(va.len(), 8);
    lemma_be_len(vb.len(), 8);
    lemma_be_len(pa.len(), 8);
    lemma_be_len(pb.len(), 8);
    lemma_keys_len(va);
    lemma_keys_len(vb);
    let rest_a = keys_bytes(va) + (len_prefix(pa.len()) + powers_bytes(pa));
    let rest_b = keys_bytes(vb) + (len_prefix(pb.len()) + powers_bytes(pb));
    assert(head_a =~= len_prefix(va.len()) + rest_a);
    assert(head_b =~= len_prefix(vb.len()) + rest_b);
    lemma_split(len_prefix(va.len()), rest_a, len_prefix(vb.len()), rest_b);
    lemma_len_prefix_injective(va.len(), vb.len());
    lemma_split(
        keys_bytes(va),
        len_prefix(pa.len()) + powers_bytes(pa),
        keys_bytes(vb),
        len_prefix(pb.len()) + powers_bytes(pb),
    );
    lemma_keys_injective(va, vb);
    lemma_split(len_prefix(pa.len()), powers_bytes(pa), len_prefix(pb.len()), powers_bytes(pb));
    lemma_len_prefix_injective(pa.len(), pb.len());
    lemma_powers_injective(pa, pb);
}

proof fn lemma_batch_lists_injective(
    amounts_a: Seq<i128>,
    destinations_a: Seq<[u8; 32]>,
    fees_a: Seq<i128>,
    amounts_b: Seq<i128>,
    destinations_b: Seq<[u8; 32]>,
    fees_b: Seq<i128>,
)
    requires
        amounts_a.len() < 0x1_0000_0000_0000_0000,
        amounts_b.len() < 0x1_0000_0000_0000_0000,
        destinations_a.len() < 0x1_0000_0000_0000_0000,
        destinations_b.len() < 0x1_0000_0000_0000_0000,
        fees_a.len() < 0x1_0000_0000_0000_0000,
        fees_b.len() < 0x1_0000_0000_0000_0000,
        batch_lists(amounts_a, destinations_a, fees_a) == batch_lists(
            amounts_b,
            destinations_b,
            fees_b,
        ),
    ensures
        amounts_a == amounts_b,
        destinations_a == destinations_b,
        fees_a == fees_b,
{
    lemma_be_len(amounts_a.len(), 8);
    lemma_be_len(amounts_b.len(), 8);
    lemma_be_len(destinations_a.len(), 8);
    lemma_be_len(destinations_b.len(), 8);
    lemma_be_len(fees_a.len(), 8);
    lemma_be_len(fees_b.len(), 8);
    lemma_amounts_len(amounts_a);
    lemma_amounts_len(amounts_b);
    lemma_keys_len(destinations_a);
    lemma_keys_len(destinations_b);
    let fee_part_a = len_prefix(fees_a.len()) + amounts_bytes(fees_a);
    let fee_part_b = len_prefix(fees_b.len()) + amounts_bytes(fees_b);
    let after_a = len_prefix(destinations_a.len()) + (keys_bytes(destinations_a) + fee_part_a);
    let after_b = len_prefix(destinations_b.len()) + (keys_bytes(destinations_b) + fee_part_b);
    lemma_split(
        len_prefix(amounts_a.len()),
        amounts_bytes(amounts_a) + after_a,
        len_prefix(amounts_b.len()),
        amounts_bytes(amounts_b) + after_b,
    );
    lemma_len_prefix_injective(amounts_a.len(), amounts_b.len());
    lemma_split(amounts_bytes(amounts_a), after_a, amounts_bytes(amounts_b), after_b);
    lemma_amounts_injective(amounts_a, amounts_b);
    lemma_split(
        len_prefix(destinations_a.len()),
        keys_bytes(destinations_a) + fee_part_a,
        len_prefix(destinations_b.len()),
        keys_bytes(destinations_b) + fee_part_b,
    );
    lemma_len_prefix_injective(destinations_a.len(), destinations_b.len());
    lemma_split(keys_bytes(destinations_a), fee_part_a, keys_bytes(destinations_b), fee_part_b);
    lemma_keys_injective(destinations_a, destinations_b);
    lemma_split(
        len_prefix(fees_a.len()),
        amounts_bytes(fees_a),
        len_prefix(fees_b.len()),
        amounts_bytes(fees_b),
    );
    lemma_len_prefix_injective(fees_a.len(), fees_b.len());
    lemma_amounts_injective(fees_a, fees_b);
}

/// Distinct batches, or one batch on distinct chains, have distinct
/// canonical encodings: changing any one field changes the bytes that the
/// batch hash covers. (List lengths are bounded as those of any `Vec`.)
pub proof fn law_batch_encoding_injective(
    chain_a: Seq<u8>,
    amounts_a: Seq<i128>,
    destinations_a: Seq<[u8; 32]>,
    fees_a: Seq<i128>,
    nonce_a: u32,
    token_a: Seq<u8>,
    timeout_a: u32,
    chain_b: Seq<u8>,
    amounts_b: Seq<i128>,
    destinations_b: Seq<[u8; 32]>,
    fees_b: Seq<i128>,
    nonce_b: u32,
    token_b: Seq<u8>,
    timeout_b: u32,
)
    requires
        chain_a.len() == 32,
        chain_b.len() == 32,
        token_a.len() == 32,
        token_b.len() == 32,
        amounts_a.len() < 0x1_0000_0000_0000_0000,
        amounts_b.len() < 0x1_0000_0000_0000_0000,
        destinations_a.len() < 0x1_0000_0000_0000_0000,
        destinations_b.len() < 0x1_0000_0000_0000_0000,
        fees_a.len() < 0x1_0000_0000_0000_0000,
        fees_b.len() < 0x1_0000_0000_0000_0000,
        batch_encoding(chain_a, amounts_a, destinations_a, fees_a, nonce_a, token_a, timeout_a)
            == batch_encoding(
            chain_b,
            amounts_b,
            destinations_b,
            fees_b,
            nonce_b,
            token_b,
            timeout_b,
        ),
    ensures
        chain_a == chain_b,
        amounts_a == amounts_b,
        destinations_a == destinations_b,
        fees_a == fees_b,
        nonce_a == nonce_b,
        token_a == token_b,
        timeout_a == timeout_b,
{
    lemma_pow256_values();
    lemma_be_len(nonce_a as nat, 4);
    lemma_be_len(nonce_b as nat, 4);
    lemma_be_len(timeout_a as nat, 4);
    lemma_be_len(timeout_b as nat, 4);
    let lists_a = batch_lists(amounts_a, destinations_a, fees_a);
    let lists_b = batch_lists(amounts_b, destinations_b, fees_b);
    let tail_a = u32_be(nonce_a) + (token_a + u32_be(timeout_a));
    let tail_b = u32_be(nonce_b) + (token_b + u32_be(timeout_b));
    lemma_split(
        batch_tag(),
        chain_a + (lists_a + tail_a),
        batch_tag(),
        chain_b + (lists_b + tail_b),
    );
    lemma_split(chain_a, lists_a + tail_a, chain_b, lists_b + tail_b);
    lemma_split(lists_a, tail_a, lists_b, tail_b);
    lemma_split(
        u32_be(nonce_a),
        token_a + u32_be(timeout_a),
        u32_be(nonce_b),
        token_b + u32_be(timeout_b),
    );
    lemma_split(token_a, u32_be(timeout_a), token_b, u32_be(timeout_b));
    lemma_be_injective(nonce_a as nat, nonce_b as nat, 4);
    lemma_be_injective(timeout_a as nat, timeout_b as nat, 4);
    lemma_batch_lists_injective(amounts_a, destinations_a, fees_a, amounts_b, destinations_b, fees_b);
}

fn push_be(out: &mut Vec<u8>, v: u128, n: usize)
    ensures
        final(out)@ == old(out)@ + be_bytes(v as nat, n as nat),
    decreases n,
{
    if n == 0 {
        assert(old(out)@ + be_bytes(v as nat, 0) =~= old(out)@);
    } else {
        push_be(out, v / 256, n - 1);
        out.push((v % 256) as u8);
        assert(old(out)@ + be_bytes(v as nat, n as nat) =~= old(out)@ + be_bytes(
            (v / 256) as nat,
            (n - 1) as nat,
        ) + seq![(v % 256) as u8]);
    }
}

fn push_bytes(out: &mut Vec<u8>, bytes: &[u8])
    ensures
        final(out)@ == old(out)@ + bytes@,
{
    let mut i: usize = 0;
    while i < bytes.len()
        invariant
            0 <= i <= bytes@.len(),
            out@ == old(out)@ + bytes@.subrange(0, i as int),
        decreases bytes@.len() - i,
    {
        out.push(bytes[i]);
        assert(old(out)@ + bytes@.subrange(0, i + 1) =~= old(out)@ + bytes@.subrange(0, i as int)
            + seq![bytes@[i as int]]);
        i += 1;
    }
    assert(bytes@.subrange(0, bytes@.len() as int) =~= bytes@);
}

fn push_keys(out: &mut Vec<u8>, keys: &Vec<[u8; 32]>)
    ensures
        final(out)@ == old(out)@ + len_prefix(keys@.len()) + keys_bytes(keys@),
{
    push_be(out, keys.len() as u128, 8);
    let ghost start = out@;
    let mut i: usize = 0;
    while i < keys.len()
        invariant
            0 <= i <= keys@.len(),
            start == old(out)@ + len_prefix(keys@.len()),
            out@ == start + keys_bytes(keys@.subrange(0, i as int)),
        decreases keys@.len() - i,
    {
        push_bytes(out, &keys[i]);
        assert(keys@.subrange(0, i + 1).drop_last() =~= keys@.subrange(0, i as int));
        assert(start + keys_bytes(keys@.subrange(0, i + 1)) =~= start + keys_bytes(
            keys@.subrange(0, i as int),
        ) + keys@[i as int]@);
        i += 1;
    }
    assert(keys@.subrange(0, keys@.len() as int) =~= keys@);
}

fn push_powers(out: &mut Vec<u8>, powers: &Vec<u32>)
    ensures
        final(out)@ == old(out)@ + len_prefix(powers@.len()) + powers_bytes(powers@),
{
    push_be(out, powers.len() as u128, 8);
    let ghost start = out@;
    let mut i: usize = 0;
    while i < powers.len()
        invariant
            0 <= i <= powers@.len(),
            start == old(out)@ + len_prefix(powers@.len()),
            out@ == start + powers_bytes(powers@.subrange(0, i as int)),
        decreases powers@.len() - i,
    {
        push_be(out, powers[i] as u128, 4);
        assert(powers@.subrange(0, i + 1).drop_last() =~= powers@.subrange(0, i as int));
        assert(start + powers_bytes(powers@.subrange(0, i + 1)) =~= start + powers_bytes(
            powers@.subrange(0, i as int),
        ) + u32_be(powers@[i as int]));
        i += 1;
    }
    assert(powers@.subrange(0, powers@.len() as int) =~= powers@);
}

fn push_amounts(out: &mut Vec<u8>, amounts: &Vec<i128>)
    ensures
        final(out)@ == old(out)@ + len_prefix(amounts@.len()) + amounts_bytes(amounts@),
{
    push_be(out, amounts.len() as u128, 8);
    let ghost start = out@;
    let mut i: usize = 0;
    while i < amounts.len()
        invariant
            0 <= i <= amounts@.len(),
            start == old(out)@ + len_prefix(amounts@.len()),
            out@ == start + amounts_bytes(amounts@.subrange(0, i as int)),
        decreases amounts@.len() - i,
    {
        push_be(out, amounts[i] as u128, 16);
        assert(amounts@.subrange(0, i + 1).drop_last() =~= amounts@.subrange(0, i as int));
        assert(start + amounts_bytes(amounts@.subrange(0, i + 1)) =~= start + amounts_bytes(
            amounts@.subrange(0, i as int),
        ) + i128_be(amounts@[i as int]));
        i += 1;
    }
    assert(amounts@.subrange(0, amounts@.len() as int) =~= amounts@);
}

/// The canonical encoding of a validator set on a chain.
pub fn encode_valset(valset: &ValsetArgs, chain_id: &[u8; 32]) -> (r: Vec<u8>)
    ensures
        r@ == valset_encoding(*valset, chain_id@),
{
    let mut out: Vec<u8> = Vec::new();
    push_keys(&mut out, &valset.validators);
    push_powers(&mut out, &valset.powers);
    push_be(&mut out, valset.valset_nonce as u128, 8);
    push_be(&mut out, valset.reward_amount as u128, 16);
    push_bytes(&mut out, &valset.reward_token);
    push_bytes(&mut out, chain_id);
    let tag: [u8; 10] = [118, 97, 108, 115, 101, 116, 97, 114, 103, 115];
    push_bytes(&mut out, &tag);
    assert(tag@ =~= valset_tag());
    assert(out@ =~= valset_encoding(*valset, chain_id@));
    out
}

/// The canonical encoding of a batch on a chain.
pub fn encode_batch(
    chain_id: &[u8; 32],
    amounts: &Vec<i128>,
    destinations: &Vec<[u8; 32]>,
    fees: &Vec<i128>,
    batch_nonce: u32,
    token_contract: &[u8; 32],
    batch_timeout: u32,
) -> (r: Vec<u8>)
    ensures
        r@ == batch_encoding(
            chain_id@,
            amounts@,
            destinations@,
            fees@,
            batch_nonce,
            token_contract@,
            batch_timeout,
        ),
{
    let mut out: Vec<u8> = Vec::new();
    let tag: [u8; 16] = [116, 114, 97, 110, 115, 97, 99, 116, 105, 111, 110, 98, 97, 116, 99, 104];
    push_bytes(&mut out, &tag);
    assert(tag@ =~= batch_tag());
    push_bytes(&mut out, chain_id);
    push_amounts(&mut out, amounts);
    push_keys(&mut out, destinations);
    push_amounts(&mut out, fees);
    push_be(&mut out, batch_nonce as u128, 4);
    push_bytes(&mut out, token_contract);
    push_be(&mut out, batch_timeout as u128, 4);
    assert(out@ =~= batch_encoding(
        chain_id@,
        amounts@,
        destinations@,
        fees@,
        batch_nonce,
        token_contract@,
        batch_timeout,
    ));
    out
}

/// The checkpoint of `valset` on the chain `chain_id`: the SHA-256 digest of
/// its canonical encoding.
pub fn make_checkpoint(valset: &ValsetArgs, chain_id: &[u8; 32]) -> (r: [u8; 32])
    ensures
        r@ == checkpoint_of(*valset, chain_id@),
{
    sha256(&encode_valset(valset, chain_id))
}

/// The hash of a batch on the chain `chain_id`: the SHA-256 digest of its
/// canonical encoding.
pub fn make_batch_hash(
    chain_id: &[u8; 32],
    amounts: &Vec<i128>,
    destinations: &Vec<[u8; 32]>,
    fees: &Vec<i128>,
    batch_nonce: u32,
    token_contract: &[u8; 32],
    batch_timeout: u32,
) -> (r: [u8; 32])
    ensures
        r@ == batch_hash_of(
            chain_id@,
            amounts@,
            destinations@,
            fees@,
            batch_nonce,
            token_contract@,
            batch_timeout,
        ),
{
    sha256(
        &encode_batch(
            chain_id,
            amounts,
            destinations,
            fees,
            batch_nonce,
            token_contract,
            batch_timeout,
        ),
    )
}

} // verus!
