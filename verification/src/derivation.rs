//! Deterministic derivation of contract addresses and storage-variable
//! addresses.
//!
//! The two hash primitives — the Pedersen pair hash and the 250-bit
//! truncated Keccak — come from outside crates and are named, not
//! restated: their results are functions of their arguments alone.
//! Everything layered on top of them is verified here: the Pedersen array
//! hash, the fold over a storage variable's index arguments, the fixed
//! contract-address prefix, and the reduction into the layer-2 address
//! domain.

use vstd::prelude::*;
use vstd::pervasive::VecAdditionalExecFns;

use sha3::Digest;

use crate::felt::{
    be_bytes_val, felt_values, lemma_be_bytes_val_bound, lemma_be_bytes_val_concat,
    lemma_pow256_31, Felt,
};

verus! {

/// The 32-byte Keccak256 digest of a storage variable's name.
pub uninterp spec fn keccak256_of(name: Seq<char>) -> Seq<u8>;

/// The 250-bit truncated Keccak of a storage variable's name: the Keccak256
/// digest of the name's bytes with the six most significant bits
/// discarded, read as a big-endian integer.
pub open spec fn sn_keccak_of(name: Seq<char>) -> int {
    let d = keccak256_of(name);
    be_bytes_val(d.update(0, d[0] & 3))
}

/// The Pedersen hash of a pair of field elements.
pub uninterp spec fn pedersen_of(left: int, right: int) -> int;

/// The layer-2 address bound, 2^251 - 256: contract addresses and storage
/// keys are reduced below it.
pub open spec fn l2_address_bound() -> int {
    0x7ffffffffffffffffffffffffffffffffffffffffffffffffffffffffffff00int
}

/// The Pedersen fold of a sequence of items onto an accumulator.
pub open spec fn pedersen_fold(acc: int, items: Seq<int>) -> int
    decreases items.len(),
{
    if items.len() == 0 {
        acc
    } else {
        pedersen_fold(pedersen_of(acc, items[0]), items.drop_first())
    }
}

/// The Pedersen array hash: the fold of the items onto zero, finished by
/// hashing in the item count.
pub open spec fn pedersen_array_of(items: Seq<int>) -> int {
    pedersen_of(pedersen_fold(0, items), items.len() as int)
}

/// The fixed contract-address prefix: the ASCII bytes of
/// "STARKNET_CONTRACT_ADDRESS" read as a big-endian integer.
pub open spec fn contract_address_prefix() -> int {
    0x535441524b4e45545f434f4e54524143545f41444452455353int
}

/// The contract address derived from (salt, class hash, constructor
/// calldata, deployer address): the Pedersen array hash of the prefixed
/// inputs, with the calldata hashed first, reduced into the layer-2
/// address domain.
pub open spec fn contract_address_of(
    salt: int,
    class_hash: int,
    calldata: Seq<int>,
    deployer: int,
) -> int {
    pedersen_array_of(
        seq![
            contract_address_prefix(),
            deployer,
            salt,
            class_hash,
            pedersen_array_of(calldata),
        ],
    ) % l2_address_bound()
}

/// The storage address of a storage variable given its name and index
/// arguments: the Pedersen fold of the arguments onto the truncated
/// Keccak of the name, reduced into the layer-2 address domain.
pub open spec fn storage_key_of(name: Seq<char>, args: Seq<int>) -> int {
    pedersen_fold(sn_keccak_of(name), args) % l2_address_bound()
}

/// Relies on sha3::Keccak256: the 32-byte Keccak digest of the name's
/// bytes; a function of the input alone.
#[verifier::external_body]
fn api_keccak256(name: &str) -> (r: Vec<u8>)
    ensures
        r@ == keccak256_of(name@),
        r@.len() == 32,
{
    sha3::Keccak256::digest(name.as_bytes()).to_vec()
}

/// The 250-bit truncated Keccak of a storage variable's name, as a field
/// element: the digest with its six most significant bits discarded.
fn truncated_keccak(name: &str) -> (r: Felt)
    ensures
        r@ == sn_keccak_of(name@),
        r.wf(),
        0 <= r@ < l2_address_bound(),
{
    let mut d = api_keccak256(name);
    let first = d[0];
    d.set(0, first & 3);
    proof {
        assert(first & 3 <= 3) by (bit_vector);
        assert(d@ =~= keccak256_of(name@).update(0, keccak256_of(name@)[0] & 3));
        lemma_truncated_bytes_below_bound(d@);
    }
    Felt::from_be_bytes(&d)
}

/// A 32-byte string whose first byte is at most 3 encodes a value below
/// 2^250, and so below the layer-2 address bound and the Stark prime.
proof fn lemma_truncated_bytes_below_bound(s: Seq<u8>)
    requires
        s.len() == 32,
        s[0] <= 3,
    ensures
        0 <= be_bytes_val(s) < 0x400000000000000000000000000000000000000000000000000000000000000int,
        be_bytes_val(s) < l2_address_bound(),
        be_bytes_val(s) < crate::felt::stark_prime(),
{
    assert(s.subrange(0, 1) + s.subrange(1, 32) =~= s);
    lemma_be_bytes_val_concat(s.subrange(0, 1), s.subrange(1, 32));
    lemma_be_bytes_val_bound(s.subrange(1, 32));
    lemma_pow256_31();
    assert(s.subrange(0, 1).drop_last() =~= Seq::<u8>::empty());
    assert(be_bytes_val(Seq::<u8>::empty()) == 0);
    assert(s.subrange(0, 1).last() == s[0]);
    assert(be_bytes_val(s.subrange(0, 1)) == s[0]);
    assert(be_bytes_val(s.subrange(0, 1)) * crate::felt::pow256(31) <= 3 * crate::felt::pow256(
        31,
    )) by (nonlinear_arith)
        requires
            0 <= be_bytes_val(s.subrange(0, 1)) <= 3,
            crate::felt::pow256(31) > 0,
    ;
}

/// Relies on starknet_api::hash::pedersen_hash, the Pedersen hash on the
/// Stark curve: a function of the two field elements alone, with a
/// reduced result.
#[verifier::external_body]
fn api_pedersen(left: &Felt, right: &Felt) -> (r: Felt)
    requires
        left.wf(),
        right.wf(),
    ensures
        r@ == pedersen_of(left@, right@),
        r.wf(),
{
    let c = |f: &Felt| starknet_api::hash::StarkFelt::new_unchecked(
        [f.hi.to_be_bytes(), f.lo.to_be_bytes()].concat().try_into().unwrap(),
    );
    let b = starknet_api::hash::pedersen_hash(&c(left), &c(right));
    let d = b.bytes();
    Felt {
        hi: u128::from_be_bytes(d[..16].try_into().unwrap()),
        lo: u128::from_be_bytes(d[16..].try_into().unwrap()),
    }
}

/// The fixed contract-address prefix as a field element.
fn prefix_felt() -> (r: Felt)
    ensures
        r@ == contract_address_prefix(),
        r.wf(),
{
    Felt { hi: 0x535441524b4e45545f, lo: 0x434f4e54524143545f41444452455353 }
}

/// The Pedersen array hash of a sequence of field elements.
fn pedersen_hash_array(items: &Vec<Felt>) -> (r: Felt)
    requires
        forall|i: int| 0 <= i < items@.len() ==> (#[trigger] items@[i]).wf(),
    ensures
        r@ == pedersen_array_of(felt_values(items@)),
        r.wf(),
{
    let mut acc = Felt::zero();
    let mut i: usize = 0;
    proof {
        assert(felt_values(items@).skip(0) =~= felt_values(items@));
    }
    while i < items.len()
        invariant
            0 <= i <= items@.len(),
            acc.wf(),
            forall|j: int| 0 <= j < items@.len() ==> (#[trigger] items@[j]).wf(),
            pedersen_fold(acc@, felt_values(items@).skip(i as int)) == pedersen_fold(
                0,
                felt_values(items@),
            ),
        decreases items@.len() - i,
    {
        proof {
            let rest = felt_values(items@).skip(i as int);
            assert(rest[0] == items@[i as int]@);
            assert(rest.drop_first() =~= felt_values(items@).skip(i + 1));
        }
        acc = api_pedersen(&acc, &items[i]);
        i = i + 1;
    }
    proof {
        assert(felt_values(items@).skip(items@.len() as int) =~= Seq::<int>::empty());
    }
    let count = Felt::from_u64(items.len() as u64);
    api_pedersen(&acc, &count)
}

/// Derive the contract address for a deployment: a total, deterministic
/// function of (salt, class hash, constructor calldata, deployer address).
pub fn contract_address(
    salt: &Felt,
    class_hash: &Felt,
    constructor_calldata: &Vec<Felt>,
    deployer: &Felt,
) -> (r: Felt)
    requires
        salt.wf(),
        class_hash.wf(),
        deployer.wf(),
        forall|i: int|
            0 <= i < constructor_calldata@.len() ==> (#[trigger] constructor_calldata@[i]).wf(),
    ensures
        r@ == contract_address_of(
            salt@,
            class_hash@,
            felt_values(constructor_calldata@),
            deployer@,
        ),
        r.wf(),
        0 <= r@ < l2_address_bound(),
{
    let calldata_hash = pedersen_hash_array(constructor_calldata);
    let items = vec![prefix_felt(), *deployer, *salt, *class_hash, calldata_hash];
    proof {
        assert(felt_values(items@) =~= seq![
            contract_address_prefix(),
            deployer@,
            salt@,
            class_hash@,
            calldata_hash@,
        ]);
    }
    let h = pedersen_hash_array(&items);
    reduce_l2_address(&h)
}

/// Derive the storage address of a storage variable from its name and
/// index arguments: the Pedersen fold of the arguments onto the truncated
/// Keccak of the name, reduced into the layer-2 address domain.
pub fn storage_var_address(name: &str, args: &Vec<Felt>) -> (r: Felt)
    requires
        forall|i: int| 0 <= i < args@.len() ==> (#[trigger] args@[i]).wf(),
    ensures
        r@ == storage_key_of(name@, felt_values(args@)),
        r.wf(),
        0 <= r@ < l2_address_bound(),
{
    let mut acc = truncated_keccak(name);
    let mut i: usize = 0;
    proof {
        assert(felt_values(args@).skip(0) =~= felt_values(args@));
    }
    while i < args.len()
        invariant
            0 <= i <= args@.len(),
            acc.wf(),
            forall|j: int| 0 <= j < args@.len() ==> (#[trigger] args@[j]).wf(),
            pedersen_fold(acc@, felt_values(args@).skip(i as int)) == pedersen_fold(
                sn_keccak_of(name@),
                felt_values(args@),
            ),
        decreases args@.len() - i,
    {
        proof {
            let rest = felt_values(args@).skip(i as int);
            assert(rest[0] == args@[i as int]@);
            assert(rest.drop_first() =~= felt_values(args@).skip(i + 1));
        }
        acc = api_pedersen(&acc, &args[i]);
        i = i + 1;
    }
    proof {
        assert(felt_values(args@).skip(args@.len() as int) =~= Seq::<int>::empty());
    }
    reduce_l2_address(&acc)
}

/// Reduce a field element into the layer-2 address domain. Every field
/// element is below twice the bound, so one conditional subtraction is the
/// whole reduction.
fn reduce_l2_address(f: &Felt) -> (r: Felt)
    requires
        f.wf(),
    ensures
        r@ == f@ % l2_address_bound(),
        r.wf(),
        0 <= r@ < l2_address_bound(),
{
    let bound_hi: u128 = 0x7ffffffffffffffffffffffffffffff;
    let bound_lo: u128 = 0xffffffffffffffffffffffffffffff00;
    proof {
        lemma_felt_below_twice_bound(*f);
        assert(bound_hi * crate::felt::pow2_128() + bound_lo == l2_address_bound());
    }
    if f.hi > bound_hi || (f.hi == bound_hi && f.lo >= bound_lo) {
        let (hi, lo) = if f.lo >= bound_lo {
            (f.hi - bound_hi, f.lo - bound_lo)
        } else {
            ((f.hi - bound_hi) - 1, f.lo + 256)
        };
        proof {
            lemma_sub_is_mod(f@, hi as int, lo as int);
        }
        Felt::from_halves(hi, lo)
    } else {
        proof {
            lemma_small_mod_identity(f@);
        }
        *f
    }
}

/// A well-formed field element lies below twice the layer-2 address bound.
proof fn lemma_felt_below_twice_bound(f: Felt)
    requires
        f.wf(),
    ensures
        0 <= f@ < 2 * l2_address_bound(),
{
    assert(f@ >= 0);
    assert(crate::felt::stark_prime() < 2 * l2_address_bound());
}

/// Subtracting the bound once from a value in [bound, 2*bound) is the
/// remainder modulo the bound.
proof fn lemma_sub_is_mod(v: int, hi: int, lo: int)
    requires
        hi * crate::felt::pow2_128() + lo == v - l2_address_bound(),
        0 <= v - l2_address_bound(),
        v < 2 * l2_address_bound(),
    ensures
        hi * crate::felt::pow2_128() + lo == v % l2_address_bound(),
        hi * crate::felt::pow2_128() + lo < crate::felt::stark_prime(),
{
    assert(v % 0x7ffffffffffffffffffffffffffffffffffffffffffffffffffffffffffff00int == v
        - 0x7ffffffffffffffffffffffffffffffffffffffffffffffffffffffffffff00int) by (nonlinear_arith)
        requires
            0x7ffffffffffffffffffffffffffffffffffffffffffffffffffffffffffff00int <= v,
            v < 2 * 0x7ffffffffffffffffffffffffffffffffffffffffffffffffffffffffffff00int,
    ;
    assert(l2_address_bound() < crate::felt::stark_prime());
}

/// A value below the bound is its own remainder.
proof fn lemma_small_mod_identity(v: int)
    requires
        0 <= v < l2_address_bound(),
    ensures
        v % l2_address_bound() == v,
{
    assert(v % 0x7ffffffffffffffffffffffffffffffffffffffffffffffffffffffffffff00int == v)
        by (nonlinear_arith)
        requires
            0 <= v < 0x7ffffffffffffffffffffffffffffffffffffffffffffffffffffffffffff00int,
    ;
}

} // verus!
