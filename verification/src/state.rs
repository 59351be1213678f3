//! The sequencer's state view: a key-value store of storage cells keyed by
//! (contract address, storage key), plus per-contract nonce and class-hash
//! maps. Writes are buffered in order and visible to every subsequent read
//! through the same view, a later write to a cell shadowing an earlier one;
//! every cell not yet written reads as zero.

use vstd::prelude::*;

use crate::felt::Felt;

verus! {

/// One buffered write to a storage cell.
#[derive(Clone, Copy, Debug)]
pub struct StorageEntry {
    pub contract: Felt,
    pub key: Felt,
    pub value: Felt,
}

/// One buffered write to a per-contract map (nonce or class hash).
#[derive(Clone, Copy, Debug)]
pub struct AddrEntry {
    pub addr: Felt,
    pub value: Felt,
}

/// The value of cell (c, k) under a write buffer: the value of the latest
/// matching write, or zero if none matches.
pub open spec fn seq_storage_at(s: Seq<StorageEntry>, c: int, k: int) -> int
    decreases s.len(),
{
    if s.len() == 0 {
        0
    } else if s.last().contract@ == c && s.last().key@ == k {
        s.last().value@
    } else {
        seq_storage_at(s.drop_last(), c, k)
    }
}

/// The value bound to address a under a write buffer: the value of the
/// latest matching write, or zero if none matches.
pub open spec fn seq_addr_at(s: Seq<AddrEntry>, a: int) -> int
    decreases s.len(),
{
    if s.len() == 0 {
        0
    } else if s.last().addr@ == a {
        s.last().value@
    } else {
        seq_addr_at(s.drop_last(), a)
    }
}

/// Every field element recorded in a storage write buffer is well-formed.
pub open spec fn storage_entries_wf(s: Seq<StorageEntry>) -> bool {
    forall|i: int|
        0 <= i < s.len() ==> (#[trigger] s[i]).contract.wf() && s[i].key.wf() && s[i].value.wf()
}

/// Every field element recorded in an address-keyed write buffer is
/// well-formed.
pub open spec fn addr_entries_wf(s: Seq<AddrEntry>) -> bool {
    forall|i: int| 0 <= i < s.len() ==> (#[trigger] s[i]).addr.wf() && s[i].value.wf()
}

/// The mutable ledger state: storage cells, nonces and class hashes.
#[derive(Debug)]
pub struct StateView {
    storage: Vec<StorageEntry>,
    nonces: Vec<AddrEntry>,
    class_hashes: Vec<AddrEntry>,
}

impl StateView {
    /// All recorded field elements are reduced.
    pub closed spec fn wf(self) -> bool {
        storage_entries_wf(self.storage@) && addr_entries_wf(self.nonces@) && addr_entries_wf(
            self.class_hashes@,
        )
    }

    /// The value of storage cell (c, k): zero until written.
    pub closed spec fn storage_at(self, c: int, k: int) -> int {
        seq_storage_at(self.storage@, c, k)
    }

    /// The nonce of contract a: zero until written.
    pub closed spec fn nonce_at(self, a: int) -> int {
        seq_addr_at(self.nonces@, a)
    }

    /// The class hash of contract a: zero until written.
    pub closed spec fn class_hash_at(self, a: int) -> int {
        seq_addr_at(self.class_hashes@, a)
    }

    /// A fresh view: every cell, nonce and class hash reads as zero.
    pub fn new() -> (r: StateView)
        ensures
            r.wf(),
            forall|c: int, k: int| r.storage_at(c, k) == 0,
            forall|a: int| r.nonce_at(a) == 0,
            forall|a: int| r.class_hash_at(a) == 0,
    {
        StateView { storage: Vec::new(), nonces: Vec::new(), class_hashes: Vec::new() }
    }

    /// Read storage cell (contract, key); zero if never written.
    pub fn get_storage(&self, contract: &Felt, key: &Felt) -> (r: Felt)
        requires
            self.wf(),
        ensures
            r@ == self.storage_at(contract@, key@),
            r.wf(),
    {
        let mut i: usize = self.storage.len();
        proof {
            assert(self.storage@.take(i as int) =~= self.storage@);
        }
        while i > 0
            invariant
                i <= self.storage@.len(),
                self.wf(),
                seq_storage_at(self.storage@, contract@, key@) == seq_storage_at(
                    self.storage@.take(i as int),
                    contract@,
                    key@,
                ),
            decreases i,
        {
            i = i - 1;
            let e = &self.storage[i];
            proof {
                assert(self.storage@.take(i + 1).last() == self.storage@[i as int]);
                assert(self.storage@.take(i + 1).drop_last() =~= self.storage@.take(i as int));
            }
            if e.contract.eq_felt(contract) && e.key.eq_felt(key) {
                return e.value;
            }
        }
        proof {
            assert(self.storage@.take(0) =~= Seq::<StorageEntry>::empty());
        }
        Felt::zero()
    }

    /// Buffer a write to storage cell (contract, key). The write shadows any
    /// earlier write to the same cell and leaves every other cell, every
    /// nonce and every class hash unchanged.
    pub fn set_storage(&mut self, contract: Felt, key: Felt, value: Felt)
        requires
            old(self).wf(),
            contract.wf(),
            key.wf(),
            value.wf(),
        ensures
            final(self).wf(),
            forall|c: int, k: int|
                #[trigger] final(self).storage_at(c, k) == if c == contract@ && k == key@ {
                    value@
                } else {
                    old(self).storage_at(c, k)
                },
            forall|a: int| #[trigger] final(self).nonce_at(a) == old(self).nonce_at(a),
            forall|a: int| #[trigger] final(self).class_hash_at(a) == old(self).class_hash_at(a),
    {
        let ghost pre = self.storage@;
        self.storage.push(StorageEntry { contract, key, value });
        proof {
            assert forall|c: int, k: int|
                #[trigger] self.storage_at(c, k) == if c == contract@ && k == key@ {
                    value@
                } else {
                    seq_storage_at(pre, c, k)
                } by {
                assert(self.storage@.drop_last() =~= pre);
            }
        }
    }

    /// Read the nonce of a contract; zero if never written.
    pub fn get_nonce(&self, contract: &Felt) -> (r: Felt)
        requires
            self.wf(),
        ensures
            r@ == self.nonce_at(contract@),
            r.wf(),
    {
        addr_lookup(&self.nonces, contract)
    }

    /// Write the nonce of a contract, shadowing any earlier value.
    pub fn set_nonce(&mut self, contract: Felt, value: Felt)
        requires
            old(self).wf(),
            contract.wf(),
            value.wf(),
        ensures
            final(self).wf(),
            forall|a: int|
                #[trigger] final(self).nonce_at(a) == if a == contract@ {
                    value@
                } else {
                    old(self).nonce_at(a)
                },
            forall|c: int, k: int|
                #[trigger] final(self).storage_at(c, k) == old(self).storage_at(c, k),
            forall|a: int| #[trigger] final(self).class_hash_at(a) == old(self).class_hash_at(a),
    {
        addr_store(&mut self.nonces, contract, value);
    }

    /// Read the class hash of a contract; zero if never written.
    pub fn get_class_hash(&self, contract: &Felt) -> (r: Felt)
        requires
            self.wf(),
        ensures
            r@ == self.class_hash_at(contract@),
            r.wf(),
    {
        addr_lookup(&self.class_hashes, contract)
    }

    /// Write the class hash of a contract, shadowing any earlier value.
    pub fn set_class_hash(&mut self, contract: Felt, value: Felt)
        requires
            old(self).wf(),
            contract.wf(),
            value.wf(),
        ensures
            final(self).wf(),
            forall|a: int|
                #[trigger] final(self).class_hash_at(a) == if a == contract@ {
                    value@
                } else {
                    old(self).class_hash_at(a)
                },
            forall|c: int, k: int|
                #[trigger] final(self).storage_at(c, k) == old(self).storage_at(c, k),
            forall|a: int| #[trigger] final(self).nonce_at(a) == old(self).nonce_at(a),
    {
        addr_store(&mut self.class_hashes, contract, value);
    }
}

/// Scan an address-keyed write buffer from the latest write backwards.
fn addr_lookup(entries: &Vec<AddrEntry>, addr: &Felt) -> (r: Felt)
    requires
        addr_entries_wf(entries@),
    ensures
        r@ == seq_addr_at(entries@, addr@),
        r.wf(),
{
    let mut i: usize = entries.len();
    proof {
        assert(entries@.take(i as int) =~= entries@);
    }
    while i > 0
        invariant
            i <= entries@.len(),
            addr_entries_wf(entries@),
            seq_addr_at(entries@, addr@) == seq_addr_at(entries@.take(i as int), addr@),
        decreases i,
    {
        i = i - 1;
        let e = &entries[i];
        proof {
            assert(entries@.take(i + 1).last() == entries@[i as int]);
            assert(entries@.take(i + 1).drop_last() =~= entries@.take(i as int));
        }
        if e.addr.eq_felt(addr) {
            return e.value;
        }
    }
    proof {
        assert(entries@.take(0) =~= Seq::<AddrEntry>::empty());
    }
    Felt::zero()
}

/// Append to an address-keyed write buffer.
fn addr_store(entries: &mut Vec<AddrEntry>, addr: Felt, value: Felt)
    requires
        addr_entries_wf(old(entries)@),
        addr.wf(),
        value.wf(),
    ensures
        addr_entries_wf(final(entries)@),
        forall|a: int|
            #[trigger] seq_addr_at(final(entries)@, a) == if a == addr@ {
                value@
            } else {
                seq_addr_at(old(entries)@, a)
            },
{
    let ghost pre = entries@;
    entries.push(AddrEntry { addr, value });
    proof {
        assert forall|a: int|
            #[trigger] seq_addr_at(entries@, a) == if a == addr@ {
                value@
            } else {
                seq_addr_at(pre, a)
            } by {
            assert(entries@.drop_last() =~= pre);
        }
    }
}

} // verus!
