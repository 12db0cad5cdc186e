//! A 32-byte account address.
//!
//! Addresses are the identities of this engine: the owner of a vesting
//! configuration, the beneficiary of a grant, the asset type, and the
//! custodial treasury are all named by addresses. The engine compares
//! them byte for byte and feeds them as seed material into the
//! deterministic address derivation.

use vstd::prelude::*;

verus! {

/// A 32-byte account address. A well-formed key holds exactly 32 bytes;
/// see [`Pubkey::valid`].
#[derive(Debug)]
pub struct Pubkey {
    pub bytes: Vec<u8>,
}

impl View for Pubkey {
    type V = Seq<u8>;

    open spec fn view(&self) -> Seq<u8> {
        self.bytes@
    }
}

impl Pubkey {
    /// A key is well formed when it holds exactly 32 bytes.
    pub open spec fn valid(&self) -> bool {
        self@.len() == 32
    }

    /// Wraps 32 bytes as an address; rejects any other length.
    pub fn new(bytes: Vec<u8>) -> (r: Option<Pubkey>)
        ensures
            bytes@.len() == 32 ==> (r matches Some(k) && k@ == bytes@ && k.valid()),
            bytes@.len() != 32 ==> r is None,
    {
        if bytes.len() == 32 {
            Some(Pubkey { bytes })
        } else {
            None
        }
    }

    /// Byte-for-byte equality of two addresses.
    pub fn key_eq(&self, other: &Pubkey) -> (r: bool)
        ensures
            r == (self@ == other@),
    {
        byte_seq_eq(&self.bytes, &other.bytes)
    }

    /// A fresh copy of the address bytes.
    pub fn to_bytes_vec(&self) -> (r: Vec<u8>)
        ensures
            r@ == self@,
    {
        copy_bytes(&self.bytes)
    }

    /// A copy of this address.
    pub fn clone_key(&self) -> (r: Pubkey)
        ensures
            r@ == self@,
    {
        Pubkey { bytes: self.to_bytes_vec() }
    }
}

/// Byte-for-byte equality of two byte vectors.
pub fn byte_seq_eq(a: &Vec<u8>, b: &Vec<u8>) -> (r: bool)
    ensures
        r == (a@ == b@),
{
    if a.len() != b.len() {
        return false;
    }
    let n = a.len();
    let mut i: usize = 0;
    while i < n
        invariant
            n == a@.len(),
            n == b@.len(),
            i <= n,
            forall|j: int| 0 <= j < i ==> a@[j] == b@[j],
        decreases n - i,
    {
        if a[i] != b[i] {
            return false;
        }
        i += 1;
    }
    proof {
        assert(a@ =~= b@);
    }
    true
}

/// A fresh copy of a byte vector.
pub fn copy_bytes(src: &Vec<u8>) -> (r: Vec<u8>)
    ensures
        r@ == src@,
{
    let mut out: Vec<u8> = Vec::new();
    let n = src.len();
    let mut i: usize = 0;
    while i < n
        invariant
            n == src@.len(),
            i <= n,
            out@ == src@.subrange(0, i as int),
        decreases n - i,
    {
        out.push(src[i]);
        proof {
            assert(out@ =~= src@.subrange(0, i + 1));
        }
        i += 1;
    }
    proof {
        assert(src@.subrange(0, n as int) =~= src@);
    }
    out
}

} // verus!
