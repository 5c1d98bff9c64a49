//! Deterministic derivation of account addresses from a namespace tag, an
//! owner identity and a request id.

use vstd::prelude::*;
use vstd::bytes::{spec_u64_to_le_bytes, u64_to_le_bytes, lemma_auto_spec_u64_to_from_le_bytes};
use crate::digest::{sha256, sha256_of};

verus! {

/// A 32-byte account address or identity.
pub type Address = [u8; 32];

/// Namespace of plain request entities.
pub open spec fn pay_request_tag() -> Seq<u8> {
    seq![112u8, 97u8, 121u8, 95u8, 114u8, 101u8, 113u8, 117u8, 101u8, 115u8, 116u8]
}

/// Namespace of plain escrow accounts.
pub open spec fn escrow_tag() -> Seq<u8> {
    seq![101u8, 115u8, 99u8, 114u8, 111u8, 119u8]
}

/// Namespace of private request entities.
pub open spec fn zk_pay_request_tag() -> Seq<u8> {
    seq![122u8, 107u8, 95u8] + pay_request_tag()
}

/// Namespace of private escrow accounts.
pub open spec fn zk_escrow_tag() -> Seq<u8> {
    seq![122u8, 107u8, 95u8] + escrow_tag()
}

/// The preimage of a derived address: the namespace tag, the owner's bytes
/// and the little-endian request id, in that order.
pub open spec fn address_seed(namespace: Seq<u8>, owner: Seq<u8>, request_id: u64) -> Seq<u8> {
    namespace + owner + spec_u64_to_le_bytes(request_id)
}

/// The address derived from a namespace, an owner and a request id.
pub open spec fn derived_address(namespace: Seq<u8>, owner: Seq<u8>, request_id: u64) -> Seq<u8> {
    sha256_of(address_seed(namespace, owner, request_id))
}

/// Appends the bytes of `b` to `v`.
pub fn append_bytes(v: &mut Vec<u8>, b: &[u8])
    ensures
        final(v)@ == old(v)@ + b@,
{
    let mut i: usize = 0;
    while i < b.len()
        invariant
            0 <= i <= b@.len(),
            v@ == old(v)@ + b@.subrange(0, i as int),
        decreases b@.len() - i,
    {
        v.push(b[i]);
        i = i + 1;
        assert(b@.subrange(0, i as int) =~= b@.subrange(0, i - 1).push(b@[i - 1]));
        assert(v@ =~= old(v)@ + b@.subrange(0, i as int));
    }
    assert(b@.subrange(0, b@.len() as int) =~= b@);
}

/// The tag `"pay_request"`.
pub fn pay_request_namespace() -> (r: Vec<u8>)
    ensures
        r@ == pay_request_tag(),
{
    let r = vec![112u8, 97u8, 121u8, 95u8, 114u8, 101u8, 113u8, 117u8, 101u8, 115u8, 116u8];
    assert(r@ =~= pay_request_tag());
    r
}

/// The tag `"escrow"`.
pub fn escrow_namespace() -> (r: Vec<u8>)
    ensures
        r@ == escrow_tag(),
{
    let r = vec![101u8, 115u8, 99u8, 114u8, 111u8, 119u8];
    assert(r@ =~= escrow_tag());
    r
}

/// The tag `"zk_pay_request"`.
pub fn zk_pay_request_namespace() -> (r: Vec<u8>)
    ensures
        r@ == zk_pay_request_tag(),
{
    let mut r = vec![122u8, 107u8, 95u8];
    let tail = pay_request_namespace();
    append_bytes(&mut r, tail.as_slice());
    r
}

/// The tag `"zk_escrow"`.
pub fn zk_escrow_namespace() -> (r: Vec<u8>)
    ensures
        r@ == zk_escrow_tag(),
{
    let mut r = vec![122u8, 107u8, 95u8];
    let tail = escrow_namespace();
    append_bytes(&mut r, tail.as_slice());
    r
}

/// Derives the address of `(namespace, owner, request_id)`: the SHA-256 of
/// the seed bytes. Pure and total.
pub fn derive_address(namespace: &[u8], owner: &Address, request_id: u64) -> (r: Address)
    ensures
        r@ == derived_address(namespace@, owner@, request_id),
{
    let mut seed: Vec<u8> = Vec::new();
    append_bytes(&mut seed, namespace);
    append_bytes(&mut seed, owner.as_slice());
    let id = u64_to_le_bytes(request_id);
    append_bytes(&mut seed, id.as_slice());
    assert(seed@ =~= address_seed(namespace@, owner@, request_id));
    sha256(seed.as_slice())
}

/// Whether two addresses hold the same bytes.
pub fn same_address(a: &Address, b: &Address) -> (r: bool)
    ensures
        r == (a@ == b@),
{
    let mut i: usize = 0;
    while i < 32
        invariant
            0 <= i <= 32,
            forall|j: int| 0 <= j < i ==> a@[j] == b@[j],
        decreases 32 - i,
    {
        if a[i] != b[i] {
            return false;
        }
        i = i + 1;
    }
    assert(a@ =~= b@);
    true
}

/// Derivation is deterministic: equal inputs give equal addresses.
pub proof fn lemma_derivation_deterministic(
    ns1: Seq<u8>, owner1: Seq<u8>, id1: u64,
    ns2: Seq<u8>, owner2: Seq<u8>, id2: u64,
)
    requires
        ns1 == ns2,
        owner1 == owner2,
        id1 == id2,
    ensures
        derived_address(ns1, owner1, id1) == derived_address(ns2, owner2, id2),
{
}

/// Seeds are unambiguous: for 32-byte owners, two seeds are equal exactly when
/// namespace, owner and request id are all equal. Distinct inputs therefore
/// reach the hash as distinct preimages, so their addresses differ unless
/// SHA-256 collides.
pub proof fn lemma_seed_injective(
    ns1: Seq<u8>, owner1: Seq<u8>, id1: u64,
    ns2: Seq<u8>, owner2: Seq<u8>, id2: u64,
)
    requires
        owner1.len() == 32,
        owner2.len() == 32,
    ensures
        (address_seed(ns1, owner1, id1) == address_seed(ns2, owner2, id2))
            <==> (ns1 == ns2 && owner1 == owner2 && id1 == id2),
{
    lemma_auto_spec_u64_to_from_le_bytes();
    let s1 = address_seed(ns1, owner1, id1);
    let s2 = address_seed(ns2, owner2, id2);
    let b1 = spec_u64_to_le_bytes(id1);
    let b2 = spec_u64_to_le_bytes(id2);
    assert(b1.len() == 8 && b2.len() == 8);
    assert(s1.len() == ns1.len() + 40);
    assert(s2.len() == ns2.len() + 40);
    if s1 == s2 {
        let n = ns1.len() as int;
        assert(ns1 =~= s1.subrange(0, n));
        assert(ns2 =~= s2.subrange(0, n));
        assert(owner1 =~= s1.subrange(n, n + 32));
        assert(owner2 =~= s2.subrange(n, n + 32));
        assert(b1 =~= s1.subrange(n + 32, n + 40));
        assert(b2 =~= s2.subrange(n + 32, n + 40));
    }
}

/// The four namespaces are pairwise distinct, so a request entity and its
/// escrow, or a plain and a private request, never share a seed.
pub proof fn lemma_namespaces_distinct()
    ensures
        pay_request_tag() != escrow_tag(),
        pay_request_tag() != zk_pay_request_tag(),
        pay_request_tag() != zk_escrow_tag(),
        escrow_tag() != zk_pay_request_tag(),
        escrow_tag() != zk_escrow_tag(),
        zk_pay_request_tag() != zk_escrow_tag(),
{
    assert(pay_request_tag().len() == 11);
    assert(escrow_tag().len() == 6);
    assert(zk_pay_request_tag().len() == 14);
    assert(zk_escrow_tag().len() == 9);
}

} // verus!
