//! Identifiers and numbers shared by the engine, the randomness protocol and the chain parameters.

use vstd::prelude::*;

verus! {

#[verifier::external_type_specification]
#[verifier::external_body]
pub struct ExH512(ethereum_types::H512);

/// The number of a block in the chain.
pub type BlockNumber = u64;

/// Identifies a validator node by its 64-byte public key.
pub type NodeId = [u8; 64];

/// A 20-byte account address.
#[derive(Clone, Copy, Debug, PartialEq, Eq, PartialOrd, Ord, Hash)]
pub struct Address(pub [u8; 20]);

/// A 32-byte hash.
#[derive(Clone, Copy, Debug, PartialEq, Eq, PartialOrd, Ord, Hash)]
pub struct H256(pub [u8; 32]);

/// A 256-bit unsigned number as four 64-bit limbs, the least significant one first.
#[derive(Clone, Copy, Debug, PartialEq, Eq, Hash)]
pub struct U256(pub [u64; 4]);

/// The byte strings in a sequence of vectors.
pub open spec fn byte_strings(items: Seq<Vec<u8>>) -> Seq<Seq<u8>> {
    items.map_values(|item: Vec<u8>| item@)
}

/// Compares two byte strings.
pub fn same_bytes(a: &[u8], b: &[u8]) -> (same: bool)
    ensures
        same == (a@ == b@),
{
    if a.len() != b.len() {
        return false;
    }
    let mut i: usize = 0;
    while i < a.len()
        invariant
            i <= a.len(),
            a.len() == b.len(),
            forall|j: int| 0 <= j < i ==> a@[j] == b@[j],
        decreases a.len() - i,
    {
        if a[i] != b[i] {
            return false;
        }
        i = i + 1;
    }
    assert(a@ =~= b@);
    true
}

/// Whether both ids name the same node.
pub fn same_node(a: &NodeId, b: &NodeId) -> (same: bool)
    ensures
        same == (*a == *b),
{
    let same: bool = same_bytes(a.as_slice(), b.as_slice());
    assert(same ==> *a =~= *b);
    same
}

/// Whether `ids` lists the node.
pub fn is_among(id: &NodeId, ids: &Vec<NodeId>) -> (found: bool)
    ensures
        found == ids@.contains(*id),
{
    let mut i: usize = 0;
    while i < ids.len()
        invariant
            i <= ids.len(),
            forall|j: int| 0 <= j < i ==> ids@[j] != *id,
        decreases ids.len() - i,
    {
        if same_node(&ids[i], id) {
            assert(ids@[i as int] == *id);
            return true;
        }
        i = i + 1;
    }
    false
}

impl H256 {
    /// The hash whose bytes are all zero.
    pub open spec fn zero_bytes() -> Seq<u8> {
        Seq::new(32, |i: int| 0u8)
    }

    /// Whether both hashes hold the same bytes.
    pub fn same(&self, other: &H256) -> (same: bool)
        ensures
            same == (*self == *other),
    {
        let same: bool = same_bytes(self.0.as_slice(), other.0.as_slice());
        assert(same ==> self.0 =~= other.0);
        same
    }

    /// Whether all bytes of the hash are zero.
    pub fn is_zero(&self) -> (zero: bool)
        ensures
            zero == (self.0@ == H256::zero_bytes()),
    {
        let mut i: usize = 0;
        while i < 32
            invariant
                i <= 32,
                forall|j: int| 0 <= j < i ==> self.0@[j] == 0,
            decreases 32 - i,
        {
            if self.0[i] != 0 {
                assert(self.0@[i as int] != H256::zero_bytes()[i as int]);
                return false;
            }
            i = i + 1;
        }
        assert(self.0@ =~= H256::zero_bytes());
        true
    }
}

/// Calls `ethereum_types::U256::as_u64`, which panics if the number does not fit.
#[verifier::external_body]
fn limbs_as_u64(number: &U256) -> (low: u64)
    requires
        number.value() <= u64::MAX,
    ensures
        low == number.value(),
{
    ethereum_types::U256(number.0).as_u64()
}

impl U256 {
    /// The number that the limbs denote.
    pub open spec fn value(self) -> nat {
        let word: nat = 0x1_0000_0000_0000_0000;
        self.0@[0] as nat + word * (self.0@[1] as nat + word * (self.0@[2] as nat + word * (
        self.0@[3] as nat)))
    }

    /// Whether the number fits into 64 bits.
    pub fn fits_u64(&self) -> (fits: bool)
        ensures
            fits == (self.value() <= u64::MAX),
    {
        self.0[1] == 0 && self.0[2] == 0 && self.0[3] == 0
    }

    /// The number as 64 bits.
    pub fn as_u64(&self) -> (low: u64)
        requires
            self.value() <= u64::MAX,
        ensures
            low == self.value(),
    {
        limbs_as_u64(self)
    }

    /// Whether the number is zero.
    pub fn is_zero(&self) -> (zero: bool)
        ensures
            zero == (self.value() == 0),
    {
        self.0[0] == 0 && self.0[1] == 0 && self.0[2] == 0 && self.0[3] == 0
    }
}

/// Byte strings are those of the vectors, one by one.
pub proof fn law_byte_strings(items: Seq<Vec<u8>>)
    ensures
        byte_strings(items).len() == items.len(),
        forall|i: int| 0 <= i < items.len() ==> (#[trigger] byte_strings(items)[i]) == items[i]@,
{
}

/// Byte strings are the same exactly if they have the same length and the same bytes.
pub proof fn law_same_bytes(a: &[u8], b: &[u8], same: bool)
    requires
        call_ensures(same_bytes, (a, b), same),
    ensures
        same <==> a@.len() == b@.len() && forall|i: int|
            0 <= i < a@.len() ==> (#[trigger] a@[i]) == b@[i],
{
    if a@.len() == b@.len() && forall|i: int| 0 <= i < a@.len() ==> (#[trigger] a@[i]) == b@[i] {
        assert(a@ =~= b@);
    }
}

/// Ids name the same node exactly if they are equal, and a list is searched for that.
pub proof fn law_same_node(a: NodeId, b: NodeId, ids: Vec<NodeId>, same: bool, found: bool)
    requires
        call_ensures(same_node, (&a, &b), same),
        call_ensures(is_among, (&a, &ids), found),
    ensures
        same <==> a == b,
        found <==> exists|i: int| 0 <= i < ids@.len() && (#[trigger] ids@[i]) == a,
{
}

/// Hashes are the same exactly if they are equal, and zero exactly if all 32 bytes are.
pub proof fn law_hashes(a: H256, b: H256, same: bool, zero: bool)
    requires
        call_ensures(H256::same, (&a, &b), same),
        call_ensures(H256::is_zero, (&a,), zero),
    ensures
        same <==> a == b,
        zero <==> forall|i: int| 0 <= i < 32 ==> (#[trigger] a.0@[i]) == 0,
{
    if forall|i: int| 0 <= i < 32 ==> (#[trigger] a.0@[i]) == 0 {
        assert(a.0@ =~= H256::zero_bytes());
    }
    if zero {
        assert forall|i: int| 0 <= i < 32 implies (#[trigger] a.0@[i]) == 0 by {
            assert(H256::zero_bytes()[i] == 0);
        }
    }
}

/// A number is that of its limbs in base 2 to the power of 64, the least significant one first. It is
/// zero exactly if all are, and fits into 64 bits exactly if all but the first are.
pub proof fn law_numbers(number: U256, zero: bool, fits: bool)
    requires
        call_ensures(U256::is_zero, (&number,), zero),
        call_ensures(U256::fits_u64, (&number,), fits),
    ensures
        zero <==> forall|i: int| 0 <= i < 4 ==> (#[trigger] number.0@[i]) == 0,
        fits <==> forall|i: int| 1 <= i < 4 ==> (#[trigger] number.0@[i]) == 0,
        fits ==> number.value() == number.0@[0],
        number.value() == number.0@[0] + number.0@[1] * 0x1_0000_0000_0000_0000 + number.0@[2]
            * 0x1_0000_0000_0000_0000_0000_0000_0000_0000 + number.0@[3]
            * 0x1_0000_0000_0000_0000_0000_0000_0000_0000_0000_0000_0000_0000,
{
    let v = number.0@;
    if forall|i: int| 0 <= i < 4 ==> (#[trigger] v[i]) == 0 {
        assert(v[0] == 0 && v[1] == 0 && v[2] == 0 && v[3] == 0);
    }
    if forall|i: int| 1 <= i < 4 ==> (#[trigger] v[i]) == 0 {
        assert(v[1] == 0 && v[2] == 0 && v[3] == 0);
    }
}

/// A number that fits is given in 64 bits as it is.
pub proof fn law_number_given(number: U256, low: u64)
    requires
        number.value() <= u64::MAX,
        call_ensures(U256::as_u64, (&number,), low),
    ensures
        low == number.0@[0],
{
}

} // verus!
