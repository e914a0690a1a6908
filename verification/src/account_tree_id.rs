//! The place of an account in the global state tree.

use core::convert::Infallible;
use vstd::prelude::*;
use crate::u256::{
    be_bytes,
    be_value,
    byte_limit,
    lemma_bytes_of_value,
    lemma_bytes_tail,
    lemma_leading_zeros,
    lemma_value_of_bytes,
    U256,
};

verus! {

/// A 160-bit account address: 20 bytes, most significant first.
#[derive(Debug, Clone, Copy, PartialEq, Eq, Hash, PartialOrd, Ord)]
pub struct Address(pub [u8; 20]);

impl View for Address {
    type V = Seq<u8>;

    open spec fn view(&self) -> Seq<u8> {
        self.0@
    }
}

impl Address {
    /// The address whose bytes are all zero.
    pub fn zero() -> (address: Address)
        ensures
            address@ == Seq::new(20, |i: int| 0u8),
    {
        let address = Address([0u8; 20]);
        assert(address@ =~= Seq::new(20, |i: int| 0u8));
        address
    }
}

/// The place of an account in the global state tree: its address, as 160
/// bits, most significant first.
#[derive(Debug, Clone, Copy, PartialEq, Eq, Hash, PartialOrd, Ord)]
pub struct AccountTreeId {
    address: Address,
}

impl View for AccountTreeId {
    type V = Seq<u8>;

    closed spec fn view(&self) -> Seq<u8> {
        self.address@
    }
}

impl AccountTreeId {
    /// The number that the identifier stands for as a 256-bit integer: its
    /// 20 bytes, read most significant first.
    pub open spec fn number(&self) -> nat {
        be_value(self@)
    }

    pub fn new(address: Address) -> (id: Self)
        ensures
            id@ == address@,
    {
        Self { address }
    }

    pub fn address(&self) -> (address: &Address)
        ensures
            address@ == self@,
    {
        &self.address
    }

    pub fn to_fixed_bytes(&self) -> (bytes: [u8; 20])
        ensures
            bytes@ == self@,
    {
        self.address.0
    }

    pub fn from_fixed_bytes(value: [u8; 20]) -> (id: Self)
        ensures
            id@ == value@,
    {
        Self { address: Address(value) }
    }

    /// The identifier as a 256-bit integer: the address, extended with
    /// zero bytes in front.
    pub fn into(self) -> (value: U256)
        ensures
            value@ == self.number(),
    {
        let mut be_data = [0u8; 32];
        let mut i: usize = 0;
        while i < 20
            invariant
                i <= 20,
                forall|j: int| 0 <= j < 12 ==> be_data@[j] == 0,
                forall|j: int| 0 <= j < i ==> be_data@[12 + j] == self@[j],
            decreases 20 - i,
        {
            be_data[12 + i] = self.address.0[i];
            i = i + 1;
        }
        proof {
            assert(be_data@ =~= Seq::new(12, |i: int| 0u8) + self@);
            lemma_leading_zeros(12, self@);
        }
        U256::from_big_endian(&be_data)
    }

    /// The identifier held in the 20 least significant bytes of `value`.
    /// The higher bytes are dropped, so this never fails.
    pub fn try_from(value: U256) -> (id: Result<Self, Infallible>)
        ensures
            id is Ok,
            id->Ok_0@ == be_bytes(value@, 20),
    {
        let be_data = value.to_big_endian();
        let mut bytes = [0u8; 20];
        let mut i: usize = 0;
        while i < 20
            invariant
                i <= 20,
                forall|j: int| 0 <= j < i ==> bytes@[j] == be_data@[12 + j],
            decreases 20 - i,
        {
            bytes[i] = be_data[12 + i];
            i = i + 1;
        }
        proof {
            lemma_bytes_tail(value@, 12, 20);
            assert(bytes@ =~= be_data@.skip(12));
        }
        Ok(Self { address: Address(bytes) })
    }
}

impl Default for AccountTreeId {
    fn default() -> (id: Self)
        ensures
            id@ == Seq::new(20, |i: int| 0u8),
    {
        Self { address: Address::zero() }
    }
}

/// An identifier is its bytes: two identifiers with the same bytes are the
/// same identifier.
pub proof fn law_account_tree_id_is_its_bytes(a: AccountTreeId, b: AccountTreeId)
    requires
        a@ == b@,
    ensures
        a == b,
{
    broadcast use vstd::array::axiom_array_ext_equal;

    assert(a.address.0 =~= b.address.0);
}

/// An identifier that is made into a 256-bit integer and back is the same
/// identifier, and its integer is below 2^160.
pub proof fn law_account_tree_id_round_trip(id: AccountTreeId)
    ensures
        be_bytes(id.number(), 20) == id@,
        id.number() < byte_limit(20),
        byte_limit(20) == 0x1_0000_0000_0000_0000_0000_0000_0000_0000_0000_0000nat,
{
    reveal_with_fuel(byte_limit, 21);
    lemma_bytes_of_value(id@);
    lemma_value_of_bytes(id.number(), 20);
    assert(byte_limit(20) > 0) by {
        crate::u256::lemma_byte_limit_positive(20);
    }
    assert(id.number() == id.number() % byte_limit(20));
    vstd::arithmetic::div_mod::lemma_mod_bound(id.number() as int, byte_limit(20) as int);
}

/// A 256-bit integer that is made into an identifier and back keeps its
/// 160 least significant bits.
pub proof fn law_u256_truncation(value: nat)
    ensures
        be_value(be_bytes(value, 20)) == value % byte_limit(20),
{
    lemma_value_of_bytes(value, 20);
}

} // verus!
