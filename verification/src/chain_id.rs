//! The identifier of an L2 chain.

use vstd::prelude::*;
use vstd::string::StringSliceAdditionalSpecFns;
use web3::ethabi::ethereum_types::FromStrRadixErr;
use crate::text::{decimal, hexadecimal};
use crate::u256::{u256_limit, U256};

verus! {

/// Identifier of a chain in the zkSync network.
#[derive(Debug, Clone, Copy, PartialEq, Eq, Structural, Hash)]
pub struct L2ChainId(pub U256);

/// Why a string is not a chain identifier.
#[derive(Debug)]
pub enum L2ChainIdError {
    /// The string spells no number, in decimal or in hexadecimal digits.
    Malformed(FromStrRadixErr),
    /// The number is greater than `L2ChainId::MAX`: it does not pass
    /// validation.
    TooBig,
}

/// The number that `text` spells: read as decimal digits where that gives a
/// 256-bit number, and as hexadecimal digits otherwise.
pub open spec fn chain_number(text: Seq<u8>) -> Option<nat> {
    match decimal(text, u256_limit()) {
        Some(number) => Some(number),
        None => hexadecimal(text, 64),
    }
}

impl View for L2ChainId {
    type V = nat;

    open spec fn view(&self) -> nat {
        self.0@
    }
}

impl L2ChainId {
    /// The greatest chain identifier. JavaScript libraries hold
    /// `v = 2 * chain_id + 36` in a safe integer, one below 2^53, so this is
    /// `(2^53 - 1 - 36) / 2`.
    pub const MAX: u64 = 4_503_599_627_370_477;

    /// The identifier has a value that a chain may have.
    pub open spec fn is_valid(&self) -> bool {
        self@ <= Self::MAX
    }

    /// Reads a chain identifier from decimal digits or, failing that, from
    /// hexadecimal digits, and checks it against `MAX`.
    pub fn from_str(s: &str) -> (id: Result<L2ChainId, L2ChainIdError>)
        ensures
            match chain_number(s.spec_bytes()) {
                Some(number) => if number <= Self::MAX {
                    id is Ok && id->Ok_0@ == number
                } else {
                    id is Err && id->Err_0 is TooBig
                },
                None => id is Err && id->Err_0 is Malformed,
            },
            id is Ok ==> id->Ok_0.is_valid(),
    {
        let number = match U256::from_dec_str(s) {
            Some(number) => number,
            None => match U256::from_hex_str(s) {
                Ok(number) => number,
                Err(error) => {
                    return Err(L2ChainIdError::Malformed(error));
                },
            },
        };
        if number <= U256::from_u64(Self::MAX) {
            Ok(L2ChainId(number))
        } else {
            Err(L2ChainIdError::TooBig)
        }
    }
}

impl Default for L2ChainId {
    /// The identifier of the network's own chain, 270.
    fn default() -> (id: Self)
        ensures
            id@ == 270,
            id.is_valid(),
    {
        L2ChainId(U256::from_u64(270))
    }
}

impl From<u64> for L2ChainId {
    /// The identifier with the given number. The number is taken as it is,
    /// and not checked against `MAX`.
    fn from(val: u64) -> (id: Self) {
        L2ChainId(U256::from_u64(val))
    }
}

impl vstd::std_specs::convert::FromSpecImpl<u64> for L2ChainId {
    open spec fn obeys_from_spec() -> bool {
        true
    }

    open spec fn from_spec(val: u64) -> Self {
        L2ChainId(U256 { word3: 0, word2: 0, word1: 0, word0: val })
    }
}

} // verus!
