//! 256-bit unsigned integers as four plain words. Text and byte-order
//! conversions are done by `web3`'s `U256`.

use core::cmp::Ordering;
use vstd::prelude::*;
use vstd::string::StringSliceAdditionalSpecFns;
use web3::ethabi::ethereum_types::FromStrRadixErr;
use crate::text::{decimal, hexadecimal};

verus! {

/// `FromStrRadixErr`, the error with which `web3`'s integers refuse a
/// string. It is carried to the caller as it comes; nothing is claimed of
/// what it holds.
#[verifier::external_type_specification]
#[verifier::external_body]
pub struct ExFromStrRadixErr(FromStrRadixErr);

/// A 256-bit unsigned integer: four 64-bit words, most significant first.
#[derive(Debug, Clone, Copy, PartialEq, Eq, Structural, Hash, Ord)]
pub struct U256 {
    pub word3: u64,
    pub word2: u64,
    pub word1: u64,
    pub word0: u64,
}

/// The first number that does not fit in 256 bits.
pub open spec fn u256_limit() -> nat {
    0x1_0000_0000_0000_0000_0000_0000_0000_0000_0000_0000_0000_0000_0000_0000_0000_0000nat
}

/// The number that four words stand for, `word0` the least significant.
pub open spec fn words_value(word3: u64, word2: u64, word1: u64, word0: u64) -> nat {
    (word0 + word1 * 0x1_0000_0000_0000_0000int + word2
        * 0x1_0000_0000_0000_0000_0000_0000_0000_0000int + word3
        * 0x1_0000_0000_0000_0000_0000_0000_0000_0000_0000_0000_0000_0000int) as nat
}

/// The number that the bytes stand for, most significant byte first.
pub open spec fn be_value(bytes: Seq<u8>) -> nat
    decreases bytes.len(),
{
    if bytes.len() == 0 {
        0
    } else {
        be_value(bytes.drop_last()) * 256 + bytes.last() as nat
    }
}

/// The `len` least significant bytes of `value`, most significant first.
pub open spec fn be_bytes(value: nat, len: nat) -> Seq<u8>
    decreases len,
{
    if len == 0 {
        Seq::empty()
    } else {
        be_bytes(value / 256, (len - 1) as nat).push((value % 256) as u8)
    }
}

/// The number of values that `len` bytes can hold.
pub open spec fn byte_limit(len: nat) -> nat
    decreases len,
{
    if len == 0 {
        1
    } else {
        256 * byte_limit((len - 1) as nat)
    }
}

impl View for U256 {
    type V = nat;

    open spec fn view(&self) -> nat {
        words_value(self.word3, self.word2, self.word1, self.word0)
    }
}

impl U256 {
    /// The 256-bit integer equal to `value`.
    pub fn from_u64(value: u64) -> (wide: U256)
        ensures
            wide == (U256 { word3: 0, word2: 0, word1: 0, word0: value }),
            wide@ == value,
    {
        U256 { word3: 0, word2: 0, word1: 0, word0: value }
    }

    /// The integer with the given words, least significant first.
    pub fn from_words(words: [u64; 4]) -> (value: U256)
        ensures
            value == (U256 { word3: words[3], word2: words[2], word1: words[1], word0: words[0] }),
    {
        U256 { word3: words[3], word2: words[2], word1: words[1], word0: words[0] }
    }

    /// The words of the integer, least significant first.
    pub fn to_words(&self) -> (words: [u64; 4])
        ensures
            words@ == seq![self.word0, self.word1, self.word2, self.word3],
    {
        let words = [self.word0, self.word1, self.word2, self.word3];
        assert(words@ =~= seq![self.word0, self.word1, self.word2, self.word3]);
        words
    }

    /// Parses decimal digits. Calls `U256::from_dec_str`, which takes
    /// any string of ASCII digits, the empty one too, whose number fits in
    /// 256 bits, and refuses every other string.
    #[verifier::external_body]
    pub(crate) fn from_dec_str(value: &str) -> (parsed: Option<U256>)
        ensures
            parsed is Some <==> decimal(value.spec_bytes(), u256_limit()) is Some,
            parsed is Some ==> Some(parsed->Some_0@) == decimal(value.spec_bytes(), u256_limit()),
    {
        match web3::types::U256::from_dec_str(value) {
            Ok(parsed) => Some(
                U256 {
                    word3: parsed.0[3],
                    word2: parsed.0[2],
                    word1: parsed.0[1],
                    word0: parsed.0[0],
                },
            ),
            Err(_) => None,
        }
    }

    /// Parses hexadecimal digits. Calls `U256`'s `FromStr`, which drops one
    /// leading `0x`, then takes up to 64 hexadecimal digits in either case
    /// (none at all stands for 0) and refuses every other string.
    #[verifier::external_body]
    pub(crate) fn from_hex_str(value: &str) -> (parsed: Result<U256, FromStrRadixErr>)
        ensures
            parsed is Ok <==> hexadecimal(value.spec_bytes(), 64) is Some,
            parsed is Ok ==> Some(parsed->Ok_0@) == hexadecimal(value.spec_bytes(), 64),
    {
        match value.parse::<web3::types::U256>() {
            Ok(parsed) => Ok(
                U256 {
                    word3: parsed.0[3],
                    word2: parsed.0[2],
                    word1: parsed.0[1],
                    word0: parsed.0[0],
                },
            ),
            Err(error) => Err(FromStrRadixErr::from(error)),
        }
    }
}

impl U256 {
    /// Reads 32 bytes, most significant first. Calls
    /// `U256::from_big_endian`, which returns the integer that the bytes
    /// stand for.
    #[verifier::external_body]
    pub(crate) fn from_big_endian(bytes: &[u8; 32]) -> (value: U256)
        ensures
            value@ == be_value(bytes@),
    {
        let parsed = web3::types::U256::from_big_endian(&bytes[..]);
        U256 { word3: parsed.0[3], word2: parsed.0[2], word1: parsed.0[1], word0: parsed.0[0] }
    }

    /// Writes the integer as 32 bytes, most significant first. Calls
    /// `U256::to_big_endian` on a buffer of 32 bytes.
    #[verifier::external_body]
    pub(crate) fn to_big_endian(&self) -> (bytes: [u8; 32])
        ensures
            bytes@ == be_bytes(self@, 32),
    {
        let mut bytes = [0u8; 32];
        web3::types::U256([self.word0, self.word1, self.word2, self.word3]).to_big_endian(
            &mut bytes,
        );
        bytes
    }
}

/// An integer is its number: two integers that stand for the same number
/// have the same words.
pub proof fn law_u256_is_its_number(a: U256, b: U256)
    requires
        a@ == b@,
    ensures
        a == b,
{
    if a.word3 != b.word3 {
        assert(a.word3 < b.word3 ==> a@ < b@);
        assert(a.word3 > b.word3 ==> a@ > b@);
    } else if a.word2 != b.word2 {
        assert(a.word2 < b.word2 ==> a@ < b@);
        assert(a.word2 > b.word2 ==> a@ > b@);
    } else if a.word1 != b.word1 {
        assert(a.word1 < b.word1 ==> a@ < b@);
        assert(a.word1 > b.word1 ==> a@ > b@);
    }
}

/// Bytes that are written out from a number and read back give the number
/// again, as far as the bytes can hold it.
pub proof fn lemma_value_of_bytes(value: nat, len: nat)
    ensures
        be_bytes(value, len).len() == len,
        be_value(be_bytes(value, len)) == value % byte_limit(len),
    decreases len,
{
    if len > 0 {
        let rest = be_bytes(value / 256, (len - 1) as nat);
        lemma_value_of_bytes(value / 256, (len - 1) as nat);
        assert(be_bytes(value, len).drop_last() =~= rest);
        lemma_byte_limit_positive((len - 1) as nat);
        vstd::arithmetic::div_mod::lemma_breakdown(
            value as int,
            256,
            byte_limit((len - 1) as nat) as int,
        );
    }
}

/// Any number of bytes can hold at least one value.
pub proof fn lemma_byte_limit_positive(len: nat)
    ensures
        byte_limit(len) > 0,
    decreases len,
{
    if len > 0 {
        lemma_byte_limit_positive((len - 1) as nat);
    }
}

/// Bytes that are read as a number and written out again at their own
/// length are the same bytes.
pub proof fn lemma_bytes_of_value(bytes: Seq<u8>)
    ensures
        be_bytes(be_value(bytes), bytes.len()) == bytes,
    decreases bytes.len(),
{
    if bytes.len() > 0 {
        lemma_bytes_of_value(bytes.drop_last());
        assert(be_bytes(be_value(bytes), bytes.len()) =~= bytes);
    } else {
        assert(be_bytes(be_value(bytes), bytes.len()) =~= bytes);
    }
}

/// Writing a number out in fewer bytes keeps the tail of the longer form.
pub proof fn lemma_bytes_tail(value: nat, skipped: nat, len: nat)
    ensures
        be_bytes(value, skipped + len).skip(skipped as int) == be_bytes(value, len),
    decreases len,
{
    lemma_value_of_bytes(value, skipped + len);
    lemma_value_of_bytes(value, len);
    if len > 0 {
        lemma_bytes_tail(value / 256, skipped, (len - 1) as nat);
        lemma_value_of_bytes(value / 256, (skipped + len - 1) as nat);
    }
    assert(be_bytes(value, skipped + len).skip(skipped as int) =~= be_bytes(value, len));
}

/// Zero bytes in front do not change the number that bytes stand for.
pub proof fn lemma_leading_zeros(zeros: nat, bytes: Seq<u8>)
    ensures
        be_value(Seq::new(zeros, |i: int| 0u8) + bytes) == be_value(bytes),
    decreases bytes.len(), zeros,
{
    let padded = Seq::new(zeros, |i: int| 0u8) + bytes;
    if bytes.len() > 0 {
        lemma_leading_zeros(zeros, bytes.drop_last());
        assert(padded.drop_last() =~= Seq::new(zeros, |i: int| 0u8) + bytes.drop_last());
    } else if zeros > 0 {
        lemma_leading_zeros((zeros - 1) as nat, bytes);
        assert(padded.drop_last() =~= Seq::new((zeros - 1) as nat, |i: int| 0u8) + bytes);
    }
}

impl PartialOrd for U256 {
    fn partial_cmp(&self, other: &U256) -> (order: Option<Ordering>) {
        if self.word3 != other.word3 {
            Some(if self.word3 < other.word3 { Ordering::Less } else { Ordering::Greater })
        } else if self.word2 != other.word2 {
            Some(if self.word2 < other.word2 { Ordering::Less } else { Ordering::Greater })
        } else if self.word1 != other.word1 {
            Some(if self.word1 < other.word1 { Ordering::Less } else { Ordering::Greater })
        } else if self.word0 != other.word0 {
            Some(if self.word0 < other.word0 { Ordering::Less } else { Ordering::Greater })
        } else {
            Some(Ordering::Equal)
        }
    }
}

impl vstd::std_specs::cmp::PartialOrdSpecImpl for U256 {
    open spec fn obeys_partial_cmp_spec() -> bool {
        true
    }

    open spec fn partial_cmp_spec(&self, other: &U256) -> Option<Ordering> {
        if self@ < other@ {
            Some(Ordering::Less)
        } else if self@ == other@ {
            Some(Ordering::Equal)
        } else {
            Some(Ordering::Greater)
        }
    }
}

} // verus!
