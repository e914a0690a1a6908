//! Sequential identifiers: positions in the node's numbered domains.
//!
//! Each kind is a type of its own around an unsigned integer, so that a
//! block number is never taken for a batch number. Identifiers are ordered
//! and compared by their integers. Arithmetic never wraps: the checked
//! operations fail and the saturating ones stop at the end of the range.

use core::cmp::Ordering;
use core::num::ParseIntError;
use vstd::prelude::*;
use vstd::string::StringSliceAdditionalSpecFns;
use crate::text::unsigned_decimal;

verus! {

/// `ParseIntError`, the error with which the standard library refuses a
/// string that is no integer. It is carried to the caller as it comes;
/// nothing is claimed of what it holds.
#[verifier::external_type_specification]
#[verifier::external_body]
pub struct ExParseIntError(ParseIntError);

/// Parses a `u32`. Calls `str::parse`, which takes an optional `+` and then
/// one or more ASCII digits whose number fits, and refuses every other
/// string.
#[verifier::external_body]
fn parse_u32(s: &str) -> (parsed: Result<u32, ParseIntError>)
    ensures
        parsed is Ok <==> unsigned_decimal(s.spec_bytes(), 0x1_0000_0000) is Some,
        parsed is Ok ==> unsigned_decimal(s.spec_bytes(), 0x1_0000_0000) == Some(
            parsed->Ok_0 as nat,
        ),
{
    s.parse::<u32>()
}

/// Parses a `u64`. Calls `str::parse`, which takes an optional `+` and then
/// one or more ASCII digits whose number fits, and refuses every other
/// string.
#[verifier::external_body]
fn parse_u64(s: &str) -> (parsed: Result<u64, ParseIntError>)
    ensures
        parsed is Ok <==> unsigned_decimal(s.spec_bytes(), 0x1_0000_0000_0000_0000) is Some,
        parsed is Ok ==> unsigned_decimal(s.spec_bytes(), 0x1_0000_0000_0000_0000) == Some(
            parsed->Ok_0 as nat,
        ),
{
    s.parse::<u64>()
}

/// zkSync network block sequential index.
#[derive(Debug, Clone, Copy, PartialEq, Eq, Structural, Hash, Ord)]
pub struct MiniblockNumber(pub u32);

impl View for MiniblockNumber {
    type V = nat;

    open spec fn view(&self) -> nat {
        self.0 as nat
    }
}

impl MiniblockNumber {
    /// Wraps a raw integer. Every integer is an identifier.
    pub fn new(raw: u32) -> (id: Self)
        ensures
            id == MiniblockNumber(raw),
    {
        MiniblockNumber(raw)
    }

    /// The identifier `offset` places further on, unless that is out of
    /// range.
    pub fn checked_add(self, offset: u32) -> (sum: Option<Self>)
        ensures
            self.0 + offset <= u32::MAX ==> sum == Some(MiniblockNumber((self.0 + offset) as u32)),
            self.0 + offset > u32::MAX ==> sum is None,
    {
        match self.0.checked_add(offset) {
            Some(raw) => Some(MiniblockNumber(raw)),
            None => None,
        }
    }

    /// The identifier `offset` places back, unless that is before the
    /// start of the domain.
    pub fn checked_sub(self, offset: u32) -> (difference: Option<Self>)
        ensures
            offset <= self.0 ==> difference == Some(MiniblockNumber((self.0 - offset) as u32)),
            offset > self.0 ==> difference is None,
    {
        match self.0.checked_sub(offset) {
            Some(raw) => Some(MiniblockNumber(raw)),
            None => None,
        }
    }

    /// The identifier `offset` places further on, or the last one of the
    /// domain if that comes first.
    pub fn saturating_add(self, offset: u32) -> (sum: Self)
        ensures
            self.0 + offset <= u32::MAX ==> sum == MiniblockNumber((self.0 + offset) as u32),
            self.0 + offset > u32::MAX ==> sum == MiniblockNumber(u32::MAX),
    {
        MiniblockNumber(self.0.saturating_add(offset))
    }

    /// The identifier `offset` places back, or the first one of the domain
    /// if that comes first.
    pub fn saturating_sub(self, offset: u32) -> (difference: Self)
        ensures
            offset <= self.0 ==> difference == MiniblockNumber((self.0 - offset) as u32),
            offset > self.0 ==> difference == MiniblockNumber(0),
    {
        MiniblockNumber(self.0.saturating_sub(offset))
    }

    /// Reads an identifier written in decimal digits, with or without a
    /// `+` in front. Fails on any other string, and on a number that is out
    /// of range.
    pub fn from_str(s: &str) -> (id: Result<Self, ParseIntError>)
        ensures
            match unsigned_decimal(s.spec_bytes(), 0x1_0000_0000) {
                Some(number) => id is Ok && id->Ok_0@ == number,
                None => id is Err,
            },
    {
        match parse_u32(s) {
            Ok(raw) => Ok(MiniblockNumber(raw)),
            Err(error) => Err(error),
        }
    }
}

impl Default for MiniblockNumber {
    /// The start of the domain.
    fn default() -> (id: Self)
        ensures
            id == MiniblockNumber(0),
    {
        MiniblockNumber(0)
    }
}

impl PartialOrd for MiniblockNumber {
    fn partial_cmp(&self, other: &MiniblockNumber) -> (order: Option<Ordering>) {
        if self.0 < other.0 {
            Some(Ordering::Less)
        } else if self.0 == other.0 {
            Some(Ordering::Equal)
        } else {
            Some(Ordering::Greater)
        }
    }
}

impl vstd::std_specs::cmp::PartialOrdSpecImpl for MiniblockNumber {
    open spec fn obeys_partial_cmp_spec() -> bool {
        true
    }

    open spec fn partial_cmp_spec(&self, other: &MiniblockNumber) -> Option<Ordering> {
        if self.0 < other.0 {
            Some(Ordering::Less)
        } else if self.0 == other.0 {
            Some(Ordering::Equal)
        } else {
            Some(Ordering::Greater)
        }
    }
}

/// zkSync L1 batch sequential index.
#[derive(Debug, Clone, Copy, PartialEq, Eq, Structural, Hash, Ord)]
pub struct L1BatchNumber(pub u32);

impl View for L1BatchNumber {
    type V = nat;

    open spec fn view(&self) -> nat {
        self.0 as nat
    }
}

impl L1BatchNumber {
    /// Wraps a raw integer. Every integer is an identifier.
    pub fn new(raw: u32) -> (id: Self)
        ensures
            id == L1BatchNumber(raw),
    {
        L1BatchNumber(raw)
    }

    /// The identifier `offset` places further on, unless that is out of
    /// range.
    pub fn checked_add(self, offset: u32) -> (sum: Option<Self>)
        ensures
            self.0 + offset <= u32::MAX ==> sum == Some(L1BatchNumber((self.0 + offset) as u32)),
            self.0 + offset > u32::MAX ==> sum is None,
    {
        match self.0.checked_add(offset) {
            Some(raw) => Some(L1BatchNumber(raw)),
            None => None,
        }
    }

    /// The identifier `offset` places back, unless that is before the
    /// start of the domain.
    pub fn checked_sub(self, offset: u32) -> (difference: Option<Self>)
        ensures
            offset <= self.0 ==> difference == Some(L1BatchNumber((self.0 - offset) as u32)),
            offset > self.0 ==> difference is None,
    {
        match self.0.checked_sub(offset) {
            Some(raw) => Some(L1BatchNumber(raw)),
            None => None,
        }
    }

    /// The identifier `offset` places further on, or the last one of the
    /// domain if that comes first.
    pub fn saturating_add(self, offset: u32) -> (sum: Self)
        ensures
            self.0 + offset <= u32::MAX ==> sum == L1BatchNumber((self.0 + offset) as u32),
            self.0 + offset > u32::MAX ==> sum == L1BatchNumber(u32::MAX),
    {
        L1BatchNumber(self.0.saturating_add(offset))
    }

    /// The identifier `offset` places back, or the first one of the domain
    /// if that comes first.
    pub fn saturating_sub(self, offset: u32) -> (difference: Self)
        ensures
            offset <= self.0 ==> difference == L1BatchNumber((self.0 - offset) as u32),
            offset > self.0 ==> difference == L1BatchNumber(0),
    {
        L1BatchNumber(self.0.saturating_sub(offset))
    }

    /// Reads an identifier written in decimal digits, with or without a
    /// `+` in front. Fails on any other string, and on a number that is out
    /// of range.
    pub fn from_str(s: &str) -> (id: Result<Self, ParseIntError>)
        ensures
            match unsigned_decimal(s.spec_bytes(), 0x1_0000_0000) {
                Some(number) => id is Ok && id->Ok_0@ == number,
                None => id is Err,
            },
    {
        match parse_u32(s) {
            Ok(raw) => Ok(L1BatchNumber(raw)),
            Err(error) => Err(error),
        }
    }
}

impl Default for L1BatchNumber {
    /// The start of the domain.
    fn default() -> (id: Self)
        ensures
            id == L1BatchNumber(0),
    {
        L1BatchNumber(0)
    }
}

impl PartialOrd for L1BatchNumber {
    fn partial_cmp(&self, other: &L1BatchNumber) -> (order: Option<Ordering>) {
        if self.0 < other.0 {
            Some(Ordering::Less)
        } else if self.0 == other.0 {
            Some(Ordering::Equal)
        } else {
            Some(Ordering::Greater)
        }
    }
}

impl vstd::std_specs::cmp::PartialOrdSpecImpl for L1BatchNumber {
    open spec fn obeys_partial_cmp_spec() -> bool {
        true
    }

    open spec fn partial_cmp_spec(&self, other: &L1BatchNumber) -> Option<Ordering> {
        if self.0 < other.0 {
            Some(Ordering::Less)
        } else if self.0 == other.0 {
            Some(Ordering::Equal)
        } else {
            Some(Ordering::Greater)
        }
    }
}

/// Ethereum network block sequential index.
#[derive(Debug, Clone, Copy, PartialEq, Eq, Structural, Hash, Ord)]
pub struct L1BlockNumber(pub u32);

impl View for L1BlockNumber {
    type V = nat;

    open spec fn view(&self) -> nat {
        self.0 as nat
    }
}

impl L1BlockNumber {
    /// Wraps a raw integer. Every integer is an identifier.
    pub fn new(raw: u32) -> (id: Self)
        ensures
            id == L1BlockNumber(raw),
    {
        L1BlockNumber(raw)
    }

    /// The identifier `offset` places further on, unless that is out of
    /// range.
    pub fn checked_add(self, offset: u32) -> (sum: Option<Self>)
        ensures
            self.0 + offset <= u32::MAX ==> sum == Some(L1BlockNumber((self.0 + offset) as u32)),
            self.0 + offset > u32::MAX ==> sum is None,
    {
        match self.0.checked_add(offset) {
            Some(raw) => Some(L1BlockNumber(raw)),
            None => None,
        }
    }

    /// The identifier `offset` places back, unless that is before the
    /// start of the domain.
    pub fn checked_sub(self, offset: u32) -> (difference: Option<Self>)
        ensures
            offset <= self.0 ==> difference == Some(L1BlockNumber((self.0 - offset) as u32)),
            offset > self.0 ==> difference is None,
    {
        match self.0.checked_sub(offset) {
            Some(raw) => Some(L1BlockNumber(raw)),
            None => None,
        }
    }

    /// The identifier `offset` places further on, or the last one of the
    /// domain if that comes first.
    pub fn saturating_add(self, offset: u32) -> (sum: Self)
        ensures
            self.0 + offset <= u32::MAX ==> sum == L1BlockNumber((self.0 + offset) as u32),
            self.0 + offset > u32::MAX ==> sum == L1BlockNumber(u32::MAX),
    {
        L1BlockNumber(self.0.saturating_add(offset))
    }

    /// The identifier `offset` places back, or the first one of the domain
    /// if that comes first.
    pub fn saturating_sub(self, offset: u32) -> (difference: Self)
        ensures
            offset <= self.0 ==> difference == L1BlockNumber((self.0 - offset) as u32),
            offset > self.0 ==> difference == L1BlockNumber(0),
    {
        L1BlockNumber(self.0.saturating_sub(offset))
    }

    /// Reads an identifier written in decimal digits, with or without a
    /// `+` in front. Fails on any other string, and on a number that is out
    /// of range.
    pub fn from_str(s: &str) -> (id: Result<Self, ParseIntError>)
        ensures
            match unsigned_decimal(s.spec_bytes(), 0x1_0000_0000) {
                Some(number) => id is Ok && id->Ok_0@ == number,
                None => id is Err,
            },
    {
        match parse_u32(s) {
            Ok(raw) => Ok(L1BlockNumber(raw)),
            Err(error) => Err(error),
        }
    }
}

impl Default for L1BlockNumber {
    /// The start of the domain.
    fn default() -> (id: Self)
        ensures
            id == L1BlockNumber(0),
    {
        L1BlockNumber(0)
    }
}

impl PartialOrd for L1BlockNumber {
    fn partial_cmp(&self, other: &L1BlockNumber) -> (order: Option<Ordering>) {
        if self.0 < other.0 {
            Some(Ordering::Less)
        } else if self.0 == other.0 {
            Some(Ordering::Equal)
        } else {
            Some(Ordering::Greater)
        }
    }
}

impl vstd::std_specs::cmp::PartialOrdSpecImpl for L1BlockNumber {
    open spec fn obeys_partial_cmp_spec() -> bool {
        true
    }

    open spec fn partial_cmp_spec(&self, other: &L1BlockNumber) -> Option<Ordering> {
        if self.0 < other.0 {
            Some(Ordering::Less)
        } else if self.0 == other.0 {
            Some(Ordering::Equal)
        } else {
            Some(Ordering::Greater)
        }
    }
}

/// zkSync account nonce.
#[derive(Debug, Clone, Copy, PartialEq, Eq, Structural, Hash, Ord)]
pub struct Nonce(pub u32);

impl View for Nonce {
    type V = nat;

    open spec fn view(&self) -> nat {
        self.0 as nat
    }
}

impl Nonce {
    /// Wraps a raw integer. Every integer is an identifier.
    pub fn new(raw: u32) -> (id: Self)
        ensures
            id == Nonce(raw),
    {
        Nonce(raw)
    }

    /// The identifier `offset` places further on, unless that is out of
    /// range.
    pub fn checked_add(self, offset: u32) -> (sum: Option<Self>)
        ensures
            self.0 + offset <= u32::MAX ==> sum == Some(Nonce((self.0 + offset) as u32)),
            self.0 + offset > u32::MAX ==> sum is None,
    {
        match self.0.checked_add(offset) {
            Some(raw) => Some(Nonce(raw)),
            None => None,
        }
    }

    /// The identifier `offset` places back, unless that is before the
    /// start of the domain.
    pub fn checked_sub(self, offset: u32) -> (difference: Option<Self>)
        ensures
            offset <= self.0 ==> difference == Some(Nonce((self.0 - offset) as u32)),
            offset > self.0 ==> difference is None,
    {
        match self.0.checked_sub(offset) {
            Some(raw) => Some(Nonce(raw)),
            None => None,
        }
    }

    /// The identifier `offset` places further on, or the last one of the
    /// domain if that comes first.
    pub fn saturating_add(self, offset: u32) -> (sum: Self)
        ensures
            self.0 + offset <= u32::MAX ==> sum == Nonce((self.0 + offset) as u32),
            self.0 + offset > u32::MAX ==> sum == Nonce(u32::MAX),
    {
        Nonce(self.0.saturating_add(offset))
    }

    /// The identifier `offset` places back, or the first one of the domain
    /// if that comes first.
    pub fn saturating_sub(self, offset: u32) -> (difference: Self)
        ensures
            offset <= self.0 ==> difference == Nonce((self.0 - offset) as u32),
            offset > self.0 ==> difference == Nonce(0),
    {
        Nonce(self.0.saturating_sub(offset))
    }

    /// Reads an identifier written in decimal digits, with or without a
    /// `+` in front. Fails on any other string, and on a number that is out
    /// of range.
    pub fn from_str(s: &str) -> (id: Result<Self, ParseIntError>)
        ensures
            match unsigned_decimal(s.spec_bytes(), 0x1_0000_0000) {
                Some(number) => id is Ok && id->Ok_0@ == number,
                None => id is Err,
            },
    {
        match parse_u32(s) {
            Ok(raw) => Ok(Nonce(raw)),
            Err(error) => Err(error),
        }
    }
}

impl PartialOrd for Nonce {
    fn partial_cmp(&self, other: &Nonce) -> (order: Option<Ordering>) {
        if self.0 < other.0 {
            Some(Ordering::Less)
        } else if self.0 == other.0 {
            Some(Ordering::Equal)
        } else {
            Some(Ordering::Greater)
        }
    }
}

impl vstd::std_specs::cmp::PartialOrdSpecImpl for Nonce {
    open spec fn obeys_partial_cmp_spec() -> bool {
        true
    }

    open spec fn partial_cmp_spec(&self, other: &Nonce) -> Option<Ordering> {
        if self.0 < other.0 {
            Some(Ordering::Less)
        } else if self.0 == other.0 {
            Some(Ordering::Equal)
        } else {
            Some(Ordering::Greater)
        }
    }
}

/// Unique identifier of the priority operation in the zkSync network.
#[derive(Debug, Clone, Copy, PartialEq, Eq, Structural, Hash, Ord)]
pub struct PriorityOpId(pub u64);

impl View for PriorityOpId {
    type V = nat;

    open spec fn view(&self) -> nat {
        self.0 as nat
    }
}

impl PriorityOpId {
    /// Wraps a raw integer. Every integer is an identifier.
    pub fn new(raw: u64) -> (id: Self)
        ensures
            id == PriorityOpId(raw),
    {
        PriorityOpId(raw)
    }

    /// The identifier `offset` places further on, unless that is out of
    /// range.
    pub fn checked_add(self, offset: u64) -> (sum: Option<Self>)
        ensures
            self.0 + offset <= u64::MAX ==> sum == Some(PriorityOpId((self.0 + offset) as u64)),
            self.0 + offset > u64::MAX ==> sum is None,
    {
        match self.0.checked_add(offset) {
            Some(raw) => Some(PriorityOpId(raw)),
            None => None,
        }
    }

    /// The identifier `offset` places back, unless that is before the
    /// start of the domain.
    pub fn checked_sub(self, offset: u64) -> (difference: Option<Self>)
        ensures
            offset <= self.0 ==> difference == Some(PriorityOpId((self.0 - offset) as u64)),
            offset > self.0 ==> difference is None,
    {
        match self.0.checked_sub(offset) {
            Some(raw) => Some(PriorityOpId(raw)),
            None => None,
        }
    }

    /// The identifier `offset` places further on, or the last one of the
    /// domain if that comes first.
    pub fn saturating_add(self, offset: u64) -> (sum: Self)
        ensures
            self.0 + offset <= u64::MAX ==> sum == PriorityOpId((self.0 + offset) as u64),
            self.0 + offset > u64::MAX ==> sum == PriorityOpId(u64::MAX),
    {
        PriorityOpId(self.0.saturating_add(offset))
    }

    /// The identifier `offset` places back, or the first one of the domain
    /// if that comes first.
    pub fn saturating_sub(self, offset: u64) -> (difference: Self)
        ensures
            offset <= self.0 ==> difference == PriorityOpId((self.0 - offset) as u64),
            offset > self.0 ==> difference == PriorityOpId(0),
    {
        PriorityOpId(self.0.saturating_sub(offset))
    }

    /// Reads an identifier written in decimal digits, with or without a
    /// `+` in front. Fails on any other string, and on a number that is out
    /// of range.
    pub fn from_str(s: &str) -> (id: Result<Self, ParseIntError>)
        ensures
            match unsigned_decimal(s.spec_bytes(), 0x1_0000_0000_0000_0000) {
                Some(number) => id is Ok && id->Ok_0@ == number,
                None => id is Err,
            },
    {
        match parse_u64(s) {
            Ok(raw) => Ok(PriorityOpId(raw)),
            Err(error) => Err(error),
        }
    }
}

impl Default for PriorityOpId {
    /// The start of the domain.
    fn default() -> (id: Self)
        ensures
            id == PriorityOpId(0),
    {
        PriorityOpId(0)
    }
}

impl PartialOrd for PriorityOpId {
    fn partial_cmp(&self, other: &PriorityOpId) -> (order: Option<Ordering>) {
        if self.0 < other.0 {
            Some(Ordering::Less)
        } else if self.0 == other.0 {
            Some(Ordering::Equal)
        } else {
            Some(Ordering::Greater)
        }
    }
}

impl vstd::std_specs::cmp::PartialOrdSpecImpl for PriorityOpId {
    open spec fn obeys_partial_cmp_spec() -> bool {
        true
    }

    open spec fn partial_cmp_spec(&self, other: &PriorityOpId) -> Option<Ordering> {
        if self.0 < other.0 {
            Some(Ordering::Less)
        } else if self.0 == other.0 {
            Some(Ordering::Equal)
        } else {
            Some(Ordering::Greater)
        }
    }
}

/// ChainId in the Ethereum network.
#[derive(Debug, Clone, Copy, PartialEq, Eq, Structural, Hash, Ord)]
pub struct L1ChainId(pub u64);

impl View for L1ChainId {
    type V = nat;

    open spec fn view(&self) -> nat {
        self.0 as nat
    }
}

impl L1ChainId {
    /// Wraps a raw integer. Every integer is an identifier.
    pub fn new(raw: u64) -> (id: Self)
        ensures
            id == L1ChainId(raw),
    {
        L1ChainId(raw)
    }

    /// The identifier `offset` places further on, unless that is out of
    /// range.
    pub fn checked_add(self, offset: u64) -> (sum: Option<Self>)
        ensures
            self.0 + offset <= u64::MAX ==> sum == Some(L1ChainId((self.0 + offset) as u64)),
            self.0 + offset > u64::MAX ==> sum is None,
    {
        match self.0.checked_add(offset) {
            Some(raw) => Some(L1ChainId(raw)),
            None => None,
        }
    }

    /// The identifier `offset` places back, unless that is before the
    /// start of the domain.
    pub fn checked_sub(self, offset: u64) -> (difference: Option<Self>)
        ensures
            offset <= self.0 ==> difference == Some(L1ChainId((self.0 - offset) as u64)),
            offset > self.0 ==> difference is None,
    {
        match self.0.checked_sub(offset) {
            Some(raw) => Some(L1ChainId(raw)),
            None => None,
        }
    }

    /// The identifier `offset` places further on, or the last one of the
    /// domain if that comes first.
    pub fn saturating_add(self, offset: u64) -> (sum: Self)
        ensures
            self.0 + offset <= u64::MAX ==> sum == L1ChainId((self.0 + offset) as u64),
            self.0 + offset > u64::MAX ==> sum == L1ChainId(u64::MAX),
    {
        L1ChainId(self.0.saturating_add(offset))
    }

    /// The identifier `offset` places back, or the first one of the domain
    /// if that comes first.
    pub fn saturating_sub(self, offset: u64) -> (difference: Self)
        ensures
            offset <= self.0 ==> difference == L1ChainId((self.0 - offset) as u64),
            offset > self.0 ==> difference == L1ChainId(0),
    {
        L1ChainId(self.0.saturating_sub(offset))
    }

    /// Reads an identifier written in decimal digits, with or without a
    /// `+` in front. Fails on any other string, and on a number that is out
    /// of range.
    pub fn from_str(s: &str) -> (id: Result<Self, ParseIntError>)
        ensures
            match unsigned_decimal(s.spec_bytes(), 0x1_0000_0000_0000_0000) {
                Some(number) => id is Ok && id->Ok_0@ == number,
                None => id is Err,
            },
    {
        match parse_u64(s) {
            Ok(raw) => Ok(L1ChainId(raw)),
            Err(error) => Err(error),
        }
    }
}

impl PartialOrd for L1ChainId {
    fn partial_cmp(&self, other: &L1ChainId) -> (order: Option<Ordering>) {
        if self.0 < other.0 {
            Some(Ordering::Less)
        } else if self.0 == other.0 {
            Some(Ordering::Equal)
        } else {
            Some(Ordering::Greater)
        }
    }
}

impl vstd::std_specs::cmp::PartialOrdSpecImpl for L1ChainId {
    open spec fn obeys_partial_cmp_spec() -> bool {
        true
    }

    open spec fn partial_cmp_spec(&self, other: &L1ChainId) -> Option<Ordering> {
        if self.0 < other.0 {
            Some(Ordering::Less)
        } else if self.0 == other.0 {
            Some(Ordering::Equal)
        } else {
            Some(Ordering::Greater)
        }
    }
}

} // verus!
