//! Unsigned 256-bit integers, the type of workflow identifiers and of the
//! workflow counter.

use crate::codec::CodecError;
use casper_types::bytesrepr;
use casper_types::bytesrepr::{FromBytes, ToBytes};
use vstd::bytes::{spec_u64_from_le_bytes, spec_u64_to_le_bytes};
use vstd::prelude::*;

verus! {

/// Two to the power 64: the weight of one limb.
pub open spec fn pow64() -> nat {
    0x1_0000_0000_0000_0000
}

/// The largest value of a [`U256`], two to the power 256 less one.
pub open spec fn u256_max() -> nat {
    0xffff_ffff_ffff_ffff_ffff_ffff_ffff_ffff_ffff_ffff_ffff_ffff_ffff_ffff_ffff_ffffnat
}

/// The number that four 64-bit limbs stand for, least significant limb
/// first: the limbs weigh two to the power 0, 64, 128 and 192.
pub open spec fn limbs_value(limbs: [u64; 4]) -> nat {
    (limbs[0] + 0x1_0000_0000_0000_0000int * limbs[1]
        + 0x1_0000_0000_0000_0000_0000_0000_0000_0000int * limbs[2]
        + 0x1_0000_0000_0000_0000_0000_0000_0000_0000_0000_0000_0000_0000int * limbs[3]) as nat
}

/// The 32 bytes of four limbs, least significant byte first.
pub open spec fn limbs_le_bytes(limbs: [u64; 4]) -> Seq<u8> {
    spec_u64_to_le_bytes(limbs[0]) + spec_u64_to_le_bytes(limbs[1]) + spec_u64_to_le_bytes(
        limbs[2],
    ) + spec_u64_to_le_bytes(limbs[3])
}

/// The four limbs that 32 bytes stand for, least significant byte first.
pub open spec fn limbs_from_le_bytes(bytes: Seq<u8>) -> [u64; 4] {
    [
        spec_u64_from_le_bytes(bytes.subrange(0, 8)),
        spec_u64_from_le_bytes(bytes.subrange(8, 16)),
        spec_u64_from_le_bytes(bytes.subrange(16, 24)),
        spec_u64_from_le_bytes(bytes.subrange(24, 32)),
    ]
}

/// `bytes` without the zero bytes at its end.
pub open spec fn trim_zeros(bytes: Seq<u8>) -> Seq<u8>
    decreases bytes.len(),
{
    if bytes.len() > 0 && bytes.last() == 0 {
        trim_zeros(bytes.drop_last())
    } else {
        bytes
    }
}

/// `bytes` followed by as many zero bytes as bring it to 32 bytes.
pub open spec fn pad_zeros(bytes: Seq<u8>) -> Seq<u8> {
    bytes + Seq::new((32 - bytes.len()) as nat, |i: int| 0u8)
}

/// An unsigned 256-bit integer, held as four 64-bit limbs, least significant
/// first.
#[derive(Clone, Copy, Debug, Eq)]
pub struct U256 {
    pub limbs: [u64; 4],
}

impl View for U256 {
    type V = nat;

    open spec fn view(&self) -> nat {
        limbs_value(self.limbs)
    }
}

impl PartialEq for U256 {
    fn eq(&self, other: &U256) -> (equal: bool) {
        self.limbs[0] == other.limbs[0] && self.limbs[1] == other.limbs[1]
            && self.limbs[2] == other.limbs[2] && self.limbs[3] == other.limbs[3]
    }
}

impl vstd::std_specs::cmp::PartialEqSpecImpl for U256 {
    open spec fn obeys_eq_spec() -> bool {
        true
    }

    open spec fn eq_spec(&self, other: &U256) -> bool {
        self.limbs[0] == other.limbs[0] && self.limbs[1] == other.limbs[1]
            && self.limbs[2] == other.limbs[2] && self.limbs[3] == other.limbs[3]
    }
}

/// Two values stand for the same number exactly when their limbs agree, and
/// no value is above the largest.
pub proof fn lemma_value_determines_limbs(a: U256, b: U256)
    ensures
        a@ == b@ <==> a == b,
        a@ <= u256_max(),
{
    if a@ == b@ {
        assert(a.limbs[0] == b.limbs[0]);
        assert(a.limbs[1] == b.limbs[1]);
        assert(a.limbs[2] == b.limbs[2]);
        assert(a.limbs[3] == b.limbs[3]);
        assert(a.limbs =~= b.limbs);
    }
}

/// `U256::checked_add` of casper_types (the `uint` crate's addition with
/// carry over the four limbs): the sum where it fits in 256 bits, else
/// nothing.
#[verifier::external_body]
fn limbs_checked_add(a: [u64; 4], b: [u64; 4]) -> (sum: Option<[u64; 4]>)
    ensures
        match sum {
            Some(limbs) => limbs_value(limbs) == limbs_value(a) + limbs_value(b),
            None => limbs_value(a) + limbs_value(b) > u256_max(),
        },
{
    match casper_types::U256(a).checked_add(casper_types::U256(b)) {
        Some(total) => Some(total.0),
        None => None,
    }
}

impl U256 {
    /// Zero.
    pub fn zero() -> (value: U256)
        ensures
            value@ == 0,
    {
        U256 { limbs: [0, 0, 0, 0] }
    }

    /// One.
    pub fn one() -> (value: U256)
        ensures
            value@ == 1,
    {
        U256 { limbs: [1, 0, 0, 0] }
    }

    /// The largest value.
    pub fn max_value() -> (value: U256)
        ensures
            value@ == u256_max(),
    {
        U256 { limbs: [u64::MAX, u64::MAX, u64::MAX, u64::MAX] }
    }

    /// The 256-bit integer equal to `low`.
    pub fn from_u64(low: u64) -> (value: U256)
        ensures
            value@ == low,
    {
        U256 { limbs: [low, 0, 0, 0] }
    }

    /// Tells whether the value is zero.
    pub fn is_zero(&self) -> (zero: bool)
        ensures
            zero == (self@ == 0),
    {
        self.limbs[0] == 0 && self.limbs[1] == 0 && self.limbs[2] == 0 && self.limbs[3] == 0
    }

    /// The sum of two values, or nothing where it does not fit in 256 bits.
    pub fn checked_add(self, other: U256) -> (sum: Option<U256>)
        ensures
            match sum {
                Some(total) => total@ == self@ + other@,
                None => self@ + other@ > u256_max(),
            },
    {
        match limbs_checked_add(self.limbs, other.limbs) {
            Some(limbs) => Some(U256 { limbs }),
            None => None,
        }
    }

    /// The difference of two values, or nothing where `other` is the larger.
    pub fn checked_sub(self, other: U256) -> (difference: Option<U256>)
        ensures
            match difference {
                Some(rest) => rest@ == self@ - other@,
                None => self@ < other@,
            },
    {
        let (d0, b0) = limb_sub(self.limbs[0], other.limbs[0], false);
        let (d1, b1) = limb_sub(self.limbs[1], other.limbs[1], b0);
        let (d2, b2) = limb_sub(self.limbs[2], other.limbs[2], b1);
        let (d3, b3) = limb_sub(self.limbs[3], other.limbs[3], b2);
        if b3 {
            None
        } else {
            let rest = U256 { limbs: [d0, d1, d2, d3] };
            assert(rest.limbs[0] == d0 && rest.limbs[1] == d1 && rest.limbs[2] == d2
                && rest.limbs[3] == d3);
            Some(rest)
        }
    }

    /// The value as an index, or nothing where it is too large for one.
    pub fn to_usize(&self) -> (index: Option<usize>)
        ensures
            match index {
                Some(i) => i == self@,
                None => self@ > usize::MAX,
            },
    {
        let low: u64 = self.limbs[0];
        if self.limbs[1] == 0 && self.limbs[2] == 0 && self.limbs[3] == 0
            && low <= usize::MAX as u64 {
            let index: usize = low as usize;
            assert(index == low);
            Some(index)
        } else {
            assert(self@ > usize::MAX);
            None
        }
    }
}

/// One limb of a subtraction: `a - b - borrow_in`, wrapped into 64 bits,
/// with the borrow that it passes on.
fn limb_sub(a: u64, b: u64, borrow_in: bool) -> (out: (u64, bool))
    ensures
        out.0 == a - b - (if borrow_in {
            1int
        } else {
            0int
        }) + (if out.1 {
            0x1_0000_0000_0000_0000int
        } else {
            0int
        }),
{
    let taken: u128 = b as u128 + if borrow_in { 1u128 } else { 0u128 };
    let have: u128 = a as u128;
    if have >= taken {
        ((have - taken) as u64, false)
    } else {
        ((have + 0x1_0000_0000_0000_0000u128 - taken) as u64, true)
    }
}

impl U256 {
    /// The bytes of the value: one byte that counts the bytes that follow,
    /// then the value's bytes, least significant first, up to and including
    /// the last one that is not zero. Zero is the single byte 0.
    pub open spec fn spec_bytes(self) -> Seq<u8> {
        let digits = trim_zeros(limbs_le_bytes(self.limbs));
        seq![digits.len() as u8] + digits
    }

    /// What reading a value from the front of `bytes` gives: the value and
    /// the bytes after it, or the reason why there is none. The first byte
    /// counts the bytes of the value; more than 32 are malformed.
    pub open spec fn spec_from_bytes(bytes: Seq<u8>) -> Result<(U256, Seq<u8>), CodecError> {
        if bytes.len() == 0 {
            Err(CodecError::EarlyEndOfStream)
        } else if bytes[0] > 32 {
            Err(CodecError::Formatting)
        } else if bytes.len() - 1 < bytes[0] {
            Err(CodecError::EarlyEndOfStream)
        } else {
            Ok(
                (
                    U256 {
                        limbs: limbs_from_le_bytes(pad_zeros(bytes.subrange(1, 1 + bytes[0]))),
                    },
                    bytes.skip(1 + bytes[0]),
                ),
            )
        }
    }

    /// Writes the value as bytes.
    pub fn to_bytes(&self) -> (out: Result<Vec<u8>, CodecError>)
        ensures
            out is Ok,
            out->Ok_0@ == self.spec_bytes(),
    {
        u256_to_bytes(self)
    }

    /// The number of bytes that [`U256::to_bytes`] writes.
    pub fn serialized_length(&self) -> (length: usize)
        ensures
            length == self.spec_bytes().len(),
            1 <= length <= 33,
    {
        proof {
            lemma_spec_bytes_length(*self);
        }
        u256_serialized_length(self)
    }

    /// Reads a value from the front of `bytes`, and hands back what follows it.
    pub fn from_bytes<'a>(bytes: &'a [u8]) -> (out: Result<(U256, &'a [u8]), CodecError>)
        ensures
            match out {
                Ok((value, rest)) => U256::spec_from_bytes(bytes@) == Ok::<
                    (U256, Seq<u8>),
                    CodecError,
                >((value, rest@)),
                Err(error) => U256::spec_from_bytes(bytes@) == Err::<
                    (U256, Seq<u8>),
                    CodecError,
                >(error),
            },
    {
        u256_from_bytes(bytes)
    }
}

/// `ToBytes::to_bytes` of casper_types for its `U256`: the count of
/// significant bytes, then those bytes, least significant first. It does not
/// fail.
#[verifier::external_body]
fn u256_to_bytes(value: &U256) -> (out: Result<Vec<u8>, CodecError>)
    ensures
        out is Ok,
        out->Ok_0@ == value.spec_bytes(),
{
    match casper_types::U256(value.limbs).to_bytes() {
        Ok(bytes) => Ok(bytes),
        Err(bytesrepr::Error::EarlyEndOfStream) => Err(CodecError::EarlyEndOfStream),
        Err(bytesrepr::Error::Formatting) => Err(CodecError::Formatting),
        Err(bytesrepr::Error::LeftOverBytes) => Err(CodecError::LeftOverBytes),
        Err(bytesrepr::Error::OutOfMemory) => Err(CodecError::OutOfMemory),
        Err(bytesrepr::Error::NotRepresentable) => Err(CodecError::NotRepresentable),
        Err(bytesrepr::Error::ExceededRecursionDepth) => Err(CodecError::ExceededRecursionDepth),
        Err(_) => Err(CodecError::Formatting),
    }
}

/// `ToBytes::serialized_length` of casper_types for its `U256`: one more
/// than the number of significant bytes.
#[verifier::external_body]
fn u256_serialized_length(value: &U256) -> (length: usize)
    ensures
        length == value.spec_bytes().len(),
{
    casper_types::U256(value.limbs).serialized_length()
}

/// `FromBytes::from_bytes` of casper_types for its `U256`: it reads the
/// count, refuses one above 32 as malformed, then reads that many bytes,
/// least significant first, and reports an early end where the input is
/// too short for either.
#[verifier::external_body]
fn u256_from_bytes<'a>(bytes: &'a [u8]) -> (out: Result<(U256, &'a [u8]), CodecError>)
    ensures
        match out {
            Ok((value, rest)) => U256::spec_from_bytes(bytes@) == Ok::<
                (U256, Seq<u8>),
                CodecError,
            >((value, rest@)),
            Err(error) => U256::spec_from_bytes(bytes@) == Err::<(U256, Seq<u8>), CodecError>(
                error,
            ),
        },
{
    match casper_types::U256::from_bytes(bytes) {
        Ok((value, rest)) => Ok((U256 { limbs: value.0 }, rest)),
        Err(bytesrepr::Error::EarlyEndOfStream) => Err(CodecError::EarlyEndOfStream),
        Err(bytesrepr::Error::Formatting) => Err(CodecError::Formatting),
        Err(bytesrepr::Error::LeftOverBytes) => Err(CodecError::LeftOverBytes),
        Err(bytesrepr::Error::OutOfMemory) => Err(CodecError::OutOfMemory),
        Err(bytesrepr::Error::NotRepresentable) => Err(CodecError::NotRepresentable),
        Err(bytesrepr::Error::ExceededRecursionDepth) => Err(CodecError::ExceededRecursionDepth),
        Err(_) => Err(CodecError::Formatting),
    }
}

/// Trimming takes nothing but zero bytes away, all of them from the end.
pub proof fn lemma_trim_zeros(bytes: Seq<u8>)
    ensures
        trim_zeros(bytes).len() <= bytes.len(),
        trim_zeros(bytes) == bytes.take(trim_zeros(bytes).len() as int),
        forall|i: int| trim_zeros(bytes).len() <= i < bytes.len() ==> bytes[i] == 0,
        trim_zeros(bytes).len() > 0 ==> trim_zeros(bytes).last() != 0,
    decreases bytes.len(),
{
    if bytes.len() > 0 && bytes.last() == 0 {
        lemma_trim_zeros(bytes.drop_last());
        let kept = trim_zeros(bytes).len() as int;
        assert(bytes.drop_last().take(kept) == bytes.take(kept));
        assert forall|i: int| kept <= i < bytes.len() implies bytes[i] == 0 by {
            if i < bytes.len() - 1 {
                assert(bytes[i] == bytes.drop_last()[i]);
            }
        }
    } else {
        assert(bytes.take(bytes.len() as int) == bytes);
    }
}

/// A value takes between one and 33 bytes.
pub proof fn lemma_spec_bytes_length(value: U256)
    ensures
        1 <= value.spec_bytes().len() <= 33,
        value.spec_bytes()[0] == value.spec_bytes().len() - 1,
{
    vstd::bytes::lemma_auto_spec_u64_to_from_le_bytes();
    lemma_trim_zeros(limbs_le_bytes(value.limbs));
}

/// Reading what was written gives the value back, and leaves what followed it.
pub proof fn lemma_u256_round_trip(value: U256, rest: Seq<u8>)
    ensures
        U256::spec_from_bytes(value.spec_bytes() + rest) == Ok::<(U256, Seq<u8>), CodecError>(
            (value, rest),
        ),
{
    vstd::bytes::lemma_auto_spec_u64_to_from_le_bytes();
    let full = limbs_le_bytes(value.limbs);
    let digits = trim_zeros(full);
    let bytes = value.spec_bytes() + rest;
    lemma_trim_zeros(full);
    lemma_spec_bytes_length(value);
    assert(bytes[0] == digits.len());
    assert(bytes.subrange(1, 1 + bytes[0]) == digits);
    assert(pad_zeros(digits) == full);
    assert(bytes.skip(1 + bytes[0]) == rest);
    assert(full.subrange(0, 8) == spec_u64_to_le_bytes(value.limbs[0]));
    assert(full.subrange(8, 16) == spec_u64_to_le_bytes(value.limbs[1]));
    assert(full.subrange(16, 24) == spec_u64_to_le_bytes(value.limbs[2]));
    assert(full.subrange(24, 32) == spec_u64_to_le_bytes(value.limbs[3]));
    assert(limbs_from_le_bytes(full) =~= value.limbs);
}

impl U256 {
    /// The 256-bit integer that stands for `number`, for a number that is
    /// not above the largest.
    pub open spec fn spec_from_nat(number: nat) -> U256 {
        U256 {
            limbs: [
                (number % pow64()) as u64,
                (number / pow64() % pow64()) as u64,
                (number / pow64() / pow64() % pow64()) as u64,
                (number / pow64() / pow64() / pow64() % pow64()) as u64,
            ],
        }
    }
}

/// Every number up to the largest is the value of exactly one 256-bit
/// integer.
pub proof fn lemma_from_nat(number: nat)
    requires
        number <= u256_max(),
    ensures
        U256::spec_from_nat(number)@ == number,
        forall|other: U256| other@ == number ==> other == U256::spec_from_nat(number),
{
    let value = U256::spec_from_nat(number);
    assert(value@ == number);
    assert forall|other: U256| other@ == number implies other == value by {
        lemma_value_determines_limbs(other, value);
    }
}

/// The character of a decimal digit.
pub open spec fn decimal_digit(digit: nat) -> char {
    if digit == 0 {
        '0'
    } else if digit == 1 {
        '1'
    } else if digit == 2 {
        '2'
    } else if digit == 3 {
        '3'
    } else if digit == 4 {
        '4'
    } else if digit == 5 {
        '5'
    } else if digit == 6 {
        '6'
    } else if digit == 7 {
        '7'
    } else if digit == 8 {
        '8'
    } else {
        '9'
    }
}

/// The decimal numeral of a number: its digits, most significant first,
/// without leading zeros; the numeral of zero is "0".
pub open spec fn decimal(number: nat) -> Seq<char>
    decreases number,
{
    if number < 10 {
        seq![decimal_digit(number)]
    } else {
        decimal(number / 10).push(decimal_digit(number % 10))
    }
}

/// `to_string` on casper_types' `U256`, which goes through the `Display` of
/// the `uint` crate: the decimal numeral of the value.
#[verifier::external_body]
fn u256_to_decimal(value: &U256) -> (text: String)
    ensures
        text@ == decimal(value@),
{
    casper_types::U256(value.limbs).to_string()
}

impl U256 {
    /// The decimal numeral of the value.
    pub fn to_decimal_string(&self) -> (text: String)
        ensures
            text@ == decimal(self@),
    {
        u256_to_decimal(self)
    }
}

/// Different numbers have different decimal numerals.
pub proof fn lemma_decimal_is_injective(a: nat, b: nat)
    requires
        decimal(a) == decimal(b),
    ensures
        a == b,
    decreases a,
{
    if a < 10 && b < 10 {
        assert(decimal(a)[0] == decimal_digit(a));
        assert(decimal(b)[0] == decimal_digit(b));
    } else if a < 10 {
        assert(decimal(b).len() >= 2) by {
            assert(decimal(b / 10).len() >= 1) by {
                lemma_decimal_is_not_empty(b / 10);
            }
        }
    } else if b < 10 {
        assert(decimal(a).len() >= 2) by {
            assert(decimal(a / 10).len() >= 1) by {
                lemma_decimal_is_not_empty(a / 10);
            }
        }
    } else {
        let head_a = decimal(a / 10);
        let head_b = decimal(b / 10);
        assert(decimal(a).last() == decimal_digit(a % 10));
        assert(decimal(b).last() == decimal_digit(b % 10));
        assert(a % 10 == b % 10);
        assert(decimal(a).drop_last() == head_a);
        assert(decimal(b).drop_last() == head_b);
        lemma_decimal_is_injective(a / 10, b / 10);
    }
}

/// A decimal numeral has at least one digit.
pub proof fn lemma_decimal_is_not_empty(number: nat)
    ensures
        decimal(number).len() >= 1,
    decreases number,
{
    if number >= 10 {
        lemma_decimal_is_not_empty(number / 10);
    }
}

} // verus!
