//! The byte layout of the scalar fields of a record.
//!
//! Every field is written without padding and without a tag: a `u8` and a
//! `bool` as one byte, a `u64` as eight bytes, least significant first, and a
//! 32-byte hash as it stands. A decoder takes its field from the front of the
//! input and hands back what follows.

use vstd::bytes::{spec_u64_from_le_bytes, spec_u64_to_le_bytes, u64_from_le_bytes, u64_to_le_bytes};
use vstd::prelude::*;
use vstd::slice::slice_subrange;

verus! {

/// Why bytes could not be written or read.
#[derive(Clone, Copy, Debug, PartialEq, Eq, Structural)]
pub enum CodecError {
    /// The input ended before the value did.
    EarlyEndOfStream,
    /// The input does not have the form of the value.
    Formatting,
    /// Input was left over after the value.
    LeftOverBytes,
    /// Memory ran out.
    OutOfMemory,
    /// The value has no representation in bytes.
    NotRepresentable,
    /// The value is nested too deeply.
    ExceededRecursionDepth,
}

/// The length in bytes of a `u8` field.
pub const U8_LENGTH: usize = 1;

/// The length in bytes of a `bool` field.
pub const BOOL_LENGTH: usize = 1;

/// The length in bytes of a `u64` field.
pub const U64_LENGTH: usize = 8;

/// The length in bytes of a hash field.
pub const HASH_LENGTH: usize = 32;

/// The byte that stands for a `bool`.
pub open spec fn bool_byte(flag: bool) -> u8 {
    if flag {
        1
    } else {
        0
    }
}

/// Appends the one byte of `value`.
pub fn write_u8(out: &mut Vec<u8>, value: u8)
    ensures
        final(out)@ == old(out)@.push(value),
{
    out.push(value);
}

/// Appends the one byte of `flag`: 1 for true, 0 for false.
pub fn write_bool(out: &mut Vec<u8>, flag: bool)
    ensures
        final(out)@ == old(out)@.push(bool_byte(flag)),
{
    out.push(if flag { 1u8 } else { 0u8 });
}

/// Appends the eight bytes of `value`, least significant first.
pub fn write_u64(out: &mut Vec<u8>, value: u64)
    ensures
        final(out)@ == old(out)@ + spec_u64_to_le_bytes(value),
{
    let mut bytes = u64_to_le_bytes(value);
    out.append(&mut bytes);
}

/// Appends the 32 bytes of `hash` as they stand.
pub fn write_hash(out: &mut Vec<u8>, hash: &[u8; 32])
    ensures
        final(out)@ == old(out)@ + hash@,
{
    let mut i: usize = 0;
    while i < 32
        invariant
            i <= 32,
            out@ == old(out)@ + hash@.take(i as int),
        decreases 32 - i,
    {
        out.push(hash[i]);
        i += 1;
        assert(hash@.take(i as int) == hash@.take(i - 1).push(hash@[i - 1]));
    }
    assert(hash@.take(32) == hash@);
}

/// Takes a `u8` from the front of `bytes`.
pub fn read_u8<'a>(bytes: &'a [u8]) -> (out: Result<(u8, &'a [u8]), CodecError>)
    ensures
        match out {
            Ok((value, rest)) => bytes@.len() >= 1 && value == bytes@[0] && rest@ == bytes@.skip(1),
            Err(error) => bytes@.len() == 0 && error == CodecError::EarlyEndOfStream,
        },
{
    if bytes.len() < 1 {
        return Err(CodecError::EarlyEndOfStream);
    }
    let rest = slice_subrange(bytes, 1, bytes.len());
    Ok((bytes[0], rest))
}

/// Takes a `bool` from the front of `bytes`: the byte 1 is true, the byte 0
/// is false, and any other byte is malformed.
pub fn read_bool<'a>(bytes: &'a [u8]) -> (out: Result<(bool, &'a [u8]), CodecError>)
    ensures
        match out {
            Ok((flag, rest)) => bytes@.len() >= 1 && bytes@[0] == bool_byte(flag) && rest@
                == bytes@.skip(1),
            Err(error) => if bytes@.len() == 0 {
                error == CodecError::EarlyEndOfStream
            } else {
                bytes@[0] > 1 && error == CodecError::Formatting
            },
        },
{
    if bytes.len() < 1 {
        return Err(CodecError::EarlyEndOfStream);
    }
    let rest = slice_subrange(bytes, 1, bytes.len());
    let byte = bytes[0];
    if byte == 1 {
        Ok((true, rest))
    } else if byte == 0 {
        Ok((false, rest))
    } else {
        Err(CodecError::Formatting)
    }
}

/// Takes a `u64` from the front of `bytes`: eight bytes, least significant
/// first.
pub fn read_u64<'a>(bytes: &'a [u8]) -> (out: Result<(u64, &'a [u8]), CodecError>)
    ensures
        match out {
            Ok((value, rest)) => bytes@.len() >= 8 && value == spec_u64_from_le_bytes(
                bytes@.take(8),
            ) && rest@ == bytes@.skip(8),
            Err(error) => bytes@.len() < 8 && error == CodecError::EarlyEndOfStream,
        },
{
    if bytes.len() < 8 {
        return Err(CodecError::EarlyEndOfStream);
    }
    let head = slice_subrange(bytes, 0, 8);
    let rest = slice_subrange(bytes, 8, bytes.len());
    Ok((u64_from_le_bytes(head), rest))
}

/// Takes a 32-byte hash from the front of `bytes`.
pub fn read_hash<'a>(bytes: &'a [u8]) -> (out: Result<([u8; 32], &'a [u8]), CodecError>)
    ensures
        match out {
            Ok((hash, rest)) => bytes@.len() >= 32 && hash@ == bytes@.take(32) && rest@
                == bytes@.skip(32),
            Err(error) => bytes@.len() < 32 && error == CodecError::EarlyEndOfStream,
        },
{
    if bytes.len() < 32 {
        return Err(CodecError::EarlyEndOfStream);
    }
    let mut hash = [0u8; 32];
    let mut i: usize = 0;
    while i < 32
        invariant
            i <= 32,
            bytes@.len() >= 32,
            forall|k: int| 0 <= k < i ==> hash@[k] == bytes@[k],
        decreases 32 - i,
    {
        hash[i] = bytes[i];
        i += 1;
    }
    assert(hash@ =~= bytes@.take(32));
    let rest = slice_subrange(bytes, 32, bytes.len());
    Ok((hash, rest))
}

} // verus!
