//! The byte layout of the two records, under which they are persisted.
//!
//! A record is the sequence of its fields in declaration order, each in the
//! layout of its type, with nothing between them. Only the identifier of a
//! workflow has a length that depends on its value.

use crate::account::AccountHash;
use crate::codec::{
    bool_byte, read_bool, read_hash, read_u64, read_u8, write_bool, write_hash, write_u64,
    write_u8, CodecError, BOOL_LENGTH, HASH_LENGTH, U64_LENGTH, U8_LENGTH,
};
use crate::uint::{lemma_u256_round_trip, U256};
use crate::workflow::{TransitionRecord, WorkflowData};
use vstd::bytes::{lemma_auto_spec_u64_to_from_le_bytes, spec_u64_from_le_bytes, spec_u64_to_le_bytes};
use vstd::prelude::*;

verus! {

/// The number of bytes of a workflow after its identifier.
pub open spec fn workflow_tail_length() -> nat {
    114
}

/// The number of bytes of a transition record.
pub open spec fn record_length() -> nat {
    82
}

impl WorkflowData {
    /// The bytes of the workflow.
    pub open spec fn spec_bytes(self) -> Seq<u8> {
        self.id.spec_bytes() + self.template_hash@ + self.data_hash@ + seq![self.current_state]
            + self.creator.0@ + spec_u64_to_le_bytes(self.created_at) + spec_u64_to_le_bytes(
            self.updated_at,
        ) + seq![bool_byte(self.is_completed)]
    }

    /// Why no workflow can be read from the front of `bytes`, if none can:
    /// the identifier cannot be read, fewer bytes than the other fields take
    /// follow it, or the last of them is no `bool`.
    pub open spec fn spec_decode_error(bytes: Seq<u8>) -> Option<CodecError> {
        match U256::spec_from_bytes(bytes) {
            Err(error) => Some(error),
            Ok((_, tail)) => if tail.len() < workflow_tail_length() {
                Some(CodecError::EarlyEndOfStream)
            } else if tail[113] > 1 {
                Some(CodecError::Formatting)
            } else {
                None
            },
        }
    }

    /// Tells whether this workflow is the one at the front of `bytes`, with
    /// `rest` after it.
    pub open spec fn decoded_from(self, bytes: Seq<u8>, rest: Seq<u8>) -> bool {
        &&& U256::spec_from_bytes(bytes) matches Ok((id, tail))
        &&& tail.len() >= workflow_tail_length()
        &&& self.id == id
        &&& self.template_hash@ == tail.subrange(0, 32)
        &&& self.data_hash@ == tail.subrange(32, 64)
        &&& self.current_state == tail[64]
        &&& self.creator.0@ == tail.subrange(65, 97)
        &&& self.created_at == spec_u64_from_le_bytes(tail.subrange(97, 105))
        &&& self.updated_at == spec_u64_from_le_bytes(tail.subrange(105, 113))
        &&& tail[113] == bool_byte(self.is_completed)
        &&& rest == tail.skip(114)
    }

    /// Writes the workflow as bytes.
    pub fn to_bytes(&self) -> (out: Result<Vec<u8>, CodecError>)
        ensures
            out is Ok,
            out->Ok_0@ == self.spec_bytes(),
    {
        let mut result = self.id.to_bytes()?;
        write_hash(&mut result, &self.template_hash);
        write_hash(&mut result, &self.data_hash);
        write_u8(&mut result, self.current_state);
        write_hash(&mut result, &self.creator.0);
        write_u64(&mut result, self.created_at);
        write_u64(&mut result, self.updated_at);
        write_bool(&mut result, self.is_completed);
        assert(result@ == self.spec_bytes());
        Ok(result)
    }

    /// The number of bytes that [`WorkflowData::to_bytes`] writes.
    pub fn serialized_length(&self) -> (length: usize)
        ensures
            length == self.spec_bytes().len(),
    {
        proof {
            lemma_auto_spec_u64_to_from_le_bytes();
        }
        self.id.serialized_length() + HASH_LENGTH + HASH_LENGTH + U8_LENGTH + HASH_LENGTH
            + U64_LENGTH + U64_LENGTH + BOOL_LENGTH
    }

    /// Reads a workflow from the front of `bytes`, and hands back what
    /// follows it.
    pub fn from_bytes<'a>(bytes: &'a [u8]) -> (out: Result<(WorkflowData, &'a [u8]), CodecError>)
        ensures
            match out {
                Ok((workflow, rest)) => WorkflowData::spec_decode_error(bytes@) is None
                    && workflow.decoded_from(bytes@, rest@),
                Err(error) => WorkflowData::spec_decode_error(bytes@) == Some(error),
            },
    {
        let (id, remainder) = U256::from_bytes(bytes)?;
        let ghost tail = remainder@;
        let (template_hash, remainder) = read_hash(remainder)?;
        let (data_hash, remainder) = read_hash(remainder)?;
        let (current_state, remainder) = read_u8(remainder)?;
        let (creator, remainder) = read_hash(remainder)?;
        let (created_at, remainder) = read_u64(remainder)?;
        let (updated_at, remainder) = read_u64(remainder)?;
        let (is_completed, remainder) = read_bool(remainder)?;
        let workflow = WorkflowData {
            id,
            template_hash,
            data_hash,
            current_state,
            creator: AccountHash::new(creator),
            created_at,
            updated_at,
            is_completed,
        };
        proof {
            assert(tail.skip(32).take(32) == tail.subrange(32, 64));
            assert(tail.skip(32).skip(32).skip(1).take(32) == tail.subrange(65, 97));
            assert(tail.skip(32).skip(32).skip(1).skip(32).take(8) == tail.subrange(97, 105));
            assert(tail.skip(32).skip(32).skip(1).skip(32).skip(8).take(8) == tail.subrange(
                105,
                113,
            ));
            assert(tail.skip(32).skip(32).skip(1).skip(32).skip(8).skip(8).skip(1) == tail.skip(
                114,
            ));
            assert(tail.take(32) == tail.subrange(0, 32));
        }
        Ok((workflow, remainder))
    }
}

impl TransitionRecord {
    /// The bytes of the record.
    pub open spec fn spec_bytes(self) -> Seq<u8> {
        seq![self.from_state] + seq![self.to_state] + self.actor.0@ + spec_u64_to_le_bytes(
            self.actor_role,
        ) + spec_u64_to_le_bytes(self.timestamp) + self.comment_hash@
    }

    /// Why no record can be read from the front of `bytes`, if none can:
    /// there are fewer bytes than a record takes.
    pub open spec fn spec_decode_error(bytes: Seq<u8>) -> Option<CodecError> {
        if bytes.len() < record_length() {
            Some(CodecError::EarlyEndOfStream)
        } else {
            None
        }
    }

    /// Tells whether this record is the one at the front of `bytes`, with
    /// `rest` after it.
    pub open spec fn decoded_from(self, bytes: Seq<u8>, rest: Seq<u8>) -> bool {
        &&& bytes.len() >= record_length()
        &&& self.from_state == bytes[0]
        &&& self.to_state == bytes[1]
        &&& self.actor.0@ == bytes.subrange(2, 34)
        &&& self.actor_role == spec_u64_from_le_bytes(bytes.subrange(34, 42))
        &&& self.timestamp == spec_u64_from_le_bytes(bytes.subrange(42, 50))
        &&& self.comment_hash@ == bytes.subrange(50, 82)
        &&& rest == bytes.skip(82)
    }

    /// Writes the record as bytes.
    pub fn to_bytes(&self) -> (out: Result<Vec<u8>, CodecError>)
        ensures
            out is Ok,
            out->Ok_0@ == self.spec_bytes(),
    {
        let mut result = Vec::new();
        write_u8(&mut result, self.from_state);
        write_u8(&mut result, self.to_state);
        write_hash(&mut result, &self.actor.0);
        write_u64(&mut result, self.actor_role);
        write_u64(&mut result, self.timestamp);
        write_hash(&mut result, &self.comment_hash);
        assert(result@ == self.spec_bytes());
        Ok(result)
    }

    /// The number of bytes that [`TransitionRecord::to_bytes`] writes.
    pub fn serialized_length(&self) -> (length: usize)
        ensures
            length == self.spec_bytes().len(),
            length == record_length(),
    {
        proof {
            lemma_auto_spec_u64_to_from_le_bytes();
        }
        U8_LENGTH + U8_LENGTH + HASH_LENGTH + U64_LENGTH + U64_LENGTH + HASH_LENGTH
    }

    /// Reads a record from the front of `bytes`, and hands back what follows
    /// it.
    pub fn from_bytes<'a>(bytes: &'a [u8]) -> (out: Result<
        (TransitionRecord, &'a [u8]),
        CodecError,
    >)
        ensures
            match out {
                Ok((record, rest)) => TransitionRecord::spec_decode_error(bytes@) is None
                    && record.decoded_from(bytes@, rest@),
                Err(error) => TransitionRecord::spec_decode_error(bytes@) == Some(error),
            },
    {
        let ghost all = bytes@;
        let (from_state, remainder) = read_u8(bytes)?;
        let (to_state, remainder) = read_u8(remainder)?;
        let (actor, remainder) = read_hash(remainder)?;
        let (actor_role, remainder) = read_u64(remainder)?;
        let (timestamp, remainder) = read_u64(remainder)?;
        let (comment_hash, remainder) = read_hash(remainder)?;
        let record = TransitionRecord {
            from_state,
            to_state,
            actor: AccountHash::new(actor),
            actor_role,
            timestamp,
            comment_hash,
        };
        proof {
            assert(all.skip(1).skip(1).take(32) == all.subrange(2, 34));
            assert(all.skip(1).skip(1).skip(32).take(8) == all.subrange(34, 42));
            assert(all.skip(1).skip(1).skip(32).skip(8).take(8) == all.subrange(42, 50));
            assert(all.skip(1).skip(1).skip(32).skip(8).skip(8).take(32) == all.subrange(50, 82));
            assert(all.skip(1).skip(1).skip(32).skip(8).skip(8).skip(32) == all.skip(82));
        }
        Ok((record, remainder))
    }
}

/// Reading the bytes of a workflow gives the workflow back, and leaves what
/// followed them.
pub proof fn lemma_workflow_round_trip(workflow: WorkflowData, rest: Seq<u8>)
    ensures
        WorkflowData::spec_decode_error(workflow.spec_bytes() + rest) is None,
        workflow.decoded_from(workflow.spec_bytes() + rest, rest),
{
    lemma_auto_spec_u64_to_from_le_bytes();
    let tail = workflow.template_hash@ + workflow.data_hash@ + seq![workflow.current_state]
        + workflow.creator.0@ + spec_u64_to_le_bytes(workflow.created_at) + spec_u64_to_le_bytes(
        workflow.updated_at,
    ) + seq![bool_byte(workflow.is_completed)];
    assert(workflow.spec_bytes() + rest == workflow.id.spec_bytes() + (tail + rest));
    lemma_u256_round_trip(workflow.id, tail + rest);
    let after = tail + rest;
    assert(after.subrange(0, 32) == workflow.template_hash@);
    assert(after.subrange(32, 64) == workflow.data_hash@);
    assert(after.subrange(65, 97) == workflow.creator.0@);
    assert(after.subrange(97, 105) == spec_u64_to_le_bytes(workflow.created_at));
    assert(after.subrange(105, 113) == spec_u64_to_le_bytes(workflow.updated_at));
    assert(after.skip(114) == rest);
}

/// Reading the bytes of a record gives the record back, and leaves what
/// followed them.
pub proof fn lemma_record_round_trip(record: TransitionRecord, rest: Seq<u8>)
    ensures
        TransitionRecord::spec_decode_error(record.spec_bytes() + rest) is None,
        record.decoded_from(record.spec_bytes() + rest, rest),
{
    lemma_auto_spec_u64_to_from_le_bytes();
    let all = record.spec_bytes() + rest;
    assert(all.subrange(2, 34) == record.actor.0@);
    assert(all.subrange(34, 42) == spec_u64_to_le_bytes(record.actor_role));
    assert(all.subrange(42, 50) == spec_u64_to_le_bytes(record.timestamp));
    assert(all.subrange(50, 82) == record.comment_hash@);
    assert(all.skip(82) == rest);
}

/// Two workflows read from the same bytes are the same workflow: the layout
/// leaves nothing open.
pub proof fn lemma_workflow_decoding_is_unique(
    a: WorkflowData,
    b: WorkflowData,
    bytes: Seq<u8>,
    rest_a: Seq<u8>,
    rest_b: Seq<u8>,
)
    requires
        a.decoded_from(bytes, rest_a),
        b.decoded_from(bytes, rest_b),
    ensures
        a == b,
        rest_a == rest_b,
{
    assert(a.template_hash =~= b.template_hash);
    assert(a.data_hash =~= b.data_hash);
    assert(a.creator.0 =~= b.creator.0);
}

/// Two records read from the same bytes are the same record.
pub proof fn lemma_record_decoding_is_unique(
    a: TransitionRecord,
    b: TransitionRecord,
    bytes: Seq<u8>,
    rest_a: Seq<u8>,
    rest_b: Seq<u8>,
)
    requires
        a.decoded_from(bytes, rest_a),
        b.decoded_from(bytes, rest_b),
    ensures
        a == b,
        rest_a == rest_b,
{
    assert(a.actor.0 =~= b.actor.0);
    assert(a.comment_hash =~= b.comment_hash);
}

} // verus!
