use casper_types::bytesrepr::ToBytes;
use workflow_contract::account::AccountHash;
use workflow_contract::codec::CodecError;
use workflow_contract::error::WorkflowError;
use workflow_contract::states::{APPROVED, DRAFT, ESCALATED, PENDING_REVIEW};
use workflow_contract::uint::U256;
use workflow_contract::workflow::{TransitionRecord, WorkflowData};

fn hash(seed: u8) -> [u8; 32] {
    let mut bytes = [0u8; 32];
    for (i, byte) in bytes.iter_mut().enumerate() {
        *byte = seed.wrapping_add(i as u8);
    }
    bytes
}

fn sample_workflow() -> WorkflowData {
    WorkflowData {
        id: U256::from_u64(0x0203),
        template_hash: hash(10),
        data_hash: hash(50),
        current_state: ESCALATED,
        creator: AccountHash::new(hash(90)),
        created_at: 0x0102030405060708,
        updated_at: 0x1112131415161718,
        is_completed: false,
    }
}

fn sample_record() -> TransitionRecord {
    TransitionRecord {
        from_state: PENDING_REVIEW,
        to_state: APPROVED,
        actor: AccountHash::new(hash(7)),
        actor_role: 6,
        timestamp: 0x0102030405060708,
        comment_hash: hash(200),
    }
}

#[test]
fn new_workflow_is_a_draft() {
    let workflow = WorkflowData::new(U256::from_u64(9), hash(1), hash(2), AccountHash::new(hash(3)), 77);
    assert_eq!(workflow.id, U256::from_u64(9));
    assert_eq!(workflow.template_hash, hash(1));
    assert_eq!(workflow.data_hash, hash(2));
    assert_eq!(workflow.current_state, DRAFT);
    assert_eq!(workflow.creator, AccountHash::new(hash(3)));
    assert_eq!(workflow.created_at, 77);
    assert_eq!(workflow.updated_at, 77);
    assert!(!workflow.is_completed);
}

#[test]
fn accepted_move_gives_workflow_and_record() {
    let workflow = WorkflowData::new(U256::from_u64(9), hash(1), hash(2), AccountHash::new(hash(3)), 77);
    let actor = AccountHash::new(hash(4));
    let (moved, record) = workflow.transition(PENDING_REVIEW, 5, hash(6), actor, 80).unwrap();
    assert_eq!(
        moved,
        WorkflowData { current_state: PENDING_REVIEW, updated_at: 80, is_completed: false, ..workflow }
    );
    assert_eq!(
        record,
        TransitionRecord {
            from_state: DRAFT,
            to_state: PENDING_REVIEW,
            actor,
            actor_role: 5,
            timestamp: 80,
            comment_hash: hash(6),
        }
    );
    let (done, record) = moved.transition(APPROVED, 2, hash(8), actor, 81).unwrap();
    assert!(done.is_completed);
    assert_eq!(done.current_state, APPROVED);
    assert_eq!(done.created_at, 77);
    assert_eq!(record.from_state, PENDING_REVIEW);
}

#[test]
fn refused_moves_name_their_reason() {
    let workflow = WorkflowData::new(U256::from_u64(9), hash(1), hash(2), AccountHash::new(hash(3)), 77);
    let actor = AccountHash::new(hash(4));
    assert_eq!(workflow.transition(APPROVED, 5, hash(6), actor, 80), Err(WorkflowError::InvalidTransition));
    assert_eq!(workflow.transition(DRAFT, 5, hash(6), actor, 80), Err(WorkflowError::InvalidTransition));
    assert_eq!(workflow.transition(100, 5, hash(6), actor, 80), Err(WorkflowError::InvalidTransition));
    let done = WorkflowData { current_state: APPROVED, is_completed: true, ..workflow };
    assert_eq!(done.transition(PENDING_REVIEW, 5, hash(6), actor, 80), Err(WorkflowError::WorkflowAlreadyCompleted));
    assert_eq!(done.transition(APPROVED, 5, hash(6), actor, 80), Err(WorkflowError::WorkflowAlreadyCompleted));
}

#[test]
fn account_hash_keeps_its_bytes() {
    assert_eq!(AccountHash::new(hash(3)).value(), hash(3));
    assert_eq!(AccountHash::new(hash(3)).0, hash(3));
}

#[test]
fn workflow_bytes_are_the_fields_in_order() {
    let workflow = sample_workflow();
    let mut expected: Vec<u8> = vec![2, 0x03, 0x02];
    expected.extend(hash(10));
    expected.extend(hash(50));
    expected.push(20);
    expected.extend(hash(90));
    expected.extend([0x08, 0x07, 0x06, 0x05, 0x04, 0x03, 0x02, 0x01]);
    expected.extend([0x18, 0x17, 0x16, 0x15, 0x14, 0x13, 0x12, 0x11]);
    expected.push(0);
    assert_eq!(workflow.to_bytes(), Ok(expected));
    assert_eq!(workflow.serialized_length(), 3 + 114);
}

#[test]
fn completed_flag_is_one_byte() {
    let workflow = WorkflowData { is_completed: true, ..sample_workflow() };
    let bytes = workflow.to_bytes().unwrap();
    assert_eq!(bytes[bytes.len() - 1], 1);
}

#[test]
fn workflow_bytes_agree_with_casper_types() {
    let workflow = WorkflowData { is_completed: true, id: U256 { limbs: [5, 6, 0, 7] }, ..sample_workflow() };
    let mut expected: Vec<u8> = Vec::new();
    expected.extend(casper_types::U256(workflow.id.limbs).to_bytes().unwrap());
    expected.extend(workflow.template_hash.to_bytes().unwrap());
    expected.extend(workflow.data_hash.to_bytes().unwrap());
    expected.extend(workflow.current_state.to_bytes().unwrap());
    expected.extend(casper_types::account::AccountHash::new(workflow.creator.0).to_bytes().unwrap());
    expected.extend(workflow.created_at.to_bytes().unwrap());
    expected.extend(workflow.updated_at.to_bytes().unwrap());
    expected.extend(workflow.is_completed.to_bytes().unwrap());
    assert_eq!(workflow.to_bytes().unwrap(), expected);
    assert_eq!(workflow.serialized_length(), expected.len());
}

#[test]
fn workflow_reads_back() {
    for workflow in [
        sample_workflow(),
        WorkflowData { id: U256::zero(), is_completed: true, ..sample_workflow() },
        WorkflowData { id: U256::max_value(), created_at: u64::MAX, updated_at: 0, ..sample_workflow() },
    ] {
        let mut bytes = workflow.to_bytes().unwrap();
        assert_eq!(bytes.len(), workflow.serialized_length());
        bytes.extend([1u8, 2, 3]);
        let (read, rest) = WorkflowData::from_bytes(&bytes).unwrap();
        assert_eq!(read, workflow);
        assert_eq!(rest, &[1u8, 2, 3]);
    }
}

#[test]
fn short_workflow_bytes_end_early() {
    let bytes = sample_workflow().to_bytes().unwrap();
    for len in 0..bytes.len() {
        assert_eq!(WorkflowData::from_bytes(&bytes[..len]), Err(CodecError::EarlyEndOfStream), "{}", len);
    }
    assert!(WorkflowData::from_bytes(&bytes).is_ok());
}

#[test]
fn malformed_workflow_bytes_are_refused() {
    let mut bytes = sample_workflow().to_bytes().unwrap();
    let last = bytes.len() - 1;
    bytes[last] = 2;
    assert_eq!(WorkflowData::from_bytes(&bytes), Err(CodecError::Formatting));
    let mut bytes = sample_workflow().to_bytes().unwrap();
    bytes[0] = 33;
    assert_eq!(WorkflowData::from_bytes(&bytes), Err(CodecError::Formatting));
}

#[test]
fn record_bytes_are_the_fields_in_order() {
    let record = sample_record();
    let mut expected: Vec<u8> = vec![1, 10];
    expected.extend(hash(7));
    expected.extend([6, 0, 0, 0, 0, 0, 0, 0]);
    expected.extend([0x08, 0x07, 0x06, 0x05, 0x04, 0x03, 0x02, 0x01]);
    expected.extend(hash(200));
    assert_eq!(expected.len(), 82);
    assert_eq!(record.to_bytes(), Ok(expected));
    assert_eq!(record.serialized_length(), 82);
}

#[test]
fn record_bytes_agree_with_casper_types() {
    let record = sample_record();
    let mut expected: Vec<u8> = Vec::new();
    expected.extend(record.from_state.to_bytes().unwrap());
    expected.extend(record.to_state.to_bytes().unwrap());
    expected.extend(casper_types::account::AccountHash::new(record.actor.0).to_bytes().unwrap());
    expected.extend(record.actor_role.to_bytes().unwrap());
    expected.extend(record.timestamp.to_bytes().unwrap());
    expected.extend(record.comment_hash.to_bytes().unwrap());
    assert_eq!(record.to_bytes().unwrap(), expected);
}

#[test]
fn record_reads_back() {
    let record = sample_record();
    let mut bytes = record.to_bytes().unwrap();
    bytes.extend([42u8]);
    let (read, rest) = TransitionRecord::from_bytes(&bytes).unwrap();
    assert_eq!(read, record);
    assert_eq!(rest, &[42u8]);
}

#[test]
fn short_record_bytes_end_early() {
    let bytes = sample_record().to_bytes().unwrap();
    for len in 0..bytes.len() {
        assert_eq!(TransitionRecord::from_bytes(&bytes[..len]), Err(CodecError::EarlyEndOfStream));
    }
    assert!(TransitionRecord::from_bytes(&bytes).is_ok());
}

#[test]
fn two_records_read_one_after_the_other() {
    let first = sample_record();
    let second = TransitionRecord { from_state: DRAFT, to_state: PENDING_REVIEW, ..sample_record() };
    let mut bytes = first.to_bytes().unwrap();
    bytes.extend(second.to_bytes().unwrap());
    let (read, rest) = TransitionRecord::from_bytes(&bytes).unwrap();
    assert_eq!(read, first);
    let (read, rest) = TransitionRecord::from_bytes(rest).unwrap();
    assert_eq!(read, second);
    assert!(rest.is_empty());
}
