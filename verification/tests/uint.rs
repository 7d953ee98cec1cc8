use casper_types::bytesrepr::{FromBytes, ToBytes};
use workflow_contract::codec::CodecError;
use workflow_contract::uint::U256;

fn samples() -> Vec<[u64; 4]> {
    vec![
        [0, 0, 0, 0],
        [1, 0, 0, 0],
        [255, 0, 0, 0],
        [256, 0, 0, 0],
        [u64::MAX, 0, 0, 0],
        [0, 1, 0, 0],
        [0x0102030405060708, 0x1112131415161718, 0, 0],
        [0, 0, 0x00ff_0000_0000_0000, 0],
        [7, 0, 0, 1],
        [u64::MAX, u64::MAX, u64::MAX, u64::MAX - 1],
        [u64::MAX, u64::MAX, u64::MAX, u64::MAX],
    ]
}

#[test]
fn zero_one_and_max() {
    assert_eq!(U256::zero().limbs, [0, 0, 0, 0]);
    assert_eq!(U256::one().limbs, [1, 0, 0, 0]);
    assert_eq!(U256::max_value().limbs, [u64::MAX; 4]);
    assert_eq!(U256::from_u64(42).limbs, [42, 0, 0, 0]);
    assert!(U256::zero().is_zero());
    assert!(!U256::one().is_zero());
    assert!(!U256 { limbs: [0, 0, 0, 1] }.is_zero());
    assert_eq!(casper_types::U256::zero().0, U256::zero().limbs);
    assert_eq!(casper_types::U256::one().0, U256::one().limbs);
    assert_eq!(casper_types::U256::MAX.0, U256::max_value().limbs);
}

#[test]
fn equality_is_by_value() {
    assert_eq!(U256::from_u64(5), U256 { limbs: [5, 0, 0, 0] });
    assert_ne!(U256::from_u64(5), U256 { limbs: [5, 0, 0, 1] });
    assert_ne!(U256::from_u64(5), U256::from_u64(6));
}

#[test]
fn checked_add_carries_between_limbs() {
    let sum = U256::from_u64(u64::MAX).checked_add(U256::one());
    assert_eq!(sum, Some(U256 { limbs: [0, 1, 0, 0] }));
    let sum = U256 { limbs: [u64::MAX, u64::MAX, u64::MAX, 0] }.checked_add(U256::one());
    assert_eq!(sum, Some(U256 { limbs: [0, 0, 0, 1] }));
    let sum = U256::from_u64(40).checked_add(U256::from_u64(2));
    assert_eq!(sum, Some(U256::from_u64(42)));
}

#[test]
fn checked_add_refuses_overflow() {
    assert_eq!(U256::max_value().checked_add(U256::one()), None);
    assert_eq!(U256::max_value().checked_add(U256::max_value()), None);
    assert_eq!(U256::max_value().checked_add(U256::zero()), Some(U256::max_value()));
}

#[test]
fn checked_sub_borrows_between_limbs() {
    let rest = U256 { limbs: [0, 1, 0, 0] }.checked_sub(U256::one());
    assert_eq!(rest, Some(U256::from_u64(u64::MAX)));
    let rest = U256 { limbs: [0, 0, 0, 1] }.checked_sub(U256::one());
    assert_eq!(rest, Some(U256 { limbs: [u64::MAX, u64::MAX, u64::MAX, 0] }));
    assert_eq!(U256::from_u64(7).checked_sub(U256::from_u64(7)), Some(U256::zero()));
    assert_eq!(U256::from_u64(7).checked_sub(U256::from_u64(8)), None);
    assert_eq!(U256::zero().checked_sub(U256::max_value()), None);
}

#[test]
fn arithmetic_agrees_with_casper_types() {
    for a in samples() {
        for b in samples() {
            let ours = U256 { limbs: a }.checked_add(U256 { limbs: b }).map(|v| v.limbs);
            let theirs = casper_types::U256(a).checked_add(casper_types::U256(b)).map(|v| v.0);
            assert_eq!(ours, theirs);
            let ours = U256 { limbs: a }.checked_sub(U256 { limbs: b }).map(|v| v.limbs);
            let theirs = casper_types::U256(a).checked_sub(casper_types::U256(b)).map(|v| v.0);
            assert_eq!(ours, theirs);
        }
    }
}

#[test]
fn to_usize_takes_what_fits() {
    assert_eq!(U256::from_u64(17).to_usize(), Some(17));
    assert_eq!(U256::zero().to_usize(), Some(0));
    assert_eq!(U256 { limbs: [0, 1, 0, 0] }.to_usize(), None);
    assert_eq!(U256::max_value().to_usize(), None);
}

#[test]
fn bytes_of_small_values() {
    assert_eq!(U256::zero().to_bytes(), Ok(vec![0]));
    assert_eq!(U256::one().to_bytes(), Ok(vec![1, 1]));
    assert_eq!(U256::from_u64(255).to_bytes(), Ok(vec![1, 255]));
    assert_eq!(U256::from_u64(256).to_bytes(), Ok(vec![2, 0, 1]));
    assert_eq!(U256::from_u64(0x0102).to_bytes(), Ok(vec![2, 2, 1]));
    assert_eq!(U256 { limbs: [0, 1, 0, 0] }.to_bytes(), Ok(vec![9, 0, 0, 0, 0, 0, 0, 0, 0, 1]));
}

#[test]
fn bytes_of_the_largest_value() {
    let mut expected: Vec<u8> = vec![32];
    expected.extend([0xffu8; 32]);
    assert_eq!(U256::max_value().to_bytes(), Ok(expected));
    assert_eq!(U256::max_value().serialized_length(), 33);
}

#[test]
fn serialized_length_counts_the_bytes() {
    for limbs in samples() {
        let value = U256 { limbs };
        assert_eq!(value.serialized_length(), value.to_bytes().unwrap().len());
    }
    assert_eq!(U256::zero().serialized_length(), 1);
    assert_eq!(U256::from_u64(256).serialized_length(), 3);
}

#[test]
fn bytes_agree_with_casper_types() {
    for limbs in samples() {
        let ours = U256 { limbs }.to_bytes().unwrap();
        let theirs = casper_types::U256(limbs).to_bytes().unwrap();
        assert_eq!(ours, theirs);
    }
}

#[test]
fn from_bytes_reads_back_what_was_written() {
    for limbs in samples() {
        let value = U256 { limbs };
        let mut bytes = value.to_bytes().unwrap();
        bytes.extend([9u8, 8, 7]);
        let (read, rest) = U256::from_bytes(&bytes).unwrap();
        assert_eq!(read, value);
        assert_eq!(rest, &[9u8, 8, 7]);
    }
}

#[test]
fn from_bytes_takes_padded_values() {
    let (read, rest) = U256::from_bytes(&[3, 5, 0, 0, 77]).unwrap();
    assert_eq!(read, U256::from_u64(5));
    assert_eq!(rest, &[77u8]);
    let (read, rest) = U256::from_bytes(&[0]).unwrap();
    assert_eq!(read, U256::zero());
    assert!(rest.is_empty());
}

#[test]
fn from_bytes_refuses_bad_input() {
    assert_eq!(U256::from_bytes(&[]), Err(CodecError::EarlyEndOfStream));
    assert_eq!(U256::from_bytes(&[33]), Err(CodecError::Formatting));
    assert_eq!(U256::from_bytes(&[255, 1, 2]), Err(CodecError::Formatting));
    assert_eq!(U256::from_bytes(&[2, 1]), Err(CodecError::EarlyEndOfStream));
    assert_eq!(U256::from_bytes(&[32, 1, 2, 3]), Err(CodecError::EarlyEndOfStream));
    let mut full: Vec<u8> = vec![32];
    full.extend([1u8; 32]);
    assert!(U256::from_bytes(&full).is_ok());
}

#[test]
fn from_bytes_agrees_with_casper_types() {
    let inputs: Vec<Vec<u8>> = vec![
        vec![],
        vec![0],
        vec![1],
        vec![1, 200, 3],
        vec![4, 1, 2, 3, 4, 5],
        vec![33, 0],
        vec![9, 1, 2, 3, 4, 5, 6, 7, 8, 9, 10, 11],
    ];
    for input in inputs {
        let ours = U256::from_bytes(&input).map(|(v, rest)| (v.limbs, rest.to_vec()));
        let theirs = casper_types::U256::from_bytes(&input).map(|(v, rest)| (v.0, rest.to_vec()));
        match (ours, theirs) {
            (Ok(a), Ok(b)) => assert_eq!(a, b),
            (Err(CodecError::EarlyEndOfStream), Err(casper_types::bytesrepr::Error::EarlyEndOfStream)) => {}
            (Err(CodecError::Formatting), Err(casper_types::bytesrepr::Error::Formatting)) => {}
            (a, b) => panic!("{:?} against {:?}", a, b),
        }
    }
}

#[test]
fn decimal_numerals() {
    assert_eq!(U256::zero().to_decimal_string(), "0");
    assert_eq!(U256::from_u64(7).to_decimal_string(), "7");
    assert_eq!(U256::from_u64(10).to_decimal_string(), "10");
    assert_eq!(U256::from_u64(12345).to_decimal_string(), "12345");
    assert_eq!(U256 { limbs: [0, 1, 0, 0] }.to_decimal_string(), "18446744073709551616");
    assert_eq!(
        U256::max_value().to_decimal_string(),
        "115792089237316195423570985008687907853269984665640564039457584007913129639935"
    );
}
