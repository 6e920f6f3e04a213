use gmsol::small_vec::{cautious, deserialize, serialize, CodecError, LengthPrefix, SmallVec};

#[test]
fn a_small_vec_is_a_vec() {
    let small: SmallVec<u32> = vec![1, 2, 3].into();
    assert_eq!(small.len(), 3);
    assert!(!small.is_empty());
    let back: Vec<u32> = small.into();
    assert_eq!(back, vec![1, 2, 3]);
    let empty: SmallVec<u32> = SmallVec::default();
    assert_eq!(empty.len(), 0);
    assert!(empty.is_empty());
    assert!(SmallVec::<u8>::from(Vec::new()).is_empty());
}

#[test]
fn the_capacity_hint_is_taken_with_caution() {
    assert_eq!(cautious::<u8>(10), 10);
    assert_eq!(cautious::<u8>(4_096), 4_096);
    assert_eq!(cautious::<u8>(4_097), 4_096);
    assert_eq!(cautious::<u8>(u32::MAX), 4_096);
    assert_eq!(cautious::<u8>(0), 1);
    assert_eq!(cautious::<u64>(1_000), 512);
    assert_eq!(cautious::<u64>(511), 511);
    assert_eq!(cautious::<[u8; 32]>(1_000), 128);
    assert_eq!(cautious::<[u8; 4_097]>(1_000), 1);
}

#[test]
fn bytes_are_written_behind_their_length() {
    let items = SmallVec(vec![7u8, 8, 9]);
    assert_eq!(serialize(&items, LengthPrefix::U8), Ok(vec![3, 7, 8, 9]));
    assert_eq!(serialize(&items, LengthPrefix::U16), Ok(vec![3, 0, 7, 8, 9]));
    assert_eq!(serialize(&SmallVec(vec![]), LengthPrefix::U8), Ok(vec![0]));
    assert_eq!(serialize(&SmallVec(vec![]), LengthPrefix::U16), Ok(vec![0, 0]));
    let long = SmallVec(vec![1u8; 300]);
    assert_eq!(serialize(&long, LengthPrefix::U8), Err(CodecError::InvalidInput));
    let bytes = serialize(&long, LengthPrefix::U16).unwrap();
    assert_eq!(&bytes[..2], &[44, 1]);
    assert_eq!(bytes.len(), 302);
    assert!(serialize(&SmallVec(vec![0u8; 255]), LengthPrefix::U8).is_ok());
    assert_eq!(
        serialize(&SmallVec(vec![0u8; 256]), LengthPrefix::U8),
        Err(CodecError::InvalidInput)
    );
    assert!(serialize(&SmallVec(vec![0u8; 65_535]), LengthPrefix::U16).is_ok());
    assert_eq!(
        serialize(&SmallVec(vec![0u8; 65_536]), LengthPrefix::U16),
        Err(CodecError::InvalidInput)
    );
}

#[test]
fn bytes_are_read_back() {
    let (items, used) = deserialize(&[3, 7, 8, 9, 10], LengthPrefix::U8).unwrap();
    assert_eq!((items.0, used), (vec![7, 8, 9], 4));
    let (items, used) = deserialize(&[2, 0, 7, 8, 9], LengthPrefix::U16).unwrap();
    assert_eq!((items.0, used), (vec![7, 8], 4));
    let (items, used) = deserialize(&[0], LengthPrefix::U8).unwrap();
    assert_eq!((items.0, used), (vec![], 1));
    assert_eq!(deserialize(&[], LengthPrefix::U8).err(), Some(CodecError::UnexpectedLengthOfInput));
    assert_eq!(deserialize(&[1], LengthPrefix::U16).err(), Some(CodecError::UnexpectedLengthOfInput));
    assert_eq!(deserialize(&[3, 7, 8], LengthPrefix::U8).err(), Some(CodecError::UnexpectedLengthOfInput));
    assert_eq!(deserialize(&[0, 1, 7], LengthPrefix::U16).err(), Some(CodecError::UnexpectedLengthOfInput));
    for prefix in [LengthPrefix::U8, LengthPrefix::U16] {
        for len in [0usize, 1, 2, 200, 255] {
            let items = SmallVec((0..len).map(|i| i as u8).collect::<Vec<u8>>());
            let mut bytes = serialize(&items, prefix).unwrap();
            let written = bytes.len();
            bytes.extend_from_slice(&[1, 2, 3]);
            let (read, used) = deserialize(&bytes, prefix).unwrap();
            assert_eq!(read.0, items.0);
            assert_eq!(used, written);
        }
    }
}
