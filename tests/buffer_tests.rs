use diskdestroyer::buffer::{DataBuffer, DataType};

#[test]
fn buffer_length_matches_block_size() {
    for n in [1usize, 7, 512, 1024, 4096] {
        let mut zero = DataBuffer::new(DataType::Zeroes, n).unwrap();
        let mut random = DataBuffer::new(DataType::Random, n).unwrap();
        assert_eq!(zero.len(), n);
        assert_eq!(random.len(), n);
        for _ in 0..3 {
            assert_eq!(zero.next_bytes().len(), n);
            assert_eq!(random.next_bytes().len(), n);
        }
    }
}

#[test]
fn empty_block_size_gives_empty_buffers() {
    let mut zero = DataBuffer::new(DataType::Zeroes, 0).unwrap();
    let mut random = DataBuffer::new(DataType::Random, 0).unwrap();
    assert!(zero.next_bytes().is_empty());
    assert!(random.next_bytes().is_empty());
}

#[test]
fn zero_policy_gives_only_zeroes() {
    let mut b = DataBuffer::new(DataType::Zeroes, 1024).unwrap();
    for _ in 0..5 {
        assert!(b.next_bytes().iter().all(|&x| x == 0));
    }
}

#[test]
fn random_policy_buffers_differ() {
    let mut b = DataBuffer::new(DataType::Random, 1024).unwrap();
    let mut previous: Vec<u8> = b.next_bytes().to_vec();
    for _ in 0..10 {
        let current: Vec<u8> = b.next_bytes().to_vec();
        assert_ne!(previous, current);
        previous = current;
    }
}

#[test]
fn random_policy_is_not_all_zero() {
    let mut b = DataBuffer::new(DataType::Random, 1024).unwrap();
    assert!(b.next_bytes().iter().any(|&x| x != 0));
}

#[test]
fn random_sources_differ_from_each_other() {
    let mut a = DataBuffer::new(DataType::Random, 256).unwrap();
    let mut b = DataBuffer::new(DataType::Random, 256).unwrap();
    let first: Vec<u8> = a.next_bytes().to_vec();
    let second: Vec<u8> = b.next_bytes().to_vec();
    assert_ne!(first, second);
}

#[test]
fn fills_reuse_the_same_storage() {
    for policy in [DataType::Zeroes, DataType::Random] {
        let mut b = DataBuffer::new(policy, 1024).unwrap();
        let first = b.next_bytes().as_ptr();
        for _ in 0..8 {
            assert_eq!(b.next_bytes().as_ptr(), first);
        }
    }
}
