use wrapbin::Binary;

const TEST_BIN: &[u8] = b"Hello, World!";

#[test]
fn test_from_array() {
    let binary = Binary::from(TEST_BIN);
    assert!(binary.is_borrowed());
    assert_eq!(binary.len(), 13);
    assert_eq!(binary.as_slice(), TEST_BIN);
}

#[test]
fn test_from_vec() {
    let vec = TEST_BIN.to_vec();
    let binary = Binary::from(vec);
    assert!(binary.is_owned());
    assert_eq!(binary.len(), 13);
    assert_eq!(binary.as_slice(), TEST_BIN);
}

#[test]
fn test_clear() {
    let mut binary = Binary::from(TEST_BIN);
    assert!(binary.is_borrowed());
    assert_eq!(binary.len(), 13);
    assert_eq!(binary.as_slice(), TEST_BIN);

    binary.clear();
    assert!(binary.is_owned());
    assert_eq!(binary.len(), 0);
}

#[test]
fn test_push_pop_insert_remove() {
    let mut binary = Binary::from([1u8, 2u8, 3u8].as_slice());
    binary.push(4);
    assert!(binary.is_owned());
    assert_eq!(binary.as_slice(), &[1, 2, 3, 4]);

    assert_eq!(binary.pop(), Some(4));
    assert_eq!(binary.as_slice(), &[1, 2, 3]);

    binary.insert(1, 9);
    assert_eq!(binary.as_slice(), &[1, 9, 2, 3]);

    assert_eq!(binary.remove(2), 2);
    assert_eq!(binary.as_slice(), &[1, 9, 3]);

    assert_eq!(binary.into_owned(), vec![1, 9, 3]);
}

#[test]
fn test_to_mut() {
    let mut binary = Binary::from(TEST_BIN);
    assert!(binary.is_borrowed());
    binary.to_mut().push(b'!');
    assert!(binary.is_owned());
    assert_eq!(binary.len(), 14);
    assert_eq!(binary.as_slice(), b"Hello, World!!");
}

#[test]
fn test_value_equality_ignores_storage() {
    let owned = Binary::from(TEST_BIN.to_vec());
    let borrowed = Binary::from(TEST_BIN);
    assert_eq!(owned, borrowed);
    assert!(Binary::from([1u8].as_slice()) != Binary::from([2u8].as_slice()));
    assert!(Binary::from([1u8].as_slice()) != Binary::from([1u8, 1u8].as_slice()));
}
