use epics_ca::types::value::EpicsString;
use epics_ca::types::StaticCString;
use std::cmp::Ordering;

#[test]
fn from_cstr_stores_bytes() {
    let s = EpicsString::from_cstr(b"hello").unwrap();
    assert_eq!(s.len(), Some(5));
    assert!(!s.is_empty());
    assert_eq!(s.to_bytes(), b"hello".to_vec());
    let arr = s.to_array();
    assert_eq!(&arr[..6], b"hello\0");
    assert!(arr[6..].iter().all(|&b| b == 0));
}

#[test]
fn from_cstr_needs_room_for_nul() {
    assert!(StaticCString::<4>::from_cstr(b"abc").is_some());
    assert!(StaticCString::<4>::from_cstr(b"abcd").is_none());
    assert!(StaticCString::<1>::from_cstr(b"").unwrap().is_empty());
    assert_eq!(StaticCString::<1>::from_cstr(b"").unwrap().len(), Some(0));
}

#[test]
fn from_array_needs_nul() {
    assert!(StaticCString::<3>::from_array([1, 2, 3]).is_none());
    let s = StaticCString::<4>::from_array([b'a', 0, b'b', 0]).unwrap();
    assert_eq!(s.len(), Some(1));
    assert_eq!(s.to_bytes(), b"a".to_vec());
    assert_eq!(s.to_array(), [b'a', 0, b'b', 0]);
}

#[test]
fn equality_ignores_bytes_after_nul() {
    let a = StaticCString::<4>::from_array([b'x', 0, 1, 2]).unwrap();
    let b = StaticCString::<4>::from_array([b'x', 0, 3, 4]).unwrap();
    let c = StaticCString::<4>::from_array([b'y', 0, 1, 2]).unwrap();
    assert!(a == b);
    assert!(a != c);
}

#[test]
fn order_is_lexicographic() {
    let ab = StaticCString::<8>::from_cstr(b"ab").unwrap();
    let abc = StaticCString::<8>::from_cstr(b"abc").unwrap();
    let b = StaticCString::<8>::from_cstr(b"b").unwrap();
    let empty = StaticCString::<8>::from_cstr(b"").unwrap();
    assert_eq!(ab.partial_cmp(&abc), Some(Ordering::Less));
    assert_eq!(abc.partial_cmp(&ab), Some(Ordering::Greater));
    assert_eq!(abc.partial_cmp(&b), Some(Ordering::Less));
    assert_eq!(empty.partial_cmp(&ab), Some(Ordering::Less));
    assert_eq!(ab.partial_cmp(&ab), Some(Ordering::Equal));
    assert!(ab < b);
    let x = StaticCString::<4>::from_array([b'x', 0, 1, 2]).unwrap();
    let y = StaticCString::<4>::from_array([b'x', 0, 3, 4]).unwrap();
    assert_eq!(x.partial_cmp(&y), Some(Ordering::Equal));
}

#[test]
fn longest_string_leaves_room_for_nul() {
    assert_eq!(EpicsString::max_len(), 39);
    assert_eq!(StaticCString::<4>::max_len(), 3);
    let s = StaticCString::<4>::from_cstr(b"abc").unwrap();
    assert_eq!(s.len(), Some(StaticCString::<4>::max_len()));
}

#[test]
fn empty_string_is_all_zero() {
    let s = EpicsString::empty();
    assert!(s.is_empty());
    assert_eq!(s.len(), Some(0));
    assert!(s.to_array().iter().all(|&b| b == 0));
    assert!(s == EpicsString::from_cstr(b"").unwrap());
}
