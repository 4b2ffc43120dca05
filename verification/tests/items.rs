use wtrs::item::{Item, Modify};

#[test]
fn new_item_is_empty() {
    let i = Item::new();
    assert!(i.is_empty());
    assert_eq!(i.len(), 0);
    assert_eq!(i.as_bytes(), &[] as &[u8]);
    assert_eq!(i.as_str(), Some(""));
    let d = Item::default();
    assert!(d.is_empty());
}

#[test]
fn bytes_round_trip() {
    let i = Item::from_bytes(&[1, 2, 3, 0, 255]);
    assert_eq!(i.as_bytes(), &[1, 2, 3, 0, 255]);
    assert_eq!(i.len(), 5);
    assert!(!i.is_empty());
}

#[test]
fn str_round_trip() {
    let i = Item::from_str("héllo, wörld ✓");
    assert_eq!(i.as_str(), Some("héllo, wörld ✓"));
    assert_eq!(i.len(), "héllo, wörld ✓".len());
    assert_eq!(i.as_bytes(), "héllo, wörld ✓".as_bytes());
}

#[test]
fn invalid_utf8_is_not_text() {
    assert_eq!(Item::from_bytes(&[0xff]).as_str(), None);
    assert_eq!(Item::from_bytes(&[b'a', 0xc3]).as_str(), None);
    assert_eq!(Item::from_bytes(&[0xed, 0xa0, 0x80]).as_str(), None);
    assert_eq!(Item::from_bytes(&[0xc0, 0x80]).as_str(), None);
    assert_eq!(Item::from_bytes(&[0xc3, 0xa9]).as_str(), Some("é"));
}

#[test]
fn conversions() {
    let a: Item = Item::from(&b"abc"[..]);
    assert_eq!(a.as_bytes(), b"abc");
    let b: Item = Item::from("xyz");
    assert_eq!(b.as_str(), Some("xyz"));
    let c: Item = Item::from(vec![9u8, 8, 7]);
    assert_eq!(c.as_bytes(), &[9, 8, 7]);
    let d: Item = Item::from(String::from("owned"));
    assert_eq!(d.as_str(), Some("owned"));
    let e = Item::from_vec(vec![1u8]);
    assert_eq!(e.len(), 1);
}

#[test]
fn raw_items() {
    assert!(Item::from_raw(None).is_empty());
    assert!(Item::from_raw(Some(&[])).is_empty());
    assert_eq!(Item::from_raw(Some(&[4, 5])).as_bytes(), &[4, 5]);
}

#[test]
fn modifications() {
    let m = Modify::insert(Item::from_str("ins"), 3);
    assert_eq!(m.offset, 3);
    assert_eq!(m.size, 0);
    assert_eq!(m.data.as_str(), Some("ins"));
    let r = Modify::replace(Item::from_str("rep"), 1, 2);
    assert_eq!(r.offset, 1);
    assert_eq!(r.size, 2);
    assert_eq!(r.data.as_bytes(), b"rep");
}
