use dispatch_core::Items;

#[test]
fn once_delivers_exactly_one_item() {
    let mut items: Items<u64> = Items::once(7).unwrap();
    assert_eq!(items.next(), Some(7));
    assert_eq!(items.next(), None);
}

#[test]
fn items_come_out_first_in_first_out() {
    let mut items = Items::from_vec(vec![1u32, 2, 3]);
    assert_eq!(items.next(), Some(1));
    assert_eq!(items.next(), Some(2));
    assert_eq!(items.next(), Some(3));
    assert_eq!(items.next(), None);
}

#[test]
fn drained_sequence_stays_empty() {
    let mut items = Items::from_vec(vec![String::from("only")]);
    assert_eq!(items.next(), Some(String::from("only")));
    assert_eq!(items.next(), None);
    assert_eq!(items.next(), None);
    assert_eq!(items.next(), None);
}

#[test]
fn empty_sequence_yields_nothing() {
    let mut items: Items<u8> = Items::from_vec(Vec::new());
    assert_eq!(items.next(), None);
}
