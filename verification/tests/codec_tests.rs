use x11_clipboard::codec::{decode_format_ids, encode_format_ids, leading_size_hint};
use x11_clipboard::registry::{offers_from_pairs, single_offer, Registry};

#[test]
fn test_decode_exact_values() {
    let bytes = vec![1, 0, 0, 0, 4, 1, 0, 0];
    assert_eq!(decode_format_ids(&bytes), vec![1, 260]);
}

#[test]
fn test_decode_discards_trailing_partial_group() {
    let bytes = vec![1, 0, 0, 0, 9, 9];
    assert_eq!(decode_format_ids(&bytes), vec![1]);
    assert!(decode_format_ids(&vec![1, 2, 3]).is_empty());
    assert!(decode_format_ids(&Vec::new()).is_empty());
}

#[test]
fn test_encode_decode_round_trip() {
    let ids = vec![0, 1, 0xdead_beef, u32::MAX, 4096];
    let wire = encode_format_ids(&ids);
    assert_eq!(wire.len(), 4 * ids.len());
    assert_eq!(decode_format_ids(&wire), ids);
}

#[test]
fn test_leading_size_hint() {
    assert_eq!(leading_size_hint(&vec![16, 0, 0, 0]), Some(16));
    assert_eq!(leading_size_hint(&vec![0, 0, 1, 0, 99]), Some(65536));
    assert_eq!(leading_size_hint(&vec![1, 2, 3]), None);
    assert_eq!(leading_size_hint(&Vec::new()), None);
}

#[test]
fn test_single_offer_shape() {
    let offers = single_offer(7, b"payload".to_vec());
    assert_eq!(offers.len(), 1);
    assert_eq!(offers[0].target, 7);
    assert_eq!(offers[0].value, b"payload".to_vec());
}

#[test]
fn test_offers_from_pairs_keeps_order() {
    let offers = offers_from_pairs(vec![
        (3, b"a".to_vec()),
        (1, b"b".to_vec()),
        (2, b"c".to_vec()),
    ]);
    assert_eq!(offers.len(), 3);
    assert_eq!(offers[0].target, 3);
    assert_eq!(offers[1].target, 1);
    assert_eq!(offers[2].target, 2);
    assert_eq!(offers[1].value, b"b".to_vec());
}

#[test]
fn test_targets_list_of_empty_offer_is_empty() {
    // An installed offer with no entries enumerates as nothing at all, not
    // as a lone enumeration marker.
    let mut reg = Registry::new();
    reg.set_offer(5, Vec::new());
    assert!(reg.targets_list(5, 99).is_empty());
    // An absent selection enumerates as nothing as well.
    assert!(reg.targets_list(6, 99).is_empty());
}

#[test]
fn test_registry_replaces_wholesale() {
    let mut reg = Registry::new();
    reg.set_offer(5, offers_from_pairs(vec![(1, b"x".to_vec()), (2, b"y".to_vec())]));
    reg.set_offer(5, single_offer(3, b"z".to_vec()));
    assert_eq!(reg.targets_list(5, 99), vec![99, 3]);
    assert!(reg.find_value(5, 1).is_none());
    assert_eq!(reg.find_value(5, 3).unwrap(), &b"z".to_vec());
}

#[test]
fn test_find_value_takes_first_match() {
    let mut reg = Registry::new();
    reg.set_offer(5, offers_from_pairs(vec![(1, b"first".to_vec()), (1, b"second".to_vec())]));
    assert_eq!(reg.find_value(5, 1).unwrap(), &b"first".to_vec());
}
