use zingo::restrictions::{
    transparent_child_index, AccountId, ShieldedAddressRestriction, SpendRestriction,
    TransparentAddressRestriction, TransparentScope,
};

#[test]
fn restriction_without_a_last_index_admits_one_index() {
    let restriction = ShieldedAddressRestriction::new(AccountId::zero(), 4, None);
    assert!(!restriction.contains(3));
    assert!(restriction.contains(4));
    assert!(!restriction.contains(5));
}

#[test]
fn restriction_admits_a_range() {
    let restriction = TransparentAddressRestriction::new(
        AccountId::zero(),
        TransparentScope::External,
        3,
        Some(10),
    );
    assert!(!restriction.contains(2));
    assert!(restriction.contains(3));
    assert!(restriction.contains(10));
    assert!(!restriction.contains(11));
}

#[test]
fn restriction_with_its_ends_swapped_admits_nothing() {
    let restriction = ShieldedAddressRestriction::new(AccountId::zero(), 3, Some(2));
    assert!(!restriction.contains(2));
    assert!(!restriction.contains(3));
}

#[test]
fn no_restriction_by_default() {
    let restriction = SpendRestriction::default();
    assert_eq!(restriction.shielded, None);
    assert_eq!(restriction.transparent, None);
}

#[test]
fn indexes_have_31_bits() {
    assert_eq!(transparent_child_index(0x7fff_ffff), Some(0x7fff_ffff));
    assert_eq!(transparent_child_index(0x8000_0000), None);
    assert_eq!(AccountId::from_index(7), Some(AccountId { index: 7 }));
    assert_eq!(AccountId::from_index(0x8000_0000), None);
}

#[test]
fn extending_a_restriction_keeps_its_indexes() {
    let narrow = ShieldedAddressRestriction::new(AccountId::zero(), 3, Some(5));
    let wide = ShieldedAddressRestriction::new(AccountId::zero(), 3, Some(9));
    for index in 0..12 {
        assert!(!narrow.contains(index) || wide.contains(index));
    }
    assert!(wide.contains(9));
    assert!(!narrow.contains(9));
}
