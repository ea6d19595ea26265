use ic_agent_core::bytes::compare_bytes;
use ic_agent_core::{principal_is_within_ranges, Principal};

fn p(b: &[u8]) -> Principal {
    Principal::from_slice(b)
}

#[test]
fn range_bounds_are_inclusive() {
    let x = p(&[1, 2, 3]);
    assert!(principal_is_within_ranges(&x, &[(p(&[1, 2, 3]), p(&[1, 2, 3]))]));
    assert!(principal_is_within_ranges(&x, &[(p(&[1, 2, 3]), p(&[9]))]));
    assert!(principal_is_within_ranges(&x, &[(p(&[0]), p(&[1, 2, 3]))]));
}

#[test]
fn empty_range_list_holds_nothing() {
    assert!(!principal_is_within_ranges(&p(&[1, 2, 3]), &[]));
    assert!(!principal_is_within_ranges(&p(&[]), &[]));
}

#[test]
fn principal_outside_every_range() {
    let x = p(&[5]);
    let ranges = [(p(&[1]), p(&[2])), (p(&[6]), p(&[9])), (p(&[5, 1]), p(&[5, 9]))];
    assert!(!principal_is_within_ranges(&x, &ranges));
    let y = p(&[5, 4]);
    assert!(principal_is_within_ranges(&y, &ranges));
}

#[test]
fn byte_order_is_lexicographic() {
    assert_eq!(compare_bytes(&[1, 2], &[1, 2]), 0);
    assert_eq!(compare_bytes(&[1], &[1, 0]), -1);
    assert_eq!(compare_bytes(&[2], &[1, 9, 9]), 1);
    assert_eq!(compare_bytes(&[], &[]), 0);
}

#[test]
fn anonymous_principal_is_byte_four() {
    assert_eq!(Principal::anonymous().as_slice(), &[4u8]);
}
