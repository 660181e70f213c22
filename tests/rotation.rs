use validator_manager::pallet::ValidatorOf;
use validator_manager::rotation::{apply_changes, contains_id, position_of, swap_out_first};
use validator_manager::weights::{RuntimeDbWeight, SubstrateWeight, Weight, WeightInfo};

#[test]
fn swap_out_moves_last_into_gap() {
    let mut roster = vec![1, 2, 3, 4];
    swap_out_first(&mut roster, 2);
    assert_eq!(roster, vec![1, 4, 3]);
    swap_out_first(&mut roster, 9);
    assert_eq!(roster, vec![1, 4, 3]);
    swap_out_first(&mut roster, 3);
    assert_eq!(roster, vec![1, 4]);
}

#[test]
fn position_and_membership() {
    let roster = vec![5, 7, 5];
    assert_eq!(position_of(&roster, 5), Some(0));
    assert_eq!(position_of(&roster, 7), Some(1));
    assert_eq!(position_of(&roster, 8), None);
    assert!(contains_id(&roster, 7));
    assert!(!contains_id(&vec![], 7));
}

#[test]
fn apply_changes_removes_then_adds() {
    let current = vec![1, 2, 3];
    assert_eq!(
        apply_changes(&current, &vec![1, 10], &vec![3, 4, 4], 1),
        Some(vec![3, 2, 4])
    );
    assert_eq!(apply_changes(&current, &vec![1, 2], &vec![], 2), None);
    assert_eq!(apply_changes(&vec![], &vec![], &vec![], 0), Some(vec![]));
}

#[test]
fn validator_of_is_identity() {
    assert_eq!(ValidatorOf::convert(42), Some(42));
}

#[test]
fn batch_weight_formula() {
    let w = SubstrateWeight { db_weight: RuntimeDbWeight { read: 25_000_000, write: 100_000_000 } };
    let expected = Weight::from_parts(21_000_000 + 25_000 * 3 + 25_000_000 + 100_000_000, 0);
    assert_eq!(w.register_validators(3), expected);
    assert_eq!(w.deregister_validators(3), expected);
    let free = SubstrateWeight { db_weight: RuntimeDbWeight { read: 0, write: 0 } };
    assert_eq!(free.register_validators(0), Weight::from_parts(21_000_000, 0));
}

#[test]
fn batch_weight_saturates() {
    let w = SubstrateWeight { db_weight: RuntimeDbWeight { read: u64::MAX, write: 1 } };
    assert_eq!(w.register_validators(u32::MAX), Weight::from_parts(u64::MAX, 0));
}

#[test]
fn weight_arithmetic_saturates() {
    let a = Weight::from_parts(u64::MAX - 1, 3);
    assert_eq!(a.saturating_add(Weight::from_parts(5, 4)), Weight::from_parts(u64::MAX, 7));
    assert_eq!(a.saturating_mul(2), Weight::from_parts(u64::MAX, 6));
    let db = RuntimeDbWeight { read: 7, write: 11 };
    assert_eq!(db.reads(3), Weight::from_parts(21, 0));
    assert_eq!(db.writes(2), Weight::from_parts(22, 0));
}
