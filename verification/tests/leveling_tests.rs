use civicconnect::error::ApiError;
use civicconnect::leveling::LevelTable;

#[test]
fn test_level_table_validation() {
    assert!(matches!(LevelTable::new(vec![]), Err(ApiError::InvalidInput(_))));
    assert!(matches!(LevelTable::new(vec![5, 10]), Err(ApiError::InvalidInput(_))));
    assert!(matches!(LevelTable::new(vec![0, 20, 10]), Err(ApiError::InvalidInput(_))));
    assert!(LevelTable::new(vec![0, 10, 20, 100]).is_ok());
}

#[test]
fn test_level_for_exact_values() {
    let table = LevelTable::new(vec![0, 10, 20, 100]).unwrap();
    assert_eq!(table.level_for(0), 0);
    assert_eq!(table.level_for(9), 0);
    assert_eq!(table.level_for(10), 1);
    assert_eq!(table.level_for(19), 1);
    assert_eq!(table.level_for(20), 2);
    assert_eq!(table.level_for(99), 2);
    assert_eq!(table.level_for(100), 3);
    assert_eq!(table.level_for(u32::MAX), 3);
}

#[test]
fn test_award_crossing_two_thresholds() {
    let table = LevelTable::new(vec![0, 10, 20, 100]).unwrap();
    // 5 XP is level 0; one 50-point award crosses the thresholds at 10
    // and 20 in a single step.
    let outcome = table.apply_award(5, 50);
    assert_eq!(outcome.new_total_xp, 55);
    assert_eq!(outcome.from_level, 0);
    assert_eq!(outcome.level, 2);
    assert!(outcome.level_up);
}

#[test]
fn test_award_without_level_up() {
    let table = LevelTable::new(vec![0, 10, 20, 100]).unwrap();
    let outcome = table.apply_award(20, 5);
    assert_eq!(outcome.new_total_xp, 25);
    assert_eq!(outcome.from_level, 2);
    assert_eq!(outcome.level, 2);
    assert!(!outcome.level_up);
}

#[test]
fn test_award_saturates() {
    let table = LevelTable::new(vec![0, 10]).unwrap();
    let outcome = table.apply_award(u32::MAX - 10, 50);
    assert_eq!(outcome.new_total_xp, u32::MAX);
    assert_eq!(outcome.level, 1);
}

#[test]
fn test_equal_thresholds_allowed() {
    let table = LevelTable::new(vec![0, 10, 10]).unwrap();
    // With equal thresholds the higher level wins as soon as both are met.
    assert_eq!(table.level_for(10), 2);
    assert_eq!(table.level_for(9), 0);
}
