use v_authorization::ACLRecord;
use v_authorization::common::{M_IGNORE_EXCLUSIVE, M_IS_EXCLUSIVE};

#[test]
fn test_acl_record_new() {
    let record = ACLRecord::new("test_user");
    assert_eq!(record.id, "test_user");
    assert_eq!(record.access, 15); // Full access by default
    assert_eq!(record.marker, 0 as char);
    assert_eq!(record.is_deleted, false);
    assert_eq!(record.level, 0);
    assert_eq!(record.counters.len(), 0);
}

#[test]
fn test_acl_record_new_with_access() {
    let record = ACLRecord::new_with_access("test_user", 7);
    assert_eq!(record.id, "test_user");
    assert_eq!(record.access, 7);
    assert_eq!(record.marker, 0 as char);
    assert_eq!(record.is_deleted, false);
    assert_eq!(record.level, 0);
    assert_eq!(record.counters.len(), 0);
}

#[test]
fn test_acl_record_new_with_zero_access() {
    let record = ACLRecord::new_with_access("test_user", 0);
    assert_eq!(record.id, "test_user");
    assert_eq!(record.access, 0);
}

#[test]
fn test_acl_record_new_with_max_access() {
    let record = ACLRecord::new_with_access("test_user", 255);
    assert_eq!(record.id, "test_user");
    assert_eq!(record.access, 255);
}

#[test]
fn authorization_test_acl_record_debug() {
    let record = ACLRecord::new("test_user");
    let debug_str = record.describe();
    assert!(debug_str.contains("test_user"));
    assert!(debug_str.contains("C R U D"));
}

#[test]
fn test_acl_record_with_exclusive_marker() {
    let mut record = ACLRecord::new("test_user");
    record.marker = M_IS_EXCLUSIVE;
    let debug_str = record.describe();
    assert!(debug_str.contains("+E"));
}

#[test]
fn test_acl_record_with_ignore_exclusive_marker() {
    let mut record = ACLRecord::new("test_user");
    record.marker = M_IGNORE_EXCLUSIVE;
    let debug_str = record.describe();
    assert!(debug_str.contains("-E"));
}

#[test]
fn test_acl_record_with_counters_overlapping_rights() {
    let mut record = ACLRecord::new_with_access("test_user", 0); // Start with no rights

    // Test adding overlapping rights
    assert_eq!(record.access, 0);
    assert_eq!(record.has_right('R'), false);
    assert_eq!(record.get_right_count('R'), 0);

    // Add read right first time
    record.add_right('R');
    assert_eq!(record.access, 2); // CanRead bit set
    assert_eq!(record.has_right('R'), true);
    assert_eq!(record.get_right_count('R'), 1);

    // Add read right second time (overlapping)
    record.add_right('R');
    assert_eq!(record.access, 2); // Still CanRead bit set
    assert_eq!(record.has_right('R'), true);
    assert_eq!(record.get_right_count('R'), 2);

    // Add another overlapping read right
    record.add_right('R');
    assert_eq!(record.access, 2); // Still CanRead bit set
    assert_eq!(record.has_right('R'), true);
    assert_eq!(record.get_right_count('R'), 3);

    // Remove one read right - should still be active
    let fully_removed = record.remove_right('R');
    assert_eq!(fully_removed, false); // Not fully removed
    assert_eq!(record.access, 2); // Still CanRead bit set
    assert_eq!(record.has_right('R'), true);
    assert_eq!(record.get_right_count('R'), 2);

    // Remove second read right - should still be active
    let fully_removed = record.remove_right('R');
    assert_eq!(fully_removed, false); // Not fully removed
    assert_eq!(record.access, 2); // Still CanRead bit set
    assert_eq!(record.has_right('R'), true);
    assert_eq!(record.get_right_count('R'), 1);

    // Remove last read right - should be fully removed
    let fully_removed = record.remove_right('R');
    assert_eq!(fully_removed, true); // Fully removed
    assert_eq!(record.access, 0); // CanRead bit cleared
    assert_eq!(record.has_right('R'), false);
    assert_eq!(record.get_right_count('R'), 0);

    // Test multiple different rights
    record.add_right('C'); // Create
    record.add_right('R'); // Read
    record.add_right('U'); // Update
    record.add_right('D'); // Delete

    assert_eq!(record.access, 15); // All rights: C(1) + R(2) + U(4) + D(8) = 15
    assert_eq!(record.has_right('C'), true);
    assert_eq!(record.has_right('R'), true);
    assert_eq!(record.has_right('U'), true);
    assert_eq!(record.has_right('D'), true);

    // Add overlapping rights
    record.add_right('C');
    record.add_right('R');

    assert_eq!(record.access, 15); // Still all rights
    assert_eq!(record.get_right_count('C'), 2);
    assert_eq!(record.get_right_count('R'), 2);
    assert_eq!(record.get_right_count('U'), 1);
    assert_eq!(record.get_right_count('D'), 1);

    // Remove one Create right - should still be active
    let fully_removed = record.remove_right('C');
    assert_eq!(fully_removed, false);
    assert_eq!(record.access, 15); // Still all rights
    assert_eq!(record.has_right('C'), true);

    // Remove last Create right - should be fully removed
    let fully_removed = record.remove_right('C');
    assert_eq!(fully_removed, true);
    assert_eq!(record.access, 14); // All except Create: R(2) + U(4) + D(8) = 14
    assert_eq!(record.has_right('C'), false);
    assert_eq!(record.has_right('R'), true);
    assert_eq!(record.has_right('U'), true);
    assert_eq!(record.has_right('D'), true);
}

#[test]
fn test_acl_record_with_level() {
    let mut record = ACLRecord::new("test_user");
    record.level = 3;
    assert_eq!(record.level, 3);
}

#[test]
fn test_acl_record_with_deletion() {
    let mut record = ACLRecord::new("test_user");
    record.is_deleted = true;
    assert_eq!(record.is_deleted, true);
}

#[test]
fn test_acl_record_counters_edge_cases() {
    let mut record = ACLRecord::new_with_access("test_user", 0);

    // Test removing non-existent right
    let fully_removed = record.remove_right('R');
    assert_eq!(fully_removed, false);
    assert_eq!(record.access, 0);
    assert_eq!(record.has_right('R'), false);
    assert_eq!(record.get_right_count('R'), 0);

    // Test unknown right character
    record.add_right('X'); // Unknown right
    assert_eq!(record.access, 0); // No access bits should be set
    assert_eq!(record.has_right('X'), true); // But counter should exist
    assert_eq!(record.get_right_count('X'), 1);

    // Test with existing access bits
    let mut record2 = ACLRecord::new_with_access("test_user", 7); // C+R+U = 1+2+4 = 7
    assert_eq!(record2.access, 7);

    // Adding rights that are already set in bitmask
    record2.add_right('C');
    assert_eq!(record2.access, 7); // Should remain 7
    assert_eq!(record2.get_right_count('C'), 1);

    record2.add_right('R');
    assert_eq!(record2.access, 7); // Should remain 7
    assert_eq!(record2.get_right_count('R'), 1);

    // Test multiple additions and removals
    for _ in 0..100 {
        record.add_right('R');
    }
    assert_eq!(record.get_right_count('R'), 100);
    assert_eq!(record.access, 2); // CanRead bit set
    assert_eq!(record.has_right('R'), true);

    // Remove all but one
    for _ in 0..99 {
        let fully_removed = record.remove_right('R');
        assert_eq!(fully_removed, false);
        assert_eq!(record.access, 2); // Should still be set
        assert_eq!(record.has_right('R'), true);
    }

    assert_eq!(record.get_right_count('R'), 1);

    // Remove the last one
    let fully_removed = record.remove_right('R');
    assert_eq!(fully_removed, true);
    assert_eq!(record.access, 0); // Should be cleared
    assert_eq!(record.has_right('R'), false);
    assert_eq!(record.get_right_count('R'), 0);
}
