use i3title::config::check_truncate;

#[test]
fn too_small_limits_are_rejected() {
    assert!(check_truncate(1).is_err());
    assert!(check_truncate(2).is_err());
    assert!(check_truncate(3).is_err());
}

#[test]
fn rejection_message_names_acceptable_values() {
    assert_eq!(check_truncate(2), Err("Acceptable values are 0, 4, 5, ...".to_string()));
}

#[test]
fn zero_and_larger_limits_are_accepted() {
    assert!(check_truncate(0).is_ok());
    assert!(check_truncate(4).is_ok());
    assert!(check_truncate(5).is_ok());
    assert!(check_truncate(100).is_ok());
    assert!(check_truncate(usize::MAX).is_ok());
}
