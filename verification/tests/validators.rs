use lessons::closures;
use lessons::function_pointers::{
    is_valid_user, validate_user_advance, validate_user_simple,
};

#[test]
fn function_pointer_validators_reject_young_user() {
    let result = is_valid_user("Ayush", 24, validate_user_simple, validate_user_advance);
    assert!(!result);
}

#[test]
fn function_pointer_validators_accept_older_user() {
    let result = is_valid_user("Ayush", 31, validate_user_simple, validate_user_advance);
    assert!(result);
}

#[test]
fn empty_name_is_rejected() {
    assert!(!validate_user_simple(""));
    let result = is_valid_user("", 45, validate_user_simple, validate_user_advance);
    assert!(!result);
}

#[test]
fn advance_validator_boundary() {
    assert!(validate_user_advance(30));
    assert!(!validate_user_advance(29));
}

#[test]
fn closure_validators_capture_their_surroundings() {
    let banned_user = String::from("banned_user");

    let validate_simple = |name: &str| {
        let banned_username = banned_user;
        !name.is_empty() && name != banned_username
    };
    let validate_advance = |age: i32| age >= 30;

    let result = closures::is_valid_user("Ayush", 24, validate_simple, validate_advance);
    assert!(!result);
}

#[test]
fn closure_validators_reject_banned_name() {
    let banned_user = String::from("banned_user");

    let validate_simple = |name: &str| {
        let banned_username = banned_user;
        !name.is_empty() && name != banned_username
    };
    let validate_advance = |age: i32| age >= 30;

    let result = closures::is_valid_user("banned_user", 52, validate_simple, validate_advance);
    assert!(!result);
}

#[test]
fn closure_validators_accept_valid_user() {
    let banned_user = String::from("banned_user");

    let validate_simple = |name: &str| {
        let banned_username = banned_user;
        !name.is_empty() && name != banned_username
    };
    let validate_advance = |age: i32| age >= 30;

    let result = closures::is_valid_user("Veena", 54, validate_simple, validate_advance);
    assert!(result);
}
