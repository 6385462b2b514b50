use lessons::shapes::Circle;

#[test]
fn contains_test() {
    let circle1 = Circle::new(5);
    let circle2 = Circle::new(2);

    let result = circle1.contains(&circle2);
    assert_eq!(result, true, "Test failed");
}

#[test]
fn should_not_create_circle() {
    // A negative radius must be rejected.
    let some_circle = Circle::new_1(-1);
    assert!(some_circle.is_err());
    assert_eq!(some_circle.err().unwrap(), "Radius should be positive");
}

#[test]
fn creates_circle_with_positive_radius() {
    let circle = Circle::new_1(7);
    assert!(circle.is_ok());
}

#[test]
fn zero_radius_is_rejected() {
    let circle = Circle::new_1(0);
    assert!(circle.is_err());
    assert_eq!(circle.err().unwrap(), "Radius should be positive");
}

#[test]
fn checked_constructor_accepts_positive_radius() {
    let big = Circle::new_2(11);
    let small = Circle::new_2(1);
    assert!(big.contains(&small));
}

#[test]
fn smaller_circle_does_not_contain_larger() {
    let circle1 = Circle::new(2);
    let circle2 = Circle::new(5);
    assert!(!circle1.contains(&circle2));
}

#[test]
fn equal_circles_do_not_contain_each_other() {
    let circle1 = Circle::new(4);
    let circle2 = Circle::new(4);
    assert!(!circle1.contains(&circle2));
    assert!(!circle2.contains(&circle1));
}
