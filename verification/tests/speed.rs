use lessons::speed::{DistanceThreeHours, Kmh};

#[test]
fn distance_covered_multiplies_speed_by_hours() {
    let speed = Kmh { value: 50 };
    let distance_covered = speed.distance_covered(6);
    assert_eq!(distance_covered.value, 300);
}

#[test]
fn distance_covered_zero_hours() {
    let speed = Kmh { value: 120 };
    assert_eq!(speed.distance_covered(0).value, 0);
}
