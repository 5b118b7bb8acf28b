use nvdb_rust::{point_to_point_distance, DistanceError};

#[test]
fn distance_of_zero_and_zero() {
    assert_eq!(point_to_point_distance(0, 0), Ok(String::from("0")));
}

#[test]
fn distance_of_two_and_three() {
    assert_eq!(point_to_point_distance(2, 3), Ok(String::from("5")));
}

#[test]
fn distance_of_hundred_and_two_fifty() {
    assert_eq!(point_to_point_distance(100, 250), Ok(String::from("350")));
}

#[test]
fn distance_is_commutative_on_samples() {
    let pairs: [(usize, usize); 4] = [(0, 7), (2, 3), (100, 250), (usize::MAX, 1)];
    for (a, b) in pairs {
        assert_eq!(point_to_point_distance(a, b), point_to_point_distance(b, a));
    }
}

#[test]
fn distance_overflows_past_maximum() {
    assert_eq!(
        point_to_point_distance(usize::MAX, 1),
        Err(DistanceError::Overflow)
    );
    assert_eq!(
        point_to_point_distance(usize::MAX, usize::MAX),
        Err(DistanceError::Overflow)
    );
}

#[test]
fn distance_at_maximum_still_succeeds() {
    assert_eq!(
        point_to_point_distance(usize::MAX, 0),
        Ok(usize::MAX.to_string())
    );
}
