use nvdb_rust::decimal_string;

#[test]
fn decimal_of_single_digits() {
    assert_eq!(decimal_string(0), "0");
    assert_eq!(decimal_string(9), "9");
}

#[test]
fn decimal_of_round_numbers() {
    assert_eq!(decimal_string(10), "10");
    assert_eq!(decimal_string(100), "100");
    assert_eq!(decimal_string(1000000), "1000000");
}

#[test]
fn decimal_of_mixed_digits() {
    assert_eq!(decimal_string(350), "350");
    assert_eq!(decimal_string(18446744), "18446744");
}

#[test]
fn decimal_matches_std_formatting() {
    let samples: [usize; 6] = [0, 1, 42, 65535, 123456789, usize::MAX];
    for n in samples {
        assert_eq!(decimal_string(n), n.to_string());
    }
}
