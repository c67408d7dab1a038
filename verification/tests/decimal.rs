use micro_http::decimal::decimal_string;

#[test]
fn decimal_of_single_digits() {
    assert_eq!(decimal_string(0), "0");
    assert_eq!(decimal_string(1), "1");
    assert_eq!(decimal_string(2), "2");
    assert_eq!(decimal_string(3), "3");
    assert_eq!(decimal_string(4), "4");
    assert_eq!(decimal_string(5), "5");
    assert_eq!(decimal_string(6), "6");
    assert_eq!(decimal_string(7), "7");
    assert_eq!(decimal_string(8), "8");
    assert_eq!(decimal_string(9), "9");
}

#[test]
fn decimal_of_longer_numbers() {
    assert_eq!(decimal_string(10), "10");
    assert_eq!(decimal_string(14), "14");
    assert_eq!(decimal_string(100), "100");
    assert_eq!(decimal_string(1024), "1024");
    assert_eq!(decimal_string(9876543210), "9876543210");
}

#[test]
fn decimal_agrees_with_std() {
    let samples: [usize; 8] = [0, 7, 19, 200, 4096, 65535, 1_000_000, usize::MAX];
    for n in samples {
        assert_eq!(decimal_string(n), n.to_string());
    }
}
