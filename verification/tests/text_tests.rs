use disk_panel::text::{center_in_10, tenths_to_dec, u64_right3, u64_to_dec};

#[test]
fn decimal_text_of_small_and_large_numbers() {
    assert_eq!(u64_to_dec(0), "0");
    assert_eq!(u64_to_dec(7), "7");
    assert_eq!(u64_to_dec(105), "105");
    assert_eq!(u64_to_dec(18446744073709551615), "18446744073709551615");
}

#[test]
fn right_aligned_three_columns() {
    assert_eq!(u64_right3(5), "  5");
    assert_eq!(u64_right3(90), " 90");
    assert_eq!(u64_right3(100), "100");
    assert_eq!(u64_right3(0), "  0");
}

#[test]
fn tenths_written_with_one_decimal_place() {
    assert_eq!(tenths_to_dec(50), "5.0");
    assert_eq!(tenths_to_dec(900), "90.0");
    assert_eq!(tenths_to_dec(1000), "100.0");
    assert_eq!(tenths_to_dec(0), "0.0");
    assert_eq!(tenths_to_dec(105), "10.5");
}

#[test]
fn centering_pads_to_ten_columns_extra_space_right() {
    assert_eq!(center_in_10(String::from("abc")), "   abc    ");
    assert_eq!(center_in_10(String::from("1234")), "   1234   ");
    assert_eq!(center_in_10(String::from("")), "          ");
    assert_eq!(center_in_10(String::from("0123456789")), "0123456789");
    assert_eq!(center_in_10(String::from("0123456789ab")), "0123456789ab");
}
