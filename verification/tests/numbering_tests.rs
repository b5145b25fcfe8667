use rcat::numbering::format_number;

#[test]
fn one_is_padded_to_six_columns() {
    assert_eq!(format_number(1), "     1\t");
}

#[test]
fn zero_is_a_single_digit() {
    assert_eq!(format_number(0), "     0\t");
}

#[test]
fn two_digits_keep_their_order() {
    assert_eq!(format_number(42), "    42\t");
    assert_eq!(format_number(10), "    10\t");
    assert_eq!(format_number(907), "   907\t");
}

#[test]
fn six_digits_fill_the_field() {
    assert_eq!(format_number(123456), "123456\t");
    assert_eq!(format_number(99999), " 99999\t");
}

#[test]
fn seven_digits_are_not_cut() {
    assert_eq!(format_number(1234567), "1234567\t");
}

#[test]
fn largest_number_is_written_whole() {
    assert_eq!(format_number(u64::MAX), "18446744073709551615\t");
}

#[test]
fn prefix_agrees_with_std_formatting() {
    let samples: [u64; 9] = [0, 9, 10, 99, 100, 99999, 100000, 999999, 1000000];
    for n in samples {
        assert_eq!(format_number(n), format!("{:>6}\t", n));
    }
}
