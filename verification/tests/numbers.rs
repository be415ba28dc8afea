use gfx_memory::text::decimal_text;

#[test]
fn numbers_below_ten_have_one_digit() {
    let digits = ["0", "1", "2", "3", "4", "5", "6", "7", "8", "9"];
    for (number, digit) in digits.into_iter().enumerate() {
        assert_eq!(decimal_text(number as u32), digit);
    }
}

#[test]
fn numbers_are_written_without_leading_zeros() {
    assert_eq!(decimal_text(10), "10");
    assert_eq!(decimal_text(101), "101");
    assert_eq!(decimal_text(1000), "1000");
    assert_eq!(decimal_text(90210), "90210");
    assert_eq!(decimal_text(4294967295), "4294967295");
}

#[test]
fn numbers_are_written_as_the_standard_library_writes_them() {
    for shift in 0..32 {
        for number in [1u32 << shift, (1u32 << shift) - 1, (1u32 << shift) | 5] {
            assert_eq!(decimal_text(number), number.to_string());
        }
    }
}
