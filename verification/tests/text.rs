use ecolav_core::text::{render_exit_code, render_signed, render_unsigned, strip_spaces};

#[test]
fn unsigned_numbers_render_in_decimal() {
    assert_eq!(render_unsigned(0), "0");
    assert_eq!(render_unsigned(7), "7");
    assert_eq!(render_unsigned(10), "10");
    assert_eq!(render_unsigned(4242), "4242");
    assert_eq!(render_unsigned(u64::MAX), "18446744073709551615");
}

#[test]
fn signed_numbers_render_with_their_sign() {
    assert_eq!(render_signed(0), "0");
    assert_eq!(render_signed(-1), "-1");
    assert_eq!(render_signed(137), "137");
    assert_eq!(render_signed(i64::MIN), "-9223372036854775808");
    assert_eq!(render_signed(i64::MAX), "9223372036854775807");
}

#[test]
fn exit_codes_render_like_options() {
    assert_eq!(render_exit_code(Some(0)), "Some(0)");
    assert_eq!(render_exit_code(Some(-1)), "Some(-1)");
    assert_eq!(render_exit_code(Some(i32::MIN)), format!("{:?}", Some(i32::MIN)));
    assert_eq!(render_exit_code(None), "None");
}

#[test]
fn stripping_spaces_keeps_everything_else_in_order() {
    assert_eq!(strip_spaces("a b c"), "abc");
    assert_eq!(strip_spaces(" x  y "), "xy");
    assert_eq!(strip_spaces("no-spaces"), "no-spaces");
    assert_eq!(strip_spaces("mixed Case stays"), "mixedCasestays");
    assert_eq!(strip_spaces(""), "");
}
