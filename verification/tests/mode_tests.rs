use cli_scaffold::errors::InstallError;
use cli_scaffold::mode::parse_mode;

fn expect_value(s: &str) -> u32 {
    match parse_mode(s) {
        Ok(v) => v,
        Err(_) => panic!("mode {:?} should parse", s),
    }
}

fn expect_invalid(s: &str) {
    match parse_mode(s) {
        Ok(v) => panic!("mode {:?} should be rejected, got {}", s, v),
        Err(InstallError::InvalidMode(t)) => assert_eq!(t, s),
        Err(e) => panic!("mode {:?} should fail with InvalidMode, got {:?}", s, e),
    }
}

#[test]
fn parses_exact_values() {
    assert_eq!(expect_value("755"), 0o755);
    assert_eq!(expect_value("644"), 0o644);
    assert_eq!(expect_value("777"), 511);
    assert_eq!(expect_value("0"), 0);
    assert_eq!(expect_value("7"), 7);
}

#[test]
fn leading_zero_denotes_the_same_value() {
    assert_eq!(expect_value("0755"), expect_value("755"));
    assert_eq!(expect_value("0644"), expect_value("644"));
    assert_eq!(expect_value("00"), expect_value("0"));
    assert_eq!(expect_value("00755"), expect_value("755"));
}

#[test]
fn rejects_non_octal_strings() {
    expect_invalid("abc");
    expect_invalid("999");
    expect_invalid("75a");
    expect_invalid("758");
    expect_invalid("");
    expect_invalid("-1");
    expect_invalid("7 5");
}

#[test]
fn rejects_values_that_overflow() {
    // One past the largest value a u32 can hold.
    expect_invalid("40000000000");
    expect_invalid("777777777777");
    // The largest value that fits, with and without a leading zero.
    assert_eq!(expect_value("37777777777"), u32::MAX);
    assert_eq!(expect_value("037777777777"), u32::MAX);
}
