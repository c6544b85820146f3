use tx_ledger::cents::{cents_to_string, push_decimal, string_to_cents, CENTS_PER_AMOUNT};
use tx_ledger::error::LedgerError;

#[test]
fn invalid() {
    assert!(string_to_cents("abc").is_err());
    assert!(string_to_cents("1.1.1").is_err());
    assert!(string_to_cents("1.a").is_err());
    assert!(string_to_cents("0.12345").is_err());
}

#[test]
fn whole_amounts() {
    assert_eq!(string_to_cents("-123"), Ok(-123_0000));
    assert_eq!(string_to_cents("0"), Ok(0));
    assert_eq!(string_to_cents("1"), Ok(1_0000));
    assert_eq!(string_to_cents("10"), Ok(10_0000));
    assert_eq!(string_to_cents("123"), Ok(123_0000));
}

#[test]
fn with_decimals() {
    assert_eq!(string_to_cents("-1.01"), Ok(-1_0100));
    assert_eq!(string_to_cents("-0.1"), Ok(-0_1000));
    assert_eq!(string_to_cents("0.0123"), Ok(0_0123));
    assert_eq!(string_to_cents("0.1"), Ok(0_1000));
    assert_eq!(string_to_cents("0.1234"), Ok(0_1234));
    assert_eq!(string_to_cents("1.01"), Ok(1_0100));
}

#[test]
fn cents_whole_amounts() {
    assert_eq!(cents_to_string(-123_0000), "-123");
    assert_eq!(cents_to_string(0), "0");
    assert_eq!(cents_to_string(1_0000), "1");
    assert_eq!(cents_to_string(10_0000), "10");
    assert_eq!(cents_to_string(123_0000), "123");
}

#[test]
fn cents_with_decimals() {
    assert_eq!(cents_to_string(-1_0100), "-1.01");
    assert_eq!(cents_to_string(-0_1000), "-0.1");
    assert_eq!(cents_to_string(0_0123), "0.0123");
    assert_eq!(cents_to_string(0_1000), "0.1");
    assert_eq!(cents_to_string(0_1234), "0.1234");
    assert_eq!(cents_to_string(1_0100), "1.01");
}

#[test]
fn one_whole_is_ten_thousand_units() {
    assert_eq!(CENTS_PER_AMOUNT, 10_000);
    assert_eq!(string_to_cents("1"), Ok(CENTS_PER_AMOUNT));
}

#[test]
fn invalid_amounts_fail_with_parse_error() {
    for text in [
        "", "-", ".", "1.", ".5", "-.5", "+5", "1.+5", "1.-5", " 1", "1 ", "1e5", "--1", "1-",
        "-1.2.3", "1..2", "1,5", "0x10", "١", "1.23456", "1.00000", "one",
    ] {
        assert_eq!(string_to_cents(text), Err(LedgerError::Parse), "{:?}", text);
    }
}

#[test]
fn decimal_digits_one_to_four() {
    assert_eq!(string_to_cents("2.5"), Ok(2_5000));
    assert_eq!(string_to_cents("2.50"), Ok(2_5000));
    assert_eq!(string_to_cents("2.500"), Ok(2_5000));
    assert_eq!(string_to_cents("2.5000"), Ok(2_5000));
    assert_eq!(string_to_cents("2.0005"), Ok(2_0005));
    assert_eq!(string_to_cents("2.005"), Ok(2_0050));
    assert_eq!(string_to_cents("2.05"), Ok(2_0500));
    assert_eq!(string_to_cents("2.0"), Ok(2_0000));
    assert_eq!(string_to_cents("2.0000"), Ok(2_0000));
    assert_eq!(string_to_cents("-0.0001"), Ok(-1));
    assert_eq!(string_to_cents("-0"), Ok(0));
    assert_eq!(string_to_cents("-0.0"), Ok(0));
    assert_eq!(string_to_cents("00012.3"), Ok(12_3000));
}

#[test]
fn amounts_at_the_limits() {
    assert_eq!(string_to_cents("922337203685477.5807"), Ok(i64::MAX));
    assert_eq!(string_to_cents("922337203685477.5808"), Err(LedgerError::Parse));
    assert_eq!(string_to_cents("-922337203685477.5808"), Ok(i64::MIN));
    assert_eq!(string_to_cents("-922337203685477.5809"), Err(LedgerError::Parse));
    assert_eq!(string_to_cents("922337203685477"), Ok(9_223_372_036_854_770_000));
    assert_eq!(string_to_cents("922337203685478"), Err(LedgerError::Parse));
    assert_eq!(string_to_cents("-922337203685478"), Err(LedgerError::Parse));
    assert_eq!(string_to_cents("9223372036854775807"), Err(LedgerError::Parse));
    assert_eq!(
        string_to_cents("99999999999999999999999999999999999999999999"),
        Err(LedgerError::Parse)
    );
    assert_eq!(
        string_to_cents("000000000000000000000000000000000000000000007.25"),
        Ok(7_2500)
    );

    assert_eq!(cents_to_string(i64::MAX), "922337203685477.5807");
    assert_eq!(cents_to_string(i64::MIN), "-922337203685477.5808");
}

#[test]
fn text_of_small_amounts() {
    assert_eq!(cents_to_string(1), "0.0001");
    assert_eq!(cents_to_string(-1), "-0.0001");
    assert_eq!(cents_to_string(10), "0.001");
    assert_eq!(cents_to_string(100), "0.01");
    assert_eq!(cents_to_string(1000), "0.1");
    assert_eq!(cents_to_string(9999), "0.9999");
    assert_eq!(cents_to_string(-9999), "-0.9999");
    assert_eq!(cents_to_string(1_0001), "1.0001");
    assert_eq!(cents_to_string(1_0010), "1.001");
    assert_eq!(cents_to_string(12_3400), "12.34");
    assert_eq!(cents_to_string(-100_0000), "-100");
}

#[test]
fn text_parses_back_to_the_amount() {
    let mut values = vec![i64::MIN, i64::MIN + 1, i64::MAX - 1, i64::MAX];
    for v in -25_000..=25_000 {
        values.push(v);
    }
    let mut v: i64 = 1;
    while v < i64::MAX / 7 {
        values.push(v);
        values.push(-v);
        values.push(v + 1);
        v *= 7;
    }
    for c in values {
        assert_eq!(string_to_cents(&cents_to_string(c)), Ok(c), "{}", c);
    }
}

#[test]
fn parsed_text_written_again_parses_to_the_same() {
    for text in ["1", "1.0", "1.10", "01.1000", "-0.5", "-0", "0.0001", "123456.789", "2.5"] {
        let parsed = string_to_cents(text).unwrap();
        assert_eq!(string_to_cents(&cents_to_string(parsed)), Ok(parsed), "{}", text);
    }
    assert_eq!(cents_to_string(string_to_cents("1.10").unwrap()), "1.1");
    assert_eq!(cents_to_string(string_to_cents("-0").unwrap()), "0");
}

#[test]
fn decimal_digits_are_appended() {
    let mut out = String::from("n=");
    push_decimal(&mut out, 0);
    assert_eq!(out, "n=0");
    push_decimal(&mut out, 65535);
    assert_eq!(out, "n=065535");
    let mut out = String::new();
    push_decimal(&mut out, u64::MAX);
    assert_eq!(out, "18446744073709551615");
}
