use systemd_doctor::decimal::{
    is_decimal_digit, push_decimal, read_digits, read_hundredths, read_signed, read_unsigned,
    write_decimal, write_tenths,
};

fn chars(s: &str) -> Vec<char> {
    s.chars().collect()
}

#[test]
fn digits_are_zero_to_nine() {
    for c in "0123456789".chars() {
        assert!(is_decimal_digit(c));
    }
    assert!(!is_decimal_digit('/'));
    assert!(!is_decimal_digit(':'));
    assert!(!is_decimal_digit('a'));
    assert!(!is_decimal_digit('\u{0661}'));
}

#[test]
fn read_digits_reads_a_stretch() {
    let s = chars("ab123cd");
    assert_eq!(read_digits(&s, 2, 5, u64::MAX), Some(123));
    assert_eq!(read_digits(&s, 2, 2, u64::MAX), Some(0));
    assert_eq!(read_digits(&s, 1, 5, u64::MAX), None);
    assert_eq!(read_digits(&s, 2, 5, 122), None);
    assert_eq!(read_digits(&s, 2, 5, 123), Some(123));
    assert_eq!(read_digits(&s, 2, 5, 5), None);
}

#[test]
fn read_unsigned_agrees_with_std_parse() {
    let samples = [
        "", "0", "7", "007", "+7", "+", "-7", "++7", "7+", " 7", "7 ", "12a", "1_000",
        "18446744073709551615", "18446744073709551616", "99999999999999999999999",
        "+18446744073709551615", "0000000000000000000000000000001",
    ];
    for sample in samples {
        assert_eq!(
            read_unsigned(&chars(sample), u64::MAX),
            sample.parse::<u64>().ok(),
            "sample {:?}",
            sample
        );
    }
}

#[test]
fn read_unsigned_holds_to_the_maximum() {
    let samples = ["0", "4294967295", "4294967296", "+4294967295", "42949672950"];
    for sample in samples {
        assert_eq!(
            read_unsigned(&chars(sample), 0xffff_ffff),
            sample.parse::<u32>().ok().map(|n| n as u64),
            "sample {:?}",
            sample
        );
    }
}

#[test]
fn read_signed_agrees_with_std_parse() {
    let samples = [
        "", "0", "-0", "+0", "45123", "-45123", "+45123", "-", "+", "--1", "-+1", "+-1", "1-",
        "9223372036854775807", "9223372036854775808", "-9223372036854775808",
        "-9223372036854775809", "45.5", " 1",
    ];
    for sample in samples {
        assert_eq!(read_signed(&chars(sample)), sample.parse::<i64>().ok(), "sample {:?}", sample);
    }
}

#[test]
fn read_hundredths_reads_seconds_with_a_fraction() {
    assert_eq!(read_hundredths(&chars("12.34"), u64::MAX), Some(1234));
    assert_eq!(read_hundredths(&chars("7"), u64::MAX), Some(700));
    assert_eq!(read_hundredths(&chars("7."), u64::MAX), Some(700));
    assert_eq!(read_hundredths(&chars(".5"), u64::MAX), Some(50));
    assert_eq!(read_hundredths(&chars("0.05"), u64::MAX), Some(5));
    assert_eq!(read_hundredths(&chars("3.999"), u64::MAX), Some(399));
    assert_eq!(read_hundredths(&chars("350735.47"), u64::MAX), Some(35073547));
    assert_eq!(read_hundredths(&chars(""), u64::MAX), None);
    assert_eq!(read_hundredths(&chars("."), u64::MAX), None);
    assert_eq!(read_hundredths(&chars("1.2.3"), u64::MAX), None);
    assert_eq!(read_hundredths(&chars("1e3"), u64::MAX), None);
    assert_eq!(read_hundredths(&chars("-1.0"), u64::MAX), None);
    assert_eq!(read_hundredths(&chars("1.x"), u64::MAX), None);
    assert_eq!(read_hundredths(&chars("x.1"), u64::MAX), None);
}

#[test]
fn read_hundredths_holds_to_the_maximum() {
    assert_eq!(
        read_hundredths(&chars("184467440737095516.15"), u64::MAX),
        Some(18446744073709551615)
    );
    assert_eq!(read_hundredths(&chars("184467440737095516.16"), u64::MAX), None);
    assert_eq!(read_hundredths(&chars("184467440737095517"), u64::MAX), None);
    assert_eq!(read_hundredths(&chars("1.00"), 100), Some(100));
    assert_eq!(read_hundredths(&chars("1.01"), 100), None);
    assert_eq!(read_hundredths(&chars("0.5"), 49), None);
}

#[test]
fn write_decimal_agrees_with_std_to_string() {
    let samples = [0u64, 1, 9, 10, 11, 99, 100, 101, 1024, 65535, 4294967296, u64::MAX];
    for sample in samples {
        assert_eq!(write_decimal(sample), sample.to_string());
    }
}

#[test]
fn push_decimal_appends() {
    let mut out = String::from("@");
    push_decimal(&mut out, 1700000000);
    assert_eq!(out, "@1700000000");
}

#[test]
fn write_tenths_writes_at_most_one_decimal_place() {
    assert_eq!(write_tenths(123), "12.3");
    assert_eq!(write_tenths(120), "12");
    assert_eq!(write_tenths(0), "0");
    assert_eq!(write_tenths(5), "0.5");
    assert_eq!(write_tenths(1000), "100");
    assert_eq!(write_tenths(-5), "-0.5");
    assert_eq!(write_tenths(-123), "-12.3");
    assert_eq!(write_tenths(-120), "-12");
    assert_eq!(write_tenths(i64::MAX), "922337203685477580.7");
    assert_eq!(write_tenths(i64::MIN), "-922337203685477580.8");
}

#[test]
fn write_tenths_agrees_with_how_floats_are_shown() {
    let mut t: i64 = 0;
    while t < 25000 {
        let shown = (t as f64 / 10.0).to_string();
        assert_eq!(write_tenths(t), shown);
        t += 7;
    }
}

#[test]
fn reading_back_what_was_written_gives_the_number() {
    let samples = [0u64, 5, 10, 12345, u64::MAX];
    for sample in samples {
        let text: Vec<char> = write_decimal(sample).chars().collect();
        assert_eq!(read_unsigned(&text, u64::MAX), Some(sample));
    }
}
