use sctp_perf::decimal::{append_decimal, parse_decimal};

fn written(n: usize) -> String {
    let mut text = String::new();
    append_decimal(&mut text, n);
    text
}

#[test]
fn parse_plain_numbers() {
    assert_eq!(parse_decimal("0", u64::MAX), Some(0));
    assert_eq!(parse_decimal("7", u64::MAX), Some(7));
    assert_eq!(parse_decimal("19100", u64::MAX), Some(19100));
    assert_eq!(parse_decimal("18446744073709551615", u64::MAX), Some(u64::MAX));
}

#[test]
fn parse_accepts_plus_and_leading_zeros() {
    assert_eq!(parse_decimal("+5", 10), Some(5));
    assert_eq!(parse_decimal("007", 10), Some(7));
    assert_eq!(parse_decimal("+000", 10), Some(0));
    assert_eq!(parse_decimal("00000000000000000000000000000012", 12), Some(12));
}

#[test]
fn parse_refuses_what_is_no_number() {
    for text in ["", "+", "-", "-5", "+-5", "++5", " 5", "5 ", "1_000", "0x10", "12a", "a12", "1.5", "٣", "5\u{0}"] {
        assert_eq!(parse_decimal(text, u64::MAX), None, "{:?}", text);
    }
}

#[test]
fn parse_holds_to_the_bound() {
    assert_eq!(parse_decimal("65535", 65535), Some(65535));
    assert_eq!(parse_decimal("65536", 65535), None);
    assert_eq!(parse_decimal("0", 0), Some(0));
    assert_eq!(parse_decimal("1", 0), None);
    assert_eq!(parse_decimal("9", 8), None);
    assert_eq!(parse_decimal("10", 9), None);
    assert_eq!(parse_decimal("18446744073709551616", u64::MAX), None);
    assert_eq!(parse_decimal("99999999999999999999999999", u64::MAX), None);
    assert_eq!(parse_decimal("99999999999999999999999999x", u64::MAX), None);
}

#[test]
fn append_writes_decimal_digits() {
    assert_eq!(written(0), "0");
    assert_eq!(written(7), "7");
    assert_eq!(written(10), "10");
    assert_eq!(written(6400), "6400");
    assert_eq!(written(1_000_000), "1000000");
    assert_eq!(written(usize::MAX), usize::MAX.to_string());
}

#[test]
fn append_keeps_what_was_there() {
    let mut text = String::from("n=");
    append_decimal(&mut text, 42);
    append_decimal(&mut text, 0);
    assert_eq!(text, "n=420");
}

#[test]
fn written_numbers_read_back() {
    for n in [0usize, 1, 9, 10, 99, 100, 255, 256, 19100, 65535, 4_294_967_295] {
        assert_eq!(parse_decimal(&written(n), u64::MAX), Some(n as u64));
    }
}

#[test]
fn reads_what_the_standard_parser_reads() {
    let alphabet = ['+', '-', '0', '1', '5', '9', ' ', 'a', '_', '.', '٣'];
    let mut texts = vec![String::new()];
    let mut from = 0;
    for _ in 0..4 {
        let until = texts.len();
        for i in from..until {
            for c in alphabet {
                let mut longer = texts[i].clone();
                longer.push(c);
                texts.push(longer);
            }
        }
        from = until;
    }
    for tail in ["65535", "65536", "065535", "18446744073709551615", "18446744073709551616"] {
        for head in ["", "+", "-", "0", "00000000000000000000"] {
            texts.push(format!("{head}{tail}"));
        }
    }
    assert!(texts.len() > 16000);
    for text in &texts {
        assert_eq!(parse_decimal(text, u64::MAX), text.parse::<u64>().ok(), "{:?}", text);
        assert_eq!(
            parse_decimal(text, u16::MAX as u64),
            text.parse::<u16>().ok().map(u64::from),
            "{:?}",
            text
        );
    }
}

#[test]
fn writes_what_the_standard_formatter_writes() {
    let mut n: usize = 0;
    for step in 0..2000usize {
        assert_eq!(written(n), n.to_string());
        n = n.wrapping_mul(31).wrapping_add(step);
    }
    for power in 0..usize::BITS {
        let n = 1usize << power;
        assert_eq!(written(n), n.to_string());
        assert_eq!(written(n - 1), (n - 1).to_string());
    }
}
