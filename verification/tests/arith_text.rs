use candle_cuda::arith::{ceil_div, ceil_div_u32, checked_pad, pad};
use candle_cuda::shape::{copy_dims, dims2, dims3, elem_count, elem_count_fits, replace_last};
use candle_cuda::error::ErrorOf;
use candle_cuda::text::{parse_unsigned, push_decimal, str_eq};

#[test]
fn ceil_div_rounds_up() {
    assert_eq!(ceil_div(0, 7), 0);
    assert_eq!(ceil_div(1, 7), 1);
    assert_eq!(ceil_div(7, 7), 1);
    assert_eq!(ceil_div(8, 7), 2);
    assert_eq!(ceil_div(usize::MAX, 2), usize::MAX / 2 + 1);
    assert_eq!(ceil_div_u32(u32::MAX, 4), 1 << 30);
}

#[test]
fn pad_reaches_the_next_multiple() {
    assert_eq!(pad(0, 512), 0);
    assert_eq!(pad(1, 512), 512);
    assert_eq!(pad(256, 512), 512);
    assert_eq!(pad(512, 512), 512);
    assert_eq!(pad(513, 512), 1024);
    assert_eq!(pad(pad(700, 512), 512), pad(700, 512));
    assert!(pad(600, 512) <= pad(1500, 512));
}

#[test]
fn checked_pad_stops_at_the_machine() {
    assert_eq!(checked_pad(513, 512), Some(1024));
    assert_eq!(checked_pad(usize::MAX, 512), None);
}

#[test]
fn unsigned_text_is_read() {
    assert_eq!(parse_unsigned("0", 100), Some(0));
    assert_eq!(parse_unsigned("042", 100), Some(42));
    assert_eq!(parse_unsigned("+7", 100), Some(7));
    assert_eq!(parse_unsigned("100", 100), Some(100));
    assert_eq!(parse_unsigned("18446744073709551615", usize::MAX), Some(usize::MAX));
}

#[test]
fn other_text_is_no_number() {
    assert_eq!(parse_unsigned("", 100), None);
    assert_eq!(parse_unsigned("+", 100), None);
    assert_eq!(parse_unsigned("-1", 100), None);
    assert_eq!(parse_unsigned(" 1", 100), None);
    assert_eq!(parse_unsigned("1x", 100), None);
    assert_eq!(parse_unsigned("++1", 100), None);
    assert_eq!(parse_unsigned("101", 100), None);
    assert_eq!(parse_unsigned("18446744073709551616", usize::MAX), None);
}

#[test]
fn reading_agrees_with_the_standard_parser() {
    for text in ["5", "+5", "", "+", "05", "five", "-0", "4294967295", "4294967296"] {
        assert_eq!(
            parse_unsigned(text, u32::MAX as usize),
            text.parse::<u32>().ok().map(|v| v as usize),
            "{text:?}"
        );
    }
}

#[test]
fn decimal_text_reads_back() {
    for n in [0usize, 9, 10, 99, 1024, 65535, usize::MAX] {
        let mut out = String::from("n=");
        push_decimal(&mut out, n);
        assert_eq!(out, format!("n={n}"));
        assert_eq!(parse_unsigned(&out[2..], usize::MAX), Some(n));
    }
}

#[test]
fn strings_compare_by_characters() {
    assert!(str_eq("", ""));
    assert!(str_eq("q4k", "q4k"));
    assert!(!str_eq("q4k", "q5k"));
    assert!(!str_eq("q4k", "q4"));
}

#[test]
fn dims_are_counted_and_read() {
    assert_eq!(elem_count(&[]), 1);
    assert_eq!(elem_count(&[2, 3, 4]), 24);
    assert_eq!(elem_count(&[5, 0]), 0);
    assert!(elem_count_fits(&[2, 3, 4]));
    assert!(!elem_count_fits(&[usize::MAX, 2]));
    assert!(!elem_count_fits(&[usize::MAX, 2, 0]));
    assert_eq!(copy_dims(&[3, 1]), vec![3, 1]);
    assert_eq!(replace_last(&[3, 1, 8], 5), vec![3, 1, 5]);
    assert_eq!(dims2(&[3, 4]).unwrap(), (3, 4));
    assert_eq!(dims3(&[3, 4, 5]).unwrap(), (3, 4, 5));
    assert_eq!(
        dims2(&[3]),
        Err(ErrorOf::UnexpectedRank { expected: 2, got: 1, shape: vec![3] })
    );
    assert_eq!(
        dims3(&[3, 4]),
        Err(ErrorOf::UnexpectedRank { expected: 3, got: 2, shape: vec![3, 4] })
    );
}
