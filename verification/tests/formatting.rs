use multisig_display::amount::format_token_amount;
use multisig_display::config::{format_period, format_permissions};
use multisig_display::decode::decode_compute_budget;
use multisig_display::text::{decimal_text, to_hex};
use multisig_display::transaction::Period;

#[test]
fn hex_of_bytes() {
    assert_eq!(to_hex(&[0x00, 0xab, 0xff, 0x10]), "00abff10");
    assert_eq!(to_hex(&[]), "");
}

#[test]
fn decimal_of_numbers() {
    assert_eq!(decimal_text(0), "0");
    assert_eq!(decimal_text(1234567890), "1234567890");
    assert_eq!(decimal_text(u64::MAX), "18446744073709551615");
}

#[test]
fn token_amount_whole_units() {
    assert_eq!(format_token_amount(1_000_000, 6), "1");
    assert_eq!(format_token_amount(123, 0), "123");
    assert_eq!(format_token_amount(0, 9), "0");
}

#[test]
fn token_amount_with_fraction() {
    assert_eq!(format_token_amount(1_500_000, 6), "1.5");
    assert_eq!(format_token_amount(5, 3), "0.005");
    assert_eq!(format_token_amount(1_234_567_890, 9), "1.23456789");
    assert_eq!(format_token_amount(u64::MAX, 19), "1.8446744073709551615");
    assert_eq!(format_token_amount(u64::MAX, 9), "18446744073.709551615");
}

#[test]
fn permissions_of_masks() {
    assert_eq!(format_permissions(0), "None (0)");
    assert_eq!(format_permissions(7), "Initiate, Vote, Execute (7)");
    assert_eq!(format_permissions(2), "Vote (2)");
    assert_eq!(format_permissions(5), "Initiate, Execute (5)");
    assert_eq!(format_permissions(8), "None (8)");
}

#[test]
fn period_names() {
    assert_eq!(format_period(&Period::OneTime), "One-Time");
    assert_eq!(format_period(&Period::Day), "Daily");
    assert_eq!(format_period(&Period::Week), "Weekly");
    assert_eq!(format_period(&Period::Month), "Monthly");
}

#[test]
fn compute_budget_limit_and_price() {
    assert_eq!(
        decode_compute_budget(&[2, 0x40, 0x0d, 0x03, 0x00]).as_deref(),
        Some("Set compute unit limit: 200000")
    );
    let mut data = vec![3u8];
    data.extend_from_slice(&1000u64.to_le_bytes());
    assert_eq!(
        decode_compute_budget(&data).as_deref(),
        Some("Set compute unit price: 1000 micro-lamports")
    );
}

#[test]
fn compute_budget_other_instructions() {
    assert_eq!(decode_compute_budget(&[]), None);
    assert_eq!(decode_compute_budget(&[2, 1, 2]), None);
    assert_eq!(decode_compute_budget(&[3, 1, 2, 3, 4]), None);
    assert_eq!(decode_compute_budget(&[9, 0, 0, 0, 0, 0, 0, 0, 0]), None);
}

#[test]
fn hex_reads_back() {
    let bytes: Vec<u8> = (0u8..=255).collect();
    let text = to_hex(&bytes);
    assert_eq!(text.len(), 2 * bytes.len());
    let back: Vec<u8> = (0..bytes.len())
        .map(|i| u8::from_str_radix(&text[2 * i..2 * i + 2], 16).unwrap())
        .collect();
    assert_eq!(back, bytes);
}

#[test]
fn token_amount_loses_nothing() {
    for (amount, decimals) in [(u64::MAX, 9u8), (1_234_500u64, 4u8), (7, 19), (10, 1), (999_999, 6)] {
        let text = format_token_amount(amount, decimals);
        let (whole, frac) = match text.split_once('.') {
            Some((w, f)) => (w.to_string(), f.to_string()),
            None => (text.clone(), String::new()),
        };
        assert!(frac.len() <= decimals as usize);
        assert!(!frac.ends_with('0'));
        let scale = 10u128.pow(decimals as u32);
        let frac_value: u128 = if frac.is_empty() { 0 } else { frac.parse().unwrap() };
        let rebuilt = whole.parse::<u128>().unwrap() * scale
            + frac_value * 10u128.pow(decimals as u32 - frac.len() as u32);
        assert_eq!(rebuilt, amount as u128);
    }
}
