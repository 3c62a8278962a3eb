use multisig_display::decode::{
    decode_ata, decode_instruction, decode_system, decode_system_transfer, decode_token, SystemTransfer,
};
use multisig_display::pubkey::{
    format_program_label, identify_mint, identify_program, truncate_pubkey, Pubkey,
};
use multisig_display::render::{Color, Span};
use std::str::FromStr;

fn key(b: u8) -> Pubkey {
    Pubkey { bytes: [b; 32] }
}

fn b58(k: &Pubkey) -> String {
    solana_sdk::pubkey::Pubkey::new_from_array(k.bytes).to_string()
}

fn parse(s: &str) -> Pubkey {
    Pubkey { bytes: solana_sdk::pubkey::Pubkey::from_str(s).unwrap().to_bytes() }
}

const USDC: &str = "EPjFWdd5AufqSSqeM2qN1xzybapC8G4wEGGkZwyTDt1v";

#[test]
fn token_transfer_summary() {
    let mut data = vec![3u8];
    data.extend_from_slice(&1000u64.to_le_bytes());
    let accounts = [key(1), key(2), key(3)];
    let expected = format!(
        "Transfer 1000 tokens\n    From:      {}\n    To:        {}\n    Authority: {}",
        b58(&key(1)),
        b58(&key(2)),
        b58(&key(3))
    );
    assert_eq!(decode_token(&data, &accounts), Some(expected));
}

#[test]
fn token_transfer_checked_known_mint() {
    let mut data = vec![12u8];
    data.extend_from_slice(&1_500_000u64.to_le_bytes());
    data.push(6);
    let usdc = parse(USDC);
    let accounts = [key(1), usdc, key(3), key(4)];
    let expected = format!(
        "TransferChecked 1.5 USDC (raw: 1500000, decimals: 6)\n    From:      {}\n    Mint:      {} (USDC)\n    To:        {}\n    Authority: {}",
        b58(&key(1)),
        USDC,
        b58(&key(3)),
        b58(&key(4))
    );
    assert_eq!(decode_token(&data, &accounts), Some(expected));
}

#[test]
fn token_transfer_checked_unknown_mint() {
    let mut data = vec![12u8];
    data.extend_from_slice(&2_000u64.to_le_bytes());
    data.push(3);
    let accounts = [key(1), key(2), key(3), key(4)];
    let expected = format!(
        "TransferChecked 2 tokens (raw: 2000, decimals: 3)\n    From:      {}\n    Mint:      {}\n    To:        {}\n    Authority: {}",
        b58(&key(1)),
        b58(&key(2)),
        b58(&key(3)),
        b58(&key(4))
    );
    assert_eq!(decode_token(&data, &accounts), Some(expected));
}

#[test]
fn token_other_or_short() {
    let accounts = [key(1), key(2), key(3), key(4)];
    assert_eq!(decode_token(&[], &accounts), None);
    assert_eq!(decode_token(&[3, 1, 2], &accounts), None);
    assert_eq!(decode_token(&[7, 0, 0, 0, 0, 0, 0, 0, 0, 0], &accounts), None);
    let mut data = vec![3u8];
    data.extend_from_slice(&1u64.to_le_bytes());
    assert_eq!(decode_token(&data, &accounts[..2]), None);
}

#[test]
fn ata_create_and_idempotent() {
    let accounts = [key(1), key(2), key(3), key(4)];
    let tail = format!(
        "\n    Funder: {}\n    ATA:    {}\n    Owner:  {}\n    Mint:   {}",
        b58(&key(1)),
        b58(&key(2)),
        b58(&key(3)),
        b58(&key(4))
    );
    assert_eq!(decode_ata(&[], &accounts), Some(format!("Create ATA{}", tail)));
    assert_eq!(decode_ata(&[0], &accounts), Some(format!("Create ATA{}", tail)));
    assert_eq!(decode_ata(&[1], &accounts), Some(format!("Create ATA (idempotent){}", tail)));
    assert_eq!(decode_ata(&[2], &accounts), None);
    assert_eq!(decode_ata(&[], &accounts[..3]), None);
}

#[test]
fn ata_known_mint_label() {
    let usdc = parse(USDC);
    let accounts = [key(1), key(2), key(3), usdc];
    let got = decode_ata(&[1], &accounts).unwrap();
    assert!(got.ends_with(&format!("Mint:   {} (USDC)", USDC)));
}

#[test]
fn system_transfer_summary() {
    let mut data = 2u32.to_le_bytes().to_vec();
    data.extend_from_slice(&5_000_000_000u64.to_le_bytes());
    let accounts = [key(1), key(2)];
    assert_eq!(
        decode_system_transfer(&data, &accounts),
        Some(SystemTransfer { lamports: 5_000_000_000, from: key(1), to: key(2) })
    );
    let spans = decode_system(&data, &accounts).unwrap();
    assert_eq!(
        spans,
        vec![
            Span::Text("Transfer ".to_string(), Color::Plain),
            Span::Sol(5_000_000_000),
            Span::Text(
                format!(
                    " SOL (5000000000 lamports)\n    From: {}\n    To:   {}",
                    b58(&key(1)),
                    b58(&key(2))
                ),
                Color::Plain
            ),
        ]
    );
}

#[test]
fn system_other_or_short() {
    let accounts = [key(1), key(2)];
    assert_eq!(decode_system(&[2, 0, 0], &accounts), None);
    let mut data = 3u32.to_le_bytes().to_vec();
    data.extend_from_slice(&1u64.to_le_bytes());
    assert_eq!(decode_system(&data, &accounts), None);
    let mut data = 2u32.to_le_bytes().to_vec();
    data.extend_from_slice(&1u64.to_le_bytes());
    assert_eq!(decode_system(&data, &accounts[..1]), None);
    assert_eq!(decode_system(&data[..8], &accounts), None);
}

#[test]
fn instruction_dispatch_by_program() {
    let token = Pubkey { bytes: spl_token::id().to_bytes() };
    let mut data = vec![3u8];
    data.extend_from_slice(&7u64.to_le_bytes());
    let accounts = [key(1), key(2), key(3)];
    let summary = decode_instruction(&token, &data, &accounts).unwrap();
    assert_eq!(summary.len(), 1);
    match &summary[0] {
        Span::Text(t, Color::Plain) => assert!(t.starts_with("Transfer 7 tokens")),
        other => panic!("unexpected {:?}", other),
    }
    let budget = parse("ComputeBudget111111111111111111111111111111");
    let got = decode_instruction(&budget, &[2, 0x40, 0x0d, 0x03, 0x00], &[]).unwrap();
    assert_eq!(got, vec![Span::Text("Set compute unit limit: 200000".to_string(), Color::Plain)]);
    let system = Pubkey::default();
    let mut data = 2u32.to_le_bytes().to_vec();
    data.extend_from_slice(&10u64.to_le_bytes());
    let got = decode_instruction(&system, &data, &[key(1), key(2)]).unwrap();
    assert_eq!(got[1], Span::Sol(10));
    assert_eq!(decode_instruction(&key(9), &data, &[key(1), key(2)]), None);
}

#[test]
fn well_known_programs_and_mints() {
    assert_eq!(identify_program(&Pubkey::default()), Some("System Program"));
    assert_eq!(identify_program(&Pubkey { bytes: spl_token::id().to_bytes() }), Some("SPL Token"));
    assert_eq!(
        identify_program(&Pubkey { bytes: spl_associated_token_account::id().to_bytes() }),
        Some("Associated Token Account")
    );
    assert_eq!(identify_program(&parse("SysvarRent111111111111111111111111111111111")), Some("Rent Sysvar"));
    assert_eq!(identify_program(&parse("SQDS4ep65T869zMMBKyuUq6aD6EgTu8psMjkvj52pCf")), Some("Squads v4"));
    assert_eq!(identify_program(&key(7)), None);
    assert_eq!(identify_mint(&parse(USDC)), Some("USDC"));
    assert_eq!(identify_mint(&parse("So11111111111111111111111111111111111111112")), Some("SOL"));
    assert_eq!(identify_mint(&parse("JUPyiwrYJFskUPiHa7hkeR8VUtAeFoSYbKedZNsDvCN")), Some("JUP"));
    assert_eq!(identify_mint(&key(7)), None);
}

#[test]
fn truncated_keys() {
    assert_eq!(truncate_pubkey(&Pubkey::default()), "1111..1111");
    let usdc = parse(USDC);
    assert_eq!(truncate_pubkey(&usdc), "EPjF..Dt1v");
    for b in [0u8, 1, 57, 58, 200, 255] {
        let text = b58(&key(b));
        let short = truncate_pubkey(&key(b));
        assert_eq!(short.len(), 10);
        assert_eq!(short, format!("{}..{}", &text[..4], &text[text.len() - 4..]));
    }
    let mut one = [0u8; 32];
    one[31] = 1;
    assert_eq!(truncate_pubkey(&Pubkey { bytes: one }), "1111..1112");
}

#[test]
fn program_labels() {
    assert_eq!(
        format_program_label(&Pubkey::default()),
        vec![Span::Text("  (System Program)".to_string(), Color::BrightBlack)]
    );
    assert_eq!(format_program_label(&key(7)), vec![]);
}
