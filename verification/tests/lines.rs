use multisig_display::accounts::{
    AddressTableLookup, CompiledInstruction, KeySource, ResolvedKey, VaultTransactionMessage,
};
use multisig_display::command::{fetch_header_lines, DisplayTransaction};
use multisig_display::config::config_transaction_lines;
use multisig_display::display::{
    batch_transaction_lines, format_tags_short, instruction_lines, resolved_key_line, vault_body_lines,
    vault_body_lines_until_overflow, vault_header_lines, SEPARATOR,
};
use multisig_display::pubkey::Pubkey;
use multisig_display::render::{Color, Line, Span};
use multisig_display::transaction::{
    classify_account, Batch, ConfigAction, ConfigTransaction, Member, Period, Permissions, TransactionAccount,
    UnknownAccount, VaultTransaction,
};

fn key(b: u8) -> Pubkey {
    Pubkey { bytes: [b; 32] }
}

fn b58(k: &Pubkey) -> String {
    solana_sdk::pubkey::Pubkey::new_from_array(k.bytes).to_string()
}

fn t(s: &str, c: Color) -> Span {
    Span::Text(s.to_string(), c)
}

fn p(s: &str) -> Span {
    t(s, Color::Plain)
}

/// The text of a line with its colors left out.
fn flat(line: &Line) -> String {
    line.iter()
        .map(|s| match s {
            Span::Text(t, _) => t.clone(),
            Span::Sol(l) => format!("<{} lamports>", l),
        })
        .collect()
}

fn rk(pubkey: Pubkey, writable: bool, signer: bool, source: KeySource) -> ResolvedKey {
    ResolvedKey { pubkey, writable, signer, source }
}

#[test]
fn short_tags() {
    assert_eq!(
        format_tags_short(&rk(key(1), true, true, KeySource::Static)),
        vec![p(" ["), t("w", Color::Red), p(","), t("s", Color::Green), p("]")]
    );
    assert_eq!(
        format_tags_short(&rk(key(1), false, true, KeySource::Static)),
        vec![p(" ["), t("s", Color::Green), p("]")]
    );
    assert_eq!(format_tags_short(&rk(key(1), false, false, KeySource::Static)), vec![]);
}

#[test]
fn key_lines() {
    let line = resolved_key_line(3, &rk(Pubkey::default(), true, true, KeySource::Static));
    assert_eq!(
        line,
        vec![
            p("  ["),
            t("3", Color::BrightBlack),
            p("] 11111111111111111111111111111111"),
            p("  ["),
            t("signer", Color::Green),
            p(", "),
            t("writable", Color::Red),
            p("]"),
            t("  (System Program)", Color::BrightBlack),
        ]
    );
    let line = resolved_key_line(0, &rk(key(5), false, false, KeySource::Lookup(Pubkey::default(), 7)));
    assert_eq!(flat(&line), format!("  [0] {}  (ALT 1111..1111[7])", b58(&key(5))));
    let line = resolved_key_line(1, &rk(key(5), true, false, KeySource::LookupUnresolved(Pubkey::default())));
    assert_eq!(flat(&line), format!("  [1] {}  [writable]  (ALT 1111..1111 unresolved)", b58(&key(5))));
}

#[test]
fn instruction_block_with_raw_data() {
    let keys = vec![
        rk(key(9), false, false, KeySource::Static),
        rk(key(1), true, true, KeySource::Static),
    ];
    let ix = CompiledInstruction { program_id_index: 0, account_indexes: vec![1, 4], data: vec![0xde, 0xad] };
    let lines = instruction_lines(2, &ix, &keys);
    let texts: Vec<String> = lines.iter().map(flat).collect();
    assert_eq!(
        texts,
        vec![
            SEPARATOR.to_string(),
            "  Instruction 2: Unknown Program".to_string(),
            "  Accounts:".to_string(),
            format!("    [1] {} [w,s]", b58(&key(1))),
            "    [4] <out of range>".to_string(),
            "  Data: 2 bytes: dead".to_string(),
        ]
    );
    assert_eq!(lines[1][1], t("Instruction 2:", Color::Cyan));
    assert_eq!(lines[1][3], t("Unknown Program", Color::Yellow));
    assert_eq!(lines[4][3], t("<out of range>", Color::Red));
}

#[test]
fn instruction_block_long_data_is_cut() {
    let keys = vec![rk(key(9), false, false, KeySource::Static)];
    let ix = CompiledInstruction { program_id_index: 0, account_indexes: vec![], data: vec![0x11; 70] };
    let lines = instruction_lines(0, &ix, &keys);
    let last = flat(lines.last().unwrap());
    assert_eq!(last, format!("  Data: 70 bytes: {}...", "11".repeat(64)));
}

#[test]
fn instruction_block_with_summary() {
    let keys = vec![rk(Pubkey::default(), false, false, KeySource::Static), rk(key(1), true, true, KeySource::Static)];
    let mut data = 2u32.to_le_bytes().to_vec();
    data.extend_from_slice(&1_000_000_000u64.to_le_bytes());
    let ix = CompiledInstruction { program_id_index: 0, account_indexes: vec![1, 1], data };
    let lines = instruction_lines(0, &ix, &keys);
    assert_eq!(flat(&lines[1]), "  Instruction 0: System Program");
    assert_eq!(lines[2][0], p("  "));
    assert_eq!(lines[2][1], p("Transfer "));
    assert_eq!(lines[2][2], Span::Sol(1_000_000_000));
    assert_eq!(lines.len(), 6);
}

#[test]
fn vault_lines() {
    let msg = VaultTransactionMessage {
        num_signers: 1,
        num_writable_signers: 1,
        num_writable_non_signers: 0,
        account_keys: vec![key(1), Pubkey::default()],
        instructions: vec![CompiledInstruction { program_id_index: 1, account_indexes: vec![0], data: vec![] }],
        address_table_lookups: vec![],
    };
    let tx = VaultTransaction {
        creator: key(3),
        index: 42,
        vault_index: 0,
        ephemeral_signer_bumps: vec![255],
        message: msg.clone(),
    };
    let header: Vec<String> = vault_header_lines(&tx).iter().map(flat).collect();
    assert_eq!(
        header,
        vec![
            "Type:             Vault Transaction".to_string(),
            format!("Creator:          {}", b58(&key(3))),
            "Index:            42".to_string(),
            "Vault Index:      0".to_string(),
            "Ephemeral Signers: 1".to_string(),
            String::new(),
        ]
    );
    let keys = multisig_display::accounts::resolve_account_keys(&msg, &vec![]).unwrap();
    let body = vault_body_lines(&msg, &keys);
    assert_eq!(vault_body_lines_until_overflow(&msg, &keys), (vault_body_lines(&msg, &keys), false));
    let texts: Vec<String> = body.iter().map(flat).collect();
    assert_eq!(texts[0], "Account Keys:");
    assert_eq!(texts[1], format!("  [0] {}  [signer, writable]", b58(&key(1))));
    assert_eq!(texts[2], "  [1] 11111111111111111111111111111111  (System Program)");
    assert_eq!(texts[3], "");
    assert_eq!(texts[4], "Instructions:");
    assert_eq!(texts[5], SEPARATOR);
    assert_eq!(texts[6], "  Instruction 0: System Program");
    assert_eq!(texts.last().unwrap(), SEPARATOR);
}

#[test]
fn out_of_range_decimals_stop_after_the_heading() {
    let token = Pubkey { bytes: spl_token::id().to_bytes() };
    let mut data = vec![12u8];
    data.extend_from_slice(&1u64.to_le_bytes());
    data.push(25);
    let msg = VaultTransactionMessage {
        num_signers: 0,
        num_writable_signers: 0,
        num_writable_non_signers: 0,
        account_keys: vec![token, key(1)],
        instructions: vec![
            CompiledInstruction { program_id_index: 1, account_indexes: vec![], data: vec![] },
            CompiledInstruction { program_id_index: 0, account_indexes: vec![1, 1, 1, 1], data },
            CompiledInstruction { program_id_index: 1, account_indexes: vec![], data: vec![] },
        ],
        address_table_lookups: vec![],
    };
    let keys = multisig_display::accounts::resolve_account_keys(&msg, &vec![]).unwrap();
    let (lines, stopped) = vault_body_lines_until_overflow(&msg, &keys);
    assert!(stopped);
    let texts: Vec<String> = lines.iter().map(flat).collect();
    assert_eq!(texts.len(), 5 + 3 + 2);
    assert_eq!(texts[5], SEPARATOR);
    assert_eq!(texts[6], "  Instruction 0: Unknown Program");
    assert_eq!(texts[8], SEPARATOR);
    assert_eq!(texts[9], "  Instruction 1: SPL Token");
}

#[test]
fn config_lines() {
    let tx = ConfigTransaction {
        creator: key(1),
        index: 7,
        actions: vec![
            ConfigAction::AddMember { new_member: Member { key: key(2), permissions: Permissions { mask: 3 } } },
            ConfigAction::ChangeThreshold { new_threshold: 2 },
            ConfigAction::SetTimeLock { new_time_lock: 60 },
            ConfigAction::AddSpendingLimit {
                create_key: key(3),
                vault_index: 1,
                mint: Pubkey::default(),
                amount: 500,
                period: Period::Week,
                members: vec![key(4)],
                destinations: vec![],
            },
            ConfigAction::SetRentCollector { new_rent_collector: None },
            ConfigAction::Unknown,
        ],
    };
    let texts: Vec<String> = config_transaction_lines(&tx).iter().map(flat).collect();
    let expected = vec![
        "Type:             Config Transaction".to_string(),
        format!("Creator:          {}", b58(&key(1))),
        "Index:            7".to_string(),
        String::new(),
        "Actions (6):".to_string(),
        SEPARATOR.to_string(),
        "  Action 0: Add Member".to_string(),
        format!("    Key:         {}", b58(&key(2))),
        "    Permissions: Initiate, Vote (3)".to_string(),
        SEPARATOR.to_string(),
        "  Action 1: Change Threshold".to_string(),
        "    New Threshold: 2".to_string(),
        SEPARATOR.to_string(),
        "  Action 2: Set Time Lock".to_string(),
        "    New Time Lock: 60 seconds".to_string(),
        SEPARATOR.to_string(),
        "  Action 3: Add Spending Limit".to_string(),
        format!("    Create Key:  {}", b58(&key(3))),
        "    Vault Index: 1".to_string(),
        "    Mint:        11111111111111111111111111111111  (System Program)".to_string(),
        "    Amount:      500".to_string(),
        "    Period:      Weekly".to_string(),
        "    Members:".to_string(),
        format!("      - {}", b58(&key(4))),
        "    Destinations: any".to_string(),
        SEPARATOR.to_string(),
        "  Action 4: Set Rent Collector".to_string(),
        "    Rent Collector: None (disabled)".to_string(),
        SEPARATOR.to_string(),
        "  Action 5: Unknown Config Action".to_string(),
        SEPARATOR.to_string(),
    ];
    assert_eq!(texts, expected);
}

#[test]
fn batch_lines() {
    let batch = Batch { creator: key(1), index: 3, vault_index: 2, size: 10, executed_transaction_index: 4 };
    let lines = batch_transaction_lines(&batch);
    assert_eq!(lines[0], vec![p("Type:             "), t("Batch Transaction", Color::Cyan)]);
    let texts: Vec<String> = lines.iter().map(flat).collect();
    assert_eq!(texts[4], "Batch Size:       10");
    assert_eq!(texts[5], "Executed So Far:  4");
}

#[test]
fn account_kinds_in_order() {
    let batch = Batch { creator: key(1), index: 3, vault_index: 2, size: 10, executed_transaction_index: 4 };
    let config = ConfigTransaction { creator: key(1), index: 1, actions: vec![] };
    assert_eq!(
        classify_account(None, Some(config.clone()), Some(batch)),
        Ok(TransactionAccount::Config(config))
    );
    assert_eq!(classify_account(None, None, Some(batch)), Ok(TransactionAccount::Batch(batch)));
    assert_eq!(classify_account(None, None, None), Err(UnknownAccount));
}

#[test]
fn command_defaults_and_header() {
    let cmd = DisplayTransaction {
        rpc_url: None,
        program_id: None,
        multisig_pubkey: "abc".to_string(),
        transaction_index: 1,
    };
    assert_eq!(cmd.program_id_text(), "SQDS4ep65T869zMMBKyuUq6aD6EgTu8psMjkvj52pCf");
    assert_eq!(cmd.rpc_url_text(), "https://api.mainnet-beta.solana.com");
    let given = DisplayTransaction { rpc_url: Some("http://x".to_string()), program_id: Some("P".to_string()), ..cmd };
    assert_eq!(given.program_id_text(), "P");
    assert_eq!(given.rpc_url_text(), "http://x");
    let lines = fetch_header_lines("http://x", &Pubkey::default(), "abc", &key(2));
    let texts: Vec<String> = lines.iter().map(flat).collect();
    assert_eq!(texts[1], "Fetching transaction details...");
    assert_eq!(lines[1][0], t("Fetching transaction details...", Color::Yellow));
    assert_eq!(texts[3], "RPC Cluster URL:   http://x");
    assert_eq!(texts[4], "Program ID:        11111111111111111111111111111111");
    assert_eq!(texts[5], "Multisig Key:      abc");
    assert_eq!(texts[6], format!("Transaction PDA:   {}", b58(&key(2))));
    assert_eq!(texts.len(), 8);
}

#[test]
fn lookup_key_listing() {
    let msg = VaultTransactionMessage {
        num_signers: 0,
        num_writable_signers: 0,
        num_writable_non_signers: 0,
        account_keys: vec![],
        instructions: vec![],
        address_table_lookups: vec![AddressTableLookup {
            account_key: key(8),
            writable_indexes: vec![],
            readonly_indexes: vec![],
        }],
    };
    assert_eq!(multisig_display::accounts::lookup_table_keys(&msg), vec![key(8)]);
}

#[test]
fn command_keys_from_text() {
    let cmd = DisplayTransaction {
        rpc_url: None,
        program_id: None,
        multisig_pubkey: "EPjFWdd5AufqSSqeM2qN1xzybapC8G4wEGGkZwyTDt1v".to_string(),
        transaction_index: 1,
    };
    let squads = cmd.program_key().unwrap();
    assert_eq!(b58(&squads), "SQDS4ep65T869zMMBKyuUq6aD6EgTu8psMjkvj52pCf");
    assert_eq!(b58(&cmd.multisig_key().unwrap()), "EPjFWdd5AufqSSqeM2qN1xzybapC8G4wEGGkZwyTDt1v");
    let bad = DisplayTransaction { program_id: Some("not a key".to_string()), multisig_pubkey: "0OIl".to_string(), ..cmd };
    assert_eq!(bad.program_key(), None);
    assert_eq!(bad.multisig_key(), None);
}
