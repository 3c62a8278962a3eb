//! Human-readable summaries of instructions of well-known programs: system
//! transfers, SPL token transfers, associated token account creation and
//! compute budget settings.
use vstd::prelude::*;
use crate::amount::{format_token_amount, token_amount_text};
use crate::pubkey::{
    Pubkey, associated_token_id, associated_token_key, base58, compute_budget_id, compute_budget_id_key,
    identify_mint, keys_equal, mint_name, pubkey_text, spl_token_id, spl_token_key,
    system_program_id, system_program_key, token_2022_id, token_2022_id_key,
};
use crate::render::{Color, Line, Span, SpanView, line_view, plain};
use crate::text::{decimal, push_decimal};

verus! {

/// The unsigned little-endian value of the `n` bytes of `s` from `start`.
pub open spec fn le_bytes(s: Seq<u8>, start: int, n: nat) -> nat
    decreases n,
{
    if n == 0 {
        0
    } else {
        s[start] as nat + 256 * le_bytes(s, start + 1, (n - 1) as nat)
    }
}

/// The text of an optional text.
pub open spec fn text_view(o: Option<String>) -> Option<Seq<char>> {
    match o {
        Some(s) => Some(s@),
        None => None,
    }
}

/// The text of a key.
pub open spec fn key_text(k: Pubkey) -> Seq<char> {
    base58(k.bytes@)
}

/// A mint as shown in a token instruction: its key, followed by " (symbol)"
/// when it is a well-known mint.
pub open spec fn mint_label(k: Pubkey) -> Seq<char> {
    match mint_name(k) {
        Some(n) => key_text(k) + " ("@ + n + ")"@,
        None => key_text(k),
    }
}

/// The value of a `u32` stored little-endian at `data[start..start + 4]`.
pub fn read_u32_le(data: &[u8], start: usize) -> (v: u32)
    requires
        start + 4 <= data@.len(),
    ensures
        v as nat == le_bytes(data@, start as int, 4),
{
    proof {
        reveal_with_fuel(le_bytes, 5);
    }
    (data[start] as u32) + (data[start + 1] as u32) * 256 + (data[start + 2] as u32) * 65536
        + (data[start + 3] as u32) * 16777216
}

/// The value of a `u64` stored little-endian at `data[start..start + 8]`.
pub fn read_u64_le(data: &[u8], start: usize) -> (v: u64)
    requires
        start + 8 <= data@.len(),
    ensures
        v as nat == le_bytes(data@, start as int, 8),
{
    proof {
        reveal_with_fuel(le_bytes, 9);
    }
    (data[start] as u64) + (data[start + 1] as u64) * 256 + (data[start + 2] as u64) * 65536
        + (data[start + 3] as u64) * 16777216 + (data[start + 4] as u64) * 4294967296
        + (data[start + 5] as u64) * 1099511627776 + (data[start + 6] as u64) * 281474976710656
        + (data[start + 7] as u64) * 72057594037927936
}

/// Appends the base-58 text of a key.
pub fn push_key(s: &mut String, k: &Pubkey)
    ensures
        final(s)@ == old(s)@ + key_text(*k),
{
    let t = pubkey_text(k);
    s.append(t.as_str());
}

/// The mint label of a key, as `mint_label` says.
pub fn format_mint_label(k: &Pubkey) -> (s: String)
    ensures
        s@ == mint_label(*k),
{
    let mut s = String::new();
    push_key(&mut s, k);
    match identify_mint(k) {
        Some(name) => {
            s.append(" (");
            s.append(name);
            s.append(")");
        },
        None => {},
    }
    assert(s@ =~= mint_label(*k));
    s
}

/// The summary of a compute budget instruction: setting the unit limit
/// (tag 2, a `u32`) or the unit price (tag 3, a `u64`); none for others.
pub open spec fn compute_budget_text(data: Seq<u8>) -> Option<Seq<char>> {
    if data.len() == 0 {
        None
    } else if data[0] == 2 && data.len() >= 5 {
        Some("Set compute unit limit: "@ + decimal(le_bytes(data, 1, 4)))
    } else if data[0] == 3 && data.len() >= 9 {
        Some("Set compute unit price: "@ + decimal(le_bytes(data, 1, 8)) + " micro-lamports"@)
    } else {
        None
    }
}

/// Summarizes a compute budget instruction, as `compute_budget_text` says.
pub fn decode_compute_budget(data: &[u8]) -> (r: Option<String>)
    ensures
        text_view(r) == compute_budget_text(data@),
{
    if data.len() == 0 {
        return None;
    }
    if data[0] == 2 && data.len() >= 5 {
        let limit = read_u32_le(data, 1);
        let mut s = "Set compute unit limit: ".to_owned();
        push_decimal(&mut s, limit as u64);
        Some(s)
    } else if data[0] == 3 && data.len() >= 9 {
        let price = read_u64_le(data, 1);
        let mut s = "Set compute unit price: ".to_owned();
        push_decimal(&mut s, price);
        s.append(" micro-lamports");
        Some(s)
    } else {
        None
    }
}

/// Whether a `TransferChecked` token instruction, if the data and accounts
/// make one, has at most 19 decimals (ten to that power must fit in a `u64`).
pub open spec fn transfer_checked_in_range(data: Seq<u8>, n_accounts: nat) -> bool {
    data.len() >= 10 && data[0] == 12 && n_accounts >= 4 ==> data[9] <= 19
}

/// The summary of an SPL token instruction: `Transfer` (tag 3: amount,
/// source, destination, authority) or `TransferChecked` (tag 12: amount,
/// decimals; source, mint, destination, authority); none for others.
pub open spec fn token_text(data: Seq<u8>, accounts: Seq<Pubkey>) -> Option<Seq<char>> {
    if data.len() == 0 {
        None
    } else if data[0] == 3 && data.len() >= 9 && accounts.len() >= 3 {
        Some(
            "Transfer "@ + decimal(le_bytes(data, 1, 8)) + " tokens\n    From:      "@ + key_text(
                accounts[0],
            ) + "\n    To:        "@ + key_text(accounts[1]) + "\n    Authority: "@ + key_text(
                accounts[2],
            ),
        )
    } else if data[0] == 12 && data.len() >= 10 && accounts.len() >= 4 {
        let amount = le_bytes(data, 1, 8);
        let decimals = data[9];
        let symbol = match mint_name(accounts[1]) {
            Some(n) => n,
            None => "tokens"@,
        };
        Some(
            "TransferChecked "@ + token_amount_text(amount as u64, decimals) + " "@ + symbol
                + " (raw: "@ + decimal(amount) + ", decimals: "@ + decimal(decimals as nat)
                + ")\n    From:      "@ + key_text(accounts[0]) + "\n    Mint:      "@
                + mint_label(accounts[1]) + "\n    To:        "@ + key_text(accounts[2])
                + "\n    Authority: "@ + key_text(accounts[3]),
        )
    } else {
        None
    }
}

/// Summarizes an SPL token instruction, as `token_text` says.
pub fn decode_token(data: &[u8], accounts: &[Pubkey]) -> (r: Option<String>)
    requires
        transfer_checked_in_range(data@, accounts@.len()),
    ensures
        text_view(r) == token_text(data@, accounts@),
{
    if data.len() == 0 {
        return None;
    }
    if data[0] == 3 && data.len() >= 9 && accounts.len() >= 3 {
        let amount = read_u64_le(data, 1);
        let mut s = "Transfer ".to_owned();
        push_decimal(&mut s, amount);
        s.append(" tokens\n    From:      ");
        push_key(&mut s, &accounts[0]);
        s.append("\n    To:        ");
        push_key(&mut s, &accounts[1]);
        s.append("\n    Authority: ");
        push_key(&mut s, &accounts[2]);
        assert(s@ =~= token_text(data@, accounts@).unwrap());
        Some(s)
    } else if data[0] == 12 && data.len() >= 10 && accounts.len() >= 4 {
        let amount = read_u64_le(data, 1);
        let decimals = data[9];
        let human = format_token_amount(amount, decimals);
        let mint = identify_mint(&accounts[1]);
        let mut s = "TransferChecked ".to_owned();
        s.append(human.as_str());
        s.append(" ");
        match mint {
            Some(name) => s.append(name),
            None => s.append("tokens"),
        }
        s.append(" (raw: ");
        push_decimal(&mut s, amount);
        s.append(", decimals: ");
        push_decimal(&mut s, decimals as u64);
        s.append(")\n    From:      ");
        push_key(&mut s, &accounts[0]);
        s.append("\n    Mint:      ");
        let label = format_mint_label(&accounts[1]);
        s.append(label.as_str());
        s.append("\n    To:        ");
        push_key(&mut s, &accounts[2]);
        s.append("\n    Authority: ");
        push_key(&mut s, &accounts[3]);
        assert(s@ =~= token_text(data@, accounts@).unwrap());
        Some(s)
    } else {
        None
    }
}

/// The summary of an associated token account instruction: with at least
/// four accounts, `Create` (empty data or tag 0) or `CreateIdempotent`
/// (tag 1), showing funder, account, owner and mint; none otherwise.
pub open spec fn ata_text(data: Seq<u8>, accounts: Seq<Pubkey>) -> Option<Seq<char>> {
    if accounts.len() < 4 {
        None
    } else {
        let variant: u8 = if data.len() == 0 {
            0
        } else {
            data[0]
        };
        if variant > 1 {
            None
        } else {
            let kind = if variant == 0 {
                "Create ATA"@
            } else {
                "Create ATA (idempotent)"@
            };
            Some(
                kind + "\n    Funder: "@ + key_text(accounts[0]) + "\n    ATA:    "@ + key_text(
                    accounts[1],
                ) + "\n    Owner:  "@ + key_text(accounts[2]) + "\n    Mint:   "@ + mint_label(
                    accounts[3],
                ),
            )
        }
    }
}

/// Summarizes an associated token account instruction, as `ata_text` says.
pub fn decode_ata(data: &[u8], accounts: &[Pubkey]) -> (r: Option<String>)
    ensures
        text_view(r) == ata_text(data@, accounts@),
{
    if accounts.len() < 4 {
        return None;
    }
    let variant: u8 = if data.len() == 0 {
        0
    } else {
        data[0]
    };
    let mut s = if variant == 0 {
        "Create ATA".to_owned()
    } else if variant == 1 {
        "Create ATA (idempotent)".to_owned()
    } else {
        return None;
    };
    s.append("\n    Funder: ");
    push_key(&mut s, &accounts[0]);
    s.append("\n    ATA:    ");
    push_key(&mut s, &accounts[1]);
    s.append("\n    Owner:  ");
    push_key(&mut s, &accounts[2]);
    s.append("\n    Mint:   ");
    let label = format_mint_label(&accounts[3]);
    s.append(label.as_str());
    assert(s@ =~= ata_text(data@, accounts@).unwrap());
    Some(s)
}

/// A system program transfer: the lamports moved, from and to whom.
#[derive(Clone, Copy, Debug, PartialEq, Eq)]
pub struct SystemTransfer {
    pub lamports: u64,
    pub from: Pubkey,
    pub to: Pubkey,
}

/// The system transfer in the data and accounts: instruction 2 (a `u32`
/// tag) followed by a `u64` amount, with at least two accounts.
pub open spec fn system_transfer(data: Seq<u8>, accounts: Seq<Pubkey>) -> Option<SystemTransfer> {
    if data.len() >= 12 && le_bytes(data, 0, 4) == 2 && accounts.len() >= 2 {
        Some(
            SystemTransfer {
                lamports: le_bytes(data, 4, 8) as u64,
                from: accounts[0],
                to: accounts[1],
            },
        )
    } else {
        None
    }
}

/// The pieces of the summary of a system transfer: the amount in SOL, then
/// in lamports, and the two accounts.
pub open spec fn transfer_spans(t: SystemTransfer) -> Seq<SpanView> {
    seq![
        plain("Transfer "@),
        SpanView::Sol(t.lamports),
        plain(
            " SOL ("@ + decimal(t.lamports as nat) + " lamports)\n    From: "@ + key_text(t.from)
                + "\n    To:   "@ + key_text(t.to),
        ),
    ]
}

/// The summary of a system program instruction: its transfer, if it is one.
pub open spec fn system_spans(data: Seq<u8>, accounts: Seq<Pubkey>) -> Option<Seq<SpanView>> {
    match system_transfer(data, accounts) {
        Some(t) => Some(transfer_spans(t)),
        None => None,
    }
}

/// The transfer a system program instruction makes, as `system_transfer`
/// says.
pub fn decode_system_transfer(data: &[u8], accounts: &[Pubkey]) -> (r: Option<SystemTransfer>)
    ensures
        r == system_transfer(data@, accounts@),
{
    if data.len() < 4 {
        return None;
    }
    let disc = read_u32_le(data, 0);
    if disc == 2 && data.len() >= 12 && accounts.len() >= 2 {
        let lamports = read_u64_le(data, 4);
        Some(SystemTransfer { lamports, from: accounts[0], to: accounts[1] })
    } else {
        None
    }
}

/// The pieces that show a system transfer, as `transfer_spans` says.
pub fn describe_system_transfer(t: &SystemTransfer) -> (l: Line)
    ensures
        line_view(l@) == transfer_spans(*t),
{
    let mut l: Line = Vec::new();
    l.push(Span::Text("Transfer ".to_owned(), Color::Plain));
    l.push(Span::Sol(t.lamports));
    let mut s = " SOL (".to_owned();
    push_decimal(&mut s, t.lamports);
    s.append(" lamports)\n    From: ");
    push_key(&mut s, &t.from);
    s.append("\n    To:   ");
    push_key(&mut s, &t.to);
    l.push(Span::Text(s, Color::Plain));
    assert(line_view(l@) =~= transfer_spans(*t));
    l
}

/// Summarizes a system program instruction, as `system_spans` says.
pub fn decode_system(data: &[u8], accounts: &[Pubkey]) -> (r: Option<Line>)
    ensures
        match r {
            Some(l) => system_spans(data@, accounts@) == Some(line_view(l@)),
            None => system_spans(data@, accounts@) is None,
        },
{
    match decode_system_transfer(data, accounts) {
        Some(t) => Some(describe_system_transfer(&t)),
        None => None,
    }
}

/// A text as a single uncolored piece.
pub open spec fn as_spans(t: Option<Seq<char>>) -> Option<Seq<SpanView>> {
    match t {
        Some(s) => Some(seq![plain(s)]),
        None => None,
    }
}

/// Whether the program is one of the two SPL token programs.
pub open spec fn is_token_program(p: Pubkey) -> bool {
    p == spl_token_id() || p == token_2022_id()
}

/// The summary of an instruction of the given program: of the system
/// program, of either token program, of the associated token account
/// program or of the compute budget program; none for any other.
pub open spec fn instruction_summary(program: Pubkey, data: Seq<u8>, accounts: Seq<Pubkey>) -> Option<
    Seq<SpanView>,
> {
    if program == system_program_id() {
        system_spans(data, accounts)
    } else if is_token_program(program) {
        as_spans(token_text(data, accounts))
    } else if program == associated_token_id() {
        as_spans(ata_text(data, accounts))
    } else if program == compute_budget_id() {
        as_spans(compute_budget_text(data))
    } else {
        None
    }
}

/// The value of the bytes `data[start..start + 8]` read as a little-endian
/// `u64`: the first byte is the least significant. Written out byte by
/// byte, as the laws below use it.
pub open spec fn u64_le_value(data: Seq<u8>, start: int) -> nat {
    data[start] as nat + data[start + 1] as nat * 0x100 + data[start + 2] as nat * 0x1_0000
        + data[start + 3] as nat * 0x100_0000 + data[start + 4] as nat * 0x1_0000_0000
        + data[start + 5] as nat * 0x100_0000_0000 + data[start + 6] as nat * 0x1_0000_0000_0000
        + data[start + 7] as nat * 0x100_0000_0000_0000
}

proof fn lemma_le_bytes_u64(data: Seq<u8>, start: int)
    ensures
        le_bytes(data, start, 8) == u64_le_value(data, start),
        le_bytes(data, start, 4) == data[start] as nat + data[start + 1] as nat * 0x100 + data[start
            + 2] as nat * 0x1_0000 + data[start + 3] as nat * 0x100_0000,
{
    reveal_with_fuel(le_bytes, 9);
}

/// A token `Transfer` (tag 3, with at least 9 bytes of data and three
/// accounts) shows the whole 8-byte little-endian amount that follows the
/// tag, in decimal, then the source, destination and authority accounts.
pub proof fn law_token_transfer_text(data: Seq<u8>, accounts: Seq<Pubkey>)
    requires
        data.len() >= 9,
        data[0] == 3,
        accounts.len() >= 3,
    ensures
        token_text(data, accounts) == Some(
            "Transfer "@ + decimal(u64_le_value(data, 1)) + " tokens\n    From:      "@ + key_text(accounts[0])
                + "\n    To:        "@ + key_text(accounts[1]) + "\n    Authority: "@ + key_text(accounts[2]),
        ),
{
    lemma_le_bytes_u64(data, 1);
}

/// A token `TransferChecked` (tag 12, with at least 10 bytes of data and
/// four accounts) shows the 8-byte little-endian amount after the tag as a
/// token amount at the decimals of byte 9, the mint's symbol (or
/// "tokens"), the raw amount and the decimals, then the source, the mint
/// (with its symbol in parentheses when it is well known), the destination
/// and the authority.
pub proof fn law_token_transfer_checked_text(data: Seq<u8>, accounts: Seq<Pubkey>)
    requires
        data.len() >= 10,
        data[0] == 12,
        accounts.len() >= 4,
    ensures
        ({
            let amount = u64_le_value(data, 1);
            let symbol = match mint_name(accounts[1]) {
                Some(n) => n,
                None => "tokens"@,
            };
            let mint = match mint_name(accounts[1]) {
                Some(n) => key_text(accounts[1]) + " ("@ + n + ")"@,
                None => key_text(accounts[1]),
            };
            token_text(data, accounts) == Some(
                "TransferChecked "@ + token_amount_text(amount as u64, data[9]) + " "@ + symbol + " (raw: "@
                    + decimal(amount) + ", decimals: "@ + decimal(data[9] as nat) + ")\n    From:      "@
                    + key_text(accounts[0]) + "\n    Mint:      "@ + mint + "\n    To:        "@ + key_text(
                    accounts[2],
                ) + "\n    Authority: "@ + key_text(accounts[3]),
            )
        }),
{
    lemma_le_bytes_u64(data, 1);
}

/// Only a `Transfer` or a `TransferChecked` with enough data and accounts
/// has a token summary.
pub proof fn law_token_text_some(data: Seq<u8>, accounts: Seq<Pubkey>)
    ensures
        token_text(data, accounts) is Some <==> (data.len() >= 9 && data[0] == 3 && accounts.len() >= 3) || (
        data.len() >= 10 && data[0] == 12 && accounts.len() >= 4),
{
}

/// A compute budget instruction shows the unit limit (tag 2: the 4-byte
/// little-endian value after the tag) or the unit price (tag 3: the 8-byte
/// value after the tag, in micro-lamports); nothing else has a summary.
pub proof fn law_compute_budget_text(data: Seq<u8>)
    ensures
        data.len() >= 5 && data[0] == 2 ==> compute_budget_text(data) == Some(
            "Set compute unit limit: "@ + decimal(
                data[1] as nat + data[2] as nat * 0x100 + data[3] as nat * 0x1_0000 + data[4] as nat
                    * 0x100_0000,
            ),
        ),
        data.len() >= 9 && data[0] == 3 ==> compute_budget_text(data) == Some(
            "Set compute unit price: "@ + decimal(u64_le_value(data, 1)) + " micro-lamports"@,
        ),
        compute_budget_text(data) is Some <==> (data.len() >= 5 && data[0] == 2) || (data.len() >= 9
            && data[0] == 3),
{
    if data.len() >= 5 {
        lemma_le_bytes_u64(data, 1);
    }
}

/// An associated token account instruction with four accounts shows
/// "Create ATA" (empty data or tag 0) or "Create ATA (idempotent)" (tag 1),
/// then the funder, the account, the owner and the mint (with its symbol
/// when well known); any other has no summary.
pub proof fn law_ata_text(data: Seq<u8>, accounts: Seq<Pubkey>)
    ensures
        ata_text(data, accounts) is Some <==> accounts.len() >= 4 && (data.len() == 0 || data[0] <= 1),
        ata_text(data, accounts) is Some ==> ata_text(data, accounts) == Some(
            (if data.len() == 0 || data[0] == 0 {
                "Create ATA"@
            } else {
                "Create ATA (idempotent)"@
            }) + "\n    Funder: "@ + key_text(accounts[0]) + "\n    ATA:    "@ + key_text(accounts[1])
                + "\n    Owner:  "@ + key_text(accounts[2]) + "\n    Mint:   "@ + match mint_name(accounts[3]) {
                Some(n) => key_text(accounts[3]) + " ("@ + n + ")"@,
                None => key_text(accounts[3]),
            },
        ),
{
}

/// A system instruction is a transfer exactly when its 4-byte tag is 2, its
/// data holds the 8-byte amount after the tag and it has two accounts; the
/// transfer moves that little-endian amount from the first account to the
/// second, and shows it in SOL and in lamports.
pub proof fn law_system_transfer(data: Seq<u8>, accounts: Seq<Pubkey>)
    ensures
        system_transfer(data, accounts) is Some <==> data.len() >= 12 && data[0] == 2 && data[1] == 0 && data[2]
            == 0 && data[3] == 0 && accounts.len() >= 2,
        system_transfer(data, accounts) matches Some(t) ==> {
            &&& t.lamports as nat == u64_le_value(data, 4)
            &&& t.from == accounts[0]
            &&& t.to == accounts[1]
            &&& system_spans(data, accounts) == Some(
                seq![
                    plain("Transfer "@),
                    SpanView::Sol(t.lamports),
                    plain(
                        " SOL ("@ + decimal(u64_le_value(data, 4)) + " lamports)\n    From: "@ + key_text(
                            accounts[0],
                        ) + "\n    To:   "@ + key_text(accounts[1]),
                    ),
                ],
            )
        },
        system_transfer(data, accounts) is None ==> system_spans(data, accounts) is None,
{
    if data.len() >= 12 {
        lemma_le_bytes_u64(data, 0);
        lemma_le_bytes_u64(data, 4);
    }
}

/// Which decoder summarizes an instruction is decided by its program
/// alone: the system program's transfers, the token programs' (SPL Token
/// and Token-2022) instructions, the associated token account program's
/// creations and the compute budget program's settings; an instruction of
/// any other program has no summary.
pub proof fn law_summary_dispatch(program: Pubkey, data: Seq<u8>, accounts: Seq<Pubkey>)
    ensures
        program == system_program_id() ==> instruction_summary(program, data, accounts) == system_spans(
            data,
            accounts,
        ),
        program == spl_token_id() || program == token_2022_id() ==> instruction_summary(
            program,
            data,
            accounts,
        ) == (match token_text(data, accounts) {
            Some(t) => Some(seq![SpanView::Text(t, Color::Plain)]),
            None => None,
        }),
        program == associated_token_id() ==> instruction_summary(program, data, accounts) == (match ata_text(
            data,
            accounts,
        ) {
            Some(t) => Some(seq![SpanView::Text(t, Color::Plain)]),
            None => None,
        }),
        program == compute_budget_id() ==> instruction_summary(program, data, accounts) == (
        match compute_budget_text(data) {
            Some(t) => Some(seq![SpanView::Text(t, Color::Plain)]),
            None => None,
        }),
        program != system_program_id() && program != spl_token_id() && program != token_2022_id() && program
            != associated_token_id() && program != compute_budget_id() ==> instruction_summary(
            program,
            data,
            accounts,
        ) is None,
{
}

/// Whether summarizing the instruction stays within the range the token
/// amount formatting handles.
pub open spec fn summary_in_range(program: Pubkey, data: Seq<u8>, n_accounts: nat) -> bool {
    is_token_program(program) ==> transfer_checked_in_range(data, n_accounts)
}

fn single_text(s: Option<String>) -> (r: Option<Line>)
    ensures
        match r {
            Some(l) => as_spans(text_view(s)) == Some(line_view(l@)),
            None => as_spans(text_view(s)) is None,
        },
{
    match s {
        Some(t) => {
            let ghost tv = t@;
            let mut l: Line = Vec::new();
            l.push(Span::Text(t, Color::Plain));
            assert(line_view(l@) =~= seq![plain(tv)]);
            Some(l)
        },
        None => None,
    }
}

/// Summarizes an instruction of the given program, as `instruction_summary`
/// says.
pub fn decode_instruction(program_id: &Pubkey, data: &[u8], accounts: &[Pubkey]) -> (r: Option<Line>)
    requires
        summary_in_range(*program_id, data@, accounts@.len()),
    ensures
        match r {
            Some(l) => instruction_summary(*program_id, data@, accounts@) == Some(line_view(l@)),
            None => instruction_summary(*program_id, data@, accounts@) is None,
        },
{
    if keys_equal(program_id, &system_program_key()) {
        decode_system(data, accounts)
    } else if keys_equal(program_id, &spl_token_key()) || keys_equal(program_id, &token_2022_id_key()) {
        single_text(decode_token(data, accounts))
    } else if keys_equal(program_id, &associated_token_key()) {
        single_text(decode_ata(data, accounts))
    } else if keys_equal(program_id, &compute_budget_id_key()) {
        single_text(decode_compute_budget(data))
    } else {
        None
    }
}

} // verus!
