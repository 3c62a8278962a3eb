//! The lines that show resolved account keys and the instructions of a
//! vault transaction.
use vstd::prelude::*;
use crate::accounts::{CompiledInstruction, KeySource, ResolvedKey, VaultTransactionMessage, resolve_key};
use crate::config::text_line;
use crate::transaction::{Batch, VaultTransaction};
use crate::decode::{decode_instruction, instruction_summary, key_text, push_key, summary_in_range};
use crate::pubkey::{Pubkey, format_program_label, identify_program, program_label, program_name, truncate_pubkey, truncated, zero_key};
use crate::render::{
    Color, Line, SpanView, append_lines, append_spans, bracket, bracketed, line_of, line_view, lines_view, plain,
    push_line, push_text, styled,
};
use crate::text::{decimal, hex_text, push_decimal, to_hex};

verus! {

/// The tags after a key in an instruction's account list: "w" in red when
/// writable, then "s" in green when it signs.
pub open spec fn short_tag_items(rk: ResolvedKey) -> Seq<SpanView> {
    (if rk.writable {
        seq![styled("w"@, Color::Red)]
    } else {
        Seq::empty()
    }) + (if rk.signer {
        seq![styled("s"@, Color::Green)]
    } else {
        Seq::empty()
    })
}

/// The short tags of a key: " [" and "]" around them, separated by ",";
/// nothing when there are none.
pub open spec fn short_tags(rk: ResolvedKey) -> Seq<SpanView> {
    bracketed(" ["@, short_tag_items(rk), ","@, "]"@)
}

/// The short tags of a key mark exactly its roles, each on its own: "w"
/// in red whenever it is writable (signer or not), "s" in green whenever it
/// signs, between " [" and "]" and separated by ","; a key that neither
/// writes nor signs has no tags at all.
pub proof fn law_short_tags(rk: ResolvedKey)
    ensures
        rk.writable && rk.signer ==> short_tags(rk) == seq![
            plain(" ["@),
            styled("w"@, Color::Red),
            plain(","@),
            styled("s"@, Color::Green),
            plain("]"@),
        ],
        rk.writable && !rk.signer ==> short_tags(rk) == seq![
            plain(" ["@),
            styled("w"@, Color::Red),
            plain("]"@),
        ],
        !rk.writable && rk.signer ==> short_tags(rk) == seq![
            plain(" ["@),
            styled("s"@, Color::Green),
            plain("]"@),
        ],
        !rk.writable && !rk.signer ==> short_tags(rk) == Seq::<SpanView>::empty(),
        short_tags(rk).contains(styled("w"@, Color::Red)) <==> rk.writable,
        short_tags(rk).contains(styled("s"@, Color::Green)) <==> rk.signer,
{
    reveal_with_fuel(crate::render::interleave, 3);
    let t = short_tags(rk);
    let w = styled("w"@, Color::Red);
    let g = styled("s"@, Color::Green);
    if rk.writable && rk.signer {
        assert(t =~= seq![plain(" ["@), w, plain(","@), g, plain("]"@)]);
        assert(t[1] == w && t[3] == g);
    } else if rk.writable {
        assert(t =~= seq![plain(" ["@), w, plain("]"@)]);
        assert(t[1] == w);
        assert(!t.contains(g)) by {
            if t.contains(g) {
                let j = choose|j: int| 0 <= j < t.len() && t[j] == g;
                assert(j == 0 || j == 1 || j == 2);
            }
        }
    } else if rk.signer {
        assert(t =~= seq![plain(" ["@), g, plain("]"@)]);
        assert(t[1] == g);
        assert(!t.contains(w)) by {
            if t.contains(w) {
                let j = choose|j: int| 0 <= j < t.len() && t[j] == w;
                assert(j == 0 || j == 1 || j == 2);
            }
        }
    } else {
        assert(t =~= Seq::<SpanView>::empty());
    }
}

/// The short tags of a key, as `short_tags` says.
pub fn format_tags_short(rk: &ResolvedKey) -> (l: Line)
    ensures
        line_view(l@) == short_tags(*rk),
{
    let mut tags: Vec<(&str, Color)> = Vec::new();
    if rk.writable {
        tags.push(("w", Color::Red));
    }
    if rk.signer {
        tags.push(("s", Color::Green));
    }
    assert(crate::render::tags_view(tags@) =~= short_tag_items(*rk));
    bracket(&tags, " [", ",", "]")
}

/// The tags after a key in the list of all keys: "signer" in green when it
/// signs, then "writable" in red when writable.
pub open spec fn long_tag_items(rk: ResolvedKey) -> Seq<SpanView> {
    (if rk.signer {
        seq![styled("signer"@, Color::Green)]
    } else {
        Seq::empty()
    }) + (if rk.writable {
        seq![styled("writable"@, Color::Red)]
    } else {
        Seq::empty()
    })
}

/// Where a key came from, in bright black: nothing for a static key, the
/// table (shortened) and index for a loaded key, the table and
/// "unresolved" for a key whose table was missing.
pub open spec fn source_label(source: KeySource) -> Seq<SpanView> {
    match source {
        KeySource::Static => Seq::empty(),
        KeySource::Lookup(alt, idx) => seq![
            styled(
                "  (ALT "@ + truncated(key_text(alt)) + "["@ + decimal(idx as nat) + "])"@,
                Color::BrightBlack,
            ),
        ],
        KeySource::LookupUnresolved(alt) => seq![
            styled("  (ALT "@ + truncated(key_text(alt)) + " unresolved)"@, Color::BrightBlack),
        ],
    }
}

/// The line of the `i`-th key in the list of all keys: its position in
/// bright black, the key, its tags, the name of the program it is, and
/// where it came from.
pub open spec fn key_line(i: nat, rk: ResolvedKey) -> Seq<SpanView> {
    seq![
        plain("  ["@),
        styled(decimal(i), Color::BrightBlack),
        plain("] "@ + key_text(rk.pubkey)),
    ] + bracketed("  ["@, long_tag_items(rk), ", "@, "]"@) + program_label(rk.pubkey) + source_label(
        rk.source,
    )
}

fn source_spans(source: &KeySource) -> (l: Line)
    ensures
        line_view(l@) == source_label(*source),
{
    let mut l: Line = Vec::new();
    match source {
        KeySource::Static => {},
        KeySource::Lookup(alt, idx) => {
            let mut t = "  (ALT ".to_owned();
            let short = truncate_pubkey(alt);
            t.append(short.as_str());
            t.append("[");
            push_decimal(&mut t, *idx as u64);
            t.append("])");
            push_text(&mut l, t, Color::BrightBlack);
        },
        KeySource::LookupUnresolved(alt) => {
            let mut t = "  (ALT ".to_owned();
            let short = truncate_pubkey(alt);
            t.append(short.as_str());
            t.append(" unresolved)");
            push_text(&mut l, t, Color::BrightBlack);
        },
    }
    assert(line_view(l@) =~= source_label(*source));
    l
}

/// The line of the `i`-th key in the list of all keys, as `key_line` says.
pub fn resolved_key_line(i: usize, rk: &ResolvedKey) -> (l: Line)
    ensures
        line_view(l@) == key_line(i as nat, *rk),
{
    let mut l: Line = Vec::new();
    push_text(&mut l, "  [".to_owned(), Color::Plain);
    let mut pos = String::new();
    push_decimal(&mut pos, i as u64);
    push_text(&mut l, pos, Color::BrightBlack);
    let mut t = "] ".to_owned();
    push_key(&mut t, &rk.pubkey);
    push_text(&mut l, t, Color::Plain);
    let mut tags: Vec<(&str, Color)> = Vec::new();
    if rk.signer {
        tags.push(("signer", Color::Green));
    }
    if rk.writable {
        tags.push(("writable", Color::Red));
    }
    assert(crate::render::tags_view(tags@) =~= long_tag_items(*rk));
    append_spans(&mut l, bracket(&tags, "  [", ", ", "]"));
    append_spans(&mut l, format_program_label(&rk.pubkey));
    append_spans(&mut l, source_spans(&rk.source));
    assert(line_view(l@) =~= key_line(i as nat, *rk));
    l
}

/// The line of the `i`-th key in the list of all keys: "  [", its
/// position in bright black, "] " and the key; then its roles, "signer" in
/// green whenever it signs and "writable" in red whenever it is writable,
/// between "  [" and "]" and separated by ", " (nothing when it has
/// neither); then the name of the program it is, in bright black and
/// parentheses; then where it came from: nothing for a static key, the
/// table (shortened) with the index for a loaded key, the table with
/// "unresolved" for a key whose table was missing.
pub proof fn law_key_line(i: nat, rk: ResolvedKey)
    ensures
        key_line(i, rk) == seq![
            plain("  ["@),
            styled(decimal(i), Color::BrightBlack),
            plain("] "@ + key_text(rk.pubkey)),
        ] + (if rk.signer && rk.writable {
            seq![plain("  ["@), styled("signer"@, Color::Green), plain(", "@), styled("writable"@, Color::Red), plain("]"@)]
        } else if rk.signer {
            seq![plain("  ["@), styled("signer"@, Color::Green), plain("]"@)]
        } else if rk.writable {
            seq![plain("  ["@), styled("writable"@, Color::Red), plain("]"@)]
        } else {
            Seq::<SpanView>::empty()
        }) + (match program_name(rk.pubkey) {
            Some(n) => seq![styled("  ("@ + n + ")"@, Color::BrightBlack)],
            None => Seq::<SpanView>::empty(),
        }) + (match rk.source {
            KeySource::Static => Seq::<SpanView>::empty(),
            KeySource::Lookup(alt, idx) => seq![
                styled(
                    "  (ALT "@ + truncated(key_text(alt)) + "["@ + decimal(idx as nat) + "])"@,
                    Color::BrightBlack,
                ),
            ],
            KeySource::LookupUnresolved(alt) => seq![
                styled("  (ALT "@ + truncated(key_text(alt)) + " unresolved)"@, Color::BrightBlack),
            ],
        }),
{
    reveal_with_fuel(crate::render::interleave, 3);
    let items = long_tag_items(rk);
    let b = bracketed("  ["@, items, ", "@, "]"@);
    if rk.signer && rk.writable {
        assert(b =~= seq![plain("  ["@), styled("signer"@, Color::Green), plain(", "@), styled("writable"@, Color::Red), plain("]"@)]);
    } else if rk.signer {
        assert(b =~= seq![plain("  ["@), styled("signer"@, Color::Green), plain("]"@)]);
    } else if rk.writable {
        assert(b =~= seq![plain("  ["@), styled("writable"@, Color::Red), plain("]"@)]);
    } else {
        assert(b =~= Seq::<SpanView>::empty());
    }
}

/// The lines of all keys, in order.
pub open spec fn key_lines(keys: Seq<ResolvedKey>) -> Seq<Seq<SpanView>> {
    Seq::new(keys.len(), |i: int| key_line(i as nat, keys[i]))
}

/// The lines of all keys, as `key_lines` says.
pub fn resolved_key_lines(keys: &Vec<ResolvedKey>) -> (lines: Vec<Line>)
    ensures
        lines_view(lines@) == key_lines(keys@),
{
    let mut lines: Vec<Line> = Vec::new();
    let n = keys.len();
    for i in 0..n
        invariant
            n == keys@.len(),
            lines_view(lines@) =~= key_lines(keys@).take(i as int),
    {
        let line = resolved_key_line(i, &keys[i]);
        let ghost before = lines@;
        lines.push(line);
        assert(lines@ == before.push(line));
        assert(lines_view(lines@) =~= lines_view(before).push(line_view(line@)));
        assert(lines_view(lines@) =~= key_lines(keys@).take(i + 1));
    }
    assert(key_lines(keys@).take(n as int) =~= key_lines(keys@));
    lines
}

/// The line between instructions.
pub const SEPARATOR: &'static str = "────────────────────────────────────────────────────────────";

/// The separator, in bright black.
pub open spec fn separator_line() -> Seq<SpanView> {
    seq![styled(SEPARATOR@, Color::BrightBlack)]
}

/// The separator is sixty '─' characters.
pub proof fn law_separator()
    ensures
        SEPARATOR@ == Seq::new(60, |j: int| '─'),
        separator_line() == seq![styled(Seq::new(60, |j: int| '─'), Color::BrightBlack)],
{
    reveal_strlit("────────────────────────────────────────────────────────────");
    assert(SEPARATOR@ =~= Seq::new(60, |j: int| '─'));
}

/// The key at an index of the resolved keys (as `resolve_key` gives it).
pub open spec fn key_at(keys: Seq<ResolvedKey>, idx: u8) -> Pubkey {
    if (idx as int) < keys.len() {
        keys[idx as int].pubkey
    } else {
        zero_key()
    }
}

/// The key at an index is the resolved key there; past the resolved keys
/// it is the all-zero (default) key.
pub proof fn law_key_at(keys: Seq<ResolvedKey>, idx: u8)
    ensures
        (idx as int) < keys.len() ==> key_at(keys, idx) == keys[idx as int].pubkey,
        (idx as int) >= keys.len() ==> key_at(keys, idx).bytes@ == Seq::new(32, |j: int| 0u8),
{
    if (idx as int) >= keys.len() {
        assert(key_at(keys, idx).bytes@ =~= Seq::new(32, |j: int| 0u8));
    }
}

/// The keys of an instruction's accounts.
pub open spec fn instruction_accounts(ix: CompiledInstruction, keys: Seq<ResolvedKey>) -> Seq<Pubkey> {
    ix.account_indexes@.map_values(|idx: u8| key_at(keys, idx))
}

/// The line of one account of an instruction: its index in bright black,
/// then the key with its short tags and program name, or "<out of range>"
/// in red when the index is past the resolved keys.
pub open spec fn account_ref_line(idx: u8, keys: Seq<ResolvedKey>) -> Seq<SpanView> {
    if (idx as int) < keys.len() {
        let rk = keys[idx as int];
        seq![
            plain("    ["@),
            styled(decimal(idx as nat), Color::BrightBlack),
            plain("] "@ + key_text(rk.pubkey)),
        ] + short_tags(rk) + program_label(rk.pubkey)
    } else {
        seq![
            plain("    ["@),
            styled(decimal(idx as nat), Color::BrightBlack),
            plain("] "@),
            styled("<out of range>"@, Color::Red),
        ]
    }
}

/// The raw data of an instruction: its size and its first 64 bytes in hex,
/// followed by "..." when there are more.
pub open spec fn data_preview(data: Seq<u8>) -> Seq<SpanView> {
    let shown = if data.len() > 64 {
        data.take(64)
    } else {
        data
    };
    let text = " "@ + decimal(data.len()) + " bytes: "@ + hex_text(shown);
    seq![
        plain("  "@),
        styled("Data:"@, Color::BrightBlack),
        plain(
            if data.len() > 64 {
                text + "..."@
            } else {
                text
            },
        ),
    ]
}

/// The name shown for a program: its well-known name, or "Unknown Program".
pub open spec fn program_title(p: Pubkey) -> Seq<char> {
    match program_name(p) {
        Some(n) => n,
        None => "Unknown Program"@,
    }
}

/// The lines of the `i`-th instruction: a separator; its number and
/// program; its summary when the program is understood; its accounts; and
/// its raw data when there is no summary and the data is not empty.
pub open spec fn instruction_block(i: nat, ix: CompiledInstruction, keys: Seq<ResolvedKey>) -> Seq<
    Seq<SpanView>,
> {
    let program = key_at(keys, ix.program_id_index);
    let summary = instruction_summary(program, ix.data@, instruction_accounts(ix, keys));
    seq![
        separator_line(),
        seq![
            plain("  "@),
            styled("Instruction "@ + decimal(i) + ":"@, Color::Cyan),
            plain(" "@),
            styled(program_title(program), Color::Yellow),
        ],
    ] + (match summary {
        Some(d) => seq![seq![plain("  "@)] + d],
        None => Seq::empty(),
    }) + seq![seq![plain("  "@), styled("Accounts:"@, Color::BrightBlack)]]
        + ix.account_indexes@.map_values(|idx: u8| account_ref_line(idx, keys)) + (if summary is None
        && ix.data@.len() > 0 {
        seq![data_preview(ix.data@)]
    } else {
        Seq::empty()
    })
}

/// The parts of an instruction's block: a separator and its heading; then,
/// when its program's decoder summarizes it, the line "  " followed by the
/// summary; then "  Accounts:" and one line per account, in order; and
/// last, only when there is no summary and the data is not empty, the line
/// with the data's size and hex preview. With a summary, or with empty
/// data, there is no data line.
pub proof fn law_instruction_block_parts(i: nat, ix: CompiledInstruction, keys: Seq<ResolvedKey>)
    ensures
        ({
            let b = instruction_block(i, ix, keys);
            let m = ix.account_indexes@.len();
            let n = ix.data@.len();
            let summary = instruction_summary(
                key_at(keys, ix.program_id_index),
                ix.data@,
                instruction_accounts(ix, keys),
            );
            let first_ref: int = if summary is Some {
                4
            } else {
                3
            };
            &&& b[0] == separator_line()
            &&& b[first_ref - 1] == seq![plain("  "@), styled("Accounts:"@, Color::BrightBlack)]
            &&& forall|j: int|
                0 <= j < m ==> #[trigger] b[first_ref + j] == account_ref_line(ix.account_indexes@[j], keys)
            &&& (summary matches Some(d) ==> b.len() == m + 4 && b[2] == seq![plain("  "@)] + d)
            &&& (summary is None && n > 0 ==> b.len() == m + 4 && b[m + 3int] == data_preview(ix.data@))
            &&& (summary is None && n == 0 ==> b.len() == m + 3)
        }),
{
}

/// The line of an instruction's account: "    [", the index in bright
/// black, "] " and the key at that index with its short tags and program
/// name; an index past the resolved keys shows "<out of range>" in red in
/// place of a key.
pub proof fn law_account_ref_line(idx: u8, keys: Seq<ResolvedKey>)
    ensures
        (idx as int) < keys.len() ==> account_ref_line(idx, keys) == seq![
            plain("    ["@),
            styled(decimal(idx as nat), Color::BrightBlack),
            plain("] "@ + key_text(keys[idx as int].pubkey)),
        ] + short_tags(keys[idx as int]) + program_label(keys[idx as int].pubkey),
        (idx as int) >= keys.len() ==> account_ref_line(idx, keys) == seq![
            plain("    ["@),
            styled(decimal(idx as nat), Color::BrightBlack),
            plain("] "@),
            styled("<out of range>"@, Color::Red),
        ],
{
}

/// The raw data line of an instruction: "  ", "Data:" in bright black, then
/// the number of bytes and the hexadecimal text of at most the first 64 of
/// them, followed by "..." exactly when there are more than 64.
pub proof fn law_data_preview(data: Seq<u8>)
    ensures
        ({
            let n = data.len();
            let shown: int = if n > 64 {
                64
            } else {
                n as int
            };
            data_preview(data) == seq![
                plain("  "@),
                styled("Data:"@, Color::BrightBlack),
                plain(
                    " "@ + decimal(n) + " bytes: "@ + hex_text(data.subrange(0, shown)) + (if n > 64 {
                        "..."@
                    } else {
                        Seq::<char>::empty()
                    }),
                ),
            ]
        }),
{
    let n = data.len();
    if n <= 64 {
        assert(data.subrange(0, n as int) =~= data);
        let text = " "@ + decimal(n) + " bytes: "@ + hex_text(data);
        assert(text + Seq::<char>::empty() =~= text);
    }
}

/// The heading of the `i`-th instruction: "  ", "Instruction i:" in cyan,
/// " ", and the name of its program (or "Unknown Program") in yellow; the
/// block starts with the separator.
pub proof fn law_instruction_heading(i: nat, ix: CompiledInstruction, keys: Seq<ResolvedKey>)
    ensures
        instruction_block(i, ix, keys)[1] == seq![
            plain("  "@),
            styled("Instruction "@ + decimal(i) + ":"@, Color::Cyan),
            plain(" "@),
            styled(
                match program_name(key_at(keys, ix.program_id_index)) {
                    Some(n) => n,
                    None => "Unknown Program"@,
                },
                Color::Yellow,
            ),
        ],
        instruction_block(i, ix, keys)[0] == seq![styled(SEPARATOR@, Color::BrightBlack)],
{
}

/// Whether the summary of the instruction stays within the range the token
/// amount formatting handles.
pub open spec fn instruction_in_range(ix: CompiledInstruction, keys: Seq<ResolvedKey>) -> bool {
    summary_in_range(key_at(keys, ix.program_id_index), ix.data@, ix.account_indexes@.len())
}

fn account_ref_spans(idx: u8, keys: &Vec<ResolvedKey>) -> (l: Line)
    ensures
        line_view(l@) == account_ref_line(idx, keys@),
{
    let mut l: Line = Vec::new();
    push_text(&mut l, "    [".to_owned(), Color::Plain);
    let mut pos = String::new();
    push_decimal(&mut pos, idx as u64);
    push_text(&mut l, pos, Color::BrightBlack);
    if (idx as usize) < keys.len() {
        let rk = &keys[idx as usize];
        let mut t = "] ".to_owned();
        push_key(&mut t, &rk.pubkey);
        push_text(&mut l, t, Color::Plain);
        append_spans(&mut l, format_tags_short(rk));
        append_spans(&mut l, format_program_label(&rk.pubkey));
    } else {
        push_text(&mut l, "] ".to_owned(), Color::Plain);
        push_text(&mut l, "<out of range>".to_owned(), Color::Red);
    }
    assert(line_view(l@) =~= account_ref_line(idx, keys@));
    l
}

fn data_preview_spans(data: &Vec<u8>) -> (l: Line)
    ensures
        line_view(l@) == data_preview(data@),
{
    let max_preview: usize = 64;
    let n = data.len();
    let shown_len = if n < max_preview {
        n
    } else {
        max_preview
    };
    let shown = vstd::slice::slice_subrange(data.as_slice(), 0, shown_len);
    let mut t = " ".to_owned();
    push_decimal(&mut t, n as u64);
    t.append(" bytes: ");
    let hex = to_hex(shown);
    t.append(hex.as_str());
    if n > max_preview {
        t.append("...");
    }
    let mut l: Line = Vec::new();
    push_text(&mut l, "  ".to_owned(), Color::Plain);
    push_text(&mut l, "Data:".to_owned(), Color::BrightBlack);
    push_text(&mut l, t, Color::Plain);
    assert(data@.subrange(0, shown_len as int) =~= (if data@.len() > 64 {
        data@.take(64)
    } else {
        data@
    }));
    assert(line_view(l@) =~= data_preview(data@));
    l
}

/// The second line of the `i`-th instruction: its number and program.
pub fn instruction_heading(i: usize, ix: &CompiledInstruction, keys: &Vec<ResolvedKey>) -> (l: Line)
    ensures
        line_view(l@) == instruction_block(i as nat, *ix, keys@)[1],
{
    let program_key = resolve_key(keys.as_slice(), ix.program_id_index);
    let program = match identify_program(&program_key) {
        Some(n) => n,
        None => "Unknown Program",
    };
    let mut heading: Line = Vec::new();
    push_text(&mut heading, "  ".to_owned(), Color::Plain);
    let mut title = "Instruction ".to_owned();
    push_decimal(&mut title, i as u64);
    title.append(":");
    push_text(&mut heading, title, Color::Cyan);
    push_text(&mut heading, " ".to_owned(), Color::Plain);
    push_text(&mut heading, program.to_owned(), Color::Yellow);
    let ghost program_spec = key_at(keys@, ix.program_id_index);
    assert(program_key == program_spec);
    assert(program@ == program_title(program_spec));
    assert(line_view(heading@) =~= instruction_block(i as nat, *ix, keys@)[1]);
    heading
}

/// The lines of the `i`-th instruction, as `instruction_block` says.
pub fn instruction_lines(i: usize, ix: &CompiledInstruction, keys: &Vec<ResolvedKey>) -> (lines: Vec<Line>)
    requires
        instruction_in_range(*ix, keys@),
    ensures
        lines_view(lines@) == instruction_block(i as nat, *ix, keys@),
{
    let mut lines: Vec<Line> = Vec::new();
    push_line(&mut lines, line_of(SEPARATOR, Color::BrightBlack));
    push_line(&mut lines, instruction_heading(i, ix, keys));
    let program_key = resolve_key(keys.as_slice(), ix.program_id_index);
    let ghost program_spec = key_at(keys@, ix.program_id_index);
    let ghost head = instruction_block(i as nat, *ix, keys@).take(2);
    assert(lines_view(lines@) =~= head);
    let mut ix_accounts: Vec<Pubkey> = Vec::new();
    let m = ix.account_indexes.len();
    for j in 0..m
        invariant
            m == ix.account_indexes@.len(),
            ix_accounts@ =~= instruction_accounts(*ix, keys@).take(j as int),
    {
        ix_accounts.push(resolve_key(keys.as_slice(), ix.account_indexes[j]));
    }
    assert(instruction_accounts(*ix, keys@).take(m as int) =~= instruction_accounts(*ix, keys@));
    let decoded = decode_instruction(&program_key, ix.data.as_slice(), ix_accounts.as_slice());
    let has_summary = decoded.is_some();
    let ghost summary = instruction_summary(program_spec, ix.data@, instruction_accounts(*ix, keys@));
    assert(has_summary == summary is Some);
    let ghost summary_lines: Seq<Seq<SpanView>> = match summary {
        Some(d) => seq![seq![plain("  "@)] + d],
        None => Seq::empty(),
    };
    match decoded {
        Some(desc) => {
            let mut l: Line = Vec::new();
            push_text(&mut l, "  ".to_owned(), Color::Plain);
            append_spans(&mut l, desc);
            assert(line_view(l@) =~= summary_lines[0]);
            push_line(&mut lines, l);
        },
        None => {},
    }
    assert(lines_view(lines@) =~= head + summary_lines);
    let mut accounts_line: Line = Vec::new();
    push_text(&mut accounts_line, "  ".to_owned(), Color::Plain);
    push_text(&mut accounts_line, "Accounts:".to_owned(), Color::BrightBlack);
    assert(line_view(accounts_line@) =~= seq![plain("  "@), styled("Accounts:"@, Color::BrightBlack)]);
    push_line(&mut lines, accounts_line);
    let ghost before = lines_view(lines@);
    let ghost refs = ix.account_indexes@.map_values(|idx: u8| account_ref_line(idx, keys@));
    for j in 0..m
        invariant
            m == ix.account_indexes@.len(),
            refs == ix.account_indexes@.map_values(|idx: u8| account_ref_line(idx, keys@)),
            lines_view(lines@) =~= before + refs.take(j as int),
    {
        push_line(&mut lines, account_ref_spans(ix.account_indexes[j], keys));
        assert(refs.take(j + 1) =~= refs.take(j as int).push(refs[j as int]));
    }
    assert(refs.take(m as int) =~= refs);
    let ghost accounts_head: Seq<Seq<SpanView>> = seq![seq![plain("  "@), styled("Accounts:"@, Color::BrightBlack)]];
    assert(before =~= head + summary_lines + accounts_head);
    if !has_summary && ix.data.len() > 0 {
        push_line(&mut lines, data_preview_spans(&ix.data));
    }
    assert(lines_view(lines@) =~= instruction_block(i as nat, *ix, keys@));
    lines
}

/// The lines of the first `n` instructions, in order.
pub open spec fn instruction_blocks(ixs: Seq<CompiledInstruction>, keys: Seq<ResolvedKey>, n: nat) -> Seq<
    Seq<SpanView>,
>
    decreases n,
{
    if n == 0 {
        Seq::empty()
    } else {
        instruction_blocks(ixs, keys, (n - 1) as nat) + instruction_block(
            (n - 1) as nat,
            ixs[n - 1],
            keys,
        )
    }
}

/// Whether every instruction's summary stays within the range the token
/// amount formatting handles.
pub open spec fn instructions_in_range(msg: VaultTransactionMessage, keys: Seq<ResolvedKey>) -> bool {
    forall|i: int|
        0 <= i < msg.instructions@.len() ==> #[trigger] instruction_in_range(msg.instructions@[i], keys)
}

/// The lines of a vault transaction after its keys are resolved: the keys,
/// then each instruction, and a closing separator.
pub open spec fn vault_body(msg: VaultTransactionMessage, keys: Seq<ResolvedKey>) -> Seq<Seq<SpanView>> {
    seq![seq![styled("Account Keys:"@, Color::Yellow)]] + key_lines(keys) + seq![
        Seq::empty(),
        seq![styled("Instructions:"@, Color::Yellow)],
    ] + instruction_blocks(msg.instructions@, keys, msg.instructions@.len()) + seq![separator_line()]
}

/// The lines of a vault transaction after its keys are resolved:
/// "Account Keys:" in yellow, one line per key in order, an empty line,
/// "Instructions:" in yellow, the blocks of the instructions in order, and
/// a closing separator.
pub proof fn law_vault_body(msg: VaultTransactionMessage, keys: Seq<ResolvedKey>)
    ensures
        ({
            let b = vault_body(msg, keys);
            let k = keys.len() as int;
            &&& b[0] == seq![styled("Account Keys:"@, Color::Yellow)]
            &&& forall|j: int| 0 <= j < k ==> #[trigger] b[1 + j] == key_line(j as nat, keys[j])
            &&& b[k + 1] == Seq::<SpanView>::empty()
            &&& b[k + 2] == seq![styled("Instructions:"@, Color::Yellow)]
            &&& b == b.take(k + 3) + instruction_blocks(msg.instructions@, keys, msg.instructions@.len()) + seq![
                seq![styled(SEPARATOR@, Color::BrightBlack)],
            ]
        }),
{
    let b = vault_body(msg, keys);
    let k = keys.len() as int;
    assert(b.take(k + 3) =~= seq![seq![styled("Account Keys:"@, Color::Yellow)]] + key_lines(keys) + seq![
        Seq::empty(),
        seq![styled("Instructions:"@, Color::Yellow)],
    ]);
}

/// The blocks of the first `n` instructions follow one another in order:
/// adding an instruction adds its block at the end.
pub proof fn law_instruction_blocks_append(ixs: Seq<CompiledInstruction>, keys: Seq<ResolvedKey>, n: nat)
    requires
        n < ixs.len(),
    ensures
        instruction_blocks(ixs, keys, n + 1) == instruction_blocks(ixs, keys, n) + instruction_block(
            n,
            ixs[n as int],
            keys,
        ),
{
}

/// The first lines of a vault transaction after its keys are resolved: the
/// keys, an empty line, and the heading of the instructions.
pub open spec fn vault_body_head(keys: Seq<ResolvedKey>) -> Seq<Seq<SpanView>> {
    seq![seq![styled("Account Keys:"@, Color::Yellow)]] + key_lines(keys) + seq![
        Seq::empty(),
        seq![styled("Instructions:"@, Color::Yellow)],
    ]
}

fn vault_body_head_lines(keys: &Vec<ResolvedKey>) -> (lines: Vec<Line>)
    ensures
        lines_view(lines@) == vault_body_head(keys@),
{
    let mut lines: Vec<Line> = Vec::new();
    push_line(&mut lines, line_of("Account Keys:", Color::Yellow));
    append_lines(&mut lines, resolved_key_lines(keys));
    let empty: Line = Vec::new();
    assert(line_view(empty@) =~= Seq::<SpanView>::empty());
    push_line(&mut lines, empty);
    push_line(&mut lines, line_of("Instructions:", Color::Yellow));
    assert(lines_view(lines@) =~= vault_body_head(keys@));
    lines
}

/// The lines of a vault transaction after its keys are resolved, as
/// `vault_body` says.
pub fn vault_body_lines(msg: &VaultTransactionMessage, keys: &Vec<ResolvedKey>) -> (lines: Vec<Line>)
    requires
        instructions_in_range(*msg, keys@),
    ensures
        lines_view(lines@) == vault_body(*msg, keys@),
{
    let mut lines = vault_body_head_lines(keys);
    let ghost head = lines_view(lines@);
    let n = msg.instructions.len();
    for i in 0..n
        invariant
            n == msg.instructions@.len(),
            instructions_in_range(*msg, keys@),
            head == vault_body_head(keys@),
            lines_view(lines@) =~= head + instruction_blocks(msg.instructions@, keys@, i as nat),
    {
        assert(instruction_in_range(msg.instructions@[i as int], keys@));
        append_lines(&mut lines, instruction_lines(i, &msg.instructions[i], keys));
    }
    push_line(&mut lines, line_of(SEPARATOR, Color::BrightBlack));
    assert(lines_view(lines@) =~= vault_body(*msg, keys@));
    lines
}

/// The first of the first `n` instructions whose summary leaves the range
/// the token amount formatting handles, if any.
pub open spec fn first_out_of_range(ixs: Seq<CompiledInstruction>, keys: Seq<ResolvedKey>, n: nat) -> Option<
    int,
>
    decreases n,
{
    if n == 0 {
        None
    } else {
        match first_out_of_range(ixs, keys, (n - 1) as nat) {
            Some(i) => Some(i),
            None => if !instruction_in_range(ixs[n - 1], keys) {
                Some(n - 1)
            } else {
                None
            },
        }
    }
}

/// The lines of a vault transaction after its keys are resolved, up to where
/// showing it stops: all of them when every instruction is in range;
/// otherwise those before the first instruction out of range, then that
/// instruction's separator and heading (where computing its token amount
/// overflows).
pub open spec fn vault_body_shown(msg: VaultTransactionMessage, keys: Seq<ResolvedKey>) -> Seq<
    Seq<SpanView>,
> {
    let ixs = msg.instructions@;
    match first_out_of_range(ixs, keys, ixs.len()) {
        None => vault_body(msg, keys),
        Some(i) => vault_body_head(keys) + instruction_blocks(ixs, keys, i as nat) + instruction_block(
            i as nat,
            ixs[i],
            keys,
        ).take(2),
    }
}

proof fn lemma_first_out_of_range(ixs: Seq<CompiledInstruction>, keys: Seq<ResolvedKey>, n: nat)
    requires
        first_out_of_range(ixs, keys, n) is None,
        n <= ixs.len(),
    ensures
        forall|i: int| 0 <= i < n ==> #[trigger] instruction_in_range(ixs[i], keys),
    decreases n,
{
    if n > 0 {
        lemma_first_out_of_range(ixs, keys, (n - 1) as nat);
    }
}

proof fn lemma_first_out_of_range_stays(ixs: Seq<CompiledInstruction>, keys: Seq<ResolvedKey>, k: nat, n: nat)
    requires
        k <= n,
        first_out_of_range(ixs, keys, k) is Some,
    ensures
        first_out_of_range(ixs, keys, n) == first_out_of_range(ixs, keys, k),
    decreases n,
{
    if k < n {
        lemma_first_out_of_range_stays(ixs, keys, k, (n - 1) as nat);
    }
}

/// The lines of a vault transaction after its keys are resolved, as far as
/// `vault_body_shown` says, and whether showing it stops early.
#[verifier::rlimit(30)]
pub fn vault_body_lines_until_overflow(msg: &VaultTransactionMessage, keys: &Vec<ResolvedKey>) -> (r: (
    Vec<Line>,
    bool,
))
    ensures
        lines_view(r.0@) == vault_body_shown(*msg, keys@),
        r.1 == first_out_of_range(msg.instructions@, keys@, msg.instructions@.len()) is Some,
{
    let mut lines = vault_body_head_lines(keys);
    let ghost head = lines_view(lines@);
    let ghost ixs = msg.instructions@;
    let n = msg.instructions.len();
    for i in 0..n
        invariant
            n == ixs.len(),
            ixs == msg.instructions@,
            head == vault_body_head(keys@),
            first_out_of_range(ixs, keys@, i as nat) is None,
            lines_view(lines@) =~= head + instruction_blocks(ixs, keys@, i as nat),
    {
        let ix = &msg.instructions[i];
        let program = resolve_key(keys.as_slice(), ix.program_id_index);
        let token = crate::pubkey::keys_equal(&program, &crate::pubkey::spl_token_key())
            || crate::pubkey::keys_equal(&program, &crate::pubkey::token_2022_id_key());
        if token && ix.data.len() >= 10 && ix.data[0] == 12 && ix.account_indexes.len() >= 4 && ix.data[9] > 19 {
            assert(!instruction_in_range(ixs[i as int], keys@));
            assert(first_out_of_range(ixs, keys@, (i + 1) as nat) == Some(i as int));
            proof {
                lemma_first_out_of_range_stays(ixs, keys@, (i + 1) as nat, n as nat);
            }
            push_line(&mut lines, line_of(SEPARATOR, Color::BrightBlack));
            push_line(&mut lines, instruction_heading(i, ix, keys));
            assert(instruction_block(i as nat, ixs[i as int], keys@).take(2) =~= seq![
                separator_line(),
                instruction_block(i as nat, ixs[i as int], keys@)[1],
            ]);
            assert(lines_view(lines@) =~= vault_body_shown(*msg, keys@));
            return (lines, true);
        }
        assert(instruction_in_range(ixs[i as int], keys@));
        append_lines(&mut lines, instruction_lines(i, ix, keys));
        assert(first_out_of_range(ixs, keys@, (i + 1) as nat) is None);
    }
    proof {
        lemma_first_out_of_range(ixs, keys@, n as nat);
    }
    push_line(&mut lines, line_of(SEPARATOR, Color::BrightBlack));
    assert(lines_view(lines@) =~= vault_body_shown(*msg, keys@));
    (lines, false)
}

/// The lines that introduce a vault transaction: its type, creator, index,
/// vault index, the number of ephemeral signers when there are any, and an
/// empty line.
pub open spec fn vault_header(tx: VaultTransaction) -> Seq<Seq<SpanView>> {
    seq![
        seq![plain("Type:             "@), styled("Vault Transaction"@, Color::Cyan)],
        text_line("Creator:          "@ + key_text(tx.creator)),
        text_line("Index:            "@ + decimal(tx.index as nat)),
        text_line("Vault Index:      "@ + decimal(tx.vault_index as nat)),
    ] + (if tx.ephemeral_signer_bumps@.len() > 0 {
        seq![text_line("Ephemeral Signers: "@ + decimal(tx.ephemeral_signer_bumps@.len()))]
    } else {
        Seq::empty()
    }) + seq![Seq::empty()]
}

fn text_with_key(prefix: &str, k: &Pubkey) -> (l: Line)
    ensures
        line_view(l@) == text_line(prefix@ + key_text(*k)),
{
    let mut t = prefix.to_owned();
    push_key(&mut t, k);
    crate::render::plain_line(t)
}

fn text_with_number(prefix: &str, n: u64) -> (l: Line)
    ensures
        line_view(l@) == text_line(prefix@ + decimal(n as nat)),
{
    let mut t = prefix.to_owned();
    push_decimal(&mut t, n);
    crate::render::plain_line(t)
}

fn type_line(kind: &str) -> (l: Line)
    ensures
        line_view(l@) == seq![plain("Type:             "@), styled(kind@, Color::Cyan)],
{
    let mut l = line_of("Type:             ", Color::Plain);
    push_text(&mut l, kind.to_owned(), Color::Cyan);
    assert(line_view(l@) =~= seq![plain("Type:             "@), styled(kind@, Color::Cyan)]);
    l
}

/// The header of a vault transaction: its type, then the creator, the
/// transaction's index and the vault's index, each on the line of its own
/// label; a line with the number of ephemeral signers only when there are
/// any; and an empty line last.
pub proof fn law_vault_header(tx: VaultTransaction)
    ensures
        ({
            let h = vault_header(tx);
            let e = tx.ephemeral_signer_bumps@.len();
            &&& h.len() == if e > 0 {
                6int
            } else {
                5int
            }
            &&& h[0] == seq![plain("Type:             "@), styled("Vault Transaction"@, Color::Cyan)]
            &&& h[1] == seq![plain("Creator:          "@ + key_text(tx.creator))]
            &&& h[2] == seq![plain("Index:            "@ + decimal(tx.index as nat))]
            &&& h[3] == seq![plain("Vault Index:      "@ + decimal(tx.vault_index as nat))]
            &&& e > 0 ==> h[4] == seq![plain("Ephemeral Signers: "@ + decimal(e))]
            &&& h[h.len() - 1] == Seq::<SpanView>::empty()
        }),
{
}

/// The lines that introduce a vault transaction, as `vault_header` says.
pub fn vault_header_lines(tx: &VaultTransaction) -> (lines: Vec<Line>)
    ensures
        lines_view(lines@) == vault_header(*tx),
{
    let mut lines: Vec<Line> = Vec::new();
    push_line(&mut lines, type_line("Vault Transaction"));
    push_line(&mut lines, text_with_key("Creator:          ", &tx.creator));
    push_line(&mut lines, text_with_number("Index:            ", tx.index));
    push_line(&mut lines, text_with_number("Vault Index:      ", tx.vault_index as u64));
    if tx.ephemeral_signer_bumps.len() > 0 {
        push_line(
            &mut lines,
            text_with_number("Ephemeral Signers: ", tx.ephemeral_signer_bumps.len() as u64),
        );
    }
    let empty: Line = Vec::new();
    assert(line_view(empty@) =~= Seq::<SpanView>::empty());
    push_line(&mut lines, empty);
    assert(lines_view(lines@) =~= vault_header(*tx));
    lines
}

/// The lines of a batch: its type, creator, index, vault index, size, and
/// how many of its transactions were executed so far.
pub open spec fn batch_lines(batch: Batch) -> Seq<Seq<SpanView>> {
    seq![
        seq![plain("Type:             "@), styled("Batch Transaction"@, Color::Cyan)],
        text_line("Creator:          "@ + key_text(batch.creator)),
        text_line("Index:            "@ + decimal(batch.index as nat)),
        text_line("Vault Index:      "@ + decimal(batch.vault_index as nat)),
        text_line("Batch Size:       "@ + decimal(batch.size as nat)),
        text_line("Executed So Far:  "@ + decimal(batch.executed_transaction_index as nat)),
    ]
}

/// The lines of a batch: its type, then the creator, the batch's own
/// index, the vault's index, the number of transactions and how many were
/// executed, each on the line of its own label, in that order.
pub proof fn law_batch_lines(batch: Batch)
    ensures
        ({
            let l = batch_lines(batch);
            &&& l.len() == 6
            &&& l[0] == seq![plain("Type:             "@), styled("Batch Transaction"@, Color::Cyan)]
            &&& l[1] == seq![plain("Creator:          "@ + key_text(batch.creator))]
            &&& l[2] == seq![plain("Index:            "@ + decimal(batch.index as nat))]
            &&& l[3] == seq![plain("Vault Index:      "@ + decimal(batch.vault_index as nat))]
            &&& l[4] == seq![plain("Batch Size:       "@ + decimal(batch.size as nat))]
            &&& l[5] == seq![plain("Executed So Far:  "@ + decimal(batch.executed_transaction_index as nat))]
        }),
{
}

/// Two batches that differ only in their index differ only in the index
/// line, and two that differ only in their vault index differ only in the
/// vault index line.
pub proof fn law_batch_index_lines(a: Batch, b: Batch)
    requires
        a.creator == b.creator,
        a.size == b.size,
        a.executed_transaction_index == b.executed_transaction_index,
    ensures
        a.vault_index == b.vault_index ==> forall|j: int|
            0 <= j < 6 && j != 2 ==> #[trigger] batch_lines(a)[j] == batch_lines(b)[j],
        a.index == b.index ==> forall|j: int|
            0 <= j < 6 && j != 3 ==> #[trigger] batch_lines(a)[j] == batch_lines(b)[j],
        a.index != b.index ==> batch_lines(a)[2] != batch_lines(b)[2],
        a.vault_index != b.vault_index ==> batch_lines(a)[3] != batch_lines(b)[3],
{
    crate::amount::law_decimal_exact(a.index as nat);
    crate::amount::law_decimal_exact(b.index as nat);
    crate::amount::law_decimal_exact(a.vault_index as nat);
    crate::amount::law_decimal_exact(b.vault_index as nat);
    if a.index != b.index {
        let p = "Index:            "@;
        let la = batch_lines(a)[2];
        let lb = batch_lines(b)[2];
        if la == lb {
            assert(la[0] == lb[0]);
            assert((p + decimal(a.index as nat)).skip(p.len() as int) =~= decimal(a.index as nat));
            assert((p + decimal(b.index as nat)).skip(p.len() as int) =~= decimal(b.index as nat));
        }
    }
    if a.vault_index != b.vault_index {
        let p = "Vault Index:      "@;
        let la = batch_lines(a)[3];
        let lb = batch_lines(b)[3];
        if la == lb {
            assert(la[0] == lb[0]);
            assert((p + decimal(a.vault_index as nat)).skip(p.len() as int) =~= decimal(a.vault_index as nat));
            assert((p + decimal(b.vault_index as nat)).skip(p.len() as int) =~= decimal(b.vault_index as nat));
        }
    }
}

/// The lines of a batch, as `batch_lines` says.
pub fn batch_transaction_lines(batch: &Batch) -> (lines: Vec<Line>)
    ensures
        lines_view(lines@) == batch_lines(*batch),
{
    let mut lines: Vec<Line> = Vec::new();
    push_line(&mut lines, type_line("Batch Transaction"));
    push_line(&mut lines, text_with_key("Creator:          ", &batch.creator));
    push_line(&mut lines, text_with_number("Index:            ", batch.index));
    push_line(&mut lines, text_with_number("Vault Index:      ", batch.vault_index as u64));
    push_line(&mut lines, text_with_number("Batch Size:       ", batch.size as u64));
    push_line(&mut lines, text_with_number("Executed So Far:  ", batch.executed_transaction_index as u64));
    assert(lines_view(lines@) =~= batch_lines(*batch));
    lines
}

} // verus!
