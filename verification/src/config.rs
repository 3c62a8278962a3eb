//! The lines that show a config transaction and its actions.
use vstd::prelude::*;
use crate::decode::{key_text, push_key};
use crate::display::{SEPARATOR, separator_line};
use crate::pubkey::{Pubkey, format_program_label, program_label};
use crate::render::{
    Color, Line, SpanView, append_lines, append_spans, line_of, line_view, lines_view, plain, plain_line, push_line,
    push_text,
    styled,
};
use crate::text::{decimal, join, join_texts, push_decimal};
use crate::transaction::{ConfigAction, ConfigTransaction, Period};

verus! {

/// The names of the permissions set in a mask, in order: "Initiate" (bit
/// 1), "Vote" (bit 2), "Execute" (bit 4).
pub open spec fn permission_names(mask: u8) -> Seq<Seq<char>> {
    (if mask % 2 == 1 {
        seq!["Initiate"@]
    } else {
        Seq::empty()
    }) + (if (mask / 2) % 2 == 1 {
        seq!["Vote"@]
    } else {
        Seq::empty()
    }) + (if (mask / 4) % 2 == 1 {
        seq!["Execute"@]
    } else {
        Seq::empty()
    })
}

/// The permissions of a mask: their names joined by ", " (or "None" when
/// there are none), followed by the mask in parentheses.
pub open spec fn permissions_text(mask: u8) -> Seq<char> {
    let names = permission_names(mask);
    if names.len() == 0 {
        "None ("@ + decimal(mask as nat) + ")"@
    } else {
        join(names, ", "@) + " ("@ + decimal(mask as nat) + ")"@
    }
}

/// The permissions of a mask, as `permissions_text` says.
pub fn format_permissions(mask: u8) -> (s: String)
    ensures
        s@ == permissions_text(mask),
{
    assert((mask & 1 != 0) == (mask % 2 == 1)) by (bit_vector);
    assert((mask & 2 != 0) == ((mask / 2) % 2 == 1)) by (bit_vector);
    assert((mask & 4 != 0) == ((mask / 4) % 2 == 1)) by (bit_vector);
    let mut perms: Vec<&str> = Vec::new();
    if mask & 1 != 0 {
        perms.push("Initiate");
    }
    if mask & 2 != 0 {
        perms.push("Vote");
    }
    if mask & 4 != 0 {
        perms.push("Execute");
    }
    assert(perms@.map_values(|t: &str| t@) =~= permission_names(mask));
    let mut s = if perms.len() == 0 {
        "None (".to_owned()
    } else {
        let mut j = join_texts(&perms, ", ");
        j.append(" (");
        j
    };
    push_decimal(&mut s, mask as u64);
    s.append(")");
    assert(s@ =~= permissions_text(mask));
    s
}

/// The name shown for a spending limit period.
pub open spec fn period_text(period: Period) -> Seq<char> {
    match period {
        Period::OneTime => "One-Time"@,
        Period::Day => "Daily"@,
        Period::Week => "Weekly"@,
        Period::Month => "Monthly"@,
    }
}

/// The name shown for a spending limit period, as `period_text` says.
pub fn format_period(period: &Period) -> (s: &'static str)
    ensures
        s@ == period_text(*period),
{
    match period {
        Period::OneTime => "One-Time",
        Period::Day => "Daily",
        Period::Week => "Weekly",
        Period::Month => "Monthly",
    }
}

/// The first line of the `i`-th action: its number in cyan and its title in
/// yellow.
pub open spec fn action_heading(i: nat, title: Seq<char>) -> Seq<SpanView> {
    seq![
        plain("  "@),
        styled("Action "@ + decimal(i) + ":"@, Color::Cyan),
        plain(" "@),
        styled(title, Color::Yellow),
    ]
}

/// A line of one uncolored text.
pub open spec fn text_line(t: Seq<char>) -> Seq<SpanView> {
    seq![plain(t)]
}

/// The lines of a list of keys, one "      - key" each.
pub open spec fn key_list_lines(keys: Seq<Pubkey>) -> Seq<Seq<SpanView>> {
    keys.map_values(|k: Pubkey| text_line("      - "@ + key_text(k)))
}

/// The lines of the `i`-th action of a config transaction.
pub open spec fn action_lines(i: nat, action: ConfigAction) -> Seq<Seq<SpanView>> {
    match action {
        ConfigAction::AddMember { new_member } => seq![
            action_heading(i, "Add Member"@),
            text_line("    Key:         "@ + key_text(new_member.key)),
            text_line("    Permissions: "@ + permissions_text(new_member.permissions.mask)),
        ],
        ConfigAction::RemoveMember { old_member } => seq![
            action_heading(i, "Remove Member"@),
            text_line("    Key: "@ + key_text(old_member)),
        ],
        ConfigAction::ChangeThreshold { new_threshold } => seq![
            action_heading(i, "Change Threshold"@),
            text_line("    New Threshold: "@ + decimal(new_threshold as nat)),
        ],
        ConfigAction::SetTimeLock { new_time_lock } => seq![
            action_heading(i, "Set Time Lock"@),
            text_line("    New Time Lock: "@ + decimal(new_time_lock as nat) + " seconds"@),
        ],
        ConfigAction::AddSpendingLimit {
            create_key,
            vault_index,
            mint,
            amount,
            period,
            members,
            destinations,
        } => seq![
            action_heading(i, "Add Spending Limit"@),
            text_line("    Create Key:  "@ + key_text(create_key)),
            text_line("    Vault Index: "@ + decimal(vault_index as nat)),
            text_line("    Mint:        "@ + key_text(mint)) + program_label(mint),
            text_line("    Amount:      "@ + decimal(amount as nat)),
            text_line("    Period:      "@ + period_text(period)),
            text_line("    Members:"@),
        ] + key_list_lines(members@) + (if destinations@.len() == 0 {
            seq![text_line("    Destinations: any"@)]
        } else {
            seq![text_line("    Destinations:"@)] + key_list_lines(destinations@)
        }),
        ConfigAction::RemoveSpendingLimit { spending_limit } => seq![
            action_heading(i, "Remove Spending Limit"@),
            text_line("    Spending Limit: "@ + key_text(spending_limit)),
        ],
        ConfigAction::SetRentCollector { new_rent_collector } => seq![
            action_heading(i, "Set Rent Collector"@),
            match new_rent_collector {
                Some(pk) => text_line("    Rent Collector: "@ + key_text(pk)),
                None => text_line("    Rent Collector: None (disabled)"@),
            },
        ],
        ConfigAction::Unknown => seq![action_heading(i, "Unknown Config Action"@)],
    }
}

/// The lines of an action that adds a spending limit: the heading, the
/// create key, the vault index, the mint (with its program name when it is
/// one), the amount, the period, "    Members:" and one "      - key" line
/// per member in order; then "    Destinations: any" when there are no
/// destinations, and otherwise "    Destinations:" followed by one
/// "      - key" line per destination, in order.
pub proof fn law_spending_limit_lines(
    i: nat,
    create_key: Pubkey,
    vault_index: u8,
    mint: Pubkey,
    amount: u64,
    period: Period,
    members: Vec<Pubkey>,
    destinations: Vec<Pubkey>,
)
    ensures
        ({
            let l = action_lines(
                i,
                ConfigAction::AddSpendingLimit {
                    create_key,
                    vault_index,
                    mint,
                    amount,
                    period,
                    members,
                    destinations,
                },
            );
            let m = members@.len();
            let d = destinations@.len();
            &&& l.len() == 7 + m + 1 + d
            &&& l[0] == seq![
                plain("  "@),
                styled("Action "@ + decimal(i) + ":"@, Color::Cyan),
                plain(" "@),
                styled("Add Spending Limit"@, Color::Yellow),
            ]
            &&& l[1] == seq![plain("    Create Key:  "@ + key_text(create_key))]
            &&& l[2] == seq![plain("    Vault Index: "@ + decimal(vault_index as nat))]
            &&& l[3] == seq![plain("    Mint:        "@ + key_text(mint))] + program_label(mint)
            &&& l[4] == seq![plain("    Amount:      "@ + decimal(amount as nat))]
            &&& l[5] == seq![plain("    Period:      "@ + period_text(period))]
            &&& l[6] == seq![plain("    Members:"@)]
            &&& forall|j: int| 0 <= j < m ==> #[trigger] l[7 + j] == seq![plain("      - "@ + key_text(members@[j]))]
            &&& (d == 0 <==> l[7 + m as int] == seq![plain("    Destinations: any"@)])
            &&& d > 0 ==> l[7 + m as int] == seq![plain("    Destinations:"@)]
            &&& forall|j: int|
                0 <= j < d ==> #[trigger] l[8 + m + j] == seq![plain("      - "@ + key_text(destinations@[j]))]
        }),
{
    let l = action_lines(
        i,
        ConfigAction::AddSpendingLimit { create_key, vault_index, mint, amount, period, members, destinations },
    );
    let m = members@.len();
    let d = destinations@.len();
    if d > 0 {
        let a = "    Destinations: any"@;
        let b = "    Destinations:"@;
        assert(a != b) by {
            reveal_strlit("    Destinations: any");
            reveal_strlit("    Destinations:");
            assert(a.len() != b.len());
        }
        assert(l[7 + m as int] == seq![plain(b)]);
        assert(seq![plain(b)][0] != seq![plain(a)][0]);
    }
}

/// The text of a permission mask: the names of its set bits in order,
/// "Initiate" for bit 1, "Vote" for bit 2 and "Execute" for bit 4,
/// separated by ", " ("None" when none of them is set), followed by the
/// whole mask in parentheses.
pub proof fn law_permissions_text(mask: u8)
    ensures
        ({
            let ini = mask & 1 != 0;
            let vote = mask & 2 != 0;
            let exec = mask & 4 != 0;
            let names = if ini && vote && exec {
                "Initiate, Vote, Execute"@
            } else if ini && vote {
                "Initiate, Vote"@
            } else if ini && exec {
                "Initiate, Execute"@
            } else if vote && exec {
                "Vote, Execute"@
            } else if ini {
                "Initiate"@
            } else if vote {
                "Vote"@
            } else if exec {
                "Execute"@
            } else {
                "None"@
            };
            permissions_text(mask) == names + " ("@ + decimal(mask as nat) + ")"@
        }),
{
    assert((mask & 1 != 0) == (mask % 2 == 1)) by (bit_vector);
    assert((mask & 2 != 0) == ((mask / 2) % 2 == 1)) by (bit_vector);
    assert((mask & 4 != 0) == ((mask / 4) % 2 == 1)) by (bit_vector);
    reveal_with_fuel(join, 4);
    reveal_strlit("Initiate, Vote, Execute");
    reveal_strlit("Initiate, Vote");
    reveal_strlit("Initiate, Execute");
    reveal_strlit("Vote, Execute");
    reveal_strlit("Initiate");
    reveal_strlit("Vote");
    reveal_strlit("Execute");
    reveal_strlit(", ");
    reveal_strlit("None");
    reveal_strlit("None (");
    reveal_strlit(" (");
    let names = permission_names(mask);
    let tail = " ("@ + decimal(mask as nat) + ")"@;
    let i = mask % 2 == 1;
    let v = (mask / 2) % 2 == 1;
    let x = (mask / 4) % 2 == 1;
    if i && v && x {
        assert(names =~= seq!["Initiate"@, "Vote"@, "Execute"@]);
        assert(join(names, ", "@) =~= "Initiate, Vote, Execute"@);
    } else if i && v {
        assert(names =~= seq!["Initiate"@, "Vote"@]);
        assert(join(names, ", "@) =~= "Initiate, Vote"@);
    } else if i && x {
        assert(names =~= seq!["Initiate"@, "Execute"@]);
        assert(join(names, ", "@) =~= "Initiate, Execute"@);
    } else if v && x {
        assert(names =~= seq!["Vote"@, "Execute"@]);
        assert(join(names, ", "@) =~= "Vote, Execute"@);
    } else if i {
        assert(names =~= seq!["Initiate"@]);
    } else if v {
        assert(names =~= seq!["Vote"@]);
    } else if x {
        assert(names =~= seq!["Execute"@]);
    } else {
        assert(names =~= Seq::<Seq<char>>::empty());
        assert("None ("@ + decimal(mask as nat) + ")"@ =~= "None"@ + tail);
    }
}

/// The lines of every other action: its heading (number in cyan, title in
/// yellow) and the lines that show what it changes.
pub proof fn law_action_lines(i: nat, action: ConfigAction)
    ensures
        ({
            let l = action_lines(i, action);
            let head = |title: Seq<char>|
                seq![
                    plain("  "@),
                    styled("Action "@ + decimal(i) + ":"@, Color::Cyan),
                    plain(" "@),
                    styled(title, Color::Yellow),
                ];
            match action {
                ConfigAction::AddMember { new_member } => l == seq![
                    head("Add Member"@),
                    seq![plain("    Key:         "@ + key_text(new_member.key))],
                    seq![plain("    Permissions: "@ + permissions_text(new_member.permissions.mask))],
                ],
                ConfigAction::RemoveMember { old_member } => l == seq![
                    head("Remove Member"@),
                    seq![plain("    Key: "@ + key_text(old_member))],
                ],
                ConfigAction::ChangeThreshold { new_threshold } => l == seq![
                    head("Change Threshold"@),
                    seq![plain("    New Threshold: "@ + decimal(new_threshold as nat))],
                ],
                ConfigAction::SetTimeLock { new_time_lock } => l == seq![
                    head("Set Time Lock"@),
                    seq![plain("    New Time Lock: "@ + decimal(new_time_lock as nat) + " seconds"@)],
                ],
                ConfigAction::AddSpendingLimit { .. } => l[0] == head("Add Spending Limit"@),
                ConfigAction::RemoveSpendingLimit { spending_limit } => l == seq![
                    head("Remove Spending Limit"@),
                    seq![plain("    Spending Limit: "@ + key_text(spending_limit))],
                ],
                ConfigAction::SetRentCollector { new_rent_collector } => l == seq![
                    head("Set Rent Collector"@),
                    match new_rent_collector {
                        Some(pk) => seq![plain("    Rent Collector: "@ + key_text(pk))],
                        None => seq![plain("    Rent Collector: None (disabled)"@)],
                    },
                ],
                ConfigAction::Unknown => l == seq![head("Unknown Config Action"@)],
            }
        }),
{
}

/// The lines of a config transaction: its type, creator and index, an
/// empty line, the number of actions in yellow; then each action, in
/// order, after a separator; and a closing separator.
pub proof fn law_config_lines(tx: ConfigTransaction)
    ensures
        ({
            let c = config_lines(tx);
            let n = tx.actions@.len();
            &&& c[0] == seq![plain("Type:             "@), styled("Config Transaction"@, Color::Cyan)]
            &&& c[1] == seq![plain("Creator:          "@ + key_text(tx.creator))]
            &&& c[2] == seq![plain("Index:            "@ + decimal(tx.index as nat))]
            &&& c[3] == Seq::<SpanView>::empty()
            &&& c[4] == seq![styled("Actions ("@ + decimal(n) + "):"@, Color::Yellow)]
            &&& c == c.take(5) + action_blocks(tx.actions@, n) + seq![seq![styled(SEPARATOR@, Color::BrightBlack)]]
        }),
{
    let c = config_lines(tx);
    assert(c.take(5) =~= seq![
        seq![plain("Type:             "@), styled("Config Transaction"@, Color::Cyan)],
        text_line("Creator:          "@ + key_text(tx.creator)),
        text_line("Index:            "@ + decimal(tx.index as nat)),
        Seq::empty(),
        seq![styled("Actions ("@ + decimal(tx.actions@.len()) + "):"@, Color::Yellow)],
    ]);
}

/// Each action is shown after a separator, in order: adding an action adds
/// a separator and its lines at the end.
pub proof fn law_action_blocks_append(actions: Seq<ConfigAction>, n: nat)
    requires
        n < actions.len(),
    ensures
        action_blocks(actions, n + 1) == action_blocks(actions, n) + seq![
            seq![styled(SEPARATOR@, Color::BrightBlack)],
        ] + action_lines(n, actions[n as int]),
{
}

/// The name of each spending limit period.
pub proof fn law_period_text()
    ensures
        period_text(Period::OneTime) == "One-Time"@,
        period_text(Period::Day) == "Daily"@,
        period_text(Period::Week) == "Weekly"@,
        period_text(Period::Month) == "Monthly"@,
{
}

fn action_heading_line(i: usize, title: &str) -> (l: Line)
    ensures
        line_view(l@) == action_heading(i as nat, title@),
{
    let mut l: Line = Vec::new();
    push_text(&mut l, "  ".to_owned(), Color::Plain);
    let mut label = "Action ".to_owned();
    push_decimal(&mut label, i as u64);
    label.append(":");
    push_text(&mut l, label, Color::Cyan);
    push_text(&mut l, " ".to_owned(), Color::Plain);
    push_text(&mut l, title.to_owned(), Color::Yellow);
    assert(line_view(l@) =~= action_heading(i as nat, title@));
    l
}

fn key_text_line(prefix: &str, k: &Pubkey) -> (l: Line)
    ensures
        line_view(l@) == text_line(prefix@ + key_text(*k)),
{
    let mut t = prefix.to_owned();
    push_key(&mut t, k);
    plain_line(t)
}

fn number_text_line(prefix: &str, n: u64, suffix: &str) -> (l: Line)
    ensures
        line_view(l@) == text_line(prefix@ + decimal(n as nat) + suffix@),
{
    let mut t = prefix.to_owned();
    push_decimal(&mut t, n);
    t.append(suffix);
    plain_line(t)
}

fn push_key_list(lines: &mut Vec<Line>, keys: &Vec<Pubkey>)
    ensures
        lines_view(final(lines)@) == lines_view(old(lines)@) + key_list_lines(keys@),
{
    let ghost start = lines_view(lines@);
    let n = keys.len();
    for j in 0..n
        invariant
            n == keys@.len(),
            lines_view(lines@) =~= start + key_list_lines(keys@).take(j as int),
    {
        push_line(lines, key_text_line("      - ", &keys[j]));
        assert(key_list_lines(keys@).take(j + 1) =~= key_list_lines(keys@).take(j as int).push(
            key_list_lines(keys@)[j as int],
        ));
    }
    assert(key_list_lines(keys@).take(n as int) =~= key_list_lines(keys@));
}

/// The lines of the `i`-th action of a config transaction, as
/// `action_lines` says.
pub fn config_action_lines(i: usize, action: &ConfigAction) -> (lines: Vec<Line>)
    ensures
        lines_view(lines@) == action_lines(i as nat, *action),
{
    let mut lines: Vec<Line> = Vec::new();
    match action {
        ConfigAction::AddMember { new_member } => {
            push_line(&mut lines, action_heading_line(i, "Add Member"));
            push_line(&mut lines, key_text_line("    Key:         ", &new_member.key));
            let mut t = "    Permissions: ".to_owned();
            let perms = format_permissions(new_member.permissions.mask);
            t.append(perms.as_str());
            push_line(&mut lines, plain_line(t));
        },
        ConfigAction::RemoveMember { old_member } => {
            push_line(&mut lines, action_heading_line(i, "Remove Member"));
            push_line(&mut lines, key_text_line("    Key: ", old_member));
        },
        ConfigAction::ChangeThreshold { new_threshold } => {
            push_line(&mut lines, action_heading_line(i, "Change Threshold"));
            push_line(&mut lines, plain_line({
                let mut t = "    New Threshold: ".to_owned();
                push_decimal(&mut t, *new_threshold as u64);
                t
            }));
        },
        ConfigAction::SetTimeLock { new_time_lock } => {
            push_line(&mut lines, action_heading_line(i, "Set Time Lock"));
            push_line(&mut lines, number_text_line("    New Time Lock: ", *new_time_lock as u64, " seconds"));
        },
        ConfigAction::AddSpendingLimit {
            create_key,
            vault_index,
            mint,
            amount,
            period,
            members,
            destinations,
        } => {
            push_line(&mut lines, action_heading_line(i, "Add Spending Limit"));
            push_line(&mut lines, key_text_line("    Create Key:  ", create_key));
            push_line(&mut lines, plain_line({
                let mut t = "    Vault Index: ".to_owned();
                push_decimal(&mut t, *vault_index as u64);
                t
            }));
            let mut mint_line = key_text_line("    Mint:        ", mint);
            append_spans(&mut mint_line, format_program_label(mint));
            push_line(&mut lines, mint_line);
            push_line(&mut lines, plain_line({
                let mut t = "    Amount:      ".to_owned();
                push_decimal(&mut t, *amount);
                t
            }));
            push_line(&mut lines, plain_line({
                let mut t = "    Period:      ".to_owned();
                t.append(format_period(period));
                t
            }));
            push_line(&mut lines, line_of("    Members:", Color::Plain));
            push_key_list(&mut lines, members);
            if destinations.len() == 0 {
                push_line(&mut lines, line_of("    Destinations: any", Color::Plain));
            } else {
                push_line(&mut lines, line_of("    Destinations:", Color::Plain));
                push_key_list(&mut lines, destinations);
            }
        },
        ConfigAction::RemoveSpendingLimit { spending_limit } => {
            push_line(&mut lines, action_heading_line(i, "Remove Spending Limit"));
            push_line(&mut lines, key_text_line("    Spending Limit: ", spending_limit));
        },
        ConfigAction::SetRentCollector { new_rent_collector } => {
            push_line(&mut lines, action_heading_line(i, "Set Rent Collector"));
            match new_rent_collector {
                Some(pk) => push_line(&mut lines, key_text_line("    Rent Collector: ", pk)),
                None => push_line(&mut lines, line_of("    Rent Collector: None (disabled)", Color::Plain)),
            }
        },
        ConfigAction::Unknown => {
            push_line(&mut lines, action_heading_line(i, "Unknown Config Action"));
        },
    }
    assert(lines_view(lines@) =~= action_lines(i as nat, *action));
    lines
}

/// The lines of the first `n` actions, each after a separator.
pub open spec fn action_blocks(actions: Seq<ConfigAction>, n: nat) -> Seq<Seq<SpanView>>
    decreases n,
{
    if n == 0 {
        Seq::empty()
    } else {
        action_blocks(actions, (n - 1) as nat) + seq![separator_line()] + action_lines(
            (n - 1) as nat,
            actions[n - 1],
        )
    }
}

/// The lines of a config transaction: its type, creator and index, the
/// number of actions, each action after a separator, and a closing
/// separator.
pub open spec fn config_lines(tx: ConfigTransaction) -> Seq<Seq<SpanView>> {
    seq![
        seq![plain("Type:             "@), styled("Config Transaction"@, Color::Cyan)],
        text_line("Creator:          "@ + key_text(tx.creator)),
        text_line("Index:            "@ + decimal(tx.index as nat)),
        Seq::empty(),
        seq![styled("Actions ("@ + decimal(tx.actions@.len()) + "):"@, Color::Yellow)],
    ] + action_blocks(tx.actions@, tx.actions@.len()) + seq![separator_line()]
}

/// The lines of a config transaction, as `config_lines` says.
pub fn config_transaction_lines(tx: &ConfigTransaction) -> (lines: Vec<Line>)
    ensures
        lines_view(lines@) == config_lines(*tx),
{
    let mut lines: Vec<Line> = Vec::new();
    let mut type_line = line_of("Type:             ", Color::Plain);
    push_text(&mut type_line, "Config Transaction".to_owned(), Color::Cyan);
    let ghost expected = config_lines(*tx);
    assert(line_view(type_line@) =~= expected[0]);
    push_line(&mut lines, type_line);
    push_line(&mut lines, key_text_line("Creator:          ", &tx.creator));
    let mut index_text = "Index:            ".to_owned();
    push_decimal(&mut index_text, tx.index);
    push_line(&mut lines, plain_line(index_text));
    let empty: Line = Vec::new();
    assert(line_view(empty@) =~= expected[3]);
    push_line(&mut lines, empty);
    let n = tx.actions.len();
    let mut count = "Actions (".to_owned();
    push_decimal(&mut count, n as u64);
    count.append("):");
    let mut count_line: Line = Vec::new();
    push_text(&mut count_line, count, Color::Yellow);
    assert(line_view(count_line@) =~= expected[4]);
    push_line(&mut lines, count_line);
    let ghost head = lines_view(lines@);
    assert(head =~= expected.take(5));
    for i in 0..n
        invariant
            n == tx.actions@.len(),
            lines_view(lines@) =~= head + action_blocks(tx.actions@, i as nat),
    {
        push_line(&mut lines, line_of(SEPARATOR, Color::BrightBlack));
        append_lines(&mut lines, config_action_lines(i, &tx.actions[i]));
    }
    push_line(&mut lines, line_of(SEPARATOR, Color::BrightBlack));
    assert(lines_view(lines@) =~= config_lines(*tx));
    lines
}

} // verus!
