//! The options of the display command and the lines it shows before the
//! transaction.
use vstd::prelude::*;
use crate::config::text_line;
use crate::decode::{key_text, push_key};
use crate::pubkey::{Pubkey, base58_decode, parse_pubkey, pubkey_text, squads_v4_id, squads_v4_id_key};
use crate::render::{Color, Line, SpanView, line_of, line_view, lines_view, plain_line, push_line, styled};

verus! {

/// The cluster asked when no RPC URL is given.
pub const DEFAULT_RPC_URL: &'static str = "https://api.mainnet-beta.solana.com";

/// Fetch and display the contents of a multisig transaction (vault, config,
/// or batch).
#[derive(Clone, Debug, PartialEq, Eq)]
pub struct DisplayTransaction {
    /// RPC URL
    pub rpc_url: Option<String>,
    /// Multisig Program ID
    pub program_id: Option<String>,
    /// The multisig pubkey
    pub multisig_pubkey: String,
    /// The transaction index to display
    pub transaction_index: u64,
}

/// The key a text decodes to, if it is the base-58 text of one.
pub open spec fn key_from_text(text: Seq<char>, k: Option<Pubkey>) -> bool {
    match k {
        Some(k) => base58_decode(text) == Some(k.bytes@),
        None => base58_decode(text) is None,
    }
}

impl DisplayTransaction {
    /// The text of the program id: the one given, or the Squads v4
    /// program's.
    pub open spec fn program_text(&self) -> Seq<char> {
        match self.program_id {
            Some(p) => p@,
            None => key_text(squads_v4_id()),
        }
    }

    /// The program id given, or the Squads v4 program's (whose text decodes
    /// back to its key).
    pub fn program_id_text(&self) -> (s: String)
        ensures
            s@ == self.program_text(),
            self.program_id is None ==> base58_decode(s@) == Some(squads_v4_id().bytes@),
    {
        match &self.program_id {
            Some(p) => p.clone(),
            None => pubkey_text(&squads_v4_id_key()),
        }
    }

    /// The key of the program id (given or the Squads v4 program's), if its
    /// text is a key; with none given, the Squads v4 program.
    pub fn program_key(&self) -> (k: Option<Pubkey>)
        ensures
            key_from_text(self.program_text(), k),
            self.program_id is None ==> k == Some(squads_v4_id()),
    {
        let text = self.program_id_text();
        let k = parse_pubkey(text.as_str());
        proof {
            if self.program_id is None {
                let key = k.unwrap();
                assert(key.bytes@ =~= squads_v4_id().bytes@);
                assert(key.bytes == squads_v4_id().bytes);
            }
        }
        k
    }

    /// The key of the multisig, if its text is a key.
    pub fn multisig_key(&self) -> (k: Option<Pubkey>)
        ensures
            key_from_text(self.multisig_pubkey@, k),
    {
        parse_pubkey(self.multisig_pubkey.as_str())
    }

    /// The RPC URL given, or the mainnet-beta cluster's.
    pub fn rpc_url_text(&self) -> (s: String)
        ensures
            s@ == match self.rpc_url {
                Some(u) => u@,
                None => DEFAULT_RPC_URL@,
            },
    {
        match &self.rpc_url {
            Some(u) => u.clone(),
            None => DEFAULT_RPC_URL.to_owned(),
        }
    }
}

/// The lines shown before the transaction is fetched: a heading in yellow,
/// then the cluster, the program, the multisig (as given) and the address
/// of the transaction account, between empty lines.
pub open spec fn fetch_header(rpc_url: Seq<char>, program_id: Pubkey, multisig: Seq<char>, tx_pda: Pubkey) -> Seq<
    Seq<SpanView>,
> {
    seq![
        Seq::empty(),
        seq![styled("Fetching transaction details..."@, Color::Yellow)],
        Seq::empty(),
        text_line("RPC Cluster URL:   "@ + rpc_url),
        text_line("Program ID:        "@ + key_text(program_id)),
        text_line("Multisig Key:      "@ + multisig),
        text_line("Transaction PDA:   "@ + key_text(tx_pda)),
        Seq::empty(),
    ]
}

/// The lines shown before the transaction is fetched: an empty line,
/// "Fetching transaction details..." in yellow, an empty line, then the
/// cluster's URL, the program's key, the multisig as given and the key of
/// the transaction account, each on the line of its own label, and a last
/// empty line.
pub proof fn law_fetch_header(rpc_url: Seq<char>, program_id: Pubkey, multisig: Seq<char>, tx_pda: Pubkey)
    ensures
        fetch_header(rpc_url, program_id, multisig, tx_pda) == seq![
            Seq::<SpanView>::empty(),
            seq![SpanView::Text("Fetching transaction details..."@, Color::Yellow)],
            Seq::<SpanView>::empty(),
            seq![SpanView::Text("RPC Cluster URL:   "@ + rpc_url, Color::Plain)],
            seq![SpanView::Text("Program ID:        "@ + key_text(program_id), Color::Plain)],
            seq![SpanView::Text("Multisig Key:      "@ + multisig, Color::Plain)],
            seq![SpanView::Text("Transaction PDA:   "@ + key_text(tx_pda), Color::Plain)],
            Seq::<SpanView>::empty(),
        ],
{
}

/// The lines shown before the transaction is fetched, as `fetch_header`
/// says.
pub fn fetch_header_lines(rpc_url: &str, program_id: &Pubkey, multisig: &str, tx_pda: &Pubkey) -> (lines: Vec<
    Line,
>)
    ensures
        lines_view(lines@) == fetch_header(rpc_url@, *program_id, multisig@, *tx_pda),
{
    let mut lines: Vec<Line> = Vec::new();
    let e1: Line = Vec::new();
    assert(line_view(e1@) =~= Seq::<SpanView>::empty());
    push_line(&mut lines, e1);
    push_line(&mut lines, line_of("Fetching transaction details...", Color::Yellow));
    let e2: Line = Vec::new();
    assert(line_view(e2@) =~= Seq::<SpanView>::empty());
    push_line(&mut lines, e2);
    let mut url = "RPC Cluster URL:   ".to_owned();
    url.append(rpc_url);
    push_line(&mut lines, plain_line(url));
    let mut program = "Program ID:        ".to_owned();
    push_key(&mut program, program_id);
    push_line(&mut lines, plain_line(program));
    let mut ms = "Multisig Key:      ".to_owned();
    ms.append(multisig);
    push_line(&mut lines, plain_line(ms));
    let mut pda = "Transaction PDA:   ".to_owned();
    push_key(&mut pda, tx_pda);
    push_line(&mut lines, plain_line(pda));
    let e3: Line = Vec::new();
    assert(line_view(e3@) =~= Seq::<SpanView>::empty());
    push_line(&mut lines, e3);
    assert(lines_view(lines@) =~= fetch_header(rpc_url@, *program_id, multisig@, *tx_pda));
    lines
}

} // verus!
