//! The account keys of a vault transaction message: the static keys, then
//! the keys loaded through address lookup tables, each with whether it is
//! writable, whether it signs, and where it came from.
use vstd::prelude::*;
use crate::lookup_table::{
    lookup_error_text, lookup_table_deserializes, lookup_table_error, read_lookup_table, table_keys,
};
use crate::pubkey::{Pubkey, zero_key};

verus! {

/// Where a resolved key came from.
#[derive(Clone, Copy, Debug, PartialEq, Eq)]
pub enum KeySource {
    /// One of the message's static keys.
    Static,
    /// The entry at the index of the lookup table with the key.
    Lookup(Pubkey, u8),
    /// An entry of the lookup table with the key, which could not be loaded.
    LookupUnresolved(Pubkey),
}

/// An account key of a message with its role.
#[derive(Clone, Copy, Debug, PartialEq, Eq)]
pub struct ResolvedKey {
    pub pubkey: Pubkey,
    pub writable: bool,
    pub signer: bool,
    pub source: KeySource,
}

/// An instruction of a message: the index of its program's key, the
/// indexes of its accounts' keys, and its data.
#[derive(Clone, Debug, PartialEq, Eq)]
pub struct CompiledInstruction {
    pub program_id_index: u8,
    pub account_indexes: Vec<u8>,
    pub data: Vec<u8>,
}

/// The use a message makes of an address lookup table: the table's key and
/// the indexes of the entries it loads as writable and as read-only.
#[derive(Clone, Debug, PartialEq, Eq)]
pub struct AddressTableLookup {
    pub account_key: Pubkey,
    pub writable_indexes: Vec<u8>,
    pub readonly_indexes: Vec<u8>,
}

/// The message of a vault transaction. Of the static keys, the first
/// `num_signers` sign, the first `num_writable_signers` of those are
/// writable, and so are the first `num_writable_non_signers` keys after
/// the signers.
#[derive(Clone, Debug, PartialEq, Eq)]
pub struct VaultTransactionMessage {
    pub num_signers: u8,
    pub num_writable_signers: u8,
    pub num_writable_non_signers: u8,
    pub account_keys: Vec<Pubkey>,
    pub instructions: Vec<CompiledInstruction>,
    pub address_table_lookups: Vec<AddressTableLookup>,
}

/// A lookup table account that exists but does not deserialize: the
/// table's key, and the text of the error that deserializing it gave.
#[derive(Debug, PartialEq, Eq)]
pub struct InvalidLookupTable {
    pub table: Pubkey,
    pub reason: String,
}

impl VaultTransactionMessage {
    /// Whether the static key at the index is writable.
    pub open spec fn static_writable(&self, i: int) -> bool {
        if i < 0 || i >= self.account_keys@.len() {
            false
        } else if i < self.num_writable_signers {
            true
        } else if i >= self.num_signers {
            i - self.num_signers < self.num_writable_non_signers
        } else {
            false
        }
    }

    /// Whether the static key at the index is writable, as `static_writable`
    /// says.
    pub fn is_static_writable_index(&self, key_index: usize) -> (r: bool)
        ensures
            r == self.static_writable(key_index as int),
    {
        let num_account_keys = self.account_keys.len();
        let num_signers = self.num_signers as usize;
        let num_writable_signers = self.num_writable_signers as usize;
        let num_writable_non_signers = self.num_writable_non_signers as usize;
        if key_index >= num_account_keys {
            return false;
        }
        if key_index < num_writable_signers {
            return true;
        }
        if key_index >= num_signers {
            let index_into_non_signers = key_index - num_signers;
            return index_into_non_signers < num_writable_non_signers;
        }
        false
    }

    /// Whether the key at the index signs: it is among the first
    /// `num_signers`.
    pub fn is_signer_index(&self, key_index: usize) -> (r: bool)
        ensures
            r == (key_index < self.num_signers),
    {
        key_index < self.num_signers as usize
    }
}

/// The static keys with their roles.
pub open spec fn static_keys(msg: VaultTransactionMessage) -> Seq<ResolvedKey> {
    Seq::new(
        msg.account_keys@.len(),
        |i: int|
            ResolvedKey {
                pubkey: msg.account_keys@[i],
                writable: msg.static_writable(i),
                signer: i < msg.num_signers,
                source: KeySource::Static,
            },
    )
}

/// The key at an index of a table; the zero key past its end.
pub open spec fn table_entry(table: Seq<Pubkey>, idx: u8) -> Pubkey {
    if idx < table.len() {
        table[idx as int]
    } else {
        zero_key()
    }
}

/// The indexes a lookup loads as writable, or as read-only.
pub open spec fn lookup_indexes(lookup: AddressTableLookup, writable: bool) -> Seq<u8> {
    if writable {
        lookup.writable_indexes@
    } else {
        lookup.readonly_indexes@
    }
}

/// The keys a lookup loads as writable (or as read-only) from its table;
/// when the table is missing, one zero key for each index, marked
/// unresolved, so that the positions of the keys after them stay right.
pub open spec fn lookup_entries(lookup: AddressTableLookup, table: Option<Seq<Pubkey>>, writable: bool) -> Seq<
    ResolvedKey,
> {
    let idxs = lookup_indexes(lookup, writable);
    match table {
        Some(t) => idxs.map_values(
            |idx: u8|
                ResolvedKey {
                    pubkey: table_entry(t, idx),
                    writable: writable,
                    signer: false,
                    source: KeySource::Lookup(lookup.account_key, idx),
                },
        ),
        None => idxs.map_values(
            |idx: u8|
                ResolvedKey {
                    pubkey: zero_key(),
                    writable: writable,
                    signer: false,
                    source: KeySource::LookupUnresolved(lookup.account_key),
                },
        ),
    }
}

/// The writable (or read-only) keys of the first `n` lookups, in order.
pub open spec fn lookups_entries(
    lookups: Seq<AddressTableLookup>,
    tables: Seq<Option<Seq<Pubkey>>>,
    writable: bool,
    n: nat,
) -> Seq<ResolvedKey>
    decreases n,
{
    if n == 0 {
        Seq::empty()
    } else {
        lookups_entries(lookups, tables, writable, (n - 1) as nat) + lookup_entries(
            lookups[n - 1],
            tables[n - 1],
            writable,
        )
    }
}

/// The smaller of two lengths.
pub open spec fn min_len(a: nat, b: nat) -> nat {
    if a <= b {
        a
    } else {
        b
    }
}

/// All account keys of the message, given the tables of its lookups (in
/// the order of the lookups; a missing table is `None`): the static keys,
/// then the writable keys of all lookups, then their read-only keys.
/// This ordering matches how instruction indexes reference accounts.
pub open spec fn resolved_keys(msg: VaultTransactionMessage, tables: Seq<Option<Seq<Pubkey>>>) -> Seq<
    ResolvedKey,
> {
    let lookups = msg.address_table_lookups@;
    let n = min_len(lookups.len(), tables.len());
    static_keys(msg) + lookups_entries(lookups, tables, true, n) + lookups_entries(
        lookups,
        tables,
        false,
        n,
    )
}

/// The data of the fetched lookup table accounts (`None` for an account
/// that does not exist).
pub open spec fn fetched_view(fetched: Seq<Option<Vec<u8>>>) -> Seq<Option<Seq<u8>>> {
    fetched.map_values(
        |o: Option<Vec<u8>>|
            match o {
                Some(d) => Some(d@),
                None => None,
            },
    )
}

/// The tables of the fetched lookup table accounts.
pub open spec fn parsed_tables(fetched: Seq<Option<Seq<u8>>>) -> Seq<Option<Seq<Pubkey>>> {
    fetched.map_values(
        |o: Option<Seq<u8>>|
            match o {
                Some(d) => Some(table_keys(d)),
                None => None,
            },
    )
}

/// Whether the fetched account at the index exists but is no lookup table.
pub open spec fn table_invalid(fetched: Seq<Option<Seq<u8>>>, i: int) -> bool {
    fetched[i] matches Some(d) && !lookup_table_deserializes(d)
}

/// The first of the first `n` fetched accounts that exists but is no lookup
/// table, if any.
pub open spec fn first_invalid_table(fetched: Seq<Option<Seq<u8>>>, n: nat) -> Option<int>
    decreases n,
{
    if n == 0 {
        None
    } else {
        match first_invalid_table(fetched, (n - 1) as nat) {
            Some(i) => Some(i),
            None => if table_invalid(fetched, n - 1) {
                Some(n - 1)
            } else {
                None
            },
        }
    }
}

proof fn lemma_first_invalid_stays(fetched: Seq<Option<Seq<u8>>>, k: nat, n: nat)
    requires
        k <= n,
        first_invalid_table(fetched, k) is Some,
    ensures
        first_invalid_table(fetched, n) == first_invalid_table(fetched, k),
    decreases n,
{
    if k < n {
        lemma_first_invalid_stays(fetched, k, (n - 1) as nat);
    }
}

/// The view of an optional table.
pub open spec fn table_view(t: Option<Vec<Pubkey>>) -> Option<Seq<Pubkey>> {
    match t {
        Some(v) => Some(v@),
        None => None,
    }
}

/// Appends, for each index the lookup loads as writable (or read-only), a
/// zero key marked as unresolved.
pub fn push_unresolved_keys(all_keys: &mut Vec<ResolvedKey>, lookup: &AddressTableLookup, writable: bool)
    ensures
        final(all_keys)@ == old(all_keys)@ + lookup_entries(*lookup, None, writable),
{
    let source = KeySource::LookupUnresolved(lookup.account_key);
    let idxs = if writable {
        &lookup.writable_indexes
    } else {
        &lookup.readonly_indexes
    };
    let ghost entries = lookup_entries(*lookup, None, writable);
    let n = idxs.len();
    for j in 0..n
        invariant
            n == idxs@.len(),
            idxs@ == lookup_indexes(*lookup, writable),
            entries == lookup_entries(*lookup, None, writable),
            source == KeySource::LookupUnresolved(lookup.account_key),
            all_keys@ =~= old(all_keys)@ + entries.take(j as int),
    {
        all_keys.push(
            ResolvedKey { pubkey: Pubkey::default(), writable: writable, signer: false, source: source },
        );
        assert(entries.take(j + 1) =~= entries.take(j as int).push(entries[j as int]));
    }
    assert(entries.take(n as int) =~= entries);
}

/// Appends the keys a lookup loads as writable (or read-only) from its
/// table, or the unresolved placeholders when there is no table.
pub fn push_lookup_keys(
    all_keys: &mut Vec<ResolvedKey>,
    lookup: &AddressTableLookup,
    table: &Option<Vec<Pubkey>>,
    writable: bool,
)
    ensures
        final(all_keys)@ == old(all_keys)@ + lookup_entries(*lookup, table_view(*table), writable),
{
    match table {
        None => push_unresolved_keys(all_keys, lookup, writable),
        Some(t) => {
            let idxs = if writable {
                &lookup.writable_indexes
            } else {
                &lookup.readonly_indexes
            };
            let ghost entries = lookup_entries(*lookup, Some(t@), writable);
            let n = idxs.len();
            for j in 0..n
                invariant
                    n == idxs@.len(),
                    idxs@ == lookup_indexes(*lookup, writable),
                    entries == lookup_entries(*lookup, Some(t@), writable),
                    all_keys@ =~= old(all_keys)@ + entries.take(j as int),
            {
                let idx = idxs[j];
                let pubkey = if (idx as usize) < t.len() {
                    t[idx as usize]
                } else {
                    Pubkey::default()
                };
                all_keys.push(
                    ResolvedKey {
                        pubkey: pubkey,
                        writable: writable,
                        signer: false,
                        source: KeySource::Lookup(lookup.account_key, idx),
                    },
                );
                assert(entries.take(j + 1) =~= entries.take(j as int).push(entries[j as int]));
            }
            assert(entries.take(n as int) =~= entries);
        },
    }
}

/// The keys of the lookup tables the message uses, in order (the accounts
/// to fetch).
pub fn lookup_table_keys(msg: &VaultTransactionMessage) -> (keys: Vec<Pubkey>)
    ensures
        keys@ == msg.address_table_lookups@.map_values(|l: AddressTableLookup| l.account_key),
{
    let mut keys: Vec<Pubkey> = Vec::new();
    let n = msg.address_table_lookups.len();
    for i in 0..n
        invariant
            n == msg.address_table_lookups@.len(),
            keys@ =~= msg.address_table_lookups@.take(i as int).map_values(
                |l: AddressTableLookup| l.account_key,
            ),
    {
        keys.push(msg.address_table_lookups[i].account_key);
    }
    assert(msg.address_table_lookups@.take(n as int) =~= msg.address_table_lookups@);
    keys
}

/// Resolves all account keys of a vault transaction message, given the
/// fetched accounts of its lookup tables (in the order of its lookups;
/// `None` for a table account that does not exist): the static keys, then
/// the writable keys of all lookups, then their read-only keys. The first
/// table account that exists but does not deserialize stops it.
pub fn resolve_account_keys(msg: &VaultTransactionMessage, fetched: &Vec<Option<Vec<u8>>>) -> (r: Result<
    Vec<ResolvedKey>,
    InvalidLookupTable,
>)
    ensures
        ({
            let fv = fetched_view(fetched@);
            let n = min_len(msg.address_table_lookups@.len(), fv.len());
            match r {
                Ok(keys) => first_invalid_table(fv, n) is None && keys@ == resolved_keys(
                    *msg,
                    parsed_tables(fv),
                ),
                Err(e) => match first_invalid_table(fv, n) {
                    Some(i) => {
                        &&& e.table == msg.address_table_lookups@[i].account_key
                        &&& e.reason@ == lookup_error_text(lookup_table_error(fv[i].unwrap()))
                    },
                    None => false,
                },
            }
        }),
{
    let ghost fv = fetched_view(fetched@);
    let ghost tables_spec = parsed_tables(fv);
    let mut all_keys: Vec<ResolvedKey> = Vec::new();
    let num_keys = msg.account_keys.len();
    for i in 0..num_keys
        invariant
            num_keys == msg.account_keys@.len(),
            all_keys@ =~= static_keys(*msg).take(i as int),
    {
        let writable = msg.is_static_writable_index(i);
        let signer = msg.is_signer_index(i);
        all_keys.push(
            ResolvedKey { pubkey: msg.account_keys[i], writable, signer, source: KeySource::Static },
        );
    }
    assert(static_keys(*msg).take(num_keys as int) =~= static_keys(*msg));
    let lookups = &msg.address_table_lookups;
    let n = if lookups.len() <= fetched.len() {
        lookups.len()
    } else {
        fetched.len()
    };
    // Load every table first, so that a table that does not deserialize
    // stops the resolution before any key of a lookup is placed.
    let mut tables: Vec<Option<Vec<Pubkey>>> = Vec::new();
    for i in 0..n
        invariant
            n <= lookups@.len(),
            n <= fetched@.len(),
            lookups == &msg.address_table_lookups,
            fv == fetched_view(fetched@),
            tables_spec == parsed_tables(fv),
            fv.len() == fetched@.len(),
            tables_spec.len() == fv.len(),
            n as nat == min_len(lookups@.len(), fv.len()),
            tables@.len() == i,
            forall|k: int| 0 <= k < i ==> #[trigger] table_view(tables@[k]) == tables_spec[k],
            first_invalid_table(fv, i as nat) is None,
    {
        match &fetched[i] {
            None => {
                tables.push(None);
            },
            Some(data) => {
                match read_lookup_table(data.as_slice()) {
                    Ok(keys) => {
                        assert(fv[i as int] == Some(data@));
                        tables.push(Some(keys));
                    },
                    Err(reason) => {
                        proof {
                            assert(fv[i as int] == Some(data@));
                            assert(table_invalid(fv, i as int));
                            assert(n as nat == min_len(lookups@.len(), fv.len()));
                            assert(first_invalid_table(fv, (i + 1) as nat) == Some(i as int));
                            lemma_first_invalid_stays(fv, (i + 1) as nat, n as nat);
                        }
                        return Err(
                            InvalidLookupTable {
                                table: lookups[i].account_key,
                                reason: reason,
                            },
                        );
                    },
                }
            },
        }
        assert(first_invalid_table(fv, (i + 1) as nat) is None);
    }
    let ghost static_part = all_keys@;
    for i in 0..n
        invariant
            n <= lookups@.len(),
            lookups == &msg.address_table_lookups,
            tables@.len() == n,
            n <= tables_spec.len(),
            forall|k: int| 0 <= k < n ==> #[trigger] table_view(tables@[k]) == tables_spec[k],
            all_keys@ == static_part + lookups_entries(lookups@, tables_spec, true, i as nat),
    {
        push_lookup_keys(&mut all_keys, &lookups[i], &tables[i], true);
        assert(table_view(tables@[i as int]) == tables_spec[i as int]);
        assert(all_keys@ =~= static_part + lookups_entries(lookups@, tables_spec, true, (i + 1) as nat));
    }
    let ghost writable_part = all_keys@;
    for i in 0..n
        invariant
            n <= lookups@.len(),
            lookups == &msg.address_table_lookups,
            tables@.len() == n,
            n <= tables_spec.len(),
            forall|k: int| 0 <= k < n ==> #[trigger] table_view(tables@[k]) == tables_spec[k],
            all_keys@ == writable_part + lookups_entries(lookups@, tables_spec, false, i as nat),
    {
        push_lookup_keys(&mut all_keys, &lookups[i], &tables[i], false);
        assert(table_view(tables@[i as int]) == tables_spec[i as int]);
        assert(all_keys@ =~= writable_part + lookups_entries(lookups@, tables_spec, false, (i + 1) as nat));
    }
    proof {
        assert(tables_spec.len() == fetched@.len());
    }
    Ok(all_keys)
}

/// The key at the index, or the zero key when the index is past the end.
pub fn resolve_key(keys: &[ResolvedKey], index: u8) -> (k: Pubkey)
    ensures
        k == (if (index as int) < keys@.len() {
            keys@[index as int].pubkey
        } else {
            zero_key()
        }),
{
    if (index as usize) < keys.len() {
        keys[index as usize].pubkey
    } else {
        Pubkey::default()
    }
}

/// The lookup table a key was loaded through, if any.
pub open spec fn origin_table(source: KeySource) -> Option<Pubkey> {
    match source {
        KeySource::Static => None,
        KeySource::Lookup(k, _) => Some(k),
        KeySource::LookupUnresolved(k) => Some(k),
    }
}

/// Two keys have the same role: writable alike, signing alike, from the
/// same table (or both static).
pub open spec fn same_role(a: ResolvedKey, b: ResolvedKey) -> bool {
    &&& a.writable == b.writable
    &&& a.signer == b.signer
    &&& origin_table(a.source) == origin_table(b.source)
}

proof fn lemma_entries_same_roles(
    lookups: Seq<AddressTableLookup>,
    t1: Seq<Option<Seq<Pubkey>>>,
    t2: Seq<Option<Seq<Pubkey>>>,
    writable: bool,
    n: nat,
)
    requires
        n <= lookups.len(),
        n <= t1.len(),
        n <= t2.len(),
    ensures
        lookups_entries(lookups, t1, writable, n).len() == lookups_entries(lookups, t2, writable, n).len(),
        forall|p: int|
            0 <= p < lookups_entries(lookups, t1, writable, n).len() ==> same_role(
                #[trigger] lookups_entries(lookups, t1, writable, n)[p],
                lookups_entries(lookups, t2, writable, n)[p],
            ),
    decreases n,
{
    if n > 0 {
        let m = (n - 1) as nat;
        lemma_entries_same_roles(lookups, t1, t2, writable, m);
        let a = lookups_entries(lookups, t1, writable, m);
        let b = lookups_entries(lookups, t2, writable, m);
        let ea = lookup_entries(lookups[m as int], t1[m as int], writable);
        let eb = lookup_entries(lookups[m as int], t2[m as int], writable);
        assert(ea.len() == eb.len());
        assert forall|p: int| 0 <= p < ea.len() implies same_role(#[trigger] ea[p], eb[p]) by {}
        let x = lookups_entries(lookups, t1, writable, n);
        let y = lookups_entries(lookups, t2, writable, n);
        assert(x == a + ea);
        assert(y == b + eb);
        assert forall|p: int| 0 <= p < x.len() implies same_role(#[trigger] x[p], y[p]) by {
            if p < a.len() {
                assert(x[p] == a[p]);
                assert(y[p] == b[p]);
            } else {
                assert(x[p] == ea[p - a.len()]);
                assert(y[p] == eb[p - a.len()]);
            }
        }
    }
}

/// Missing tables do not move any key: whichever tables of the lookups
/// were found, there are as many keys, and the key at each position has
/// the same role and comes from the same table (placeholders keep the
/// indexes of the keys after them right).
pub proof fn law_positions_independent_of_tables(
    msg: VaultTransactionMessage,
    t1: Seq<Option<Seq<Pubkey>>>,
    t2: Seq<Option<Seq<Pubkey>>>,
)
    requires
        t1.len() == t2.len(),
    ensures
        resolved_keys(msg, t1).len() == resolved_keys(msg, t2).len(),
        forall|p: int|
            0 <= p < resolved_keys(msg, t1).len() ==> same_role(
                #[trigger] resolved_keys(msg, t1)[p],
                resolved_keys(msg, t2)[p],
            ),
{
    let lookups = msg.address_table_lookups@;
    let n = min_len(lookups.len(), t1.len());
    lemma_entries_same_roles(lookups, t1, t2, true, n);
    lemma_entries_same_roles(lookups, t1, t2, false, n);
    let st = static_keys(msg);
    let w1 = lookups_entries(lookups, t1, true, n);
    let w2 = lookups_entries(lookups, t2, true, n);
    let r1 = lookups_entries(lookups, t1, false, n);
    let r2 = lookups_entries(lookups, t2, false, n);
    let x = resolved_keys(msg, t1);
    let y = resolved_keys(msg, t2);
    assert(x == st + w1 + r1);
    assert(y == st + w2 + r2);
    assert forall|p: int| 0 <= p < x.len() implies same_role(#[trigger] x[p], y[p]) by {
        if p < st.len() {
            assert(x[p] == st[p]);
            assert(y[p] == st[p]);
        } else if p < st.len() + w1.len() {
            assert(x[p] == w1[p - st.len()]);
            assert(y[p] == w2[p - st.len()]);
        } else {
            assert(x[p] == r1[p - st.len() - w1.len()]);
            assert(y[p] == r2[p - st.len() - w1.len()]);
        }
    }
}

proof fn lemma_entries_writable(
    lookups: Seq<AddressTableLookup>,
    tables: Seq<Option<Seq<Pubkey>>>,
    writable: bool,
    n: nat,
)
    ensures
        forall|p: int|
            0 <= p < lookups_entries(lookups, tables, writable, n).len() ==> (#[trigger] lookups_entries(
                lookups,
                tables,
                writable,
                n,
            )[p]).writable == writable,
    decreases n,
{
    if n > 0 {
        let m = (n - 1) as nat;
        lemma_entries_writable(lookups, tables, writable, m);
        let a = lookups_entries(lookups, tables, writable, m);
        let e = lookup_entries(lookups[m as int], tables[m as int], writable);
        let x = lookups_entries(lookups, tables, writable, n);
        assert forall|p: int| 0 <= p < x.len() implies (#[trigger] x[p]).writable == writable by {
            if p < a.len() {
                assert(x[p] == a[p]);
            } else {
                assert(x[p] == e[p - a.len()]);
            }
        }
    }
}

/// Among the keys loaded through lookup tables (the keys after the static
/// ones), every writable key comes before every read-only one.
pub proof fn law_lookup_writable_first(msg: VaultTransactionMessage, tables: Seq<Option<Seq<Pubkey>>>)
    ensures
        forall|p: int, q: int|
            msg.account_keys@.len() <= p < q < resolved_keys(msg, tables).len() && (#[trigger] resolved_keys(
                msg,
                tables,
            )[q]).writable ==> (#[trigger] resolved_keys(msg, tables)[p]).writable,
{
    let lookups = msg.address_table_lookups@;
    let n = min_len(lookups.len(), tables.len());
    lemma_entries_writable(lookups, tables, true, n);
    lemma_entries_writable(lookups, tables, false, n);
    let st = static_keys(msg);
    let w = lookups_entries(lookups, tables, true, n);
    let r = lookups_entries(lookups, tables, false, n);
    let x = resolved_keys(msg, tables);
    assert(x == st + w + r);
    assert forall|p: int, q: int|
        msg.account_keys@.len() <= p < q < x.len() && (#[trigger] x[q]).writable implies (#[trigger] x[p]).writable by {
        if q >= st.len() + w.len() {
            assert(x[q] == r[q - st.len() - w.len()]);
        } else {
            assert(x[p] == w[p - st.len()]);
        }
    }
}

/// How many keys the first `n` lookups load as writable (or read-only).
pub open spec fn entries_count(lookups: Seq<AddressTableLookup>, writable: bool, n: nat) -> nat
    decreases n,
{
    if n == 0 {
        0
    } else {
        entries_count(lookups, writable, (n - 1) as nat) + lookup_indexes(lookups[n - 1], writable).len()
    }
}

/// The placeholder for a key of the lookup whose table is missing.
pub open spec fn unresolved_key(lookup: AddressTableLookup, writable: bool) -> ResolvedKey {
    ResolvedKey {
        pubkey: zero_key(),
        writable: writable,
        signer: false,
        source: KeySource::LookupUnresolved(lookup.account_key),
    }
}

proof fn lemma_entries_missing_table(
    lookups: Seq<AddressTableLookup>,
    tables: Seq<Option<Seq<Pubkey>>>,
    l: int,
    writable: bool,
    n: nat,
)
    requires
        n <= lookups.len(),
        n <= tables.len(),
        0 <= l < tables.len(),
    ensures
        lookups_entries(lookups, tables, writable, n).len() == entries_count(lookups, writable, n),
        lookups_entries(lookups, tables.update(l, None), writable, n).len() == entries_count(
            lookups,
            writable,
            n,
        ),
        forall|p: int|
            0 <= p < entries_count(lookups, writable, n) ==> if l < n && entries_count(
                lookups,
                writable,
                l as nat,
            ) <= p < entries_count(lookups, writable, (l + 1) as nat) {
                #[trigger] lookups_entries(lookups, tables.update(l, None), writable, n)[p]
                    == unresolved_key(lookups[l], writable)
            } else {
                lookups_entries(lookups, tables.update(l, None), writable, n)[p] == lookups_entries(
                    lookups,
                    tables,
                    writable,
                    n,
                )[p]
            },
    decreases n,
{
    if n > 0 {
        let m = (n - 1) as nat;
        let t2 = tables.update(l, None);
        lemma_entries_missing_table(lookups, tables, l, writable, m);
        let a = lookups_entries(lookups, tables, writable, m);
        let b = lookups_entries(lookups, t2, writable, m);
        let ea = lookup_entries(lookups[m as int], tables[m as int], writable);
        let eb = lookup_entries(lookups[m as int], t2[m as int], writable);
        let found = lookups_entries(lookups, tables, writable, n);
        let missing = lookups_entries(lookups, t2, writable, n);
        assert(found == a + ea);
        assert(missing == b + eb);
        let c = entries_count(lookups, writable, m);
        if m as int != l {
            assert(t2[m as int] == tables[m as int]);
        }
        assert forall|p: int| 0 <= p < entries_count(lookups, writable, n) implies {
            if l < n && entries_count(lookups, writable, l as nat) <= p < entries_count(
                lookups,
                writable,
                (l + 1) as nat,
            ) {
                #[trigger] missing[p] == unresolved_key(lookups[l], writable)
            } else {
                missing[p] == found[p]
            }
        } by {
            if p < c {
                assert(found[p] == a[p]);
                assert(missing[p] == b[p]);
                if l == m as int {
                    assert(entries_count(lookups, writable, (l + 1) as nat) == entries_count(
                        lookups,
                        writable,
                        n,
                    ));
                }
            } else {
                assert(found[p] == ea[p - c]);
                assert(missing[p] == eb[p - c]);
                if l == m as int {
                    assert(t2[m as int] is None);
                    assert(eb[p - c] == unresolved_key(lookups[l], writable));
                    assert(entries_count(lookups, writable, (l + 1) as nat) == entries_count(
                        lookups,
                        writable,
                        n,
                    ));
                } else {
                    assert(eb == ea);
                    if l < m {
                        lemma_count_mono(lookups, writable, (l + 1) as nat, m);
                    }
                }
            }
        }
    }
}

proof fn lemma_count_mono(lookups: Seq<AddressTableLookup>, writable: bool, a: nat, b: nat)
    requires
        a <= b,
    ensures
        entries_count(lookups, writable, a) <= entries_count(lookups, writable, b),
    decreases b,
{
    if a < b {
        lemma_count_mono(lookups, writable, a, (b - 1) as nat);
    }
}

/// A missing lookup table changes only the keys of its own lookup: the keys
/// keep their number, every key at a position that does not belong to the
/// lookup stays the same, and each key that does becomes the zero key,
/// marked as unresolved, writable in its writable slots and read-only in
/// its read-only ones, signing in none.
pub proof fn law_missing_table_changes_only_its_keys(
    msg: VaultTransactionMessage,
    tables: Seq<Option<Seq<Pubkey>>>,
    l: int,
)
    requires
        0 <= l < min_len(msg.address_table_lookups@.len(), tables.len()),
    ensures
        ({
            let lookups = msg.address_table_lookups@;
            let n = min_len(lookups.len(), tables.len());
            let found = resolved_keys(msg, tables);
            let missing = resolved_keys(msg, tables.update(l, None));
            let s = msg.account_keys@.len();
            let w = entries_count(lookups, true, n);
            &&& found.len() == missing.len()
            &&& forall|p: int|
                0 <= p < found.len() ==> if s + entries_count(lookups, true, l as nat) <= p < s
                    + entries_count(lookups, true, (l + 1) as nat) {
                    #[trigger] missing[p] == unresolved_key(lookups[l], true)
                } else if s + w + entries_count(lookups, false, l as nat) <= p < s + w + entries_count(
                    lookups,
                    false,
                    (l + 1) as nat,
                ) {
                    missing[p] == unresolved_key(lookups[l], false)
                } else {
                    missing[p] == found[p]
                }
        }),
{
    let lookups = msg.address_table_lookups@;
    let n = min_len(lookups.len(), tables.len());
    let t2 = tables.update(l, None);
    lemma_entries_missing_table(lookups, tables, l, true, n);
    lemma_entries_missing_table(lookups, tables, l, false, n);
    let st = static_keys(msg);
    let w1 = lookups_entries(lookups, tables, true, n);
    let w2 = lookups_entries(lookups, t2, true, n);
    let r1 = lookups_entries(lookups, tables, false, n);
    let r2 = lookups_entries(lookups, t2, false, n);
    let found = resolved_keys(msg, tables);
    let missing = resolved_keys(msg, t2);
    assert(min_len(lookups.len(), t2.len()) == n);
    assert(found == st + w1 + r1);
    assert(missing == st + w2 + r2);
    let s = msg.account_keys@.len();
    let w = entries_count(lookups, true, n);
    lemma_count_mono(lookups, true, (l + 1) as nat, n);
    assert forall|p: int| 0 <= p < found.len() implies if s + entries_count(lookups, true, l as nat) <= p < s
        + entries_count(lookups, true, (l + 1) as nat) {
        #[trigger] missing[p] == unresolved_key(lookups[l], true)
    } else if s + w + entries_count(lookups, false, l as nat) <= p < s + w + entries_count(
        lookups,
        false,
        (l + 1) as nat,
    ) {
        missing[p] == unresolved_key(lookups[l], false)
    } else {
        missing[p] == found[p]
    } by {
        if p < s {
            assert(found[p] == st[p]);
            assert(missing[p] == st[p]);
            assert(s <= s + entries_count(lookups, true, l as nat));
        } else if p < s + w {
            assert(found[p] == w1[p - s]);
            assert(missing[p] == w2[p - s]);
            assert(missing[p - s + s] == w2[p - s]);
        } else {
            assert(found[p] == r1[p - s - w]);
            assert(missing[p] == r2[p - s - w]);
        }
    }
}

} // verus!
