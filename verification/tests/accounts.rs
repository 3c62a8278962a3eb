use multisig_display::accounts::{
    lookup_table_keys, resolve_account_keys, resolve_key, AddressTableLookup, CompiledInstruction,
    InvalidLookupTable, KeySource, ResolvedKey, VaultTransactionMessage,
};
use multisig_display::lookup_table::read_lookup_table;
use multisig_display::pubkey::Pubkey;

fn key(b: u8) -> Pubkey {
    Pubkey { bytes: [b; 32] }
}

fn table_data(keys: &[Pubkey]) -> Vec<u8> {
    let mut data = vec![0u8; 56];
    data[0] = 1; // initialized lookup table
    for b in &mut data[4..12] {
        *b = 0xff; // not deactivated
    }
    for k in keys {
        data.extend_from_slice(&k.bytes);
    }
    data
}

fn message(lookups: Vec<AddressTableLookup>) -> VaultTransactionMessage {
    VaultTransactionMessage {
        num_signers: 2,
        num_writable_signers: 1,
        num_writable_non_signers: 1,
        account_keys: vec![key(1), key(2), key(3), key(4)],
        instructions: vec![CompiledInstruction { program_id_index: 0, account_indexes: vec![], data: vec![] }],
        address_table_lookups: lookups,
    }
}

fn rk(pubkey: Pubkey, writable: bool, signer: bool, source: KeySource) -> ResolvedKey {
    ResolvedKey { pubkey, writable, signer, source }
}

#[test]
fn static_roles() {
    let msg = message(vec![]);
    assert!(msg.is_static_writable_index(0));
    assert!(!msg.is_static_writable_index(1));
    assert!(msg.is_static_writable_index(2));
    assert!(!msg.is_static_writable_index(3));
    assert!(!msg.is_static_writable_index(4));
    assert!(msg.is_signer_index(1));
    assert!(!msg.is_signer_index(2));
    let keys = resolve_account_keys(&msg, &vec![]).unwrap();
    assert_eq!(
        keys,
        vec![
            rk(key(1), true, true, KeySource::Static),
            rk(key(2), false, true, KeySource::Static),
            rk(key(3), true, false, KeySource::Static),
            rk(key(4), false, false, KeySource::Static),
        ]
    );
}

#[test]
fn lookups_writable_then_readonly() {
    let alt_a = key(10);
    let alt_b = key(11);
    let msg = message(vec![
        AddressTableLookup { account_key: alt_a, writable_indexes: vec![1, 5], readonly_indexes: vec![0] },
        AddressTableLookup { account_key: alt_b, writable_indexes: vec![0], readonly_indexes: vec![2, 3] },
    ]);
    assert_eq!(lookup_table_keys(&msg), vec![alt_a, alt_b]);
    let fetched = vec![Some(table_data(&[key(20), key(21)])), None];
    let keys = resolve_account_keys(&msg, &fetched).unwrap();
    let zero = Pubkey::default();
    assert_eq!(keys.len(), 4 + 3 + 3);
    assert_eq!(
        &keys[4..],
        &[
            rk(key(21), true, false, KeySource::Lookup(alt_a, 1)),
            rk(zero, true, false, KeySource::Lookup(alt_a, 5)),
            rk(zero, true, false, KeySource::LookupUnresolved(alt_b)),
            rk(key(20), false, false, KeySource::Lookup(alt_a, 0)),
            rk(zero, false, false, KeySource::LookupUnresolved(alt_b)),
            rk(zero, false, false, KeySource::LookupUnresolved(alt_b)),
        ]
    );
}

#[test]
fn positions_do_not_depend_on_found_tables() {
    let alt = key(10);
    let msg = message(vec![AddressTableLookup {
        account_key: alt,
        writable_indexes: vec![0, 1],
        readonly_indexes: vec![2],
    }]);
    let found = resolve_account_keys(&msg, &vec![Some(table_data(&[key(20), key(21), key(22)]))]).unwrap();
    let missing = resolve_account_keys(&msg, &vec![None]).unwrap();
    assert_eq!(found.len(), missing.len());
    for (a, b) in found.iter().zip(missing.iter()) {
        assert_eq!(a.writable, b.writable);
        assert_eq!(a.signer, b.signer);
    }
    // writable keys of lookups come before read-only ones
    let flags: Vec<bool> = found[4..].iter().map(|k| k.writable).collect();
    assert_eq!(flags, vec![true, true, false]);
}

#[test]
fn invalid_lookup_table_stops() {
    let alt_a = key(10);
    let alt_b = key(11);
    let msg = message(vec![
        AddressTableLookup { account_key: alt_a, writable_indexes: vec![0], readonly_indexes: vec![] },
        AddressTableLookup { account_key: alt_b, writable_indexes: vec![0], readonly_indexes: vec![] },
    ]);
    let mut bad = table_data(&[key(20)]);
    bad.push(7); // not a whole key
    let fetched = vec![Some(table_data(&[key(20)])), Some(bad)];
    match resolve_account_keys(&msg, &fetched) {
        Err(InvalidLookupTable { table, reason }) => {
            assert_eq!(table, alt_b);
            assert_eq!(reason, "invalid account data for instruction");
        }
        other => panic!("unexpected {:?}", other),
    }
    let uninitialized = vec![Some(vec![0u8; 56]), None];
    match resolve_account_keys(&msg, &uninitialized) {
        Err(InvalidLookupTable { table, reason }) => {
            assert_eq!(table, alt_a);
            assert_eq!(reason, "instruction requires an initialized account");
        }
        other => panic!("unexpected {:?}", other),
    }
}

#[test]
fn lookup_table_data_errors() {
    // an uninitialized state needs only its tag
    assert_eq!(
        read_lookup_table(&[0, 0, 0, 0]),
        Err("instruction requires an initialized account".to_string())
    );
    // too short for a tag, an unknown tag, a short table, a bad authority tag
    let mut bad_tag = table_data(&[]);
    bad_tag[0] = 2;
    let mut bad_option = table_data(&[]);
    bad_option[21] = 2;
    for data in [vec![0u8, 0, 0], bad_tag, vec![1u8, 0, 0, 0], table_data(&[])[..55].to_vec(), bad_option] {
        assert_eq!(read_lookup_table(&data), Err("invalid account data for instruction".to_string()));
    }
    // an authority is fine, and the keys follow the metadata
    let mut with_authority = table_data(&[key(7)]);
    with_authority[21] = 1;
    assert_eq!(read_lookup_table(&with_authority), Ok(vec![key(7)]));
    assert_eq!(read_lookup_table(&table_data(&[])), Ok(vec![]));
}

#[test]
fn key_by_index() {
    let keys = vec![rk(key(1), true, true, KeySource::Static)];
    assert_eq!(resolve_key(&keys, 0), key(1));
    assert_eq!(resolve_key(&keys, 1), Pubkey::default());
}


#[test]
fn missing_table_changes_only_its_keys() {
    let alt_a = key(10);
    let alt_b = key(11);
    let msg = message(vec![
        AddressTableLookup { account_key: alt_a, writable_indexes: vec![0], readonly_indexes: vec![1] },
        AddressTableLookup { account_key: alt_b, writable_indexes: vec![1], readonly_indexes: vec![0] },
    ]);
    let a = table_data(&[key(20), key(21)]);
    let b = table_data(&[key(30), key(31)]);
    let found = resolve_account_keys(&msg, &vec![Some(a.clone()), Some(b)]).unwrap();
    let missing = resolve_account_keys(&msg, &vec![Some(a), None]).unwrap();
    assert_eq!(found.len(), missing.len());
    // positions: 4 static, writable of a (4), writable of b (5), readonly of a (6), readonly of b (7)
    for p in [0, 1, 2, 3, 4, 6] {
        assert_eq!(found[p], missing[p]);
    }
    assert_eq!(missing[5], rk(Pubkey::default(), true, false, KeySource::LookupUnresolved(alt_b)));
    assert_eq!(missing[7], rk(Pubkey::default(), false, false, KeySource::LookupUnresolved(alt_b)));
    assert_eq!(found[5], rk(key(31), true, false, KeySource::Lookup(alt_b, 1)));
}
