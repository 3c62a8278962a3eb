//! Address lookup table accounts: the keys they hold.
use vstd::prelude::*;
use crate::pubkey::Pubkey;
use solana_program::instruction::InstructionError;

verus! {

/// The size of a lookup table's metadata, which the stored keys follow.
pub const LOOKUP_TABLE_META_SIZE: usize = 56;

/// Why account data is no lookup table, as the errors of
/// `AddressLookupTable::deserialize` tell it.
#[derive(Clone, Copy, Debug, PartialEq, Eq, Structural)]
pub enum LookupTableError {
    /// The state says the account is not initialized.
    UninitializedAccount,
    /// The data is not the state of a lookup table followed by whole keys.
    InvalidAccountData,
}

/// Whether the data starts with the 4-byte little-endian state tag `tag`.
pub open spec fn state_tag_is(data: Seq<u8>, tag: u8) -> bool {
    &&& data.len() >= 4
    &&& data[0] == tag
    &&& data[1] == 0
    &&& data[2] == 0
    &&& data[3] == 0
}

/// Whether the account data deserializes as a lookup table: the state is
/// that of an initialized table (tag 1), whose optional authority has a
/// valid tag (byte 21: 0 for none, 1 for some), the metadata is all there,
/// and the keys after it fill whole 32-byte keys.
pub open spec fn lookup_table_deserializes(data: Seq<u8>) -> bool {
    &&& state_tag_is(data, 1)
    &&& data.len() >= LOOKUP_TABLE_META_SIZE
    &&& data[21] <= 1
    &&& (data.len() - LOOKUP_TABLE_META_SIZE) % 32 == 0
}

/// The error for data that does not deserialize: an uninitialized state
/// (tag 0) says so, anything else is invalid data.
pub open spec fn lookup_table_error(data: Seq<u8>) -> LookupTableError {
    if state_tag_is(data, 0) {
        LookupTableError::UninitializedAccount
    } else {
        LookupTableError::InvalidAccountData
    }
}

/// The text that the `Display` of the `InstructionError` of the same name
/// writes for the error.
pub open spec fn lookup_error_text(e: LookupTableError) -> Seq<char> {
    match e {
        LookupTableError::UninitializedAccount => "instruction requires an initialized account"@,
        LookupTableError::InvalidAccountData => "invalid account data for instruction"@,
    }
}

/// The number of keys stored after the metadata.
pub open spec fn table_len(data: Seq<u8>) -> nat {
    ((data.len() - LOOKUP_TABLE_META_SIZE) / 32) as nat
}

/// The bytes of the `i`-th stored key.
pub open spec fn table_key_bytes(data: Seq<u8>, i: int) -> Seq<u8> {
    data.subrange(LOOKUP_TABLE_META_SIZE + 32 * i, LOOKUP_TABLE_META_SIZE + 32 * i + 32)
}

/// `AddressLookupTable::deserialize` (of
/// `solana_address_lookup_table_interface::state`), with the stored
/// addresses converted to keys and its error to a `LookupTableError`.
/// Claimed, from its source: the state is read with bincode's fixed-size
/// little-endian encoding, trailing bytes allowed (a 4-byte variant tag,
/// two 8-byte slots, a byte, an optional authority whose tag is byte 21,
/// two bytes of padding); tag 0 gives `UninitializedAccount`, any other
/// failure `InvalidAccountData`; after the 56 bytes of metadata the data
/// must be whole 32-byte keys. So it succeeds exactly when
/// `lookup_table_deserializes` holds, the keys are then the 32-byte pieces
/// after the metadata, in order, and otherwise the error is
/// `lookup_table_error` of the data.
#[verifier::external_body]
fn deserialize_table(data: &[u8]) -> (r: Result<Vec<Pubkey>, LookupTableError>)
    ensures
        r is Ok <==> lookup_table_deserializes(data@),
        r matches Ok(keys) ==> {
            &&& keys@.len() == table_len(data@)
            &&& forall|i: int| 0 <= i < keys@.len() ==> #[trigger] keys@[i].bytes@ == table_key_bytes(data@, i)
        },
        r matches Err(e) ==> e == lookup_table_error(data@),
{
    solana_address_lookup_table_interface::state::AddressLookupTable::deserialize(data)
        .map(|t| t.addresses.iter().map(|a| Pubkey { bytes: a.to_bytes() }).collect())
        .map_err(|e| match e {
            InstructionError::UninitializedAccount => LookupTableError::UninitializedAccount,
            _ => LookupTableError::InvalidAccountData,
        })
}

/// The `Display` text of the `InstructionError` that the error stands for
/// (`UninitializedAccount` or `InvalidAccountData`). Claimed: the texts
/// its `Display` writes for these two variants.
#[verifier::external_body]
fn instruction_error_text(e: LookupTableError) -> (s: String)
    ensures
        s@ == lookup_error_text(e),
{
    match e {
        LookupTableError::UninitializedAccount => InstructionError::UninitializedAccount,
        LookupTableError::InvalidAccountData => InstructionError::InvalidAccountData,
    }.to_string()
}

/// The key whose bytes are the given 32 bytes.
pub open spec fn key_of(bytes: Seq<u8>) -> Pubkey {
    choose|k: Pubkey| k.bytes@ == bytes
}

/// The keys a lookup table account holds.
pub open spec fn table_keys(data: Seq<u8>) -> Seq<Pubkey> {
    Seq::new(table_len(data), |i: int| key_of(table_key_bytes(data, i)))
}

/// A key is the key of its bytes.
pub proof fn lemma_key_of(k: Pubkey)
    ensures
        key_of(k.bytes@) == k,
{
    let j = key_of(k.bytes@);
    assert(j.bytes@ == k.bytes@);
    assert(j.bytes == k.bytes);
}

/// The keys a lookup table holds are the data after its 56 bytes of
/// metadata, cut into 32-byte keys in order.
pub proof fn law_table_keys(data: Seq<u8>)
    requires
        lookup_table_deserializes(data),
    ensures
        table_keys(data).len() * 32 + 56 == data.len(),
        forall|i: int|
            0 <= i < table_keys(data).len() ==> (#[trigger] table_keys(data)[i]).bytes@ == data.subrange(
                56 + 32 * i,
                88 + 32 * i,
            ),
{
    assert forall|i: int| 0 <= i < table_keys(data).len() implies (#[trigger] table_keys(data)[i]).bytes@
        == data.subrange(56 + 32 * i, 88 + 32 * i) by {
        let b = table_key_bytes(data, i);
        assert(b.len() == 32);
        let k = Pubkey { bytes: [b[0], b[1], b[2], b[3], b[4], b[5], b[6], b[7], b[8], b[9], b[10], b[11], b[12], b[13], b[14], b[15], b[16], b[17], b[18], b[19], b[20], b[21], b[22], b[23], b[24], b[25], b[26], b[27], b[28], b[29], b[30], b[31]] };
        assert(k.bytes@ =~= b);
        assert(key_of(b).bytes@ == b);
    }
}

/// Reads the keys of a lookup table account; on failure, the text of the
/// error.
pub fn read_lookup_table(data: &[u8]) -> (r: Result<Vec<Pubkey>, String>)
    ensures
        r is Ok <==> lookup_table_deserializes(data@),
        r matches Ok(keys) ==> keys@ == table_keys(data@),
        r matches Err(s) ==> s@ == lookup_error_text(lookup_table_error(data@)),
{
    match deserialize_table(data) {
        Ok(keys) => {
            proof {
                assert forall|i: int| 0 <= i < keys@.len() implies keys@[i] == table_keys(data@)[i] by {
                    lemma_key_of(keys@[i]);
                }
                assert(keys@ =~= table_keys(data@));
            }
            Ok(keys)
        },
        Err(e) => Err(instruction_error_text(e)),
    }
}

} // verus!
