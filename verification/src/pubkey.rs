//! Account keys: their base-58 text, the well-known programs and mints,
//! and the short forms in which keys are shown.
use vstd::prelude::*;
use crate::render::{Color, Line, line_view, styled};
use vstd::string::StringSliceAdditionalSpecFns;

verus! {

/// A 32-byte account key.
#[derive(Clone, Copy, Debug, PartialEq, Eq)]
pub struct Pubkey {
    pub bytes: [u8; 32],
}

/// The all-zero key, which is also the default key.
pub open spec fn zero_key() -> Pubkey {
    Pubkey { bytes: [0u8, 0, 0, 0, 0, 0, 0, 0, 0, 0, 0, 0, 0, 0, 0, 0, 0, 0, 0, 0, 0, 0, 0, 0, 0, 0, 0, 0, 0, 0, 0, 0] }
}

impl Default for Pubkey {
    fn default() -> (k: Pubkey)
        ensures
            k == zero_key(),
    {
        let k = Pubkey { bytes: [0u8; 32] };
        assert(k.bytes@ =~= Seq::new(32, |i: int| 0u8));
        assert(zero_key().bytes@ =~= Seq::new(32, |i: int| 0u8));
        assert(k.bytes@ =~= zero_key().bytes@);
        assert(k.bytes == zero_key().bytes);
        k
    }
}

/// Whether two keys are the same.
pub fn keys_equal(a: &Pubkey, b: &Pubkey) -> (r: bool)
    ensures
        r == (*a == *b),
{
    let mut i: usize = 0;
    while i < 32
        invariant
            i <= 32,
            forall|k: int| 0 <= k < i ==> a.bytes@[k] == b.bytes@[k],
        decreases 32 - i,
    {
        if a.bytes[i] != b.bytes[i] {
            assert(a.bytes@[i as int] != b.bytes@[i as int]);
            return false;
        }
        i = i + 1;
    }
    assert(a.bytes@ =~= b.bytes@);
    assert(a.bytes == b.bytes);
    true
}

/// The base-58 alphabet: the digits and letters without '0', 'I', 'O' and
/// 'l'.
pub open spec fn base58_alphabet() -> Seq<char> {
    "123456789ABCDEFGHJKLMNPQRSTUVWXYZabcdefghijkmnopqrstuvwxyz"@
}

/// The unsigned big-endian value of the bytes.
pub open spec fn be_value(bytes: Seq<u8>) -> nat
    decreases bytes.len(),
{
    if bytes.len() == 0 {
        0
    } else {
        be_value(bytes.drop_last()) * 256 + bytes.last() as nat
    }
}

/// The base-58 digits of `n`, most significant first; none for zero.
pub open spec fn base58_digits(n: nat) -> Seq<char>
    decreases n,
{
    if n == 0 {
        Seq::empty()
    } else {
        base58_digits(n / 58).push(base58_alphabet()[(n % 58) as int])
    }
}

/// The number of zero bytes the bytes start with.
pub open spec fn leading_zero_bytes(bytes: Seq<u8>) -> nat
    decreases bytes.len(),
{
    if bytes.len() > 0 && bytes[0] == 0 {
        1 + leading_zero_bytes(bytes.drop_first())
    } else {
        0
    }
}

/// The base-58 text of bytes: one '1' for each leading zero byte, then the
/// base-58 digits of the bytes' big-endian value. (Kept opaque: the
/// proofs here treat a key's text as a whole.)
#[verifier::opaque]
pub open spec fn base58(bytes: Seq<u8>) -> Seq<char> {
    Seq::new(leading_zero_bytes(bytes), |i: int| '1') + base58_digits(be_value(bytes))
}

/// `solana_sdk::pubkey::Pubkey::to_string` (its `Display`) on the key's
/// bytes, which writes what five8's `encode_32` encodes. Claimed: the text
/// is `base58` of the bytes (`encode_32` writes one '1' per leading zero
/// byte and then the base-58 digits of the value, in the alphabet above),
/// every character is ASCII (the alphabet's are), and there are 32 to 44
/// of them: at most the size of the buffer it encodes into, and at least 32
/// because each leading zero byte becomes one '1' and each further byte
/// (worth more than 58) adds at least one digit. And the text decodes back
/// to the key's bytes under `base58_decode` (`from_str` decodes with
/// `decode_32` of five8 what `encode_32` wrote, and the text is within its
/// 44 characters).
#[verifier::external_body]
pub(crate) fn pubkey_text(key: &Pubkey) -> (s: String)
    ensures
        s@ == base58(key.bytes@),
        vstd::utf8::is_ascii_chars(s@),
        32 <= s@.len() <= 44,
        base58_decode(s@) == Some(key.bytes@),
{
    solana_sdk::pubkey::Pubkey::new_from_array(key.bytes).to_string()
}

/// The bytes a text decodes to as a key, if it is the base-58 text of one,
/// as `FromStr` of `solana_sdk::pubkey::Pubkey` decodes it.
pub uninterp spec fn base58_decode(text: Seq<char>) -> Option<Seq<u8>>;

/// `solana_sdk::pubkey::Pubkey::from_str` (through `str::parse`), with the
/// result converted to its bytes. Claimed: it gives a key exactly when
/// `base58_decode` of the text gives bytes, and then those bytes.
#[verifier::external_body]
pub(crate) fn parse_pubkey(text: &str) -> (r: Option<Pubkey>)
    ensures
        match r {
            Some(k) => base58_decode(text@) == Some(k.bytes@),
            None => base58_decode(text@) is None,
        },
{
    text.parse::<solana_sdk::pubkey::Pubkey>().ok().map(|k| Pubkey { bytes: k.to_bytes() })
}

/// `solana_sdk_ids::system_program::id()`, converted to its bytes. Claimed:
/// they are those of "11111111111111111111111111111111" (all zero).
#[verifier::external_body]
pub(crate) fn system_program_key() -> (k: Pubkey)
    ensures
        k == system_program_id(),
{
    Pubkey { bytes: solana_sdk_ids::system_program::id().to_bytes() }
}

/// `spl_token::id()`, converted to its bytes. Claimed: they are those of
/// "TokenkegQfeZyiNwAJbNbGKPFXCWuBvf9Ss623VQ5DA", the id it declares.
#[verifier::external_body]
pub(crate) fn spl_token_key() -> (k: Pubkey)
    ensures
        k == spl_token_id(),
{
    Pubkey { bytes: spl_token::id().to_bytes() }
}

/// `spl_associated_token_account::id()`, converted to its bytes. Claimed:
/// they are those of "ATokenGPvbdGVxr1b2hvZbsiqW5xWH25efTNsLJA8knL".
#[verifier::external_body]
pub(crate) fn associated_token_key() -> (k: Pubkey)
    ensures
        k == associated_token_id(),
{
    Pubkey { bytes: spl_associated_token_account::id().to_bytes() }
}

/// `solana_sdk::sysvar::rent::id()`, converted to its bytes. Claimed: they
/// are those of "SysvarRent111111111111111111111111111111111".
#[verifier::external_body]
pub(crate) fn rent_sysvar_key() -> (k: Pubkey)
    ensures
        k == rent_sysvar_id(),
{
    Pubkey { bytes: solana_sdk::sysvar::rent::id().to_bytes() }
}

/// The SPL Token-2022 program. ("TokenzQdBNbLqP5VEhdkAS6EPFLC1PHnBqCXEpPxuEb")
pub open spec fn token_2022_id() -> Pubkey {
    Pubkey { bytes: [6u8, 221, 246, 225, 238, 117, 143, 222, 24, 66, 93, 188, 228, 108, 205, 218, 182, 26, 252, 77, 131, 185, 13, 39, 254, 189, 249, 40, 216, 161, 139, 252] }
}

/// The SPL Token-2022 program. ("TokenzQdBNbLqP5VEhdkAS6EPFLC1PHnBqCXEpPxuEb")
pub fn token_2022_id_key() -> (k: Pubkey)
    ensures
        k == token_2022_id(),
{
    Pubkey { bytes: [6u8, 221, 246, 225, 238, 117, 143, 222, 24, 66, 93, 188, 228, 108, 205, 218, 182, 26, 252, 77, 131, 185, 13, 39, 254, 189, 249, 40, 216, 161, 139, 252] }
}

/// The compute budget program. ("ComputeBudget111111111111111111111111111111")
pub open spec fn compute_budget_id() -> Pubkey {
    Pubkey { bytes: [3u8, 6, 70, 111, 229, 33, 23, 50, 255, 236, 173, 186, 114, 195, 155, 231, 188, 140, 229, 187, 197, 247, 18, 107, 44, 67, 155, 58, 64, 0, 0, 0] }
}

/// The compute budget program. ("ComputeBudget111111111111111111111111111111")
pub fn compute_budget_id_key() -> (k: Pubkey)
    ensures
        k == compute_budget_id(),
{
    Pubkey { bytes: [3u8, 6, 70, 111, 229, 33, 23, 50, 255, 236, 173, 186, 114, 195, 155, 231, 188, 140, 229, 187, 197, 247, 18, 107, 44, 67, 155, 58, 64, 0, 0, 0] }
}

/// The upgradeable BPF loader. ("BPFLoaderUpgradeab1e11111111111111111111111")
pub open spec fn bpf_upgradeable_loader_id() -> Pubkey {
    Pubkey { bytes: [2u8, 168, 246, 145, 78, 136, 161, 176, 226, 16, 21, 62, 247, 99, 174, 43, 0, 194, 185, 61, 22, 193, 36, 210, 192, 83, 122, 16, 4, 128, 0, 0] }
}

/// The upgradeable BPF loader. ("BPFLoaderUpgradeab1e11111111111111111111111")
pub fn bpf_upgradeable_loader_id_key() -> (k: Pubkey)
    ensures
        k == bpf_upgradeable_loader_id(),
{
    Pubkey { bytes: [2u8, 168, 246, 145, 78, 136, 161, 176, 226, 16, 21, 62, 247, 99, 174, 43, 0, 194, 185, 61, 22, 193, 36, 210, 192, 83, 122, 16, 4, 128, 0, 0] }
}

/// The Squads v4 multisig program. ("SQDS4ep65T869zMMBKyuUq6aD6EgTu8psMjkvj52pCf")
pub open spec fn squads_v4_id() -> Pubkey {
    Pubkey { bytes: [6u8, 129, 196, 206, 71, 226, 35, 104, 184, 177, 85, 94, 200, 135, 175, 9, 46, 252, 126, 251, 182, 108, 163, 245, 47, 191, 104, 212, 172, 156, 183, 168] }
}

/// The Squads v4 multisig program. ("SQDS4ep65T869zMMBKyuUq6aD6EgTu8psMjkvj52pCf")
pub fn squads_v4_id_key() -> (k: Pubkey)
    ensures
        k == squads_v4_id(),
{
    Pubkey { bytes: [6u8, 129, 196, 206, 71, 226, 35, 104, 184, 177, 85, 94, 200, 135, 175, 9, 46, 252, 126, 251, 182, 108, 163, 245, 47, 191, 104, 212, 172, 156, 183, 168] }
}

/// The Jupiter v6 program. ("JUP6LkbZbjS1jKKwapdHNy74zcZ3tLUZoi5QNyVTaV4")
pub open spec fn jupiter_v6_id() -> Pubkey {
    Pubkey { bytes: [4u8, 121, 213, 91, 242, 49, 192, 110, 238, 116, 197, 110, 206, 104, 21, 7, 253, 177, 178, 222, 163, 244, 142, 81, 2, 177, 205, 162, 86, 188, 19, 143] }
}

/// The Jupiter v6 program. ("JUP6LkbZbjS1jKKwapdHNy74zcZ3tLUZoi5QNyVTaV4")
pub fn jupiter_v6_id_key() -> (k: Pubkey)
    ensures
        k == jupiter_v6_id(),
{
    Pubkey { bytes: [4u8, 121, 213, 91, 242, 49, 192, 110, 238, 116, 197, 110, 206, 104, 21, 7, 253, 177, 178, 222, 163, 244, 142, 81, 2, 177, 205, 162, 86, 188, 19, 143] }
}

/// The USDC mint. ("EPjFWdd5AufqSSqeM2qN1xzybapC8G4wEGGkZwyTDt1v")
pub open spec fn usdc_mint() -> Pubkey {
    Pubkey { bytes: [198u8, 250, 122, 243, 190, 219, 173, 58, 61, 101, 243, 106, 171, 201, 116, 49, 177, 187, 228, 194, 210, 246, 224, 228, 124, 166, 2, 3, 69, 47, 93, 97] }
}

/// The USDC mint. ("EPjFWdd5AufqSSqeM2qN1xzybapC8G4wEGGkZwyTDt1v")
pub fn usdc_mint_key() -> (k: Pubkey)
    ensures
        k == usdc_mint(),
{
    Pubkey { bytes: [198u8, 250, 122, 243, 190, 219, 173, 58, 61, 101, 243, 106, 171, 201, 116, 49, 177, 187, 228, 194, 210, 246, 224, 228, 124, 166, 2, 3, 69, 47, 93, 97] }
}

/// The USDT mint. ("Es9vMFrzaCERmJfrF4H2FYD4KCoNkY11McCe8BenwNYB")
pub open spec fn usdt_mint() -> Pubkey {
    Pubkey { bytes: [206u8, 1, 14, 96, 175, 237, 178, 39, 23, 189, 99, 25, 47, 84, 20, 90, 63, 150, 90, 51, 187, 130, 210, 199, 2, 158, 178, 206, 30, 32, 130, 100] }
}

/// The USDT mint. ("Es9vMFrzaCERmJfrF4H2FYD4KCoNkY11McCe8BenwNYB")
pub fn usdt_mint_key() -> (k: Pubkey)
    ensures
        k == usdt_mint(),
{
    Pubkey { bytes: [206u8, 1, 14, 96, 175, 237, 178, 39, 23, 189, 99, 25, 47, 84, 20, 90, 63, 150, 90, 51, 187, 130, 210, 199, 2, 158, 178, 206, 30, 32, 130, 100] }
}

/// The wrapped SOL mint. ("So11111111111111111111111111111111111111112")
pub open spec fn wsol_mint() -> Pubkey {
    Pubkey { bytes: [6u8, 155, 136, 87, 254, 171, 129, 132, 251, 104, 127, 99, 70, 24, 192, 53, 218, 196, 57, 220, 26, 235, 59, 85, 152, 160, 240, 0, 0, 0, 0, 1] }
}

/// The wrapped SOL mint. ("So11111111111111111111111111111111111111112")
pub fn wsol_mint_key() -> (k: Pubkey)
    ensures
        k == wsol_mint(),
{
    Pubkey { bytes: [6u8, 155, 136, 87, 254, 171, 129, 132, 251, 104, 127, 99, 70, 24, 192, 53, 218, 196, 57, 220, 26, 235, 59, 85, 152, 160, 240, 0, 0, 0, 0, 1] }
}

/// The mSOL mint. ("mSoLzYCxHdYgdzU16g5QSh3i5K3z3KZK7ytfqcJm7So")
pub open spec fn msol_mint() -> Pubkey {
    Pubkey { bytes: [11u8, 98, 186, 7, 79, 114, 44, 157, 65, 20, 242, 216, 247, 10, 0, 198, 96, 2, 51, 123, 155, 249, 12, 135, 54, 87, 166, 210, 1, 219, 76, 128] }
}

/// The mSOL mint. ("mSoLzYCxHdYgdzU16g5QSh3i5K3z3KZK7ytfqcJm7So")
pub fn msol_mint_key() -> (k: Pubkey)
    ensures
        k == msol_mint(),
{
    Pubkey { bytes: [11u8, 98, 186, 7, 79, 114, 44, 157, 65, 20, 242, 216, 247, 10, 0, 198, 96, 2, 51, 123, 155, 249, 12, 135, 54, 87, 166, 210, 1, 219, 76, 128] }
}

/// The stSOL mint. ("7dHbWXmci3dT8UFYWYZweBLXgycu7Y3iL6trKn1Y7ARj")
pub open spec fn stsol_mint() -> Pubkey {
    Pubkey { bytes: [98u8, 113, 203, 113, 25, 71, 107, 157, 206, 0, 216, 21, 200, 255, 49, 95, 200, 191, 125, 40, 72, 99, 61, 52, 148, 42, 223, 213, 53, 242, 222, 254] }
}

/// The stSOL mint. ("7dHbWXmci3dT8UFYWYZweBLXgycu7Y3iL6trKn1Y7ARj")
pub fn stsol_mint_key() -> (k: Pubkey)
    ensures
        k == stsol_mint(),
{
    Pubkey { bytes: [98u8, 113, 203, 113, 25, 71, 107, 157, 206, 0, 216, 21, 200, 255, 49, 95, 200, 191, 125, 40, 72, 99, 61, 52, 148, 42, 223, 213, 53, 242, 222, 254] }
}

/// The JitoSOL mint. ("J1toso1uCk3RLmjorhTtrVwY9HJ7X8V9yYac6Y7kGCPn")
pub open spec fn jitosol_mint() -> Pubkey {
    Pubkey { bytes: [252u8, 209, 65, 233, 131, 44, 175, 16, 173, 145, 116, 149, 202, 15, 39, 27, 91, 41, 60, 212, 112, 39, 234, 115, 112, 7, 237, 64, 235, 57, 160, 189] }
}

/// The JitoSOL mint. ("J1toso1uCk3RLmjorhTtrVwY9HJ7X8V9yYac6Y7kGCPn")
pub fn jitosol_mint_key() -> (k: Pubkey)
    ensures
        k == jitosol_mint(),
{
    Pubkey { bytes: [252u8, 209, 65, 233, 131, 44, 175, 16, 173, 145, 116, 149, 202, 15, 39, 27, 91, 41, 60, 212, 112, 39, 234, 115, 112, 7, 237, 64, 235, 57, 160, 189] }
}

/// The BONK mint. ("DezXAZ8z7PnrnRJjz3wXBoRgixCa6xjnB7YaB1pPB263")
pub open spec fn bonk_mint() -> Pubkey {
    Pubkey { bytes: [188u8, 7, 197, 110, 96, 173, 61, 63, 23, 115, 130, 234, 198, 84, 143, 186, 31, 211, 44, 253, 144, 202, 2, 179, 231, 207, 161, 133, 253, 206, 115, 152] }
}

/// The BONK mint. ("DezXAZ8z7PnrnRJjz3wXBoRgixCa6xjnB7YaB1pPB263")
pub fn bonk_mint_key() -> (k: Pubkey)
    ensures
        k == bonk_mint(),
{
    Pubkey { bytes: [188u8, 7, 197, 110, 96, 173, 61, 63, 23, 115, 130, 234, 198, 84, 143, 186, 31, 211, 44, 253, 144, 202, 2, 179, 231, 207, 161, 133, 253, 206, 115, 152] }
}

/// The JUP mint. ("JUPyiwrYJFskUPiHa7hkeR8VUtAeFoSYbKedZNsDvCN")
pub open spec fn jup_mint() -> Pubkey {
    Pubkey { bytes: [4u8, 121, 217, 199, 204, 16, 53, 222, 114, 17, 249, 158, 180, 140, 9, 215, 11, 43, 223, 91, 223, 158, 46, 86, 184, 161, 251, 181, 162, 234, 51, 39] }
}

/// The JUP mint. ("JUPyiwrYJFskUPiHa7hkeR8VUtAeFoSYbKedZNsDvCN")
pub fn jup_mint_key() -> (k: Pubkey)
    ensures
        k == jup_mint(),
{
    Pubkey { bytes: [4u8, 121, 217, 199, 204, 16, 53, 222, 114, 17, 249, 158, 180, 140, 9, 215, 11, 43, 223, 91, 223, 158, 46, 86, 184, 161, 251, 181, 162, 234, 51, 39] }
}

/// The key declared as "11111111111111111111111111111111".
pub open spec fn system_program_id() -> Pubkey {
    Pubkey { bytes: [0u8, 0, 0, 0, 0, 0, 0, 0, 0, 0, 0, 0, 0, 0, 0, 0, 0, 0, 0, 0, 0, 0, 0, 0, 0, 0, 0, 0, 0, 0, 0, 0] }
}

/// The key declared as "TokenkegQfeZyiNwAJbNbGKPFXCWuBvf9Ss623VQ5DA".
pub open spec fn spl_token_id() -> Pubkey {
    Pubkey { bytes: [6u8, 221, 246, 225, 215, 101, 161, 147, 217, 203, 225, 70, 206, 235, 121, 172, 28, 180, 133, 237, 95, 91, 55, 145, 58, 140, 245, 133, 126, 255, 0, 169] }
}

/// The key declared as "ATokenGPvbdGVxr1b2hvZbsiqW5xWH25efTNsLJA8knL".
pub open spec fn associated_token_id() -> Pubkey {
    Pubkey { bytes: [140u8, 151, 37, 143, 78, 36, 137, 241, 187, 61, 16, 41, 20, 142, 13, 131, 11, 90, 19, 153, 218, 255, 16, 132, 4, 142, 123, 216, 219, 233, 248, 89] }
}

/// The key declared as "SysvarRent111111111111111111111111111111111".
pub open spec fn rent_sysvar_id() -> Pubkey {
    Pubkey { bytes: [6u8, 167, 213, 23, 25, 44, 92, 81, 33, 140, 201, 76, 61, 74, 241, 127, 88, 218, 238, 8, 155, 161, 253, 68, 227, 219, 217, 138, 0, 0, 0, 0] }
}

/// The name shown for a well-known program (or sysvar), if the key is one.
pub open spec fn program_name(k: Pubkey) -> Option<Seq<char>> {
    if k == system_program_id() {
        Some("System Program"@)
    } else if k == spl_token_id() {
        Some("SPL Token"@)
    } else if k == associated_token_id() {
        Some("Associated Token Account"@)
    } else if k == rent_sysvar_id() {
        Some("Rent Sysvar"@)
    } else if k == token_2022_id() {
        Some("SPL Token-2022"@)
    } else if k == compute_budget_id() {
        Some("Compute Budget"@)
    } else if k == bpf_upgradeable_loader_id() {
        Some("BPF Upgradeable Loader"@)
    } else if k == squads_v4_id() {
        Some("Squads v4"@)
    } else if k == jupiter_v6_id() {
        Some("Jupiter v6"@)
    } else {
        None
    }
}

/// The symbol shown for a well-known mint, if the key is one.
pub open spec fn mint_name(k: Pubkey) -> Option<Seq<char>> {
    if k == usdc_mint() {
        Some("USDC"@)
    } else if k == usdt_mint() {
        Some("USDT"@)
    } else if k == wsol_mint() {
        Some("SOL"@)
    } else if k == msol_mint() {
        Some("mSOL"@)
    } else if k == stsol_mint() {
        Some("stSOL"@)
    } else if k == jitosol_mint() {
        Some("JitoSOL"@)
    } else if k == bonk_mint() {
        Some("BONK"@)
    } else if k == jup_mint() {
        Some("JUP"@)
    } else {
        None
    }
}

/// The symbol of each well-known mint: USDC, USDT, SOL (wrapped SOL), mSOL,
/// stSOL, JitoSOL, BONK and JUP, each mint its own; every other key has
/// none.
pub proof fn law_mint_symbols(k: Pubkey)
    ensures
        mint_name(usdc_mint()) == Some("USDC"@),
        mint_name(usdt_mint()) == Some("USDT"@),
        mint_name(wsol_mint()) == Some("SOL"@),
        mint_name(msol_mint()) == Some("mSOL"@),
        mint_name(stsol_mint()) == Some("stSOL"@),
        mint_name(jitosol_mint()) == Some("JitoSOL"@),
        mint_name(bonk_mint()) == Some("BONK"@),
        mint_name(jup_mint()) == Some("JUP"@),
        mint_name(k) is Some <==> (k == usdc_mint() || k == usdt_mint() || k == wsol_mint() || k == msol_mint()
            || k == stsol_mint() || k == jitosol_mint() || k == bonk_mint() || k == jup_mint()),
{
}

/// Distinct well-known mints have distinct symbols: the symbol names the
/// mint.
pub proof fn law_mint_symbols_distinct(a: Pubkey, b: Pubkey)
    requires
        mint_name(a) is Some,
        mint_name(a) == mint_name(b),
    ensures
        a == b,
{
    reveal_strlit("USDC");
    reveal_strlit("USDT");
    reveal_strlit("SOL");
    reveal_strlit("mSOL");
    reveal_strlit("stSOL");
    reveal_strlit("JitoSOL");
    reveal_strlit("BONK");
    reveal_strlit("JUP");
    let n = mint_name(a).unwrap();
    assert(n.len() >= 3);
    assert(n == "USDC"@ || n == "USDT"@ || n == "SOL"@ || n == "mSOL"@ || n == "stSOL"@ || n == "JitoSOL"@
        || n == "BONK"@ || n == "JUP"@);
    if n == "USDC"@ || n == "USDT"@ {
        assert("USDC"@[3] != "USDT"@[3]);
    }
    if n == "SOL"@ || n == "JUP"@ {
        assert("SOL"@[0] != "JUP"@[0]);
    }
    if n == "mSOL"@ || n == "BONK"@ || n == "USDC"@ || n == "USDT"@ {
        assert("mSOL"@[0] != "BONK"@[0]);
        assert("mSOL"@[0] != "USDC"@[0]);
        assert("BONK"@[0] != "USDC"@[0]);
    }
}

/// The name of each well-known program (and of the rent sysvar), each key
/// its own; every other key has none.
pub proof fn law_program_names(k: Pubkey)
    ensures
        program_name(system_program_id()) == Some("System Program"@),
        program_name(spl_token_id()) == Some("SPL Token"@),
        program_name(associated_token_id()) == Some("Associated Token Account"@),
        program_name(rent_sysvar_id()) == Some("Rent Sysvar"@),
        program_name(token_2022_id()) == Some("SPL Token-2022"@),
        program_name(compute_budget_id()) == Some("Compute Budget"@),
        program_name(bpf_upgradeable_loader_id()) == Some("BPF Upgradeable Loader"@),
        program_name(squads_v4_id()) == Some("Squads v4"@),
        program_name(jupiter_v6_id()) == Some("Jupiter v6"@),
        program_name(k) is Some <==> (k == system_program_id() || k == spl_token_id() || k == associated_token_id()
            || k == rent_sysvar_id() || k == token_2022_id() || k == compute_budget_id() || k
            == bpf_upgradeable_loader_id() || k == squads_v4_id() || k == jupiter_v6_id()),
{
}

/// The text of an optional name.
pub open spec fn name_view(o: Option<&str>) -> Option<Seq<char>> {
    match o {
        Some(s) => Some(s@),
        None => None,
    }
}

/// The name of a well-known program, if the key is one.
pub fn identify_program(pubkey: &Pubkey) -> (r: Option<&'static str>)
    ensures
        name_view(r) == program_name(*pubkey),
{
    if keys_equal(pubkey, &system_program_key()) {
        Some("System Program")
    } else if keys_equal(pubkey, &spl_token_key()) {
        Some("SPL Token")
    } else if keys_equal(pubkey, &associated_token_key()) {
        Some("Associated Token Account")
    } else if keys_equal(pubkey, &rent_sysvar_key()) {
        Some("Rent Sysvar")
    } else if keys_equal(pubkey, &token_2022_id_key()) {
        Some("SPL Token-2022")
    } else if keys_equal(pubkey, &compute_budget_id_key()) {
        Some("Compute Budget")
    } else if keys_equal(pubkey, &bpf_upgradeable_loader_id_key()) {
        Some("BPF Upgradeable Loader")
    } else if keys_equal(pubkey, &squads_v4_id_key()) {
        Some("Squads v4")
    } else if keys_equal(pubkey, &jupiter_v6_id_key()) {
        Some("Jupiter v6")
    } else {
        None
    }
}

/// The symbol of a well-known mint, if the key is one.
pub fn identify_mint(pubkey: &Pubkey) -> (r: Option<&'static str>)
    ensures
        name_view(r) == mint_name(*pubkey),
{
    if keys_equal(pubkey, &usdc_mint_key()) {
        Some("USDC")
    } else if keys_equal(pubkey, &usdt_mint_key()) {
        Some("USDT")
    } else if keys_equal(pubkey, &wsol_mint_key()) {
        Some("SOL")
    } else if keys_equal(pubkey, &msol_mint_key()) {
        Some("mSOL")
    } else if keys_equal(pubkey, &stsol_mint_key()) {
        Some("stSOL")
    } else if keys_equal(pubkey, &jitosol_mint_key()) {
        Some("JitoSOL")
    } else if keys_equal(pubkey, &bonk_mint_key()) {
        Some("BONK")
    } else if keys_equal(pubkey, &jup_mint_key()) {
        Some("JUP")
    } else {
        None
    }
}

/// A key's text as shown in short: texts longer than 11 characters keep
/// their first and last 4 characters, with ".." between.
pub open spec fn truncated(t: Seq<char>) -> Seq<char> {
    if t.len() > 11 {
        t.take(4) + ".."@ + t.skip(t.len() - 4)
    } else {
        t
    }
}

/// The key's base-58 text, shortened as `truncated` says. A key's text has
/// 32 to 44 characters, so it is always shortened: its first four
/// characters, "..", and its last four.
pub fn truncate_pubkey(pubkey: &Pubkey) -> (s: String)
    ensures
        ({
            let t = base58(pubkey.bytes@);
            &&& 32 <= t.len() <= 44
            &&& s@ == truncated(t)
            &&& s@ == t.take(4) + ".."@ + t.skip(t.len() - 4)
            &&& s@.len() == 10
        }),
{
    let s = pubkey_text(pubkey);
    let st = s.as_str();
    proof {
        vstd::string::is_ascii_spec_bytes(st);
        reveal_strlit("..");
    }
    let n = st.len();
    assert(st.spec_bytes().len() == s@.len());
    if n > 11 {
        let mut r = st.substring_ascii(0, 4).to_owned();
        r.append("..");
        r.append(st.substring_ascii(n - 4, n));
        assert(s@.subrange(n - 4, n as int) =~= s@.skip(s@.len() - 4));
        assert(s@.subrange(0, 4) =~= s@.take(4));
        r
    } else {
        s
    }
}

/// A shortened key text is never longer than 11 characters; a longer text
/// keeps its first four and its last four characters, with ".." between.
pub proof fn law_truncated_short(t: Seq<char>)
    ensures
        truncated(t).len() <= 11,
        t.len() > 11 ==> truncated(t).take(4) == t.take(4) && truncated(t).skip(6) == t.skip(t.len() - 4),
        t.len() > 11 ==> truncated(t).len() == 10 && truncated(t)[4] == '.' && truncated(t)[5] == '.',
        t.len() <= 11 ==> truncated(t) == t,
{
    reveal_strlit("..");
    if t.len() > 11 {
        let r = truncated(t);
        assert(r.take(4) =~= t.take(4));
        assert(r.skip(6) =~= t.skip(t.len() - 4));
    }
}

/// The label after a key that names a well-known program: "  (name)" in
/// bright black, or nothing.
pub open spec fn program_label(k: Pubkey) -> Seq<crate::render::SpanView> {
    match program_name(k) {
        Some(n) => seq![styled("  ("@ + n + ")"@, Color::BrightBlack)],
        None => Seq::empty(),
    }
}

/// The label of a well-known program key, as `program_label` says.
pub fn format_program_label(pubkey: &Pubkey) -> (l: Line)
    ensures
        line_view(l@) == program_label(*pubkey),
{
    match identify_program(pubkey) {
        Some(n) => {
            let mut t = "  (".to_owned();
            t.append(n);
            t.append(")");
            let mut l: Line = Vec::new();
            crate::render::push_text(&mut l, t, Color::BrightBlack);
            assert(line_view(l@) =~= program_label(*pubkey));
            l
        },
        None => {
            let l: Line = Vec::new();
            assert(line_view(l@) =~= program_label(*pubkey));
            l
        },
    }
}

} // verus!
