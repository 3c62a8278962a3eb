//! The multisig accounts a transaction index can hold: vault transactions,
//! config transactions and batches, as plain values.
use vstd::prelude::*;
use crate::accounts::VaultTransactionMessage;
use crate::pubkey::Pubkey;

verus! {

/// A vault transaction: who created it, its index, the vault it acts for,
/// the bumps of its ephemeral signers, and its message.
#[derive(Clone, Debug, PartialEq, Eq)]
pub struct VaultTransaction {
    pub creator: Pubkey,
    pub index: u64,
    pub vault_index: u8,
    pub ephemeral_signer_bumps: Vec<u8>,
    pub message: VaultTransactionMessage,
}

/// The permissions of a member, as a bit mask (1: initiate, 2: vote,
/// 4: execute).
#[derive(Clone, Copy, Debug, PartialEq, Eq)]
pub struct Permissions {
    pub mask: u8,
}

/// A member of a multisig.
#[derive(Clone, Copy, Debug, PartialEq, Eq)]
pub struct Member {
    pub key: Pubkey,
    pub permissions: Permissions,
}

/// How often a spending limit resets.
#[derive(Clone, Copy, Debug, PartialEq, Eq)]
pub enum Period {
    OneTime,
    Day,
    Week,
    Month,
}

/// A change a config transaction makes to its multisig.
#[derive(Clone, Debug, PartialEq, Eq)]
pub enum ConfigAction {
    AddMember { new_member: Member },
    RemoveMember { old_member: Pubkey },
    ChangeThreshold { new_threshold: u16 },
    SetTimeLock { new_time_lock: u32 },
    AddSpendingLimit {
        create_key: Pubkey,
        vault_index: u8,
        mint: Pubkey,
        amount: u64,
        period: Period,
        members: Vec<Pubkey>,
        destinations: Vec<Pubkey>,
    },
    RemoveSpendingLimit { spending_limit: Pubkey },
    SetRentCollector { new_rent_collector: Option<Pubkey> },
    /// Any other action.
    Unknown,
}

/// A config transaction: who created it, its index, and its actions.
#[derive(Clone, Debug, PartialEq, Eq)]
pub struct ConfigTransaction {
    pub creator: Pubkey,
    pub index: u64,
    pub actions: Vec<ConfigAction>,
}

/// A batch of vault transactions.
#[derive(Clone, Copy, Debug, PartialEq, Eq)]
pub struct Batch {
    pub creator: Pubkey,
    pub index: u64,
    pub vault_index: u8,
    pub size: u32,
    pub executed_transaction_index: u32,
}

/// The account is neither a vault transaction, a config transaction nor a
/// batch.
#[derive(Clone, Copy, Debug, PartialEq, Eq)]
pub struct UnknownAccount;

/// The account at a transaction index.
#[derive(Clone, Debug, PartialEq, Eq)]
pub enum TransactionAccount {
    Vault(VaultTransaction),
    Config(ConfigTransaction),
    Batch(Batch),
}

/// The account's kind, given how its data decodes as each kind: a vault
/// transaction first, then a config transaction, then a batch (the
/// discriminators of the kinds differ, so at most one decodes); an error
/// when none does.
pub fn classify_account(
    vault: Option<VaultTransaction>,
    config: Option<ConfigTransaction>,
    batch: Option<Batch>,
) -> (r: Result<TransactionAccount, UnknownAccount>)
    ensures
        r == (match vault {
            Some(v) => Ok(TransactionAccount::Vault(v)),
            None => match config {
                Some(c) => Ok(TransactionAccount::Config(c)),
                None => match batch {
                    Some(b) => Ok(TransactionAccount::Batch(b)),
                    None => Err(UnknownAccount),
                },
            },
        }),
{
    if let Some(v) = vault {
        Ok(TransactionAccount::Vault(v))
    } else if let Some(c) = config {
        Ok(TransactionAccount::Config(c))
    } else if let Some(b) = batch {
        Ok(TransactionAccount::Batch(b))
    } else {
        Err(UnknownAccount)
    }
}

} // verus!
