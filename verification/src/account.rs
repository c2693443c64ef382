use vstd::prelude::*;
use crate::address::Address;

verus! {

/// What the relay reads of one account at the time of a call: a plain copy,
/// taken by whoever holds the account itself.
#[derive(Clone, Debug, PartialEq, Eq)]
pub struct AccountSnapshot {
    /// The account's own address.
    pub key: Address,
    /// The address of the program that owns the account.
    pub owner: Address,
    /// The account's balance.
    pub lamports: u64,
    /// The account's state, as stored.
    pub data: Vec<u8>,
    /// Whether the account signed the transaction.
    pub is_signer: bool,
    /// Whether the transaction may write to the account.
    pub is_writable: bool,
    /// Whether the account holds a program.
    pub executable: bool,
}

} // verus!
