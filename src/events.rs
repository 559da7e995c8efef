//! The structured records that successful operations append to the log.

use vstd::prelude::*;
use crate::address::Address;
use crate::amount::Amount;

verus! {

/// Tokens were created.
#[derive(Clone, Copy, Debug, PartialEq, Eq)]
pub struct Mint {
    /// The recipient of the minted tokens.
    pub recipient: Address,
    /// The amount of tokens minted.
    pub amount: Amount,
}

/// Tokens were destroyed.
#[derive(Clone, Copy, Debug, PartialEq, Eq)]
pub struct Burn {
    /// The owner of the burnt tokens.
    pub owner: Address,
    /// The amount of tokens burnt.
    pub amount: Amount,
}

/// An allowance was set.
#[derive(Clone, Copy, Debug, PartialEq, Eq)]
pub struct SetAllowance {
    /// The owner of the tokens.
    pub owner: Address,
    /// The spender that may spend the tokens.
    pub spender: Address,
    /// The new allowance.
    pub allowance: Amount,
}

/// An allowance was increased.
#[derive(Clone, Copy, Debug, PartialEq, Eq)]
pub struct IncreaseAllowance {
    /// The owner of the tokens.
    pub owner: Address,
    /// The spender that may spend the tokens.
    pub spender: Address,
    /// The allowance before the increase.
    pub allowance: Amount,
    /// The requested increase.
    pub inc_by: Amount,
}

/// An allowance was decreased.
#[derive(Clone, Copy, Debug, PartialEq, Eq)]
pub struct DecreaseAllowance {
    /// The owner of the tokens.
    pub owner: Address,
    /// The spender that may spend the tokens.
    pub spender: Address,
    /// The allowance before the decrease.
    pub allowance: Amount,
    /// The requested decrease.
    pub decr_by: Amount,
}

/// Tokens moved between two balances.
#[derive(Clone, Copy, Debug, PartialEq, Eq)]
pub struct Transfer {
    /// The sender of the tokens.
    pub sender: Address,
    /// The recipient of the tokens.
    pub recipient: Address,
    /// The amount of tokens moved.
    pub amount: Amount,
}

/// A spender moved tokens on an owner's behalf.
#[derive(Clone, Copy, Debug, PartialEq, Eq)]
pub struct TransferFrom {
    /// The spender that made the transfer.
    pub spender: Address,
    /// The owner of the tokens.
    pub owner: Address,
    /// The recipient of the tokens.
    pub recipient: Address,
    /// The amount of tokens moved.
    pub amount: Amount,
}

/// An account was blacklisted.
#[derive(Clone, Copy, Debug, PartialEq, Eq)]
pub struct Blacklist {
    pub account: Address,
}

/// An account was removed from the blacklist.
#[derive(Clone, Copy, Debug, PartialEq, Eq)]
pub struct Unblacklist {
    pub account: Address,
}

/// The blacklister was replaced.
#[derive(Clone, Copy, Debug, PartialEq, Eq)]
pub struct BlacklisterChanged {
    pub new_blacklister: Address,
}

/// A controller was bound to a minter.
#[derive(Clone, Copy, Debug, PartialEq, Eq)]
pub struct ControllerConfigured {
    pub controller: Address,
    pub minter: Address,
}

/// A controller lost its role.
#[derive(Clone, Copy, Debug, PartialEq, Eq)]
pub struct ControllerRemoved {
    pub controller: Address,
}

/// A minter allowance was set to a new value.
#[derive(Clone, Copy, Debug, PartialEq, Eq)]
pub struct MinterConfigured {
    pub minter: Address,
    pub minter_allowance: Amount,
}

/// A minter lost its role.
#[derive(Clone, Copy, Debug, PartialEq, Eq)]
pub struct MinterRemoved {
    pub minter: Address,
}

/// The contract was paused.
#[derive(Clone, Copy, Debug, PartialEq, Eq)]
pub struct Paused {}

/// The contract was unpaused.
#[derive(Clone, Copy, Debug, PartialEq, Eq)]
pub struct Unpaused {}

/// One entry of the event log.
#[derive(Clone, Copy, Debug, PartialEq, Eq)]
pub enum Event {
    Mint(Mint),
    Burn(Burn),
    Transfer(Transfer),
    TransferFrom(TransferFrom),
    SetAllowance(SetAllowance),
    IncreaseAllowance(IncreaseAllowance),
    DecreaseAllowance(DecreaseAllowance),
    Blacklist(Blacklist),
    Unblacklist(Unblacklist),
    BlacklisterChanged(BlacklisterChanged),
    ControllerConfigured(ControllerConfigured),
    ControllerRemoved(ControllerRemoved),
    MinterConfigured(MinterConfigured),
    MinterRemoved(MinterRemoved),
    Paused(Paused),
    Unpaused(Unpaused),
}

} // verus!
