//! Properties that hold across operations of the token.

use vstd::prelude::*;
use crate::address::Address;
use crate::amount::{Amount, amount_max};
use crate::errors::Error;
use crate::model::{TokenState, saturating_diff, saturating_sum, sum_of_balances};
use crate::modality::StablecoinModality;
use crate::roles::Role;
use crate::token::Stablecoin;

verus! {

/// The balances of a deployment always sum to its total supply: `init`
/// establishes well-formedness and every operation preserves it.
pub proof fn lemma_supply_is_balance_sum(s: &Stablecoin)
    requires
        s.wf(),
    ensures
        s@.balances.dom().finite(),
        sum_of_balances(s@.balances) == s@.total_supply,
{
    s.lemma_wf_supply();
}

/// Exactly one address holds the blacklister role: the one in the
/// blacklister slot.
pub proof fn lemma_single_blacklister(s: &Stablecoin)
    requires
        s.wf(),
    ensures
        s@.blacklister is Some,
        forall|a: Address| #[trigger] s@.has_role(Role::Blacklister, a) <==> s@.blacklister == Some(a),
{
    s.lemma_wf_blacklister();
}

/// Minting by `m` succeeds exactly when `m` is a minter, the contract is not
/// paused, neither `m` nor the recipient is blacklisted, the amount is within
/// `m`'s minter allowance and mint/burn is enabled; this holds whenever the
/// new supply stays within `2^256 - 1`.
pub proof fn lemma_mint_succeeds_iff(s: TokenState, m: Address, recipient: Address, amount: Amount)
    requires
        s.total_supply + amount@ <= amount_max(),
    ensures
        s.mint_check(m, recipient, amount@) is Ok <==> {
            &&& s.has_role(Role::Minter, m)
            &&& !s.paused
            &&& !s.is_blacklisted(m)
            &&& !s.is_blacklisted(recipient)
            &&& amount@ <= s.minter_allowance_of(m)
            &&& s.modality == StablecoinModality::MintAndBurn
        },
{
}

/// Approving twice leaves exactly the second amount: approval overwrites.
pub proof fn lemma_approve_overwrites(s: TokenState, owner: Address, spender: Address, x: Amount, y: Amount)
    requires
        s.approve_check(owner, spender) is Ok,
    ensures
        s.after_approve(owner, spender, x).approve_check(owner, spender) is Ok,
        s.after_approve(owner, spender, x).after_approve(owner, spender, y).allowance_of(
            owner,
            spender,
        ) == y@,
{
}

/// Increasing an allowance by `a` and then by `b` adds `a + b`, saturating
/// at `2^256 - 1`.
pub proof fn lemma_increase_allowance_twice(s: TokenState, owner: Address, spender: Address, a: Amount, b: Amount)
    requires
        s.increase_allowance_check(owner, spender) is Ok,
    ensures
        s.after_increase_allowance(owner, spender, a).increase_allowance_check(owner, spender) is Ok,
        s.after_increase_allowance(owner, spender, a).after_increase_allowance(
            owner,
            spender,
            b,
        ).allowance_of(owner, spender) == saturating_sum(s.allowance_of(owner, spender), a@ + b@),
{
}

/// Decreasing an allowance by `a` and then by `b` subtracts `a + b`, stopping
/// at zero.
pub proof fn lemma_decrease_allowance_twice(s: TokenState, owner: Address, spender: Address, a: Amount, b: Amount)
    requires
        s.decrease_allowance_check(owner) is Ok,
    ensures
        s.after_decrease_allowance(owner, spender, a).decrease_allowance_check(owner) is Ok,
        s.after_decrease_allowance(owner, spender, a).after_decrease_allowance(
            owner,
            spender,
            b,
        ).allowance_of(owner, spender) == saturating_diff(s.allowance_of(owner, spender), a@ + b@),
{
}

/// A transfer on an owner's behalf of more than the caller's allowance
/// reverts with `InsufficientAllowance` (and a reverted call changes
/// nothing), once the pause, blacklist and self-target gates are passed.
pub proof fn lemma_transfer_from_over_allowance(
    s: TokenState,
    caller: Address,
    owner: Address,
    recipient: Address,
    amount: Amount,
)
    requires
        !s.paused,
        !s.is_blacklisted(caller),
        !s.is_blacklisted(owner),
        !s.is_blacklisted(recipient),
        owner != recipient,
        amount@ > s.allowance_of(owner, caller),
    ensures
        s.transfer_from_check(caller, owner, recipient, amount@) == Err::<(), Error>(
            Error::InsufficientAllowance,
        ),
{
}

/// An account and a contract with the same 32-byte hash are different keys:
/// writing a ledger entry of one leaves that of the other.
pub proof fn lemma_account_contract_distinct(s: TokenState, x: [u8; 32], v: nat)
    ensures
        Address::Account(x) != Address::Contract(x),
        s.with_balance(Address::Account(x), v).balance_of(Address::Contract(x)) == s.balance_of(
            Address::Contract(x),
        ),
        s.with_balance(Address::Contract(x), v).balance_of(Address::Account(x)) == s.balance_of(
            Address::Account(x),
        ),
        s.with_minter_allowance(Address::Account(x), v).minter_allowance_of(Address::Contract(x))
            == s.minter_allowance_of(Address::Contract(x)),
        forall|y: Address|
            s.with_allowance(Address::Account(x), y, v).allowance_of(Address::Contract(x), y)
                == s.allowance_of(Address::Contract(x), y),
{
}

/// Blacklisting an address that was not blacklisted and then unblacklisting
/// it leaves every address as blacklisted as before.
pub proof fn lemma_blacklist_round_trip(s: TokenState, caller: Address, account: Address)
    requires
        s.blacklister_check(caller) is Ok,
        !s.is_blacklisted(account),
    ensures
        s.after_blacklist(account).blacklister_check(caller) is Ok,
        forall|a: Address|
            s.after_blacklist(account).after_unblacklist(account).is_blacklisted(a)
                == s.is_blacklisted(a),
{
}

/// Pausing blocks every transfer; pausing and then unpausing an unpaused
/// contract gives every transfer the outcome it had before.
pub proof fn lemma_pause_round_trip(s: TokenState, pauser: Address)
    requires
        s.pauser_check(pauser) is Ok,
        !s.paused,
    ensures
        s.after_pause().pauser_check(pauser) is Ok,
        forall|c: Address, r: Address, amount: nat|
            s.after_pause().transfer_check(c, r, amount) == Err::<(), Error>(
                Error::ContractIsPaused,
            ),
        forall|c: Address, r: Address, amount: nat|
            s.after_pause().after_unpause().transfer_check(c, r, amount) == s.transfer_check(
                c,
                r,
                amount,
            ),
{
}

/// Configuring a controller and then removing it leaves it without the
/// controller role; its binding may stay, but every operation that would use
/// it is refused.
pub proof fn lemma_remove_controller_disarms(s: TokenState, master: Address, controller: Address, minter: Address)
    requires
        s.configure_controller_check(master, controller, minter) is Ok,
    ensures
        s.after_configure_controller(controller, minter).remove_controller_check(master) is Ok,
        !s.after_configure_controller(controller, minter).after_remove_controller(
            controller,
        ).has_role(Role::Controller, controller),
        s.after_configure_controller(controller, minter).after_remove_controller(
            controller,
        ).controller_check(controller) == Err::<Address, Error>(Error::InsufficientRights),
        s.after_configure_controller(controller, minter).after_remove_controller(
            controller,
        ).minter_admin_check(controller) == Err::<Address, Error>(Error::InsufficientRights),
{
}

} // verus!
