//! The abstract state of a token deployment, and what each operation does to it.
//!
//! For every entry point `op` there is a check, `op_check`, that gives the
//! error the operation reverts with (the first gate that fails, in order), and
//! a successor, `after_op`, that gives the state after a successful call.

use vstd::prelude::*;
use crate::address::Address;
use crate::amount::{Amount, amount_max, amount_of};
use crate::errors::Error;
use crate::events::{
    Blacklist, BlacklisterChanged, Burn, ControllerConfigured, ControllerRemoved, DecreaseAllowance,
    Event, IncreaseAllowance, Mint, MinterConfigured, MinterRemoved, Paused, SetAllowance, Transfer,
    TransferFrom, Unblacklist, Unpaused,
};
use crate::modality::StablecoinModality;
use crate::roles::Role;

verus! {

/// The observable state of a token deployment. A ledger entry that is absent
/// reads as zero.
pub struct TokenState {
    pub name: Seq<char>,
    pub symbol: Seq<char>,
    pub decimals: u8,
    pub total_supply: nat,
    pub balances: Map<Address, nat>,
    /// Spender allowances, keyed by (owner, spender).
    pub allowances: Map<(Address, Address), nat>,
    pub minter_allowances: Map<Address, nat>,
    pub roles: Set<(Role, Address)>,
    /// The minter bound to each controller.
    pub controllers: Map<Address, Address>,
    pub blacklister: Option<Address>,
    pub paused: bool,
    pub modality: StablecoinModality,
    /// Every event emitted so far, oldest first.
    pub events: Seq<Event>,
}

/// The sum of all balances: the balance map folded over its addresses.
pub open spec fn sum_of_balances(balances: Map<Address, nat>) -> nat {
    balances.dom().fold(0nat, |acc: nat, a: Address| acc + balances[a])
}

/// `min(a + b, 2^256 - 1)`.
pub open spec fn saturating_sum(a: nat, b: nat) -> nat {
    if a + b <= amount_max() {
        a + b
    } else {
        amount_max()
    }
}

/// `max(a - b, 0)`.
pub open spec fn saturating_diff(a: nat, b: nat) -> nat {
    if b <= a {
        (a - b) as nat
    } else {
        0
    }
}

/// The roles a deployment starts with: the listed master minters, owners and
/// pausers, and the blacklister.
pub open spec fn initial_roles(
    master_minters: Seq<Address>,
    owners: Seq<Address>,
    pausers: Seq<Address>,
    blacklister: Address,
) -> Set<(Role, Address)> {
    Set::new(
        |p: (Role, Address)|
            (p.0 == Role::MasterMinter && master_minters.contains(p.1)) || (p.0 == Role::Owner
                && owners.contains(p.1)) || (p.0 == Role::Pauser && pausers.contains(p.1)) || (p.0
                == Role::Blacklister && p.1 == blacklister),
    )
}

/// The state right after deployment by `caller`, who holds the whole initial supply.
pub open spec fn initial_state(
    caller: Address,
    symbol: Seq<char>,
    name: Seq<char>,
    decimals: u8,
    initial_supply: Amount,
    master_minters: Seq<Address>,
    owners: Seq<Address>,
    pausers: Seq<Address>,
    blacklister: Address,
    modality: Option<StablecoinModality>,
) -> TokenState {
    TokenState {
        name,
        symbol,
        decimals,
        total_supply: initial_supply@,
        balances: Map::empty().insert(caller, initial_supply@),
        allowances: Map::empty(),
        minter_allowances: Map::empty(),
        roles: initial_roles(master_minters, owners, pausers, blacklister),
        controllers: Map::empty(),
        blacklister: Some(blacklister),
        paused: false,
        modality: match modality {
            Some(m) => m,
            None => StablecoinModality::Unset,
        },
        events: seq![Event::Mint(Mint { recipient: caller, amount: initial_supply })],
    }
}

impl TokenState {
    pub open spec fn balance_of(self, a: Address) -> nat {
        if self.balances.contains_key(a) {
            self.balances[a]
        } else {
            0
        }
    }

    pub open spec fn allowance_of(self, owner: Address, spender: Address) -> nat {
        if self.allowances.contains_key((owner, spender)) {
            self.allowances[(owner, spender)]
        } else {
            0
        }
    }

    pub open spec fn minter_allowance_of(self, m: Address) -> nat {
        if self.minter_allowances.contains_key(m) {
            self.minter_allowances[m]
        } else {
            0
        }
    }

    pub open spec fn has_role(self, role: Role, a: Address) -> bool {
        self.roles.contains((role, a))
    }

    pub open spec fn is_blacklisted(self, a: Address) -> bool {
        self.has_role(Role::Blacklisted, a)
    }

    /// The state with `a`'s balance set to `v`.
    pub open spec fn with_balance(self, a: Address, v: nat) -> TokenState {
        TokenState { balances: self.balances.insert(a, v), ..self }
    }

    /// The state with the allowance of `spender` from `owner` set to `v`.
    pub open spec fn with_allowance(self, owner: Address, spender: Address, v: nat) -> TokenState {
        TokenState { allowances: self.allowances.insert((owner, spender), v), ..self }
    }

    /// The state with `m`'s minter allowance set to `v`.
    pub open spec fn with_minter_allowance(self, m: Address, v: nat) -> TokenState {
        TokenState { minter_allowances: self.minter_allowances.insert(m, v), ..self }
    }

    /// The state with `e` appended to the event log.
    pub open spec fn emit(self, e: Event) -> TokenState {
        TokenState { events: self.events.push(e), ..self }
    }

    /// The checks that open each transfer, approval, mint and burn: the contract
    /// is not paused and the caller is not blacklisted.
    pub open spec fn prelude_check(self, caller: Address) -> Result<(), Error> {
        if self.paused {
            Err(Error::ContractIsPaused)
        } else if self.is_blacklisted(caller) {
            Err(Error::InsufficientRights)
        } else {
            Ok(())
        }
    }

    /// Moves `amount` from `sender` to `recipient` (two distinct addresses) and
    /// logs the transfer; a zero amount leaves the balances as they are.
    pub open spec fn after_raw_transfer(self, sender: Address, recipient: Address, amount: Amount) -> TokenState {
        let balances = if amount@ == 0 {
            self.balances
        } else {
            self.balances.insert(sender, (self.balance_of(sender) - amount@) as nat).insert(
                recipient,
                self.balance_of(recipient) + amount@,
            )
        };
        TokenState { balances, ..self }.emit(
            Event::Transfer(Transfer { sender, recipient, amount }),
        )
    }

    pub open spec fn transfer_check(self, caller: Address, recipient: Address, amount: nat) -> Result<(), Error> {
        if self.prelude_check(caller) is Err {
            self.prelude_check(caller)
        } else if caller == recipient {
            Err(Error::CannotTargetSelfUser)
        } else if amount > self.balance_of(caller) {
            Err(Error::InsufficientBalance)
        } else {
            Ok(())
        }
    }

    pub open spec fn after_transfer(self, caller: Address, recipient: Address, amount: Amount) -> TokenState {
        self.after_raw_transfer(caller, recipient, amount)
    }

    pub open spec fn approve_check(self, caller: Address, spender: Address) -> Result<(), Error> {
        if self.prelude_check(caller) is Err {
            self.prelude_check(caller)
        } else if caller == spender {
            Err(Error::CannotTargetSelfUser)
        } else if self.is_blacklisted(spender) {
            Err(Error::InsufficientRights)
        } else {
            Ok(())
        }
    }

    pub open spec fn after_approve(self, caller: Address, spender: Address, amount: Amount) -> TokenState {
        TokenState {
            allowances: self.allowances.insert((caller, spender), amount@),
            ..self
        }.emit(Event::SetAllowance(SetAllowance { owner: caller, spender, allowance: amount }))
    }

    pub open spec fn increase_allowance_check(self, caller: Address, spender: Address) -> Result<(), Error> {
        if self.prelude_check(caller) is Err {
            self.prelude_check(caller)
        } else if caller == spender {
            Err(Error::CannotTargetSelfUser)
        } else {
            Ok(())
        }
    }

    pub open spec fn after_increase_allowance(self, caller: Address, spender: Address, inc_by: Amount) -> TokenState {
        let before = self.allowance_of(caller, spender);
        TokenState {
            allowances: self.allowances.insert((caller, spender), saturating_sum(before, inc_by@)),
            ..self
        }.emit(
            Event::IncreaseAllowance(
                IncreaseAllowance { owner: caller, spender, allowance: amount_of(before), inc_by },
            ),
        )
    }

    pub open spec fn decrease_allowance_check(self, caller: Address) -> Result<(), Error> {
        self.prelude_check(caller)
    }

    pub open spec fn after_decrease_allowance(self, caller: Address, spender: Address, decr_by: Amount) -> TokenState {
        let before = self.allowance_of(caller, spender);
        TokenState {
            allowances: self.allowances.insert((caller, spender), saturating_diff(before, decr_by@)),
            ..self
        }.emit(
            Event::DecreaseAllowance(
                DecreaseAllowance { owner: caller, spender, allowance: amount_of(before), decr_by },
            ),
        )
    }

    pub open spec fn transfer_from_check(
        self,
        caller: Address,
        owner: Address,
        recipient: Address,
        amount: nat,
    ) -> Result<(), Error> {
        if self.prelude_check(caller) is Err {
            self.prelude_check(caller)
        } else if self.is_blacklisted(owner) || self.is_blacklisted(recipient) {
            Err(Error::InsufficientRights)
        } else if owner == recipient {
            Err(Error::CannotTargetSelfUser)
        } else if amount == 0 {
            Ok(())
        } else if amount > self.allowance_of(owner, caller) {
            Err(Error::InsufficientAllowance)
        } else if amount > self.balance_of(owner) {
            Err(Error::InsufficientBalance)
        } else {
            Ok(())
        }
    }

    /// A zero amount changes nothing; otherwise the caller's allowance from
    /// `owner` is spent and the tokens move.
    pub open spec fn after_transfer_from(
        self,
        caller: Address,
        owner: Address,
        recipient: Address,
        amount: Amount,
    ) -> TokenState {
        if amount@ == 0 {
            self
        } else {
            TokenState {
                allowances: self.allowances.insert(
                    (owner, caller),
                    (self.allowance_of(owner, caller) - amount@) as nat,
                ),
                ..self
            }.emit(
                Event::TransferFrom(TransferFrom { spender: caller, owner, recipient, amount }),
            ).after_raw_transfer(owner, recipient, amount)
        }
    }

    pub open spec fn mint_check(self, caller: Address, recipient: Address, amount: nat) -> Result<(), Error> {
        if self.prelude_check(caller) is Err {
            self.prelude_check(caller)
        } else if self.modality != StablecoinModality::MintAndBurn {
            Err(Error::MintBurnDisabled)
        } else if !self.has_role(Role::Minter, caller) || self.is_blacklisted(recipient) {
            Err(Error::InsufficientRights)
        } else if amount > self.minter_allowance_of(caller) {
            Err(Error::InsufficientMinterAllowance)
        } else if self.total_supply + amount > amount_max() {
            Err(Error::ArithmeticOverflow)
        } else {
            Ok(())
        }
    }

    /// Adds `amount` to the supply and to `recipient`'s balance, and logs it.
    pub open spec fn after_raw_mint(self, recipient: Address, amount: Amount) -> TokenState {
        TokenState {
            total_supply: self.total_supply + amount@,
            balances: self.balances.insert(recipient, self.balance_of(recipient) + amount@),
            ..self
        }.emit(Event::Mint(Mint { recipient, amount }))
    }

    pub open spec fn after_mint(self, caller: Address, recipient: Address, amount: Amount) -> TokenState {
        TokenState {
            minter_allowances: self.minter_allowances.insert(
                caller,
                (self.minter_allowance_of(caller) - amount@) as nat,
            ),
            ..self
        }.after_raw_mint(recipient, amount)
    }

    pub open spec fn burn_check(self, caller: Address, amount: nat) -> Result<(), Error> {
        if self.prelude_check(caller) is Err {
            self.prelude_check(caller)
        } else if self.modality != StablecoinModality::MintAndBurn {
            Err(Error::MintBurnDisabled)
        } else if !self.has_role(Role::Minter, caller) {
            Err(Error::InsufficientRights)
        } else if amount == 0 {
            Err(Error::InvalidAmount)
        } else if amount > self.balance_of(caller) {
            Err(Error::InsufficientBalance)
        } else {
            Ok(())
        }
    }

    pub open spec fn after_burn(self, caller: Address, amount: Amount) -> TokenState {
        TokenState {
            total_supply: (self.total_supply - amount@) as nat,
            balances: self.balances.insert(caller, (self.balance_of(caller) - amount@) as nat),
            ..self
        }.emit(Event::Burn(Burn { owner: caller, amount }))
    }

    pub open spec fn configure_controller_check(
        self,
        caller: Address,
        controller: Address,
        minter: Address,
    ) -> Result<(), Error> {
        if !self.has_role(Role::MasterMinter, caller) || self.is_blacklisted(controller)
            || self.is_blacklisted(minter) {
            Err(Error::InsufficientRights)
        } else {
            Ok(())
        }
    }

    pub open spec fn after_configure_controller(self, controller: Address, minter: Address) -> TokenState {
        TokenState {
            roles: self.roles.insert((Role::Controller, controller)).insert((Role::Minter, minter)),
            controllers: self.controllers.insert(controller, minter),
            ..self
        }.emit(Event::ControllerConfigured(ControllerConfigured { controller, minter }))
    }

    pub open spec fn remove_controller_check(self, caller: Address) -> Result<(), Error> {
        if !self.has_role(Role::MasterMinter, caller) {
            Err(Error::InsufficientRights)
        } else {
            Ok(())
        }
    }

    pub open spec fn after_remove_controller(self, controller: Address) -> TokenState {
        TokenState { roles: self.roles.remove((Role::Controller, controller)), ..self }.emit(
            Event::ControllerRemoved(ControllerRemoved { controller }),
        )
    }

    /// The minter bound to `caller`, where `caller` is an unblacklisted controller.
    pub open spec fn controller_check(self, caller: Address) -> Result<Address, Error> {
        if !self.has_role(Role::Controller, caller) || self.is_blacklisted(caller) {
            Err(Error::InsufficientRights)
        } else if !self.controllers.contains_key(caller) {
            Err(Error::MissingController)
        } else {
            Ok(self.controllers[caller])
        }
    }

    pub open spec fn after_remove_minter(self, minter: Address) -> TokenState {
        TokenState { roles: self.roles.remove((Role::Minter, minter)), ..self }.emit(
            Event::MinterRemoved(MinterRemoved { minter }),
        )
    }

    /// The minter whose allowance `caller` may manage: the controller gate
    /// holds and the bound minter is not blacklisted.
    pub open spec fn minter_admin_check(self, caller: Address) -> Result<Address, Error> {
        match self.controller_check(caller) {
            Err(e) => Err(e),
            Ok(m) => if self.is_blacklisted(m) {
                Err(Error::InsufficientRights)
            } else {
                Ok(m)
            },
        }
    }

    pub open spec fn increase_minter_allowance_check(self, caller: Address, increment: nat) -> Result<Address, Error> {
        match self.minter_admin_check(caller) {
            Err(e) => Err(e),
            Ok(m) => if self.minter_allowance_of(m) + increment > amount_max() {
                Err(Error::ArithmeticOverflow)
            } else {
                Ok(m)
            },
        }
    }

    pub open spec fn decrease_minter_allowance_check(self, caller: Address, decrement: nat) -> Result<Address, Error> {
        match self.minter_admin_check(caller) {
            Err(e) => Err(e),
            Ok(m) => if decrement > self.minter_allowance_of(m) {
                Err(Error::ArithmeticUnderflow)
            } else {
                Ok(m)
            },
        }
    }

    /// Sets `minter`'s allowance to `value` and logs the new value.
    pub open spec fn after_set_minter_allowance(self, minter: Address, value: nat) -> TokenState {
        TokenState { minter_allowances: self.minter_allowances.insert(minter, value), ..self }.emit(
            Event::MinterConfigured(MinterConfigured { minter, minter_allowance: amount_of(value) }),
        )
    }

    pub open spec fn blacklister_check(self, caller: Address) -> Result<(), Error> {
        if !self.has_role(Role::Blacklister, caller) {
            Err(Error::InsufficientRights)
        } else {
            Ok(())
        }
    }

    pub open spec fn after_blacklist(self, account: Address) -> TokenState {
        TokenState { roles: self.roles.insert((Role::Blacklisted, account)), ..self }.emit(
            Event::Blacklist(Blacklist { account }),
        )
    }

    pub open spec fn after_unblacklist(self, account: Address) -> TokenState {
        TokenState { roles: self.roles.remove((Role::Blacklisted, account)), ..self }.emit(
            Event::Unblacklist(Unblacklist { account }),
        )
    }

    pub open spec fn update_blacklister_check(self, caller: Address) -> Result<(), Error> {
        if !self.has_role(Role::Owner, caller) {
            Err(Error::InsufficientRights)
        } else if self.blacklister is None {
            Err(Error::MissingBlacklister)
        } else {
            Ok(())
        }
    }

    pub open spec fn after_update_blacklister(self, new_blacklister: Address) -> TokenState {
        TokenState {
            roles: self.roles.remove((Role::Blacklister, self.blacklister->0)).insert(
                (Role::Blacklister, new_blacklister),
            ),
            blacklister: Some(new_blacklister),
            ..self
        }.emit(Event::BlacklisterChanged(BlacklisterChanged { new_blacklister }))
    }

    pub open spec fn pauser_check(self, caller: Address) -> Result<(), Error> {
        if !self.has_role(Role::Pauser, caller) || self.is_blacklisted(caller) {
            Err(Error::InsufficientRights)
        } else {
            Ok(())
        }
    }

    pub open spec fn after_pause(self) -> TokenState {
        TokenState { paused: true, ..self }.emit(Event::Paused(Paused {  }))
    }

    pub open spec fn after_unpause(self) -> TokenState {
        TokenState { paused: false, ..self }.emit(Event::Unpaused(Unpaused {  }))
    }
}

} // verus!
