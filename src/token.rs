//! The token contract: one state value that every entry point reads and updates.
//!
//! Each mutating entry point takes the calling address and returns `Ok(())`
//! after committing its changes, or `Err(e)` having changed nothing.

use vstd::prelude::*;
use crate::address::Address;
use crate::amount::{Amount, amount_max, lemma_amount_bounded, lemma_amount_of_view};
use crate::errors::Error;
use crate::events::{
    Blacklist, BlacklisterChanged, Burn, ControllerConfigured, ControllerRemoved, DecreaseAllowance,
    Event, IncreaseAllowance, Mint, MinterConfigured, MinterRemoved, Paused, SetAllowance, Transfer,
    TransferFrom, Unblacklist, Unpaused,
};
use crate::ledger::Ledger;
use crate::model::{TokenState, initial_state, sum_of_balances};
use crate::modality::StablecoinModality;
use crate::roles::{Role, RoleRegistry};

verus! {

/// Reads an amount as its value.
pub open spec fn amount_weight() -> spec_fn(Amount) -> nat {
    |a: Amount| a@
}

/// The values of a map of amounts.
pub open spec fn amount_map<K>(m: Map<K, Amount>) -> Map<K, nat> {
    m.map_values(|a: Amount| a@)
}

proof fn lemma_amount_map_insert<K>(m: Map<K, Amount>, k: K, a: Amount)
    ensures
        amount_map(m.insert(k, a)) == amount_map(m).insert(k, a@),
{
    assert(amount_map(m.insert(k, a)) =~= amount_map(m).insert(k, a@));
}

/// Grants `role` to each of `accounts`.
fn grant_all(roles: &mut RoleRegistry, role: Role, accounts: &Vec<Address>)
    requires
        old(roles).wf(),
    ensures
        final(roles).wf(),
        final(roles)@ == old(roles)@.union(
            Set::new(|p: (Role, Address)| p.0 == role && accounts@.contains(p.1)),
        ),
{
    let ghost start = roles@;
    let mut i: usize = 0;
    while i < accounts.len()
        invariant
            i <= accounts@.len(),
            roles.wf(),
            roles@ == start.union(
                Set::new(
                    |p: (Role, Address)| p.0 == role && accounts@.subrange(0, i as int).contains(p.1),
                ),
            ),
        decreases accounts@.len() - i,
    {
        roles.configure_role(role, &accounts[i]);
        let ghost prefix = accounts@.subrange(0, i as int);
        let ghost next = accounts@.subrange(0, i + 1);
        assert(next =~= prefix.push(accounts@[i as int]));
        i = i + 1;
        assert forall|a: Address| next.contains(a) <==> prefix.contains(a) || a == accounts@[i - 1] by {
            if next.contains(a) {
                let j = choose|j: int| 0 <= j < next.len() && next[j] == a;
                if j < prefix.len() {
                    assert(prefix[j] == a);
                }
            }
            if prefix.contains(a) {
                let j = choose|j: int| 0 <= j < prefix.len() && prefix[j] == a;
                assert(next[j] == a);
            }
            if a == accounts@[i - 1] {
                assert(next[i - 1] == a);
            }
        }
        assert(roles@ =~= start.union(
            Set::new(|p: (Role, Address)| p.0 == role && next.contains(p.1)),
        ));
    }
    assert(accounts@.subrange(0, accounts@.len() as int) =~= accounts@);
}

/// A stablecoin deployment.
pub struct Stablecoin {
    name: String,
    symbol: String,
    decimals: u8,
    total_supply: Amount,
    balances: Ledger<Address, Amount>,
    allowances: Ledger<(Address, Address), Amount>,
    minter_allowances: Ledger<Address, Amount>,
    roles: RoleRegistry,
    controllers: Ledger<Address, Address>,
    blacklister: Option<Address>,
    paused: bool,
    modality: StablecoinModality,
    events: Vec<Event>,
}

impl View for Stablecoin {
    type V = TokenState;

    closed spec fn view(&self) -> TokenState {
        TokenState {
            name: self.name@,
            symbol: self.symbol@,
            decimals: self.decimals,
            total_supply: self.total_supply@,
            balances: amount_map(self.balances@),
            allowances: amount_map(self.allowances@),
            minter_allowances: amount_map(self.minter_allowances@),
            roles: self.roles@,
            controllers: self.controllers@,
            blacklister: self.blacklister,
            paused: self.paused,
            modality: self.modality,
            events: self.events@,
        }
    }
}

impl Stablecoin {
    /// Deploys the token: `caller` receives the whole `initial_supply`, and
    /// the listed addresses receive their roles.
    pub fn init(
        caller: &Address,
        symbol: String,
        name: String,
        decimals: u8,
        initial_supply: Amount,
        master_minter_list: Vec<Address>,
        owner_list: Vec<Address>,
        pauser_list: Vec<Address>,
        blacklister: Address,
        modality: Option<StablecoinModality>,
    ) -> (r: Stablecoin)
        ensures
            r.wf(),
            r@ == initial_state(
                *caller,
                symbol@,
                name@,
                decimals,
                initial_supply,
                master_minter_list@,
                owner_list@,
                pauser_list@,
                blacklister,
                modality,
            ),
    {
        let mut balances = Ledger::new();
        balances.set(*caller, initial_supply);
        let mut roles = RoleRegistry::new();
        grant_all(&mut roles, Role::MasterMinter, &master_minter_list);
        grant_all(&mut roles, Role::Owner, &owner_list);
        grant_all(&mut roles, Role::Pauser, &pauser_list);
        roles.configure_role(Role::Blacklister, &blacklister);
        let modality = match modality {
            Some(m) => m,
            None => StablecoinModality::default(),
        };
        let mut events = Vec::new();
        events.push(Event::Mint(Mint { recipient: *caller, amount: initial_supply }));
        let r = Stablecoin {
            name,
            symbol,
            decimals,
            total_supply: initial_supply,
            balances,
            allowances: Ledger::new(),
            minter_allowances: Ledger::new(),
            roles,
            controllers: Ledger::new(),
            blacklister: Some(blacklister),
            paused: false,
            modality,
            events,
        };
        assert(r@.roles =~= crate::model::initial_roles(
            master_minter_list@,
            owner_list@,
            pauser_list@,
            blacklister,
        ));
        assert(r@.balances =~= Map::empty().insert(*caller, initial_supply@));
        assert(r@.allowances =~= Map::empty());
        assert(r@.minter_allowances =~= Map::empty());
        assert(r@.events =~= seq![Event::Mint(Mint { recipient: *caller, amount: initial_supply })]);
        r
    }

    /// The sum of all balances.
    closed spec fn balance_sum(&self) -> nat {
        self.balances.total(amount_weight())
    }

    /// The deployment is well formed: the balances sum to the total supply,
    /// and the blacklister slot names the one address with the
    /// `Blacklister` role.
    pub closed spec fn wf(&self) -> bool {
        &&& self.balances.wf()
        &&& self.allowances.wf()
        &&& self.minter_allowances.wf()
        &&& self.roles.wf()
        &&& self.controllers.wf()
        &&& self.balance_sum() == self.total_supply@
        &&& self.blacklister is Some
        &&& forall|a: Address| #[trigger]
            self.roles@.contains((Role::Blacklister, a)) <==> self.blacklister == Some(a)
    }

    /// Within a well-formed deployment the blacklister slot names the one
    /// holder of the blacklister role.
    pub proof fn lemma_wf_blacklister(&self)
        requires
            self.wf(),
        ensures
            self@.blacklister is Some,
            forall|a: Address| #[trigger]
                self@.has_role(Role::Blacklister, a) <==> self@.blacklister == Some(a),
    {
    }

    /// Within a well-formed deployment the balances sum to the total supply.
    pub proof fn lemma_wf_supply(&self)
        requires
            self.wf(),
        ensures
            self@.balances.dom().finite(),
            sum_of_balances(self@.balances) == self@.total_supply,
    {
        let m = self@.balances;
        let f = |acc: nat, a: Address| acc + m[a];
        assert(vstd::set::fold::is_fun_commutative(f));
        self.balances.lemma_total_is_fold(amount_weight(), f);
        assert(m.dom() =~= self.balances@.dom());
    }

    /// No balance exceeds the total supply.
    proof fn lemma_balance_at_most_supply(&self, a: Address)
        requires
            self.wf(),
        ensures
            self@.balance_of(a) <= self@.total_supply,
    {
        if self.balances@.contains_key(a) {
            self.balances.lemma_value_at_most_total(a, amount_weight());
        }
    }

    // Queries

    /// The name of the token.
    pub fn name(&self) -> (r: String)
        ensures
            r@ == self@.name,
    {
        self.name.clone()
    }

    /// The symbol of the token.
    pub fn symbol(&self) -> (r: String)
        ensures
            r@ == self@.symbol,
    {
        self.symbol.clone()
    }

    /// The number of decimals the token uses.
    pub fn decimals(&self) -> (r: u8)
        ensures
            r == self@.decimals,
    {
        self.decimals
    }

    /// The total supply of the token.
    pub fn total_supply(&self) -> (r: Amount)
        ensures
            r@ == self@.total_supply,
    {
        self.total_supply
    }

    /// The balance of `address`; zero if it never held tokens.
    pub fn balance_of(&self, address: &Address) -> (r: Amount)
        requires
            self.wf(),
        ensures
            r@ == self@.balance_of(*address),
    {
        match self.balances.get(address) {
            Some(b) => b,
            None => Amount::zero(),
        }
    }

    /// The amount `spender` may still spend on `owner`'s behalf.
    pub fn allowance(&self, owner: &Address, spender: &Address) -> (r: Amount)
        requires
            self.wf(),
        ensures
            r@ == self@.allowance_of(*owner, *spender),
    {
        match self.allowances.get(&(*owner, *spender)) {
            Some(b) => b,
            None => Amount::zero(),
        }
    }

    /// The amount `minter` may still mint.
    pub fn minter_allowance(&self, minter: &Address) -> (r: Amount)
        requires
            self.wf(),
        ensures
            r@ == self@.minter_allowance_of(*minter),
    {
        match self.minter_allowances.get(minter) {
            Some(b) => b,
            None => Amount::zero(),
        }
    }

    /// Whether `account` is a minter.
    pub fn is_minter(&self, account: &Address) -> (r: bool)
        requires
            self.wf(),
        ensures
            r == self@.has_role(Role::Minter, *account),
    {
        self.roles.is_minter(account)
    }

    /// Whether `account` is blacklisted.
    pub fn is_blacklisted(&self, account: &Address) -> (r: bool)
        requires
            self.wf(),
        ensures
            r == self@.is_blacklisted(*account),
    {
        self.roles.is_blacklisted(account)
    }

    /// Whether `account` is an owner.
    pub fn is_owner(&self, account: &Address) -> (r: bool)
        requires
            self.wf(),
        ensures
            r == self@.has_role(Role::Owner, *account),
    {
        self.roles.is_owner(account)
    }

    /// Whether `account` is a pauser.
    pub fn is_pausers(&self, account: &Address) -> (r: bool)
        requires
            self.wf(),
        ensures
            r == self@.has_role(Role::Pauser, *account),
    {
        self.roles.is_pauser(account)
    }

    /// The event log, oldest first.
    pub fn events(&self) -> (r: &Vec<Event>)
        ensures
            r@ == self@.events,
    {
        &self.events
    }

    // Gates

    fn require_unpaused(&self) -> (r: Result<(), Error>)
        ensures
            r == (if self@.paused {
                Err(Error::ContractIsPaused)
            } else {
                Ok(())
            }),
    {
        if self.paused {
            Err(Error::ContractIsPaused)
        } else {
            Ok(())
        }
    }

    fn require_role(&self, account: &Address, role: Role) -> (r: Result<(), Error>)
        requires
            self.wf(),
        ensures
            r == (if self@.has_role(role, *account) {
                Ok(())
            } else {
                Err(Error::InsufficientRights)
            }),
    {
        if self.roles.has_role(role, account) {
            Ok(())
        } else {
            Err(Error::InsufficientRights)
        }
    }

    fn require_not_role(&self, account: &Address, role: Role) -> (r: Result<(), Error>)
        requires
            self.wf(),
        ensures
            r == (if self@.has_role(role, *account) {
                Err(Error::InsufficientRights)
            } else {
                Ok(())
            }),
    {
        if self.roles.has_role(role, account) {
            Err(Error::InsufficientRights)
        } else {
            Ok(())
        }
    }

    /// The checks that open each transfer, approval, mint and burn.
    fn prelude(&self, caller: &Address) -> (r: Result<(), Error>)
        requires
            self.wf(),
        ensures
            r == self@.prelude_check(*caller),
    {
        let r = self.require_unpaused();
        if r.is_err() {
            return r;
        }
        self.require_not_role(caller, Role::Blacklisted)
    }

    /// Appends `e` to the event log.
    fn emit(&mut self, e: Event)
        requires
            old(self).wf(),
        ensures
            final(self).wf(),
            final(self)@ == old(self)@.emit(e),
    {
        self.events.push(e);
    }

    // Internal movements

    /// Moves `amount` from `sender` to `recipient` and logs the transfer.
    fn raw_transfer(&mut self, sender: &Address, recipient: &Address, amount: &Amount)
        requires
            old(self).wf(),
            *sender != *recipient,
            amount@ <= old(self)@.balance_of(*sender),
        ensures
            final(self).wf(),
            final(self)@ == old(self)@.after_raw_transfer(*sender, *recipient, *amount),
    {
        if !amount.is_zero() {
            let from = self.balance_of(sender);
            let to = self.balance_of(recipient);
            let from_after = match from.checked_sub(amount) {
                Some(v) => v,
                None => {
                    assert(false);
                    Amount::zero()
                },
            };
            proof {
                lemma_amount_map_insert(self.balances@, *sender, from_after);
            }
            self.balances.set(*sender, from_after);
            proof {
                if self.balances@.contains_key(*recipient) {
                    self.balances.lemma_value_at_most_total(*recipient, amount_weight());
                }
                lemma_amount_bounded(self.total_supply);
            }
            let to_after = match to.checked_add(amount) {
                Some(v) => v,
                None => {
                    assert(false);
                    Amount::zero()
                },
            };
            proof {
                lemma_amount_map_insert(self.balances@, *recipient, to_after);
            }
            self.balances.set(*recipient, to_after);
        }
        assert(self@.balances == old(self)@.after_raw_transfer(*sender, *recipient, *amount).balances);
        self.emit(Event::Transfer(Transfer { sender: *sender, recipient: *recipient, amount: *amount }));
    }

    // Token operations

    /// Moves `amount` of the caller's tokens to `recipient`.
    pub fn transfer(&mut self, caller: &Address, recipient: &Address, amount: &Amount) -> (r: Result<(), Error>)
        requires
            old(self).wf(),
        ensures
            final(self).wf(),
            r == old(self)@.transfer_check(*caller, *recipient, amount@),
            r is Err ==> *final(self) == *old(self),
            r is Ok ==> final(self)@ == old(self)@.after_transfer(*caller, *recipient, *amount),
    {
        let r = self.prelude(caller);
        if r.is_err() {
            return r;
        }
        if caller.same(recipient) {
            return Err(Error::CannotTargetSelfUser);
        }
        if self.balance_of(caller).lt(amount) {
            return Err(Error::InsufficientBalance);
        }
        self.raw_transfer(caller, recipient, amount);
        Ok(())
    }

    /// Sets the amount `spender` may spend on the caller's behalf to exactly `amount`.
    pub fn approve(&mut self, caller: &Address, spender: &Address, amount: &Amount) -> (r: Result<(), Error>)
        requires
            old(self).wf(),
        ensures
            final(self).wf(),
            r == old(self)@.approve_check(*caller, *spender),
            r is Err ==> *final(self) == *old(self),
            r is Ok ==> final(self)@ == old(self)@.after_approve(*caller, *spender, *amount),
    {
        let r = self.prelude(caller);
        if r.is_err() {
            return r;
        }
        if caller.same(spender) {
            return Err(Error::CannotTargetSelfUser);
        }
        let r = self.require_not_role(spender, Role::Blacklisted);
        if r.is_err() {
            return r;
        }
        proof {
            lemma_amount_map_insert(self.allowances@, (*caller, *spender), *amount);
        }
        self.allowances.set((*caller, *spender), *amount);
        self.emit(
            Event::SetAllowance(SetAllowance { owner: *caller, spender: *spender, allowance: *amount }),
        );
        Ok(())
    }

    /// Raises the caller's allowance to `spender` by `inc_by`, saturating at
    /// `2^256 - 1`.
    pub fn increase_allowance(&mut self, caller: &Address, spender: &Address, inc_by: &Amount) -> (r: Result<(), Error>)
        requires
            old(self).wf(),
        ensures
            final(self).wf(),
            r == old(self)@.increase_allowance_check(*caller, *spender),
            r is Err ==> *final(self) == *old(self),
            r is Ok ==> final(self)@ == old(self)@.after_increase_allowance(*caller, *spender, *inc_by),
    {
        let r = self.prelude(caller);
        if r.is_err() {
            return r;
        }
        if caller.same(spender) {
            return Err(Error::CannotTargetSelfUser);
        }
        let allowance = self.allowance(caller, spender);
        let after = allowance.saturating_add(inc_by);
        proof {
            lemma_amount_map_insert(self.allowances@, (*caller, *spender), after);
            lemma_amount_of_view(allowance);
        }
        self.allowances.set((*caller, *spender), after);
        self.emit(
            Event::IncreaseAllowance(
                IncreaseAllowance { owner: *caller, spender: *spender, allowance, inc_by: *inc_by },
            ),
        );
        Ok(())
    }

    /// Lowers the caller's allowance to `spender` by `decr_by`, stopping at zero.
    pub fn decrease_allowance(&mut self, caller: &Address, spender: &Address, decr_by: &Amount) -> (r: Result<(), Error>)
        requires
            old(self).wf(),
        ensures
            final(self).wf(),
            r == old(self)@.decrease_allowance_check(*caller),
            r is Err ==> *final(self) == *old(self),
            r is Ok ==> final(self)@ == old(self)@.after_decrease_allowance(*caller, *spender, *decr_by),
    {
        let r = self.prelude(caller);
        if r.is_err() {
            return r;
        }
        let allowance = self.allowance(caller, spender);
        let after = allowance.saturating_sub(decr_by);
        proof {
            lemma_amount_map_insert(self.allowances@, (*caller, *spender), after);
            lemma_amount_of_view(allowance);
        }
        self.allowances.set((*caller, *spender), after);
        self.emit(
            Event::DecreaseAllowance(
                DecreaseAllowance { owner: *caller, spender: *spender, allowance, decr_by: *decr_by },
            ),
        );
        Ok(())
    }

    /// The caller spends `amount` of its allowance from `owner` to move
    /// `owner`'s tokens to `recipient`. A zero amount succeeds without effect.
    pub fn transfer_from(
        &mut self,
        caller: &Address,
        owner: &Address,
        recipient: &Address,
        amount: &Amount,
    ) -> (r: Result<(), Error>)
        requires
            old(self).wf(),
        ensures
            final(self).wf(),
            r == old(self)@.transfer_from_check(*caller, *owner, *recipient, amount@),
            r is Err ==> *final(self) == *old(self),
            r is Ok ==> final(self)@ == old(self)@.after_transfer_from(
                *caller,
                *owner,
                *recipient,
                *amount,
            ),
    {
        let r = self.prelude(caller);
        if r.is_err() {
            return r;
        }
        let r = self.require_not_role(owner, Role::Blacklisted);
        if r.is_err() {
            return r;
        }
        let r = self.require_not_role(recipient, Role::Blacklisted);
        if r.is_err() {
            return r;
        }
        if owner.same(recipient) {
            return Err(Error::CannotTargetSelfUser);
        }
        if amount.is_zero() {
            return Ok(());
        }
        let allowance = self.allowance(owner, caller);
        let remaining = match allowance.checked_sub(amount) {
            Some(v) => v,
            None => {
                return Err(Error::InsufficientAllowance);
            },
        };
        if self.balance_of(owner).lt(amount) {
            return Err(Error::InsufficientBalance);
        }
        proof {
            lemma_amount_map_insert(self.allowances@, (*owner, *caller), remaining);
        }
        self.allowances.set((*owner, *caller), remaining);
        self.emit(
            Event::TransferFrom(
                TransferFrom { spender: *caller, owner: *owner, recipient: *recipient, amount: *amount },
            ),
        );
        self.raw_transfer(owner, recipient, amount);
        Ok(())
    }

    fn assert_burn_and_mint_enabled(&self) -> (r: Result<(), Error>)
        ensures
            r == (if self@.modality == StablecoinModality::MintAndBurn {
                Ok(())
            } else {
                Err(Error::MintBurnDisabled)
            }),
    {
        if self.modality.mint_and_burn_enabled() {
            Ok(())
        } else {
            Err(Error::MintBurnDisabled)
        }
    }

    /// Adds `amount` to the supply and to `recipient`'s balance, and logs it.
    fn raw_mint(&mut self, recipient: &Address, amount: &Amount)
        requires
            old(self).wf(),
            old(self)@.total_supply + amount@ <= amount_max(),
        ensures
            final(self).wf(),
            final(self)@ == old(self)@.after_raw_mint(*recipient, *amount),
    {
        let supply = match self.total_supply.checked_add(amount) {
            Some(v) => v,
            None => {
                assert(false);
                Amount::zero()
            },
        };
        let to = self.balance_of(recipient);
        proof {
            self.lemma_balance_at_most_supply(*recipient);
        }
        let to_after = match to.checked_add(amount) {
            Some(v) => v,
            None => {
                assert(false);
                Amount::zero()
            },
        };
        proof {
            lemma_amount_map_insert(self.balances@, *recipient, to_after);
        }
        self.total_supply = supply;
        self.balances.set(*recipient, to_after);
        self.emit(Event::Mint(Mint { recipient: *recipient, amount: *amount }));
    }

    /// A minter creates `amount` new tokens for `recipient`, spending as much
    /// of its minter allowance.
    pub fn mint(&mut self, caller: &Address, recipient: &Address, amount: &Amount) -> (r: Result<(), Error>)
        requires
            old(self).wf(),
        ensures
            final(self).wf(),
            r == old(self)@.mint_check(*caller, *recipient, amount@),
            r is Err ==> *final(self) == *old(self),
            r is Ok ==> final(self)@ == old(self)@.after_mint(*caller, *recipient, *amount),
    {
        let r = self.prelude(caller);
        if r.is_err() {
            return r;
        }
        let r = self.assert_burn_and_mint_enabled();
        if r.is_err() {
            return r;
        }
        let r = self.require_role(caller, Role::Minter);
        if r.is_err() {
            return r;
        }
        let r = self.require_not_role(recipient, Role::Blacklisted);
        if r.is_err() {
            return r;
        }
        let minter_allowance = self.minter_allowance(caller);
        let remaining = match minter_allowance.checked_sub(amount) {
            Some(v) => v,
            None => {
                return Err(Error::InsufficientMinterAllowance);
            },
        };
        if self.total_supply.checked_add(amount).is_none() {
            return Err(Error::ArithmeticOverflow);
        }
        proof {
            lemma_amount_map_insert(self.minter_allowances@, *caller, remaining);
        }
        self.minter_allowances.set(*caller, remaining);
        self.raw_mint(recipient, amount);
        Ok(())
    }

    /// A minter destroys `amount` of its own tokens.
    pub fn burn(&mut self, caller: &Address, amount: &Amount) -> (r: Result<(), Error>)
        requires
            old(self).wf(),
        ensures
            final(self).wf(),
            r == old(self)@.burn_check(*caller, amount@),
            r is Err ==> *final(self) == *old(self),
            r is Ok ==> final(self)@ == old(self)@.after_burn(*caller, *amount),
    {
        let r = self.prelude(caller);
        if r.is_err() {
            return r;
        }
        let r = self.assert_burn_and_mint_enabled();
        if r.is_err() {
            return r;
        }
        let r = self.require_role(caller, Role::Minter);
        if r.is_err() {
            return r;
        }
        if amount.is_zero() {
            return Err(Error::InvalidAmount);
        }
        let balance = self.balance_of(caller);
        let balance_after = match balance.checked_sub(amount) {
            Some(v) => v,
            None => {
                return Err(Error::InsufficientBalance);
            },
        };
        self.raw_burn(caller, amount, balance_after);
        Ok(())
    }

    /// Takes `amount` from the supply and from `owner`'s balance, which
    /// becomes `balance_after`, and logs it.
    fn raw_burn(&mut self, owner: &Address, amount: &Amount, balance_after: Amount)
        requires
            old(self).wf(),
            balance_after@ + amount@ == old(self)@.balance_of(*owner),
        ensures
            final(self).wf(),
            final(self)@ == old(self)@.after_burn(*owner, *amount),
    {
        proof {
            self.lemma_balance_at_most_supply(*owner);
        }
        let supply = match self.total_supply.checked_sub(amount) {
            Some(v) => v,
            None => {
                assert(false);
                Amount::zero()
            },
        };
        proof {
            lemma_amount_map_insert(self.balances@, *owner, balance_after);
        }
        self.total_supply = supply;
        self.balances.set(*owner, balance_after);
        self.emit(Event::Burn(Burn { owner: *owner, amount: *amount }));
    }

    // Authority operations

    /// The minter bound to `controller`.
    fn get_associated_minter(&self, controller: &Address) -> (r: Result<Address, Error>)
        requires
            self.wf(),
        ensures
            r == (if self@.controllers.contains_key(*controller) {
                Ok(self@.controllers[*controller])
            } else {
                Err(Error::MissingController)
            }),
    {
        match self.controllers.get(controller) {
            Some(m) => Ok(m),
            None => Err(Error::MissingController),
        }
    }

    /// The minter bound to the caller, an unblacklisted controller.
    pub fn get_minter(&self, caller: &Address) -> (r: Result<Address, Error>)
        requires
            self.wf(),
        ensures
            r == self@.controller_check(*caller),
    {
        let r = self.require_role(caller, Role::Controller);
        if r.is_err() {
            return Err(Error::InsufficientRights);
        }
        let r = self.require_not_role(caller, Role::Blacklisted);
        if r.is_err() {
            return Err(Error::InsufficientRights);
        }
        self.get_associated_minter(caller)
    }

    /// The minter whose allowance the caller may manage.
    fn managed_minter(&self, caller: &Address) -> (r: Result<Address, Error>)
        requires
            self.wf(),
        ensures
            r == self@.minter_admin_check(*caller),
    {
        let minter = self.get_minter(caller);
        match minter {
            Ok(m) => {
                if self.roles.is_blacklisted(&m) {
                    Err(Error::InsufficientRights)
                } else {
                    Ok(m)
                }
            },
            Err(e) => Err(e),
        }
    }

    /// A master minter binds `controller` to `minter`, granting both their roles.
    pub fn configure_controller(&mut self, caller: &Address, controller: &Address, minter: &Address) -> (r: Result<(), Error>)
        requires
            old(self).wf(),
        ensures
            final(self).wf(),
            r == old(self)@.configure_controller_check(*caller, *controller, *minter),
            r is Err ==> *final(self) == *old(self),
            r is Ok ==> final(self)@ == old(self)@.after_configure_controller(*controller, *minter),
    {
        let r = self.require_role(caller, Role::MasterMinter);
        if r.is_err() {
            return r;
        }
        let r = self.require_not_role(controller, Role::Blacklisted);
        if r.is_err() {
            return r;
        }
        let r = self.require_not_role(minter, Role::Blacklisted);
        if r.is_err() {
            return r;
        }
        self.roles.configure_role(Role::Controller, controller);
        self.roles.configure_role(Role::Minter, minter);
        self.controllers.set(*controller, *minter);
        self.emit(
            Event::ControllerConfigured(ControllerConfigured { controller: *controller, minter: *minter }),
        );
        Ok(())
    }

    /// A master minter takes the controller role from `controller`; its
    /// binding stays but is inert without the role.
    pub fn remove_controller(&mut self, caller: &Address, controller: &Address) -> (r: Result<(), Error>)
        requires
            old(self).wf(),
        ensures
            final(self).wf(),
            r == old(self)@.remove_controller_check(*caller),
            r is Err ==> *final(self) == *old(self),
            r is Ok ==> final(self)@ == old(self)@.after_remove_controller(*controller),
    {
        let r = self.require_role(caller, Role::MasterMinter);
        if r.is_err() {
            return r;
        }
        self.roles.revoke_role(Role::Controller, controller);
        self.emit(Event::ControllerRemoved(ControllerRemoved { controller: *controller }));
        Ok(())
    }

    /// A controller takes the minter role from its bound minter. The minter
    /// allowance is left as it is.
    pub fn remove_minter(&mut self, caller: &Address) -> (r: Result<(), Error>)
        requires
            old(self).wf(),
        ensures
            final(self).wf(),
            match old(self)@.controller_check(*caller) {
                Err(e) => r == Err::<(), Error>(e) && *final(self) == *old(self),
                Ok(m) => r is Ok && final(self)@ == old(self)@.after_remove_minter(m),
            },
    {
        let minter = match self.get_minter(caller) {
            Ok(m) => m,
            Err(e) => {
                return Err(e);
            },
        };
        self.roles.revoke_role(Role::Minter, &minter);
        self.emit(Event::MinterRemoved(MinterRemoved { minter }));
        Ok(())
    }

    /// Stores `value` as `minter`'s allowance and logs it.
    fn set_minter_allowance(&mut self, minter: &Address, value: Amount)
        requires
            old(self).wf(),
        ensures
            final(self).wf(),
            final(self)@ == old(self)@.after_set_minter_allowance(*minter, value@),
    {
        proof {
            lemma_amount_map_insert(self.minter_allowances@, *minter, value);
            lemma_amount_of_view(value);
        }
        self.minter_allowances.set(*minter, value);
        self.emit(Event::MinterConfigured(MinterConfigured { minter: *minter, minter_allowance: value }));
    }

    /// A controller sets the allowance of its bound minter to `minter_allowance`.
    pub fn configure_minter_allowance(&mut self, caller: &Address, minter_allowance: &Amount) -> (r: Result<(), Error>)
        requires
            old(self).wf(),
        ensures
            final(self).wf(),
            match old(self)@.minter_admin_check(*caller) {
                Err(e) => r == Err::<(), Error>(e) && *final(self) == *old(self),
                Ok(m) => r is Ok && final(self)@ == old(self)@.after_set_minter_allowance(
                    m,
                    minter_allowance@,
                ),
            },
    {
        let minter = match self.managed_minter(caller) {
            Ok(m) => m,
            Err(e) => {
                return Err(e);
            },
        };
        self.set_minter_allowance(&minter, *minter_allowance);
        Ok(())
    }

    /// A controller raises the allowance of its bound minter by `increment`.
    pub fn increase_minter_allowance(&mut self, caller: &Address, increment: &Amount) -> (r: Result<(), Error>)
        requires
            old(self).wf(),
        ensures
            final(self).wf(),
            match old(self)@.increase_minter_allowance_check(*caller, increment@) {
                Err(e) => r == Err::<(), Error>(e) && *final(self) == *old(self),
                Ok(m) => r is Ok && final(self)@ == old(self)@.after_set_minter_allowance(
                    m,
                    old(self)@.minter_allowance_of(m) + increment@,
                ),
            },
    {
        let minter = match self.managed_minter(caller) {
            Ok(m) => m,
            Err(e) => {
                return Err(e);
            },
        };
        let value = match self.minter_allowance(&minter).checked_add(increment) {
            Some(v) => v,
            None => {
                return Err(Error::ArithmeticOverflow);
            },
        };
        self.set_minter_allowance(&minter, value);
        Ok(())
    }

    /// A controller lowers the allowance of its bound minter by `decrement`.
    pub fn decrease_minter_allowance(&mut self, caller: &Address, decrement: &Amount) -> (r: Result<(), Error>)
        requires
            old(self).wf(),
        ensures
            final(self).wf(),
            match old(self)@.decrease_minter_allowance_check(*caller, decrement@) {
                Err(e) => r == Err::<(), Error>(e) && *final(self) == *old(self),
                Ok(m) => r is Ok && final(self)@ == old(self)@.after_set_minter_allowance(
                    m,
                    (old(self)@.minter_allowance_of(m) - decrement@) as nat,
                ),
            },
    {
        let minter = match self.managed_minter(caller) {
            Ok(m) => m,
            Err(e) => {
                return Err(e);
            },
        };
        let value = match self.minter_allowance(&minter).checked_sub(decrement) {
            Some(v) => v,
            None => {
                return Err(Error::ArithmeticUnderflow);
            },
        };
        self.set_minter_allowance(&minter, value);
        Ok(())
    }

    /// The blacklister marks `account` as blacklisted.
    pub fn blacklist(&mut self, caller: &Address, account: &Address) -> (r: Result<(), Error>)
        requires
            old(self).wf(),
        ensures
            final(self).wf(),
            r == old(self)@.blacklister_check(*caller),
            r is Err ==> *final(self) == *old(self),
            r is Ok ==> final(self)@ == old(self)@.after_blacklist(*account),
    {
        let r = self.require_role(caller, Role::Blacklister);
        if r.is_err() {
            return r;
        }
        self.roles.configure_role(Role::Blacklisted, account);
        self.emit(Event::Blacklist(Blacklist { account: *account }));
        Ok(())
    }

    /// The blacklister removes `account` from the blacklist.
    pub fn unblacklist(&mut self, caller: &Address, account: &Address) -> (r: Result<(), Error>)
        requires
            old(self).wf(),
        ensures
            final(self).wf(),
            r == old(self)@.blacklister_check(*caller),
            r is Err ==> *final(self) == *old(self),
            r is Ok ==> final(self)@ == old(self)@.after_unblacklist(*account),
    {
        let r = self.require_role(caller, Role::Blacklister);
        if r.is_err() {
            return r;
        }
        self.roles.revoke_role(Role::Blacklisted, account);
        self.emit(Event::Unblacklist(Unblacklist { account: *account }));
        Ok(())
    }

    /// An owner hands the blacklister role to `new_blacklister`.
    pub fn update_blacklister(&mut self, caller: &Address, new_blacklister: &Address) -> (r: Result<(), Error>)
        requires
            old(self).wf(),
        ensures
            final(self).wf(),
            r == old(self)@.update_blacklister_check(*caller),
            r is Err ==> *final(self) == *old(self),
            r is Ok ==> final(self)@ == old(self)@.after_update_blacklister(*new_blacklister),
    {
        let r = self.require_role(caller, Role::Owner);
        if r.is_err() {
            return r;
        }
        let current = match self.blacklister {
            Some(b) => b,
            None => {
                return Err(Error::MissingBlacklister);
            },
        };
        self.roles.revoke_role(Role::Blacklister, &current);
        self.blacklister = Some(*new_blacklister);
        self.roles.configure_role(Role::Blacklister, new_blacklister);
        self.emit(Event::BlacklisterChanged(BlacklisterChanged { new_blacklister: *new_blacklister }));
        Ok(())
    }

    /// An unblacklisted pauser pauses the contract.
    pub fn pause(&mut self, caller: &Address) -> (r: Result<(), Error>)
        requires
            old(self).wf(),
        ensures
            final(self).wf(),
            r == old(self)@.pauser_check(*caller),
            r is Err ==> *final(self) == *old(self),
            r is Ok ==> final(self)@ == old(self)@.after_pause(),
    {
        let r = self.require_role(caller, Role::Pauser);
        if r.is_err() {
            return r;
        }
        let r = self.require_not_role(caller, Role::Blacklisted);
        if r.is_err() {
            return r;
        }
        self.paused = true;
        self.emit(Event::Paused(Paused {  }));
        Ok(())
    }

    /// An unblacklisted pauser unpauses the contract.
    pub fn unpause(&mut self, caller: &Address) -> (r: Result<(), Error>)
        requires
            old(self).wf(),
        ensures
            final(self).wf(),
            r == old(self)@.pauser_check(*caller),
            r is Err ==> *final(self) == *old(self),
            r is Ok ==> final(self)@ == old(self)@.after_unpause(),
    {
        let r = self.require_role(caller, Role::Pauser);
        if r.is_err() {
            return r;
        }
        let r = self.require_not_role(caller, Role::Blacklisted);
        if r.is_err() {
            return r;
        }
        self.paused = false;
        self.emit(Event::Unpaused(Unpaused {  }));
        Ok(())
    }
}

} // verus!
