//! The role registry: which addresses hold which roles.

use vstd::prelude::*;
use crate::address::Address;
use crate::ledger::{Ledger, LedgerKey};

verus! {

/// A badge that grants an address certain permissions.
#[derive(Clone, Copy, Debug, PartialEq, Eq, Structural)]
pub enum Role {
    /// May create tokens up to its minter allowance.
    Minter,
    /// May configure and remove controller / minter pairs.
    MasterMinter,
    /// May blacklist and unblacklist addresses.
    Blacklister,
    /// Held by addresses that have been blacklisted.
    Blacklisted,
    /// May pause and unpause the contract.
    Pauser,
    /// Manages the allowance of the minter bound to it.
    Controller,
    /// May replace the blacklister.
    Owner,
}

impl LedgerKey for (Role, Address) {
    fn same_key(&self, other: &(Role, Address)) -> (r: bool) {
        self.0 == other.0 && self.1.same(&other.1)
    }
}

/// The set of (role, address) pairs in force.
pub struct RoleRegistry {
    members: Ledger<(Role, Address), ()>,
}

impl View for RoleRegistry {
    type V = Set<(Role, Address)>;

    closed spec fn view(&self) -> Set<(Role, Address)> {
        self.members@.dom()
    }
}

impl RoleRegistry {
    /// The registry is well formed.
    pub closed spec fn wf(&self) -> bool {
        self.members.wf()
    }

    /// A registry in which nobody holds a role.
    pub fn new() -> (r: RoleRegistry)
        ensures
            r.wf(),
            r@ == Set::<(Role, Address)>::empty(),
    {
        let r = RoleRegistry { members: Ledger::new() };
        assert(r@ =~= Set::<(Role, Address)>::empty());
        r
    }

    /// Grants `role` to `account`; granting a held role changes nothing.
    pub fn configure_role(&mut self, role: Role, account: &Address)
        requires
            old(self).wf(),
        ensures
            final(self).wf(),
            final(self)@ == old(self)@.insert((role, *account)),
    {
        self.members.set((role, *account), ());
        assert(self@ =~= old(self)@.insert((role, *account)));
    }

    /// Takes `role` from `account`; revoking a role not held changes nothing.
    pub fn revoke_role(&mut self, role: Role, account: &Address)
        requires
            old(self).wf(),
        ensures
            final(self).wf(),
            final(self)@ == old(self)@.remove((role, *account)),
    {
        self.members.remove(&(role, *account));
        assert(self@ =~= old(self)@.remove((role, *account)));
    }

    /// Whether `account` holds `role`.
    pub fn has_role(&self, role: Role, account: &Address) -> (r: bool)
        requires
            self.wf(),
        ensures
            r <==> self@.contains((role, *account)),
    {
        self.members.get(&(role, *account)).is_some()
    }

    /// Whether `account` is a minter.
    pub fn is_minter(&self, account: &Address) -> (r: bool)
        requires
            self.wf(),
        ensures
            r <==> self@.contains((Role::Minter, *account)),
    {
        self.has_role(Role::Minter, account)
    }

    /// Whether `account` is blacklisted.
    pub fn is_blacklisted(&self, account: &Address) -> (r: bool)
        requires
            self.wf(),
        ensures
            r <==> self@.contains((Role::Blacklisted, *account)),
    {
        self.has_role(Role::Blacklisted, account)
    }

    /// Whether `account` is an owner.
    pub fn is_owner(&self, account: &Address) -> (r: bool)
        requires
            self.wf(),
        ensures
            r <==> self@.contains((Role::Owner, *account)),
    {
        self.has_role(Role::Owner, account)
    }

    /// Whether `account` is a pauser.
    pub fn is_pauser(&self, account: &Address) -> (r: bool)
        requires
            self.wf(),
        ensures
            r <==> self@.contains((Role::Pauser, *account)),
    {
        self.has_role(Role::Pauser, account)
    }
}

} // verus!
