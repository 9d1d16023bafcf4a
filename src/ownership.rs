//! The shared ownership contract: it stores the owner that other contracts
//! resolve through its `owner` entrypoint.

use crate::address::Address;
use crate::initialization::{Initialization, InitializationError};
use crate::ownable::OwnershipTransferred;
use vstd::prelude::*;

verus! {

/// Why an ownership operation was refused.
#[derive(Clone, Copy, Debug, PartialEq, Eq, Structural)]
pub enum OwnershipError {
    /// The caller is not the owner.
    UnauthorizedAccount(Address),
    /// The proposed owner is not allowed (the null address).
    InvalidOwner(Address),
}

/// State of the ownership contract.
#[derive(Clone, Copy, Debug, PartialEq, Eq, Structural)]
pub struct Ownership {
    pub owner: Address,
    pub init: Initialization,
}

impl Ownership {
    /// A fresh, uninitialized instance.
    pub fn new() -> (r: Ownership)
        ensures
            r.owner == Address::null(),
            !r.init.is_init,
    {
        Ownership { owner: Address::zero(), init: Initialization::new() }
    }

    /// Succeeds exactly when `sender` is the owner.
    pub fn only_owner(&self, sender: Address) -> (r: Result<(), OwnershipError>)
        ensures
            r == (if sender == self.owner {
                Ok::<(), OwnershipError>(())
            } else {
                Err(OwnershipError::UnauthorizedAccount(sender))
            }),
    {
        if self.owner() != sender {
            return Err(OwnershipError::UnauthorizedAccount(sender));
        }
        Ok(())
    }

    /// Sets the owner without any check.
    pub fn _transfer_ownership(&mut self, new_owner: Address) -> (r: OwnershipTransferred)
        ensures
            final(self).owner == new_owner,
            final(self).init == old(self).init,
            r == (OwnershipTransferred { previous_owner: old(self).owner, new_owner }),
    {
        let previous_owner = self.owner;
        self.owner = new_owner;
        OwnershipTransferred { previous_owner, new_owner }
    }

    /// Sets the first owner; refused once the contract is initialized.
    pub fn initialization(&mut self, owner: Address) -> (r: Result<
        OwnershipTransferred,
        InitializationError,
    >)
        ensures
            old(self).init.is_init ==> r == Err::<OwnershipTransferred, InitializationError>(
                InitializationError::AlreadyInitialized,
            ) && *final(self) == *old(self),
            !old(self).init.is_init ==> r == Ok::<OwnershipTransferred, InitializationError>(
                OwnershipTransferred { previous_owner: old(self).owner, new_owner: owner },
            ) && final(self).owner == owner && final(self).init.is_init,
    {
        self.init._check_init()?;
        let event = self._transfer_ownership(owner);
        self.init._set_init(true);
        Ok(event)
    }

    /// The current owner.
    pub fn owner(&self) -> (r: Address)
        ensures
            r == self.owner,
    {
        self.owner
    }

    /// Hands ownership to `new_owner` on behalf of `sender`, who must be the
    /// owner; the null address is refused.
    pub fn transfer_ownership(&mut self, sender: Address, new_owner: Address) -> (r: Result<
        OwnershipTransferred,
        OwnershipError,
    >)
        ensures
            sender != old(self).owner ==> r == Err::<OwnershipTransferred, OwnershipError>(
                OwnershipError::UnauthorizedAccount(sender),
            ),
            sender == old(self).owner && new_owner == Address::null() ==> r == Err::<
                OwnershipTransferred,
                OwnershipError,
            >(OwnershipError::InvalidOwner(Address::null())),
            sender == old(self).owner && new_owner != Address::null() ==> r == Ok::<
                OwnershipTransferred,
                OwnershipError,
            >(OwnershipTransferred { previous_owner: old(self).owner, new_owner }),
            r is Ok ==> final(self).owner == new_owner && final(self).init == old(self).init,
            r is Err ==> *final(self) == *old(self),
    {
        self.only_owner(sender)?;
        if new_owner.is_zero() {
            return Err(OwnershipError::InvalidOwner(Address::zero()));
        }
        Ok(self._transfer_ownership(new_owner))
    }
}

} // verus!
