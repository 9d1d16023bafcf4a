//! Access control with a locally stored owner.

use crate::address::Address;
use vstd::prelude::*;

verus! {

/// Why an ownership operation was refused.
#[derive(Clone, Copy, Debug, PartialEq, Eq, Structural)]
pub enum Error {
    /// The caller is not the owner.
    UnauthorizedAccount(Address),
    /// The proposed owner is not allowed (the null address).
    InvalidOwner(Address),
}

/// Record of a change of owner.
#[derive(Clone, Copy, Debug, PartialEq, Eq, Structural)]
pub struct OwnershipTransferred {
    pub previous_owner: Address,
    pub new_owner: Address,
}

/// A contract's owner, held in place.
#[derive(Clone, Copy, Debug, PartialEq, Eq, Structural)]
pub struct Ownable {
    pub owner: Address,
}

impl Ownable {
    /// An instance whose owner is `owner`.
    pub fn new(owner: Address) -> (r: Ownable)
        ensures
            r.owner == owner,
    {
        Ownable { owner }
    }

    /// The current owner.
    pub fn owner(&self) -> (r: Address)
        ensures
            r == self.owner,
    {
        self.owner
    }

    /// Succeeds exactly when `sender` is the owner.
    pub fn only_owner(&self, sender: Address) -> (r: Result<(), Error>)
        ensures
            r == (if sender == self.owner {
                Ok::<(), Error>(())
            } else {
                Err(Error::UnauthorizedAccount(sender))
            }),
    {
        if self.owner != sender {
            return Err(Error::UnauthorizedAccount(sender));
        }
        Ok(())
    }

    /// Hands ownership to `new_owner` on behalf of `sender`, who must be the
    /// owner; the null address is refused.
    pub fn transfer_ownership(&mut self, sender: Address, new_owner: Address) -> (r: Result<
        OwnershipTransferred,
        Error,
    >)
        ensures
            sender != old(self).owner ==> r == Err::<OwnershipTransferred, Error>(
                Error::UnauthorizedAccount(sender),
            ),
            sender == old(self).owner && new_owner == Address::null() ==> r == Err::<
                OwnershipTransferred,
                Error,
            >(Error::InvalidOwner(Address::null())),
            sender == old(self).owner && new_owner != Address::null() ==> r == Ok::<
                OwnershipTransferred,
                Error,
            >(OwnershipTransferred { previous_owner: old(self).owner, new_owner }),
            r is Ok ==> final(self).owner == new_owner,
            r is Err ==> *final(self) == *old(self),
    {
        self.only_owner(sender)?;
        if new_owner.is_zero() {
            return Err(Error::InvalidOwner(Address::zero()));
        }
        Ok(self._transfer_ownership(new_owner))
    }

    /// Leaves the contract without an owner, on behalf of `sender`, who must be
    /// the owner. Afterwards only the null address passes `only_owner`.
    pub fn renounce_ownership(&mut self, sender: Address) -> (r: Result<OwnershipTransferred, Error>)
        ensures
            sender != old(self).owner ==> r == Err::<OwnershipTransferred, Error>(
                Error::UnauthorizedAccount(sender),
            ) && *final(self) == *old(self),
            sender == old(self).owner ==> r == Ok::<OwnershipTransferred, Error>(
                OwnershipTransferred { previous_owner: old(self).owner, new_owner: Address::null() },
            ) && final(self).owner == Address::null(),
    {
        self.only_owner(sender)?;
        Ok(self._transfer_ownership(Address::zero()))
    }

    /// Sets the owner without any check.
    pub fn _transfer_ownership(&mut self, new_owner: Address) -> (r: OwnershipTransferred)
        ensures
            final(self).owner == new_owner,
            r == (OwnershipTransferred { previous_owner: old(self).owner, new_owner }),
    {
        let previous_owner = self.owner;
        self.owner = new_owner;
        OwnershipTransferred { previous_owner, new_owner }
    }
}

} // verus!
