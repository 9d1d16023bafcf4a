//! Access control delegated to a shared ownership contract.
//!
//! The owner is whatever the registered ownership contract answers to
//! `owner()`. The host makes that call and hands the answer in as
//! `resolved_owner`.

use crate::address::Address;
use vstd::prelude::*;

verus! {

/// Why a delegated ownership operation was refused.
#[derive(Clone, Copy, Debug, PartialEq, Eq, Structural)]
pub enum OwnableError {
    /// The caller is not the resolved owner.
    UnauthorizedAccount(Address),
    /// The proposed ownership contract resolves to another owner.
    InvalidOwnership(Address),
}

/// The address of the ownership contract that decides who the owner is.
#[derive(Clone, Copy, Debug, PartialEq, Eq, Structural)]
pub struct Ownable {
    pub ownership: Address,
}

impl Ownable {
    /// Delegates to the ownership contract at `ownership`.
    pub fn new(ownership: Address) -> (r: Ownable)
        ensures
            r.ownership == ownership,
    {
        Ownable { ownership }
    }

    /// The contract whose `owner()` answer is the owner.
    pub fn ownership_contract(&self) -> (r: Address)
        ensures
            r == self.ownership,
    {
        self.ownership
    }

    /// Points the delegation at `address` without any check.
    pub fn set_ownership_contract(&mut self, address: Address)
        ensures
            final(self).ownership == address,
    {
        self.ownership = address;
    }

    /// Succeeds exactly when `sender` is the owner that the ownership
    /// contract resolved to.
    pub fn only_owner(&self, sender: Address, resolved_owner: Address) -> (r: Result<
        (),
        OwnableError,
    >)
        ensures
            r == (if sender == resolved_owner {
                Ok::<(), OwnableError>(())
            } else {
                Err(OwnableError::UnauthorizedAccount(sender))
            }),
    {
        if resolved_owner != sender {
            return Err(OwnableError::UnauthorizedAccount(sender));
        }
        Ok(())
    }

    /// Moves the delegation to `new_address`, on behalf of `sender`.
    /// `current_owner` is what the present ownership contract resolves to and
    /// `target_owner` what `new_address` resolves to. The move is refused
    /// unless `sender` is the current owner and the target agrees with it, so
    /// that control is never handed to someone else by mistake.
    pub fn change_ownership_contract(
        &mut self,
        sender: Address,
        current_owner: Address,
        new_address: Address,
        target_owner: Address,
    ) -> (r: Result<(), OwnableError>)
        ensures
            sender != current_owner ==> r == Err::<(), OwnableError>(
                OwnableError::UnauthorizedAccount(sender),
            ),
            sender == current_owner && target_owner != current_owner ==> r == Err::<
                (),
                OwnableError,
            >(OwnableError::InvalidOwnership(new_address)),
            sender == current_owner && target_owner == current_owner ==> r == Ok::<
                (),
                OwnableError,
            >(()),
            r is Ok ==> final(self).ownership == new_address,
            r is Err ==> *final(self) == *old(self),
    {
        self.only_owner(sender, current_owner)?;
        if target_owner != current_owner {
            return Err(OwnableError::InvalidOwnership(new_address));
        }
        self.ownership = new_address;
        Ok(())
    }
}

} // verus!
