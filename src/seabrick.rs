//! The NFT collection that the market sells: tokens are numbered from zero
//! in minting order, only registered minters mint, and a holder may burn
//! its own token.

use crate::address::Address;
use crate::initialization::{Initialization, InitializationError};
use crate::ownable::{Error, Ownable, OwnershipTransferred};
use crate::table::{find_address, lemma_lookup_push, lemma_lookup_update, lookup};
use crate::uint::{lemma_small_value, Uint256};
use vstd::prelude::*;

verus! {

/// Fixed facts of the collection.
pub struct SeabrickParams {}

/// The collection's name.
pub const NAME: &'static str = "SeaBrick NFT";

/// The collection's symbol.
pub const SYMBOL: &'static str = "SB_NFT";

/// How many images the token metadata rotates through.
pub const IMAGE_COUNT: u64 = 5;

impl SeabrickParams {
    /// The number, from 1 to 5, of the image that token `token_id` shows:
    /// the images repeat in order along the ids.
    pub fn image_number(token_id: &Uint256) -> (r: u64)
        ensures
            r == token_id@ % 5 + 1,
    {
        let m = token_id.checked_rem(&Uint256::from_u64(IMAGE_COUNT));
        match m {
            Some(v) => {
                proof {
                    lemma_small_value(v);
                }
                v.w0 + 1
            },
            None => 1,
        }
    }
}

/// Why a mint or a burn was refused.
#[derive(Clone, Copy, Debug, PartialEq, Eq, Structural)]
pub enum TokenError {
    /// The token could not be minted: the receiver is the null address, or
    /// the ids are exhausted.
    NotMinted,
    /// The token does not exist, was burned, or is not the caller's.
    NotBurned,
    /// The caller is not the collection's owner.
    OnlyContractOwner,
    /// The collection was already initialized.
    AlreadyInit,
}

/// Why a minting call was refused.
#[derive(Clone, Copy, Debug, PartialEq, Eq, Structural)]
pub enum SeabrickError {
    /// The caller is not a registered minter.
    OnlyMinters,
    /// The minting itself failed.
    Token(TokenError),
}

/// Record of a change to the set of minters.
#[derive(Clone, Copy, Debug, PartialEq, Eq, Structural)]
pub struct MinterUpdated {
    pub minter: Address,
    pub status: bool,
}

/// State of the collection.
#[derive(Clone, Debug)]
pub struct Seabrick {
    /// Holder of each token, by id; the null address once burned.
    pub owners: Vec<Address>,
    /// How many tokens were ever minted.
    pub minted: u64,
    /// Whether each address may mint.
    pub minters: Vec<(Address, bool)>,
    pub ownable: Ownable,
    pub init: Initialization,
}

impl Seabrick {
    /// Ids and holders agree.
    pub open spec fn wf(&self) -> bool {
        self.owners@.len() == self.minted
    }

    /// Whether `a` may mint.
    pub open spec fn is_minter(&self, a: Address) -> bool {
        lookup(self.minters@, a) == Some(true)
    }

    /// `post` is `pre` with `count` tokens minted to `to`.
    pub open spec fn minted_to(pre: Seabrick, post: Seabrick, to: Address, count: nat) -> bool {
        &&& post.owners@ == pre.owners@ + Seq::new(count, |i: int| to)
        &&& post.minted == pre.minted + count
        &&& post.minters == pre.minters
        &&& post.ownable == pre.ownable
        &&& post.init == pre.init
    }

    /// An empty, uninitialized collection.
    pub fn new() -> (r: Seabrick)
        ensures
            r.wf(),
            r.minted == 0,
            !r.init.is_init,
            forall|a: Address| !r.is_minter(a),
    {
        Seabrick {
            owners: Vec::new(),
            minted: 0,
            minters: Vec::new(),
            ownable: Ownable::new(Address::zero()),
            init: Initialization::new(),
        }
    }

    /// Sets the owner; refused once the collection is initialized.
    pub fn initialization(&mut self, owner: Address) -> (r: Result<
        OwnershipTransferred,
        InitializationError,
    >)
        ensures
            old(self).init.is_init ==> r == Err::<OwnershipTransferred, InitializationError>(
                InitializationError::AlreadyInitialized,
            ) && *final(self) == *old(self),
            !old(self).init.is_init ==> r == Ok::<OwnershipTransferred, InitializationError>(
                OwnershipTransferred { previous_owner: old(self).ownable.owner, new_owner: owner },
            ) && *final(self) == (Seabrick {
                ownable: Ownable { owner },
                init: Initialization { is_init: true },
                ..*old(self)
            }),
    {
        self.init._check_init()?;
        let event = self.ownable._transfer_ownership(owner);
        self.init._set_init(true);
        Ok(event)
    }

    /// How many tokens were ever minted; the next id.
    pub fn total_supply(&self) -> (r: Uint256)
        ensures
            r@ == self.minted,
    {
        Uint256::from_u64(self.minted)
    }

    /// Grants or withdraws the right to mint, on behalf of `sender`, who must
    /// be the owner.
    pub fn set_minter(&mut self, sender: Address, minter: Address, status: bool) -> (r: Result<
        MinterUpdated,
        Error,
    >)
        ensures
            sender != old(self).ownable.owner ==> r == Err::<MinterUpdated, Error>(
                Error::UnauthorizedAccount(sender),
            ) && *final(self) == *old(self),
            sender == old(self).ownable.owner ==> r == Ok::<MinterUpdated, Error>(
                MinterUpdated { minter, status },
            ),
            r is Ok ==> forall|a: Address|
                lookup(final(self).minters@, a) == (if a == minter {
                    Some(status)
                } else {
                    lookup(old(self).minters@, a)
                }),
            r is Ok ==> final(self).owners == old(self).owners && final(self).minted
                == old(self).minted && final(self).ownable == old(self).ownable && final(self).init
                == old(self).init,
    {
        self.ownable.only_owner(sender)?;
        let ghost before = self.minters@;
        match find_address(&self.minters, &minter) {
            Some(j) => {
                self.minters.set(j, (minter, status));
                proof {
                    assert forall|a: Address|
                        lookup(self.minters@, a) == (if a == minter {
                            Some(status)
                        } else {
                            lookup(before, a)
                        }) by {
                        lemma_lookup_update(before, j as int, minter, status, a);
                    }
                }
            },
            None => {
                self.minters.push((minter, status));
                proof {
                    assert forall|a: Address|
                        lookup(self.minters@, a) == (if a == minter {
                            Some(status)
                        } else {
                            lookup(before, a)
                        }) by {
                        lemma_lookup_push(before, minter, status, a);
                    }
                }
            },
        }
        Ok(MinterUpdated { minter, status })
    }

    /// Whether `a` may mint.
    fn check_minter(&self, a: &Address) -> (r: bool)
        ensures
            r == self.is_minter(*a),
    {
        match find_address(&self.minters, a) {
            Some(j) => self.minters[j].1,
            None => false,
        }
    }

    /// Burns token `token_id` on behalf of `sender`, who must hold it.
    pub fn burn(&mut self, sender: Address, token_id: Uint256) -> (r: Result<(), TokenError>)
        requires
            old(self).wf(),
        ensures
            final(self).wf(),
            r is Ok <==> (token_id@ < old(self).minted && sender != Address::null()
                && old(self).owners@[token_id@ as int] == sender),
            r is Err ==> r == Err::<(), TokenError>(TokenError::NotBurned) && *final(self)
                == *old(self),
            r is Ok ==> final(self).owners@ == old(self).owners@.update(
                token_id@ as int,
                Address::null(),
            ) && final(self).minted == old(self).minted && final(self).minters
                == old(self).minters && final(self).ownable == old(self).ownable
                && final(self).init == old(self).init,
    {
        if sender.is_zero() {
            return Err(TokenError::NotBurned);
        }
        if token_id.w1 != 0 || token_id.w2 != 0 || token_id.w3 != 0 || token_id.w0 >= self.minted {
            proof {
                if token_id@ < self.minted {
                    lemma_small_value(token_id);
                }
            }
            return Err(TokenError::NotBurned);
        }
        proof {
            assert(token_id@ == token_id.w0);
        }
        let n: usize = self.owners.len();
        assert(token_id.w0 < n);
        let id = token_id.w0 as usize;
        assert(id as int == token_id@);
        if self.owners[id] != sender {
            return Err(TokenError::NotBurned);
        }
        self.owners.set(id, Address::zero());
        Ok(())
    }

    /// Mints the next token to `to` on behalf of `sender`, who must be a
    /// minter, and returns its id, the supply before the call.
    pub fn mint(&mut self, sender: Address, to: Address) -> (r: Result<Uint256, SeabrickError>)
        requires
            old(self).wf(),
        ensures
            final(self).wf(),
            !old(self).is_minter(sender) ==> r == Err::<Uint256, SeabrickError>(
                SeabrickError::OnlyMinters,
            ),
            old(self).is_minter(sender) && (to == Address::null() || old(self).minted
                == u64::MAX) ==> r == Err::<Uint256, SeabrickError>(
                SeabrickError::Token(TokenError::NotMinted),
            ),
            old(self).is_minter(sender) && to != Address::null() && old(self).minted < u64::MAX
                ==> (r matches Ok(id) && id@ == old(self).minted),
            r is Ok ==> Seabrick::minted_to(*old(self), *final(self), to, 1),
            r is Err ==> *final(self) == *old(self),
    {
        if !self.check_minter(&sender) {
            return Err(SeabrickError::OnlyMinters);
        }
        if to.is_zero() || self.minted == u64::MAX {
            return Err(SeabrickError::Token(TokenError::NotMinted));
        }
        let id = Uint256::from_u64(self.minted);
        let ghost before = self.owners@;
        self.owners.push(to);
        self.minted = self.minted + 1;
        assert(self.owners@ =~= before + Seq::new(1, |i: int| to));
        Ok(id)
    }

    /// Mints `amount` tokens to `to` on behalf of `sender`, who must be a
    /// minter; their ids follow on from the supply before the call.
    pub fn mint_batch(&mut self, sender: Address, to: Address, amount: u8) -> (r: Result<
        (),
        SeabrickError,
    >)
        requires
            old(self).wf(),
        ensures
            final(self).wf(),
            !old(self).is_minter(sender) ==> r == Err::<(), SeabrickError>(
                SeabrickError::OnlyMinters,
            ),
            old(self).is_minter(sender) && (to == Address::null() || old(self).minted + amount
                > u64::MAX) ==> r == Err::<(), SeabrickError>(
                SeabrickError::Token(TokenError::NotMinted),
            ),
            old(self).is_minter(sender) && to != Address::null() && old(self).minted + amount
                <= u64::MAX ==> r == Ok::<(), SeabrickError>(()),
            r is Ok ==> Seabrick::minted_to(*old(self), *final(self), to, amount as nat),
            r is Err ==> *final(self) == *old(self),
    {
        if !self.check_minter(&sender) {
            return Err(SeabrickError::OnlyMinters);
        }
        if to.is_zero() || self.minted > u64::MAX - amount as u64 {
            return Err(SeabrickError::Token(TokenError::NotMinted));
        }
        let ghost before = *self;
        let mut i: u8 = 0;
        while i < amount
            invariant
                i <= amount,
                before.minted + amount <= u64::MAX,
                Seabrick::minted_to(before, *self, to, i as nat),
            decreases amount - i,
        {
            self.owners.push(to);
            self.minted = self.minted + 1;
            assert(self.owners@ =~= before.owners@ + Seq::new((i + 1) as nat, |k: int| to));
            i = i + 1;
        }
        Ok(())
    }
}

} // verus!
