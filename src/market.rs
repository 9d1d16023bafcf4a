//! The marketplace: aggregator registry, pricing and settlement of sales.
//!
//! Funds accrue per payment token in a ledger until the owner claims them,
//! and every minted unit gets a receipt that carries the full payment of its
//! purchase. The owner is resolved through a shared ownership contract (see
//! `delegation`).
//!
//! A purchase runs in steps, the host making the calls in between:
//! `buy` opens it; the host reads the oracle's answer and both precisions and
//! `get_amount_price` prices it; the host pulls the payment and `pay` records
//! the outcome and says how to mint; the host mints and `receipts` lists one
//! receipt per unit. A claim is `claim`, which empties the ledger entry before
//! the payout, then `finish_claim` once the payout has been tried. A failed
//! step fails the whole transaction, and the host restores the state.

use crate::address::{Address, Bytes32};
use crate::delegation::{Ownable, OwnableError};
use crate::initialization::Initialization;
use crate::table::{balance, find_address, find_name, lemma_lookup_push, lemma_lookup_update, lookup};
use crate::seabrick::Seabrick;
use crate::pricing::{answer_is_positive, quote, quote_fits, total_cost};
use crate::uint::{modulus, Uint256};
use vstd::prelude::*;

verus! {

/// Why a market operation was refused.
#[derive(Clone, Copy, Debug, PartialEq, Eq, Structural)]
pub enum MarketError {
    /// The payment token refused to move the buyer's funds.
    PaymentFailed,
    /// The lists given to register aggregators differ in length.
    MismatchAggregators,
    /// The payment token refused to pay out the collected funds, or the
    /// market name is not registered.
    ClaimFailed,
    /// A price of zero was proposed.
    ZeroPrice,
    /// A purchase of no units was requested.
    ZeroAmount,
    /// The oracle gave no usable answer, or the market name is not registered.
    OracleCallFailed,
    /// An amount does not fit in 256 bits.
    Overflow,
    /// The market was already initialized.
    AlreadyInitialized,
    /// The caller is not the resolved owner.
    Unauthorized(Address),
}

/// Where one market's price comes from and what it is paid in.
#[derive(Clone, Copy, Debug, PartialEq, Eq, Structural)]
pub struct AggregatorInfo {
    /// The price oracle, quoting the token in USD.
    pub agregator_address: Address,
    /// The payment token.
    pub token: Address,
}

/// Record of a registered aggregator.
#[derive(Clone, Copy, Debug, PartialEq, Eq, Structural)]
pub struct AggregatorAdded {
    pub name: Bytes32,
    pub aggregator: Address,
    pub token: Address,
}

/// The registry entries that the lists `names`, `aggregators` and `tokens`
/// describe, in order.
pub open spec fn new_entries(
    names: Seq<Bytes32>,
    aggregators: Seq<Address>,
    tokens: Seq<Address>,
) -> Seq<(Bytes32, AggregatorInfo)> {
    Seq::new(
        names.len(),
        |j: int| (names[j], AggregatorInfo { agregator_address: aggregators[j], token: tokens[j] }),
    )
}

/// The records of a registration, one per entry, in order.
pub open spec fn added_records(
    names: Seq<Bytes32>,
    aggregators: Seq<Address>,
    tokens: Seq<Address>,
) -> Seq<AggregatorAdded> {
    Seq::new(
        names.len(),
        |j: int| AggregatorAdded { name: names[j], aggregator: aggregators[j], token: tokens[j] },
    )
}

/// The market's state.
#[derive(Clone, Debug)]
pub struct Market {
    /// USD price of one unit.
    pub price: Uint256,
    /// The NFT collection on sale.
    pub nft_token: Address,
    /// Aggregator registry, keyed by the hash of a market name.
    pub price_feeds: Vec<(Bytes32, AggregatorInfo)>,
    /// Funds collected and not yet claimed, per payment token.
    pub total_collected: Vec<(Address, Uint256)>,
    pub init: Initialization,
    pub ownable: Ownable,
}

impl Market {
    /// The registry entry of `name`.
    pub open spec fn feed(&self, name: Bytes32) -> Option<AggregatorInfo> {
        lookup(self.price_feeds@, name)
    }

    /// What the ledger holds for `token`.
    pub open spec fn collected(&self, token: Address) -> nat {
        balance(self.total_collected@, token)
    }

    /// `post` is `pre` with the lists registered and nothing else changed.
    pub open spec fn registered(
        pre: Market,
        post: Market,
        names: Seq<Bytes32>,
        aggregators: Seq<Address>,
        tokens: Seq<Address>,
    ) -> bool {
        &&& forall|q: Bytes32|
            post.feed(q) == lookup(pre.price_feeds@ + new_entries(names, aggregators, tokens), q)
        &&& post.total_collected == pre.total_collected
        &&& post.price == pre.price
        &&& post.nft_token == pre.nft_token
        &&& post.init == pre.init
        &&& post.ownable == pre.ownable
    }

    /// What `initialization` does from `pre`.
    pub open spec fn initialization_post(
        pre: Market,
        ownership: Address,
        price: Uint256,
        nft_token: Address,
        names: Seq<Bytes32>,
        aggregators: Seq<Address>,
        tokens: Seq<Address>,
        post: Market,
        r: Result<Vec<AggregatorAdded>, MarketError>,
    ) -> bool {
        if pre.init.is_init {
            r == Err::<Vec<AggregatorAdded>, MarketError>(MarketError::AlreadyInitialized)
                && post == pre
        } else if price@ == 0 {
            r == Err::<Vec<AggregatorAdded>, MarketError>(MarketError::ZeroPrice) && post == pre
        } else if names.len() != aggregators.len() || names.len() != tokens.len() {
            r == Err::<Vec<AggregatorAdded>, MarketError>(MarketError::MismatchAggregators)
                && post == pre
        } else {
            &&& r matches Ok(events) && events@ == added_records(names, aggregators, tokens)
            &&& post.init.is_init
            &&& post.ownable.ownership == ownership
            &&& post.price == price
            &&& post.nft_token == nft_token
            &&& forall|q: Bytes32|
                post.feed(q) == lookup(pre.price_feeds@ + new_entries(names, aggregators, tokens), q)
            &&& post.total_collected == pre.total_collected
        }
    }

    /// A market that has not been initialized.
    pub fn new() -> (r: Market)
        ensures
            !r.init.is_init,
            r.price_feeds@.len() == 0,
            r.total_collected@.len() == 0,
    {
        Market {
            price: Uint256::zero(),
            nft_token: Address::zero(),
            price_feeds: Vec::new(),
            total_collected: Vec::new(),
            init: Initialization::new(),
            ownable: Ownable::new(Address::zero()),
        }
    }

    /// Registers one aggregator per position of the three lists, a later
    /// position overriding an earlier one of the same name, and returns one
    /// record per position. Lists of different lengths are refused and
    /// nothing is stored.
    pub fn set_aggregators_internal(
        &mut self,
        names: Vec<Bytes32>,
        agregators: Vec<Address>,
        tokens: Vec<Address>,
    ) -> (r: Result<Vec<AggregatorAdded>, MarketError>)
        ensures
            names@.len() != agregators@.len() || names@.len() != tokens@.len() ==> r == Err::<
                Vec<AggregatorAdded>,
                MarketError,
            >(MarketError::MismatchAggregators) && *final(self) == *old(self),
            names@.len() == agregators@.len() && names@.len() == tokens@.len() ==> (r matches Ok(
                events,
            ) && events@ == added_records(names@, agregators@, tokens@)
                && Market::registered(*old(self), *final(self), names@, agregators@, tokens@)),
    {
        if names.len() != agregators.len() || names.len() != tokens.len() {
            return Err(MarketError::MismatchAggregators);
        }
        let ghost pre = self.price_feeds@;
        let ghost added = new_entries(names@, agregators@, tokens@);
        let mut events: Vec<AggregatorAdded> = Vec::new();
        let mut i: usize = 0;
        while i < names.len()
            invariant
                names@.len() == agregators@.len(),
                names@.len() == tokens@.len(),
                added == new_entries(names@, agregators@, tokens@),
                i <= names@.len(),
                forall|q: Bytes32| lookup(self.price_feeds@, q) == lookup(pre + added.take(i as int), q),
                events@ == added_records(names@, agregators@, tokens@).take(i as int),
                self.total_collected == old(self).total_collected,
                self.price == old(self).price,
                self.nft_token == old(self).nft_token,
                self.init == old(self).init,
                self.ownable == old(self).ownable,
            decreases names@.len() - i,
        {
            let name = names[i];
            let info = AggregatorInfo { agregator_address: agregators[i], token: tokens[i] };
            let ghost before = self.price_feeds@;
            match find_name(&self.price_feeds, &name) {
                Some(j) => {
                    self.price_feeds.set(j, (name, info));
                    proof {
                        assert forall|q: Bytes32|
                            lookup(self.price_feeds@, q) == (if q == name {
                                Some(info)
                            } else {
                                lookup(before, q)
                            }) by {
                            lemma_lookup_update(before, j as int, name, info, q);
                        }
                    }
                },
                None => {
                    self.price_feeds.push((name, info));
                    proof {
                        assert forall|q: Bytes32|
                            lookup(self.price_feeds@, q) == (if q == name {
                                Some(info)
                            } else {
                                lookup(before, q)
                            }) by {
                            lemma_lookup_push(before, name, info, q);
                        }
                    }
                },
            }
            proof {
                assert(pre + added.take(i + 1) =~= (pre + added.take(i as int)).push(added[i as int]));
                assert forall|q: Bytes32|
                    lookup(self.price_feeds@, q) == lookup(pre + added.take(i + 1), q) by {
                    lemma_lookup_push(pre + added.take(i as int), name, info, q);
                }
            }
            events.push(AggregatorAdded { name, aggregator: agregators[i], token: tokens[i] });
            proof {
                assert(events@ =~= added_records(names@, agregators@, tokens@).take(i + 1));
            }
            i = i + 1;
        }
        proof {
            assert(added.take(i as int) =~= added);
            assert(events@ =~= added_records(names@, agregators@, tokens@));
        }
        Ok(events)
    }

    /// One-shot setup: the ownership contract, the unit price, the NFT
    /// collection and the first aggregators. Refused once initialized, for a
    /// zero price, and for lists of different lengths; a refusal changes
    /// nothing.
    pub fn initialization(
        &mut self,
        ownership: Address,
        price: Uint256,
        nft_token: Address,
        names: Vec<Bytes32>,
        agregators: Vec<Address>,
        tokens: Vec<Address>,
    ) -> (r: Result<Vec<AggregatorAdded>, MarketError>)
        ensures
            Market::initialization_post(
                *old(self),
                ownership,
                price,
                nft_token,
                names@,
                agregators@,
                tokens@,
                *final(self),
                r,
            ),
    {
        if self.init._check_init().is_err() {
            return Err(MarketError::AlreadyInitialized);
        }
        if price.is_zero() {
            return Err(MarketError::ZeroPrice);
        }
        if names.len() != agregators.len() || names.len() != tokens.len() {
            return Err(MarketError::MismatchAggregators);
        }
        let events = self.set_aggregators_internal(names, agregators, tokens);
        let ghost registered = *self;
        self.ownable.set_ownership_contract(ownership);
        self.price = price;
        self.nft_token = nft_token;
        self.init._set_init(true);
        assert forall|q: Bytes32|
            self.feed(q) == lookup(
                old(self).price_feeds@ + new_entries(names@, agregators@, tokens@),
                q,
            ) by {
            assert(registered.feed(q) == self.feed(q));
        }
        events
    }

    /// `set_aggregators_internal` on behalf of `sender`, who must be the
    /// owner that the ownership contract resolved to.
    pub fn set_agregators(
        &mut self,
        sender: Address,
        resolved_owner: Address,
        names: Vec<Bytes32>,
        agregators: Vec<Address>,
        tokens: Vec<Address>,
    ) -> (r: Result<Vec<AggregatorAdded>, MarketError>)
        ensures
            sender != resolved_owner ==> r == Err::<Vec<AggregatorAdded>, MarketError>(
                MarketError::Unauthorized(sender),
            ) && *final(self) == *old(self),
            sender == resolved_owner && (names@.len() != agregators@.len() || names@.len()
                != tokens@.len()) ==> r == Err::<Vec<AggregatorAdded>, MarketError>(
                MarketError::MismatchAggregators,
            ) && *final(self) == *old(self),
            sender == resolved_owner && names@.len() == agregators@.len() && names@.len()
                == tokens@.len() ==> (r matches Ok(events) && events@ == added_records(
                names@,
                agregators@,
                tokens@,
            ) && Market::registered(*old(self), *final(self), names@, agregators@, tokens@)),
    {
        if self.ownable.only_owner(sender, resolved_owner).is_err() {
            return Err(MarketError::Unauthorized(sender));
        }
        self.set_aggregators_internal(names, agregators, tokens)
    }

    /// Sets the unit price on behalf of `sender`, who must be the resolved
    /// owner; zero is refused.
    pub fn set_price(&mut self, sender: Address, resolved_owner: Address, price: Uint256) -> (r:
        Result<(), MarketError>)
        ensures
            sender != resolved_owner ==> r == Err::<(), MarketError>(
                MarketError::Unauthorized(sender),
            ),
            sender == resolved_owner && price@ == 0 ==> r == Err::<(), MarketError>(
                MarketError::ZeroPrice,
            ),
            sender == resolved_owner && price@ != 0 ==> r == Ok::<(), MarketError>(())
                && *final(self) == (Market { price, ..*old(self) }),
            r is Err ==> *final(self) == *old(self),
    {
        if self.ownable.only_owner(sender, resolved_owner).is_err() {
            return Err(MarketError::Unauthorized(sender));
        }
        if price.is_zero() {
            return Err(MarketError::ZeroPrice);
        }
        self.price = price;
        Ok(())
    }

    /// The NFT collection on sale.
    pub fn _get_nft_token(&self) -> (r: Address)
        ensures
            r == self.nft_token,
    {
        self.nft_token
    }

    /// The payment token of market `name`; the null address where the name
    /// is not registered.
    pub fn _get_payment_token(&self, name: &Bytes32) -> (r: Address)
        ensures
            r == match self.feed(*name) {
                Some(info) => info.token,
                None => Address::null(),
            },
    {
        match find_name(&self.price_feeds, name) {
            Some(j) => self.price_feeds[j].1.token,
            None => Address::zero(),
        }
    }

    /// The ownership contract that resolves the owner.
    pub fn ownership_contract(&self) -> (r: Address)
        ensures
            r == self.ownable.ownership,
    {
        self.ownable.ownership_contract()
    }

    /// Moves the delegation of ownership; see `Ownable::change_ownership_contract`.
    pub fn change_ownership_contract(
        &mut self,
        sender: Address,
        current_owner: Address,
        new_address: Address,
        target_owner: Address,
    ) -> (r: Result<(), OwnableError>)
        ensures
            sender != current_owner ==> r == Err::<(), OwnableError>(
                OwnableError::UnauthorizedAccount(sender),
            ),
            sender == current_owner && target_owner != current_owner ==> r == Err::<
                (),
                OwnableError,
            >(OwnableError::InvalidOwnership(new_address)),
            sender == current_owner && target_owner == current_owner ==> r == Ok::<
                (),
                OwnableError,
            >(()) && *final(self) == (Market {
                ownable: Ownable { ownership: new_address },
                ..*old(self)
            }),
            r is Err ==> *final(self) == *old(self),
    {
        self.ownable.change_ownership_contract(sender, current_owner, new_address, target_owner)
    }
}

/// A purchase under way: who buys, on which market, how many units, and the
/// oracle and payment token that the market's entry names.
#[derive(Clone, Copy, Debug, PartialEq, Eq, Structural)]
pub struct BuyOrder {
    pub buyer: Address,
    pub name: Bytes32,
    pub unit_count: u8,
    pub oracle: Address,
    pub token: Address,
}

/// How the units of a paid purchase are to be minted.
#[derive(Clone, Copy, Debug, PartialEq, Eq, Structural)]
pub enum MintRequest {
    /// Mint one token to `to`; the collection answers with its id.
    Single { nft: Address, to: Address },
    /// Read the collection's total supply, which is the id of the first new
    /// token, then mint `count` tokens to `to` in one batch.
    Batch { nft: Address, to: Address, count: u8 },
}

/// Receipt of one sold unit, with the payment of the whole purchase.
#[derive(Clone, Copy, Debug, PartialEq, Eq, Structural)]
pub struct Buy {
    pub buyer: Address,
    pub id: Uint256,
    pub amount_spent: Uint256,
    pub aggregator: Bytes32,
}

/// A payout that the payment token is to make.
#[derive(Clone, Copy, Debug, PartialEq, Eq, Structural)]
pub struct ClaimTransfer {
    pub token: Address,
    pub to: Address,
    pub amount: Uint256,
}

/// Receipt of a completed claim.
#[derive(Clone, Copy, Debug, PartialEq, Eq, Structural)]
pub struct Claimed {
    pub token: Address,
    pub amount: Uint256,
    pub aggregator: Bytes32,
}

/// The minting that a paid order asks of the collection `nft`.
pub open spec fn mint_request_for(nft: Address, order: BuyOrder) -> MintRequest {
    if order.unit_count == 1 {
        MintRequest::Single { nft, to: order.buyer }
    } else {
        MintRequest::Batch { nft, to: order.buyer, count: order.unit_count }
    }
}

/// `post` is `pre` with `amount` more in the ledger for `token` and nothing
/// else changed.
pub open spec fn ledger_credited(pre: Market, post: Market, token: Address, amount: nat) -> bool {
    &&& post.collected(token) == pre.collected(token) + amount
    &&& forall|t: Address| t != token ==> post.collected(t) == pre.collected(t)
    &&& post.price_feeds == pre.price_feeds
    &&& post.price == pre.price
    &&& post.nft_token == pre.nft_token
    &&& post.init == pre.init
    &&& post.ownable == pre.ownable
}

/// `post` is `pre` with nothing in the ledger for `token` and nothing else
/// changed.
pub open spec fn ledger_cleared(pre: Market, post: Market, token: Address) -> bool {
    &&& post.collected(token) == 0
    &&& forall|t: Address| t != token ==> post.collected(t) == pre.collected(t)
    &&& post.price_feeds == pre.price_feeds
    &&& post.price == pre.price
    &&& post.nft_token == pre.nft_token
    &&& post.init == pre.init
    &&& post.ownable == pre.ownable
}

/// What `pay` does from `pre`.
pub open spec fn pay_post(
    pre: Market,
    order: BuyOrder,
    amount_needed: nat,
    paid: bool,
    post: Market,
    r: Result<MintRequest, MarketError>,
) -> bool {
    if !paid {
        r == Err::<MintRequest, MarketError>(MarketError::PaymentFailed) && post == pre
    } else if pre.collected(order.token) + amount_needed >= modulus() {
        r == Err::<MintRequest, MarketError>(MarketError::Overflow) && post == pre
    } else {
        r == Ok::<MintRequest, MarketError>(mint_request_for(pre.nft_token, order))
            && ledger_credited(pre, post, order.token, amount_needed)
    }
}

/// What `receipts` answers.
pub open spec fn receipts_post(
    order: BuyOrder,
    first_id: Uint256,
    amount_needed: Uint256,
    r: Result<Vec<Buy>, MarketError>,
) -> bool {
    if order.unit_count > 0 && first_id@ + order.unit_count - 1 >= modulus() {
        r == Err::<Vec<Buy>, MarketError>(MarketError::Overflow)
    } else {
        &&& r matches Ok(v)
        &&& r->Ok_0@.len() == order.unit_count
        &&& forall|i: int|
            0 <= i < r->Ok_0@.len() ==> r->Ok_0@[i].id@ == first_id@ + i && r->Ok_0@[i].buyer
                == order.buyer && r->Ok_0@[i].amount_spent == amount_needed
                && r->Ok_0@[i].aggregator == order.name
    }
}

/// What `claim` does from `pre`.
pub open spec fn claim_post(
    pre: Market,
    sender: Address,
    resolved_owner: Address,
    name: Bytes32,
    post: Market,
    r: Result<ClaimTransfer, MarketError>,
) -> bool {
    if sender != resolved_owner {
        r == Err::<ClaimTransfer, MarketError>(MarketError::Unauthorized(sender)) && post == pre
    } else {
        match pre.feed(name) {
            None => r == Err::<ClaimTransfer, MarketError>(MarketError::ClaimFailed) && post == pre,
            Some(info) => {
                &&& r matches Ok(t) && t.token == info.token && t.to == sender && t.amount@
                    == pre.collected(info.token)
                &&& ledger_cleared(pre, post, info.token)
            },
        }
    }
}

impl Market {
    /// Opens a purchase of `unit_count` units on market `name` for `buyer`.
    /// No units is `ZeroAmount`; a name without an entry has no oracle to
    /// ask, which is `OracleCallFailed`.
    pub fn buy(&self, buyer: Address, name: Bytes32, unit_count: u8) -> (r: Result<
        BuyOrder,
        MarketError,
    >)
        ensures
            unit_count == 0 ==> r == Err::<BuyOrder, MarketError>(MarketError::ZeroAmount),
            unit_count > 0 && self.feed(name) is None ==> r == Err::<BuyOrder, MarketError>(
                MarketError::OracleCallFailed,
            ),
            unit_count > 0 && self.feed(name) is Some ==> r == Ok::<BuyOrder, MarketError>(
                BuyOrder {
                    buyer,
                    name,
                    unit_count,
                    oracle: self.feed(name)->Some_0.agregator_address,
                    token: self.feed(name)->Some_0.token,
                },
            ),
    {
        if unit_count == 0 {
            return Err(MarketError::ZeroAmount);
        }
        match find_name(&self.price_feeds, &name) {
            Some(j) => {
                let info = self.price_feeds[j].1;
                Ok(
                    BuyOrder {
                        buyer,
                        name,
                        unit_count,
                        oracle: info.agregator_address,
                        token: info.token,
                    },
                )
            },
            None => Err(MarketError::OracleCallFailed),
        }
    }

    /// The payment for `amount` units at the market's price, from the
    /// oracle's raw answer and the precisions of the oracle and of the
    /// payment token (see `pricing::quote`).
    pub fn get_amount_price(
        &self,
        amount: u8,
        answer: &Uint256,
        oracle_decimals: u8,
        token_decimals: u8,
    ) -> (r: Result<Uint256, MarketError>)
        ensures
            !answer_is_positive(answer@) ==> r == Err::<Uint256, MarketError>(
                MarketError::OracleCallFailed,
            ),
            answer_is_positive(answer@) && !quote_fits(
                self.price@,
                answer@,
                token_decimals as nat,
                oracle_decimals as nat,
                amount as nat,
            ) ==> r == Err::<Uint256, MarketError>(MarketError::Overflow),
            answer_is_positive(answer@) && quote_fits(
                self.price@,
                answer@,
                token_decimals as nat,
                oracle_decimals as nat,
                amount as nat,
            ) ==> (r matches Ok(v) && v@ == total_cost(
                self.price@,
                answer@,
                token_decimals as nat,
                oracle_decimals as nat,
                amount as nat,
            )),
    {
        quote(&self.price, answer, oracle_decimals, token_decimals, amount)
    }

    /// Records the outcome of pulling `amount_needed` of the order's token
    /// from the buyer. A refused transfer is `PaymentFailed`; a paid one is
    /// credited to the ledger and answered with the minting to do.
    pub fn pay(&mut self, order: &BuyOrder, amount_needed: &Uint256, paid: bool) -> (r: Result<
        MintRequest,
        MarketError,
    >)
        ensures
            pay_post(*old(self), *order, amount_needed@, paid, *final(self), r),
    {
        if !paid {
            return Err(MarketError::PaymentFailed);
        }
        let ghost before = self.total_collected@;
        let found = find_address(&self.total_collected, &order.token);
        let current = match found {
            Some(j) => self.total_collected[j].1,
            None => Uint256::zero(),
        };
        let sum = match current.checked_add(amount_needed) {
            Some(v) => v,
            None => return Err(MarketError::Overflow),
        };
        match found {
            Some(j) => {
                self.total_collected.set(j, (order.token, sum));
                proof {
                    assert forall|t: Address|
                        lookup(self.total_collected@, t) == (if t == order.token {
                            Some(sum)
                        } else {
                            lookup(before, t)
                        }) by {
                        lemma_lookup_update(before, j as int, order.token, sum, t);
                    }
                }
            },
            None => {
                self.total_collected.push((order.token, sum));
                proof {
                    assert forall|t: Address|
                        lookup(self.total_collected@, t) == (if t == order.token {
                            Some(sum)
                        } else {
                            lookup(before, t)
                        }) by {
                        lemma_lookup_push(before, order.token, sum, t);
                    }
                }
            },
        }
        let request = if order.unit_count == 1 {
            MintRequest::Single { nft: self.nft_token, to: order.buyer }
        } else {
            MintRequest::Batch { nft: self.nft_token, to: order.buyer, count: order.unit_count }
        };
        Ok(request)
    }

    /// One receipt per unit of a paid order, with ids counting up from
    /// `first_id`: the id that the collection gave a single token, or its
    /// total supply before a batch. Ids that would not fit in 256 bits are
    /// `Overflow`.
    pub fn receipts(order: &BuyOrder, first_id: &Uint256, amount_needed: &Uint256) -> (r: Result<
        Vec<Buy>,
        MarketError,
    >)
        ensures
            receipts_post(*order, *first_id, *amount_needed, r),
    {
        let mut out: Vec<Buy> = Vec::new();
        if order.unit_count == 0 {
            return Ok(out);
        }
        if first_id.checked_add(&Uint256::from_u64((order.unit_count - 1) as u64)).is_none() {
            return Err(MarketError::Overflow);
        }
        let mut i: u8 = 0;
        while i < order.unit_count
            invariant
                first_id@ + order.unit_count - 1 < modulus(),
                i <= order.unit_count,
                out@.len() == i,
                forall|k: int|
                    0 <= k < i ==> out@[k].id@ == first_id@ + k && out@[k].buyer == order.buyer
                        && out@[k].amount_spent == *amount_needed && out@[k].aggregator
                        == order.name,
            decreases order.unit_count - i,
        {
            let id = match first_id.checked_add(&Uint256::from_u64(i as u64)) {
                Some(v) => v,
                None => return Err(MarketError::Overflow),
            };
            out.push(
                Buy { buyer: order.buyer, id, amount_spent: *amount_needed, aggregator: order.name },
            );
            i = i + 1;
        }
        Ok(out)
    }

    /// Takes everything that the ledger holds for the payment token of
    /// market `name`, on behalf of `sender`, who must be the resolved owner.
    /// The ledger is zeroed here, before the payout is made, so that a
    /// claim made while the payout runs finds nothing. A name without an
    /// entry is `ClaimFailed`.
    pub fn claim(&mut self, sender: Address, resolved_owner: Address, name: Bytes32) -> (r: Result<
        ClaimTransfer,
        MarketError,
    >)
        ensures
            claim_post(*old(self), sender, resolved_owner, name, *final(self), r),
    {
        if self.ownable.only_owner(sender, resolved_owner).is_err() {
            return Err(MarketError::Unauthorized(sender));
        }
        let token = match find_name(&self.price_feeds, &name) {
            Some(j) => self.price_feeds[j].1.token,
            None => return Err(MarketError::ClaimFailed),
        };
        let ghost before = self.total_collected@;
        match find_address(&self.total_collected, &token) {
            Some(j) => {
                let amount = self.total_collected[j].1;
                let zero = Uint256::zero();
                self.total_collected.set(j, (token, zero));
                proof {
                    assert forall|t: Address|
                        lookup(self.total_collected@, t) == (if t == token {
                            Some(zero)
                        } else {
                            lookup(before, t)
                        }) by {
                        lemma_lookup_update(before, j as int, token, zero, t);
                    }
                }
                Ok(ClaimTransfer { token, to: sender, amount })
            },
            None => Ok(ClaimTransfer { token, to: sender, amount: Uint256::zero() }),
        }
    }

    /// The receipt of a claim once the payment token has answered whether
    /// it paid out; a refusal is `ClaimFailed`.
    pub fn finish_claim(name: Bytes32, transfer: &ClaimTransfer, success: bool) -> (r: Result<
        Claimed,
        MarketError,
    >)
        ensures
            !success ==> r == Err::<Claimed, MarketError>(MarketError::ClaimFailed),
            success ==> r == Ok::<Claimed, MarketError>(
                Claimed { token: transfer.token, amount: transfer.amount, aggregator: name },
            ),
    {
        if !success {
            return Err(MarketError::ClaimFailed);
        }
        Ok(Claimed { token: transfer.token, amount: transfer.amount, aggregator: name })
    }
}

/// A second initialization of an initialized market fails with
/// `AlreadyInitialized`, whatever its arguments, and changes nothing.
pub proof fn initialization_is_one_shot(
    m0: Market,
    m1: Market,
    m2: Market,
    ownership1: Address,
    price1: Uint256,
    nft1: Address,
    names1: Seq<Bytes32>,
    aggregators1: Seq<Address>,
    tokens1: Seq<Address>,
    r1: Result<Vec<AggregatorAdded>, MarketError>,
    ownership2: Address,
    price2: Uint256,
    nft2: Address,
    names2: Seq<Bytes32>,
    aggregators2: Seq<Address>,
    tokens2: Seq<Address>,
    r2: Result<Vec<AggregatorAdded>, MarketError>,
)
    requires
        Market::initialization_post(
            m0,
            ownership1,
            price1,
            nft1,
            names1,
            aggregators1,
            tokens1,
            m1,
            r1,
        ),
        r1 is Ok,
        Market::initialization_post(
            m1,
            ownership2,
            price2,
            nft2,
            names2,
            aggregators2,
            tokens2,
            m2,
            r2,
        ),
    ensures
        r2 == Err::<Vec<AggregatorAdded>, MarketError>(MarketError::AlreadyInitialized),
        m2 == m1,
{
}

/// A claim right after a successful claim on the same market, by the same
/// owner, succeeds and pays out nothing.
pub proof fn second_claim_pays_nothing(
    m0: Market,
    m1: Market,
    m2: Market,
    sender: Address,
    resolved_owner: Address,
    name: Bytes32,
    r1: Result<ClaimTransfer, MarketError>,
    r2: Result<ClaimTransfer, MarketError>,
)
    requires
        claim_post(m0, sender, resolved_owner, name, m1, r1),
        r1 is Ok,
        claim_post(m1, sender, resolved_owner, name, m2, r2),
    ensures
        r2 matches Ok(t) && t.amount@ == 0 && t.token == r1->Ok_0.token,
        m2.collected(r1->Ok_0.token) == 0,
{
    assert(m1.feed(name) == m0.feed(name));
}

/// A claim that runs while a purchase is pulling its payment (a payment
/// token that calls back into the market) finds only what was collected
/// before the purchase. The payment is credited after it, so that claim and
/// the next one together pay out exactly the earlier balance plus the
/// payment, and the ledger is empty afterwards.
pub proof fn reentrant_claim_pays_each_amount_once(
    m0: Market,
    m1: Market,
    m2: Market,
    m3: Market,
    order: BuyOrder,
    amount_needed: Uint256,
    sender: Address,
    resolved_owner: Address,
    r1: Result<ClaimTransfer, MarketError>,
    r2: Result<MintRequest, MarketError>,
    r3: Result<ClaimTransfer, MarketError>,
)
    requires
        m0.feed(order.name) matches Some(info) && info.token == order.token,
        claim_post(m0, sender, resolved_owner, order.name, m1, r1),
        r1 is Ok,
        pay_post(m1, order, amount_needed@, true, m2, r2),
        r2 is Ok,
        claim_post(m2, sender, resolved_owner, order.name, m3, r3),
    ensures
        r1->Ok_0.amount@ == m0.collected(order.token),
        r3 matches Ok(t) && t.amount@ == amount_needed@ && r1->Ok_0.amount@ + t.amount@
            == m0.collected(order.token) + amount_needed@,
        m3.collected(order.token) == 0,
{
    assert(m1.feed(order.name) == m0.feed(order.name));
    assert(m2.feed(order.name) == m0.feed(order.name));
}

/// A paid purchase of several units asks the collection for one batch of
/// exactly that many tokens; when the collection mints them after its
/// supply `nft_before.minted`, the purchase's receipts are one per unit and
/// name exactly the new tokens, each held by the buyer.
pub proof fn batch_receipts_name_the_minted_tokens(
    m0: Market,
    m1: Market,
    order: BuyOrder,
    amount_needed: Uint256,
    r_pay: Result<MintRequest, MarketError>,
    nft_before: Seabrick,
    nft_after: Seabrick,
    first_id: Uint256,
    r_receipts: Result<Vec<Buy>, MarketError>,
)
    requires
        order.unit_count > 1,
        pay_post(m0, order, amount_needed@, true, m1, r_pay),
        r_pay is Ok,
        nft_before.wf(),
        Seabrick::minted_to(nft_before, nft_after, order.buyer, order.unit_count as nat),
        first_id@ == nft_before.owners@.len(),
        receipts_post(order, first_id, amount_needed, r_receipts),
    ensures
        r_pay == Ok::<MintRequest, MarketError>(
            MintRequest::Batch { nft: m0.nft_token, to: order.buyer, count: order.unit_count },
        ),
        nft_after.owners@.len() == nft_before.owners@.len() + order.unit_count,
        r_receipts matches Ok(v) && v@.len() == order.unit_count && forall|i: int|
            0 <= i < v@.len() ==> v@[i].id@ == nft_before.owners@.len() + i
                && nft_after.owners@[v@[i].id@ as int] == order.buyer,
{
    assert(first_id@ + order.unit_count - 1 < modulus()) by {
        assert(modulus() > 0x1_0000_0000_0000_0000 * 2) by (nonlinear_arith)
            requires
                modulus() == 0x1_0000_0000_0000_0000nat * 0x1_0000_0000_0000_0000nat
                    * 0x1_0000_0000_0000_0000nat * 0x1_0000_0000_0000_0000nat,
        ;
    }
}

} // verus!
