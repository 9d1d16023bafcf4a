use seabrick_market::address::{Address, Bytes32};
use seabrick_market::market::{AggregatorAdded, Market, MarketError, MintRequest};
use seabrick_market::seabrick::Seabrick;
use seabrick_market::uint::Uint256;

fn addr(n: u64) -> Address {
    Address { hi: 0, mid: 0, lo: n }
}

fn name(n: u64) -> Bytes32 {
    Bytes32 { w0: n, w1: 0, w2: 0, w3: 0 }
}

fn num(x: u64) -> Uint256 {
    Uint256::from_u64(x)
}

const OWNER: u64 = 7;
const OWNERSHIP: u64 = 8;
const NFT: u64 = 9;
const ORACLE: u64 = 20;
const TOKEN: u64 = 30;
const BUYER: u64 = 40;

fn ready_market() -> Market {
    let mut m = Market::new();
    let r = m.initialization(
        addr(OWNERSHIP),
        num(100),
        addr(NFT),
        vec![name(1)],
        vec![addr(ORACLE)],
        vec![addr(TOKEN)],
    );
    assert!(r.is_ok());
    m
}

#[test]
fn initialization_registers_everything() {
    let mut m = Market::new();
    let events = m
        .initialization(
            addr(OWNERSHIP),
            num(100),
            addr(NFT),
            vec![name(1), name(2)],
            vec![addr(ORACLE), addr(ORACLE + 1)],
            vec![addr(TOKEN), addr(TOKEN + 1)],
        )
        .unwrap();
    assert_eq!(events.len(), 2);
    assert_eq!(
        events[1],
        AggregatorAdded { name: name(2), aggregator: addr(ORACLE + 1), token: addr(TOKEN + 1) }
    );
    assert_eq!(m.price, num(100));
    assert_eq!(m._get_nft_token(), addr(NFT));
    assert_eq!(m.ownership_contract(), addr(OWNERSHIP));
    assert_eq!(m._get_payment_token(&name(2)), addr(TOKEN + 1));
    assert_eq!(m._get_payment_token(&name(3)), Address::zero());
    assert!(m.init.is_init);
}

#[test]
fn second_initialization_fails() {
    let mut m = ready_market();
    let before = m.clone();
    let r = m.initialization(addr(1), num(5), addr(2), vec![], vec![], vec![]);
    assert_eq!(r, Err(MarketError::AlreadyInitialized));
    assert_eq!(m.price, before.price);
    assert_eq!(m.nft_token, before.nft_token);
    assert_eq!(m.ownership_contract(), addr(OWNERSHIP));
}

#[test]
fn initialization_refuses_zero_price() {
    let mut m = Market::new();
    let r = m.initialization(addr(OWNERSHIP), num(0), addr(NFT), vec![], vec![], vec![]);
    assert_eq!(r, Err(MarketError::ZeroPrice));
    assert!(!m.init.is_init);
}

#[test]
fn mismatched_aggregator_lists_store_nothing() {
    let mut m = ready_market();
    let r = m.set_agregators(
        addr(OWNER),
        addr(OWNER),
        vec![name(5), name(6), name(7)],
        vec![addr(1), addr(2)],
        vec![addr(3), addr(4), addr(5)],
    );
    assert_eq!(r, Err(MarketError::MismatchAggregators));
    assert_eq!(m.price_feeds.len(), 1);
    assert_eq!(m._get_payment_token(&name(5)), Address::zero());
}

#[test]
fn mismatched_lists_at_initialization() {
    let mut m = Market::new();
    let r = m.initialization(
        addr(OWNERSHIP),
        num(100),
        addr(NFT),
        vec![name(1), name(2), name(3)],
        vec![addr(1), addr(2)],
        vec![addr(3), addr(4), addr(5)],
    );
    assert_eq!(r, Err(MarketError::MismatchAggregators));
    assert!(!m.init.is_init);
    assert_eq!(m.price_feeds.len(), 0);
}

#[test]
fn set_aggregators_overwrites_and_keeps_order() {
    let mut m = ready_market();
    let events = m
        .set_agregators(
            addr(OWNER),
            addr(OWNER),
            vec![name(1), name(2), name(2)],
            vec![addr(51), addr(52), addr(53)],
            vec![addr(61), addr(62), addr(63)],
        )
        .unwrap();
    assert_eq!(events.len(), 3);
    assert_eq!(events[0].name, name(1));
    assert_eq!(events[2].token, addr(63));
    assert_eq!(m._get_payment_token(&name(1)), addr(61));
    assert_eq!(m._get_payment_token(&name(2)), addr(63));
}

#[test]
fn set_aggregators_requires_owner() {
    let mut m = ready_market();
    let r = m.set_agregators(addr(99), addr(OWNER), vec![name(5)], vec![addr(1)], vec![addr(2)]);
    assert_eq!(r, Err(MarketError::Unauthorized(addr(99))));
    assert_eq!(m._get_payment_token(&name(5)), Address::zero());
}

#[test]
fn set_price_rules() {
    let mut m = ready_market();
    assert_eq!(m.set_price(addr(99), addr(OWNER), num(3)), Err(MarketError::Unauthorized(addr(99))));
    assert_eq!(m.set_price(addr(OWNER), addr(OWNER), num(0)), Err(MarketError::ZeroPrice));
    assert_eq!(m.price, num(100));
    assert_eq!(m.set_price(addr(OWNER), addr(OWNER), num(250)), Ok(()));
    assert_eq!(m.price, num(250));
}

#[test]
fn pricing_example_per_unit() {
    let m = ready_market();
    let per_unit = m.get_amount_price(1, &num(200_000_000), 8, 6).unwrap();
    assert_eq!(per_unit, num(50_000_000));
}

#[test]
fn pricing_scales_with_units() {
    let m = ready_market();
    let total = m.get_amount_price(3, &num(200_000_000), 8, 6).unwrap();
    assert_eq!(total, num(150_000_000));
}

#[test]
fn pricing_rounds_up() {
    let m = ready_market();
    // 100 * 10^0 * 10^0 / 3 = 33.33.. -> 34
    assert_eq!(m.get_amount_price(1, &num(3), 0, 0).unwrap(), num(34));
    // exact division is not rounded
    assert_eq!(m.get_amount_price(2, &num(4), 0, 0).unwrap(), num(50));
}

#[test]
fn pricing_refuses_non_positive_answers() {
    let m = ready_market();
    assert_eq!(m.get_amount_price(1, &num(0), 8, 6), Err(MarketError::OracleCallFailed));
    let minus_one = Uint256 { w0: u64::MAX, w1: u64::MAX, w2: u64::MAX, w3: u64::MAX };
    assert_eq!(m.get_amount_price(1, &minus_one, 8, 6), Err(MarketError::OracleCallFailed));
    let most_negative = Uint256 { w0: 0, w1: 0, w2: 0, w3: 1 << 63 };
    assert_eq!(m.get_amount_price(1, &most_negative, 8, 6), Err(MarketError::OracleCallFailed));
    let largest_positive = Uint256 { w0: u64::MAX, w1: u64::MAX, w2: u64::MAX, w3: (1 << 63) - 1 };
    assert_eq!(m.get_amount_price(1, &largest_positive, 8, 6), Ok(num(1)));
}

#[test]
fn pricing_reports_overflow() {
    let m = ready_market();
    assert_eq!(m.get_amount_price(1, &num(1), 80, 0), Err(MarketError::Overflow));
    assert_eq!(m.get_amount_price(1, &num(1), 38, 38), Err(MarketError::Overflow));
}

#[test]
fn buy_of_zero_units_is_refused() {
    let m = ready_market();
    assert_eq!(m.buy(addr(BUYER), name(1), 0), Err(MarketError::ZeroAmount));
}

#[test]
fn buy_on_unknown_market_is_refused() {
    let m = ready_market();
    assert_eq!(m.buy(addr(BUYER), name(4), 1), Err(MarketError::OracleCallFailed));
}

#[test]
fn buy_single_unit() {
    let mut m = ready_market();
    let order = m.buy(addr(BUYER), name(1), 1).unwrap();
    assert_eq!(order.oracle, addr(ORACLE));
    assert_eq!(order.token, addr(TOKEN));
    let amount = m.get_amount_price(order.unit_count, &num(200_000_000), 8, 6).unwrap();
    let request = m.pay(&order, &amount, true).unwrap();
    assert_eq!(request, MintRequest::Single { nft: addr(NFT), to: addr(BUYER) });
    let receipts = Market::receipts(&order, &num(12), &amount).unwrap();
    assert_eq!(receipts.len(), 1);
    assert_eq!(receipts[0].id, num(12));
    assert_eq!(receipts[0].amount_spent, num(50_000_000));
    assert_eq!(receipts[0].buyer, addr(BUYER));
    assert_eq!(receipts[0].aggregator, name(1));
}

#[test]
fn batch_of_three_mints_three_consecutive_ids() {
    let mut m = ready_market();
    let mut nft = Seabrick::new();
    nft.initialization(addr(OWNER)).unwrap();
    nft.set_minter(addr(OWNER), addr(NFT), true).unwrap();
    nft.mint(addr(NFT), addr(1)).unwrap();
    nft.mint(addr(NFT), addr(2)).unwrap();
    let supply_before = nft.total_supply();
    assert_eq!(supply_before, num(2));

    let order = m.buy(addr(BUYER), name(1), 3).unwrap();
    let amount = m.get_amount_price(order.unit_count, &num(200_000_000), 8, 6).unwrap();
    let request = m.pay(&order, &amount, true).unwrap();
    let count = match request {
        MintRequest::Batch { nft: target, to, count } => {
            assert_eq!(target, addr(NFT));
            assert_eq!(to, addr(BUYER));
            count
        }
        MintRequest::Single { .. } => panic!("a purchase of three units mints in a batch"),
    };
    assert_eq!(count, 3);
    nft.mint_batch(addr(NFT), addr(BUYER), count).unwrap();
    assert_eq!(nft.total_supply(), num(5));
    let receipts = Market::receipts(&order, &supply_before, &amount).unwrap();
    assert_eq!(receipts.len(), 3);
    for (i, receipt) in receipts.iter().enumerate() {
        assert_eq!(receipt.id, num(2 + i as u64));
        assert_eq!(nft.owners[2 + i], addr(BUYER));
        assert_eq!(receipt.amount_spent, num(150_000_000));
    }
}

#[test]
fn receipts_refuse_ids_past_the_largest() {
    let m = ready_market();
    let order = m.buy(addr(BUYER), name(1), 2).unwrap();
    let max = Uint256 { w0: u64::MAX, w1: u64::MAX, w2: u64::MAX, w3: u64::MAX };
    assert_eq!(Market::receipts(&order, &max, &num(1)), Err(MarketError::Overflow));
    let one_below = Uint256 { w0: u64::MAX - 1, w1: u64::MAX, w2: u64::MAX, w3: u64::MAX };
    let receipts = Market::receipts(&order, &one_below, &num(1)).unwrap();
    assert_eq!(receipts[1].id, max);
}

#[test]
fn refused_payment_changes_nothing() {
    let mut m = ready_market();
    let order = m.buy(addr(BUYER), name(1), 1).unwrap();
    assert_eq!(m.pay(&order, &num(10), false), Err(MarketError::PaymentFailed));
    assert_eq!(m.total_collected.len(), 0);
}

#[test]
fn ledger_overflow_is_refused() {
    let mut m = ready_market();
    let order = m.buy(addr(BUYER), name(1), 1).unwrap();
    let max = Uint256 { w0: u64::MAX, w1: u64::MAX, w2: u64::MAX, w3: u64::MAX };
    m.pay(&order, &max, true).unwrap();
    assert_eq!(m.pay(&order, &num(1), true), Err(MarketError::Overflow));
    assert_eq!(m.total_collected, vec![(addr(TOKEN), max)]);
}

#[test]
fn payments_accumulate_and_claim_takes_all() {
    let mut m = ready_market();
    let order = m.buy(addr(BUYER), name(1), 1).unwrap();
    m.pay(&order, &num(10), true).unwrap();
    m.pay(&order, &num(15), true).unwrap();
    let transfer = m.claim(addr(OWNER), addr(OWNER), name(1)).unwrap();
    assert_eq!(transfer.token, addr(TOKEN));
    assert_eq!(transfer.to, addr(OWNER));
    assert_eq!(transfer.amount, num(25));
    let receipt = Market::finish_claim(name(1), &transfer, true).unwrap();
    assert_eq!(receipt.amount, num(25));
    assert_eq!(receipt.token, addr(TOKEN));
    assert_eq!(receipt.aggregator, name(1));
}

#[test]
fn second_claim_transfers_zero() {
    let mut m = ready_market();
    let order = m.buy(addr(BUYER), name(1), 1).unwrap();
    m.pay(&order, &num(10), true).unwrap();
    let first = m.claim(addr(OWNER), addr(OWNER), name(1)).unwrap();
    assert_eq!(first.amount, num(10));
    let second = m.claim(addr(OWNER), addr(OWNER), name(1)).unwrap();
    assert_eq!(second.amount, num(0));
    assert_eq!(Market::finish_claim(name(1), &second, true).unwrap().amount, num(0));
}

#[test]
fn claim_with_nothing_collected_transfers_zero() {
    let mut m = ready_market();
    let transfer = m.claim(addr(OWNER), addr(OWNER), name(1)).unwrap();
    assert_eq!(transfer.amount, num(0));
}

#[test]
fn claim_rules() {
    let mut m = ready_market();
    assert_eq!(m.claim(addr(99), addr(OWNER), name(1)), Err(MarketError::Unauthorized(addr(99))));
    assert_eq!(m.claim(addr(OWNER), addr(OWNER), name(4)), Err(MarketError::ClaimFailed));
    let t = m.claim(addr(OWNER), addr(OWNER), name(1)).unwrap();
    assert_eq!(Market::finish_claim(name(1), &t, false), Err(MarketError::ClaimFailed));
}

#[test]
fn reentrant_claim_during_payment_pays_each_amount_once() {
    let mut m = ready_market();
    let earlier = m.buy(addr(BUYER), name(1), 1).unwrap();
    m.pay(&earlier, &num(10), true).unwrap();

    let order = m.buy(addr(BUYER), name(1), 1).unwrap();
    // the payment token calls back into the market while it moves the funds
    let during = m.claim(addr(OWNER), addr(OWNER), name(1)).unwrap();
    assert_eq!(during.amount, num(10));
    m.pay(&order, &num(7), true).unwrap();
    let after = m.claim(addr(OWNER), addr(OWNER), name(1)).unwrap();
    assert_eq!(after.amount, num(7));
    let last = m.claim(addr(OWNER), addr(OWNER), name(1)).unwrap();
    assert_eq!(last.amount, num(0));
}

#[test]
fn ledger_is_kept_per_token() {
    let mut m = ready_market();
    m.set_agregators(addr(OWNER), addr(OWNER), vec![name(2)], vec![addr(ORACLE)], vec![addr(TOKEN + 1)])
        .unwrap();
    let a = m.buy(addr(BUYER), name(1), 1).unwrap();
    let b = m.buy(addr(BUYER), name(2), 1).unwrap();
    m.pay(&a, &num(4), true).unwrap();
    m.pay(&b, &num(9), true).unwrap();
    assert_eq!(m.claim(addr(OWNER), addr(OWNER), name(2)).unwrap().amount, num(9));
    assert_eq!(m.claim(addr(OWNER), addr(OWNER), name(1)).unwrap().amount, num(4));
}

#[test]
fn ledger_sum_carries_into_the_next_word() {
    let mut m = ready_market();
    let order = m.buy(addr(BUYER), name(1), 1).unwrap();
    m.pay(&order, &num(u64::MAX), true).unwrap();
    m.pay(&order, &num(1), true).unwrap();
    let t = m.claim(addr(OWNER), addr(OWNER), name(1)).unwrap();
    assert_eq!(t.amount, Uint256 { w0: 0, w1: 1, w2: 0, w3: 0 });
}

#[test]
fn pricing_with_large_decimals() {
    let m = ready_market();
    // 100 * 10^18 * 10^8 / (3000 * 10^8) = 33333333333333333.33.. -> 33333333333333334
    let amount = m.get_amount_price(1, &num(300_000_000_000), 8, 18).unwrap();
    assert_eq!(amount, num(33_333_333_333_333_334));
    // the product passes 2^64 on the way: 100 * 10^18 * 10^18 / 10^20
    let wide = m.get_amount_price(2, &Uint256 { w0: 0x6bc7_5e2d_6310_0000, w1: 5, w2: 0, w3: 0 }, 18, 18).unwrap();
    assert_eq!(wide, num(2_000_000_000_000_000_000));
}
