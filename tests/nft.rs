use seabrick_market::address::Address;
use seabrick_market::initialization::InitializationError;
use seabrick_market::ownable::Error;
use seabrick_market::seabrick::{
    MinterUpdated, Seabrick, SeabrickError, SeabrickParams, TokenError, NAME, SYMBOL,
};
use seabrick_market::uint::Uint256;

fn addr(n: u64) -> Address {
    Address { hi: 0, mid: 0, lo: n }
}

fn num(x: u64) -> Uint256 {
    Uint256::from_u64(x)
}

fn collection() -> Seabrick {
    let mut s = Seabrick::new();
    s.initialization(addr(1)).unwrap();
    s.set_minter(addr(1), addr(2), true).unwrap();
    s
}

#[test]
fn collection_facts() {
    assert_eq!(NAME, "SeaBrick NFT");
    assert_eq!(SYMBOL, "SB_NFT");
}

#[test]
fn image_numbers_rotate_through_five() {
    assert_eq!(SeabrickParams::image_number(&num(0)), 1);
    assert_eq!(SeabrickParams::image_number(&num(4)), 5);
    assert_eq!(SeabrickParams::image_number(&num(5)), 1);
    assert_eq!(SeabrickParams::image_number(&num(13)), 4);
    // 2^64 leaves 1 when divided by 5
    let big = Uint256 { w0: 0, w1: 1, w2: 0, w3: 0 };
    assert_eq!(SeabrickParams::image_number(&big), 2);
}

#[test]
fn nft_initializes_once() {
    let mut s = Seabrick::new();
    assert!(s.initialization(addr(1)).is_ok());
    assert_eq!(s.initialization(addr(3)), Err(InitializationError::AlreadyInitialized));
    assert_eq!(s.ownable.owner, addr(1));
}

#[test]
fn only_the_owner_sets_minters() {
    let mut s = collection();
    assert_eq!(s.set_minter(addr(3), addr(3), true), Err(Error::UnauthorizedAccount(addr(3))));
    assert_eq!(
        s.set_minter(addr(1), addr(3), true),
        Ok(MinterUpdated { minter: addr(3), status: true })
    );
    assert!(s.mint(addr(3), addr(4)).is_ok());
    s.set_minter(addr(1), addr(3), false).unwrap();
    assert_eq!(s.mint(addr(3), addr(4)), Err(SeabrickError::OnlyMinters));
}

#[test]
fn mint_returns_consecutive_ids() {
    let mut s = collection();
    assert_eq!(s.total_supply(), num(0));
    assert_eq!(s.mint(addr(2), addr(7)), Ok(num(0)));
    assert_eq!(s.mint(addr(2), addr(8)), Ok(num(1)));
    assert_eq!(s.total_supply(), num(2));
    assert_eq!(s.owners, vec![addr(7), addr(8)]);
}

#[test]
fn mint_rules() {
    let mut s = collection();
    assert_eq!(s.mint(addr(9), addr(7)), Err(SeabrickError::OnlyMinters));
    assert_eq!(
        s.mint(addr(2), Address::zero()),
        Err(SeabrickError::Token(TokenError::NotMinted))
    );
    assert_eq!(s.mint_batch(addr(9), addr(7), 2), Err(SeabrickError::OnlyMinters));
    assert_eq!(s.total_supply(), num(0));
}

#[test]
fn batch_mint_appends_in_order() {
    let mut s = collection();
    s.mint(addr(2), addr(7)).unwrap();
    assert_eq!(s.mint_batch(addr(2), addr(8), 3), Ok(()));
    assert_eq!(s.total_supply(), num(4));
    assert_eq!(s.owners, vec![addr(7), addr(8), addr(8), addr(8)]);
    assert_eq!(s.mint_batch(addr(2), addr(8), 0), Ok(()));
    assert_eq!(s.total_supply(), num(4));
}

#[test]
fn burn_rules() {
    let mut s = collection();
    s.mint(addr(2), addr(7)).unwrap();
    assert_eq!(s.burn(addr(8), num(0)), Err(TokenError::NotBurned));
    assert_eq!(s.burn(addr(7), num(1)), Err(TokenError::NotBurned));
    let huge = Uint256 { w0: 0, w1: 1, w2: 0, w3: 0 };
    assert_eq!(s.burn(addr(7), huge), Err(TokenError::NotBurned));
    assert_eq!(s.burn(addr(7), num(0)), Ok(()));
    assert_eq!(s.owners[0], Address::zero());
    assert_eq!(s.burn(addr(7), num(0)), Err(TokenError::NotBurned));
    assert_eq!(s.total_supply(), num(1));
}
