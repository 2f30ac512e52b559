use stylus_nft::{Address, Erc721, NftError, StylusNFT, StylusNFTParams, U256};

fn addr(n: u128) -> Address {
    Address::from_u128(n)
}

fn id(n: u128) -> U256 {
    U256::from_u128(n)
}

fn supply(nft: &mut StylusNFT) -> U256 {
    nft.total_supply().unwrap()
}

#[test]
fn end_to_end_scenario() {
    let mut nft = StylusNFT::new();
    assert_eq!(nft.initialize(addr(0xA)), Ok(()));
    assert_eq!(supply(&mut nft), id(0));
    assert_eq!(nft.mint(addr(0xA)), Ok(()));
    assert_eq!(supply(&mut nft), id(1));
    assert_eq!(nft.owner_of(id(1)), Ok(addr(0xA)));
    assert_eq!(nft.mint_to(addr(0xA), addr(0xB)), Ok(()));
    assert_eq!(supply(&mut nft), id(2));
    assert_eq!(nft.owner_of(id(2)), Ok(addr(0xB)));
    assert_eq!(nft.burn(addr(0xB), id(2)), Ok(()));
    assert_eq!(supply(&mut nft), id(1));
    assert_eq!(nft.initialize(addr(0xC)), Err(NftError::AlreadyInitialized));
    assert_eq!(nft.owner(), Ok(addr(0xA)));
}

#[test]
fn owner_is_zero_before_initialize() {
    let nft = StylusNFT::new();
    assert_eq!(nft.owner(), Ok(Address::zero()));
}

#[test]
fn initialize_rejects_zero_owner() {
    let mut nft = StylusNFT::new();
    assert_eq!(
        nft.initialize(Address::zero()),
        Err(NftError::InvalidOwner { owner: Address::zero() })
    );
    assert_eq!(nft.owner(), Ok(Address::zero()));
    assert_eq!(nft.initialize(addr(7)), Ok(()));
    assert_eq!(nft.owner(), Ok(addr(7)));
}

#[test]
fn second_initialize_fails_for_any_argument() {
    let mut nft = StylusNFT::new();
    assert_eq!(nft.initialize(addr(1)), Ok(()));
    assert_eq!(nft.initialize(addr(1)), Err(NftError::AlreadyInitialized));
    assert_eq!(nft.initialize(addr(2)), Err(NftError::AlreadyInitialized));
    assert_eq!(nft.initialize(Address::zero()), Err(NftError::AlreadyInitialized));
    assert_eq!(nft.owner(), Ok(addr(1)));
}

#[test]
fn mint_by_non_owner_is_unauthorized() {
    let mut nft = StylusNFT::new();
    nft.initialize(addr(0xA)).unwrap();
    assert_eq!(nft.mint(addr(0xB)), Err(NftError::Unauthorized { account: addr(0xB) }));
    assert_eq!(
        nft.mint_to(addr(0xB), addr(0xB)),
        Err(NftError::Unauthorized { account: addr(0xB) })
    );
    assert_eq!(supply(&mut nft), id(0));
    assert_eq!(nft.owner_of(id(1)), Err(NftError::TokenNotFound { token_id: id(1) }));
}

#[test]
fn only_owner_checks_caller() {
    let mut nft = StylusNFT::new();
    nft.initialize(addr(0xA)).unwrap();
    assert_eq!(nft.only_owner(addr(0xA)), Ok(()));
    assert_eq!(nft.only_owner(addr(0xB)), Err(NftError::Unauthorized { account: addr(0xB) }));
}

#[test]
fn mint_to_zero_is_rejected() {
    let mut nft = StylusNFT::new();
    nft.initialize(addr(0xA)).unwrap();
    assert_eq!(
        nft.mint_to(addr(0xA), Address::zero()),
        Err(NftError::InvalidRecipient { to: Address::zero() })
    );
    assert_eq!(supply(&mut nft), id(0));
    assert_eq!(nft.erc721().minted_count(), 0);
}

#[test]
fn mint_by_zero_caller_changes_nothing() {
    let mut nft = StylusNFT::new();
    assert_eq!(
        nft.mint(Address::zero()),
        Err(NftError::InvalidRecipient { to: Address::zero() })
    );
    nft.initialize(addr(0xA)).unwrap();
    assert_eq!(
        nft.mint(Address::zero()),
        Err(NftError::Unauthorized { account: Address::zero() })
    );
    assert_eq!(supply(&mut nft), id(0));
}

#[test]
fn burn_is_self_service() {
    let mut nft = StylusNFT::new();
    nft.initialize(addr(0xA)).unwrap();
    nft.mint_to(addr(0xA), addr(0xB)).unwrap();
    assert_eq!(
        nft.burn(addr(0xA), id(1)),
        Err(NftError::NotOwner { caller: addr(0xA), token_id: id(1) })
    );
    assert_eq!(supply(&mut nft), id(1));
    assert_eq!(nft.burn(addr(0xB), id(1)), Ok(()));
    assert_eq!(nft.owner_of(id(1)), Err(NftError::TokenNotFound { token_id: id(1) }));
    assert_eq!(supply(&mut nft), id(0));
}

#[test]
fn burn_of_missing_token_fails() {
    let mut nft = StylusNFT::new();
    nft.initialize(addr(0xA)).unwrap();
    nft.mint(addr(0xA)).unwrap();
    assert_eq!(nft.burn(addr(0xA), id(0)), Err(NftError::TokenNotFound { token_id: id(0) }));
    assert_eq!(nft.burn(addr(0xA), id(2)), Err(NftError::TokenNotFound { token_id: id(2) }));
    let huge = U256::from_parts(1, 1);
    assert_eq!(nft.burn(addr(0xA), huge), Err(NftError::TokenNotFound { token_id: huge }));
    nft.burn(addr(0xA), id(1)).unwrap();
    assert_eq!(nft.burn(addr(0xA), id(1)), Err(NftError::TokenNotFound { token_id: id(1) }));
    assert_eq!(supply(&mut nft), id(0));
}

#[test]
fn identifiers_are_never_reused() {
    let mut ledger = Erc721::new();
    assert_eq!(ledger.mint(addr(1)), Ok(id(1)));
    assert_eq!(ledger.mint(addr(2)), Ok(id(2)));
    assert_eq!(ledger.burn(addr(2), id(2)), Ok(()));
    assert_eq!(ledger.burn(addr(1), id(1)), Ok(()));
    assert_eq!(ledger.mint(addr(3)), Ok(id(3)));
    assert_eq!(ledger.owner_of(id(3)), Ok(addr(3)));
    assert_eq!(ledger.owner_of(id(2)), Err(NftError::TokenNotFound { token_id: id(2) }));
    assert_eq!(ledger.total_supply(), id(1));
    assert_eq!(ledger.minted_count(), 3);
}

#[test]
fn supply_counts_owned_tokens() {
    let mut ledger = Erc721::new();
    assert_eq!(ledger.total_supply(), id(0));
    for n in 1..=5u128 {
        ledger.mint(addr(n)).unwrap();
        assert_eq!(ledger.total_supply(), id(n));
    }
    ledger.transfer(addr(3), addr(9), id(3)).unwrap();
    assert_eq!(ledger.total_supply(), id(5));
    assert_eq!(ledger.mint(Address::zero()), Err(NftError::InvalidRecipient { to: Address::zero() }));
    assert_eq!(ledger.burn(addr(3), id(3)), Err(NftError::NotOwner { caller: addr(3), token_id: id(3) }));
    assert_eq!(ledger.total_supply(), id(5));
    ledger.burn(addr(9), id(3)).unwrap();
    assert_eq!(ledger.total_supply(), id(4));
}

#[test]
fn transfer_moves_ownership() {
    let mut nft = StylusNFT::new();
    nft.initialize(addr(0xA)).unwrap();
    nft.mint(addr(0xA)).unwrap();
    assert_eq!(
        nft.transfer(addr(0xB), addr(0xB), id(1)),
        Err(NftError::NotOwner { caller: addr(0xB), token_id: id(1) })
    );
    assert_eq!(
        nft.transfer(addr(0xA), Address::zero(), id(1)),
        Err(NftError::InvalidRecipient { to: Address::zero() })
    );
    assert_eq!(
        nft.transfer(addr(0xA), addr(0xB), id(5)),
        Err(NftError::TokenNotFound { token_id: id(5) })
    );
    assert_eq!(nft.transfer(addr(0xA), addr(0xB), id(1)), Ok(()));
    assert_eq!(nft.owner_of(id(1)), Ok(addr(0xB)));
    assert_eq!(nft.burn(addr(0xB), id(1)), Ok(()));
}

#[test]
fn wide_values() {
    let a = Address::from_parts(1, 0);
    assert!(!a.is_zero());
    assert!(Address::zero().is_zero());
    assert_ne!(a, Address::from_u128(1));
    let mut ledger = Erc721::new();
    assert_eq!(ledger.mint(a), Ok(id(1)));
    assert_eq!(ledger.owner_of(id(1)), Ok(a));
    assert_eq!(U256::from_parts(0, 5), id(5));
    assert_eq!(id(3).to_index(3), Some(2));
    assert_eq!(id(4).to_index(3), None);
    assert_eq!(id(0).to_index(3), None);
    assert_eq!(U256::from_parts(1, 1).to_index(3), None);
}

#[test]
fn metadata_is_constant() {
    assert_eq!(StylusNFTParams::name(), "VeriWell NFT");
    assert_eq!(StylusNFTParams::symbol(), "VWNFT");
    let uri = "https://veriwell-nft.s3.us-east-1.amazonaws.com/veriwell.json";
    assert_eq!(StylusNFTParams::token_uri(id(1)), uri);
    assert_eq!(StylusNFTParams::token_uri(U256::from_parts(7, 7)), uri);
}
