use vstd::prelude::*;
use crate::error::NftError;
use crate::ledger::{
    burn_step, empty_ledger, mint_step, owner_of_result, transfer_step, Erc721,
    LedgerView,
};
use crate::types::{Address, U256};

verus! {

/// The abstract state of the contract: the authority state and the ledger.
pub ghost struct NftView {
    /// The authority; the zero address until initialization.
    pub owner: Address,
    pub initialized: bool,
    pub ledger: LedgerView,
}

impl NftView {
    /// The ledger's invariants, and: the authority is the zero address
    /// exactly while the contract is uninitialized.
    pub open spec fn valid(self) -> bool {
        &&& self.ledger.valid()
        &&& self.initialized <==> !self.owner.spec_is_zero()
    }
}

/// A freshly deployed contract.
pub open spec fn fresh_contract() -> NftView {
    NftView { owner: Address { high: 0, low: 0 }, initialized: false, ledger: empty_ledger() }
}

/// The authority check: only the stored authority passes.
pub open spec fn only_owner_result(g: NftView, caller: Address) -> Result<(), NftError> {
    if caller == g.owner {
        Ok(())
    } else {
        Err(NftError::Unauthorized { account: caller })
    }
}

/// `mint_to(caller, to)`: the authority mints a new token to `to`.
pub open spec fn mint_to_step(g: NftView, caller: Address, to: Address) -> (
    NftView,
    Result<(), NftError>,
) {
    if caller != g.owner {
        (g, Err(NftError::Unauthorized { account: caller }))
    } else {
        let (l, r) = mint_step(g.ledger, to);
        (
            NftView { ledger: l, ..g },
            match r {
                Ok(_) => Ok(()),
                Err(e) => Err(e),
            },
        )
    }
}

/// `mint(caller)`: the authority mints a new token to itself.
pub open spec fn mint_self_step(g: NftView, caller: Address) -> (NftView, Result<(), NftError>) {
    mint_to_step(g, caller, caller)
}

/// `burn(caller, token_id)`: the token's owner burns it; the authority
/// plays no part.
pub open spec fn nft_burn_step(g: NftView, caller: Address, token_id: U256) -> (
    NftView,
    Result<(), NftError>,
) {
    let (l, r) = burn_step(g.ledger, caller, token_id);
    (NftView { ledger: l, ..g }, r)
}

/// `transfer(caller, to, token_id)`: the token's owner hands it on.
pub open spec fn nft_transfer_step(g: NftView, caller: Address, to: Address, token_id: U256) -> (
    NftView,
    Result<(), NftError>,
) {
    let (l, r) = transfer_step(g.ledger, caller, to, token_id);
    (NftView { ledger: l, ..g }, r)
}

/// `initialize(initial_owner)`: sets the authority, once, to a non-zero
/// address. Anyone may call it.
pub open spec fn initialize_step(g: NftView, initial_owner: Address) -> (
    NftView,
    Result<(), NftError>,
) {
    if g.initialized {
        (g, Err(NftError::AlreadyInitialized))
    } else if initial_owner.spec_is_zero() {
        (g, Err(NftError::InvalidOwner { owner: initial_owner }))
    } else {
        (NftView { owner: initial_owner, initialized: true, ..g }, Ok(()))
    }
}

/// The contract: an authority address, its initialization flag, and the
/// token ledger whose minting the authority guards.
pub struct StylusNFT {
    owner: Address,
    initialized: bool,
    erc721: Erc721,
}

impl View for StylusNFT {
    type V = NftView;

    closed spec fn view(&self) -> NftView {
        NftView { owner: self.owner, initialized: self.initialized, ledger: self.erc721@ }
    }
}

impl StylusNFT {
    pub closed spec fn wf(&self) -> bool {
        self.erc721.wf() && self@.valid()
    }

    /// A well-formed contract's abstract state meets the invariants of the
    /// authority state and of the ledger.
    pub proof fn lemma_wf_valid(&self)
        requires
            self.wf(),
        ensures
            self@.valid(),
    {
    }

    /// A freshly deployed, uninitialized contract.
    pub fn new() -> (r: StylusNFT)
        ensures
            r.wf(),
            r@.valid(),
            r@ == fresh_contract(),
    {
        StylusNFT { owner: Address::zero(), initialized: false, erc721: Erc721::new() }
    }

    /// The ledger, for its read-only queries.
    pub fn erc721(&self) -> (r: &Erc721)
        requires
            self.wf(),
        ensures
            r.wf(),
            r@.valid(),
            r@ == self@.ledger,
    {
        &self.erc721
    }

    /// The current authority: the zero address while uninitialized.
    pub fn owner(&self) -> (r: Result<Address, NftError>)
        requires
            self.wf(),
        ensures
            r == Ok::<Address, NftError>(self@.owner),
            !self@.initialized ==> r == Ok::<Address, NftError>(Address { high: 0, low: 0 }),
            self@.initialized ==> !self@.owner.spec_is_zero(),
    {
        Ok(self.owner)
    }

    /// Fails with `Unauthorized` unless `caller` is the authority; changes
    /// nothing.
    pub fn only_owner(&mut self, caller: Address) -> (r: Result<(), NftError>)
        ensures
            *final(self) == *old(self),
            r == only_owner_result(old(self)@, caller),
    {
        if caller != self.owner {
            return Err(NftError::Unauthorized { account: caller });
        }
        Ok(())
    }

    /// The authority mints a new token to itself.
    pub fn mint(&mut self, caller: Address) -> (r: Result<(), NftError>)
        requires
            old(self).wf(),
            old(self)@.ledger.minted < usize::MAX,
        ensures
            final(self).wf(),
            final(self)@.valid(),
            (final(self)@, r) == mint_self_step(old(self)@, caller),
    {
        self.mint_to(caller, caller)
    }

    /// The authority mints a new token to `to`.
    pub fn mint_to(&mut self, caller: Address, to: Address) -> (r: Result<(), NftError>)
        requires
            old(self).wf(),
            old(self)@.ledger.minted < usize::MAX,
        ensures
            final(self).wf(),
            final(self)@.valid(),
            (final(self)@, r) == mint_to_step(old(self)@, caller, to),
    {
        self.only_owner(caller)?;
        match self.erc721.mint(to) {
            Ok(_) => Ok(()),
            Err(e) => Err(e),
        }
    }

    /// The owner of token `token_id` burns it.
    pub fn burn(&mut self, caller: Address, token_id: U256) -> (r: Result<(), NftError>)
        requires
            old(self).wf(),
        ensures
            final(self).wf(),
            final(self)@.valid(),
            (final(self)@, r) == nft_burn_step(old(self)@, caller, token_id),
            r is Ok ==> final(self)@.ledger.supply + 1 == old(self)@.ledger.supply,
    {
        self.erc721.burn(caller, token_id)
    }

    /// The owner of token `token_id` gives it to `to`.
    pub fn transfer(&mut self, caller: Address, to: Address, token_id: U256) -> (r: Result<
        (),
        NftError,
    >)
        requires
            old(self).wf(),
        ensures
            final(self).wf(),
            final(self)@.valid(),
            (final(self)@, r) == nft_transfer_step(old(self)@, caller, to, token_id),
    {
        self.erc721.transfer(caller, to, token_id)
    }

    /// The recorded owner of token `token_id`.
    pub fn owner_of(&self, token_id: U256) -> (r: Result<Address, NftError>)
        requires
            self.wf(),
        ensures
            r == owner_of_result(self@.ledger, token_id),
    {
        self.erc721.owner_of(token_id)
    }

    /// The number of tokens in existence; never fails.
    pub fn total_supply(&mut self) -> (r: Result<U256, NftError>)
        requires
            old(self).wf(),
        ensures
            *final(self) == *old(self),
            r matches Ok(n) && n@ == old(self)@.ledger.supply && n@
                == old(self)@.ledger.owners.dom().len(),
    {
        Ok(self.erc721.total_supply())
    }

    /// Sets the authority to `initial_owner`, once.
    pub fn initialize(&mut self, initial_owner: Address) -> (r: Result<(), NftError>)
        requires
            old(self).wf(),
        ensures
            final(self).wf(),
            final(self)@.valid(),
            (final(self)@, r) == initialize_step(old(self)@, initial_owner),
    {
        if self.initialized {
            return Err(NftError::AlreadyInitialized);
        }
        if initial_owner.is_zero() {
            return Err(NftError::InvalidOwner { owner: initial_owner });
        }
        self.owner = initial_owner;
        self.initialized = true;
        Ok(())
    }
}

} // verus!
