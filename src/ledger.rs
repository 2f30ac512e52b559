use vstd::prelude::*;
use crate::error::NftError;
use crate::types::{Address, U256};

verus! {

/// The abstract state of the ledger.
pub ghost struct LedgerView {
    /// The ownership record: token identifier to owner.
    pub owners: Map<nat, Address>,
    /// How many identifiers have been handed out; the next one is `minted + 1`.
    pub minted: nat,
    /// The supply counter.
    pub supply: nat,
}

impl LedgerView {
    /// The ledger's invariants: the supply counter is the number of owned
    /// tokens, every owned identifier has been handed out, and no token is
    /// owned by the zero address.
    pub open spec fn valid(self) -> bool {
        &&& self.owners.dom().finite()
        &&& self.supply == self.owners.dom().len()
        &&& forall|id: nat| #[trigger] self.owners.contains_key(id)
            ==> 1 <= id <= self.minted && !self.owners[id].spec_is_zero()
    }
}

/// The ledger of a fresh contract: nothing minted, nothing owned.
pub open spec fn empty_ledger() -> LedgerView {
    LedgerView { owners: Map::empty(), minted: 0, supply: 0 }
}

/// `mint(to)`: a new token with the next identifier, owned by `to`.
pub open spec fn mint_step(s: LedgerView, to: Address) -> (LedgerView, Result<nat, NftError>) {
    if to.spec_is_zero() {
        (s, Err(NftError::InvalidRecipient { to }))
    } else {
        let id = s.minted + 1;
        (LedgerView { owners: s.owners.insert(id, to), minted: id, supply: s.supply + 1 }, Ok(id))
    }
}

/// `burn(caller, token_id)`: only the token's owner may remove it.
pub open spec fn burn_step(s: LedgerView, caller: Address, token_id: U256) -> (
    LedgerView,
    Result<(), NftError>,
) {
    if !s.owners.contains_key(token_id@) {
        (s, Err(NftError::TokenNotFound { token_id }))
    } else if s.owners[token_id@] != caller {
        (s, Err(NftError::NotOwner { caller, token_id }))
    } else {
        (
            LedgerView {
                owners: s.owners.remove(token_id@),
                minted: s.minted,
                supply: (s.supply - 1) as nat,
            },
            Ok(()),
        )
    }
}

/// `transfer(caller, to, token_id)`: the token's owner hands it to `to`.
pub open spec fn transfer_step(s: LedgerView, caller: Address, to: Address, token_id: U256) -> (
    LedgerView,
    Result<(), NftError>,
) {
    if !s.owners.contains_key(token_id@) {
        (s, Err(NftError::TokenNotFound { token_id }))
    } else if s.owners[token_id@] != caller {
        (s, Err(NftError::NotOwner { caller, token_id }))
    } else if to.spec_is_zero() {
        (s, Err(NftError::InvalidRecipient { to }))
    } else {
        (LedgerView { owners: s.owners.insert(token_id@, to), ..s }, Ok(()))
    }
}

/// `owner_of(token_id)`: the recorded owner, if there is one.
pub open spec fn owner_of_result(s: LedgerView, token_id: U256) -> Result<Address, NftError> {
    if s.owners.contains_key(token_id@) {
        Ok(s.owners[token_id@])
    } else {
        Err(NftError::TokenNotFound { token_id })
    }
}

/// A minting result with the identifier read as a number.
pub open spec fn id_result(r: Result<U256, NftError>) -> Result<nat, NftError> {
    match r {
        Ok(id) => Ok(id@),
        Err(e) => Err(e),
    }
}

/// The token ledger. Identifier `i` is recorded at position `i - 1`:
/// `Some(owner)` while the token exists, `None` once it is burned.
pub struct Erc721 {
    records: Vec<Option<Address>>,
    supply: usize,
}

impl View for Erc721 {
    type V = LedgerView;

    closed spec fn view(&self) -> LedgerView {
        LedgerView {
            owners: Map::new(
                |id: nat| 1 <= id <= self.records@.len() && self.records@[id - 1] is Some,
                |id: nat| self.records@[id - 1]->0,
            ),
            minted: self.records@.len(),
            supply: self.supply as nat,
        }
    }
}

impl Erc721 {
    /// The ledger's invariants hold.
    pub closed spec fn wf(&self) -> bool {
        self@.valid() && self.supply <= self.records@.len()
    }

    /// A well-formed ledger's abstract state meets the ledger's invariants.
    pub proof fn lemma_wf_valid(&self)
        requires
            self.wf(),
        ensures
            self@.valid(),
    {
    }

    pub fn new() -> (r: Erc721)
        ensures
            r.wf(),
            r@.valid(),
            r@ == empty_ledger(),
    {
        let r = Erc721 { records: Vec::new(), supply: 0 };
        assert(r@.owners =~= Map::empty());
        r
    }

    /// How many identifiers have been handed out.
    pub fn minted_count(&self) -> (r: usize)
        requires
            self.wf(),
        ensures
            r == self@.minted,
    {
        self.records.len()
    }

    /// Creates a token owned by `to` and returns its identifier.
    pub fn mint(&mut self, to: Address) -> (r: Result<U256, NftError>)
        requires
            old(self).wf(),
            old(self)@.minted < usize::MAX,
        ensures
            final(self).wf(),
            final(self)@.valid(),
            (final(self)@, id_result(r)) == mint_step(old(self)@, to),
    {
        if to.is_zero() {
            return Err(NftError::InvalidRecipient { to });
        }
        let id = self.records.len() + 1;
        self.records.push(Some(to));
        self.supply = self.supply + 1;
        proof {
            let (s, _) = mint_step(old(self)@, to);
            assert(self@.owners =~= s.owners);
            assert(!old(self)@.owners.contains_key(id as nat));
            assert(self@.owners.dom() =~= old(self)@.owners.dom().insert(id as nat));
        }
        Ok(U256::from_u128(id as u128))
    }

    /// Removes token `token_id`, which `caller` must own.
    pub fn burn(&mut self, caller: Address, token_id: U256) -> (r: Result<(), NftError>)
        requires
            old(self).wf(),
        ensures
            final(self).wf(),
            final(self)@.valid(),
            (final(self)@, r) == burn_step(old(self)@, caller, token_id),
            r is Ok ==> final(self)@.supply + 1 == old(self)@.supply,
    {
        let idx = match token_id.to_index(self.records.len()) {
            Some(i) => i,
            None => return Err(NftError::TokenNotFound { token_id }),
        };
        let owner = match self.records[idx] {
            Some(o) => o,
            None => return Err(NftError::TokenNotFound { token_id }),
        };
        if owner != caller {
            return Err(NftError::NotOwner { caller, token_id });
        }
        proof {
            let d = old(self)@.owners.dom();
            assert(d.contains(token_id@));
            assert(d.remove(token_id@).len() == d.len() - 1);
        }
        self.records.set(idx, None);
        self.supply = self.supply - 1;
        proof {
            let (s, _) = burn_step(old(self)@, caller, token_id);
            assert(self@.owners =~= s.owners);
            assert(self@.owners.dom() =~= old(self)@.owners.dom().remove(token_id@));
        }
        Ok(())
    }

    /// Gives token `token_id`, which `caller` must own, to `to`.
    pub fn transfer(&mut self, caller: Address, to: Address, token_id: U256) -> (r: Result<
        (),
        NftError,
    >)
        requires
            old(self).wf(),
        ensures
            final(self).wf(),
            final(self)@.valid(),
            (final(self)@, r) == transfer_step(old(self)@, caller, to, token_id),
    {
        let idx = match token_id.to_index(self.records.len()) {
            Some(i) => i,
            None => return Err(NftError::TokenNotFound { token_id }),
        };
        let owner = match self.records[idx] {
            Some(o) => o,
            None => return Err(NftError::TokenNotFound { token_id }),
        };
        if owner != caller {
            return Err(NftError::NotOwner { caller, token_id });
        }
        if to.is_zero() {
            return Err(NftError::InvalidRecipient { to });
        }
        self.records.set(idx, Some(to));
        proof {
            let (s, _) = transfer_step(old(self)@, caller, to, token_id);
            assert(self@.owners =~= s.owners);
            assert(self@.owners.dom() =~= old(self)@.owners.dom());
        }
        Ok(())
    }

    /// The recorded owner of token `token_id`.
    pub fn owner_of(&self, token_id: U256) -> (r: Result<Address, NftError>)
        requires
            self.wf(),
        ensures
            r == owner_of_result(self@, token_id),
    {
        match token_id.to_index(self.records.len()) {
            Some(i) => match self.records[i] {
                Some(o) => Ok(o),
                None => Err(NftError::TokenNotFound { token_id }),
            },
            None => Err(NftError::TokenNotFound { token_id }),
        }
    }

    /// The number of tokens in existence.
    pub fn total_supply(&self) -> (r: U256)
        requires
            self.wf(),
        ensures
            r@ == self@.supply,
            r@ == self@.owners.dom().len(),
    {
        U256::from_u128(self.supply as u128)
    }
}

} // verus!
