use vstd::prelude::*;
use crate::error::NftError;
use crate::authority::{
    nft_burn_step, nft_transfer_step, initialize_step, mint_self_step, mint_to_step, NftView,
};
use crate::ledger::{burn_step, mint_step, owner_of_result, transfer_step, LedgerView};
use crate::types::{Address, U256};

verus! {

/// Single owner: the ownership record maps each identifier to at most one
/// owner, and no operation overwrites the record of another token. A mint
/// records its token on an identifier that had no owner; a burn or a
/// transfer changes the record of its own token only.
pub proof fn lemma_single_owner(
    g: NftView,
    caller: Address,
    to: Address,
    token_id: U256,
    other: nat,
)
    requires
        g.valid(),
    ensures
        mint_to_step(g, caller, to).1 is Ok ==> !g.ledger.owners.contains_key(g.ledger.minted + 1)
            && mint_to_step(g, caller, to).0.ledger.owners == g.ledger.owners.insert(
            g.ledger.minted + 1,
            to,
        ),
        mint_self_step(g, caller).1 is Ok ==> !g.ledger.owners.contains_key(g.ledger.minted + 1)
            && mint_self_step(g, caller).0.ledger.owners == g.ledger.owners.insert(
            g.ledger.minted + 1,
            caller,
        ),
        other != token_id@ ==> nft_burn_step(g, caller, token_id).0.ledger.owners.contains_key(
            other,
        ) == g.ledger.owners.contains_key(other),
        other != token_id@ && g.ledger.owners.contains_key(other) ==> nft_burn_step(
            g,
            caller,
            token_id,
        ).0.ledger.owners[other] == g.ledger.owners[other],
        other != token_id@ ==> nft_transfer_step(g, caller, to, token_id).0.ledger.owners.contains_key(
            other,
        ) == g.ledger.owners.contains_key(other),
        other != token_id@ && g.ledger.owners.contains_key(other) ==> nft_transfer_step(
            g,
            caller,
            to,
            token_id,
        ).0.ledger.owners[other] == g.ledger.owners[other],
{
}

/// Supply accounting: in a valid ledger the supply counter is the number
/// of owned tokens; a successful mint adds exactly one, a successful burn
/// takes exactly one away, a transfer keeps it, a failed operation changes
/// nothing, and each of them leaves a valid ledger.
pub proof fn lemma_supply_accounting(
    s: LedgerView,
    caller: Address,
    to: Address,
    token_id: U256,
)
    requires
        s.valid(),
    ensures
        s.supply == s.owners.dom().len(),
        mint_step(s, to).0.valid(),
        mint_step(s, to).1 is Ok ==> mint_step(s, to).0.supply == s.supply + 1,
        mint_step(s, to).1 is Err ==> mint_step(s, to).0 == s,
        burn_step(s, caller, token_id).0.valid(),
        burn_step(s, caller, token_id).1 is Ok ==> burn_step(s, caller, token_id).0.supply
            == s.supply - 1,
        burn_step(s, caller, token_id).1 is Err ==> burn_step(s, caller, token_id).0 == s,
        transfer_step(s, caller, to, token_id).0.valid(),
        transfer_step(s, caller, to, token_id).0.supply == s.supply,
        transfer_step(s, caller, to, token_id).1 is Err ==> transfer_step(
            s,
            caller,
            to,
            token_id,
        ).0 == s,
{
    let d = s.owners.dom();
    let id = s.minted + 1;
    if !to.spec_is_zero() {
        assert(!d.contains(id));
        assert(mint_step(s, to).0.owners.dom() =~= d.insert(id));
    }
    if burn_step(s, caller, token_id).1 is Ok {
        assert(burn_step(s, caller, token_id).0.owners.dom() =~= d.remove(token_id@));
    }
    if transfer_step(s, caller, to, token_id).1 is Ok {
        assert(transfer_step(s, caller, to, token_id).0.owners.dom() =~= d);
    }
}

/// The contract's operations that do not mint or burn leave the ledger, and so
/// the supply, as it was.
pub proof fn lemma_authority_keeps_supply(g: NftView, caller: Address, new_owner: Address)
    ensures
        initialize_step(g, new_owner).0.ledger == g.ledger,
        mint_to_step(g, caller, new_owner).1 is Err ==> mint_to_step(g, caller, new_owner).0 == g,
{
}

/// No identifier reuse: a new token never gets an identifier that was handed
/// out before, even one whose token has since been burned; and no operation
/// lowers the count of identifiers handed out.
pub proof fn lemma_no_identifier_reuse(
    s: LedgerView,
    caller: Address,
    to: Address,
    token_id: U256,
    earlier: nat,
)
    requires
        s.valid(),
        1 <= earlier <= s.minted,
    ensures
        mint_step(s, to).1 matches Ok(id) ==> id != earlier && id > s.minted
            && !s.owners.contains_key(id),
        mint_step(s, to).0.minted >= s.minted,
        burn_step(s, caller, token_id).0.minted == s.minted,
        transfer_step(s, caller, to, token_id).0.minted == s.minted,
{
}

/// Initialization happens once: on an initialized contract `initialize`
/// fails with `AlreadyInitialized` whatever its argument and changes
/// nothing; in particular a second call after a successful one fails.
pub proof fn lemma_initialize_once(g: NftView, first: Address, second: Address)
    ensures
        g.initialized ==> initialize_step(g, second) == (g, Err::<(), NftError>(
            NftError::AlreadyInitialized,
        )),
        initialize_step(g, first).1 is Ok ==> initialize_step(initialize_step(g, first).0, second)
            == (initialize_step(g, first).0, Err::<(), NftError>(NftError::AlreadyInitialized)),
{
}

/// Zero-address rejection: minting to the zero address, by `mint` or by
/// `mint_to`, and initializing with the zero address each fail and leave
/// the state unchanged.
pub proof fn lemma_zero_address_rejected(g: NftView, caller: Address, zero: Address)
    requires
        g.valid(),
        zero.spec_is_zero(),
    ensures
        mint_step(g.ledger, zero) == (g.ledger, Err::<nat, NftError>(
            NftError::InvalidRecipient { to: zero },
        )),
        mint_self_step(g, zero).0 == g,
        mint_self_step(g, zero).1 is Err,
        mint_to_step(g, caller, zero).0 == g,
        mint_to_step(g, caller, zero).1 is Err,
        initialize_step(g, zero).0 == g,
        initialize_step(g, zero).1 is Err,
{
}

/// Owner-gated mint: on an initialized contract with authority `g.owner`,
/// `mint` by anyone else fails with `Unauthorized` and mints nothing, while
/// `mint` by the authority succeeds, records the next identifier as the
/// authority's and adds one to the supply.
pub proof fn lemma_owner_gated_mint(g: NftView, other: Address)
    requires
        g.valid(),
        g.initialized,
        other != g.owner,
    ensures
        mint_self_step(g, other) == (g, Err::<(), NftError>(
            NftError::Unauthorized { account: other },
        )),
        mint_self_step(g, g.owner).1 is Ok,
        mint_self_step(g, g.owner).0.ledger.supply == g.ledger.supply + 1,
        mint_self_step(g, g.owner).0.ledger.owners == g.ledger.owners.insert(
            g.ledger.minted + 1,
            g.owner,
        ),
{
}

/// Self-service burn: only the owner `x` of token `t` can burn it, not
/// another account `y` (the authority included); after the owner's burn no
/// owner is recorded for `t`.
pub proof fn lemma_self_service_burn(g: NftView, t: U256, x: Address, y: Address)
    requires
        g.valid(),
        g.ledger.owners.contains_key(t@),
        g.ledger.owners[t@] == x,
        y != x,
    ensures
        nft_burn_step(g, y, t) == (g, Err::<(), NftError>(
            NftError::NotOwner { caller: y, token_id: t },
        )),
        nft_burn_step(g, x, t).1 is Ok,
        !nft_burn_step(g, x, t).0.ledger.owners.contains_key(t@),
        owner_of_result(nft_burn_step(g, x, t).0.ledger, t) == Err::<Address, NftError>(
            NftError::TokenNotFound { token_id: t },
        ),
        nft_transfer_step(g, y, x, t).1 is Err,
{
}

} // verus!
