//! Laws that relate several entry points to each other. Each proof function
//! states one of them over the transition predicates that the entry points'
//! own contracts use.

use crate::account::AccountId;
use crate::contract::{
    composed_token_metadata, default_copies, default_description, default_media, default_title,
    fresh_contract, mints, sets_copies, sets_description, sets_media, sets_title, Contract,
};
use crate::ledger::ledger_tokens;
use crate::token::Token;
use vstd::prelude::*;

verus! {

/// After a successful `set_title(v)` the stored title is `v`, which is what
/// `get_title` then returns.
pub proof fn lemma_set_then_get_title(c0: Contract, c1: Contract, v: String)
    requires
        sets_title(c0, c1, v),
    ensures
        c1.title == v,
{
}

/// After a successful `set_description(v)` the stored description is `v`,
/// which is what `get_description` then returns.
pub proof fn lemma_set_then_get_description(c0: Contract, c1: Contract, v: String)
    requires
        sets_description(c0, c1, v),
    ensures
        c1.description == v,
{
}

/// After a successful `set_media(v)` the stored media URL is `v`, which is
/// what `get_media` then returns.
pub proof fn lemma_set_then_get_media(c0: Contract, c1: Contract, v: String)
    requires
        sets_media(c0, c1, v),
    ensures
        c1.media == v,
{
}

/// After a successful `set_copies(v)` the stored copy count is `v`, which is
/// what `get_copies` then returns.
pub proof fn lemma_set_then_get_copies(c0: Contract, c1: Contract, v: u64)
    requires
        sets_copies(c0, c1, v),
    ensures
        c1.copies == v,
{
}

/// Repeating `set_title` with the same value changes nothing: the second call
/// leaves the state exactly where the first left it.
pub proof fn lemma_set_title_idempotent(c0: Contract, c1: Contract, c2: Contract, v: String)
    requires
        sets_title(c0, c1, v),
        sets_title(c1, c2, v),
    ensures
        c2 == c1,
{
}

/// Repeating `set_description` with the same value changes nothing.
pub proof fn lemma_set_description_idempotent(c0: Contract, c1: Contract, c2: Contract, v: String)
    requires
        sets_description(c0, c1, v),
        sets_description(c1, c2, v),
    ensures
        c2 == c1,
{
}

/// Repeating `set_media` with the same value changes nothing.
pub proof fn lemma_set_media_idempotent(c0: Contract, c1: Contract, c2: Contract, v: String)
    requires
        sets_media(c0, c1, v),
        sets_media(c1, c2, v),
    ensures
        c2 == c1,
{
}

/// Repeating `set_copies` with the same value changes nothing.
pub proof fn lemma_set_copies_idempotent(c0: Contract, c1: Contract, c2: Contract, v: u64)
    requires
        sets_copies(c0, c1, v),
        sets_copies(c1, c2, v),
    ensures
        c2 == c1,
{
}

/// No setter touches the ledger: each of the four transitions keeps the
/// embedded token ledger exactly as it was.
pub proof fn lemma_setters_preserve_ledger(pre: Contract, post: Contract, v: String, w: u64)
    ensures
        sets_title(pre, post, v) ==> post.tokens == pre.tokens,
        sets_description(pre, post, v) ==> post.tokens == pre.tokens,
        sets_media(pre, post, v) ==> post.tokens == pre.tokens,
        sets_copies(pre, post, w) ==> post.tokens == pre.tokens,
{
}

/// On a contract fresh out of an initializer, the composer yields exactly the
/// documented defaults: title, description, media and copies present with
/// their default values, every other field absent.
pub proof fn lemma_composer_on_fresh_contract(owner: AccountId, c: Contract)
    requires
        fresh_contract(owner, c),
    ensures
        composed_token_metadata(c).title matches Some(t) && t@ == default_title(),
        composed_token_metadata(c).description matches Some(d) && d@ == default_description(),
        composed_token_metadata(c).media matches Some(m) && m@ == default_media(),
        composed_token_metadata(c).copies == Some(default_copies()),
        composed_token_metadata(c).media_hash is None,
        composed_token_metadata(c).reference is None,
        composed_token_metadata(c).reference_hash is None,
{
}

/// A minted token's metadata is a snapshot: after `nft_mint` has recorded the
/// token, any further transition that leaves the ledger untouched — as every
/// setter does — still shows the very record taken at mint time, composed
/// from the state as it was then.
pub proof fn lemma_minted_token_is_stable(
    c0: Contract,
    c1: Contract,
    c2: Contract,
    token_id: String,
    receiver: AccountId,
    tok: Token,
)
    requires
        mints(c0, c1, token_id, receiver, tok),
        c2.tokens == c1.tokens,
    ensures
        ledger_tokens(c2.tokens).dom().contains(token_id@),
        ledger_tokens(c2.tokens)[token_id@] == tok,
        tok.metadata == Some(composed_token_metadata(c0)),
{
}

} // verus!
