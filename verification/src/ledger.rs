//! The standard NFT ledger, consumed as an opaque collaborator. The contract
//! keeps its tokens in `near_contract_standards`' `NonFungibleToken` and talks
//! to it only through the trusted wrappers below; everything the rest of the
//! crate knows about the ledger is stated here over `ledger_tokens` and
//! `ledger_owner`.

use crate::account::AccountId;
use crate::token::{Token, TokenMetadata};
use near_contract_standards::non_fungible_token::metadata::TokenMetadata as NearTokenMetadata;
use near_contract_standards::non_fungible_token::NonFungibleToken;
use near_sdk::json_types::Base64VecU8;
use vstd::prelude::*;

verus! {

#[verifier::external_type_specification]
#[verifier::external_body]
pub struct ExNonFungibleToken(NonFungibleToken);

/// The tokens a ledger holds, keyed by token id.
pub uninterp spec fn ledger_tokens(t: NonFungibleToken) -> Map<Seq<char>, Token>;

/// The owner account the ledger was configured with at construction.
pub uninterp spec fn ledger_owner(t: NonFungibleToken) -> Seq<char>;

/// Relies on `NonFungibleToken::new` of the standard NFT library: it records
/// `owner` as the ledger's owner and binds the ledger to pairwise distinct
/// storage namespaces.
///
/// Nothing is claimed about the tokens the new ledger shows. The embedded
/// collections do not own their data: every read and write goes to the
/// account's persistent storage under the fixed namespace prefixes, so a new
/// handle shows whatever that storage already holds. That a contract fresh
/// out of an initializer has an empty ledger is the platform's guarantee —
/// initialization runs at most once per account, before anything was stored —
/// kept real by the runtime around the library, which persists the state of a
/// successful initializer and reports `state_exists` truthfully afterwards.
#[verifier::external_body]
pub(crate) fn new_ledger(owner: &AccountId) -> (t: NonFungibleToken)
    requires
        owner.wf(),
    ensures
        ledger_owner(t) == owner@,
{
    let owner_id: near_sdk::AccountId = owner.id.parse().unwrap();
    NonFungibleToken::new(vec![0u8], owner_id, Some(vec![2u8]), Some(vec![3u8]), Some(vec![4u8]))
}

/// Relies on the `owner_by_id` map of the standard NFT library's ledger: it
/// holds a token id exactly when that token was minted.
#[verifier::external_body]
pub(crate) fn ledger_contains(t: &NonFungibleToken, token_id: &String) -> (r: bool)
    ensures
        r == ledger_tokens(*t).dom().contains(token_id@),
{
    t.owner_by_id.get(token_id).is_some()
}

/// Relies on `NonFungibleToken::internal_mint` of the standard NFT library:
/// it records a token with the given id, owner and metadata in the ledger and
/// returns that token. When the deposit attached to the call does not cover
/// the added storage, the host aborts the call and rolls it back.
#[verifier::external_body]
pub(crate) fn mint_in_ledger(
    t: &mut NonFungibleToken,
    token_id: &String,
    receiver: &AccountId,
    md: TokenMetadata,
) -> (tok: Token)
    requires
        !ledger_tokens(*old(t)).dom().contains(token_id@),
        receiver.wf(),
    ensures
        ledger_tokens(*final(t)) == ledger_tokens(*old(t)).insert(token_id@, tok),
        ledger_owner(*final(t)) == ledger_owner(*old(t)),
        tok == (Token { token_id: *token_id, owner_id: *receiver, metadata: Some(md) }),
{
    let near_md = NearTokenMetadata {
        title: md.title.clone(), description: md.description.clone(), media: md.media.clone(),
        media_hash: md.media_hash.clone().map(Base64VecU8::from),
        copies: md.copies, issued_at: md.issued_at.clone(), expires_at: md.expires_at.clone(),
        starts_at: md.starts_at.clone(), updated_at: md.updated_at.clone(),
        extra: md.extra.clone(), reference: md.reference.clone(),
        reference_hash: md.reference_hash.clone().map(Base64VecU8::from),
    };
    let minted = t.internal_mint(token_id.clone(), receiver.id.parse().unwrap(), Some(near_md));
    Token {
        token_id: minted.token_id,
        owner_id: AccountId { id: minted.owner_id.to_string() },
        metadata: Some(md),
    }
}

/// Relies on the `owner_by_id` and `token_metadata_by_id` maps of the
/// standard NFT library's ledger: they return the stored owner and metadata
/// of the token with the given id, or nothing when no such token was minted.
#[verifier::external_body]
pub(crate) fn ledger_token(t: &NonFungibleToken, token_id: &String) -> (r: Option<Token>)
    ensures
        r is Some <==> ledger_tokens(*t).dom().contains(token_id@),
        r matches Some(tok) ==> tok == ledger_tokens(*t)[token_id@],
{
    let owner = match t.owner_by_id.get(token_id) { Some(o) => o, None => return None };
    let stored = t.token_metadata_by_id.as_ref().and_then(|by_id| by_id.get(token_id));
    Some(Token {
        token_id: token_id.clone(),
        owner_id: AccountId { id: owner.to_string() },
        metadata: stored.map(|m| TokenMetadata {
            title: m.title, description: m.description, media: m.media,
            media_hash: m.media_hash.map(|h| h.0), copies: m.copies, issued_at: m.issued_at,
            expires_at: m.expires_at, starts_at: m.starts_at, updated_at: m.updated_at,
            extra: m.extra, reference: m.reference, reference_hash: m.reference_hash.map(|h| h.0),
        }),
    })
}

} // verus!
