use crate::account::AccountId;
use crate::error::ContractError;
use crate::host::HostContext;
use crate::ledger::{
    ledger_contains, ledger_owner, ledger_token, ledger_tokens, mint_in_ledger, new_ledger,
};
use crate::metadata::{
    default_contract_metadata, is_default_contract_metadata, metadata_check, NftContractMetadata,
};
use crate::token::{Token, TokenMetadata};
use near_contract_standards::non_fungible_token::NonFungibleToken;
use vstd::prelude::*;

verus! {

/// The default title a fresh contract starts with.
pub open spec fn default_title() -> Seq<char> {
    "This is the default title"@
}

/// The default description a fresh contract starts with. sic: the spelling is
/// intentional, as it is an observable default.
pub open spec fn default_description() -> Seq<char> {
    "This is the default descripton"@
}

/// The default media URL a fresh contract starts with.
pub open spec fn default_media() -> Seq<char> {
    "https://i.ibb.co/R6P5Ppz/MLabs-logo-1200x1200-1.png"@
}

/// The default copy count a fresh contract starts with.
pub open spec fn default_copies() -> u64 {
    1u64
}

/// The persistent contract state: the four owner-configurable fields, the
/// embedded standard NFT ledger, and the contract-level metadata record fixed
/// at initialization.
pub struct Contract {
    /// Title copied into each minted token's metadata.
    pub title: String,
    /// Description copied into each minted token's metadata.
    pub description: String,
    /// Media URL copied into each minted token's metadata.
    pub media: String,
    /// Copy count copied into each minted token's metadata.
    pub copies: u64,
    /// The standard NFT ledger holding every minted token.
    pub tokens: NonFungibleToken,
    /// The contract-level metadata supplied to (or synthesized by) the
    /// initializer.
    pub metadata: NftContractMetadata,
}

/// A contract fresh out of either initializer: all four custom fields at
/// their defaults, and a ledger bound to `owner`. That the ledger also holds
/// no tokens yet is the platform's guarantee, not restated here: the ledger
/// reads the account's persistent storage, and initialization runs at most
/// once per account, before anything was stored under the ledger's
/// namespaces.
pub open spec fn fresh_contract(owner: AccountId, c: Contract) -> bool {
    &&& c.title@ == default_title()
    &&& c.description@ == default_description()
    &&& c.media@ == default_media()
    &&& c.copies == default_copies()
    &&& ledger_owner(c.tokens) == owner@
}

/// The per-token metadata the composer builds from contract state `c`: title,
/// description, media and copies are present with the current values, every
/// other field is absent.
pub open spec fn composed_token_metadata(c: Contract) -> TokenMetadata {
    TokenMetadata {
        title: Some(c.title),
        description: Some(c.description),
        media: Some(c.media),
        media_hash: None,
        copies: Some(c.copies),
        issued_at: None,
        expires_at: None,
        starts_at: None,
        updated_at: None,
        extra: None,
        reference: None,
        reference_hash: None,
    }
}

/// The transition a successful `set_title(v)` makes: only the title changes.
pub open spec fn sets_title(pre: Contract, post: Contract, v: String) -> bool {
    post == (Contract { title: v, ..pre })
}

/// The transition a successful `set_description(v)` makes: only the
/// description changes.
pub open spec fn sets_description(pre: Contract, post: Contract, v: String) -> bool {
    post == (Contract { description: v, ..pre })
}

/// The transition a successful `set_media(v)` makes: only the media URL
/// changes.
pub open spec fn sets_media(pre: Contract, post: Contract, v: String) -> bool {
    post == (Contract { media: v, ..pre })
}

/// The transition a successful `set_copies(v)` makes: only the copy count
/// changes.
pub open spec fn sets_copies(pre: Contract, post: Contract, v: u64) -> bool {
    post == (Contract { copies: v, ..pre })
}

/// The transition a successful `nft_mint(token_id, receiver)` makes: the
/// returned token carries the given id and receiver and a snapshot of the
/// current metadata, the ledger gains exactly that token, and everything else
/// is unchanged.
pub open spec fn mints(
    pre: Contract,
    post: Contract,
    token_id: String,
    receiver: AccountId,
    tok: Token,
) -> bool {
    &&& tok == (Token {
        token_id: token_id,
        owner_id: receiver,
        metadata: Some(composed_token_metadata(pre)),
    })
    &&& post.title == pre.title
    &&& post.description == pre.description
    &&& post.media == pre.media
    &&& post.copies == pre.copies
    &&& post.metadata == pre.metadata
    &&& ledger_tokens(post.tokens) == ledger_tokens(pre.tokens).insert(token_id@, tok)
    &&& ledger_owner(post.tokens) == ledger_owner(pre.tokens)
}

impl Contract {
    /// General initializer: fails when contract state already exists or when
    /// the metadata is invalid — naming the first failing check — and
    /// otherwise yields a fresh contract that keeps `metadata` and a ledger
    /// bound to `owner_id`.
    pub fn new(ctx: &HostContext, owner_id: AccountId, metadata: NftContractMetadata) -> (r:
        Result<Contract, ContractError>)
        requires
            owner_id.wf(),
        ensures
            r is Ok <==> (!ctx.state_exists && metadata.valid()),
            ctx.state_exists ==> r === Err(ContractError::AlreadyInitialized),
            !ctx.state_exists ==> (metadata_check(metadata) matches Err(e) ==> r === Err(e)),
            r matches Ok(c) ==> fresh_contract(owner_id, c) && c.metadata == metadata,
    {
        if ctx.state_exists {
            return Err(ContractError::AlreadyInitialized);
        }
        if let Err(e) = metadata.check_valid() {
            return Err(e);
        }
        Ok(
            Contract {
                title: "This is the default title".to_owned(),
                description: "This is the default descripton".to_owned(),
                media: "https://i.ibb.co/R6P5Ppz/MLabs-logo-1200x1200-1.png".to_owned(),
                copies: 1,
                tokens: new_ledger(&owner_id),
                metadata,
            },
        )
    }

    /// Initializer with synthesized default metadata: fails exactly when
    /// contract state already exists.
    pub fn new_default_meta(ctx: &HostContext, owner_id: AccountId) -> (r: Result<
        Contract,
        ContractError,
    >)
        requires
            owner_id.wf(),
        ensures
            r is Ok <==> !ctx.state_exists,
            ctx.state_exists ==> r === Err(ContractError::AlreadyInitialized),
            r matches Ok(c) ==> fresh_contract(owner_id, c) && is_default_contract_metadata(
                c.metadata@,
            ),
    {
        Self::new(ctx, owner_id, default_contract_metadata())
    }

    /// Returns the current title.
    pub fn get_title(&self) -> (r: String)
        ensures
            r == self.title,
    {
        self.title.clone()
    }

    /// Overwrites the title; only the contract's own account may call this.
    pub fn set_title(&mut self, ctx: &HostContext, new_title: String) -> (r: Result<
        (),
        ContractError,
    >)
        ensures
            r is Ok <==> ctx.caller_is_contract(),
            r is Ok ==> sets_title(*old(self), *final(self), new_title),
            r is Err ==> *final(self) == *old(self) && r === Err(ContractError::UnauthorizedCaller),
    {
        if !ctx.check_caller_is_contract() {
            return Err(ContractError::UnauthorizedCaller);
        }
        self.title = new_title;
        Ok(())
    }

    /// Returns the current description.
    pub fn get_description(&self) -> (r: String)
        ensures
            r == self.description,
    {
        self.description.clone()
    }

    /// Overwrites the description; only the contract's own account may call
    /// this.
    pub fn set_description(&mut self, ctx: &HostContext, new_description: String) -> (r: Result<
        (),
        ContractError,
    >)
        ensures
            r is Ok <==> ctx.caller_is_contract(),
            r is Ok ==> sets_description(*old(self), *final(self), new_description),
            r is Err ==> *final(self) == *old(self) && r === Err(ContractError::UnauthorizedCaller),
    {
        if !ctx.check_caller_is_contract() {
            return Err(ContractError::UnauthorizedCaller);
        }
        self.description = new_description;
        Ok(())
    }

    /// Returns the current media URL.
    pub fn get_media(&self) -> (r: String)
        ensures
            r == self.media,
    {
        self.media.clone()
    }

    /// Overwrites the media URL; only the contract's own account may call
    /// this.
    pub fn set_media(&mut self, ctx: &HostContext, new_media: String) -> (r: Result<
        (),
        ContractError,
    >)
        ensures
            r is Ok <==> ctx.caller_is_contract(),
            r is Ok ==> sets_media(*old(self), *final(self), new_media),
            r is Err ==> *final(self) == *old(self) && r === Err(ContractError::UnauthorizedCaller),
    {
        if !ctx.check_caller_is_contract() {
            return Err(ContractError::UnauthorizedCaller);
        }
        self.media = new_media;
        Ok(())
    }

    /// Returns the current copy count.
    pub fn get_copies(&self) -> (r: u64)
        ensures
            r == self.copies,
    {
        self.copies
    }

    /// Overwrites the copy count; only the contract's own account may call
    /// this.
    pub fn set_copies(&mut self, ctx: &HostContext, new_copies: u64) -> (r: Result<
        (),
        ContractError,
    >)
        ensures
            r is Ok <==> ctx.caller_is_contract(),
            r is Ok ==> sets_copies(*old(self), *final(self), new_copies),
            r is Err ==> *final(self) == *old(self) && r === Err(ContractError::UnauthorizedCaller),
    {
        if !ctx.check_caller_is_contract() {
            return Err(ContractError::UnauthorizedCaller);
        }
        self.copies = new_copies;
        Ok(())
    }

    /// The metadata composer: a pure function of the current contract state.
    /// Title, description, media and copies are present with the current
    /// values; every other field is absent.
    pub fn mk_metadata(&self) -> (r: TokenMetadata)
        ensures
            r == composed_token_metadata(*self),
    {
        TokenMetadata {
            title: Some(self.get_title()),
            description: Some(self.get_description()),
            media: Some(self.get_media()),
            media_hash: None,
            copies: Some(self.get_copies()),
            issued_at: None,
            expires_at: None,
            starts_at: None,
            updated_at: None,
            extra: None,
            reference: None,
            reference_hash: None,
        }
    }

    /// Mints a token with the given id for `receiver_id`, recording the
    /// composed metadata snapshot. Only the contract's own account may call
    /// this, and the token id must be new; on either failure nothing changes.
    pub fn nft_mint(&mut self, ctx: &HostContext, token_id: String, receiver_id: AccountId) -> (r:
        Result<Token, ContractError>)
        requires
            receiver_id.wf(),
        ensures
            r is Ok <==> (ctx.caller_is_contract() && !ledger_tokens(old(self).tokens).dom().contains(
                token_id@,
            )),
            !ctx.caller_is_contract() ==> *final(self) == *old(self) && r === Err(
                ContractError::UnauthorizedCaller,
            ),
            (ctx.caller_is_contract() && ledger_tokens(old(self).tokens).dom().contains(token_id@))
                ==> *final(self) == *old(self) && r === Err(ContractError::TokenIdAlreadyExists),
            r matches Ok(tok) ==> mints(*old(self), *final(self), token_id, receiver_id, tok),
    {
        if !ctx.check_caller_is_contract() {
            return Err(ContractError::UnauthorizedCaller);
        }
        if ledger_contains(&self.tokens, &token_id) {
            return Err(ContractError::TokenIdAlreadyExists);
        }
        let metadata = self.mk_metadata();
        let tok = mint_in_ledger(&mut self.tokens, &token_id, &receiver_id, metadata);
        Ok(tok)
    }

    /// Looks a token up in the ledger by its id.
    pub fn nft_token(&self, token_id: String) -> (r: Option<Token>)
        ensures
            r is Some <==> ledger_tokens(self.tokens).dom().contains(token_id@),
            r matches Some(tok) ==> tok == ledger_tokens(self.tokens)[token_id@],
    {
        ledger_token(&self.tokens, &token_id)
    }

    /// Returns the contract-level metadata fixed at initialization.
    pub fn nft_metadata(&self) -> (r: NftContractMetadata)
        ensures
            r@ == self.metadata@,
    {
        self.metadata.duplicate()
    }
}

} // verus!
