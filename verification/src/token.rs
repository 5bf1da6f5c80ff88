use crate::account::AccountId;
use vstd::prelude::*;

verus! {

/// Per-token metadata: the record attached to a token when it is minted. The
/// contract's metadata composer fills title, description, media and copies
/// from the current contract state and leaves every other field absent.
#[derive(Debug, PartialEq, Eq)]
pub struct TokenMetadata {
    /// Display title of this token.
    pub title: Option<String>,
    /// Free-form description.
    pub description: Option<String>,
    /// URL of the associated media.
    pub media: Option<String>,
    /// Hash of the content behind `media`.
    pub media_hash: Option<Vec<u8>>,
    /// Number of copies of this metadata in existence when the token was
    /// minted.
    pub copies: Option<u64>,
    /// When the token was issued or minted.
    pub issued_at: Option<String>,
    /// When the token expires.
    pub expires_at: Option<String>,
    /// When the token starts being valid.
    pub starts_at: Option<String>,
    /// When the token was last updated.
    pub updated_at: Option<String>,
    /// Anything extra the token wants to store on-chain.
    pub extra: Option<String>,
    /// URL of an off-chain JSON file with more information.
    pub reference: Option<String>,
    /// Hash of the JSON file behind `reference`.
    pub reference_hash: Option<Vec<u8>>,
}

/// A minted token as the ledger reports it: its id, its owner, and the
/// metadata snapshot taken at mint time.
#[derive(Debug, PartialEq, Eq)]
pub struct Token {
    /// The unique id of the token.
    pub token_id: String,
    /// The account that owns the token.
    pub owner_id: AccountId,
    /// The metadata recorded for the token when it was minted.
    pub metadata: Option<TokenMetadata>,
}

} // verus!
