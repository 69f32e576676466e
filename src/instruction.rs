use vstd::prelude::*;

use crate::coin::Coin;

verus! {

/// The custom metadata of a minted asset.
#[derive(Debug, PartialEq, Eq)]
pub struct Extension {
    pub minter: String,
    pub image_url: String,
}

/// What the asset registry is asked to mint.
#[derive(Debug, PartialEq, Eq)]
pub struct MintMsg<T> {
    pub token_id: String,
    pub owner: String,
    pub token_uri: Option<String>,
    pub content_type: String,
    pub extension: T,
}

/// An external instruction that a successful call hands to the host, to be
/// carried out after the call's state changes are committed.
#[derive(Debug, PartialEq, Eq)]
pub enum Instruction {
    /// Send `amount` of native funds to `to_address`.
    SendFunds { to_address: String, amount: Coin },
    /// Ask the asset registry at `contract` to move `token_id` to `recipient`.
    TransferNft { contract: String, recipient: String, token_id: String },
    /// Ask the asset registry of the sale to mint an asset.
    MintNft(MintMsg<Extension>),
}

} // verus!
