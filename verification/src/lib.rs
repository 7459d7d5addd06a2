//! A typed handle on a deployed NFT contract.
//!
//! [`helpers::NftContract`] wraps the contract's address and shapes single
//! calls: an execute envelope for an operation, and smart queries for the
//! owner of a token and for the list of all tokens. The JSON encoding of
//! the messages is done by `cosmwasm_std`, on the message types of `cw721`
//! and `cw721_base`; everything around it is verified.
pub mod helpers;
pub mod msg;
pub mod wire;
