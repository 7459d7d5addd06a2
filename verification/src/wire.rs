//! The JSON encoding of the messages and the decoding of the answers, done
//! by `cosmwasm_std` on the types of `cw721` and `cw721_base`.
//!
//! The encoders and decoders at the end of this file are not verified: each
//! makes one call of `cosmwasm_std` and its contract names what that call
//! returns.
use crate::msg::{
    result_view, text_of, Approval, Empty, ExecuteMsg, ExecuteMsgView, Expiration, NftError,
    NftErrorView, OwnerOfResponse, OwnerOfResponseView, QueryMsg, QueryMsgView, TokensResponse,
};
use cosmwasm_std::StdError;
use vstd::prelude::*;

verus! {

/// The JSON bytes that `cosmwasm_std::to_binary` gives for an execute
/// message of `cw721_base` with these fields, its extension an optional
/// `cosmwasm_std::Empty`, or `None` where it fails.
pub uninterp spec fn execute_payload(msg: ExecuteMsgView) -> Option<Seq<u8>>;

/// The JSON bytes that `cosmwasm_std::to_binary` gives for a query message
/// of `cw721_base` with these fields, or `None` where it fails.
pub uninterp spec fn query_payload(msg: QueryMsgView) -> Option<Seq<u8>>;

/// The owner response of `cw721` that `cosmwasm_std::from_slice` reads from
/// these bytes, or `None` where it fails.
pub uninterp spec fn owner_of_decoding(bytes: Seq<u8>) -> Option<OwnerOfResponseView>;

/// The tokens response of `cw721` that `cosmwasm_std::from_slice` reads from
/// these bytes, or `None` where it fails.
pub uninterp spec fn tokens_decoding(bytes: Seq<u8>) -> Option<Seq<Seq<char>>>;

/// Whether `out` is what an encoder owes for the named payload `expected`.
pub open spec fn encoded_as(out: Result<Vec<u8>, StdError>, expected: Option<Seq<u8>>) -> bool {
    match expected {
        Some(bytes) => out matches Ok(b) && b@ == bytes,
        None => out is Err,
    }
}

/// The outcome of encoding, as callers see it.
pub open spec fn payload_result(expected: Option<Seq<u8>>) -> Result<Seq<u8>, NftErrorView> {
    match expected {
        Some(bytes) => Ok(bytes),
        None => Err(NftErrorView::Serialization),
    }
}

/// Encodes an operation for the NFT contract.
pub fn encode_execute(msg: &ExecuteMsg) -> (out: Result<Vec<u8>, NftError>)
    ensures
        result_view(out) == payload_result(execute_payload(msg@)),
{
    let encoded = match msg {
        ExecuteMsg::TransferNft { recipient, token_id } => encode_transfer_nft(recipient, token_id),
        ExecuteMsg::SendNft { contract, token_id, msg } => encode_send_nft(contract, token_id, msg),
        ExecuteMsg::Approve { spender, token_id, expires } => encode_approve(
            spender,
            token_id,
            *expires,
        ),
        ExecuteMsg::Revoke { spender, token_id } => encode_revoke(spender, token_id),
        ExecuteMsg::ApproveAll { operator, expires } => encode_approve_all(operator, *expires),
        ExecuteMsg::RevokeAll { operator } => encode_revoke_all(operator),
        ExecuteMsg::Mint(m) => encode_mint(&m.token_id, &m.owner, &m.token_uri, m.extension),
        ExecuteMsg::Burn { token_id } => encode_burn(token_id),
    };
    match encoded {
        Ok(bytes) => Ok(bytes),
        Err(e) => Err(NftError::Serialization(e)),
    }
}

/// Encodes a request for the NFT contract.
pub fn encode_query(msg: &QueryMsg) -> (out: Result<Vec<u8>, NftError>)
    ensures
        result_view(out) == payload_result(query_payload(msg@)),
{
    let encoded = match msg {
        QueryMsg::OwnerOf { token_id, include_expired } => encode_owner_of(
            token_id,
            *include_expired,
        ),
        QueryMsg::AllTokens { start_after, limit } => encode_all_tokens(start_after, *limit),
    };
    match encoded {
        Ok(bytes) => Ok(bytes),
        Err(e) => Err(NftError::Serialization(e)),
    }
}

/// The outcome of decoding, as callers see it.
pub open spec fn decoded_result<V>(expected: Option<V>) -> Result<V, NftErrorView> {
    match expected {
        Some(v) => Ok(v),
        None => Err(NftErrorView::Deserialization),
    }
}

/// Reads the answer to an owner request.
pub fn decode_owner_of(bytes: &Vec<u8>) -> (out: Result<OwnerOfResponse, NftError>)
    ensures
        result_view(out) == decoded_result(owner_of_decoding(bytes@)),
{
    match read_owner_of(bytes) {
        Ok(response) => Ok(response),
        Err(e) => Err(NftError::Deserialization(e)),
    }
}

/// Reads the answer to a tokens request.
pub fn decode_tokens(bytes: &Vec<u8>) -> (out: Result<TokensResponse, NftError>)
    ensures
        result_view(out) == decoded_result(tokens_decoding(bytes@)),
{
    match read_tokens(bytes) {
        Ok(response) => Ok(response),
        Err(e) => Err(NftError::Deserialization(e)),
    }
}

/// `cosmwasm_std::to_binary` on `cw721_base::ExecuteMsg::TransferNft` with
/// these fields: the bytes that [`execute_payload`] names for them, or an
/// error where it names none.
#[allow(deprecated)]
#[verifier::external_body]
fn encode_transfer_nft(recipient: &String, token_id: &String) -> (out: Result<Vec<u8>, StdError>)
    ensures
        encoded_as(
            out,
            execute_payload(
                (ExecuteMsgView::TransferNft { recipient: recipient@, token_id: token_id@ }),
            ),
        ),
{
    let m: cw721_base::ExecuteMsg<cw721_base::Extension> = cw721_base::ExecuteMsg::TransferNft {
        recipient: recipient.clone(),
        token_id: token_id.clone(),
    };
    cosmwasm_std::to_binary(&m).map(|b| b.0)
}

/// `cosmwasm_std::to_binary` on `cw721_base::ExecuteMsg::SendNft` with these
/// fields, the inner message as a `Binary`: the bytes that
/// [`execute_payload`] names for them, or an error where it names none.
#[allow(deprecated)]
#[verifier::external_body]
fn encode_send_nft(contract: &String, token_id: &String, msg: &Vec<u8>) -> (out: Result<
    Vec<u8>,
    StdError,
>)
    ensures
        encoded_as(
            out,
            execute_payload(
                (ExecuteMsgView::SendNft { contract: contract@, token_id: token_id@, msg: msg@ }),
            ),
        ),
{
    let m: cw721_base::ExecuteMsg<cw721_base::Extension> = cw721_base::ExecuteMsg::SendNft {
        contract: contract.clone(),
        token_id: token_id.clone(),
        msg: cosmwasm_std::Binary(msg.clone()),
    };
    cosmwasm_std::to_binary(&m).map(|b| b.0)
}

/// `cosmwasm_std::to_binary` on `cw721_base::ExecuteMsg::Approve` with these
/// fields, a time as a `Timestamp` of that many nanoseconds: the bytes that
/// [`execute_payload`] names for them, or an error where it names none.
#[allow(deprecated)]
#[verifier::external_body]
fn encode_approve(spender: &String, token_id: &String, expires: Option<Expiration>) -> (out: Result<
    Vec<u8>,
    StdError,
>)
    ensures
        encoded_as(
            out,
            execute_payload(
                (ExecuteMsgView::Approve { spender: spender@, token_id: token_id@, expires }),
            ),
        ),
{
    let expires = expires.map(|e| match e {
        Expiration::AtHeight(h) => cw721::Expiration::AtHeight(h),
        Expiration::AtTime(t) => cw721::Expiration::AtTime(cosmwasm_std::Timestamp::from_nanos(t)),
        Expiration::Never => cw721::Expiration::Never {},
    });
    let m: cw721_base::ExecuteMsg<cw721_base::Extension> = cw721_base::ExecuteMsg::Approve {
        spender: spender.clone(),
        token_id: token_id.clone(),
        expires,
    };
    cosmwasm_std::to_binary(&m).map(|b| b.0)
}

/// `cosmwasm_std::to_binary` on `cw721_base::ExecuteMsg::Revoke` with these
/// fields: the bytes that [`execute_payload`] names for them, or an error
/// where it names none.
#[allow(deprecated)]
#[verifier::external_body]
fn encode_revoke(spender: &String, token_id: &String) -> (out: Result<Vec<u8>, StdError>)
    ensures
        encoded_as(
            out,
            execute_payload((ExecuteMsgView::Revoke { spender: spender@, token_id: token_id@ })),
        ),
{
    let m: cw721_base::ExecuteMsg<cw721_base::Extension> = cw721_base::ExecuteMsg::Revoke {
        spender: spender.clone(),
        token_id: token_id.clone(),
    };
    cosmwasm_std::to_binary(&m).map(|b| b.0)
}

/// `cosmwasm_std::to_binary` on `cw721_base::ExecuteMsg::ApproveAll` with
/// these fields, a time as a `Timestamp` of that many nanoseconds: the bytes
/// that [`execute_payload`] names for them, or an error where it names none.
#[allow(deprecated)]
#[verifier::external_body]
fn encode_approve_all(operator: &String, expires: Option<Expiration>) -> (out: Result<
    Vec<u8>,
    StdError,
>)
    ensures
        encoded_as(
            out,
            execute_payload((ExecuteMsgView::ApproveAll { operator: operator@, expires })),
        ),
{
    let expires = expires.map(|e| match e {
        Expiration::AtHeight(h) => cw721::Expiration::AtHeight(h),
        Expiration::AtTime(t) => cw721::Expiration::AtTime(cosmwasm_std::Timestamp::from_nanos(t)),
        Expiration::Never => cw721::Expiration::Never {},
    });
    let m: cw721_base::ExecuteMsg<cw721_base::Extension> = cw721_base::ExecuteMsg::ApproveAll {
        operator: operator.clone(),
        expires,
    };
    cosmwasm_std::to_binary(&m).map(|b| b.0)
}

/// `cosmwasm_std::to_binary` on `cw721_base::ExecuteMsg::RevokeAll` with this
/// operator: the bytes that [`execute_payload`] names for it, or an error
/// where it names none.
#[allow(deprecated)]
#[verifier::external_body]
fn encode_revoke_all(operator: &String) -> (out: Result<Vec<u8>, StdError>)
    ensures
        encoded_as(out, execute_payload((ExecuteMsgView::RevokeAll { operator: operator@ }))),
{
    let m: cw721_base::ExecuteMsg<cw721_base::Extension> = cw721_base::ExecuteMsg::RevokeAll {
        operator: operator.clone(),
    };
    cosmwasm_std::to_binary(&m).map(|b| b.0)
}

/// `cosmwasm_std::to_binary` on `cw721_base::ExecuteMsg::Mint` with these
/// fields, the extension as a `cosmwasm_std::Empty` where there is one: the
/// bytes that [`execute_payload`] names for them, or an error where it names
/// none.
#[allow(deprecated)]
#[verifier::external_body]
fn encode_mint(
    token_id: &String,
    owner: &String,
    token_uri: &Option<String>,
    extension: Option<Empty>,
) -> (out: Result<Vec<u8>, StdError>)
    ensures
        encoded_as(
            out,
            execute_payload(
                (ExecuteMsgView::Mint {
                    token_id: token_id@,
                    owner: owner@,
                    token_uri: text_of(*token_uri),
                    extension,
                }),
            ),
        ),
{
    let m: cw721_base::ExecuteMsg<cw721_base::Extension> = cw721_base::ExecuteMsg::Mint(
        cw721_base::MintMsg {
            token_id: token_id.clone(),
            owner: owner.clone(),
            token_uri: token_uri.clone(),
            extension: extension.map(|_| cosmwasm_std::Empty {}),
        },
    );
    cosmwasm_std::to_binary(&m).map(|b| b.0)
}

/// `cosmwasm_std::to_binary` on `cw721_base::ExecuteMsg::Burn` with this
/// token: the bytes that [`execute_payload`] names for it, or an error where
/// it names none.
#[allow(deprecated)]
#[verifier::external_body]
fn encode_burn(token_id: &String) -> (out: Result<Vec<u8>, StdError>)
    ensures
        encoded_as(out, execute_payload((ExecuteMsgView::Burn { token_id: token_id@ }))),
{
    let m: cw721_base::ExecuteMsg<cw721_base::Extension> = cw721_base::ExecuteMsg::Burn {
        token_id: token_id.clone(),
    };
    cosmwasm_std::to_binary(&m).map(|b| b.0)
}

/// `cosmwasm_std::to_binary` on `cw721_base::QueryMsg::OwnerOf` with these
/// fields: the bytes that [`query_payload`] names for them, or an error where
/// it names none.
#[allow(deprecated)]
#[verifier::external_body]
fn encode_owner_of(token_id: &String, include_expired: Option<bool>) -> (out: Result<
    Vec<u8>,
    StdError,
>)
    ensures
        encoded_as(
            out,
            query_payload((QueryMsgView::OwnerOf { token_id: token_id@, include_expired })),
        ),
{
    let m = cw721_base::QueryMsg::OwnerOf { token_id: token_id.clone(), include_expired };
    cosmwasm_std::to_binary(&m).map(|b| b.0)
}

/// `cosmwasm_std::to_binary` on `cw721_base::QueryMsg::AllTokens` with these
/// fields: the bytes that [`query_payload`] names for them, or an error where
/// it names none.
#[allow(deprecated)]
#[verifier::external_body]
fn encode_all_tokens(start_after: &Option<String>, limit: Option<u32>) -> (out: Result<
    Vec<u8>,
    StdError,
>)
    ensures
        encoded_as(
            out,
            query_payload((QueryMsgView::AllTokens { start_after: text_of(*start_after), limit })),
        ),
{
    let m = cw721_base::QueryMsg::AllTokens { start_after: start_after.clone(), limit };
    cosmwasm_std::to_binary(&m).map(|b| b.0)
}

/// `cosmwasm_std::from_slice` to a `cw721::OwnerOfResponse`, handed on field
/// by field, a `Timestamp` as its nanoseconds: the response that
/// [`owner_of_decoding`] names for the bytes, or an error where it names
/// none.
#[allow(deprecated)]
#[verifier::external_body]
fn read_owner_of(bytes: &Vec<u8>) -> (out: Result<OwnerOfResponse, StdError>)
    ensures
        match owner_of_decoding(bytes@) {
            Some(v) => out matches Ok(r) && r@ == v,
            None => out is Err,
        },
{
    let res: cw721::OwnerOfResponse = cosmwasm_std::from_slice(bytes)?;
    let approvals = res.approvals.into_iter().map(|a| Approval {
        spender: a.spender,
        expires: match a.expires {
            cw721::Expiration::AtHeight(h) => Expiration::AtHeight(h),
            cw721::Expiration::AtTime(t) => Expiration::AtTime(t.nanos()),
            cw721::Expiration::Never {} => Expiration::Never,
        },
    }).collect();
    Ok(OwnerOfResponse { owner: res.owner, approvals })
}

/// `cosmwasm_std::from_slice` to a `cw721::TokensResponse`, whose tokens are
/// handed on in their order: the sequence that [`tokens_decoding`] names for
/// the bytes, or an error where it names none.
#[allow(deprecated)]
#[verifier::external_body]
fn read_tokens(bytes: &Vec<u8>) -> (out: Result<TokensResponse, StdError>)
    ensures
        match tokens_decoding(bytes@) {
            Some(v) => out matches Ok(r) && r@ == v,
            None => out is Err,
        },
{
    let res: cw721::TokensResponse = cosmwasm_std::from_slice(bytes)?;
    Ok(TokensResponse { tokens: res.tokens })
}

} // verus!
