//! The messages, responses and envelopes that the handle works on, each with
//! the mathematical value that contracts speak of.
use cosmwasm_std::StdError;
use vstd::prelude::*;

verus! {

/// `cosmwasm_std::StdError`, carried through unread.
#[verifier::external_type_specification]
#[verifier::external_body]
pub struct ExStdError(cosmwasm_std::StdError);

/// The point at which an approval ends.
#[derive(Clone, Copy, Debug, PartialEq, Eq)]
pub enum Expiration {
    /// Ends once the block height reaches this value.
    AtHeight(u64),
    /// Ends once the block time reaches this many nanoseconds since the epoch.
    AtTime(u64),
    /// Never ends.
    Never,
}

/// An extension that holds nothing.
#[derive(Clone, Copy, Debug, PartialEq, Eq)]
pub struct Empty {}

/// The fields of a mint operation.
#[derive(Clone, Debug, PartialEq, Eq)]
pub struct MintMsg {
    /// The identifier of the new token.
    pub token_id: String,
    /// The owner of the new token.
    pub owner: String,
    /// Where the token's metadata lies.
    pub token_uri: Option<String>,
    /// The contract's own extension of the token, here an empty one or none.
    pub extension: Option<Empty>,
}

/// An operation that the NFT contract executes.
#[derive(Clone, Debug, PartialEq, Eq)]
pub enum ExecuteMsg {
    TransferNft { recipient: String, token_id: String },
    SendNft { contract: String, token_id: String, msg: Vec<u8> },
    Approve { spender: String, token_id: String, expires: Option<Expiration> },
    Revoke { spender: String, token_id: String },
    ApproveAll { operator: String, expires: Option<Expiration> },
    RevokeAll { operator: String },
    Mint(MintMsg),
    Burn { token_id: String },
}

/// The value of an [`ExecuteMsg`].
pub enum ExecuteMsgView {
    TransferNft { recipient: Seq<char>, token_id: Seq<char> },
    SendNft { contract: Seq<char>, token_id: Seq<char>, msg: Seq<u8> },
    Approve { spender: Seq<char>, token_id: Seq<char>, expires: Option<Expiration> },
    Revoke { spender: Seq<char>, token_id: Seq<char> },
    ApproveAll { operator: Seq<char>, expires: Option<Expiration> },
    RevokeAll { operator: Seq<char> },
    Mint {
        token_id: Seq<char>,
        owner: Seq<char>,
        token_uri: Option<Seq<char>>,
        extension: Option<Empty>,
    },
    Burn { token_id: Seq<char> },
}

/// The characters of an optional string.
pub open spec fn text_of(s: Option<String>) -> Option<Seq<char>> {
    match s {
        Some(t) => Some(t@),
        None => None,
    }
}

impl View for ExecuteMsg {
    type V = ExecuteMsgView;

    open spec fn view(&self) -> ExecuteMsgView {
        match *self {
            ExecuteMsg::TransferNft { recipient, token_id } => ExecuteMsgView::TransferNft {
                recipient: recipient@,
                token_id: token_id@,
            },
            ExecuteMsg::SendNft { contract, token_id, msg } => ExecuteMsgView::SendNft {
                contract: contract@,
                token_id: token_id@,
                msg: msg@,
            },
            ExecuteMsg::Approve { spender, token_id, expires } => ExecuteMsgView::Approve {
                spender: spender@,
                token_id: token_id@,
                expires,
            },
            ExecuteMsg::Revoke { spender, token_id } => ExecuteMsgView::Revoke {
                spender: spender@,
                token_id: token_id@,
            },
            ExecuteMsg::ApproveAll { operator, expires } => ExecuteMsgView::ApproveAll {
                operator: operator@,
                expires,
            },
            ExecuteMsg::RevokeAll { operator } => ExecuteMsgView::RevokeAll { operator: operator@ },
            ExecuteMsg::Mint(m) => ExecuteMsgView::Mint {
                token_id: m.token_id@,
                owner: m.owner@,
                token_uri: text_of(m.token_uri),
                extension: m.extension,
            },
            ExecuteMsg::Burn { token_id } => ExecuteMsgView::Burn { token_id: token_id@ },
        }
    }
}

/// A read-only request that the handle sends to the NFT contract.
#[derive(Clone, Debug, PartialEq, Eq)]
pub enum QueryMsg {
    /// Who owns the token.
    OwnerOf { token_id: String, include_expired: Option<bool> },
    /// The identifiers of the tokens that the contract holds, one page of them.
    AllTokens { start_after: Option<String>, limit: Option<u32> },
}

/// The value of a [`QueryMsg`].
pub enum QueryMsgView {
    OwnerOf { token_id: Seq<char>, include_expired: Option<bool> },
    AllTokens { start_after: Option<Seq<char>>, limit: Option<u32> },
}

impl View for QueryMsg {
    type V = QueryMsgView;

    open spec fn view(&self) -> QueryMsgView {
        match *self {
            QueryMsg::OwnerOf { token_id, include_expired } => QueryMsgView::OwnerOf {
                token_id: token_id@,
                include_expired,
            },
            QueryMsg::AllTokens { start_after, limit } => QueryMsgView::AllTokens {
                start_after: text_of(start_after),
                limit,
            },
        }
    }
}

/// An amount of one currency.
#[derive(Clone, Debug, PartialEq, Eq)]
pub struct Coin {
    pub denom: String,
    pub amount: u128,
}

impl View for Coin {
    type V = (Seq<char>, u128);

    open spec fn view(&self) -> (Seq<char>, u128) {
        (self.denom@, self.amount)
    }
}

/// The ledger's message that executes an operation on a contract.
#[derive(Clone, Debug, PartialEq, Eq)]
pub struct ExecuteEnvelope {
    /// The contract that is to execute the operation.
    pub contract_addr: String,
    /// The encoded operation.
    pub msg: Vec<u8>,
    /// The funds sent along.
    pub funds: Vec<Coin>,
}

/// The value of an [`ExecuteEnvelope`].
pub struct ExecuteEnvelopeView {
    pub contract_addr: Seq<char>,
    pub msg: Seq<u8>,
    pub funds: Seq<(Seq<char>, u128)>,
}

impl View for ExecuteEnvelope {
    type V = ExecuteEnvelopeView;

    open spec fn view(&self) -> ExecuteEnvelopeView {
        ExecuteEnvelopeView {
            contract_addr: self.contract_addr@,
            msg: self.msg@,
            funds: self.funds@.map_values(|c: Coin| c@),
        }
    }
}

/// The ledger's read-only request to a contract's query handler.
#[derive(Clone, Debug, PartialEq, Eq)]
pub struct SmartQuery {
    /// The contract that is asked.
    pub contract_addr: String,
    /// The encoded request.
    pub msg: Vec<u8>,
}

/// The value of a [`SmartQuery`].
pub struct SmartQueryView {
    pub contract_addr: Seq<char>,
    pub msg: Seq<u8>,
}

impl View for SmartQuery {
    type V = SmartQueryView;

    open spec fn view(&self) -> SmartQueryView {
        SmartQueryView { contract_addr: self.contract_addr@, msg: self.msg@ }
    }
}

/// One account's permission to move a token.
#[derive(Clone, Debug, PartialEq, Eq)]
pub struct Approval {
    pub spender: String,
    pub expires: Expiration,
}

impl View for Approval {
    type V = (Seq<char>, Expiration);

    open spec fn view(&self) -> (Seq<char>, Expiration) {
        (self.spender@, self.expires)
    }
}

/// The answer to [`QueryMsg::OwnerOf`].
#[derive(Clone, Debug, PartialEq, Eq)]
pub struct OwnerOfResponse {
    pub owner: String,
    pub approvals: Vec<Approval>,
}

/// The value of an [`OwnerOfResponse`].
pub struct OwnerOfResponseView {
    pub owner: Seq<char>,
    pub approvals: Seq<(Seq<char>, Expiration)>,
}

impl View for OwnerOfResponse {
    type V = OwnerOfResponseView;

    open spec fn view(&self) -> OwnerOfResponseView {
        OwnerOfResponseView {
            owner: self.owner@,
            approvals: self.approvals@.map_values(|a: Approval| a@),
        }
    }
}

/// The answer to [`QueryMsg::AllTokens`]: the identifiers in the order in
/// which the contract gave them.
#[derive(Clone, Debug, PartialEq, Eq)]
pub struct TokensResponse {
    pub tokens: Vec<String>,
}

impl View for TokensResponse {
    type V = Seq<Seq<char>>;

    open spec fn view(&self) -> Seq<Seq<char>> {
        self.tokens@.map_values(|t: String| t@)
    }
}

/// Why a call or a query failed.
#[derive(Debug, PartialEq)]
pub enum NftError {
    /// The message could not be encoded.
    Serialization(StdError),
    /// The query was not answered: the contract rejected it or does not
    /// exist. Holds the querier's message.
    Query(String),
    /// The answer is not of the expected shape.
    Deserialization(StdError),
}

/// The value of an [`NftError`]: the kind of failure, and for a query the
/// querier's message.
pub enum NftErrorView {
    Serialization,
    Query(Seq<char>),
    Deserialization,
}

impl View for NftError {
    type V = NftErrorView;

    open spec fn view(&self) -> NftErrorView {
        match *self {
            NftError::Serialization(_) => NftErrorView::Serialization,
            NftError::Query(m) => NftErrorView::Query(m@),
            NftError::Deserialization(_) => NftErrorView::Deserialization,
        }
    }
}

/// The value of a result whose two sides have values.
pub open spec fn result_view<T: View, E: View>(r: Result<T, E>) -> Result<T::V, E::V> {
    match r {
        Ok(t) => Ok(t@),
        Err(e) => Err(e@),
    }
}

/// What a querier hands back: the encoded answer, or its message of failure.
pub open spec fn reply_view(r: Result<Vec<u8>, String>) -> Result<Seq<u8>, Seq<char>> {
    match r {
        Ok(b) => Ok(b@),
        Err(m) => Err(m@),
    }
}

} // verus!
