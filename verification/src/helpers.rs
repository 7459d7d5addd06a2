//! The handle on the NFT contract.
use crate::msg::{
    reply_view, result_view, ExecuteEnvelope, ExecuteEnvelopeView, ExecuteMsg, ExecuteMsgView,
    NftError, NftErrorView, OwnerOfResponse, OwnerOfResponseView, QueryMsg, QueryMsgView,
    SmartQuery, SmartQueryView, TokensResponse,
};
use crate::wire::{
    decode_owner_of, decode_tokens, decoded_result, encode_execute, encode_query,
    execute_payload, owner_of_decoding, query_payload, tokens_decoding,
};
use vstd::prelude::*;
use vstd::std_specs::convert::IntoSpec;

verus! {

/// The capability to ask a contract on the ledger: one encoded request in,
/// the encoded answer or a message of failure out.
pub trait Querier {
    /// Whether `reply` is an answer that this querier may give to `request`.
    /// The implementor chooses it; as it stands here it admits every reply.
    open spec fn answers(
        &self,
        request: SmartQueryView,
        reply: Result<Seq<u8>, Seq<char>>,
    ) -> bool {
        true
    }

    /// Sends the request and waits for the answer.
    fn smart_query(&self, request: &SmartQuery) -> (reply: Result<Vec<u8>, String>)
        ensures
            self.answers(request@, reply_view(reply)),
    ;
}

/// A handle on one deployed NFT contract, which it knows by its address. The
/// address is kept as given and never validated.
#[derive(Clone, Debug, PartialEq, Eq)]
pub struct NftContract(pub String);

impl View for NftContract {
    type V = Seq<char>;

    open spec fn view(&self) -> Seq<char> {
        self.0@
    }
}

/// The request for the owner of a token: approvals that have expired are not
/// asked for.
pub open spec fn owner_of_request(token_id: Seq<char>) -> QueryMsgView {
    QueryMsgView::OwnerOf { token_id, include_expired: None }
}

/// The request for all tokens: no cursor and no limit.
pub open spec fn all_tokens_request() -> QueryMsgView {
    QueryMsgView::AllTokens { start_after: None, limit: None }
}

/// What a querier's reply to an owner request means.
pub open spec fn owner_of_outcome(reply: Result<Seq<u8>, Seq<char>>) -> Result<
    OwnerOfResponseView,
    NftErrorView,
> {
    match reply {
        Ok(bytes) => decoded_result(owner_of_decoding(bytes)),
        Err(m) => Err(NftErrorView::Query(m)),
    }
}

/// What a querier's reply to a tokens request means.
pub open spec fn tokens_outcome(reply: Result<Seq<u8>, Seq<char>>) -> Result<
    Seq<Seq<char>>,
    NftErrorView,
> {
    match reply {
        Ok(bytes) => decoded_result(tokens_decoding(bytes)),
        Err(m) => Err(NftErrorView::Query(m)),
    }
}

impl NftContract {
    /// A handle on the contract at `address`.
    pub fn new(address: String) -> (contract: Self)
        ensures
            contract@ == address@,
    {
        NftContract(address)
    }

    /// The address of the contract.
    pub fn addr(&self) -> (address: String)
        ensures
            address@ == self@,
    {
        self.0.clone()
    }

    /// The envelope that this handle makes of an encoded operation.
    pub open spec fn envelope_of(&self, payload: Seq<u8>) -> ExecuteEnvelopeView {
        ExecuteEnvelopeView { contract_addr: self@, msg: payload, funds: Seq::empty() }
    }

    /// The query that this handle makes of an encoded request.
    pub open spec fn query_of(&self, payload: Seq<u8>) -> SmartQueryView {
        SmartQueryView { contract_addr: self@, msg: payload }
    }

    /// What [`NftContract::execute`] returns for an operation.
    pub open spec fn call_result(&self, msg: ExecuteMsgView) -> Result<
        ExecuteEnvelopeView,
        NftErrorView,
    > {
        match execute_payload(msg) {
            Some(payload) => Ok(self.envelope_of(payload)),
            None => Err(NftErrorView::Serialization),
        }
    }

    /// What [`NftContract::query`] returns for a request.
    pub open spec fn query_result(&self, msg: QueryMsgView) -> Result<
        SmartQueryView,
        NftErrorView,
    > {
        match query_payload(msg) {
            Some(payload) => Ok(self.query_of(payload)),
            None => Err(NftErrorView::Serialization),
        }
    }

    /// Wraps an encoded operation into an envelope addressed to this
    /// contract, with no funds.
    pub fn envelope(&self, payload: Vec<u8>) -> (out: ExecuteEnvelope)
        ensures
            out@ == self.envelope_of(payload@),
            out.funds@.len() == 0,
    {
        let out = ExecuteEnvelope { contract_addr: self.addr(), msg: payload, funds: Vec::new() };
        assert(out@.funds =~= Seq::empty());
        out
    }

    /// Wraps an encoded request into a smart query addressed to this
    /// contract.
    pub fn smart_query(&self, payload: Vec<u8>) -> (out: SmartQuery)
        ensures
            out@ == self.query_of(payload@),
    {
        SmartQuery { contract_addr: self.addr(), msg: payload }
    }

    /// The message that executes `msg` on this contract: the encoded
    /// operation, addressed to the contract, with no funds. Nothing is sent:
    /// the caller includes the envelope in what it hands to the ledger.
    pub fn execute(&self, msg: ExecuteMsg) -> (out: Result<ExecuteEnvelope, NftError>)
        ensures
            result_view(out) == self.call_result(msg@),
            out matches Ok(envelope) ==> envelope.contract_addr@ == self@ && envelope.funds@.len()
                == 0,
    {
        match encode_execute(&msg) {
            Ok(payload) => Ok(self.envelope(payload)),
            Err(e) => Err(e),
        }
    }

    /// The message that executes on this contract the operation that `msg`
    /// converts into: [`NftContract::execute`] of what `into` gives. Where
    /// the conversion has a specification, the outcome is that of the
    /// operation it names.
    pub fn call<T: Into<ExecuteMsg>>(&self, msg: T) -> (out: Result<ExecuteEnvelope, NftError>)
        ensures
            exists|op: ExecuteMsg| #[trigger]
                call_ensures(<T as Into<ExecuteMsg>>::into, (msg,), op) && result_view(out)
                    == self.call_result(op@),
            T::obeys_into_spec() ==> result_view(out) == self.call_result(msg.into_spec()@),
            out matches Ok(envelope) ==> envelope.contract_addr@ == self@ && envelope.funds@.len()
                == 0,
    {
        self.execute(msg.into())
    }

    /// The smart query that puts `msg` to this contract: the encoded
    /// request, addressed to the contract. Nothing is sent.
    pub fn query(&self, msg: &QueryMsg) -> (out: Result<SmartQuery, NftError>)
        ensures
            result_view(out) == self.query_result(msg@),
    {
        match encode_query(msg) {
            Ok(payload) => Ok(self.smart_query(payload)),
            Err(e) => Err(e),
        }
    }

    /// Reads a querier's reply to an owner request.
    pub fn owner_of_reply(reply: Result<Vec<u8>, String>) -> (out: Result<
        OwnerOfResponse,
        NftError,
    >)
        ensures
            result_view(out) == owner_of_outcome(reply_view(reply)),
    {
        match reply {
            Ok(bytes) => decode_owner_of(&bytes),
            Err(m) => Err(NftError::Query(m)),
        }
    }

    /// Reads a querier's reply to a tokens request.
    pub fn tokens_reply(reply: Result<Vec<u8>, String>) -> (out: Result<TokensResponse, NftError>)
        ensures
            result_view(out) == tokens_outcome(reply_view(reply)),
    {
        match reply {
            Ok(bytes) => decode_tokens(&bytes),
            Err(m) => Err(NftError::Query(m)),
        }
    }

    /// Who owns the token `token_id`. Where the request can be encoded, the
    /// querier is asked once, with [`owner_of_request`] addressed to this
    /// contract, and the result is what its reply means; where it cannot,
    /// the querier is not asked.
    pub fn get_owner<Q: Querier>(&self, querier: &Q, token_id: String) -> (out: Result<
        OwnerOfResponse,
        NftError,
    >)
        ensures
            match self.query_result(owner_of_request(token_id@)) {
                Ok(request) => exists|reply: Result<Seq<u8>, Seq<char>>|
                    #[trigger] querier.answers(request, reply) && result_view(out)
                        == owner_of_outcome(reply),
                Err(e) => out matches Err(failure) && failure@ == e,
            },
    {
        let msg = QueryMsg::OwnerOf { token_id, include_expired: None };
        match self.query(&msg) {
            Ok(request) => {
                let reply = querier.smart_query(&request);
                let out = Self::owner_of_reply(reply);
                assert(self.query_result(owner_of_request(token_id@)) matches Ok(asked) && asked
                    == request@);
                assert(querier.answers(request@, reply_view(reply)));
                out
            },
            Err(e) => Err(e),
        }
    }

    /// The tokens of the contract, in the order in which it lists them.
    /// Where the request can be encoded, the querier is asked once, with
    /// [`all_tokens_request`] addressed to this contract, and the result is
    /// what its reply means; where it cannot, the querier is not asked.
    pub fn all_tokens<Q: Querier>(&self, querier: &Q) -> (out: Result<TokensResponse, NftError>)
        ensures
            match self.query_result(all_tokens_request()) {
                Ok(request) => exists|reply: Result<Seq<u8>, Seq<char>>|
                    #[trigger] querier.answers(request, reply) && result_view(out)
                        == tokens_outcome(reply),
                Err(e) => out matches Err(failure) && failure@ == e,
            },
    {
        let msg = QueryMsg::AllTokens { start_after: None, limit: None };
        match self.query(&msg) {
            Ok(request) => {
                let reply = querier.smart_query(&request);
                let out = Self::tokens_reply(reply);
                assert(self.query_result(all_tokens_request()) matches Ok(asked) && asked
                    == request@);
                assert(querier.answers(request@, reply_view(reply)));
                out
            },
            Err(e) => Err(e),
        }
    }
}

/// A handle gives back the address that it was made from.
pub proof fn addr_of_new(address: String, contract: NftContract, given: String)
    requires
        call_ensures(NftContract::new, (address,), contract),
        call_ensures(NftContract::addr, (&contract,), given),
    ensures
        given@ == address@,
{
}

/// Two calls with the same handle and the same operation give the same
/// outcome: envelopes equal byte for byte, or the same failure.
pub proof fn execute_is_repeatable(
    contract: NftContract,
    msg: ExecuteMsg,
    first: Result<ExecuteEnvelope, NftError>,
    second: Result<ExecuteEnvelope, NftError>,
)
    requires
        call_ensures(NftContract::execute, (&contract, msg), first),
        call_ensures(NftContract::execute, (&contract, msg), second),
    ensures
        result_view(first) == result_view(second),
        first matches Ok(a) ==> second matches Ok(b) && a.contract_addr@ == b.contract_addr@
            && a.msg@ == b.msg@ && a.funds@.len() == 0 && b.funds@.len() == 0,
{
}

} // verus!
