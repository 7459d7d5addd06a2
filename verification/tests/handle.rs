#![allow(deprecated)]
use std::cell::RefCell;

use cosmwasm_std::{from_slice, to_binary, Binary, Timestamp};
use nft::helpers::{NftContract, Querier};
use nft::msg::{
    Approval, Coin, Empty, ExecuteEnvelope, ExecuteMsg, Expiration, MintMsg, NftError, OwnerOfResponse,
    QueryMsg, SmartQuery, TokensResponse,
};
use nft::wire::{decode_owner_of, decode_tokens, encode_execute, encode_query};

type OutsideExecute = cw721_base::ExecuteMsg<cw721_base::Extension>;

/// Answers every request with one fixed reply and keeps what it was asked.
struct Recording {
    reply: Result<Vec<u8>, String>,
    seen: RefCell<Vec<SmartQuery>>,
}

impl Recording {
    fn new(reply: Result<Vec<u8>, String>) -> Self {
        Recording { reply, seen: RefCell::new(Vec::new()) }
    }
}

impl Querier for Recording {
    fn smart_query(&self, request: &SmartQuery) -> Result<Vec<u8>, String> {
        self.seen.borrow_mut().push(request.clone());
        self.reply.clone()
    }
}

/// Answers one request with one reply, and any other with a failure.
struct Exact {
    request: SmartQuery,
    reply: Vec<u8>,
}

impl Querier for Exact {
    fn smart_query(&self, request: &SmartQuery) -> Result<Vec<u8>, String> {
        if *request == self.request {
            Ok(self.reply.clone())
        } else {
            Err(String::from("unexpected request"))
        }
    }
}

fn s(text: &str) -> String {
    String::from(text)
}

fn outside_bytes(msg: &OutsideExecute) -> Vec<u8> {
    to_binary(msg).unwrap().0
}

fn transfer() -> ExecuteMsg {
    ExecuteMsg::TransferNft { recipient: s("bob"), token_id: s("7") }
}

#[test]
fn new_keeps_the_address() {
    let contract = NftContract::new(s("contractA"));
    assert_eq!(contract.addr(), s("contractA"));
    assert_eq!(contract, NftContract(s("contractA")));
    assert_eq!(NftContract(s("")).addr(), s(""));
    assert_eq!(NftContract::new(s("not a valid address!")).addr(), s("not a valid address!"));
}

#[test]
fn call_transfer_gives_the_envelope() {
    let contract = NftContract::new(s("contractA"));
    let envelope = contract.call(transfer()).unwrap();
    let payload =
        outside_bytes(&OutsideExecute::TransferNft { recipient: s("bob"), token_id: s("7") });
    assert_eq!(
        envelope,
        ExecuteEnvelope { contract_addr: s("contractA"), msg: payload, funds: Vec::<Coin>::new() }
    );
    assert_eq!(
        envelope.msg,
        br#"{"transfer_nft":{"recipient":"bob","token_id":"7"}}"#.to_vec()
    );
}

#[test]
fn call_addresses_the_handle_and_sends_no_funds() {
    let messages = vec![
        transfer(),
        ExecuteMsg::Burn { token_id: s("1") },
        ExecuteMsg::RevokeAll { operator: s("op") },
    ];
    for address in ["contractA", "wasm1xyz", ""] {
        let contract = NftContract::new(s(address));
        for msg in messages.iter() {
            let envelope = contract.call(msg.clone()).unwrap();
            assert_eq!(envelope.contract_addr, s(address));
            assert!(envelope.funds.is_empty());
        }
    }
}

#[test]
fn execute_and_call_agree() {
    let contract = NftContract::new(s("contractA"));
    assert_eq!(contract.execute(transfer()), contract.call(transfer()));
}

#[test]
fn call_twice_gives_identical_envelopes() {
    let contract = NftContract::new(s("contractA"));
    let msg = ExecuteMsg::Approve {
        spender: s("carol"),
        token_id: s("9"),
        expires: Some(Expiration::AtHeight(100)),
    };
    let first = contract.call(msg.clone()).unwrap();
    let second = contract.call(msg).unwrap();
    assert_eq!(first, second);
    assert_eq!(first.msg, second.msg);
}

#[test]
fn envelope_wraps_the_payload() {
    let contract = NftContract::new(s("contractA"));
    let envelope = contract.envelope(vec![1, 2, 3]);
    assert_eq!(
        envelope,
        ExecuteEnvelope { contract_addr: s("contractA"), msg: vec![1, 2, 3], funds: vec![] }
    );
}

#[test]
fn smart_query_wraps_the_payload() {
    let contract = NftContract::new(s("contractA"));
    assert_eq!(
        contract.smart_query(vec![9, 8]),
        SmartQuery { contract_addr: s("contractA"), msg: vec![9, 8] }
    );
}

#[test]
fn query_addresses_the_handle() {
    let contract = NftContract::new(s("contractA"));
    let msg = QueryMsg::OwnerOf { token_id: s("7"), include_expired: None };
    assert_eq!(
        contract.query(&msg),
        Ok(SmartQuery {
            contract_addr: s("contractA"),
            msg: br#"{"owner_of":{"token_id":"7","include_expired":null}}"#.to_vec(),
        })
    );
    let msg = QueryMsg::AllTokens { start_after: None, limit: None };
    assert_eq!(
        contract.query(&msg),
        Ok(SmartQuery {
            contract_addr: s("contractA"),
            msg: br#"{"all_tokens":{"start_after":null,"limit":null}}"#.to_vec(),
        })
    );
}

fn check_round_trip(msg: ExecuteMsg, outside: OutsideExecute) {
    let bytes = encode_execute(&msg).unwrap();
    assert_eq!(bytes, outside_bytes(&outside));
    let back: OutsideExecute = from_slice(&bytes).unwrap();
    assert_eq!(back, outside);
}

#[test]
fn encode_transfer_round_trips() {
    check_round_trip(
        transfer(),
        OutsideExecute::TransferNft { recipient: s("bob"), token_id: s("7") },
    );
}

#[test]
fn encode_send_round_trips() {
    check_round_trip(
        ExecuteMsg::SendNft { contract: s("market"), token_id: s("7"), msg: vec![123, 125] },
        OutsideExecute::SendNft {
            contract: s("market"),
            token_id: s("7"),
            msg: Binary(vec![123, 125]),
        },
    );
}

#[test]
fn encode_approve_round_trips() {
    check_round_trip(
        ExecuteMsg::Approve { spender: s("carol"), token_id: s("7"), expires: None },
        OutsideExecute::Approve { spender: s("carol"), token_id: s("7"), expires: None },
    );
    check_round_trip(
        ExecuteMsg::Approve {
            spender: s("carol"),
            token_id: s("7"),
            expires: Some(Expiration::AtHeight(42)),
        },
        OutsideExecute::Approve {
            spender: s("carol"),
            token_id: s("7"),
            expires: Some(cw721::Expiration::AtHeight(42)),
        },
    );
    check_round_trip(
        ExecuteMsg::Approve {
            spender: s("carol"),
            token_id: s("7"),
            expires: Some(Expiration::AtTime(1_000_000_007)),
        },
        OutsideExecute::Approve {
            spender: s("carol"),
            token_id: s("7"),
            expires: Some(cw721::Expiration::AtTime(Timestamp::from_nanos(1_000_000_007))),
        },
    );
    check_round_trip(
        ExecuteMsg::Approve {
            spender: s("carol"),
            token_id: s("7"),
            expires: Some(Expiration::Never),
        },
        OutsideExecute::Approve {
            spender: s("carol"),
            token_id: s("7"),
            expires: Some(cw721::Expiration::Never {}),
        },
    );
}

#[test]
fn encode_revoke_round_trips() {
    check_round_trip(
        ExecuteMsg::Revoke { spender: s("carol"), token_id: s("7") },
        OutsideExecute::Revoke { spender: s("carol"), token_id: s("7") },
    );
}

#[test]
fn encode_approve_all_round_trips() {
    check_round_trip(
        ExecuteMsg::ApproveAll { operator: s("op"), expires: Some(Expiration::AtTime(5)) },
        OutsideExecute::ApproveAll {
            operator: s("op"),
            expires: Some(cw721::Expiration::AtTime(Timestamp::from_nanos(5))),
        },
    );
    check_round_trip(
        ExecuteMsg::ApproveAll { operator: s("op"), expires: Some(Expiration::Never) },
        OutsideExecute::ApproveAll { operator: s("op"), expires: Some(cw721::Expiration::Never {}) },
    );
    check_round_trip(
        ExecuteMsg::ApproveAll { operator: s("op"), expires: Some(Expiration::AtHeight(u64::MAX)) },
        OutsideExecute::ApproveAll {
            operator: s("op"),
            expires: Some(cw721::Expiration::AtHeight(u64::MAX)),
        },
    );
}

#[test]
fn encode_revoke_all_round_trips() {
    check_round_trip(
        ExecuteMsg::RevokeAll { operator: s("op") },
        OutsideExecute::RevokeAll { operator: s("op") },
    );
}

#[test]
fn encode_mint_round_trips() {
    check_round_trip(
        ExecuteMsg::Mint(MintMsg {
            token_id: s("7"),
            owner: s("alice"),
            token_uri: Some(s("ipfs://seven")),
            extension: None,
        }),
        OutsideExecute::Mint(cw721_base::MintMsg {
            token_id: s("7"),
            owner: s("alice"),
            token_uri: Some(s("ipfs://seven")),
            extension: None,
        }),
    );
    check_round_trip(
        ExecuteMsg::Mint(MintMsg {
            token_id: s("8"),
            owner: s("bob"),
            token_uri: None,
            extension: Some(Empty {}),
        }),
        OutsideExecute::Mint(cw721_base::MintMsg {
            token_id: s("8"),
            owner: s("bob"),
            token_uri: None,
            extension: Some(cosmwasm_std::Empty {}),
        }),
    );
}

#[test]
fn encode_burn_round_trips() {
    check_round_trip(
        ExecuteMsg::Burn { token_id: s("7") },
        OutsideExecute::Burn { token_id: s("7") },
    );
    assert_eq!(
        encode_execute(&ExecuteMsg::Burn { token_id: s("7") }).unwrap(),
        br#"{"burn":{"token_id":"7"}}"#.to_vec()
    );
}

#[test]
fn encode_query_matches_the_schema() {
    let owner = QueryMsg::OwnerOf { token_id: s("7"), include_expired: Some(true) };
    let outside = cw721_base::QueryMsg::OwnerOf { token_id: s("7"), include_expired: Some(true) };
    let bytes = encode_query(&owner).unwrap();
    assert_eq!(bytes, to_binary(&outside).unwrap().0);
    assert_eq!(from_slice::<cw721_base::QueryMsg>(&bytes).unwrap(), outside);

    let all = QueryMsg::AllTokens { start_after: Some(s("3")), limit: Some(10) };
    let outside = cw721_base::QueryMsg::AllTokens { start_after: Some(s("3")), limit: Some(10) };
    let bytes = encode_query(&all).unwrap();
    assert_eq!(bytes, to_binary(&outside).unwrap().0);
    assert_eq!(from_slice::<cw721_base::QueryMsg>(&bytes).unwrap(), outside);
}

fn owner_bytes(owner: &str, approvals: Vec<cw721::Approval>) -> Vec<u8> {
    to_binary(&cw721::OwnerOfResponse { owner: s(owner), approvals }).unwrap().0
}

#[test]
fn get_owner_returns_the_response_unchanged() {
    let contract = NftContract::new(s("contractA"));
    let request = to_binary(&cw721_base::QueryMsg::OwnerOf {
        token_id: s("7"),
        include_expired: None,
    })
    .unwrap()
    .0;
    let querier = Exact {
        request: SmartQuery { contract_addr: s("contractA"), msg: request },
        reply: owner_bytes("alice", vec![]),
    };
    let response = contract.get_owner(&querier, s("7")).unwrap();
    assert_eq!(response, OwnerOfResponse { owner: s("alice"), approvals: vec![] });
}

#[test]
fn get_owner_asks_once_without_expired() {
    let contract = NftContract::new(s("contractA"));
    let querier = Recording::new(Ok(owner_bytes("alice", vec![])));
    contract.get_owner(&querier, s("7")).unwrap();
    let seen = querier.seen.borrow();
    assert_eq!(seen.len(), 1);
    assert_eq!(seen[0].contract_addr, s("contractA"));
    assert_eq!(
        from_slice::<cw721_base::QueryMsg>(&seen[0].msg).unwrap(),
        cw721_base::QueryMsg::OwnerOf { token_id: s("7"), include_expired: None }
    );
    assert_eq!(
        seen[0].msg,
        encode_query(&QueryMsg::OwnerOf { token_id: s("7"), include_expired: None }).unwrap()
    );
}

#[test]
fn get_owner_surfaces_the_query_failure() {
    let contract = NftContract::new(s("contractA"));
    let querier = Recording::new(Err(s("Querier contract error: token not found")));
    let result = contract.get_owner(&querier, s("7"));
    assert_eq!(result, Err(NftError::Query(s("Querier contract error: token not found"))));
    assert_eq!(querier.seen.borrow().len(), 1);
}

#[test]
fn get_owner_rejects_a_reply_of_another_shape() {
    let contract = NftContract::new(s("contractA"));
    let querier = Recording::new(Ok(br#"{"tokens":["1"]}"#.to_vec()));
    assert!(matches!(contract.get_owner(&querier, s("7")), Err(NftError::Deserialization(_))));
    let querier = Recording::new(Ok(b"not json".to_vec()));
    assert!(matches!(contract.get_owner(&querier, s("7")), Err(NftError::Deserialization(_))));
}

#[test]
fn get_owner_keeps_the_approvals() {
    let contract = NftContract::new(s("contractA"));
    let approvals = vec![
        cw721::Approval { spender: s("carol"), expires: cw721::Expiration::AtHeight(12) },
        cw721::Approval {
            spender: s("dave"),
            expires: cw721::Expiration::AtTime(Timestamp::from_nanos(1_700_000_000_000_000_001)),
        },
        cw721::Approval { spender: s("erin"), expires: cw721::Expiration::Never {} },
    ];
    let querier = Recording::new(Ok(owner_bytes("alice", approvals)));
    let response = contract.get_owner(&querier, s("7")).unwrap();
    assert_eq!(
        response,
        OwnerOfResponse {
            owner: s("alice"),
            approvals: vec![
                Approval { spender: s("carol"), expires: Expiration::AtHeight(12) },
                Approval {
                    spender: s("dave"),
                    expires: Expiration::AtTime(1_700_000_000_000_000_001),
                },
                Approval { spender: s("erin"), expires: Expiration::Never },
            ],
        }
    );
}

fn tokens_bytes(tokens: &[&str]) -> Vec<u8> {
    let tokens = tokens.iter().map(|t| s(t)).collect();
    to_binary(&cw721::TokensResponse { tokens }).unwrap().0
}

#[test]
fn all_tokens_returns_the_tokens_in_order() {
    let contract = NftContract::new(s("contractA"));
    let querier = Recording::new(Ok(tokens_bytes(&["1", "2", "3"])));
    let response = contract.all_tokens(&querier).unwrap();
    assert_eq!(response, TokensResponse { tokens: vec![s("1"), s("2"), s("3")] });
}

#[test]
fn all_tokens_neither_sorts_nor_dedups() {
    let contract = NftContract::new(s("contractA"));
    let querier = Recording::new(Ok(tokens_bytes(&["3", "1", "3", "2"])));
    let response = contract.all_tokens(&querier).unwrap();
    assert_eq!(response.tokens, vec![s("3"), s("1"), s("3"), s("2")]);
    let querier = Recording::new(Ok(tokens_bytes(&[])));
    assert_eq!(contract.all_tokens(&querier).unwrap().tokens, Vec::<String>::new());
}

#[test]
fn all_tokens_asks_once_without_cursor_or_limit() {
    let contract = NftContract::new(s("contractA"));
    let querier = Recording::new(Ok(tokens_bytes(&["1"])));
    contract.all_tokens(&querier).unwrap();
    let seen = querier.seen.borrow();
    assert_eq!(seen.len(), 1);
    assert_eq!(seen[0].contract_addr, s("contractA"));
    assert_eq!(
        from_slice::<cw721_base::QueryMsg>(&seen[0].msg).unwrap(),
        cw721_base::QueryMsg::AllTokens { start_after: None, limit: None }
    );
}

#[test]
fn all_tokens_surfaces_failures() {
    let contract = NftContract::new(s("contractA"));
    let querier = Recording::new(Err(s("Querier system error: no such contract")));
    assert_eq!(
        contract.all_tokens(&querier),
        Err(NftError::Query(s("Querier system error: no such contract")))
    );
    let querier = Recording::new(Ok(owner_bytes("alice", vec![])));
    assert!(matches!(contract.all_tokens(&querier), Err(NftError::Deserialization(_))));
}

#[test]
fn replies_are_read_without_a_querier() {
    assert_eq!(
        NftContract::owner_of_reply(Ok(owner_bytes("alice", vec![]))),
        Ok(OwnerOfResponse { owner: s("alice"), approvals: vec![] })
    );
    assert_eq!(NftContract::owner_of_reply(Err(s("gone"))), Err(NftError::Query(s("gone"))));
    assert_eq!(
        NftContract::tokens_reply(Ok(tokens_bytes(&["b", "a"]))),
        Ok(TokensResponse { tokens: vec![s("b"), s("a")] })
    );
    assert_eq!(NftContract::tokens_reply(Err(s("gone"))), Err(NftError::Query(s("gone"))));
}

#[test]
fn decoders_read_exact_json() {
    assert_eq!(
        decode_owner_of(&br#"{"owner":"alice","approvals":[]}"#.to_vec()),
        Ok(OwnerOfResponse { owner: s("alice"), approvals: vec![] })
    );
    assert_eq!(
        decode_tokens(&br#"{"tokens":["1","2","3"]}"#.to_vec()),
        Ok(TokensResponse { tokens: vec![s("1"), s("2"), s("3")] })
    );
    assert!(matches!(decode_owner_of(&Vec::new()), Err(NftError::Deserialization(_))));
    assert!(matches!(decode_tokens(&b"[]".to_vec()), Err(NftError::Deserialization(_))));
}
