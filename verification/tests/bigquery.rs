use near_dao_apis::bigquery::{
    query_dao_proposals, query_dao_votes, BigQueryClient, BigQueryConfig, BigQueryError,
    QUERY_DAO_ACCOUNTS,
};
use near_dao_apis::json::{Json, JsonNumber};
use near_dao_apis::models::ProposalType;

fn text(t: &str) -> Json {
    Json::String(t.to_string())
}

fn object(entries: Vec<(&str, Json)>) -> Json {
    Json::Object(entries.into_iter().map(|(k, v)| (k.to_string(), v)).collect())
}

fn proposal(kind: Json) -> Json {
    object(vec![("description", text("d")), ("kind", kind)])
}

fn client() -> BigQueryClient {
    let config = BigQueryConfig {
        project_id: "near-project".to_string(),
        credentials_path: "/creds.json".to_string(),
    };
    BigQueryClient::new(config, true).unwrap()
}

fn parse_error(message: &str) -> BigQueryError {
    BigQueryError::Parse(message.to_string())
}

#[test]
fn new_refuses_missing_credentials() {
    let config = BigQueryConfig {
        project_id: "p".to_string(),
        credentials_path: "/nowhere/key.json".to_string(),
    };
    let err = BigQueryClient::new(config, false).unwrap_err();
    assert_eq!(err, BigQueryError::Auth("Credentials file not found: /nowhere/key.json".to_string()));
    assert_eq!(
        err.message(),
        "BigQuery authentication error: Credentials file not found: /nowhere/key.json"
    );
}

#[test]
fn error_messages_name_their_source() {
    assert_eq!(BigQueryError::Query("timeout".to_string()).message(), "BigQuery query error: timeout");
    assert_eq!(BigQueryError::Parse("bad".to_string()).message(), "BigQuery parse error: bad");
}

#[test]
fn proposals_query_without_start_block() {
    let q = query_dao_proposals("example.sputnik-dao.near", None);
    let expected = "\nSELECT\n    block_timestamp,\n    signer_account_id,\n    receiver_account_id,\n    args\nFROM near_mainnet.transaction_actions\nWHERE receiver_account_id = 'example.sputnik-dao.near'\nAND action_kind = 'FUNCTION_CALL'\nAND args:method_name = 'add_proposal'\n\nORDER BY block_timestamp ASC\n";
    assert_eq!(q, expected);
}

#[test]
fn votes_query_with_start_block() {
    let q = query_dao_votes("x.sputnik-dao.near", Some(1700000000123456789));
    let expected = "\nSELECT\n    block_timestamp,\n    signer_account_id,\n    receiver_account_id,\n    args\nFROM near_mainnet.transaction_actions\nWHERE receiver_account_id = 'x.sputnik-dao.near'\nAND action_kind = 'FUNCTION_CALL'\nAND args:method_name = 'act_proposal'\nAND block_timestamp >= 1700000000123456789\nORDER BY block_timestamp ASC\n";
    assert_eq!(q, expected);
}

#[test]
fn block_filter_writes_extreme_blocks_in_decimal() {
    for block in [0i64, 7, 10, -1, -12, i64::MAX, i64::MIN] {
        let q = query_dao_proposals("d", Some(block));
        assert!(q.contains(&format!("AND block_timestamp >= {}\n", block)));
    }
}

#[test]
fn accounts_query_looks_for_sputnik_accounts() {
    assert!(QUERY_DAO_ACCOUNTS.contains("WHERE account_id LIKE '%.sputnik-dao.near'"));
    assert!(QUERY_DAO_ACCOUNTS.starts_with("\nSELECT DISTINCT account_id\n"));
}

#[test]
fn parse_proposal_kind_reads_each_kind() {
    let c = client();
    let cases = [
        ("AddMemberToRole", "AddMember", ProposalType::AddMember),
        ("RemoveMemberFromRole", "RemoveMember", ProposalType::RemoveMember),
        ("FunctionCall", "FunctionCall", ProposalType::FunctionCall),
        ("Transfer", "Transfer", ProposalType::Transfer),
        ("Vote", "Vote", ProposalType::Vote),
    ];
    for (key, name, kind) in cases {
        let p = proposal(object(vec![(key, object(vec![]))]));
        assert_eq!(c.parse_proposal_kind(&p).unwrap(), name);
        assert_eq!(c.proposal_type(&p).unwrap(), kind);
    }
}

#[test]
fn parse_proposal_kind_prefers_member_keys() {
    let c = client();
    let p = proposal(object(vec![("Vote", Json::Null), ("RemoveMemberFromRole", Json::Null)]));
    assert_eq!(c.parse_proposal_kind(&p).unwrap(), "RemoveMember");
}

#[test]
fn parse_proposal_kind_errors() {
    let c = client();
    assert_eq!(
        c.parse_proposal_kind(&object(vec![("proposal_id", Json::Number(JsonNumber::PosInt(1)))])),
        Err(parse_error("Missing 'kind' field"))
    );
    assert_eq!(c.parse_proposal_kind(&text("kind")), Err(parse_error("Missing 'kind' field")));
    assert_eq!(
        c.parse_proposal_kind(&proposal(text("Vote"))),
        Err(parse_error("Invalid proposal kind format"))
    );
    assert_eq!(
        c.parse_proposal_kind(&proposal(object(vec![("ChangePolicy", object(vec![]))]))),
        Err(parse_error("Unknown proposal kind"))
    );
}

#[test]
fn extract_member_details_of_add_and_remove() {
    let c = client();
    let body = object(vec![("member_id", text("alice.near")), ("role", text("council"))]);
    let add = proposal(object(vec![("AddMemberToRole", body)]));
    assert_eq!(
        c.extract_member_details(&add).unwrap(),
        ("alice.near".to_string(), "council".to_string())
    );
    let body = object(vec![("role", text("all")), ("member_id", text("bob.near"))]);
    let remove = proposal(object(vec![("RemoveMemberFromRole", body)]));
    assert_eq!(c.extract_member_details(&remove).unwrap(), ("bob.near".to_string(), "all".to_string()));
}

#[test]
fn extract_member_details_errors() {
    let c = client();
    assert_eq!(c.extract_member_details(&object(vec![])), Err(parse_error("Invalid proposal kind")));
    assert_eq!(
        c.extract_member_details(&proposal(text("AddMemberToRole"))),
        Err(parse_error("Invalid proposal kind"))
    );
    assert_eq!(
        c.extract_member_details(&proposal(object(vec![("Transfer", object(vec![]))]))),
        Err(parse_error("Not a member proposal"))
    );
    let no_member = proposal(object(vec![("AddMemberToRole", object(vec![("role", text("r"))]))]));
    assert_eq!(c.extract_member_details(&no_member), Err(parse_error("Missing member_id")));
    let number_member = proposal(object(vec![(
        "AddMemberToRole",
        object(vec![("member_id", Json::Number(JsonNumber::PosInt(3))), ("role", text("r"))]),
    )]));
    assert_eq!(c.extract_member_details(&number_member), Err(parse_error("Missing member_id")));
    let no_role = proposal(object(vec![("RemoveMemberFromRole", object(vec![("member_id", text("m"))]))]));
    assert_eq!(c.extract_member_details(&no_role), Err(parse_error("Missing role")));
}

fn transfer_body(msg: Option<Json>) -> Json {
    let mut entries = vec![
        ("token_id", text("")),
        ("receiver_id", text("carol.near")),
        ("amount", text("1000000000000000000000000")),
    ];
    if let Some(m) = msg {
        entries.push(("msg", m));
    }
    proposal(object(vec![("Transfer", object(entries))]))
}

#[test]
fn extract_transfer_details_with_and_without_message() {
    let c = client();
    let (token, receiver, amount, msg) = c.extract_transfer_details(&transfer_body(None)).unwrap();
    assert_eq!((token.as_str(), receiver.as_str(), amount.as_str()), ("", "carol.near", "1000000000000000000000000"));
    assert_eq!(msg, None);
    let with = c.extract_transfer_details(&transfer_body(Some(text("thanks")))).unwrap();
    assert_eq!(with.3, Some("thanks".to_string()));
    let not_text = c.extract_transfer_details(&transfer_body(Some(Json::Bool(true)))).unwrap();
    assert_eq!(not_text.3, None);
}

#[test]
fn extract_transfer_details_errors() {
    let c = client();
    assert_eq!(
        c.extract_transfer_details(&proposal(object(vec![("Vote", Json::Null)]))),
        Err(parse_error("Not a transfer proposal"))
    );
    let missing = |key: &str| {
        let entries: Vec<(&str, Json)> = [("token_id", "t"), ("receiver_id", "r"), ("amount", "1")]
            .into_iter()
            .filter(|(k, _)| *k != key)
            .map(|(k, v)| (k, text(v)))
            .collect();
        proposal(object(vec![("Transfer", object(entries))]))
    };
    assert_eq!(c.extract_transfer_details(&missing("token_id")), Err(parse_error("Missing token_id")));
    assert_eq!(c.extract_transfer_details(&missing("receiver_id")), Err(parse_error("Missing receiver_id")));
    assert_eq!(c.extract_transfer_details(&missing("amount")), Err(parse_error("Missing amount")));
}

#[test]
fn extract_function_call_details_copies_actions() {
    let c = client();
    let actions = Json::Array(vec![object(vec![
        ("method_name", text("ft_transfer")),
        ("deposit", Json::Number(JsonNumber::Float("0.5".to_string()))),
        ("gas", Json::Number(JsonNumber::NegInt(-3))),
    ])]);
    let expected = Json::Array(vec![object(vec![
        ("method_name", text("ft_transfer")),
        ("deposit", Json::Number(JsonNumber::Float("0.5".to_string()))),
        ("gas", Json::Number(JsonNumber::NegInt(-3))),
    ])]);
    let p = proposal(object(vec![(
        "FunctionCall",
        object(vec![("receiver_id", text("token.near")), ("actions", actions)]),
    )]));
    let (receiver, copied) = c.extract_function_call_details(&p).unwrap();
    assert_eq!(receiver, "token.near");
    assert_eq!(copied, expected);
}

#[test]
fn extract_function_call_details_errors() {
    let c = client();
    assert_eq!(
        c.extract_function_call_details(&proposal(text("FunctionCall"))),
        Err(parse_error("Not a function call proposal"))
    );
    let no_receiver = proposal(object(vec![("FunctionCall", object(vec![("actions", Json::Array(vec![]))]))]));
    assert_eq!(c.extract_function_call_details(&no_receiver), Err(parse_error("Missing receiver_id")));
    let no_actions = proposal(object(vec![("FunctionCall", object(vec![("receiver_id", text("r"))]))]));
    assert_eq!(c.extract_function_call_details(&no_actions), Err(parse_error("Missing actions")));
}

#[test]
fn start_block_adds_one_line_after_the_method_line() {
    for dao in ["a.sputnik-dao.near", "b.sputnik-dao.near"] {
        for block in [0i64, -3, 1700000000123456789] {
            let whole = query_dao_proposals(dao, None);
            let from_block = query_dao_proposals(dao, Some(block));
            let expected = whole.replacen(
                "'add_proposal'\n\n",
                &format!("'add_proposal'\nAND block_timestamp >= {}\n", block),
                1,
            );
            assert_eq!(from_block, expected);
        }
    }
}

#[test]
fn votes_query_is_proposals_query_naming_act_proposal() {
    for start in [None, Some(0i64), Some(42)] {
        let proposals = query_dao_proposals("c.sputnik-dao.near", start);
        let votes = query_dao_votes("c.sputnik-dao.near", start);
        assert_eq!(votes, proposals.replace("'add_proposal'", "'act_proposal'"));
        assert_ne!(votes, proposals);
    }
}
