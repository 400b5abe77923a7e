use crate::json::{Json, JsonView};
use crate::models::{BigQueryAction, ProposalType};
use crate::text::{append_decimal, decimal, law_decimal_injective};
use vstd::prelude::*;
use vstd::string::*;

verus! {

/// Where the BigQuery project and its credentials are.
#[derive(Debug)]
pub struct BigQueryConfig {
    pub project_id: String,
    pub credentials_path: String,
}

/// What can go wrong when talking to BigQuery or reading what it returned.
#[derive(Debug, PartialEq)]
pub enum BigQueryError {
    Auth(String),
    Query(String),
    Parse(String),
}

/// The mathematical model of a [`BigQueryError`].
pub enum BigQueryErrorView {
    Auth(Seq<char>),
    Query(Seq<char>),
    Parse(Seq<char>),
}

impl View for BigQueryError {
    type V = BigQueryErrorView;

    open spec fn view(&self) -> BigQueryErrorView {
        match self {
            BigQueryError::Auth(m) => BigQueryErrorView::Auth(m@),
            BigQueryError::Query(m) => BigQueryErrorView::Query(m@),
            BigQueryError::Parse(m) => BigQueryErrorView::Parse(m@),
        }
    }
}

impl BigQueryErrorView {
    /// The text a user is shown for the error.
    pub open spec fn message(self) -> Seq<char> {
        match self {
            BigQueryErrorView::Auth(m) => "BigQuery authentication error: "@ + m,
            BigQueryErrorView::Query(m) => "BigQuery query error: "@ + m,
            BigQueryErrorView::Parse(m) => "BigQuery parse error: "@ + m,
        }
    }
}

impl BigQueryError {
    /// The text a user is shown for the error.
    pub fn message(&self) -> (r: String)
        ensures
            r@ == self@.message(),
    {
        match self {
            BigQueryError::Auth(m) => {
                let mut r = String::from_str("BigQuery authentication error: ");
                r.append(m.as_str());
                r
            },
            BigQueryError::Query(m) => {
                let mut r = String::from_str("BigQuery query error: ");
                r.append(m.as_str());
                r
            },
            BigQueryError::Parse(m) => {
                let mut r = String::from_str("BigQuery parse error: ");
                r.append(m.as_str());
                r
            },
        }
    }

    /// An error in reading a query result.
    fn parse(message: &str) -> (r: BigQueryError)
        ensures
            r@ == BigQueryErrorView::Parse(message@),
    {
        BigQueryError::Parse(String::from_str(message))
    }
}

/// The query that lists every Sputnik DAO account ever created.
pub const QUERY_DAO_ACCOUNTS: &'static str =
    "\nSELECT DISTINCT account_id\nFROM near_mainnet.accounts\nWHERE account_id LIKE '%.sputnik-dao.near'\nAND action_kind = 'CREATE_ACCOUNT'\nORDER BY block_timestamp ASC\n";

/// The restriction to blocks from `start_block` on; nothing where there is no start.
pub open spec fn block_filter(start_block: Option<i64>) -> Seq<char> {
    match start_block {
        Some(block) => "AND block_timestamp >= "@ + decimal(block as int),
        None => Seq::empty(),
    }
}

/// The part of a DAO's query that comes before the name of the method: the
/// columns, the table, and the restriction to calls on the DAO `dao_id`.
pub open spec fn query_head(dao_id: Seq<char>) -> Seq<char> {
    "\nSELECT\n    block_timestamp,\n    signer_account_id,\n    receiver_account_id,\n    args\nFROM near_mainnet.transaction_actions\nWHERE receiver_account_id = '"@
        + dao_id + "'\nAND action_kind = 'FUNCTION_CALL'\nAND args:method_name = '"@
}

/// The ordering that ends every DAO query.
pub open spec fn query_tail() -> Seq<char> {
    "\nORDER BY block_timestamp ASC\n"@
}

/// The query for the calls of contract method `method` on the DAO `dao_id`,
/// oldest first, from `start_block` on where it is given.
pub open spec fn dao_calls_query(dao_id: Seq<char>, method: Seq<char>, start_block: Option<i64>) -> Seq<char> {
    query_head(dao_id) + method + "'\n"@ + block_filter(start_block) + query_tail()
}

/// A start block adds one line to a query and changes nothing else: the
/// query from `block` on is the query over the whole history with
/// `AND block_timestamp >= ` and the block's decimal digits inserted right
/// after the line that names the method.
pub proof fn law_start_block_adds_one_line(dao_id: Seq<char>, method: Seq<char>, block: i64)
    ensures
        ({
            let whole = dao_calls_query(dao_id, method, None);
            let k = (query_head(dao_id) + method + "'\n"@).len() as int;
            dao_calls_query(dao_id, method, Some(block)) == whole.take(k) + (
            "AND block_timestamp >= "@ + decimal(block as int)) + whole.skip(k)
        }),
{
    let line = query_head(dao_id) + method + "'\n"@;
    let whole = dao_calls_query(dao_id, method, None);
    let k = line.len() as int;
    assert(whole =~= line + query_tail());
    assert(whole.take(k) =~= line);
    assert(whole.skip(k) =~= query_tail());
    assert(dao_calls_query(dao_id, method, Some(block)) =~= whole.take(k) + (
    "AND block_timestamp >= "@ + decimal(block as int)) + whole.skip(k));
}

/// The votes query of a DAO is its proposals query, for the same DAO and
/// start block, with the method name `add_proposal` replaced by
/// `act_proposal` where the method line names it, and nothing else changed.
pub proof fn law_votes_query_names_act_proposal(dao_id: Seq<char>, start_block: Option<i64>)
    ensures
        ({
            let proposals = dao_calls_query(dao_id, "add_proposal"@, start_block);
            let p = query_head(dao_id).len() as int;
            let n = "add_proposal"@.len() as int;
            &&& proposals.subrange(p, p + n) == "add_proposal"@
            &&& dao_calls_query(dao_id, "act_proposal"@, start_block) == proposals.take(p)
                + "act_proposal"@ + proposals.skip(p + n)
        }),
{
    let head = query_head(dao_id);
    let rest = "'\n"@ + block_filter(start_block) + query_tail();
    let proposals = dao_calls_query(dao_id, "add_proposal"@, start_block);
    let p = head.len() as int;
    let n = "add_proposal"@.len() as int;
    assert(proposals =~= head + "add_proposal"@ + rest);
    assert(proposals.take(p) =~= head);
    assert(proposals.subrange(p, p + n) =~= "add_proposal"@);
    assert(proposals.skip(p + n) =~= rest);
    assert(dao_calls_query(dao_id, "act_proposal"@, start_block) =~= head + "act_proposal"@ + rest);
}

/// A query names the block it starts from: two queries for the same DAO and
/// method are the same text only where they start from the same block (or
/// both from the start).
pub proof fn law_query_names_its_start_block(
    dao_id: Seq<char>,
    method: Seq<char>,
    a: Option<i64>,
    b: Option<i64>,
)
    requires
        dao_calls_query(dao_id, method, a) == dao_calls_query(dao_id, method, b),
    ensures
        a == b,
{
    let head = query_head(dao_id) + method + "'\n"@;
    let tail = query_tail();
    let qa = dao_calls_query(dao_id, method, a);
    let qb = dao_calls_query(dao_id, method, b);
    assert(qa =~= head + block_filter(a) + tail);
    assert(qb =~= head + block_filter(b) + tail);
    assert(block_filter(a) =~= qa.subrange(head.len() as int, qa.len() - tail.len()));
    assert(block_filter(b) =~= qb.subrange(head.len() as int, qb.len() - tail.len()));
    let prefix = "AND block_timestamp >= "@;
    reveal_strlit("AND block_timestamp >= ");
    match (a, b) {
        (Some(x), Some(y)) => {
            assert(decimal(x as int) =~= block_filter(a).skip(prefix.len() as int));
            assert(decimal(y as int) =~= block_filter(b).skip(prefix.len() as int));
            law_decimal_injective(x as int, y as int);
        },
        (Some(x), None) => {
            assert(block_filter(a).len() >= prefix.len());
        },
        (None, Some(y)) => {
            assert(block_filter(b).len() >= prefix.len());
        },
        (None, None) => {},
    }
}

fn dao_calls_query_text(dao_id: &str, method: &str, start_block: Option<i64>) -> (r: String)
    ensures
        r@ == dao_calls_query(dao_id@, method@, start_block),
{
    let mut q = String::from_str(
        "\nSELECT\n    block_timestamp,\n    signer_account_id,\n    receiver_account_id,\n    args\nFROM near_mainnet.transaction_actions\nWHERE receiver_account_id = '",
    );
    q.append(dao_id);
    q.append("'\nAND action_kind = 'FUNCTION_CALL'\nAND args:method_name = '");
    q.append(method);
    q.append("'\n");
    match start_block {
        Some(block) => {
            q.append("AND block_timestamp >= ");
            append_decimal(&mut q, block);
        },
        None => {},
    }
    q.append("\nORDER BY block_timestamp ASC\n");
    assert(q@ =~= dao_calls_query(dao_id@, method@, start_block));
    q
}


/// The query for every proposal submitted to the DAO `dao_id`
/// (its `add_proposal` calls), from `start_block` on where it is given.
pub fn query_dao_proposals(dao_id: &str, start_block: Option<i64>) -> (r: String)
    ensures
        r@ == dao_calls_query(dao_id@, "add_proposal"@, start_block),
{
    dao_calls_query_text(dao_id, "add_proposal", start_block)
}

/// The query for every vote cast in the DAO `dao_id`
/// (its `act_proposal` calls), from `start_block` on where it is given.
pub fn query_dao_votes(dao_id: &str, start_block: Option<i64>) -> (r: String)
    ensures
        r@ == dao_calls_query(dao_id@, "act_proposal"@, start_block),
{
    dao_calls_query_text(dao_id, "act_proposal", start_block)
}

/// The member named `key` of the member named `outer` of `value`.
pub open spec fn member_of(value: JsonView, outer: Seq<char>, key: Seq<char>) -> Option<JsonView> {
    match value.field(outer) {
        Some(inner) => inner.field(key),
        None => None,
    }
}

/// The text of the member named `key` of `value`, where it is a string.
pub open spec fn text_member(value: JsonView, key: Seq<char>) -> Option<Seq<char>> {
    match value.field(key) {
        Some(member) => member.as_text(),
        None => None,
    }
}

/// The kind of a proposal, read from the single key of its `kind` object;
/// the message of the parse error otherwise.
pub open spec fn proposal_kind(proposal: JsonView) -> Result<ProposalType, Seq<char>> {
    match proposal.field("kind"@) {
        None => Err("Missing 'kind' field"@),
        Some(kind) => if kind.is_object() {
            if kind.field("AddMemberToRole"@) is Some {
                Ok(ProposalType::AddMember)
            } else if kind.field("RemoveMemberFromRole"@) is Some {
                Ok(ProposalType::RemoveMember)
            } else if kind.field("FunctionCall"@) is Some {
                Ok(ProposalType::FunctionCall)
            } else if kind.field("Transfer"@) is Some {
                Ok(ProposalType::Transfer)
            } else if kind.field("Vote"@) is Some {
                Ok(ProposalType::Vote)
            } else {
                Err("Unknown proposal kind"@)
            }
        } else {
            Err("Invalid proposal kind format"@)
        },
    }
}

/// The member and the role named in the body of a member proposal.
pub open spec fn member_and_role(body: JsonView) -> Result<(Seq<char>, Seq<char>), Seq<char>> {
    match text_member(body, "member_id"@) {
        None => Err("Missing member_id"@),
        Some(member_id) => match text_member(body, "role"@) {
            None => Err("Missing role"@),
            Some(role) => Ok((member_id, role)),
        },
    }
}

/// The member and the role that a member proposal names.
pub open spec fn member_details(proposal: JsonView) -> Result<(Seq<char>, Seq<char>), Seq<char>> {
    match proposal.field("kind"@) {
        Some(kind) => if kind.is_object() {
            match kind.field("AddMemberToRole"@) {
                Some(body) => member_and_role(body),
                None => match kind.field("RemoveMemberFromRole"@) {
                    Some(body) => member_and_role(body),
                    None => Err("Not a member proposal"@),
                },
            }
        } else {
            Err("Invalid proposal kind"@)
        },
        None => Err("Invalid proposal kind"@),
    }
}

/// The token, receiver, amount and optional message of a transfer proposal.
pub open spec fn transfer_details(proposal: JsonView) -> Result<
    (Seq<char>, Seq<char>, Seq<char>, Option<Seq<char>>),
    Seq<char>,
> {
    match member_of(proposal, "kind"@, "Transfer"@) {
        None => Err("Not a transfer proposal"@),
        Some(body) => match text_member(body, "token_id"@) {
            None => Err("Missing token_id"@),
            Some(token_id) => match text_member(body, "receiver_id"@) {
                None => Err("Missing receiver_id"@),
                Some(receiver_id) => match text_member(body, "amount"@) {
                    None => Err("Missing amount"@),
                    Some(amount) => Ok((token_id, receiver_id, amount, text_member(body, "msg"@))),
                },
            },
        },
    }
}

/// The receiver and the actions of a function-call proposal.
pub open spec fn function_call_details(proposal: JsonView) -> Result<(Seq<char>, JsonView), Seq<char>> {
    match member_of(proposal, "kind"@, "FunctionCall"@) {
        None => Err("Not a function call proposal"@),
        Some(body) => match text_member(body, "receiver_id"@) {
            None => Err("Missing receiver_id"@),
            Some(receiver_id) => match body.field("actions"@) {
                None => Err("Missing actions"@),
                Some(actions) => Ok((receiver_id, actions)),
            },
        },
    }
}

/// The text of the string member `key` of `value`, as an owned string.
pub(crate) fn text_member_of(value: &Json, key: &str) -> (r: Option<String>)
    ensures
        match r {
            Some(t) => text_member(value@, key@) == Some(t@),
            None => text_member(value@, key@) is None,
        },
{
    match value.get(key) {
        Some(member) => match member.as_str() {
            Some(t) => Some(String::from_str(t)),
            None => None,
        },
        None => None,
    }
}

/// The member `key` of the member `outer` of `value`.
fn member_of_value<'a>(value: &'a Json, outer: &str, key: &str) -> (r: Option<&'a Json>)
    ensures
        match r {
            Some(v) => member_of(value@, outer@, key@) == Some(v@),
            None => member_of(value@, outer@, key@) is None,
        },
{
    match value.get(outer) {
        Some(inner) => inner.get(key),
        None => None,
    }
}

fn member_and_role_of(body: &Json) -> (r: Result<(String, String), BigQueryError>)
    ensures
        match member_and_role(body@) {
            Ok((m, role)) => r matches Ok((a, b)) && a@ == m && b@ == role,
            Err(msg) => r matches Err(e) && e@ == BigQueryErrorView::Parse(msg),
        },
{
    let member_id = match text_member_of(body, "member_id") {
        Some(t) => t,
        None => return Err(BigQueryError::parse("Missing member_id")),
    };
    let role = match text_member_of(body, "role") {
        Some(t) => t,
        None => return Err(BigQueryError::parse("Missing role")),
    };
    Ok((member_id, role))
}

/// A client of the NEAR dataset in BigQuery.
#[derive(Debug)]
pub struct BigQueryClient {
    project_id: String,
}

impl View for BigQueryClient {
    /// The project the client queries.
    type V = Seq<char>;

    closed spec fn view(&self) -> Seq<char> {
        self.project_id@
    }
}

impl BigQueryClient {
    /// A client for the project of `config`; refused where the credentials
    /// file that `config` names is not there (`credentials_found` says whether it is).
    pub fn new(config: BigQueryConfig, credentials_found: bool) -> (r: Result<Self, BigQueryError>)
        ensures
            credentials_found ==> (r matches Ok(client) && client@ == config.project_id@),
            !credentials_found ==> (r matches Err(e) && e@ == BigQueryErrorView::Auth(
                "Credentials file not found: "@ + config.credentials_path@,
            )),
    {
        if !credentials_found {
            let mut message = String::from_str("Credentials file not found: ");
            message.append(config.credentials_path.as_str());
            return Err(BigQueryError::Auth(message));
        }
        Ok(BigQueryClient { project_id: config.project_id })
    }

    /// The kind of `proposal`.
    pub fn proposal_type(&self, proposal: &Json) -> (r: Result<ProposalType, BigQueryError>)
        ensures
            match proposal_kind(proposal@) {
                Ok(t) => r == Ok::<ProposalType, BigQueryError>(t),
                Err(msg) => r matches Err(e) && e@ == BigQueryErrorView::Parse(msg),
            },
    {
        let kind = match proposal.get("kind") {
            Some(k) => k,
            None => return Err(BigQueryError::parse("Missing 'kind' field")),
        };
        match kind {
            Json::Object(_) => {
                if kind.contains_key("AddMemberToRole") {
                    Ok(ProposalType::AddMember)
                } else if kind.contains_key("RemoveMemberFromRole") {
                    Ok(ProposalType::RemoveMember)
                } else if kind.contains_key("FunctionCall") {
                    Ok(ProposalType::FunctionCall)
                } else if kind.contains_key("Transfer") {
                    Ok(ProposalType::Transfer)
                } else if kind.contains_key("Vote") {
                    Ok(ProposalType::Vote)
                } else {
                    Err(BigQueryError::parse("Unknown proposal kind"))
                }
            },
            _ => Err(BigQueryError::parse("Invalid proposal kind format")),
        }
    }

    /// The name of the kind of `proposal`.
    pub fn parse_proposal_kind(&self, proposal: &Json) -> (r: Result<String, BigQueryError>)
        ensures
            match proposal_kind(proposal@) {
                Ok(t) => r matches Ok(name) && name@ == t.kind_name(),
                Err(msg) => r matches Err(e) && e@ == BigQueryErrorView::Parse(msg),
            },
    {
        match self.proposal_type(proposal) {
            Ok(t) => Ok(t.name()),
            Err(e) => Err(e),
        }
    }

    /// The member and the role that a member proposal names.
    pub fn extract_member_details(&self, proposal: &Json) -> (r: Result<(String, String), BigQueryError>)
        ensures
            match member_details(proposal@) {
                Ok((m, role)) => r matches Ok((a, b)) && a@ == m && b@ == role,
                Err(msg) => r matches Err(e) && e@ == BigQueryErrorView::Parse(msg),
            },
    {
        let kind = match proposal.get("kind") {
            Some(k) => k,
            None => return Err(BigQueryError::parse("Invalid proposal kind")),
        };
        match kind {
            Json::Object(_) => {},
            _ => return Err(BigQueryError::parse("Invalid proposal kind")),
        }
        match kind.get("AddMemberToRole") {
            Some(body) => member_and_role_of(body),
            None => match kind.get("RemoveMemberFromRole") {
                Some(body) => member_and_role_of(body),
                None => Err(BigQueryError::parse("Not a member proposal")),
            },
        }
    }

    /// The token, receiver, amount and optional message of a transfer proposal.
    pub fn extract_transfer_details(&self, proposal: &Json) -> (r: Result<
        (String, String, String, Option<String>),
        BigQueryError,
    >)
        ensures
            match transfer_details(proposal@) {
                Ok((token, receiver, amount, msg)) => r matches Ok((t, rc, a, m)) && t@ == token
                    && rc@ == receiver && a@ == amount && match m {
                    Some(text) => msg == Some(text@),
                    None => msg is None,
                },
                Err(msg) => r matches Err(e) && e@ == BigQueryErrorView::Parse(msg),
            },
    {
        let transfer = match member_of_value(proposal, "kind", "Transfer") {
            Some(t) => t,
            None => return Err(BigQueryError::parse("Not a transfer proposal")),
        };
        let token_id = match text_member_of(transfer, "token_id") {
            Some(t) => t,
            None => return Err(BigQueryError::parse("Missing token_id")),
        };
        let receiver_id = match text_member_of(transfer, "receiver_id") {
            Some(t) => t,
            None => return Err(BigQueryError::parse("Missing receiver_id")),
        };
        let amount = match text_member_of(transfer, "amount") {
            Some(t) => t,
            None => return Err(BigQueryError::parse("Missing amount")),
        };
        let msg = text_member_of(transfer, "msg");
        Ok((token_id, receiver_id, amount, msg))
    }

    /// The receiver and a copy of the actions of a function-call proposal.
    pub fn extract_function_call_details(&self, proposal: &Json) -> (r: Result<(String, Json), BigQueryError>)
        ensures
            match function_call_details(proposal@) {
                Ok((receiver, actions)) => r matches Ok((rc, a)) && rc@ == receiver && a@ == actions,
                Err(msg) => r matches Err(e) && e@ == BigQueryErrorView::Parse(msg),
            },
    {
        let function_call = match member_of_value(proposal, "kind", "FunctionCall") {
            Some(f) => f,
            None => return Err(BigQueryError::parse("Not a function call proposal")),
        };
        let receiver_id = match text_member_of(function_call, "receiver_id") {
            Some(t) => t,
            None => return Err(BigQueryError::parse("Missing receiver_id")),
        };
        let actions = match function_call.get("actions") {
            Some(a) => a.copy(),
            None => return Err(BigQueryError::parse("Missing actions")),
        };
        Ok((receiver_id, actions))
    }
}

} // verus!
