use crate::bigquery::{
    text_member, text_member_of, function_call_details, member_details, proposal_kind, transfer_details, BigQueryClient,
    BigQueryError, BigQueryErrorView,
};
use crate::json::{Json, JsonView};
use crate::models::{BigQueryAction, BigQueryActionView, ProposalType, VoteArgs};
use vstd::prelude::*;
use vstd::string::*;

verus! {

/// Why a sync, or the handling of one action in it, failed.
#[derive(Debug, PartialEq)]
pub enum SyncError {
    /// The call's arguments carry no integer `proposal_id`.
    MissingProposalId,
    /// The vote's arguments carry no `vote` text.
    MissingVote,
    BigQuery(BigQueryError),
    /// The database refused a statement; the text is its message.
    Database(String),
}

/// The mathematical model of a [`SyncError`].
pub enum SyncErrorView {
    MissingProposalId,
    MissingVote,
    BigQuery(BigQueryErrorView),
    Database(Seq<char>),
}

impl View for SyncError {
    type V = SyncErrorView;

    open spec fn view(&self) -> SyncErrorView {
        match self {
            SyncError::MissingProposalId => SyncErrorView::MissingProposalId,
            SyncError::MissingVote => SyncErrorView::MissingVote,
            SyncError::BigQuery(e) => SyncErrorView::BigQuery(e@),
            SyncError::Database(m) => SyncErrorView::Database(m@),
        }
    }
}

impl SyncErrorView {
    /// The text a user is shown for the error.
    pub open spec fn message(self) -> Seq<char> {
        match self {
            SyncErrorView::MissingProposalId => "Missing proposal_id"@,
            SyncErrorView::MissingVote => "Missing vote"@,
            SyncErrorView::BigQuery(e) => e.message(),
            SyncErrorView::Database(m) => m,
        }
    }
}

impl SyncError {
    /// The text a user is shown for the error.
    pub fn message(&self) -> (r: String)
        ensures
            r@ == self@.message(),
    {
        match self {
            SyncError::MissingProposalId => String::from_str("Missing proposal_id"),
            SyncError::MissingVote => String::from_str("Missing vote"),
            SyncError::BigQuery(e) => e.message(),
            SyncError::Database(m) => m.clone(),
        }
    }
}

/// A proposal row to be written: inserted, or, where the DAO already has a
/// proposal with that number, its status overwritten.
#[derive(Debug, PartialEq)]
pub struct NewProposal {
    pub dao_id: i32,
    pub proposal_id: i64,
    pub proposer: String,
    pub proposal_type: String,
    pub description: String,
    pub status: String,
    pub target_member: Option<String>,
    pub target_role: Option<String>,
    pub receiver_id: Option<String>,
    pub actions: Option<Json>,
    pub token_id: Option<String>,
    pub amount: Option<String>,
}

/// The mathematical model of a [`NewProposal`].
pub struct NewProposalView {
    pub dao_id: i32,
    pub proposal_id: i64,
    pub proposer: Seq<char>,
    pub proposal_type: Seq<char>,
    pub description: Seq<char>,
    pub status: Seq<char>,
    pub target_member: Option<Seq<char>>,
    pub target_role: Option<Seq<char>>,
    pub receiver_id: Option<Seq<char>>,
    pub actions: Option<JsonView>,
    pub token_id: Option<Seq<char>>,
    pub amount: Option<Seq<char>>,
}

pub open spec fn text_view(t: Option<String>) -> Option<Seq<char>> {
    match t {
        Some(s) => Some(s@),
        None => None,
    }
}

impl View for NewProposal {
    type V = NewProposalView;

    open spec fn view(&self) -> NewProposalView {
        NewProposalView {
            dao_id: self.dao_id,
            proposal_id: self.proposal_id,
            proposer: self.proposer@,
            proposal_type: self.proposal_type@,
            description: self.description@,
            status: self.status@,
            target_member: text_view(self.target_member),
            target_role: text_view(self.target_role),
            receiver_id: text_view(self.receiver_id),
            actions: match self.actions {
                Some(a) => Some(a@),
                None => None,
            },
            token_id: text_view(self.token_id),
            amount: text_view(self.amount),
        }
    }
}

/// A vote row to be written: inserted, or, where the voter already voted on
/// the proposal, its vote overwritten.
#[derive(Debug, PartialEq)]
pub struct NewVote {
    /// The database's own id of the proposal voted on.
    pub proposal_id: i32,
    pub voter: String,
    pub vote: String,
}

/// The mathematical model of a [`NewVote`].
pub struct NewVoteView {
    pub proposal_id: i32,
    pub voter: Seq<char>,
    pub vote: Seq<char>,
}

impl View for NewVote {
    type V = NewVoteView;

    open spec fn view(&self) -> NewVoteView {
        NewVoteView { proposal_id: self.proposal_id, voter: self.voter@, vote: self.vote@ }
    }
}

/// The status every proposal is stored with.
pub open spec fn in_progress() -> Seq<char> {
    "InProgress"@
}

/// The row of a proposal to add a member to a role or remove one from it.
pub open spec fn member_proposal_row(
    dao_id: i32,
    proposer: Seq<char>,
    proposal_type: Seq<char>,
    member_id: Seq<char>,
    role: Seq<char>,
    proposal_id: i64,
) -> NewProposalView {
    NewProposalView {
        dao_id,
        proposal_id,
        proposer,
        proposal_type,
        description: proposal_type + " "@ + member_id + " as "@ + role,
        status: in_progress(),
        target_member: Some(member_id),
        target_role: Some(role),
        receiver_id: None,
        actions: None,
        token_id: None,
        amount: None,
    }
}

/// The description of a transfer proposal.
pub open spec fn transfer_description(
    token_id: Seq<char>,
    receiver_id: Seq<char>,
    amount: Seq<char>,
    msg: Option<Seq<char>>,
) -> Seq<char> {
    let base = "Transfer "@ + amount + " "@ + token_id + " to "@ + receiver_id;
    match msg {
        Some(m) => base + " ("@ + m + ")"@,
        None => base,
    }
}

/// The row of a proposal to transfer tokens.
pub open spec fn transfer_proposal_row(
    dao_id: i32,
    proposer: Seq<char>,
    token_id: Seq<char>,
    receiver_id: Seq<char>,
    amount: Seq<char>,
    msg: Option<Seq<char>>,
    proposal_id: i64,
) -> NewProposalView {
    NewProposalView {
        dao_id,
        proposal_id,
        proposer,
        proposal_type: "Transfer"@,
        description: transfer_description(token_id, receiver_id, amount, msg),
        status: in_progress(),
        target_member: None,
        target_role: None,
        receiver_id: Some(receiver_id),
        actions: None,
        token_id: Some(token_id),
        amount: Some(amount),
    }
}

/// The row of a proposal to call a contract.
pub open spec fn function_call_proposal_row(
    dao_id: i32,
    proposer: Seq<char>,
    receiver_id: Seq<char>,
    actions: JsonView,
    proposal_id: i64,
) -> NewProposalView {
    NewProposalView {
        dao_id,
        proposal_id,
        proposer,
        proposal_type: "FunctionCall"@,
        description: "Function call to "@ + receiver_id,
        status: in_progress(),
        target_member: None,
        target_role: None,
        receiver_id: Some(receiver_id),
        actions: Some(actions),
        token_id: None,
        amount: None,
    }
}

/// The row of a proposal to add a member to a role or remove one from it.
pub fn member_proposal(
    dao_id: i32,
    proposer: &str,
    proposal_type: &str,
    member_id: &str,
    role: &str,
    proposal_id: i64,
) -> (r: NewProposal)
    ensures
        r@ == member_proposal_row(dao_id, proposer@, proposal_type@, member_id@, role@, proposal_id),
        r@.dao_id == dao_id && r@.proposal_id == proposal_id && r@.proposer == proposer@,
        r@.proposal_type == proposal_type@,
        r@.target_member == Some(member_id@) && r@.target_role == Some(role@),
        r@.receiver_id is None && r@.actions is None,
        r@.token_id is None && r@.amount is None,
{
    let mut description = String::from_str(proposal_type);
    description.append(" ");
    description.append(member_id);
    description.append(" as ");
    description.append(role);
    let r = NewProposal {
        dao_id,
        proposal_id,
        proposer: String::from_str(proposer),
        proposal_type: String::from_str(proposal_type),
        description,
        status: String::from_str("InProgress"),
        target_member: Some(String::from_str(member_id)),
        target_role: Some(String::from_str(role)),
        receiver_id: None,
        actions: None,
        token_id: None,
        amount: None,
    };
    assert(r@.description =~= proposal_type@ + " "@ + member_id@ + " as "@ + role@);
    r
}

/// The row of a proposal to transfer tokens.
pub fn transfer_proposal(
    dao_id: i32,
    proposer: &str,
    token_id: &str,
    receiver_id: &str,
    amount: &str,
    msg: Option<&str>,
    proposal_id: i64,
) -> (r: NewProposal)
    ensures
        r@ == transfer_proposal_row(
            dao_id,
            proposer@,
            token_id@,
            receiver_id@,
            amount@,
            match msg {
                Some(m) => Some(m@),
                None => None,
            },
            proposal_id,
        ),
        r@.dao_id == dao_id && r@.proposal_id == proposal_id && r@.proposer == proposer@,
        r@.proposal_type == "Transfer"@,
        r@.token_id == Some(token_id@) && r@.receiver_id == Some(receiver_id@),
        r@.amount == Some(amount@),
        r@.target_member is None && r@.target_role is None && r@.actions is None,
{
    let mut description = String::from_str("Transfer ");
    description.append(amount);
    description.append(" ");
    description.append(token_id);
    description.append(" to ");
    description.append(receiver_id);
    let ghost base = description@;
    match msg {
        Some(m) => {
            description.append(" (");
            description.append(m);
            description.append(")");
            assert(description@ =~= base + " ("@ + m@ + ")"@);
        },
        None => {},
    }
    let r = NewProposal {
        dao_id,
        proposal_id,
        proposer: String::from_str(proposer),
        proposal_type: String::from_str("Transfer"),
        description,
        status: String::from_str("InProgress"),
        target_member: None,
        target_role: None,
        receiver_id: Some(String::from_str(receiver_id)),
        actions: None,
        token_id: Some(String::from_str(token_id)),
        amount: Some(String::from_str(amount)),
    };
    assert(base =~= "Transfer "@ + amount@ + " "@ + token_id@ + " to "@ + receiver_id@);
    r
}

/// The row of a proposal to call a contract.
pub fn function_call_proposal(
    dao_id: i32,
    proposer: &str,
    receiver_id: &str,
    actions: &Json,
    proposal_id: i64,
) -> (r: NewProposal)
    ensures
        r@ == function_call_proposal_row(dao_id, proposer@, receiver_id@, actions@, proposal_id),
        r@.dao_id == dao_id && r@.proposal_id == proposal_id && r@.proposer == proposer@,
        r@.proposal_type == "FunctionCall"@,
        r@.receiver_id == Some(receiver_id@) && r@.actions == Some(actions@),
        r@.target_member is None && r@.target_role is None,
        r@.token_id is None && r@.amount is None,
{
    let mut description = String::from_str("Function call to ");
    description.append(receiver_id);
    NewProposal {
        dao_id,
        proposal_id,
        proposer: String::from_str(proposer),
        proposal_type: String::from_str("FunctionCall"),
        description,
        status: String::from_str("InProgress"),
        target_member: None,
        target_role: None,
        receiver_id: Some(String::from_str(receiver_id)),
        actions: Some(actions.copy()),
        token_id: None,
        amount: None,
    }
}

/// The row of `voter`'s vote on the proposal whose database id is `proposal_id`.
pub fn new_vote(proposal_id: i32, voter: &str, vote: &str) -> (r: NewVote)
    ensures
        r@ == (NewVoteView { proposal_id, voter: voter@, vote: vote@ }),
{
    NewVote { proposal_id, voter: String::from_str(voter), vote: String::from_str(vote) }
}


/// The integer member `key` of `value`, where it fits in an `i64`.
pub open spec fn int_member(value: JsonView, key: Seq<char>) -> Option<int> {
    match value.field(key) {
        Some(member) => member.as_int(),
        None => None,
    }
}

/// What the proposal submitted by `action` to the DAO `dao_id` is stored as:
/// a row for a member, transfer or function-call proposal, nothing for a
/// vote proposal, or the reason why the call cannot be read.
pub open spec fn planned_proposal(dao_id: i32, action: BigQueryActionView) -> Result<
    Option<NewProposalView>,
    SyncErrorView,
> {
    let args = action.args;
    let proposer = action.signer_account_id;
    match int_member(args, "proposal_id"@) {
        None => Err(SyncErrorView::MissingProposalId),
        Some(pid) => match proposal_kind(args) {
            Err(m) => Err(SyncErrorView::BigQuery(BigQueryErrorView::Parse(m))),
            Ok(kind) => match kind {
                ProposalType::AddMember | ProposalType::RemoveMember => match member_details(args) {
                    Err(m) => Err(SyncErrorView::BigQuery(BigQueryErrorView::Parse(m))),
                    Ok((member_id, role)) => Ok(
                        Some(
                            member_proposal_row(
                                dao_id,
                                proposer,
                                kind.kind_name(),
                                member_id,
                                role,
                                pid as i64,
                            ),
                        ),
                    ),
                },
                ProposalType::Transfer => match transfer_details(args) {
                    Err(m) => Err(SyncErrorView::BigQuery(BigQueryErrorView::Parse(m))),
                    Ok((token_id, receiver_id, amount, msg)) => Ok(
                        Some(
                            transfer_proposal_row(
                                dao_id,
                                proposer,
                                token_id,
                                receiver_id,
                                amount,
                                msg,
                                pid as i64,
                            ),
                        ),
                    ),
                },
                ProposalType::FunctionCall => match function_call_details(args) {
                    Err(m) => Err(SyncErrorView::BigQuery(BigQueryErrorView::Parse(m))),
                    Ok((receiver_id, actions)) => Ok(
                        Some(
                            function_call_proposal_row(
                                dao_id,
                                proposer,
                                receiver_id,
                                actions,
                                pid as i64,
                            ),
                        ),
                    ),
                },
                ProposalType::Vote => Ok(None),
            },
        },
    }
}

/// The proposal number and the action of the vote cast by `action`, or why
/// the call cannot be read.
pub open spec fn planned_vote(action: BigQueryActionView) -> Result<(i64, Seq<char>), SyncErrorView> {
    match int_member(action.args, "proposal_id"@) {
        None => Err(SyncErrorView::MissingProposalId),
        Some(pid) => match text_member(action.args, "vote"@) {
            None => Err(SyncErrorView::MissingVote),
            Some(vote) => Ok((pid as i64, vote)),
        },
    }
}

/// Every proposal row the service writes is for the DAO being synced, names
/// the account that submitted the proposal and the number the call gives it,
/// is of the kind the call names (never a vote proposal), and is in progress.
pub proof fn law_planned_rows(dao_id: i32, action: BigQueryActionView)
    requires
        planned_proposal(dao_id, action) matches Ok(Some(_)),
    ensures
        ({
            let row = planned_proposal(dao_id, action)->Ok_0->Some_0;
            &&& row.dao_id == dao_id
            &&& row.proposer == action.signer_account_id
            &&& row.status == in_progress()
            &&& int_member(action.args, "proposal_id"@) == Some(row.proposal_id as int)
            &&& proposal_kind(action.args) matches Ok(kind) && kind != ProposalType::Vote
                && row.proposal_type == kind.kind_name()
        }),
{
}

/// Each kind of proposal is stored with what its call names: a member
/// proposal with its member and role, a transfer with its token, receiver
/// and amount, a function call with the contract it calls and its actions,
/// always under the number the call gives it; a vote proposal is not stored.
pub proof fn law_planned_row_payload(dao_id: i32, action: BigQueryActionView, n: int)
    requires
        int_member(action.args, "proposal_id"@) == Some(n),
    ensures
        ({
            let args = action.args;
            let planned = planned_proposal(dao_id, action);
            &&& (proposal_kind(args) == Ok::<ProposalType, Seq<char>>(ProposalType::AddMember)
                || proposal_kind(args) == Ok::<ProposalType, Seq<char>>(ProposalType::RemoveMember))
                ==> (member_details(args) matches Ok((member, role)) ==> (planned matches Ok(
                Some(row),
            ) && row.proposal_id as int == n && row.dao_id == dao_id && row.target_member == Some(
                member,
            ) && row.target_role == Some(role)))
            &&& proposal_kind(args) == Ok::<ProposalType, Seq<char>>(ProposalType::Transfer)
                ==> (transfer_details(args) matches Ok((token, receiver, amount, _msg)) ==> (
            planned matches Ok(Some(row)) && row.proposal_id as int == n && row.dao_id == dao_id
                && row.token_id == Some(token) && row.receiver_id == Some(receiver)
                && row.amount == Some(amount)))
            &&& proposal_kind(args) == Ok::<ProposalType, Seq<char>>(ProposalType::FunctionCall)
                ==> (function_call_details(args) matches Ok((receiver, acts)) ==> (
            planned matches Ok(Some(row)) && row.proposal_id as int == n && row.dao_id == dao_id
                && row.receiver_id == Some(receiver) && row.actions == Some(acts)))
            &&& proposal_kind(args) == Ok::<ProposalType, Seq<char>>(ProposalType::Vote)
                ==> planned == Ok::<Option<NewProposalView>, SyncErrorView>(None)
        }),
{
}

/// The row builders record what they are given: a function-call row names
/// the contract called and carries its actions, a transfer row names its
/// token, receiver and amount, a member row its member and role, and no row
/// carries the fields of another kind.
pub proof fn law_rows_record_their_targets(
    dao_id: i32,
    proposer: Seq<char>,
    kind: Seq<char>,
    target: Seq<char>,
    role: Seq<char>,
    amount: Seq<char>,
    msg: Option<Seq<char>>,
    acts: JsonView,
    proposal_id: i64,
)
    ensures
        ({
            let call = function_call_proposal_row(dao_id, proposer, target, acts, proposal_id);
            &&& call.receiver_id == Some(target) && call.actions == Some(acts)
            &&& call.target_member is None && call.token_id is None && call.amount is None
            &&& call.dao_id == dao_id && call.proposal_id == proposal_id && call.proposer == proposer
        }),
        ({
            let transfer = transfer_proposal_row(dao_id, proposer, kind, target, amount, msg, proposal_id);
            &&& transfer.token_id == Some(kind) && transfer.receiver_id == Some(target)
            &&& transfer.amount == Some(amount)
            &&& transfer.actions is None && transfer.target_member is None
            &&& transfer.dao_id == dao_id && transfer.proposal_id == proposal_id
        }),
        ({
            let member = member_proposal_row(dao_id, proposer, kind, target, role, proposal_id);
            &&& member.target_member == Some(target) && member.target_role == Some(role)
            &&& member.proposal_type == kind
            &&& member.receiver_id is None && member.actions is None && member.token_id is None
            &&& member.dao_id == dao_id && member.proposal_id == proposal_id
        }),
        ({
            let call = function_call_proposal_row(dao_id, proposer, target, acts, proposal_id);
            let transfer = transfer_proposal_row(dao_id, proposer, kind, target, amount, msg, proposal_id);
            &&& call.status == in_progress() && transfer.status == in_progress()
        }),
{
}

/// A vote call is read as the number and the text it carries: whenever its
/// arguments hold an integer `proposal_id` that fits an `i64` (zero and
/// negative numbers included) and a text `vote`, the vote is on that
/// proposal with that action; it is refused only where one of them is missing.
pub proof fn law_vote_read_from_its_call(action: BigQueryActionView)
    ensures
        int_member(action.args, "proposal_id"@) matches Some(n) ==> text_member(
            action.args,
            "vote"@,
        ) matches Some(t) ==> (planned_vote(action) matches Ok((pid, vote)) && pid as int == n
            && vote == t),
        int_member(action.args, "proposal_id"@) is None ==> planned_vote(action) == Err::<
            (i64, Seq<char>),
            SyncErrorView,
        >(SyncErrorView::MissingProposalId),
        int_member(action.args, "proposal_id"@) is Some && text_member(action.args, "vote"@) is None
            ==> planned_vote(action) == Err::<(i64, Seq<char>), SyncErrorView>(
            SyncErrorView::MissingVote,
        ),
        planned_vote(action) is Ok ==> int_member(action.args, "proposal_id"@) is Some
            && text_member(action.args, "vote"@) is Some,
{
    match int_member(action.args, "proposal_id"@) {
        Some(n) => {
            assert(i64::MIN <= n <= i64::MAX) by {
                lemma_int_member_fits(action.args, "proposal_id"@);
            }
        },
        None => {},
    }
}

/// An integer member is one that fits in an `i64`.
proof fn lemma_int_member_fits(value: JsonView, key: Seq<char>)
    ensures
        int_member(value, key) matches Some(n) ==> i64::MIN <= n <= i64::MAX,
{
}

/// The integer member `key` of `value`, where it fits in an `i64`.
fn int_member_of(value: &Json, key: &str) -> (r: Option<i64>)
    ensures
        match r {
            Some(n) => int_member(value@, key@) == Some(n as int),
            None => int_member(value@, key@) is None,
        },
{
    match value.get(key) {
        Some(member) => member.as_i64(),
        None => None,
    }
}

/// The block from which the periodic sync resumes, given what the database
/// reports as the latest block stored: that block, or the first where there
/// is none; no sync this round where the database cannot say.
pub fn next_start_block(latest: Result<Option<i64>, SyncError>) -> (r: Option<i64>)
    ensures
        r == match latest {
            Ok(Some(block)) => Some(block),
            Ok(None) => Some(0i64),
            Err(_) => None::<i64>,
        },
{
    match latest {
        Ok(Some(block)) => Some(block),
        Ok(None) => Some(0),
        Err(_) => None,
    }
}

/// The service's own decisions on what it syncs: it holds the BigQuery client,
/// and what it fetches and stores it hands to the caller as commands.
#[derive(Debug)]
pub struct SyncService {
    bq: BigQueryClient,
}

impl SyncService {
    pub fn new(bq: BigQueryClient) -> (r: Self)
        ensures
            r.client()@ == bq@,
    {
        SyncService { bq }
    }

    pub closed spec fn client(&self) -> BigQueryClient {
        self.bq
    }

    /// The client through which the service's queries run.
    pub fn bigquery(&self) -> (r: &BigQueryClient)
        ensures
            r@ == self.client()@,
    {
        &self.bq
    }

    /// What the proposal submitted by `action` to the DAO `dao_id` is stored as.
    pub fn plan_proposal(&self, dao_id: i32, action: &BigQueryAction) -> (r: Result<
        Option<NewProposal>,
        SyncError,
    >)
        ensures
            match planned_proposal(dao_id, action@) {
                Ok(Some(row)) => r matches Ok(Some(p)) && p@ == row,
                Ok(None) => r matches Ok(None),
                Err(e) => r matches Err(f) && f@ == e,
            },
    {
        let args = &action.args;
        let proposal_id = match int_member_of(args, "proposal_id") {
            Some(n) => n,
            None => return Err(SyncError::MissingProposalId),
        };
        let kind = match self.bq.proposal_type(args) {
            Ok(k) => k,
            Err(e) => return Err(SyncError::BigQuery(e)),
        };
        match kind {
            ProposalType::AddMember | ProposalType::RemoveMember => {
                let proposal_type = kind.name();
                match self.bq.extract_member_details(args) {
                    Ok((member_id, role)) => Ok(
                        Some(
                            member_proposal(
                                dao_id,
                                action.signer_account_id.as_str(),
                                proposal_type.as_str(),
                                member_id.as_str(),
                                role.as_str(),
                                proposal_id,
                            ),
                        ),
                    ),
                    Err(e) => Err(SyncError::BigQuery(e)),
                }
            },
            ProposalType::Transfer => match self.bq.extract_transfer_details(args) {
                Ok((token_id, receiver_id, amount, msg)) => {
                    let msg_text: Option<&str> = match &msg {
                        Some(m) => Some(m.as_str()),
                        None => None,
                    };
                    Ok(
                        Some(
                            transfer_proposal(
                                dao_id,
                                action.signer_account_id.as_str(),
                                token_id.as_str(),
                                receiver_id.as_str(),
                                amount.as_str(),
                                msg_text,
                                proposal_id,
                            ),
                        ),
                    )
                },
                Err(e) => Err(SyncError::BigQuery(e)),
            },
            ProposalType::FunctionCall => match self.bq.extract_function_call_details(args) {
                Ok((receiver_id, actions)) => Ok(
                    Some(
                        function_call_proposal(
                            dao_id,
                            action.signer_account_id.as_str(),
                            receiver_id.as_str(),
                            &actions,
                            proposal_id,
                        ),
                    ),
                ),
                Err(e) => Err(SyncError::BigQuery(e)),
            },
            ProposalType::Vote => Ok(None),
        }
    }

    /// The proposal number and the action of the vote cast by `action`.
    pub fn plan_vote(&self, action: &BigQueryAction) -> (r: Result<VoteArgs, SyncError>)
        ensures
            match planned_vote(action@) {
                Ok((pid, vote)) => r matches Ok(v) && v.proposal_id == pid && v.vote@ == vote,
                Err(e) => r matches Err(f) && f@ == e,
            },
            int_member(action@.args, "proposal_id"@) matches Some(n) ==> text_member(
                action@.args,
                "vote"@,
            ) matches Some(t) ==> (r matches Ok(v) && v.proposal_id as int == n && v.vote@ == t),
    {
        let proposal_id = match int_member_of(&action.args, "proposal_id") {
            Some(n) => n,
            None => return Err(SyncError::MissingProposalId),
        };
        let vote = match text_member_of(&action.args, "vote") {
            Some(v) => v,
            None => return Err(SyncError::MissingVote),
        };
        Ok(VoteArgs { proposal_id, vote })
    }
}

} // verus!
