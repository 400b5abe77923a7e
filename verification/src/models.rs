use crate::json::{Json, JsonView};
use vstd::prelude::*;
use vstd::string::*;

verus! {

/// The kinds of Sputnik DAO proposal the service understands.
#[derive(Clone, Copy, Debug, PartialEq, Eq, Structural)]
pub enum ProposalType {
    /// `AddMemberToRole`
    AddMember,
    /// `RemoveMemberFromRole`
    RemoveMember,
    FunctionCall,
    Transfer,
    Vote,
}

impl ProposalType {
    /// The name under which a proposal of this kind is stored.
    pub open spec fn kind_name(self) -> Seq<char> {
        match self {
            ProposalType::AddMember => "AddMember"@,
            ProposalType::RemoveMember => "RemoveMember"@,
            ProposalType::FunctionCall => "FunctionCall"@,
            ProposalType::Transfer => "Transfer"@,
            ProposalType::Vote => "Vote"@,
        }
    }

    /// The name under which a proposal of this kind is stored.
    pub fn name(&self) -> (r: String)
        ensures
            r@ == self.kind_name(),
    {
        match self {
            ProposalType::AddMember => String::from_str("AddMember"),
            ProposalType::RemoveMember => String::from_str("RemoveMember"),
            ProposalType::FunctionCall => String::from_str("FunctionCall"),
            ProposalType::Transfer => String::from_str("Transfer"),
            ProposalType::Vote => String::from_str("Vote"),
        }
    }
}

/// One function-call action on a DAO contract, as the NEAR dataset records it.
#[derive(Debug, PartialEq)]
pub struct BigQueryAction {
    pub block_timestamp: i64,
    pub signer_account_id: String,
    pub receiver_account_id: String,
    pub args: Json,
}

/// The mathematical model of a [`BigQueryAction`].
pub struct BigQueryActionView {
    pub block_timestamp: int,
    pub signer_account_id: Seq<char>,
    pub receiver_account_id: Seq<char>,
    pub args: JsonView,
}

impl View for BigQueryAction {
    type V = BigQueryActionView;

    open spec fn view(&self) -> BigQueryActionView {
        BigQueryActionView {
            block_timestamp: self.block_timestamp as int,
            signer_account_id: self.signer_account_id@,
            receiver_account_id: self.receiver_account_id@,
            args: self.args@,
        }
    }
}

/// The arguments of an `add_proposal` call.
#[derive(Debug, PartialEq)]
pub struct ProposalArgs {
    pub proposal: Json,
    pub proposal_id: i64,
}

/// The arguments of an `act_proposal` call: which proposal, and the action taken on it.
#[derive(Debug, PartialEq)]
pub struct VoteArgs {
    pub proposal_id: i64,
    pub vote: String,
}

} // verus!
