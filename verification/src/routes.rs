use vstd::prelude::*;

verus! {

/// The page a list request asks for.
#[derive(Debug, PartialEq)]
pub struct PaginationParams {
    pub offset: Option<i64>,
    pub limit: Option<i64>,
}

/// How many rows a list returns where the request does not say.
pub open spec fn default_limit() -> i64 {
    10
}

impl PaginationParams {
    /// The limit and the offset of the page: those of the request, ten rows
    /// from the first where it gives none.
    pub fn page(&self) -> (r: (i64, i64))
        ensures
            r.0 == match self.limit {
                Some(l) => l,
                None => default_limit(),
            },
            r.1 == match self.offset {
                Some(o) => o,
                None => 0,
            },
    {
        let limit = match self.limit {
            Some(l) => l,
            None => 10,
        };
        let offset = match self.offset {
            Some(o) => o,
            None => 0,
        };
        (limit, offset)
    }
}

/// The service's read endpoints.
#[derive(Clone, Copy, Debug, PartialEq, Eq, Structural)]
pub enum Endpoint {
    ListDaos,
    GetDao,
    ListProposals,
    GetProposal,
    ListMembers,
}

impl Endpoint {
    /// Whether the endpoint answers with one row rather than a page of them.
    pub open spec fn is_lookup(self) -> bool {
        self == Endpoint::GetDao || self == Endpoint::GetProposal
    }

    /// The HTTP status with which the endpoint answers when its query fails:
    /// not found for a single row, an internal error for a page.
    pub fn failure_status(&self) -> (r: u16)
        ensures
            r == if self.is_lookup() {
                404u16
            } else {
                500u16
            },
    {
        match self {
            Endpoint::GetDao | Endpoint::GetProposal => 404,
            _ => 500,
        }
    }

    /// The route of the endpoint.
    pub fn path(&self) -> (r: &'static str)
        ensures
            r@ == match self {
                Endpoint::ListDaos => "/daos"@,
                Endpoint::GetDao => "/daos/:dao_id"@,
                Endpoint::ListProposals => "/daos/:dao_id/proposals"@,
                Endpoint::GetProposal => "/daos/:dao_id/proposals/:proposal_id"@,
                Endpoint::ListMembers => "/daos/:dao_id/members"@,
            },
    {
        match self {
            Endpoint::ListDaos => "/daos",
            Endpoint::GetDao => "/daos/:dao_id",
            Endpoint::ListProposals => "/daos/:dao_id/proposals",
            Endpoint::GetProposal => "/daos/:dao_id/proposals/:proposal_id",
            Endpoint::ListMembers => "/daos/:dao_id/members",
        }
    }
}

} // verus!
