use near_dao_apis::routes::{Endpoint, PaginationParams};

#[test]
fn page_defaults_to_ten_from_the_start() {
    assert_eq!(PaginationParams { offset: None, limit: None }.page(), (10, 0));
    assert_eq!(PaginationParams { offset: Some(20), limit: Some(5) }.page(), (5, 20));
    assert_eq!(PaginationParams { offset: Some(-1), limit: None }.page(), (10, -1));
}

#[test]
fn failure_status_per_endpoint() {
    assert_eq!(Endpoint::ListDaos.failure_status(), 500);
    assert_eq!(Endpoint::ListProposals.failure_status(), 500);
    assert_eq!(Endpoint::ListMembers.failure_status(), 500);
    assert_eq!(Endpoint::GetDao.failure_status(), 404);
    assert_eq!(Endpoint::GetProposal.failure_status(), 404);
}

#[test]
fn endpoint_paths() {
    assert_eq!(Endpoint::ListDaos.path(), "/daos");
    assert_eq!(Endpoint::GetDao.path(), "/daos/:dao_id");
    assert_eq!(Endpoint::ListProposals.path(), "/daos/:dao_id/proposals");
    assert_eq!(Endpoint::GetProposal.path(), "/daos/:dao_id/proposals/:proposal_id");
    assert_eq!(Endpoint::ListMembers.path(), "/daos/:dao_id/members");
}
