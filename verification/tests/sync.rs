use near_dao_apis::bigquery::{BigQueryClient, BigQueryConfig, BigQueryError};
use near_dao_apis::json::{Json, JsonNumber};
use near_dao_apis::models::{BigQueryAction, VoteArgs};
use near_dao_apis::sync::{
    function_call_proposal, member_proposal, new_vote, next_start_block, transfer_proposal,
    NewProposal, NewVote, SyncError, SyncService,
};
use near_dao_apis::sync_run::{SyncCommand, SyncEvent, SyncRun};

fn text(t: &str) -> Json {
    Json::String(t.to_string())
}

fn number(n: i64) -> Json {
    if n < 0 {
        Json::Number(JsonNumber::NegInt(n))
    } else {
        Json::Number(JsonNumber::PosInt(n as u64))
    }
}

fn object(entries: Vec<(&str, Json)>) -> Json {
    Json::Object(entries.into_iter().map(|(k, v)| (k.to_string(), v)).collect())
}

fn service() -> SyncService {
    let config = BigQueryConfig { project_id: "p".to_string(), credentials_path: "c".to_string() };
    SyncService::new(BigQueryClient::new(config, true).unwrap())
}

fn action(signer: &str, args: Json) -> BigQueryAction {
    BigQueryAction {
        block_timestamp: 100,
        signer_account_id: signer.to_string(),
        receiver_account_id: "dao.sputnik-dao.near".to_string(),
        args,
    }
}

fn member_call(id: i64, key: &str, member: &str, role: &str) -> Json {
    object(vec![
        ("proposal_id", number(id)),
        ("kind", object(vec![(key, object(vec![("member_id", text(member)), ("role", text(role))]))])),
    ])
}

fn transfer_call(id: i64, msg: Option<&str>) -> Json {
    let mut body = vec![("token_id", text("wrap.near")), ("receiver_id", text("bob.near")), ("amount", text("5"))];
    if let Some(m) = msg {
        body.push(("msg", text(m)));
    }
    object(vec![("proposal_id", number(id)), ("kind", object(vec![("Transfer", object(body))]))])
}

fn vote_call(id: i64, vote: Option<&str>) -> Json {
    let mut entries = vec![("proposal_id", number(id))];
    if let Some(v) = vote {
        entries.push(("vote", text(v)));
    }
    object(entries)
}

#[test]
fn member_row_description() {
    let row = member_proposal(3, "alice.near", "AddMember", "bob.near", "council", 17);
    assert_eq!(row.description, "AddMember bob.near as council");
    assert_eq!(row.status, "InProgress");
    assert_eq!(row.target_member, Some("bob.near".to_string()));
    assert_eq!(row.target_role, Some("council".to_string()));
    assert_eq!((row.dao_id, row.proposal_id), (3, 17));
    assert_eq!(row.receiver_id, None);
}

#[test]
fn transfer_row_description_with_and_without_message() {
    let row = transfer_proposal(1, "p.near", "wrap.near", "bob.near", "5", None, 2);
    assert_eq!(row.description, "Transfer 5 wrap.near to bob.near");
    let row = transfer_proposal(1, "p.near", "wrap.near", "bob.near", "5", Some("rent"), 2);
    assert_eq!(row.description, "Transfer 5 wrap.near to bob.near (rent)");
    assert_eq!(row.proposal_type, "Transfer");
    assert_eq!(row.token_id, Some("wrap.near".to_string()));
    assert_eq!(row.amount, Some("5".to_string()));
    assert_eq!(row.receiver_id, Some("bob.near".to_string()));
}

#[test]
fn function_call_row() {
    let actions = Json::Array(vec![text("a")]);
    let row = function_call_proposal(4, "p.near", "token.near", &actions, 9);
    assert_eq!(row.description, "Function call to token.near");
    assert_eq!(row.proposal_type, "FunctionCall");
    assert_eq!(row.actions, Some(Json::Array(vec![text("a")])));
    assert_eq!(row.status, "InProgress");
}

#[test]
fn plan_proposal_for_each_kind() {
    let s = service();
    let planned = s.plan_proposal(7, &action("alice.near", member_call(12, "RemoveMemberFromRole", "bob.near", "all"))).unwrap().unwrap();
    assert_eq!(planned, member_proposal(7, "alice.near", "RemoveMember", "bob.near", "all", 12));
    let planned = s.plan_proposal(7, &action("alice.near", transfer_call(13, Some("m")))).unwrap().unwrap();
    assert_eq!(planned, transfer_proposal(7, "alice.near", "wrap.near", "bob.near", "5", Some("m"), 13));
    let fc = object(vec![
        ("proposal_id", number(14)),
        ("kind", object(vec![("FunctionCall", object(vec![("receiver_id", text("c.near")), ("actions", Json::Array(vec![]))]))])),
    ]);
    let planned = s.plan_proposal(7, &action("alice.near", fc)).unwrap().unwrap();
    assert_eq!(planned, function_call_proposal(7, "alice.near", "c.near", &Json::Array(vec![]), 14));
    let vote_kind = object(vec![("proposal_id", number(15)), ("kind", object(vec![("Vote", Json::Null)]))]);
    assert_eq!(s.plan_proposal(7, &action("alice.near", vote_kind)), Ok(None));
}

#[test]
fn plan_proposal_errors() {
    let s = service();
    let no_id = object(vec![("kind", object(vec![("Vote", Json::Null)]))]);
    assert_eq!(s.plan_proposal(1, &action("a", no_id)), Err(SyncError::MissingProposalId));
    let too_big = object(vec![("proposal_id", Json::Number(JsonNumber::PosInt(u64::MAX))), ("kind", Json::Null)]);
    assert_eq!(s.plan_proposal(1, &action("a", too_big)), Err(SyncError::MissingProposalId));
    let bad_kind = object(vec![("proposal_id", number(1)), ("kind", object(vec![("Other", Json::Null)]))]);
    assert_eq!(
        s.plan_proposal(1, &action("a", bad_kind)),
        Err(SyncError::BigQuery(BigQueryError::Parse("Unknown proposal kind".to_string())))
    );
    let bad_member = object(vec![("proposal_id", number(1)), ("kind", object(vec![("AddMemberToRole", object(vec![]))]))]);
    assert_eq!(
        s.plan_proposal(1, &action("a", bad_member)),
        Err(SyncError::BigQuery(BigQueryError::Parse("Missing member_id".to_string())))
    );
}

#[test]
fn plan_vote_reads_number_and_action() {
    let s = service();
    assert_eq!(
        s.plan_vote(&action("v.near", vote_call(-4, Some("VoteApprove")))),
        Ok(VoteArgs { proposal_id: -4, vote: "VoteApprove".to_string() })
    );
    assert_eq!(s.plan_vote(&action("v.near", vote_call(4, None))), Err(SyncError::MissingVote));
    assert_eq!(s.plan_vote(&action("v.near", object(vec![("vote", text("x"))]))), Err(SyncError::MissingProposalId));
}

#[test]
fn sync_error_messages() {
    assert_eq!(SyncError::MissingProposalId.message(), "Missing proposal_id");
    assert_eq!(SyncError::MissingVote.message(), "Missing vote");
    assert_eq!(SyncError::Database("gone".to_string()).message(), "gone");
    assert_eq!(
        SyncError::BigQuery(BigQueryError::Parse("x".to_string())).message(),
        "BigQuery parse error: x"
    );
}

#[test]
fn next_start_block_cases() {
    assert_eq!(next_start_block(Ok(Some(55))), Some(55));
    assert_eq!(next_start_block(Ok(None)), Some(0));
    assert_eq!(next_start_block(Err(SyncError::Database("down".to_string()))), None);
}

fn step(s: &SyncService, run: SyncRun, event: SyncEvent) -> (SyncRun, SyncCommand) {
    assert!(run.accepts(&event));
    s.resume(run, event)
}

#[test]
fn incremental_run_handles_every_action_in_order() {
    let s = service();
    let (run, cmd) = s.incremental_sync(500);
    assert_eq!(cmd, SyncCommand::ListDaos);
    let daos = vec![(1, "a.sputnik-dao.near".to_string()), (2, "b.sputnik-dao.near".to_string())];
    let (run, cmd) = step(&s, run, SyncEvent::DaosListed(Ok(daos)));
    assert_eq!(cmd, SyncCommand::FetchProposals("a.sputnik-dao.near".to_string(), Some(500)));
    let proposals = vec![
        action("p1.near", member_call(1, "AddMemberToRole", "m.near", "council")),
        action("p2.near", object(vec![("kind", Json::Null)])),
        action("p3.near", object(vec![("proposal_id", number(3)), ("kind", object(vec![("Vote", Json::Null)]))])),
        action("p4.near", transfer_call(4, None)),
    ];
    let (run, cmd) = step(&s, run, SyncEvent::ProposalsFetched(Ok(proposals)));
    assert_eq!(cmd, SyncCommand::StoreProposal(member_proposal(1, "p1.near", "AddMember", "m.near", "council", 1)));
    // A failed write is skipped like a successful one.
    let (run, cmd) = step(&s, run, SyncEvent::ProposalStored(Err(SyncError::Database("dup".to_string()))));
    assert_eq!(cmd, SyncCommand::StoreProposal(transfer_proposal(1, "p4.near", "wrap.near", "bob.near", "5", None, 4)));
    let (run, cmd) = step(&s, run, SyncEvent::ProposalStored(Ok(40)));
    assert_eq!(cmd, SyncCommand::FetchVotes("a.sputnik-dao.near".to_string(), Some(500)));
    let votes = vec![
        action("v1.near", vote_call(4, None)),
        action("v2.near", vote_call(4, Some("VoteReject"))),
        action("v3.near", vote_call(9, Some("VoteApprove"))),
    ];
    let (run, cmd) = step(&s, run, SyncEvent::VotesFetched(Ok(votes)));
    assert_eq!(cmd, SyncCommand::LookupProposal(1, 4));
    let (run, cmd) = step(&s, run, SyncEvent::ProposalLookedUp(Ok(40)));
    assert_eq!(cmd, SyncCommand::StoreVote(new_vote(40, "v2.near", "VoteReject")));
    let (run, cmd) = step(&s, run, SyncEvent::VoteStored(Ok(1)));
    assert_eq!(cmd, SyncCommand::LookupProposal(1, 9));
    // The proposal is not stored: the vote is skipped, the run goes on.
    let (run, cmd) = step(&s, run, SyncEvent::ProposalLookedUp(Err(SyncError::Database("no rows".to_string()))));
    assert_eq!(cmd, SyncCommand::FetchProposals("b.sputnik-dao.near".to_string(), Some(500)));
    let (run, cmd) = step(&s, run, SyncEvent::ProposalsFetched(Ok(vec![])));
    assert_eq!(cmd, SyncCommand::FetchVotes("b.sputnik-dao.near".to_string(), Some(500)));
    let (run, cmd) = step(&s, run, SyncEvent::VotesFetched(Ok(vec![])));
    assert_eq!(cmd, SyncCommand::Finish(Ok(())));
    assert!(run.is_finished());
    assert!(!run.accepts(&SyncEvent::VoteStored(Ok(1))));
}

#[test]
fn initial_run_inserts_each_dao_and_fetches_whole_history() {
    let s = service();
    let (run, cmd) = s.initial_sync();
    assert_eq!(cmd, SyncCommand::FetchDaoAccounts);
    let (run, cmd) = step(&s, run, SyncEvent::DaoAccountsFetched(Ok(vec!["x.sputnik-dao.near".to_string()])));
    assert_eq!(cmd, SyncCommand::InsertDao("x.sputnik-dao.near".to_string()));
    let (run, cmd) = step(&s, run, SyncEvent::DaoInserted(Ok(11)));
    assert_eq!(cmd, SyncCommand::FetchProposals("x.sputnik-dao.near".to_string(), None));
    let (run, cmd) = step(&s, run, SyncEvent::ProposalsFetched(Ok(vec![action("p.near", transfer_call(2, Some("hi")))])));
    assert_eq!(cmd, SyncCommand::StoreProposal(transfer_proposal(11, "p.near", "wrap.near", "bob.near", "5", Some("hi"), 2)));
    let (run, cmd) = step(&s, run, SyncEvent::ProposalStored(Ok(1)));
    assert_eq!(cmd, SyncCommand::FetchVotes("x.sputnik-dao.near".to_string(), None));
    let (run, cmd) = step(&s, run, SyncEvent::VotesFetched(Ok(vec![action("v.near", vote_call(2, Some("VoteRemove")))])));
    assert_eq!(cmd, SyncCommand::LookupProposal(11, 2));
    let (run, cmd) = step(&s, run, SyncEvent::ProposalLookedUp(Ok(1)));
    assert_eq!(cmd, SyncCommand::StoreVote(NewVote { proposal_id: 1, voter: "v.near".to_string(), vote: "VoteRemove".to_string() }));
    let (run, cmd) = step(&s, run, SyncEvent::VoteStored(Err(SyncError::Database("x".to_string()))));
    assert_eq!(cmd, SyncCommand::Finish(Ok(())));
    assert!(run.is_finished());
}

#[test]
fn empty_account_list_finishes_at_once() {
    let s = service();
    let (run, _) = s.initial_sync();
    let (run, cmd) = step(&s, run, SyncEvent::DaoAccountsFetched(Ok(vec![])));
    assert_eq!(cmd, SyncCommand::Finish(Ok(())));
    assert!(run.is_finished());
}

#[test]
fn fetch_failures_end_the_run() {
    let s = service();
    let (run, _) = s.initial_sync();
    let (_, cmd) = step(&s, run, SyncEvent::DaoAccountsFetched(Err(BigQueryError::Query("q".to_string()))));
    assert_eq!(cmd, SyncCommand::Finish(Err(SyncError::BigQuery(BigQueryError::Query("q".to_string())))));

    let (run, _) = s.initial_sync();
    let (run, _) = step(&s, run, SyncEvent::DaoAccountsFetched(Ok(vec!["a".to_string(), "b".to_string()])));
    let (_, cmd) = step(&s, run, SyncEvent::DaoInserted(Err(SyncError::Database("d".to_string()))));
    assert_eq!(cmd, SyncCommand::Finish(Err(SyncError::Database("d".to_string()))));

    let (run, _) = s.incremental_sync(1);
    let (_, cmd) = step(&s, run, SyncEvent::DaosListed(Err(SyncError::Database("l".to_string()))));
    assert_eq!(cmd, SyncCommand::Finish(Err(SyncError::Database("l".to_string()))));

    let (run, _) = s.incremental_sync(1);
    let (run, _) = step(&s, run, SyncEvent::DaosListed(Ok(vec![(5, "a".to_string())])));
    let (_, cmd) = step(&s, run, SyncEvent::ProposalsFetched(Err(BigQueryError::Auth("k".to_string()))));
    assert_eq!(cmd, SyncCommand::Finish(Err(SyncError::BigQuery(BigQueryError::Auth("k".to_string())))));

    let (run, _) = s.incremental_sync(1);
    let (run, _) = step(&s, run, SyncEvent::DaosListed(Ok(vec![(5, "a".to_string())])));
    let (run, _) = step(&s, run, SyncEvent::ProposalsFetched(Ok(vec![])));
    let (_, cmd) = step(&s, run, SyncEvent::VotesFetched(Err(BigQueryError::Parse("p".to_string()))));
    assert_eq!(cmd, SyncCommand::Finish(Err(SyncError::BigQuery(BigQueryError::Parse("p".to_string())))));
}

#[test]
fn unexpected_event_is_not_accepted() {
    let s = service();
    let (run, _) = s.initial_sync();
    assert!(!run.accepts(&SyncEvent::DaosListed(Ok(vec![]))));
    assert!(run.accepts(&SyncEvent::DaoAccountsFetched(Ok(vec![]))));
}

#[test]
fn every_row_is_in_progress() {
    let s = service();
    let calls = vec![member_call(1, "AddMemberToRole", "m", "r"), transfer_call(2, None)];
    for call in calls {
        let row: NewProposal = s.plan_proposal(1, &action("p", call)).unwrap().unwrap();
        assert_eq!(row.status, "InProgress");
    }
}

#[test]
fn store_outcome_does_not_change_the_next_command() {
    let s = service();
    let start = |s: &SyncService| {
        let (run, _) = s.incremental_sync(0);
        let (run, _) = step(s, run, SyncEvent::DaosListed(Ok(vec![(3, "d".to_string())])));
        let proposals = vec![
            action("a", transfer_call(1, None)),
            action("b", member_call(2, "AddMemberToRole", "m", "r")),
        ];
        step(s, run, SyncEvent::ProposalsFetched(Ok(proposals))).0
    };
    let (_, after_ok) = step(&s, start(&s), SyncEvent::ProposalStored(Ok(1)));
    let (_, after_err) = step(&s, start(&s), SyncEvent::ProposalStored(Err(SyncError::Database("e".to_string()))));
    assert_eq!(after_ok, after_err);
    assert_eq!(after_ok, SyncCommand::StoreProposal(member_proposal(3, "b", "AddMember", "m", "r", 2)));
}

#[test]
fn unreadable_items_are_reported_by_the_step_that_passes_them() {
    let s = service();
    let (run, _) = s.incremental_sync(7);
    assert!(run.skipped().is_empty());
    let (run, _) = step(&s, run, SyncEvent::DaosListed(Ok(vec![(2, "d.sputnik-dao.near".to_string())])));
    let unknown_kind = object(vec![("proposal_id", number(5)), ("kind", object(vec![("Other", Json::Null)]))]);
    let proposals = vec![
        action("p1.near", transfer_call(1, None)),
        action("p2.near", object(vec![("kind", Json::Null)])),
        action("p3.near", object(vec![("proposal_id", number(3)), ("kind", object(vec![("Vote", Json::Null)]))])),
        action("p4.near", unknown_kind),
        action("p5.near", member_call(6, "AddMemberToRole", "m.near", "council")),
    ];
    let (run, cmd) = step(&s, run, SyncEvent::ProposalsFetched(Ok(proposals)));
    assert_eq!(cmd, SyncCommand::StoreProposal(transfer_proposal(2, "p1.near", "wrap.near", "bob.near", "5", None, 1)));
    assert!(run.skipped().is_empty());
    let (run, cmd) = step(&s, run, SyncEvent::ProposalStored(Ok(10)));
    assert_eq!(cmd, SyncCommand::StoreProposal(member_proposal(2, "p5.near", "AddMember", "m.near", "council", 6)));
    // The vote-kind proposal is passed over without an error.
    assert_eq!(
        run.skipped(),
        &vec![
            SyncError::MissingProposalId,
            SyncError::BigQuery(BigQueryError::Parse("Unknown proposal kind".to_string())),
        ]
    );
    assert_eq!(run.skipped()[1].message(), "BigQuery parse error: Unknown proposal kind");
    let (run, cmd) = step(&s, run, SyncEvent::ProposalStored(Ok(11)));
    assert_eq!(cmd, SyncCommand::FetchVotes("d.sputnik-dao.near".to_string(), Some(7)));
    assert!(run.skipped().is_empty());
    let votes = vec![
        action("v1.near", vote_call(1, None)),
        action("v2.near", object(vec![("vote", text("VoteApprove"))])),
        action("v3.near", vote_call(6, Some("VoteApprove"))),
        action("v4.near", vote_call(6, None)),
    ];
    let (run, cmd) = step(&s, run, SyncEvent::VotesFetched(Ok(votes)));
    assert_eq!(cmd, SyncCommand::LookupProposal(2, 6));
    assert_eq!(run.skipped(), &vec![SyncError::MissingVote, SyncError::MissingProposalId]);
    let (run, cmd) = step(&s, run, SyncEvent::ProposalLookedUp(Ok(11)));
    assert_eq!(cmd, SyncCommand::StoreVote(new_vote(11, "v3.near", "VoteApprove")));
    assert!(run.skipped().is_empty());
    // Leaving the DAO's votes reports the last one, which cannot be read.
    let (run, cmd) = step(&s, run, SyncEvent::VoteStored(Ok(1)));
    assert_eq!(cmd, SyncCommand::Finish(Ok(())));
    assert_eq!(run.skipped(), &vec![SyncError::MissingVote]);
}
