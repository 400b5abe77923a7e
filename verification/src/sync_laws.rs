use crate::models::BigQueryActionView;
use crate::sync::{law_planned_rows, planned_proposal, planned_vote, NewVoteView, SyncErrorView};
use crate::sync_run::{
    first_readable_vote, first_stored, next, proposal_errors, stores_proposal, vote_errors,
    SyncCommandView, SyncEventView, SyncRunView, SyncStage,
};
use vstd::prelude::*;

verus! {

/// Where the first stored proposal from `from` on stands: no proposal
/// between `from` and it is stored, and it is, where it is not past the end.
pub proof fn lemma_first_stored(dao_id: i32, actions: Seq<BigQueryActionView>, from: int)
    requires
        0 <= from <= actions.len(),
    ensures
        from <= first_stored(dao_id, actions, from) <= actions.len(),
        forall|i: int|
            from <= i < first_stored(dao_id, actions, from) ==> !stores_proposal(
                dao_id,
                #[trigger] actions[i],
            ),
        first_stored(dao_id, actions, from) < actions.len() ==> stores_proposal(
            dao_id,
            actions[first_stored(dao_id, actions, from)],
        ),
    decreases actions.len() - from,
{
    if from < actions.len() && !stores_proposal(dao_id, actions[from]) {
        lemma_first_stored(dao_id, actions, from + 1);
    }
}

/// Where the first readable vote from `from` on stands: no vote between
/// `from` and it can be read, and it can, where it is not past the end.
pub proof fn lemma_first_readable_vote(actions: Seq<BigQueryActionView>, from: int)
    requires
        0 <= from <= actions.len(),
    ensures
        from <= first_readable_vote(actions, from) <= actions.len(),
        forall|i: int|
            from <= i < first_readable_vote(actions, from) ==> !(planned_vote(
                #[trigger] actions[i],
            ) is Ok),
        first_readable_vote(actions, from) < actions.len() ==> planned_vote(
            actions[first_readable_vote(actions, from)],
        ) is Ok,
    decreases actions.len() - from,
{
    if from < actions.len() && !(planned_vote(actions[from]) is Ok) {
        lemma_first_readable_vote(actions, from + 1);
    }
}

/// Every step keeps a run well formed.
pub proof fn law_step_keeps_run_well_formed(s: SyncRunView, e: SyncEventView)
    requires
        s.wf(),
        s.awaits(e),
    ensures
        next(s, e).0.wf(),
{
    lemma_first_stored(s.dao_id, s.actions, s.next_action);
    lemma_first_readable_vote(s.actions, s.next_action);
    match e {
        SyncEventView::ProposalsFetched(Ok(actions)) => {
            lemma_first_stored(s.dao_id, actions, 0);
        },
        SyncEventView::VotesFetched(Ok(actions)) => {
            lemma_first_readable_vote(actions, 0);
        },
        _ => {},
    }
}


/// A failure to store a proposal does not change how the run goes on:
/// the outcome of a proposal write is logged, never acted on.
pub proof fn law_proposal_store_outcome_ignored(
    s: SyncRunView,
    a: Result<i32, SyncErrorView>,
    b: Result<i32, SyncErrorView>,
)
    requires
        s.wf(),
        s.stage == SyncStage::AwaitingProposalStore,
    ensures
        next(s, SyncEventView::ProposalStored(a)) == next(s, SyncEventView::ProposalStored(b)),
{
}

/// A failure to store a vote does not change how the run goes on.
pub proof fn law_vote_store_outcome_ignored(
    s: SyncRunView,
    a: Result<i32, SyncErrorView>,
    b: Result<i32, SyncErrorView>,
)
    requires
        s.wf(),
        s.stage == SyncStage::AwaitingVoteStore,
    ensures
        next(s, SyncEventView::VoteStored(a)) == next(s, SyncEventView::VoteStored(b)),
{
}

/// The error with which a failed fetch, listing or DAO write ends the run;
/// none for every other event.
pub open spec fn run_failure(e: SyncEventView) -> Option<SyncErrorView> {
    match e {
        SyncEventView::DaoAccountsFetched(Err(x)) => Some(SyncErrorView::BigQuery(x)),
        SyncEventView::DaosListed(Err(x)) => Some(x),
        SyncEventView::DaoInserted(Err(x)) => Some(x),
        SyncEventView::ProposalsFetched(Err(x)) => Some(SyncErrorView::BigQuery(x)),
        SyncEventView::VotesFetched(Err(x)) => Some(SyncErrorView::BigQuery(x)),
        _ => None,
    }
}

/// A failed fetch from BigQuery, listing of the DAOs or write of a DAO ends
/// the run at once, with that error.
pub proof fn law_fetch_failure_ends_run(s: SyncRunView, e: SyncEventView, err: SyncErrorView)
    requires
        s.wf(),
        s.awaits(e),
        run_failure(e) == Some(err),
    ensures
        next(s, e).0.stage == SyncStage::Finished,
        next(s, e).1 == SyncCommandView::Finish(Err(err)),
{
}

/// Whether `e` reports that a single proposal or vote could not be handled.
pub open spec fn item_failure(e: SyncEventView) -> bool {
    ||| e matches SyncEventView::ProposalStored(Err(_))
    ||| e matches SyncEventView::ProposalLookedUp(Err(_))
    ||| e matches SyncEventView::VoteStored(Err(_))
}

/// A proposal or vote that cannot be handled never fails the run:
/// the run goes on with the next one.
pub proof fn law_item_failure_does_not_fail_run(s: SyncRunView, e: SyncEventView)
    requires
        s.wf(),
        s.awaits(e),
        item_failure(e),
    ensures
        !(next(s, e).1 matches SyncCommandView::Finish(Err(_))),
{
}

/// A run keeps its mode, and fetches every DAO's proposals and votes from the
/// block it was started with: from the start for an initial sync, from the
/// given block for an incremental one.
pub proof fn law_fetch_window(s: SyncRunView, e: SyncEventView)
    requires
        s.wf(),
        s.awaits(e),
    ensures
        next(s, e).0.mode == s.mode,
        next(s, e).1 matches SyncCommandView::FetchProposals(_, b) ==> b == s.mode.start_block(),
        next(s, e).1 matches SyncCommandView::FetchVotes(_, b) ==> b == s.mode.start_block(),
{
}

/// Whether the run is busy with a DAO's votes.
pub open spec fn in_vote_phase(s: SyncRunView) -> bool {
    ||| s.stage == SyncStage::AwaitingVotes
    ||| s.stage == SyncStage::AwaitingProposalLookup
    ||| s.stage == SyncStage::AwaitingVoteStore
}

/// Whether the run is busy with a DAO's proposals.
pub open spec fn in_proposal_phase(s: SyncRunView) -> bool {
    ||| s.stage == SyncStage::AwaitingProposals
    ||| s.stage == SyncStage::AwaitingProposalStore
}

/// A DAO's proposals are handled before its votes: once the votes are being
/// handled no proposal is stored, and while the proposals are, no vote is.
pub proof fn law_proposals_before_votes(s: SyncRunView, e: SyncEventView)
    requires
        s.wf(),
        s.awaits(e),
    ensures
        in_vote_phase(s) ==> !(next(s, e).1 is StoreProposal),
        in_proposal_phase(s) ==> !(next(s, e).1 is StoreVote) && !(next(s,
            e).1 is LookupProposal),
{
}

/// The position from which a step of the proposal phase looks for the next
/// proposal to store.
pub open spec fn scan_start(s: SyncRunView, e: SyncEventView) -> int {
    if e is ProposalsFetched || e is VotesFetched {
        0
    } else {
        s.next_action
    }
}

/// Proposals are handled in the order they were fetched, each once: the
/// proposal a step stores is the first after the last one handled that is
/// stored at all, with the row its call describes; all before it are passed
/// over because they cannot be read or are not stored, and the step reports
/// why each of those that cannot be read was refused. When none is left, the
/// votes are fetched.
pub proof fn law_proposals_in_order(s: SyncRunView, e: SyncEventView)
    requires
        s.wf(),
        s.awaits(e),
        in_proposal_phase(s),
    ensures
        ({
            let (t, c) = next(s, e);
            let from = scan_start(s, e);
            &&& c matches SyncCommandView::StoreProposal(row) ==> {
                &&& from < t.next_action <= t.actions.len()
                &&& planned_proposal(t.dao_id, t.actions[t.next_action - 1]) == Ok::<
                    Option<_>,
                    SyncErrorView,
                >(Some(row))
                &&& forall|i: int|
                    from <= i < t.next_action - 1 ==> !stores_proposal(
                        t.dao_id,
                        #[trigger] t.actions[i],
                    )
                &&& t.skipped == proposal_errors(t.dao_id, t.actions, from, t.next_action - 1)
            }
            &&& c is FetchVotes ==> {
                &&& forall|i: int|
                    from <= i < t.actions.len() ==> !stores_proposal(
                        t.dao_id,
                        #[trigger] t.actions[i],
                    )
                &&& t.skipped == proposal_errors(t.dao_id, t.actions, from, t.actions.len() as int)
            }
        }),
{
    match e {
        SyncEventView::ProposalsFetched(Ok(actions)) => {
            lemma_first_stored(s.dao_id, actions, 0);
        },
        _ => {
            lemma_first_stored(s.dao_id, s.actions, s.next_action);
        },
    }
}

/// Votes are handled in the order they were fetched, each once: the vote a
/// step looks up is the first after the last one handled that can be read,
/// on the proposal its call names, and it is recorded for the account that
/// cast it; all before it are passed over because they cannot be read, and
/// the step reports why. A step that leaves the DAO's votes reports why each
/// of the rest could not be read.
pub proof fn law_votes_in_order(s: SyncRunView, e: SyncEventView)
    requires
        s.wf(),
        s.awaits(e),
        in_vote_phase(s),
    ensures
        ({
            let (t, c) = next(s, e);
            let from = scan_start(s, e);
            &&& c matches SyncCommandView::LookupProposal(dao_id, pid) ==> {
                &&& from < t.next_action <= t.actions.len()
                &&& dao_id == t.dao_id
                &&& planned_vote(t.actions[t.next_action - 1]) == Ok::<_, SyncErrorView>(
                    (pid, t.vote),
                )
                &&& t.voter == t.actions[t.next_action - 1].signer_account_id
                &&& forall|i: int|
                    from <= i < t.next_action - 1 ==> !(planned_vote(#[trigger] t.actions[i]) is Ok)
                &&& t.skipped == vote_errors(t.actions, from, t.next_action - 1)
            }
            &&& (c is InsertDao || c is FetchProposals || c matches SyncCommandView::Finish(Ok(())))
                ==> t.skipped == vote_errors(t.actions, from, t.actions.len() as int)
        }),
{
    match e {
        SyncEventView::VotesFetched(Ok(actions)) => {
            lemma_first_readable_vote(actions, 0);
        },
        _ => {
            lemma_first_readable_vote(s.actions, s.next_action);
        },
    }
}

/// Whether `e` lets the run pass over proposals or votes: a list of them
/// fetched, or the outcome for the one being handled.
pub open spec fn scans_items(e: SyncEventView) -> bool {
    ||| e matches SyncEventView::ProposalsFetched(Ok(_))
    ||| e is ProposalStored
    ||| e matches SyncEventView::VotesFetched(Ok(_))
    ||| e matches SyncEventView::ProposalLookedUp(Err(_))
    ||| e is VoteStored
}

/// Only a step that passes over proposals or votes reports any as unreadable;
/// every other step reports none.
pub proof fn law_only_scans_report_skipped(s: SyncRunView, e: SyncEventView)
    requires
        s.wf(),
        s.awaits(e),
        !scans_items(e),
    ensures
        next(s, e).0.skipped == Seq::<SyncErrorView>::empty(),
{
}

/// How many DAOs a run has started before it takes `e`: none where `e` hands
/// it its list of DAOs.
pub open spec fn daos_started(s: SyncRunView, e: SyncEventView) -> int {
    if e is DaoAccountsFetched || e is DaosListed {
        0
    } else {
        s.next_dao
    }
}

/// Every DAO of the run is synced, one after the other in the order of its
/// list: a step that starts a DAO starts the one after the last started (with
/// its stored id in an incremental run), and a run ends well only once every
/// DAO has been started.
pub proof fn law_daos_in_order(s: SyncRunView, e: SyncEventView)
    requires
        s.wf(),
        s.awaits(e),
    ensures
        ({
            let (t, c) = next(s, e);
            let n = daos_started(s, e);
            &&& c matches SyncCommandView::InsertDao(a) ==> {
                &&& t.next_dao == n + 1
                &&& a == t.accounts[n]
                &&& t.account == a
            }
            &&& c matches SyncCommandView::FetchProposals(a, _) ==> !(e is DaoInserted) ==> {
                &&& t.next_dao == n + 1
                &&& a == t.accounts[n]
                &&& t.account == a
                &&& t.dao_id == t.ids[n]
            }
            &&& c matches SyncCommandView::Finish(Ok(())) ==> t.next_dao == t.accounts.len()
        }),
{
}

/// An initial run covers exactly the DAO accounts it is handed, in their
/// order: it takes the whole list as its own and starts by inserting the first
/// account, or ends at once, well, where the list is empty.
pub proof fn law_initial_run_takes_every_account(s: SyncRunView, accounts: Seq<Seq<char>>)
    requires
        s.wf(),
        s.awaits(SyncEventView::DaoAccountsFetched(Ok(accounts))),
    ensures
        ({
            let (t, c) = next(s, SyncEventView::DaoAccountsFetched(Ok(accounts)));
            &&& t.accounts == accounts
            &&& accounts.len() == 0 ==> c == SyncCommandView::Finish(Ok(()))
            &&& accounts.len() > 0 ==> c == SyncCommandView::InsertDao(accounts[0]) && t.next_dao == 1
        }),
{
}

/// An incremental run covers exactly the stored DAOs it is handed, in their
/// order: its k-th DAO is the k-th listed, with that DAO's account and id, and
/// it starts by fetching the first one's proposals from its block under the
/// first one's id, or ends at once, well, where the list is empty.
pub proof fn law_incremental_run_takes_every_dao(s: SyncRunView, daos: Seq<(i32, Seq<char>)>)
    requires
        s.wf(),
        s.awaits(SyncEventView::DaosListed(Ok(daos))),
    ensures
        ({
            let (t, c) = next(s, SyncEventView::DaosListed(Ok(daos)));
            &&& t.accounts.len() == daos.len() && t.ids.len() == daos.len()
            &&& forall|k: int|
                0 <= k < daos.len() ==> t.accounts[k] == (#[trigger] daos[k]).1 && t.ids[k]
                    == daos[k].0
            &&& daos.len() == 0 ==> c == SyncCommandView::Finish(Ok(()))
            &&& daos.len() > 0 ==> {
                &&& c == SyncCommandView::FetchProposals(daos[0].1, s.mode.start_block())
                &&& t.dao_id == daos[0].0
                &&& t.next_dao == 1
            }
        }),
{
}

/// The list of DAOs a run covers is set only by the step that hands it over;
/// every other step keeps it.
pub proof fn law_dao_list_kept(s: SyncRunView, e: SyncEventView)
    requires
        s.wf(),
        s.awaits(e),
        !(e is DaoAccountsFetched),
        !(e is DaosListed),
    ensures
        next(s, e).0.accounts == s.accounts,
        next(s, e).0.ids == s.ids,
        next(s, e).0.next_dao >= s.next_dao,
{
}

/// A DAO is synced under one account and one id from its start to its end:
/// only a step that starts a DAO changes them, and every proposal row stored,
/// every fetch and every lookup of the DAO being synced carries them.
pub proof fn law_dao_kept_while_synced(s: SyncRunView, e: SyncEventView)
    requires
        s.wf(),
        s.awaits(e),
    ensures
        ({
            let (t, c) = next(s, e);
            &&& !(c is InsertDao) && !(c is FetchProposals) ==> t.account == s.account
                && t.dao_id == s.dao_id
            &&& c matches SyncCommandView::InsertDao(a) ==> t.account == a
            &&& c matches SyncCommandView::FetchProposals(a, _) ==> t.account == a
            &&& c matches SyncCommandView::FetchVotes(a, _) ==> a == t.account
            &&& c matches SyncCommandView::StoreProposal(row) ==> row.dao_id == t.dao_id
            &&& c matches SyncCommandView::LookupProposal(d, _) ==> d == t.dao_id
        }),
{
    lemma_first_stored(s.dao_id, s.actions, s.next_action);
    match e {
        SyncEventView::ProposalsFetched(Ok(actions)) => {
            lemma_first_stored(s.dao_id, actions, 0);
            let i = first_stored(s.dao_id, actions, 0);
            if i < actions.len() {
                law_planned_rows(s.dao_id, actions[i]);
            }
        },
        SyncEventView::ProposalStored(_) => {
            let i = first_stored(s.dao_id, s.actions, s.next_action);
            if i < s.actions.len() {
                law_planned_rows(s.dao_id, s.actions[i]);
            }
        },
        _ => {},
    }
}

/// A vote is stored on the proposal the lookup found, for the voter and with
/// the action of the vote being handled.
pub proof fn law_vote_stored_on_found_proposal(s: SyncRunView, pid: i32)
    requires
        s.wf(),
        s.stage == SyncStage::AwaitingProposalLookup,
    ensures
        next(s, SyncEventView::ProposalLookedUp(Ok(pid))).1 == SyncCommandView::StoreVote(
            NewVoteView { proposal_id: pid, voter: s.voter, vote: s.vote },
        ),
{
}


/// How much is left of a run, ordered lexicographically: whether it is still
/// going, whether it still waits for its list of DAOs, how many DAOs it has not
/// started, how far it is from being done with the current DAO's phases, and
/// how many of the fetched proposals or votes it has not handled.
pub open spec fn work_left(s: SyncRunView) -> (int, int, int, int, int) {
    let alive = if s.stage == SyncStage::Finished { 0int } else { 1int };
    let listing = if s.stage == SyncStage::AwaitingAccounts || s.stage == SyncStage::AwaitingDaos {
        1int
    } else {
        0int
    };
    let phase = match s.stage {
        SyncStage::AwaitingDaoInsert => 4int,
        SyncStage::AwaitingProposals => 3int,
        SyncStage::AwaitingProposalStore => 2int,
        SyncStage::AwaitingVotes => 1int,
        _ => 0int,
    };
    let items = match s.stage {
        SyncStage::AwaitingProposalStore => s.actions.len() - s.next_action,
        SyncStage::AwaitingProposalLookup => 2 * (s.actions.len() - s.next_action) + 1,
        SyncStage::AwaitingVoteStore => 2 * (s.actions.len() - s.next_action),
        _ => 0int,
    };
    (alive, listing, s.accounts.len() - s.next_dao, phase, items)
}

/// The lexicographic order on what is left of a run.
pub open spec fn less_left(a: (int, int, int, int, int), b: (int, int, int, int, int)) -> bool {
    ||| a.0 < b.0
    ||| a.0 == b.0 && a.1 < b.1
    ||| a.0 == b.0 && a.1 == b.1 && a.2 < b.2
    ||| a.0 == b.0 && a.1 == b.1 && a.2 == b.2 && a.3 < b.3
    ||| a.0 == b.0 && a.1 == b.1 && a.2 == b.2 && a.3 == b.3 && a.4 < b.4
}

/// Every run ends: what is left of it never goes below zero, and every step
/// leaves strictly less of it, in a well-founded order.
pub proof fn law_run_terminates(s: SyncRunView, e: SyncEventView)
    requires
        s.wf(),
        s.awaits(e),
    ensures
        ({
            let w = work_left(next(s, e).0);
            w.0 >= 0 && w.1 >= 0 && w.2 >= 0 && w.3 >= 0 && w.4 >= 0
        }),
        less_left(work_left(next(s, e).0), work_left(s)),
{
    law_step_keeps_run_well_formed(s, e);
    lemma_first_stored(s.dao_id, s.actions, s.next_action);
    lemma_first_readable_vote(s.actions, s.next_action);
    match e {
        SyncEventView::ProposalsFetched(Ok(actions)) => {
            lemma_first_stored(s.dao_id, actions, 0);
        },
        SyncEventView::VotesFetched(Ok(actions)) => {
            lemma_first_readable_vote(actions, 0);
        },
        _ => {},
    }
}

} // verus!
