use crate::bigquery::{BigQueryError, BigQueryErrorView};
use crate::models::{BigQueryAction, BigQueryActionView};
use crate::sync::{
    new_vote, planned_proposal, planned_vote, NewProposal, NewProposalView, NewVote, NewVoteView,
    SyncError, SyncErrorView, SyncService,
};
use vstd::prelude::*;

verus! {

/// Which DAOs a run covers and from when: every DAO ever created, over its
/// whole history, or the DAOs already stored, from a block on.
#[derive(Clone, Copy, Debug, PartialEq, Eq, Structural)]
pub enum SyncMode {
    Initial,
    Incremental(i64),
}

impl SyncMode {
    /// The first block whose actions the run fetches; none for the whole history.
    pub open spec fn start_block(self) -> Option<i64> {
        match self {
            SyncMode::Initial => None,
            SyncMode::Incremental(block) => Some(block),
        }
    }

    pub fn start(&self) -> (r: Option<i64>)
        ensures
            r == self.start_block(),
    {
        match self {
            SyncMode::Initial => None,
            SyncMode::Incremental(block) => Some(*block),
        }
    }
}

/// What a run waits for.
#[derive(Clone, Copy, Debug, PartialEq, Eq, Structural)]
pub enum SyncStage {
    AwaitingAccounts,
    AwaitingDaos,
    AwaitingDaoInsert,
    AwaitingProposals,
    AwaitingProposalStore,
    AwaitingVotes,
    AwaitingProposalLookup,
    AwaitingVoteStore,
    Finished,
}

/// What the caller did on the run's behalf, and how it went.
#[derive(Debug)]
pub enum SyncEvent {
    /// The accounts of all DAOs, from BigQuery.
    DaoAccountsFetched(Result<Vec<String>, BigQueryError>),
    /// The id and account of every DAO stored, from the database.
    DaosListed(Result<Vec<(i32, String)>, SyncError>),
    /// The id of the DAO row written for the current account.
    DaoInserted(Result<i32, SyncError>),
    ProposalsFetched(Result<Vec<BigQueryAction>, BigQueryError>),
    /// The id of the proposal row written.
    ProposalStored(Result<i32, SyncError>),
    VotesFetched(Result<Vec<BigQueryAction>, BigQueryError>),
    /// The database id of the proposal a vote is on.
    ProposalLookedUp(Result<i32, SyncError>),
    /// The id of the vote row written.
    VoteStored(Result<i32, SyncError>),
}

/// What the run asks the caller to do next.
#[derive(Debug, PartialEq)]
pub enum SyncCommand {
    /// Fetch the accounts of all DAOs from BigQuery.
    FetchDaoAccounts,
    /// List the id and account of every DAO stored.
    ListDaos,
    /// Write the DAO row of an account (or keep the one there) and report its id.
    InsertDao(String),
    /// Fetch the proposals submitted to a DAO, from a block on where one is given.
    FetchProposals(String, Option<i64>),
    /// Write a proposal row.
    StoreProposal(NewProposal),
    /// Fetch the votes cast in a DAO, from a block on where one is given.
    FetchVotes(String, Option<i64>),
    /// Find the database id of the proposal with a number in a DAO.
    LookupProposal(i32, i64),
    /// Write a vote row.
    StoreVote(NewVote),
    /// The run is over, with this outcome.
    Finish(Result<(), SyncError>),
}

pub enum SyncEventView {
    DaoAccountsFetched(Result<Seq<Seq<char>>, BigQueryErrorView>),
    DaosListed(Result<Seq<(i32, Seq<char>)>, SyncErrorView>),
    DaoInserted(Result<i32, SyncErrorView>),
    ProposalsFetched(Result<Seq<BigQueryActionView>, BigQueryErrorView>),
    ProposalStored(Result<i32, SyncErrorView>),
    VotesFetched(Result<Seq<BigQueryActionView>, BigQueryErrorView>),
    ProposalLookedUp(Result<i32, SyncErrorView>),
    VoteStored(Result<i32, SyncErrorView>),
}

pub enum SyncCommandView {
    FetchDaoAccounts,
    ListDaos,
    InsertDao(Seq<char>),
    FetchProposals(Seq<char>, Option<i64>),
    StoreProposal(NewProposalView),
    FetchVotes(Seq<char>, Option<i64>),
    LookupProposal(i32, i64),
    StoreVote(NewVoteView),
    Finish(Result<(), SyncErrorView>),
}

pub open spec fn texts_view(v: Vec<String>) -> Seq<Seq<char>> {
    v@.map_values(|t: String| t@)
}

pub open spec fn actions_view(v: Vec<BigQueryAction>) -> Seq<BigQueryActionView> {
    v@.map_values(|a: BigQueryAction| a@)
}

pub open spec fn daos_view(v: Vec<(i32, String)>) -> Seq<(i32, Seq<char>)> {
    v@.map_values(|d: (i32, String)| (d.0, d.1@))
}

pub open spec fn errors_view(v: Vec<SyncError>) -> Seq<SyncErrorView> {
    v@.map_values(|e: SyncError| e@)
}

pub open spec fn id_result_view(r: Result<i32, SyncError>) -> Result<i32, SyncErrorView> {
    match r {
        Ok(id) => Ok(id),
        Err(e) => Err(e@),
    }
}

pub open spec fn fetched_view(r: Result<Vec<BigQueryAction>, BigQueryError>) -> Result<
    Seq<BigQueryActionView>,
    BigQueryErrorView,
> {
    match r {
        Ok(v) => Ok(actions_view(v)),
        Err(e) => Err(e@),
    }
}

impl View for SyncEvent {
    type V = SyncEventView;

    open spec fn view(&self) -> SyncEventView {
        match self {
            SyncEvent::DaoAccountsFetched(r) => SyncEventView::DaoAccountsFetched(
                match r {
                    Ok(v) => Ok(texts_view(*v)),
                    Err(e) => Err(e@),
                },
            ),
            SyncEvent::DaosListed(r) => SyncEventView::DaosListed(
                match r {
                    Ok(v) => Ok(daos_view(*v)),
                    Err(e) => Err(e@),
                },
            ),
            SyncEvent::DaoInserted(r) => SyncEventView::DaoInserted(id_result_view(*r)),
            SyncEvent::ProposalsFetched(r) => SyncEventView::ProposalsFetched(fetched_view(*r)),
            SyncEvent::ProposalStored(r) => SyncEventView::ProposalStored(id_result_view(*r)),
            SyncEvent::VotesFetched(r) => SyncEventView::VotesFetched(fetched_view(*r)),
            SyncEvent::ProposalLookedUp(r) => SyncEventView::ProposalLookedUp(id_result_view(*r)),
            SyncEvent::VoteStored(r) => SyncEventView::VoteStored(id_result_view(*r)),
        }
    }
}

impl View for SyncCommand {
    type V = SyncCommandView;

    open spec fn view(&self) -> SyncCommandView {
        match self {
            SyncCommand::FetchDaoAccounts => SyncCommandView::FetchDaoAccounts,
            SyncCommand::ListDaos => SyncCommandView::ListDaos,
            SyncCommand::InsertDao(a) => SyncCommandView::InsertDao(a@),
            SyncCommand::FetchProposals(a, b) => SyncCommandView::FetchProposals(a@, *b),
            SyncCommand::StoreProposal(p) => SyncCommandView::StoreProposal(p@),
            SyncCommand::FetchVotes(a, b) => SyncCommandView::FetchVotes(a@, *b),
            SyncCommand::LookupProposal(d, p) => SyncCommandView::LookupProposal(*d, *p),
            SyncCommand::StoreVote(v) => SyncCommandView::StoreVote(v@),
            SyncCommand::Finish(r) => SyncCommandView::Finish(
                match r {
                    Ok(()) => Ok(()),
                    Err(e) => Err(e@),
                },
            ),
        }
    }
}

/// The mathematical model of a [`SyncRun`].
pub struct SyncRunView {
    pub mode: SyncMode,
    pub stage: SyncStage,
    /// The accounts of the DAOs the run covers, in the order it covers them.
    pub accounts: Seq<Seq<char>>,
    /// Their database ids, where the run started from the stored DAOs.
    pub ids: Seq<i32>,
    /// How many DAOs have been started.
    pub next_dao: int,
    /// The DAO being synced.
    pub dao_id: i32,
    pub account: Seq<char>,
    /// The proposals or the votes of that DAO, as fetched.
    pub actions: Seq<BigQueryActionView>,
    /// How many of them have been handled or are being handled.
    pub next_action: int,
    /// The voter and the action of the vote being handled.
    pub voter: Seq<char>,
    pub vote: Seq<char>,
    /// Why each proposal or vote that the last step passed over could not be
    /// read, in the order they were fetched.
    pub skipped: Seq<SyncErrorView>,
}

impl SyncRunView {
    pub open spec fn wf(self) -> bool {
        &&& 0 <= self.next_dao <= self.accounts.len()
        &&& 0 <= self.next_action <= self.actions.len()
        &&& self.mode is Incremental ==> self.ids.len() == self.accounts.len()
        &&& self.stage == SyncStage::AwaitingAccounts ==> self.mode == SyncMode::Initial
        &&& self.stage == SyncStage::AwaitingDaos ==> self.mode is Incremental
    }

    /// Whether the run, in its stage, takes `event`.
    pub open spec fn awaits(self, event: SyncEventView) -> bool {
        match self.stage {
            SyncStage::AwaitingAccounts => event is DaoAccountsFetched,
            SyncStage::AwaitingDaos => event is DaosListed,
            SyncStage::AwaitingDaoInsert => event is DaoInserted,
            SyncStage::AwaitingProposals => event is ProposalsFetched,
            SyncStage::AwaitingProposalStore => event is ProposalStored,
            SyncStage::AwaitingVotes => event is VotesFetched,
            SyncStage::AwaitingProposalLookup => event is ProposalLookedUp,
            SyncStage::AwaitingVoteStore => event is VoteStored,
            SyncStage::Finished => false,
        }
    }
}

/// A run in `mode` that has done nothing yet and waits in `stage`.
pub open spec fn fresh_run(mode: SyncMode, stage: SyncStage) -> SyncRunView {
    SyncRunView {
        mode,
        stage,
        accounts: Seq::empty(),
        ids: Seq::empty(),
        next_dao: 0,
        dao_id: 0,
        account: Seq::empty(),
        actions: Seq::empty(),
        next_action: 0,
        voter: Seq::empty(),
        vote: Seq::empty(),
        skipped: Seq::empty(),
    }
}

/// The run ends with `result`.
pub open spec fn finish(s: SyncRunView, result: Result<(), SyncErrorView>) -> (SyncRunView, SyncCommandView) {
    (SyncRunView { stage: SyncStage::Finished, ..s }, SyncCommandView::Finish(result))
}

/// The run starts on its next DAO, or ends where none is left.
pub open spec fn start_next_dao(s: SyncRunView) -> (SyncRunView, SyncCommandView) {
    if s.next_dao >= s.accounts.len() {
        finish(s, Ok(()))
    } else {
        let account = s.accounts[s.next_dao];
        match s.mode {
            SyncMode::Initial => (
                SyncRunView {
                    stage: SyncStage::AwaitingDaoInsert,
                    account,
                    next_dao: s.next_dao + 1,
                    ..s
                },
                SyncCommandView::InsertDao(account),
            ),
            SyncMode::Incremental(block) => (
                SyncRunView {
                    stage: SyncStage::AwaitingProposals,
                    account,
                    dao_id: s.ids[s.next_dao],
                    next_dao: s.next_dao + 1,
                    ..s
                },
                SyncCommandView::FetchProposals(account, Some(block)),
            ),
        }
    }
}

/// Whether the proposal submitted by `action` to the DAO `dao_id` is stored.
pub open spec fn stores_proposal(dao_id: i32, action: BigQueryActionView) -> bool {
    planned_proposal(dao_id, action) matches Ok(Some(_))
}

/// The position of the first proposal from `from` on that is stored;
/// the number of proposals where there is none.
pub open spec fn first_stored(dao_id: i32, actions: Seq<BigQueryActionView>, from: int) -> int
    decreases actions.len() - from,
{
    if from >= actions.len() {
        actions.len() as int
    } else if stores_proposal(dao_id, actions[from]) {
        from
    } else {
        first_stored(dao_id, actions, from + 1)
    }
}

/// The position of the first vote from `from` on that can be read;
/// the number of votes where there is none.
pub open spec fn first_readable_vote(actions: Seq<BigQueryActionView>, from: int) -> int
    decreases actions.len() - from,
{
    if from >= actions.len() {
        actions.len() as int
    } else if planned_vote(actions[from]) is Ok {
        from
    } else {
        first_readable_vote(actions, from + 1)
    }
}

/// Why each proposal at a position from `from` up to `to` (not included)
/// cannot be read, in order; the proposals that are read are left out.
pub open spec fn proposal_errors(
    dao_id: i32,
    actions: Seq<BigQueryActionView>,
    from: int,
    to: int,
) -> Seq<SyncErrorView>
    decreases to - from,
{
    if to <= from {
        Seq::empty()
    } else {
        let before = proposal_errors(dao_id, actions, from, to - 1);
        match planned_proposal(dao_id, actions[to - 1]) {
            Err(e) => before.push(e),
            Ok(_) => before,
        }
    }
}

/// Why each vote at a position from `from` up to `to` (not included) cannot
/// be read, in order; the votes that are read are left out.
pub open spec fn vote_errors(actions: Seq<BigQueryActionView>, from: int, to: int) -> Seq<SyncErrorView>
    decreases to - from,
{
    if to <= from {
        Seq::empty()
    } else {
        let before = vote_errors(actions, from, to - 1);
        match planned_vote(actions[to - 1]) {
            Err(e) => before.push(e),
            Ok(_) => before,
        }
    }
}

/// The run goes on to the next proposal that is stored, passing over those
/// that cannot be read (and reporting why) or are not stored; after the last,
/// it fetches the votes.
pub open spec fn advance_proposals(s: SyncRunView) -> (SyncRunView, SyncCommandView) {
    let i = first_stored(s.dao_id, s.actions, s.next_action);
    let skipped = proposal_errors(s.dao_id, s.actions, s.next_action, i);
    if i < s.actions.len() {
        (
            SyncRunView {
                stage: SyncStage::AwaitingProposalStore,
                next_action: i + 1,
                skipped,
                ..s
            },
            SyncCommandView::StoreProposal(planned_proposal(s.dao_id, s.actions[i])->Ok_0->Some_0),
        )
    } else {
        (
            SyncRunView {
                stage: SyncStage::AwaitingVotes,
                next_action: s.actions.len() as int,
                skipped,
                ..s
            },
            SyncCommandView::FetchVotes(s.account, s.mode.start_block()),
        )
    }
}

/// The run goes on to the next vote that can be read, passing over those
/// that cannot (and reporting why); after the last, it starts on the next DAO.
pub open spec fn advance_votes(s: SyncRunView) -> (SyncRunView, SyncCommandView) {
    let i = first_readable_vote(s.actions, s.next_action);
    let skipped = vote_errors(s.actions, s.next_action, i);
    if i < s.actions.len() {
        let (pid, vote) = planned_vote(s.actions[i])->Ok_0;
        (
            SyncRunView {
                stage: SyncStage::AwaitingProposalLookup,
                next_action: i + 1,
                voter: s.actions[i].signer_account_id,
                vote,
                skipped,
                ..s
            },
            SyncCommandView::LookupProposal(s.dao_id, pid),
        )
    } else {
        start_next_dao(SyncRunView { next_action: s.actions.len() as int, skipped, ..s })
    }
}

/// The state a run goes to on `event`, and what it asks for next. Only the
/// steps that pass over proposals or votes report errors.
pub open spec fn next(s: SyncRunView, event: SyncEventView) -> (SyncRunView, SyncCommandView) {
    let s = SyncRunView { skipped: Seq::empty(), ..s };
    match event {
        SyncEventView::DaoAccountsFetched(Err(e)) => finish(s, Err(SyncErrorView::BigQuery(e))),
        SyncEventView::DaoAccountsFetched(Ok(accounts)) => start_next_dao(
            SyncRunView { accounts, ids: Seq::empty(), next_dao: 0, ..s },
        ),
        SyncEventView::DaosListed(Err(e)) => finish(s, Err(e)),
        SyncEventView::DaosListed(Ok(daos)) => start_next_dao(
            SyncRunView {
                accounts: daos.map_values(|d: (i32, Seq<char>)| d.1),
                ids: daos.map_values(|d: (i32, Seq<char>)| d.0),
                next_dao: 0,
                ..s
            },
        ),
        SyncEventView::DaoInserted(Err(e)) => finish(s, Err(e)),
        SyncEventView::DaoInserted(Ok(id)) => (
            SyncRunView { stage: SyncStage::AwaitingProposals, dao_id: id, ..s },
            SyncCommandView::FetchProposals(s.account, s.mode.start_block()),
        ),
        SyncEventView::ProposalsFetched(Err(e)) => finish(s, Err(SyncErrorView::BigQuery(e))),
        SyncEventView::ProposalsFetched(Ok(actions)) => advance_proposals(
            SyncRunView { actions, next_action: 0, ..s },
        ),
        SyncEventView::ProposalStored(_) => advance_proposals(s),
        SyncEventView::VotesFetched(Err(e)) => finish(s, Err(SyncErrorView::BigQuery(e))),
        SyncEventView::VotesFetched(Ok(actions)) => advance_votes(
            SyncRunView { actions, next_action: 0, ..s },
        ),
        SyncEventView::ProposalLookedUp(Err(_)) => advance_votes(s),
        SyncEventView::ProposalLookedUp(Ok(pid)) => (
            SyncRunView { stage: SyncStage::AwaitingVoteStore, ..s },
            SyncCommandView::StoreVote(NewVoteView { proposal_id: pid, voter: s.voter, vote: s.vote }),
        ),
        SyncEventView::VoteStored(_) => advance_votes(s),
    }
}


/// One sync of the DAOs' proposals and votes, as a state machine: the caller
/// does what each command asks and hands back what came of it.
#[derive(Debug)]
pub struct SyncRun {
    mode: SyncMode,
    stage: SyncStage,
    accounts: Vec<String>,
    ids: Vec<i32>,
    next_dao: usize,
    dao_id: i32,
    account: String,
    actions: Vec<BigQueryAction>,
    next_action: usize,
    voter: String,
    vote: String,
    skipped: Vec<SyncError>,
}

impl View for SyncRun {
    type V = SyncRunView;

    closed spec fn view(&self) -> SyncRunView {
        SyncRunView {
            mode: self.mode,
            stage: self.stage,
            accounts: texts_view(self.accounts),
            ids: self.ids@,
            next_dao: self.next_dao as int,
            dao_id: self.dao_id,
            account: self.account@,
            actions: actions_view(self.actions),
            next_action: self.next_action as int,
            voter: self.voter@,
            vote: self.vote@,
            skipped: errors_view(self.skipped),
        }
    }
}

impl SyncRun {
    #[verifier::type_invariant]
    closed spec fn inv(self) -> bool {
        self@.wf()
    }

    /// A run in `mode`, waiting for its first result.
    fn begin(mode: SyncMode, stage: SyncStage) -> (r: SyncRun)
        requires
            stage == SyncStage::AwaitingAccounts ==> mode == SyncMode::Initial,
            stage == SyncStage::AwaitingDaos ==> mode is Incremental,
        ensures
            r@ == fresh_run(mode, stage),
    {
        let r = SyncRun {
            mode,
            stage,
            accounts: Vec::new(),
            ids: Vec::new(),
            next_dao: 0,
            dao_id: 0,
            account: String::new(),
            actions: Vec::new(),
            next_action: 0,
            voter: String::new(),
            vote: String::new(),
            skipped: Vec::new(),
        };
        assert(r@.accounts =~= Seq::empty());
        assert(r@.actions =~= Seq::empty());
        assert(r@.skipped =~= Seq::empty());
        r
    }

    /// Whether the run, in its stage, takes `event`.
    pub fn accepts(&self, event: &SyncEvent) -> (r: bool)
        ensures
            r == self@.awaits(event@),
    {
        match self.stage {
            SyncStage::AwaitingAccounts => matches!(event, SyncEvent::DaoAccountsFetched(_)),
            SyncStage::AwaitingDaos => matches!(event, SyncEvent::DaosListed(_)),
            SyncStage::AwaitingDaoInsert => matches!(event, SyncEvent::DaoInserted(_)),
            SyncStage::AwaitingProposals => matches!(event, SyncEvent::ProposalsFetched(_)),
            SyncStage::AwaitingProposalStore => matches!(event, SyncEvent::ProposalStored(_)),
            SyncStage::AwaitingVotes => matches!(event, SyncEvent::VotesFetched(_)),
            SyncStage::AwaitingProposalLookup => matches!(event, SyncEvent::ProposalLookedUp(_)),
            SyncStage::AwaitingVoteStore => matches!(event, SyncEvent::VoteStored(_)),
            SyncStage::Finished => false,
        }
    }

    /// Whether the run is over.
    pub fn is_finished(&self) -> (r: bool)
        ensures
            r == (self@.stage == SyncStage::Finished),
    {
        match self.stage {
            SyncStage::Finished => true,
            _ => false,
        }
    }

    /// Why each proposal or vote that the last step passed over could not be
    /// read, in the order they were fetched.
    pub fn skipped(&self) -> (r: &Vec<SyncError>)
        ensures
            errors_view(*r) == self@.skipped,
    {
        &self.skipped
    }

    fn finish(self, result: Result<(), SyncError>) -> (r: (SyncRun, SyncCommand))
        ensures
            (r.0@, r.1@) == finish(self@, match result {
                Ok(()) => Ok(()),
                Err(e) => Err(e@),
            }),
    {
        proof {
            use_type_invariant(&self);
        }
        (SyncRun { stage: SyncStage::Finished, ..self }, SyncCommand::Finish(result))
    }

    fn start_next_dao(self) -> (r: (SyncRun, SyncCommand))
        ensures
            (r.0@, r.1@) == start_next_dao(self@),
    {
        proof {
            use_type_invariant(&self);
        }
        if self.next_dao >= self.accounts.len() {
            return self.finish(Ok(()));
        }
        let index = self.next_dao;
        let account = self.accounts[index].clone();
        let command_account = account.clone();
        match self.mode {
            SyncMode::Initial => (
                SyncRun {
                    stage: SyncStage::AwaitingDaoInsert,
                    account,
                    next_dao: index + 1,
                    ..self
                },
                SyncCommand::InsertDao(command_account),
            ),
            SyncMode::Incremental(block) => {
                let dao_id = self.ids[index];
                (
                    SyncRun {
                        stage: SyncStage::AwaitingProposals,
                        account,
                        dao_id,
                        next_dao: index + 1,
                        ..self
                    },
                    SyncCommand::FetchProposals(command_account, Some(block)),
                )
            },
        }
    }

    fn advance_proposals(self, service: &SyncService) -> (r: (SyncRun, SyncCommand))
        ensures
            (r.0@, r.1@) == advance_proposals(self@),
    {
        proof {
            use_type_invariant(&self);
        }
        let mut i: usize = self.next_action;
        let mut skipped: Vec<SyncError> = Vec::new();
        proof {
            assert(errors_view(skipped) =~= Seq::empty());
        }
        while i < self.actions.len()
            invariant
                self@.wf(),
                self.next_action <= i <= self.actions.len(),
                first_stored(self@.dao_id, self@.actions, self@.next_action) == first_stored(
                    self@.dao_id,
                    self@.actions,
                    i as int,
                ),
                errors_view(skipped) == proposal_errors(
                    self@.dao_id,
                    self@.actions,
                    self@.next_action,
                    i as int,
                ),
            decreases self.actions.len() - i,
        {
            let ghost before = skipped;
            match service.plan_proposal(self.dao_id, &self.actions[i]) {
                Ok(Some(row)) => {
                    let stage = SyncStage::AwaitingProposalStore;
                    return (
                        SyncRun { stage, next_action: i + 1, skipped, ..self },
                        SyncCommand::StoreProposal(row),
                    );
                },
                Ok(None) => {},
                Err(e) => {
                    skipped.push(e);
                    proof {
                        assert(errors_view(skipped) =~= errors_view(before).push(
                            skipped@[skipped@.len() - 1]@,
                        ));
                    }
                },
            }
            i = i + 1;
        }
        let len = self.actions.len();
        let start = self.mode.start();
        let account = self.account.clone();
        (
            SyncRun { stage: SyncStage::AwaitingVotes, next_action: len, skipped, ..self },
            SyncCommand::FetchVotes(account, start),
        )
    }

    fn advance_votes(self, service: &SyncService) -> (r: (SyncRun, SyncCommand))
        ensures
            (r.0@, r.1@) == advance_votes(self@),
    {
        proof {
            use_type_invariant(&self);
        }
        let mut i: usize = self.next_action;
        let mut skipped: Vec<SyncError> = Vec::new();
        proof {
            assert(errors_view(skipped) =~= Seq::empty());
        }
        while i < self.actions.len()
            invariant
                self@.wf(),
                self.next_action <= i <= self.actions.len(),
                first_readable_vote(self@.actions, self@.next_action) == first_readable_vote(
                    self@.actions,
                    i as int,
                ),
                errors_view(skipped) == vote_errors(self@.actions, self@.next_action, i as int),
            decreases self.actions.len() - i,
        {
            let ghost before = skipped;
            match service.plan_vote(&self.actions[i]) {
                Ok(args) => {
                    let voter = self.actions[i].signer_account_id.clone();
                    let dao_id = self.dao_id;
                    return (
                        SyncRun {
                            stage: SyncStage::AwaitingProposalLookup,
                            next_action: i + 1,
                            voter,
                            vote: args.vote,
                            skipped,
                            ..self
                        },
                        SyncCommand::LookupProposal(dao_id, args.proposal_id),
                    );
                },
                Err(e) => {
                    skipped.push(e);
                    proof {
                        assert(errors_view(skipped) =~= errors_view(before).push(
                            skipped@[skipped@.len() - 1]@,
                        ));
                    }
                },
            }
            i = i + 1;
        }
        let len = self.actions.len();
        let done = SyncRun { next_action: len, skipped, ..self };
        done.start_next_dao()
    }
}

impl SyncService {
    /// A run over every DAO ever created and its whole history; it starts by
    /// fetching the DAO accounts.
    pub fn initial_sync(&self) -> (r: (SyncRun, SyncCommand))
        ensures
            r.0@ == fresh_run(SyncMode::Initial, SyncStage::AwaitingAccounts),
            r.1@ == SyncCommandView::FetchDaoAccounts,
    {
        (SyncRun::begin(SyncMode::Initial, SyncStage::AwaitingAccounts), SyncCommand::FetchDaoAccounts)
    }

    /// A run over the DAOs already stored, from `start_block` on; it starts by
    /// listing them.
    pub fn incremental_sync(&self, start_block: i64) -> (r: (SyncRun, SyncCommand))
        ensures
            r.0@ == fresh_run(SyncMode::Incremental(start_block), SyncStage::AwaitingDaos),
            r.1@ == SyncCommandView::ListDaos,
    {
        (
            SyncRun::begin(SyncMode::Incremental(start_block), SyncStage::AwaitingDaos),
            SyncCommand::ListDaos,
        )
    }

    /// The run `run` goes on with what came of its last command.
    pub fn resume(&self, run: SyncRun, event: SyncEvent) -> (r: (SyncRun, SyncCommand))
        requires
            run@.awaits(event@),
        ensures
            (r.0@, r.1@) == next(run@, event@),
    {
        proof {
            use_type_invariant(&run);
        }
        let run = SyncRun { skipped: Vec::new(), ..run };
        proof {
            assert(run@.skipped =~= Seq::empty());
        }
        match event {
            SyncEvent::DaoAccountsFetched(Err(e)) => run.finish(Err(SyncError::BigQuery(e))),
            SyncEvent::DaoAccountsFetched(Ok(accounts)) => {
                let ids: Vec<i32> = Vec::new();
                let started = SyncRun { accounts, ids, next_dao: 0, ..run };
                proof {
                    assert(started@.ids =~= Seq::empty());
                }
                started.start_next_dao()
            },
            SyncEvent::DaosListed(Err(e)) => run.finish(Err(e)),
            SyncEvent::DaosListed(Ok(daos)) => {
                let mut accounts: Vec<String> = Vec::new();
                let mut ids: Vec<i32> = Vec::new();
                let mut i: usize = 0;
                while i < daos.len()
                    invariant
                        run@.wf(),
                        0 <= i <= daos.len(),
                        accounts@.len() == i,
                        ids@.len() == i,
                        forall|j: int|
                            #![trigger daos@[j]]
                            0 <= j < i ==> accounts@[j]@ == daos@[j].1@ && ids@[j] == daos@[j].0,
                    decreases daos.len() - i,
                {
                    accounts.push(daos[i].1.clone());
                    ids.push(daos[i].0);
                    i = i + 1;
                }
                let ghost listed = daos_view(daos);
                proof {
                    assert(texts_view(accounts) =~= listed.map_values(|d: (i32, Seq<char>)| d.1));
                    assert(ids@ =~= listed.map_values(|d: (i32, Seq<char>)| d.0));
                }
                let started = SyncRun { accounts, ids, next_dao: 0, ..run };
                started.start_next_dao()
            },
            SyncEvent::DaoInserted(Err(e)) => run.finish(Err(e)),
            SyncEvent::DaoInserted(Ok(dao_id)) => {
                let account = run.account.clone();
                let start = run.mode.start();
                (
                    SyncRun { stage: SyncStage::AwaitingProposals, dao_id, ..run },
                    SyncCommand::FetchProposals(account, start),
                )
            },
            SyncEvent::ProposalsFetched(Err(e)) => run.finish(Err(SyncError::BigQuery(e))),
            SyncEvent::ProposalsFetched(Ok(actions)) => {
                let fetched = SyncRun { actions, next_action: 0, ..run };
                fetched.advance_proposals(self)
            },
            SyncEvent::ProposalStored(_) => run.advance_proposals(self),
            SyncEvent::VotesFetched(Err(e)) => run.finish(Err(SyncError::BigQuery(e))),
            SyncEvent::VotesFetched(Ok(actions)) => {
                let fetched = SyncRun { actions, next_action: 0, ..run };
                fetched.advance_votes(self)
            },
            SyncEvent::ProposalLookedUp(Err(_)) => run.advance_votes(self),
            SyncEvent::ProposalLookedUp(Ok(proposal_id)) => {
                let vote = new_vote(proposal_id, run.voter.as_str(), run.vote.as_str());
                (SyncRun { stage: SyncStage::AwaitingVoteStore, ..run }, SyncCommand::StoreVote(vote))
            },
            SyncEvent::VoteStored(_) => run.advance_votes(self),
        }
    }
}

} // verus!
