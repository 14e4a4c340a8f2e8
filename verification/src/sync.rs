//! Synchronising a cached repository with its remote, as a plan: given what
//! the backend has answered so far, what to ask next, or the outcome.
//!
//! An entry that holds no repository is cloned. One that does is fetched,
//! and its branch is moved only where that is a fast-forward; diverged
//! histories are neither merged nor overwritten.

use vstd::prelude::*;
use crate::backend::CommitId;
use crate::backend::Divergence;
use crate::backend::EntryState;
use crate::backend::entry_state;
use crate::backend::LocationStat;
use crate::backend::MergeAnalysis;
use crate::backend::Reply;
use crate::backend::ReplyView;
use crate::error::Error;
use crate::error::ErrorView;
use crate::repo::Identity;
use crate::repo::RepoCache;

verus! {

/// The answers gathered during one refresh. A field is `None` until its
/// request has been made.
#[derive(Debug)]
pub struct SyncLog {
    /// What stands at the location.
    pub stat: Option<LocationStat>,
    /// Whether the directory, with its parents, was created.
    pub created: Option<Reply<()>>,
    /// Whether the location opened as a repository.
    pub opened: Option<Reply<()>>,
    /// Whether the source was cloned into the location.
    pub cloned: Option<Reply<()>>,
    /// Whether the configured remote was found.
    pub remote: Option<Reply<()>>,
    /// The fetch refspecs that the remote is configured with.
    pub refspecs: Option<Reply<Vec<String>>>,
    /// Whether the fetch went through.
    pub fetched: Option<Reply<()>>,
    /// The commit that the fetched head points at.
    pub fetch_head: Option<Reply<CommitId>>,
    /// What merging the fetched commit would take.
    pub analysis: Option<Reply<MergeAnalysis>>,
    /// The name of the reference that `HEAD` points at; `None` inside where
    /// it has none.
    pub head: Option<Reply<Option<String>>>,
    /// Whether that reference was moved to the fetched commit.
    pub target_set: Option<Reply<()>>,
    /// Whether `HEAD` was pointed at that reference again.
    pub head_set: Option<Reply<()>>,
    /// Whether the working tree was checked out.
    pub checked_out: Option<Reply<()>>,
}

/// Mathematical value of a [`SyncLog`].
pub struct SyncLogView {
    pub stat: Option<LocationStat>,
    pub created: Option<ReplyView<()>>,
    pub opened: Option<ReplyView<()>>,
    pub cloned: Option<ReplyView<()>>,
    pub remote: Option<ReplyView<()>>,
    pub refspecs: Option<ReplyView<Seq<Seq<char>>>>,
    pub fetched: Option<ReplyView<()>>,
    pub fetch_head: Option<ReplyView<Seq<u8>>>,
    pub analysis: Option<ReplyView<MergeAnalysis>>,
    pub head: Option<ReplyView<Option<Seq<char>>>>,
    pub target_set: Option<ReplyView<()>>,
    pub head_set: Option<ReplyView<()>>,
    pub checked_out: Option<ReplyView<()>>,
}

impl DeepView for SyncLog {
    type V = SyncLogView;

    open spec fn deep_view(&self) -> SyncLogView {
        SyncLogView {
            stat: self.stat,
            created: self.created.deep_view(),
            opened: self.opened.deep_view(),
            cloned: self.cloned.deep_view(),
            remote: self.remote.deep_view(),
            refspecs: self.refspecs.deep_view(),
            fetched: self.fetched.deep_view(),
            fetch_head: self.fetch_head.deep_view(),
            analysis: self.analysis.deep_view(),
            head: self.head.deep_view(),
            target_set: self.target_set.deep_view(),
            head_set: self.head_set.deep_view(),
            checked_out: self.checked_out.deep_view(),
        }
    }
}

impl SyncLogView {
    /// The log of a refresh that has asked nothing yet.
    pub open spec fn empty() -> SyncLogView {
        SyncLogView {
            stat: None,
            created: None,
            opened: None,
            cloned: None,
            remote: None,
            refspecs: None,
            fetched: None,
            fetch_head: None,
            analysis: None,
            head: None,
            target_set: None,
            head_set: None,
            checked_out: None,
        }
    }
}

impl SyncLog {
    /// The log of a refresh that has asked nothing yet.
    pub fn new() -> (log: SyncLog)
        ensures
            log.deep_view() == SyncLogView::empty(),
    {
        SyncLog {
            stat: None,
            created: None,
            opened: None,
            cloned: None,
            remote: None,
            refspecs: None,
            fetched: None,
            fetch_head: None,
            analysis: None,
            head: None,
            target_set: None,
            head_set: None,
            checked_out: None,
        }
    }
}

/// The next move of a refresh.
#[derive(Debug)]
pub enum SyncAction {
    /// Ask what stands at the location.
    Stat,
    /// Create the directory at the location, and its parents.
    CreateDir,
    /// Open the location as a repository.
    Open,
    /// Clone `url` into the location, with negotiated credentials.
    Clone { url: String },
    /// Look up the remote of this name.
    FindRemote { name: String },
    /// List the fetch refspecs that the remote of this name is configured
    /// with.
    ListRefspecs { remote: String },
    /// Fetch exactly these refspecs from the remote of this name, with
    /// negotiated credentials.
    Fetch { remote: String, refspecs: Vec<String> },
    /// Resolve this reference, the fetched head, to a commit.
    ResolveFetchHead { reference: String },
    /// Analyse what merging this commit into the current branch would take.
    Analyse { commit: CommitId },
    /// Resolve the name of the reference that `HEAD` points at.
    ResolveHead,
    /// Move this reference to this commit, recorded with this reason.
    SetTarget { reference: String, commit: CommitId, reason: String },
    /// Point `HEAD` at this reference.
    SetHead { reference: String },
    /// Check the working tree out at `HEAD`; forced, local changes are
    /// discarded.
    Checkout { force: bool },
    /// The refresh is over: whether anything changed, or the failure.
    Finish(Result<bool, Error>),
}

/// Mathematical value of a [`SyncAction`].
pub enum SyncActionView {
    Stat,
    CreateDir,
    Open,
    Clone { url: Seq<char> },
    FindRemote { name: Seq<char> },
    ListRefspecs { remote: Seq<char> },
    Fetch { remote: Seq<char>, refspecs: Seq<Seq<char>> },
    ResolveFetchHead { reference: Seq<char> },
    Analyse { commit: Seq<u8> },
    ResolveHead,
    SetTarget { reference: Seq<char>, commit: Seq<u8>, reason: Seq<char> },
    SetHead { reference: Seq<char> },
    Checkout { force: bool },
    Finish(Result<bool, ErrorView>),
}

impl DeepView for SyncAction {
    type V = SyncActionView;

    open spec fn deep_view(&self) -> SyncActionView {
        match self {
            SyncAction::Stat => SyncActionView::Stat,
            SyncAction::CreateDir => SyncActionView::CreateDir,
            SyncAction::Open => SyncActionView::Open,
            SyncAction::Clone { url } => SyncActionView::Clone { url: url@ },
            SyncAction::FindRemote { name } => SyncActionView::FindRemote { name: name@ },
            SyncAction::ListRefspecs { remote } => SyncActionView::ListRefspecs {
                remote: remote@,
            },
            SyncAction::Fetch { remote, refspecs } => SyncActionView::Fetch {
                remote: remote@,
                refspecs: refspecs.deep_view(),
            },
            SyncAction::ResolveFetchHead { reference } => SyncActionView::ResolveFetchHead {
                reference: reference@,
            },
            SyncAction::Analyse { commit } => SyncActionView::Analyse { commit: commit@ },
            SyncAction::ResolveHead => SyncActionView::ResolveHead,
            SyncAction::SetTarget { reference, commit, reason } => SyncActionView::SetTarget {
                reference: reference@,
                commit: commit@,
                reason: reason@,
            },
            SyncAction::SetHead { reference } => SyncActionView::SetHead { reference: reference@ },
            SyncAction::Checkout { force } => SyncActionView::Checkout { force: *force },
            SyncAction::Finish(Ok(changed)) => SyncActionView::Finish(Ok(*changed)),
            SyncAction::Finish(Err(e)) => SyncActionView::Finish(Err(e@)),
        }
    }
}

/// The reference that a fetch leaves its head in.
pub open spec fn fetch_head_name() -> Seq<char> {
    "FETCH_HEAD"@
}

/// The reason a fast-forward is recorded with.
pub open spec fn fast_forward_reason() -> Seq<char> {
    "Fast-forward"@
}

/// The failure of a refresh whose `HEAD` names no reference.
pub open spec fn no_head_name() -> ErrorView {
    ErrorView::backend("No HEAD reference found"@)
}

/// The next move of a refresh of `id` that has gathered `log`.
pub open spec fn sync_plan(id: Identity, log: SyncLogView) -> SyncActionView {
    match log.stat {
        None => SyncActionView::Stat,
        Some(stat) => if stat.present() {
            sync_plan_open(id, log)
        } else {
            match log.created {
                None => SyncActionView::CreateDir,
                Some(ReplyView::Failed(e)) => SyncActionView::Finish(Err(e)),
                Some(ReplyView::Value(_)) => sync_plan_open(id, log),
            }
        },
    }
}

/// The next move once a directory stands at the location: open it, and
/// clone into it if and only if it holds no repository.
pub open spec fn sync_plan_open(id: Identity, log: SyncLogView) -> SyncActionView {
    match log.opened {
        None => SyncActionView::Open,
        Some(ReplyView::Failed(e)) => if e.not_found() {
            match log.cloned {
                None => SyncActionView::Clone { url: id.source_url },
                Some(ReplyView::Failed(e)) => SyncActionView::Finish(Err(e)),
                Some(ReplyView::Value(_)) => SyncActionView::Finish(Ok(true)),
            }
        } else {
            SyncActionView::Finish(Err(e))
        },
        Some(ReplyView::Value(_)) => sync_plan_fetch(id, log),
    }
}

/// The next move on an open repository: fetch the remote's own refspecs,
/// resolve the fetched head and have the merge analysed.
pub open spec fn sync_plan_fetch(id: Identity, log: SyncLogView) -> SyncActionView {
    match log.remote {
        None => SyncActionView::FindRemote { name: id.remote_name },
        Some(ReplyView::Failed(e)) => SyncActionView::Finish(Err(e)),
        Some(ReplyView::Value(_)) => match log.refspecs {
            None => SyncActionView::ListRefspecs { remote: id.remote_name },
            Some(ReplyView::Failed(e)) => SyncActionView::Finish(Err(e)),
            Some(ReplyView::Value(refspecs)) => match log.fetched {
                None => SyncActionView::Fetch { remote: id.remote_name, refspecs },
                Some(ReplyView::Failed(e)) => SyncActionView::Finish(Err(e)),
                Some(ReplyView::Value(_)) => match log.fetch_head {
                    None => SyncActionView::ResolveFetchHead { reference: fetch_head_name() },
                    Some(ReplyView::Failed(e)) => SyncActionView::Finish(Err(e)),
                    Some(ReplyView::Value(commit)) => match log.analysis {
                        None => SyncActionView::Analyse { commit },
                        Some(ReplyView::Failed(e)) => SyncActionView::Finish(Err(e)),
                        Some(ReplyView::Value(analysis)) => if analysis.fast_forward {
                            sync_plan_forward(log, commit)
                        } else {
                            SyncActionView::Finish(Ok(false))
                        },
                    },
                },
            },
        },
    }
}

/// The next move of a fast-forward to `commit`: move the reference that
/// `HEAD` names, point `HEAD` at it, and force the checkout.
pub open spec fn sync_plan_forward(log: SyncLogView, commit: Seq<u8>) -> SyncActionView {
    match log.head {
        None => SyncActionView::ResolveHead,
        Some(ReplyView::Failed(e)) => SyncActionView::Finish(Err(e)),
        Some(ReplyView::Value(None)) => SyncActionView::Finish(Err(no_head_name())),
        Some(ReplyView::Value(Some(reference))) => match log.target_set {
            None => SyncActionView::SetTarget { reference, commit, reason: fast_forward_reason() },
            Some(ReplyView::Failed(e)) => SyncActionView::Finish(Err(e)),
            Some(ReplyView::Value(_)) => match log.head_set {
                None => SyncActionView::SetHead { reference },
                Some(ReplyView::Failed(e)) => SyncActionView::Finish(Err(e)),
                Some(ReplyView::Value(_)) => match log.checked_out {
                    None => SyncActionView::Checkout { force: true },
                    Some(ReplyView::Failed(e)) => SyncActionView::Finish(Err(e)),
                    Some(ReplyView::Value(_)) => SyncActionView::Finish(Ok(true)),
                },
            },
        },
    }
}

/// A copy of a list of names.
pub fn duplicate_names(names: &Vec<String>) -> (copy: Vec<String>)
    ensures
        copy.deep_view() == names.deep_view(),
{
    let mut copy: Vec<String> = Vec::new();
    let mut i: usize = 0;
    while i < names.len()
        invariant
            i <= names.len(),
            copy.len() == i,
            forall|j: int| 0 <= j < i ==> copy[j]@ == names[j]@,
        decreases names.len() - i,
    {
        copy.push(names[i].clone());
        i += 1;
    }
    assert(copy.deep_view() =~= names.deep_view());
    copy
}

/// The next move of a fast-forward to `commit`.
fn forward_next(log: &SyncLog, commit: &CommitId) -> (action: SyncAction)
    ensures
        action.deep_view() == sync_plan_forward(log.deep_view(), commit@),
{
    let reference = match &log.head {
        None => { return SyncAction::ResolveHead; },
        Some(Reply::Failed(e)) => { return SyncAction::Finish(Err(e.duplicate())); },
        Some(Reply::Value(None)) => {
            return SyncAction::Finish(Err(Error::backend("No HEAD reference found")));
        },
        Some(Reply::Value(Some(reference))) => reference,
    };
    match &log.target_set {
        None => {
            return SyncAction::SetTarget {
                reference: reference.clone(),
                commit: commit.duplicate(),
                reason: "Fast-forward".to_owned(),
            };
        },
        Some(Reply::Failed(e)) => { return SyncAction::Finish(Err(e.duplicate())); },
        Some(Reply::Value(_)) => {},
    }
    match &log.head_set {
        None => { return SyncAction::SetHead { reference: reference.clone() }; },
        Some(Reply::Failed(e)) => { return SyncAction::Finish(Err(e.duplicate())); },
        Some(Reply::Value(_)) => {},
    }
    match &log.checked_out {
        None => SyncAction::Checkout { force: true },
        Some(Reply::Failed(e)) => SyncAction::Finish(Err(e.duplicate())),
        Some(Reply::Value(_)) => SyncAction::Finish(Ok(true)),
    }
}

impl RepoCache {
    /// The next move of a refresh that has gathered `log`: the request to
    /// make and record in the log, or the outcome.
    pub fn sync_next(&self, log: &SyncLog) -> (action: SyncAction)
        ensures
            action.deep_view() == sync_plan(self@, log.deep_view()),
    {
        let stat = match &log.stat {
            None => { return SyncAction::Stat; },
            Some(stat) => stat,
        };
        if !stat.is_present() {
            match &log.created {
                None => { return SyncAction::CreateDir; },
                Some(Reply::Failed(e)) => { return SyncAction::Finish(Err(e.duplicate())); },
                Some(Reply::Value(_)) => {},
            }
        }
        match &log.opened {
            None => SyncAction::Open,
            Some(Reply::Failed(e)) => {
                if e.is_not_found() {
                    match &log.cloned {
                        None => SyncAction::Clone { url: self.repo.clone() },
                        Some(Reply::Failed(e)) => SyncAction::Finish(Err(e.duplicate())),
                        Some(Reply::Value(_)) => SyncAction::Finish(Ok(true)),
                    }
                } else {
                    SyncAction::Finish(Err(e.duplicate()))
                }
            },
            Some(Reply::Value(_)) => self.fetch_next(log),
        }
    }

    /// The next move of a refresh on an open repository.
    fn fetch_next(&self, log: &SyncLog) -> (action: SyncAction)
        ensures
            action.deep_view() == sync_plan_fetch(self@, log.deep_view()),
    {
        match &log.remote {
            None => { return SyncAction::FindRemote { name: self.remote.clone() }; },
            Some(Reply::Failed(e)) => { return SyncAction::Finish(Err(e.duplicate())); },
            Some(Reply::Value(_)) => {},
        }
        let refspecs = match &log.refspecs {
            None => { return SyncAction::ListRefspecs { remote: self.remote.clone() }; },
            Some(Reply::Failed(e)) => { return SyncAction::Finish(Err(e.duplicate())); },
            Some(Reply::Value(refspecs)) => refspecs,
        };
        match &log.fetched {
            None => {
                return SyncAction::Fetch {
                    remote: self.remote.clone(),
                    refspecs: duplicate_names(refspecs),
                };
            },
            Some(Reply::Failed(e)) => { return SyncAction::Finish(Err(e.duplicate())); },
            Some(Reply::Value(_)) => {},
        }
        let commit = match &log.fetch_head {
            None => {
                return SyncAction::ResolveFetchHead { reference: "FETCH_HEAD".to_owned() };
            },
            Some(Reply::Failed(e)) => { return SyncAction::Finish(Err(e.duplicate())); },
            Some(Reply::Value(commit)) => commit,
        };
        match &log.analysis {
            None => SyncAction::Analyse { commit: commit.duplicate() },
            Some(Reply::Failed(e)) => SyncAction::Finish(Err(e.duplicate())),
            Some(Reply::Value(analysis)) => {
                if analysis.fast_forward {
                    forward_next(log, commit)
                } else {
                    SyncAction::Finish(Ok(false))
                }
            },
        }
    }
}

/// What the backend answers to each request of one refresh, were it asked.
pub struct SyncAnswers {
    pub stat: LocationStat,
    pub created: ReplyView<()>,
    pub opened: ReplyView<()>,
    pub cloned: ReplyView<()>,
    pub remote: ReplyView<()>,
    pub refspecs: ReplyView<Seq<Seq<char>>>,
    pub fetched: ReplyView<()>,
    pub fetch_head: ReplyView<Seq<u8>>,
    pub analysis: ReplyView<MergeAnalysis>,
    pub head: ReplyView<Option<Seq<char>>>,
    pub target_set: ReplyView<()>,
    pub head_set: ReplyView<()>,
    pub checked_out: ReplyView<()>,
}

/// The outcome of a refresh against a backend that answers `answers`:
/// whether anything changed, or the first failure met.
///
/// A location without a repository is cloned into, which is a change. A
/// repository is fetched, and changed only by a fast-forward: whatever else
/// the analysis says, nothing is touched and `Ok(false)` comes back.
pub open spec fn sync_outcome(answers: SyncAnswers) -> Result<bool, ErrorView> {
    if !answers.stat.present() && answers.created is Failed {
        Err(answers.created->Failed_0)
    } else {
        match answers.opened {
            ReplyView::Failed(e) => if e.not_found() {
                match answers.cloned {
                    ReplyView::Failed(e) => Err(e),
                    ReplyView::Value(_) => Ok(true),
                }
            } else {
                Err(e)
            },
            ReplyView::Value(_) => fetch_outcome(answers),
        }
    }
}

/// The outcome of a refresh on an open repository.
pub open spec fn fetch_outcome(answers: SyncAnswers) -> Result<bool, ErrorView> {
    if answers.remote is Failed {
        Err(answers.remote->Failed_0)
    } else if answers.refspecs is Failed {
        Err(answers.refspecs->Failed_0)
    } else if answers.fetched is Failed {
        Err(answers.fetched->Failed_0)
    } else if answers.fetch_head is Failed {
        Err(answers.fetch_head->Failed_0)
    } else {
        match answers.analysis {
            ReplyView::Failed(e) => Err(e),
            ReplyView::Value(analysis) => if !analysis.fast_forward {
                Ok(false)
            } else {
                forward_outcome(answers)
            },
        }
    }
}

/// The outcome of a fast-forward.
pub open spec fn forward_outcome(answers: SyncAnswers) -> Result<bool, ErrorView> {
    match answers.head {
        ReplyView::Failed(e) => Err(e),
        ReplyView::Value(None) => Err(no_head_name()),
        ReplyView::Value(Some(_)) => if answers.target_set is Failed {
            Err(answers.target_set->Failed_0)
        } else if answers.head_set is Failed {
            Err(answers.head_set->Failed_0)
        } else if answers.checked_out is Failed {
            Err(answers.checked_out->Failed_0)
        } else {
            Ok(true)
        },
    }
}

/// The log after the request `action` was made and answered from `answers`.
pub open spec fn sync_record(
    log: SyncLogView,
    action: SyncActionView,
    answers: SyncAnswers,
) -> SyncLogView {
    match action {
        SyncActionView::Stat => SyncLogView { stat: Some(answers.stat), ..log },
        SyncActionView::CreateDir => SyncLogView { created: Some(answers.created), ..log },
        SyncActionView::Open => SyncLogView { opened: Some(answers.opened), ..log },
        SyncActionView::Clone { .. } => SyncLogView { cloned: Some(answers.cloned), ..log },
        SyncActionView::FindRemote { .. } => SyncLogView { remote: Some(answers.remote), ..log },
        SyncActionView::ListRefspecs { .. } => SyncLogView {
            refspecs: Some(answers.refspecs),
            ..log
        },
        SyncActionView::Fetch { .. } => SyncLogView { fetched: Some(answers.fetched), ..log },
        SyncActionView::ResolveFetchHead { .. } => SyncLogView {
            fetch_head: Some(answers.fetch_head),
            ..log
        },
        SyncActionView::Analyse { .. } => SyncLogView { analysis: Some(answers.analysis), ..log },
        SyncActionView::ResolveHead => SyncLogView { head: Some(answers.head), ..log },
        SyncActionView::SetTarget { .. } => SyncLogView {
            target_set: Some(answers.target_set),
            ..log
        },
        SyncActionView::SetHead { .. } => SyncLogView { head_set: Some(answers.head_set), ..log },
        SyncActionView::Checkout { .. } => SyncLogView {
            checked_out: Some(answers.checked_out),
            ..log
        },
        SyncActionView::Finish(_) => log,
    }
}

/// The outcome reached by following the plan from `log` for at most `fuel`
/// requests, each answered from `answers`; `None` if the plan asks for more.
pub open spec fn sync_run(
    id: Identity,
    answers: SyncAnswers,
    log: SyncLogView,
    fuel: nat,
) -> Option<Result<bool, ErrorView>>
    decreases fuel,
{
    match sync_plan(id, log) {
        SyncActionView::Finish(outcome) => Some(outcome),
        action => if fuel == 0 {
            None
        } else {
            sync_run(id, answers, sync_record(log, action, answers), (fuel - 1) as nat)
        },
    }
}

/// How many requests satisfying `counted` are made by following the plan
/// from `log` for at most `fuel` requests.
pub open spec fn sync_count(
    id: Identity,
    answers: SyncAnswers,
    log: SyncLogView,
    fuel: nat,
    counted: spec_fn(SyncActionView) -> bool,
) -> nat
    decreases fuel,
{
    match sync_plan(id, log) {
        SyncActionView::Finish(_) => 0,
        action => if fuel == 0 {
            0
        } else {
            let rest = sync_count(
                id,
                answers,
                sync_record(log, action, answers),
                (fuel - 1) as nat,
                counted,
            );
            if counted(action) {
                rest + 1
            } else {
                rest
            }
        },
    }
}

/// The most requests a refresh makes.
pub open spec fn sync_budget() -> nat {
    12
}

/// A request that goes to the network.
pub open spec fn is_round_trip(action: SyncActionView) -> bool {
    action is Clone || action is Fetch
}

/// A request that moves the branch, `HEAD` or the working tree of an
/// existing repository.
pub open spec fn is_move(action: SyncActionView) -> bool {
    action is SetTarget || action is SetHead || action is Checkout
}

/// Following the plan from an empty log ends within twelve requests,
/// whatever the backend answers, and in the outcome that those answers call
/// for.
pub proof fn lemma_sync_reaches_outcome(id: Identity, answers: SyncAnswers)
    ensures
        sync_run(id, answers, SyncLogView::empty(), sync_budget()) == Some(sync_outcome(answers)),
{
    reveal_with_fuel(sync_run, 13);
}

/// Nothing is moved but by a fast-forward, and nothing is cloned over a
/// repository: whatever the log holds, the plan asks to move the branch,
/// `HEAD` or the working tree only where the recorded analysis says
/// fast-forward, moves the branch only to the commit that was fetched, and
/// asks for a clone only where opening the location found no repository.
pub proof fn lemma_moves_need_fast_forward(id: Identity, log: SyncLogView)
    ensures
        is_move(sync_plan(id, log)) ==> (log.analysis matches Some(ReplyView::Value(analysis))
            && analysis.fast_forward),
        sync_plan(id, log) matches SyncActionView::SetTarget { commit, .. } ==> log.fetch_head
            == Some(ReplyView::Value(commit)),
        sync_plan(id, log) is Clone ==> (log.opened matches Some(ReplyView::Failed(e))
            && e.not_found()),
{
}

/// Whether an analysis agrees with how far the local tip is from the
/// fetched one: a fast-forward is on offer only where the local branch holds
/// no commit that the remote lacks.
pub open spec fn analysis_reflects(analysis: MergeAnalysis, divergence: Divergence) -> bool {
    analysis.fast_forward ==> divergence.ahead == 0
}

/// Unpushed local commits are never rewritten: where the local branch is
/// ahead of the remote and the backend's analysis reflects that, a refresh
/// asks for no move of the branch, of `HEAD` or of the working tree, and
/// reports no change to a repository that opened.
pub proof fn lemma_unpushed_commits_are_kept(
    id: Identity,
    answers: SyncAnswers,
    divergence: Divergence,
)
    requires
        divergence.ahead > 0,
        answers.analysis matches ReplyView::Value(analysis) ==> analysis_reflects(
            analysis,
            divergence,
        ),
    ensures
        sync_count(id, answers, SyncLogView::empty(), sync_budget(), |a| is_move(a)) == 0,
        answers.opened is Value ==> sync_outcome(answers) != Ok::<bool, ErrorView>(true),
{
    reveal_with_fuel(sync_count, 13);
}

/// A refresh goes to the network at most once, for a clone or for a fetch,
/// and exactly once where it succeeds.
pub proof fn lemma_one_round_trip(id: Identity, answers: SyncAnswers)
    ensures
        sync_count(id, answers, SyncLogView::empty(), sync_budget(), |a| is_round_trip(a)) <= 1,
        sync_outcome(answers) is Ok ==> sync_count(
            id,
            answers,
            SyncLogView::empty(),
            sync_budget(),
            |a| is_round_trip(a),
        ) == 1,
{
    reveal_with_fuel(sync_count, 13);
}

/// The outcome of a clone: a change where it went through, else its
/// failure.
pub open spec fn clone_outcome(answers: SyncAnswers) -> Result<bool, ErrorView> {
    match answers.cloned {
        ReplyView::Failed(e) => Err(e),
        ReplyView::Value(_) => Ok(true),
    }
}

/// A refresh at a location where nothing stands creates the directory and
/// clones the source into it: once each, with no fetch, and the clone's
/// success is the change reported.
pub proof fn lemma_absent_entry_is_cloned(id: Identity, answers: SyncAnswers)
    requires
        !answers.stat.present(),
        answers.created is Value,
        answers.opened matches ReplyView::Failed(e) && e.not_found(),
    ensures
        sync_count(
            id,
            answers,
            SyncLogView::empty(),
            sync_budget(),
            |a| a == SyncActionView::CreateDir,
        ) == 1,
        sync_count(
            id,
            answers,
            SyncLogView::empty(),
            sync_budget(),
            |a| a == (SyncActionView::Clone { url: id.source_url }),
        ) == 1,
        sync_count(id, answers, SyncLogView::empty(), sync_budget(), |a| a is Fetch) == 0,
        sync_outcome(answers) == clone_outcome(answers),
{
    reveal_with_fuel(sync_count, 13);
}

/// A refresh of a directory that holds no repository clones the source into
/// it, once, and creates and fetches nothing.
pub proof fn lemma_uninitialized_entry_is_cloned(id: Identity, answers: SyncAnswers)
    requires
        entry_state(answers.stat, answers.opened) == Some(EntryState::Uninitialized),
    ensures
        sync_count(
            id,
            answers,
            SyncLogView::empty(),
            sync_budget(),
            |a| a == (SyncActionView::Clone { url: id.source_url }),
        ) == 1,
        sync_count(id, answers, SyncLogView::empty(), sync_budget(), |a| a is CreateDir) == 0,
        sync_count(id, answers, SyncLogView::empty(), sync_budget(), |a| a is Fetch) == 0,
        sync_outcome(answers) == clone_outcome(answers),
{
    reveal_with_fuel(sync_count, 13);
}

/// A refresh of a repository never clones over it and creates nothing. It
/// fetches from the configured remote exactly the refspecs that the remote
/// is configured with, once, where the remote is found and its refspecs can
/// be listed; and not at all where they cannot.
pub proof fn lemma_present_entry_is_fetched(id: Identity, answers: SyncAnswers)
    requires
        entry_state(answers.stat, answers.opened) == Some(EntryState::Present),
    ensures
        sync_count(id, answers, SyncLogView::empty(), sync_budget(), |a| a is Clone) == 0,
        sync_count(id, answers, SyncLogView::empty(), sync_budget(), |a| a is CreateDir) == 0,
        answers.remote is Value && answers.refspecs is Value ==> sync_count(
            id,
            answers,
            SyncLogView::empty(),
            sync_budget(),
            |a|
                a == (SyncActionView::Fetch {
                    remote: id.remote_name,
                    refspecs: answers.refspecs->Value_0,
                }),
        ) == 1,
        !(answers.remote is Value && answers.refspecs is Value) ==> sync_count(
            id,
            answers,
            SyncLogView::empty(),
            sync_budget(),
            |a| a is Fetch,
        ) == 0,
        sync_outcome(answers) == fetch_outcome(answers),
{
    reveal_with_fuel(sync_count, 13);
}

} // verus!
