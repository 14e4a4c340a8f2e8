//! The freshness probe of a cached repository, as a plan: given what the
//! backend has answered so far, what to ask next, or the verdict.

use vstd::prelude::*;
use crate::backend::CommitId;
use crate::backend::Divergence;
use crate::backend::EntryState;
use crate::backend::entry_state;
use crate::backend::LocationStat;
use crate::backend::Reply;
use crate::backend::ReplyView;
use crate::error::Error;
use crate::error::ErrorView;
use crate::repo::Identity;
use crate::repo::RepoCache;

verus! {

/// The answers gathered during one probe. A field is `None` until its
/// request has been made.
#[derive(Debug)]
pub struct ProbeLog {
    /// What stands at the location.
    pub stat: Option<LocationStat>,
    /// Whether the location opened as a repository.
    pub opened: Option<Reply<()>>,
    /// The tip of the local branch; `None` inside where the branch has no
    /// target.
    pub local_tip: Option<Reply<Option<CommitId>>>,
    /// The tip of the branch's upstream.
    pub upstream_tip: Option<Reply<Option<CommitId>>>,
    /// How far the two tips are apart.
    pub divergence: Option<Reply<Divergence>>,
}

/// Mathematical value of a [`ProbeLog`].
pub struct ProbeLogView {
    pub stat: Option<LocationStat>,
    pub opened: Option<ReplyView<()>>,
    pub local_tip: Option<ReplyView<Option<Seq<u8>>>>,
    pub upstream_tip: Option<ReplyView<Option<Seq<u8>>>>,
    pub divergence: Option<ReplyView<Divergence>>,
}

impl DeepView for ProbeLog {
    type V = ProbeLogView;

    open spec fn deep_view(&self) -> ProbeLogView {
        ProbeLogView {
            stat: self.stat,
            opened: self.opened.deep_view(),
            local_tip: self.local_tip.deep_view(),
            upstream_tip: self.upstream_tip.deep_view(),
            divergence: self.divergence.deep_view(),
        }
    }
}

impl ProbeLogView {
    /// The log of a probe that has asked nothing yet.
    pub open spec fn empty() -> ProbeLogView {
        ProbeLogView {
            stat: None,
            opened: None,
            local_tip: None,
            upstream_tip: None,
            divergence: None,
        }
    }
}

impl ProbeLog {
    /// The log of a probe that has asked nothing yet.
    pub fn new() -> (log: ProbeLog)
        ensures
            log.deep_view() == ProbeLogView::empty(),
    {
        ProbeLog { stat: None, opened: None, local_tip: None, upstream_tip: None, divergence: None }
    }
}

/// The next move of a probe.
#[derive(Debug)]
pub enum ProbeAction {
    /// Ask what stands at the location.
    Stat,
    /// Open the location as a repository.
    Open,
    /// Resolve the tip of the local branch of this name.
    ResolveLocalTip { branch: String },
    /// Resolve the tip of the upstream that the local branch of this name
    /// tracks.
    ResolveUpstreamTip { branch: String },
    /// Count the commits by which the two tips are apart.
    Compare { local: CommitId, upstream: CommitId },
    /// The probe is over, with this verdict.
    Finish(Result<bool, Error>),
}

/// Mathematical value of a [`ProbeAction`].
pub enum ProbeActionView {
    Stat,
    Open,
    ResolveLocalTip { branch: Seq<char> },
    ResolveUpstreamTip { branch: Seq<char> },
    Compare { local: Seq<u8>, upstream: Seq<u8> },
    Finish(Result<bool, ErrorView>),
}

impl DeepView for ProbeAction {
    type V = ProbeActionView;

    open spec fn deep_view(&self) -> ProbeActionView {
        match self {
            ProbeAction::Stat => ProbeActionView::Stat,
            ProbeAction::Open => ProbeActionView::Open,
            ProbeAction::ResolveLocalTip { branch } => ProbeActionView::ResolveLocalTip {
                branch: branch@,
            },
            ProbeAction::ResolveUpstreamTip { branch } => ProbeActionView::ResolveUpstreamTip {
                branch: branch@,
            },
            ProbeAction::Compare { local, upstream } => ProbeActionView::Compare {
                local: local@,
                upstream: upstream@,
            },
            ProbeAction::Finish(Ok(fresh)) => ProbeActionView::Finish(Ok(*fresh)),
            ProbeAction::Finish(Err(e)) => ProbeActionView::Finish(Err(e@)),
        }
    }
}

/// The failure of a probe whose local branch has no tip.
pub open spec fn no_local_tip() -> ErrorView {
    ErrorView::backend("No local OID found"@)
}

/// The failure of a probe whose upstream branch has no tip.
pub open spec fn no_upstream_tip() -> ErrorView {
    ErrorView::backend("No remote OID found"@)
}

/// The next move of a probe of `id` that has gathered `log`.
///
/// A location that is no directory, or that holds no repository, is not
/// fresh and no failure. A branch without a tip is a failure. Every other
/// failure is passed on as it came.
pub open spec fn probe_plan(id: Identity, log: ProbeLogView) -> ProbeActionView {
    match log.stat {
        None => ProbeActionView::Stat,
        Some(stat) => if !stat.present() {
            ProbeActionView::Finish(Ok(false))
        } else {
            match log.opened {
                None => ProbeActionView::Open,
                Some(ReplyView::Failed(e)) => if e.not_found() {
                    ProbeActionView::Finish(Ok(false))
                } else {
                    ProbeActionView::Finish(Err(e))
                },
                Some(ReplyView::Value(_)) => probe_plan_tips(id, log),
            }
        },
    }
}

/// The next move of a probe once the repository is open.
pub open spec fn probe_plan_tips(id: Identity, log: ProbeLogView) -> ProbeActionView {
    match log.local_tip {
        None => ProbeActionView::ResolveLocalTip { branch: id.branch_name },
        Some(ReplyView::Failed(e)) => ProbeActionView::Finish(Err(e)),
        Some(ReplyView::Value(None)) => ProbeActionView::Finish(Err(no_local_tip())),
        Some(ReplyView::Value(Some(local))) => match log.upstream_tip {
            None => ProbeActionView::ResolveUpstreamTip { branch: id.branch_name },
            Some(ReplyView::Failed(e)) => ProbeActionView::Finish(Err(e)),
            Some(ReplyView::Value(None)) => ProbeActionView::Finish(Err(no_upstream_tip())),
            Some(ReplyView::Value(Some(upstream))) => match log.divergence {
                None => ProbeActionView::Compare { local, upstream },
                Some(ReplyView::Failed(e)) => ProbeActionView::Finish(Err(e)),
                Some(ReplyView::Value(d)) => ProbeActionView::Finish(Ok(d.fresh())),
            },
        },
    }
}

impl RepoCache {
    /// The next move of a freshness probe that has gathered `log`: the
    /// request to make and record in the log, or the verdict.
    pub fn probe_next(&self, log: &ProbeLog) -> (action: ProbeAction)
        ensures
            action.deep_view() == probe_plan(self@, log.deep_view()),
    {
        let stat = match &log.stat {
            None => { return ProbeAction::Stat; },
            Some(stat) => stat,
        };
        if !stat.is_present() {
            return ProbeAction::Finish(Ok(false));
        }
        match &log.opened {
            None => { return ProbeAction::Open; },
            Some(Reply::Failed(e)) => {
                if e.is_not_found() {
                    return ProbeAction::Finish(Ok(false));
                }
                return ProbeAction::Finish(Err(e.duplicate()));
            },
            Some(Reply::Value(_)) => {},
        }
        let local = match &log.local_tip {
            None => { return ProbeAction::ResolveLocalTip { branch: self.branch.clone() }; },
            Some(Reply::Failed(e)) => { return ProbeAction::Finish(Err(e.duplicate())); },
            Some(Reply::Value(None)) => {
                return ProbeAction::Finish(Err(Error::backend("No local OID found")));
            },
            Some(Reply::Value(Some(local))) => local,
        };
        let upstream = match &log.upstream_tip {
            None => { return ProbeAction::ResolveUpstreamTip { branch: self.branch.clone() }; },
            Some(Reply::Failed(e)) => { return ProbeAction::Finish(Err(e.duplicate())); },
            Some(Reply::Value(None)) => {
                return ProbeAction::Finish(Err(Error::backend("No remote OID found")));
            },
            Some(Reply::Value(Some(upstream))) => upstream,
        };
        match &log.divergence {
            None => ProbeAction::Compare {
                local: local.duplicate(),
                upstream: upstream.duplicate(),
            },
            Some(Reply::Failed(e)) => ProbeAction::Finish(Err(e.duplicate())),
            Some(Reply::Value(d)) => ProbeAction::Finish(Ok(d.is_fresh())),
        }
    }
}

/// What the backend answers to each request of one probe, were it asked.
pub struct ProbeAnswers {
    pub stat: LocationStat,
    pub opened: ReplyView<()>,
    pub local_tip: ReplyView<Option<Seq<u8>>>,
    pub upstream_tip: ReplyView<Option<Seq<u8>>>,
    pub divergence: ReplyView<Divergence>,
}

/// The verdict of a probe against a backend that answers `answers`.
///
/// Not fresh, without failure, where the location is no directory or holds
/// no repository. Otherwise both tips must resolve, and the entry is fresh
/// exactly if they are no commit apart.
pub open spec fn probe_verdict(answers: ProbeAnswers) -> Result<bool, ErrorView> {
    if !answers.stat.present() {
        Ok(false)
    } else {
        match answers.opened {
            ReplyView::Failed(e) => if e.not_found() {
                Ok(false)
            } else {
                Err(e)
            },
            ReplyView::Value(_) => match answers.local_tip {
                ReplyView::Failed(e) => Err(e),
                ReplyView::Value(None) => Err(no_local_tip()),
                ReplyView::Value(Some(_)) => match answers.upstream_tip {
                    ReplyView::Failed(e) => Err(e),
                    ReplyView::Value(None) => Err(no_upstream_tip()),
                    ReplyView::Value(Some(_)) => match answers.divergence {
                        ReplyView::Failed(e) => Err(e),
                        ReplyView::Value(d) => Ok(d.ahead == 0 && d.behind == 0),
                    },
                },
            },
        }
    }
}

/// The log after the request `action` was made and answered from `answers`.
pub open spec fn probe_record(
    log: ProbeLogView,
    action: ProbeActionView,
    answers: ProbeAnswers,
) -> ProbeLogView {
    match action {
        ProbeActionView::Stat => ProbeLogView { stat: Some(answers.stat), ..log },
        ProbeActionView::Open => ProbeLogView { opened: Some(answers.opened), ..log },
        ProbeActionView::ResolveLocalTip { .. } => ProbeLogView {
            local_tip: Some(answers.local_tip),
            ..log
        },
        ProbeActionView::ResolveUpstreamTip { .. } => ProbeLogView {
            upstream_tip: Some(answers.upstream_tip),
            ..log
        },
        ProbeActionView::Compare { .. } => ProbeLogView {
            divergence: Some(answers.divergence),
            ..log
        },
        ProbeActionView::Finish(_) => log,
    }
}

/// The verdict reached by following the plan from `log` for at most `fuel`
/// requests, each answered from `answers`; `None` if the plan asks for more.
pub open spec fn probe_run(
    id: Identity,
    answers: ProbeAnswers,
    log: ProbeLogView,
    fuel: nat,
) -> Option<Result<bool, ErrorView>>
    decreases fuel,
{
    match probe_plan(id, log) {
        ProbeActionView::Finish(verdict) => Some(verdict),
        action => if fuel == 0 {
            None
        } else {
            probe_run(id, answers, probe_record(log, action, answers), (fuel - 1) as nat)
        },
    }
}

/// The most requests a probe makes.
pub open spec fn probe_budget() -> nat {
    5
}

/// Following the plan from an empty log ends within five requests, whatever
/// the backend answers, and in the verdict that those answers call for.
pub proof fn lemma_probe_reaches_verdict(id: Identity, answers: ProbeAnswers)
    ensures
        probe_run(id, answers, ProbeLogView::empty(), probe_budget()) == Some(
            probe_verdict(answers),
        ),
{
    reveal_with_fuel(probe_run, 6);
}

/// Freshness is exactly the absence of divergence: where the probe gets as
/// far as comparing the tips, its verdict is fresh if and only if the local
/// tip is neither ahead nor behind.
pub proof fn lemma_fresh_iff_not_diverged(answers: ProbeAnswers, divergence: Divergence)
    requires
        answers.stat.present(),
        answers.opened is Value,
        answers.local_tip matches ReplyView::Value(Some(_)),
        answers.upstream_tip matches ReplyView::Value(Some(_)),
        answers.divergence == ReplyView::Value(divergence),
    ensures
        probe_verdict(answers) == Ok::<bool, ErrorView>(
            divergence.ahead == 0 && divergence.behind == 0,
        ),
        probe_verdict(answers) == Ok::<bool, ErrorView>(true) <==> (divergence.ahead == 0
            && divergence.behind == 0),
{
}

/// An absent entry is not fresh, and that is no failure: where no directory
/// stands at the location, or one that holds no repository, the probe
/// answers `Ok(false)` after at most two requests.
pub proof fn lemma_absent_is_not_fresh(id: Identity, answers: ProbeAnswers)
    requires
        entry_state(answers.stat, answers.opened) == Some(EntryState::Absent) || entry_state(
            answers.stat,
            answers.opened,
        ) == Some(EntryState::Uninitialized),
    ensures
        probe_verdict(answers) == Ok::<bool, ErrorView>(false),
        probe_run(id, answers, ProbeLogView::empty(), 2) == Some(Ok::<bool, ErrorView>(false)),
{
    reveal_with_fuel(probe_run, 3);
}

} // verus!
