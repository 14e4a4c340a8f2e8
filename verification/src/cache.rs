//! The refresh contract and the cache manager built on it.

use vstd::prelude::*;
use crate::error::Error;
use crate::error::ErrorView;
use crate::key::Keyed;
use crate::key::cache_location;
use crate::key::compute_cache_key;
use crate::key::join_location;
use crate::key::key_name;

verus! {

/// The mathematical value of a probe or refresh outcome.
pub open spec fn view_outcome(outcome: Result<bool, Error>) -> Result<bool, ErrorView> {
    match outcome {
        Ok(b) => Ok(b),
        Err(e) => Err(e@),
    }
}

/// What a conditional refresh does once the probe has answered.
#[derive(Debug)]
pub enum Decision {
    /// The entry is fresh: nothing is done and "no refresh performed" is
    /// reported.
    Skip,
    /// The entry is stale or absent: it is refreshed.
    Refresh,
    /// The probe failed: its error is passed on and nothing is done.
    Fail(Error),
}

/// Mathematical value of a [`Decision`].
pub enum DecisionView {
    Skip,
    Refresh,
    Fail(ErrorView),
}

impl View for Decision {
    type V = DecisionView;

    open spec fn view(&self) -> DecisionView {
        match self {
            Decision::Skip => DecisionView::Skip,
            Decision::Refresh => DecisionView::Refresh,
            Decision::Fail(e) => DecisionView::Fail(e@),
        }
    }
}

/// The decision that follows from a probe's answer.
pub open spec fn decision_after(probe: Result<bool, ErrorView>) -> DecisionView {
    match probe {
        Ok(true) => DecisionView::Skip,
        Ok(false) => DecisionView::Refresh,
        Err(e) => DecisionView::Fail(e),
    }
}

/// Decides, from the probe's answer, whether a conditional refresh goes on.
pub fn decide(probe: Result<bool, Error>) -> (decision: Decision)
    ensures
        decision@ == decision_after(view_outcome(probe)),
{
    match probe {
        Ok(true) => Decision::Skip,
        Ok(false) => Decision::Refresh,
        Err(e) => Decision::Fail(e),
    }
}

/// What every cacheable resource can do at a storage location.
///
/// A resource never stores a location; it is handed one with every call.
/// What a probe or a refresh may answer is the implementor's to say, through
/// the two relations below; the conditional refresh is defined from them. An
/// implementor that says nothing admits every answer.
pub trait Refresh: Sized {
    /// Whether `outcome` is an answer the freshness probe may give at
    /// `location`.
    open spec fn probe_admits(
        &self,
        location: Seq<char>,
        outcome: Result<bool, ErrorView>,
    ) -> bool {
        true
    }

    /// Whether a refresh at `location` may turn `self` into `after` and
    /// answer `outcome`.
    open spec fn refresh_admits(
        &self,
        location: Seq<char>,
        after: &Self,
        outcome: Result<bool, ErrorView>,
    ) -> bool {
        true
    }

    /// Probes whether the entry at `location` is up to date. An absent entry
    /// is not fresh; that is no failure.
    fn is_fresh(&self, location: &str) -> (outcome: Result<bool, Error>)
        ensures
            self.probe_admits(location@, view_outcome(outcome)),
    ;

    /// Synchronises the entry at `location` without probing first, and says
    /// whether anything changed.
    fn refresh(&mut self, location: &str) -> (outcome: Result<bool, Error>)
        ensures
            old(self).refresh_admits(location@, final(self), view_outcome(outcome)),
    ;

    /// Refreshes the entry at `location` only if the probe finds it not
    /// fresh. A fresh entry is left alone and `Ok(false)` is returned; a
    /// failed probe is passed on and nothing is refreshed.
    fn try_refresh(&mut self, location: &str) -> (outcome: Result<bool, Error>)
        ensures
            ({
                let answer = view_outcome(outcome);
                ||| old(self).probe_admits(location@, Ok(true)) && *final(self) == *old(self)
                    && answer == Ok::<bool, ErrorView>(false)
                ||| answer is Err && old(self).probe_admits(location@, answer) && *final(self)
                    == *old(self)
                ||| old(self).probe_admits(location@, Ok(false)) && old(self).refresh_admits(
                    location@,
                    final(self),
                    answer,
                )
            }),
    {
        let probe = self.is_fresh(location);
        match decide(probe) {
            Decision::Skip => Ok(false),
            Decision::Fail(e) => Err(e),
            Decision::Refresh => self.refresh(location),
        }
    }
}

/// Whether a conditional refresh at `location` may turn `before` into `after`
/// and answer `outcome`: the probe answered, and then either the entry was
/// fresh and nothing happened, or the probe failed and nothing happened, or
/// the entry was not fresh and one refresh gave the outcome.
pub open spec fn try_refresh_admits<T: Refresh>(
    before: &T,
    location: Seq<char>,
    after: &T,
    outcome: Result<bool, ErrorView>,
) -> bool {
    ||| before.probe_admits(location, Ok(true)) && *after == *before && outcome == Ok::<
        bool,
        ErrorView,
    >(false)
    ||| outcome is Err && before.probe_admits(location, outcome) && *after == *before
    ||| before.probe_admits(location, Ok(false)) && before.refresh_admits(
        location,
        after,
        outcome,
    )
}

/// A cache manager: a resource bound to the location of its entry under a
/// cache root.
pub struct CacheManager<T: Refresh> {
    location: String,
    inner: T,
}

impl<T: Refresh + Keyed> CacheManager<T> {
    /// Where the entry is kept.
    pub closed spec fn entry(&self) -> Seq<char> {
        self.location@
    }

    /// The resource that is kept there.
    pub closed spec fn resource(&self) -> T {
        self.inner
    }

    /// Binds `inner` to its entry under `root`: the directory named by the
    /// decimal cache key of the resource's identity. Nothing is read or
    /// created.
    pub fn new(root: String, inner: T) -> (manager: Self)
        ensures
            manager.entry() == cache_location(root@, inner.identity()),
            manager.resource() == inner,
    {
        let identity = inner.identity_bytes();
        let key = compute_cache_key(identity.as_slice());
        let name = key_name(key);
        let location = join_location(root.as_str(), name.as_str());
        CacheManager { location, inner }
    }

    /// The location of the entry.
    pub fn location(&self) -> (location: &str)
        ensures
            location@ == self.entry(),
    {
        self.location.as_str()
    }

    /// Checks if the cache is fresh, by the resource's probe at the entry's
    /// location.
    pub fn is_fresh(&self) -> (outcome: Result<bool, Error>)
        ensures
            self.resource().probe_admits(self.entry(), view_outcome(outcome)),
    {
        self.inner.is_fresh(self.location.as_str())
    }

    /// Refreshes the entry without checking whether it is fresh.
    pub fn refresh(&mut self) -> (outcome: Result<bool, Error>)
        ensures
            final(self).entry() == old(self).entry(),
            old(self).resource().refresh_admits(
                old(self).entry(),
                &final(self).resource(),
                view_outcome(outcome),
            ),
    {
        self.inner.refresh(self.location.as_str())
    }

    /// Checks if the entry is fresh and refreshes it if not.
    pub fn try_refresh(&mut self) -> (outcome: Result<bool, Error>)
        ensures
            final(self).entry() == old(self).entry(),
            try_refresh_admits(
                &old(self).resource(),
                old(self).entry(),
                &final(self).resource(),
                view_outcome(outcome),
            ),
    {
        self.inner.try_refresh(self.location.as_str())
    }
}

/// A fresh entry is left alone: where the probe can only answer that the
/// entry is fresh, a conditional refresh reports "no refresh performed" and
/// changes nothing. So of two conditional refreshes in a row, with nothing
/// new on the remote in between, the second does no work.
pub proof fn lemma_fresh_entry_is_left_alone<T: Refresh>(
    before: &T,
    location: Seq<char>,
    after: &T,
    outcome: Result<bool, ErrorView>,
)
    requires
        try_refresh_admits(before, location, after, outcome),
        forall|answer: Result<bool, ErrorView>| #[trigger]
            before.probe_admits(location, answer) ==> answer == Ok::<bool, ErrorView>(true),
    ensures
        outcome == Ok::<bool, ErrorView>(false),
        *after == *before,
{
}

} // verus!
