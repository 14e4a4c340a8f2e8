//! Plain values exchanged with the version-control backend: what is asked of
//! it is an action, what it answers is a reply.

use vstd::prelude::*;
use crate::error::Error;
use crate::error::ErrorView;

verus! {

/// What the filesystem says of a location.
#[derive(Clone, Copy, Debug, PartialEq, Eq, Structural)]
pub struct LocationStat {
    pub exists: bool,
    pub is_dir: bool,
}

impl LocationStat {
    /// Whether a directory stands at the location.
    pub open spec fn present(self) -> bool {
        self.exists && self.is_dir
    }

    /// Whether a directory stands at the location.
    pub fn is_present(&self) -> (b: bool)
        ensures
            b == self.present(),
    {
        self.exists && self.is_dir
    }
}

impl DeepView for LocationStat {
    type V = LocationStat;

    open spec fn deep_view(&self) -> LocationStat {
        *self
    }
}

/// The identifier of a commit, as the backend's raw bytes.
#[derive(Debug)]
pub struct CommitId {
    pub bytes: Vec<u8>,
}

impl View for CommitId {
    type V = Seq<u8>;

    open spec fn view(&self) -> Seq<u8> {
        self.bytes@
    }
}

impl DeepView for CommitId {
    type V = Seq<u8>;

    open spec fn deep_view(&self) -> Seq<u8> {
        self.bytes@
    }
}

impl CommitId {
    /// A copy holding the same bytes.
    pub fn duplicate(&self) -> (id: CommitId)
        ensures
            id@ == self@,
    {
        let bytes = self.bytes.clone();
        assert(bytes@ =~= self.bytes@);
        CommitId { bytes }
    }
}

/// How far two tips are apart: the commits reachable from the local tip but
/// not from the upstream tip, and the reverse.
#[derive(Clone, Copy, Debug, PartialEq, Eq, Structural)]
pub struct Divergence {
    pub ahead: usize,
    pub behind: usize,
}

impl Divergence {
    /// Fresh means that neither side has a commit the other lacks.
    pub open spec fn fresh(self) -> bool {
        self.ahead == 0 && self.behind == 0
    }

    /// Whether the two tips are the same point of history. Any difference,
    /// ahead or behind, makes the entry not fresh.
    pub fn is_fresh(&self) -> (b: bool)
        ensures
            b == self.fresh(),
            b <==> (self.ahead == 0 && self.behind == 0),
    {
        self.ahead == 0 && self.behind == 0
    }
}

impl DeepView for Divergence {
    type V = Divergence;

    open spec fn deep_view(&self) -> Divergence {
        *self
    }
}

/// The backend's analysis of what merging the fetched commit would take.
#[derive(Clone, Copy, Debug, PartialEq, Eq, Structural)]
pub struct MergeAnalysis {
    /// The branch can be moved forward to the fetched commit.
    pub fast_forward: bool,
    /// The fetched commit is already part of the branch.
    pub up_to_date: bool,
    /// The histories diverged: a merge would be needed.
    pub normal: bool,
    /// The branch has no commit yet.
    pub unborn: bool,
}

impl DeepView for MergeAnalysis {
    type V = MergeAnalysis;

    open spec fn deep_view(&self) -> MergeAnalysis {
        *self
    }
}

/// What came back from one request: a value, or the failure.
#[derive(Debug)]
pub enum Reply<T> {
    Value(T),
    Failed(Error),
}

/// Mathematical value of a [`Reply`].
pub enum ReplyView<V> {
    Value(V),
    Failed(ErrorView),
}

impl<T: DeepView> DeepView for Reply<T> {
    type V = ReplyView<T::V>;

    open spec fn deep_view(&self) -> ReplyView<T::V> {
        match self {
            Reply::Value(v) => ReplyView::Value(v.deep_view()),
            Reply::Failed(e) => ReplyView::Failed(e@),
        }
    }
}

/// The state of a cache entry on disk.
#[derive(Clone, Copy, Debug, PartialEq, Eq, Structural)]
pub enum EntryState {
    /// No directory stands at the location.
    Absent,
    /// A directory stands there, and it holds no repository.
    Uninitialized,
    /// A repository stands there.
    Present,
}

/// The state of the entry of which the filesystem says `stat` and the
/// attempt to open it gave `opened`; `None` where the attempt failed for
/// another reason than that no repository is there.
pub open spec fn entry_state(stat: LocationStat, opened: ReplyView<()>) -> Option<EntryState> {
    if !stat.present() {
        Some(EntryState::Absent)
    } else {
        match opened {
            ReplyView::Value(_) => Some(EntryState::Present),
            ReplyView::Failed(e) => if e.not_found() {
                Some(EntryState::Uninitialized)
            } else {
                None
            },
        }
    }
}

} // verus!
