//! The git-backed resource: a template repository named by its source URL,
//! branch and remote.

use vstd::prelude::*;
use vstd::string::StrSliceExecFns;
use crate::key::Keyed;
use crate::key::cache_location;
use crate::key::field_bytes;
use crate::key::lemma_fields_split_alike;

verus! {

/// A remote template repository to keep a local copy of.
#[derive(Debug, Clone, Hash)]
pub struct RepoCache {
    pub repo: String,
    pub branch: String,
    pub remote: String,
}

/// The identity of a cached repository: what makes two of them the same
/// cacheable unit.
pub struct Identity {
    pub source_url: Seq<char>,
    pub branch_name: Seq<char>,
    pub remote_name: Seq<char>,
}

impl View for RepoCache {
    type V = Identity;

    open spec fn view(&self) -> Identity {
        Identity {
            source_url: self.repo@,
            branch_name: self.branch@,
            remote_name: self.remote@,
        }
    }
}

/// The bytes an identity is digested from: its three fields in order, each
/// followed by a terminator that no field can contain.
pub open spec fn identity_bytes(id: Identity) -> Seq<u8> {
    field_bytes(id.source_url) + field_bytes(id.branch_name) + field_bytes(id.remote_name)
}

impl RepoCache {
    /// The repository at `repo`, followed on `branch` through `remote`.
    pub fn new(repo: &str, branch: &str, remote: &str) -> (cache: RepoCache)
        ensures
            cache@ == (Identity { source_url: repo@, branch_name: branch@, remote_name: remote@ }),
    {
        RepoCache { repo: repo.to_owned(), branch: branch.to_owned(), remote: remote.to_owned() }
    }
}

impl Keyed for RepoCache {
    open spec fn identity(&self) -> Seq<u8> {
        identity_bytes(self@)
    }

    fn identity_bytes(&self) -> (bytes: Vec<u8>) {
        let mut bytes = self.repo.as_str().as_bytes_vec();
        bytes.push(0xff);
        bytes.extend_from_slice(self.branch.as_str().as_bytes());
        bytes.push(0xff);
        bytes.extend_from_slice(self.remote.as_str().as_bytes());
        bytes.push(0xff);
        assert(bytes@ =~= identity_bytes(self@));
        bytes
    }
}

/// The location of an entry is determined by the cache root and the
/// identity alone: two repositories with the same source URL, branch and
/// remote are kept in the same place, in every run.
pub proof fn lemma_equal_identities_share_a_location(root: Seq<char>, a: RepoCache, b: RepoCache)
    requires
        a@ == b@,
    ensures
        a.identity() == b.identity(),
        cache_location(root, a.identity()) == cache_location(root, b.identity()),
{
}

/// Different identities are digested from different bytes: the encoding
/// keeps the three fields apart, so that two identities share a cache key
/// only where they are equal or the digest itself collides.
pub proof fn lemma_identity_bytes_tell_identities_apart(a: Identity, b: Identity)
    requires
        identity_bytes(a) == identity_bytes(b),
    ensures
        a == b,
{
    let tail_a = field_bytes(a.branch_name) + field_bytes(a.remote_name);
    let tail_b = field_bytes(b.branch_name) + field_bytes(b.remote_name);
    assert(identity_bytes(a) =~= field_bytes(a.source_url) + tail_a);
    assert(identity_bytes(b) =~= field_bytes(b.source_url) + tail_b);
    lemma_fields_split_alike(a.source_url, tail_a, b.source_url, tail_b);
    lemma_fields_split_alike(
        a.branch_name,
        field_bytes(a.remote_name),
        b.branch_name,
        field_bytes(b.remote_name),
    );
    assert(field_bytes(a.remote_name) =~= field_bytes(a.remote_name) + Seq::<u8>::empty());
    assert(field_bytes(b.remote_name) =~= field_bytes(b.remote_name) + Seq::<u8>::empty());
    lemma_fields_split_alike(
        a.remote_name,
        Seq::<u8>::empty(),
        b.remote_name,
        Seq::<u8>::empty(),
    );
}

} // verus!
