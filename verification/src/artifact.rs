//! Task artifacts and the keyed last-write-wins upsert over them.
//!
//! Artifacts are outputs attached to a task. Each is keyed by its
//! artifact identifier; within a task's artifact list every key occurs at
//! most once. Applying an artifact whose key is already present replaces
//! the existing entry in place (preserving its position); a new key is
//! appended. An artifact whose shape violates the schema — here, an empty
//! identifier, which could not act as a key — is rejected.

use crate::part::{MetaEntryView, Metadata, Part, PartView};
use vstd::prelude::*;

verus! {

/// One task artifact: key, optional display name, content parts,
/// optional metadata.
#[derive(Debug, PartialEq, Eq)]
pub struct Artifact {
    pub artifact_id: String,
    pub name: Option<String>,
    pub parts: Vec<Part>,
    pub metadata: Option<Metadata>,
}

/// Ghost mirror of [`Artifact`].
#[verifier::ext_equal]
pub ghost struct ArtifactView {
    pub artifact_id: Seq<char>,
    pub name: Option<Seq<char>>,
    pub parts: Seq<PartView>,
    pub metadata: Option<Seq<MetaEntryView>>,
}

impl DeepView for Artifact {
    type V = ArtifactView;

    open spec fn deep_view(&self) -> ArtifactView {
        ArtifactView {
            artifact_id: self.artifact_id.deep_view(),
            name: self.name.deep_view(),
            parts: self.parts.deep_view(),
            metadata: self.metadata.deep_view(),
        }
    }
}

impl Clone for Artifact {
    fn clone(&self) -> (r: Self)
        ensures
            r.deep_view() == self.deep_view(),
    {
        let parts = self.parts.clone();
        let metadata = match &self.metadata {
            Some(m) => {
                let c = m.clone();
                proof {
                    assert(c.deep_view() =~= m.deep_view());
                }
                Some(c)
            },
            None => None,
        };
        proof {
            assert(parts.deep_view() =~= self.parts.deep_view());
        }
        Artifact {
            artifact_id: self.artifact_id.clone(),
            name: self.name.clone(),
            parts,
            metadata,
        }
    }
}

impl ArtifactView {
    /// An artifact is well-formed when its key is non-empty; an empty
    /// key could not identify it among a task's artifacts.
    pub open spec fn wf(self) -> bool {
        self.artifact_id.len() > 0
    }
}

/// All artifact keys in `arts` are distinct: the list acts as a map
/// keyed by artifact identifier.
pub open spec fn unique_artifact_keys(arts: Seq<ArtifactView>) -> bool {
    forall|i: int, j: int|
        0 <= i < j < arts.len() ==> arts[i].artifact_id != arts[j].artifact_id
}

/// Index of the first artifact in `arts` with key `key`, or -1 if the
/// key is absent.
pub open spec fn artifact_index(arts: Seq<ArtifactView>, key: Seq<char>) -> int
    decreases arts.len(),
{
    if arts.len() == 0 {
        -1
    } else if arts[0].artifact_id == key {
        0
    } else {
        let rest = artifact_index(arts.skip(1), key);
        if rest == -1 {
            -1
        } else {
            rest + 1
        }
    }
}

/// The keyed upsert: replace the first artifact with the same key in
/// place, or append when the key is new.
pub open spec fn upsert_artifact_seq(arts: Seq<ArtifactView>, a: ArtifactView) -> Seq<
    ArtifactView,
> {
    let i = artifact_index(arts, a.artifact_id);
    if i == -1 {
        arts.push(a)
    } else {
        arts.update(i, a)
    }
}

/// `artifact_index` returns either -1 with the key absent, or the first
/// index holding the key.
pub proof fn lemma_artifact_index_spec(arts: Seq<ArtifactView>, key: Seq<char>)
    ensures
        artifact_index(arts, key) == -1 ==> forall|i: int|
            0 <= i < arts.len() ==> arts[i].artifact_id != key,
        artifact_index(arts, key) != -1 ==> {
            let i = artifact_index(arts, key);
            &&& 0 <= i < arts.len()
            &&& arts[i].artifact_id == key
            &&& forall|j: int| 0 <= j < i ==> arts[j].artifact_id != key
        },
    decreases arts.len(),
{
    if arts.len() > 0 && arts[0].artifact_id != key {
        lemma_artifact_index_spec(arts.skip(1), key);
        assert forall|i: int| 0 <= i < arts.len() && i >= 1 implies arts[i].artifact_id
            == arts.skip(1)[i - 1].artifact_id by {}
    }
}

/// Upserting preserves uniqueness of artifact keys.
pub proof fn lemma_upsert_preserves_unique(arts: Seq<ArtifactView>, a: ArtifactView)
    requires
        unique_artifact_keys(arts),
    ensures
        unique_artifact_keys(upsert_artifact_seq(arts, a)),
{
    lemma_artifact_index_spec(arts, a.artifact_id);
}

/// Artifact upsert is last-write-wins per key: upserting `a1` and then
/// `a2` with the same key is the same as upserting `a2` alone, so
/// exactly one artifact with that key remains and it carries the
/// payload of the last call.
pub proof fn lemma_upsert_idempotent(arts: Seq<ArtifactView>, a1: ArtifactView, a2: ArtifactView)
    requires
        unique_artifact_keys(arts),
        a1.artifact_id == a2.artifact_id,
    ensures
        upsert_artifact_seq(upsert_artifact_seq(arts, a1), a2) == upsert_artifact_seq(arts, a2),
        ({
            let after = upsert_artifact_seq(upsert_artifact_seq(arts, a1), a2);
            let i = if artifact_index(arts, a2.artifact_id) == -1 {
                arts.len() as int
            } else {
                artifact_index(arts, a2.artifact_id)
            };
            &&& 0 <= i < after.len()
            &&& after[i] == a2
            &&& forall|j: int|
                0 <= j < after.len() && j != i ==> after[j].artifact_id != a2.artifact_id
        }),
{
    let key = a1.artifact_id;
    let i0 = artifact_index(arts, key);
    lemma_artifact_index_spec(arts, key);
    let mid = upsert_artifact_seq(arts, a1);
    lemma_artifact_index_spec(mid, key);
    if i0 == -1 {
        // a1 is appended at the end; a2 then replaces it there.
        assert(mid == arts.push(a1));
        lemma_index_after_push_absent(arts, a1, key);
        assert(artifact_index(mid, key) == arts.len());
        assert(upsert_artifact_seq(mid, a2) =~= arts.push(a2));
        let after = upsert_artifact_seq(mid, a2);
        assert(after[arts.len() as int] == a2);
        assert(forall|j: int|
            0 <= j < after.len() && j != arts.len() ==> after[j].artifact_id != key);
    } else {
        assert(mid == arts.update(i0, a1));
        lemma_index_after_update_same(arts, a1, i0, key);
        assert(artifact_index(mid, key) == i0);
        assert(upsert_artifact_seq(mid, a2) =~= arts.update(i0, a2));
        let after = upsert_artifact_seq(mid, a2);
        assert(after[i0] == a2);
        assert(forall|j: int| 0 <= j < after.len() && j != i0 ==> after[j].artifact_id != key);
    }
}

/// After pushing an artifact whose key is absent, that key's first index
/// is the pushed position.
proof fn lemma_index_after_push_absent(arts: Seq<ArtifactView>, a: ArtifactView, key: Seq<char>)
    requires
        artifact_index(arts, key) == -1,
        a.artifact_id == key,
    ensures
        artifact_index(arts.push(a), key) == arts.len(),
    decreases arts.len(),
{
    lemma_artifact_index_spec(arts, key);
    if arts.len() == 0 {
        assert(arts.push(a)[0] == a);
        assert(artifact_index(arts.push(a), key) == 0);
    } else {
        assert(arts.push(a).skip(1) =~= arts.skip(1).push(a));
        lemma_artifact_index_spec(arts.skip(1), key);
        lemma_index_after_push_absent(arts.skip(1), a, key);
    }
}

/// After replacing position `i` (the first index of `key`) with another
/// artifact of the same key, the first index of `key` is still `i`.
proof fn lemma_index_after_update_same(
    arts: Seq<ArtifactView>,
    a: ArtifactView,
    i: int,
    key: Seq<char>,
)
    requires
        artifact_index(arts, key) == i,
        0 <= i < arts.len(),
        a.artifact_id == key,
    ensures
        artifact_index(arts.update(i, a), key) == i,
    decreases arts.len(),
{
    lemma_artifact_index_spec(arts, key);
    if i == 0 {
        assert(arts.update(0, a)[0] == a);
    } else {
        assert(arts[0].artifact_id != key);
        assert(arts.update(i, a)[0] == arts[0]);
        assert(arts.update(i, a).skip(1) =~= arts.skip(1).update(i - 1, a));
        lemma_artifact_index_spec(arts.skip(1), key);
        assert forall|j: int| 0 <= j < arts.skip(1).len() implies arts.skip(1)[j]
            == arts[j + 1] by {}
        assert(artifact_index(arts.skip(1), key) == i - 1) by {
            lemma_artifact_index_spec(arts.skip(1), key);
            if artifact_index(arts.skip(1), key) == -1 {
                assert(arts.skip(1)[i - 1].artifact_id == key);
            }
        }
        lemma_index_after_update_same(arts.skip(1), a, i - 1, key);
    }
}

} // verus!
