use vstd::prelude::*;

verus! {

/// An architecture and operating system pair.
pub struct Platform {
    pub architecture: String,
    pub os: String,
}

/// One entry of a multi-platform index.
pub struct IndexEntry {
    pub architecture: String,
    pub os: String,
    pub digest: String,
}

/// The top-level content that an image reference points at.
pub enum ImageContent {
    /// A single-platform manifest: its content is used as it is.
    Manifest,
    /// A platform index, with its entries in document order.
    Index(Vec<IndexEntry>),
}

/// What to do after the top-level content has been read.
pub enum ManifestStep {
    /// The content already is the manifest.
    UseContent,
    /// Fetch the manifest with this digest.
    Fetch(String),
}

#[derive(PartialEq, Eq, Structural, Debug, Clone, Copy)]
pub enum ManifestError {
    /// No index entry names the target platform.
    NoMatchingPlatform,
}

pub open spec fn entry_matches(e: IndexEntry, target: Platform) -> bool {
    e.architecture@ == target.architecture@ && e.os@ == target.os@
}

/// The position of the first entry for the target platform.
pub open spec fn first_match(entries: Seq<IndexEntry>, target: Platform) -> Option<int> {
    if exists|i: int| 0 <= i < entries.len() && entry_matches(entries[i], target) {
        Some(
            choose|i: int|
                0 <= i < entries.len() && entry_matches(entries[i], target) && forall|j: int|
                    0 <= j < i ==> !entry_matches(entries[j], target),
        )
    } else {
        None
    }
}

impl Platform {
    /// The platform that policies are generated for: linux on amd64.
    pub fn default_target() -> (r: Platform)
        ensures
            r.architecture@ == "amd64"@,
            r.os@ == "linux"@,
    {
        Platform { architecture: "amd64".to_owned(), os: "linux".to_owned() }
    }
}

/// The digest of the first index entry for the target platform; later matches
/// are ignored.
pub fn select_platform_manifest(entries: &Vec<IndexEntry>, target: &Platform) -> (r: Result<String, ManifestError>)
    ensures
        match first_match(entries@, *target) {
            Some(i) => r is Ok && r->Ok_0@ == entries@[i].digest@,
            None => r == Err::<String, ManifestError>(ManifestError::NoMatchingPlatform),
        },
{
    let mut i: usize = 0;
    while i < entries.len()
        invariant
            i <= entries.len(),
            forall|j: int| 0 <= j < i ==> !entry_matches(entries@[j], *target),
        decreases entries.len() - i,
    {
        if entries[i].architecture == target.architecture && entries[i].os == target.os {
            let ghost k = first_match(entries@, *target)->Some_0;
            assert(entry_matches(entries@[i as int], *target));
            assert(k == i as int) by {
                if k < i {
                } else if k > i {
                }
            }
            return Ok(entries[i].digest.clone());
        }
        i = i + 1;
    }
    Err(ManifestError::NoMatchingPlatform)
}

/// Whether the top-level content is the manifest itself, or which manifest of
/// an index to fetch.
pub fn manifest_step(content: &ImageContent, target: &Platform) -> (r: Result<ManifestStep, ManifestError>)
    ensures
        match content {
            ImageContent::Manifest => r == Ok::<ManifestStep, ManifestError>(ManifestStep::UseContent),
            ImageContent::Index(entries) => match first_match(entries@, *target) {
                Some(i) => r is Ok && r->Ok_0 is Fetch && r->Ok_0->Fetch_0@ == entries@[i].digest@,
                None => r == Err::<ManifestStep, ManifestError>(ManifestError::NoMatchingPlatform),
            },
        },
{
    match content {
        ImageContent::Manifest => Ok(ManifestStep::UseContent),
        ImageContent::Index(entries) => match select_platform_manifest(entries, target) {
            Ok(d) => Ok(ManifestStep::Fetch(d)),
            Err(e) => Err(e),
        },
    }
}

/// When exactly one index entry names the target platform, resolution picks
/// that entry.
pub proof fn lemma_single_match_selected(entries: Seq<IndexEntry>, target: Platform, k: int)
    requires
        0 <= k < entries.len(),
        entry_matches(entries[k], target),
        forall|j: int| 0 <= j < entries.len() && j != k ==> !entry_matches(entries[j], target),
    ensures
        first_match(entries, target) == Some(k),
{
    let i = first_match(entries, target)->Some_0;
    assert(i == k) by {
        if i < k {
        } else if i > k {
        }
    }
}

/// When no index entry names the target platform, resolution fails.
pub proof fn lemma_no_match_fails(entries: Seq<IndexEntry>, target: Platform)
    requires
        forall|j: int| 0 <= j < entries.len() ==> !entry_matches(entries[j], target),
    ensures
        first_match(entries, target) is None,
{
}

} // verus!
