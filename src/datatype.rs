//! The records that travel between the walker, the actions and the store.
use vstd::prelude::*;
use crate::text::texts;

verus! {

/// A record of the metadata store: a path, its tags, and the time it was
/// last modified as an epoch number (0 where unknown).
pub struct FileMetaCompat {
    pub path: String,
    pub tags: Vec<String>,
    pub last_modified: u64,
}

/// A path on its way through classification and dispatch: before
/// classification `tags` is the tag filter, after it the entry's tags.
pub struct FileMeta {
    pub path: String,
    pub tags: Option<Vec<String>>,
    pub last_modified: Option<u64>,
}

impl FileMeta {
    /// The store record for this entry: no tags becomes an empty list, an
    /// unknown time becomes 0.
    pub fn into_compat(self) -> (r: FileMetaCompat)
        ensures
            r.path@ == self.path@,
            texts(r.tags@) == match self.tags {
                Some(t) => texts(t@),
                None => Seq::empty(),
            },
            r.last_modified == match self.last_modified {
                Some(t) => t,
                None => 0,
            },
    {
        let tags = match self.tags {
            Some(t) => t,
            None => Vec::new(),
        };
        proof {
            if self.tags is None {
                assert(texts(tags@) =~= Seq::empty());
            }
        }
        let last_modified = match self.last_modified {
            Some(t) => t,
            None => 0,
        };
        FileMetaCompat { path: self.path, tags, last_modified }
    }
}

} // verus!
