//! The run configuration: which action to take and how to walk.
use vstd::prelude::*;

verus! {

/// The settings of one run, fixed before the walk starts.
pub struct MaidConfig {
    /// Print debug output.
    pub debug: bool,
    /// Read the records from the metadata store instead of walking the paths.
    pub use_mongodb: bool,
    /// Where the metadata store listens.
    pub mongodb_host: String,
    /// The pattern document; the one in the home directory where absent.
    pub config_file: Option<String>,
    /// The tag filter.
    pub tags: Option<Vec<String>>,
    /// The paths to walk.
    pub paths: Option<Vec<String>>,
    /// Treat entries whose name starts with a dot like the others.
    pub hidden: bool,
    /// Copy each entry under this directory, in a subdirectory named by its first tag.
    pub copy_to: Option<String>,
    /// Store each entry's tags.
    pub save: bool,
    /// Run this command template on each entry.
    pub exec_args: Option<Vec<String>>,
    /// Move each entry under this directory, in a subdirectory named by its first tag.
    pub move_to: Option<String>,
    /// Delete each entry.
    pub delete: bool,
}

} // verus!
