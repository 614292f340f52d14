//! Configuration and result types of library generation.
//!
//! The tooling that rewrites a user project into a dependable library
//! crate lives with the embedding program (it is all file-system and
//! source-rewriting work); these are the plain types at its boundary.

use vstd::prelude::*;

verus! {

/// Configuration for library generation.
#[derive(Debug, Clone)]
pub struct LibGenConfig {
    /// Add serialization derives to structs and enums.
    pub add_serde_derives: bool,
    /// Output directory (`None` means a fresh temporary directory).
    pub output_dir: Option<String>,
}

impl Default for LibGenConfig {
    /// The default configuration: derives added, temporary output.
    fn default() -> (r: Self)
        ensures
            r.add_serde_derives == true,
            r.output_dir is None,
    {
        LibGenConfig { add_serde_derives: true, output_dir: None }
    }
}

/// Result of library generation.
#[derive(Debug, Clone)]
pub struct GeneratedLib {
    /// Path to the generated library crate.
    pub path: String,
    /// Crate name, for use in dependency declarations.
    pub crate_name: String,
}

} // verus!
