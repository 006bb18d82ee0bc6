//! The flag that locates `Cargo.toml`.

use vstd::prelude::*;
use crate::command::{latched_flags, listed_features, manifest_path_of, new_command, set_manifest_path, FeatureFlag};

verus! {

/// The `--manifest-path` flag.
pub struct Manifest {
    /// Path to `Cargo.toml`.
    pub manifest_path: Option<std::path::PathBuf>,
}

impl Default for Manifest {
    fn default() -> (r: Self)
        ensures
            r.manifest_path.is_none(),
    {
        Manifest { manifest_path: None }
    }
}

impl Manifest {
    /// A `cargo metadata` command that reads the manifest at the given path;
    /// without a path the command keeps its own discovery from the current
    /// directory.
    pub fn metadata(&self) -> (r: cargo_metadata::MetadataCommand)
        ensures
            manifest_path_of(r) == self.manifest_path,
            latched_flags(r) == Set::<FeatureFlag>::empty(),
            listed_features(r) == Seq::<Seq<char>>::empty(),
    {
        let mut c = new_command();
        if let Some(manifest_path) = &self.manifest_path {
            set_manifest_path(&mut c, manifest_path);
        }
        c
    }
}

} // verus!
