//! Global storage settings: where uploads live and how large one may be.

use vstd::prelude::*;

verus! {

pub struct StorageConfig {
    /// Filesystem path, under the uploads root, of the namespace served at
    /// the site root.
    pub default_namespace_fs_path: String,
    pub max_file_size_bytes: usize,
    pub uploads_directory: String,
}

impl Default for StorageConfig {
    fn default() -> (r: Self)
        ensures
            r.default_namespace_fs_path@ == "ferris"@,
            r.max_file_size_bytes == 1024 * 1024 * 100,
            r.uploads_directory@ == "uploads"@,
    {
        StorageConfig {
            default_namespace_fs_path: "ferris".to_owned(),
            max_file_size_bytes: 1024 * 1024 * 100,
            uploads_directory: "uploads".to_owned(),
        }
    }
}

} // verus!
