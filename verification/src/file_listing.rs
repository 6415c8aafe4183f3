//! Per-namespace listing policy: whether directory browsing is exposed,
//! and whether the fancy renderer formats it.

use vstd::prelude::*;

verus! {

#[derive(Debug, Clone, Copy, PartialEq, Eq, Structural)]
pub struct FileListingConfig {
    pub show: bool,
    pub use_fancy_renderer: bool,
}

impl Default for FileListingConfig {
    /// Listings are hidden unless a namespace opts in; once shown, the
    /// fancy renderer is preferred.
    fn default() -> (r: Self)
        ensures
            r == (FileListingConfig { show: false, use_fancy_renderer: true }),
    {
        FileListingConfig { show: false, use_fancy_renderer: true }
    }
}

} // verus!
