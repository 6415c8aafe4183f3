//! Settings of the fancy directory renderer.

use vstd::prelude::*;

use crate::fancy_rendering_emoji::{spec_default_emoji_pairs, FancyRendererEmojis};

verus! {

pub struct FancyRendererConfig {
    pub emoji: FancyRendererEmojis,
}

impl Default for FancyRendererConfig {
    fn default() -> (r: Self)
        ensures
            r.emoji.directory@ == "\u{1F4C2}"@,
            r.emoji.unknown@ == "\u{2753}"@,
            r.emoji.file_extensions@.map_values(|p: (String, String)| (p.0@, p.1@))
                == spec_default_emoji_pairs(),
    {
        FancyRendererConfig { emoji: FancyRendererEmojis::default() }
    }
}

} // verus!
