//! The icon table of the fancy renderer: file extensions mapped to display
//! glyphs, with fixed glyphs for directories and unknown extensions. The
//! table itself is cosmetic configuration; the lookup rule is what matters.

use vstd::prelude::*;
use vstd::string::*;

use crate::paths::{get_file_extension, spec_extension_of};

verus! {

/// First match in the table, scanning from the front.
pub open spec fn spec_emoji_lookup(pairs: Seq<(String, String)>, ext: Seq<char>) -> Option<
    Seq<char>,
>
    decreases pairs.len(),
{
    if pairs.len() == 0 {
        None
    } else if pairs[0].0@ == ext {
        Some(pairs[0].1@)
    } else {
        spec_emoji_lookup(pairs.skip(1), ext)
    }
}

pub struct FancyRendererEmojis {
    /// Glyph shown for directories.
    pub directory: String,
    /// Glyph shown for files whose extension the table does not know.
    pub unknown: String,
    /// Extension-to-glyph pairs, searched front to back.
    pub file_extensions: Vec<(String, String)>,
}

impl FancyRendererEmojis {
    /// The glyph for one directory entry: the directory glyph for a
    /// directory, else the table's glyph for the entry's extension, else
    /// the fallback glyph.
    pub fn resolve_emoji(&self, entry_name: &str, is_dir: bool) -> (r: String)
        ensures
            is_dir ==> r@ == self.directory@,
            !is_dir ==> r@ == match spec_emoji_lookup(
                self.file_extensions@,
                spec_extension_of(entry_name@),
            ) {
                Some(glyph) => glyph,
                None => self.unknown@,
            },
    {
        if is_dir {
            return self.directory.clone();
        }
        let ext = get_file_extension(entry_name);
        let pairs = &self.file_extensions;
        let mut i: usize = 0;
        proof {
            assert(pairs@.skip(0) =~= pairs@);
        }
        while i < pairs.len()
            invariant
                !is_dir,
                ext@ == spec_extension_of(entry_name@),
                pairs == &self.file_extensions,
                i <= pairs@.len(),
                spec_emoji_lookup(pairs@, ext@) == spec_emoji_lookup(
                    pairs@.skip(i as int),
                    ext@,
                ),
            decreases pairs@.len() - i,
        {
            proof {
                assert(pairs@.skip(i as int)[0] == pairs@[i as int]);
                assert(pairs@.skip(i as int).skip(1) =~= pairs@.skip(i as int + 1));
            }
            if pairs[i].0 == ext {
                proof {
                    assert(spec_emoji_lookup(pairs@.skip(i as int), ext@) == Some(
                        pairs@[i as int].1@,
                    ));
                }
                return pairs[i].1.clone();
            }
            i = i + 1;
        }
        proof {
            assert(pairs@.skip(pairs@.len() as int) =~= Seq::<(String, String)>::empty());
        }
        self.unknown.clone()
    }
}

impl Default for FancyRendererEmojis {
    /// The stock table: images, video, archives, audio, documents and a
    /// few developer formats.
    fn default() -> (r: Self)
        ensures
            r.directory@ == "\u{1F4C2}"@,
            r.unknown@ == "\u{2753}"@,
            r.file_extensions@.map_values(|p: (String, String)| (p.0@, p.1@))
                == spec_default_emoji_pairs(),
    {
        let file_extensions: Vec<(String, String)> = vec![
            ("png".to_owned(), "\u{1F5BC}\u{FE0F}".to_owned()),
            ("jpg".to_owned(), "\u{1F5BC}\u{FE0F}".to_owned()),
            ("jpeg".to_owned(), "\u{1F5BC}\u{FE0F}".to_owned()),
            ("webp".to_owned(), "\u{1F5BC}\u{FE0F}".to_owned()),
            ("gif".to_owned(), "\u{1F5BC}\u{FE0F}".to_owned()),
            ("avif".to_owned(), "\u{1F5BC}\u{FE0F}".to_owned()),
            ("ciff".to_owned(), "\u{1F5BC}\u{FE0F}".to_owned()),
            ("mp4".to_owned(), "\u{1F4FA}".to_owned()),
            ("zip".to_owned(), "\u{1F4E6}".to_owned()),
            ("tar".to_owned(), "\u{1F4E6}".to_owned()),
            ("rar".to_owned(), "\u{1F4E6}".to_owned()),
            ("7z".to_owned(), "\u{1F4E6}".to_owned()),
            ("gz".to_owned(), "\u{1F4E6}".to_owned()),
            ("mp3".to_owned(), "\u{1F3B5}".to_owned()),
            ("wav".to_owned(), "\u{1F3B5}".to_owned()),
            ("ogg".to_owned(), "\u{1F3B5}".to_owned()),
            ("mrpack".to_owned(), "\u{1F579}\u{FE0F}".to_owned()),
            ("md".to_owned(), "\u{1F4C4}".to_owned()),
            ("txt".to_owned(), "\u{1F4C4}".to_owned()),
            ("pdf".to_owned(), "\u{1F4C4}".to_owned()),
            ("docx".to_owned(), "\u{1F4C4}".to_owned()),
            ("log".to_owned(), "\u{1F4C4}".to_owned()),
            ("json".to_owned(), "\u{1F4C4}".to_owned()),
            ("jsonc".to_owned(), "\u{1F4C4}".to_owned()),
            ("jar".to_owned(), "\u{1F375}".to_owned()),
            ("js".to_owned(), "\u{1F9E9}".to_owned()),
            ("rs".to_owned(), "\u{1F9E9}".to_owned()),
            ("css".to_owned(), "\u{1F455}".to_owned()),
            ("exe".to_owned(), "\u{1F4BE}".to_owned()),
        ];
        let r = FancyRendererEmojis {
            directory: "\u{1F4C2}".to_owned(),
            unknown: "\u{2753}".to_owned(),
            file_extensions,
        };
        proof {
            assert(r.file_extensions@.map_values(|p: (String, String)| (p.0@, p.1@))
                =~= spec_default_emoji_pairs());
        }
        r
    }
}

/// The views of the stock table's pairs, in table order.
pub open spec fn spec_default_emoji_pairs() -> Seq<(Seq<char>, Seq<char>)> {
    seq![
        ("png"@, "\u{1F5BC}\u{FE0F}"@),
        ("jpg"@, "\u{1F5BC}\u{FE0F}"@),
        ("jpeg"@, "\u{1F5BC}\u{FE0F}"@),
        ("webp"@, "\u{1F5BC}\u{FE0F}"@),
        ("gif"@, "\u{1F5BC}\u{FE0F}"@),
        ("avif"@, "\u{1F5BC}\u{FE0F}"@),
        ("ciff"@, "\u{1F5BC}\u{FE0F}"@),
        ("mp4"@, "\u{1F4FA}"@),
        ("zip"@, "\u{1F4E6}"@),
        ("tar"@, "\u{1F4E6}"@),
        ("rar"@, "\u{1F4E6}"@),
        ("7z"@, "\u{1F4E6}"@),
        ("gz"@, "\u{1F4E6}"@),
        ("mp3"@, "\u{1F3B5}"@),
        ("wav"@, "\u{1F3B5}"@),
        ("ogg"@, "\u{1F3B5}"@),
        ("mrpack"@, "\u{1F579}\u{FE0F}"@),
        ("md"@, "\u{1F4C4}"@),
        ("txt"@, "\u{1F4C4}"@),
        ("pdf"@, "\u{1F4C4}"@),
        ("docx"@, "\u{1F4C4}"@),
        ("log"@, "\u{1F4C4}"@),
        ("json"@, "\u{1F4C4}"@),
        ("jsonc"@, "\u{1F4C4}"@),
        ("jar"@, "\u{1F375}"@),
        ("js"@, "\u{1F9E9}"@),
        ("rs"@, "\u{1F9E9}"@),
        ("css"@, "\u{1F455}"@),
        ("exe"@, "\u{1F4BE}"@),
    ]
}

} // verus!
