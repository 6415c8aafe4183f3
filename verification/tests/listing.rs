use mediaserver::fancy_rendering_emoji::FancyRendererEmojis;
use mediaserver::render::{
    directory_listing, materialize_listing, sorted_entries, DirEntryInfo, EntryMeta,
};

fn entry(name: &str, is_dir: bool, mtime: u64) -> DirEntryInfo {
    DirEntryInfo {
        name: name.to_owned(),
        meta: Some(EntryMeta {
            is_dir,
            modified_secs: Some(mtime),
            size_bytes: 0,
        }),
    }
}

#[test]
fn directories_first_then_most_recent_first() {
    let entries = vec![
        entry("dirA", true, 10),
        entry("fileB", false, 30),
        entry("dirC", true, 20),
        entry("fileD", false, 5),
    ];
    let sorted = sorted_entries(entries);
    let names: Vec<&str> = sorted.iter().map(|e| e.name.as_str()).collect();
    assert_eq!(names, ["dirC", "dirA", "fileB", "fileD"]);
}

#[test]
fn unreadable_metadata_sorts_as_file_at_the_epoch() {
    let entries = vec![
        DirEntryInfo {
            name: "broken".to_owned(),
            meta: None,
        },
        entry("file", false, 5),
        entry("dir", true, 1),
    ];
    let sorted = sorted_entries(entries);
    let names: Vec<&str> = sorted.iter().map(|e| e.name.as_str()).collect();
    assert_eq!(names, ["dir", "file", "broken"]);
}

#[test]
fn unreadable_mtime_sorts_last_in_its_group() {
    let mut entries = vec![
        entry("recent", false, 100),
        entry("old", false, 1),
    ];
    entries.push(DirEntryInfo {
        name: "timeless".to_owned(),
        meta: Some(EntryMeta {
            is_dir: false,
            modified_secs: None,
            size_bytes: 0,
        }),
    });
    let sorted = sorted_entries(entries);
    let names: Vec<&str> = sorted.iter().map(|e| e.name.as_str()).collect();
    assert_eq!(names, ["recent", "old", "timeless"]);
}

#[test]
fn one_file_renders_every_field() {
    let entries = vec![DirEntryInfo {
        name: "a.png".to_owned(),
        meta: Some(EntryMeta {
            is_dir: false,
            modified_secs: Some(60),
            size_bytes: 1024 * 1024,
        }),
    }];
    let emojis = FancyRendererEmojis::default();
    let view = directory_listing("/pics/", entries, &emojis, 0);
    assert_eq!(view.current_directory, "/pics/");
    assert_eq!(view.total_items, "1");
    assert_eq!(view.parent_dir_href, "");
    assert_eq!(view.individual_listings.len(), 1);
    let row = &view.individual_listings[0];
    assert_eq!(row.emoji, "\u{1F5BC}\u{FE0F}");
    assert_eq!(row.timestamp, "1970-01-01 00:01");
    assert_eq!(row.file_href, "/pics/a.png");
    assert_eq!(row.file_name, "a.png");
    assert_eq!(row.byte_size, "1.0 MiB");
    assert!(!row.is_directory);
}

#[test]
fn listing_page_of_a_subdirectory_links_to_its_parent() {
    let emojis = FancyRendererEmojis::default();
    let view = directory_listing("/pics/holiday/", vec![], &emojis, 0);
    assert_eq!(view.parent_dir_href, "/pics/");
    assert_eq!(view.total_items, "0");
    assert!(view.individual_listings.is_empty());
}

#[test]
fn display_name_is_html_escaped_and_href_percent_encoded() {
    let entries = vec![
        entry("a<b&c.txt", false, 10),
        entry("line\nbreak.txt", false, 5),
    ];
    let emojis = FancyRendererEmojis::default();
    let view = directory_listing("/ns/", entries, &emojis, 0);
    assert_eq!(view.individual_listings[0].file_name, "a&lt;b&amp;c.txt");
    assert_eq!(view.individual_listings[0].file_href, "/ns/a<b&c.txt");
    assert_eq!(view.individual_listings[1].file_href, "/ns/line%0Abreak.txt");
}

#[test]
fn directories_render_with_the_directory_glyph_and_no_mtime_uses_the_clock() {
    let mut e = entry("album", true, 0);
    e.meta = Some(EntryMeta {
        is_dir: true,
        modified_secs: None,
        size_bytes: 0,
    });
    let emojis = FancyRendererEmojis::default();
    let view = materialize_listing("/ns/", vec![e], &emojis, 60 * 60 * 24);
    let row = &view.individual_listings[0];
    assert_eq!(row.emoji, "\u{1F4C2}");
    assert_eq!(row.timestamp, "1970-01-02 00:00");
    assert!(row.is_directory);
}

#[test]
fn entries_without_metadata_are_counted_but_not_rendered() {
    let mut entries: Vec<DirEntryInfo> = Vec::new();
    for i in 0..1000 {
        entries.push(DirEntryInfo {
            name: format!("f{}", i),
            meta: None,
        });
    }
    let emojis = FancyRendererEmojis::default();
    let view = directory_listing("/ns/", entries, &emojis, 0);
    assert_eq!(view.total_items, "1,000");
    assert!(view.individual_listings.is_empty());
}

#[test]
fn emoji_resolution_by_extension_with_fallback() {
    let emojis = FancyRendererEmojis::default();
    assert_eq!(emojis.resolve_emoji("x.png", false), "\u{1F5BC}\u{FE0F}");
    assert_eq!(emojis.resolve_emoji("x.tar", false), "\u{1F4E6}");
    assert_eq!(emojis.resolve_emoji("x.mysteryext", false), "\u{2753}");
    assert_eq!(emojis.resolve_emoji("x.PNG", false), "\u{2753}");
    assert_eq!(emojis.resolve_emoji("whatever", true), "\u{1F4C2}");
}
