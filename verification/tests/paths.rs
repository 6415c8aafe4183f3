use mediaserver::paths::{
    candidate_file_name, get_file_extension, parent_dir_href, path_join, path_segments,
};

#[test]
fn path_join_inserts_exactly_one_separator() {
    assert_eq!(path_join("uploads", "ferris"), "uploads/ferris");
    assert_eq!(path_join("uploads/", "ferris"), "uploads/ferris");
    assert_eq!(path_join("", "ferris"), "ferris");
}

#[test]
fn candidate_file_name_joins_name_and_extension() {
    assert_eq!(candidate_file_name("abc123", "png"), "abc123.png");
    assert_eq!(candidate_file_name("x", ""), "x.");
}

#[test]
fn extension_is_what_follows_the_last_dot() {
    assert_eq!(get_file_extension("photo.png"), "png");
    assert_eq!(get_file_extension("archive.tar.gz"), "gz");
    assert_eq!(get_file_extension("some/dir/file.txt"), "txt");
}

#[test]
fn names_without_a_usable_extension_yield_the_empty_one() {
    assert_eq!(get_file_extension("noext"), "");
    assert_eq!(get_file_extension(".hidden"), "");
    assert_eq!(get_file_extension("trailing."), "");
    assert_eq!(get_file_extension(""), "");
    assert_eq!(get_file_extension("dir.d/noext"), "");
}

#[test]
fn segments_split_on_slashes_and_drop_empties() {
    assert_eq!(path_segments("/a/b/"), ["a", "b"]);
    assert_eq!(path_segments("a//b"), ["a", "b"]);
    assert_eq!(path_segments("/"), Vec::<String>::new());
    assert_eq!(path_segments(""), Vec::<String>::new());
}

#[test]
fn parent_link_strips_the_last_segment() {
    assert_eq!(parent_dir_href("/ns/sub/"), "/ns/");
    assert_eq!(parent_dir_href("/a/b/c"), "/a/b/");
    assert_eq!(parent_dir_href("/a//b/"), "/a/");
}

#[test]
fn the_root_has_no_parent_link() {
    assert_eq!(parent_dir_href("/"), "");
    assert_eq!(parent_dir_href("/ns/"), "");
    assert_eq!(parent_dir_href(""), "");
}
