//! The directory-listing materializer: orders a directory's entries by the
//! fixed policy — directories first, then most recently modified first —
//! and renders each surviving entry into the view the template consumes.
//! Reading the directory is the caller's filesystem work; everything from
//! the raw entry records to the finished view is computed and verified
//! here.

use vstd::prelude::*;
use vstd::string::*;

use crate::fancy_rendering_emoji::{spec_emoji_lookup, FancyRendererEmojis};
use crate::paths::{
    parent_dir_href, path_join, spec_extension_of, spec_parent_href, spec_path_join,
};

verus! {

/// What the filesystem reported about one entry, reduced to plain values:
/// whether it is a directory, its last-modified time in seconds since the
/// Unix epoch (absent when unreadable), and its size in bytes.
#[derive(Debug, Clone, Copy, PartialEq, Eq, Structural)]
pub struct EntryMeta {
    pub is_dir: bool,
    pub modified_secs: Option<u64>,
    pub size_bytes: u64,
}

/// One raw directory entry: its file name and its metadata, `None` when
/// the metadata could not be read at all.
#[derive(Debug)]
pub struct DirEntryInfo {
    pub name: String,
    pub meta: Option<EntryMeta>,
}

/// One rendered row of a listing page.
#[derive(Debug)]
pub struct IndividualListing {
    pub emoji: String,
    pub timestamp: String,
    pub file_href: String,
    pub file_name: String,
    pub byte_size: String,
    pub is_directory: bool,
}

/// A rendered listing page: the request path it describes, the formatted
/// entry count, the parent-directory link (empty at the root) and the rows.
#[derive(Debug)]
pub struct DirectoryView {
    pub current_directory: String,
    pub total_items: String,
    pub parent_dir_href: String,
    pub individual_listings: Vec<IndividualListing>,
}

// ---------------------------------------------------------------------
// Sort policy
// ---------------------------------------------------------------------

/// An entry with unreadable metadata is treated as a file.
pub open spec fn spec_entry_is_file(e: DirEntryInfo) -> bool {
    match e.meta {
        Some(m) => !m.is_dir,
        None => true,
    }
}

/// An unreadable modification time defaults to the Unix epoch, sorting the
/// entry last within its group.
pub open spec fn spec_entry_mtime(e: DirEntryInfo) -> u64 {
    match e.meta {
        Some(m) => match m.modified_secs {
            Some(t) => t,
            None => 0u64,
        },
        None => 0u64,
    }
}

/// The listing order: directories before files, and within each group the
/// most recently modified first. Entries equal under both keys carry no
/// further ordering.
pub open spec fn spec_entry_le(a: DirEntryInfo, b: DirEntryInfo) -> bool {
    if spec_entry_is_file(a) != spec_entry_is_file(b) {
        !spec_entry_is_file(a)
    } else {
        spec_entry_mtime(a) >= spec_entry_mtime(b)
    }
}

fn entry_le(a: &DirEntryInfo, b: &DirEntryInfo) -> (r: bool)
    ensures
        r == spec_entry_le(*a, *b),
{
    let a_is_file = match &a.meta {
        Some(m) => !m.is_dir,
        None => true,
    };
    let b_is_file = match &b.meta {
        Some(m) => !m.is_dir,
        None => true,
    };
    if a_is_file != b_is_file {
        !a_is_file
    } else {
        let a_time: u64 = match &a.meta {
            Some(m) => match m.modified_secs {
                Some(t) => t,
                None => 0,
            },
            None => 0,
        };
        let b_time: u64 = match &b.meta {
            Some(m) => match m.modified_secs {
                Some(t) => t,
                None => 0,
            },
            None => 0,
        };
        a_time >= b_time
    }
}

proof fn lemma_entry_le_trans(a: DirEntryInfo, b: DirEntryInfo, c: DirEntryInfo)
    requires
        spec_entry_le(a, b),
        spec_entry_le(b, c),
    ensures
        spec_entry_le(a, c),
{
}

/// Sorts a directory's entries by the listing policy. The result holds
/// exactly the given entries; the order of entries equal under both sort
/// keys is left open, as the policy prescribes no tertiary key.
pub fn sorted_entries(entries: Vec<DirEntryInfo>) -> (r: Vec<DirEntryInfo>)
    ensures
        r@.to_multiset() == entries@.to_multiset(),
        r@.len() == entries@.len(),
        forall|x: int, y: int| 0 <= x < y < r@.len() ==> spec_entry_le(r@[x], r@[y]),
{
    broadcast use vstd::seq_lib::group_to_multiset_ensures;
    broadcast use vstd::multiset::group_multiset_axioms;

    let mut rest = entries;
    let mut out: Vec<DirEntryInfo> = Vec::new();
    let ghost all = rest@;
    proof {
        assert(out@ + rest@ =~= rest@);
        vstd::seq_lib::lemma_multiset_commutative(out@, rest@);
    }
    while rest.len() > 0
        invariant
            out@.to_multiset().add(rest@.to_multiset()) == all.to_multiset(),
            out@.len() + rest@.len() == all.len(),
            forall|x: int, y: int| 0 <= x < y < out@.len() ==> spec_entry_le(out@[x], out@[y]),
        decreases rest@.len(),
    {
        let ghost old_rest = rest@;
        let e = rest.remove(0);
        let mut k: usize = 0;
        while k < out.len() && entry_le(&out[k], &e)
            invariant
                k <= out@.len(),
                forall|j: int| 0 <= j < k ==> spec_entry_le(out@[j], e),
                forall|x: int, y: int| 0 <= x < y < out@.len() ==> spec_entry_le(
                    out@[x],
                    out@[y],
                ),
            decreases out@.len() - k,
        {
            k = k + 1;
        }
        let ghost old_out = out@;
        proof {
            if k < out@.len() {
                assert(spec_entry_le(e, out@[k as int]));
            }
        }
        out.insert(k, e);
        proof {
            vstd::seq_lib::to_multiset_insert(old_out, k as int, e);
            old_out.insert_ensures(k as int, e);
            vstd::seq_lib::to_multiset_remove(old_rest, 0);
            assert(e == old_rest[0]);
            assert(rest@ == old_rest.remove(0));
            assert(rest@.to_multiset() =~= old_rest.to_multiset().remove(e));
            assert(old_rest.contains(e));
            vstd::seq_lib::to_multiset_contains(old_rest, e);
            assert(old_rest.to_multiset().count(e) > 0);
            assert(out@.to_multiset().add(rest@.to_multiset()) =~= old_out.to_multiset().add(
                old_rest.to_multiset(),
            ));
            assert forall|x: int, y: int| 0 <= x < y < out@.len() implies spec_entry_le(
                out@[x],
                out@[y],
            ) by {
                if x == k {
                    assert(out@[x] == e);
                    assert(y - 1 >= k && y - 1 < old_out.len());
                    assert(spec_entry_le(e, old_out[k as int]));
                    if y - 1 > k {
                        assert(spec_entry_le(old_out[k as int], old_out[y - 1]));
                        lemma_entry_le_trans(e, old_out[k as int], old_out[y - 1]);
                    }
                    assert(out@[y] == old_out[y - 1]);
                } else if y == k {
                    assert(out@[y] == e);
                    assert(out@[x] == old_out[x]);
                } else if x < k && y > k {
                    assert(out@[x] == old_out[x] && out@[y] == old_out[y - 1]);
                }
            }
        }
    }
    proof {
        assert(rest@.to_multiset().len() == 0);
        assert(rest@.to_multiset() =~= vstd::multiset::Multiset::empty());
        assert(out@.to_multiset() =~= out@.to_multiset().add(rest@.to_multiset()));
    }
    out
}

// ---------------------------------------------------------------------
// Rendering
// ---------------------------------------------------------------------

/// What chrono renders for a given timestamp. The `YYYY-MM-DD HH:MM` UTC
/// form of a seconds-since-epoch value is a function of that value alone;
/// it is `None` exactly when the value falls outside chrono's range.
pub uninterp spec fn timestamp_display_of(secs: int) -> Option<Seq<char>>;

/// Relies on chrono's `DateTime::<Utc>::from_timestamp` and `format` with
/// `%Y-%m-%d %H:%M`: the rendered form depends on the seconds value alone,
/// and `None` comes back only for seconds outside chrono's datetime range.
#[verifier::external_body]
fn format_timestamp_utc(secs: u64) -> (r: Option<String>)
    ensures
        (r is Some) == (timestamp_display_of(secs as int) is Some),
        r matches Some(s) ==> Some(s@) == timestamp_display_of(secs as int),
{
    chrono::DateTime::<chrono::Utc>::from_timestamp(secs as i64, 0).map(
        |dt| dt.format("%Y-%m-%d %H:%M").to_string(),
    )
}

/// What bytesize renders for a given byte count: the binary-prefixed
/// human-readable form, a function of the count alone.
pub uninterp spec fn iec_size_display_of(bytes: int) -> Seq<char>;

/// Relies on bytesize's `ByteSize::b(..).display().iec()`: the rendered
/// form depends on the byte count alone.
#[verifier::external_body]
fn format_size_iec(bytes: u64) -> (r: String)
    ensures
        r@ == iec_size_display_of(bytes as int),
{
    bytesize::ByteSize::b(bytes).display().iec().to_string()
}

pub open spec fn spec_decimal_digit(d: int) -> char {
    if d == 0 {
        '0'
    } else if d == 1 {
        '1'
    } else if d == 2 {
        '2'
    } else if d == 3 {
        '3'
    } else if d == 4 {
        '4'
    } else if d == 5 {
        '5'
    } else if d == 6 {
        '6'
    } else if d == 7 {
        '7'
    } else if d == 8 {
        '8'
    } else {
        '9'
    }
}

/// The decimal digits of `n`, most significant first.
pub open spec fn spec_decimal_digits(n: nat) -> Seq<char>
    decreases n,
{
    if n < 10 {
        seq![spec_decimal_digit(n as int)]
    } else {
        spec_decimal_digits(n / 10) + seq![spec_decimal_digit((n % 10) as int)]
    }
}

/// Digit groups of three, separated by commas, counted from the right.
pub open spec fn spec_grouped(s: Seq<char>) -> Seq<char>
    decreases s.len(),
{
    if s.len() <= 3 {
        s
    } else {
        spec_grouped(s.take(s.len() - 3)) + seq![','] + s.skip(s.len() - 3)
    }
}

/// How an entry count is displayed: decimal digits grouped in threes.
pub open spec fn spec_count_display(n: nat) -> Seq<char> {
    spec_grouped(spec_decimal_digits(n))
}

/// Relies on num-format's `to_formatted_string` with `Locale::en`: decimal
/// digits with `,` between groups of three.
#[verifier::external_body]
fn format_count_en(n: usize) -> (r: String)
    ensures
        r@ == spec_count_display(n as nat),
{
    num_format::ToFormattedString::to_formatted_string(&n, &num_format::Locale::en)
}

/// The entity v_htmlescape substitutes for one character; every character
/// outside its table is forwarded verbatim.
pub open spec fn spec_html_escape_char(c: char) -> Seq<char> {
    if c == '"' {
        seq!['&', 'q', 'u', 'o', 't', ';']
    } else if c == '&' {
        seq!['&', 'a', 'm', 'p', ';']
    } else if c == '\'' {
        seq!['&', '#', 'x', '2', '7', ';']
    } else if c == '/' {
        seq!['&', '#', 'x', '2', 'f', ';']
    } else if c == '<' {
        seq!['&', 'l', 't', ';']
    } else if c == '>' {
        seq!['&', 'g', 't', ';']
    } else {
        seq![c]
    }
}

pub open spec fn spec_html_escape(s: Seq<char>) -> Seq<char>
    decreases s.len(),
{
    if s.len() == 0 {
        Seq::empty()
    } else {
        spec_html_escape_char(s[0]) + spec_html_escape(s.skip(1))
    }
}

/// Relies on v_htmlescape's `escape_string`: rewrites `"`, `&`, `'`, `/`,
/// `<` and `>` to their HTML entities and forwards every other character.
#[verifier::external_body]
fn escape_html(s: &str) -> (r: String)
    ensures
        r@ == spec_html_escape(s@),
{
    let mut out = String::new();
    v_htmlescape::escape_string(s, &mut out);
    out
}

pub open spec fn spec_hex_digit_upper(d: int) -> char {
    if d < 10 {
        spec_decimal_digit(d)
    } else if d == 10 {
        'A'
    } else if d == 11 {
        'B'
    } else if d == 12 {
        'C'
    } else if d == 13 {
        'D'
    } else if d == 14 {
        'E'
    } else {
        'F'
    }
}

/// C0 control characters and DEL become `%XX`; everything else passes
/// through, so the href stays one recognizable string.
pub open spec fn spec_percent_encode_char(c: char) -> Seq<char> {
    if (c as u32) < 0x20 || c as u32 == 0x7f {
        seq![
            '%',
            spec_hex_digit_upper(c as u32 as int / 16),
            spec_hex_digit_upper(c as u32 as int % 16),
        ]
    } else {
        seq![c]
    }
}

pub open spec fn spec_percent_encode(s: Seq<char>) -> Seq<char>
    decreases s.len(),
{
    if s.len() == 0 {
        Seq::empty()
    } else {
        spec_percent_encode_char(s[0]) + spec_percent_encode(s.skip(1))
    }
}

/// Relies on percent-encoding's `utf8_percent_encode` with the `CONTROLS`
/// set: C0 control bytes and DEL become `%XX` with uppercase hex digits;
/// every other byte is forwarded, which for UTF-8 text means every other
/// character.
#[verifier::external_body]
fn percent_encode_controls(s: &str) -> (r: String)
    ensures
        r@ == spec_percent_encode(s@),
{
    percent_encoding::utf8_percent_encode(s, percent_encoding::CONTROLS).to_string()
}

// ---------------------------------------------------------------------
// The materializer
// ---------------------------------------------------------------------

/// The view of one rendered row, as plain sequences: emoji, timestamp,
/// href, display name, size display, and the directory flag.
pub open spec fn spec_listing_view(l: IndividualListing) -> (
    Seq<char>,
    Seq<char>,
    Seq<char>,
    Seq<char>,
    Seq<char>,
    bool,
) {
    (l.emoji@, l.timestamp@, l.file_href@, l.file_name@, l.byte_size@, l.is_directory)
}

/// The row an entry with readable metadata renders to.
pub open spec fn spec_rendered_row(
    name: Seq<char>,
    m: EntryMeta,
    emojis: FancyRendererEmojis,
    request_path: Seq<char>,
    now_secs: u64,
) -> (Seq<char>, Seq<char>, Seq<char>, Seq<char>, Seq<char>, bool) {
    (
        if m.is_dir {
            emojis.directory@
        } else {
            match spec_emoji_lookup(emojis.file_extensions@, spec_extension_of(name)) {
                Some(glyph) => glyph,
                None => emojis.unknown@,
            }
        },
        match timestamp_display_of(
            (match m.modified_secs {
                Some(t) => t,
                None => now_secs,
            }) as int,
        ) {
            Some(t) => t,
            None => Seq::empty(),
        },
        spec_percent_encode(spec_path_join(request_path, name)),
        spec_html_escape(name),
        iec_size_display_of(m.size_bytes as int),
        m.is_dir,
    )
}

/// The rows of a listing, in entry order; entries whose metadata could not
/// be read are skipped.
pub open spec fn spec_rendered_rows(
    entries: Seq<DirEntryInfo>,
    emojis: FancyRendererEmojis,
    request_path: Seq<char>,
    now_secs: u64,
) -> Seq<(Seq<char>, Seq<char>, Seq<char>, Seq<char>, Seq<char>, bool)>
    decreases entries.len(),
{
    if entries.len() == 0 {
        Seq::empty()
    } else {
        let rest = spec_rendered_rows(entries.skip(1), emojis, request_path, now_secs);
        match entries[0].meta {
            Some(m) => seq![
                spec_rendered_row(entries[0].name@, m, emojis, request_path, now_secs),
            ] + rest,
            None => rest,
        }
    }
}

/// Renders one directory page from already-sorted entries: every field of
/// the result is pinned to the entries, the request path and the clock
/// value handed in (used only for entries whose modification time was
/// unreadable, as the display fallback).
pub fn materialize_listing(
    request_path: &str,
    sorted: Vec<DirEntryInfo>,
    emojis: &FancyRendererEmojis,
    now_secs: u64,
) -> (r: DirectoryView)
    ensures
        r.current_directory@ == request_path@,
        r.total_items@ == spec_count_display(sorted@.len() as nat),
        r.parent_dir_href@ == spec_parent_href(request_path@),
        r.individual_listings@.map_values(|l: IndividualListing| spec_listing_view(l))
            == spec_rendered_rows(sorted@, *emojis, request_path@, now_secs),
{
    let total_items = format_count_en(sorted.len());
    let back = parent_dir_href(request_path);
    let mut rows: Vec<IndividualListing> = Vec::new();
    let ghost all = sorted@;
    let mut i: usize = 0;
    proof {
        assert(all.skip(0) =~= all);
        assert(rows@.map_values(|l: IndividualListing| spec_listing_view(l)) + spec_rendered_rows(
            all,
            *emojis,
            request_path@,
            now_secs,
        ) =~= spec_rendered_rows(all, *emojis, request_path@, now_secs));
    }
    while i < sorted.len()
        invariant
            i <= sorted@.len(),
            sorted@ == all,
            spec_rendered_rows(all, *emojis, request_path@, now_secs) == rows@.map_values(
                |l: IndividualListing| spec_listing_view(l),
            ) + spec_rendered_rows(all.skip(i as int), *emojis, request_path@, now_secs),
        decreases sorted@.len() - i,
    {
        proof {
            assert(all.skip(i as int)[0] == all[i as int]);
            assert(all.skip(i as int).skip(1) =~= all.skip(i as int + 1));
        }
        let entry = &sorted[i];
        match entry.meta {
            Some(m) => {
                let emoji = emojis.resolve_emoji(entry.name.as_str(), m.is_dir);
                let display_time: u64 = match m.modified_secs {
                    Some(t) => t,
                    None => now_secs,
                };
                let timestamp = match format_timestamp_utc(display_time) {
                    Some(t) => t,
                    None => String::new(),
                };
                let joined = path_join(request_path, entry.name.as_str());
                let file_href = percent_encode_controls(joined.as_str());
                let file_name = escape_html(entry.name.as_str());
                let byte_size = format_size_iec(m.size_bytes);
                let row = IndividualListing {
                    emoji,
                    timestamp,
                    file_href,
                    file_name,
                    byte_size,
                    is_directory: m.is_dir,
                };
                let ghost old_rows = rows@;
                proof {
                    assert(spec_listing_view(row) == spec_rendered_row(
                        all[i as int].name@,
                        m,
                        *emojis,
                        request_path@,
                        now_secs,
                    ));
                }
                rows.push(row);
                proof {
                    let f = |l: IndividualListing| spec_listing_view(l);
                    assert(rows@.map_values(f) =~= old_rows.map_values(f).push(
                        spec_listing_view(row),
                    ));
                    assert(old_rows.map_values(f).push(spec_listing_view(row))
                        + spec_rendered_rows(
                        all.skip(i as int + 1),
                        *emojis,
                        request_path@,
                        now_secs,
                    ) =~= old_rows.map_values(f) + (seq![spec_listing_view(row)]
                        + spec_rendered_rows(
                        all.skip(i as int + 1),
                        *emojis,
                        request_path@,
                        now_secs,
                    )));
                }
            },
            None => {},
        }
        i = i + 1;
    }
    proof {
        assert(all.skip(all.len() as int) =~= Seq::<DirEntryInfo>::empty());
        assert(rows@.map_values(|l: IndividualListing| spec_listing_view(l)) + Seq::<
            (Seq<char>, Seq<char>, Seq<char>, Seq<char>, Seq<char>, bool),
        >::empty() =~= rows@.map_values(|l: IndividualListing| spec_listing_view(l)));
    }
    DirectoryView {
        current_directory: request_path.to_owned(),
        total_items,
        parent_dir_href: back,
        individual_listings: rows,
    }
}

/// Reads a directory's raw entries into a rendered page: sorts them by the
/// listing policy, then materializes the view. The order of rows rendered
/// from entries equal under both sort keys is left open.
pub fn directory_listing(
    request_path: &str,
    entries: Vec<DirEntryInfo>,
    emojis: &FancyRendererEmojis,
    now_secs: u64,
) -> (r: DirectoryView)
    ensures
        r.current_directory@ == request_path@,
        r.total_items@ == spec_count_display(entries@.len() as nat),
        r.parent_dir_href@ == spec_parent_href(request_path@),
        exists|sorted: Seq<DirEntryInfo>|
            {
                &&& #[trigger] sorted.to_multiset() == entries@.to_multiset()
                &&& sorted.len() == entries@.len()
                &&& (forall|x: int, y: int|
                    0 <= x < y < sorted.len() ==> spec_entry_le(sorted[x], sorted[y]))
                &&& r.individual_listings@.map_values(
                    |l: IndividualListing| spec_listing_view(l),
                ) == spec_rendered_rows(sorted, *emojis, request_path@, now_secs)
            },
{
    let sorted = sorted_entries(entries);
    let ghost witness = sorted@;
    let r = materialize_listing(request_path, sorted, emojis, now_secs);
    proof {
        assert(witness.to_multiset() == entries@.to_multiset());
    }
    r
}

} // verus!
