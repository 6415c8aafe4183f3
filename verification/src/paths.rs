//! Plain-string path arithmetic: joining path components, extracting the
//! file extension that names a stored upload, splitting a request path
//! into its non-empty segments, and computing the parent directory link of
//! a listing page.

use vstd::prelude::*;
use vstd::string::*;

verus! {

/// Relies on `String::push`: appends exactly one character at the end.
#[verifier::external_body]
pub(crate) fn push_char(s: &mut String, c: char)
    ensures
        final(s)@ == old(s)@.push(c),
{
    s.push(c);
}

/// Joining a file onto a directory: a single `/` stands between them,
/// unless the directory is empty or already ends with one.
pub open spec fn spec_path_join(dir: Seq<char>, file: Seq<char>) -> Seq<char> {
    if dir.len() == 0 {
        file
    } else if dir.last() == '/' {
        dir + file
    } else {
        dir + seq!['/'] + file
    }
}

pub fn path_join(dir: &str, file: &str) -> (r: String)
    ensures
        r@ == spec_path_join(dir@, file@),
{
    let n = dir.unicode_len();
    if n == 0 {
        file.to_owned()
    } else {
        let mut s = dir.to_owned();
        if dir.get_char(n - 1) != '/' {
            push_char(&mut s, '/');
        }
        s.append(file);
        proof {
            assert(s@ =~= spec_path_join(dir@, file@));
        }
        s
    }
}

/// The base-name a fresh allocation reserves: `<name>.<extension>`.
pub fn candidate_file_name(name: &str, extension: &str) -> (r: String)
    ensures
        r@ == name@ + seq!['.'] + extension@,
{
    let mut s = name.to_owned();
    push_char(&mut s, '.');
    s.append(extension);
    proof {
        assert(s@ =~= name@ + seq!['.'] + extension@);
    }
    s
}

/// The largest index holding `c`, or -1 when `c` does not occur.
pub open spec fn spec_last_index_of(s: Seq<char>, c: char) -> int
    decreases s.len(),
{
    if s.len() == 0 {
        -1
    } else if s.last() == c {
        s.len() - 1
    } else {
        spec_last_index_of(s.drop_last(), c)
    }
}

proof fn lemma_last_index_of(s: Seq<char>, c: char, i: int)
    requires
        -1 <= i < s.len(),
        i >= 0 ==> s[i] == c,
        forall|j: int| i < j < s.len() ==> s[j] != c,
    ensures
        spec_last_index_of(s, c) == i,
    decreases s.len(),
{
    if s.len() > 0 && i < s.len() - 1 {
        lemma_last_index_of(s.drop_last(), c, i);
    }
}

fn last_index_of(s: &str, c: char) -> (r: Option<usize>)
    ensures
        match r {
            Some(i) => spec_last_index_of(s@, c) == i && i < s@.len(),
            None => spec_last_index_of(s@, c) == -1,
        },
{
    let n = s.unicode_len();
    let mut i = n;
    while i > 0
        invariant
            i <= n,
            n == s@.len(),
            forall|j: int| i <= j < n ==> s@[j] != c,
        decreases i,
    {
        i = i - 1;
        if s.get_char(i) == c {
            proof {
                lemma_last_index_of(s@, c, i as int);
            }
            return Some(i);
        }
    }
    proof {
        lemma_last_index_of(s@, c, -1);
    }
    None
}

/// The extension an uploaded file name carries, and so the extension the
/// stored file keeps: whatever follows the last `.` of the name's final
/// path component. A name without a dot, a lone leading dot (a hidden
/// file), or a trailing dot all yield the empty extension.
pub open spec fn spec_extension_of(file_name: Seq<char>) -> Seq<char> {
    let base = file_name.skip(spec_last_index_of(file_name, '/') + 1);
    let d = spec_last_index_of(base, '.');
    if d <= 0 {
        Seq::empty()
    } else {
        base.skip(d + 1)
    }
}

/// Extracts the extension used to name a stored upload.
pub fn get_file_extension(file_name: &str) -> (r: String)
    ensures
        r@ == spec_extension_of(file_name@),
{
    let n = file_name.unicode_len();
    let start = match last_index_of(file_name, '/') {
        Some(i) => i + 1,
        None => 0,
    };
    let base = file_name.substring_char(start, n);
    assert(base@ == file_name@.skip(spec_last_index_of(file_name@, '/') + 1));
    let m = base.unicode_len();
    match last_index_of(base, '.') {
        Some(d) if d > 0 => base.substring_char(d + 1, m).to_owned(),
        _ => String::new(),
    }
}

/// The non-empty `/`-separated segments of a path, carrying a partial
/// segment built from the characters already consumed.
pub open spec fn spec_segments_acc(s: Seq<char>, cur: Seq<char>) -> Seq<Seq<char>>
    decreases s.len(),
{
    if s.len() == 0 {
        if cur.len() == 0 {
            Seq::empty()
        } else {
            seq![cur]
        }
    } else if s[0] == '/' {
        (if cur.len() == 0 {
            Seq::<Seq<char>>::empty()
        } else {
            seq![cur]
        }) + spec_segments_acc(s.skip(1), Seq::empty())
    } else {
        spec_segments_acc(s.skip(1), cur.push(s[0]))
    }
}

/// The non-empty `/`-separated segments of a path.
pub open spec fn spec_segments(s: Seq<char>) -> Seq<Seq<char>> {
    spec_segments_acc(s, Seq::empty())
}

/// Splits a request path into its non-empty segments.
pub fn path_segments(path: &str) -> (r: Vec<String>)
    ensures
        r@.map_values(|x: String| x@) == spec_segments(path@),
{
    let n = path.unicode_len();
    let mut segs: Vec<String> = Vec::new();
    let mut cur: String = String::new();
    let mut i: usize = 0;
    proof {
        assert(path@.skip(0) =~= path@);
        assert(segs@.map_values(|x: String| x@) + spec_segments_acc(path@, Seq::empty())
            =~= spec_segments_acc(path@, Seq::empty()));
    }
    while i < n
        invariant
            i <= n,
            n == path@.len(),
            spec_segments(path@) == segs@.map_values(|x: String| x@) + spec_segments_acc(
                path@.skip(i as int),
                cur@,
            ),
        decreases n - i,
    {
        let c = path.get_char(i);
        proof {
            assert(path@.skip(i as int).skip(1) =~= path@.skip(i as int + 1));
            assert(path@.skip(i as int)[0] == path@[i as int]);
        }
        if c == '/' {
            if !cur.as_str().is_empty() {
                let ghost old_segs = segs@;
                let ghost old_cur = cur@;
                segs.push(cur);
                cur = String::new();
                proof {
                    assert(segs@.map_values(|x: String| x@) =~= old_segs.map_values(
                        |x: String| x@,
                    ).push(old_cur));
                    assert(old_segs.map_values(|x: String| x@).push(old_cur) + spec_segments_acc(
                        path@.skip(i as int + 1),
                        Seq::empty(),
                    ) =~= old_segs.map_values(|x: String| x@) + (seq![old_cur]
                        + spec_segments_acc(path@.skip(i as int + 1), Seq::empty())));
                }
            } else {
                proof {
                    assert(cur@ =~= Seq::<char>::empty());
                    assert(Seq::<Seq<char>>::empty() + spec_segments_acc(
                        path@.skip(i as int + 1),
                        Seq::empty(),
                    ) =~= spec_segments_acc(path@.skip(i as int + 1), Seq::empty()));
                }
            }
        } else {
            let ghost old_cur = cur@;
            push_char(&mut cur, c);
            proof {
                assert(spec_segments_acc(path@.skip(i as int), old_cur) == spec_segments_acc(
                    path@.skip(i as int + 1),
                    old_cur.push(path@[i as int]),
                ));
            }
        }
        i = i + 1;
    }
    proof {
        assert(path@.skip(n as int) =~= Seq::<char>::empty());
    }
    if !cur.as_str().is_empty() {
        let ghost old_segs = segs@;
        let ghost old_cur = cur@;
        segs.push(cur);
        proof {
            assert(segs@.map_values(|x: String| x@) =~= old_segs.map_values(|x: String| x@).push(
                old_cur,
            ));
            assert(old_segs.map_values(|x: String| x@).push(old_cur) =~= old_segs.map_values(
                |x: String| x@,
            ) + seq![old_cur]);
        }
    } else {
        proof {
            assert(cur@ =~= Seq::<char>::empty());
            assert(segs@.map_values(|x: String| x@) + Seq::<Seq<char>>::empty() =~= segs@.map_values(
                |x: String| x@,
            ));
        }
    }
    segs
}

/// Segments joined with a single `/` between them.
pub open spec fn spec_join_slash(segs: Seq<Seq<char>>) -> Seq<char>
    decreases segs.len(),
{
    if segs.len() == 0 {
        Seq::empty()
    } else if segs.len() == 1 {
        segs[0]
    } else {
        spec_join_slash(segs.drop_last()) + seq!['/'] + segs.last()
    }
}

/// The parent-directory link of a listing page: the request path with its
/// last non-empty segment stripped, wrapped in `/`; empty at the root,
/// where no parent link is shown.
pub open spec fn spec_parent_href(path: Seq<char>) -> Seq<char> {
    let segs = spec_segments(path);
    if segs.len() <= 1 {
        Seq::empty()
    } else {
        seq!['/'] + spec_join_slash(segs.drop_last()) + seq!['/']
    }
}

/// Computes the parent-directory link of a request path.
pub fn parent_dir_href(path: &str) -> (r: String)
    ensures
        r@ == spec_parent_href(path@),
{
    let segs = path_segments(path);
    let ghost mapped = segs@.map_values(|x: String| x@);
    if segs.len() <= 1 {
        String::new()
    } else {
        let last = segs.len() - 1;
        let mut s = String::new();
        push_char(&mut s, '/');
        let mut k: usize = 0;
        while k < last
            invariant
                0 < last < segs@.len() + 1,
                segs@.len() == mapped.len(),
                mapped == segs@.map_values(|x: String| x@),
                k <= last,
                k == 0 ==> s@ == seq!['/'],
                k > 0 ==> s@ == seq!['/'] + spec_join_slash(mapped.take(k as int)) + seq!['/'],
            decreases last - k,
        {
            s.append(segs[k].as_str());
            push_char(&mut s, '/');
            proof {
                assert(mapped.take(k as int + 1).drop_last() =~= mapped.take(k as int));
                assert(mapped.take(k as int + 1).last() == mapped[k as int]);
                assert(mapped[k as int] == segs@[k as int]@);
                if k == 0 {
                    assert(spec_join_slash(mapped.take(1)) == mapped[0]);
                }
            }
            k = k + 1;
        }
        proof {
            assert(mapped.take(last as int) =~= mapped.drop_last());
        }
        s
    }
}

} // verus!
