//! The pure part of asset persistence: deriving the file extension from an
//! asset URL and the category-scoped target path for a descriptor. The
//! filesystem writes themselves stay with the caller, which reports their
//! outcome as a [`WriteError`] on failure.

use vstd::prelude::*;
use vstd::string::StrSliceExecFns;
use vstd::string::StringExecFns;
use crate::descriptor::AssetDescriptor;
use crate::descriptor::DescriptorView;

verus! {

/// The index of the last occurrence of `c` in `s`, or `-1` when `s` does
/// not contain `c`.
pub open spec fn last_index_of(s: Seq<char>, c: char) -> int
    decreases s.len(),
{
    if s.len() == 0 {
        -1
    } else if s[s.len() - 1] == c {
        s.len() - 1
    } else {
        last_index_of(s.drop_last(), c)
    }
}

/// What [`last_index_of`] returns: either `-1` and `c` is absent, or the
/// index of an occurrence of `c` after which `c` does not occur again.
pub proof fn lemma_last_index_of(s: Seq<char>, c: char)
    ensures
        -1 <= last_index_of(s, c) < s.len(),
        last_index_of(s, c) == -1 ==> forall|k: int| 0 <= k < s.len() ==> s[k] != c,
        last_index_of(s, c) >= 0 ==> s[last_index_of(s, c)] == c,
        forall|k: int| last_index_of(s, c) < k < s.len() ==> s[k] != c,
    decreases s.len(),
{
    if s.len() != 0 && s[s.len() - 1] != c {
        lemma_last_index_of(s.drop_last(), c);
        assert(forall|k: int| 0 <= k < s.len() - 1 ==> s[k] == s.drop_last()[k]);
    }
}

/// The final path segment of `u`: everything after the last `/`, or all of
/// `u` when it has no `/`.
pub open spec fn final_segment(u: Seq<char>) -> Seq<char> {
    u.subrange(last_index_of(u, '/') + 1, u.len() as int)
}

/// The file extension derived from asset URL `u`: the part of the final
/// path segment after its last `.`, or `png` when that segment has no `.`.
pub open spec fn extension_spec(u: Seq<char>) -> Seq<char> {
    let seg = final_segment(u);
    if last_index_of(seg, '.') >= 0 {
        seg.subrange(last_index_of(seg, '.') + 1, seg.len() as int)
    } else {
        "png"@
    }
}

/// A URL whose final path segment holds no `.` always falls back to the
/// `png` extension.
pub proof fn lemma_no_dot_gives_png(u: Seq<char>)
    requires
        forall|k: int| 0 <= k < final_segment(u).len() ==> final_segment(u)[k] != '.',
    ensures
        extension_spec(u) == "png"@,
{
    let seg = final_segment(u);
    lemma_last_index_of(seg, '.');
    if last_index_of(seg, '.') >= 0 {
        assert(seg[last_index_of(seg, '.')] == '.');
    }
}

/// The index of the last occurrence of `c` in `s`, if any.
fn rfind_char(s: &str, c: char) -> (r: Option<usize>)
    ensures
        match r {
            Some(i) => i < s@.len() && last_index_of(s@, c) == i,
            None => last_index_of(s@, c) == -1,
        },
{
    let n: usize = s.unicode_len();
    let mut j: usize = n;
    while j > 0
        invariant
            n == s@.len(),
            j <= n,
            forall|k: int| j <= k < n ==> s@[k] != c,
        decreases j,
    {
        if s.get_char(j - 1) == c {
            proof {
                lemma_last_index_of(s@, c);
            }
            return Some(j - 1);
        }
        j = j - 1;
    }
    proof {
        lemma_last_index_of(s@, c);
    }
    None
}

/// The file extension for the asset at `url`: the part of the URL's final
/// path segment after its last `.`, or `png` when that segment has none.
pub fn extension_of(url: &str) -> (e: String)
    ensures
        e@ == extension_spec(url@),
{
    proof {
        lemma_last_index_of(url@, '/');
    }
    let n: usize = url.unicode_len();
    let seg_start: usize = match rfind_char(url, '/') {
        Some(i) => i + 1,
        None => 0,
    };
    let seg = url.substring_char(seg_start, n);
    proof {
        assert(seg@ =~= final_segment(url@));
    }
    let m: usize = seg.unicode_len();
    match rfind_char(seg, '.') {
        Some(d) => seg.substring_char(d + 1, m).to_owned(),
        None => {
            let e = String::from_str("png");
            proof {
                assert(e@ == extension_spec(url@));
            }
            e
        },
    }
}

/// The target path for a descriptor under `base_dir`:
/// `{base_dir}/{category}/{shortcode}.{extension}`.
pub open spec fn target_path_spec(base_dir: Seq<char>, d: DescriptorView) -> Seq<char> {
    base_dir + "/"@ + d.category + "/"@ + d.shortcode + "."@ + extension_spec(d.static_url)
}

/// Derives the category-scoped path the asset of `d` is persisted at. Two
/// descriptors with equal category, shortcode and derived extension map to
/// the same path, so a later write overwrites an earlier one.
pub fn target_path(base_dir: &str, d: &AssetDescriptor) -> (p: String)
    ensures
        p@ == target_path_spec(base_dir@, d@),
{
    let mut p = base_dir.to_owned();
    p.append("/");
    p.append(d.category.as_str());
    p.append("/");
    p.append(d.shortcode.as_str());
    p.append(".");
    let ext = extension_of(d.static_url.as_str());
    p.append(ext.as_str());
    proof {
        assert(p@ =~= target_path_spec(base_dir@, d@));
    }
    p
}

/// Two descriptors with the same category, shortcode and derived
/// extension map to the same target path, whatever their URLs are. A
/// repeated run therefore writes each asset at the path it wrote before —
/// the file is overwritten in place, never duplicated — and that is also
/// the collision policy: the last write for a shared path wins.
pub proof fn lemma_same_path(base_dir: Seq<char>, d1: DescriptorView, d2: DescriptorView)
    requires
        d1.category == d2.category,
        d1.shortcode == d2.shortcode,
        extension_spec(d1.static_url) == extension_spec(d2.static_url),
    ensures
        target_path_spec(base_dir, d1) == target_path_spec(base_dir, d2),
{
}

/// Mathematical view of a [`WriteError`].
pub ghost enum WriteErrorView {
    DirCreate(Seq<char>),
    FileWrite(Seq<char>),
}

/// A per-asset persistence failure: creating the category directory
/// failed, or writing the asset file failed. Either is recorded for that
/// asset only and never stops the rest of the run.
pub enum WriteError {
    DirCreate(String),
    FileWrite(String),
}

impl View for WriteError {
    type V = WriteErrorView;

    open spec fn view(&self) -> WriteErrorView {
        match self {
            WriteError::DirCreate(m) => WriteErrorView::DirCreate(m@),
            WriteError::FileWrite(m) => WriteErrorView::FileWrite(m@),
        }
    }
}

/// The failure text carried by a [`WriteErrorView`].
pub open spec fn write_error_message(e: WriteErrorView) -> Seq<char> {
    match e {
        WriteErrorView::DirCreate(m) => m,
        WriteErrorView::FileWrite(m) => m,
    }
}

impl WriteError {
    /// The failure text this error carries.
    pub fn message(self) -> (m: String)
        ensures
            m@ == write_error_message(self@),
    {
        match self {
            WriteError::DirCreate(m) => m,
            WriteError::FileWrite(m) => m,
        }
    }
}

} // verus!
