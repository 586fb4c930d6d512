//! Paths as text: the per-user content subtrees under a writable root, and
//! the suffix games the swap protocol plays (`.part` staging, `.old`
//! backups, version directories named after an artifact's stem).
//!
//! Finding the writable root itself is the platform's business; everything
//! here works on the path text it hands over.
use vstd::prelude::*;

verus! {

/// A directory joined with one further component.
pub open spec fn spec_join(dir: Seq<char>, name: Seq<char>) -> Seq<char> {
    dir + "\\"@ + name
}

/// Joins a directory with one further component.
pub fn join_path(dir: &str, name: &str) -> (r: String)
    ensures
        r@ == spec_join(dir@, name@),
{
    let mut s = dir.to_owned();
    s.append("\\");
    s.append(name);
    s
}

/// The per-user writable root, under the local application-data directory
/// the platform hands over.
pub fn get_appdata_cod4_path(local_app_data: &str) -> (r: String)
    ensures
        r@ == spec_join(local_app_data@, "CallofDuty4MW"@),
{
    join_path(local_app_data, "CallofDuty4MW")
}

/// The binary subtree under the writable root.
pub fn appdata_bin_path(root: &str) -> (r: String)
    ensures
        r@ == spec_join(root@, "bin"@),
{
    join_path(root, "bin")
}

/// The main content subtree under the writable root.
pub fn appdata_main_path(root: &str) -> (r: String)
    ensures
        r@ == spec_join(root@, "main"@),
{
    join_path(root, "main")
}

/// The zone content subtree under the writable root.
pub fn appdata_zone_path(root: &str) -> (r: String)
    ensures
        r@ == spec_join(root@, "zone"@),
{
    join_path(root, "zone")
}

/// Whether a character separates path components.
pub open spec fn is_sep(c: char) -> bool {
    c == '\\' || c == '/'
}

/// Index of the last separator, or -1 when there is none.
pub open spec fn last_sep(s: Seq<char>) -> int
    decreases s.len(),
{
    if s.len() == 0 {
        -1
    } else if is_sep(s.last()) {
        s.len() - 1
    } else {
        last_sep(s.drop_last())
    }
}

/// Index of the last dot, or -1 when there is none.
pub open spec fn last_dot(s: Seq<char>) -> int
    decreases s.len(),
{
    if s.len() == 0 {
        -1
    } else if s.last() == '.' {
        s.len() - 1
    } else {
        last_dot(s.drop_last())
    }
}

/// Whether a path's final component carries an extension: it has a dot that
/// is neither its first character (a hidden file has none) nor in a parent
/// component.
pub open spec fn has_extension(s: Seq<char>) -> bool {
    last_dot(s) > last_sep(s) + 1
}

/// A path with its extension replaced: the final component loses what
/// follows its last dot, or gains an extension where it had none.
pub open spec fn spec_with_extension(path: Seq<char>, ext: Seq<char>) -> Seq<char> {
    if has_extension(path) {
        path.take(last_dot(path)) + "."@ + ext
    } else {
        path + "."@ + ext
    }
}

/// The stem of a path's final component: the component without its
/// extension.
pub open spec fn spec_file_stem(path: Seq<char>) -> Seq<char> {
    if has_extension(path) {
        path.subrange(last_sep(path) + 1, last_dot(path))
    } else {
        path.skip(last_sep(path) + 1)
    }
}

/// Where the scan from the end first hits a separator, that is the last one.
proof fn lemma_last_sep_at(s: Seq<char>, j: int)
    requires
        -1 <= j < s.len(),
        forall|k: int| j < k < s.len() ==> !is_sep(s[k]),
        j >= 0 ==> is_sep(s[j]),
    ensures
        last_sep(s) == j,
    decreases s.len(),
{
    if s.len() > 0 && j < s.len() - 1 {
        lemma_last_sep_at(s.drop_last(), j);
    }
}

/// Where the scan from the end first hits a dot, that is the last one.
proof fn lemma_last_dot_at(s: Seq<char>, j: int)
    requires
        -1 <= j < s.len(),
        forall|k: int| j < k < s.len() ==> s[k] != '.',
        j >= 0 ==> s[j] == '.',
    ensures
        last_dot(s) == j,
    decreases s.len(),
{
    if s.len() > 0 && j < s.len() - 1 {
        lemma_last_dot_at(s.drop_last(), j);
    }
}

/// Scans a path for its last separator and last dot. The results are the
/// indices plus one, so that zero means there is none.
fn scan_sep_dot(path: &str) -> (r: (usize, usize))
    ensures
        r.0 == last_sep(path@) + 1,
        r.1 == last_dot(path@) + 1,
        r.0 <= path@.len(),
        r.1 <= path@.len(),
{
    let len = path.unicode_len();
    let mut i = len;
    let mut sep: usize = 0;
    while i > 0 && sep == 0
        invariant
            len == path@.len(),
            i <= len,
            sep == 0 ==> forall|k: int| i <= k < len ==> !is_sep(path@[k]),
            sep > 0 ==> (sep == i + 1 && i < len && is_sep(path@[i as int]) && forall|k: int|
                i < k < len ==> !is_sep(path@[k])),
        decreases i,
    {
        let c = path.get_char(i - 1);
        if c == '\\' || c == '/' {
            sep = i;
        }
        i -= 1;
    }
    proof {
        if sep == 0 {
            lemma_last_sep_at(path@, -1);
        } else {
            lemma_last_sep_at(path@, sep - 1);
        }
    }
    let mut j = len;
    let mut dot: usize = 0;
    while j > 0 && dot == 0
        invariant
            len == path@.len(),
            j <= len,
            dot == 0 ==> forall|k: int| j <= k < len ==> path@[k] != '.',
            dot > 0 ==> (dot == j + 1 && j < len && path@[j as int] == '.' && forall|k: int|
                j < k < len ==> path@[k] != '.'),
        decreases j,
    {
        if path.get_char(j - 1) == '.' {
            dot = j;
        }
        j -= 1;
    }
    proof {
        if dot == 0 {
            lemma_last_dot_at(path@, -1);
        } else {
            lemma_last_dot_at(path@, dot - 1);
        }
    }
    (sep, dot)
}

/// Replaces a path's extension, as [`spec_with_extension`] says. This is
/// how the staging and backup names beside a live file are made.
pub fn with_extension(path: &str, ext: &str) -> (r: String)
    ensures
        r@ == spec_with_extension(path@, ext@),
{
    let (sep, dot) = scan_sep_dot(path);
    let mut s = if dot > sep && dot - sep > 1 {
        path.substring_char(0, dot - 1).to_owned()
    } else {
        path.to_owned()
    };
    s.append(".");
    s.append(ext);
    s
}

/// The stem of a path's final component, as [`spec_file_stem`] says;
/// nothing when the component is empty. The module's versioned directory
/// is named after its artifact's stem.
pub fn file_stem(path: &str) -> (r: Option<String>)
    ensures
        match r {
            Some(stem) => spec_file_stem(path@).len() > 0 && stem@ == spec_file_stem(path@),
            None => spec_file_stem(path@).len() == 0,
        },
{
    let len = path.unicode_len();
    let (sep, dot) = scan_sep_dot(path);
    let stem = if dot > sep && dot - sep > 1 {
        path.substring_char(sep, dot - 1)
    } else {
        path.substring_char(sep, len)
    };
    if stem.unicode_len() == 0 {
        None
    } else {
        Some(stem.to_owned())
    }
}

} // verus!
