//! Checks and normalizations of the sqlite connection URL: scheme
//! validation, extraction of the filesystem part, and deterministic
//! normalization of Windows-style drive-letter paths.

use vstd::prelude::*;
use vstd::string::StrSliceExecFns;
use vstd::string::StringExecFns;

use crate::strutil::{has_prefix, match_lit_at};

verus! {

/// Why a sqlite connection URL was rejected.
#[derive(Clone, Copy, Debug, PartialEq, Eq, Structural)]
pub enum PathError {
    NotSqliteUrl,
    MissingPathComponent,
}

impl PathError {
    /// The human-readable description of the rejection.
    pub fn message(&self) -> (r: &'static str)
        ensures
            match *self {
                PathError::NotSqliteUrl => r@
                    == "sqlite path must start with `sqlite://` or use `sqlite::memory:`"@,
                PathError::MissingPathComponent => r@
                    == "sqlite path is missing a filesystem component after `sqlite://`"@,
            },
    {
        match self {
            PathError::NotSqliteUrl => "sqlite path must start with `sqlite://` or use `sqlite::memory:`",
            PathError::MissingPathComponent => "sqlite path is missing a filesystem component after `sqlite://`",
        }
    }
}

/// `s` with every leading repetition of `sqlite://` removed.
pub open spec fn strip_sqlite_prefix_all(s: Seq<char>) -> Seq<char>
    decreases s.len(),
{
    if "sqlite://"@.is_prefix_of(s) && "sqlite://"@.len() == 9 {
        strip_sqlite_prefix_all(s.skip(9))
    } else {
        s
    }
}

/// The position of the first `?`, or the length when there is none.
pub open spec fn first_query_mark(s: Seq<char>) -> int
    decreases s.len(),
{
    if s.len() == 0 {
        0
    } else if s[0] == '?' {
        0
    } else {
        1 + first_query_mark(s.drop_first())
    }
}

/// Everything before the first `?`: the filesystem part of the URL body.
pub open spec fn before_query(s: Seq<char>) -> Seq<char> {
    s.take(first_query_mark(s))
}

proof fn lemma_first_query_mark_at(s: Seq<char>, k: int)
    requires
        0 <= k <= s.len(),
        forall|j: int| 0 <= j < k ==> s[j] != '?',
        k < s.len() ==> s[k] == '?',
    ensures
        first_query_mark(s) == k,
    decreases s.len(),
{
    if k > 0 {
        let rest = s.drop_first();
        assert(forall|j: int| 0 <= j < k - 1 ==> rest[j] == s[j + 1]);
        lemma_first_query_mark_at(rest, k - 1);
    }
}

/// A leading slash in front of a drive letter and colon is dropped.
pub open spec fn is_drive_letter_char(c: char) -> bool {
    (0x61 <= c as u32 && c as u32 <= 0x7a) || (0x41 <= c as u32 && c as u32 <= 0x5a)
}

pub open spec fn spec_strip_lead_slash(s: Seq<char>) -> Seq<char> {
    if s.len() >= 3 && s[0] == '/' && is_drive_letter_char(s[1]) && s[2] == ':' {
        s.drop_first()
    } else {
        s
    }
}

/// A drive-letter URL body such as `C:/dir/file` is read as relative to
/// the working directory on that drive: the root slash after the colon is
/// removed. Anything else is left alone.
pub open spec fn spec_normalize_path(s0: Seq<char>) -> Seq<char> {
    let s = spec_strip_lead_slash(s0);
    if s.len() >= 3 && s[0] != '/' && s[1] == ':' && (s[2] == '/' || s[2] == '\\') {
        s.take(2) + s.skip(3)
    } else {
        s
    }
}

fn is_drive_letter(c: char) -> (r: bool)
    ensures
        r == is_drive_letter_char(c),
{
    let u = c as u32;
    (0x61 <= u && u <= 0x7a) || (0x41 <= u && u <= 0x5a)
}

/// Normalize a Windows-style drive-letter path out of a sqlite URL body,
/// deterministically on every platform: `/C:/x` and `C:/x` both become
/// `C:x`. Paths without a drive prefix come back unchanged.
pub fn normalize_windows_style_sqlite_path(path_part: &str) -> (r: String)
    ensures
        r@ == spec_normalize_path(path_part@),
{
    let n = path_part.unicode_len();
    let stripped: &str = if n >= 3 && path_part.get_char(0) == '/' && is_drive_letter(
        path_part.get_char(1),
    ) && path_part.get_char(2) == ':' {
        let t = path_part.substring_char(1, n);
        proof {
            assert(path_part@.drop_first() =~= path_part@.subrange(1, n as int));
        }
        t
    } else {
        path_part
    };
    let m = stripped.unicode_len();
    if m >= 3 && stripped.get_char(0) != '/' && stripped.get_char(1) == ':' && (stripped.get_char(2)
        == '/' || stripped.get_char(2) == '\\') {
        let mut out = String::from_str(stripped.substring_char(0, 2));
        out.append(stripped.substring_char(3, m));
        proof {
            assert(stripped@.subrange(0, 2) =~= stripped@.take(2));
            assert(stripped@.subrange(3, m as int) =~= stripped@.skip(3));
        }
        out
    } else {
        stripped.to_owned()
    }
}

/// Skip every leading repetition of `sqlite://`, returning the first
/// position after them.
fn skip_sqlite_prefixes(uri: &str) -> (r: usize)
    ensures
        r <= uri@.len(),
        strip_sqlite_prefix_all(uri@) == uri@.skip(r as int),
        !"sqlite://"@.is_prefix_of(uri@.skip(r as int)),
{
    let n = uri.unicode_len();
    let mut start: usize = 0;
    proof {
        assert(uri@.skip(0) =~= uri@);
    }
    while match_lit_at(uri, start, "sqlite://")
        invariant
            start <= n,
            n == uri@.len(),
            strip_sqlite_prefix_all(uri@) == strip_sqlite_prefix_all(uri@.skip(start as int)),
        decreases n - start,
    {
        proof {
            reveal_strlit("sqlite://");
            assert(uri@.skip(start as int).skip(9) =~= uri@.skip(start as int + 9));
        }
        start = start + 9;
    }
    proof {
        reveal_strlit("sqlite://");
    }
    start
}

/// The position of the first `?` at or after `from`, or the length.
fn find_query_mark(s: &str, from: usize) -> (r: usize)
    requires
        from <= s@.len(),
    ensures
        from <= r <= s@.len(),
        first_query_mark(s@.skip(from as int)) == r - from,
    decreases s@.len() - from,
{
    let n = s.unicode_len();
    let mut k: usize = from;
    while k < n && s.get_char(k) != '?'
        invariant
            from <= k <= n,
            n == s@.len(),
            forall|j: int| from <= j < k ==> s@[j] != '?',
        decreases n - k,
    {
        k = k + 1;
    }
    proof {
        let suf = s@.skip(from as int);
        assert(forall|j: int| 0 <= j < k - from ==> suf[j] == s@[j + from]);
        lemma_first_query_mark_at(suf, k - from);
    }
    k
}

/// The URL body handed to the filesystem: everything after the scheme
/// repetitions and before the query string.
pub fn extract_path_part(uri: &str) -> (r: String)
    ensures
        r@ == before_query(strip_sqlite_prefix_all(uri@)),
{
    let start = skip_sqlite_prefixes(uri);
    let end = find_query_mark(uri, start);
    let r = uri.substring_char(start, end).to_owned();
    proof {
        let body = uri@.skip(start as int);
        assert(body.take(first_query_mark(body)) =~= uri@.subrange(start as int, end as int));
    }
    r
}

/// A URL is a usable sqlite target when it is a memory form, or a
/// `sqlite://` form with a non-empty filesystem component.
pub open spec fn spec_valid_sqlite_path(p: Seq<char>) -> bool {
    "sqlite::memory:"@.is_prefix_of(p) || ("sqlite://"@.is_prefix_of(p) && before_query(
        strip_sqlite_prefix_all(p),
    ).len() > 0)
}

/// Check a configured sqlite URL before using it: memory forms pass,
/// `sqlite://` forms must keep a filesystem component, and anything else
/// is rejected as not a sqlite URL.
pub fn validate_sqlite_path(path: &str) -> (r: Result<(), PathError>)
    ensures
        match r {
            Ok(()) => spec_valid_sqlite_path(path@),
            Err(PathError::NotSqliteUrl) => !"sqlite::memory:"@.is_prefix_of(path@)
                && !"sqlite://"@.is_prefix_of(path@),
            Err(PathError::MissingPathComponent) => !"sqlite::memory:"@.is_prefix_of(path@)
                && "sqlite://"@.is_prefix_of(path@) && before_query(
                strip_sqlite_prefix_all(path@),
            ).len() == 0,
        },
{
    if has_prefix(path, "sqlite::memory:") {
        return Ok(());
    }
    if !has_prefix(path, "sqlite://") {
        return Err(PathError::NotSqliteUrl);
    }
    let part = extract_path_part(path);
    if part.as_str().is_empty() {
        Err(PathError::MissingPathComponent)
    } else {
        Ok(())
    }
}

/// The position of the last `/`, or `-1` when there is none.
pub open spec fn last_slash(s: Seq<char>) -> int
    decreases s.len(),
{
    if s.len() == 0 {
        -1
    } else if s.last() == '/' {
        s.len() - 1
    } else {
        last_slash(s.drop_last())
    }
}

/// The directory part of a slash-separated path: everything before the
/// last `/`, the root for a path directly under it, nothing for a bare
/// file name.
pub open spec fn parent_dir_of(s: Seq<char>) -> Option<Seq<char>> {
    let k = last_slash(s);
    if k > 0 {
        Some(s.take(k))
    } else if k == 0 {
        Some("/"@)
    } else {
        None
    }
}

proof fn lemma_last_slash_at(s: Seq<char>, k: int)
    requires
        -1 <= k < s.len(),
        k >= 0 ==> s[k] == '/',
        forall|j: int| k < j < s.len() ==> s[j] != '/',
    ensures
        last_slash(s) == k,
    decreases s.len(),
{
    if s.len() > 0 && k < s.len() - 1 {
        let rest = s.drop_last();
        assert(forall|j: int| 0 <= j < rest.len() ==> rest[j] == s[j]);
        lemma_last_slash_at(rest, k);
    }
}

/// The directory that must exist before the sqlite file can be created:
/// none for memory URLs and for URLs of other schemes, and none when the
/// normalized filesystem part has no directory component.
pub open spec fn spec_sqlite_parent_dir(p: Seq<char>) -> Option<Seq<char>> {
    if "sqlite::memory:"@.is_prefix_of(p) {
        None
    } else if "sqlite://"@.is_prefix_of(p) {
        parent_dir_of(spec_normalize_path(before_query(p.skip(9))))
    } else {
        None
    }
}

/// Compute the directory to create ahead of opening the sqlite file.
/// The one leading scheme occurrence is removed, the query string
/// dropped, and the body normalized as
/// `normalize_windows_style_sqlite_path` does.
pub fn sqlite_parent_dir(path: &str) -> (r: Option<String>)
    ensures
        match r {
            Some(d) => spec_sqlite_parent_dir(path@) == Some(d@),
            None => spec_sqlite_parent_dir(path@) is None,
        },
{
    if has_prefix(path, "sqlite::memory:") {
        return None;
    }
    if !has_prefix(path, "sqlite://") {
        return None;
    }
    proof {
        reveal_strlit("sqlite://");
    }
    let end = find_query_mark(path, 9);
    let part = path.substring_char(9, end);
    proof {
        assert(path@.skip(9).take(first_query_mark(path@.skip(9))) =~= path@.subrange(
            9,
            end as int,
        ));
    }
    let norm = normalize_windows_style_sqlite_path(part);
    let s = norm.as_str();
    let n = s.unicode_len();
    let mut k: usize = n;
    while k > 0 && s.get_char(k - 1) != '/'
        invariant
            k <= n,
            n == s@.len(),
            forall|j: int| k <= j < n ==> s@[j] != '/',
        decreases k,
    {
        k = k - 1;
    }
    if k == 0 {
        proof {
            lemma_last_slash_at(s@, -1);
        }
        None
    } else if k == 1 {
        proof {
            lemma_last_slash_at(s@, 0);
        }
        Some(String::from_str("/"))
    } else {
        proof {
            lemma_last_slash_at(s@, k - 1);
            assert(s@.subrange(0, k - 1) =~= s@.take(k - 1));
        }
        Some(s.substring_char(0, k - 1).to_owned())
    }
}

} // verus!
