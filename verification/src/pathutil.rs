//! Path handling on plain strings: joining, absoluteness, drive-letter
//! tokens, and file names.
//!
//! Paths are modelled as character strings with a single separator per
//! platform; the functions here are pure and perform no I/O or existence
//! checks.

use vstd::prelude::*;
use crate::Platform;

verus! {

/// An ASCII letter.
pub open spec fn is_ascii_alpha(c: char) -> bool {
    (97 <= c as u32 && c as u32 <= 122) || (65 <= c as u32 && c as u32 <= 90)
}

pub fn char_is_ascii_alpha(c: char) -> (r: bool)
    ensures
        r == is_ascii_alpha(c),
{
    let v = c as u32;
    (97 <= v && v <= 122) || (65 <= v && v <= 90)
}

/// A Windows drive-letter token: exactly one ASCII letter followed by a
/// colon, such as `E:`.
pub open spec fn is_drive_letter_spec(s: Seq<char>) -> bool {
    s.len() == 2 && is_ascii_alpha(s[0]) && s[1] == ':'
}

/// Whether `s` is a two-character drive-letter token.
pub fn is_windows_drive_letter(s: &str) -> (r: bool)
    ensures
        r == is_drive_letter_spec(s@),
{
    if s.unicode_len() != 2 {
        return false;
    }
    char_is_ascii_alpha(s.get_char(0)) && s.get_char(1) == ':'
}

/// Whether `s` is an absolute path on `p`: on POSIX a path that starts with
/// `/`; on Windows a drive-rooted path (`C:\` or `C:/`) or a UNC path
/// (`\\server\...`).
pub open spec fn is_absolute_spec(s: Seq<char>, p: Platform) -> bool {
    match p {
        Platform::Posix => s.len() > 0 && s[0] == '/',
        Platform::Windows => (s.len() >= 3 && is_ascii_alpha(s[0]) && s[1] == ':' && (s[2]
            == '\\' || s[2] == '/')) || (s.len() >= 2 && s[0] == '\\' && s[1] == '\\'),
    }
}

pub fn is_absolute(s: &str, p: &Platform) -> (r: bool)
    ensures
        r == is_absolute_spec(s@, *p),
{
    let n = s.unicode_len();
    match p {
        Platform::Posix => n > 0 && s.get_char(0) == '/',
        Platform::Windows => {
            if n >= 3 && char_is_ascii_alpha(s.get_char(0)) && s.get_char(1) == ':' {
                let c = s.get_char(2);
                if c == '\\' || c == '/' {
                    return true;
                }
            }
            n >= 2 && s.get_char(0) == '\\' && s.get_char(1) == '\\'
        },
    }
}

/// `base` extended by the relative path `rel`: the two joined by a single
/// separator, which is not doubled when `base` already ends with one; an
/// empty `base` yields `rel` alone.
pub open spec fn join_path_spec(base: Seq<char>, rel: Seq<char>, sep: char) -> Seq<char> {
    if base.len() == 0 {
        rel
    } else if base[base.len() - 1] == sep {
        base + rel
    } else {
        base + seq![sep] + rel
    }
}

/// Appends the platform separator to `s`.
fn push_sep(s: &mut String, sep: char)
    requires
        sep == '/' || sep == '\\',
    ensures
        final(s)@ == old(s)@ + seq![sep],
{
    if sep == '/' {
        s.append("/");
        proof {
            reveal_strlit("/");
            assert("/"@ =~= seq!['/']);
            assert(s@ =~= old(s)@ + seq![sep]);
        }
    } else {
        s.append("\\");
        proof {
            reveal_strlit("\\");
            assert("\\"@ =~= seq!['\\']);
            assert(s@ =~= old(s)@ + seq![sep]);
        }
    }
}

/// Joins `rel` onto `base` with the platform's separator.
pub fn join_path(base: &str, rel: &str, p: &Platform) -> (r: String)
    ensures
        r@ == join_path_spec(base@, rel@, p.sep_spec()),
{
    let n = base.unicode_len();
    if n == 0 {
        return String::from_str(rel);
    }
    let mut r = String::from_str(base);
    let sep = p.sep();
    if base.get_char(n - 1) != sep {
        push_sep(&mut r, sep);
    }
    r.append(rel);
    proof {
        if base@[n - 1] == p.sep_spec() {
            assert(r@ =~= base@ + rel@);
        } else {
            assert(r@ =~= base@ + seq![p.sep_spec()] + rel@);
        }
    }
    r
}

/// Joining any relative path onto an absolute base yields an absolute
/// path: resolution against an absolute working directory always produces
/// an absolute result.
pub proof fn lemma_join_preserves_absolute(base: Seq<char>, rel: Seq<char>, p: Platform)
    requires
        is_absolute_spec(base, p),
    ensures
        is_absolute_spec(join_path_spec(base, rel, p.sep_spec()), p),
{
    let r = join_path_spec(base, rel, p.sep_spec());
    match p {
        Platform::Posix => {
            assert(r[0] == base[0]);
        },
        Platform::Windows => {
            if base.len() >= 3 && is_ascii_alpha(base[0]) && base[1] == ':' && (base[2] == '\\'
                || base[2] == '/') {
                assert(r[0] == base[0] && r[1] == base[1] && r[2] == base[2]);
            } else {
                assert(r[0] == base[0] && r[1] == base[1]);
            }
        },
    }
}

/// Resolves `path` against the working directory `cwd`: an absolute path is
/// returned unchanged, a relative one is joined onto `cwd`.
pub open spec fn absolute_path_spec(path: Seq<char>, cwd: Seq<char>, p: Platform) -> Seq<char> {
    if is_absolute_spec(path, p) {
        path
    } else {
        join_path_spec(cwd, path, p.sep_spec())
    }
}

pub fn absolute_path(path: &str, cwd: &str, p: &Platform) -> (r: String)
    ensures
        r@ == absolute_path_spec(path@, cwd@, *p),
{
    if is_absolute(path, p) {
        String::from_str(path)
    } else {
        join_path(cwd, path, p)
    }
}

/// `s` with any trailing separators removed.
pub open spec fn strip_trailing_sep_spec(s: Seq<char>, sep: char) -> Seq<char>
    decreases s.len(),
{
    if s.len() > 0 && s[s.len() - 1] == sep {
        strip_trailing_sep_spec(s.subrange(0, s.len() - 1), sep)
    } else {
        s
    }
}

/// Dropping a wholly-separator suffix in one cut gives the same result as
/// stripping the separators one by one.
proof fn lemma_strip_trailing_skip(s: Seq<char>, sep: char, i: int)
    requires
        0 <= i <= s.len(),
        forall|k: int| i <= k < s.len() ==> s[k] == sep,
    ensures
        strip_trailing_sep_spec(s, sep) == strip_trailing_sep_spec(s.subrange(0, i), sep),
    decreases s.len() - i,
{
    if i < s.len() {
        assert(s[s.len() - 1] == sep);
        let t = s.subrange(0, s.len() - 1);
        lemma_strip_trailing_skip(t, sep, i);
        assert(t.subrange(0, i) =~= s.subrange(0, i));
    } else {
        assert(s.subrange(0, s.len() as int) =~= s);
    }
}

/// Removes trailing platform separators from `s`.
pub fn strip_trailing_sep(s: &str, p: &Platform) -> (r: String)
    ensures
        r@ == strip_trailing_sep_spec(s@, p.sep_spec()),
{
    let n = s.unicode_len();
    let sep = p.sep();
    let mut end: usize = n;
    while end > 0 && s.get_char(end - 1) == sep
        invariant
            n == s@.len(),
            end <= n,
            sep == p.sep_spec(),
            forall|k: int| end <= k < n ==> s@[k] == p.sep_spec(),
        decreases end,
    {
        end -= 1;
    }
    let r = String::from_str(s.substring_char(0, end));
    proof {
        lemma_strip_trailing_skip(s@, p.sep_spec(), end as int);
        let cut = s@.subrange(0, end as int);
        if cut.len() > 0 && cut[cut.len() - 1] == p.sep_spec() {
            assert(s@[end - 1] == p.sep_spec());
            assert(false);
        }
        assert(strip_trailing_sep_spec(cut, p.sep_spec()) == cut);
    }
    r
}

/// The final component of `path`: everything after the last separator, or
/// the whole path when it holds no separator.  Empty when the path ends
/// with a separator.
pub open spec fn file_name_spec(path: Seq<char>, sep: char) -> Seq<char>
    decreases path.len(),
{
    if path.len() == 0 {
        path
    } else if path[path.len() - 1] == sep {
        Seq::<char>::empty()
    } else {
        file_name_spec(path.subrange(0, path.len() - 1), sep).push(path[path.len() - 1])
    }
}

/// The final path component, for use as a volume name.
pub fn file_name(path: &str, p: &Platform) -> (r: String)
    ensures
        r@ == file_name_spec(path@, p.sep_spec()),
{
    let n = path.unicode_len();
    let sep = p.sep();
    let mut start: usize = n;
    while start > 0 && path.get_char(start - 1) != sep
        invariant
            n == path@.len(),
            start <= n,
            sep == p.sep_spec(),
            forall|k: int| start <= k < n ==> path@[k] != p.sep_spec(),
        decreases start,
    {
        start -= 1;
    }
    let r = String::from_str(path.substring_char(start, n));
    proof {
        lemma_file_name_suffix(path@, p.sep_spec(), start as int);
    }
    r
}

/// The file name is exactly the suffix that follows the last separator.
proof fn lemma_file_name_suffix(path: Seq<char>, sep: char, start: int)
    requires
        0 <= start <= path.len(),
        forall|k: int| start <= k < path.len() ==> path[k] != sep,
        start > 0 ==> path[start - 1] == sep,
    ensures
        file_name_spec(path, sep) == path.subrange(start, path.len() as int),
    decreases path.len() - start,
{
    if start == path.len() {
        if path.len() > 0 {
            assert(path[path.len() - 1] == sep);
        }
        assert(path.subrange(start, path.len() as int) =~= Seq::<char>::empty());
        if path.len() == 0 {
            assert(file_name_spec(path, sep) =~= Seq::<char>::empty());
        }
    } else {
        let pre = path.subrange(0, path.len() - 1);
        assert(path[path.len() - 1] != sep);
        if start == path.len() - 1 {
            lemma_file_name_suffix(pre, sep, start);
            assert(pre.subrange(start, pre.len() as int) =~= Seq::<char>::empty());
            assert(file_name_spec(path, sep) =~= path.subrange(start, path.len() as int));
        } else {
            lemma_file_name_suffix(pre, sep, start);
            assert(pre.subrange(start, pre.len() as int) =~= path.subrange(
                start,
                path.len() - 1,
            ));
            assert(file_name_spec(path, sep) =~= path.subrange(start, path.len() as int));
        }
    }
}

} // verus!
