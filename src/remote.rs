//! Decisions on what remote listings show, and where a removal points.
use vstd::prelude::*;
use vstd::string::*;
use crate::error::Error;
use crate::game_paths::{plugin_path_spec, get_plugin_path};
use crate::install::select_title_id;
use crate::manifest::Metadata;

verus! {

/// The name every runtime module file starts with.
pub const SUBSDK_MARKER: &'static str = "subsdk";

/// The positions at which `pat` starts in `s`. For a pattern that cannot
/// overlap itself (such as `subsdk`) this is also the number of
/// non-overlapping matches.
pub open spec fn occurrences(s: Seq<char>, pat: Seq<char>) -> nat
    decreases s.len(),
{
    if s.len() < pat.len() || s.len() == 0 {
        0
    } else {
        (if s.subrange(0, pat.len() as int) == pat { 1nat } else { 0nat }) + occurrences(
            s.drop_first(),
            pat,
        )
    }
}

fn matches_at(s: &str, n: usize, i: usize, pat: &str, m: usize) -> (r: bool)
    requires
        n == s@.len(),
        m == pat@.len(),
        i + m <= n,
    ensures
        r == (s@.subrange(i as int, i + m) == pat@),
{
    let mut k: usize = 0;
    while k < m
        invariant
            n == s@.len(),
            m == pat@.len(),
            i + m <= n,
            k <= m,
            forall|j: int| 0 <= j < k ==> s@[i + j] == pat@[j],
        decreases m - k,
    {
        if s.get_char(i + k) != pat.get_char(k) {
            assert(s@.subrange(i as int, i + m)[k as int] != pat@[k as int]);
            return false;
        }
        k = k + 1;
    }
    assert(s@.subrange(i as int, i + m) =~= pat@);
    true
}

/// How many times `pat` starts in `s`.
pub fn count_occurrences(s: &str, pat: &str) -> (r: usize)
    requires
        pat@.len() > 0,
    ensures
        r as nat == occurrences(s@, pat@),
{
    let n = s.unicode_len();
    let m = pat.unicode_len();
    if m > n {
        return 0;
    }
    let mut count: usize = 0;
    let mut i: usize = 0;
    assert(s@.subrange(0, n as int) =~= s@);
    while i <= n - m
        invariant
            m <= n,
            n == s@.len(),
            m == pat@.len(),
            m > 0,
            i <= n,
            count <= i,
            count + occurrences(s@.subrange(i as int, n as int), pat@) == occurrences(s@, pat@),
        decreases n - i,
    {
        let ghost rest = s@.subrange(i as int, n as int);
        assert(rest.drop_first() =~= s@.subrange(i + 1, n as int));
        assert(rest.subrange(0, m as int) =~= s@.subrange(i as int, i + m));
        if matches_at(s, n, i, pat, m) {
            count = count + 1;
        }
        i = i + 1;
    }
    assert(occurrences(s@.subrange(i as int, n as int), pat@) == 0);
    count
}

/// An older runtime install leaves more than one module file in `exefs`;
/// the result only warrants a warning.
pub fn has_old_subsdk(listing: &str) -> (r: bool)
    ensures
        r == (occurrences(listing@, SUBSDK_MARKER@) > 1),
{
    proof {
        reveal_strlit("subsdk");
    }
    count_occurrences(listing, SUBSDK_MARKER) > 1
}

/// A removal path that starts with `/` is taken as it is.
pub open spec fn is_absolute(p: Seq<char>) -> bool {
    p.len() > 0 && p[0] == '/'
}

pub fn is_absolute_remote(path: &str) -> (r: bool)
    ensures
        r == is_absolute(path@),
{
    path.unicode_len() > 0 && path.get_char(0) == '/'
}

/// `lib<name>.nro`
pub open spec fn default_artifact_name(crate_name: Seq<char>) -> Seq<char> {
    "lib"@ + crate_name + ".nro"@
}

pub fn default_artifact(crate_name: &str) -> (r: String)
    ensures
        r@ == default_artifact_name(crate_name@),
{
    let mut s = String::from_str("lib");
    s.append(crate_name);
    s.append(".nro");
    s
}

pub open spec fn opt_string_view(o: Option<String>) -> Option<Seq<char>> {
    match o {
        Some(s) => Some(s@),
        None => None,
    }
}

/// The remote file a removal names: an absolute path as it is; otherwise a
/// file of the title's plugin directory, by default the project's own
/// artifact.
pub fn get_install_path(title_id: Option<String>, filename: Option<String>, md: &Metadata) -> (r:
    Result<String, Error>)
    ensures
        match filename {
            Some(f) if is_absolute(f@) => r == Ok::<String, Error>(f),
            _ => {
                let name = match filename {
                    Some(f) => f@,
                    None => default_artifact_name(md.name@),
                };
                match opt_string_view(title_id) {
                    Some(t) => r is Ok && r->Ok_0@ == plugin_path_spec(t, name),
                    None => match opt_string_view(md.title_id) {
                        Some(t) => r is Ok && r->Ok_0@ == plugin_path_spec(t, name),
                        None => r == Err::<String, Error>(Error::NoTitleId),
                    },
                }
            },
        },
{
    if let Some(f) = &filename {
        if is_absolute_remote(f.as_str()) {
            return Ok(f.clone());
        }
    }
    let name = match filename {
        Some(f) => f,
        None => default_artifact(md.name.as_str()),
    };
    let declared = match &md.title_id {
        Some(t) => Some(t.clone()),
        None => None,
    };
    let title = select_title_id(title_id, declared)?;
    Ok(get_plugin_path(title.as_str(), name.as_str()))
}

/// Marks a copy destination from the storage root.
pub const SD_MARKER: &'static str = "sd:/";

/// `s` with every `sd:/` (scanning left to right) written as `/`.
pub open spec fn sd_to_root(s: Seq<char>) -> Seq<char>
    decreases s.len(),
{
    if s.len() == 0 {
        s
    } else if s.len() >= 4 && s.subrange(0, 4) == SD_MARKER@ {
        seq!['/'] + sd_to_root(s.subrange(4, s.len() as int))
    } else {
        seq![s[0]] + sd_to_root(s.drop_first())
    }
}

/// The remote path a copy names: absolute target paths must be written
/// with `sd:/`, which then stands for the root.
pub fn copy_destination(dest: &str) -> (r: Result<String, Error>)
    ensures
        match r {
            Ok(p) => !is_absolute(dest@) && p@ == sd_to_root(dest@),
            Err(e) => is_absolute(dest@) && e == Error::AbsSwitchPath,
        },
{
    if is_absolute_remote(dest) {
        return Err(Error::AbsSwitchPath);
    }
    proof {
        reveal_strlit("sd:/");
    }
    let n = dest.unicode_len();
    let mut out = String::new();
    let mut i: usize = 0;
    assert(dest@.subrange(0, n as int) =~= dest@);
    while i < n
        invariant
            n == dest@.len(),
            i <= n,
            out@ + sd_to_root(dest@.subrange(i as int, n as int)) == sd_to_root(dest@),
            SD_MARKER@ == seq!['s', 'd', ':', '/'],
        decreases n - i,
    {
        let ghost rest = dest@.subrange(i as int, n as int);
        if n - i >= 4 && matches_at(dest, n, i, SD_MARKER, 4) {
            assert(rest.subrange(0, 4) =~= dest@.subrange(i as int, i + 4));
            assert(rest.subrange(4, rest.len() as int) =~= dest@.subrange(i + 4, n as int));
            out.append("/");
            proof {
                reveal_strlit("/");
            }
            i = i + 4;
            assert(out@ + sd_to_root(dest@.subrange(i as int, n as int)) =~= sd_to_root(dest@));
        } else {
            if n - i >= 4 {
                assert(rest.subrange(0, 4) =~= dest@.subrange(i as int, i + 4));
            }
            out.append(dest.substring_char(i, i + 1));
            assert(rest.drop_first() =~= dest@.subrange(i + 1, n as int));
            i = i + 1;
            assert(out@ + sd_to_root(dest@.subrange(i as int, n as int)) =~= sd_to_root(dest@));
        }
    }
    assert(out@ =~= out@ + sd_to_root(dest@.subrange(n as int, n as int)));
    Ok(out)
}

/// The last non-empty segment of a `/`-separated path, if any.
pub open spec fn last_segment(p: Seq<char>) -> Option<Seq<char>>
    decreases p.len(),
{
    if p.len() == 0 {
        None
    } else if p.last() == '/' {
        last_segment(p.drop_last())
    } else {
        let segs = crate::text::split(p, '/');
        Some(segs.last())
    }
}

/// Where a copied file lands: the destination itself when it already ends
/// in the file's name, else the file's name under the destination.
pub open spec fn copy_file_path(install: Seq<char>, dest: Seq<char>, name: Seq<char>) -> Seq<char> {
    if last_segment(dest) == Some(name) {
        install
    } else if install.len() > 0 && install.last() == '/' {
        install + name
    } else {
        install + "/"@ + name
    }
}

pub fn copy_target(install: String, dest: &str, name: &str) -> (r: String)
    ensures
        r@ == copy_file_path(install@, dest@, name@),
{
    let n = dest.unicode_len();
    let mut m = n;
    assert(dest@.subrange(0, n as int) =~= dest@);
    while m > 0 && dest.get_char(m - 1) == '/'
        invariant
            m <= n,
            n == dest@.len(),
            last_segment(dest@.subrange(0, m as int)) == last_segment(dest@),
        decreases m,
    {
        assert(dest@.subrange(0, m as int).drop_last() =~= dest@.subrange(0, m - 1));
        m = m - 1;
    }
    let same = if m == 0 {
        false
    } else {
        let trimmed = dest.substring_char(0, m);
        let ranges = crate::text::split_ranges(trimmed, '/');
        proof {
            crate::text::lemma_split_nonempty(trimmed@, '/');
        }
        let (a, b) = ranges[ranges.len() - 1];
        let last = trimmed.substring_char(a, b);
        let k = last.unicode_len();
        k == name.unicode_len() && (k == 0 || matches_at(last, k, 0, name, k))
    };
    proof {
        if m > 0 && same {
            assert(name@ =~= crate::text::split(dest@.subrange(0, m as int), '/').last());
        }
        if m > 0 && !same {
            let last = crate::text::split(dest@.subrange(0, m as int), '/').last();
            if last.len() == name@.len() && last.len() > 0 {
                assert(last.subrange(0, last.len() as int) =~= last);
            }
        }
    }
    if same {
        return install;
    }
    let ends_in_slash = {
        let k = install.as_str().unicode_len();
        k > 0 && install.as_str().get_char(k - 1) == '/'
    };
    let mut out = install;
    if !ends_in_slash {
        out.append("/");
    }
    out.append(name);
    out
}

} // verus!
