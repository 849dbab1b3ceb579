//! Where an artifact goes on the target, and the ordered provisioning steps
//! of one deployment.
use vstd::prelude::*;
use vstd::string::*;
use crate::error::Error;
use crate::game_paths::{game_path_spec, plugin_path_spec, subsdk_path_spec, npdm_path_spec,
    get_game_path, get_plugin_path, get_subsdk_path, get_npdm_path};
use crate::manifest::Metadata;
use crate::text::{split, split_ranges, lemma_split_nonempty};

verus! {

/// Marks a path relative to the title's romfs root.
pub const ROM_PREFIX: &'static str = "rom:/";

/// Marks a path from the root of the target's storage.
pub const SD_PREFIX: &'static str = "sd:/";

/// Where plugins go when no path is given, relative to the romfs root.
pub const DEFAULT_PLUGIN_DIR: &'static str = "skyline/plugins";

/// File name of the runtime module when the project names none.
pub const DEFAULT_SUBSDK_NAME: &'static str = "subsdk9";

/// The extension of a plugin binary.
pub const NRO_EXTENSION: &'static str = ".nro";

pub open spec fn has_prefix(s: Seq<char>, p: Seq<char>) -> bool {
    p.len() <= s.len() && s.subrange(0, p.len() as int) == p
}

pub open spec fn has_suffix(s: Seq<char>, p: Seq<char>) -> bool {
    p.len() <= s.len() && s.subrange(s.len() - p.len(), s.len() as int) == p
}

/// A resolved install location: a `/`-separated path, and whether it is
/// under the title's romfs root (else under the storage root).
#[derive(Debug, Clone, PartialEq, Eq)]
pub struct InstallLocation {
    pub path: String,
    pub in_romfs: bool,
}

/// `rom:/x` is `x` under romfs, `sd:/x` is `/x`, no path is the default
/// plugin directory; any other form is refused.
pub open spec fn location_of(user_path: Option<Seq<char>>) -> Option<(Seq<char>, bool)> {
    match user_path {
        None => Some((DEFAULT_PLUGIN_DIR@, true)),
        Some(p) => if has_prefix(p, ROM_PREFIX@) {
            Some((p.subrange(ROM_PREFIX@.len() as int, p.len() as int), true))
        } else if has_prefix(p, SD_PREFIX@) {
            Some((p.subrange(SD_PREFIX@.len() as int, p.len() as int), false))
        } else {
            None
        },
    }
}

pub open spec fn opt_view(o: Option<&str>) -> Option<Seq<char>> {
    match o {
        Some(s) => Some(s@),
        None => None,
    }
}

pub fn strip_prefix<'a>(s: &'a str, prefix: &str) -> (r: Option<&'a str>)
    ensures
        match r {
            Some(t) => has_prefix(s@, prefix@) && t@ == s@.subrange(prefix@.len() as int, s@.len() as int),
            None => !has_prefix(s@, prefix@),
        },
{
    let n = s.unicode_len();
    let m = prefix.unicode_len();
    if m > n {
        return None;
    }
    let mut i: usize = 0;
    while i < m
        invariant
            n == s@.len(),
            m == prefix@.len(),
            m <= n,
            i <= m,
            forall|k: int| 0 <= k < i ==> s@[k] == prefix@[k],
        decreases m - i,
    {
        if s.get_char(i) != prefix.get_char(i) {
            assert(s@.subrange(0, m as int)[i as int] != prefix@[i as int]);
            return None;
        }
        i = i + 1;
    }
    assert(s@.subrange(0, m as int) =~= prefix@);
    Some(s.substring_char(m, n))
}

pub fn ends_with(s: &str, suffix: &str) -> (r: bool)
    ensures
        r == has_suffix(s@, suffix@),
{
    let n = s.unicode_len();
    let m = suffix.unicode_len();
    if m > n {
        return false;
    }
    let mut i: usize = 0;
    while i < m
        invariant
            n == s@.len(),
            m == suffix@.len(),
            m <= n,
            i <= m,
            forall|k: int| 0 <= k < i ==> s@[n - m + k] == suffix@[k],
        decreases m - i,
    {
        if s.get_char(n - m + i) != suffix.get_char(i) {
            assert(s@.subrange(n - m, n as int)[i as int] != suffix@[i as int]);
            return false;
        }
        i = i + 1;
    }
    assert(s@.subrange(n - m, n as int) =~= suffix@);
    true
}

/// Reads a user-supplied install path; fails before any network activity
/// when its prefix is not recognised.
pub fn resolve_install_location(user_path: Option<&str>) -> (r: Result<InstallLocation, Error>)
    ensures
        match r {
            Ok(loc) => location_of(opt_view(user_path)) == Some((loc.path@, loc.in_romfs)),
            Err(e) => location_of(opt_view(user_path)) is None && e == Error::BadSdPath,
        },
{
    match user_path {
        None => Ok(InstallLocation { path: String::from_str(DEFAULT_PLUGIN_DIR), in_romfs: true }),
        Some(p) => match strip_prefix(p, ROM_PREFIX) {
            Some(rest) => Ok(InstallLocation { path: String::from_str(rest), in_romfs: true }),
            None => match strip_prefix(p, SD_PREFIX) {
                Some(rest) => Ok(InstallLocation { path: String::from_str(rest), in_romfs: false }),
                None => Err(Error::BadSdPath),
            },
        },
    }
}

/// A path segment names a directory unless it is empty or a binary's name.
pub open spec fn is_dir_segment(t: Seq<char>) -> bool {
    t.len() > 0 && !has_suffix(t, NRO_EXTENSION@)
}

/// The directory segments of a path, in order.
pub open spec fn dir_segments(segs: Seq<Seq<char>>) -> Seq<Seq<char>>
    decreases segs.len(),
{
    if segs.len() == 0 {
        segs
    } else if is_dir_segment(segs.last()) {
        dir_segments(segs.drop_last()).push(segs.last())
    } else {
        dir_segments(segs.drop_last())
    }
}

/// `base/d1/d2/.../dn`
pub open spec fn join_dirs(base: Seq<char>, dirs: Seq<Seq<char>>) -> Seq<char>
    decreases dirs.len(),
{
    if dirs.len() == 0 {
        base
    } else {
        join_dirs(base, dirs.drop_last()) + "/"@ + dirs.last()
    }
}

/// The folder a location starts from: the title's romfs root, or the
/// storage root (the empty prefix of an absolute path).
pub open spec fn location_base(title_id: Seq<char>, in_romfs: bool) -> Seq<char> {
    if in_romfs { game_path_spec(title_id) + "/romfs"@ } else { Seq::empty() }
}

pub open spec fn location_dirs(path: Seq<char>) -> Seq<Seq<char>> {
    dir_segments(split(path, '/'))
}

/// The folder that receives the artifact.
pub open spec fn location_folder(title_id: Seq<char>, path: Seq<char>, in_romfs: bool) -> Seq<char> {
    join_dirs(location_base(title_id, in_romfs), location_dirs(path))
}

/// A path that ends in the binary extension names the file itself;
/// otherwise the artifact keeps its own name.
pub open spec fn artifact_file_name(path: Seq<char>, default_name: Seq<char>) -> Seq<char> {
    if has_suffix(path, NRO_EXTENSION@) { split(path, '/').last() } else { default_name }
}

pub open spec fn install_path_spec(
    title_id: Seq<char>,
    path: Seq<char>,
    in_romfs: bool,
    default_name: Seq<char>,
) -> Seq<char> {
    location_folder(title_id, path, in_romfs) + "/"@ + artifact_file_name(path, default_name)
}

/// The folders to create, in order, so that the artifact's folder exists:
/// the location's base, then each deeper folder on the way.
pub open spec fn folder_chain(title_id: Seq<char>, path: Seq<char>, in_romfs: bool) -> Seq<Seq<char>> {
    let base = location_base(title_id, in_romfs);
    let dirs = location_dirs(path);
    seq![base] + Seq::new(dirs.len(), |k: int| join_dirs(base, dirs.subrange(0, k + 1)))
}

/// The artifact's folder, and the folders leading to it.
pub fn location_folders(title_id: &str, loc: &InstallLocation) -> (r: (String, Vec<String>))
    ensures
        r.0@ == location_folder(title_id@, loc.path@, loc.in_romfs),
        r.1@.map_values(|s: String| s@) == folder_chain(title_id@, loc.path@, loc.in_romfs),
{
    let path = loc.path.as_str();
    let mut folder = if loc.in_romfs {
        let mut g = get_game_path(title_id);
        g.append("/romfs");
        g
    } else {
        String::new()
    };
    let ghost base = location_base(title_id@, loc.in_romfs);
    assert(folder@ =~= base);
    let mut chain: Vec<String> = Vec::new();
    chain.push(folder.clone());
    let ranges = split_ranges(path, '/');
    let ghost segs = split(path@, '/');
    let mut k: usize = 0;
    assert(segs.subrange(0, 0) =~= Seq::<Seq<char>>::empty());
    while k < ranges.len()
        invariant
            k <= ranges@.len(),
            ranges@.len() == segs.len(),
            segs == split(path@, '/'),
            path@ == loc.path@,
            forall|j: int|
                #![trigger ranges@[j]]
                0 <= j < ranges@.len() ==> {
                    &&& ranges@[j].0 <= ranges@[j].1 <= path@.len()
                    &&& path@.subrange(ranges@[j].0 as int, ranges@[j].1 as int) == segs[j]
                },
            folder@ == join_dirs(base, dir_segments(segs.subrange(0, k as int))),
            chain@.map_values(|s: String| s@) == seq![base] + Seq::new(
                dir_segments(segs.subrange(0, k as int)).len(),
                |i: int| join_dirs(base, dir_segments(segs.subrange(0, k as int)).subrange(0, i + 1)),
            ),
        decreases ranges@.len() - k,
    {
        let (a, b) = ranges[k];
        let seg = path.substring_char(a, b);
        let ghost pre = segs.subrange(0, k as int);
        let ghost post = segs.subrange(0, k + 1);
        assert(post.drop_last() =~= pre);
        assert(post.last() == seg@);
        let ghost dpre = dir_segments(pre);
        let ghost old_chain = chain@.map_values(|s: String| s@);
        if a < b && !ends_with(seg, NRO_EXTENSION) {
            folder.append("/");
            folder.append(seg);
            chain.push(folder.clone());
            proof {
                let dpost = dir_segments(post);
                assert(dpost == dpre.push(seg@));
                assert(dpost.drop_last() =~= dpre);
                assert(dpost.subrange(0, dpost.len() as int) =~= dpost);
                assert(join_dirs(base, dpost) == join_dirs(base, dpre) + "/"@ + seg@);
                let target = seq![base] + Seq::new(
                    dpost.len(),
                    |i: int| join_dirs(base, dpost.subrange(0, i + 1)),
                );
                let cur = chain@.map_values(|s: String| s@);
                assert(old_chain.len() == dpre.len() + 1);
                assert(chain@.len() == old_chain.len() + 1);
                assert(cur.len() == chain@.len());
                assert(dpost.len() == dpre.len() + 1);
                assert(cur.len() == target.len());
                assert forall|i: int| 0 <= i < cur.len() implies cur[i] == target[i] by {
                    if i < cur.len() - 1 {
                        assert(cur[i] == old_chain[i]);
                        if i >= 1 {
                            assert(dpost.subrange(0, i) =~= dpre.subrange(0, i));
                        }
                    } else {
                        assert(cur[i] == folder@);
                        assert(target[i] == join_dirs(base, dpost.subrange(0, dpost.len() as int)));
                    }
                }
                assert(chain@.map_values(|s: String| s@) =~= seq![base] + Seq::new(
                    dpost.len(),
                    |i: int| join_dirs(base, dpost.subrange(0, i + 1)),
                ));
            }
        } else {
            proof {
                assert(dir_segments(post) == dpre);
                assert(chain@.map_values(|s: String| s@) =~= old_chain);
            }
        }
        k = k + 1;
    }
    assert(segs.subrange(0, ranges@.len() as int) =~= segs);
    (folder, chain)
}

/// The artifact's file name: the last segment of a path that names a
/// binary, else the artifact's own name.
pub fn artifact_name<'a>(path: &'a str, default_name: &'a str) -> (r: &'a str)
    ensures
        r@ == artifact_file_name(path@, default_name@),
{
    if ends_with(path, NRO_EXTENSION) {
        let ranges = split_ranges(path, '/');
        proof {
            lemma_split_nonempty(path@, '/');
        }
        let (a, b) = ranges[ranges.len() - 1];
        path.substring_char(a, b)
    } else {
        default_name
    }
}

/// The remote path of the artifact for a user-supplied install path (or
/// none), given the title and the artifact's own file name.
pub fn resolve_install_path(title_id: &str, user_path: Option<&str>, default_name: &str) -> (r: Result<
    String,
    Error,
>)
    ensures
        match r {
            Ok(p) => match location_of(opt_view(user_path)) {
                Some(loc) => p@ == install_path_spec(title_id@, loc.0, loc.1, default_name@),
                None => false,
            },
            Err(e) => location_of(opt_view(user_path)) is None && e == Error::BadSdPath,
        },
{
    let loc = resolve_install_location(user_path)?;
    Ok(install_path(title_id, &loc, default_name))
}

pub fn install_path(title_id: &str, loc: &InstallLocation, default_name: &str) -> (r: String)
    ensures
        r@ == install_path_spec(title_id@, loc.path@, loc.in_romfs, default_name@),
{
    let (mut folder, _) = location_folders(title_id, loc);
    folder.append("/");
    folder.append(artifact_name(loc.path.as_str(), default_name));
    folder
}

/// The title to install to: the one given on the command line, else the
/// project's own.
pub fn select_title_id(given: Option<String>, declared: Option<String>) -> (r: Result<String, Error>)
    ensures
        match given {
            Some(t) => r == Ok::<String, Error>(t),
            None => match declared {
                Some(t) => r == Ok::<String, Error>(t),
                None => r == Err::<String, Error>(Error::NoTitleId),
            },
        },
{
    match given {
        Some(t) => Ok(t),
        None => match declared {
            Some(t) => Ok(t),
            None => Err(Error::NoTitleId),
        },
    }
}

/// A dependency to provide, with the remote path it is probed and stored at.
#[derive(Debug, Clone, PartialEq, Eq)]
pub struct DependencyInstall {
    pub name: String,
    pub url: String,
    pub path: String,
}

/// The provisioning steps of one deployment, in the order they are taken:
/// create the directories (failures ignored), list `exefs_dir` for an older
/// runtime (advisory), provide the runtime module, then the descriptor, then
/// each dependency that is missing, and finally store the artifact.
#[derive(Debug, Clone, PartialEq, Eq)]
pub struct DeploymentPlan {
    pub directories: Vec<String>,
    pub exefs_dir: String,
    pub runtime_path: String,
    pub npdm_path: String,
    /// A local descriptor to install in place of a generated one.
    pub custom_npdm: Option<String>,
    pub dependencies: Vec<DependencyInstall>,
    pub install_path: String,
}

pub open spec fn plan_directories(title_id: Seq<char>, path: Seq<char>, in_romfs: bool) -> Seq<Seq<char>> {
    seq![game_path_spec(title_id), game_path_spec(title_id) + "/exefs"@] + folder_chain(
        title_id,
        path,
        in_romfs,
    )
}

pub open spec fn runtime_name(md: Metadata) -> Seq<char> {
    match md.subsdk_name {
        Some(n) => n@,
        None => DEFAULT_SUBSDK_NAME@,
    }
}

pub fn plan_deployment(title_id: &str, loc: &InstallLocation, artifact: &str, md: &Metadata) -> (r:
    DeploymentPlan)
    ensures
        r.directories@.map_values(|s: String| s@) == plan_directories(title_id@, loc.path@, loc.in_romfs),
        r.exefs_dir@ == game_path_spec(title_id@) + "/exefs/"@,
        r.runtime_path@ == subsdk_path_spec(title_id@, runtime_name(*md)),
        r.npdm_path@ == npdm_path_spec(title_id@),
        r.custom_npdm == md.npdm_path,
        r.dependencies@.len() == md.plugin_dependencies@.len(),
        forall|i: int|
            #![trigger r.dependencies@[i]]
            0 <= i < r.dependencies@.len() ==> {
                &&& r.dependencies@[i].name == md.plugin_dependencies@[i].name
                &&& r.dependencies@[i].url == md.plugin_dependencies@[i].url
                &&& r.dependencies@[i].path@ == plugin_path_spec(
                    title_id@,
                    md.plugin_dependencies@[i].name@,
                )
            },
        r.install_path@ == install_path_spec(title_id@, loc.path@, loc.in_romfs, artifact@),
{
    let game = get_game_path(title_id);
    let mut exefs = game.clone();
    exefs.append("/exefs");
    let (folder, chain) = location_folders(title_id, loc);
    let mut directories: Vec<String> = Vec::new();
    directories.push(game.clone());
    directories.push(exefs.clone());
    let mut k: usize = 0;
    while k < chain.len()
        invariant
            k <= chain@.len(),
            directories@.map_values(|s: String| s@) == seq![game@, exefs@] + chain@.subrange(0, k as int).map_values(|s: String| s@),
        decreases chain@.len() - k,
    {
        let ghost before = directories@;
        directories.push(chain[k].clone());
        proof {
            assert(chain@.subrange(0, k + 1) =~= chain@.subrange(0, k as int).push(chain@[k as int]));
            let lhs = directories@.map_values(|s: String| s@);
            let rhs = seq![game@, exefs@] + chain@.subrange(0, k + 1).map_values(|s: String| s@);
            let prev = seq![game@, exefs@] + chain@.subrange(0, k as int).map_values(|s: String| s@);
            assert(before.map_values(|s: String| s@) == prev);
            assert(directories@ == before.push(chain@[k as int]));
            assert(chain@.subrange(0, k as int).len() == k);
            assert(prev.len() == k + 2);
            assert(before.len() == k + 2);
            assert(chain@.subrange(0, k + 1).len() == k + 1);
            assert(rhs.len() == k + 3);
            assert(lhs.len() == rhs.len());
            assert forall|j: int| 0 <= j < lhs.len() implies lhs[j] == rhs[j] by {
                if j == lhs.len() - 1 {
                    assert(lhs[j] == chain@[k as int]@);
                    if j >= 2 {
                        assert(rhs[j] == chain@.subrange(0, k + 1).map_values(|s: String| s@)[j - 2]);
                    }
                } else {
                    assert(lhs[j] == before[j]@);
                    assert(before.map_values(|s: String| s@)[j] == before[j]@);
                }
            }
            assert(lhs =~= rhs);
        }
        k = k + 1;
    }
    assert(chain@.subrange(0, chain@.len() as int) =~= chain@);
    assert(directories@.map_values(|s: String| s@) =~= plan_directories(title_id@, loc.path@, loc.in_romfs));
    let mut exefs_dir = game.clone();
    exefs_dir.append("/exefs/");
    let runtime_path = match &md.subsdk_name {
        Some(n) => get_subsdk_path(title_id, n.as_str()),
        None => get_subsdk_path(title_id, DEFAULT_SUBSDK_NAME),
    };
    let custom_npdm = match &md.npdm_path {
        Some(p) => Some(p.clone()),
        None => None,
    };
    let mut dependencies: Vec<DependencyInstall> = Vec::new();
    let mut i: usize = 0;
    while i < md.plugin_dependencies.len()
        invariant
            i <= md.plugin_dependencies@.len(),
            dependencies@.len() == i,
            forall|j: int|
                #![trigger dependencies@[j]]
                0 <= j < i ==> {
                    &&& dependencies@[j].name == md.plugin_dependencies@[j].name
                    &&& dependencies@[j].url == md.plugin_dependencies@[j].url
                    &&& dependencies@[j].path@ == plugin_path_spec(
                        title_id@,
                        md.plugin_dependencies@[j].name@,
                    )
                },
        decreases md.plugin_dependencies@.len() - i,
    {
        let dep = &md.plugin_dependencies[i];
        let path = get_plugin_path(title_id, dep.name.as_str());
        dependencies.push(DependencyInstall { name: dep.name.clone(), url: dep.url.clone(), path });
        i = i + 1;
    }
    let mut install_path = folder;
    install_path.append("/");
    install_path.append(artifact_name(loc.path.as_str(), artifact));
    DeploymentPlan {
        directories,
        exefs_dir,
        runtime_path,
        npdm_path: get_npdm_path(title_id),
        custom_npdm,
        dependencies,
        install_path,
    }
}

} // verus!
