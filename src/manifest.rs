//! The per-project installation descriptor read from the package metadata.
use vstd::prelude::*;
use vstd::string::*;

verus! {

/// A plugin the project needs on the target, fetched from `url` when missing.
#[derive(Debug, Clone, PartialEq, Eq)]
pub struct Dependency {
    pub name: String,
    pub url: String,
}

/// A local file or directory packaged at `package_path` in a release archive.
#[derive(Debug, Clone, PartialEq, Eq)]
pub struct PackageResource {
    pub local_path: String,
    pub package_path: String,
}

/// What the project declares about its installation.
#[derive(Debug, Clone, PartialEq, Eq)]
pub struct Metadata {
    /// The crate's name; the default artifact is `lib<name>.nro`.
    pub name: String,
    pub title_id: Option<String>,
    /// A descriptor file to install instead of a generated one.
    pub npdm_path: Option<String>,
    /// The runtime module's file name under `exefs`.
    pub subsdk_name: Option<String>,
    pub plugin_dependencies: Vec<Dependency>,
    pub package_resources: Vec<PackageResource>,
}

/// What one package of the workspace declares under its `skyline` metadata
/// table; each key may be absent.
#[derive(Debug, Clone, PartialEq, Eq)]
pub struct PackageSkyline {
    pub title_id: Option<String>,
    pub npdm_path: Option<String>,
    pub subsdk_name: Option<String>,
    pub plugin_dependencies: Option<Vec<Dependency>>,
    pub package_resources: Option<Vec<PackageResource>>,
}

/// The first value that a package declares, in workspace order.
pub open spec fn first_declared(ps: Seq<PackageSkyline>, f: spec_fn(PackageSkyline) -> Option<String>) -> Option<String>
    decreases ps.len(),
{
    if ps.len() == 0 {
        None
    } else {
        match first_declared(ps.drop_last(), f) {
            Some(v) => Some(v),
            None => f(ps.last()),
        }
    }
}

/// Every package's dependencies, in workspace order.
pub open spec fn all_dependencies(ps: Seq<PackageSkyline>) -> Seq<Dependency>
    decreases ps.len(),
{
    if ps.len() == 0 {
        Seq::empty()
    } else {
        all_dependencies(ps.drop_last()) + match ps.last().plugin_dependencies {
            Some(v) => v@,
            None => Seq::empty(),
        }
    }
}

/// Every package's resources, in workspace order.
pub open spec fn all_resources(ps: Seq<PackageSkyline>) -> Seq<PackageResource>
    decreases ps.len(),
{
    if ps.len() == 0 {
        Seq::empty()
    } else {
        all_resources(ps.drop_last()) + match ps.last().package_resources {
            Some(v) => v@,
            None => Seq::empty(),
        }
    }
}

fn copy_opt(o: &Option<String>) -> (r: Option<String>)
    ensures
        r == *o,
{
    match o {
        Some(s) => Some(s.clone()),
        None => None,
    }
}

fn append_dependencies(out: &mut Vec<Dependency>, more: &Vec<Dependency>)
    ensures
        final(out)@ == old(out)@ + more@,
{
    let mut i: usize = 0;
    while i < more.len()
        invariant
            i <= more@.len(),
            out@ == old(out)@ + more@.subrange(0, i as int),
        decreases more@.len() - i,
    {
        let d = Dependency { name: more[i].name.clone(), url: more[i].url.clone() };
        assert(d == more@[i as int]);
        out.push(d);
        assert(more@.subrange(0, i + 1) =~= more@.subrange(0, i as int).push(more@[i as int]));
        i = i + 1;
    }
    assert(more@.subrange(0, more@.len() as int) =~= more@);
}

fn append_resources(out: &mut Vec<PackageResource>, more: &Vec<PackageResource>)
    ensures
        final(out)@ == old(out)@ + more@,
{
    let mut i: usize = 0;
    while i < more.len()
        invariant
            i <= more@.len(),
            out@ == old(out)@ + more@.subrange(0, i as int),
        decreases more@.len() - i,
    {
        let d = PackageResource {
            local_path: more[i].local_path.clone(),
            package_path: more[i].package_path.clone(),
        };
        assert(d == more@[i as int]);
        out.push(d);
        assert(more@.subrange(0, i + 1) =~= more@.subrange(0, i as int).push(more@[i as int]));
        i = i + 1;
    }
    assert(more@.subrange(0, more@.len() as int) =~= more@);
}

impl Metadata {
    /// The project's descriptor: each single value from the first package
    /// that declares it, the lists of all packages joined in order.
    pub fn from_packages(name: String, packages: &Vec<PackageSkyline>) -> (r: Metadata)
        ensures
            r.name == name,
            r.title_id == first_declared(packages@, |p: PackageSkyline| p.title_id),
            r.npdm_path == first_declared(packages@, |p: PackageSkyline| p.npdm_path),
            r.subsdk_name == first_declared(packages@, |p: PackageSkyline| p.subsdk_name),
            r.plugin_dependencies@ == all_dependencies(packages@),
            r.package_resources@ == all_resources(packages@),
    {
        let ghost ft = |p: PackageSkyline| p.title_id;
        let ghost fn_ = |p: PackageSkyline| p.npdm_path;
        let ghost fs = |p: PackageSkyline| p.subsdk_name;
        let mut title_id: Option<String> = None;
        let mut npdm_path: Option<String> = None;
        let mut subsdk_name: Option<String> = None;
        let mut deps: Vec<Dependency> = Vec::new();
        let mut res: Vec<PackageResource> = Vec::new();
        let mut i: usize = 0;
        assert(packages@.subrange(0, 0) =~= Seq::<PackageSkyline>::empty());
        while i < packages.len()
            invariant
                i <= packages@.len(),
                title_id == first_declared(packages@.subrange(0, i as int), ft),
                npdm_path == first_declared(packages@.subrange(0, i as int), fn_),
                subsdk_name == first_declared(packages@.subrange(0, i as int), fs),
                deps@ == all_dependencies(packages@.subrange(0, i as int)),
                res@ == all_resources(packages@.subrange(0, i as int)),
                ft == (|p: PackageSkyline| p.title_id),
                fn_ == (|p: PackageSkyline| p.npdm_path),
                fs == (|p: PackageSkyline| p.subsdk_name),
            decreases packages@.len() - i,
        {
            let p = &packages[i];
            let ghost post = packages@.subrange(0, i + 1);
            assert(post.drop_last() =~= packages@.subrange(0, i as int));
            assert(post.last() == *p);
            if title_id.is_none() {
                title_id = copy_opt(&p.title_id);
            }
            if npdm_path.is_none() {
                npdm_path = copy_opt(&p.npdm_path);
            }
            if subsdk_name.is_none() {
                subsdk_name = copy_opt(&p.subsdk_name);
            }
            match &p.plugin_dependencies {
                Some(v) => append_dependencies(&mut deps, v),
                None => {
                    assert(deps@ + Seq::<Dependency>::empty() =~= deps@);
                },
            }
            match &p.package_resources {
                Some(v) => append_resources(&mut res, v),
                None => {
                    assert(res@ + Seq::<PackageResource>::empty() =~= res@);
                },
            }
            i = i + 1;
        }
        assert(packages@.subrange(0, packages@.len() as int) =~= packages@);
        Metadata {
            name,
            title_id,
            npdm_path,
            subsdk_name,
            plugin_dependencies: deps,
            package_resources: res,
        }
    }
}

/// The crate name in a package id of the form `name version (source)`.
pub open spec fn package_id_name(repr: Seq<char>) -> Seq<char> {
    crate::text::split(repr, ' ')[0]
}

pub fn package_name(repr: &str) -> (r: String)
    ensures
        r@ == package_id_name(repr@),
{
    let ranges = crate::text::split_ranges(repr, ' ');
    proof {
        crate::text::lemma_split_nonempty(repr@, ' ');
    }
    let (a, b) = ranges[0];
    String::from_str(repr.substring_char(a, b))
}

} // verus!
