//! The manifest model: packages, workspaces, version resolution and
//! package lookup.

use vstd::prelude::*;
use vstd::string::*;

use crate::errors::PublishError;

verus! {

/// A package manifest together with the run-wide state attached to it:
/// the flattened workspace member packages, the working directory for
/// shell invocations, the active registry and the dry-run flag.
///
/// A manifest may declare neither, either, or both of `package` and
/// `workspace`: a workspace root can itself be a package.
#[derive(Debug)]
pub struct Cargo {
    /// The manifest's own package declaration, if any.
    pub package: Option<Package>,
    /// The manifest's workspace declaration, if any.
    pub workspace: Option<Workspace>,
    /// Base directory for all shell invocations.
    pub working_directory: String,
    /// The flattened member packages, in declared member order; empty
    /// unless a workspace is present and its members have been attached.
    pub packages: Vec<Package>,
    /// The registry in use, once one has been chosen.
    pub registry: Option<String>,
    /// Whether publishing side effects are suppressed.
    pub dry_run: bool,
}

/// A workspace declaration: an ordered list of member directory paths
/// and an optional shared package template members may inherit from.
#[derive(Debug)]
pub struct Workspace {
    /// Relative paths of the member directories, in declared order.
    pub members: Vec<String>,
    /// The shared package template, if any.
    pub package: Option<Package>,
}

/// A package declaration.
#[derive(Debug)]
pub struct Package {
    /// The package's name; must resolve to a non-empty value before a
    /// publish can be attempted.
    pub name: Option<String>,
    /// The declared version: a literal string, or the inherit marker.
    pub version: Version,
    /// Publish eligibility: absent or `true` means eligible, explicit
    /// `false` means excluded.
    pub publish: Option<bool>,
}

/// A version declaration: either a literal version string, or the
/// marker `workspace = <flag>` meaning (when the flag is true) that the
/// version is inherited from the workspace's shared package template.
#[derive(Debug)]
pub enum Version {
    /// An explicit version string.
    Version(String),
    /// The inherit marker.
    Workspace {
        /// True asks for the workspace's shared version; false declares
        /// "not using the workspace version" with no local value.
        workspace: bool,
    },
}

/// Whether the package declares exactly the given name.
pub open spec fn name_matches(p: Package, name: Seq<char>) -> bool {
    match p.name {
        Some(n) => n@ == name,
        None => false,
    }
}

/// The first package in `ps` whose declared name is `name`, if any.
pub open spec fn find_named(ps: Seq<Package>, name: Seq<char>) -> Option<Package>
    decreases ps.len(),
{
    if ps.len() == 0 {
        None
    } else if name_matches(ps[0], name) {
        Some(ps[0])
    } else {
        find_named(ps.drop_first(), name)
    }
}

proof fn lemma_find_named_prefix(ps: Seq<Package>, name: Seq<char>, i: int)
    requires
        0 <= i <= ps.len(),
        forall|j: int| 0 <= j < i ==> !name_matches(ps[j], name),
    ensures
        i < ps.len() && name_matches(ps[i], name) ==> find_named(ps, name) == Some(ps[i]),
        i == ps.len() ==> find_named(ps, name) is None,
    decreases ps.len(),
{
    if ps.len() > 0 && !name_matches(ps[0], name) && i > 0 {
        lemma_find_named_prefix(ps.drop_first(), name, i - 1);
    }
}

impl Cargo {
    /// The package that looking up `name` yields, if any: for the empty
    /// name, the root package, or failing that the first flattened
    /// member package; for a non-empty name, the first member package
    /// declaring that name. The root package is not name-addressable.
    pub open spec fn lookup_spec(&self, name: Seq<char>) -> Option<Package> {
        if name.len() == 0 {
            if self.package is Some {
                self.package
            } else if self.packages@.len() > 0 {
                Some(self.packages@[0])
            } else {
                None
            }
        } else {
            find_named(self.packages@, name)
        }
    }

    /// The effective version of `p` under this manifest: an explicit
    /// version string as declared; an inherit marker with a true flag
    /// follows exactly one level into the workspace's shared package
    /// template, and yields nothing unless that template declares an
    /// explicit version string; an inherit marker with a false flag
    /// yields nothing.
    pub open spec fn version_spec(&self, p: Package) -> Option<Seq<char>> {
        match p.version {
            Version::Version(v) => Some(v@),
            Version::Workspace { workspace } => if workspace {
                match self.workspace {
                    Some(w) => match w.package {
                        Some(wp) => match wp.version {
                            Version::Version(wv) => Some(wv@),
                            Version::Workspace { .. } => None,
                        },
                        None => None,
                    },
                    None => None,
                }
            } else {
                None
            },
        }
    }

    /// Looks up a package as `lookup_spec` describes, and names the
    /// failure: an empty name with nothing to return fails with
    /// `NoPackageAvailable`, a name absent from the member list fails
    /// with `PackageNotFound` carrying that name.
    pub fn package<'a>(&'a self, name: &str) -> (r: Result<&'a Package, PublishError>)
        ensures
            match self.lookup_spec(name@) {
                Some(p) => r matches Ok(q) && *q == p,
                None => r matches Err(e) && (if name@.len() == 0 {
                    e is NoPackageAvailable
                } else {
                    e matches PublishError::PackageNotFound(n) && n@ == name@
                }),
            },
    {
        if name.is_empty() {
            match &self.package {
                Some(p) => Ok(p),
                None => {
                    if self.packages.len() > 0 {
                        Ok(&self.packages[0])
                    } else {
                        Err(PublishError::NoPackageAvailable)
                    }
                },
            }
        } else {
            let name_string = String::from_str(name);
            let n = self.packages.len();
            let mut i: usize = 0;
            while i < n
                invariant
                    n == self.packages@.len(),
                    0 <= i <= n,
                    name@.len() != 0,
                    name_string@ == name@,
                    forall|j: int| 0 <= j < i ==> !name_matches(self.packages@[j], name@),
                decreases n - i,
            {
                let matched = match &self.packages[i].name {
                    Some(pn) => *pn == name_string,
                    None => false,
                };
                if matched {
                    proof {
                        lemma_find_named_prefix(self.packages@, name@, i as int);
                    }
                    return Ok(&self.packages[i]);
                }
                i += 1;
            }
            proof {
                lemma_find_named_prefix(self.packages@, name@, n as int);
            }
            Err(PublishError::PackageNotFound(name_string))
        }
    }

    /// Resolves the effective version of `package` under this manifest,
    /// exactly as `version_spec` describes.
    pub fn version(&self, package: &Package) -> (r: Option<String>)
        ensures
            r.deep_view() == self.version_spec(*package),
    {
        match &package.version {
            Version::Version(v) => Some(v.clone()),
            Version::Workspace { workspace } => {
                if *workspace {
                    match &self.workspace {
                        Some(w) => match &w.package {
                            Some(wp) => match &wp.version {
                                Version::Version(wv) => Some(wv.clone()),
                                Version::Workspace { .. } => None,
                            },
                            None => None,
                        },
                        None => None,
                    }
                } else {
                    None
                }
            },
        }
    }

    /// Sets the base directory for shell invocations; nothing else
    /// changes.
    pub fn set_working_directory(&mut self, working_directory: String)
        ensures
            final(self).working_directory == working_directory,
            final(self).package == old(self).package,
            final(self).workspace == old(self).workspace,
            final(self).packages == old(self).packages,
            final(self).registry == old(self).registry,
            final(self).dry_run == old(self).dry_run,
    {
        self.working_directory = working_directory;
    }

    /// Chooses the registry for subsequent commands; nothing else
    /// changes.
    pub fn add_registry(&mut self, registry: String)
        ensures
            final(self).registry == Some(registry),
            final(self).package == old(self).package,
            final(self).workspace == old(self).workspace,
            final(self).packages == old(self).packages,
            final(self).working_directory == old(self).working_directory,
            final(self).dry_run == old(self).dry_run,
    {
        self.registry = Some(registry);
    }

    /// Flattens workspace members into the package list: one package per
    /// member manifest, in declared member order. A member manifest
    /// without a package declaration fails the run, naming the first
    /// such member.
    pub fn assemble(root: Cargo, member_manifests: Vec<Cargo>) -> (r: Result<Cargo, PublishError>)
        requires
            root.packages@.len() == 0,
            match root.workspace {
                Some(w) => member_manifests@.len() == w.members@.len(),
                None => member_manifests@.len() == 0,
            },
        ensures
            (forall|i: int| 0 <= i < member_manifests@.len() ==> member_manifests@[i].package is Some)
                ==> (r matches Ok(c)
                    && c.packages@ =~= member_manifests@.map_values(|m: Cargo| m.package->Some_0)
                    && c.package == root.package
                    && c.workspace == root.workspace
                    && c.working_directory == root.working_directory
                    && c.registry == root.registry
                    && c.dry_run == root.dry_run),
            (exists|i: int| 0 <= i < member_manifests@.len() && member_manifests@[i].package is None)
                ==> (r matches Err(e) && e matches PublishError::MissingPackage(m)
                    && (exists|i: int|
                        0 <= i < member_manifests@.len()
                        && member_manifests@[i].package is None
                        && m@ == root.workspace->Some_0.members@[i]@
                        && (forall|j: int| 0 <= j < i ==> member_manifests@[j].package is Some))),
    {
        let mut packages: Vec<Package> = Vec::new();
        let n = member_manifests.len();
        let mut i: usize = 0;
        while i < n
            invariant
                n == member_manifests@.len(),
                0 <= i <= n,
                match root.workspace {
                    Some(w) => member_manifests@.len() == w.members@.len(),
                    None => member_manifests@.len() == 0,
                },
                forall|j: int| 0 <= j < i ==> member_manifests@[j].package is Some,
                packages@ =~= member_manifests@.take(i as int).map_values(|m: Cargo| m.package->Some_0),
            decreases n - i,
        {
            match &member_manifests[i].package {
                Some(p) => {
                    packages.push(p.duplicate());
                },
                None => {
                    match &root.workspace {
                        Some(w) => {
                            return Err(PublishError::MissingPackage(w.members[i].clone()));
                        },
                        None => {
                            return vstd::pervasive::unreached();
                        },
                    }
                },
            }
            proof {
                assert(packages@ =~= member_manifests@.take(i as int + 1).map_values(
                    |m: Cargo| m.package->Some_0,
                ));
            }
            i += 1;
        }
        proof {
            assert(member_manifests@.take(n as int) =~= member_manifests@);
        }
        let mut c = root;
        c.packages = packages;
        Ok(c)
    }
}

impl Package {
    /// An equal copy of this package.
    pub fn duplicate(&self) -> (r: Package)
        ensures
            r == *self,
    {
        Package {
            name: match &self.name {
                Some(n) => Some(n.clone()),
                None => None,
            },
            version: match &self.version {
                Version::Version(v) => Version::Version(v.clone()),
                Version::Workspace { workspace } => Version::Workspace { workspace: *workspace },
            },
            publish: self.publish,
        }
    }
}

/// The path of a member's manifest file: `<root_dir>/<member>/Cargo.toml`,
/// where `root_dir` is the directory holding the root manifest.
pub fn member_manifest_path(root_dir: &str, member: &str) -> (r: String)
    ensures
        r@ == root_dir@ + "/"@ + member@ + "/Cargo.toml"@,
{
    let mut s = root_dir.to_owned();
    s.append("/");
    s.append(member);
    s.append("/Cargo.toml");
    s
}

/// A manifest without a workspace is not name-addressable: the empty
/// lookup yields its declared package (or nothing, when none is
/// declared), and every named lookup fails.
pub proof fn lemma_single_package_lookup(c: Cargo, name: Seq<char>)
    requires
        c.workspace is None,
        c.packages@.len() == 0,
        name.len() > 0,
    ensures
        c.lookup_spec(Seq::<char>::empty()) == c.package,
        c.lookup_spec(name) is None,
{
}

/// Version resolution is idempotent: two resolutions of the same
/// package under the same manifest agree.
pub proof fn lemma_version_resolution_idempotent(
    c: Cargo,
    p: Package,
    r1: Option<Seq<char>>,
    r2: Option<Seq<char>>,
)
    requires
        r1 == c.version_spec(p),
        r2 == c.version_spec(p),
    ensures
        r1 == r2,
{
}

/// Inheritance is exactly one level: a package carrying the inherit
/// marker resolves to nothing whenever the workspace's shared package
/// itself carries an inherit marker (or is absent) - never to a
/// recursive lookup.
pub proof fn lemma_inheritance_one_level(c: Cargo, p: Package)
    requires
        p.version matches Version::Workspace { .. },
        c.workspace matches Some(w) ==> (w.package matches Some(wp) ==> wp.version matches Version::Workspace { .. }),
    ensures
        c.version_spec(p) is None,
{
}

} // verus!
