//! The publish action: its inputs, the parsing of its ordered crate
//! list, and the per-package decisions of the publish run.

use vstd::prelude::*;
use vstd::string::*;

use crate::cargo::{Cargo, Package};
use crate::errors::PublishError;

verus! {

/// Whether the character counts as surrounding whitespace when the
/// crate list is split.
pub open spec fn is_space_char(c: char) -> bool {
    c == ' ' || c == '\t' || c == '\n' || c == '\r'
}

/// The string with leading and trailing whitespace removed.
pub open spec fn trim_spec(s: Seq<char>) -> Seq<char>
    decreases s.len(),
{
    if s.len() == 0 {
        s
    } else if is_space_char(s[0]) {
        trim_spec(s.drop_first())
    } else if is_space_char(s.last()) {
        trim_spec(s.drop_last())
    } else {
        s
    }
}

/// The comma-separated pieces of the string, in order; an empty string
/// yields one empty piece, and every comma opens a new piece.
pub open spec fn split_commas(s: Seq<char>) -> Seq<Seq<char>>
    decreases s.len(),
{
    if s.len() == 0 {
        seq![Seq::<char>::empty()]
    } else {
        let rest = split_commas(s.drop_last());
        if s.last() == ',' {
            rest.push(Seq::<char>::empty())
        } else {
            rest.update(rest.len() - 1, rest.last().push(s.last()))
        }
    }
}

/// The comma-separated pieces, each trimmed of surrounding whitespace.
pub open spec fn split_trimmed(s: Seq<char>) -> Seq<Seq<char>> {
    split_commas(s).map_values(|p: Seq<char>| trim_spec(p))
}

proof fn lemma_split_commas_len(s: Seq<char>)
    ensures
        split_commas(s).len() >= 1,
    decreases s.len(),
{
    if s.len() > 0 {
        lemma_split_commas_len(s.drop_last());
    }
}

proof fn lemma_trim_range(s: Seq<char>, a: int, b: int)
    requires
        0 <= a <= b <= s.len(),
        forall|j: int| 0 <= j < a ==> is_space_char(s[j]),
        forall|j: int| b <= j < s.len() ==> is_space_char(s[j]),
        a < b ==> !is_space_char(s[a]) && !is_space_char(s[b - 1]),
    ensures
        trim_spec(s) =~= s.subrange(a, b),
    decreases s.len(),
{
    if s.len() == 0 {
    } else if is_space_char(s[0]) {
        if a > 0 {
            lemma_trim_range(s.drop_first(), a - 1, b - 1);
            assert(s.drop_first().subrange(a - 1, b - 1) =~= s.subrange(a, b));
        } else {
            assert(a == b);
            lemma_trim_range(s.drop_first(), 0, 0);
            assert(s.drop_first().subrange(0, 0) =~= s.subrange(a, b));
        }
    } else if is_space_char(s.last()) {
        assert(a == 0);
        assert(a < b);
        lemma_trim_range(s.drop_last(), a, b);
        assert(s.drop_last().subrange(a, b) =~= s.subrange(a, b));
    } else {
        assert(s.subrange(a, b) =~= s);
    }
}

fn is_space(c: char) -> (r: bool)
    ensures
        r == is_space_char(c),
{
    c == ' ' || c == '\t' || c == '\n' || c == '\r'
}

/// Removes leading and trailing whitespace from the string.
pub fn trim_str(s: &str) -> (r: String)
    ensures
        r@ == trim_spec(s@),
{
    let n = s.unicode_len();
    let mut a: usize = 0;
    while a < n && is_space(s.get_char(a))
        invariant
            n == s@.len(),
            0 <= a <= n,
            forall|j: int| 0 <= j < a ==> is_space_char(s@[j]),
        decreases n - a,
    {
        a += 1;
    }
    let mut b: usize = n;
    while b > a && is_space(s.get_char(b - 1))
        invariant
            n == s@.len(),
            0 <= a <= b <= n,
            a == n || !is_space_char(s@[a as int]),
            forall|j: int| 0 <= j < a ==> is_space_char(s@[j]),
            forall|j: int| b <= j < n ==> is_space_char(s@[j]),
        decreases b,
    {
        b -= 1;
    }
    proof {
        lemma_trim_range(s@, a as int, b as int);
    }
    let piece = s.substring_char(a, b);
    piece.to_owned()
}

/// Whether the version string carries the pre-release marker: a literal
/// `-dev` at its end.
pub open spec fn ends_with_dev(v: Seq<char>) -> bool {
    v.len() >= 4 && v[v.len() - 4] == '-' && v[v.len() - 3] == 'd' && v[v.len() - 2] == 'e'
        && v[v.len() - 1] == 'v'
}

/// Checks for the `-dev` pre-release marker at the end of a version.
pub fn is_dev_version(v: &str) -> (r: bool)
    ensures
        r == ends_with_dev(v@),
{
    let n = v.unicode_len();
    if n < 4 {
        return false;
    }
    let c1 = v.get_char(n - 4);
    let c2 = v.get_char(n - 3);
    let c3 = v.get_char(n - 2);
    let c4 = v.get_char(n - 1);
    c1 == '-' && c2 == 'd' && c3 == 'e' && c4 == 'v'
}

/// The name a package is queried and published under: its declared
/// name, or the requested identifier when it declares none.
pub open spec fn effective_name(p: Package, requested: Seq<char>) -> Seq<char> {
    match p.name {
        Some(n) => n@,
        None => requested,
    }
}

/// Why a package was skipped rather than published. Skips are
/// non-fatal: the run continues with the next requested name.
#[derive(Debug, Clone, Copy, PartialEq, Eq, Structural)]
pub enum SkipReason {
    /// No version could be resolved for the package.
    NoVersion,
    /// The resolved version ends with the `-dev` pre-release marker.
    DevSuffix,
    /// The package declares `publish = false`.
    NotPublishable,
}

/// What to do with one requested package, before the registry is asked.
#[derive(Debug)]
pub enum PackagePlan {
    /// Skip this package and continue with the next name.
    Skip {
        /// Why the package is skipped.
        reason: SkipReason,
    },
    /// Ask the registry for the latest version of `name` and compare it
    /// against `local_version`.
    Query {
        /// The name to query and publish under.
        name: String,
        /// The resolved local version string.
        local_version: String,
    },
}

/// The outcome of comparing a resolved local version against the
/// registry's latest published version.
#[derive(Debug)]
pub struct PublishDecision {
    /// True when the two version strings differ byte for byte; only
    /// then is a publish attempted.
    pub changed: bool,
    /// True when authentication must run before the publish.
    pub login: bool,
}

/// The publish action's inputs and outputs.
#[derive(Debug)]
pub struct RustCratePublishAction {
    /// Location of the root manifest file.
    pub cargo: String,
    /// The registry API token.
    pub token: String,
    /// The registry to publish to.
    pub registry: String,
    /// Ordered, comma-separated list of package names to publish.
    pub crates: String,
    /// Output: the last resolved local version.
    pub version: String,
    /// Output: whether the last package differed from the registry.
    pub changed: String,
}

impl Default for RustCratePublishAction {
    /// All inputs and outputs start empty.
    fn default() -> (r: Self)
        ensures
            r.cargo@.len() == 0,
            r.token@.len() == 0,
            r.registry@.len() == 0,
            r.crates@.len() == 0,
            r.version@.len() == 0,
            r.changed@.len() == 0,
    {
        RustCratePublishAction {
            cargo: String::new(),
            token: String::new(),
            registry: String::new(),
            crates: String::new(),
            version: String::new(),
            changed: String::new(),
        }
    }
}

impl RustCratePublishAction {
    /// The ordered package names of the `crates` input: the input split
    /// on commas, each piece trimmed of surrounding whitespace.
    pub fn crates(&self) -> (r: Vec<String>)
        ensures
            r.deep_view() == split_trimmed(self.crates@),
    {
        let s: &str = self.crates.as_str();
        let n = s.unicode_len();
        let mut pieces: Vec<String> = Vec::new();
        let mut start: usize = 0;
        let mut i: usize = 0;
        while i < n
            invariant
                n == s@.len(),
                s@ == self.crates@,
                0 <= start <= i <= n,
                split_commas(s@.take(i as int)).len() == pieces@.len() + 1,
                forall|k: int|
                    0 <= k < pieces@.len() ==> pieces@[k]@ == trim_spec(
                        split_commas(s@.take(i as int))[k],
                    ),
                s@.subrange(start as int, i as int) == split_commas(s@.take(i as int)).last(),
            decreases n - i,
        {
            proof {
                lemma_split_commas_len(s@.take(i as int));
                assert(s@.take(i as int + 1).drop_last() =~= s@.take(i as int));
            }
            let c = s.get_char(i);
            if c == ',' {
                let piece = s.substring_char(start, i);
                pieces.push(trim_str(piece));
                start = i + 1;
                proof {
                    assert(s@.subrange(start as int, i as int + 1) =~= Seq::<char>::empty());
                }
            } else {
                proof {
                    assert(s@.subrange(start as int, i as int).push(s@[i as int]) =~= s@.subrange(
                        start as int,
                        i as int + 1,
                    ));
                }
            }
            i += 1;
        }
        proof {
            assert(s@.take(n as int) =~= s@);
        }
        let piece = s.substring_char(start, n);
        pieces.push(trim_str(piece));
        proof {
            assert(pieces.deep_view() =~= split_trimmed(self.crates@));
        }
        pieces
    }

    /// Decides what to do with one requested package name, up to the
    /// point where the registry would be asked: the package is looked
    /// up (a failure there is fatal for the run), its name and version
    /// are resolved, and the non-fatal skip conditions are applied in
    /// order - no resolvable version, a `-dev` version, an explicit
    /// `publish = false`.
    pub fn plan_package(&self, cargo: &Cargo, crate_name: &str) -> (r: Result<
        PackagePlan,
        PublishError,
    >)
        ensures
            cargo.lookup_spec(crate_name@) is None ==> (r matches Err(e) && (if crate_name@.len()
                == 0 {
                e is NoPackageAvailable
            } else {
                e matches PublishError::PackageNotFound(n) && n@ == crate_name@
            })),
            cargo.lookup_spec(crate_name@) matches Some(p) ==> {
                &&& cargo.version_spec(p) is None ==> (r matches Ok(pl) && pl == (PackagePlan::Skip {
                    reason: SkipReason::NoVersion,
                }))
                &&& cargo.version_spec(p) matches Some(v) ==> {
                    &&& ends_with_dev(v) ==> (r matches Ok(pl) && pl == (PackagePlan::Skip {
                        reason: SkipReason::DevSuffix,
                    }))
                    &&& !ends_with_dev(v) && p.publish == Some(false) ==> (r matches Ok(pl) && pl
                        == (PackagePlan::Skip { reason: SkipReason::NotPublishable }))
                    &&& !ends_with_dev(v) && p.publish != Some(false) ==> (r matches Ok(pl) && (
                    pl matches PackagePlan::Query { name, local_version } && name@
                        == effective_name(p, crate_name@) && local_version@ == v))
                }
            },
    {
        let package = match cargo.package(crate_name) {
            Ok(p) => p,
            Err(e) => {
                return Err(e);
            },
        };
        let name = match &package.name {
            Some(n) => n.clone(),
            None => String::from_str(crate_name),
        };
        let local_version = match cargo.version(package) {
            Some(v) => v,
            None => {
                return Ok(PackagePlan::Skip { reason: SkipReason::NoVersion });
            },
        };
        if is_dev_version(local_version.as_str()) {
            return Ok(PackagePlan::Skip { reason: SkipReason::DevSuffix });
        }
        match package.publish {
            Some(flag) => {
                if !flag {
                    return Ok(PackagePlan::Skip { reason: SkipReason::NotPublishable });
                }
            },
            None => {},
        }
        Ok(PackagePlan::Query { name, local_version })
    }

    /// Compares the resolved local version against the registry's
    /// latest version, byte for byte: equal strings mean nothing
    /// changed and no publish; different strings mean a publish, with a
    /// login first exactly when a token was supplied and this is not a
    /// dry run.
    pub fn decide(&self, cargo: &Cargo, local_version: &String, latest: &String) -> (d:
        PublishDecision)
        ensures
            d.changed == (latest@ != local_version@),
            d.login == (d.changed && self.token@.len() > 0 && !cargo.dry_run),
    {
        let changed = !(*latest == *local_version);
        let login = changed && !self.token.as_str().is_empty() && !cargo.dry_run;
        PublishDecision { changed, login }
    }
}

/// The argument list of the publish command: `--dry-run` on a dry run,
/// `-p <name>` when publishing out of a workspace, `--allow-dirty`
/// always.
pub open spec fn publish_args_spec(c: Cargo, name: Seq<char>) -> Seq<Seq<char>> {
    let base = seq!["publish"@];
    let base = if c.dry_run {
        base.push("--dry-run"@)
    } else {
        base
    };
    let base = if c.workspace is Some {
        base.push("-p"@).push(name)
    } else {
        base
    };
    base.push("--allow-dirty"@)
}

/// The argument list of the login command.
pub open spec fn login_args_spec(token: Seq<char>) -> Seq<Seq<char>> {
    seq!["login"@, token]
}

impl Cargo {
    /// Builds the publish command's arguments for the given package
    /// name, as `publish_args_spec` states.
    pub fn publish_args(&self, name: &str) -> (r: Vec<String>)
        ensures
            r.deep_view() == publish_args_spec(*self, name@),
    {
        let mut args: Vec<String> = Vec::new();
        args.push(String::from_str("publish"));
        if self.dry_run {
            args.push(String::from_str("--dry-run"));
        }
        if self.workspace.is_some() {
            args.push(String::from_str("-p"));
            args.push(String::from_str(name));
        }
        args.push(String::from_str("--allow-dirty"));
        proof {
            assert(args.deep_view() =~= publish_args_spec(*self, name@));
        }
        args
    }

    /// Builds the login command's arguments for the given token.
    pub fn login_args(&self, token: &str) -> (r: Vec<String>)
        ensures
            r.deep_view() == login_args_spec(token@),
    {
        let mut args: Vec<String> = Vec::new();
        args.push(String::from_str("login"));
        args.push(String::from_str(token));
        proof {
            assert(args.deep_view() =~= login_args_spec(token@));
        }
        args
    }
}

} // verus!
