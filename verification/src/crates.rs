//! The registry's view of a crate: version records, and the selection
//! of the latest published version from a registry reply.

use vstd::prelude::*;
use vstd::string::*;

use crate::errors::PublishError;

verus! {

/// One published version record of a crate, as the registry reports
/// it. Timestamps travel as plain text; only the version string and
/// the yanked flag feed the publish decisions.
#[derive(Debug)]
pub struct CrateVersion {
    /// The registry's record identifier.
    pub id: u32,
    /// The crate this record belongs to; must equal the requested name.
    pub crate_name: String,
    /// The published version string.
    pub num: String,
    /// When the record was last updated, as the registry printed it.
    pub updated_at: String,
    /// When the record was created, as the registry printed it.
    pub created_at: String,
    /// Download count.
    pub downloads: u32,
    /// Whether this version was withdrawn for new dependents.
    pub yanked: bool,
}

/// A registry reply: the version records in registry order, plus
/// paging metadata.
#[derive(Debug)]
pub struct CrateVersions {
    /// The version records, newest first as the registry orders them.
    pub versions: Vec<CrateVersion>,
    /// Paging metadata.
    pub meta: CrateMeta,
}

/// Paging metadata of a registry reply.
#[derive(Debug)]
pub struct CrateMeta {
    /// How many versions exist in total.
    pub total: u32,
    /// The next page number, when more records exist.
    pub next_page: Option<u32>,
}

/// The latest version for `name` in a reply: walking the records in
/// order, a record naming another crate is fatal, a yanked record is
/// passed over, and the first record left standing is the latest; no
/// record left means no version was found.
pub open spec fn latest_spec(name: Seq<char>, vs: Seq<CrateVersion>) -> Result<
    CrateVersion,
    PublishError,
>
    decreases vs.len(),
{
    if vs.len() == 0 {
        Err(PublishError::NoVersionsFound)
    } else if vs[0].crate_name@ != name {
        Err(PublishError::CrateNameMismatch)
    } else if vs[0].yanked {
        latest_spec(name, vs.drop_first())
    } else {
        Ok(vs[0])
    }
}

impl CrateVersion {
    /// An equal copy of this record.
    pub fn duplicate(&self) -> (r: CrateVersion)
        ensures
            r == *self,
    {
        CrateVersion {
            id: self.id,
            crate_name: self.crate_name.clone(),
            num: self.num.clone(),
            updated_at: self.updated_at.clone(),
            created_at: self.created_at.clone(),
            downloads: self.downloads,
            yanked: self.yanked,
        }
    }
}

/// Selects the latest published version of `name` from the reply's
/// records, exactly as `latest_spec` describes; an empty name is
/// refused before anything else is looked at.
pub fn latest_version(name: &str, versions: &Vec<CrateVersion>) -> (r: Result<
    CrateVersion,
    PublishError,
>)
    ensures
        name@.len() == 0 ==> (r matches Err(e) && e is EmptyCrateName),
        name@.len() > 0 ==> (match latest_spec(name@, versions@) {
            Ok(v) => r matches Ok(rv) && rv == v,
            Err(e) => r matches Err(re) && re == e,
        }),
{
    if name.is_empty() {
        return Err(PublishError::EmptyCrateName);
    }
    let name_string = String::from_str(name);
    let n = versions.len();
    let mut i: usize = 0;
    proof {
        assert(versions@.skip(0) =~= versions@);
    }
    while i < n
        invariant
            n == versions@.len(),
            0 <= i <= n,
            name@.len() != 0,
            name_string@ == name@,
            latest_spec(name@, versions@) == latest_spec(name@, versions@.skip(i as int)),
        decreases n - i,
    {
        proof {
            assert(versions@.skip(i as int)[0] == versions@[i as int]);
        }
        if !(versions[i].crate_name == name_string) {
            return Err(PublishError::CrateNameMismatch);
        }
        if versions[i].yanked {
            proof {
                assert(versions@.skip(i as int).drop_first() =~= versions@.skip(i as int + 1));
            }
            i += 1;
        } else {
            return Ok(versions[i].duplicate());
        }
    }
    proof {
        assert(versions@.skip(n as int).len() == 0);
    }
    Err(PublishError::NoVersionsFound)
}

} // verus!
