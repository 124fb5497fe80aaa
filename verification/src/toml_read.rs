//! Reading a manifest out of TOML text, through the `toml` crate: the
//! crate parses the text into a tree of TOML values, and verified code
//! walks that tree into the manifest model. What the `toml` crate
//! returns is given names - the parse of the text, a table's entry
//! under a key, the payloads of a value - and the manifest grammar
//! walk is stated exactly over those names: parsing succeeds if and
//! only if the text parses as TOML and the table is a well-formed
//! manifest, and the resulting model then mirrors the table.

use vstd::prelude::*;
use vstd::string::*;

use crate::cargo::{Cargo, Package, Version, Workspace};
use crate::errors::PublishError;

verus! {

#[verifier::external_type_specification]
#[verifier::external_body]
#[verifier::reject_recursive_types(K)]
#[verifier::reject_recursive_types(V)]
pub struct ExTomlMap<K, V>(toml::map::Map<K, V>);

#[verifier::external_type_specification]
#[verifier::external_body]
pub struct ExTomlValue(toml::Value);

/// What parsing the text as TOML yields: a table, or nothing when the
/// text violates the TOML grammar. The parse is a function of the text
/// alone.
pub uninterp spec fn toml_parse_of(text: Seq<char>) -> Option<toml::Table>;

/// What a table holds under a key.
pub uninterp spec fn table_entry(t: toml::Table, key: Seq<char>) -> Option<toml::Value>;

/// The payload of a string value; nothing for the other value kinds.
pub uninterp spec fn value_str_of(v: toml::Value) -> Option<Seq<char>>;

/// The payload of a boolean value; nothing for the other value kinds.
pub uninterp spec fn value_bool_of(v: toml::Value) -> Option<bool>;

/// The payload of an array value; nothing for the other value kinds.
pub uninterp spec fn value_array_of(v: toml::Value) -> Option<Seq<toml::Value>>;

/// The payload of a table value; nothing for the other value kinds.
pub uninterp spec fn value_table_of(v: toml::Value) -> Option<toml::Table>;

/// Relies on toml::from_str::<toml::Table>: parses TOML text into a
/// table of values, `None` on text violating the TOML grammar; the
/// result depends on the text alone.
#[verifier::external_body]
fn parse_table(text: &str) -> (r: Option<toml::Table>)
    ensures
        r == toml_parse_of(text@),
{
    toml::from_str::<toml::Table>(text).ok()
}

/// Relies on toml::map::Map::get: the value stored under the key.
#[verifier::external_body]
fn table_get<'a>(t: &'a toml::Table, key: &str) -> (r: Option<&'a toml::Value>)
    ensures
        r is Some <==> table_entry(*t, key@) is Some,
        r matches Some(v) ==> *v == table_entry(*t, key@)->Some_0,
{
    t.get(key)
}

/// Relies on toml::Value::as_str: the payload of a string value.
#[verifier::external_body]
fn value_as_str<'a>(v: &'a toml::Value) -> (r: Option<&'a str>)
    ensures
        r is Some <==> value_str_of(*v) is Some,
        r matches Some(s) ==> value_str_of(*v) == Some(s@),
{
    v.as_str()
}

/// Relies on toml::Value::as_bool: the payload of a boolean value.
#[verifier::external_body]
fn value_as_bool(v: &toml::Value) -> (r: Option<bool>)
    ensures
        r == value_bool_of(*v),
{
    v.as_bool()
}

/// Relies on toml::Value::as_array: the payload of an array value.
#[verifier::external_body]
fn value_as_array<'a>(v: &'a toml::Value) -> (r: Option<&'a Vec<toml::Value>>)
    ensures
        r is Some <==> value_array_of(*v) is Some,
        r matches Some(a) ==> value_array_of(*v) == Some(a@),
{
    v.as_array()
}

/// Relies on toml::Value::as_table: the payload of a table value.
#[verifier::external_body]
fn value_as_table<'a>(v: &'a toml::Value) -> (r: Option<&'a toml::Table>)
    ensures
        r is Some <==> value_table_of(*v) is Some,
        r matches Some(t) ==> *t == value_table_of(*v)->Some_0,
{
    v.as_table()
}

/// A well-formed version declaration: a string, or a table with a
/// boolean under `workspace` (the inherit marker). A string wins: the
/// marker shape is only considered for non-string values.
pub open spec fn version_wf(v: toml::Value) -> bool {
    ||| value_str_of(v) is Some
    ||| (value_table_of(v) matches Some(vt) && (table_entry(vt, "workspace"@) matches Some(wv)
        && value_bool_of(wv) is Some))
}

/// The version declaration read from a well-formed version value.
pub open spec fn version_matches(ver: Version, v: toml::Value) -> bool {
    match value_str_of(v) {
        Some(s) => ver matches Version::Version(vs) && vs@ == s,
        None => match value_table_of(v) {
            Some(vt) => match table_entry(vt, "workspace"@) {
                Some(wv) => value_bool_of(wv) matches Some(b) && ver == (Version::Workspace {
                    workspace: b,
                }),
                None => false,
            },
            None => false,
        },
    }
}

/// A well-formed package table: an optional string `name`, a mandatory
/// well-formed `version`, an optional boolean `publish`.
pub open spec fn package_wf(t: toml::Table) -> bool {
    &&& match table_entry(t, "name"@) {
        Some(v) => value_str_of(v) is Some,
        None => true,
    }
    &&& (table_entry(t, "version"@) matches Some(v) && version_wf(v))
    &&& match table_entry(t, "publish"@) {
        Some(v) => value_bool_of(v) is Some,
        None => true,
    }
}

/// The package read from a well-formed package table: each field
/// equals the table's entry.
pub open spec fn package_matches(p: Package, t: toml::Table) -> bool {
    &&& match table_entry(t, "name"@) {
        Some(v) => p.name matches Some(n) && value_str_of(v) == Some(n@),
        None => p.name is None,
    }
    &&& (table_entry(t, "version"@) matches Some(v) && version_matches(p.version, v))
    &&& match table_entry(t, "publish"@) {
        Some(v) => p.publish == value_bool_of(v),
        None => p.publish is None,
    }
}

/// A well-formed member list: an array of strings.
pub open spec fn members_wf(v: toml::Value) -> bool {
    value_array_of(v) matches Some(arr) && (forall|i: int|
        0 <= i < arr.len() ==> (#[trigger] value_str_of(arr[i])) is Some)
}

/// The member paths read from a well-formed member list, in array
/// order.
pub open spec fn members_match(ms: Seq<String>, v: toml::Value) -> bool {
    value_array_of(v) matches Some(arr) && ms.len() == arr.len() && (forall|i: int|
        0 <= i < arr.len() ==> (#[trigger] value_str_of(arr[i])) == Some(ms[i]@))
}

/// A well-formed workspace table: a mandatory `members` array of
/// strings and an optional well-formed shared `package` table.
pub open spec fn workspace_wf(t: toml::Table) -> bool {
    &&& (table_entry(t, "members"@) matches Some(v) && members_wf(v))
    &&& match table_entry(t, "package"@) {
        Some(v) => value_table_of(v) matches Some(pt) && package_wf(pt),
        None => true,
    }
}

/// The workspace read from a well-formed workspace table.
pub open spec fn workspace_matches(w: Workspace, t: toml::Table) -> bool {
    &&& (table_entry(t, "members"@) matches Some(v) && members_match(w.members@, v))
    &&& match table_entry(t, "package"@) {
        Some(v) => value_table_of(v) matches Some(pt) && (w.package matches Some(p)
            && package_matches(p, pt)),
        None => w.package is None,
    }
}

/// A well-formed manifest table: an optional well-formed `package`
/// table and an optional well-formed `workspace` table - neither,
/// either, or both.
pub open spec fn manifest_wf(t: toml::Table) -> bool {
    &&& match table_entry(t, "package"@) {
        Some(v) => value_table_of(v) matches Some(pt) && package_wf(pt),
        None => true,
    }
    &&& match table_entry(t, "workspace"@) {
        Some(v) => value_table_of(v) matches Some(wt) && workspace_wf(wt),
        None => true,
    }
}

/// The manifest read from a well-formed manifest table: `package` and
/// `workspace` equal the table's fields.
pub open spec fn manifest_matches(c: Cargo, t: toml::Table) -> bool {
    &&& match table_entry(t, "package"@) {
        Some(v) => value_table_of(v) matches Some(pt) && (c.package matches Some(p)
            && package_matches(p, pt)),
        None => c.package is None,
    }
    &&& match table_entry(t, "workspace"@) {
        Some(v) => value_table_of(v) matches Some(wt) && (c.workspace matches Some(w)
            && workspace_matches(w, wt)),
        None => c.workspace is None,
    }
}

/// Reads a package declaration out of its TOML table, exactly when the
/// table is a well-formed package declaration; any other shape is a
/// parse error.
fn package_from_table(t: &toml::Table) -> (r: Result<Package, PublishError>)
    ensures
        r is Ok <==> package_wf(*t),
        r matches Ok(p) ==> package_matches(p, *t),
        r matches Err(e) ==> e is ManifestParse,
{
    let name: Option<String> = match table_get(t, "name") {
        None => None,
        Some(v) => match value_as_str(v) {
            Some(s) => Some(s.to_owned()),
            None => {
                return Err(PublishError::ManifestParse);
            },
        },
    };
    let version: Version = match table_get(t, "version") {
        None => {
            return Err(PublishError::ManifestParse);
        },
        Some(v) => {
            if let Some(s) = value_as_str(v) {
                Version::Version(s.to_owned())
            } else {
                match value_as_table(v) {
                    Some(vt) => match table_get(vt, "workspace") {
                        Some(wv) => match value_as_bool(wv) {
                            Some(b) => Version::Workspace { workspace: b },
                            None => {
                                return Err(PublishError::ManifestParse);
                            },
                        },
                        None => {
                            return Err(PublishError::ManifestParse);
                        },
                    },
                    None => {
                        return Err(PublishError::ManifestParse);
                    },
                }
            }
        },
    };
    let publish: Option<bool> = match table_get(t, "publish") {
        None => None,
        Some(v) => match value_as_bool(v) {
            Some(b) => Some(b),
            None => {
                return Err(PublishError::ManifestParse);
            },
        },
    };
    Ok(Package { name, version, publish })
}

/// Reads a workspace's member list, exactly when the value is an array
/// of strings.
fn members_from_value(v: &toml::Value) -> (r: Result<Vec<String>, PublishError>)
    ensures
        r is Ok <==> members_wf(*v),
        r matches Ok(ms) ==> members_match(ms@, *v),
        r matches Err(e) ==> e is ManifestParse,
{
    let arr = match value_as_array(v) {
        Some(a) => a,
        None => {
            return Err(PublishError::ManifestParse);
        },
    };
    let mut members: Vec<String> = Vec::new();
    let n = arr.len();
    let mut i: usize = 0;
    while i < n
        invariant
            0 <= i <= n,
            n == arr@.len(),
            value_array_of(*v) == Some(arr@),
            members@.len() == i,
            forall|j: int|
                0 <= j < i ==> (#[trigger] value_str_of(arr@[j])) == Some(members@[j]@),
        decreases n - i,
    {
        match value_as_str(&arr[i]) {
            Some(s) => {
                members.push(s.to_owned());
            },
            None => {
                return Err(PublishError::ManifestParse);
            },
        }
        i += 1;
    }
    Ok(members)
}

/// Reads a workspace declaration out of its TOML table, exactly when
/// the table is a well-formed workspace declaration.
fn workspace_from_table(t: &toml::Table) -> (r: Result<Workspace, PublishError>)
    ensures
        r is Ok <==> workspace_wf(*t),
        r matches Ok(w) ==> workspace_matches(w, *t),
        r matches Err(e) ==> e is ManifestParse,
{
    let members = match table_get(t, "members") {
        Some(v) => match members_from_value(v) {
            Ok(m) => m,
            Err(e) => {
                return Err(e);
            },
        },
        None => {
            return Err(PublishError::ManifestParse);
        },
    };
    let package = match table_get(t, "package") {
        None => None,
        Some(v) => match value_as_table(v) {
            Some(pt) => match package_from_table(pt) {
                Ok(p) => Some(p),
                Err(e) => {
                    return Err(e);
                },
            },
            None => {
                return Err(PublishError::ManifestParse);
            },
        },
    };
    Ok(Workspace { members, package })
}

/// Parses manifest text into the manifest model. This succeeds exactly
/// when the text parses as TOML and the table is a well-formed
/// manifest; the model's `package` and `workspace` then equal the
/// table's fields, and the run-wide fields (the flattened package
/// list, working directory, registry, dry-run flag) start out empty.
/// Anything else is refused as a parse error.
pub fn parse_manifest(text: &str) -> (r: Result<Cargo, PublishError>)
    ensures
        r is Ok <==> (toml_parse_of(text@) matches Some(t) && manifest_wf(t)),
        r matches Ok(c) ==> (manifest_matches(c, toml_parse_of(text@)->Some_0) && c.packages@.len()
            == 0 && c.working_directory@.len() == 0 && c.registry is None && !c.dry_run),
        r matches Err(e) ==> e is ManifestParse,
{
    let table = match parse_table(text) {
        Some(t) => t,
        None => {
            return Err(PublishError::ManifestParse);
        },
    };
    let package = match table_get(&table, "package") {
        None => None,
        Some(v) => match value_as_table(v) {
            Some(pt) => match package_from_table(pt) {
                Ok(p) => Some(p),
                Err(e) => {
                    return Err(e);
                },
            },
            None => {
                return Err(PublishError::ManifestParse);
            },
        },
    };
    let workspace = match table_get(&table, "workspace") {
        None => None,
        Some(v) => match value_as_table(v) {
            Some(wt) => match workspace_from_table(wt) {
                Ok(w) => Some(w),
                Err(e) => {
                    return Err(e);
                },
            },
            None => {
                return Err(PublishError::ManifestParse);
            },
        },
    };
    Ok(
        Cargo {
            package,
            workspace,
            working_directory: String::new(),
            packages: Vec::new(),
            registry: None,
            dry_run: false,
        },
    )
}

} // verus!
