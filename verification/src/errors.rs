use vstd::prelude::*;

verus! {

/// Errors that abort a publish run.
///
/// Each variant names one fatal condition: the run stops at the first of
/// these, and no further package is processed.
#[derive(Debug)]
pub enum PublishError {
    /// The manifest text (root or member) is not a valid manifest.
    ManifestParse,
    /// An empty name was looked up, but the manifest declares no package
    /// and the flattened member list is empty.
    NoPackageAvailable,
    /// A non-empty name was looked up, but no workspace member carries it.
    PackageNotFound(String),
    /// A workspace member's manifest declares no package; the payload is
    /// the member path as it stands in the workspace member list.
    MissingPackage(String),
    /// The registry was asked for a crate with an empty name.
    EmptyCrateName,
    /// A registry version record names a different crate than requested.
    CrateNameMismatch,
    /// The registry reply holds no non-yanked version.
    NoVersionsFound,
}

/// Errors of the script-running action.
#[derive(Debug, PartialEq, Eq, Structural)]
pub enum ScriptError {
    /// A script path was given but nothing exists there.
    ScriptNotFound,
    /// A script path was given but it is not a regular file.
    ScriptNotAFile,
    /// Neither a script path nor inline script contents were given.
    NoScriptProvided,
}

} // verus!
