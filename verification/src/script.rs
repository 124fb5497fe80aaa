//! The script-running action: choosing which script to run.

use vstd::prelude::*;
use vstd::string::*;

use crate::errors::ScriptError;

verus! {

/// Where the script to run comes from.
#[derive(Debug)]
pub enum ScriptSource {
    /// Run the existing script file at this path.
    File(String),
    /// Write these contents to a scratch script file and run that.
    Inline(String),
}

/// The script action's inputs.
#[derive(Debug)]
pub struct RustToolingScriptAction {
    /// Inline script contents to run.
    pub script: String,
    /// Path of a script file to run.
    pub path: String,
    /// The registry API token.
    pub token: String,
}

impl RustToolingScriptAction {
    /// Chooses what to run: when a path input was given it must name an
    /// existing regular file; otherwise the inline contents are used;
    /// with neither input the action fails. `path_exists` and
    /// `path_is_file` report what the filesystem says of the path
    /// input.
    pub fn resolve_script(&self, path_exists: bool, path_is_file: bool) -> (r: Result<
        ScriptSource,
        ScriptError,
    >)
        ensures
            self.path@.len() > 0 && path_exists && path_is_file ==> (r matches Ok(s) && (
            s matches ScriptSource::File(p) && p@ == self.path@)),
            self.path@.len() > 0 && !path_exists ==> (r matches Err(e) && e
                == ScriptError::ScriptNotFound),
            self.path@.len() > 0 && path_exists && !path_is_file ==> (r matches Err(e) && e
                == ScriptError::ScriptNotAFile),
            self.path@.len() == 0 && self.script@.len() > 0 ==> (r matches Ok(s) && (
            s matches ScriptSource::Inline(c) && c@ == self.script@)),
            self.path@.len() == 0 && self.script@.len() == 0 ==> (r matches Err(e) && e
                == ScriptError::NoScriptProvided),
    {
        if !self.path.as_str().is_empty() {
            if !path_exists {
                Err(ScriptError::ScriptNotFound)
            } else if !path_is_file {
                Err(ScriptError::ScriptNotAFile)
            } else {
                Ok(ScriptSource::File(self.path.clone()))
            }
        } else if !self.script.as_str().is_empty() {
            Ok(ScriptSource::Inline(self.script.clone()))
        } else {
            Err(ScriptError::NoScriptProvided)
        }
    }

    /// The arguments handed to the shell to run the chosen script file.
    pub fn script_command(path: &str) -> (r: Vec<String>)
        ensures
            r.deep_view() == seq!["rust-script"@, path@],
    {
        let mut args: Vec<String> = Vec::new();
        args.push(String::from_str("rust-script"));
        args.push(String::from_str(path));
        proof {
            assert(args.deep_view() =~= seq!["rust-script"@, path@]);
        }
        args
    }
}

} // verus!
