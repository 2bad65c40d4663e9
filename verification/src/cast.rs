//! Building the functions of a project into artifacts.

use crate::text::str_eq;
use vstd::prelude::*;
use vstd::string::StringExecFns;

verus! {

/// A function that can be built into an artifact.
pub trait CastableFunction {
    /// Compiles the function; `wasi_snapshot_preview1` is the adapter that the
    /// result is composed with.
    fn compile(&self, wasi_snapshot_preview1: Vec<u8>);

    /// Composes the compiled function into a component.
    fn compose(&self);

    /// Compiles the component for `target`, or for the host where no target
    /// is given.
    fn precompile(&self, target: Option<&str>);

    /// The path at which the artifact of the function lies.
    fn artifact_path(&self) -> String;
}

/// The languages that functions are written in.
#[derive(Clone, Copy, Debug, PartialEq, Eq, Structural)]
pub enum Language {
    Rust,
    Ruby,
}

/// The language that a manifest names; none where the name is neither
/// `rust` nor `ruby`.
pub fn language_of(name: &str) -> (language: Option<Language>)
    ensures
        language == if name@ == "rust"@ {
            Some(Language::Rust)
        } else if name@ == "ruby"@ {
            Some(Language::Ruby)
        } else {
            None
        },
{
    if str_eq(name, "rust") {
        Some(Language::Rust)
    } else if str_eq(name, "ruby") {
        Some(Language::Ruby)
    } else {
        None
    }
}

/// Whether functions in `language` can be built: only those in Rust can.
pub fn is_supported(language: Language) -> (supported: bool)
    ensures
        supported == (language is Rust),
{
    match language {
        Language::Rust => true,
        Language::Ruby => false,
    }
}

/// The directories that go into the archive of a function whose artifact
/// lies at `artifact_path` and whose files lie below `function_dir`: the
/// artifact, and for a function in Ruby the directory `rubysrc` of the
/// function as well.
pub fn archive_dirs(artifact_path: String, function_dir: &str, language: Language) -> (dirs: Vec<
    String,
>)
    ensures
        dirs@.len() == if language is Ruby {
            2int
        } else {
            1int
        },
        dirs@[0] == artifact_path,
        language is Ruby ==> dirs@[1]@ == function_dir@ + "/rubysrc"@,
{
    let mut dirs: Vec<String> = Vec::new();
    dirs.push(artifact_path);
    match language {
        Language::Ruby => {
            dirs.push(function_dir.to_owned().concat("/rubysrc"));
        },
        Language::Rust => {},
    }
    dirs
}

/// The path of the archive of the function `function_name` whose files lie
/// below `function_dir`.
pub fn archive_path(function_dir: &str, function_name: &str) -> (path: String)
    ensures
        path@ == function_dir@ + "/"@ + function_name@ + ".zip"@,
{
    let mut path = function_dir.to_owned();
    path.append("/");
    path.append(function_name);
    path.append(".zip");
    path
}

} // verus!
