//! How a guest module is prepared: whether it has to be compiled first, and
//! which part of the host's file system the guest is shown.

use crate::text::str_eq;
use vstd::prelude::*;
use vstd::string::StringExecFns;
use vstd::string::StringSliceAdditionalSpecFns;

verus! {

/// The environment variable that names the kind of environment that
/// functions run in.
pub const FUNCTION_ENV_VARIABLE: &'static str = "ASML_FUNCTION_ENV";

/// Whether `text` ends with `suffix`.
pub open spec fn ends_with(text: Seq<u8>, suffix: Seq<u8>) -> bool {
    suffix.len() <= text.len() && text.subrange(text.len() - suffix.len(), text.len() as int)
        == suffix
}

/// Whether `text` ends with `suffix`.
pub fn has_suffix(text: &[u8], suffix: &[u8]) -> (b: bool)
    ensures
        b == ends_with(text@, suffix@),
{
    if suffix.len() > text.len() {
        return false;
    }
    let start = text.len() - suffix.len();
    let mut i: usize = 0;
    while i < suffix.len()
        invariant
            i <= suffix@.len(),
            start + suffix@.len() == text@.len(),
            text@.len() <= usize::MAX,
            text@.subrange(start as int, start + i) == suffix@.subrange(0, i as int),
        decreases suffix@.len() - i,
    {
        if text[start + i] != suffix[i] {
            assert(text@.subrange(start as int, text@.len() as int)[i as int] != suffix@[i as int]);
            return false;
        }
        assert(text@.subrange(start as int, start + i + 1) =~= text@.subrange(
            start as int,
            start + i,
        ).push(text@[start + i]));
        assert(suffix@.subrange(0, i + 1) =~= suffix@.subrange(0, i as int).push(suffix@[i as int]));
        i += 1;
    }
    assert(suffix@.subrange(0, i as int) =~= suffix@);
    true
}

/// What is done with a module file before it is loaded.
#[derive(Clone, Debug, PartialEq, Eq)]
pub enum CompilePlan {
    /// The file is compiled already and is loaded as it is.
    Load { path: String },
    /// The file at `source` is compiled and the result written to `target`,
    /// which is then loaded.
    Compile { source: String, target: String },
}

/// The plan for the module file at `path`: a file whose name ends in
/// `.wasmu` is loaded as it is; any other is compiled to the file of the same
/// name with a `u` added.
pub fn compile_plan(path: &str) -> (plan: CompilePlan)
    ensures
        match plan {
            CompilePlan::Load { path: loaded } => {
                &&& ends_with(path.spec_bytes(), ".wasmu".spec_bytes())
                &&& loaded@ == path@
            },
            CompilePlan::Compile { source, target } => {
                &&& !ends_with(path.spec_bytes(), ".wasmu".spec_bytes())
                &&& source@ == path@
                &&& target@ == path@ + "u"@
            },
        },
{
    if has_suffix(path.as_bytes(), ".wasmu".as_bytes()) {
        CompilePlan::Load { path: path.to_owned() }
    } else {
        CompilePlan::Compile { source: path.to_owned(), target: path.to_owned().concat("u") }
    }
}

/// The kind of environment that a function runs in.
#[derive(Clone, Copy, Debug, PartialEq, Eq, Structural)]
pub enum FunctionEnv {
    /// Any guest: only a temporary directory is mapped.
    Default,
    /// A Ruby guest in a container: the interpreter's source and system
    /// directories are mapped from where the image keeps them.
    RubyDocker,
    /// A Ruby guest in a package: every guest root is mapped below the host's
    /// temporary directory.
    RubyLambda,
}

/// The environment that the value of `ASML_FUNCTION_ENV` selects.
pub fn function_env(name: &str) -> (env: FunctionEnv)
    ensures
        env == if name@ == "ruby-docker"@ {
            FunctionEnv::RubyDocker
        } else if name@ == "ruby-lambda"@ {
            FunctionEnv::RubyLambda
        } else {
            FunctionEnv::Default
        },
{
    if str_eq(name, "ruby-docker") {
        FunctionEnv::RubyDocker
    } else if str_eq(name, "ruby-lambda") {
        FunctionEnv::RubyLambda
    } else {
        FunctionEnv::Default
    }
}

/// One directory of the host shown to the guest.
#[derive(Clone, Debug, PartialEq, Eq)]
pub struct Preopen {
    /// The path under which the guest sees the directory.
    pub guest: String,
    /// The path of the directory on the host.
    pub host: String,
}

/// What a guest is started with.
#[derive(Clone, Debug, PartialEq, Eq)]
pub struct WasiProfile {
    /// The name of the program.
    pub program: String,
    /// The arguments of the program.
    pub args: Vec<String>,
    /// The environment variables of the program.
    pub envs: Vec<(String, String)>,
    /// The directories shown to the guest.
    pub preopens: Vec<Preopen>,
}

/// The directories that a guest in the environment `env` is shown, as pairs
/// of the guest's path and the host's.
pub open spec fn preopens_of(env: FunctionEnv) -> Seq<(Seq<char>, Seq<char>)> {
    match env {
        FunctionEnv::Default => seq![("/tmp"@, "/tmp/asmltmp"@)],
        FunctionEnv::RubyDocker => seq![
            ("/src"@, "/usr/bin/ruby-wasm32-wasi/src"@),
            ("/usr"@, "/usr/bin/ruby-wasm32-wasi/usr"@),
            ("/tmp"@, "/tmp/asmltmp"@),
        ],
        FunctionEnv::RubyLambda => seq![
            ("/src"@, "/tmp/rubysrc"@),
            ("/usr"@, "/tmp/rubyusr"@),
            ("/tmp"@, "/tmp/asmltmp"@),
        ],
    }
}

/// The views of a list of preopened directories.
pub open spec fn preopen_views(preopens: Seq<Preopen>) -> Seq<(Seq<char>, Seq<char>)> {
    preopens.map_values(|p: Preopen| (p.guest@, p.host@))
}

/// One preopened directory.
fn preopen(guest: &str, host: &str) -> (p: Preopen)
    ensures
        p.guest@ == guest@,
        p.host@ == host@,
{
    Preopen { guest: guest.to_owned(), host: host.to_owned() }
}

/// What a guest in the environment `env` is started with. Every guest runs
/// as the program `assemblylift-guest`; a Ruby guest is told to run its
/// handler and which platform it is on.
pub fn wasi_profile(env: FunctionEnv) -> (profile: WasiProfile)
    ensures
        profile.program@ == "assemblylift-guest"@,
        preopen_views(profile.preopens@) == preopens_of(env),
        env is Default ==> profile.args@.len() == 0 && profile.envs@.len() == 0,
        !(env is Default) ==> {
            &&& profile.args@.len() == 1
            &&& profile.args@[0]@ == "/src/handler.rb"@
            &&& profile.envs@.len() == 1
            &&& profile.envs@[0].0@ == "RUBY_PLATFORM"@
            &&& profile.envs@[0].1@ == "wasm32-wasi"@
        },
{
    let mut args: Vec<String> = Vec::new();
    let mut envs: Vec<(String, String)> = Vec::new();
    let mut preopens: Vec<Preopen> = Vec::new();
    match env {
        FunctionEnv::Default => {},
        FunctionEnv::RubyDocker => {
            args.push("/src/handler.rb".to_owned());
            envs.push(("RUBY_PLATFORM".to_owned(), "wasm32-wasi".to_owned()));
            preopens.push(preopen("/src", "/usr/bin/ruby-wasm32-wasi/src"));
            preopens.push(preopen("/usr", "/usr/bin/ruby-wasm32-wasi/usr"));
        },
        FunctionEnv::RubyLambda => {
            args.push("/src/handler.rb".to_owned());
            envs.push(("RUBY_PLATFORM".to_owned(), "wasm32-wasi".to_owned()));
            preopens.push(preopen("/src", "/tmp/rubysrc"));
            preopens.push(preopen("/usr", "/tmp/rubyusr"));
        },
    }
    preopens.push(preopen("/tmp", "/tmp/asmltmp"));
    assert(preopen_views(preopens@) =~= preopens_of(env));
    WasiProfile { program: "assemblylift-guest".to_owned(), args, envs, preopens }
}

} // verus!
