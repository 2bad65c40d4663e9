use assemblylift::cast::{archive_dirs, archive_path, is_supported, language_of, Language};
use assemblylift::entity::{Action, ActionName, ActionRule, EntityPrototype};
use assemblylift::event::{get_status, Event, EventPoll, EVENT_BUFFER_SIZE_BYTES, EVENT_SIZE_BYTES, MAX_EVENTS};
use assemblylift::module::{compile_plan, function_env, has_suffix, wasi_profile, CompilePlan, FunctionEnv, Preopen, FUNCTION_ENV_VARIABLE};
use assemblylift::package::{Actions, Capability, Effect, EntityManifest, Field, Fields, ManifestHeader, Policy};

fn preopen(guest: &str, host: &str) -> Preopen {
    Preopen { guest: guest.to_string(), host: host.to_string() }
}

#[test]
fn a_compiled_module_is_loaded_as_it_is() {
    assert_eq!(compile_plan("/srv/f.wasmu"), CompilePlan::Load { path: "/srv/f.wasmu".to_string() });
    assert_eq!(compile_plan(".wasmu"), CompilePlan::Load { path: ".wasmu".to_string() });
}

#[test]
fn any_other_module_is_compiled_beside_its_source() {
    assert_eq!(
        compile_plan("/srv/f.wasm"),
        CompilePlan::Compile { source: "/srv/f.wasm".to_string(), target: "/srv/f.wasmu".to_string() }
    );
    assert_eq!(compile_plan("f"), CompilePlan::Compile { source: "f".to_string(), target: "fu".to_string() });
    assert_eq!(compile_plan(""), CompilePlan::Compile { source: "".to_string(), target: "u".to_string() });
    assert_eq!(
        compile_plan("f.wasmu.bak"),
        CompilePlan::Compile { source: "f.wasmu.bak".to_string(), target: "f.wasmu.baku".to_string() }
    );
}

#[test]
fn suffixes_are_compared_byte_by_byte() {
    assert!(has_suffix(b"abc", b"bc"));
    assert!(has_suffix(b"abc", b""));
    assert!(has_suffix(b"abc", b"abc"));
    assert!(!has_suffix(b"abc", b"xabc"));
    assert!(!has_suffix(b"abc", b"ab"));
}

#[test]
fn the_environment_is_selected_by_name() {
    assert_eq!(function_env("default"), FunctionEnv::Default);
    assert_eq!(function_env("ruby-docker"), FunctionEnv::RubyDocker);
    assert_eq!(function_env("ruby-lambda"), FunctionEnv::RubyLambda);
    assert_eq!(function_env(""), FunctionEnv::Default);
    assert_eq!(function_env("Ruby-Docker"), FunctionEnv::Default);
    assert_eq!(FUNCTION_ENV_VARIABLE, "ASML_FUNCTION_ENV");
}

#[test]
fn the_default_profile_maps_the_temporary_directory() {
    let profile = wasi_profile(FunctionEnv::Default);
    assert_eq!(profile.program, "assemblylift-guest");
    assert!(profile.args.is_empty());
    assert!(profile.envs.is_empty());
    assert_eq!(profile.preopens, vec![preopen("/tmp", "/tmp/asmltmp")]);
}

#[test]
fn the_ruby_profiles_map_the_interpreter_as_well() {
    let docker = wasi_profile(FunctionEnv::RubyDocker);
    assert_eq!(docker.program, "assemblylift-guest");
    assert_eq!(docker.args, vec!["/src/handler.rb".to_string()]);
    assert_eq!(docker.envs, vec![("RUBY_PLATFORM".to_string(), "wasm32-wasi".to_string())]);
    assert_eq!(
        docker.preopens,
        vec![
            preopen("/src", "/usr/bin/ruby-wasm32-wasi/src"),
            preopen("/usr", "/usr/bin/ruby-wasm32-wasi/usr"),
            preopen("/tmp", "/tmp/asmltmp"),
        ]
    );
    let lambda = wasi_profile(FunctionEnv::RubyLambda);
    assert_eq!(lambda.args, docker.args);
    assert_eq!(lambda.envs, docker.envs);
    assert_eq!(
        lambda.preopens,
        vec![preopen("/src", "/tmp/rubysrc"), preopen("/usr", "/tmp/rubyusr"), preopen("/tmp", "/tmp/asmltmp")]
    );
}

#[test]
fn an_event_is_ready_when_its_first_entry_says_so() {
    let handles = [(1u32, false), (2, true), (2, false), (3, true)];
    assert!(!get_status(&handles, 1));
    assert!(get_status(&handles, 2));
    assert!(get_status(&handles, 3));
    assert!(!get_status(&handles, 4));
    assert!(!get_status(&[], 0));
    assert_eq!(Event::new(2).id, 2);
    assert_eq!(Event::new(2).poll(&handles), EventPoll::Ready);
    assert_eq!(Event::new(1).poll(&handles), EventPoll::Pending);
    assert_eq!(Event::new(9).poll(&handles), EventPoll::Pending);
    assert_eq!(MAX_EVENTS * EVENT_SIZE_BYTES, EVENT_BUFFER_SIZE_BYTES);
}

struct Load;

impl Action for Load {
    fn name(&self) -> ActionName {
        ActionName::Load
    }
    fn location(&self) -> String {
        "here".to_string()
    }
    fn origins(&self) -> Vec<String> {
        vec!["there".to_string()]
    }
    fn rule(&self) -> ActionRule {
        ActionRule::Allow
    }
}

#[test]
fn a_prototype_collects_its_actions() {
    let shape = vec![("id".to_string(), "string".to_string())];
    let mut prototype: EntityPrototype<Load> = EntityPrototype::new("user", shape);
    assert_eq!(prototype.name, "user");
    assert_eq!(prototype.action_count(), 0);
    prototype.attach_action(Load);
    prototype.attach_action(Load);
    assert_eq!(prototype.action_count(), 2);
    assert_eq!(Load.name(), ActionName::Load);
    assert_eq!(Load.rule(), ActionRule::Allow);
    assert_ne!(ActionName::Load, ActionName::Store);
    assert_ne!(ActionRule::Allow, ActionRule::Deny);
}

#[test]
fn every_manifest_is_accepted() {
    let manifest = EntityManifest {
        entity: ManifestHeader { name: "user".to_string() },
        fields: vec![Field { name: "id".to_string(), field_type: Fields::String, attributes: None }],
        actions: Some(vec![assemblylift::package::Action {
            action: Actions::Load,
            cap: Capability { location: "l".to_string(), origins: vec![], effect: Effect::Allow },
        }]),
    };
    assert_eq!(manifest.verify(), Ok(()));
    let empty = EntityManifest { entity: ManifestHeader { name: String::new() }, fields: vec![], actions: None };
    assert_eq!(empty.verify(), Ok(()));
    let policy = Policy { name: "p".to_string(), policy_type: "rego".to_string(), file: None, from: None };
    assert_eq!(policy.policy_type, "rego");
    assert_ne!(Fields::String, Fields::Number);
    assert_ne!(Actions::Load, Actions::Store);
    assert_ne!(Effect::Allow, Effect::Deny);
}

#[test]
fn only_functions_in_rust_are_built() {
    assert_eq!(language_of("rust"), Some(Language::Rust));
    assert_eq!(language_of("ruby"), Some(Language::Ruby));
    assert_eq!(language_of("go"), None);
    assert_eq!(language_of(""), None);
    assert!(is_supported(Language::Rust));
    assert!(!is_supported(Language::Ruby));
}

#[test]
fn the_archive_of_a_function_lies_below_its_directory() {
    assert_eq!(archive_path("./net/services/s/f", "f"), "./net/services/s/f/f.zip");
    assert_eq!(archive_dirs("a/f.wasm".to_string(), "a", Language::Rust), vec!["a/f.wasm".to_string()]);
    assert_eq!(
        archive_dirs("a/f.wasm".to_string(), "a", Language::Ruby),
        vec!["a/f.wasm".to_string(), "a/rubysrc".to_string()]
    );
}
