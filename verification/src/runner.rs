//! The runner's part of an invocation: which module a message is for, whether
//! that module is compiled already, the state that the instance starts with,
//! and the status that is reported when the guest has run.

use crate::buffers::LinearBuffer;
use crate::registry::Registry;
use crate::state::State;
use crate::table::{first_wins, lemma_first_wins};
use crate::status::{exit_status, offered, RunOutcome, StatusSender, StatusView};
use crate::threader::IoTaskView;
use crate::wasm::WasmMemory;
use vstd::prelude::*;
use vstd::string::StringExecFns;
use vstd::string::StringSliceAdditionalSpecFns;

verus! {

/// The environment variable that names the module to run in place of the
/// one that a message names.
pub const MODULE_NAME_VARIABLE: &'static str = "ASML_WASM_MODULE_NAME";

/// One unit of work for the runner.
pub struct RunnerMessage {
    /// The input of the function.
    pub input: Vec<u8>,
    /// The channel on which the outcome is reported.
    pub status_sender: StatusSender,
    /// The path of the module to run.
    pub wasm_path: String,
}

/// The path of the module that a message is run with: below
/// `/opt/assemblylift/` the module whose name the environment gives in
/// `ASML_WASM_MODULE_NAME`, where it gives one; else the path of the message.
pub fn effective_module_path(module_name: Option<&str>, message_path: &str) -> (path: String)
    ensures
        path@ == match module_name {
            Some(name) => "/opt/assemblylift/"@ + name@,
            None => message_path@,
        },
{
    match module_name {
        Some(name) => "/opt/assemblylift/".to_owned().concat(name),
        None => message_path.to_owned(),
    }
}

/// The pairs of path and module of a list of cache entries.
pub open spec fn cache_pairs<T>(entries: Seq<(String, T)>) -> Seq<(Seq<char>, T)> {
    entries.map_values(|entry: (String, T)| (entry.0@, entry.1))
}

/// The modules that a list of cache entries stands for: of two entries with
/// the same path the earlier one counts.
pub open spec fn cached<T>(entries: Seq<(String, T)>) -> Map<Seq<char>, T> {
    first_wins(cache_pairs(entries))
}

/// The compiled modules of one runner, by the path of their source, so that
/// a module is compiled once and then used for every invocation.
pub struct ModuleCache<T> {
    entries: Vec<(String, T)>,
}

impl<T> ModuleCache<T> {
    /// The modules held, by path.
    pub closed spec fn modules(&self) -> Map<Seq<char>, T> {
        cached(self.entries@)
    }

    /// A cache that holds nothing.
    pub fn new() -> (cache: Self)
        ensures
            cache.modules() == Map::<Seq<char>, T>::empty(),
    {
        ModuleCache { entries: Vec::new() }
    }

    /// The module compiled from `path`, if the cache holds one.
    pub fn get(&self, path: &String) -> (module: Option<&T>)
        ensures
            match module {
                Some(m) => self.modules().contains_key(path@) && self.modules()[path@] == *m,
                None => !self.modules().contains_key(path@),
            },
    {
        let mut i: usize = 0;
        while i < self.entries.len()
            invariant
                i <= self.entries@.len(),
                forall|j: int| 0 <= j < i ==> (#[trigger] cache_pairs(self.entries@)[j]).0 != path@,
            decreases self.entries@.len() - i,
        {
            if self.entries[i].0 == *path {
                proof {
                    lemma_first_wins(cache_pairs(self.entries@), path@);
                    assert(cache_pairs(self.entries@)[i as int].0 == path@);
                }
                return Some(&self.entries[i].1);
            }
            i += 1;
        }
        proof {
            lemma_first_wins(cache_pairs(self.entries@), path@);
        }
        None
    }

    /// Puts `module` into the cache as the module compiled from `path`,
    /// unless the cache holds one for `path` already, which then stays.
    /// Returns whether `module` was put in.
    pub fn insert(&mut self, path: String, module: T) -> (inserted: bool)
        ensures
            inserted == !old(self).modules().contains_key(path@),
            final(self).modules() == if inserted {
                old(self).modules().insert(path@, module)
            } else {
                old(self).modules()
            },
    {
        if self.get(&path).is_some() {
            false
        } else {
            let ghost before = self.entries@;
            self.entries.push((path, module));
            assert(cache_pairs(self.entries@).drop_last() =~= cache_pairs(before));
            true
        }
    }
}

/// The state that the instance for `message` starts with: it routes its
/// calls by `registry`, reports on the channel of the message, and holds the
/// input of the message, not yet paged.
pub fn link<M: WasmMemory>(registry: Registry, message: RunnerMessage) -> (state: State<M>)
    ensures
        state.threader.registry() == registry@,
        state.threader.ioid_counter() == 0,
        state.threader.event_id_counter() == 0,
        state.threader.io().documents() == Map::<usize, Seq<u8>>::empty(),
        state.threader.io().cursors() == Map::<usize, usize>::empty(),
        state.threader.tasks() == Seq::<IoTaskView>::empty(),
        state.host_input_buffer.contents() == message.input@,
        state.host_input_buffer.page_index() == 0,
        state.memory is None,
        state.function_input_buffer_ptr is None,
        state.io_buffer_ptr is None,
        state.status_sender == message.status_sender,
        state.log@ == Seq::<String>::empty(),
{
    let mut state = State::new(registry, message.status_sender);
    state.host_input_buffer.initialize(message.input);
    state
}

/// Reports how the run of the guest has ended: exit code 0 where the entry
/// point returned, the failure `WASM module exited in error` where the guest
/// trapped. The report is dropped where the invocation has a status already.
/// Returns whether the report was taken.
pub fn conclude(status_sender: &mut StatusSender, outcome: RunOutcome) -> (taken: bool)
    ensures
        taken == (old(status_sender)@ is None),
        final(status_sender)@ == offered(
            old(status_sender)@,
            match outcome {
                RunOutcome::Returned => StatusView::Exited(0),
                RunOutcome::Trapped => StatusView::Failure(
                    "WASM module exited in error".spec_bytes(),
                ),
            },
        ),
{
    status_sender.send(exit_status(outcome))
}

} // verus!
