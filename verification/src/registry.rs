//! The table of I/O modules, addressed by name.
//!
//! An I/O module is found under its coordinates, the triple of organisation,
//! namespace and name, written as a dotted string `org.namespace.name`. The
//! table maps coordinates to the handle of the module's handler; the handler
//! itself, which runs asynchronously, stays with the host program.

use crate::table::{first_wins, lemma_first_wins};
use crate::text::{bytes_eq, copy_range};
use vstd::prelude::*;

verus! {

/// The byte that separates the components of a dotted path.
pub const DOT: u8 = 46;

/// Coordinates as mathematical byte sequences.
pub struct CoordinatesView {
    pub org: Seq<u8>,
    pub namespace: Seq<u8>,
    pub name: Seq<u8>,
}

/// The coordinates of one I/O module.
#[derive(Debug)]
pub struct Coordinates {
    pub org: Vec<u8>,
    pub namespace: Vec<u8>,
    pub name: Vec<u8>,
}

impl View for Coordinates {
    type V = CoordinatesView;

    open spec fn view(&self) -> CoordinatesView {
        CoordinatesView { org: self.org@, namespace: self.namespace@, name: self.name@ }
    }
}

/// Index of the first dot of `path` at or behind `from`; the length of `path`
/// where there is none.
pub open spec fn dot_from(path: Seq<u8>, from: int) -> int
    decreases path.len() - from,
{
    if from >= path.len() {
        path.len() as int
    } else if path[from] == DOT {
        from
    } else {
        dot_from(path, from + 1)
    }
}

/// The coordinates that a dotted path names: its first three components. A
/// path of fewer than three components names none; components behind the
/// third are not part of the coordinates.
pub open spec fn parsed(path: Seq<u8>) -> Option<CoordinatesView> {
    let first = dot_from(path, 0);
    let second = dot_from(path, first + 1);
    let third = dot_from(path, second + 1);
    if first < path.len() && second < path.len() {
        Some(
            CoordinatesView {
                org: path.subrange(0, first),
                namespace: path.subrange(first + 1, second),
                name: path.subrange(second + 1, third),
            },
        )
    } else {
        None
    }
}

/// `dot_from` finds a dot, or the end, and passes over no dot on its way.
pub proof fn lemma_dot_from(path: Seq<u8>, from: int)
    requires
        0 <= from,
    ensures
        from >= path.len() ==> dot_from(path, from) == path.len(),
        from <= path.len() ==> from <= dot_from(path, from) <= path.len(),
        dot_from(path, from) < path.len() ==> path[dot_from(path, from)] == DOT,
        forall|i: int| from <= i < dot_from(path, from) ==> path[i] != DOT,
    decreases path.len() - from,
{
    if from < path.len() && path[from] != DOT {
        lemma_dot_from(path, from + 1);
    }
}

/// Index of the first dot of `path` at or behind `from`.
fn find_dot(path: &[u8], from: usize) -> (at: usize)
    ensures
        at == dot_from(path@, from as int),
{
    let mut i: usize = from;
    while i < path.len() && path[i] != DOT
        invariant
            from <= i,
            dot_from(path@, from as int) == dot_from(path@, i as int),
        decreases path@.len() - i,
    {
        i += 1;
    }
    if i >= path.len() {
        path.len()
    } else {
        i
    }
}

impl Coordinates {
    /// Reads the coordinates off a dotted path.
    pub fn parse(path: &[u8]) -> (coordinates: Option<Coordinates>)
        ensures
            coordinates is Some <==> parsed(path@) is Some,
            coordinates matches Some(c) ==> Some(c@) == parsed(path@),
    {
        let len = path.len();
        let first = find_dot(path, 0);
        proof {
            lemma_dot_from(path@, 0);
        }
        if first >= len {
            return None;
        }
        let second = find_dot(path, first + 1);
        proof {
            lemma_dot_from(path@, first + 1);
        }
        if second >= len {
            return None;
        }
        let third = find_dot(path, second + 1);
        proof {
            lemma_dot_from(path@, second + 1);
        }
        Some(
            Coordinates {
                org: copy_range(path, 0, first),
                namespace: copy_range(path, first + 1, second),
                name: copy_range(path, second + 1, third),
            },
        )
    }

    /// Whether `self` and `other` are the same coordinates.
    pub fn same(&self, other: &Coordinates) -> (equal: bool)
        ensures
            equal == (self@ == other@),
    {
        bytes_eq(self.org.as_slice(), other.org.as_slice()) && bytes_eq(
            self.namespace.as_slice(),
            other.namespace.as_slice(),
        ) && bytes_eq(self.name.as_slice(), other.name.as_slice())
    }
}

/// One entry of the table: the coordinates of a module and the handle of its
/// handler.
pub struct RegistryEntry {
    pub coordinates: Coordinates,
    pub handler: u64,
}

/// What a registration did.
#[derive(Clone, Copy, Debug, PartialEq, Eq, Structural)]
pub enum Registration {
    /// The handler was installed under the coordinates.
    Installed,
    /// The coordinates had a handler already, which stays.
    AlreadyRegistered,
    /// The dotted string names no coordinates; nothing was installed.
    Malformed,
}

/// The table after `handler` was offered under `key`: the first handler
/// registered under given coordinates stays.
pub open spec fn registered(
    table: Map<CoordinatesView, u64>,
    key: CoordinatesView,
    handler: u64,
) -> Map<CoordinatesView, u64> {
    if table.contains_key(key) {
        table
    } else {
        table.insert(key, handler)
    }
}

/// The pairs of coordinates and handler of a list of entries.
pub open spec fn entry_pairs(entries: Seq<RegistryEntry>) -> Seq<(CoordinatesView, u64)> {
    entries.map_values(|entry: RegistryEntry| (entry.coordinates@, entry.handler))
}

/// The table that a list of entries stands for: of two entries with the
/// same coordinates the earlier one counts.
pub open spec fn table_of(entries: Seq<RegistryEntry>) -> Map<CoordinatesView, u64> {
    first_wins(entry_pairs(entries))
}

/// Offering a handler under coordinates that have one changes nothing: of
/// two registrations under the same coordinates the first one wins.
pub proof fn lemma_registering_twice_keeps_the_first(
    table: Map<CoordinatesView, u64>,
    key: CoordinatesView,
    first: u64,
    second: u64,
)
    ensures
        registered(registered(table, key, first), key, second) == registered(table, key, first),
        registered(table, key, first).contains_key(key),
        !table.contains_key(key) ==> registered(registered(table, key, first), key, second)[key]
            == first,
{
}

/// The table of I/O modules of one host process.
pub struct Registry {
    entries: Vec<RegistryEntry>,
}

impl View for Registry {
    type V = Map<CoordinatesView, u64>;

    closed spec fn view(&self) -> Map<CoordinatesView, u64> {
        table_of(self.entries@)
    }
}

impl Registry {
    /// A table with no entries.
    pub fn new() -> (registry: Self)
        ensures
            registry@ == Map::<CoordinatesView, u64>::empty(),
    {
        Registry { entries: Vec::new() }
    }

    /// A copy of the table, for an instance to route its calls by.
    pub fn snapshot(&self) -> (copy: Self)
        ensures
            copy@ == self@,
    {
        let mut entries: Vec<RegistryEntry> = Vec::new();
        let mut i: usize = 0;
        while i < self.entries.len()
            invariant
                i <= self.entries@.len(),
                entries@.len() == i,
                forall|k: int|
                    0 <= k < i ==> (#[trigger] entries@[k]).coordinates@
                        == self.entries@[k].coordinates@ && entries@[k].handler
                        == self.entries@[k].handler,
            decreases self.entries@.len() - i,
        {
            let entry = &self.entries[i];
            entries.push(
                RegistryEntry {
                    coordinates: Coordinates {
                        org: entry.coordinates.org.clone(),
                        namespace: entry.coordinates.namespace.clone(),
                        name: entry.coordinates.name.clone(),
                    },
                    handler: entry.handler,
                },
            );
            i += 1;
        }
        assert(entry_pairs(entries@) =~= entry_pairs(self.entries@));
        Registry { entries }
    }

    /// The handler registered under `coordinates`, if there is one.
    pub fn find(&self, coordinates: &Coordinates) -> (handler: Option<u64>)
        ensures
            handler == if self@.contains_key(coordinates@) {
                Some(self@[coordinates@])
            } else {
                None
            },
    {
        let mut i: usize = 0;
        while i < self.entries.len()
            invariant
                i <= self.entries@.len(),
                forall|j: int|
                    0 <= j < i ==> (#[trigger] entry_pairs(self.entries@)[j]).0 != coordinates@,
            decreases self.entries@.len() - i,
        {
            if self.entries[i].coordinates.same(coordinates) {
                proof {
                    lemma_first_wins(entry_pairs(self.entries@), coordinates@);
                    assert(entry_pairs(self.entries@)[i as int].0 == coordinates@);
                }
                return Some(self.entries[i].handler);
            }
            i += 1;
        }
        proof {
            lemma_first_wins(entry_pairs(self.entries@), coordinates@);
        }
        None
    }

    /// The handler that the dotted path `path` leads to: the one registered
    /// under the coordinates that `path` names.
    pub fn lookup(&self, path: &[u8]) -> (handler: Option<u64>)
        ensures
            handler == match parsed(path@) {
                Some(key) => if self@.contains_key(key) {
                    Some(self@[key])
                } else {
                    None
                },
                None => None,
            },
    {
        match Coordinates::parse(path) {
            Some(coordinates) => self.find(&coordinates),
            None => None,
        }
    }

    /// Installs `handler` under the coordinates that the dotted string
    /// `coordinates` names, unless they have a handler already.
    pub fn register(&mut self, coordinates: &[u8], handler: u64) -> (outcome: Registration)
        ensures
            final(self)@ == match parsed(coordinates@) {
                Some(key) => registered(old(self)@, key, handler),
                None => old(self)@,
            },
            outcome == match parsed(coordinates@) {
                Some(key) => if old(self)@.contains_key(key) {
                    Registration::AlreadyRegistered
                } else {
                    Registration::Installed
                },
                None => Registration::Malformed,
            },
    {
        match Coordinates::parse(coordinates) {
            Some(key) => {
                if self.find(&key).is_some() {
                    Registration::AlreadyRegistered
                } else {
                    let ghost before = self.entries@;
                    self.entries.push(RegistryEntry { coordinates: key, handler });
                    assert(entry_pairs(self.entries@).drop_last() =~= entry_pairs(before));
                    Registration::Installed
                }
            },
            None => Registration::Malformed,
        }
    }
}

} // verus!
