//! The manifest that describes an entity: its fields and the actions allowed
//! on it.

use vstd::prelude::*;

verus! {

/// The manifest of one entity.
#[derive(Debug)]
pub struct EntityManifest {
    pub entity: ManifestHeader,
    pub fields: Vec<Field>,
    pub actions: Option<Vec<Action>>,
}

impl EntityManifest {
    /// Whether the manifest is acceptable. No rule is laid down yet: every
    /// manifest is.
    pub fn verify(&self) -> (r: Result<(), ()>)
        ensures
            r is Ok,
    {
        Ok(())
    }
}

/// The head of a manifest.
#[derive(Debug)]
pub struct ManifestHeader {
    pub name: String,
}

/// The types that a field can have.
#[derive(Clone, Copy, Debug, PartialEq, Eq, Structural)]
pub enum Fields {
    String,
    Number,
}

/// One field of an entity.
#[derive(Debug)]
pub struct Field {
    pub name: String,
    pub field_type: Fields,
    pub attributes: Option<Vec<String>>,
}

/// The kinds of action that a manifest can allow or deny.
#[derive(Clone, Copy, Debug, PartialEq, Eq, Structural)]
pub enum Actions {
    Load,
    Store,
}

/// One action of a manifest with the capability that governs it.
#[derive(Debug)]
pub struct Action {
    pub action: Actions,
    pub cap: Capability,
}

/// What a capability does to the action it governs.
#[derive(Clone, Copy, Debug, PartialEq, Eq, Structural)]
pub enum Effect {
    Allow,
    Deny,
}

/// Where an action runs, where it may come from, and whether it is allowed.
#[derive(Debug)]
pub struct Capability {
    pub location: String,
    pub origins: Vec<String>,
    pub effect: Effect,
}

/// A policy attached to an entity, given in a file or taken from a source.
#[derive(Debug)]
pub struct Policy {
    pub name: String,
    pub policy_type: String,
    pub file: Option<String>,
    pub from: Option<String>,
}

} // verus!
