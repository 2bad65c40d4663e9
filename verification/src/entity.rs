//! Entities: named shapes of data with the actions that may be taken on
//! them.

use vstd::prelude::*;

verus! {

/// Whether an action is allowed.
#[derive(Clone, Copy, Debug, PartialEq, Eq, Structural)]
pub enum ActionRule {
    Deny,
    Allow,
}

/// The kind of an action.
#[derive(Clone, Copy, Debug, PartialEq, Eq, Structural)]
pub enum ActionName {
    Load,
    Store,
}

/// An action on an entity. Actions are capabilities.
pub trait Action {
    /// The kind of the action.
    fn name(&self) -> ActionName;

    /// The location in which the action is executed.
    fn location(&self) -> String;

    /// The locations from which the action may originate.
    fn origins(&self) -> Vec<String>;

    /// The rule applied to the action.
    fn rule(&self) -> ActionRule;
}

/// The prototype of an entity: its name, its shape and its actions.
pub struct EntityPrototype<A: Action> {
    /// The name of the prototype.
    pub name: String,
    actions: Vec<A>,
    shape: Vec<(String, String)>,
}

impl<A: Action> EntityPrototype<A> {
    /// The name of the prototype as text.
    pub closed spec fn name_text(&self) -> Seq<char> {
        self.name@
    }

    /// The actions attached to the prototype, in the order of attachment.
    pub closed spec fn actions(&self) -> Seq<A> {
        self.actions@
    }

    /// The fields of the prototype, each with the name of its type.
    pub closed spec fn shape(&self) -> Seq<(String, String)> {
        self.shape@
    }

    /// A prototype with the given name and shape and no actions.
    pub fn new(name: &str, shape: Vec<(String, String)>) -> (prototype: Self)
        ensures
            prototype.name_text() == name@,
            prototype.shape() == shape@,
            prototype.actions() == Seq::<A>::empty(),
    {
        Self { name: name.to_owned(), actions: Vec::new(), shape }
    }

    /// Attaches `action` to the prototype, behind the actions it has.
    pub fn attach_action(&mut self, action: A)
        ensures
            final(self).actions() == old(self).actions().push(action),
            final(self).shape() == old(self).shape(),
            final(self).name_text() == old(self).name_text(),
    {
        self.actions.push(action)
    }

    /// The number of actions attached to the prototype.
    pub fn action_count(&self) -> (n: usize)
        ensures
            n == self.actions().len(),
    {
        self.actions.len()
    }
}

} // verus!
