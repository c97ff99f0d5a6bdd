//! The description of an agent.

use vstd::prelude::*;

verus! {

/// An agent: the owner of a flow, with what a reader needs to tell it from others.
#[derive(Debug)]
pub struct Agent {
    pub id: String,
    pub name: String,
    pub description: String,
}

impl Clone for Agent {
    fn clone(&self) -> (r: Self)
        ensures
            r == *self,
    {
        Agent {
            id: self.id.clone(),
            name: self.name.clone(),
            description: self.description.clone(),
        }
    }
}

} // verus!
