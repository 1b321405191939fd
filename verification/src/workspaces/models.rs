use vstd::prelude::*;

use crate::clock::now_nanos;
use crate::ids::new_id;

verus! {

/// A workspace: the top-level container of a user's nodes. Times are
/// nanoseconds since the Unix epoch.
#[derive(Debug)]
pub struct Workspace {
    pub id: u128,
    pub owner_id: u128,
    pub name: String,
    pub description: Option<String>,
    pub created_at: i128,
    pub updated_at: i128,
}

impl Workspace {
    /// A new workspace of `owner_id` with a fresh identifier, created and
    /// updated now.
    pub fn new(owner_id: u128, name: String, description: Option<String>) -> (workspace: Workspace)
        ensures
            workspace.owner_id == owner_id,
            workspace.name == name,
            workspace.description == description,
            workspace.created_at == workspace.updated_at,
    {
        let now = now_nanos();
        Workspace { id: new_id(), owner_id, name, description, created_at: now, updated_at: now }
    }

    /// Replaces the name and stamps the update time.
    pub fn set_name(&mut self, name: String)
        ensures
            *final(self) == (Workspace { name, updated_at: final(self).updated_at, ..*old(self) }),
    {
        self.name = name;
        self.updated_at = now_nanos();
    }

    /// Replaces the description and stamps the update time.
    pub fn set_description(&mut self, description: Option<String>)
        ensures
            *final(self) == (Workspace {
                description,
                updated_at: final(self).updated_at,
                ..*old(self)
            }),
    {
        self.description = description;
        self.updated_at = now_nanos();
    }
}

} // verus!
