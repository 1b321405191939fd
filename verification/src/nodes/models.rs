use vstd::prelude::*;

use crate::clock::now_nanos;
use crate::ids::new_id;

verus! {

/// An item of a workspace (a folder, a text file, a board, ...), placed in
/// the workspace's tree by its parent. `content` is the item's content as
/// JSON text, tagged by its `type`. Times are nanoseconds since the Unix
/// epoch.
#[derive(Debug)]
pub struct Node {
    pub id: u128,
    pub workspace_id: u128,
    pub parent_id: Option<u128>,
    pub name: String,
    pub position: i32,
    pub content: String,
    pub created_at: i128,
    pub updated_at: i128,
}

impl Node {
    /// A new node with a fresh identifier, created and updated now.
    pub fn new(
        workspace_id: u128,
        parent_id: Option<u128>,
        name: String,
        position: i32,
        content: String,
    ) -> (node: Node)
        ensures
            node.workspace_id == workspace_id,
            node.parent_id == parent_id,
            node.name == name,
            node.position == position,
            node.content == content,
            node.created_at == node.updated_at,
    {
        let now = now_nanos();
        Node {
            id: new_id(),
            workspace_id,
            parent_id,
            name,
            position,
            content,
            created_at: now,
            updated_at: now,
        }
    }

    /// Replaces the name and stamps the update time.
    pub fn set_name(&mut self, name: String)
        ensures
            *final(self) == (Node { name, updated_at: final(self).updated_at, ..*old(self) }),
    {
        self.name = name;
        self.updated_at = now_nanos();
    }

    /// Replaces the position and stamps the update time.
    pub fn set_position(&mut self, position: i32)
        ensures
            *final(self) == (Node { position, updated_at: final(self).updated_at, ..*old(self) }),
    {
        self.position = position;
        self.updated_at = now_nanos();
    }

    /// Replaces the content and stamps the update time.
    pub fn set_content(&mut self, content: String)
        ensures
            *final(self) == (Node { content, updated_at: final(self).updated_at, ..*old(self) }),
    {
        self.content = content;
        self.updated_at = now_nanos();
    }

    /// Replaces the parent and stamps the update time.
    pub fn set_parent(&mut self, parent_id: Option<u128>)
        ensures
            *final(self) == (Node { parent_id, updated_at: final(self).updated_at, ..*old(self) }),
    {
        self.parent_id = parent_id;
        self.updated_at = now_nanos();
    }
}

} // verus!
