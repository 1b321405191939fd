use vstd::prelude::*;

use crate::clock::now_nanos;
use crate::ids::new_id;

verus! {

/// A registered user. Identifiers are UUIDs held as their 128-bit value;
/// times are nanoseconds since the Unix epoch.
#[derive(Debug)]
pub struct User {
    pub id: u128,
    pub display_name: String,
    pub bio: String,
    pub email: String,
    pub username: String,
    pub password_hash: String,
    pub created_at: i128,
    pub updated_at: i128,
}

impl User {
    /// A new user with a fresh identifier, created and updated now.
    pub fn new(
        display_name: String,
        bio: String,
        email: String,
        username: String,
        password_hash: String,
    ) -> (user: User)
        ensures
            user.display_name == display_name,
            user.bio == bio,
            user.email == email,
            user.username == username,
            user.password_hash == password_hash,
            user.created_at == user.updated_at,
    {
        let now = now_nanos();
        User {
            id: new_id(),
            display_name,
            bio,
            email,
            username,
            password_hash,
            created_at: now,
            updated_at: now,
        }
    }

    /// Replaces the display name and stamps the update time.
    pub fn set_display_name(&mut self, display_name: String)
        ensures
            *final(self) == (User { display_name, updated_at: final(self).updated_at, ..*old(self) }),
    {
        self.display_name = display_name;
        self.updated_at = now_nanos();
    }

    /// Replaces the bio and stamps the update time.
    pub fn set_bio(&mut self, bio: String)
        ensures
            *final(self) == (User { bio, updated_at: final(self).updated_at, ..*old(self) }),
    {
        self.bio = bio;
        self.updated_at = now_nanos();
    }

    /// Replaces the username and stamps the update time.
    pub fn set_username(&mut self, username: String)
        ensures
            *final(self) == (User { username, updated_at: final(self).updated_at, ..*old(self) }),
    {
        self.username = username;
        self.updated_at = now_nanos();
    }

    /// Replaces the email and stamps the update time.
    pub fn set_email(&mut self, email: String)
        ensures
            *final(self) == (User { email, updated_at: final(self).updated_at, ..*old(self) }),
    {
        self.email = email;
        self.updated_at = now_nanos();
    }

    /// Replaces the password hash and stamps the update time.
    pub fn set_password_hash(&mut self, password_hash: String)
        ensures
            *final(self) == (User { password_hash, updated_at: final(self).updated_at, ..*old(self) }),
    {
        self.password_hash = password_hash;
        self.updated_at = now_nanos();
    }
}

} // verus!
