//! Username and password authentication.

use vstd::prelude::*;
use crate::string_map::{StringMap, insert_entry, lookup, lemma_insert_unique};
use crate::text::str_eq;
use crate::types::properties::{user_pairs, lemma_text_pairs_insert, lemma_text_pairs_lookup};

verus! {

/// The known users and their passwords.
#[derive(Debug, Clone)]
pub struct Authentication {
    pub users: StringMap<String>,
}

/// Whether `users` holds `username` with exactly `password`.
pub open spec fn credentials_match(users: Seq<(Seq<char>, Seq<char>)>, username: Seq<char>, password: Seq<char>) -> bool {
    lookup(users, username) == Some(password)
}

impl Authentication {
    /// No users.
    pub fn new() -> (r: Self)
        ensures
            user_pairs(r.users) == Seq::<(Seq<char>, Seq<char>)>::empty(),
    {
        let r = Authentication { users: StringMap::new() };
        assert(user_pairs(r.users) =~= Seq::<(Seq<char>, Seq<char>)>::empty());
        r
    }

    /// Adds a user, replacing the password of a user already known.
    pub fn add_user(self, username: &str, password: &str) -> (r: Self)
        ensures
            user_pairs(r.users) == insert_entry(user_pairs(self.users), username@, password@),
    {
        let mut s = self;
        s.users.check_unique();
        let p = password.to_owned();
        proof {
            lemma_text_pairs_insert(s.users.view(), username@, p);
        }
        s.users.insert(username.to_owned(), p);
        s
    }

    /// Whether `username` is known with exactly `password`.
    pub fn authenticate(&self, username: &str, password: &str) -> (r: bool)
        ensures
            r == credentials_match(user_pairs(self.users), username@, password@),
    {
        self.users.check_unique();
        proof {
            lemma_text_pairs_lookup(self.users.view(), username@);
        }
        match self.users.get(username) {
            Some(expected) => str_eq(expected.as_str(), password),
            None => false,
        }
    }
}

impl Default for Authentication {
    /// No users.
    fn default() -> (r: Self)
        ensures
            user_pairs(r.users) == Seq::<(Seq<char>, Seq<char>)>::empty(),
    {
        Authentication::new()
    }
}

/// A user just added authenticates with the password given, and with no
/// other.
pub proof fn lemma_added_user_authenticates(
    users: Seq<(Seq<char>, Seq<char>)>,
    username: Seq<char>,
    password: Seq<char>,
    other: Seq<char>,
)
    requires
        crate::string_map::keys_unique(users),
    ensures
        credentials_match(insert_entry(users, username, password), username, password),
        other != password ==> !credentials_match(insert_entry(users, username, password), username, other),
{
    lemma_insert_unique(users, username, password);
}

} // verus!
