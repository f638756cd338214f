//! Environment variables: an unordered map of string to string.

use crate::table::{distinct_keys, entry_map, Table};
use vstd::prelude::*;

verus! {

/// The environment variables of a container.
pub struct EnvVars {
    vars: Table<String, String>,
}

/// The map of texts that a map of strings stands for.
pub open spec fn env_texts(vars: Map<Seq<char>, String>) -> Map<Seq<char>, Seq<char>> {
    vars.map_values(|v: String| v@)
}

impl View for EnvVars {
    type V = Map<Seq<char>, Seq<char>>;

    closed spec fn view(&self) -> Map<Seq<char>, Seq<char>> {
        env_texts(self.vars@)
    }
}

impl EnvVars {
    /// No variables.
    pub fn new() -> (env: Self)
        ensures
            env@ == Map::<Seq<char>, Seq<char>>::empty(),
    {
        let env = EnvVars { vars: Table::new() };
        assert(env@ =~= Map::<Seq<char>, Seq<char>>::empty());
        env
    }

    /// The variables, each name once.
    pub fn entries(&self) -> (entries: &Vec<(String, String)>)
        ensures
            distinct_keys(entries@),
            env_texts(entry_map(entries@)) == self@,
            forall|i: int|
                0 <= i < entries@.len() ==> {
                    &&& self@.contains_key((#[trigger] entries@[i]).0@)
                    &&& self@[entries@[i].0@] == entries@[i].1@
                },
            forall|name: Seq<char>| #[trigger]
                self@.contains_key(name) ==> exists|i: int|
                    0 <= i < entries@.len() && (#[trigger] entries@[i]).0@ == name,
    {
        self.vars.entries()
    }

    /// The value of the variable `name`, if it is set.
    pub fn get(&self, name: &String) -> (value: Option<&String>)
        ensures
            match value {
                Some(v) => self@.contains_key(name@) && v@ == self@[name@],
                None => !self@.contains_key(name@),
            },
    {
        self.vars.get(name)
    }

    /// Sets the variable `name`.
    pub fn insert(&mut self, name: String, value: String)
        ensures
            final(self)@ == old(self)@.insert(name@, value@),
    {
        self.vars.insert(name, value);
        assert(self@ =~= old(self)@.insert(name@, value@));
    }

    /// These variables with one more set.
    pub fn with(&self, name: &str, value: String) -> (env: Self)
        ensures
            env@ == self@.insert(name@, value@),
    {
        let mut env = EnvVars { vars: self.vars.duplicate() };
        env.insert(name.to_owned(), value);
        env
    }
}

} // verus!
