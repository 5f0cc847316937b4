//! The user's global configuration as a table from dotted keys to values.
use vstd::prelude::*;

use crate::lists::{looked_up, Table};

verus! {

/// Configuration values by key, as `devme config set` writes them.
pub struct GlobalConfig {
    values: Table<String>,
}

impl View for GlobalConfig {
    type V = Map<Seq<char>, Seq<char>>;

    closed spec fn view(&self) -> Map<Seq<char>, Seq<char>> {
        self.values@
    }
}

impl Default for GlobalConfig {
    fn default() -> (r: Self)
        ensures
            r@ == Map::<Seq<char>, Seq<char>>::empty(),
    {
        GlobalConfig { values: Table::new() }
    }
}

impl GlobalConfig {
    pub fn get(&self, key: &str) -> (r: Option<String>)
        ensures
            match r {
                Some(v) => looked_up(self@, key@) == Some(v@),
                None => looked_up(self@, key@) is None,
            },
    {
        match self.values.get(key) {
            Some(v) => Some(v.clone()),
            None => None,
        }
    }

    pub fn set(&mut self, key: &str, value: &str)
        ensures
            final(self)@ == old(self)@.insert(key@, value@),
    {
        self.values.insert(key, value.to_owned());
    }

    pub fn unset(&mut self, key: &str)
        ensures
            final(self)@ == old(self)@.remove(key@),
    {
        let _dropped = self.values.remove(key);
    }
}

} // verus!
