//! The main configuration: every named store, built once from the
//! configuration source and never mutated afterward.

use vstd::prelude::*;

use crate::error::Error;
use crate::store::Store;

verus! {

/// The first store registered under `name`, if any. Store names are
/// unique keys in the configuration source, so at most one entry can
/// match; were a duplicate ever present, the earliest registration
/// wins.
pub open spec fn spec_lookup(stores: Seq<(String, Store)>, name: Seq<char>) -> Option<Store>
    decreases stores.len(),
{
    if stores.len() == 0 {
        None
    } else if stores[0].0@ == name {
        Some(stores[0].1)
    } else {
        spec_lookup(stores.subrange(1, stores.len() as int), name)
    }
}

/// The registry of configured stores, keyed by store name. The
/// configuration source maps each name to one store, so the names are
/// expected unique; lookup is by first match and insertion order
/// carries no other meaning.
pub struct Config {
    pub stores: Vec<(String, Store)>,
}

impl Default for Config {
    fn default() -> (c: Config)
        ensures
            c.stores@.len() == 0,
    {
        Config { stores: Vec::new() }
    }
}

impl Config {
    /// The configured store registered under `name`, or a configuration
    /// error exactly when no store carries that name.
    pub fn get_store<'a>(&'a self, name: &String) -> (r: Result<&'a Store, Error>)
        ensures
            r is Ok <==> spec_lookup(self.stores@, name@) is Some,
            r matches Ok(s) ==> Some(*s) == spec_lookup(self.stores@, name@),
            r matches Err(e) ==> (e matches Error::ConfigurationError(n) && n@ == name@),
    {
        let n = self.stores.len();
        let mut i: usize = 0;
        assert(self.stores@.subrange(0, n as int) =~= self.stores@);
        while i < n
            invariant
                i <= n,
                n == self.stores.len(),
                spec_lookup(self.stores@, name@) == spec_lookup(
                    self.stores@.subrange(i as int, n as int),
                    name@,
                ),
            decreases n - i,
        {
            let ghost rest = self.stores@.subrange(i as int, n as int);
            assert(rest[0] == self.stores@[i as int]);
            if String::eq(&self.stores[i].0, name) {
                assert(spec_lookup(rest, name@) == Some(rest[0].1));
                return Ok(&self.stores[i].1);
            }
            assert(rest.subrange(1, rest.len() as int) =~= self.stores@.subrange(
                i + 1,
                n as int,
            ));
            i = i + 1;
        }
        Err(Error::ConfigurationError(name.clone()))
    }
}

} // verus!
