//! The validator's configuration file: which tests are enabled.

use crate::keyed::{KeyedList, lookup};
use vstd::prelude::*;

verus! {

/// The contents of a `clap-validator.toml` file.
pub struct Config {
    /// Tests switched on or off by name.
    pub test: KeyedList<bool>,
}

impl Default for Config {
    /// A configuration that switches nothing.
    fn default() -> (r: Config)
        ensures
            r.test@ == Seq::<(Seq<char>, bool)>::empty(),
    {
        Config { test: KeyedList::new() }
    }
}

impl Config {
    /// Whether a test is enabled: tests are enabled unless the configuration switches them off.
    pub fn is_test_enabled(&self, test_name: &str) -> (r: bool)
        ensures
            r == match lookup(self.test@, test_name@) {
                Some(enabled) => enabled,
                None => true,
            },
    {
        match self.test.get(test_name) {
            Some(enabled) => *enabled,
            None => true,
        }
    }
}

} // verus!
