//! Cheat codes: signals that code under test sends to the harness, and the
//! registry that tells which key stands for which of them.

use std::collections::BTreeMap;
use vstd::prelude::*;

verus! {

broadcast use {vstd::std_specs::btree::group_btree_axioms, vstd::laws_cmp::group_laws_cmp};

/// What a cheat call asks of the harness.
#[derive(Clone, Copy, Debug, PartialEq, Eq)]
pub enum HuffCheatCode {
    /// Record one word of data together with the place it was sent from.
    Log,
}

/// The key under which the standard registry knows `Log`.
pub const LOG_CHEAT_KEY: u32 = 1;

/// An immutable-by-use mapping from cheat keys to cheat codes. A key that it
/// does not hold stands for nothing.
#[derive(Debug)]
pub struct CheatRegistry {
    codes: BTreeMap<u32, HuffCheatCode>,
}

impl View for CheatRegistry {
    type V = Map<u32, HuffCheatCode>;

    closed spec fn view(&self) -> Map<u32, HuffCheatCode> {
        self.codes@
    }
}

/// The registry that knows `Log` under its key and nothing else.
pub open spec fn standard_registry() -> Map<u32, HuffCheatCode> {
    Map::<u32, HuffCheatCode>::empty().insert(LOG_CHEAT_KEY, HuffCheatCode::Log)
}

impl CheatRegistry {
    /// A registry that knows no key.
    pub fn new() -> (registry: Self)
        ensures
            registry@ == Map::<u32, HuffCheatCode>::empty(),
    {
        CheatRegistry { codes: BTreeMap::new() }
    }

    /// The registry that knows `Log` under its key and nothing else.
    pub fn standard() -> (registry: Self)
        ensures
            registry@ == standard_registry(),
    {
        let mut registry = CheatRegistry::new();
        registry.register(LOG_CHEAT_KEY, HuffCheatCode::Log);
        registry
    }

    /// Binds `key` to `code`, in place of what it was bound to.
    pub fn register(&mut self, key: u32, code: HuffCheatCode)
        ensures
            final(self)@ == old(self)@.insert(key, code),
    {
        self.codes.insert(key, code);
    }

    /// The cheat code that `key` stands for, if any.
    pub fn get(&self, key: u32) -> (code: Option<HuffCheatCode>)
        ensures
            code == (if self@.contains_key(key) {
                Some(self@[key])
            } else {
                None
            }),
    {
        match self.codes.get(&key) {
            Some(code) => Some(*code),
            None => None,
        }
    }
}

} // verus!
