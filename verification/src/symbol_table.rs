//! The table of symbols that later phases fill in.

pub mod token;

use std::collections::HashMap;
use vstd::prelude::*;
use self::token::Token;

verus! {

/// The symbols of a program, each with what is known of it.
pub struct SymbolTable {
    table: HashMap<Token, Option<String>>,
}

impl View for SymbolTable {
    type V = Map<Token, Option<String>>;

    closed spec fn view(&self) -> Map<Token, Option<String>> {
        self.table@
    }
}

impl SymbolTable {
    /// A table without entries.
    pub fn init() -> (table: Self)
        ensures
            table@ == Map::<Token, Option<String>>::empty(),
    {
        let map: HashMap<Token, Option<String>> = HashMap::<Token, Option<String>>::new();
        SymbolTable { table: map }
    }
}

} // verus!
