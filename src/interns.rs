use vstd::prelude::*;
use crate::expr::Symbol;

verus! {

/// The module name that stands for the program under analysis itself.
pub const USER_APP_MODULE: &'static str = "#UserApp";

/// The text given for a symbol whose module or identifier is not interned.
pub const UNRESOLVED: &'static str = "#unresolved";

/// The interning context: module names by module index, and identifier names
/// by module index and then identifier index.
pub struct Interns {
    pub module_names: Vec<String>,
    pub ident_names: Vec<Vec<String>>,
}

impl Interns {
    /// Every interned identifier has a non-empty name.
    pub open spec fn names_nonempty(&self) -> bool {
        forall|m: int, i: int|
            0 <= m < self.ident_names@.len() && 0 <= i < self.ident_names@[m]@.len()
                ==> #[trigger] self.ident_names@[m]@[i]@.len() > 0
    }

    /// The bare name of a symbol.
    pub open spec fn name_of(&self, s: Symbol) -> Seq<char> {
        if s.module < self.ident_names@.len() && s.ident < self.ident_names@[s.module as int]@.len() {
            self.ident_names@[s.module as int]@[s.ident as int]@
        } else {
            UNRESOLVED@
        }
    }

    /// The name of the module that defines a symbol.
    pub open spec fn module_name_of(&self, s: Symbol) -> Seq<char> {
        if s.module < self.module_names@.len() {
            self.module_names@[s.module as int]@
        } else {
            UNRESOLVED@
        }
    }

    /// The qualifier shown before a symbol's name: its module, unless that is
    /// the program under analysis.
    pub open spec fn qualifier_of(&self, s: Symbol) -> Option<Seq<char>> {
        if self.module_name_of(s) == USER_APP_MODULE@ {
            None
        } else {
            Some(self.module_name_of(s))
        }
    }

    /// The bare name of `symbol`.
    pub fn ident_str(&self, symbol: &Symbol) -> (r: &str)
        ensures
            r@ == self.name_of(*symbol),
    {
        if symbol.module < self.ident_names.len() && symbol.ident < self.ident_names[symbol.module].len() {
            self.ident_names[symbol.module][symbol.ident].as_str()
        } else {
            UNRESOLVED
        }
    }

    /// The name of the module that defines `symbol`.
    pub fn module_string(&self, symbol: &Symbol) -> (r: &str)
        ensures
            r@ == self.module_name_of(*symbol),
    {
        if symbol.module < self.module_names.len() {
            self.module_names[symbol.module].as_str()
        } else {
            UNRESOLVED
        }
    }
}

} // verus!
