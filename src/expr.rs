use vstd::prelude::*;

verus! {

/// A symbol minted by the front end: the index of its defining module and the
/// index of its identifier within that module.
#[derive(Clone, Copy, Debug, PartialEq, Eq, Structural)]
pub struct Symbol {
    pub module: usize,
    pub ident: usize,
}

/// A type slot: the index of a type variable in the solved substitution.
#[derive(Clone, Copy, Debug, PartialEq, Eq, Structural)]
pub struct Variable {
    pub index: u32,
}

/// The left-hand side of a local binding.
#[derive(Clone, Copy, Debug, PartialEq, Eq, Structural)]
pub enum Pattern {
    Identifier(Symbol),
    Underscore,
}

/// A node of the canonical expression tree.
#[derive(Debug)]
pub enum Expr {
    /// A string literal.
    Str(String),
    /// An integer literal.
    Int(i128),
    /// A floating-point literal, held as its display text.
    Float(String),
    /// A reference to a variable, with its type slot.
    Var(Symbol, Variable),
    /// A call: the callee and the positional arguments, each with its type slot.
    Call(Box<Expr>, Vec<(Variable, Expr)>),
    /// A list literal.
    List(Vec<Expr>),
    /// A non-recursive local binding followed by the expression it scopes over.
    LetNonRec { pattern: Pattern, value: Box<Expr>, body: Box<Expr> },
    /// Any other kind of node, held as its raw debug form.
    Unsupported(String),
}

} // verus!
