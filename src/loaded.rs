use vstd::prelude::*;
use crate::expr::{Expr, Symbol, Variable};
use crate::interns::{Interns, USER_APP_MODULE};
use crate::text::{debug_escaped, debug_quoted, int_text, push_int};

verus! {

/// The name of the program's entry point.
pub const ENTRY_POINT: &'static str = "main";

/// A top-level declaration: a symbol bound to an expression.
pub struct Decl {
    pub symbol: Symbol,
    pub expr: Expr,
}

/// A type-checked program: one declaration table per module, and the
/// interning context that names its symbols.
pub struct RocLoadedModule {
    pub typechecked: Vec<Vec<Decl>>,
    pub interns: Interns,
}

impl RocLoadedModule {
    /// Declaration `i` of table `t` exists and its symbol's bare name is `name`.
    pub open spec fn decl_matches(&self, t: int, i: int, name: Seq<char>) -> bool {
        &&& 0 <= t < self.typechecked@.len()
        &&& 0 <= i < self.typechecked@[t]@.len()
        &&& self.interns.name_of(self.typechecked@[t]@[i].symbol) == name
    }

    /// Position `(t1, i1)` comes before `(t2, i2)` in table, then index, order.
    pub open spec fn precedes(t1: int, i1: int, t2: int, i2: int) -> bool {
        t1 < t2 || (t1 == t2 && i1 < i2)
    }

    /// Declaration `i` of table `t` is the first whose name is `name`.
    pub open spec fn first_match(&self, t: int, i: int, name: Seq<char>) -> bool {
        &&& self.decl_matches(t, i, name)
        &&& forall|t2: int, i2: int|
            Self::precedes(t2, i2, t, i) ==> !#[trigger] self.decl_matches(t2, i2, name)
    }

    /// How a variable reference is shown: `Module.name`, or the bare name for
    /// a symbol of the program under analysis.
    pub open spec fn var_text(&self, s: Symbol) -> Seq<char> {
        match self.interns.qualifier_of(s) {
            Some(m) => m + "."@ + self.interns.name_of(s),
            None => self.interns.name_of(s),
        }
    }

    /// The text of an expression.
    pub open spec fn render(&self, e: Expr) -> Seq<char>
        decreases e,
    {
        match e {
            Expr::Str(s) => seq!['"'] + debug_escaped(s@) + seq!['"'],
            Expr::Int(v) => "(Int "@ + int_text(v as int) + ")"@,
            Expr::Float(t) => "(Float "@ + t@ + ")"@,
            Expr::Var(s, _) => self.var_text(s),
            Expr::Call(f, args) => "("@ + self.render(*f) + self.render_args(args@) + ")"@,
            Expr::List(elems) => "(List"@ + self.render_elems(elems@) + ")"@,
            Expr::LetNonRec { body, .. } => self.render(*body),
            Expr::Unsupported(raw) => "(UNSUPPORTED "@ + raw@ + ")"@,
        }
    }

    /// Each argument's text after a space, left to right.
    pub open spec fn render_args(&self, args: Seq<(Variable, Expr)>) -> Seq<char>
        decreases args,
    {
        if args.len() == 0 {
            Seq::empty()
        } else {
            self.render_args(args.subrange(0, args.len() - 1)) + " "@ + self.render(
                args[args.len() - 1].1,
            )
        }
    }

    /// Each element's text after a space, left to right.
    pub open spec fn render_elems(&self, elems: Seq<Expr>) -> Seq<char>
        decreases elems,
    {
        if elems.len() == 0 {
            Seq::empty()
        } else {
            self.render_elems(elems.subrange(0, elems.len() - 1)) + " "@ + self.render(
                elems[elems.len() - 1],
            )
        }
    }

    /// The bare name of `symbol`.
    pub fn symbol_str(&self, symbol: &Symbol) -> (r: &str)
        ensures
            r@ == self.interns.name_of(*symbol),
    {
        self.interns.ident_str(symbol)
    }

    /// The module that qualifies `symbol`, or `None` when it belongs to the
    /// program under analysis.
    pub fn module_str(&self, symbol: &Symbol) -> (r: Option<&str>)
        ensures
            self.interns.module_name_of(*symbol) == USER_APP_MODULE@ ==> r is None,
            self.interns.module_name_of(*symbol) != USER_APP_MODULE@ ==> (r matches Some(m)
                && m@ == self.interns.module_name_of(*symbol)),
    {
        let module = self.interns.module_string(symbol);
        if module.to_owned() == USER_APP_MODULE.to_owned() {
            None
        } else {
            Some(module)
        }
    }

    /// The expression of the first declaration, in table and then index order,
    /// whose symbol's bare name is `name`.
    pub fn find_symbol(&self, name: &str) -> (r: Option<&Expr>)
        ensures
            r is None <==> forall|t: int, i: int| !#[trigger] self.decl_matches(t, i, name@),
            r matches Some(e) ==> exists|t: int, i: int|
                #[trigger] self.first_match(t, i, name@) && *e == self.typechecked@[t]@[i].expr,
    {
        let target = name.to_owned();
        let mut t: usize = 0;
        while t < self.typechecked.len()
            invariant
                t <= self.typechecked@.len(),
                target@ == name@,
                forall|t2: int, i2: int|
                    0 <= t2 < t ==> !#[trigger] self.decl_matches(t2, i2, name@),
            decreases self.typechecked@.len() - t,
        {
            let table = &self.typechecked[t];
            let mut i: usize = 0;
            while i < table.len()
                invariant
                    i <= table@.len(),
                    t < self.typechecked@.len(),
                    *table == self.typechecked@[t as int],
                    target@ == name@,
                    forall|t2: int, i2: int|
                        0 <= t2 < t ==> !#[trigger] self.decl_matches(t2, i2, name@),
                    forall|i2: int| 0 <= i2 < i ==> !#[trigger] self.decl_matches(t as int, i2, name@),
                decreases table@.len() - i,
            {
                let candidate = self.symbol_str(&table[i].symbol).to_owned();
                if candidate == target {
                    assert(self.first_match(t as int, i as int, name@));
                    return Some(&table[i].expr);
                }
                i = i + 1;
            }
            t = t + 1;
        }
        None
    }

    /// Appends the text of `expr` to `buf`. A local binding shows only the
    /// expression it scopes over; its pattern and bound value are left out.
    pub fn print_expr(&self, buf: &mut String, expr: &Expr)
        ensures
            final(buf)@ == old(buf)@ + self.render(*expr),
        decreases expr,
    {
        match expr {
            Expr::Str(s) => {
                let quoted = debug_quoted(s.as_str());
                buf.append(quoted.as_str());
            },
            Expr::Int(v) => {
                buf.append("(Int ");
                push_int(buf, *v);
                buf.append(")");
            },
            Expr::Float(text) => {
                buf.append("(Float ");
                buf.append(text.as_str());
                buf.append(")");
            },
            Expr::Var(symbol, _var) => {
                match self.module_str(symbol) {
                    Some(module) => {
                        buf.append(module);
                        buf.append(".");
                        buf.append(self.symbol_str(symbol));
                    },
                    None => {
                        buf.append(self.symbol_str(symbol));
                    },
                }
            },
            Expr::Call(callee, arguments) => {
                buf.append("(");
                self.print_expr(buf, callee);
                let ghost start = buf@;
                let mut j: usize = 0;
                while j < arguments.len()
                    invariant
                        j <= arguments@.len(),
                        *expr == Expr::Call(*callee, *arguments),
                        buf@ == start + self.render_args(arguments@.subrange(0, j as int)),
                    decreases arguments@.len() - j,
                {
                    proof {
                        assert(decreases_to!(*expr => (*expr)->Call_1@[j as int].1));
                    }
                    buf.append(" ");
                    self.print_expr(buf, &arguments[j].1);
                    proof {
                        let next = arguments@.subrange(0, j + 1);
                        assert(next.subrange(0, j as int) =~= arguments@.subrange(0, j as int));
                    }
                    j = j + 1;
                }
                assert(arguments@.subrange(0, arguments@.len() as int) =~= arguments@);
                buf.append(")");
            },
            Expr::List(elems) => {
                buf.append("(List");
                let ghost start = buf@;
                let mut j: usize = 0;
                while j < elems.len()
                    invariant
                        j <= elems@.len(),
                        *expr == Expr::List(*elems),
                        buf@ == start + self.render_elems(elems@.subrange(0, j as int)),
                    decreases elems@.len() - j,
                {
                    proof {
                        assert(decreases_to!(*expr => (*expr)->List_0@[j as int]));
                    }
                    buf.append(" ");
                    self.print_expr(buf, &elems[j]);
                    proof {
                        let next = elems@.subrange(0, j + 1);
                        assert(next.subrange(0, j as int) =~= elems@.subrange(0, j as int));
                    }
                    j = j + 1;
                }
                assert(elems@.subrange(0, elems@.len() as int) =~= elems@);
                buf.append(")");
            },
            Expr::LetNonRec { body, .. } => {
                self.print_expr(buf, body);
            },
            Expr::Unsupported(raw) => {
                buf.append("(UNSUPPORTED ");
                buf.append(raw.as_str());
                buf.append(")");
            },
        }
    }

    /// The text of the entry point's expression, or `None` when no declaration
    /// is named after the entry point.
    pub fn print_main(&self) -> (r: Option<String>)
        ensures
            r is None <==> forall|t: int, i: int| !#[trigger] self.decl_matches(t, i, ENTRY_POINT@),
            r matches Some(text) ==> exists|t: int, i: int|
                #[trigger] self.first_match(t, i, ENTRY_POINT@) && text@ == self.render(
                    self.typechecked@[t]@[i].expr,
                ),
    {
        match self.find_symbol(ENTRY_POINT) {
            Some(main_expr) => {
                let mut buf = String::new();
                self.print_expr(&mut buf, main_expr);
                assert(buf@ =~= self.render(*main_expr));
                Some(buf)
            },
            None => None,
        }
    }
}

} // verus!
