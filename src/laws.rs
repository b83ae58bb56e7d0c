use vstd::prelude::*;
use crate::expr::{Expr, Variable};
use crate::loaded::RocLoadedModule;

verus! {

/// The text of an expression is never empty, whatever its kind, provided
/// every interned identifier has a name.
pub proof fn lemma_render_nonempty(m: &RocLoadedModule, e: Expr)
    requires
        m.interns.names_nonempty(),
    ensures
        m.render(e).len() > 0,
    decreases e,
{
    reveal_strlit("(");
    reveal_strlit("(Int ");
    reveal_strlit("(Float ");
    reveal_strlit("(List");
    reveal_strlit("(UNSUPPORTED ");
    reveal_strlit("#unresolved");
    match e {
        Expr::Var(s, _) => {
            assert(m.interns.name_of(s).len() > 0);
        },
        Expr::LetNonRec { body, .. } => {
            lemma_render_nonempty(m, *body);
        },
        _ => {},
    }
}

/// The arguments of a call show as one piece per argument, in order: a space
/// followed by the argument's text.
pub proof fn lemma_args_text(m: &RocLoadedModule, args: Seq<(Variable, Expr)>)
    ensures
        m.render_args(args) == Seq::new(args.len(), |j: int| " "@ + m.render(args[j].1)).flatten(),
    decreases args.len(),
{
    let pieces = Seq::new(args.len(), |j: int| " "@ + m.render(args[j].1));
    if args.len() > 0 {
        let front = args.subrange(0, args.len() - 1);
        lemma_args_text(m, front);
        let front_pieces = Seq::new(front.len(), |j: int| " "@ + m.render(front[j].1));
        assert(pieces =~= front_pieces.push(" "@ + m.render(args[args.len() - 1].1)));
        front_pieces.lemma_flatten_push(" "@ + m.render(args[args.len() - 1].1));
    } else {
        assert(pieces =~= Seq::<Seq<char>>::empty());
    }
}

/// A call with `n` arguments shows as one pair of parentheses holding the
/// callee's text and then `n` pieces, in argument order, each a space followed
/// by that argument's text.
pub proof fn lemma_call_text(m: &RocLoadedModule, e: Expr)
    requires
        e is Call,
    ensures
        m.render(e) == "("@ + m.render(*e->Call_0) + Seq::new(
            e->Call_1@.len(),
            |j: int| " "@ + m.render(e->Call_1@[j].1),
        ).flatten() + ")"@,
{
    lemma_args_text(m, e->Call_1@);
}

} // verus!
