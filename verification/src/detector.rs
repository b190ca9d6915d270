//! The call-shape detector: a recursive, conservative predicate deciding
//! whether an expression of the closed grammar statically contains one of
//! the four designated creation calls.
//!
//! The predicate is a static approximation, not evaluation.  Its deliberate
//! gaps are part of the contract: a conditional's test, a member access's
//! property, and every `Expr::Other` leaf are never inspected.

use vstd::prelude::*;

use crate::ast::ArrowBody;
use crate::ast::Expr;
use crate::ast::Stmt;
use crate::view::ArrowBodyV;
use crate::view::ExprV;
use crate::view::StmtV;
use crate::view::expr_view;
use crate::view::exprs_view;
use crate::view::lemma_exprs_view;
use crate::view::lemma_opt_exprs_view;
use crate::view::lemma_stmts_view;
use crate::view::opt_exprs_view;
use crate::view::stmt_view;
use crate::view::stmts_view;

verus! {

/// The four designated creation-call names.
pub open spec fn is_creation_call_name(s: Seq<char>) -> bool {
    ||| s == "createVNode"@
    ||| s == "createComponentVNode"@
    ||| s == "createFragment"@
    ||| s == "createTextVNode"@
}

/// Does this expression statically contain a designated creation call?
pub open spec fn has_creation_call(e: ExprV) -> bool
    decreases e,
{
    match e {
        ExprV::Call { callee, args } => {
            ||| (callee matches Some(n) && is_creation_call_name(n))
            ||| any_arg_has_creation_call(args)
        },
        ExprV::Paren { inner } => has_creation_call(*inner),
        ExprV::Cond { test: _, cons, alt } => has_creation_call(*cons) || has_creation_call(*alt),
        ExprV::Bin { left, right } => has_creation_call(*left) || has_creation_call(*right),
        ExprV::Array { elems } => any_elem_has_creation_call(elems),
        ExprV::Arrow { body } => arrow_body_has_creation_call(body),
        ExprV::Member { obj } => has_creation_call(*obj),
        ExprV::Unary { arg } => has_creation_call(*arg),
        ExprV::Other => false,
    }
}

/// Does any call argument contain a creation call?
pub open spec fn any_arg_has_creation_call(args: Seq<ExprV>) -> bool
    decreases args,
{
    exists|i: int| 0 <= i < args.len() && has_creation_call(#[trigger] args[i])
}

/// Does any present array element contain a creation call?  Sparse holes
/// are skipped.
pub open spec fn any_elem_has_creation_call(elems: Seq<Option<ExprV>>) -> bool
    decreases elems,
{
    exists|i: int|
        {
            &&& 0 <= i < elems.len()
            &&& (#[trigger] elems[i]) matches Some(e)
            &&& has_creation_call(e)
        }
}

/// Does an arrow body contain a creation call?  A bare expression body is
/// inspected directly; in a block body only the arguments of top-level
/// `return` statements are inspected, nothing deeper.
pub open spec fn arrow_body_has_creation_call(b: ArrowBodyV) -> bool
    decreases b,
{
    match b {
        ArrowBodyV::Expr(e) => has_creation_call(*e),
        ArrowBodyV::Block(stmts) => any_return_arg_has_creation_call(stmts),
    }
}

/// Does any top-level `return` in this statement list return an expression
/// containing a creation call?
pub open spec fn any_return_arg_has_creation_call(stmts: Seq<StmtV>) -> bool
    decreases stmts,
{
    exists|i: int|
        {
            &&& 0 <= i < stmts.len()
            &&& (#[trigger] stmts[i]) matches StmtV::Return(Some(e))
            &&& has_creation_call(e)
        }
}

/// The four creation-call names, tested on an identifier.
fn is_creation_call_ident(name: &String) -> (r: bool)
    ensures
        r == is_creation_call_name(name@),
{
    let n1: String = "createVNode".to_owned();
    let n2: String = "createComponentVNode".to_owned();
    let n3: String = "createFragment".to_owned();
    let n4: String = "createTextVNode".to_owned();
    name.eq(&n1) || name.eq(&n2) || name.eq(&n3) || name.eq(&n4)
}

/// Recursive deep search for a designated creation call within the closed
/// expression grammar.
#[verifier::loop_isolation(false)]
pub fn has_vnode_call(expr: &Expr) -> (r: bool)
    ensures
        r == has_creation_call(expr_view(*expr)),
    decreases *expr,
{
    match expr {
        Expr::Call { callee, args } => {
            proof {
                lemma_exprs_view(args@);
            }
            if let Some(name) = callee {
                if is_creation_call_ident(name) {
                    return true;
                }
            }
            let mut i: usize = 0;
            while i < args.len()
                invariant
                    i <= args.len(),
                    forall|j: int| 0 <= j < i ==> !has_creation_call(
                        #[trigger] exprs_view(args@)[j],
                    ),
                decreases args.len() - i,
            {
                if has_vnode_call(&args[i]) {
                    proof {
                        assert(exprs_view(args@)[i as int] == expr_view(args@[i as int]));
                        assert(any_arg_has_creation_call(exprs_view(args@)));
                        assert(has_creation_call(expr@));
                    }
                    return true;
                }
                i += 1;
            }
            proof {
                assert(exprs_view(args@).len() == args@.len());
                assert(!any_arg_has_creation_call(exprs_view(args@)));
                assert(!has_creation_call(expr@));
            }
            false
        },
        Expr::Paren { inner } => has_vnode_call(inner),
        Expr::Cond { test: _, cons, alt } => has_vnode_call(cons) || has_vnode_call(alt),
        Expr::Bin { left, right } => has_vnode_call(left) || has_vnode_call(right),
        Expr::Array { elems } => {
            proof {
                lemma_opt_exprs_view(elems@);
            }
            let mut i: usize = 0;
            while i < elems.len()
                invariant
                    i <= elems.len(),
                    forall|j: int|
                        0 <= j < i ==> !((#[trigger] opt_exprs_view(elems@)[j]) matches Some(e)
                            && has_creation_call(e)),
                decreases elems.len() - i,
            {
                if let Some(e) = &elems[i] {
                    if has_vnode_call(e) {
                        proof {
                            assert(opt_exprs_view(elems@)[i as int] == Some(expr_view(*e)));
                            assert(any_elem_has_creation_call(opt_exprs_view(elems@)));
                            assert(has_creation_call(expr@));
                        }
                        return true;
                    }
                }
                i += 1;
            }
            proof {
                assert(opt_exprs_view(elems@).len() == elems@.len());
                assert(!any_elem_has_creation_call(opt_exprs_view(elems@)));
                assert(!has_creation_call(expr@));
            }
            false
        },
        Expr::Arrow { body } => {
            let r = match body {
                ArrowBody::Expr(e) => has_vnode_call(e),
                ArrowBody::Block(stmts) => returns_vnode_call(stmts),
            };
            proof {
                match body {
                    ArrowBody::Expr(e) => {
                        assert(crate::view::arrow_body_view(*body) == ArrowBodyV::Expr(
                            Box::new(expr_view(**e)),
                        ));
                        assert(arrow_body_has_creation_call(crate::view::arrow_body_view(*body))
                            == has_creation_call(expr_view(**e)));
                    },
                    ArrowBody::Block(stmts) => {
                        assert(crate::view::arrow_body_view(*body) == ArrowBodyV::Block(
                            stmts_view(stmts@),
                        ));
                        assert(arrow_body_has_creation_call(crate::view::arrow_body_view(*body))
                            == any_return_arg_has_creation_call(stmts_view(stmts@)));
                    },
                }
                assert(expr@ == ExprV::Arrow { body: crate::view::arrow_body_view(*body) });
                assert(r == has_creation_call(expr@));
            }
            r
        },
        Expr::Member { obj } => has_vnode_call(obj),
        Expr::Unary { arg } => has_vnode_call(arg),
        Expr::Other => false,
    }
}

/// Does any top-level `return` in this statement list return an expression
/// containing a creation call?
#[verifier::loop_isolation(false)]
pub fn returns_vnode_call(stmts: &Vec<Stmt>) -> (r: bool)
    ensures
        r == any_return_arg_has_creation_call(stmts_view(stmts@)),
    decreases *stmts,
{
    proof {
        lemma_stmts_view(stmts@);
    }
    let mut i: usize = 0;
    while i < stmts.len()
        invariant
            i <= stmts.len(),
            forall|j: int|
                0 <= j < i ==> !((#[trigger] stmts_view(stmts@)[j]) matches StmtV::Return(Some(e))
                    && has_creation_call(e)),
        decreases stmts.len() - i,
    {
        if let Stmt::Return(Some(arg)) = &stmts[i] {
            if has_vnode_call(arg) {
                proof {
                    assert(stmts_view(stmts@)[i as int] == stmt_view(stmts@[i as int]));
                    assert(any_return_arg_has_creation_call(stmts_view(stmts@)));
                }
                return true;
            }
        }
        i += 1;
    }
    false
}

} // verus!
