//! The component classifier: a precedence-ordered, total and deterministic
//! assignment of each function to one of two mutually exclusive component
//! shapes, or neither.
//!
//! The stateful test always runs first.  The stateless test additionally
//! excludes arrow-function return arguments, which is what keeps the two
//! shapes disjoint; the explicit ordering is nevertheless part of the
//! contract.

use vstd::prelude::*;

use crate::ast::ArrowBody;
use crate::ast::Function;
use crate::ast::Stmt;
use crate::detector::arrow_body_has_creation_call;
use crate::detector::has_creation_call;
use crate::detector::has_vnode_call;
use crate::detector::returns_vnode_call;
use crate::view::ExprV;
use crate::view::FunctionV;
use crate::view::StmtV;
use crate::view::arrow_body_view;
use crate::view::expr_view;
use crate::view::lemma_stmts_view;
use crate::view::stmt_view;
use crate::view::stmts_view;

verus! {

/// The classification of a function: exactly one value per function,
/// deterministic and total.
#[derive(Clone, Copy, Debug, PartialEq, Eq, Structural)]
pub enum Classification {
    Stateful,
    Stateless,
    NotAComponent,
}

/// A top-level `return` whose argument is an arrow function containing a
/// creation call: the stateful shape.
pub open spec fn stateful_return(s: StmtV) -> bool {
    &&& s matches StmtV::Return(Some(a))
    &&& a matches ExprV::Arrow { body }
    &&& arrow_body_has_creation_call(body)
}

/// Does the function return an arrow function that produces virtual nodes?
pub open spec fn is_stateful_fn(f: FunctionV) -> bool {
    &&& f.body matches Some(stmts)
    &&& exists|i: int| 0 <= i < stmts.len() && stateful_return(#[trigger] stmts[i])
}

/// A top-level `return` whose argument contains a creation call and is not
/// itself an arrow function: the stateless shape.
pub open spec fn stateless_return(s: StmtV) -> bool {
    &&& s matches StmtV::Return(Some(a))
    &&& has_creation_call(a)
    &&& !(a is Arrow)
}

/// Does the function directly return a virtual-node value?
pub open spec fn is_stateless_fn(f: FunctionV) -> bool {
    &&& f.body matches Some(stmts)
    &&& exists|i: int| 0 <= i < stmts.len() && stateless_return(#[trigger] stmts[i])
}

/// The precedence-ordered classification: the stateful test is checked
/// first, then the stateless test, then neither.
pub open spec fn classify_fn(f: FunctionV) -> Classification {
    if is_stateful_fn(f) {
        Classification::Stateful
    } else if is_stateless_fn(f) {
        Classification::Stateless
    } else {
        Classification::NotAComponent
    }
}

/// Does a function body directly return a creation call (stateless shape)?
#[verifier::loop_isolation(false)]
pub fn is_stateless_component(func: &Function) -> (r: bool)
    ensures
        r == is_stateless_fn(func@),
{
    if let Some(body) = &func.body {
        proof {
            lemma_stmts_view(body@);
        }
        let mut i: usize = 0;
        while i < body.len()
            invariant
                i <= body.len(),
                forall|j: int| 0 <= j < i ==> !stateless_return(#[trigger] stmts_view(body@)[j]),
            decreases body.len() - i,
        {
            if let Stmt::Return(Some(ret_arg)) = &body[i] {
                if has_vnode_call(ret_arg) {
                    let is_arrow = matches!(ret_arg, crate::ast::Expr::Arrow { .. });
                    if !is_arrow {
                        proof {
                            assert(stmts_view(body@)[i as int] == stmt_view(body@[i as int]));
                            assert(body@[i as int] == Stmt::Return(Some(*ret_arg)));
                            assert(stmt_view(body@[i as int]) == StmtV::Return(
                                Some(expr_view(*ret_arg)),
                            ));
                            assert(!(expr_view(*ret_arg) is Arrow));
                            assert(stateless_return(stmts_view(body@)[i as int]));
                            assert(func@.body == Some(stmts_view(body@)));
                            assert(is_stateless_fn(func@));
                        }
                        return true;
                    }
                }
            }
            i += 1;
        }
        proof {
            assert(stmts_view(body@).len() == body@.len());
            assert(!is_stateless_fn(func@));
        }
        false
    } else {
        false
    }
}

/// Does a function body return an arrow function containing creation calls
/// (stateful shape)?
#[verifier::loop_isolation(false)]
pub fn is_rask_component(func: &Function) -> (r: bool)
    ensures
        r == is_stateful_fn(func@),
{
    if let Some(body) = &func.body {
        proof {
            lemma_stmts_view(body@);
        }
        let mut i: usize = 0;
        while i < body.len()
            invariant
                i <= body.len(),
                forall|j: int| 0 <= j < i ==> !stateful_return(#[trigger] stmts_view(body@)[j]),
            decreases body.len() - i,
        {
            if let Stmt::Return(Some(ret_arg)) = &body[i] {
                if let crate::ast::Expr::Arrow { body: arrow_body } = ret_arg {
                    if arrow_body_has_vnode(arrow_body) {
                        proof {
                            assert(stmts_view(body@)[i as int] == stmt_view(body@[i as int]));
                            assert(body@[i as int] == Stmt::Return(Some(*ret_arg)));
                            assert(stmt_view(body@[i as int]) == StmtV::Return(
                                Some(expr_view(*ret_arg)),
                            ));
                            assert(expr_view(*ret_arg) == ExprV::Arrow {
                                body: arrow_body_view(*arrow_body),
                            });
                            assert(stateful_return(stmts_view(body@)[i as int]));
                            assert(func@.body == Some(stmts_view(body@)));
                            assert(is_stateful_fn(func@));
                        }
                        return true;
                    }
                }
            }
            i += 1;
        }
        proof {
            assert(stmts_view(body@).len() == body@.len());
            assert(!is_stateful_fn(func@));
        }
        false
    } else {
        false
    }
}

/// Does an arrow body contain a creation call?
pub fn arrow_body_has_vnode(body: &ArrowBody) -> (r: bool)
    ensures
        r == arrow_body_has_creation_call(arrow_body_view(*body)),
{
    match body {
        ArrowBody::Expr(e) => has_vnode_call(e),
        ArrowBody::Block(stmts) => returns_vnode_call(stmts),
    }
}

/// Classify a function: the stateful test first, then the stateless test,
/// then neither.
pub fn classify(func: &Function) -> (c: Classification)
    ensures
        c == classify_fn(func@),
{
    if is_rask_component(func) {
        Classification::Stateful
    } else if is_stateless_component(func) {
        Classification::Stateless
    } else {
        Classification::NotAComponent
    }
}

} // verus!
