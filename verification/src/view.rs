//! Mathematical views of the tree model.
//!
//! Every contract in this crate is stated over these spec-level counterparts
//! of the exec types: identifiers become `Seq<char>`, vectors become `Seq`,
//! and each node maps structurally.  The view functions are recursive over
//! the expression grammar.

use vstd::prelude::*;

use crate::ast::ArrowBody;
use crate::ast::ClassDecl;
use crate::ast::Expr;
use crate::ast::FnDecl;
use crate::ast::FnExpr;
use crate::ast::Function;
use crate::ast::ImportDecl;
use crate::ast::ImportSpecifier;
use crate::ast::Module;
use crate::ast::ModuleExportName;
use crate::ast::ModuleItem;
use crate::ast::Stmt;

verus! {

/// View of [`Expr`].
pub enum ExprV {
    Call { callee: Option<Seq<char>>, args: Seq<ExprV> },
    Paren { inner: Box<ExprV> },
    Cond { test: Box<ExprV>, cons: Box<ExprV>, alt: Box<ExprV> },
    Bin { left: Box<ExprV>, right: Box<ExprV> },
    Array { elems: Seq<Option<ExprV>> },
    Arrow { body: ArrowBodyV },
    Member { obj: Box<ExprV> },
    Unary { arg: Box<ExprV> },
    Other,
}

/// View of [`ArrowBody`].
pub enum ArrowBodyV {
    Expr(Box<ExprV>),
    Block(Seq<StmtV>),
}

/// View of [`Stmt`].
pub enum StmtV {
    Return(Option<ExprV>),
    Other,
}

/// View of [`Function`].
pub struct FunctionV {
    pub params: Seq<Seq<char>>,
    pub body: Option<Seq<StmtV>>,
}

/// View of [`FnDecl`].
pub struct FnDeclV {
    pub ident: Seq<char>,
    pub function: FunctionV,
}

/// View of [`FnExpr`].
pub struct FnExprV {
    pub ident: Option<Seq<char>>,
    pub function: FunctionV,
}

/// View of [`ClassDecl`].
pub struct ClassDeclV {
    pub ident: Seq<char>,
    pub super_class: Seq<char>,
    pub prop_key: Seq<char>,
    pub prop_value: FnExprV,
}

/// View of [`ModuleExportName`].
pub enum ModuleExportNameV {
    Ident(Seq<char>),
    Str(Seq<char>),
}

/// View of [`ImportSpecifier`].
pub enum ImportSpecifierV {
    Named { local: Seq<char>, imported: Option<ModuleExportNameV> },
    Other,
}

/// View of [`ImportDecl`].
pub struct ImportDeclV {
    pub src: Seq<char>,
    pub specifiers: Seq<ImportSpecifierV>,
}

/// View of [`ModuleItem`].
pub enum ModuleItemV {
    FnDecl(FnDeclV),
    ClassDecl(ClassDeclV),
    ExportFnDecl(FnDeclV),
    ExportClassDecl(ClassDeclV),
    ExportDefaultFnExpr(FnExprV),
    Import(ImportDeclV),
    Other,
}

/// View of [`Module`].
pub struct ModuleV {
    pub body: Seq<ModuleItemV>,
}

pub open spec fn opt_name_view(o: Option<String>) -> Option<Seq<char>> {
    match o {
        Some(s) => Some(s@),
        None => None,
    }
}

pub open spec fn expr_view(e: Expr) -> ExprV
    decreases e,
{
    match e {
        Expr::Call { callee, args } => ExprV::Call {
            callee: opt_name_view(callee),
            args: exprs_view(args@),
        },
        Expr::Paren { inner } => ExprV::Paren { inner: Box::new(expr_view(*inner)) },
        Expr::Cond { test, cons, alt } => ExprV::Cond {
            test: Box::new(expr_view(*test)),
            cons: Box::new(expr_view(*cons)),
            alt: Box::new(expr_view(*alt)),
        },
        Expr::Bin { left, right } => ExprV::Bin {
            left: Box::new(expr_view(*left)),
            right: Box::new(expr_view(*right)),
        },
        Expr::Array { elems } => ExprV::Array { elems: opt_exprs_view(elems@) },
        Expr::Arrow { body } => ExprV::Arrow { body: arrow_body_view(body) },
        Expr::Member { obj } => ExprV::Member { obj: Box::new(expr_view(*obj)) },
        Expr::Unary { arg } => ExprV::Unary { arg: Box::new(expr_view(*arg)) },
        Expr::Other => ExprV::Other,
    }
}

pub open spec fn exprs_view(s: Seq<Expr>) -> Seq<ExprV>
    decreases s,
{
    if s.len() == 0 {
        Seq::empty()
    } else {
        seq![expr_view(s[0])] + exprs_view(s.subrange(1, s.len() as int))
    }
}

pub open spec fn opt_exprs_view(s: Seq<Option<Expr>>) -> Seq<Option<ExprV>>
    decreases s,
{
    if s.len() == 0 {
        Seq::empty()
    } else {
        let head = match s[0] {
            Some(e) => Some(expr_view(e)),
            None => None,
        };
        seq![head] + opt_exprs_view(s.subrange(1, s.len() as int))
    }
}

pub open spec fn arrow_body_view(b: ArrowBody) -> ArrowBodyV
    decreases b,
{
    match b {
        ArrowBody::Expr(e) => ArrowBodyV::Expr(Box::new(expr_view(*e))),
        ArrowBody::Block(stmts) => ArrowBodyV::Block(stmts_view(stmts@)),
    }
}

pub open spec fn stmt_view(s: Stmt) -> StmtV
    decreases s,
{
    match s {
        Stmt::Return(arg) => StmtV::Return(
            match arg {
                Some(e) => Some(expr_view(e)),
                None => None,
            },
        ),
        Stmt::Other => StmtV::Other,
    }
}

pub open spec fn stmts_view(s: Seq<Stmt>) -> Seq<StmtV>
    decreases s,
{
    if s.len() == 0 {
        Seq::empty()
    } else {
        seq![stmt_view(s[0])] + stmts_view(s.subrange(1, s.len() as int))
    }
}

pub open spec fn names_view(s: Seq<String>) -> Seq<Seq<char>> {
    Seq::new(s.len(), |i: int| s[i]@)
}

pub open spec fn function_view(f: Function) -> FunctionV {
    FunctionV {
        params: names_view(f.params@),
        body: match f.body {
            Some(stmts) => Some(stmts_view(stmts@)),
            None => None,
        },
    }
}

impl View for Expr {
    type V = ExprV;

    open spec fn view(&self) -> ExprV {
        expr_view(*self)
    }
}

impl View for Stmt {
    type V = StmtV;

    open spec fn view(&self) -> StmtV {
        stmt_view(*self)
    }
}

impl View for Function {
    type V = FunctionV;

    open spec fn view(&self) -> FunctionV {
        function_view(*self)
    }
}

impl View for FnDecl {
    type V = FnDeclV;

    open spec fn view(&self) -> FnDeclV {
        FnDeclV { ident: self.ident@, function: self.function@ }
    }
}

impl View for FnExpr {
    type V = FnExprV;

    open spec fn view(&self) -> FnExprV {
        FnExprV { ident: opt_name_view(self.ident), function: self.function@ }
    }
}

impl View for ClassDecl {
    type V = ClassDeclV;

    open spec fn view(&self) -> ClassDeclV {
        ClassDeclV {
            ident: self.ident@,
            super_class: self.super_class@,
            prop_key: self.prop_key@,
            prop_value: self.prop_value@,
        }
    }
}

impl View for ModuleExportName {
    type V = ModuleExportNameV;

    open spec fn view(&self) -> ModuleExportNameV {
        match *self {
            ModuleExportName::Ident(s) => ModuleExportNameV::Ident(s@),
            ModuleExportName::Str(s) => ModuleExportNameV::Str(s@),
        }
    }
}

impl View for ImportSpecifier {
    type V = ImportSpecifierV;

    open spec fn view(&self) -> ImportSpecifierV {
        match *self {
            ImportSpecifier::Named { local, imported } => ImportSpecifierV::Named {
                local: local@,
                imported: match imported {
                    Some(n) => Some(n@),
                    None => None,
                },
            },
            ImportSpecifier::Other => ImportSpecifierV::Other,
        }
    }
}

impl View for ImportDecl {
    type V = ImportDeclV;

    open spec fn view(&self) -> ImportDeclV {
        ImportDeclV {
            src: self.src@,
            specifiers: Seq::new(self.specifiers@.len(), |i: int| self.specifiers@[i]@),
        }
    }
}

impl View for ModuleItem {
    type V = ModuleItemV;

    open spec fn view(&self) -> ModuleItemV {
        match *self {
            ModuleItem::FnDecl(d) => ModuleItemV::FnDecl(d@),
            ModuleItem::ClassDecl(d) => ModuleItemV::ClassDecl(d@),
            ModuleItem::ExportFnDecl(d) => ModuleItemV::ExportFnDecl(d@),
            ModuleItem::ExportClassDecl(d) => ModuleItemV::ExportClassDecl(d@),
            ModuleItem::ExportDefaultFnExpr(e) => ModuleItemV::ExportDefaultFnExpr(e@),
            ModuleItem::Import(i) => ModuleItemV::Import(i@),
            ModuleItem::Other => ModuleItemV::Other,
        }
    }
}

impl View for Module {
    type V = ModuleV;

    open spec fn view(&self) -> ModuleV {
        ModuleV { body: Seq::new(self.body@.len(), |i: int| self.body@[i]@) }
    }
}

/// `exprs_view` maps its sequence pointwise.
pub proof fn lemma_exprs_view(s: Seq<Expr>)
    ensures
        exprs_view(s).len() == s.len(),
        forall|i: int| 0 <= i < s.len() ==> exprs_view(s)[i] == expr_view(s[i]),
    decreases s.len(),
{
    if s.len() > 0 {
        lemma_exprs_view(s.subrange(1, s.len() as int));
        assert forall|i: int| 0 <= i < s.len() implies exprs_view(s)[i] == expr_view(s[i]) by {
            if i > 0 {
                assert(s.subrange(1, s.len() as int)[i - 1] == s[i]);
            }
        }
    }
}

/// `opt_exprs_view` maps its sequence pointwise.
pub proof fn lemma_opt_exprs_view(s: Seq<Option<Expr>>)
    ensures
        opt_exprs_view(s).len() == s.len(),
        forall|i: int| 0 <= i < s.len() ==> opt_exprs_view(s)[i] == (match s[i] {
            Some(e) => Some(expr_view(e)),
            None => None,
        }),
    decreases s.len(),
{
    if s.len() > 0 {
        lemma_opt_exprs_view(s.subrange(1, s.len() as int));
        assert forall|i: int| 0 <= i < s.len() implies opt_exprs_view(s)[i] == (match s[i] {
            Some(e) => Some(expr_view(e)),
            None => None,
        }) by {
            if i > 0 {
                assert(s.subrange(1, s.len() as int)[i - 1] == s[i]);
            }
        }
    }
}

/// `stmts_view` maps its sequence pointwise.
pub proof fn lemma_stmts_view(s: Seq<Stmt>)
    ensures
        stmts_view(s).len() == s.len(),
        forall|i: int| 0 <= i < s.len() ==> stmts_view(s)[i] == stmt_view(s[i]),
    decreases s.len(),
{
    if s.len() > 0 {
        lemma_stmts_view(s.subrange(1, s.len() as int));
        assert forall|i: int| 0 <= i < s.len() implies stmts_view(s)[i] == stmt_view(s[i]) by {
            if i > 0 {
                assert(s.subrange(1, s.len() as int)[i - 1] == s[i]);
            }
        }
    }
}

} // verus!
