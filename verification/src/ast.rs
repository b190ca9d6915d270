//! The tree model the transform works on.
//!
//! Expressions form a closed grammar: exactly the shapes the call-shape
//! detector inspects are distinguished, and every other expression is the
//! opaque leaf `Expr::Other`.  Statements, functions, module items and
//! imports are modeled the same way: what the transform reads or rewrites is
//! explicit, the rest is opaque and carried through unchanged.

use vstd::prelude::*;

verus! {

/// An expression, restricted to the closed grammar the detector recognizes.
pub enum Expr {
    /// A call.  `callee` holds the callee's name when the callee is a bare
    /// identifier; it is `None` for every other callee shape (member calls,
    /// computed callees, and so on), which the detector never inspects.
    Call { callee: Option<String>, args: Vec<Expr> },
    /// A parenthesized expression.
    Paren { inner: Box<Expr> },
    /// A conditional (ternary).  The test is carried but never inspected by
    /// the detector; only the two branches are.
    Cond { test: Box<Expr>, cons: Box<Expr>, alt: Box<Expr> },
    /// A binary expression, any operator.  The operator is irrelevant to
    /// detection and is not carried.
    Bin { left: Box<Expr>, right: Box<Expr> },
    /// An array literal; a `None` element is a sparse hole.
    Array { elems: Vec<Option<Expr>> },
    /// An arrow function.  Its parameters are never inspected and are not
    /// carried.
    Arrow { body: ArrowBody },
    /// A member access; only the object operand is carried, the property is
    /// never inspected.
    Member { obj: Box<Expr> },
    /// A unary expression.
    Unary { arg: Box<Expr> },
    /// Every other expression shape: an opaque leaf.
    Other,
}

/// The body of an arrow function: a bare expression or a statement block.
pub enum ArrowBody {
    Expr(Box<Expr>),
    Block(Vec<Stmt>),
}

/// A statement.  Only `return` statements matter to classification; every
/// other statement is opaque.
pub enum Stmt {
    Return(Option<Expr>),
    Other,
}

/// A function: a parameter list (opaque to the transform, carried verbatim)
/// and an optional body of statements.
pub struct Function {
    pub params: Vec<String>,
    pub body: Option<Vec<Stmt>>,
}

/// A named function declaration.
pub struct FnDecl {
    pub ident: String,
    pub function: Function,
}

/// A function expression, optionally named.
pub struct FnExpr {
    pub ident: Option<String>,
    pub function: Function,
}

/// A synthesized class declaration: a name, a super-class identifier, and
/// exactly one instance field whose value is a function expression.
pub struct ClassDecl {
    pub ident: String,
    pub super_class: String,
    pub prop_key: String,
    pub prop_value: FnExpr,
}

/// The imported name of a named import specifier: either an identifier or a
/// module-export string.
pub enum ModuleExportName {
    Ident(String),
    Str(String),
}

/// One import specifier.
pub enum ImportSpecifier {
    /// A named import, `{ name }` or `{ name as local }`.
    Named { local: String, imported: Option<ModuleExportName> },
    /// Default and namespace specifiers: opaque, never matched or created.
    Other,
}

/// An import statement: a source string and its specifiers.
pub struct ImportDecl {
    pub src: String,
    pub specifiers: Vec<ImportSpecifier>,
}

/// A module-level item.
pub enum ModuleItem {
    /// A bare function declaration statement.
    FnDecl(FnDecl),
    /// A bare class declaration statement.
    ClassDecl(ClassDecl),
    /// A function declaration wrapped in a named export.
    ExportFnDecl(FnDecl),
    /// A class declaration wrapped in a named export.
    ExportClassDecl(ClassDecl),
    /// A function expression in a default export.
    ExportDefaultFnExpr(FnExpr),
    /// An import statement.
    Import(ImportDecl),
    /// Every other module item: an opaque leaf.
    Other,
}

/// A module: an ordered sequence of module-level items.
pub struct Module {
    pub body: Vec<ModuleItem>,
}

} // verus!
