//! The declaration rewriter: how a classified function declaration becomes
//! a synthesized class declaration, stated at the level of views.
//!
//! A synthesized class keeps the original name, extends one of the two
//! fixed base-class identifiers, and holds exactly one instance field whose
//! value is a function expression preserving the original function's name,
//! parameters and body verbatim.

use vstd::prelude::*;

use crate::classifier::Classification;
use crate::classifier::classify_fn;
use crate::view::ClassDeclV;
use crate::view::FnExprV;
use crate::view::FunctionV;
use crate::view::ModuleItemV;

verus! {

/// The base-class identifier that stateful components extend.
pub open spec fn stateful_base_name() -> Seq<char> {
    "RaskStatefulComponent"@
}

/// The base-class identifier that stateless components extend.
pub open spec fn stateless_base_name() -> Seq<char> {
    "RaskStatelessComponent"@
}

/// The field key of the "setup" role, used for stateful components.
pub open spec fn setup_key() -> Seq<char> {
    "setup"@
}

/// The field key of the "render" role, used for stateless components.
pub open spec fn render_key() -> Seq<char> {
    "renderFn"@
}

/// The class a stateful component becomes: the original function, named and
/// untouched, in a "setup"-role field.
pub open spec fn stateful_class(name: Seq<char>, f: FunctionV) -> ClassDeclV {
    ClassDeclV {
        ident: name,
        super_class: stateful_base_name(),
        prop_key: setup_key(),
        prop_value: FnExprV { ident: Some(name), function: f },
    }
}

/// The class a stateless component becomes: the original function, named
/// and untouched, in a "render"-role field.
pub open spec fn stateless_class(name: Seq<char>, f: FunctionV) -> ClassDeclV {
    ClassDeclV {
        ident: name,
        super_class: stateless_base_name(),
        prop_key: render_key(),
        prop_value: FnExprV { ident: Some(name), function: f },
    }
}

/// One step of the declaration traversal on a single module item: function
/// declarations, bare or export-wrapped, are replaced according to their
/// classification; a default-exported function expression is deliberately
/// never rewritten; every other item is untouched.
pub open spec fn rewrite_item(item: ModuleItemV) -> ModuleItemV {
    match item {
        ModuleItemV::FnDecl(fd) => match classify_fn(fd.function) {
            Classification::Stateful => ModuleItemV::ClassDecl(
                stateful_class(fd.ident, fd.function),
            ),
            Classification::Stateless => ModuleItemV::ClassDecl(
                stateless_class(fd.ident, fd.function),
            ),
            Classification::NotAComponent => ModuleItemV::FnDecl(fd),
        },
        ModuleItemV::ExportFnDecl(fd) => match classify_fn(fd.function) {
            Classification::Stateful => ModuleItemV::ExportClassDecl(
                stateful_class(fd.ident, fd.function),
            ),
            Classification::Stateless => ModuleItemV::ExportClassDecl(
                stateless_class(fd.ident, fd.function),
            ),
            Classification::NotAComponent => ModuleItemV::ExportFnDecl(fd),
        },
        _ => item,
    }
}

/// Does rewriting this item allocate the stateful base-class identifier?
pub open spec fn item_allocates_stateful(item: ModuleItemV) -> bool {
    match item {
        ModuleItemV::FnDecl(fd) => classify_fn(fd.function) == Classification::Stateful,
        ModuleItemV::ExportFnDecl(fd) => classify_fn(fd.function) == Classification::Stateful,
        _ => false,
    }
}

/// Does rewriting this item allocate the stateless base-class identifier?
pub open spec fn item_allocates_stateless(item: ModuleItemV) -> bool {
    match item {
        ModuleItemV::FnDecl(fd) => classify_fn(fd.function) == Classification::Stateless,
        ModuleItemV::ExportFnDecl(fd) => classify_fn(fd.function) == Classification::Stateless,
        _ => false,
    }
}

} // verus!
