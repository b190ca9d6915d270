//! Import bookkeeping: retargeting the legacy import source and the
//! idempotent injection of the runtime's base-class imports.

use vstd::prelude::*;

use crate::ast::ImportDecl;
use crate::ast::ImportSpecifier;
use crate::ast::Module;
use crate::ast::ModuleExportName;
use crate::ast::ModuleItem;
use crate::rewriter::stateful_base_name;
use crate::rewriter::stateless_base_name;
use crate::view::ImportDeclV;
use crate::view::ImportSpecifierV;
use crate::view::ModuleExportNameV;
use crate::view::ModuleItemV;

verus! {

/// The fixed legacy module name whose imports are retargeted.
pub open spec fn legacy_source() -> Seq<char> {
    "inferno"@
}

/// The fixed default module specifier used when none is configured.
pub open spec fn default_source() -> Seq<char> {
    "rask-ui"@
}

/// Retarget one module item: an import from the legacy source gets the
/// configured source; its specifiers and every other item are untouched.
pub open spec fn rewrite_import_src(item: ModuleItemV, src: Seq<char>) -> ModuleItemV {
    match item {
        ModuleItemV::Import(imp) => if imp.src == legacy_source() {
            ModuleItemV::Import(ImportDeclV { src, specifiers: imp.specifiers })
        } else {
            ModuleItemV::Import(imp)
        },
        _ => item,
    }
}

/// Does a named import specifier bind `name`?  An aliased named import
/// matches on its imported name; a bare one matches on its local binding.
pub open spec fn specifier_binds(s: ImportSpecifierV, name: Seq<char>) -> bool {
    match s {
        ImportSpecifierV::Named { local, imported } => match imported {
            Some(ModuleExportNameV::Ident(n)) => n == name,
            _ => local == name,
        },
        ImportSpecifierV::Other => false,
    }
}

/// Does this import declaration import `name` from `src`?
pub open spec fn import_binds(imp: ImportDeclV, src: Seq<char>, name: Seq<char>) -> bool {
    &&& imp.src == src
    &&& exists|j: int|
        0 <= j < imp.specifiers.len() && specifier_binds(#[trigger] imp.specifiers[j], name)
}

/// Does any import statement of the module import `name` from `src`?
pub open spec fn module_has_import(body: Seq<ModuleItemV>, src: Seq<char>, name: Seq<char>) -> bool {
    exists|i: int|
        {
            &&& 0 <= i < body.len()
            &&& (#[trigger] body[i]) matches ModuleItemV::Import(imp)
            &&& import_binds(imp, src, name)
        }
}

/// The named-import specifier binding `name` under the same imported name.
pub open spec fn named_import_specifier(name: Seq<char>) -> ImportSpecifierV {
    ImportSpecifierV::Named { local: name, imported: Some(ModuleExportNameV::Ident(name)) }
}

/// The specifiers that injection queues: one per base-class concept that was
/// allocated during the traversal and is not already imported from `src`,
/// stateful first.
pub open spec fn injected_specifiers(
    body: Seq<ModuleItemV>,
    src: Seq<char>,
    stateful: bool,
    stateless: bool,
) -> Seq<ImportSpecifierV> {
    let s1 = if stateful && !module_has_import(body, src, stateful_base_name()) {
        seq![named_import_specifier(stateful_base_name())]
    } else {
        Seq::<ImportSpecifierV>::empty()
    };
    let s2 = if stateless && !module_has_import(body, src, stateless_base_name()) {
        seq![named_import_specifier(stateless_base_name())]
    } else {
        Seq::<ImportSpecifierV>::empty()
    };
    s1 + s2
}

/// The module body after injection: unchanged when nothing was queued, else
/// with one import statement carrying all queued specifiers inserted first.
pub open spec fn inject_runtime_imports(
    body: Seq<ModuleItemV>,
    src: Seq<char>,
    stateful: bool,
    stateless: bool,
) -> Seq<ModuleItemV> {
    let queued = injected_specifiers(body, src, stateful, stateless);
    if queued.len() == 0 {
        body
    } else {
        seq![ModuleItemV::Import(ImportDeclV { src, specifiers: queued })] + body
    }
}

/// Does a named import specifier bind `name`?
pub fn specifier_matches(s: &ImportSpecifier, name: &String) -> (r: bool)
    ensures
        r == specifier_binds(s@, name@),
{
    match s {
        ImportSpecifier::Named { local, imported } => match imported {
            Some(ModuleExportName::Ident(n)) => n.eq(name),
            _ => local.eq(name),
        },
        ImportSpecifier::Other => false,
    }
}

/// Does this import declaration import `name` from `src`?
#[verifier::loop_isolation(false)]
pub fn import_decl_binds(imp: &ImportDecl, src: &String, name: &String) -> (r: bool)
    ensures
        r == import_binds(imp@, src@, name@),
{
    if !imp.src.eq(src) {
        return false;
    }
    let mut j: usize = 0;
    while j < imp.specifiers.len()
        invariant
            j <= imp.specifiers.len(),
            forall|k: int| 0 <= k < j ==> !specifier_binds(#[trigger] imp@.specifiers[k], name@),
        decreases imp.specifiers.len() - j,
    {
        if specifier_matches(&imp.specifiers[j], name) {
            proof {
                assert(imp@.specifiers[j as int] == imp.specifiers@[j as int]@);
                assert(import_binds(imp@, src@, name@));
            }
            return true;
        }
        j += 1;
    }
    proof {
        assert(imp@.specifiers.len() == imp.specifiers@.len());
        assert(!import_binds(imp@, src@, name@));
    }
    false
}

/// Does any import statement of the module import `name` from `src`?
#[verifier::loop_isolation(false)]
pub fn has_named_import(module: &Module, src: &String, name: &String) -> (r: bool)
    ensures
        r == module_has_import(module@.body, src@, name@),
{
    let mut i: usize = 0;
    while i < module.body.len()
        invariant
            i <= module.body.len(),
            forall|j: int|
                0 <= j < i ==> !((#[trigger] module@.body[j]) matches ModuleItemV::Import(imp)
                    && import_binds(imp, src@, name@)),
        decreases module.body.len() - i,
    {
        if let ModuleItem::Import(imp) = &module.body[i] {
            if import_decl_binds(imp, src, name) {
                proof {
                    assert(module@.body[i as int] == ModuleItemV::Import(imp@));
                    assert(module_has_import(module@.body, src@, name@));
                }
                return true;
            }
        }
        i += 1;
    }
    proof {
        assert(module@.body.len() == module.body@.len());
        assert(!module_has_import(module@.body, src@, name@));
    }
    false
}

} // verus!
