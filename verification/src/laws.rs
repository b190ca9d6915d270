//! The laws of the transform, each stated and proved over the same spec
//! functions the executable contracts use.

use vstd::prelude::*;

use crate::classifier::Classification;
use crate::classifier::classify_fn;
use crate::classifier::is_stateful_fn;
use crate::classifier::stateful_return;
use crate::classifier::stateless_return;
use crate::detector::arrow_body_has_creation_call;
use crate::detector::is_creation_call_name;
use crate::imports::inject_runtime_imports;
use crate::imports::injected_specifiers;
use crate::imports::legacy_source;
use crate::imports::rewrite_import_src;
use crate::rewriter::item_allocates_stateful;
use crate::rewriter::item_allocates_stateless;
use crate::rewriter::render_key;
use crate::rewriter::rewrite_item;
use crate::rewriter::setup_key;
use crate::rewriter::stateful_base_name;
use crate::rewriter::stateless_base_name;
use crate::transform::ConfigV;
use crate::transform::any_allocates_stateful;
use crate::transform::any_allocates_stateless;
use crate::transform::import_source_of;
use crate::transform::rewrite_imports;
use crate::transform::rewrite_items;
use crate::transform::transform_module;
use crate::view::ArrowBodyV;
use crate::view::ClassDeclV;
use crate::view::ExprV;
use crate::view::FnDeclV;
use crate::view::FnExprV;
use crate::view::FunctionV;
use crate::view::ImportDeclV;
use crate::view::ModuleItemV;
use crate::view::ModuleV;
use crate::view::StmtV;

verus! {

/// A function with a top-level `return` of an arrow function whose body
/// contains a creation call classifies Stateful, and rewrites to a class
/// with a "setup"-role field holding the unchanged original function.
pub proof fn lemma_arrow_return_classifies_stateful(
    f: FunctionV,
    stmts: Seq<StmtV>,
    i: int,
    b: ArrowBodyV,
)
    requires
        f.body == Some(stmts),
        0 <= i < stmts.len(),
        stmts[i] == StmtV::Return(Some(ExprV::Arrow { body: b })),
        arrow_body_has_creation_call(b),
    ensures
        classify_fn(f) == Classification::Stateful,
        forall|name: Seq<char>| #[trigger] rewrite_item(
            ModuleItemV::FnDecl(FnDeclV { ident: name, function: f }),
        ) == ModuleItemV::ClassDecl(
            ClassDeclV {
                ident: name,
                super_class: stateful_base_name(),
                prop_key: setup_key(),
                prop_value: FnExprV { ident: Some(name), function: f },
            },
        ),
{
    assert(stateful_return(stmts[i]));
    assert(is_stateful_fn(f));
}

/// A function without a stateful return, with a top-level `return` whose
/// argument is itself a designated creation call, classifies Stateless and
/// rewrites to a class with a "render"-role field holding the unchanged
/// original function.  (With an additional arrow-wrapped creation return
/// the stateful test would win instead: precedence is part of the
/// contract.)
pub proof fn lemma_direct_creation_return_classifies_stateless(
    f: FunctionV,
    stmts: Seq<StmtV>,
    i: int,
    cname: Seq<char>,
    args: Seq<ExprV>,
)
    requires
        f.body == Some(stmts),
        0 <= i < stmts.len(),
        stmts[i] == StmtV::Return(Some(ExprV::Call { callee: Some(cname), args })),
        is_creation_call_name(cname),
        !is_stateful_fn(f),
    ensures
        classify_fn(f) == Classification::Stateless,
        forall|name: Seq<char>| #[trigger] rewrite_item(
            ModuleItemV::FnDecl(FnDeclV { ident: name, function: f }),
        ) == ModuleItemV::ClassDecl(
            ClassDeclV {
                ident: name,
                super_class: stateless_base_name(),
                prop_key: render_key(),
                prop_value: FnExprV { ident: Some(name), function: f },
            },
        ),
{
    assert(stateless_return(stmts[i]));
    assert(f.body->0 == stmts);
    assert(0 <= i < f.body->0.len() && stateless_return(f.body->0[i]));
    assert(crate::classifier::is_stateless_fn(f));
}

/// A function none of whose top-level returns is an arrow function is
/// never Stateful, whatever its returns contain: a creation call found
/// inside a call argument can make it Stateless at most.
pub proof fn lemma_no_arrow_return_never_stateful(f: FunctionV, stmts: Seq<StmtV>)
    requires
        f.body == Some(stmts),
        forall|i: int|
            0 <= i < stmts.len() ==> !((#[trigger] stmts[i]) matches StmtV::Return(Some(a))
                && a is Arrow),
    ensures
        classify_fn(f) != Classification::Stateful,
{
    assert(!is_stateful_fn(f));
}

/// The one-item rewrite on an export wrapper: wrapping commutes with
/// rewriting, so an export-wrapped function declaration rewrites exactly as
/// the bare one does, with the wrapper preserved.
pub open spec fn export_wrapped(item: ModuleItemV) -> ModuleItemV {
    match item {
        ModuleItemV::FnDecl(fd) => ModuleItemV::ExportFnDecl(fd),
        ModuleItemV::ClassDecl(c) => ModuleItemV::ExportClassDecl(c),
        _ => item,
    }
}

/// Export-wrapped function declarations rewrite identically to bare ones,
/// with the export wrapper preserved around the synthesized class.
pub proof fn lemma_export_wrapped_rewrites_like_bare(fd: FnDeclV)
    ensures
        rewrite_item(ModuleItemV::ExportFnDecl(fd)) == export_wrapped(
            rewrite_item(ModuleItemV::FnDecl(fd)),
        ),
{
}

/// A default-exported function expression, even one matching either
/// component shape exactly, is never rewritten: the asymmetry is
/// intentional.
pub proof fn lemma_default_export_never_rewritten(fe: FnExprV)
    requires
        classify_fn(fe.function) != Classification::NotAComponent,
    ensures
        rewrite_item(ModuleItemV::ExportDefaultFnExpr(fe)) == ModuleItemV::ExportDefaultFnExpr(fe),
{
}

/// A legacy-source import is retargeted to the configured source with
/// identical specifiers; the configured source is the configured string
/// when present and the fixed default otherwise.
pub proof fn lemma_legacy_import_retarget(imp: ImportDeclV, c: ConfigV)
    requires
        imp.src == legacy_source(),
    ensures
        rewrite_import_src(ModuleItemV::Import(imp), import_source_of(c)) == ModuleItemV::Import(
            ImportDeclV { src: import_source_of(c), specifiers: imp.specifiers },
        ),
        c.import_source matches Some(s) ==> import_source_of(c) == s,
        c.import_source is None ==> import_source_of(c) == crate::imports::default_source(),
{
}

/// One rewrite step is idempotent on items, and its output never allocates
/// a base-class identifier: a synthesized class is no longer a function
/// declaration.
pub proof fn lemma_rewrite_item_idempotent(x: ModuleItemV)
    ensures
        rewrite_item(rewrite_item(x)) == rewrite_item(x),
        !item_allocates_stateful(rewrite_item(x)),
        !item_allocates_stateless(rewrite_item(x)),
{
}

/// The import-source rewrite is idempotent on items.
pub proof fn lemma_rewrite_import_src_idempotent(x: ModuleItemV, src: Seq<char>)
    ensures
        rewrite_import_src(rewrite_import_src(x, src), src) == rewrite_import_src(x, src),
        rewrite_item(rewrite_import_src(rewrite_item(x), src)) == rewrite_import_src(
            rewrite_item(x),
            src,
        ),
{
    lemma_rewrite_item_idempotent(x);
}

/// Idempotence of the whole pass: re-running the transform on its own
/// prior output changes nothing.  Synthesized classes are never
/// reclassified, and no already-injected import binding is ever duplicated
/// for the same name and source.
pub proof fn lemma_transform_idempotent(m: ModuleV, c: ConfigV)
    ensures
        transform_module(transform_module(m, c), c) == transform_module(m, c),
{
    let src = import_source_of(c);
    let out = transform_module(m, c);
    let retargeted = rewrite_imports(rewrite_items(m.body), src);
    let stateful = any_allocates_stateful(m.body);
    let stateless = any_allocates_stateless(m.body);
    assert(out.body == inject_runtime_imports(retargeted, src, stateful, stateless));

    // Every item of the output is fixed under both per-item passes and
    // allocates nothing.
    assert forall|k: int| 0 <= k < out.body.len() implies {
        &&& rewrite_item(#[trigger] out.body[k]) == out.body[k]
        &&& rewrite_import_src(out.body[k], src) == out.body[k]
        &&& !item_allocates_stateful(out.body[k])
        &&& !item_allocates_stateless(out.body[k])
    } by {
        let queued = injected_specifiers(retargeted, src, stateful, stateless);
        if queued.len() != 0 && k == 0 {
            // The injected import statement.
            assert(out.body[k] == ModuleItemV::Import(
                ImportDeclV { src, specifiers: queued },
            ));
        } else {
            let j = if queued.len() != 0 {
                k - 1
            } else {
                k
            };
            assert(out.body[k] == retargeted[j]);
            assert(retargeted[j] == rewrite_import_src(rewrite_items(m.body)[j], src));
            assert(rewrite_items(m.body)[j] == rewrite_item(m.body[j]));
            lemma_rewrite_item_idempotent(m.body[j]);
            lemma_rewrite_import_src_idempotent(m.body[j], src);
        }
    }

    assert(rewrite_items(out.body) =~= out.body);
    assert(rewrite_imports(out.body, src) =~= out.body);
    assert(!any_allocates_stateful(out.body));
    assert(!any_allocates_stateless(out.body));
    assert(injected_specifiers(out.body, src, false, false) =~= Seq::<
        crate::view::ImportSpecifierV,
    >::empty());
    assert(inject_runtime_imports(out.body, src, false, false) == out.body);
    assert(transform_module(out, c).body == out.body);
    assert(transform_module(out, c) == out);
}

} // verus!
