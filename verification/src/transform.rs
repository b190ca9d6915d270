//! The transform itself: per-module state, the single traversal over
//! module items, and the two import post-passes, run exactly once per
//! module, in fixed order.

use vstd::prelude::*;

use crate::ast::ClassDecl;
use crate::ast::FnExpr;
use crate::ast::Function;
use crate::ast::ImportDecl;
use crate::ast::ImportSpecifier;
use crate::ast::Module;
use crate::ast::ModuleExportName;
use crate::ast::ModuleItem;
use crate::classifier::is_rask_component;
use crate::classifier::is_stateless_component;
use crate::imports::default_source;
use crate::imports::has_named_import;
use crate::imports::inject_runtime_imports;
use crate::imports::injected_specifiers;
use crate::imports::rewrite_import_src;
use crate::rewriter::item_allocates_stateful;
use crate::rewriter::item_allocates_stateless;
use crate::rewriter::rewrite_item;
use crate::rewriter::stateful_base_name;
use crate::rewriter::stateful_class;
use crate::rewriter::stateless_base_name;
use crate::rewriter::stateless_class;
use crate::view::ModuleItemV;
use crate::view::ModuleV;
use crate::view::opt_name_view;

verus! {

/// The transform's configuration: an optional module specifier used for
/// rewritten legacy imports and injected runtime imports.
pub struct Config {
    pub import_source: Option<String>,
}

/// View of [`Config`].
pub struct ConfigV {
    pub import_source: Option<Seq<char>>,
}

impl View for Config {
    type V = ConfigV;

    open spec fn view(&self) -> ConfigV {
        ConfigV { import_source: opt_name_view(self.import_source) }
    }
}

/// The effective import source: the configured one, or the fixed default.
pub open spec fn import_source_of(c: ConfigV) -> Seq<char> {
    match c.import_source {
        Some(s) => s,
        None => default_source(),
    }
}

/// The per-module transform state: the configuration, fixed for the pass,
/// and the two base-class identifiers, lazily allocated at most once.
pub struct RaskComponentTransform {
    config: Config,
    import_rask_stateful_component: Option<String>,
    import_rask_stateless_component: Option<String>,
}

/// View of [`RaskComponentTransform`].
pub struct TransformV {
    pub config: ConfigV,
    pub import_rask_stateful_component: Option<Seq<char>>,
    pub import_rask_stateless_component: Option<Seq<char>>,
}

impl View for RaskComponentTransform {
    type V = TransformV;

    closed spec fn view(&self) -> TransformV {
        TransformV {
            config: self.config@,
            import_rask_stateful_component: opt_name_view(self.import_rask_stateful_component),
            import_rask_stateless_component: opt_name_view(self.import_rask_stateless_component),
        }
    }
}

/// An allocated base-class identifier always carries the fixed name of its
/// concept.
pub open spec fn wf(t: TransformV) -> bool {
    &&& (t.import_rask_stateful_component matches Some(n) ==> n == stateful_base_name())
    &&& (t.import_rask_stateless_component matches Some(n) ==> n == stateless_base_name())
}

/// The declaration traversal, item by item.
pub open spec fn rewrite_items(body: Seq<ModuleItemV>) -> Seq<ModuleItemV> {
    Seq::new(body.len(), |i: int| rewrite_item(body[i]))
}

/// The import-source rewrite, item by item.
pub open spec fn rewrite_imports(body: Seq<ModuleItemV>, src: Seq<char>) -> Seq<ModuleItemV> {
    Seq::new(body.len(), |i: int| rewrite_import_src(body[i], src))
}

/// Does any item of the body allocate the stateful base-class identifier?
pub open spec fn any_allocates_stateful(body: Seq<ModuleItemV>) -> bool {
    exists|i: int| 0 <= i < body.len() && item_allocates_stateful(#[trigger] body[i])
}

/// Does any item of the body allocate the stateless base-class identifier?
pub open spec fn any_allocates_stateless(body: Seq<ModuleItemV>) -> bool {
    exists|i: int| 0 <= i < body.len() && item_allocates_stateless(#[trigger] body[i])
}

/// One full module pass starting from the given allocation state: the
/// declaration traversal, then the import-source rewrite, then the runtime
/// import injection, in that order.
pub open spec fn transform_module_from(
    m: ModuleV,
    src: Seq<char>,
    pre_stateful: bool,
    pre_stateless: bool,
) -> ModuleV {
    let rewritten = rewrite_items(m.body);
    let retargeted = rewrite_imports(rewritten, src);
    let stateful = pre_stateful || any_allocates_stateful(m.body);
    let stateless = pre_stateless || any_allocates_stateless(m.body);
    ModuleV { body: inject_runtime_imports(retargeted, src, stateful, stateless) }
}

/// One full module pass on a fresh transform.
pub open spec fn transform_module(m: ModuleV, c: ConfigV) -> ModuleV {
    transform_module_from(m, import_source_of(c), false, false)
}

impl RaskComponentTransform {
    /// A fresh transform: nothing allocated yet.
    pub fn new(config: Config) -> (t: Self)
        ensures
            t@.config == config@,
            t@.import_rask_stateful_component is None,
            t@.import_rask_stateless_component is None,
            wf(t@),
    {
        RaskComponentTransform {
            config,
            import_rask_stateful_component: None,
            import_rask_stateless_component: None,
        }
    }

    /// The effective import source as an owned string.
    fn import_source(&self) -> (s: String)
        ensures
            s@ == import_source_of(self@.config),
    {
        match &self.config.import_source {
            Some(s) => s.clone(),
            None => "rask-ui".to_owned(),
        }
    }

    /// Replace a stateful component function by its class declaration,
    /// allocating the stateful base-class identifier on first use.
    pub fn transform_to_stateful_class(&mut self, name: String, func: Function) -> (d: ClassDecl)
        requires
            wf(old(self)@),
        ensures
            wf(final(self)@),
            d@ == stateful_class(name@, func@),
            final(self)@.import_rask_stateful_component == Some(stateful_base_name()),
            final(self)@.import_rask_stateless_component == old(
                self,
            )@.import_rask_stateless_component,
            final(self)@.config == old(self)@.config,
    {
        if self.import_rask_stateful_component.is_none() {
            self.import_rask_stateful_component = Some("RaskStatefulComponent".to_owned());
        }
        let super_class = self.import_rask_stateful_component.as_ref().unwrap().clone();
        let fn_name = name.clone();
        ClassDecl {
            ident: name,
            super_class,
            prop_key: "setup".to_owned(),
            prop_value: FnExpr { ident: Some(fn_name), function: func },
        }
    }

    /// Replace a stateless component function by its class declaration,
    /// allocating the stateless base-class identifier on first use.
    pub fn transform_to_stateless_class(&mut self, name: String, func: Function) -> (d: ClassDecl)
        requires
            wf(old(self)@),
        ensures
            wf(final(self)@),
            d@ == stateless_class(name@, func@),
            final(self)@.import_rask_stateless_component == Some(stateless_base_name()),
            final(self)@.import_rask_stateful_component == old(
                self,
            )@.import_rask_stateful_component,
            final(self)@.config == old(self)@.config,
    {
        if self.import_rask_stateless_component.is_none() {
            self.import_rask_stateless_component = Some("RaskStatelessComponent".to_owned());
        }
        let super_class = self.import_rask_stateless_component.as_ref().unwrap().clone();
        let fn_name = name.clone();
        ClassDecl {
            ident: name,
            super_class,
            prop_key: "renderFn".to_owned(),
            prop_value: FnExpr { ident: Some(fn_name), function: func },
        }
    }

    /// Rewrite every import from the fixed legacy source to the configured
    /// import source, specifiers untouched.
    #[verifier::loop_isolation(false)]
    pub fn rewrite_inferno_imports(&self, module: &mut Module)
        ensures
            final(module)@.body == rewrite_imports(
                old(module)@.body,
                import_source_of(self@.config),
            ),
    {
        let ghost srcv = import_source_of(self@.config);
        let legacy: String = "inferno".to_owned();
        let mut i: usize = 0;
        while i < module.body.len()
            invariant
                i <= module.body.len(),
                module.body@.len() == old(module).body@.len(),
                forall|j: int| 0 <= j < i ==> #[trigger] module.body@[j]@ == rewrite_import_src(
                    old(module).body@[j]@,
                    srcv,
                ),
                forall|j: int|
                    i <= j < module.body@.len() ==> #[trigger] module.body@[j] == old(
                        module,
                    ).body@[j],
            decreases module.body.len() - i,
        {
            let ghost pre = module.body@;
            let item = module.body.remove(i);
            let ghost item0 = item;
            let replaced = match item {
                ModuleItem::Import(imp) => {
                    if imp.src.eq(&legacy) {
                        ModuleItem::Import(
                            ImportDecl { src: self.import_source(), specifiers: imp.specifiers },
                        )
                    } else {
                        ModuleItem::Import(imp)
                    }
                },
                it => it,
            };
            let ghost replaced0 = replaced;
            module.body.insert(i, replaced);
            proof {
                assert(module.body@ =~= pre.update(i as int, replaced0));
                assert(item0 == old(module).body@[i as int]);
                assert(replaced0@ == rewrite_import_src(item0@, srcv));
                assert(module.body@[i as int]@ == replaced0@);
            }
            i += 1;
        }
        proof {
            assert(final(module)@.body =~= rewrite_imports(old(module)@.body, srcv));
        }
    }

    /// For each base-class identifier allocated during the traversal, check
    /// the module's imports from the configured source and, if the concept
    /// is not yet imported, queue a named-import specifier; then insert one
    /// import statement carrying everything queued as the first item.
    #[verifier::loop_isolation(false)]
    pub fn inject_runtime(&self, module: &mut Module)
        requires
            wf(self@),
        ensures
            final(module)@.body == inject_runtime_imports(
                old(module)@.body,
                import_source_of(self@.config),
                self@.import_rask_stateful_component is Some,
                self@.import_rask_stateless_component is Some,
            ),
    {
        let ghost srcv = import_source_of(self@.config);
        let ghost body0 = module@.body;
        let import_source = self.import_source();
        let mut specifiers: Vec<ImportSpecifier> = Vec::new();

        if let Some(stateful_ident) = &self.import_rask_stateful_component {
            let stateful_name: String = "RaskStatefulComponent".to_owned();
            if !has_named_import(module, &import_source, &stateful_name) {
                specifiers.push(
                    ImportSpecifier::Named {
                        local: stateful_ident.clone(),
                        imported: Some(ModuleExportName::Ident(stateful_name)),
                    },
                );
            }
        }

        if let Some(stateless_ident) = &self.import_rask_stateless_component {
            let stateless_name: String = "RaskStatelessComponent".to_owned();
            if !has_named_import(module, &import_source, &stateless_name) {
                specifiers.push(
                    ImportSpecifier::Named {
                        local: stateless_ident.clone(),
                        imported: Some(ModuleExportName::Ident(stateless_name)),
                    },
                );
            }
        }

        proof {
            assert(Seq::new(specifiers@.len(), |k: int| specifiers@[k]@) =~= injected_specifiers(
                body0,
                srcv,
                self@.import_rask_stateful_component is Some,
                self@.import_rask_stateless_component is Some,
            ));
        }

        if specifiers.len() > 0 {
            let ghost pre = module.body@;
            let import_item = ModuleItem::Import(ImportDecl { src: import_source, specifiers });
            module.body.insert(0, import_item);
            proof {
                assert(module.body@ =~= seq![import_item] + pre);
                assert(final(module)@.body =~= inject_runtime_imports(
                    body0,
                    srcv,
                    self@.import_rask_stateful_component is Some,
                    self@.import_rask_stateless_component is Some,
                ));
            }
        } else {
            proof {
                assert(final(module)@.body =~= inject_runtime_imports(
                    body0,
                    srcv,
                    self@.import_rask_stateful_component is Some,
                    self@.import_rask_stateless_component is Some,
                ));
            }
        }
    }

    /// One step of the traversal: classify a bare or export-wrapped
    /// function declaration and replace it in place; a default-exported
    /// function expression is classified but deliberately never rewritten.
    pub fn visit_mut_module_item(&mut self, item: &mut ModuleItem)
        requires
            wf(old(self)@),
        ensures
            wf(final(self)@),
            final(item)@ == rewrite_item(old(item)@),
            final(self)@.config == old(self)@.config,
            (final(self)@.import_rask_stateful_component is Some) == (old(
                self,
            )@.import_rask_stateful_component is Some || item_allocates_stateful(old(item)@)),
            (final(self)@.import_rask_stateless_component is Some) == (old(
                self,
            )@.import_rask_stateless_component is Some || item_allocates_stateless(old(item)@)),
    {
        let mut taken = ModuleItem::Other;
        core::mem::swap(item, &mut taken);
        match taken {
            ModuleItem::FnDecl(fn_decl) => {
                if is_rask_component(&fn_decl.function) {
                    let d = self.transform_to_stateful_class(fn_decl.ident, fn_decl.function);
                    *item = ModuleItem::ClassDecl(d);
                } else if is_stateless_component(&fn_decl.function) {
                    let d = self.transform_to_stateless_class(fn_decl.ident, fn_decl.function);
                    *item = ModuleItem::ClassDecl(d);
                } else {
                    *item = ModuleItem::FnDecl(fn_decl);
                }
            },
            ModuleItem::ExportFnDecl(fn_decl) => {
                if is_rask_component(&fn_decl.function) {
                    let d = self.transform_to_stateful_class(fn_decl.ident, fn_decl.function);
                    *item = ModuleItem::ExportClassDecl(d);
                } else if is_stateless_component(&fn_decl.function) {
                    let d = self.transform_to_stateless_class(fn_decl.ident, fn_decl.function);
                    *item = ModuleItem::ExportClassDecl(d);
                } else {
                    *item = ModuleItem::ExportFnDecl(fn_decl);
                }
            },
            ModuleItem::ExportDefaultFnExpr(fn_expr) => {
                // The classification is computed, but a default-exported
                // function expression is never rewritten: the asymmetry is
                // intentional.
                if is_rask_component(&fn_expr.function) {
                } else if is_stateless_component(&fn_expr.function) {
                }
                *item = ModuleItem::ExportDefaultFnExpr(fn_expr);
            },
            it => {
                *item = it;
            },
        }
    }

    /// One full module pass: visit every item, then rewrite legacy imports,
    /// then inject the runtime imports, exactly once, in that order.
    #[verifier::loop_isolation(false)]
    pub fn visit_mut_module(&mut self, module: &mut Module)
        requires
            wf(old(self)@),
        ensures
            wf(final(self)@),
            final(self)@.config == old(self)@.config,
            final(module)@ == transform_module_from(
                old(module)@,
                import_source_of(old(self)@.config),
                old(self)@.import_rask_stateful_component is Some,
                old(self)@.import_rask_stateless_component is Some,
            ),
    {
        let ghost body0 = old(module)@.body;
        let mut i: usize = 0;
        while i < module.body.len()
            invariant
                i <= module.body.len(),
                wf(self@),
                self@.config == old(self)@.config,
                module.body@.len() == old(module).body@.len(),
                forall|j: int| 0 <= j < i ==> #[trigger] module.body@[j]@ == rewrite_item(
                    body0[j],
                ),
                forall|j: int|
                    i <= j < module.body@.len() ==> #[trigger] module.body@[j] == old(
                        module,
                    ).body@[j],
                (self@.import_rask_stateful_component is Some) == (old(
                    self,
                )@.import_rask_stateful_component is Some || exists|j: int|
                    0 <= j < i && item_allocates_stateful(#[trigger] body0[j])),
                (self@.import_rask_stateless_component is Some) == (old(
                    self,
                )@.import_rask_stateless_component is Some || exists|j: int|
                    0 <= j < i && item_allocates_stateless(#[trigger] body0[j])),
            decreases module.body.len() - i,
        {
            let ghost pre = module.body@;
            let mut it = module.body.remove(i);
            let ghost it0 = it;
            self.visit_mut_module_item(&mut it);
            let ghost it1 = it;
            module.body.insert(i, it);
            proof {
                assert(module.body@ =~= pre.update(i as int, it1));
                assert(it0 == old(module).body@[i as int]);
                assert(it0@ == body0[i as int]);
                assert(it1@ == rewrite_item(body0[i as int]));
                assert(module.body@[i as int]@ == it1@);
                assert((self@.import_rask_stateful_component is Some) == (old(
                    self,
                )@.import_rask_stateful_component is Some || exists|j: int|
                    0 <= j < i + 1 && item_allocates_stateful(#[trigger] body0[j])));
                assert((self@.import_rask_stateless_component is Some) == (old(
                    self,
                )@.import_rask_stateless_component is Some || exists|j: int|
                    0 <= j < i + 1 && item_allocates_stateless(#[trigger] body0[j])));
            }
            i += 1;
        }
        proof {
            assert(module@.body =~= rewrite_items(body0));
            assert((self@.import_rask_stateful_component is Some) == (old(
                self,
            )@.import_rask_stateful_component is Some || any_allocates_stateful(body0)));
            assert((self@.import_rask_stateless_component is Some) == (old(
                self,
            )@.import_rask_stateless_component is Some || any_allocates_stateless(body0)));
        }
        self.rewrite_inferno_imports(module);
        self.inject_runtime(module);
    }
}

/// The library entry point: one full pass over a module with the given
/// configuration, on a transform created fresh for this invocation and
/// discarded afterwards.
pub fn process_transform(program: Module, config: Config) -> (r: Module)
    ensures
        r@ == transform_module(program@, config@),
{
    let mut program = program;
    let mut transform = RaskComponentTransform::new(config);
    transform.visit_mut_module(&mut program);
    program
}

} // verus!
