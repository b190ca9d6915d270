use rask_transform::ast::ArrowBody;
use rask_transform::ast::ClassDecl;
use rask_transform::ast::Expr;
use rask_transform::ast::FnDecl;
use rask_transform::ast::FnExpr;
use rask_transform::ast::Function;
use rask_transform::ast::ImportDecl;
use rask_transform::ast::ImportSpecifier;
use rask_transform::ast::Module;
use rask_transform::ast::ModuleExportName;
use rask_transform::ast::ModuleItem;
use rask_transform::ast::Stmt;
use rask_transform::classifier::classify;
use rask_transform::classifier::Classification;
use rask_transform::transform::process_transform;
use rask_transform::transform::Config;

fn creation_call(name: &str) -> Expr {
    Expr::Call { callee: Some(name.to_string()), args: vec![] }
}

fn fn_returning(expr: Expr) -> Function {
    Function { params: vec![], body: Some(vec![Stmt::Return(Some(expr))]) }
}

fn stateful_fn() -> Function {
    // function C() { return () => createVNode(...); }
    fn_returning(Expr::Arrow {
        body: ArrowBody::Expr(Box::new(creation_call("createVNode"))),
    })
}

fn stateless_fn() -> Function {
    // function C() { return createVNode(...); }
    fn_returning(creation_call("createVNode"))
}

fn no_config() -> Config {
    Config { import_source: None }
}

fn expect_class(item: &ModuleItem) -> &ClassDecl {
    match item {
        ModuleItem::ClassDecl(c) => c,
        _ => panic!("expected a class declaration"),
    }
}

#[test]
fn stateful_component_becomes_setup_class() {
    let module = Module {
        body: vec![ModuleItem::FnDecl(FnDecl { ident: "Counter".to_string(), function: stateful_fn() })],
    };
    let out = process_transform(module, no_config());
    // One injected import, then the class.
    assert_eq!(out.body.len(), 2);
    let class = expect_class(&out.body[1]);
    assert_eq!(class.ident, "Counter");
    assert_eq!(class.super_class, "RaskStatefulComponent");
    assert_eq!(class.prop_key, "setup");
    assert_eq!(class.prop_value.ident.as_deref(), Some("Counter"));
    // The original function is carried unchanged.
    match &class.prop_value.function.body {
        Some(stmts) => assert!(matches!(
            &stmts[0],
            Stmt::Return(Some(Expr::Arrow { .. }))
        )),
        None => panic!("function body lost"),
    }
}

#[test]
fn stateless_component_becomes_render_class() {
    let module = Module {
        body: vec![ModuleItem::FnDecl(FnDecl { ident: "Badge".to_string(), function: stateless_fn() })],
    };
    let out = process_transform(module, no_config());
    assert_eq!(out.body.len(), 2);
    let class = expect_class(&out.body[1]);
    assert_eq!(class.super_class, "RaskStatelessComponent");
    assert_eq!(class.prop_key, "renderFn");
    assert_eq!(class.prop_value.ident.as_deref(), Some("Badge"));
}

#[test]
fn plain_function_is_not_a_component() {
    // function F() { return 42; } -- the returned expression is an opaque
    // leaf, so the declaration is left alone.
    let f = fn_returning(Expr::Other);
    assert_eq!(classify(&f), Classification::NotAComponent);
    let module = Module {
        body: vec![ModuleItem::FnDecl(FnDecl { ident: "F".to_string(), function: f })],
    };
    let out = process_transform(module, no_config());
    assert_eq!(out.body.len(), 1);
    assert!(matches!(&out.body[0], ModuleItem::FnDecl(d) if d.ident == "F"));
}

#[test]
fn creation_call_inside_map_callback_is_stateless() {
    // function F() { return items.map(x => createVNode(...)); }
    // The callee is a member expression, so only the call arguments are
    // searched; the arrow callback argument contains the creation call.
    let map_call = Expr::Call {
        callee: None,
        args: vec![Expr::Arrow {
            body: ArrowBody::Expr(Box::new(creation_call("createVNode"))),
        }],
    };
    let f = fn_returning(map_call);
    assert_eq!(classify(&f), Classification::Stateless);
}

#[test]
fn detection_reaches_through_composite_shapes() {
    // cond ? [createFragment(...)] : other, under parentheses and unary.
    let deep = Expr::Unary {
        arg: Box::new(Expr::Paren {
            inner: Box::new(Expr::Cond {
                test: Box::new(Expr::Other),
                cons: Box::new(Expr::Array {
                    elems: vec![None, Some(creation_call("createFragment"))],
                }),
                alt: Box::new(Expr::Other),
            }),
        }),
    };
    assert_eq!(classify(&fn_returning(deep)), Classification::Stateless);
}

#[test]
fn condition_of_a_ternary_is_never_inspected() {
    // The creation call sits in the ternary's test, which the detector
    // skips by design.
    let e = Expr::Cond {
        test: Box::new(creation_call("createVNode")),
        cons: Box::new(Expr::Other),
        alt: Box::new(Expr::Other),
    };
    assert_eq!(classify(&fn_returning(e)), Classification::NotAComponent);
}

#[test]
fn binary_operands_are_searched() {
    let e = Expr::Bin {
        left: Box::new(Expr::Other),
        right: Box::new(Expr::Member {
            obj: Box::new(creation_call("createTextVNode")),
        }),
    };
    assert_eq!(classify(&fn_returning(e)), Classification::Stateless);
}

#[test]
fn arrow_block_body_only_sees_top_level_returns() {
    // () => { return createComponentVNode(...); }  -- found.
    let found = Expr::Arrow {
        body: ArrowBody::Block(vec![
            Stmt::Other,
            Stmt::Return(Some(creation_call("createComponentVNode"))),
        ]),
    };
    assert_eq!(classify(&fn_returning(found)), Classification::Stateful);
    // () => { ...no return... }  -- not found.
    let not_found = Expr::Arrow { body: ArrowBody::Block(vec![Stmt::Other]) };
    assert_eq!(classify(&fn_returning(not_found)), Classification::NotAComponent);
}

#[test]
fn stateful_wins_over_stateless() {
    // One return matches the stateful shape, another the stateless shape:
    // the stateful test runs first.
    let f = Function {
        params: vec![],
        body: Some(vec![
            Stmt::Return(Some(creation_call("createVNode"))),
            Stmt::Return(Some(Expr::Arrow {
                body: ArrowBody::Expr(Box::new(creation_call("createVNode"))),
            })),
        ]),
    };
    assert_eq!(classify(&f), Classification::Stateful);
}

#[test]
fn function_without_body_is_not_a_component() {
    let f = Function { params: vec![], body: None };
    assert_eq!(classify(&f), Classification::NotAComponent);
}

#[test]
fn export_wrapper_is_preserved() {
    let module = Module {
        body: vec![ModuleItem::ExportFnDecl(FnDecl {
            ident: "Header".to_string(),
            function: stateful_fn(),
        })],
    };
    let out = process_transform(module, no_config());
    assert_eq!(out.body.len(), 2);
    match &out.body[1] {
        ModuleItem::ExportClassDecl(c) => {
            assert_eq!(c.ident, "Header");
            assert_eq!(c.super_class, "RaskStatefulComponent");
            assert_eq!(c.prop_key, "setup");
        }
        _ => panic!("expected an export-wrapped class declaration"),
    }
}

#[test]
fn default_exported_function_expression_is_never_rewritten() {
    let module = Module {
        body: vec![ModuleItem::ExportDefaultFnExpr(FnExpr {
            ident: None,
            function: stateful_fn(),
        })],
    };
    let out = process_transform(module, no_config());
    // No rewrite, hence no allocation and no injected import either.
    assert_eq!(out.body.len(), 1);
    assert!(matches!(&out.body[0], ModuleItem::ExportDefaultFnExpr(_)));
}

#[test]
fn legacy_import_is_retargeted_to_configured_source() {
    let module = Module {
        body: vec![ModuleItem::Import(ImportDecl {
            src: "inferno".to_string(),
            specifiers: vec![ImportSpecifier::Named {
                local: "createVNode".to_string(),
                imported: None,
            }],
        })],
    };
    let config = Config { import_source: Some("my-runtime".to_string()) };
    let out = process_transform(module, config);
    assert_eq!(out.body.len(), 1);
    match &out.body[0] {
        ModuleItem::Import(imp) => {
            assert_eq!(imp.src, "my-runtime");
            assert_eq!(imp.specifiers.len(), 1);
            assert!(matches!(
                &imp.specifiers[0],
                ImportSpecifier::Named { local, imported: None } if local == "createVNode"
            ));
        }
        _ => panic!("expected the import to survive"),
    }
}

#[test]
fn legacy_import_falls_back_to_default_source() {
    let module = Module {
        body: vec![ModuleItem::Import(ImportDecl {
            src: "inferno".to_string(),
            specifiers: vec![],
        })],
    };
    let out = process_transform(module, no_config());
    match &out.body[0] {
        ModuleItem::Import(imp) => assert_eq!(imp.src, "rask-ui"),
        _ => panic!("expected the import to survive"),
    }
}

#[test]
fn other_imports_are_untouched() {
    let module = Module {
        body: vec![ModuleItem::Import(ImportDecl {
            src: "react".to_string(),
            specifiers: vec![],
        })],
    };
    let out = process_transform(module, no_config());
    match &out.body[0] {
        ModuleItem::Import(imp) => assert_eq!(imp.src, "react"),
        _ => panic!("expected the import to survive"),
    }
}

#[test]
fn injected_import_carries_both_concepts_in_order() {
    let module = Module {
        body: vec![
            ModuleItem::FnDecl(FnDecl { ident: "A".to_string(), function: stateful_fn() }),
            ModuleItem::FnDecl(FnDecl { ident: "B".to_string(), function: stateless_fn() }),
        ],
    };
    let out = process_transform(module, no_config());
    assert_eq!(out.body.len(), 3);
    match &out.body[0] {
        ModuleItem::Import(imp) => {
            assert_eq!(imp.src, "rask-ui");
            let names: Vec<&str> = imp
                .specifiers
                .iter()
                .map(|s| match s {
                    ImportSpecifier::Named { imported: Some(ModuleExportName::Ident(n)), .. } => {
                        n.as_str()
                    }
                    _ => panic!("expected named specifiers"),
                })
                .collect();
            assert_eq!(names, vec!["RaskStatefulComponent", "RaskStatelessComponent"]);
        }
        _ => panic!("expected the injected import first"),
    }
}

#[test]
fn existing_binding_is_not_duplicated() {
    // The stateful base class is already imported from the configured
    // source under an alias: nothing new is queued for it.
    let module = Module {
        body: vec![
            ModuleItem::Import(ImportDecl {
                src: "rask-ui".to_string(),
                specifiers: vec![ImportSpecifier::Named {
                    local: "Base".to_string(),
                    imported: Some(ModuleExportName::Ident(
                        "RaskStatefulComponent".to_string(),
                    )),
                }],
            }),
            ModuleItem::FnDecl(FnDecl { ident: "A".to_string(), function: stateful_fn() }),
        ],
    };
    let out = process_transform(module, no_config());
    assert_eq!(out.body.len(), 2);
    assert!(matches!(&out.body[0], ModuleItem::Import(imp) if imp.src == "rask-ui"));
    assert!(matches!(&out.body[1], ModuleItem::ClassDecl(_)));
}

#[test]
fn bare_local_binding_counts_as_existing() {
    // import { RaskStatelessComponent } from "rask-ui" without an alias:
    // the local name is what the existence check matches.
    let module = Module {
        body: vec![
            ModuleItem::Import(ImportDecl {
                src: "rask-ui".to_string(),
                specifiers: vec![ImportSpecifier::Named {
                    local: "RaskStatelessComponent".to_string(),
                    imported: None,
                }],
            }),
            ModuleItem::FnDecl(FnDecl { ident: "B".to_string(), function: stateless_fn() }),
        ],
    };
    let out = process_transform(module, no_config());
    assert_eq!(out.body.len(), 2);
}

#[test]
fn rerunning_the_transform_changes_nothing() {
    let module = Module {
        body: vec![
            ModuleItem::Import(ImportDecl {
                src: "inferno".to_string(),
                specifiers: vec![ImportSpecifier::Named {
                    local: "createVNode".to_string(),
                    imported: None,
                }],
            }),
            ModuleItem::FnDecl(FnDecl { ident: "A".to_string(), function: stateful_fn() }),
            ModuleItem::FnDecl(FnDecl { ident: "F".to_string(), function: fn_returning(Expr::Other) }),
            ModuleItem::ExportFnDecl(FnDecl { ident: "B".to_string(), function: stateless_fn() }),
        ],
    };
    let once = process_transform(module, no_config());
    let shape_once = shape(&once);
    let twice = process_transform(once, no_config());
    assert_eq!(shape_once, shape(&twice));
    // The injected binding exists exactly once.
    let mut stateful_bindings = 0;
    for item in &twice.body {
        if let ModuleItem::Import(imp) = item {
            if imp.src == "rask-ui" {
                for s in &imp.specifiers {
                    if let ImportSpecifier::Named { imported: Some(ModuleExportName::Ident(n)), .. } = s {
                        if n == "RaskStatefulComponent" {
                            stateful_bindings += 1;
                        }
                    }
                }
            }
        }
    }
    assert_eq!(stateful_bindings, 1);
}

fn shape(m: &Module) -> Vec<String> {
    m.body
        .iter()
        .map(|item| match item {
            ModuleItem::FnDecl(d) => format!("fn {}", d.ident),
            ModuleItem::ClassDecl(c) => format!("class {} extends {}", c.ident, c.super_class),
            ModuleItem::ExportFnDecl(d) => format!("export fn {}", d.ident),
            ModuleItem::ExportClassDecl(c) => {
                format!("export class {} extends {}", c.ident, c.super_class)
            }
            ModuleItem::ExportDefaultFnExpr(_) => "export default fn".to_string(),
            ModuleItem::Import(imp) => format!("import \"{}\" x{}", imp.src, imp.specifiers.len()),
            ModuleItem::Other => "other".to_string(),
        })
        .collect()
}

#[test]
fn unrelated_callee_is_not_a_creation_call() {
    let f = fn_returning(creation_call("createElement"));
    assert_eq!(classify(&f), Classification::NotAComponent);
    let g = fn_returning(creation_call("createTextVNode"));
    assert_eq!(classify(&g), Classification::Stateless);
}

#[test]
fn parameters_are_carried_verbatim() {
    let f = Function {
        params: vec!["props".to_string(), "context".to_string()],
        body: Some(vec![Stmt::Return(Some(creation_call("createVNode")))]),
    };
    let module = Module {
        body: vec![ModuleItem::FnDecl(FnDecl { ident: "View".to_string(), function: f })],
    };
    let out = process_transform(module, no_config());
    let class = expect_class(&out.body[1]);
    assert_eq!(class.prop_value.function.params, vec!["props", "context"]);
}
