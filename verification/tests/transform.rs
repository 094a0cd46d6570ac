use remove_export::ast::{
    Decl, DefaultDecl, Expr, ExportSpecifier, Func, ImportSpecifier, Module, ModuleItem, ObjPatProp,
    Pat, Stmt, VarDeclarator,
};
use remove_export::ids::Id;
use remove_export::remove_export_exprs;

fn id(sym: &str, ctxt: u64) -> Id {
    Id { sym: sym.to_string(), ctxt }
}

fn targets(names: &[&str]) -> Vec<String> {
    names.iter().map(|n| n.to_string()).collect()
}

fn call(callee: Expr) -> Expr {
    Expr::Call(Box::new(callee), vec![])
}

fn fn_body_returning(e: Expr) -> Func {
    Func { params: vec![], body: vec![Stmt::Ret(Some(e))] }
}

fn empty_fn() -> Func {
    Func { params: vec![], body: vec![] }
}

/// `export function getStaticProps(){ return helper(); }
///  function helper(){ return 1; }
///  export default function Page(){ return null; }`
fn scenario_a_module(page_calls_helper: bool) -> Module {
    let page_body = if page_calls_helper {
        fn_body_returning(call(Expr::Ident(id("helper", 1))))
    } else {
        fn_body_returning(Expr::Lit)
    };
    Module {
        items: vec![
            ModuleItem::ExportDecl(Decl::Fun(
                id("getStaticProps", 1),
                fn_body_returning(call(Expr::Ident(id("helper", 1)))),
            )),
            ModuleItem::Stmt(Stmt::Decl(Decl::Fun(id("helper", 1), fn_body_returning(Expr::Lit)))),
            ModuleItem::ExportDefaultDecl(DefaultDecl::Fun(Some(id("Page", 1)), page_body)),
        ],
    }
}

#[test]
fn scenario_exclusive_helper_removed() {
    let out = remove_export_exprs(targets(&["getStaticProps"]), scenario_a_module(false));
    let expected = Module {
        items: vec![ModuleItem::ExportDefaultDecl(DefaultDecl::Fun(
            Some(id("Page", 1)),
            fn_body_returning(Expr::Lit),
        ))],
    };
    assert_eq!(out, expected);
}

#[test]
fn scenario_shared_helper_preserved() {
    let out = remove_export_exprs(targets(&["getStaticProps"]), scenario_a_module(true));
    let expected = Module {
        items: vec![
            ModuleItem::Stmt(Stmt::Decl(Decl::Fun(id("helper", 1), fn_body_returning(Expr::Lit)))),
            ModuleItem::ExportDefaultDecl(DefaultDecl::Fun(
                Some(id("Page", 1)),
                fn_body_returning(call(Expr::Ident(id("helper", 1)))),
            )),
        ],
    };
    assert_eq!(out, expected);
}

/// `import { fetchData } from "x";
///  export function getServerSideProps(){ return fetchData(); }`
fn scenario_c_module() -> Module {
    Module {
        items: vec![
            ModuleItem::Import(vec![ImportSpecifier::Named(id("fetchData", 1))]),
            ModuleItem::ExportDecl(Decl::Fun(
                id("getServerSideProps", 1),
                fn_body_returning(call(Expr::Ident(id("fetchData", 1)))),
            )),
        ],
    }
}

#[test]
fn scenario_unused_import_disappears() {
    let out = remove_export_exprs(targets(&["getServerSideProps"]), scenario_c_module());
    assert_eq!(out, Module { items: vec![] });
}

#[test]
fn scenario_import_kept_when_used_elsewhere() {
    let mut m = scenario_c_module();
    m.items.push(ModuleItem::Stmt(Stmt::Expr(call(Expr::Ident(id("fetchData", 1))))));
    let out = remove_export_exprs(targets(&["getServerSideProps"]), m);
    let expected = Module {
        items: vec![
            ModuleItem::Import(vec![ImportSpecifier::Named(id("fetchData", 1))]),
            ModuleItem::Stmt(Stmt::Expr(call(Expr::Ident(id("fetchData", 1))))),
        ],
    };
    assert_eq!(out, expected);
}

#[test]
fn scenario_default_becomes_empty_function() {
    let m = Module {
        items: vec![ModuleItem::ExportDefaultDecl(DefaultDecl::Fun(
            None,
            fn_body_returning(Expr::Lit),
        ))],
    };
    let out = remove_export_exprs(targets(&["default"]), m);
    let expected = Module {
        items: vec![ModuleItem::ExportDefaultDecl(DefaultDecl::Fun(None, empty_fn()))],
    };
    assert_eq!(out, expected);
}

#[test]
fn scenario_default_expression_becomes_empty_function() {
    let m = Module {
        items: vec![ModuleItem::ExportDefaultExpr(Expr::Ident(id("impl_", 1)))],
    };
    let out = remove_export_exprs(targets(&["default"]), m);
    let expected = Module {
        items: vec![ModuleItem::ExportDefaultExpr(Expr::Fun(None, empty_fn()))],
    };
    assert_eq!(out, expected);
}

/// `export const { getStaticProps, Page } = mod;`
fn scenario_e_module() -> Module {
    Module {
        items: vec![ModuleItem::ExportDecl(Decl::Var(vec![VarDeclarator {
            name: Pat::Object(vec![
                ObjPatProp::Assign(id("getStaticProps", 1), None),
                ObjPatProp::Assign(id("Page", 1), None),
            ]),
            init: Some(Box::new(Expr::Ident(id("mod_", 1)))),
        }]))],
    }
}

#[test]
fn scenario_destructured_key_stripped_sibling_kept() {
    let out = remove_export_exprs(targets(&["getStaticProps"]), scenario_e_module());
    let expected = Module {
        items: vec![ModuleItem::ExportDecl(Decl::Var(vec![VarDeclarator {
            name: Pat::Object(vec![ObjPatProp::Assign(id("Page", 1), None)]),
            init: Some(Box::new(Expr::Ident(id("mod_", 1)))),
        }]))],
    };
    assert_eq!(out, expected);
}

#[test]
fn idempotent_on_own_output() {
    let once = remove_export_exprs(targets(&["getStaticProps"]), scenario_a_module(false));
    let twice = remove_export_exprs(
        targets(&["getStaticProps"]),
        remove_export_exprs(targets(&["getStaticProps"]), scenario_a_module(false)),
    );
    assert_eq!(once, twice);

    let once_e = remove_export_exprs(targets(&["getStaticProps"]), scenario_e_module());
    let twice_e = remove_export_exprs(
        targets(&["getStaticProps"]),
        remove_export_exprs(targets(&["getStaticProps"]), scenario_e_module()),
    );
    assert_eq!(once_e, twice_e);

    let dm = || Module {
        items: vec![ModuleItem::ExportDefaultExpr(Expr::Ident(id("x", 1)))],
    };
    let once_d = remove_export_exprs(targets(&["default"]), dm());
    let twice_d = remove_export_exprs(targets(&["default"]), remove_export_exprs(targets(&["default"]), dm()));
    assert_eq!(once_d, twice_d);
}

#[test]
fn side_effect_import_untouched() {
    let m = Module {
        items: vec![
            ModuleItem::Import(vec![]),
            ModuleItem::ExportDecl(Decl::Fun(id("getStaticProps", 1), fn_body_returning(Expr::Lit))),
        ],
    };
    let out = remove_export_exprs(targets(&["getStaticProps"]), m);
    assert_eq!(out, Module { items: vec![ModuleItem::Import(vec![])] });
}

#[test]
fn doomed_export_specifier_cascades_to_declaration() {
    // `function helper(){ return 1; } export { helper as getStaticProps };`
    let m = Module {
        items: vec![
            ModuleItem::Stmt(Stmt::Decl(Decl::Fun(id("helper", 1), fn_body_returning(Expr::Lit)))),
            ModuleItem::ExportNamed(vec![ExportSpecifier::Named(
                id("helper", 1),
                Some("getStaticProps".to_string()),
            )]),
        ],
    };
    let out = remove_export_exprs(targets(&["getStaticProps"]), m);
    assert_eq!(out, Module { items: vec![] });
}

#[test]
fn surviving_export_specifier_keeps_declaration() {
    // `function helper(){ return 1; } export { helper };` with an unrelated target
    let m = Module {
        items: vec![
            ModuleItem::Stmt(Stmt::Decl(Decl::Fun(id("helper", 1), fn_body_returning(Expr::Lit)))),
            ModuleItem::ExportNamed(vec![ExportSpecifier::Named(id("helper", 1), None)]),
        ],
    };
    let out = remove_export_exprs(targets(&["getStaticProps"]), m);
    let expected = Module {
        items: vec![
            ModuleItem::Stmt(Stmt::Decl(Decl::Fun(id("helper", 1), fn_body_returning(Expr::Lit)))),
            ModuleItem::ExportNamed(vec![ExportSpecifier::Named(id("helper", 1), None)]),
        ],
    };
    assert_eq!(out, expected);
}

#[test]
fn exported_var_and_exclusive_dependency_removed() {
    // `function make(){ return 1; } export const getStaticProps = make();`
    let m = Module {
        items: vec![
            ModuleItem::Stmt(Stmt::Decl(Decl::Fun(id("make", 1), fn_body_returning(Expr::Lit)))),
            ModuleItem::ExportDecl(Decl::Var(vec![VarDeclarator {
                name: Pat::Ident(id("getStaticProps", 1)),
                init: Some(Box::new(call(Expr::Ident(id("make", 1))))),
            }])),
        ],
    };
    let out = remove_export_exprs(targets(&["getStaticProps"]), m);
    assert_eq!(out, Module { items: vec![] });
}

#[test]
fn shadowed_identity_distinguished_by_scope_marker() {
    // Two bindings named `helper` in different scopes: only the one the
    // removed export uses disappears.
    let m = Module {
        items: vec![
            ModuleItem::Stmt(Stmt::Decl(Decl::Fun(id("helper", 1), fn_body_returning(Expr::Lit)))),
            ModuleItem::Stmt(Stmt::Decl(Decl::Fun(id("helper", 2), fn_body_returning(Expr::Lit)))),
            ModuleItem::ExportDecl(Decl::Fun(
                id("getStaticProps", 1),
                fn_body_returning(call(Expr::Ident(id("helper", 2)))),
            )),
            ModuleItem::Stmt(Stmt::Expr(call(Expr::Ident(id("helper", 1))))),
        ],
    };
    let out = remove_export_exprs(targets(&["getStaticProps"]), m);
    let expected = Module {
        items: vec![
            ModuleItem::Stmt(Stmt::Decl(Decl::Fun(id("helper", 1), fn_body_returning(Expr::Lit)))),
            ModuleItem::Stmt(Stmt::Expr(call(Expr::Ident(id("helper", 1))))),
        ],
    };
    assert_eq!(out, expected);
}

#[test]
fn no_targets_leaves_module_unchanged() {
    let out = remove_export_exprs(targets(&[]), scenario_a_module(true));
    assert_eq!(out, scenario_a_module(true));
}

#[test]
fn cascade_removes_whole_chain() {
    // getStaticProps -> a -> b -> c: the whole chain is reachable only from
    // the removed export and disappears over successive passes.
    let m = Module {
        items: vec![
            ModuleItem::ExportDecl(Decl::Fun(
                id("getStaticProps", 1),
                fn_body_returning(call(Expr::Ident(id("a", 1)))),
            )),
            ModuleItem::Stmt(Stmt::Decl(Decl::Fun(
                id("a", 1),
                fn_body_returning(call(Expr::Ident(id("b", 1)))),
            ))),
            ModuleItem::Stmt(Stmt::Decl(Decl::Fun(
                id("b", 1),
                fn_body_returning(call(Expr::Ident(id("c", 1)))),
            ))),
            ModuleItem::Stmt(Stmt::Decl(Decl::Fun(id("c", 1), fn_body_returning(Expr::Lit)))),
            ModuleItem::ExportDecl(Decl::Fun(id("keep", 1), fn_body_returning(Expr::Lit))),
        ],
    };
    let out = remove_export_exprs(targets(&["getStaticProps"]), m);
    let expected = Module {
        items: vec![ModuleItem::ExportDecl(Decl::Fun(id("keep", 1), fn_body_returning(Expr::Lit)))],
    };
    assert_eq!(out, expected);
}

#[test]
fn array_pattern_declarator_collapses() {
    // `export const getStaticProps = u; const [u] = make();`
    let m = Module {
        items: vec![
            ModuleItem::ExportDecl(Decl::Var(vec![VarDeclarator {
                name: Pat::Ident(id("getStaticProps", 1)),
                init: Some(Box::new(Expr::Ident(id("u", 1)))),
            }])),
            ModuleItem::Stmt(Stmt::Decl(Decl::Var(vec![VarDeclarator {
                name: Pat::Array(vec![Some(Pat::Ident(id("u", 1)))]),
                init: Some(Box::new(call(Expr::Ident(id("make", 1))))),
            }]))),
            ModuleItem::Stmt(Stmt::Decl(Decl::Fun(id("make", 1), fn_body_returning(Expr::Lit)))),
        ],
    };
    let out = remove_export_exprs(targets(&["getStaticProps"]), m);
    assert_eq!(out, Module { items: vec![] });
}

#[test]
fn namespace_specifier_under_doomed_name_dropped() {
    let m = Module {
        items: vec![ModuleItem::ExportNamed(vec![
            ExportSpecifier::Namespace("getStaticProps".to_string()),
            ExportSpecifier::Named(id("other", 1), None),
        ]), ModuleItem::Stmt(Stmt::Decl(Decl::Fun(id("other", 1), fn_body_returning(Expr::Lit))))],
    };
    let out = remove_export_exprs(targets(&["getStaticProps"]), m);
    let expected = Module {
        items: vec![
            ModuleItem::ExportNamed(vec![ExportSpecifier::Named(id("other", 1), None)]),
            ModuleItem::Stmt(Stmt::Decl(Decl::Fun(id("other", 1), fn_body_returning(Expr::Lit)))),
        ],
    };
    assert_eq!(out, expected);
}

#[test]
fn empty_named_export_statement_dropped() {
    let m = Module { items: vec![ModuleItem::ExportNamed(vec![])] };
    let out = remove_export_exprs(targets(&[]), m);
    assert_eq!(out, Module { items: vec![] });
}
