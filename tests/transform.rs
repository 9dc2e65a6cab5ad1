use react_server_components::ast::{
    CommentKind, Comments, Expr, ExprStmt, Ident, ImportDecl, ImportSpecifier, Module,
    ModuleExportName, ModuleItem, Span, Stmt, Str,
};
use react_server_components::config::{Config, Options};
use react_server_components::transform::{server_components, ReactServerComponents};
use react_server_components::validate::{Diagnostic, DiagnosticKind};

fn sp(lo: u32, hi: u32) -> Span {
    Span { lo, hi }
}

fn string_stmt(value: &str, lo: u32) -> ModuleItem {
    let hi = lo + value.len() as u32 + 2;
    ModuleItem::Stmt(Stmt::Expr(ExprStmt {
        span: sp(lo, hi + 1),
        expr: Expr::Lit(Str { value: value.to_string(), span: sp(lo, hi) }),
    }))
}

fn ident(name: &str, lo: u32) -> Ident {
    Ident { sym: name.to_string(), span: sp(lo, lo + name.len() as u32) }
}

fn named(name: &str, lo: u32) -> ImportSpecifier {
    ImportSpecifier::Named { span: sp(lo, lo + name.len() as u32), local: ident(name, lo), imported: None }
}

fn import(specifiers: Vec<ImportSpecifier>, src: &str, lo: u32, hi: u32) -> ModuleItem {
    ModuleItem::Import(ImportDecl {
        span: sp(lo, hi),
        specifiers,
        src: Str { value: src.to_string(), span: sp(hi - src.len() as u32 - 3, hi - 1) },
    })
}

fn pass(is_server: bool, filepath: &str) -> ReactServerComponents {
    server_components(
        filepath.to_string(),
        Config::WithOptions(Options { is_server }),
        Comments::new(),
    )
}

fn run(is_server: bool, module: &mut Module) -> (bool, Vec<Diagnostic>, ReactServerComponents) {
    let mut p = pass(is_server, "/app/page.js");
    let mut diagnostics = Vec::new();
    let descend = p.visit_mut_module(module, &mut diagnostics);
    (descend, diagnostics, p)
}

fn app_module() -> Module {
    // "client"; import { useState } from "react"; export default function App(){}
    Module {
        span: sp(0, 90),
        body: vec![
            string_stmt("client", 0),
            import(vec![named("useState", 19)], "react", 10, 44),
            ModuleItem::OtherDecl(sp(45, 90)),
        ],
    }
}

fn stub_text(body: &Vec<ModuleItem>) -> String {
    format!("{:?}", body)
}

#[test]
fn server_rewrites_client_boundary() {
    let mut m = app_module();
    let (descend, diagnostics, p) = run(true, &mut m);
    assert!(!descend);
    assert!(diagnostics.is_empty());
    assert_eq!(m.span, sp(0, 90));
    assert_eq!(m.body.len(), 2);
    match &m.body[0] {
        ModuleItem::Stmt(Stmt::Decl(d)) => {
            assert_eq!(d.key.sym, "createProxy");
            assert_eq!(d.init.callee.sym, "require");
            assert_eq!(d.init.arg.value, "private-next-rsc-mod-ref-proxy");
        }
        other => panic!("unexpected first item {:?}", other),
    }
    match &m.body[1] {
        ModuleItem::Stmt(Stmt::Expr(ExprStmt { expr: Expr::Assign(a), .. })) => {
            assert_eq!(a.left.obj.sym, "module");
            assert_eq!(a.left.prop.sym, "exports");
            assert_eq!(a.right.callee.sym, "createProxy");
            assert_eq!(a.right.arg.value, "/app/page.js");
        }
        other => panic!("unexpected second item {:?}", other),
    }
    assert_eq!(p.comments.leading.len(), 1);
    let (pos, comment) = &p.comments.leading[0];
    assert_eq!(*pos, 0);
    assert_eq!(comment.kind, CommentKind::Block);
    assert_eq!(comment.text, " __next_internal_client_entry_do_not_use__ ");
}

#[test]
fn client_keeps_boundary_body() {
    let mut m = app_module();
    let (descend, diagnostics, p) = run(false, &mut m);
    assert!(descend);
    assert!(diagnostics.is_empty());
    assert_eq!(m.body.len(), 2);
    assert!(matches!(&m.body[0], ModuleItem::Import(d) if d.src.value == "react"));
    assert!(matches!(&m.body[1], ModuleItem::OtherDecl(s) if *s == sp(45, 90)));
    assert!(p.comments.leading.is_empty());
}

#[test]
fn directive_detected_and_removed() {
    let p = pass(true, "a.js");
    let mut m = Module { span: sp(0, 30), body: vec![string_stmt("client", 0), ModuleItem::Stmt(Stmt::Other(sp(10, 30)))] };
    let (is_client, imports) = p.collect_top_level_directives_and_imports(&mut m);
    assert!(is_client);
    assert!(imports.is_empty());
    assert_eq!(m.body.len(), 1);
    assert!(matches!(&m.body[0], ModuleItem::Stmt(Stmt::Other(s)) if *s == sp(10, 30)));
}

#[test]
fn other_string_literal_is_kept() {
    let p = pass(true, "a.js");
    let mut m = Module { span: sp(0, 30), body: vec![string_stmt("use strict", 0), string_stmt("client", 14)] };
    let (is_client, _) = p.collect_top_level_directives_and_imports(&mut m);
    assert!(!is_client);
    assert_eq!(m.body.len(), 2);
    assert!(matches!(&m.body[0], ModuleItem::Stmt(Stmt::Expr(ExprStmt { expr: Expr::Lit(s), .. })) if s.value == "use strict"));
}

#[test]
fn empty_module_is_no_boundary() {
    let p = pass(true, "a.js");
    let mut m = Module { span: sp(0, 0), body: vec![] };
    let (is_client, imports) = p.collect_top_level_directives_and_imports(&mut m);
    assert!(!is_client);
    assert!(imports.is_empty());
    assert!(m.body.is_empty());
}

#[test]
fn repeated_directives_all_removed() {
    let p = pass(true, "a.js");
    let mut m = Module { span: sp(0, 40), body: vec![string_stmt("client", 0), string_stmt("client", 10), ModuleItem::OtherDecl(sp(20, 40))] };
    let (is_client, _) = p.collect_top_level_directives_and_imports(&mut m);
    assert!(is_client);
    assert_eq!(m.body.len(), 1);
}

#[test]
fn directive_after_import_is_ordinary() {
    // import x from "y"; "client";
    let p = pass(true, "a.js");
    let x = ImportSpecifier::Default { span: sp(7, 8), local: ident("x", 7) };
    let mut m = Module { span: sp(0, 30), body: vec![import(vec![x], "y", 0, 18), string_stmt("client", 19)] };
    let (is_client, imports) = p.collect_top_level_directives_and_imports(&mut m);
    assert!(!is_client);
    assert_eq!(imports.len(), 1);
    assert_eq!(m.body.len(), 2);
    assert!(matches!(&m.body[1], ModuleItem::Stmt(Stmt::Expr(ExprStmt { expr: Expr::Lit(s), .. })) if s.value == "client"));
    let (descend, diagnostics, _) = run(true, &mut m);
    assert!(descend);
    assert!(diagnostics.is_empty());
}

#[test]
fn import_records_names_and_spans() {
    // import d, { a as b, "c d" as e, f } from "m"; import * as ns from "n";
    let p = pass(false, "a.js");
    let specifiers = vec![
        ImportSpecifier::Default { span: sp(7, 8), local: ident("d", 7) },
        ImportSpecifier::Named { span: sp(12, 18), local: ident("b", 17), imported: Some(ModuleExportName::Ident(ident("a", 12))) },
        ImportSpecifier::Named { span: sp(20, 30), local: ident("e", 29), imported: Some(ModuleExportName::Str(Str { value: "c d".to_string(), span: sp(20, 25) })) },
        named("f", 32),
    ];
    let ns = ImportSpecifier::Namespace { span: sp(57, 64), local: ident("ns", 62) };
    let mut m = Module { span: sp(0, 80), body: vec![import(specifiers, "m", 0, 45), import(vec![ns], "n", 50, 80)] };
    let (_, imports) = p.collect_top_level_directives_and_imports(&mut m);
    assert_eq!(imports.len(), 2);
    assert_eq!(imports[0].source, ("m".to_string(), sp(0, 45)));
    let names: Vec<(String, Span)> = imports[0].specifiers.clone();
    assert_eq!(names, vec![
        ("".to_string(), sp(7, 8)),
        ("a".to_string(), sp(12, 13)),
        ("c d".to_string(), sp(20, 25)),
        ("f".to_string(), sp(32, 33)),
    ]);
    assert_eq!(imports[1].specifiers, vec![("*".to_string(), sp(57, 64))]);
}

#[test]
fn rewrite_depends_on_filepath_only() {
    let mut a = app_module();
    let mut b = Module { span: sp(5, 9), body: vec![string_stmt("client", 5), ModuleItem::Stmt(Stmt::Other(sp(14, 20)))] };
    let (_, _, _) = run(true, &mut a);
    let (_, _, _) = run(true, &mut b);
    assert_eq!(stub_text(&a.body), stub_text(&b.body));
    let mut c = app_module();
    let mut p = pass(true, "/other.js");
    let mut diagnostics = Vec::new();
    p.visit_mut_module(&mut c, &mut diagnostics);
    assert_ne!(stub_text(&a.body), stub_text(&c.body));
}

#[test]
fn rewrite_shape() {
    let mut m = Module { span: sp(0, 9), body: vec![string_stmt("client", 0)] };
    let mut p = pass(true, "x.js");
    p.to_module_ref(&mut m);
    assert_eq!(m.body.len(), 2);
    assert!(matches!(&m.body[0], ModuleItem::Stmt(Stmt::Decl(_))));
    assert!(matches!(&m.body[1], ModuleItem::Stmt(Stmt::Expr(ExprStmt { expr: Expr::Assign(_), .. }))));
}

#[test]
fn server_only_in_client_compilation() {
    let mut m = Module { span: sp(0, 20), body: vec![import(vec![], "server-only", 0, 20)] };
    let (_, diagnostics, _) = run(false, &mut m);
    assert_eq!(diagnostics.len(), 1);
    assert_eq!(diagnostics[0].kind, DiagnosticKind::BoundaryViolation);
    assert_eq!(diagnostics[0].span, sp(0, 20));
    assert_eq!(diagnostics[0].to_string(), "Disallowed import of `server-only` in the Client Components compilation.");
    let mut m = Module { span: sp(0, 20), body: vec![import(vec![], "server-only", 0, 20)] };
    let (_, diagnostics, _) = run(true, &mut m);
    assert!(diagnostics.is_empty());
}

#[test]
fn client_only_in_server_compilation() {
    let mut m = Module { span: sp(0, 20), body: vec![import(vec![], "client-only", 0, 20)] };
    let (_, diagnostics, _) = run(true, &mut m);
    assert_eq!(diagnostics.len(), 1);
    assert_eq!(diagnostics[0].kind, DiagnosticKind::BoundaryViolation);
    assert_eq!(diagnostics[0].message, "Disallowed import of `client-only` in the Server Components compilation.");
    let mut m = Module { span: sp(0, 20), body: vec![import(vec![], "client-only", 0, 20)] };
    let (_, diagnostics, _) = run(false, &mut m);
    assert!(diagnostics.is_empty());
}

#[test]
fn react_dom_server_sources_forbidden() {
    let mut m = Module { span: sp(0, 60), body: vec![import(vec![], "react-dom/client", 0, 25), import(vec![], "react-dom/server", 26, 60)] };
    let (_, diagnostics, _) = run(true, &mut m);
    assert_eq!(diagnostics.len(), 2);
    assert_eq!(diagnostics[0].span, sp(0, 25));
    assert_eq!(diagnostics[1].span, sp(26, 60));
}

#[test]
fn each_forbidden_hook_reported_at_its_specifier() {
    // import { useState, useEffect } from "react"
    let mut m = Module { span: sp(0, 44), body: vec![import(vec![named("useState", 9), named("useEffect", 19)], "react", 0, 44)] };
    let (_, diagnostics, _) = run(true, &mut m);
    assert_eq!(diagnostics.len(), 2);
    assert_eq!(diagnostics[0].kind, DiagnosticKind::ForbiddenApiUsage);
    assert_eq!(diagnostics[0].span, sp(9, 17));
    assert_eq!(diagnostics[0].message, "Disallowed React API `useState` in the Server Components compilation.");
    assert_eq!(diagnostics[1].span, sp(19, 28));
    assert_eq!(diagnostics[1].message, "Disallowed React API `useEffect` in the Server Components compilation.");
}

#[test]
fn renamed_hook_reported_by_imported_name() {
    let spec = ImportSpecifier::Named { span: sp(9, 22), local: ident("s", 21), imported: Some(ModuleExportName::Ident(ident("useRef", 9))) };
    let mut m = Module { span: sp(0, 40), body: vec![import(vec![spec, named("useMemo", 24)], "react", 0, 40)] };
    let (_, diagnostics, _) = run(true, &mut m);
    assert_eq!(diagnostics.len(), 1);
    assert_eq!(diagnostics[0].span, sp(9, 15));
    assert_eq!(diagnostics[0].message, "Disallowed React API `useRef` in the Server Components compilation.");
}

#[test]
fn react_dom_apis_forbidden_on_server() {
    let mut m = Module { span: sp(0, 50), body: vec![import(vec![named("flushSync", 9), named("createPortal", 20)], "react-dom", 0, 50)] };
    let (_, diagnostics, _) = run(true, &mut m);
    assert_eq!(diagnostics.len(), 1);
    assert_eq!(diagnostics[0].kind, DiagnosticKind::ForbiddenApiUsage);
    assert_eq!(diagnostics[0].message, "Disallowed ReactDOM API `flushSync` in the Server Components compilation.");
    let mut m = Module { span: sp(0, 50), body: vec![import(vec![named("useState", 9)], "react-dom", 0, 50)] };
    let (_, diagnostics, _) = run(true, &mut m);
    assert!(diagnostics.is_empty());
}

#[test]
fn hooks_allowed_in_client_compilation() {
    let mut m = Module { span: sp(0, 40), body: vec![import(vec![named("useState", 9)], "react", 0, 40)] };
    let (descend, diagnostics, _) = run(false, &mut m);
    assert!(descend);
    assert!(diagnostics.is_empty());
}

#[test]
fn rewritten_module_is_not_validated() {
    let mut m = Module { span: sp(0, 60), body: vec![string_stmt("client", 0), import(vec![], "client-only", 10, 30), import(vec![named("useState", 40)], "react", 31, 60)] };
    let (descend, diagnostics, _) = run(true, &mut m);
    assert!(!descend);
    assert!(diagnostics.is_empty());
}

#[test]
fn diagnostics_keep_source_order() {
    let mut m = Module { span: sp(0, 90), body: vec![
        import(vec![named("Component", 9)], "react", 0, 30),
        import(vec![], "client-only", 31, 50),
    ] };
    let (_, diagnostics, _) = run(true, &mut m);
    assert_eq!(diagnostics.len(), 2);
    assert_eq!(diagnostics[0].kind, DiagnosticKind::ForbiddenApiUsage);
    assert_eq!(diagnostics[1].kind, DiagnosticKind::BoundaryViolation);
}

#[test]
fn config_forms() {
    assert!(Config::All(true).truthy());
    assert!(!Config::All(false).truthy());
    assert!(Config::WithOptions(Options { is_server: false }).truthy());
    assert!(server_components("a".to_string(), Config::All(false), Comments::new()).is_server);
    assert!(server_components("a".to_string(), Config::All(true), Comments::new()).is_server);
    assert!(!server_components("a".to_string(), Config::WithOptions(Options { is_server: false }), Comments::new()).is_server);
    assert_eq!(server_components("dir/a.js".to_string(), Config::All(true), Comments::new()).filepath, "dir/a.js");
}
