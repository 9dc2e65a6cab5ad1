use vstd::prelude::*;
use vstd::string::*;

use crate::ast::{
    ExportNameView, Expr, ExprStmt, ImportDecl, ImportDeclView, ImportSpecifier, ItemView,
    Module, ModuleExportName, ModuleItem, Span, SpecifierView, Stmt,
};
use crate::transform::ReactServerComponents;

verus! {

/// The value of the directive that marks a module as a client boundary.
pub open spec fn client_marker() -> Seq<char> {
    "client"@
}

/// Whether an item is the statement `"client";`.
pub open spec fn is_client_directive(item: ModuleItem) -> bool {
    item matches ModuleItem::Stmt(Stmt::Expr(ExprStmt { expr: Expr::Lit(s), .. }))
        && s.value@ == client_marker()
}

/// How many `"client";` statements open the module, one after another.
pub open spec fn leading_directives(items: Seq<ModuleItem>) -> nat
    decreases items.len(),
{
    if items.len() > 0 && is_client_directive(items[0]) {
        1 + leading_directives(items.drop_first())
    } else {
        0
    }
}

/// One import of a module, as the validator reads it: the imported source with the
/// declaration's span, and the name and span of each binding.
pub ghost struct ImportRecord {
    pub source: Seq<char>,
    pub source_span: Span,
    pub specifiers: Seq<(Seq<char>, Span)>,
}

/// The name that a binding imports, with its span: the exported name where the binding
/// renames it, the empty name for a default import and `*` for a namespace import.
pub open spec fn specifier_binding(s: SpecifierView) -> (Seq<char>, Span) {
    match s {
        SpecifierView::Named { local, imported, .. } => match imported {
            Some(ExportNameView::Ident(w)) => (w.text, w.span),
            Some(ExportNameView::Str(w)) => (w.text, w.span),
            None => (local.text, local.span),
        },
        SpecifierView::Default { span, .. } => (Seq::empty(), span),
        SpecifierView::Namespace { span, .. } => (seq!['*'], span),
    }
}

pub open spec fn record_of(d: ImportDeclView) -> ImportRecord {
    ImportRecord {
        source: d.src.text,
        source_span: d.span,
        specifiers: d.specifiers.map_values(|s: SpecifierView| specifier_binding(s)),
    }
}

/// The records of the import declarations among `items`, in order.
pub open spec fn import_records(items: Seq<ItemView>) -> Seq<ImportRecord>
    decreases items.len(),
{
    if items.len() == 0 {
        Seq::empty()
    } else {
        let before = import_records(items.drop_last());
        match items.last() {
            ItemView::Import(d) => before.push(record_of(d)),
            _ => before,
        }
    }
}

/// An import declaration as the validator reads it.
#[derive(Debug)]
pub struct ModuleImports {
    pub source: (String, Span),
    pub specifiers: Vec<(String, Span)>,
}

impl View for ModuleImports {
    type V = ImportRecord;

    open spec fn view(&self) -> ImportRecord {
        ImportRecord {
            source: self.source.0@,
            source_span: self.source.1,
            specifiers: self.specifiers@.map_values(|p: (String, Span)| (p.0@, p.1)),
        }
    }
}

pub open spec fn imports_view(v: Seq<ModuleImports>) -> Seq<ImportRecord> {
    v.map_values(|m: ModuleImports| m@)
}

proof fn lemma_leading_directives(items: Seq<ModuleItem>, k: int)
    requires
        0 <= k <= items.len(),
        forall|j: int| 0 <= j < k ==> is_client_directive(#[trigger] items[j]),
        k < items.len() ==> !is_client_directive(items[k]),
    ensures
        leading_directives(items) == k,
    decreases k,
{
    if k > 0 {
        let rest = items.drop_first();
        assert forall|j: int| 0 <= j < k - 1 implies is_client_directive(#[trigger] rest[j]) by {
            assert(rest[j] == items[j + 1]);
        }
        lemma_leading_directives(rest, k - 1);
    }
}

/// The name and span that a binding imports.
fn binding_of(s: &ImportSpecifier) -> (r: (String, Span))
    ensures
        (r.0@, r.1) == specifier_binding(s@),
{
    match s {
        ImportSpecifier::Named { local, imported, .. } => match imported {
            Some(ModuleExportName::Ident(i)) => (i.sym.clone(), i.span),
            Some(ModuleExportName::Str(s)) => (s.value.clone(), s.span),
            None => (local.sym.clone(), local.span),
        },
        ImportSpecifier::Default { span, .. } => (String::new(), *span),
        ImportSpecifier::Namespace { span, .. } => {
            let star = String::from_str("*");
            proof {
                reveal_strlit("*");
            }
            assert(star@ =~= seq!['*']);
            (star, *span)
        },
    }
}

/// The record of one import declaration.
fn module_imports_of(d: &ImportDecl) -> (r: ModuleImports)
    ensures
        r@ == record_of(d@),
{
    let mut specifiers: Vec<(String, Span)> = Vec::new();
    let mut i: usize = 0;
    while i < d.specifiers.len()
        invariant
            i <= d.specifiers@.len(),
            specifiers@.map_values(|p: (String, Span)| (p.0@, p.1)) =~= d.specifiers@.take(
                i as int,
            ).map_values(|s: ImportSpecifier| specifier_binding(s@)),
        decreases d.specifiers@.len() - i,
    {
        let b = binding_of(&d.specifiers[i]);
        let ghost before = specifiers@;
        specifiers.push(b);
        proof {
            assert(d.specifiers@.take(i as int + 1) =~= d.specifiers@.take(i as int).push(
                d.specifiers@[i as int],
            ));
            assert(specifiers@.map_values(|p: (String, Span)| (p.0@, p.1)) =~= before.map_values(
                |p: (String, Span)| (p.0@, p.1),
            ).push((b.0@, b.1)));
        }
        i = i + 1;
    }
    proof {
        assert(d.specifiers@.take(i as int) =~= d.specifiers@);
    }
    let r = ModuleImports { source: (d.src.value.clone(), d.span), specifiers };
    assert(r@.specifiers =~= record_of(d@).specifiers);
    r
}

impl ReactServerComponents {
    /// Scans the top-level items once, in order. The `"client";` statements that open the
    /// module are removed, and whether there was one is returned, with the records of all
    /// import declarations in order. The other items stay, in their order.
    pub fn collect_top_level_directives_and_imports(&self, module: &mut Module) -> (r: (
        bool,
        Vec<ModuleImports>,
    ))
        ensures
            final(module).span == old(module).span,
            final(module).body@ == old(module).body@.skip(
                leading_directives(old(module).body@) as int,
            ),
            r.0 == (leading_directives(old(module).body@) > 0),
            imports_view(r.1@) == import_records(old(module)@.body),
    {
        let ghost body = module.body@;
        let mut imports: Vec<ModuleImports> = Vec::new();
        let mut finished_directives = false;
        let mut directives: usize = 0;
        let mut i: usize = 0;
        while i < module.body.len()
            invariant
                module.body@ == body,
                i <= body.len(),
                directives <= i,
                forall|j: int| 0 <= j < directives ==> is_client_directive(#[trigger] body[j]),
                !finished_directives ==> directives == i,
                finished_directives ==> directives < body.len() && !is_client_directive(
                    body[directives as int],
                ),
                imports_view(imports@) == import_records(
                    body.take(i as int).map_values(|m: ModuleItem| m@),
                ),
            decreases body.len() - i,
        {
            let item = &module.body[i];
            match item {
                ModuleItem::Stmt(stmt) => {
                    if !finished_directives {
                        let mut directive = false;
                        match stmt {
                            Stmt::Expr(ExprStmt { expr: Expr::Lit(s), .. }) => {
                                let marker = String::from_str("client");
                                if s.value == marker {
                                    directive = true;
                                }
                            },
                            _ => {},
                        }
                        if directive {
                            directives = directives + 1;
                        } else {
                            finished_directives = true;
                        }
                    }
                },
                ModuleItem::Import(d) => {
                    let rec = module_imports_of(d);
                    imports.push(rec);
                    finished_directives = true;
                },
                ModuleItem::OtherDecl(_) => {
                    finished_directives = true;
                },
            }
            proof {
                let prev = body.take(i as int).map_values(|m: ModuleItem| m@);
                let next = body.take(i as int + 1).map_values(|m: ModuleItem| m@);
                assert(next.drop_last() =~= prev);
                assert(next.last() == body[i as int]@);
                assert(imports_view(imports@) =~= import_records(next));
            }
            i = i + 1;
        }
        proof {
            lemma_leading_directives(body, directives as int);
            assert(body.take(i as int) =~= body);
        }
        let rest = module.body.split_off(directives);
        module.body = rest;
        (directives > 0, imports)
    }
}

} // verus!
