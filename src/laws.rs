use vstd::prelude::*;

use crate::ast::{ExprView, ItemView, ModuleItem, ModuleView, Span, StmtView};
use crate::collect::{is_client_directive, leading_directives, ImportRecord};
use crate::transform::{
    client_forbidden_sources, forbidden_react_apis, rewritten, server_forbidden_sources,
};
use crate::validate::{
    api_diagnostic, api_diagnostics, client_graph_diagnostics, server_graph_diagnostics,
    server_record_diagnostics, source_diagnostic, source_diagnostics, DiagnosticKind,
    DiagnosticView,
};

verus! {

/// A module is a client boundary exactly when its first item is the statement
/// `"client";`, and then that statement is gone from the output. When the first item is
/// anything else (another string literal, for one), the module is no boundary and its
/// items stay as they are.
pub proof fn law_directive_detection(items: Seq<ModuleItem>)
    ensures
        (leading_directives(items) > 0) == (items.len() > 0 && is_client_directive(items[0])),
        items.len() > 0 && is_client_directive(items[0]) ==> items.skip(
            leading_directives(items) as int,
        ) == items.drop_first().skip(leading_directives(items) - 1),
        !(items.len() > 0 && is_client_directive(items[0])) ==> items.skip(
            leading_directives(items) as int,
        ) == items,
{
    if items.len() > 0 && is_client_directive(items[0]) {
        let k = leading_directives(items);
        lemma_leading_directives_bound(items);
        assert(k == 1 + leading_directives(items.drop_first()));
        assert(items.skip(k as int) =~= items.drop_first().skip(k - 1));
    } else {
        assert(items.skip(0) =~= items);
    }
}

/// Directives must open the module: when an import comes first, no later `"client";`
/// makes the module a boundary, and nothing is removed.
pub proof fn law_directive_contiguity(items: Seq<ModuleItem>)
    requires
        items.len() > 0,
        items[0] is Import,
    ensures
        leading_directives(items) == 0,
        items.skip(leading_directives(items) as int) == items,
{
    assert(items.skip(0) =~= items);
}

/// The rewrite depends on the file path alone: two modules rewritten for one path get the
/// same body, whatever they held before.
pub proof fn law_rewrite_determinism(a: ModuleView, b: ModuleView, filepath: Seq<char>)
    ensures
        rewritten(a, filepath).body == rewritten(b, filepath).body,
{
}

/// The rewritten body has two items: a binding declaration, then an expression statement
/// that assigns.
pub proof fn law_rewrite_shape(m: ModuleView, filepath: Seq<char>)
    ensures
        rewritten(m, filepath).body.len() == 2,
        rewritten(m, filepath).body[0] matches ItemView::Stmt(StmtView::Decl { .. }),
        rewritten(m, filepath).body[1] matches ItemView::Stmt(
            StmtView::Expr { expr: ExprView::Assign(_), .. },
        ),
{
}

proof fn lemma_leading_directives_bound(items: Seq<ModuleItem>)
    ensures
        leading_directives(items) <= items.len(),
    decreases items.len(),
{
    if items.len() > 0 && is_client_directive(items[0]) {
        lemma_leading_directives_bound(items.drop_first());
    }
}

proof fn lemma_not_contains(s: Seq<Seq<char>>, w: Seq<char>)
    requires
        forall|i: int| 0 <= i < s.len() ==> s[i] != w,
    ensures
        !s.contains(w),
{
}

proof fn lemma_single_server(r: ImportRecord)
    ensures
        server_graph_diagnostics(seq![r]) == server_record_diagnostics(r),
{
    let rs = seq![r];
    assert(rs.drop_last() =~= Seq::<ImportRecord>::empty());
    assert(rs.last() == r);
    assert(server_graph_diagnostics(rs.drop_last()) == Seq::<DiagnosticView>::empty());
    assert(Seq::<DiagnosticView>::empty() + server_record_diagnostics(r)
        =~= server_record_diagnostics(r));
}

proof fn lemma_single_client(r: ImportRecord)
    ensures
        client_graph_diagnostics(seq![r]) == source_diagnostics(r, client_forbidden_sources(), false),
{
    let rs = seq![r];
    assert(rs.drop_last() =~= Seq::<ImportRecord>::empty());
    assert(rs.last() == r);
    assert(client_graph_diagnostics(rs.drop_last()) == Seq::<DiagnosticView>::empty());
    assert(Seq::<DiagnosticView>::empty() + source_diagnostics(r, client_forbidden_sources(), false)
        =~= source_diagnostics(r, client_forbidden_sources(), false));
}

proof fn lemma_distinct(a: Seq<char>, b: Seq<char>, i: int)
    requires
        0 <= i < a.len(),
        0 <= i < b.len(),
        a[i] != b[i],
    ensures
        a != b,
{
}

/// An import of `server-only` gets one boundary diagnostic in the client compilation and
/// none in the server compilation; an import of `client-only` gets one in the server
/// compilation and none in the client compilation.
pub proof fn law_validator_completeness(
    specifiers: Seq<(Seq<char>, Span)>,
    span: Span,
)
    ensures
        client_graph_diagnostics(
            seq![ImportRecord { source: "server-only"@, source_span: span, specifiers }],
        ) == seq![source_diagnostic("server-only"@, span, false)],
        server_graph_diagnostics(
            seq![ImportRecord { source: "server-only"@, source_span: span, specifiers }],
        ) == Seq::<DiagnosticView>::empty(),
        server_graph_diagnostics(
            seq![ImportRecord { source: "client-only"@, source_span: span, specifiers }],
        ) == seq![source_diagnostic("client-only"@, span, true)],
        client_graph_diagnostics(
            seq![ImportRecord { source: "client-only"@, source_span: span, specifiers }],
        ) == Seq::<DiagnosticView>::empty(),
        source_diagnostic("server-only"@, span, false).kind == DiagnosticKind::BoundaryViolation,
        source_diagnostic("client-only"@, span, true).kind == DiagnosticKind::BoundaryViolation,
{
    reveal_strlit("server-only");
    reveal_strlit("client-only");
    reveal_strlit("react-dom/client");
    reveal_strlit("react-dom/server");
    reveal_strlit("react");
    reveal_strlit("react-dom");
    let so = "server-only"@;
    let co = "client-only"@;
    lemma_distinct(so, co, 0);
    lemma_distinct(so, "react-dom/client"@, 0);
    lemma_distinct(so, "react-dom/server"@, 0);
    lemma_distinct(so, "react"@, 0);
    lemma_distinct(so, "react-dom"@, 0);
    lemma_distinct(co, "react"@, 0);
    lemma_distinct(co, "react-dom"@, 0);
    assert(server_forbidden_sources()[0] == co);
    assert(server_forbidden_sources().contains(co));
    assert(client_forbidden_sources()[0] == so);
    assert(client_forbidden_sources().contains(so));
    lemma_not_contains(server_forbidden_sources(), so);
    lemma_not_contains(client_forbidden_sources(), co);
    let rs = seq![ImportRecord { source: so, source_span: span, specifiers }];
    let rc = seq![ImportRecord { source: co, source_span: span, specifiers }];
    lemma_single_server(rs[0]);
    lemma_single_client(rs[0]);
    lemma_single_server(rc[0]);
    lemma_single_client(rc[0]);
    assert(server_record_diagnostics(rs[0]) =~= Seq::<DiagnosticView>::empty());
    assert(server_record_diagnostics(rc[0]) =~= seq![source_diagnostic(co, span, true)]);
    assert(client_graph_diagnostics(rs) =~= seq![source_diagnostic(so, span, false)]);
    assert(server_graph_diagnostics(rs) =~= Seq::<DiagnosticView>::empty());
    assert(server_graph_diagnostics(rc) =~= seq![source_diagnostic(co, span, true)]);
    assert(client_graph_diagnostics(rc) =~= Seq::<DiagnosticView>::empty());
}

/// `import { useState, useEffect } from "react"` gets, in the server compilation, one
/// diagnostic per name, each at its own binding's span.
pub proof fn law_per_specifier_fan_out(span: Span, first: Span, second: Span)
    ensures
        server_graph_diagnostics(
            seq![
                ImportRecord {
                    source: "react"@,
                    source_span: span,
                    specifiers: seq![("useState"@, first), ("useEffect"@, second)],
                },
            ],
        ) == seq![
            api_diagnostic("useState"@, first, false),
            api_diagnostic("useEffect"@, second, false),
        ],
{
    reveal_strlit("react");
    reveal_strlit("react-dom");
    reveal_strlit("client-only");
    reveal_strlit("react-dom/client");
    reveal_strlit("react-dom/server");
    let react = "react"@;
    lemma_distinct(react, "client-only"@, 0);
    assert(react.len() != "react-dom/client"@.len());
    assert(react.len() != "react-dom/server"@.len());
    assert(react.len() != "react-dom"@.len());
    lemma_not_contains(server_forbidden_sources(), react);
    assert(forbidden_react_apis()[11] == "useState"@);
    assert(forbidden_react_apis()[5] == "useEffect"@);
    assert(forbidden_react_apis().contains("useState"@));
    assert(forbidden_react_apis().contains("useEffect"@));
    let specs = seq![("useState"@, first), ("useEffect"@, second)];
    let one = specs.drop_last();
    assert(one =~= seq![("useState"@, first)]);
    assert(one.drop_last() =~= Seq::<(Seq<char>, Span)>::empty());
    assert(api_diagnostics(one.drop_last(), forbidden_react_apis(), false)
        == Seq::<DiagnosticView>::empty());
    assert(one.last() == ("useState"@, first));
    assert(api_diagnostics(one, forbidden_react_apis(), false) =~= seq![
        api_diagnostic("useState"@, first, false),
    ]);
    assert(specs.last() == ("useEffect"@, second));
    assert(api_diagnostics(specs, forbidden_react_apis(), false) =~= seq![
        api_diagnostic("useState"@, first, false),
        api_diagnostic("useEffect"@, second, false),
    ]);
    let rs = seq![ImportRecord { source: react, source_span: span, specifiers: specs }];
    lemma_single_server(rs[0]);
    assert(server_record_diagnostics(rs[0]) =~= seq![
        api_diagnostic("useState"@, first, false),
        api_diagnostic("useEffect"@, second, false),
    ]);
    assert(server_graph_diagnostics(rs) =~= seq![
        api_diagnostic("useState"@, first, false),
        api_diagnostic("useEffect"@, second, false),
    ]);
}

/// In the client compilation an import from `react` gets no diagnostic, whatever it names.
pub proof fn law_mode_isolation(specifiers: Seq<(Seq<char>, Span)>, span: Span)
    ensures
        client_graph_diagnostics(
            seq![ImportRecord { source: "react"@, source_span: span, specifiers }],
        ) == Seq::<DiagnosticView>::empty(),
{
    reveal_strlit("react");
    reveal_strlit("server-only");
    lemma_distinct("react"@, "server-only"@, 0);
    lemma_not_contains(client_forbidden_sources(), "react"@);
    let rs = seq![ImportRecord { source: "react"@, source_span: span, specifiers }];
    lemma_single_client(rs[0]);
    assert(client_graph_diagnostics(rs) =~= Seq::<DiagnosticView>::empty());
}

} // verus!
