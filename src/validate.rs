use vstd::prelude::*;
use vstd::string::*;

use crate::ast::Span;
use crate::collect::{imports_view, ImportRecord, ModuleImports};
use crate::transform::{
    client_forbidden_sources, forbidden_react_apis, forbidden_react_dom_apis,
    server_forbidden_sources, words, ReactServerComponents,
};

verus! {

/// What a diagnostic reports.
#[derive(Clone, Copy, Debug, PartialEq, Eq, Structural)]
pub enum DiagnosticKind {
    /// A source that the compilation may not import.
    BoundaryViolation,
    /// A name that the server compilation may not import from `react` or `react-dom`.
    ForbiddenApiUsage,
}

/// A compile error, at a span of the source.
#[derive(Debug)]
pub struct Diagnostic {
    pub span: Span,
    pub kind: DiagnosticKind,
    pub message: String,
}

pub ghost struct DiagnosticView {
    pub span: Span,
    pub kind: DiagnosticKind,
    pub message: Seq<char>,
}

impl View for Diagnostic {
    type V = DiagnosticView;

    open spec fn view(&self) -> DiagnosticView {
        DiagnosticView { span: self.span, kind: self.kind, message: self.message@ }
    }
}

impl Diagnostic {
    /// The message of the diagnostic.
    pub fn to_string(&self) -> (r: String)
        ensures
            r@ == self.message@,
    {
        self.message.clone()
    }
}

pub open spec fn diagnostics_view(v: Seq<Diagnostic>) -> Seq<DiagnosticView> {
    v.map_values(|d: Diagnostic| d@)
}

/// The diagnostic for a forbidden source.
pub open spec fn source_diagnostic(source: Seq<char>, span: Span, server: bool) -> DiagnosticView {
    DiagnosticView {
        span,
        kind: DiagnosticKind::BoundaryViolation,
        message: "Disallowed import of `"@ + source + if server {
            "` in the Server Components compilation."@
        } else {
            "` in the Client Components compilation."@
        },
    }
}

/// The diagnostic for a forbidden name of `react` (`dom` false) or `react-dom` (`dom` true).
pub open spec fn api_diagnostic(name: Seq<char>, span: Span, dom: bool) -> DiagnosticView {
    DiagnosticView {
        span,
        kind: DiagnosticKind::ForbiddenApiUsage,
        message: if dom {
            "Disallowed ReactDOM API `"@
        } else {
            "Disallowed React API `"@
        } + name + "` in the Server Components compilation."@,
    }
}

/// One diagnostic if the record's source is among `forbidden`, else none.
pub open spec fn source_diagnostics(r: ImportRecord, forbidden: Seq<Seq<char>>, server: bool) -> Seq<
    DiagnosticView,
> {
    if forbidden.contains(r.source) {
        seq![source_diagnostic(r.source, r.source_span, server)]
    } else {
        Seq::empty()
    }
}

/// One diagnostic per binding whose name is among `forbidden`, at the binding's span.
pub open spec fn api_diagnostics(
    specifiers: Seq<(Seq<char>, Span)>,
    forbidden: Seq<Seq<char>>,
    dom: bool,
) -> Seq<DiagnosticView>
    decreases specifiers.len(),
{
    if specifiers.len() == 0 {
        Seq::empty()
    } else {
        let before = api_diagnostics(specifiers.drop_last(), forbidden, dom);
        let s = specifiers.last();
        if forbidden.contains(s.0) {
            before.push(api_diagnostic(s.0, s.1, dom))
        } else {
            before
        }
    }
}

/// What the server compilation reports of one import.
pub open spec fn server_record_diagnostics(r: ImportRecord) -> Seq<DiagnosticView> {
    source_diagnostics(r, server_forbidden_sources(), true) + (if r.source == "react"@ {
        api_diagnostics(r.specifiers, forbidden_react_apis(), false)
    } else {
        Seq::empty()
    }) + (if r.source == "react-dom"@ {
        api_diagnostics(r.specifiers, forbidden_react_dom_apis(), true)
    } else {
        Seq::empty()
    })
}

/// What the server compilation reports of a module's imports, in their order.
pub open spec fn server_graph_diagnostics(rs: Seq<ImportRecord>) -> Seq<DiagnosticView>
    decreases rs.len(),
{
    if rs.len() == 0 {
        Seq::empty()
    } else {
        server_graph_diagnostics(rs.drop_last()) + server_record_diagnostics(rs.last())
    }
}

/// What the client compilation reports of a module's imports, in their order.
pub open spec fn client_graph_diagnostics(rs: Seq<ImportRecord>) -> Seq<DiagnosticView>
    decreases rs.len(),
{
    if rs.len() == 0 {
        Seq::empty()
    } else {
        client_graph_diagnostics(rs.drop_last()) + source_diagnostics(
            rs.last(),
            client_forbidden_sources(),
            false,
        )
    }
}

/// Whether `list` holds a string with the text of `w`.
fn contains_word(list: &Vec<String>, w: &String) -> (r: bool)
    ensures
        r == words(list@).contains(w@),
{
    let mut i: usize = 0;
    while i < list.len()
        invariant
            i <= list@.len(),
            forall|j: int| 0 <= j < i ==> list@[j]@ != w@,
        decreases list@.len() - i,
    {
        if list[i] == *w {
            assert(words(list@)[i as int] == w@);
            return true;
        }
        i = i + 1;
    }
    proof {
        if words(list@).contains(w@) {
            let j = choose|j: int| 0 <= j < words(list@).len() && words(list@)[j] == w@;
            assert(list@[j]@ == w@);
        }
    }
    false
}

/// A diagnostic at `span` whose message is `prefix`, `name` and `suffix` in turn.
fn diagnostic(span: Span, kind: DiagnosticKind, prefix: &str, name: &String, suffix: &str) -> (r:
    Diagnostic)
    ensures
        r@ == (DiagnosticView { span, kind, message: prefix@ + name@ + suffix@ }),
{
    let mut message = String::from_str(prefix);
    message.append(name.as_str());
    message.append(suffix);
    Diagnostic { span, kind, message }
}

/// Appends a diagnostic to the sink.
fn emit(sink: &mut Vec<Diagnostic>, d: Diagnostic)
    ensures
        diagnostics_view(final(sink)@) == diagnostics_view(old(sink)@).push(d@),
{
    sink.push(d);
    assert(diagnostics_view(sink@) =~= diagnostics_view(old(sink)@).push(d@));
}

/// Reports each binding of `specifiers` whose name is in `forbidden`.
fn assert_apis(
    specifiers: &Vec<(String, Span)>,
    forbidden: &Vec<String>,
    dom: bool,
    diagnostics: &mut Vec<Diagnostic>,
)
    ensures
        diagnostics_view(final(diagnostics)@) == diagnostics_view(old(diagnostics)@)
            + api_diagnostics(
            specifiers@.map_values(|p: (String, Span)| (p.0@, p.1)),
            words(forbidden@),
            dom,
        ),
{
    let ghost specs = specifiers@.map_values(|p: (String, Span)| (p.0@, p.1));
    let mut i: usize = 0;
    while i < specifiers.len()
        invariant
            i <= specifiers@.len(),
            specs == specifiers@.map_values(|p: (String, Span)| (p.0@, p.1)),
            diagnostics_view(diagnostics@) == diagnostics_view(old(diagnostics)@)
                + api_diagnostics(specs.take(i as int), words(forbidden@), dom),
        decreases specifiers@.len() - i,
    {
        let ghost prev = diagnostics_view(diagnostics@);
        let specifier = &specifiers[i];
        if contains_word(forbidden, &specifier.0) {
            let d = if dom {
                diagnostic(
                    specifier.1,
                    DiagnosticKind::ForbiddenApiUsage,
                    "Disallowed ReactDOM API `",
                    &specifier.0,
                    "` in the Server Components compilation.",
                )
            } else {
                diagnostic(
                    specifier.1,
                    DiagnosticKind::ForbiddenApiUsage,
                    "Disallowed React API `",
                    &specifier.0,
                    "` in the Server Components compilation.",
                )
            };
            emit(diagnostics, d);
        }
        proof {
            let next = specs.take(i as int + 1);
            assert(next.drop_last() =~= specs.take(i as int));
            assert(next.last() == specs[i as int]);
            assert(diagnostics_view(diagnostics@) =~= diagnostics_view(old(diagnostics)@)
                + api_diagnostics(next, words(forbidden@), dom));
        }
        i = i + 1;
    }
    assert(specs.take(i as int) =~= specs);
}

impl ReactServerComponents {
    /// Reports, for each import in order, a forbidden source at the declaration's span, and
    /// each forbidden name imported from `react` or `react-dom` at the binding's span.
    pub fn assert_server_graph(&self, imports: &Vec<ModuleImports>, diagnostics: &mut Vec<
        Diagnostic,
    >)
        requires
            self.wf(),
        ensures
            diagnostics_view(final(diagnostics)@) == diagnostics_view(old(diagnostics)@)
                + server_graph_diagnostics(imports_view(imports@)),
    {
        let ghost rs = imports_view(imports@);
        let mut i: usize = 0;
        while i < imports.len()
            invariant
                self.wf(),
                i <= imports@.len(),
                rs == imports_view(imports@),
                diagnostics_view(diagnostics@) == diagnostics_view(old(diagnostics)@)
                    + server_graph_diagnostics(rs.take(i as int)),
            decreases imports@.len() - i,
        {
            let ghost start = diagnostics_view(diagnostics@);
            let import = &imports[i];
            let source = import.source.0.clone();
            if contains_word(&self.invalid_server_imports, &source) {
                let d = diagnostic(
                    import.source.1,
                    DiagnosticKind::BoundaryViolation,
                    "Disallowed import of `",
                    &source,
                    "` in the Server Components compilation.",
                );
                emit(diagnostics, d);
            }
            let ghost after_source = diagnostics_view(diagnostics@);
            assert(after_source =~= start + source_diagnostics(
                rs[i as int],
                server_forbidden_sources(),
                true,
            ));
            let react = String::from_str("react");
            if source == react {
                assert_apis(&import.specifiers, &self.invalid_server_react_apis, false, diagnostics);
            }
            let ghost after_react = diagnostics_view(diagnostics@);
            assert(after_react =~= after_source + (if rs[i as int].source == "react"@ {
                api_diagnostics(rs[i as int].specifiers, forbidden_react_apis(), false)
            } else {
                Seq::empty()
            }));
            let react_dom = String::from_str("react-dom");
            if source == react_dom {
                assert_apis(
                    &import.specifiers,
                    &self.invalid_server_react_dom_apis,
                    true,
                    diagnostics,
                );
            }
            proof {
                assert(diagnostics_view(diagnostics@) =~= after_react + (if rs[i as int].source
                    == "react-dom"@ {
                    api_diagnostics(rs[i as int].specifiers, forbidden_react_dom_apis(), true)
                } else {
                    Seq::empty()
                }));
                let next = rs.take(i as int + 1);
                assert(next.drop_last() =~= rs.take(i as int));
                assert(next.last() == rs[i as int]);
                assert(diagnostics_view(diagnostics@) =~= diagnostics_view(old(diagnostics)@)
                    + server_graph_diagnostics(next));
            }
            i = i + 1;
        }
        assert(rs.take(i as int) =~= rs);
    }

    /// Reports, for each import in order, a forbidden source at the declaration's span.
    pub fn assert_client_graph(&self, imports: &Vec<ModuleImports>, diagnostics: &mut Vec<
        Diagnostic,
    >)
        requires
            self.wf(),
        ensures
            diagnostics_view(final(diagnostics)@) == diagnostics_view(old(diagnostics)@)
                + client_graph_diagnostics(imports_view(imports@)),
    {
        let ghost rs = imports_view(imports@);
        let mut i: usize = 0;
        while i < imports.len()
            invariant
                self.wf(),
                i <= imports@.len(),
                rs == imports_view(imports@),
                diagnostics_view(diagnostics@) == diagnostics_view(old(diagnostics)@)
                    + client_graph_diagnostics(rs.take(i as int)),
            decreases imports@.len() - i,
        {
            let ghost start = diagnostics_view(diagnostics@);
            let import = &imports[i];
            let source = import.source.0.clone();
            if contains_word(&self.invalid_client_imports, &source) {
                let d = diagnostic(
                    import.source.1,
                    DiagnosticKind::BoundaryViolation,
                    "Disallowed import of `",
                    &source,
                    "` in the Client Components compilation.",
                );
                emit(diagnostics, d);
            }
            proof {
                let next = rs.take(i as int + 1);
                assert(next.drop_last() =~= rs.take(i as int));
                assert(next.last() == rs[i as int]);
                assert(diagnostics_view(diagnostics@) =~= diagnostics_view(old(diagnostics)@)
                    + client_graph_diagnostics(next));
            }
            i = i + 1;
        }
        assert(rs.take(i as int) =~= rs);
    }
}

} // verus!
