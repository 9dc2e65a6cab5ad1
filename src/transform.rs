use vstd::prelude::*;
use vstd::string::*;

use crate::ast::{Comments, Module, ModuleItem, ModuleView};
use crate::collect::{import_records, leading_directives};
use crate::config::{config_is_server, Config};
use crate::rewrite::{client_entry_comment, proxy_stub};
use crate::validate::{
    client_graph_diagnostics, diagnostics_view, server_graph_diagnostics, Diagnostic,
    DiagnosticView,
};

verus! {

/// The text of each string, in order.
pub open spec fn words(v: Seq<String>) -> Seq<Seq<char>> {
    v.map_values(|s: String| s@)
}

/// Sources that a module of the server compilation may not import.
pub open spec fn server_forbidden_sources() -> Seq<Seq<char>> {
    seq!["client-only"@, "react-dom/client"@, "react-dom/server"@]
}

/// Sources that a module of the client compilation may not import.
pub open spec fn client_forbidden_sources() -> Seq<Seq<char>> {
    seq!["server-only"@]
}

/// Names that a module of the server compilation may not import from `react`.
pub open spec fn forbidden_react_apis() -> Seq<Seq<char>> {
    seq![
        "Component"@,
        "createContext"@,
        "createFactory"@,
        "PureComponent"@,
        "useDeferredValue"@,
        "useEffect"@,
        "useImperativeHandle"@,
        "useInsertionEffect"@,
        "useLayoutEffect"@,
        "useReducer"@,
        "useRef"@,
        "useState"@,
        "useSyncExternalStore"@,
        "useTransition"@,
    ]
}

/// Names that a module of the server compilation may not import from `react-dom`.
pub open spec fn forbidden_react_dom_apis() -> Seq<Seq<char>> {
    seq!["findDOMNode"@, "flushSync"@, "unstable_batchedUpdates"@]
}

/// The pass over one module: its mode, the module's path, the comment table that it
/// attaches to, and its denylists.
#[derive(Debug)]
pub struct ReactServerComponents {
    pub is_server: bool,
    pub filepath: String,
    pub comments: Comments,
    pub invalid_server_imports: Vec<String>,
    pub invalid_client_imports: Vec<String>,
    pub invalid_server_react_apis: Vec<String>,
    pub invalid_server_react_dom_apis: Vec<String>,
}

impl ReactServerComponents {
    /// The denylists hold exactly the forbidden sources and names.
    pub open spec fn wf(&self) -> bool {
        &&& words(self.invalid_server_imports@) == server_forbidden_sources()
        &&& words(self.invalid_client_imports@) == client_forbidden_sources()
        &&& words(self.invalid_server_react_apis@) == forbidden_react_apis()
        &&& words(self.invalid_server_react_dom_apis@) == forbidden_react_dom_apis()
    }
}

/// Two passes that differ at most in their comment table.
pub open spec fn same_settings(a: ReactServerComponents, b: ReactServerComponents) -> bool {
    &&& a.is_server == b.is_server
    &&& a.filepath@ == b.filepath@
    &&& a.invalid_server_imports@ == b.invalid_server_imports@
    &&& a.invalid_client_imports@ == b.invalid_client_imports@
    &&& a.invalid_server_react_apis@ == b.invalid_server_react_apis@
    &&& a.invalid_server_react_dom_apis@ == b.invalid_server_react_dom_apis@
}

/// Appends a string with the text of `s`.
fn push_word(v: &mut Vec<String>, s: &str)
    ensures
        words(final(v)@) == words(old(v)@).push(s@),
{
    v.push(String::from_str(s));
    assert(words(v@) =~= words(old(v)@).push(s@));
}

/// Sets up the pass for the module at `filename` under `config`, attaching comments to
/// `comments`.
pub fn server_components(filename: String, config: Config, comments: Comments) -> (r:
    ReactServerComponents)
    ensures
        r.wf(),
        r.is_server == config_is_server(config),
        r.filepath@ == filename@,
        r.comments@ == comments@,
{
    let is_server: bool = match config {
        Config::WithOptions(x) => x.is_server,
        _ => true,
    };
    let mut invalid_server_imports: Vec<String> = Vec::new();
    push_word(&mut invalid_server_imports, "client-only");
    push_word(&mut invalid_server_imports, "react-dom/client");
    push_word(&mut invalid_server_imports, "react-dom/server");
    let mut invalid_client_imports: Vec<String> = Vec::new();
    push_word(&mut invalid_client_imports, "server-only");
    let mut invalid_server_react_dom_apis: Vec<String> = Vec::new();
    push_word(&mut invalid_server_react_dom_apis, "findDOMNode");
    push_word(&mut invalid_server_react_dom_apis, "flushSync");
    push_word(&mut invalid_server_react_dom_apis, "unstable_batchedUpdates");
    let mut invalid_server_react_apis: Vec<String> = Vec::new();
    push_word(&mut invalid_server_react_apis, "Component");
    push_word(&mut invalid_server_react_apis, "createContext");
    push_word(&mut invalid_server_react_apis, "createFactory");
    push_word(&mut invalid_server_react_apis, "PureComponent");
    push_word(&mut invalid_server_react_apis, "useDeferredValue");
    push_word(&mut invalid_server_react_apis, "useEffect");
    push_word(&mut invalid_server_react_apis, "useImperativeHandle");
    push_word(&mut invalid_server_react_apis, "useInsertionEffect");
    push_word(&mut invalid_server_react_apis, "useLayoutEffect");
    push_word(&mut invalid_server_react_apis, "useReducer");
    push_word(&mut invalid_server_react_apis, "useRef");
    push_word(&mut invalid_server_react_apis, "useState");
    push_word(&mut invalid_server_react_apis, "useSyncExternalStore");
    push_word(&mut invalid_server_react_apis, "useTransition");
    let r = ReactServerComponents {
        is_server,
        filepath: filename,
        comments,
        invalid_server_imports,
        invalid_client_imports,
        invalid_server_react_apis,
        invalid_server_react_dom_apis,
    };
    assert(words(r.invalid_server_imports@) =~= server_forbidden_sources());
    assert(words(r.invalid_client_imports@) =~= client_forbidden_sources());
    assert(words(r.invalid_server_react_apis@) =~= forbidden_react_apis());
    assert(words(r.invalid_server_react_dom_apis@) =~= forbidden_react_dom_apis());
    r
}

/// Whether the pass turns a module with these items into a reference to it: in the
/// server compilation, when the module is a client boundary.
pub open spec fn rewrites(is_server: bool, items: Seq<ModuleItem>) -> bool {
    is_server && leading_directives(items) > 0
}

/// The module with its body replaced by the proxy stub for `filepath`.
pub open spec fn rewritten(m: ModuleView, filepath: Seq<char>) -> ModuleView {
    ModuleView { span: m.span, body: proxy_stub(filepath) }
}

/// What the validator of the given compilation reports of a module with these items.
pub open spec fn graph_diagnostics(is_server: bool, items: Seq<ModuleItem>) -> Seq<
    DiagnosticView,
> {
    let rs = import_records(items.map_values(|i: ModuleItem| i@));
    if is_server {
        server_graph_diagnostics(rs)
    } else {
        client_graph_diagnostics(rs)
    }
}

impl ReactServerComponents {
    /// Runs the pass on one module. A client-boundary module of the server compilation is
    /// rewritten to the proxy stub, nothing is reported, and `false` says that its nested
    /// scopes are not to be visited. Any other module loses its leading `"client";`
    /// statements, its imports are checked under the pass's mode, and `true` says that the
    /// traversal goes on into its nested scopes.
    pub fn visit_mut_module(&mut self, module: &mut Module, diagnostics: &mut Vec<Diagnostic>) -> (r:
        bool)
        requires
            old(self).wf(),
        ensures
            final(self).wf(),
            same_settings(*final(self), *old(self)),
            r == !rewrites(old(self).is_server, old(module).body@),
            rewrites(old(self).is_server, old(module).body@) ==> {
                &&& final(module)@ == rewritten(old(module)@, old(self).filepath@)
                &&& final(self).comments@ == old(self).comments@.push(
                    (old(module).span.lo, client_entry_comment()),
                )
                &&& final(diagnostics)@ == old(diagnostics)@
            },
            !rewrites(old(self).is_server, old(module).body@) ==> {
                &&& final(module).span == old(module).span
                &&& final(module).body@ == old(module).body@.skip(
                    leading_directives(old(module).body@) as int,
                )
                &&& final(self).comments@ == old(self).comments@
                &&& diagnostics_view(final(diagnostics)@) == diagnostics_view(old(diagnostics)@)
                    + graph_diagnostics(old(self).is_server, old(module).body@)
            },
    {
        let ghost items = module.body@;
        let (is_client_entry, imports) = self.collect_top_level_directives_and_imports(module);
        if self.is_server {
            if !is_client_entry {
                self.assert_server_graph(&imports, diagnostics);
            } else {
                let ghost m = *module;
                self.to_module_ref(module);
                assert(module@ == rewritten(m@, self.filepath@));
                return false;
            }
        } else {
            self.assert_client_graph(&imports, diagnostics);
        }
        true
    }
}

} // verus!
