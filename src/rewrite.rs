use vstd::prelude::*;
use vstd::string::*;

use crate::ast::{
    dummy_span, spec_dummy_span, AssignExpr, AssignView, CallExpr, CallView, Comment, CommentKind,
    CommentView, Expr, ExprStmt, ExprView, Ident, ItemView, MemberExpr, MemberView, Module,
    ModuleItem, ModuleView, Stmt, StmtView, Str, VarDecl, Word,
};
use crate::transform::{same_settings, ReactServerComponents};

verus! {

/// A word of a synthetic node.
pub open spec fn synthetic(text: Seq<char>) -> Word {
    Word { text, span: spec_dummy_span() }
}

/// A call of a synthetic node: `callee("arg")`.
pub open spec fn synthetic_call(callee: Seq<char>, arg: Seq<char>) -> CallView {
    CallView { span: spec_dummy_span(), callee: synthetic(callee), arg: synthetic(arg) }
}

/// The body that stands for a client-boundary module in the server compilation:
/// `const { createProxy } = require("private-next-rsc-mod-ref-proxy");` and
/// `module.exports = createProxy("<filepath>");`.
pub open spec fn proxy_stub(filepath: Seq<char>) -> Seq<ItemView> {
    seq![
        ItemView::Stmt(
            StmtView::Decl {
                span: spec_dummy_span(),
                key: synthetic("createProxy"@),
                init: synthetic_call("require"@, "private-next-rsc-mod-ref-proxy"@),
            },
        ),
        ItemView::Stmt(
            StmtView::Expr {
                span: spec_dummy_span(),
                expr: ExprView::Assign(
                    AssignView {
                        span: spec_dummy_span(),
                        left: MemberView {
                            span: spec_dummy_span(),
                            obj: synthetic("module"@),
                            prop: synthetic("exports"@),
                        },
                        right: synthetic_call("createProxy"@, filepath),
                    },
                ),
            },
        ),
    ]
}

/// The comment that marks a generated client-reference module.
pub open spec fn client_entry_comment() -> CommentView {
    CommentView {
        span: spec_dummy_span(),
        kind: CommentKind::Block,
        text: " __next_internal_client_entry_do_not_use__ "@,
    }
}

/// An identifier of a synthetic node.
fn quote_ident(s: &str) -> (r: Ident)
    ensures
        r@ == synthetic(s@),
{
    Ident { sym: String::from_str(s), span: dummy_span() }
}

/// A string literal of a synthetic node.
fn quote_str(s: &str) -> (r: Str)
    ensures
        r@ == synthetic(s@),
{
    Str { value: String::from_str(s), span: dummy_span() }
}

impl ReactServerComponents {
    /// Replaces the module's body by the proxy stub for this pass's file path, and attaches
    /// the marker comment before the module's start.
    pub fn to_module_ref(&mut self, module: &mut Module)
        ensures
            final(module)@ == (ModuleView {
                span: old(module).span,
                body: proxy_stub(old(self).filepath@),
            }),
            final(self).comments@ == old(self).comments@.push(
                (old(module).span.lo, client_entry_comment()),
            ),
            same_settings(*final(self), *old(self)),
    {
        module.body.clear();
        let filepath = Str { value: self.filepath.clone(), span: dummy_span() };
        let binding = ModuleItem::Stmt(
            Stmt::Decl(
                VarDecl {
                    span: dummy_span(),
                    key: quote_ident("createProxy"),
                    init: CallExpr {
                        span: dummy_span(),
                        callee: quote_ident("require"),
                        arg: quote_str("private-next-rsc-mod-ref-proxy"),
                    },
                },
            ),
        );
        let export = ModuleItem::Stmt(
            Stmt::Expr(
                ExprStmt {
                    span: dummy_span(),
                    expr: Expr::Assign(
                        AssignExpr {
                            span: dummy_span(),
                            left: MemberExpr {
                                span: dummy_span(),
                                obj: quote_ident("module"),
                                prop: quote_ident("exports"),
                            },
                            right: CallExpr {
                                span: dummy_span(),
                                callee: quote_ident("createProxy"),
                                arg: filepath,
                            },
                        },
                    ),
                },
            ),
        );
        module.body.push(binding);
        module.body.push(export);
        assert(module@.body =~= proxy_stub(self.filepath@));
        let text = String::from_str(" __next_internal_client_entry_do_not_use__ ");
        self.comments.add_leading(
            module.span.lo,
            Comment { span: dummy_span(), kind: CommentKind::Block, text },
        );
    }
}

} // verus!
