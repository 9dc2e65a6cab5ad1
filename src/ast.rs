use vstd::prelude::*;

verus! {

/// A byte range of the source text; `lo == hi == 0` marks a synthetic node.
#[derive(Clone, Copy, Debug, PartialEq, Eq, Structural)]
pub struct Span {
    pub lo: u32,
    pub hi: u32,
}

pub open spec fn spec_dummy_span() -> Span {
    Span { lo: 0, hi: 0 }
}

/// The span given to nodes that the pass creates.
pub fn dummy_span() -> (r: Span)
    ensures
        r == spec_dummy_span(),
{
    Span { lo: 0, hi: 0 }
}

/// A word of the source with its place: an identifier's name or a string literal's value.
pub ghost struct Word {
    pub text: Seq<char>,
    pub span: Span,
}

/// An identifier.
#[derive(Debug)]
pub struct Ident {
    pub sym: String,
    pub span: Span,
}

impl View for Ident {
    type V = Word;

    open spec fn view(&self) -> Word {
        Word { text: self.sym@, span: self.span }
    }
}

/// A string literal.
#[derive(Debug)]
pub struct Str {
    pub value: String,
    pub span: Span,
}

impl View for Str {
    type V = Word;

    open spec fn view(&self) -> Word {
        Word { text: self.value@, span: self.span }
    }
}

/// A call of a named function with one string-literal argument: `callee("arg")`.
#[derive(Debug)]
pub struct CallExpr {
    pub span: Span,
    pub callee: Ident,
    pub arg: Str,
}

pub ghost struct CallView {
    pub span: Span,
    pub callee: Word,
    pub arg: Word,
}

impl View for CallExpr {
    type V = CallView;

    open spec fn view(&self) -> CallView {
        CallView { span: self.span, callee: self.callee@, arg: self.arg@ }
    }
}

/// A property of a named object: `obj.prop`.
#[derive(Debug)]
pub struct MemberExpr {
    pub span: Span,
    pub obj: Ident,
    pub prop: Ident,
}

pub ghost struct MemberView {
    pub span: Span,
    pub obj: Word,
    pub prop: Word,
}

impl View for MemberExpr {
    type V = MemberView;

    open spec fn view(&self) -> MemberView {
        MemberView { span: self.span, obj: self.obj@, prop: self.prop@ }
    }
}

/// An assignment of a call's result to a property: `obj.prop = callee("arg")`.
#[derive(Debug)]
pub struct AssignExpr {
    pub span: Span,
    pub left: MemberExpr,
    pub right: CallExpr,
}

pub ghost struct AssignView {
    pub span: Span,
    pub left: MemberView,
    pub right: CallView,
}

impl View for AssignExpr {
    type V = AssignView;

    open spec fn view(&self) -> AssignView {
        AssignView { span: self.span, left: self.left@, right: self.right@ }
    }
}

/// An expression, as far as this pass reads or writes it.
#[derive(Debug)]
pub enum Expr {
    Lit(Str),
    Call(CallExpr),
    Assign(AssignExpr),
    /// Any other expression, which the pass carries through untouched.
    Other(Span),
}

pub ghost enum ExprView {
    Lit(Word),
    Call(CallView),
    Assign(AssignView),
    Other(Span),
}

impl View for Expr {
    type V = ExprView;

    open spec fn view(&self) -> ExprView {
        match self {
            Expr::Lit(s) => ExprView::Lit(s@),
            Expr::Call(c) => ExprView::Call(c@),
            Expr::Assign(a) => ExprView::Assign(a@),
            Expr::Other(sp) => ExprView::Other(*sp),
        }
    }
}

/// An expression statement.
#[derive(Debug)]
pub struct ExprStmt {
    pub span: Span,
    pub expr: Expr,
}

/// A `const` declaration that destructures one key out of a call's result:
/// `const { key } = init;`.
#[derive(Debug)]
pub struct VarDecl {
    pub span: Span,
    pub key: Ident,
    pub init: CallExpr,
}

/// A statement.
#[derive(Debug)]
pub enum Stmt {
    Expr(ExprStmt),
    Decl(VarDecl),
    /// Any other statement or declaration, carried through untouched.
    Other(Span),
}

pub ghost enum StmtView {
    Expr { span: Span, expr: ExprView },
    Decl { span: Span, key: Word, init: CallView },
    Other(Span),
}

impl View for Stmt {
    type V = StmtView;

    open spec fn view(&self) -> StmtView {
        match self {
            Stmt::Expr(e) => StmtView::Expr { span: e.span, expr: e.expr@ },
            Stmt::Decl(d) => StmtView::Decl { span: d.span, key: d.key@, init: d.init@ },
            Stmt::Other(sp) => StmtView::Other(*sp),
        }
    }
}

/// The name under which a binding is exported by the imported module.
#[derive(Debug)]
pub enum ModuleExportName {
    Ident(Ident),
    Str(Str),
}

pub ghost enum ExportNameView {
    Ident(Word),
    Str(Word),
}

impl View for ModuleExportName {
    type V = ExportNameView;

    open spec fn view(&self) -> ExportNameView {
        match self {
            ModuleExportName::Ident(i) => ExportNameView::Ident(i@),
            ModuleExportName::Str(s) => ExportNameView::Str(s@),
        }
    }
}

/// One binding of an import declaration.
#[derive(Debug)]
pub enum ImportSpecifier {
    /// `{ local }` or `{ imported as local }`.
    Named { span: Span, local: Ident, imported: Option<ModuleExportName> },
    /// `import local from ...`.
    Default { span: Span, local: Ident },
    /// `import * as local from ...`.
    Namespace { span: Span, local: Ident },
}

pub ghost enum SpecifierView {
    Named { span: Span, local: Word, imported: Option<ExportNameView> },
    Default { span: Span, local: Word },
    Namespace { span: Span, local: Word },
}

impl View for ImportSpecifier {
    type V = SpecifierView;

    open spec fn view(&self) -> SpecifierView {
        match self {
            ImportSpecifier::Named { span, local, imported } => SpecifierView::Named {
                span: *span,
                local: local@,
                imported: match imported {
                    Some(n) => Some(n@),
                    None => None,
                },
            },
            ImportSpecifier::Default { span, local } => SpecifierView::Default {
                span: *span,
                local: local@,
            },
            ImportSpecifier::Namespace { span, local } => SpecifierView::Namespace {
                span: *span,
                local: local@,
            },
        }
    }
}

/// An import declaration: `import specifiers from "src";`.
#[derive(Debug)]
pub struct ImportDecl {
    pub span: Span,
    pub specifiers: Vec<ImportSpecifier>,
    pub src: Str,
}

pub ghost struct ImportDeclView {
    pub span: Span,
    pub specifiers: Seq<SpecifierView>,
    pub src: Word,
}

impl View for ImportDecl {
    type V = ImportDeclView;

    open spec fn view(&self) -> ImportDeclView {
        ImportDeclView {
            span: self.span,
            specifiers: self.specifiers@.map_values(|s: ImportSpecifier| s@),
            src: self.src@,
        }
    }
}

/// A top-level item of a module.
#[derive(Debug)]
pub enum ModuleItem {
    Stmt(Stmt),
    Import(ImportDecl),
    /// Any other module declaration (an export, ...), carried through untouched.
    OtherDecl(Span),
}

pub ghost enum ItemView {
    Stmt(StmtView),
    Import(ImportDeclView),
    OtherDecl(Span),
}

impl View for ModuleItem {
    type V = ItemView;

    open spec fn view(&self) -> ItemView {
        match self {
            ModuleItem::Stmt(s) => ItemView::Stmt(s@),
            ModuleItem::Import(d) => ItemView::Import(d@),
            ModuleItem::OtherDecl(sp) => ItemView::OtherDecl(*sp),
        }
    }
}

/// A module: its span and its top-level items in source order.
#[derive(Debug)]
pub struct Module {
    pub span: Span,
    pub body: Vec<ModuleItem>,
}

pub ghost struct ModuleView {
    pub span: Span,
    pub body: Seq<ItemView>,
}

impl View for Module {
    type V = ModuleView;

    open spec fn view(&self) -> ModuleView {
        ModuleView { span: self.span, body: self.body@.map_values(|i: ModuleItem| i@) }
    }
}

/// The kind of a comment.
#[derive(Clone, Copy, Debug, PartialEq, Eq, Structural)]
pub enum CommentKind {
    Line,
    Block,
}

/// A comment attached to a position of the source.
#[derive(Debug)]
pub struct Comment {
    pub span: Span,
    pub kind: CommentKind,
    pub text: String,
}

pub ghost struct CommentView {
    pub span: Span,
    pub kind: CommentKind,
    pub text: Seq<char>,
}

impl View for Comment {
    type V = CommentView;

    open spec fn view(&self) -> CommentView {
        CommentView { span: self.span, kind: self.kind, text: self.text@ }
    }
}

/// The table of comments that lead source positions, in the order in which they were attached.
#[derive(Debug)]
pub struct Comments {
    pub leading: Vec<(u32, Comment)>,
}

impl View for Comments {
    type V = Seq<(u32, CommentView)>;

    open spec fn view(&self) -> Seq<(u32, CommentView)> {
        self.leading@.map_values(|e: (u32, Comment)| (e.0, e.1@))
    }
}

impl Comments {
    /// An empty table.
    pub fn new() -> (r: Comments)
        ensures
            r@ == Seq::<(u32, CommentView)>::empty(),
    {
        Comments { leading: Vec::new() }
    }

    /// Attaches `comment` before the source position `pos`.
    pub fn add_leading(&mut self, pos: u32, comment: Comment)
        ensures
            final(self)@ == old(self)@.push((pos, comment@)),
    {
        self.leading.push((pos, comment));
        assert(self@ =~= old(self)@.push((pos, comment@)));
    }
}

} // verus!
