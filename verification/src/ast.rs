//! The syntax tree the pass works on.
//!
//! The tree keeps what the pass reads and writes: declarations, the shapes of
//! the compiled enum idiom, and the expression grammar of enum initializers.
//! Whatever else a host tree holds is an `Other` node. An expression carries
//! the host's handle for the node it was read from, so that the host can put
//! back, untouched, what the pass only moved; a node the pass builds has none.
//!
//! Every type has a mathematical view (`Seq` for `Vec`, `Seq<char>` for
//! `String`), and a `duplicate` that is proved to keep the view.

use crate::number::Number;
use vstd::prelude::*;

verus! {

#[derive(Clone, Copy, Debug, PartialEq, Eq)]
pub enum UnaryOp {
    Minus,
    Plus,
    Bang,
    Tilde,
    Other,
}

#[derive(Clone, Copy, Debug, PartialEq, Eq)]
pub enum BinaryOp {
    Add,
    Sub,
    Mul,
    Div,
    BitAnd,
    BitOr,
    BitXor,
    LShift,
    RShift,
    ZeroFillRShift,
    LogicalOr,
    Other,
}

#[derive(Clone, Copy, Debug, PartialEq, Eq)]
pub enum AssignOp {
    Assign,
    Other,
}

#[derive(Clone, Copy, Debug, PartialEq, Eq)]
pub enum VarDeclKind {
    Var,
    Let,
    Const,
}

/// A binding or reference name, with the host's handle for it.
#[derive(Debug, PartialEq, Eq)]
pub struct Ident {
    pub handle: Option<u64>,
    pub sym: String,
}

pub struct IdentView {
    pub handle: Option<u64>,
    pub sym: Seq<char>,
}

#[derive(Debug, PartialEq, Eq)]
pub enum Lit {
    Str(String),
    Num(Number),
    Bool(bool),
    BigInt(String),
    Other,
}

pub enum LitView {
    Str(Seq<char>),
    Num(Number),
    Bool(bool),
    BigInt(Seq<char>),
    Other,
}

#[derive(Debug, PartialEq, Eq)]
pub enum MemberProp {
    Name(String),
    Computed(Box<Expr>),
}

pub enum MemberPropView {
    Name(Seq<char>),
    Computed(Box<ExprView>),
}

#[derive(Debug, PartialEq, Eq)]
pub enum AssignTarget {
    Simple(Box<Expr>),
    Pat,
}

pub enum AssignTargetView {
    Simple(Box<ExprView>),
    Pat,
}

#[derive(Debug, PartialEq, Eq)]
pub enum Prop {
    KeyValue(String, Expr),
    Other,
}

pub enum PropView {
    KeyValue(Seq<char>, ExprView),
    Other,
}

#[derive(Debug, PartialEq, Eq)]
pub enum Pat {
    Ident(Ident),
    Other,
}

pub enum PatView {
    Ident(IdentView),
    Other,
}

#[derive(Debug, PartialEq, Eq)]
pub struct FnExpr {
    pub name: Option<String>,
    pub params: Vec<Pat>,
    pub body: Option<Vec<Stmt>>,
}

pub struct FnExprView {
    pub name: Option<Seq<char>>,
    pub params: Seq<PatView>,
    pub body: Option<Seq<StmtView>>,
}

#[derive(Debug, PartialEq, Eq)]
pub enum ExprKind {
    Ident(String),
    Lit(Lit),
    Paren(Box<Expr>),
    Unary(UnaryOp, Box<Expr>),
    Bin(BinaryOp, Box<Expr>, Box<Expr>),
    /// A template literal: the cooked text of each segment, and the
    /// interpolated expressions between them.
    Tpl(Vec<Option<String>>, Vec<Expr>),
    Member(Box<Expr>, MemberProp),
    Assign(AssignOp, AssignTarget, Box<Expr>),
    Call(Box<Expr>, Vec<Expr>),
    Fn(FnExpr),
    Object(Vec<Prop>),
    /// Any other expression, with its operand expressions in source order.
    Other(Vec<Expr>),
}

pub enum ExprKindView {
    Ident(Seq<char>),
    Lit(LitView),
    Paren(Box<ExprView>),
    Unary(UnaryOp, Box<ExprView>),
    Bin(BinaryOp, Box<ExprView>, Box<ExprView>),
    Tpl(Seq<Option<Seq<char>>>, Seq<ExprView>),
    Member(Box<ExprView>, MemberPropView),
    Assign(AssignOp, AssignTargetView, Box<ExprView>),
    Call(Box<ExprView>, Seq<ExprView>),
    Fn(FnExprView),
    Object(Seq<PropView>),
    Other(Seq<ExprView>),
}

#[derive(Debug, PartialEq, Eq)]
pub struct Expr {
    pub handle: Option<u64>,
    pub kind: ExprKind,
}

pub struct ExprView {
    pub handle: Option<u64>,
    pub kind: ExprKindView,
}

#[derive(Debug, PartialEq, Eq)]
pub struct VarDeclarator {
    pub name: Pat,
    pub init: Option<Expr>,
}

pub struct VarDeclaratorView {
    pub name: PatView,
    pub init: Option<ExprView>,
}

#[derive(Debug, PartialEq, Eq)]
pub struct VarDecl {
    pub kind: VarDeclKind,
    pub decls: Vec<VarDeclarator>,
}

pub struct VarDeclView {
    pub kind: VarDeclKind,
    pub decls: Seq<VarDeclaratorView>,
}

#[derive(Debug, PartialEq, Eq)]
pub struct EnumMember {
    pub name: String,
    pub init: Option<Expr>,
}

pub struct EnumMemberView {
    pub name: Seq<char>,
    pub init: Option<ExprView>,
}

#[derive(Debug, PartialEq, Eq)]
pub struct EnumDecl {
    pub id: Ident,
    pub is_const: bool,
    pub members: Vec<EnumMember>,
}

pub struct EnumDeclView {
    pub id: IdentView,
    pub is_const: bool,
    pub members: Seq<EnumMemberView>,
}

#[derive(Debug, PartialEq, Eq)]
pub enum Decl {
    Var(VarDecl),
    TsEnum(EnumDecl),
    Other,
}

pub enum DeclView {
    Var(VarDeclView),
    TsEnum(EnumDeclView),
    Other,
}

#[derive(Debug, PartialEq, Eq)]
pub enum Stmt {
    Decl(Decl),
    Expr(Expr),
    Other,
}

pub enum StmtView {
    Decl(DeclView),
    Expr(ExprView),
    Other,
}

#[derive(Debug, PartialEq, Eq)]
pub enum ModuleItem {
    Stmt(Stmt),
    ExportDecl(Decl),
    Other,
}

pub enum ModuleItemView {
    Stmt(StmtView),
    ExportDecl(DeclView),
    Other,
}

#[derive(Debug, PartialEq, Eq)]
pub enum Program {
    Module(Vec<ModuleItem>),
    Script(Vec<Stmt>),
}

pub enum ProgramView {
    Module(Seq<ModuleItemView>),
    Script(Seq<StmtView>),
}

pub open spec fn text_view(s: Option<String>) -> Option<Seq<char>> {
    match s {
        Some(t) => Some(t@),
        None => None,
    }
}

impl View for Ident {
    type V = IdentView;

    open spec fn view(&self) -> IdentView {
        IdentView { handle: self.handle, sym: self.sym@ }
    }
}

impl View for Lit {
    type V = LitView;

    open spec fn view(&self) -> LitView {
        match self {
            Lit::Str(s) => LitView::Str(s@),
            Lit::Num(n) => LitView::Num(*n),
            Lit::Bool(b) => LitView::Bool(*b),
            Lit::BigInt(s) => LitView::BigInt(s@),
            Lit::Other => LitView::Other,
        }
    }
}

impl View for Pat {
    type V = PatView;

    open spec fn view(&self) -> PatView {
        match self {
            Pat::Ident(id) => PatView::Ident(id@),
            Pat::Other => PatView::Other,
        }
    }
}

impl MemberProp {
    pub open spec fn model(self) -> MemberPropView
        decreases self,
    {
        match self {
            MemberProp::Name(s) => MemberPropView::Name(s@),
            MemberProp::Computed(e) => MemberPropView::Computed(Box::new(e.model())),
        }
    }
}

impl AssignTarget {
    pub open spec fn model(self) -> AssignTargetView
        decreases self,
    {
        match self {
            AssignTarget::Simple(e) => AssignTargetView::Simple(Box::new(e.model())),
            AssignTarget::Pat => AssignTargetView::Pat,
        }
    }
}

impl Prop {
    /// The views of a list, element by element.
    pub open spec fn list_model(list: Vec<Prop>) -> Seq<PropView>
        decreases list,
    {
        Seq::new(
            list.len() as nat,
            |i: int|
                if 0 <= i < list.len() {
                    list[i].model()
                } else {
                    arbitrary()
                },
        )
    }

    pub open spec fn model(self) -> PropView
        decreases self,
    {
        match self {
            Prop::KeyValue(k, v) => PropView::KeyValue(k@, v.model()),
            Prop::Other => PropView::Other,
        }
    }
}

impl FnExpr {
    pub open spec fn model(self) -> FnExprView
        decreases self,
    {
        FnExprView {
            name: text_view(self.name),
            params: self.params@.map_values(|p: Pat| p@),
            body: match self.body {
                Some(b) => Some(Stmt::list_model(b)),
                None => None,
            },
        }
    }
}

impl ExprKind {
    pub open spec fn model(self) -> ExprKindView
        decreases self,
    {
        match self {
            ExprKind::Ident(s) => ExprKindView::Ident(s@),
            ExprKind::Lit(l) => ExprKindView::Lit(l@),
            ExprKind::Paren(e) => ExprKindView::Paren(Box::new(e.model())),
            ExprKind::Unary(op, e) => ExprKindView::Unary(op, Box::new(e.model())),
            ExprKind::Bin(op, l, r) => ExprKindView::Bin(
                op,
                Box::new(l.model()),
                Box::new(r.model()),
            ),
            ExprKind::Tpl(q, es) => ExprKindView::Tpl(
                q@.map_values(|s: Option<String>| text_view(s)),
                Expr::list_model(es),
            ),
            ExprKind::Member(o, p) => ExprKindView::Member(Box::new(o.model()), p.model()),
            ExprKind::Assign(op, t, v) => ExprKindView::Assign(
                op,
                t.model(),
                Box::new(v.model()),
            ),
            ExprKind::Call(c, args) => ExprKindView::Call(
                Box::new(c.model()),
                Expr::list_model(args),
            ),
            ExprKind::Fn(f) => ExprKindView::Fn(f.model()),
            ExprKind::Object(ps) => ExprKindView::Object(
                Prop::list_model(ps),
            ),
            ExprKind::Other(es) => ExprKindView::Other(
                Expr::list_model(es),
            ),
        }
    }
}

impl Expr {
    /// The views of a list, element by element.
    pub open spec fn list_model(list: Vec<Expr>) -> Seq<ExprView>
        decreases list,
    {
        Seq::new(
            list.len() as nat,
            |i: int|
                if 0 <= i < list.len() {
                    list[i].model()
                } else {
                    arbitrary()
                },
        )
    }

    pub open spec fn model(self) -> ExprView
        decreases self,
    {
        ExprView { handle: self.handle, kind: self.kind.model() }
    }
}

impl VarDeclarator {
    /// The views of a list, element by element.
    pub open spec fn list_model(list: Vec<VarDeclarator>) -> Seq<VarDeclaratorView>
        decreases list,
    {
        Seq::new(
            list.len() as nat,
            |i: int|
                if 0 <= i < list.len() {
                    list[i].model()
                } else {
                    arbitrary()
                },
        )
    }

    pub open spec fn model(self) -> VarDeclaratorView
        decreases self,
    {
        VarDeclaratorView {
            name: self.name@,
            init: match self.init {
                Some(e) => Some(e.model()),
                None => None,
            },
        }
    }
}

impl VarDecl {
    pub open spec fn model(self) -> VarDeclView
        decreases self,
    {
        VarDeclView {
            kind: self.kind,
            decls: VarDeclarator::list_model(self.decls),
        }
    }
}

impl EnumMember {
    /// The views of a list, element by element.
    pub open spec fn list_model(list: Vec<EnumMember>) -> Seq<EnumMemberView>
        decreases list,
    {
        Seq::new(
            list.len() as nat,
            |i: int|
                if 0 <= i < list.len() {
                    list[i].model()
                } else {
                    arbitrary()
                },
        )
    }

    pub open spec fn model(self) -> EnumMemberView
        decreases self,
    {
        EnumMemberView {
            name: self.name@,
            init: match self.init {
                Some(e) => Some(e.model()),
                None => None,
            },
        }
    }
}

impl EnumDecl {
    pub open spec fn model(self) -> EnumDeclView
        decreases self,
    {
        EnumDeclView {
            id: self.id@,
            is_const: self.is_const,
            members: EnumMember::list_model(self.members),
        }
    }
}

impl Decl {
    pub open spec fn model(self) -> DeclView
        decreases self,
    {
        match self {
            Decl::Var(v) => DeclView::Var(v.model()),
            Decl::TsEnum(e) => DeclView::TsEnum(e.model()),
            Decl::Other => DeclView::Other,
        }
    }
}

impl Stmt {
    /// The views of a list, element by element.
    pub open spec fn list_model(list: Vec<Stmt>) -> Seq<StmtView>
        decreases list,
    {
        Seq::new(
            list.len() as nat,
            |i: int|
                if 0 <= i < list.len() {
                    list[i].model()
                } else {
                    arbitrary()
                },
        )
    }

    pub open spec fn model(self) -> StmtView
        decreases self,
    {
        match self {
            Stmt::Decl(d) => StmtView::Decl(d.model()),
            Stmt::Expr(e) => StmtView::Expr(e.model()),
            Stmt::Other => StmtView::Other,
        }
    }
}

impl View for MemberProp {
    type V = MemberPropView;

    open spec fn view(&self) -> MemberPropView {
        self.model()
    }
}

impl View for AssignTarget {
    type V = AssignTargetView;

    open spec fn view(&self) -> AssignTargetView {
        self.model()
    }
}

impl View for Prop {
    type V = PropView;

    open spec fn view(&self) -> PropView {
        self.model()
    }
}

impl View for FnExpr {
    type V = FnExprView;

    open spec fn view(&self) -> FnExprView {
        self.model()
    }
}

impl View for ExprKind {
    type V = ExprKindView;

    open spec fn view(&self) -> ExprKindView {
        self.model()
    }
}

impl View for Expr {
    type V = ExprView;

    open spec fn view(&self) -> ExprView {
        self.model()
    }
}

impl View for VarDeclarator {
    type V = VarDeclaratorView;

    open spec fn view(&self) -> VarDeclaratorView {
        self.model()
    }
}

impl View for VarDecl {
    type V = VarDeclView;

    open spec fn view(&self) -> VarDeclView {
        self.model()
    }
}

impl View for EnumMember {
    type V = EnumMemberView;

    open spec fn view(&self) -> EnumMemberView {
        self.model()
    }
}

impl View for EnumDecl {
    type V = EnumDeclView;

    open spec fn view(&self) -> EnumDeclView {
        self.model()
    }
}

impl View for Decl {
    type V = DeclView;

    open spec fn view(&self) -> DeclView {
        self.model()
    }
}

impl View for Stmt {
    type V = StmtView;

    open spec fn view(&self) -> StmtView {
        self.model()
    }
}

impl View for ModuleItem {
    type V = ModuleItemView;

    open spec fn view(&self) -> ModuleItemView {
        match self {
            ModuleItem::Stmt(s) => ModuleItemView::Stmt(s@),
            ModuleItem::ExportDecl(d) => ModuleItemView::ExportDecl(d@),
            ModuleItem::Other => ModuleItemView::Other,
        }
    }
}

impl View for Program {
    type V = ProgramView;

    open spec fn view(&self) -> ProgramView {
        match self {
            Program::Module(items) => ProgramView::Module(items_view(*items)),
            Program::Script(stmts) => ProgramView::Script(Stmt::list_model(*stmts)),
        }
    }
}

/// The views of a list of module items, element by element.
pub open spec fn items_view(items: Vec<ModuleItem>) -> Seq<ModuleItemView> {
    Seq::new(items.len() as nat, |i: int| items[i]@)
}

} // verus!
