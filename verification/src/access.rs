//! Reading one level of a tree node: each accessor says, over the views,
//! which variant the node is and what it holds.

use crate::ast::{
    AssignOp, AssignTarget, AssignTargetView, BinaryOp, Decl, DeclView, EnumDecl, Expr, ExprKind,
    ExprKindView, FnExpr, Ident, Lit, MemberProp, MemberPropView, ModuleItem, ModuleItemView,
    Pat, PatView, Prop, Stmt, StmtView, UnaryOp, VarDecl,
};
use vstd::prelude::*;

verus! {

impl Expr {
    pub fn as_ident(&self) -> (r: Option<&String>)
        ensures
            r matches Some(n) ==> self@.kind == ExprKindView::Ident(n@),
            r is None ==> !(self@.kind is Ident),
    {
        match &self.kind {
            ExprKind::Ident(n) => Some(n),
            _ => None,
        }
    }

    pub fn as_lit(&self) -> (r: Option<&Lit>)
        ensures
            r matches Some(l) ==> self@.kind == ExprKindView::Lit(l@),
            r is None ==> !(self@.kind is Lit),
    {
        match &self.kind {
            ExprKind::Lit(l) => Some(l),
            _ => None,
        }
    }

    pub fn as_paren(&self) -> (r: Option<&Expr>)
        ensures
            r matches Some(e) ==> self@.kind == ExprKindView::Paren(Box::new(e@)),
            r matches Some(e) ==> self.kind == ExprKind::Paren(Box::new(*e)),
            r is None ==> !(self@.kind is Paren),
    {
        match &self.kind {
            ExprKind::Paren(e) => Some(&**e),
            _ => None,
        }
    }

    pub fn as_unary(&self) -> (r: Option<(UnaryOp, &Expr)>)
        ensures
            r matches Some((op, e)) ==> self@.kind == ExprKindView::Unary(op, Box::new(e@)),
            r matches Some((op, e)) ==> self.kind == ExprKind::Unary(op, Box::new(*e)),
            r is None ==> !(self@.kind is Unary),
    {
        match &self.kind {
            ExprKind::Unary(op, e) => Some((*op, &**e)),
            _ => None,
        }
    }

    pub fn as_bin(&self) -> (r: Option<(BinaryOp, &Expr, &Expr)>)
        ensures
            r matches Some((op, left, right)) ==> self@.kind == ExprKindView::Bin(
                op,
                Box::new(left@),
                Box::new(right@),
            ),
            r matches Some((op, left, right)) ==> self.kind == ExprKind::Bin(
                op,
                Box::new(*left),
                Box::new(*right),
            ),
            r is None ==> !(self@.kind is Bin),
    {
        match &self.kind {
            ExprKind::Bin(op, left, right) => Some((*op, &**left, &**right)),
            _ => None,
        }
    }

    pub fn as_tpl(&self) -> (r: Option<(&Vec<Option<String>>, &Vec<Expr>)>)
        ensures
            r matches Some((quasis, exprs)) ==> self@.kind == ExprKindView::Tpl(
                quasis@.map_values(|s: Option<String>| crate::ast::text_view(s)),
                Expr::list_model(*exprs),
            ),
            r is None ==> !(self@.kind is Tpl),
    {
        match &self.kind {
            ExprKind::Tpl(quasis, exprs) => Some((quasis, exprs)),
            _ => None,
        }
    }

    pub fn as_member(&self) -> (r: Option<(&Expr, &MemberProp)>)
        ensures
            r matches Some((obj, prop)) ==> self@.kind == ExprKindView::Member(
                Box::new(obj@),
                prop@,
            ),
            r is None ==> !(self@.kind is Member),
    {
        match &self.kind {
            ExprKind::Member(obj, prop) => Some((&**obj, prop)),
            _ => None,
        }
    }

    pub fn as_assign(&self) -> (r: Option<(AssignOp, &AssignTarget, &Expr)>)
        ensures
            r matches Some((op, target, value)) ==> self@.kind == ExprKindView::Assign(
                op,
                target@,
                Box::new(value@),
            ),
            r is None ==> !(self@.kind is Assign),
    {
        match &self.kind {
            ExprKind::Assign(op, target, value) => Some((*op, target, &**value)),
            _ => None,
        }
    }

    pub fn as_fn_expr(&self) -> (r: Option<&FnExpr>)
        ensures
            r matches Some(f) ==> self@.kind == ExprKindView::Fn(f@),
            r is None ==> !(self@.kind is Fn),
    {
        match &self.kind {
            ExprKind::Fn(f) => Some(f),
            _ => None,
        }
    }

    pub fn as_object(&self) -> (r: Option<&Vec<Prop>>)
        ensures
            r matches Some(props) ==> self@.kind == ExprKindView::Object(Prop::list_model(*props)),
            r is None ==> !(self@.kind is Object),
    {
        match &self.kind {
            ExprKind::Object(props) => Some(props),
            _ => None,
        }
    }
}

impl MemberProp {
    pub fn as_computed(&self) -> (r: Option<&Expr>)
        ensures
            r matches Some(e) ==> self@ == MemberPropView::Computed(Box::new(e@)),
            r is None ==> !(self@ is Computed),
    {
        match self {
            MemberProp::Computed(e) => Some(&**e),
            _ => None,
        }
    }
}

impl AssignTarget {
    pub fn as_simple(&self) -> (r: Option<&Expr>)
        ensures
            r matches Some(e) ==> self@ == AssignTargetView::Simple(Box::new(e@)),
            r is None ==> !(self@ is Simple),
    {
        match self {
            AssignTarget::Simple(e) => Some(&**e),
            _ => None,
        }
    }
}

impl Pat {
    pub fn as_ident(&self) -> (r: Option<&Ident>)
        ensures
            r matches Some(id) ==> self@ == PatView::Ident(id@),
            r is None ==> !(self@ is Ident),
    {
        match self {
            Pat::Ident(id) => Some(id),
            _ => None,
        }
    }
}

impl Decl {
    pub fn as_var(&self) -> (r: Option<&VarDecl>)
        ensures
            r matches Some(v) ==> self@ == DeclView::Var(v@),
            r is None ==> !(self@ is Var),
    {
        match self {
            Decl::Var(v) => Some(v),
            _ => None,
        }
    }

    pub fn as_ts_enum(&self) -> (r: Option<&EnumDecl>)
        ensures
            r matches Some(e) ==> self@ == DeclView::TsEnum(e@),
            r is None ==> !(self@ is TsEnum),
    {
        match self {
            Decl::TsEnum(e) => Some(e),
            _ => None,
        }
    }
}

impl Stmt {
    pub fn as_decl(&self) -> (r: Option<&Decl>)
        ensures
            r matches Some(d) ==> self@ == StmtView::Decl(d@),
            r is None ==> !(self@ is Decl),
    {
        match self {
            Stmt::Decl(d) => Some(d),
            _ => None,
        }
    }

    pub fn as_expr(&self) -> (r: Option<&Expr>)
        ensures
            r matches Some(e) ==> self@ == StmtView::Expr(e@),
            r is None ==> !(self@ is Expr),
    {
        match self {
            Stmt::Expr(e) => Some(e),
            _ => None,
        }
    }
}

impl ModuleItem {
    pub fn as_stmt(&self) -> (r: Option<&Stmt>)
        ensures
            r matches Some(s) ==> self@ == ModuleItemView::Stmt(s@),
            r is None ==> !(self@ is Stmt),
    {
        match self {
            ModuleItem::Stmt(s) => Some(s),
            _ => None,
        }
    }

    pub fn as_export_decl(&self) -> (r: Option<&Decl>)
        ensures
            r matches Some(d) ==> self@ == ModuleItemView::ExportDecl(d@),
            r is None ==> !(self@ is ExportDecl),
    {
        match self {
            ModuleItem::ExportDecl(d) => Some(d),
            _ => None,
        }
    }
}

} // verus!
