//! Deep copies of tree nodes, each proved to have the view of what it copies.

use crate::ast::{
    AssignTarget, Decl, EnumDecl, EnumMember, Expr, ExprKind, FnExpr, Ident, Lit, MemberProp,
    ModuleItem, Pat, Prop, Stmt, VarDecl, VarDeclarator,
};
use vstd::prelude::*;

verus! {

/// A copy of an optional text.
pub fn duplicate_text(s: &Option<String>) -> (r: Option<String>)
    ensures
        r == *s,
{
    match s {
        Some(t) => Some(t.clone()),
        None => None,
    }
}

/// A copy of a list of optional texts.
pub fn duplicate_texts(list: &Vec<Option<String>>) -> (r: Vec<Option<String>>)
    ensures
        r@ == list@,
{
    let mut out: Vec<Option<String>> = Vec::new();
    let mut i: usize = 0;
    while i < list.len()
        invariant
            i <= list.len(),
            out@ == list@.subrange(0, i as int),
        decreases list.len() - i,
    {
        out.push(duplicate_text(&list[i]));
        assert(out@ =~= list@.subrange(0, i + 1));
        i += 1;
    }
    assert(list@.subrange(0, i as int) =~= list@);
    out
}

/// A copy of a list of patterns.
pub fn duplicate_pats(list: &Vec<Pat>) -> (r: Vec<Pat>)
    ensures
        r@ == list@,
{
    let mut out: Vec<Pat> = Vec::new();
    let mut i: usize = 0;
    while i < list.len()
        invariant
            i <= list.len(),
            out@ == list@.subrange(0, i as int),
        decreases list.len() - i,
    {
        out.push(list[i].duplicate());
        assert(out@ =~= list@.subrange(0, i + 1));
        i += 1;
    }
    assert(list@.subrange(0, i as int) =~= list@);
    out
}

impl Ident {
    pub fn duplicate(&self) -> (r: Ident)
        ensures
            r == *self,
    {
        Ident { handle: self.handle, sym: self.sym.clone() }
    }
}

impl Lit {
    pub fn duplicate(&self) -> (r: Lit)
        ensures
            r == *self,
    {
        match self {
            Lit::Str(s) => Lit::Str(s.clone()),
            Lit::Num(n) => Lit::Num(*n),
            Lit::Bool(b) => Lit::Bool(*b),
            Lit::BigInt(s) => Lit::BigInt(s.clone()),
            Lit::Other => Lit::Other,
        }
    }
}

impl Pat {
    pub fn duplicate(&self) -> (r: Pat)
        ensures
            r == *self,
    {
        match self {
            Pat::Ident(id) => Pat::Ident(id.duplicate()),
            Pat::Other => Pat::Other,
        }
    }
}

impl MemberProp {
    pub fn duplicate(&self) -> (r: MemberProp)
        ensures
            r@ == self@,
        decreases self,
    {
        match self {
            MemberProp::Name(s) => MemberProp::Name(s.clone()),
            MemberProp::Computed(e) => MemberProp::Computed(Box::new(e.duplicate())),
        }
    }
}

impl AssignTarget {
    pub fn duplicate(&self) -> (r: AssignTarget)
        ensures
            r@ == self@,
        decreases self,
    {
        match self {
            AssignTarget::Simple(e) => AssignTarget::Simple(Box::new(e.duplicate())),
            AssignTarget::Pat => AssignTarget::Pat,
        }
    }
}

impl Prop {
    pub fn duplicate(&self) -> (r: Prop)
        ensures
            r@ == self@,
        decreases self,
    {
        match self {
            Prop::KeyValue(k, v) => Prop::KeyValue(k.clone(), v.duplicate()),
            Prop::Other => Prop::Other,
        }
    }

    pub fn duplicate_list(list: &Vec<Prop>) -> (r: Vec<Prop>)
        ensures
            Prop::list_model(r) == Prop::list_model(*list),
        decreases list,
    {
        let mut out: Vec<Prop> = Vec::new();
        let mut i: usize = 0;
        while i < list.len()
            invariant
                i <= list.len(),
                out.len() == i,
                forall|j: int| 0 <= j < i ==> out[j]@ == list[j]@,
            decreases list.len() - i,
        {
            out.push(list[i].duplicate());
            i += 1;
        }
        assert(Prop::list_model(out) =~= Prop::list_model(*list));
        out
    }
}

impl FnExpr {
    pub fn duplicate(&self) -> (r: FnExpr)
        ensures
            r@ == self@,
        decreases self,
    {
        let body = match &self.body {
            Some(b) => Some(Stmt::duplicate_list(b)),
            None => None,
        };
        FnExpr { name: duplicate_text(&self.name), params: duplicate_pats(&self.params), body }
    }
}

impl ExprKind {
    pub fn duplicate(&self) -> (r: ExprKind)
        ensures
            r@ == self@,
        decreases self,
    {
        match self {
            ExprKind::Ident(s) => ExprKind::Ident(s.clone()),
            ExprKind::Lit(l) => ExprKind::Lit(l.duplicate()),
            ExprKind::Paren(e) => ExprKind::Paren(Box::new(e.duplicate())),
            ExprKind::Unary(op, e) => ExprKind::Unary(*op, Box::new(e.duplicate())),
            ExprKind::Bin(op, l, r) => ExprKind::Bin(
                *op,
                Box::new(l.duplicate()),
                Box::new(r.duplicate()),
            ),
            ExprKind::Tpl(q, es) => ExprKind::Tpl(duplicate_texts(q), Expr::duplicate_list(es)),
            ExprKind::Member(o, p) => ExprKind::Member(Box::new(o.duplicate()), p.duplicate()),
            ExprKind::Assign(op, t, v) => ExprKind::Assign(
                *op,
                t.duplicate(),
                Box::new(v.duplicate()),
            ),
            ExprKind::Call(c, args) => ExprKind::Call(
                Box::new(c.duplicate()),
                Expr::duplicate_list(args),
            ),
            ExprKind::Fn(f) => ExprKind::Fn(f.duplicate()),
            ExprKind::Object(ps) => ExprKind::Object(Prop::duplicate_list(ps)),
            ExprKind::Other(es) => ExprKind::Other(Expr::duplicate_list(es)),
        }
    }
}

impl Expr {
    /// A deep copy: the same tree, handles included.
    pub fn duplicate(&self) -> (r: Expr)
        ensures
            r@ == self@,
        decreases self,
    {
        Expr { handle: self.handle, kind: self.kind.duplicate() }
    }

    pub fn duplicate_list(list: &Vec<Expr>) -> (r: Vec<Expr>)
        ensures
            Expr::list_model(r) == Expr::list_model(*list),
        decreases list,
    {
        let mut out: Vec<Expr> = Vec::new();
        let mut i: usize = 0;
        while i < list.len()
            invariant
                i <= list.len(),
                out.len() == i,
                forall|j: int| 0 <= j < i ==> out[j]@ == list[j]@,
            decreases list.len() - i,
        {
            out.push(list[i].duplicate());
            i += 1;
        }
        assert(Expr::list_model(out) =~= Expr::list_model(*list));
        out
    }
}

impl VarDeclarator {
    pub fn duplicate(&self) -> (r: VarDeclarator)
        ensures
            r@ == self@,
        decreases self,
    {
        let init = match &self.init {
            Some(e) => Some(e.duplicate()),
            None => None,
        };
        VarDeclarator { name: self.name.duplicate(), init }
    }

    pub fn duplicate_list(list: &Vec<VarDeclarator>) -> (r: Vec<VarDeclarator>)
        ensures
            VarDeclarator::list_model(r) == VarDeclarator::list_model(*list),
        decreases list,
    {
        let mut out: Vec<VarDeclarator> = Vec::new();
        let mut i: usize = 0;
        while i < list.len()
            invariant
                i <= list.len(),
                out.len() == i,
                forall|j: int| 0 <= j < i ==> out[j]@ == list[j]@,
            decreases list.len() - i,
        {
            out.push(list[i].duplicate());
            i += 1;
        }
        assert(VarDeclarator::list_model(out) =~= VarDeclarator::list_model(*list));
        out
    }
}

impl VarDecl {
    pub fn duplicate(&self) -> (r: VarDecl)
        ensures
            r@ == self@,
        decreases self,
    {
        VarDecl { kind: self.kind, decls: VarDeclarator::duplicate_list(&self.decls) }
    }
}

impl EnumMember {
    pub fn duplicate(&self) -> (r: EnumMember)
        ensures
            r@ == self@,
        decreases self,
    {
        let init = match &self.init {
            Some(e) => Some(e.duplicate()),
            None => None,
        };
        EnumMember { name: self.name.clone(), init }
    }

    pub fn duplicate_list(list: &Vec<EnumMember>) -> (r: Vec<EnumMember>)
        ensures
            EnumMember::list_model(r) == EnumMember::list_model(*list),
        decreases list,
    {
        let mut out: Vec<EnumMember> = Vec::new();
        let mut i: usize = 0;
        while i < list.len()
            invariant
                i <= list.len(),
                out.len() == i,
                forall|j: int| 0 <= j < i ==> out[j]@ == list[j]@,
            decreases list.len() - i,
        {
            out.push(list[i].duplicate());
            i += 1;
        }
        assert(EnumMember::list_model(out) =~= EnumMember::list_model(*list));
        out
    }
}

impl EnumDecl {
    pub fn duplicate(&self) -> (r: EnumDecl)
        ensures
            r@ == self@,
        decreases self,
    {
        EnumDecl {
            id: self.id.duplicate(),
            is_const: self.is_const,
            members: EnumMember::duplicate_list(&self.members),
        }
    }
}

impl Decl {
    pub fn duplicate(&self) -> (r: Decl)
        ensures
            r@ == self@,
        decreases self,
    {
        match self {
            Decl::Var(v) => Decl::Var(v.duplicate()),
            Decl::TsEnum(e) => Decl::TsEnum(e.duplicate()),
            Decl::Other => Decl::Other,
        }
    }
}

impl Stmt {
    pub fn duplicate(&self) -> (r: Stmt)
        ensures
            r@ == self@,
        decreases self,
    {
        match self {
            Stmt::Decl(d) => Stmt::Decl(d.duplicate()),
            Stmt::Expr(e) => Stmt::Expr(e.duplicate()),
            Stmt::Other => Stmt::Other,
        }
    }

    pub fn duplicate_list(list: &Vec<Stmt>) -> (r: Vec<Stmt>)
        ensures
            Stmt::list_model(r) == Stmt::list_model(*list),
        decreases list,
    {
        let mut out: Vec<Stmt> = Vec::new();
        let mut i: usize = 0;
        while i < list.len()
            invariant
                i <= list.len(),
                out.len() == i,
                forall|j: int| 0 <= j < i ==> out[j]@ == list[j]@,
            decreases list.len() - i,
        {
            out.push(list[i].duplicate());
            i += 1;
        }
        assert(Stmt::list_model(out) =~= Stmt::list_model(*list));
        out
    }
}

impl ModuleItem {
    pub fn duplicate(&self) -> (r: ModuleItem)
        ensures
            r@ == self@,
    {
        match self {
            ModuleItem::Stmt(s) => ModuleItem::Stmt(s.duplicate()),
            ModuleItem::ExportDecl(d) => ModuleItem::ExportDecl(d.duplicate()),
            ModuleItem::Other => ModuleItem::Other,
        }
    }
}

} // verus!
