//! Rewriting references to earlier members.
//!
//! An initializer that is left to run time may name members that come
//! before it. Inside the object literal those names are not in scope, so
//! each such identifier becomes a property access on the enum's own
//! object: `B` becomes `E.B`. The object of a member access is rewritten;
//! its property is not.

use crate::ast::{
    AssignTarget, AssignTargetView, Decl, DeclView, EnumDecl, EnumDeclView, EnumMember,
    EnumMemberView, Expr, ExprKind, ExprKindView, ExprView, FnExpr, FnExprView, Ident, IdentView,
    MemberProp, MemberPropView, Prop, PropView, Stmt, StmtView, VarDecl, VarDeclView,
    VarDeclarator, VarDeclaratorView,
};
use crate::duplicate::{duplicate_pats, duplicate_text, duplicate_texts};
use crate::evaluate::EnumValues;
use vstd::prelude::*;

verus! {

/// `enum_id.name`
pub open spec fn member_access(enum_id: IdentView, name: Seq<char>) -> ExprView {
    ExprView {
        handle: None,
        kind: ExprKindView::Member(
            Box::new(ExprView { handle: enum_id.handle, kind: ExprKindView::Ident(enum_id.sym) }),
            MemberPropView::Name(name),
        ),
    }
}

/// An expression with every identifier that names a member in `names`
/// replaced by a property access on the enum.
pub open spec fn rewritten(e: ExprView, enum_id: IdentView, names: Set<Seq<char>>) -> ExprView
    decreases e,
{
    match e.kind {
        ExprKindView::Ident(n) => if names.contains(n) {
            member_access(enum_id, n)
        } else {
            e
        },
        ExprKindView::Lit(_) => e,
        ExprKindView::Paren(inner) => ExprView {
            handle: e.handle,
            kind: ExprKindView::Paren(Box::new(rewritten(*inner, enum_id, names))),
        },
        ExprKindView::Unary(op, arg) => ExprView {
            handle: e.handle,
            kind: ExprKindView::Unary(op, Box::new(rewritten(*arg, enum_id, names))),
        },
        ExprKindView::Bin(op, left, right) => ExprView {
            handle: e.handle,
            kind: ExprKindView::Bin(
                op,
                Box::new(rewritten(*left, enum_id, names)),
                Box::new(rewritten(*right, enum_id, names)),
            ),
        },
        ExprKindView::Tpl(quasis, exprs) => ExprView {
            handle: e.handle,
            kind: ExprKindView::Tpl(quasis, rewritten_list(exprs, enum_id, names)),
        },
        ExprKindView::Member(obj, prop) => ExprView {
            handle: e.handle,
            kind: ExprKindView::Member(Box::new(rewritten(*obj, enum_id, names)), prop),
        },
        ExprKindView::Assign(op, target, value) => ExprView {
            handle: e.handle,
            kind: ExprKindView::Assign(
                op,
                rewritten_target(target, enum_id, names),
                Box::new(rewritten(*value, enum_id, names)),
            ),
        },
        ExprKindView::Call(callee, args) => ExprView {
            handle: e.handle,
            kind: ExprKindView::Call(
                Box::new(rewritten(*callee, enum_id, names)),
                rewritten_list(args, enum_id, names),
            ),
        },
        ExprKindView::Fn(f) => ExprView {
            handle: e.handle,
            kind: ExprKindView::Fn(
                FnExprView {
                    name: f.name,
                    params: f.params,
                    body: match f.body {
                        Some(stmts) => Some(rewritten_stmts(stmts, enum_id, names)),
                        None => None,
                    },
                },
            ),
        },
        ExprKindView::Object(props) => ExprView {
            handle: e.handle,
            kind: ExprKindView::Object(rewritten_props(props, enum_id, names)),
        },
        ExprKindView::Other(exprs) => ExprView {
            handle: e.handle,
            kind: ExprKindView::Other(rewritten_list(exprs, enum_id, names)),
        },
    }
}

pub open spec fn rewritten_target(
    target: AssignTargetView,
    enum_id: IdentView,
    names: Set<Seq<char>>,
) -> AssignTargetView
    decreases target,
{
    match target {
        AssignTargetView::Simple(t) => AssignTargetView::Simple(
            Box::new(rewritten(*t, enum_id, names)),
        ),
        AssignTargetView::Pat => AssignTargetView::Pat,
    }
}

pub open spec fn rewritten_list(es: Seq<ExprView>, enum_id: IdentView, names: Set<Seq<char>>)
    -> Seq<ExprView>
    decreases es,
{
    Seq::new(
        es.len(),
        |i: int|
            if 0 <= i < es.len() {
                rewritten(es[i], enum_id, names)
            } else {
                arbitrary()
            },
    )
}

pub open spec fn rewritten_props(ps: Seq<PropView>, enum_id: IdentView, names: Set<Seq<char>>)
    -> Seq<PropView>
    decreases ps,
{
    Seq::new(
        ps.len(),
        |i: int|
            if 0 <= i < ps.len() {
                match ps[i] {
                    PropView::KeyValue(k, v) => PropView::KeyValue(
                        k,
                        rewritten(v, enum_id, names),
                    ),
                    PropView::Other => PropView::Other,
                }
            } else {
                arbitrary()
            },
    )
}

pub open spec fn rewritten_init(init: Option<ExprView>, enum_id: IdentView, names: Set<Seq<char>>)
    -> Option<ExprView>
    decreases init,
{
    match init {
        Some(e) => Some(rewritten(e, enum_id, names)),
        None => None,
    }
}

pub open spec fn rewritten_declarator(
    d: VarDeclaratorView,
    enum_id: IdentView,
    names: Set<Seq<char>>,
) -> VarDeclaratorView
    decreases d,
{
    VarDeclaratorView { name: d.name, init: rewritten_init(d.init, enum_id, names) }
}

pub open spec fn rewritten_member(m: EnumMemberView, enum_id: IdentView, names: Set<Seq<char>>)
    -> EnumMemberView
    decreases m,
{
    EnumMemberView { name: m.name, init: rewritten_init(m.init, enum_id, names) }
}

pub open spec fn rewritten_stmt(s: StmtView, enum_id: IdentView, names: Set<Seq<char>>)
    -> StmtView
    decreases s,
{
    match s {
        StmtView::Expr(e) => StmtView::Expr(rewritten(e, enum_id, names)),
        StmtView::Decl(DeclView::Var(v)) => StmtView::Decl(
            DeclView::Var(
                VarDeclView {
                    kind: v.kind,
                    decls: Seq::new(
                        v.decls.len(),
                        |i: int|
                            if 0 <= i < v.decls.len() {
                                rewritten_declarator(v.decls[i], enum_id, names)
                            } else {
                                arbitrary()
                            },
                    ),
                },
            ),
        ),
        StmtView::Decl(DeclView::TsEnum(d)) => StmtView::Decl(
            DeclView::TsEnum(
                EnumDeclView {
                    id: d.id,
                    is_const: d.is_const,
                    members: Seq::new(
                        d.members.len(),
                        |i: int|
                            if 0 <= i < d.members.len() {
                                rewritten_member(d.members[i], enum_id, names)
                            } else {
                                arbitrary()
                            },
                    ),
                },
            ),
        ),
        StmtView::Decl(DeclView::Other) => s,
        StmtView::Other => s,
    }
}

pub open spec fn rewritten_stmts(ss: Seq<StmtView>, enum_id: IdentView, names: Set<Seq<char>>)
    -> Seq<StmtView>
    decreases ss,
{
    Seq::new(
        ss.len(),
        |i: int|
            if 0 <= i < ss.len() {
                rewritten_stmt(ss[i], enum_id, names)
            } else {
                arbitrary()
            },
    )
}

/// `enum_id.name`
pub fn make_member(enum_id: &Ident, name: &String) -> (r: Expr)
    ensures
        r@ == member_access(enum_id@, name@),
{
    let obj = Expr { handle: enum_id.handle, kind: ExprKind::Ident(enum_id.sym.clone()) };
    assert(obj@.kind == ExprKindView::Ident(enum_id@.sym));
    let prop = MemberProp::Name(name.clone());
    assert(prop@ == MemberPropView::Name(name@));
    Expr { handle: None, kind: ExprKind::Member(Box::new(obj), prop) }
}

fn rewrite_target(target: &AssignTarget, enum_id: &Ident, values: &EnumValues) -> (r:
    AssignTarget)
    ensures
        r@ == rewritten_target(target@, enum_id@, values@.dom()),
    decreases target,
{
    match target {
        AssignTarget::Simple(t) => AssignTarget::Simple(Box::new(rewrite_expr(t, enum_id, values))),
        AssignTarget::Pat => AssignTarget::Pat,
    }
}

fn rewrite_list(list: &Vec<Expr>, enum_id: &Ident, values: &EnumValues) -> (r: Vec<Expr>)
    ensures
        Expr::list_model(r) == rewritten_list(Expr::list_model(*list), enum_id@, values@.dom()),
    decreases list,
{
    let mut out: Vec<Expr> = Vec::new();
    let mut i: usize = 0;
    while i < list.len()
        invariant
            i <= list.len(),
            out.len() == i,
            forall|j: int| 0 <= j < i ==> out[j]@ == rewritten(list[j]@, enum_id@, values@.dom()),
        decreases list.len() - i,
    {
        out.push(rewrite_expr(&list[i], enum_id, values));
        i += 1;
    }
    assert(Expr::list_model(out) =~= rewritten_list(
        Expr::list_model(*list),
        enum_id@,
        values@.dom(),
    ));
    out
}

fn rewrite_props(list: &Vec<Prop>, enum_id: &Ident, values: &EnumValues) -> (r: Vec<Prop>)
    ensures
        Prop::list_model(r) == rewritten_props(Prop::list_model(*list), enum_id@, values@.dom()),
    decreases list,
{
    let ghost goal = rewritten_props(Prop::list_model(*list), enum_id@, values@.dom());
    let mut out: Vec<Prop> = Vec::new();
    let mut i: usize = 0;
    while i < list.len()
        invariant
            i <= list.len(),
            out.len() == i,
            goal == rewritten_props(Prop::list_model(*list), enum_id@, values@.dom()),
            forall|j: int| 0 <= j < i ==> out[j]@ == goal[j],
        decreases list.len() - i,
    {
        let prop = match &list[i] {
            Prop::KeyValue(k, v) => Prop::KeyValue(k.clone(), rewrite_expr(v, enum_id, values)),
            Prop::Other => Prop::Other,
        };
        out.push(prop);
        i += 1;
    }
    assert(Prop::list_model(out) =~= goal);
    out
}

fn rewrite_init(init: &Option<Expr>, enum_id: &Ident, values: &EnumValues) -> (r: Option<Expr>)
    ensures
        (match r {
            Some(e) => Some(e@),
            None => None,
        }) == rewritten_init(
            match *init {
                Some(e) => Some(e@),
                None => None,
            },
            enum_id@,
            values@.dom(),
        ),
    decreases init,
{
    match init {
        Some(e) => Some(rewrite_expr(e, enum_id, values)),
        None => None,
    }
}

fn rewrite_var_decl(v: &VarDecl, enum_id: &Ident, values: &EnumValues) -> (r: VarDecl)
    ensures
        StmtView::Decl(DeclView::Var(r@)) == rewritten_stmt(
            StmtView::Decl(DeclView::Var(v@)),
            enum_id@,
            values@.dom(),
        ),
    decreases v,
{
    let ghost goal = rewritten_stmt(StmtView::Decl(DeclView::Var(v@)), enum_id@, values@.dom());
    let list = &v.decls;
    let mut out: Vec<VarDeclarator> = Vec::new();
    let mut i: usize = 0;
    while i < list.len()
        invariant
            i <= list.len(),
            out.len() == i,
            decreases_to!(v => list),
            *list == v.decls,
            goal == rewritten_stmt(StmtView::Decl(DeclView::Var(v@)), enum_id@, values@.dom()),
            forall|j: int|
                0 <= j < i ==> out[j]@ == rewritten_declarator(list[j]@, enum_id@, values@.dom()),
        decreases list.len() - i,
    {
        let d = &list[i];
        out.push(
            VarDeclarator { name: d.name.duplicate(), init: rewrite_init(&d.init, enum_id, values) },
        );
        i += 1;
    }
    let r = VarDecl { kind: v.kind, decls: out };
    assert(goal matches StmtView::Decl(DeclView::Var(g)) && g.decls =~= r@.decls);
    r
}

fn rewrite_enum_decl(d: &EnumDecl, enum_id: &Ident, values: &EnumValues) -> (r: EnumDecl)
    ensures
        StmtView::Decl(DeclView::TsEnum(r@)) == rewritten_stmt(
            StmtView::Decl(DeclView::TsEnum(d@)),
            enum_id@,
            values@.dom(),
        ),
    decreases d,
{
    let ghost goal = rewritten_stmt(StmtView::Decl(DeclView::TsEnum(d@)), enum_id@, values@.dom());
    let list = &d.members;
    let mut out: Vec<EnumMember> = Vec::new();
    let mut i: usize = 0;
    while i < list.len()
        invariant
            i <= list.len(),
            out.len() == i,
            decreases_to!(d => list),
            *list == d.members,
            goal == rewritten_stmt(StmtView::Decl(DeclView::TsEnum(d@)), enum_id@, values@.dom()),
            forall|j: int|
                0 <= j < i ==> out[j]@ == rewritten_member(list[j]@, enum_id@, values@.dom()),
        decreases list.len() - i,
    {
        let m = &list[i];
        out.push(EnumMember { name: m.name.clone(), init: rewrite_init(&m.init, enum_id, values) });
        i += 1;
    }
    let r = EnumDecl { id: d.id.duplicate(), is_const: d.is_const, members: out };
    assert(goal matches StmtView::Decl(DeclView::TsEnum(g)) && g.members =~= r@.members);
    r
}

fn rewrite_stmt(s: &Stmt, enum_id: &Ident, values: &EnumValues) -> (r: Stmt)
    ensures
        r@ == rewritten_stmt(s@, enum_id@, values@.dom()),
    decreases s,
{
    match s {
        Stmt::Expr(e) => Stmt::Expr(rewrite_expr(e, enum_id, values)),
        Stmt::Decl(Decl::Var(v)) => Stmt::Decl(Decl::Var(rewrite_var_decl(v, enum_id, values))),
        Stmt::Decl(Decl::TsEnum(d)) => Stmt::Decl(
            Decl::TsEnum(rewrite_enum_decl(d, enum_id, values)),
        ),
        Stmt::Decl(Decl::Other) => Stmt::Decl(Decl::Other),
        Stmt::Other => Stmt::Other,
    }
}

fn rewrite_stmts(list: &Vec<Stmt>, enum_id: &Ident, values: &EnumValues) -> (r: Vec<Stmt>)
    ensures
        Stmt::list_model(r) == rewritten_stmts(Stmt::list_model(*list), enum_id@, values@.dom()),
    decreases list,
{
    let mut out: Vec<Stmt> = Vec::new();
    let mut i: usize = 0;
    while i < list.len()
        invariant
            i <= list.len(),
            out.len() == i,
            forall|j: int|
                0 <= j < i ==> out[j]@ == rewritten_stmt(list[j]@, enum_id@, values@.dom()),
        decreases list.len() - i,
    {
        out.push(rewrite_stmt(&list[i], enum_id, values));
        i += 1;
    }
    assert(Stmt::list_model(out) =~= rewritten_stmts(
        Stmt::list_model(*list),
        enum_id@,
        values@.dom(),
    ));
    out
}

fn rewrite_fn(f: &FnExpr, enum_id: &Ident, values: &EnumValues) -> (r: FnExpr)
    ensures
        r@ == (FnExprView {
            name: f@.name,
            params: f@.params,
            body: match f@.body {
                Some(stmts) => Some(rewritten_stmts(stmts, enum_id@, values@.dom())),
                None => None,
            },
        }),
    decreases f,
{
    let body = match &f.body {
        Some(b) => Some(rewrite_stmts(b, enum_id, values)),
        None => None,
    };
    FnExpr { name: duplicate_text(&f.name), params: duplicate_pats(&f.params), body }
}

/// Rewrites, in a copy of the expression, every identifier that names a
/// member of the table into a property access on the enum.
pub fn rewrite_expr(expr: &Expr, enum_id: &Ident, values: &EnumValues) -> (r: Expr)
    ensures
        r@ == rewritten(expr@, enum_id@, values@.dom()),
    decreases expr,
{
    let ghost goal = rewritten(expr@, enum_id@, values@.dom());
    let kind = match &expr.kind {
        ExprKind::Ident(n) => {
            if values.contains_key(n) {
                return make_member(enum_id, n);
            }
            let k = ExprKind::Ident(n.clone());
            assert(k@ == goal.kind);
            k
        },
        ExprKind::Lit(l) => {
            let k = ExprKind::Lit(l.duplicate());
            assert(k@ == goal.kind);
            k
        },
        ExprKind::Paren(inner) => {
            let k = ExprKind::Paren(Box::new(rewrite_expr(inner, enum_id, values)));
            assert(k@ == goal.kind);
            k
        },
        ExprKind::Unary(op, arg) => {
            let k = ExprKind::Unary(*op, Box::new(rewrite_expr(arg, enum_id, values)));
            assert(k@ == goal.kind);
            k
        },
        ExprKind::Bin(op, left, right) => {
            let k = ExprKind::Bin(
                *op,
                Box::new(rewrite_expr(left, enum_id, values)),
                Box::new(rewrite_expr(right, enum_id, values)),
            );
            assert(k@ == goal.kind);
            k
        },
        ExprKind::Tpl(quasis, exprs) => {
            let k = ExprKind::Tpl(duplicate_texts(quasis), rewrite_list(exprs, enum_id, values));
            assert(k@ == goal.kind);
            k
        },
        ExprKind::Member(obj, prop) => {
            let k = ExprKind::Member(
                Box::new(rewrite_expr(obj, enum_id, values)),
                prop.duplicate(),
            );
            assert(k@ == goal.kind);
            k
        },
        ExprKind::Assign(op, target, value) => {
            let new_target = rewrite_target(target, enum_id, values);
            let k = ExprKind::Assign(
                *op,
                new_target,
                Box::new(rewrite_expr(value, enum_id, values)),
            );
            assert(k@ == goal.kind);
            k
        },
        ExprKind::Call(callee, args) => {
            let k = ExprKind::Call(
                Box::new(rewrite_expr(callee, enum_id, values)),
                rewrite_list(args, enum_id, values),
            );
            assert(k@ == goal.kind);
            k
        },
        ExprKind::Fn(f) => {
            let k = ExprKind::Fn(rewrite_fn(f, enum_id, values));
            assert(k@ == goal.kind);
            k
        },
        ExprKind::Object(props) => {
            let k = ExprKind::Object(rewrite_props(props, enum_id, values));
            assert(k@ == goal.kind);
            k
        },
        ExprKind::Other(exprs) => {
            let k = ExprKind::Other(rewrite_list(exprs, enum_id, values));
            assert(k@ == goal.kind);
            k
        },
    };
    Expr { handle: expr.handle, kind }
}

} // verus!
