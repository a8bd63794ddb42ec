//! Recognising an enum that was already compiled to object-mutation code.
//!
//! The compiled form is a pair of statements: a bare `var X;` and a call of
//! an anonymous function on `X || (X = {})`, whose body fills the object by
//! assignments `X["name"] = value` and `X[X["name"] = number] = "name"`.

use crate::ast::{
    AssignOp, AssignTargetView, BinaryOp, DeclView, Expr, ExprKind, ExprKindView, ExprView,
    Ident, IdentView, Lit, LitView, MemberPropView, ModuleItem, ModuleItemView, PatView, Stmt,
    StmtView, VarDecl, VarDeclKind, VarDeclView,
};
use vstd::prelude::*;

verus! {

/// One entry of a compiled enum: the literal that names it and the
/// expression it is bound to.
pub struct EnumItem<'a> {
    pub key: &'a Lit,
    pub value: &'a Expr,
}

pub struct EnumItemView {
    pub key: LitView,
    pub value: ExprView,
}

impl<'a> View for EnumItem<'a> {
    type V = EnumItemView;

    open spec fn view(&self) -> EnumItemView {
        EnumItemView { key: self.key@, value: self.value@ }
    }
}

/// The views of a list of entries, element by element.
pub open spec fn items_model(items: Seq<EnumItem>) -> Seq<EnumItemView> {
    Seq::new(items.len(), |i: int| items[i]@)
}

/// The variable declaration that a module item is, unless it is exported.
pub open spec fn plain_var_decl(item: ModuleItemView) -> Option<VarDeclView> {
    match item {
        ModuleItemView::Stmt(StmtView::Decl(DeclView::Var(v))) => Some(v),
        _ => None,
    }
}

/// The variable declaration that a module item exports.
pub open spec fn exported_var_decl(item: ModuleItemView) -> Option<VarDeclView> {
    match item {
        ModuleItemView::ExportDecl(DeclView::Var(v)) => Some(v),
        _ => None,
    }
}

/// An expression without one pair of parentheses around it.
pub open spec fn without_paren(e: ExprView) -> ExprView {
    match e.kind {
        ExprKindView::Paren(inner) => *inner,
        _ => e,
    }
}

/// The name an expression refers to, where it is a plain identifier.
pub open spec fn ident_name(e: ExprView) -> Option<Seq<char>> {
    match e.kind {
        ExprKindView::Ident(n) => Some(n),
        _ => None,
    }
}

/// The name of the object of a member expression, where that is an identifier.
pub open spec fn member_object_name(e: ExprView) -> Option<Seq<char>> {
    match e.kind {
        ExprKindView::Member(obj, _) => ident_name(*obj),
        _ => None,
    }
}

/// `name || (name = {})`, the parentheses being optional.
pub open spec fn is_guard(name: Seq<char>, arg: ExprView) -> bool {
    &&& arg.kind matches ExprKindView::Bin(op, left, right)
    &&& op == BinaryOp::LogicalOr
    &&& ident_name(*left) == Some(name)
    &&& without_paren(*right).kind matches ExprKindView::Assign(aop, target, value)
    &&& value.kind matches ExprKindView::Object(props)
    &&& props.len() == 0
    &&& aop == AssignOp::Assign
    &&& target matches AssignTargetView::Simple(t)
    &&& ident_name(*t) == Some(name)
}

/// The body of an anonymous function of the one parameter `name`, the
/// parentheses around the function being optional.
pub open spec fn wrapper_body(name: Seq<char>, callee: ExprView) -> Option<Seq<StmtView>> {
    match without_paren(callee).kind {
        ExprKindView::Fn(f) => {
            if f.name is None && f.params.len() == 1 && (f.params[0] matches PatView::Ident(p)
                && p.sym == name) {
                f.body
            } else {
                None
            }
        },
        _ => None,
    }
}

/// The identifier that a bare `var X;` declares.
pub open spec fn bare_var(decl: VarDeclView) -> Option<IdentView> {
    if decl.kind == VarDeclKind::Var && decl.decls.len() == 1 && decl.decls[0].init is None {
        match decl.decls[0].name {
            PatView::Ident(id) => Some(id),
            PatView::Other => None,
        }
    } else {
        None
    }
}

/// The compiled enum that a declaration and the statement after it form:
/// the declared identifier, and the statements that fill the object.
pub open spec fn compiled_enum_stmt(decl: VarDeclView, next: StmtView) -> Option<
    (IdentView, Seq<StmtView>),
> {
    match (bare_var(decl), next) {
        (Some(id), StmtView::Expr(e)) => match e.kind {
            ExprKindView::Call(callee, args) => {
                if args.len() == 1 && is_guard(id.sym, args[0]) {
                    match wrapper_body(id.sym, *callee) {
                        Some(body) => Some((id, body)),
                        None => None,
                    }
                } else {
                    None
                }
            },
            _ => None,
        },
        _ => None,
    }
}

/// The same for a module item after the declaration: it has to be a
/// statement.
pub open spec fn compiled_enum(decl: VarDeclView, next: ModuleItemView) -> Option<
    (IdentView, Seq<StmtView>),
> {
    match next {
        ModuleItemView::Stmt(s) => compiled_enum_stmt(decl, s),
        _ => None,
    }
}

/// The entries that one statement of the body contributes, or `None` where
/// the statement is neither of the two assignment forms.
pub open spec fn statement_items(name: Seq<char>, stmt: StmtView) -> Option<Seq<EnumItemView>> {
    match stmt {
        StmtView::Expr(e) => match e.kind {
            ExprKindView::Assign(AssignOp::Assign, AssignTargetView::Simple(target), value) => {
                match target.kind {
                    ExprKindView::Member(obj, MemberPropView::Computed(computed)) => {
                        if ident_name(*obj) == Some(name) {
                            computed_items(name, *computed, *value)
                        } else {
                            None
                        }
                    },
                    _ => None,
                }
            },
            _ => None,
        },
        _ => None,
    }
}

/// The entries of `X[computed] = value`.
pub open spec fn computed_items(name: Seq<char>, computed: ExprView, value: ExprView) -> Option<
    Seq<EnumItemView>,
> {
    match computed.kind {
        ExprKindView::Lit(LitView::Str(s)) => Some(
            seq![EnumItemView { key: LitView::Str(s), value: value }],
        ),
        ExprKindView::Assign(
            AssignOp::Assign,
            AssignTargetView::Simple(inner_target),
            inner_value,
        ) => {
            match (inner_target.kind, inner_value.kind, value.kind) {
                (
                    ExprKindView::Member(inner_obj, MemberPropView::Computed(inner_key)),
                    ExprKindView::Lit(LitView::Num(n)),
                    ExprKindView::Lit(LitView::Str(_)),
                ) => {
                    match inner_key.kind {
                        ExprKindView::Lit(LitView::Str(s)) => {
                            if ident_name(*inner_obj) == Some(name) {
                                Some(
                                    seq![
                                        EnumItemView { key: LitView::Str(s), value: *inner_value },
                                        EnumItemView { key: LitView::Num(n), value: value },
                                    ],
                                )
                            } else {
                                None
                            }
                        },
                        _ => None,
                    }
                },
                _ => None,
            }
        },
        _ => None,
    }
}

/// The entries of a whole body, in order; `None` as soon as one statement
/// is of neither form.
pub open spec fn body_items(name: Seq<char>, stmts: Seq<StmtView>) -> Option<Seq<EnumItemView>>
    decreases stmts.len(),
{
    if stmts.len() == 0 {
        Some(Seq::empty())
    } else {
        match (body_items(name, stmts.drop_last()), statement_items(name, stmts.last())) {
            (Some(before), Some(these)) => Some(before + these),
            _ => None,
        }
    }
}

/// A body with a statement of neither form has no entries, whatever follows.
pub proof fn lemma_body_items_prefix(name: Seq<char>, stmts: Seq<StmtView>, k: int)
    requires
        0 <= k <= stmts.len(),
        body_items(name, stmts.subrange(0, k)) is None,
    ensures
        body_items(name, stmts) is None,
    decreases stmts.len() - k,
{
    if k == stmts.len() {
        assert(stmts.subrange(0, k) =~= stmts);
    } else {
        assert(stmts.subrange(0, k + 1).drop_last() =~= stmts.subrange(0, k));
        lemma_body_items_prefix(name, stmts, k + 1);
    }
}

/// Every key of a body's entries is a string or a number.
pub proof fn lemma_body_items_keys(name: Seq<char>, stmts: Seq<StmtView>)
    ensures
        body_items(name, stmts) matches Some(items) ==> forall|i: int|
            0 <= i < items.len() ==> (#[trigger] items[i]).key is Str || items[i].key is Num,
    decreases stmts.len(),
{
    if stmts.len() > 0 {
        lemma_body_items_keys(name, stmts.drop_last());
    }
}

pub fn as_var_decls(item: &ModuleItem) -> (r: Option<&VarDecl>)
    ensures
        r matches Some(v) ==> plain_var_decl(item@) == Some(v@),
        r is None ==> plain_var_decl(item@) is None,
{
    item.as_stmt()?.as_decl()?.as_var()
}

pub fn as_export_var_decls(item: &ModuleItem) -> (r: Option<&VarDecl>)
    ensures
        r matches Some(v) ==> exported_var_decl(item@) == Some(v@),
        r is None ==> exported_var_decl(item@) is None,
{
    item.as_export_decl()?.as_var()
}

pub fn unwrap_paren(expr: &Expr) -> (r: &Expr)
    ensures
        r@ == without_paren(expr@),
{
    if let Some(inner) = expr.as_paren() {
        inner
    } else {
        expr
    }
}

/// The callee and the arguments of a call.
pub fn as_call(expr: &Expr) -> (r: Option<(&Expr, &Vec<Expr>)>)
    ensures
        r matches Some((callee, args)) ==> expr@.kind == ExprKindView::Call(
            Box::new(callee@),
            Expr::list_model(*args),
        ),
        r is None ==> !(expr@.kind is Call),
{
    match &expr.kind {
        ExprKind::Call(callee, args) => Some((&**callee, args)),
        _ => None,
    }
}

pub fn is_equal_op(op: AssignOp) -> (r: bool)
    ensures
        r == (op == AssignOp::Assign),
{
    match op {
        AssignOp::Assign => true,
        _ => false,
    }
}

pub fn member_expr_ident_name(member_expr: &Expr) -> (r: Option<&String>)
    ensures
        r matches Some(n) ==> member_object_name(member_expr@) == Some(n@),
        r is None ==> member_object_name(member_expr@) is None,
{
    member_expr.as_member()?.0.as_ident()
}

fn is_named(expr: &Expr, name: &String) -> (r: bool)
    ensures
        r == (ident_name(expr@) == Some(name@)),
{
    match expr.as_ident() {
        Some(n) => *n == *name,
        None => false,
    }
}

fn is_object_named(member_expr: &Expr, name: &String) -> (r: bool)
    ensures
        r == (member_object_name(member_expr@) == Some(name@)),
{
    match member_expr_ident_name(member_expr) {
        Some(n) => *n == *name,
        None => false,
    }
}

fn guards(name: &String, arg: &Expr) -> (r: bool)
    ensures
        r == is_guard(name@, arg@),
{
    // X || (X = {})
    let (op, left, right) = match arg.as_bin() {
        Some(bin) => bin,
        None => return false,
    };
    match op {
        BinaryOp::LogicalOr => (),
        _ => return false,
    };
    if !is_named(left, name) {
        return false;
    }
    // (X = {})
    let (assign_op, target, value) = match unwrap_paren(right).as_assign() {
        Some(assign) => assign,
        None => return false,
    };
    let props = match value.as_object() {
        Some(props) => props,
        None => return false,
    };
    if props.len() != 0 {
        return false;
    }
    if !is_equal_op(assign_op) {
        return false;
    }
    match target.as_simple() {
        Some(t) => is_named(t, name),
        None => false,
    }
}

fn bare_var_ident(var_decls: &VarDecl) -> (r: Option<&Ident>)
    ensures
        r matches Some(id) ==> bare_var(var_decls@) == Some(id@),
        r is None ==> bare_var(var_decls@) is None,
{
    match var_decls.kind {
        VarDeclKind::Var => (),
        _ => return None,
    };
    let decls = &var_decls.decls;
    if decls.len() != 1 {
        return None;
    }
    let decl = &decls[0];
    assert(var_decls@.decls[0] == decl@);
    if decl.init.is_some() {
        return None;
    }
    decl.name.as_ident()
}

fn wrapper_statements<'a>(name: &String, callee: &'a Expr) -> (r: Option<&'a Vec<Stmt>>)
    ensures
        r matches Some(body) ==> wrapper_body(name@, callee@) == Some(Stmt::list_model(*body)),
        r is None ==> wrapper_body(name@, callee@) is None,
{
    let fn_expr = unwrap_paren(callee).as_fn_expr()?;
    if fn_expr.name.is_some() {
        return None;
    }
    let fn_params = &fn_expr.params;
    if fn_params.len() != 1 {
        return None;
    }
    let param = &fn_params[0];
    assert(fn_expr@.params[0] == param@);
    match param.as_ident() {
        Some(p) => {
            if p.sym != *name {
                return None;
            }
        },
        None => return None,
    };
    match &fn_expr.body {
        Some(fn_body) => Some(fn_body),
        None => None,
    }
}

/// Matches `var X;` followed by the statement that fills `X`.
pub fn var_iife_stmt<'a>(var_decls: &'a VarDecl, next_stmt: &'a Stmt) -> (r: Option<
    (&'a Ident, &'a Vec<Stmt>),
>)
    ensures
        r matches Some((id, body)) ==> compiled_enum_stmt(var_decls@, next_stmt@) == Some(
            (id@, Stmt::list_model(*body)),
        ),
        r is None ==> compiled_enum_stmt(var_decls@, next_stmt@) is None,
{
    // `var X`, one declarator, no initializer
    let id = bare_var_ident(var_decls)?;
    let name = &id.sym;

    // a call with one argument in the second statement
    let expr = next_stmt.as_expr()?;
    let (callee, args) = as_call(expr)?;
    if args.len() != 1 {
        return None;
    }
    let arg = &args[0];
    assert(Expr::list_model(*args)[0] == arg@);
    if !guards(name, arg) {
        return None;
    }
    let body = wrapper_statements(name, callee)?;
    Some((id, body))
}

/// Matches `var X;` followed by the call that fills `X`.
///
/// Gives the declared identifier and the body of the called function, or
/// `None` on any deviation from the form.
pub fn var_iife<'a>(var_decls: &'a VarDecl, next_stmt: &'a ModuleItem) -> (r: Option<
    (&'a Ident, &'a Vec<Stmt>),
>)
    ensures
        r matches Some((id, body)) ==> compiled_enum(var_decls@, next_stmt@) == Some(
            (id@, Stmt::list_model(*body)),
        ),
        r is None ==> compiled_enum(var_decls@, next_stmt@) is None,
{
    var_iife_stmt(var_decls, next_stmt.as_stmt()?)
}

/// The entries of `X[computed] = value`.
fn extract_computed<'a>(enum_name: &String, computed: &'a Expr, value: &'a Expr) -> (r: Option<
    Vec<EnumItem<'a>>,
>)
    ensures
        r matches Some(items) ==> computed_items(enum_name@, computed@, value@) == Some(
            items_model(items@),
        ),
        r is None ==> computed_items(enum_name@, computed@, value@) is None,
{
    // B["a"] = "x";
    if let Some(lit) = computed.as_lit() {
        return match lit {
            Lit::Str(_) => {
                let mut items: Vec<EnumItem<'a>> = Vec::new();
                items.push(EnumItem { key: lit, value });
                assert(items_model(items@) =~= seq![items@[0]@]);
                Some(items)
            },
            _ => None,
        };
    }
    // B[B["a"] = 1] = "a";
    if let Some((inner_op, inner_target, inner_value)) = computed.as_assign() {
        let inner_member = inner_target.as_simple()?;
        if !is_object_named(inner_member, enum_name) {
            return None;
        }
        if !is_equal_op(inner_op) {
            return None;
        }
        let inner_member_name = inner_member.as_member()?.1.as_computed()?.as_lit()?;
        let inner_member_value = inner_value.as_lit()?;
        let outer_value = value.as_lit()?;
        return match (inner_member_name, inner_member_value, outer_value) {
            (Lit::Str(_), Lit::Num(_), Lit::Str(_)) => {
                let mut items: Vec<EnumItem<'a>> = Vec::new();
                items.push(EnumItem { key: inner_member_name, value: inner_value });
                items.push(EnumItem { key: inner_member_value, value });
                assert(items_model(items@) =~= seq![items@[0]@, items@[1]@]);
                Some(items)
            },
            _ => None,
        };
    }
    None
}

/// The entries that one statement of the body contributes.
pub fn extract_enum_item<'a>(enum_id: &Ident, stmt: &'a Stmt) -> (r: Option<Vec<EnumItem<'a>>>)
    ensures
        r matches Some(items) ==> statement_items(enum_id@.sym, stmt@) == Some(
            items_model(items@),
        ),
        r is None ==> statement_items(enum_id@.sym, stmt@) is None,
{
    let enum_name = &enum_id.sym;
    let (op, target, value) = stmt.as_expr()?.as_assign()?;
    if !is_equal_op(op) {
        return None;
    }
    let left_member = target.as_simple()?;
    if !is_object_named(left_member, enum_name) {
        return None;
    }
    let left_member_computed = left_member.as_member()?.1.as_computed()?;
    extract_computed(enum_name, left_member_computed, value)
}

/// The entries of a whole body, in the order of its statements.
///
/// `None` where any statement is of neither form: nothing is taken from a
/// body that is only partly an enum.
pub fn extract_enum<'a>(enum_id: &Ident, stmts: &'a Vec<Stmt>) -> (r: Option<Vec<EnumItem<'a>>>)
    ensures
        r matches Some(items) ==> body_items(enum_id@.sym, Stmt::list_model(*stmts)) == Some(
            items_model(items@),
        ),
        r is None ==> body_items(enum_id@.sym, Stmt::list_model(*stmts)) is None,
{
    let ghost name = enum_id@.sym;
    let ghost all = Stmt::list_model(*stmts);
    let mut items: Vec<EnumItem<'a>> = Vec::new();
    let mut i: usize = 0;
    assert(all.subrange(0, 0) =~= Seq::empty());
    assert(items_model(items@) =~= Seq::empty());
    while i < stmts.len()
        invariant
            i <= stmts.len(),
            name == enum_id@.sym,
            all == Stmt::list_model(*stmts),
            body_items(name, all.subrange(0, i as int)) == Some(items_model(items@)),
        decreases stmts.len() - i,
    {
        assert(all.subrange(0, i + 1).drop_last() =~= all.subrange(0, i as int));
        assert(all.subrange(0, i + 1).last() == stmts[i as int]@);
        match extract_enum_item(enum_id, &stmts[i]) {
            Some(mut these) => {
                let ghost before = items@;
                let ghost added = these@;
                items.append(&mut these);
                assert(items_model(items@) =~= items_model(before) + items_model(added));
            },
            None => {
                proof {
                    lemma_body_items_prefix(name, all, i + 1);
                }
                return None;
            },
        }
        i += 1;
    }
    assert(all.subrange(0, i as int) =~= all);
    Some(items)
}

} // verus!
