//! Lowering an enum declaration to a constant bound to an object literal.
//!
//! The members are taken in order. Each is evaluated against the table of
//! the members before it; one that has no value at transform time keeps its
//! initializer, with its references to earlier members rewritten, and is
//! entered in the table as known but without a value.

use crate::ast::{
    Decl, DeclView, EnumDecl, EnumDeclView, EnumMember, EnumMemberView, Expr, ExprKind,
    ExprKindView, ExprView, Ident, IdentView, Lit, LitView, ModuleItem, ModuleItemView, Prop,
    PropView, Stmt, StmtView, VarDecl, VarDeclKind, VarDeclView,
};
use crate::enum_to_obj::{ArithOp, EnumToObjVisitor};
use crate::evaluate::{EnumValues, Literal, LiteralView, Unresolvable};
use crate::number::Number;
use crate::object::{declare, object_literal, single_declaration};
use crate::rewrite::{rewrite_expr, rewritten};
use vstd::prelude::*;

verus! {

/// A member that has neither a value nor an initializer to keep.
#[derive(Debug, PartialEq, Eq)]
pub struct InvalidEnum {
    pub enum_name: String,
    pub member: String,
}

/// The literal expression that writes a value: a template's text is
/// written as a string.
pub open spec fn literal_expr(v: LiteralView) -> ExprView {
    ExprView {
        handle: None,
        kind: ExprKindView::Lit(
            match v {
                LiteralView::Num(n) => LitView::Num(n),
                LiteralView::Str(s) => LitView::Str(s),
                LiteralView::Bool(b) => LitView::Bool(b),
                LiteralView::Tpl(s) => LitView::Str(s),
                LiteralView::BigInt(s) => LitView::BigInt(s),
            },
        ),
    }
}

/// The expression a member is bound to, given the outcome of evaluating
/// it: its value where it has one, else its initializer rewritten; `None`
/// where there is neither.
pub open spec fn entry_value(
    enum_id: IdentView,
    member: EnumMemberView,
    outcome: Option<LiteralView>,
    names: Set<Seq<char>>,
) -> Option<ExprView> {
    match outcome {
        Some(v) => Some(literal_expr(v)),
        None => match member.init {
            Some(e) => Some(rewritten(e, enum_id, names)),
            None => None,
        },
    }
}

/// How far the lowering of an enum has come: the table of its members, the
/// default index of the next one, and the properties made so far.
pub struct Progress {
    pub values: Map<Seq<char>, Option<LiteralView>>,
    pub default_index: Number,
    pub props: Seq<PropView>,
}

/// Nothing lowered yet: the first default index is zero.
pub open spec fn start() -> Progress {
    Progress { values: Map::empty(), default_index: Number { bits: 0 }, props: Seq::empty() }
}

/// The literal expression that writes a value.
pub fn make_literal(v: Literal) -> (r: Expr)
    ensures
        r@ == literal_expr(v@),
{
    let lit = match v {
        Literal::Num(n) => Lit::Num(n),
        Literal::Str(s) => Lit::Str(s),
        Literal::Bool(b) => Lit::Bool(b),
        Literal::Tpl(s) => Lit::Str(s),
        Literal::BigInt(s) => Lit::BigInt(s),
    };
    Expr { handle: None, kind: ExprKind::Lit(lit) }
}

/// The expression a member is bound to, given the outcome of evaluating it.
///
/// A member without a value keeps its initializer, rewritten. One that has
/// neither is an error that names the enum and the member.
pub fn member_entry(
    enum_id: &Ident,
    member: &EnumMember,
    outcome: Result<Literal, Unresolvable>,
    values: &EnumValues,
) -> (r: Result<Expr, InvalidEnum>)
    ensures
        r matches Ok(e) ==> entry_value(
            enum_id@,
            member@,
            match outcome {
                Ok(v) => Some(v@),
                Err(_) => None,
            },
            values@.dom(),
        ) == Some(e@),
        r matches Err(err) ==> outcome is Err && member@.init is None && err.enum_name@
            == enum_id@.sym && err.member@ == member@.name,
{
    match outcome {
        Ok(v) => Ok(make_literal(v)),
        Err(_) => match &member.init {
            Some(e) => Ok(rewrite_expr(e, enum_id, values)),
            None => Err(
                InvalidEnum { enum_name: enum_id.sym.clone(), member: member.name.clone() },
            ),
        },
    }
}

impl<A: Fn(ArithOp, Number, Number) -> Number, T: Fn(Number) -> String> EnumToObjVisitor<A, T> {
    /// The lowering after one more member.
    pub open spec fn member_step(&self, enum_id: IdentView, before: Progress, m: EnumMemberView)
        -> Progress {
        let outcome = self.evaluation(before.default_index, m.init, before.values);
        Progress {
            values: before.values.insert(m.name, outcome),
            default_index: self.next_default(before.default_index, outcome),
            props: match entry_value(enum_id, m, outcome, before.values.dom()) {
                Some(e) => before.props.push(PropView::KeyValue(m.name, e)),
                None => before.props,
            },
        }
    }

    /// The lowering after all of the given members, in order.
    pub open spec fn members_lowered(&self, enum_id: IdentView, members: Seq<EnumMemberView>)
        -> Progress
        decreases members.len(),
    {
        if members.len() == 0 {
            start()
        } else {
            self.member_step(
                enum_id,
                self.members_lowered(enum_id, members.drop_last()),
                members.last(),
            )
        }
    }

    /// The declaration that an enum is lowered to: a constant of the enum's
    /// name, bound to an object with one property for each member.
    pub open spec fn lowered(&self, decl: EnumDeclView) -> VarDeclView {
        single_declaration(
            VarDeclKind::Const,
            decl.id,
            object_literal(self.members_lowered(decl.id, decl.members).props),
        )
    }

    /// The item that replaces a module item which declares an enum, plain
    /// or exported.
    #[verifier::opaque]
    pub open spec fn lowered_item(&self, item: ModuleItemView) -> Option<ModuleItemView> {
        match item {
            ModuleItemView::Stmt(StmtView::Decl(DeclView::TsEnum(d))) => Some(
                ModuleItemView::Stmt(StmtView::Decl(DeclView::Var(self.lowered(d)))),
            ),
            ModuleItemView::ExportDecl(DeclView::TsEnum(d)) => Some(
                ModuleItemView::ExportDecl(DeclView::Var(self.lowered(d))),
            ),
            _ => None,
        }
    }

    /// The default index of the member after one of this value.
    pub fn following_index(&self, default_index: Number, value: &Literal) -> (r: Number)
        requires
            self.wf(),
        ensures
            r == self.next_default(default_index, Some(value@)),
    {
        match value {
            Literal::Num(n) => self.successor(*n),
            _ => default_index,
        }
    }

    /// Lowers one member: enters it in the table, and gives its property
    /// and the default index of the member after it.
    pub fn lower_member(
        &self,
        enum_id: &Ident,
        member: &EnumMember,
        values: &mut EnumValues,
        default_index: Number,
    ) -> (r: Result<(Prop, Number), InvalidEnum>)
        requires
            self.wf(),
        ensures
            r matches Ok((prop, next)) && ({
                let after = self.member_step(
                    enum_id@,
                    Progress {
                        values: old(values)@,
                        default_index,
                        props: Seq::empty(),
                    },
                    member@,
                );
                &&& final(values)@ == after.values
                &&& next == after.default_index
                &&& after.props == seq![prop@]
            }),
    {
        let outcome = self.evaluate(default_index, member.init.as_ref(), values);
        let (known, next) = match &outcome {
            Ok(v) => (Some(v.duplicate()), self.following_index(default_index, v)),
            Err(_) => (None, default_index),
        };
        let entry = member_entry(enum_id, member, outcome, values);
        values.insert(member.name.clone(), known);
        match entry {
            Ok(value) => {
                let prop = Prop::KeyValue(member.name.clone(), value);
                assert(Seq::<PropView>::empty().push(prop@) =~= seq![prop@]);
                Ok((prop, next))
            },
            Err(err) => Err(err),
        }
    }

    /// Lowers an enum declaration.
    ///
    /// Every member becomes a property, so this never fails: a member
    /// without an initializer always has its default index for a value.
    pub fn lower_enum(&self, decl: &EnumDecl) -> (r: Result<VarDecl, InvalidEnum>)
        requires
            self.wf(),
        ensures
            r matches Ok(d) && d@ == self.lowered(decl@),
    {
        let ghost id = decl@.id;
        let ghost all = decl@.members;
        let mut values = EnumValues::new();
        let mut default_index = Number::from_bits(0);
        let mut props: Vec<Prop> = Vec::new();
        let mut i: usize = 0;
        assert(all.subrange(0, 0) =~= Seq::empty());
        assert(Prop::list_model(props) =~= Seq::empty());
        while i < decl.members.len()
            invariant
                self.wf(),
                i <= decl.members.len(),
                id == decl@.id,
                all == decl@.members,
                values@ == self.members_lowered(id, all.subrange(0, i as int)).values,
                default_index == self.members_lowered(
                    id,
                    all.subrange(0, i as int),
                ).default_index,
                Prop::list_model(props) == self.members_lowered(
                    id,
                    all.subrange(0, i as int),
                ).props,
            decreases decl.members.len() - i,
        {
            let member = &decl.members[i];
            assert(all[i as int] == member@);
            assert(all.subrange(0, i + 1).drop_last() =~= all.subrange(0, i as int));
            assert(all.subrange(0, i + 1).last() == member@);
            let ghost before = Prop::list_model(props);
            match self.lower_member(&decl.id, member, &mut values, default_index) {
                Ok((prop, next)) => {
                    props.push(prop);
                    assert(Prop::list_model(props) =~= before + seq![prop@]);
                    assert(before + seq![prop@] =~= before.push(prop@));
                    default_index = next;
                },
                Err(err) => {
                    return Err(err);
                },
            }
            i += 1;
        }
        assert(all.subrange(0, i as int) =~= all);
        let object = Expr { handle: None, kind: ExprKind::Object(props) };
        Ok(declare(VarDeclKind::Const, &decl.id, object))
    }

    /// The item that replaces a module item, where it declares an enum.
    pub fn lower_item(&self, item: &ModuleItem) -> (r: Option<ModuleItem>)
        requires
            self.wf(),
        ensures
            r matches Some(new) ==> self.lowered_item(item@) == Some(new@),
            r is None ==> self.lowered_item(item@) is None,
    {
        reveal(EnumToObjVisitor::lowered_item);
        if let Some(stmt) = item.as_stmt() {
            let decl = stmt.as_decl()?.as_ts_enum()?;
            // lowering has a property for every member, so it never fails
            return match self.lower_enum(decl) {
                Ok(v) => Some(ModuleItem::Stmt(Stmt::Decl(Decl::Var(v)))),
                Err(_) => None,
            };
        }
        let decl = item.as_export_decl()?.as_ts_enum()?;
        match self.lower_enum(decl) {
            Ok(v) => Some(ModuleItem::ExportDecl(Decl::Var(v))),
            Err(_) => None,
        }
    }

    /// The statement that replaces a statement, where it declares an enum.
    pub fn lower_stmt(&self, stmt: &Stmt) -> (r: Option<Stmt>)
        requires
            self.wf(),
        ensures
            r matches Some(new) ==> self.lowered_item(ModuleItemView::Stmt(stmt@)) == Some(
                ModuleItemView::Stmt(new@),
            ),
            r is None ==> self.lowered_item(ModuleItemView::Stmt(stmt@)) is None,
    {
        reveal(EnumToObjVisitor::lowered_item);
        let decl = stmt.as_decl()?.as_ts_enum()?;
        match self.lower_enum(decl) {
            Ok(v) => Some(Stmt::Decl(Decl::Var(v))),
            Err(_) => None,
        }
    }
}

} // verus!
