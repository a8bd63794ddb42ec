//! Building the object literal, and the declaration that binds it.

use crate::ast::{
    Expr, ExprKind, ExprKindView, ExprView, Ident, IdentView, Lit, LitView, Pat, PatView, Prop,
    PropView, VarDecl, VarDeclKind, VarDeclView, VarDeclarator, VarDeclaratorView,
};
use crate::compiled::{items_model, EnumItem, EnumItemView};
use crate::enum_to_obj::{ArithOp, EnumToObjVisitor};
use crate::number::Number;
use vstd::prelude::*;

verus! {

/// An object literal of the given properties.
pub open spec fn object_literal(props: Seq<PropView>) -> ExprView {
    ExprView { handle: None, kind: ExprKindView::Object(props) }
}

/// `kind name = init;`
pub open spec fn single_declaration(kind: VarDeclKind, name: IdentView, init: ExprView)
    -> VarDeclView {
    VarDeclView {
        kind,
        decls: seq![VarDeclaratorView { name: PatView::Ident(name), init: Some(init) }],
    }
}

/// Every key is a string or a number.
pub open spec fn keys_are_names(items: Seq<EnumItemView>) -> bool {
    forall|i: int| 0 <= i < items.len() ==> (#[trigger] items[i]).key is Str || items[i].key is Num
}

/// One declaration binding `name` to `init`.
pub fn declare(kind: VarDeclKind, name: &Ident, init: Expr) -> (r: VarDecl)
    ensures
        r@ == single_declaration(kind, name@, init@),
{
    let mut decls: Vec<VarDeclarator> = Vec::new();
    decls.push(VarDeclarator { name: Pat::Ident(name.duplicate()), init: Some(init) });
    let r = VarDecl { kind, decls };
    assert(r@.decls =~= single_declaration(kind, name@, init@).decls);
    r
}

impl<A: Fn(ArithOp, Number, Number) -> Number, T: Fn(Number) -> String> EnumToObjVisitor<A, T> {
    /// The property name that a key literal stands for: a string as it is,
    /// a number by its decimal text.
    pub open spec fn key_text(&self, key: LitView) -> Seq<char> {
        match key {
            LitView::Str(s) => s,
            LitView::Num(n) => self.decimal_text(n),
            _ => Seq::empty(),
        }
    }

    /// The property that an entry becomes.
    pub open spec fn entry_prop(&self, item: EnumItemView) -> PropView {
        PropView::KeyValue(self.key_text(item.key), item.value)
    }

    /// The object literal of a list of entries: one property for each, in
    /// their order, repeated keys included.
    pub open spec fn entries_object(&self, items: Seq<EnumItemView>) -> ExprView {
        object_literal(Seq::new(items.len(), |i: int| self.entry_prop(items[i])))
    }

    /// The object literal of a list of entries.
    pub fn build_obj(&self, enum_items: &Vec<EnumItem>) -> (r: Expr)
        requires
            self.wf(),
            keys_are_names(items_model(enum_items@)),
        ensures
            r@ == self.entries_object(items_model(enum_items@)),
    {
        let ghost items = items_model(enum_items@);
        let mut props: Vec<Prop> = Vec::new();
        let mut i: usize = 0;
        while i < enum_items.len()
            invariant
                i <= enum_items.len(),
                self.wf(),
                items == items_model(enum_items@),
                keys_are_names(items),
                props.len() == i,
                forall|j: int| 0 <= j < i ==> props[j]@ == self.entry_prop(#[trigger] items[j]),
            decreases enum_items.len() - i,
        {
            let item = &enum_items[i];
            assert(items[i as int] == item@);
            let key = match item.key {
                Lit::Str(s) => s.clone(),
                Lit::Num(n) => self.number_text(*n),
                _ => String::new(),
            };
            props.push(Prop::KeyValue(key, item.value.duplicate()));
            i += 1;
        }
        let r = Expr { handle: None, kind: ExprKind::Object(props) };
        assert(Prop::list_model(props) =~= Seq::new(
            items.len(),
            |i: int| self.entry_prop(items[i]),
        ));
        r
    }

    /// `var enum_id = { .. };` for a list of entries.
    pub fn build_obj_decl(&self, enum_id: &Ident, enum_items: &Vec<EnumItem>) -> (r: VarDecl)
        requires
            self.wf(),
            keys_are_names(items_model(enum_items@)),
        ensures
            r@ == single_declaration(
                VarDeclKind::Var,
                enum_id@,
                self.entries_object(items_model(enum_items@)),
            ),
    {
        declare(VarDeclKind::Var, enum_id, self.build_obj(enum_items))
    }
}

} // verus!
