//! What holds of the pass as a whole.

use crate::ast::{
    BinaryOp, DeclView, EnumDeclView, EnumMemberView, ExprKindView, ExprView, IdentView, LitView,
    ModuleItemView, PropView, StmtView, VarDeclKind, VarDeclView,
};
use crate::compiled::{body_items, compiled_enum, EnumItemView};
use crate::enum_to_obj::{ArithOp, EnumToObjVisitor};
use crate::evaluate::LiteralView;
use crate::lower::{literal_expr, Progress};
use crate::number::{Number, MAX_INDEX};
use crate::object::{object_literal, single_declaration};
use crate::replace::{
    lemma_pairs_replaced_len, lemma_pairs_replaced_tail, pairs_fit, pairs_replaced,
    singles_replaced,
};
use crate::rewrite::member_access;
use vstd::prelude::*;

verus! {

/// The item that holds a declaration, exported or not.
pub open spec fn declaration_item(exported: bool, decl: VarDeclView) -> ModuleItemView {
    if exported {
        ModuleItemView::ExportDecl(DeclView::Var(decl))
    } else {
        ModuleItemView::Stmt(StmtView::Decl(DeclView::Var(decl)))
    }
}

/// The declaration that a list of entries folds to.
pub open spec fn entries_declaration(id: IdentView, props: Seq<PropView>) -> VarDeclView {
    single_declaration(VarDeclKind::Var, id, object_literal(props))
}

impl<A: Fn(ArithOp, Number, Number) -> Number, T: Fn(Number) -> String> EnumToObjVisitor<A, T> {
    /// A compiled enum folds to a single declaration. Its object literal has
    /// one property for each entry taken from the body, in the same order,
    /// and the declaration is exported exactly if the `var` was.
    pub proof fn lemma_compiled_enum_folds(
        &self,
        first: ModuleItemView,
        second: ModuleItemView,
        decl: VarDeclView,
        exported: bool,
        id: IdentView,
        body: Seq<StmtView>,
        items: Seq<EnumItemView>,
    )
        requires
            first == declaration_item(exported, decl),
            compiled_enum(decl, second) == Some((id, body)),
            body_items(id.sym, body) == Some(items),
        ensures
            ({
                let props = Seq::new(items.len(), |i: int| self.entry_prop(items[i]));
                &&& props.len() == items.len()
                &&& forall|i: int|
                    0 <= i < items.len() ==> #[trigger] props[i] == PropView::KeyValue(
                        self.key_text(items[i].key),
                        items[i].value,
                    )
                &&& self.compiled_item(first, second) == Some(
                    declaration_item(exported, entries_declaration(id, props)),
                )
                &&& self.rewritten_items(seq![first, second]) == seq![
                    declaration_item(exported, entries_declaration(id, props)),
                ]
            }),
    {
        reveal(EnumToObjVisitor::compiled_item);
        reveal(EnumToObjVisitor::lowered_item);
        let props = Seq::new(items.len(), |i: int| self.entry_prop(items[i]));
        let item = declaration_item(exported, entries_declaration(id, props));
        let list = seq![first, second];
        assert(self.compiled_item(first, second) == Some(item));
        assert(self.lowered_item(first) is None);
        assert(self.lowered_item(second) is None);
        assert(self.native_records(list, 0) =~= Seq::empty());
        assert(self.native_records(list, 1) =~= Seq::empty());
        assert(self.native_records(list, 2) =~= Seq::empty());
        assert(self.compiled_records(list, 0) =~= Seq::empty());
        assert(self.compiled_records(list, 1) =~= seq![(0usize, item)]);
        assert(self.compiled_records(list, 2) =~= seq![(0usize, item)]);
        let records = seq![(0usize, item)];
        assert(records.drop_last() =~= Seq::empty());
        assert(pairs_replaced(list.subrange(0, 0), records.drop_last()) =~= Seq::empty());
        assert(pairs_replaced(list, records) =~= seq![item]);
    }

    /// Lowering makes one property for each member.
    pub proof fn lemma_one_property_each(&self, id: IdentView, members: Seq<EnumMemberView>)
        ensures
            self.members_lowered(id, members).props.len() == members.len(),
        decreases members.len(),
    {
        if members.len() > 0 {
            self.lemma_one_property_each(id, members.drop_last());
        }
    }

    /// An enum whose members have no initializers: the member at position
    /// `i`, counted from zero, is bound to the number `i`, under its own
    /// name.
    pub proof fn lemma_auto_increment(&self, decl: EnumDeclView)
        requires
            decl.members.len() <= MAX_INDEX,
            forall|i: int| 0 <= i < decl.members.len() ==> (#[trigger] decl.members[i]).init is None,
        ensures
            self.lowered(decl) == single_declaration(
                VarDeclKind::Const,
                decl.id,
                object_literal(
                    Seq::new(
                        decl.members.len(),
                        |i: int|
                            PropView::KeyValue(
                                decl.members[i].name,
                                literal_expr(LiteralView::Num(Number::of_int(i))),
                            ),
                    ),
                ),
            ),
    {
        self.lemma_counts_from_zero(decl.id, decl.members);
    }

    /// After members without initializers, the default index is their
    /// count, and each is bound to its position.
    pub proof fn lemma_counts_from_zero(&self, id: IdentView, members: Seq<EnumMemberView>)
        requires
            members.len() <= MAX_INDEX,
            forall|i: int| 0 <= i < members.len() ==> (#[trigger] members[i]).init is None,
        ensures
            self.members_lowered(id, members).default_index == Number::of_int(
                members.len() as int,
            ),
            self.members_lowered(id, members).props == Seq::new(
                members.len(),
                |i: int|
                    PropView::KeyValue(
                        members[i].name,
                        literal_expr(LiteralView::Num(Number::of_int(i))),
                    ),
            ),
        decreases members.len(),
    {
        let goal = Seq::new(
            members.len(),
            |i: int|
                PropView::KeyValue(
                    members[i].name,
                    literal_expr(LiteralView::Num(Number::of_int(i))),
                ),
        );
        if members.len() == 0 {
            assert(self.members_lowered(id, members).props =~= goal);
        } else {
            let rest = members.drop_last();
            self.lemma_counts_from_zero(id, rest);
            self.lemma_successor_of_whole(rest.len() as int);
            assert(members.last().init is None);
            assert(self.members_lowered(id, members).props =~= goal);
        }
    }

    /// The properties of the first members are the first properties of all.
    pub proof fn lemma_properties_of_prefix(
        &self,
        id: IdentView,
        members: Seq<EnumMemberView>,
        k: int,
    )
        requires
            0 <= k <= members.len(),
        ensures
            self.members_lowered(id, members.subrange(0, k)).props == self.members_lowered(
                id,
                members,
            ).props.subrange(0, k),
        decreases members.len() - k,
    {
        self.lemma_one_property_each(id, members);
        self.lemma_one_property_each(id, members.subrange(0, k));
        if k == members.len() {
            assert(members.subrange(0, k) =~= members);
            assert(self.members_lowered(id, members).props.subrange(0, k)
                =~= self.members_lowered(id, members).props);
        } else {
            self.lemma_properties_of_prefix(id, members, k + 1);
            assert(members.subrange(0, k + 1).drop_last() =~= members.subrange(0, k));
            self.lemma_one_property_each(id, members.subrange(0, k + 1));
            assert(self.members_lowered(id, members.subrange(0, k)).props
                =~= self.members_lowered(id, members).props.subrange(0, k));
        }
    }

    /// The member after one with a number for its initializer, if it has no
    /// initializer itself, is bound to one more than that number, wherever
    /// in the enum the two stand.
    pub proof fn lemma_increment_from_initializer(
        &self,
        id: IdentView,
        members: Seq<EnumMemberView>,
        p: int,
        n: Number,
    )
        requires
            0 <= p,
            p + 1 < members.len(),
            members[p].init matches Some(e) && e.kind == ExprKindView::Lit(LitView::Num(n)),
            members[p + 1].init is None,
        ensures
            self.members_lowered(id, members).props[p + 1] == PropView::KeyValue(
                members[p + 1].name,
                literal_expr(LiteralView::Num(self.successor_of(n))),
            ),
    {
        let two = members.subrange(0, p + 2);
        let one = members.subrange(0, p + 1);
        assert(two.drop_last() =~= one);
        assert(two.last() == members[p + 1]);
        assert(one.last() == members[p]);
        self.lemma_one_property_each(id, one);
        self.lemma_one_property_each(id, two);
        let part = self.members_lowered(id, two).props;
        assert(part[p + 1] == PropView::KeyValue(
            members[p + 1].name,
            literal_expr(LiteralView::Num(self.successor_of(n))),
        ));
        self.lemma_properties_of_prefix(id, members, p + 2);
        self.lemma_one_property_each(id, members);
        let all = self.members_lowered(id, members).props;
        assert(part == all.subrange(0, p + 2));
        assert(all.subrange(0, p + 2)[p + 1] == all[p + 1]);
    }

    /// A member with a whole number `k` for its initializer is bound to
    /// `k`, and the members after it that have no initializer are bound to
    /// `k + 1`, `k + 2` and so on, wherever in the enum they stand.
    pub proof fn lemma_increment_continues(
        &self,
        id: IdentView,
        members: Seq<EnumMemberView>,
        p: int,
        k: int,
    )
        requires
            0 <= p < members.len(),
            members[p].init matches Some(e) && e.kind == ExprKindView::Lit(
                LitView::Num(Number::of_int(k)),
            ),
            -MAX_INDEX <= k,
            k + (members.len() - p) <= MAX_INDEX,
            forall|q: int| p < q < members.len() ==> (#[trigger] members[q]).init is None,
        ensures
            self.members_lowered(id, members).default_index == Number::of_int(
                k + (members.len() - p),
            ),
            forall|q: int|
                p <= q < members.len() ==> #[trigger] self.members_lowered(id, members).props[q]
                    == PropView::KeyValue(
                    members[q].name,
                    literal_expr(LiteralView::Num(Number::of_int(k + (q - p)))),
                ),
        decreases members.len(),
    {
        let rest = members.drop_last();
        let done = self.members_lowered(id, members);
        let before = self.members_lowered(id, rest);
        self.lemma_one_property_each(id, rest);
        self.lemma_one_property_each(id, members);
        let last = members.len() - 1;
        if p == last {
            self.lemma_successor_of_whole(k);
            assert(done.props[last] == PropView::KeyValue(
                members[last].name,
                literal_expr(LiteralView::Num(Number::of_int(k))),
            ));
        } else {
            assert(rest[p] == members[p]);
            assert forall|q: int| p < q < rest.len() implies (#[trigger] rest[q]).init is None by {
                assert(rest[q] == members[q]);
            }
            self.lemma_increment_continues(id, rest, p, k);
            let index = k + (last - p);
            assert(before.default_index == Number::of_int(index));
            assert(members[last].init is None);
            self.lemma_successor_of_whole(index);
            assert(done.props[last] == PropView::KeyValue(
                members[last].name,
                literal_expr(LiteralView::Num(Number::of_int(index))),
            ));
            assert forall|q: int| p <= q < members.len() implies #[trigger] done.props[q]
                == PropView::KeyValue(
                members[q].name,
                literal_expr(LiteralView::Num(Number::of_int(k + (q - p)))),
            ) by {
                if q < last {
                    assert(done.props[q] == before.props[q]);
                    assert(rest[q] == members[q]);
                }
            }
        }
    }

    /// A string plus a number is the string followed by the decimal text
    /// of the number, and a number plus a string the text followed by the
    /// string.
    pub proof fn lemma_string_plus_number(
        &self,
        left: ExprView,
        right: ExprView,
        handle: Option<u64>,
        values: Map<Seq<char>, Option<LiteralView>>,
    )
        ensures
            ({
                let sum = ExprView {
                    handle,
                    kind: ExprKindView::Bin(BinaryOp::Add, Box::new(left), Box::new(right)),
                };
                match (self.evaluated(left, values), self.evaluated(right, values)) {
                    (Some(LiteralView::Str(a)), Some(LiteralView::Num(b))) => self.evaluated(
                        sum,
                        values,
                    ) == Some(LiteralView::Str(a + self.decimal_text(b))),
                    (Some(LiteralView::Num(a)), Some(LiteralView::Str(b))) => self.evaluated(
                        sum,
                        values,
                    ) == Some(LiteralView::Str(self.decimal_text(a) + b)),
                    _ => true,
                }
            }),
    {
    }

    /// A member whose initializer is the name of an earlier member is bound
    /// to that member's value where it has one, and to a property access on
    /// the enum where that member is only known to exist.
    pub proof fn lemma_reference_to_member(
        &self,
        id: IdentView,
        before: Progress,
        member: EnumMemberView,
        name: Seq<char>,
    )
        requires
            member.init matches Some(e) && e.kind == ExprKindView::Ident(name),
            before.values.dom().contains(name),
        ensures
            ({
                let after = self.member_step(id, before, member);
                &&& after.props.len() == before.props.len() + 1
                &&& after.props.last() == PropView::KeyValue(
                    member.name,
                    match before.values[name] {
                        Some(v) => literal_expr(v),
                        None => member_access(id, name),
                    },
                )
                &&& after.values == before.values.insert(member.name, before.values[name])
            }),
    {
    }

    /// Every member lowered so far is in the table.
    pub proof fn lemma_members_are_entered(
        &self,
        id: IdentView,
        members: Seq<EnumMemberView>,
        q: int,
    )
        requires
            0 <= q < members.len(),
        ensures
            self.members_lowered(id, members).values.dom().contains(members[q].name),
        decreases members.len(),
    {
        if q < members.len() - 1 {
            self.lemma_members_are_entered(id, members.drop_last(), q);
        }
    }

    /// In an enum, a member whose initializer is the name of a member
    /// before it is bound to what the table holds for that member when its
    /// turn comes: the literal of its value, or, where it has none, a
    /// property access on the enum.
    pub proof fn lemma_reference_to_prior_member(
        &self,
        id: IdentView,
        members: Seq<EnumMemberView>,
        p: int,
        q: int,
    )
        requires
            0 <= q < p < members.len(),
            members[p].init matches Some(e) && e.kind == ExprKindView::Ident(members[q].name),
        ensures
            ({
                let before = self.members_lowered(id, members.subrange(0, p));
                &&& before.values.dom().contains(members[q].name)
                &&& self.members_lowered(id, members).props[p] == PropView::KeyValue(
                    members[p].name,
                    match before.values[members[q].name] {
                        Some(v) => literal_expr(v),
                        None => member_access(id, members[q].name),
                    },
                )
            }),
    {
        let upto = members.subrange(0, p);
        let with = members.subrange(0, p + 1);
        let before = self.members_lowered(id, upto);
        assert(upto[q] == members[q]);
        self.lemma_members_are_entered(id, upto, q);
        assert(with.drop_last() =~= upto);
        assert(with.last() == members[p]);
        self.lemma_reference_to_member(id, before, members[p], members[q].name);
        self.lemma_one_property_each(id, upto);
        self.lemma_one_property_each(id, with);
        self.lemma_one_property_each(id, members);
        let part = self.members_lowered(id, with).props;
        assert(part[p] == part.last());
        self.lemma_properties_of_prefix(id, members, p + 1);
        let all = self.members_lowered(id, members).props;
        assert(part == all.subrange(0, p + 1));
        assert(all.subrange(0, p + 1)[p] == all[p]);
    }

    /// Two neighbours at `j` fold into one item.
    pub open spec fn folds_at(&self, list: Seq<ModuleItemView>, j: int) -> bool {
        self.compiled_item(list[j], list[j + 1]) is Some
    }

    /// Nothing in the list is an enum in either form: no item declares one,
    /// and no two neighbours are a compiled one.
    pub open spec fn settled(&self, list: Seq<ModuleItemView>) -> bool {
        &&& forall|j: int| 0 <= j < list.len() ==> self.lowered_item(#[trigger] list[j]) is None
        &&& forall|j: int| 0 <= j && j + 1 < list.len() ==> !#[trigger] self.folds_at(list, j)
    }

    /// The pass leaves a settled list as it is.
    pub proof fn lemma_settled_is_kept(&self, list: Seq<ModuleItemView>)
        requires
            self.settled(list),
        ensures
            self.rewritten_items(list) == list,
    {
        self.lemma_settled_has_no_records(list, list.len() as int);
    }

    proof fn lemma_settled_has_no_records(&self, list: Seq<ModuleItemView>, n: int)
        requires
            self.settled(list),
        ensures
            self.native_records(list, n) == Seq::<(usize, ModuleItemView)>::empty(),
            self.compiled_records(list, n) == Seq::<(usize, ModuleItemView)>::empty(),
        decreases n,
    {
        if n > 0 {
            self.lemma_settled_has_no_records(list, n - 1);
            if n < list.len() {
                assert(!self.folds_at(list, n - 1));
            }
        }
    }

    /// Lowering the declarations changes exactly the items that declare an
    /// enum.
    proof fn lemma_lowered_list(&self, list: Seq<ModuleItemView>, n: int)
        requires
            list.len() <= usize::MAX,
        ensures
            singles_replaced(list, self.native_records(list, n)).len() == list.len(),
            forall|j: int|
                0 <= j < list.len() ==> #[trigger] singles_replaced(
                    list,
                    self.native_records(list, n),
                )[j] == (if j < n && self.lowered_item(list[j]) is Some {
                    self.lowered_item(list[j])->0
                } else {
                    list[j]
                }),
        decreases n,
    {
        if n > 0 {
            self.lemma_lowered_list(list, n - 1);
            let records = self.native_records(list, n);
            if n <= list.len() && self.lowered_item(list[n - 1]) is Some {
                assert(records.drop_last() =~= self.native_records(list, n - 1));
            }
        }
    }

    /// The list with everything folded that starts before position `m - 1`,
    /// cut off at `m`.
    pub open spec fn folded_upto(
        &self,
        list: Seq<ModuleItemView>,
        lowered: Seq<ModuleItemView>,
        m: int,
    ) -> Seq<ModuleItemView> {
        pairs_replaced(lowered.subrange(0, m), self.compiled_records(list, m - 1))
    }

    /// An item that is not the first of any compiled enum.
    pub open spec fn starts_nothing(&self, x: ModuleItemView) -> bool {
        forall|z: ModuleItemView| #[trigger] self.compiled_item(x, z) is None
    }

    /// An item that is not the second of any compiled enum.
    pub open spec fn ends_nothing(&self, x: ModuleItemView) -> bool {
        forall|z: ModuleItemView| #[trigger] self.compiled_item(z, x) is None
    }

    /// What the pass puts into a list is no enum any more, in either form,
    /// and an item that declares an enum is no part of a compiled one.
    proof fn lemma_new_items_are_settled(&self, a: ModuleItemView, b: ModuleItemView)
        ensures
            self.compiled_item(a, b) matches Some(item) ==> self.starts_nothing(item)
                && self.ends_nothing(item) && self.lowered_item(item) is None,
            self.lowered_item(a) matches Some(item) ==> self.starts_nothing(item)
                && self.ends_nothing(item) && self.lowered_item(item) is None,
    {
        reveal(EnumToObjVisitor::compiled_item);
        reveal(EnumToObjVisitor::lowered_item);
    }

    /// A settled list stays settled when an item is added that is no enum
    /// and does not complete one with the item before it.
    proof fn lemma_settled_push(&self, list: Seq<ModuleItemView>, x: ModuleItemView)
        requires
            self.settled(list),
            self.lowered_item(x) is None,
            list.len() > 0 ==> self.compiled_item(list.last(), x) is None,
        ensures
            self.settled(list.push(x)),
    {
        let now = list.push(x);
        assert forall|j: int| 0 <= j < now.len() implies self.lowered_item(#[trigger] now[j])
            is None by {
            if j < list.len() {
                assert(now[j] == list[j]);
            }
        }
        assert forall|j: int| 0 <= j && j + 1 < now.len() implies !#[trigger] self.folds_at(
            now,
            j,
        ) by {
            if j + 1 < list.len() {
                assert(!self.folds_at(list, j));
                assert(now[j] == list[j] && now[j + 1] == list[j + 1]);
            } else {
                assert(now[j] == list.last());
                assert(now[j + 1] == x);
            }
        }
    }

    /// Where two neighbours fold, the list folded up to and with them is
    /// the list folded before them, and their item.
    proof fn lemma_folded_upto_pair(
        &self,
        list: Seq<ModuleItemView>,
        lowered: Seq<ModuleItemView>,
        m: int,
    )
        requires
            list.len() <= usize::MAX,
            lowered.len() == list.len(),
            2 <= m <= list.len(),
            self.compiled_item(list[m - 2], list[m - 1]) is Some,
        ensures
            self.folded_upto(list, lowered, m) == self.folded_upto(list, lowered, m - 2).push(
                self.compiled_item(list[m - 2], list[m - 1])->0,
            ),
    {
        let item = self.compiled_item(list[m - 2], list[m - 1])->0;
        let records = self.compiled_records(list, m - 1);
        assert(records == self.compiled_records(list, m - 2).push(((m - 2) as usize, item)));
        assert(records.drop_last() =~= self.compiled_records(list, m - 2));
        assert(self.compiled_records(list, m - 2) == self.compiled_records(list, m - 3)) by {
            if m - 2 >= 1 {
                self.lemma_no_overlap(list[m - 3], list[m - 2], list[m - 1]);
            }
        }
        assert(lowered.subrange(0, m).subrange(0, m - 2) =~= lowered.subrange(0, m - 2));
        assert(lowered.subrange(0, m).subrange(m, m) =~= Seq::empty());
        assert(self.folded_upto(list, lowered, m) =~= self.folded_upto(list, lowered, m - 2).push(
            item,
        ));
    }

    /// Where the two neighbours before position `m` do not fold, the list
    /// folded up to `m` is the list folded up to `m - 1`, and the item
    /// before `m`.
    proof fn lemma_folded_upto_single(
        &self,
        list: Seq<ModuleItemView>,
        lowered: Seq<ModuleItemView>,
        m: int,
    )
        requires
            list.len() <= usize::MAX,
            lowered.len() == list.len(),
            1 <= m <= list.len(),
            m >= 2 ==> self.compiled_item(list[m - 2], list[m - 1]) is None,
        ensures
            self.folded_upto(list, lowered, m) == self.folded_upto(list, lowered, m - 1).push(
                lowered[m - 1],
            ),
    {
        let records = self.compiled_records(list, m - 1);
        self.lemma_compiled_records(list, m - 2);
        assert(records == self.compiled_records(list, m - 2));
        let head = lowered.subrange(0, m);
        assert(pairs_fit(head.len(), records)) by {
            assert forall|k: int| 0 <= k < records.len() implies (#[trigger] records[k]).0 + 2
                <= head.len() by {}
        }
        lemma_pairs_replaced_tail(head, records, m - 1);
        assert(head.subrange(0, m - 1) =~= lowered.subrange(0, m - 1));
        assert(head.subrange(m - 1, m) =~= seq![lowered[m - 1]]);
        assert(self.folded_upto(list, lowered, m) =~= self.folded_upto(list, lowered, m - 1).push(
            lowered[m - 1],
        ));
    }

    /// Two neighbours of the lowered list fold only where they did before
    /// the lowering.
    proof fn lemma_lowering_adds_no_pair(
        &self,
        list: Seq<ModuleItemView>,
        lowered: Seq<ModuleItemView>,
        j: int,
    )
        requires
            list.len() <= usize::MAX,
            lowered == singles_replaced(list, self.native_records(list, list.len() as int)),
            0 <= j,
            j + 1 < list.len(),
            self.compiled_item(list[j], list[j + 1]) is None,
        ensures
            self.compiled_item(lowered[j], lowered[j + 1]) is None,
    {
        self.lemma_lowered_list(list, list.len() as int);
        self.lemma_new_items_are_settled(list[j], list[j]);
        self.lemma_new_items_are_settled(list[j + 1], list[j + 1]);
    }

    /// The list folded up to any position is settled, and its last item is
    /// one that starts no compiled enum, or the item before that position.
    proof fn lemma_folded_upto(&self, list: Seq<ModuleItemView>, m: int)
        requires
            list.len() <= usize::MAX,
            0 <= m <= list.len(),
        ensures
            ({
                let lowered = singles_replaced(
                    list,
                    self.native_records(list, list.len() as int),
                );
                let now = self.folded_upto(list, lowered, m);
                &&& self.settled(now)
                &&& now.len() > 0 ==> self.starts_nothing(now.last()) || (m >= 1 && now.last()
                    == lowered[m - 1])
            }),
        decreases m,
    {
        let n = list.len() as int;
        let lowered = singles_replaced(list, self.native_records(list, n));
        self.lemma_lowered_list(list, n);
        let now = self.folded_upto(list, lowered, m);
        if m == 0 {
            assert(self.compiled_records(list, -1) =~= Seq::empty());
            assert(now =~= Seq::empty());
        } else if m >= 2 && self.compiled_item(list[m - 2], list[m - 1]) is Some {
            let item = self.compiled_item(list[m - 2], list[m - 1])->0;
            let before = self.folded_upto(list, lowered, m - 2);
            self.lemma_folded_upto(list, m - 2);
            self.lemma_folded_upto_pair(list, lowered, m);
            self.lemma_new_items_are_settled(list[m - 2], list[m - 1]);
            self.lemma_settled_push(before, item);
        } else {
            let before = self.folded_upto(list, lowered, m - 1);
            self.lemma_folded_upto(list, m - 1);
            self.lemma_folded_upto_single(list, lowered, m);
            self.lemma_new_items_are_settled(list[m - 1], list[m - 1]);
            if before.len() > 0 && !self.starts_nothing(before.last()) {
                self.lemma_lowering_adds_no_pair(list, lowered, m - 2);
            }
            self.lemma_settled_push(before, lowered[m - 1]);
        }
    }

    /// The pass shortens a list by one item for each compiled enum in it,
    /// and by nothing else.
    pub proof fn lemma_rewritten_length(&self, list: Seq<ModuleItemView>)
        requires
            list.len() <= usize::MAX,
        ensures
            self.rewritten_items(list).len() == list.len() - self.compiled_records(
                list,
                list.len() as int,
            ).len(),
    {
        let n = list.len() as int;
        self.lemma_lowered_list(list, n);
        self.lemma_compiled_records(list, n);
        lemma_pairs_replaced_len(
            singles_replaced(list, self.native_records(list, n)),
            self.compiled_records(list, n),
        );
    }

    /// Running the pass on its own result changes nothing: the result holds
    /// no enum in either form.
    pub proof fn lemma_idempotent(&self, list: Seq<ModuleItemView>)
        requires
            list.len() <= usize::MAX,
        ensures
            self.settled(self.rewritten_items(list)),
            self.rewritten_items(self.rewritten_items(list)) == self.rewritten_items(list),
    {
        let n = list.len() as int;
        let lowered = singles_replaced(list, self.native_records(list, n));
        self.lemma_lowered_list(list, n);
        self.lemma_folded_upto(list, n);
        assert(lowered.subrange(0, n) =~= lowered);
        assert(self.compiled_records(list, n) == self.compiled_records(list, n - 1)) by {
            if n == 0 {
                assert(self.compiled_records(list, -1) =~= Seq::empty());
            }
        }
        self.lemma_settled_is_kept(self.rewritten_items(list));
    }
}

} // verus!
