//! The pass over one list of module items.
//!
//! The list is scanned once and left as it is; what the scan finds is
//! recorded by position, and the records are applied when the scan is over.
//! An enum declaration is replaced where it stands. A compiled enum takes
//! two items, and one item replaces them.

use crate::ast::{
    items_view, Decl, DeclView, ModuleItem, ModuleItemView, Stmt, StmtView, VarDecl, VarDeclKind,
    VarDeclView,
};
use crate::compiled::{
    as_export_var_decls, as_var_decls, body_items, compiled_enum, exported_var_decl,
    extract_enum, lemma_body_items_keys, plain_var_decl, var_iife, var_iife_stmt,
};
use crate::enum_to_obj::{ArithOp, EnumToObjVisitor};
use crate::number::Number;
use crate::object::single_declaration;
use crate::replace::{
    lemma_pairs_replaced_mapped, lemma_singles_replaced_mapped, mapped_records, pairs_fit,
    pairs_replaced, replace_each, replace_pairs, singles_fit, singles_replaced,
};
use vstd::prelude::*;

verus! {

/// Statements as module items.
pub open spec fn as_items(stmts: Seq<StmtView>) -> Seq<ModuleItemView> {
    Seq::new(stmts.len(), |i: int| ModuleItemView::Stmt(stmts[i]))
}

/// The views of a list of records of statements, as module items.
pub open spec fn stmt_records_view(records: Seq<(usize, Stmt)>) -> Seq<(usize, ModuleItemView)> {
    Seq::new(records.len(), |k: int| (records[k].0, ModuleItemView::Stmt(records[k].1@)))
}

/// The views of a list of records.
pub open spec fn records_view(records: Seq<(usize, ModuleItem)>) -> Seq<(usize, ModuleItemView)> {
    Seq::new(records.len(), |k: int| (records[k].0, records[k].1@))
}

impl<A: Fn(ArithOp, Number, Number) -> Number, T: Fn(Number) -> String> EnumToObjVisitor<A, T> {
    /// The declaration that a compiled enum folds to: `var X = { .. };` with
    /// the entries of its body, in their order.
    pub open spec fn folded(&self, decl: VarDeclView, next: ModuleItemView) -> Option<
        VarDeclView,
    > {
        match compiled_enum(decl, next) {
            Some((id, body)) => match body_items(id.sym, body) {
                Some(items) => Some(
                    single_declaration(VarDeclKind::Var, id, self.entries_object(items)),
                ),
                None => None,
            },
            None => None,
        }
    }

    /// The item that replaces two neighbours, where they are a compiled
    /// enum: exported if the declaration was.
    #[verifier::opaque]
    pub open spec fn compiled_item(&self, first: ModuleItemView, second: ModuleItemView)
        -> Option<ModuleItemView> {
        match (plain_var_decl(first), exported_var_decl(first)) {
            (Some(v), _) => match self.folded(v, second) {
                Some(d) => Some(ModuleItemView::Stmt(StmtView::Decl(DeclView::Var(d)))),
                None => None,
            },
            (_, Some(v)) => match self.folded(v, second) {
                Some(d) => Some(ModuleItemView::ExportDecl(DeclView::Var(d))),
                None => None,
            },
            _ => None,
        }
    }

    /// The compiled enums that start at one of the first `n` positions.
    pub open spec fn compiled_records(&self, list: Seq<ModuleItemView>, n: int) -> Seq<
        (usize, ModuleItemView),
    >
        decreases n,
    {
        if n <= 0 {
            Seq::empty()
        } else {
            let before = self.compiled_records(list, n - 1);
            if n < list.len() {
                match self.compiled_item(list[n - 1], list[n]) {
                    Some(item) => before.push(((n - 1) as usize, item)),
                    None => before,
                }
            } else {
                before
            }
        }
    }

    /// The enum declarations at the first `n` positions, lowered.
    pub open spec fn native_records(&self, list: Seq<ModuleItemView>, n: int) -> Seq<
        (usize, ModuleItemView),
    >
        decreases n,
    {
        if n <= 0 {
            Seq::empty()
        } else {
            let before = self.native_records(list, n - 1);
            if n <= list.len() {
                match self.lowered_item(list[n - 1]) {
                    Some(item) => before.push(((n - 1) as usize, item)),
                    None => before,
                }
            } else {
                before
            }
        }
    }

    /// The list after the pass: every enum declaration lowered where it
    /// stood, and every compiled enum folded into one item.
    pub open spec fn rewritten_items(&self, list: Seq<ModuleItemView>) -> Seq<ModuleItemView> {
        pairs_replaced(
            singles_replaced(list, self.native_records(list, list.len() as int)),
            self.compiled_records(list, list.len() as int),
        )
    }

    /// The second item of a compiled enum is not the first of another.
    pub proof fn lemma_no_overlap(&self, a: ModuleItemView, b: ModuleItemView, c: ModuleItemView)
        ensures
            !(self.compiled_item(a, b) is Some && self.compiled_item(b, c) is Some),
    {
        reveal(EnumToObjVisitor::compiled_item);
    }

    /// The positions of the compiled enums ascend, each is the first of two
    /// neighbours that fold, and no two share an item.
    pub proof fn lemma_compiled_records(&self, list: Seq<ModuleItemView>, n: int)
        requires
            list.len() <= usize::MAX,
        ensures
            forall|k: int|
                0 <= k < self.compiled_records(list, n).len() ==> {
                    let r = #[trigger] self.compiled_records(list, n)[k];
                    &&& r.0 < n
                    &&& r.0 + 1 < list.len()
                    &&& self.compiled_item(list[r.0 as int], list[r.0 + 1]) == Some(r.1)
                },
            pairs_fit(list.len(), self.compiled_records(list, n)),
        decreases n,
    {
        if n > 0 {
            self.lemma_compiled_records(list, n - 1);
            let before = self.compiled_records(list, n - 1);
            let now = self.compiled_records(list, n);
            if n < list.len() && self.compiled_item(list[n - 1], list[n]) is Some {
                assert forall|k: int| 0 <= k < before.len() implies (#[trigger] before[k]).0 + 2
                    <= n - 1 by {
                    let r = before[k];
                    if r.0 + 2 > n - 1 {
                        assert(r.0 == n - 2);
                        assert(self.compiled_item(list[n - 2], list[n - 1]) is Some);
                        self.lemma_no_overlap(list[n - 2], list[n - 1], list[n]);
                    }
                }
                assert forall|k: int, l: int| 0 <= k < l < now.len() implies (#[trigger] now[k]).0
                    + 2 <= (#[trigger] now[l]).0 by {
                    if l < before.len() {
                        assert(before[k].0 + 2 <= before[l].0);
                    } else {
                        assert(before[k].0 + 2 <= n - 1);
                    }
                }
            }
        }
    }

    /// The positions of the lowered declarations ascend, and each is that
    /// of an enum declaration.
    pub proof fn lemma_native_records(&self, list: Seq<ModuleItemView>, n: int)
        requires
            list.len() <= usize::MAX,
        ensures
            forall|k: int|
                0 <= k < self.native_records(list, n).len() ==> {
                    let r = #[trigger] self.native_records(list, n)[k];
                    &&& r.0 < n
                    &&& r.0 < list.len()
                    &&& self.lowered_item(list[r.0 as int]) == Some(r.1)
                },
            singles_fit(list.len(), self.native_records(list, n)),
        decreases n,
    {
        if n > 0 {
            self.lemma_native_records(list, n - 1);
            let before = self.native_records(list, n - 1);
            let now = self.native_records(list, n);
            if n <= list.len() && self.lowered_item(list[n - 1]) is Some {
                assert forall|k: int, l: int| 0 <= k < l < now.len() implies (#[trigger] now[k]).0
                    < (#[trigger] now[l]).0 by {
                    if l < before.len() {
                        assert(before[k].0 < before[l].0);
                    } else {
                        assert(before[k].0 < n - 1);
                    }
                }
            }
        }
    }

    /// Folds a declaration and the item after it, where they are a
    /// compiled enum.
    fn fold_pair(&self, var_decls: &VarDecl, next_stmt: &ModuleItem) -> (r: Option<VarDecl>)
        requires
            self.wf(),
        ensures
            r matches Some(d) ==> self.folded(var_decls@, next_stmt@) == Some(d@),
            r is None ==> self.folded(var_decls@, next_stmt@) is None,
    {
        let (enum_id, enum_stmts) = var_iife(var_decls, next_stmt)?;
        let enum_items = extract_enum(enum_id, enum_stmts)?;
        proof {
            lemma_body_items_keys(enum_id@.sym, Stmt::list_model(*enum_stmts));
        }
        Some(self.build_obj_decl(enum_id, &enum_items))
    }

    /// The item that replaces two neighbours, where they are a compiled enum.
    pub fn compiled_replacement(&self, first: &ModuleItem, second: &ModuleItem) -> (r: Option<
        ModuleItem,
    >)
        requires
            self.wf(),
        ensures
            r matches Some(item) ==> self.compiled_item(first@, second@) == Some(item@),
            r is None ==> self.compiled_item(first@, second@) is None,
    {
        reveal(EnumToObjVisitor::compiled_item);
        if let Some(var_decls) = as_var_decls(first) {
            let obj_decl = self.fold_pair(var_decls, second)?;
            return Some(ModuleItem::Stmt(Stmt::Decl(Decl::Var(obj_decl))));
        }
        if let Some(var_decls) = as_export_var_decls(first) {
            let obj_decl = self.fold_pair(var_decls, second)?;
            return Some(ModuleItem::ExportDecl(Decl::Var(obj_decl)));
        }
        None
    }

    /// Scans the list for compiled enums: for each, where it starts and
    /// the item that replaces its two.
    pub fn compiled_replacements(&self, stmts: &Vec<ModuleItem>) -> (r: Vec<(usize, ModuleItem)>)
        requires
            self.wf(),
        ensures
            records_view(r@) == self.compiled_records(items_view(*stmts), stmts.len() as int),
            pairs_fit(stmts@.len(), r@),
    {
        let ghost list = items_view(*stmts);
        let mut replacements: Vec<(usize, ModuleItem)> = Vec::new();
        let mut i: usize = 0;
        assert(records_view(replacements@) =~= Seq::empty());
        while i < stmts.len()
            invariant
                self.wf(),
                i <= stmts.len(),
                list == items_view(*stmts),
                records_view(replacements@) == self.compiled_records(list, i as int),
            decreases stmts.len() - i,
        {
            let ghost before = replacements@;
            if i + 1 < stmts.len() {
                if let Some(item) = self.compiled_replacement(&stmts[i], &stmts[i + 1]) {
                    replacements.push((i, item));
                    assert(records_view(replacements@) =~= records_view(before).push(
                        (i, item@),
                    ));
                }
            }
            i += 1;
        }
        proof {
            self.lemma_compiled_records(list, stmts.len() as int);
            let views = records_view(replacements@);
            assert forall|k: int| 0 <= k < replacements@.len() implies (
            #[trigger] replacements@[k]).0 + 2 <= stmts@.len() by {
                assert(views[k].0 == replacements@[k].0);
            }
            assert forall|k: int, l: int| 0 <= k < l < replacements@.len() implies (
            #[trigger] replacements@[k]).0 + 2 <= (#[trigger] replacements@[l]).0 by {
                assert(views[k].0 == replacements@[k].0);
                assert(views[l].0 == replacements@[l].0);
                assert(views[k].0 + 2 <= views[l].0);
            }
        }
        replacements
    }

    /// Scans the list for enum declarations: for each, where it stands and
    /// the item that replaces it.
    pub fn native_replacements(&self, stmts: &Vec<ModuleItem>) -> (r: Vec<(usize, ModuleItem)>)
        requires
            self.wf(),
        ensures
            records_view(r@) == self.native_records(items_view(*stmts), stmts.len() as int),
            singles_fit(stmts@.len(), r@),
    {
        let ghost list = items_view(*stmts);
        let mut replacements: Vec<(usize, ModuleItem)> = Vec::new();
        let mut i: usize = 0;
        assert(records_view(replacements@) =~= Seq::empty());
        while i < stmts.len()
            invariant
                self.wf(),
                i <= stmts.len(),
                list == items_view(*stmts),
                records_view(replacements@) == self.native_records(list, i as int),
            decreases stmts.len() - i,
        {
            let ghost before = replacements@;
            if let Some(item) = self.lower_item(&stmts[i]) {
                replacements.push((i, item));
                assert(records_view(replacements@) =~= records_view(before).push((i, item@)));
            }
            i += 1;
        }
        proof {
            self.lemma_native_records(list, stmts.len() as int);
            let views = records_view(replacements@);
            assert forall|k: int| 0 <= k < replacements@.len() implies (
            #[trigger] replacements@[k]).0 < stmts@.len() by {
                assert(views[k].0 == replacements@[k].0);
            }
            assert forall|k: int, l: int| 0 <= k < l < replacements@.len() implies (
            #[trigger] replacements@[k]).0 < (#[trigger] replacements@[l]).0 by {
                assert(views[k].0 == replacements@[k].0);
                assert(views[l].0 == replacements@[l].0);
                assert(views[k].0 < views[l].0);
            }
        }
        replacements
    }

    /// Runs the pass over a list of module items.
    ///
    /// Every enum declaration becomes a constant bound to an object
    /// literal, and every compiled enum one `var` bound to an object
    /// literal; both stay exported where they were. All other items stay as
    /// they are, in their order.
    pub fn visit_mut_module_items(&mut self, stmts: &mut Vec<ModuleItem>)
        requires
            old(self).wf(),
        ensures
            *final(self) == *old(self),
            items_view(*final(stmts)) == old(self).rewritten_items(items_view(*old(stmts))),
    {
        let ghost before = stmts@;
        let ghost view = |x: ModuleItem| x@;
        let natives = self.native_replacements(stmts);
        let compiled = self.compiled_replacements(stmts);
        let ghost native_records = natives@;
        let ghost compiled_records = compiled@;
        replace_each(stmts, natives);
        proof {
            lemma_singles_replaced_mapped(before, native_records, view);
        }
        let ghost lowered = stmts@;
        replace_pairs(stmts, compiled);
        proof {
            lemma_pairs_replaced_mapped(lowered, compiled_records, view);
            assert(items_view(*stmts) =~= stmts@.map_values(view));
            assert(before.map_values(view) =~= items_view(*old(stmts)));
            assert(mapped_records(native_records, view) =~= records_view(native_records));
            assert(mapped_records(compiled_records, view) =~= records_view(compiled_records));
        }
    }

    /// The statement that replaces two neighbours, where they are a
    /// compiled enum.
    pub fn compiled_stmt_replacement(&self, first: &Stmt, second: &Stmt) -> (r: Option<Stmt>)
        requires
            self.wf(),
        ensures
            r matches Some(stmt) ==> self.compiled_item(
                ModuleItemView::Stmt(first@),
                ModuleItemView::Stmt(second@),
            ) == Some(ModuleItemView::Stmt(stmt@)),
            r is None ==> self.compiled_item(
                ModuleItemView::Stmt(first@),
                ModuleItemView::Stmt(second@),
            ) is None,
    {
        reveal(EnumToObjVisitor::compiled_item);
        let var_decls = first.as_decl()?.as_var()?;
        let (enum_id, enum_stmts) = var_iife_stmt(var_decls, second)?;
        let enum_items = extract_enum(enum_id, enum_stmts)?;
        proof {
            lemma_body_items_keys(enum_id@.sym, Stmt::list_model(*enum_stmts));
        }
        Some(Stmt::Decl(Decl::Var(self.build_obj_decl(enum_id, &enum_items))))
    }

    /// Scans a list of statements for compiled enums.
    pub fn compiled_stmt_replacements(&self, stmts: &Vec<Stmt>) -> (r: Vec<(usize, Stmt)>)
        requires
            self.wf(),
        ensures
            stmt_records_view(r@) == self.compiled_records(
                as_items(Stmt::list_model(*stmts)),
                stmts.len() as int,
            ),
            pairs_fit(stmts@.len(), r@),
    {
        let ghost list = as_items(Stmt::list_model(*stmts));
        let mut replacements: Vec<(usize, Stmt)> = Vec::new();
        let mut i: usize = 0;
        assert(stmt_records_view(replacements@) =~= Seq::empty());
        while i < stmts.len()
            invariant
                self.wf(),
                i <= stmts.len(),
                list == as_items(Stmt::list_model(*stmts)),
                stmt_records_view(replacements@) == self.compiled_records(list, i as int),
            decreases stmts.len() - i,
        {
            let ghost before = replacements@;
            if i + 1 < stmts.len() {
                if let Some(stmt) = self.compiled_stmt_replacement(&stmts[i], &stmts[i + 1]) {
                    replacements.push((i, stmt));
                    assert(stmt_records_view(replacements@) =~= stmt_records_view(before).push(
                        (i, ModuleItemView::Stmt(stmt@)),
                    ));
                }
            }
            i += 1;
        }
        proof {
            self.lemma_compiled_records(list, stmts.len() as int);
            let views = stmt_records_view(replacements@);
            assert forall|k: int| 0 <= k < replacements@.len() implies (
            #[trigger] replacements@[k]).0 + 2 <= stmts@.len() by {
                assert(views[k].0 == replacements@[k].0);
            }
            assert forall|k: int, l: int| 0 <= k < l < replacements@.len() implies (
            #[trigger] replacements@[k]).0 + 2 <= (#[trigger] replacements@[l]).0 by {
                assert(views[k].0 == replacements@[k].0);
                assert(views[l].0 == replacements@[l].0);
                assert(views[k].0 + 2 <= views[l].0);
            }
        }
        replacements
    }

    /// Scans a list of statements for enum declarations.
    pub fn native_stmt_replacements(&self, stmts: &Vec<Stmt>) -> (r: Vec<(usize, Stmt)>)
        requires
            self.wf(),
        ensures
            stmt_records_view(r@) == self.native_records(
                as_items(Stmt::list_model(*stmts)),
                stmts.len() as int,
            ),
            singles_fit(stmts@.len(), r@),
    {
        let ghost list = as_items(Stmt::list_model(*stmts));
        let mut replacements: Vec<(usize, Stmt)> = Vec::new();
        let mut i: usize = 0;
        assert(stmt_records_view(replacements@) =~= Seq::empty());
        while i < stmts.len()
            invariant
                self.wf(),
                i <= stmts.len(),
                list == as_items(Stmt::list_model(*stmts)),
                stmt_records_view(replacements@) == self.native_records(list, i as int),
            decreases stmts.len() - i,
        {
            let ghost before = replacements@;
            assert(list[i as int] == ModuleItemView::Stmt(stmts[i as int]@));
            if let Some(stmt) = self.lower_stmt(&stmts[i]) {
                replacements.push((i, stmt));
                assert(stmt_records_view(replacements@) =~= stmt_records_view(before).push(
                    (i, ModuleItemView::Stmt(stmt@)),
                ));
            }
            i += 1;
        }
        proof {
            self.lemma_native_records(list, stmts.len() as int);
            let views = stmt_records_view(replacements@);
            assert forall|k: int| 0 <= k < replacements@.len() implies (
            #[trigger] replacements@[k]).0 < stmts@.len() by {
                assert(views[k].0 == replacements@[k].0);
            }
            assert forall|k: int, l: int| 0 <= k < l < replacements@.len() implies (
            #[trigger] replacements@[k]).0 < (#[trigger] replacements@[l]).0 by {
                assert(views[k].0 == replacements@[k].0);
                assert(views[l].0 == replacements@[l].0);
                assert(views[k].0 < views[l].0);
            }
        }
        replacements
    }

    /// Runs the pass over a list of statements, as over a list of module
    /// items none of which is exported.
    pub fn visit_mut_stmts(&mut self, stmts: &mut Vec<Stmt>)
        requires
            old(self).wf(),
        ensures
            *final(self) == *old(self),
            as_items(Stmt::list_model(*final(stmts))) == old(self).rewritten_items(
                as_items(Stmt::list_model(*old(stmts))),
            ),
    {
        let ghost before = stmts@;
        let ghost view = |x: Stmt| ModuleItemView::Stmt(x@);
        let natives = self.native_stmt_replacements(stmts);
        let compiled = self.compiled_stmt_replacements(stmts);
        let ghost native_records = natives@;
        let ghost compiled_records = compiled@;
        replace_each(stmts, natives);
        proof {
            lemma_singles_replaced_mapped(before, native_records, view);
        }
        let ghost lowered = stmts@;
        replace_pairs(stmts, compiled);
        proof {
            lemma_pairs_replaced_mapped(lowered, compiled_records, view);
            assert(as_items(Stmt::list_model(*stmts)) =~= stmts@.map_values(view));
            assert(before.map_values(view) =~= as_items(Stmt::list_model(*old(stmts))));
            assert(mapped_records(native_records, view) =~= stmt_records_view(native_records));
            assert(mapped_records(compiled_records, view) =~= stmt_records_view(
                compiled_records,
            ));
        }
    }
}

} // verus!
