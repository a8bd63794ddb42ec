//! Putting new statements into a list after it has been scanned.
//!
//! The positions of the records are those of the list as it was scanned.

use vstd::prelude::*;

verus! {

/// The records are in ascending order, and each names a pair of neighbours
/// that no other record touches.
pub open spec fn pairs_fit<S>(len: nat, records: Seq<(usize, S)>) -> bool {
    &&& forall|k: int| 0 <= k < records.len() ==> (#[trigger] records[k]).0 + 2 <= len
    &&& forall|k: int, l: int|
        0 <= k < l < records.len() ==> (#[trigger] records[k]).0 + 2 <= (#[trigger] records[l]).0
}

/// The list with each recorded pair replaced by the record's statement.
pub open spec fn pairs_replaced<S>(list: Seq<S>, records: Seq<(usize, S)>) -> Seq<S>
    decreases records.len(),
{
    if records.len() == 0 {
        list
    } else {
        let (i, item) = records.last();
        pairs_replaced(list.subrange(0, i as int), records.drop_last()) + seq![item]
            + list.subrange(i + 2, list.len() as int)
    }
}

/// The records are in ascending order and inside the list.
pub open spec fn singles_fit<S>(len: nat, records: Seq<(usize, S)>) -> bool {
    &&& forall|k: int| 0 <= k < records.len() ==> (#[trigger] records[k]).0 < len
    &&& forall|k: int, l: int|
        0 <= k < l < records.len() ==> (#[trigger] records[k]).0 < (#[trigger] records[l]).0
}

/// The list with each recorded statement replaced by the record's.
pub open spec fn singles_replaced<S>(list: Seq<S>, records: Seq<(usize, S)>) -> Seq<S>
    decreases records.len(),
{
    if records.len() == 0 {
        list
    } else {
        let (i, item) = records.last();
        singles_replaced(list, records.drop_last()).update(i as int, item)
    }
}

/// Replacing pairs shortens the list by one statement for each record.
pub proof fn lemma_pairs_replaced_len<S>(list: Seq<S>, records: Seq<(usize, S)>)
    requires
        pairs_fit(list.len(), records),
    ensures
        pairs_replaced(list, records).len() == list.len() - records.len(),
    decreases records.len(),
{
    if records.len() > 0 {
        let i = records.last().0;
        assert(pairs_fit(list.subrange(0, i as int).len(), records.drop_last())) by {
            assert forall|k: int| 0 <= k < records.drop_last().len() implies (
            #[trigger] records.drop_last()[k]).0 + 2 <= i by {
                assert(records[k].0 + 2 <= records[records.len() - 1].0);
            }
        }
        lemma_pairs_replaced_len(list.subrange(0, i as int), records.drop_last());
    }
}

/// What lies after the last record is carried over as it is.
pub proof fn lemma_pairs_replaced_tail<S>(list: Seq<S>, records: Seq<(usize, S)>, from: int)
    requires
        pairs_fit(list.len(), records),
        0 <= from <= list.len(),
        records.len() > 0 ==> records.last().0 + 2 <= from,
    ensures
        pairs_replaced(list, records) == pairs_replaced(list.subrange(0, from), records)
            + list.subrange(from, list.len() as int),
    decreases records.len(),
{
    if records.len() == 0 {
        assert(list =~= list.subrange(0, from) + list.subrange(from, list.len() as int));
    } else {
        let i = records.last().0 as int;
        let item = records.last().1;
        let head = list.subrange(0, from);
        assert(head.subrange(0, i) =~= list.subrange(0, i));
        assert(list.subrange(i + 2, list.len() as int) =~= head.subrange(i + 2, from)
            + list.subrange(from, list.len() as int));
        assert(pairs_replaced(list, records) =~= pairs_replaced(head, records) + list.subrange(
            from,
            list.len() as int,
        ));
    }
}

/// Replaces each recorded pair of neighbours by the record's statement.
///
/// The records are applied in ascending order; each one shortens the list
/// by one, so the `j`-th finds its pair `j` places to the left.
pub fn replace_pairs<S>(list: &mut Vec<S>, records: Vec<(usize, S)>)
    requires
        pairs_fit(old(list)@.len(), records@),
    ensures
        final(list)@ == pairs_replaced(old(list)@, records@),
{
    let ghost before = list@;
    let ghost all = records@;
    let mut rest = records;
    let mut j: usize = 0;
    let ghost mut done: int = 0;
    assert(all.subrange(0, 0) =~= Seq::empty());
    assert(before.subrange(0, 0) + before.subrange(0, before.len() as int) =~= before);
    while rest.len() > 0
        invariant
            pairs_fit(before.len(), all),
            j <= all.len(),
            rest@ == all.subrange(j as int, all.len() as int),
            0 <= done <= before.len(),
            j > 0 ==> done == all[j - 1].0 + 2,
            j == 0 ==> done == 0,
            list@ == pairs_replaced(before.subrange(0, done), all.subrange(0, j as int))
                + before.subrange(done, before.len() as int),
            pairs_replaced(before.subrange(0, done), all.subrange(0, j as int)).len() == done
                - j,
        decreases rest.len(),
    {
        let (i, item) = rest.remove(0);
        assert(all[j as int] == (i, item));
        assert(j > 0 ==> all[j - 1].0 + 2 <= all[j as int].0);
        let ghost done_prefix = pairs_replaced(
            before.subrange(0, done),
            all.subrange(0, j as int),
        );
        let ghost upto = all.subrange(0, j + 1);
        let index: usize = i - j;
        list.remove(index);
        list.remove(index);
        list.insert(index, item);
        proof {
            let next = i + 2;
            assert(upto.drop_last() =~= all.subrange(0, j as int));
            assert(upto.last() == (i, item));
            assert(pairs_fit(before.subrange(0, i as int).len(), all.subrange(0, j as int))) by {
                assert forall|k: int| 0 <= k < j implies (#[trigger] all.subrange(
                    0,
                    j as int,
                )[k]).0 + 2 <= i by {
                    assert(all[k].0 + 2 <= all[j as int].0);
                }
            }
            lemma_pairs_replaced_tail(before.subrange(0, i as int), all.subrange(0, j as int), done);
            assert(before.subrange(0, i as int).subrange(0, done) =~= before.subrange(0, done));
            let head = before.subrange(0, next);
            assert(head.subrange(0, i as int) =~= before.subrange(0, i as int));
            assert(head.subrange(i + 2, head.len() as int) =~= Seq::<S>::empty());
            assert(pairs_replaced(head, upto) =~= done_prefix + before.subrange(done, i as int)
                + seq![item]);
            assert(list@ =~= pairs_replaced(head, upto) + before.subrange(
                next,
                before.len() as int,
            ));
            done = next;
        }
        j += 1;
        assert(rest@ =~= all.subrange(j as int, all.len() as int));
    }
    proof {
        assert(all.subrange(0, j as int) =~= all);
        if j == 0 {
            assert(list@ =~= before);
        } else {
            lemma_pairs_replaced_tail(before, all, done);
        }
    }
}

/// Replaces each recorded statement by the record's, in place.
pub fn replace_each<S>(list: &mut Vec<S>, records: Vec<(usize, S)>)
    requires
        singles_fit(old(list)@.len(), records@),
    ensures
        final(list)@ == singles_replaced(old(list)@, records@),
{
    let ghost before = list@;
    let ghost all = records@;
    let mut rest = records;
    let ghost mut j: int = 0;
    assert(all.subrange(0, 0) =~= Seq::empty());
    while rest.len() > 0
        invariant
            singles_fit(before.len(), all),
            0 <= j <= all.len(),
            rest@ == all.subrange(j, all.len() as int),
            list@.len() == before.len(),
            list@ == singles_replaced(before, all.subrange(0, j)),
        decreases rest.len(),
    {
        let (i, item) = rest.remove(0);
        assert(all[j] == (i, item));
        list.set(i, item);
        proof {
            assert(all.subrange(0, j + 1).drop_last() =~= all.subrange(0, j));
            assert(all.subrange(0, j + 1).last() == (i, item));
            j = j + 1;
        }
        assert(rest@ =~= all.subrange(j, all.len() as int));
    }
    assert(all.subrange(0, j) =~= all);
}

/// The records with a function applied to each statement.
pub open spec fn mapped_records<S, V>(records: Seq<(usize, S)>, m: spec_fn(S) -> V) -> Seq<
    (usize, V),
> {
    Seq::new(records.len(), |k: int| (records[k].0, m(records[k].1)))
}

/// Replacing pairs and then mapping every statement is mapping first and
/// replacing then.
pub proof fn lemma_pairs_replaced_mapped<S, V>(
    list: Seq<S>,
    records: Seq<(usize, S)>,
    m: spec_fn(S) -> V,
)
    requires
        pairs_fit(list.len(), records),
    ensures
        pairs_replaced(list, records).map_values(m) == pairs_replaced(
            list.map_values(m),
            mapped_records(records, m),
        ),
    decreases records.len(),
{
    let mapped = mapped_records(records, m);
    if records.len() == 0 {
        assert(mapped =~= Seq::empty());
    } else {
        let i = records.last().0 as int;
        let head = list.subrange(0, i);
        assert(pairs_fit(head.len(), records.drop_last())) by {
            assert forall|k: int| 0 <= k < records.drop_last().len() implies (
            #[trigger] records.drop_last()[k]).0 + 2 <= i by {
                assert(records[k].0 + 2 <= records[records.len() - 1].0);
            }
        }
        lemma_pairs_replaced_mapped(head, records.drop_last(), m);
        assert(mapped.drop_last() =~= mapped_records(records.drop_last(), m));
        assert(mapped.last() == (records.last().0, m(records.last().1)));
        assert(list.map_values(m).subrange(0, i) =~= head.map_values(m));
        assert(list.map_values(m).subrange(i + 2, list.len() as int) =~= list.subrange(
            i + 2,
            list.len() as int,
        ).map_values(m));
        assert(pairs_replaced(list, records).map_values(m) =~= pairs_replaced(
            head,
            records.drop_last(),
        ).map_values(m) + seq![m(records.last().1)] + list.subrange(
            i + 2,
            list.len() as int,
        ).map_values(m));
    }
}

/// Replacing statements and then mapping every statement is mapping first
/// and replacing then.
pub proof fn lemma_singles_replaced_mapped<S, V>(
    list: Seq<S>,
    records: Seq<(usize, S)>,
    m: spec_fn(S) -> V,
)
    requires
        singles_fit(list.len(), records),
    ensures
        singles_replaced(list, records).len() == list.len(),
        singles_replaced(list, records).map_values(m) == singles_replaced(
            list.map_values(m),
            mapped_records(records, m),
        ),
    decreases records.len(),
{
    let mapped = mapped_records(records, m);
    if records.len() == 0 {
        assert(mapped =~= Seq::empty());
    } else {
        lemma_singles_replaced_mapped(list, records.drop_last(), m);
        assert(mapped.drop_last() =~= mapped_records(records.drop_last(), m));
        assert(mapped.last() == (records.last().0, m(records.last().1)));
        assert(singles_replaced(list, records).map_values(m) =~= singles_replaced(
            list.map_values(m),
            mapped,
        ));
    }
}

} // verus!
