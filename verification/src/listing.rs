use vstd::prelude::*;

use crate::store::Note;

verus! {

/// The query-time filter policy for listings: show everything, only done
/// notes, or only notes still open.  The store itself always returns the
/// full set; this policy belongs to the caller.
pub open spec fn keep(all: bool, only_done: bool, done: bool) -> bool {
    all || done == only_done
}

/// The notes that pass the filter policy, in their original order.
pub open spec fn filtered(rows: Seq<Note>, all: bool, only_done: bool) -> Seq<Note>
    decreases rows.len(),
{
    if rows.len() == 0 {
        Seq::empty()
    } else {
        let prefix = filtered(rows.drop_last(), all, only_done);
        if keep(all, only_done, rows.last().done) {
            prefix.push(rows.last())
        } else {
            prefix
        }
    }
}

/// Applies the filter policy: with `all` every note passes, otherwise
/// exactly those whose done flag equals `only_done`.
pub fn filter_notes(notes: &Vec<Note>, all: bool, only_done: bool) -> (r: Vec<Note>)
    ensures
        r@ == filtered(notes@, all, only_done),
{
    let mut r: Vec<Note> = Vec::new();
    let mut i: usize = 0;
    while i < notes.len()
        invariant
            i <= notes@.len(),
            r@ == filtered(notes@.take(i as int), all, only_done),
        decreases notes@.len() - i,
    {
        proof {
            let taken = notes@.take(i as int + 1);
            assert(taken.drop_last() =~= notes@.take(i as int));
            assert(taken.last() == notes@[i as int]);
        }
        if all || notes[i].done == only_done {
            r.push(notes[i].clone());
        }
        i = i + 1;
    }
    proof {
        assert(notes@.take(notes@.len() as int) =~= notes@);
    }
    r
}

/// Every note that passes the filter comes from the listing and satisfies
/// the policy, and a note the policy admits is never dropped.
pub proof fn lemma_filtered_exact(rows: Seq<Note>, all: bool, only_done: bool)
    ensures
        forall|i: int| 0 <= i < filtered(rows, all, only_done).len() ==> rows.contains(
            #[trigger] filtered(rows, all, only_done)[i],
        ) && keep(all, only_done, filtered(rows, all, only_done)[i].done),
        forall|i: int| 0 <= i < rows.len() && keep(all, only_done, (#[trigger] rows[i]).done)
            ==> filtered(rows, all, only_done).contains(rows[i]),
    decreases rows.len(),
{
    if rows.len() > 0 {
        lemma_filtered_exact(rows.drop_last(), all, only_done);
        let f = filtered(rows, all, only_done);
        let fp = filtered(rows.drop_last(), all, only_done);
        assert forall|i: int| 0 <= i < f.len() implies rows.contains(#[trigger] f[i]) && keep(
            all,
            only_done,
            f[i].done,
        ) by {
            if i < fp.len() {
                assert(rows.drop_last().contains(fp[i]));
                let j = choose|j: int| 0 <= j < rows.drop_last().len() && rows.drop_last()[j] == fp[i];
                assert(rows[j] == fp[i]);
            } else {
                assert(rows[rows.len() - 1] == f[i]);
            }
        };
        assert forall|i: int| 0 <= i < rows.len() && keep(all, only_done, (#[trigger] rows[i]).done)
            implies f.contains(rows[i]) by {
            if i < rows.len() - 1 {
                assert(rows.drop_last()[i] == rows[i]);
                assert(fp.contains(rows[i]));
                let j = choose|j: int| 0 <= j < fp.len() && fp[j] == rows[i];
                assert(f[j] == rows[i]);
            } else {
                assert(f[f.len() - 1] == rows[i]);
            }
        };
    }
}

} // verus!
