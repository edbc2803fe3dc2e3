//! Generic machinery for one table of the store: a vector of rows, each
//! carrying a `u64` primary key, abstracted in specifications as a map from
//! key to row.

use vstd::prelude::*;

verus! {

/// A row of some table, with its `u64` primary key.
pub trait Row: Sized {
    spec fn key(self) -> u64;

    fn read_key(&self) -> (k: u64)
        ensures
            k == self.key(),
    ;
}

/// The map from primary key to row that a sequence of rows denotes. Later
/// duplicates would win, but every table keeps its keys unique.
pub open spec fn table_view<R: Row>(s: Seq<R>) -> Map<u64, R>
    decreases s.len(),
{
    if s.len() == 0 {
        Map::empty()
    } else {
        table_view(s.drop_last()).insert(s.last().key(), s.last())
    }
}

/// No two rows share a primary key.
pub open spec fn unique_keys<R: Row>(s: Seq<R>) -> bool {
    forall|i: int, j: int| 0 <= i < j < s.len() ==> s[i].key() != s[j].key()
}

/// A key is in the table's view exactly when some row carries it.
pub proof fn lemma_table_view_contains<R: Row>(s: Seq<R>)
    ensures
        forall|k: u64|
            table_view(s).contains_key(k) <==> exists|i: int| 0 <= i < s.len() && #[trigger] s[i].key() == k,
    decreases s.len(),
{
    if s.len() > 0 {
        lemma_table_view_contains(s.drop_last());
        assert forall|k: u64| table_view(s).contains_key(k)
            implies exists|i: int| 0 <= i < s.len() && #[trigger] s[i].key() == k by {
            if k == s.last().key() {
                assert(s[s.len() - 1].key() == k);
            } else {
                assert(table_view(s) == table_view(s.drop_last()).insert(s.last().key(), s.last()));
                assert(table_view(s.drop_last()).contains_key(k));
                let i = choose|i: int| 0 <= i < s.drop_last().len() && #[trigger] s.drop_last()[i].key() == k;
                assert(s.drop_last()[i] == s[i]);
                assert(s[i].key() == k);
            }
        }
        assert forall|k: u64| (exists|i: int| 0 <= i < s.len() && #[trigger] s[i].key() == k)
            implies table_view(s).contains_key(k) by {
            let i = choose|i: int| 0 <= i < s.len() && #[trigger] s[i].key() == k;
            assert(table_view(s) == table_view(s.drop_last()).insert(s.last().key(), s.last()));
            if i < s.len() - 1 {
                assert(s.drop_last()[i] == s[i]);
                assert(s.drop_last()[i].key() == k);
                assert(table_view(s.drop_last()).contains_key(k));
            } else {
                assert(s.last().key() == k);
            }
        }
    }
}

/// Under unique keys, the view maps each row's key to that row.
pub proof fn lemma_table_view_index<R: Row>(s: Seq<R>, i: int)
    requires
        unique_keys(s),
        0 <= i < s.len(),
    ensures
        table_view(s).contains_key(s[i].key()),
        table_view(s)[s[i].key()] == s[i],
    decreases s.len(),
{
    if i < s.len() - 1 {
        assert(unique_keys(s.drop_last())) by {
            assert(forall|a: int, b: int|
                0 <= a < b < s.drop_last().len() ==> s.drop_last()[a].key() != s.drop_last()[b].key());
        }
        lemma_table_view_index(s.drop_last(), i);
        assert(s[i].key() != s.last().key());
    }
}

/// Removing the row at index `i` removes exactly its key from the view.
pub proof fn lemma_table_view_remove<R: Row>(s: Seq<R>, i: int)
    requires
        unique_keys(s),
        0 <= i < s.len(),
    ensures
        unique_keys(s.remove(i)),
        table_view(s.remove(i)) =~= table_view(s).remove(s[i].key()),
    decreases s.len(),
{
    assert(unique_keys(s.remove(i))) by {
        assert forall|a: int, b: int| 0 <= a < b < s.remove(i).len()
            implies s.remove(i)[a].key() != s.remove(i)[b].key() by {
            let a0 = if a < i { a } else { a + 1 };
            let b0 = if b < i { b } else { b + 1 };
            assert(s.remove(i)[a] == s[a0]);
            assert(s.remove(i)[b] == s[b0]);
        }
    }
    if i == s.len() - 1 {
        assert(s.remove(i) =~= s.drop_last());
        lemma_table_view_contains(s.drop_last());
        assert(unique_keys(s.drop_last()));
        assert(!table_view(s.drop_last()).contains_key(s[i].key())) by {
            if table_view(s.drop_last()).contains_key(s[i].key()) {
                let j = choose|j: int|
                    0 <= j < s.drop_last().len() && #[trigger] s.drop_last()[j].key() == s[i].key();
                assert(s[j].key() == s[i].key());
            }
        }
        assert(table_view(s.remove(i)) =~= table_view(s).remove(s[i].key()));
    } else {
        assert(unique_keys(s.drop_last()));
        lemma_table_view_remove(s.drop_last(), i);
        assert(s.remove(i).drop_last() =~= s.drop_last().remove(i));
        assert(s.remove(i).last() == s.last());
        assert(s.remove(i).len() == s.len() - 1);
        // table_view(s.remove(i))
        //   == table_view(s.drop_last().remove(i)).insert(last.key, last)
        //   == table_view(s.drop_last()).remove(s[i].key).insert(last.key, last)
        assert(s[i].key() != s.last().key());
        assert(table_view(s.remove(i)) =~= table_view(s).remove(s[i].key()));
    }
}

/// Appending a fresh-keyed row inserts exactly that row into the view.
pub proof fn lemma_table_view_push<R: Row>(s: Seq<R>, row: R)
    requires
        unique_keys(s),
        !table_view(s).contains_key(row.key()),
    ensures
        unique_keys(s.push(row)),
        table_view(s.push(row)) == table_view(s).insert(row.key(), row),
{
    lemma_table_view_contains(s);
    assert forall|a: int, b: int| 0 <= a < b < s.push(row).len()
        implies s.push(row)[a].key() != s.push(row)[b].key() by {
        if b == s.len() {
            assert(s[a].key() == s.push(row)[a].key());
        }
    }
    assert(s.push(row).drop_last() =~= s);
    assert(s.push(row).last() == row);
}

/// A table with an empty view holds no rows.
pub proof fn lemma_table_view_empty<R: Row>(s: Seq<R>)
    requires
        table_view(s) == Map::<u64, R>::empty(),
    ensures
        s.len() == 0,
{
    if s.len() > 0 {
        assert(table_view(s).contains_key(s.last().key()));
    }
}

/// Find the index of the row keyed `k`, if any.
pub fn table_find<R: Row>(rows: &Vec<R>, k: u64) -> (r: Option<usize>)
    requires
        unique_keys(rows@),
    ensures
        match r {
            Some(i) => i < rows@.len() && rows@[i as int].key() == k
                && table_view(rows@).contains_key(k) && table_view(rows@)[k] == rows@[i as int],
            None => !table_view(rows@).contains_key(k),
        },
{
    let n = rows.len();
    let mut i: usize = 0;
    while i < n
        invariant
            n == rows@.len(),
            unique_keys(rows@),
            i <= n,
            forall|j: int| 0 <= j < i ==> #[trigger] rows@[j].key() != k,
        decreases n - i,
    {
        if rows[i].read_key() == k {
            proof {
                lemma_table_view_index(rows@, i as int);
            }
            return Some(i);
        }
        i = i + 1;
    }
    proof {
        lemma_table_view_contains(rows@);
    }
    None
}

/// Append a row whose key is not yet in the table.
pub fn table_push<R: Row>(rows: &mut Vec<R>, row: R)
    requires
        unique_keys(old(rows)@),
        !table_view(old(rows)@).contains_key(row.key()),
    ensures
        final(rows)@ == old(rows)@.push(row),
        unique_keys(final(rows)@),
        table_view(final(rows)@) == table_view(old(rows)@).insert(row.key(), row),
{
    proof {
        lemma_table_view_push(old(rows)@, row);
    }
    rows.push(row);
}

/// Remove and return the row at index `i`.
pub fn table_remove<R: Row>(rows: &mut Vec<R>, i: usize) -> (row: R)
    requires
        unique_keys(old(rows)@),
        i < old(rows)@.len(),
    ensures
        row == old(rows)@[i as int],
        final(rows)@ == old(rows)@.remove(i as int),
        unique_keys(final(rows)@),
        table_view(final(rows)@) =~= table_view(old(rows)@).remove(row.key()),
{
    proof {
        lemma_table_view_remove(rows@, i as int);
    }
    rows.remove(i)
}

} // verus!
