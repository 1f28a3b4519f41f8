//! Tables keyed by text, kept as vectors of (key, value) pairs in which no
//! key occurs twice, and read as maps.
use vstd::prelude::*;

verus! {

/// No key occurs twice.
pub open spec fn keys_unique<V>(s: Seq<(String, V)>) -> bool {
    forall|i: int, j: int| 0 <= i < j < s.len() ==> #[trigger] s[i].0@ != #[trigger] s[j].0@
}

/// The table as a map from keys to the views of their values; a later pair
/// wins over an earlier one with the same key.
pub open spec fn table_map<V: View>(s: Seq<(String, V)>) -> Map<Seq<char>, V::V>
    decreases s.len(),
{
    if s.len() == 0 {
        Map::empty()
    } else {
        table_map(s.drop_last()).insert(s.last().0@, s.last().1@)
    }
}

/// The keys of the table, in their order.
pub open spec fn table_keys<V>(s: Seq<(String, V)>) -> Seq<Seq<char>> {
    s.map_values(|p: (String, V)| p.0@)
}

pub proof fn lemma_table_dom<V: View>(s: Seq<(String, V)>, k: Seq<char>)
    ensures
        table_map(s).contains_key(k) <==> exists|i: int| 0 <= i < s.len() && #[trigger] s[i].0@ == k,
    decreases s.len(),
{
    if s.len() > 0 {
        lemma_table_dom(s.drop_last(), k);
        if table_map(s).contains_key(k) {
            if s.last().0@ != k {
                let i = choose|i: int| 0 <= i < s.drop_last().len() && #[trigger] s.drop_last()[i].0@ == k;
                assert(s[i].0@ == k);
            } else {
                assert(s[s.len() - 1].0@ == k);
            }
        }
        if exists|i: int| 0 <= i < s.len() && #[trigger] s[i].0@ == k {
            let i = choose|i: int| 0 <= i < s.len() && #[trigger] s[i].0@ == k;
            if i < s.len() - 1 {
                assert(s.drop_last()[i].0@ == k);
            }
        }
    }
}

pub proof fn lemma_table_value<V: View>(s: Seq<(String, V)>, i: int)
    requires
        keys_unique(s),
        0 <= i < s.len(),
    ensures
        table_map(s).contains_key(s[i].0@),
        table_map(s)[s[i].0@] == s[i].1@,
    decreases s.len(),
{
    if i < s.len() - 1 {
        assert(keys_unique(s.drop_last()));
        lemma_table_value(s.drop_last(), i);
        assert(s.drop_last()[i] == s[i]);
        assert(s.last().0@ != s[i].0@);
    }
}

pub proof fn lemma_table_len<V: View>(s: Seq<(String, V)>)
    requires
        keys_unique(s),
    ensures
        table_map(s).dom().finite(),
        table_map(s).dom().len() == s.len(),
    decreases s.len(),
{
    if s.len() > 0 {
        let t = s.drop_last();
        assert(keys_unique(t));
        lemma_table_len(t);
        lemma_table_dom(t, s.last().0@);
        if table_map(t).contains_key(s.last().0@) {
            let i = choose|i: int| 0 <= i < t.len() && #[trigger] t[i].0@ == s.last().0@;
            assert(s[i].0@ == s[s.len() - 1].0@);
        }
    }
}

pub proof fn lemma_table_push<V: View>(s: Seq<(String, V)>, p: (String, V))
    ensures
        table_map(s.push(p)) == table_map(s).insert(p.0@, p.1@),
        keys_unique(s) && !table_map(s).contains_key(p.0@) ==> keys_unique(s.push(p)),
{
    assert(s.push(p).drop_last() =~= s);
    if keys_unique(s) && !table_map(s).contains_key(p.0@) {
        assert forall|i: int, j: int| 0 <= i < j < s.push(p).len() implies #[trigger] s.push(
            p,
        )[i].0@ != #[trigger] s.push(p)[j].0@ by {
            if j == s.len() {
                lemma_table_dom(s, p.0@);
                assert(s.push(p)[i] == s[i]);
            } else {
                assert(s.push(p)[i] == s[i]);
                assert(s.push(p)[j] == s[j]);
            }
        }
    }
}

pub proof fn lemma_table_update<V: View>(s: Seq<(String, V)>, i: int, p: (String, V))
    requires
        keys_unique(s),
        0 <= i < s.len(),
        p.0@ == s[i].0@,
    ensures
        keys_unique(s.update(i, p)),
        table_map(s.update(i, p)) == table_map(s).insert(p.0@, p.1@),
    decreases s.len(),
{
    let u = s.update(i, p);
    assert forall|a: int, b: int| 0 <= a < b < u.len() implies #[trigger] u[a].0@ != #[trigger] u[b].0@ by {
        assert(u[a].0@ == s[a].0@);
        assert(u[b].0@ == s[b].0@);
    }
    if i == s.len() - 1 {
        assert(u.drop_last() =~= s.drop_last());
        assert(table_map(s).insert(p.0@, p.1@) =~= table_map(s.drop_last()).insert(p.0@, p.1@));
    } else {
        let t = s.drop_last();
        assert(keys_unique(t));
        lemma_table_update(t, i, p);
        assert(u.drop_last() =~= t.update(i, p));
        assert(s.last().0@ != p.0@);
        assert(table_map(u) =~= table_map(s).insert(p.0@, p.1@));
    }
}

pub proof fn lemma_table_remove<V: View>(s: Seq<(String, V)>, i: int)
    requires
        keys_unique(s),
        0 <= i < s.len(),
    ensures
        keys_unique(s.remove(i)),
        table_map(s.remove(i)) == table_map(s).remove(s[i].0@),
    decreases s.len(),
{
    let r = s.remove(i);
    assert forall|a: int, b: int| 0 <= a < b < r.len() implies #[trigger] r[a].0@ != #[trigger] r[b].0@ by {
        let a2 = if a < i { a } else { a + 1 };
        let b2 = if b < i { b } else { b + 1 };
        assert(r[a] == s[a2]);
        assert(r[b] == s[b2]);
    }
    let t = s.drop_last();
    assert(keys_unique(t));
    if i == s.len() - 1 {
        assert(r =~= t);
        lemma_table_dom(t, s[i].0@);
        if table_map(t).contains_key(s[i].0@) {
            let j = choose|j: int| 0 <= j < t.len() && #[trigger] t[j].0@ == s[i].0@;
            assert(s[j].0@ == s[i].0@);
        }
        assert(table_map(s).remove(s[i].0@) =~= table_map(t));
    } else {
        lemma_table_remove(t, i);
        assert(r.drop_last() =~= t.remove(i));
        assert(r.last() == s.last());
        assert(s.last().0@ != s[i].0@);
        assert(table_map(r) =~= table_map(s).remove(s[i].0@));
    }
}

/// The position of `key` in the table, if it is there.
pub fn table_find<V: View>(s: &Vec<(String, V)>, key: &str) -> (r: Option<usize>)
    requires
        keys_unique(s@),
    ensures
        match r {
            Some(i) => i < s@.len() && s@[i as int].0@ == key@,
            None => !table_map(s@).contains_key(key@),
        },
{
    let target = key.to_owned();
    let mut i: usize = 0;
    while i < s.len()
        invariant
            0 <= i <= s@.len(),
            target@ == key@,
            forall|j: int| 0 <= j < i ==> #[trigger] s@[j].0@ != key@,
        decreases s@.len() - i,
    {
        if s[i].0 == target {
            return Some(i);
        }
        i = i + 1;
    }
    proof {
        lemma_table_dom(s@, key@);
    }
    None
}

} // verus!
