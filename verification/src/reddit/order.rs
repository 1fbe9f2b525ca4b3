use vstd::prelude::*;

verus! {

/// Texts in the order of their characters' code points, compared from
/// index `i` on; a proper prefix comes first.
pub open spec fn key_less_from(a: Seq<char>, b: Seq<char>, i: nat) -> bool
    decreases a.len() - i,
{
    if i >= a.len() {
        i < b.len()
    } else if i >= b.len() {
        false
    } else if a[i as int] != b[i as int] {
        a[i as int] < b[i as int]
    } else {
        key_less_from(a, b, i + 1)
    }
}

/// `a` comes strictly before `b` in the order of their characters' code
/// points, which is the order of their UTF-8 bytes and so the order of
/// `String`'s `Ord`.
pub open spec fn key_less(a: Seq<char>, b: Seq<char>) -> bool {
    key_less_from(a, b, 0)
}

/// The entries are in strictly increasing order of their keys.
pub open spec fn sorted_by_key<V>(entries: Seq<(Seq<char>, V)>) -> bool {
    forall|i: int, j: int|
        0 <= i < j < entries.len() ==> key_less(#[trigger] entries[i].0, #[trigger] entries[j].0)
}

/// `key` is the key of some entry.
pub open spec fn has_key<V>(entries: Seq<(Seq<char>, V)>, key: Seq<char>) -> bool {
    exists|i: int| 0 <= i < entries.len() && #[trigger] entries[i].0 == key
}

/// The index of the entry with `key` (meaningful where `has_key` holds).
pub open spec fn key_index<V>(entries: Seq<(Seq<char>, V)>, key: Seq<char>) -> int {
    choose|i: int| 0 <= i < entries.len() && #[trigger] entries[i].0 == key
}

/// The value that `key` has among the entries.
pub open spec fn lookup<V>(entries: Seq<(Seq<char>, V)>, key: Seq<char>) -> Option<V> {
    if has_key(entries, key) {
        Some(entries[key_index(entries, key)].1)
    } else {
        None
    }
}

/// No key occurs twice.
pub open spec fn distinct_keys<V>(entries: Seq<(Seq<char>, V)>) -> bool {
    forall|i: int, j: int|
        0 <= i < entries.len() && 0 <= j < entries.len() && i != j ==> #[trigger] entries[i].0
            != #[trigger] entries[j].0
}

pub proof fn lemma_key_less_asymmetric(a: Seq<char>, b: Seq<char>, i: nat)
    ensures
        key_less_from(a, b, i) ==> !key_less_from(b, a, i),
    decreases a.len() - i,
{
    if i < a.len() && i < b.len() && a[i as int] == b[i as int] {
        lemma_key_less_asymmetric(a, b, i + 1);
    }
}

/// Entries in strictly increasing order of their keys have distinct keys.
pub proof fn lemma_sorted_distinct<V>(entries: Seq<(Seq<char>, V)>)
    requires
        sorted_by_key(entries),
    ensures
        distinct_keys(entries),
{
    assert forall|i: int, j: int|
        0 <= i < entries.len() && 0 <= j < entries.len() && i != j implies #[trigger] entries[i].0
        != #[trigger] entries[j].0 by {
        let (a, b) = if i < j { (i, j) } else { (j, i) };
        assert(key_less(entries[a].0, entries[b].0));
        lemma_key_less_asymmetric(entries[a].0, entries[a].0, 0);
    }
}

/// Among entries with distinct keys, the entry at `i` is what its key
/// looks up.
pub proof fn lemma_lookup_at<V>(entries: Seq<(Seq<char>, V)>, i: int)
    requires
        distinct_keys(entries),
        0 <= i < entries.len(),
    ensures
        lookup(entries, entries[i].0) == Some(entries[i].1),
{
    assert(has_key(entries, entries[i].0));
    let k = key_index(entries, entries[i].0);
    assert(entries[k].0 == entries[i].0);
}

/// Among entries with distinct keys, taking one entry more sets its key
/// to its value and leaves every other key as it was.
pub proof fn lemma_lookup_take_step<V>(s: Seq<(Seq<char>, V)>, i: int)
    requires
        distinct_keys(s),
        0 <= i < s.len(),
    ensures
        forall|k: Seq<char>|
            #[trigger] lookup(s.take(i + 1), k) == if k == s[i].0 {
                Some(s[i].1)
            } else {
                lookup(s.take(i), k)
            },
{
    let t1 = s.take(i + 1);
    let t0 = s.take(i);
    assert(distinct_keys(t1)) by {
        assert forall|x: int, y: int|
            0 <= x < t1.len() && 0 <= y < t1.len() && x != y implies #[trigger] t1[x].0
            != #[trigger] t1[y].0 by {
            assert(t1[x] == s[x]);
            assert(t1[y] == s[y]);
        }
    }
    assert(distinct_keys(t0)) by {
        assert forall|x: int, y: int|
            0 <= x < t0.len() && 0 <= y < t0.len() && x != y implies #[trigger] t0[x].0
            != #[trigger] t0[y].0 by {
            assert(t0[x] == s[x]);
            assert(t0[y] == s[y]);
        }
    }
    assert forall|k: Seq<char>|
        #[trigger] lookup(t1, k) == if k == s[i].0 {
            Some(s[i].1)
        } else {
            lookup(t0, k)
        } by {
        if k == s[i].0 {
            assert(t1[i] == s[i]);
            lemma_lookup_at(t1, i);
        } else if has_key(t1, k) {
            let j = key_index(t1, k);
            assert(t1[j] == s[j]);
            assert(j != i);
            assert(t0[j] == s[j]);
            lemma_lookup_at(t1, j);
            lemma_lookup_at(t0, j);
        } else if has_key(t0, k) {
            let j = key_index(t0, k);
            assert(t0[j] == s[j]);
            assert(t1[j] == s[j]);
        }
    }
}

/// Two lists of entries in strictly increasing order of their keys that
/// give every key the same value are the same list: the order of a form's
/// fields is fixed by its keys.
pub proof fn law_sorted_is_unique<V>(a: Seq<(Seq<char>, V)>, b: Seq<(Seq<char>, V)>)
    requires
        sorted_by_key(a),
        sorted_by_key(b),
        forall|k: Seq<char>| lookup(a, k) == lookup(b, k),
    ensures
        a == b,
    decreases a.len(),
{
    lemma_sorted_distinct(a);
    lemma_sorted_distinct(b);
    if a.len() == 0 {
        if b.len() > 0 {
            lemma_lookup_at(b, 0);
            assert(lookup(a, b[0].0) is None);
        }
        assert(b =~= a);
    } else {
        lemma_lookup_at(a, 0);
        assert(lookup(b, a[0].0) is Some);
        let j = key_index(b, a[0].0);
        assert(b[j].0 == a[0].0);
        lemma_lookup_at(b, 0);
        assert(lookup(a, b[0].0) is Some);
        let k = key_index(a, b[0].0);
        assert(a[k].0 == b[0].0);
        lemma_key_less_asymmetric(a[0].0, b[0].0, 0);
        if j > 0 {
            assert(key_less(b[0].0, b[j].0));
            if k > 0 {
                assert(key_less(a[0].0, a[k].0));
            }
        }
        assert(j == 0);
        assert(b[0].0 == a[0].0);
        lemma_lookup_at(b, 0);
        assert(b[0] == a[0]);
        let a1 = a.drop_first();
        let b1 = b.drop_first();
        assert(sorted_by_key(a1)) by {
            assert forall|x: int, y: int| 0 <= x < y < a1.len() implies key_less(
                #[trigger] a1[x].0,
                #[trigger] a1[y].0,
            ) by {
                assert(a1[x] == a[x + 1]);
                assert(a1[y] == a[y + 1]);
            }
        }
        assert(sorted_by_key(b1)) by {
            assert forall|x: int, y: int| 0 <= x < y < b1.len() implies key_less(
                #[trigger] b1[x].0,
                #[trigger] b1[y].0,
            ) by {
                assert(b1[x] == b[x + 1]);
                assert(b1[y] == b[y + 1]);
            }
        }
        lemma_sorted_distinct(a1);
        lemma_sorted_distinct(b1);
        assert forall|key: Seq<char>| lookup(a1, key) == lookup(b1, key) by {
            lemma_drop_first_lookup(a, key);
            lemma_drop_first_lookup(b, key);
        }
        law_sorted_is_unique(a1, b1);
        assert(a =~= seq![a[0]] + a1);
        assert(b =~= seq![b[0]] + b1);
    }
}

/// Past the first entry, a key looks up what it did, unless it is the
/// first entry's key, which is then gone.
proof fn lemma_drop_first_lookup<V>(s: Seq<(Seq<char>, V)>, key: Seq<char>)
    requires
        distinct_keys(s),
        s.len() > 0,
    ensures
        lookup(s.drop_first(), key) == if key == s[0].0 {
            None
        } else {
            lookup(s, key)
        },
{
    let t = s.drop_first();
    if has_key(t, key) {
        let i = key_index(t, key);
        assert(t[i] == s[i + 1]);
        lemma_lookup_at(s, i + 1);
        if key == s[0].0 {
            assert(s[i + 1].0 == s[0].0);
        }
        assert(distinct_keys(t)) by {
            assert forall|x: int, y: int|
                0 <= x < t.len() && 0 <= y < t.len() && x != y implies #[trigger] t[x].0
                != #[trigger] t[y].0 by {
                assert(t[x] == s[x + 1]);
                assert(t[y] == s[y + 1]);
            }
        }
        lemma_lookup_at(t, i);
    } else {
        if key != s[0].0 && has_key(s, key) {
            let i = key_index(s, key);
            assert(i != 0);
            assert(t[i - 1] == s[i]);
        }
    }
}

} // verus!
