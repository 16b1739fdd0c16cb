//! JSON objects kept as maps ordered by key, the way serde_json's `Map`
//! keeps them: keys in increasing string order, each key once, a repeated
//! insert replacing the value.

use vstd::prelude::*;

use crate::json_value::{fields_view, Json, JsonView};

verus! {

/// Strict string order: character by character, a proper prefix first.
pub open spec fn str_lt(a: Seq<char>, b: Seq<char>) -> bool
    decreases a.len(),
{
    if a.len() == 0 {
        b.len() > 0
    } else if b.len() == 0 {
        false
    } else if a[0] != b[0] {
        (a[0] as u32) < (b[0] as u32)
    } else {
        str_lt(a.drop_first(), b.drop_first())
    }
}

/// No string is before itself.
pub proof fn lemma_str_lt_irreflexive(a: Seq<char>)
    ensures
        !str_lt(a, a),
    decreases a.len(),
{
    if a.len() > 0 {
        lemma_str_lt_irreflexive(a.drop_first());
    }
}

/// The order is transitive.
pub proof fn lemma_str_lt_transitive(a: Seq<char>, b: Seq<char>, c: Seq<char>)
    requires
        str_lt(a, b),
        str_lt(b, c),
    ensures
        str_lt(a, c),
    decreases a.len(),
{
    if a.len() > 0 && b.len() > 0 && c.len() > 0 && a[0] == b[0] && b[0] == c[0] {
        lemma_str_lt_transitive(a.drop_first(), b.drop_first(), c.drop_first());
    }
}

/// Two different strings are ordered one way or the other.
pub proof fn lemma_str_lt_total(a: Seq<char>, b: Seq<char>)
    ensures
        a == b || str_lt(a, b) || str_lt(b, a),
    decreases a.len(),
{
    if a.len() > 0 && b.len() > 0 && a[0] == b[0] {
        lemma_str_lt_total(a.drop_first(), b.drop_first());
        if a.drop_first() == b.drop_first() {
            assert(a =~= seq![a[0]] + a.drop_first());
            assert(b =~= seq![b[0]] + b.drop_first());
        }
    } else if a.len() > 0 && b.len() > 0 {
        if !str_lt(a, b) && !str_lt(b, a) {
            assert((a[0] as u32) == (b[0] as u32));
            vstd::utf8::char_u32_cast(a[0], a[0] as u32);
            vstd::utf8::char_u32_cast(b[0], b[0] as u32);
        }
    } else if a.len() == 0 && b.len() == 0 {
        assert(a =~= b);
    }
}

/// Keys strictly increase along the fields.
pub open spec fn keys_sorted(fields: Seq<(Seq<char>, JsonView)>) -> bool {
    forall|i: int, j: int| 0 <= i < j < fields.len() ==> str_lt(fields[i].0, fields[j].0)
}

/// The fields as a map from key to value.
pub open spec fn as_map(fields: Seq<(Seq<char>, JsonView)>) -> Map<Seq<char>, JsonView>
    decreases fields.len(),
{
    if fields.len() == 0 {
        Map::empty()
    } else {
        as_map(fields.drop_last()).insert(fields.last().0, fields.last().1)
    }
}

/// A sorted object holds a key exactly where the map has it, with its value.
proof fn lemma_sorted_lookup(fields: Seq<(Seq<char>, JsonView)>, k: Seq<char>)
    requires
        keys_sorted(fields),
    ensures
        as_map(fields).contains_key(k) <==> exists|i: int|
            0 <= i < fields.len() && #[trigger] fields[i].0 == k,
        forall|i: int| 0 <= i < fields.len() && #[trigger] fields[i].0 == k ==> as_map(fields)[k]
            == fields[i].1,
    decreases fields.len(),
{
    if fields.len() > 0 {
        let init = fields.drop_last();
        assert(keys_sorted(init));
        lemma_sorted_lookup(init, k);
        let n = fields.len() - 1;
        assert forall|i: int| 0 <= i < fields.len() && #[trigger] fields[i].0 == k implies as_map(
            fields,
        )[k] == fields[i].1 by {
            if i < n {
                assert(init[i] == fields[i]);
                assert(str_lt(fields[i].0, fields[n].0));
                lemma_str_lt_irreflexive(k);
            }
        }
        if as_map(fields).contains_key(k) && k != fields.last().0 {
            let i = choose|i: int| 0 <= i < init.len() && #[trigger] init[i].0 == k;
            assert(fields[i] == init[i]);
        }
        if exists|i: int| 0 <= i < fields.len() && #[trigger] fields[i].0 == k {
            let i = choose|i: int| 0 <= i < fields.len() && #[trigger] fields[i].0 == k;
            if i < n {
                assert(init[i] == fields[i]);
            }
        }
    }
}

/// Two sorted objects with the same map are the same object.
pub proof fn lemma_sorted_unique(a: Seq<(Seq<char>, JsonView)>, b: Seq<(Seq<char>, JsonView)>)
    requires
        keys_sorted(a),
        keys_sorted(b),
        as_map(a) == as_map(b),
    ensures
        a == b,
    decreases a.len() + b.len(),
{
    if a.len() == 0 && b.len() > 0 {
        lemma_sorted_lookup(b, b[0].0);
        lemma_sorted_lookup(a, b[0].0);
    } else if a.len() > 0 && b.len() == 0 {
        lemma_sorted_lookup(a, a[0].0);
        lemma_sorted_lookup(b, a[0].0);
    } else if a.len() > 0 && b.len() > 0 {
        let ka = a.last().0;
        let kb = b.last().0;
        lemma_sorted_lookup(a, ka);
        lemma_sorted_lookup(b, ka);
        lemma_sorted_lookup(a, kb);
        lemma_sorted_lookup(b, kb);
        let ia = choose|i: int| 0 <= i < a.len() && #[trigger] a[i].0 == kb;
        let ib = choose|i: int| 0 <= i < b.len() && #[trigger] b[i].0 == ka;
        if ia < a.len() - 1 {
            assert(str_lt(a[ia].0, a[a.len() - 1].0));
        }
        if ib < b.len() - 1 {
            assert(str_lt(b[ib].0, b[b.len() - 1].0));
        }
        if ka != kb {
            lemma_str_lt_total(ka, kb);
            if str_lt(ka, kb) {
                assert(ia == a.len() - 1 || str_lt(kb, ka));
                lemma_str_lt_irreflexive(ka);
                if ia != a.len() - 1 {
                    lemma_str_lt_transitive(ka, kb, ka);
                }
            } else {
                lemma_str_lt_irreflexive(kb);
                if ib != b.len() - 1 {
                    lemma_str_lt_transitive(kb, ka, kb);
                }
            }
        }
        assert(ka == kb);
        let ai = a.drop_last();
        let bi = b.drop_last();
        assert(keys_sorted(ai));
        assert(keys_sorted(bi));
        lemma_sorted_lookup(ai, ka);
        lemma_sorted_lookup(bi, ka);
        assert forall|i: int| 0 <= i < ai.len() implies #[trigger] ai[i].0 != ka by {
            assert(str_lt(a[i].0, a[a.len() - 1].0));
            lemma_str_lt_irreflexive(ka);
        }
        assert forall|i: int| 0 <= i < bi.len() implies #[trigger] bi[i].0 != ka by {
            assert(str_lt(b[i].0, b[b.len() - 1].0));
            lemma_str_lt_irreflexive(ka);
        }
        assert(as_map(ai) =~= as_map(a).remove(ka));
        assert(as_map(bi) =~= as_map(b).remove(ka));
        lemma_sorted_unique(ai, bi);
        assert(a =~= ai.push(a.last()));
        assert(b =~= bi.push(b.last()));
    }
}

/// Two maps with the same keys and the same values are equal.
proof fn lemma_maps_agree(m1: Map<Seq<char>, JsonView>, m2: Map<Seq<char>, JsonView>)
    requires
        forall|k: Seq<char>| #[trigger] m1.contains_key(k) == m2.contains_key(k) && (
        m1.contains_key(k) ==> m1[k] == m2[k]),
    ensures
        m1 == m2,
{
    assert(m1 =~= m2);
}

/// Whether `a` is before `b`.
pub fn str_less(a: &str, b: &str) -> (r: bool)
    ensures
        r == str_lt(a@, b@),
{
    let x = crate::text::chars_of(a);
    let y = crate::text::chars_of(b);
    let mut i: usize = 0;
    assert(a@.skip(0) =~= a@ && b@.skip(0) =~= b@);
    while i < x.len() && i < y.len() && x[i] == y[i]
        invariant
            i <= x.len(),
            i <= y.len(),
            x@ == a@,
            y@ == b@,
            forall|j: int| 0 <= j < i ==> x@[j] == y@[j],
            str_lt(a@, b@) == str_lt(a@.skip(i as int), b@.skip(i as int)),
        decreases x.len() - i,
    {
        assert(a@.skip(i as int).drop_first() =~= a@.skip(i + 1));
        assert(b@.skip(i as int).drop_first() =~= b@.skip(i + 1));
        i += 1;
    }
    if i == x.len() {
        i < y.len()
    } else if i == y.len() {
        false
    } else {
        (x[i] as u32) < (y[i] as u32)
    }
}

/// Inserts `value` under `key` into a sorted object: a present key has its
/// value replaced, a new one goes where the order puts it.
pub fn map_insert(fields: &mut Vec<(String, Json)>, key: String, value: Json)
    requires
        keys_sorted(fields_view(old(fields)@)),
    ensures
        keys_sorted(fields_view(final(fields)@)),
        as_map(fields_view(final(fields)@)) == as_map(fields_view(old(fields)@)).insert(
            key@,
            value@,
        ),
{
    let ghost before = fields_view(fields@);
    let mut i: usize = 0;
    while i < fields.len() && str_less(fields[i].0.as_str(), key.as_str())
        invariant
            i <= fields.len(),
            fields_view(fields@) == before,
            keys_sorted(before),
            forall|j: int| 0 <= j < i ==> str_lt(#[trigger] before[j].0, key@),
        decreases fields.len() - i,
    {
        i += 1;
    }
    proof {
        lemma_sorted_lookup(before, key@);
    }
    if i < fields.len() && fields[i].0 == key {
        let ghost old_value = before[i as int].1;
        fields.set(i, (key, value));
        let ghost after = fields_view(fields@);
        assert(after =~= before.update(i as int, (key@, value@)));
        assert(keys_sorted(after)) by {
            assert forall|a: int, b: int| 0 <= a < b < after.len() implies str_lt(
                after[a].0,
                after[b].0,
            ) by {
                assert(after[a].0 == before[a].0);
                assert(after[b].0 == before[b].0);
            }
        }
        proof {
            let want = as_map(before).insert(key@, value@);
            lemma_sorted_lookup(after, key@);
            assert(after[i as int].0 == key@);
            assert forall|k: Seq<char>| #[trigger] as_map(after).contains_key(k) == want.contains_key(
                k,
            ) && (as_map(after).contains_key(k) ==> as_map(after)[k] == want[k]) by {
                lemma_sorted_lookup(after, k);
                lemma_sorted_lookup(before, k);
                if k != key@ {
                    if as_map(before).contains_key(k) {
                        let j = choose|j: int| 0 <= j < before.len() && #[trigger] before[j].0 == k;
                        assert(after[j] == before[j]);
                    }
                    if as_map(after).contains_key(k) {
                        let j = choose|j: int| 0 <= j < after.len() && #[trigger] after[j].0 == k;
                        assert(after[j] == before[j]);
                    }
                }
            }
            lemma_maps_agree(as_map(after), want);
        }
    } else {
        let ghost kv = key@;
        proof {
            if i < fields.len() {
                lemma_str_lt_total(before[i as int].0, kv);
            }
        }
        fields.insert(i, (key, value));
        let ghost after = fields_view(fields@);
        assert(after =~= before.insert(i as int, (kv, value@)));
        assert(keys_sorted(after)) by {
            assert forall|a: int, b: int| 0 <= a < b < after.len() implies str_lt(
                after[a].0,
                after[b].0,
            ) by {
                if b < i {
                    assert(after[a] == before[a] && after[b] == before[b]);
                } else if b == i {
                    assert(after[a] == before[a]);
                } else if a == i {
                    assert(after[b] == before[b - 1]);
                    if b - 1 > i {
                        assert(str_lt(before[i as int].0, before[b - 1].0));
                        lemma_str_lt_transitive(kv, before[i as int].0, before[b - 1].0);
                    }
                } else if a < i {
                    assert(after[a] == before[a] && after[b] == before[b - 1]);
                    if b - 1 > i as int {
                        lemma_str_lt_transitive(before[a].0, kv, before[i as int].0);
                        assert(str_lt(before[i as int].0, before[b - 1].0));
                        lemma_str_lt_transitive(before[a].0, before[i as int].0, before[b - 1].0);
                    } else {
                        lemma_str_lt_transitive(before[a].0, kv, before[b - 1].0);
                    }
                } else {
                    assert(after[a] == before[a - 1] && after[b] == before[b - 1]);
                }
            }
        }
        proof {
            assert forall|j: int| 0 <= j < before.len() implies #[trigger] before[j].0 != kv by {
                if j < i {
                    lemma_str_lt_irreflexive(kv);
                } else if j == i {
                } else {
                    assert(str_lt(before[i as int].0, before[j].0));
                    if before[j].0 == kv {
                        lemma_str_lt_irreflexive(kv);
                        lemma_str_lt_transitive(kv, before[i as int].0, kv);
                    }
                }
            }
            let want = as_map(before).insert(kv, value@);
            assert forall|k: Seq<char>| #[trigger] as_map(after).contains_key(k) == want.contains_key(
                k,
            ) && (as_map(after).contains_key(k) ==> as_map(after)[k] == want[k]) by {
                lemma_sorted_lookup(after, k);
                lemma_sorted_lookup(before, k);
                if k == kv {
                    assert(after[i as int].0 == kv);
                } else {
                    if as_map(before).contains_key(k) {
                        let j = choose|j: int| 0 <= j < before.len() && #[trigger] before[j].0 == k;
                        if j < i {
                            assert(after[j] == before[j]);
                        } else {
                            assert(after[j + 1] == before[j]);
                        }
                    }
                    if as_map(after).contains_key(k) {
                        let j = choose|j: int| 0 <= j < after.len() && #[trigger] after[j].0 == k;
                        if j < i {
                            assert(after[j] == before[j]);
                        } else if j > i {
                            assert(after[j] == before[j - 1]);
                        }
                    }
                }
            }
            lemma_maps_agree(as_map(after), want);
        }
    }
}

} // verus!
