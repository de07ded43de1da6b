//! The settings of a decision, held as a map from key to value: one setting
//! per key, in key order, the last one written for a key winning.

use vstd::prelude::*;

use crate::model::Setting;

verus! {

/// Key `a` comes before key `b`: character by character by code point, a
/// proper prefix first. Code point order is the byte order of UTF-8, so this
/// is the order of `String` keys.
pub open spec fn key_before(a: Seq<char>, b: Seq<char>) -> bool
    decreases a.len(),
{
    if a.len() == 0 {
        b.len() > 0
    } else if b.len() == 0 {
        false
    } else if a[0] != b[0] {
        (a[0] as int) < (b[0] as int)
    } else {
        key_before(a.drop_first(), b.drop_first())
    }
}

/// No key comes before itself.
pub proof fn lemma_key_before_irreflexive(a: Seq<char>)
    ensures
        !key_before(a, a),
    decreases a.len(),
{
    if a.len() > 0 {
        lemma_key_before_irreflexive(a.drop_first());
    }
}

/// Key order is transitive.
pub proof fn lemma_key_before_transitive(a: Seq<char>, b: Seq<char>, c: Seq<char>)
    requires
        key_before(a, b),
        key_before(b, c),
    ensures
        key_before(a, c),
    decreases a.len(),
{
    if a.len() > 0 && b.len() > 0 && c.len() > 0 && a[0] == b[0] && b[0] == c[0] {
        lemma_key_before_transitive(a.drop_first(), b.drop_first(), c.drop_first());
    }
}

/// Of two different keys, one comes before the other.
pub proof fn lemma_key_before_total(a: Seq<char>, b: Seq<char>)
    ensures
        key_before(a, b) || a == b || key_before(b, a),
    decreases a.len(),
{
    if a.len() > 0 && b.len() > 0 && a[0] == b[0] {
        lemma_key_before_total(a.drop_first(), b.drop_first());
        if a.drop_first() == b.drop_first() {
            assert(a =~= seq![a[0]] + a.drop_first());
            assert(b =~= seq![b[0]] + b.drop_first());
        }
    } else if a.len() == 0 && b.len() == 0 {
        assert(a =~= b);
    } else if a.len() > 0 && b.len() > 0 {
        assert((a[0] as int) != (b[0] as int));
    }
}

/// Where key `a` stands against key `b`: below zero when it comes first, zero
/// when the keys are equal, above zero when it comes after.
pub fn compare_keys(a: &str, b: &str) -> (r: i8)
    ensures
        r < 0 <==> key_before(a@, b@),
        r == 0 <==> a@ == b@,
        r > 0 <==> key_before(b@, a@),
{
    let la = a.unicode_len();
    let lb = b.unicode_len();
    let mut i: usize = 0;
    assert(a@.skip(0) =~= a@);
    assert(b@.skip(0) =~= b@);
    while i < la && i < lb
        invariant
            la == a@.len(),
            lb == b@.len(),
            i <= la,
            i <= lb,
            a@.take(i as int) == b@.take(i as int),
            key_before(a@, b@) == key_before(a@.skip(i as int), b@.skip(i as int)),
            key_before(b@, a@) == key_before(b@.skip(i as int), a@.skip(i as int)),
        decreases la - i,
    {
        let ca = a.get_char(i);
        let cb = b.get_char(i);
        assert(a@.skip(i as int)[0] == ca);
        assert(b@.skip(i as int)[0] == cb);
        if ca != cb {
            proof {
                assert(a@[i as int] != b@[i as int]);
                assert(a@ != b@);
            }
            if (ca as u32) < (cb as u32) {
                return -1;
            } else {
                return 1;
            }
        }
        assert(a@.skip(i as int).drop_first() =~= a@.skip(i + 1));
        assert(b@.skip(i as int).drop_first() =~= b@.skip(i + 1));
        assert(a@.take(i + 1) =~= a@.take(i as int).push(ca));
        assert(b@.take(i + 1) =~= b@.take(i as int).push(cb));
        i += 1;
    }
    if la == lb {
        assert(a@ =~= a@.take(i as int));
        assert(b@ =~= b@.take(i as int));
        proof {
            lemma_key_before_irreflexive(a@);
        }
        0
    } else if i == la {
        assert(a@.skip(i as int).len() == 0);
        assert(b@.skip(i as int).len() > 0);
        assert(a@.len() != b@.len());
        -1
    } else {
        assert(b@.skip(i as int).len() == 0);
        assert(a@.skip(i as int).len() > 0);
        assert(a@.len() != b@.len());
        1
    }
}

/// The keys of `settings` ascend strictly: each key occurs once, in key order.
pub open spec fn settings_in_key_order(settings: Seq<Setting>) -> bool {
    forall|i: int, j: int|
        0 <= i < j < settings.len() ==> key_before(
            #[trigger] settings[i].key@,
            #[trigger] settings[j].key@,
        )
}

/// Whether the keys of `settings` ascend strictly.
pub fn settings_are_in_key_order(settings: &[Setting]) -> (r: bool)
    ensures
        r == settings_in_key_order(settings@),
{
    let n = settings.len();
    if n == 0 {
        return true;
    }
    let mut i: usize = 1;
    while i < n
        invariant
            n == settings@.len(),
            1 <= i <= n,
            settings_in_key_order(settings@.take(i as int)),
        decreases n - i,
    {
        let c = compare_keys(settings[i - 1].key.as_str(), settings[i].key.as_str());
        if c >= 0 {
            proof {
                assert(!key_before(settings@[i - 1].key@, settings@[i as int].key@));
            }
            return false;
        }
        proof {
            let s = settings@;
            let t = s.take(i + 1);
            assert forall|a: int, b: int| 0 <= a < b < t.len() implies key_before(
                #[trigger] t[a].key@,
                #[trigger] t[b].key@,
            ) by {
                assert(t[a] == s[a] && t[b] == s[b]);
                if b < i {
                    assert(s.take(i as int)[a] == s[a] && s.take(i as int)[b] == s[b]);
                } else if a < i - 1 {
                    assert(s.take(i as int)[a] == s[a] && s.take(i as int)[i - 1] == s[i - 1]);
                    lemma_key_before_transitive(s[a].key@, s[i - 1].key@, s[b].key@);
                }
            }
        }
        i += 1;
    }
    assert(settings@.take(n as int) =~= settings@);
    true
}

/// No setting after position `i` of `entries` has its key.
pub open spec fn last_with_key(entries: Seq<Setting>, i: int) -> bool {
    forall|j: int| i < j < entries.len() ==> #[trigger] entries[j].key@ != entries[i].key@
}

/// Some setting of `settings` has key `key`.
pub open spec fn has_key(settings: Seq<Setting>, key: Seq<char>) -> bool {
    exists|j: int| 0 <= j < settings.len() && #[trigger] settings[j].key@ == key
}

/// `setting` is an entry of `entries` after which no entry has its key.
pub open spec fn written_last(entries: Seq<Setting>, setting: Setting) -> bool {
    exists|i: int| 0 <= i < entries.len() && #[trigger] entries[i] == setting && last_with_key(entries, i)
}

/// `settings` is the map that `entries` write, key after key: in key order,
/// for each key that some entry has, the last entry with that key.
pub open spec fn settings_of_entries(entries: Seq<Setting>, settings: Seq<Setting>) -> bool {
    &&& settings_in_key_order(settings)
    &&& forall|j: int| 0 <= j < settings.len() ==> written_last(entries, #[trigger] settings[j])
    &&& forall|i: int| 0 <= i < entries.len() ==> has_key(settings, #[trigger] entries[i].key@)
}

/// Where key `key` belongs in `settings`: every setting before the slot has a
/// smaller key; `found` tells whether the setting at the slot has the key.
fn find_slot(settings: &Vec<Setting>, key: &str) -> (r: (usize, bool))
    requires
        settings_in_key_order(settings@),
    ensures
        r.0 <= settings@.len(),
        forall|k: int| 0 <= k < r.0 ==> key_before(#[trigger] settings@[k].key@, key@),
        r.1 ==> r.0 < settings@.len() && settings@[r.0 as int].key@ == key@,
        !r.1 ==> r.0 < settings@.len() ==> key_before(key@, settings@[r.0 as int].key@),
        !r.1 ==> !has_key(settings@, key@),
{
    let mut p: usize = 0;
    while p < settings.len()
        invariant
            settings_in_key_order(settings@),
            p <= settings@.len(),
            forall|k: int| 0 <= k < p ==> key_before(#[trigger] settings@[k].key@, key@),
        decreases settings@.len() - p,
    {
        let c = compare_keys(settings[p].key.as_str(), key);
        if c < 0 {
            p += 1;
        } else if c == 0 {
            return (p, true);
        } else {
            proof {
                let s = settings@;
                assert forall|j: int| 0 <= j < s.len() implies #[trigger] s[j].key@ != key@ by {
                    if j < p {
                        lemma_key_before_irreflexive(key@);
                    } else if j == p {
                        lemma_key_before_irreflexive(key@);
                    } else {
                        lemma_key_before_transitive(key@, s[p as int].key@, s[j].key@);
                        lemma_key_before_irreflexive(key@);
                    }
                }
            }
            return (p, false);
        }
    }
    proof {
        let s = settings@;
        assert forall|j: int| 0 <= j < s.len() implies #[trigger] s[j].key@ != key@ by {
            lemma_key_before_irreflexive(key@);
        }
    }
    (p, false)
}

/// Inserting a setting at a slot whose left has smaller keys and whose right
/// has larger ones keeps the keys in order.
proof fn lemma_insert_keeps_order(settings: Seq<Setting>, p: int, e: Setting)
    requires
        settings_in_key_order(settings),
        0 <= p <= settings.len(),
        forall|k: int| 0 <= k < p ==> key_before(#[trigger] settings[k].key@, e.key@),
        p < settings.len() ==> key_before(e.key@, settings[p].key@),
    ensures
        settings_in_key_order(settings.insert(p, e)),
{
    let t = settings.insert(p, e);
    assert forall|i: int, j: int| 0 <= i < j < t.len() implies key_before(
        #[trigger] t[i].key@,
        #[trigger] t[j].key@,
    ) by {
        if j < p {
            assert(t[i] == settings[i] && t[j] == settings[j]);
        } else if j == p {
            assert(t[i] == settings[i] && t[j] == e);
        } else if i < p {
            assert(t[i] == settings[i] && t[j] == settings[j - 1]);
        } else if i == p {
            assert(t[i] == e && t[j] == settings[j - 1]);
            if j - 1 > p {
                lemma_key_before_transitive(e.key@, settings[p].key@, settings[j - 1].key@);
            }
        } else {
            assert(t[i] == settings[i - 1] && t[j] == settings[j - 1]);
        }
    }
}

/// The settings that `entries` write, as a map from key to value: one
/// setting per key, in key order, each the last entry with its key.
pub fn settings_from_entries(entries: Vec<Setting>) -> (r: Vec<Setting>)
    ensures
        settings_of_entries(entries@, r@),
{
    let ghost all = entries@;
    let mut rest = entries;
    let mut out: Vec<Setting> = Vec::new();
    // The position in `all` that each setting of `out` was taken from.
    let ghost mut src: Seq<int> = Seq::empty();
    while rest.len() > 0
        invariant
            rest@ == all.take(rest@.len() as int),
            rest@.len() <= all.len(),
            settings_in_key_order(out@),
            src.len() == out@.len(),
            forall|j: int|
                0 <= j < out@.len() ==> rest@.len() <= #[trigger] src[j] < all.len() && all[src[j]]
                    == out@[j] && last_with_key(all, src[j]),
            forall|i: int| rest@.len() <= i < all.len() ==> has_key(out@, #[trigger] all[i].key@),
        decreases rest@.len(),
    {
        let ghost n = (rest@.len() - 1) as int;
        let e = match rest.pop() {
            Some(e) => e,
            None => {
                return out;
            },
        };
        assert(all[n] == e);
        assert(rest@ =~= all.take(n));
        let (p, found) = find_slot(&out, e.key.as_str());
        if !found {
            let ghost old_out = out@;
            let ghost old_src = src;
            proof {
                lemma_insert_keeps_order(old_out, p as int, e);
                assert forall|j: int| n < j < all.len() implies #[trigger] all[j].key@
                    != all[n].key@ by {
                    assert(has_key(old_out, all[j].key@));
                }
            }
            out.insert(p, e);
            proof {
                src = old_src.insert(p as int, n);
                let t = out@;
                assert(t == old_out.insert(p as int, e));
                assert forall|j: int| 0 <= j < t.len() implies n <= #[trigger] src[j] < all.len()
                    && all[src[j]] == t[j] && last_with_key(all, src[j]) by {
                    if j == p {
                        assert(src[j] == n);
                    } else if j < p {
                        assert(t[j] == old_out[j] && src[j] == old_src[j]);
                    } else {
                        assert(t[j] == old_out[j - 1] && src[j] == old_src[j - 1]);
                    }
                }
                assert forall|i: int| n <= i < all.len() implies has_key(
                    t,
                    #[trigger] all[i].key@,
                ) by {
                    if i == n {
                        assert(t[p as int].key@ == all[i].key@);
                    } else {
                        let k = choose|k: int|
                            0 <= k < old_out.len() && #[trigger] old_out[k].key@ == all[i].key@;
                        if k < p {
                            assert(t[k] == old_out[k]);
                        } else {
                            assert(t[k + 1] == old_out[k]);
                        }
                    }
                }
            }
        } else {
            proof {
                assert(out@[p as int].key@ == all[n].key@);
            }
        }
    }
    proof {
        assert forall|j: int| 0 <= j < out@.len() implies written_last(
            all,
            #[trigger] out@[j],
        ) by {
            assert(all[src[j]] == out@[j]);
        }
        assert(settings_of_entries(all, out@));
    }
    out
}

} // verus!
