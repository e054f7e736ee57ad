//! The installed themes' names: each once, in the order of `String` comparison.

use vstd::prelude::*;

verus! {

/// Whether `a` comes before `b` in lexicographic order of their characters (the order
/// of `String` comparison).
pub open spec fn lex_less(a: Seq<char>, b: Seq<char>) -> bool
    decreases a.len(),
{
    if a.len() == 0 {
        b.len() > 0
    } else if b.len() == 0 {
        false
    } else if a[0] != b[0] {
        (a[0] as int) < (b[0] as int)
    } else {
        lex_less(a.drop_first(), b.drop_first())
    }
}

/// No text comes before itself.
pub proof fn lemma_lex_irreflexive(a: Seq<char>)
    ensures
        !lex_less(a, a),
    decreases a.len(),
{
    if a.len() > 0 {
        lemma_lex_irreflexive(a.drop_first());
    }
}

/// Of two different texts, one comes before the other, and not both ways.
pub proof fn lemma_lex_total(a: Seq<char>, b: Seq<char>)
    ensures
        a != b ==> (lex_less(a, b) || lex_less(b, a)),
        !(lex_less(a, b) && lex_less(b, a)),
    decreases a.len(),
{
    if a.len() > 0 && b.len() > 0 {
        if a[0] == b[0] {
            lemma_lex_total(a.drop_first(), b.drop_first());
            if a.drop_first() == b.drop_first() {
                assert(a =~= seq![a[0]] + a.drop_first());
                assert(b =~= seq![b[0]] + b.drop_first());
            }
        }
    } else if a.len() == 0 && b.len() == 0 {
        assert(a =~= b);
    }
}

/// The order is transitive.
pub proof fn lemma_lex_transitive(a: Seq<char>, b: Seq<char>, c: Seq<char>)
    requires
        lex_less(a, b),
        lex_less(b, c),
    ensures
        lex_less(a, c),
    decreases a.len(),
{
    if a.len() > 0 && b.len() > 0 && c.len() > 0 {
        if a[0] == b[0] && b[0] == c[0] {
            lemma_lex_transitive(a.drop_first(), b.drop_first(), c.drop_first());
        }
    }
}

/// The order of two texts is decided after their common prefix.
proof fn lemma_lex_skip(a: Seq<char>, b: Seq<char>, i: int)
    requires
        0 <= i <= a.len(),
        i <= b.len(),
        forall|k: int| 0 <= k < i ==> a[k] == b[k],
    ensures
        lex_less(a, b) == lex_less(a.skip(i), b.skip(i)),
    decreases i,
{
    if i > 0 {
        lemma_lex_skip(a.drop_first(), b.drop_first(), i - 1);
        assert(a.drop_first().skip(i - 1) =~= a.skip(i));
        assert(b.drop_first().skip(i - 1) =~= b.skip(i));
    } else {
        assert(a.skip(0) =~= a);
        assert(b.skip(0) =~= b);
    }
}

/// Whether `a` comes before `b` in `String` order.
pub fn text_less(a: &str, b: &str) -> (less: bool)
    ensures
        less == lex_less(a@, b@),
{
    let n = a.unicode_len();
    let m = b.unicode_len();
    let mut i: usize = 0;
    while i < n && i < m
        invariant
            n == a@.len(),
            m == b@.len(),
            i <= n,
            i <= m,
            forall|k: int| 0 <= k < i ==> a@[k] == b@[k],
        decreases n - i,
    {
        let x = a.get_char(i);
        let y = b.get_char(i);
        if x != y {
            proof {
                lemma_lex_skip(a@, b@, i as int);
                assert(a@.skip(i as int)[0] == x);
                assert(b@.skip(i as int)[0] == y);
            }
            return (x as u32) < (y as u32);
        }
        i += 1;
    }
    proof {
        lemma_lex_skip(a@, b@, i as int);
    }
    i == n && i < m
}

/// The views of a list of names.
pub open spec fn name_views(names: Seq<String>) -> Seq<Seq<char>> {
    names.map_values(|s: String| s@)
}

/// Each name comes before the next.
pub open spec fn strictly_sorted(names: Seq<Seq<char>>) -> bool {
    forall|i: int, j: int| 0 <= i < j < names.len() ==> lex_less(#[trigger] names[i], #[trigger] names[j])
}

/// A strictly sorted list is determined by its elements: two such lists with the same
/// elements are equal.
pub proof fn lemma_sorted_list_is_unique(a: Seq<Seq<char>>, b: Seq<Seq<char>>)
    requires
        strictly_sorted(a),
        strictly_sorted(b),
        forall|x: Seq<char>| a.contains(x) <==> b.contains(x),
    ensures
        a == b,
    decreases a.len(),
{
    if a.len() == 0 {
        if b.len() > 0 {
            assert(b.contains(b[0]));
        }
        assert(a =~= b);
    } else {
        assert(a.contains(a[0]));
        if b.len() == 0 {
            assert(false);
        }
        assert(b.contains(b[0]));
        let i = choose|i: int| 0 <= i < a.len() && a[i] == b[0];
        let j = choose|j: int| 0 <= j < b.len() && b[j] == a[0];
        if j > 0 {
            assert(lex_less(b[0], b[j]));
            if i > 0 {
                assert(lex_less(a[0], a[i]));
                lemma_lex_total(a[0], b[0]);
            } else {
                lemma_lex_irreflexive(a[0]);
            }
        }
        assert(a[0] == b[0]);
        let (ra, rb) = (a.drop_first(), b.drop_first());
        assert forall|x: Seq<char>| ra.contains(x) <==> rb.contains(x) by {
            if ra.contains(x) {
                let k = choose|k: int| 0 <= k < ra.len() && ra[k] == x;
                assert(a[k + 1] == x && lex_less(a[0], a[k + 1]));
                assert(a.contains(x));
                let m = choose|m: int| 0 <= m < b.len() && b[m] == x;
                if m == 0 {
                    lemma_lex_irreflexive(x);
                }
                assert(rb[m - 1] == x);
            }
            if rb.contains(x) {
                let k = choose|k: int| 0 <= k < rb.len() && rb[k] == x;
                assert(b[k + 1] == x && lex_less(b[0], b[k + 1]));
                assert(b.contains(x));
                let m = choose|m: int| 0 <= m < a.len() && a[m] == x;
                if m == 0 {
                    lemma_lex_irreflexive(x);
                }
                assert(ra[m - 1] == x);
            }
        }
        assert forall|p: int, q: int| 0 <= p < q < ra.len() implies lex_less(#[trigger] ra[p], #[trigger] ra[q]) by {
            assert(ra[p] == a[p + 1] && ra[q] == a[q + 1]);
        }
        assert forall|p: int, q: int| 0 <= p < q < rb.len() implies lex_less(#[trigger] rb[p], #[trigger] rb[q]) by {
            assert(rb[p] == b[p + 1] && rb[q] == b[q + 1]);
        }
        lemma_sorted_list_is_unique(ra, rb);
        assert(a =~= seq![a[0]] + ra);
        assert(b =~= seq![b[0]] + rb);
    }
}

/// Inserts `name` into a strictly sorted list, unless it is there already.
fn insert_sorted(names: &mut Vec<String>, name: &String)
    requires
        strictly_sorted(name_views(old(names)@)),
    ensures
        strictly_sorted(name_views(final(names)@)),
        forall|x: Seq<char>|
            name_views(final(names)@).contains(x) <==> (name_views(old(names)@).contains(x) || x
                == name@),
{
    let ghost before = name_views(names@);
    let mut k: usize = 0;
    while k < names.len() && text_less(names[k].as_str(), name.as_str())
        invariant
            k <= names@.len(),
            names@ == old(names)@,
            before == name_views(names@),
            strictly_sorted(before),
            forall|j: int| 0 <= j < k ==> lex_less(#[trigger] before[j], name@),
        decreases names@.len() - k,
    {
        k += 1;
    }
    if k < names.len() && names[k] == *name {
        proof {
            assert(before[k as int] == name@);
        }
        return;
    }
    proof {
        if k < names@.len() {
            lemma_lex_total(before[k as int], name@);
            assert forall|j: int| k <= j < before.len() implies lex_less(name@, #[trigger] before[j]) by {
                if j > k {
                    lemma_lex_transitive(name@, before[k as int], before[j]);
                }
            }
        }
    }
    names.insert(k, name.clone());
    proof {
        let after = name_views(names@);
        assert(after =~= before.insert(k as int, name@));
        assert forall|i: int, j: int| 0 <= i < j < after.len() implies lex_less(
            #[trigger] after[i],
            #[trigger] after[j],
        ) by {
            if i < k && j > k {
                lemma_lex_transitive(after[i], name@, after[j]);
            }
        }
        assert forall|x: Seq<char>| after.contains(x) <==> (before.contains(x) || x == name@) by {
            if after.contains(x) {
                let i = choose|i: int| 0 <= i < after.len() && after[i] == x;
                if i < k {
                    assert(before[i] == x);
                } else if i > k {
                    assert(before[i - 1] == x);
                }
            }
            if before.contains(x) {
                let i = choose|i: int| 0 <= i < before.len() && before[i] == x;
                if i < k {
                    assert(after[i] == x);
                } else {
                    assert(after[i + 1] == x);
                }
            }
            if x == name@ {
                assert(after[k as int] == x);
            }
        }
    }
}

/// The names of the installed themes, each once, in `String` order.
pub fn available_theme_names(candidates: &[String]) -> (names: Vec<String>)
    ensures
        strictly_sorted(name_views(names@)),
        forall|x: Seq<char>|
            name_views(names@).contains(x) <==> name_views(candidates@).contains(x),
{
    let mut names: Vec<String> = Vec::new();
    let mut i: usize = 0;
    while i < candidates.len()
        invariant
            i <= candidates@.len(),
            strictly_sorted(name_views(names@)),
            forall|x: Seq<char>|
                name_views(names@).contains(x) <==> name_views(candidates@.take(i as int)).contains(x),
        decreases candidates@.len() - i,
    {
        insert_sorted(&mut names, &candidates[i]);
        proof {
            let prefix = name_views(candidates@.take(i as int));
            let next = name_views(candidates@.take(i + 1));
            assert(next =~= prefix.push(candidates@[i as int]@));
            assert forall|x: Seq<char>| next.contains(x) <==> (prefix.contains(x) || x
                == candidates@[i as int]@) by {
                if next.contains(x) {
                    let j = choose|j: int| 0 <= j < next.len() && next[j] == x;
                    if j < prefix.len() {
                        assert(prefix[j] == x);
                    }
                }
                if prefix.contains(x) {
                    let j = choose|j: int| 0 <= j < prefix.len() && prefix[j] == x;
                    assert(next[j] == x);
                }
                if x == candidates@[i as int]@ {
                    assert(next[i as int] == x);
                }
            }
        }
        i += 1;
    }
    proof {
        assert(candidates@.take(candidates@.len() as int) =~= candidates@);
    }
    names
}

} // verus!
