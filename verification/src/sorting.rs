//! Ordering of names as `String`'s `Ord` orders them, and a verified sort.

use vstd::prelude::*;
use vstd::relations::*;

verus! {

/// `a <= b` in the order of `String`: lexicographic by Unicode scalar value
/// (the byte order of UTF-8 coincides with it; `char`'s `<` compares scalar
/// values).
pub open spec fn name_le(a: Seq<char>, b: Seq<char>) -> bool
    decreases a.len(),
{
    if a.len() == 0 {
        true
    } else if b.len() == 0 {
        false
    } else if a[0] != b[0] {
        a[0] < b[0]
    } else {
        name_le(a.drop_first(), b.drop_first())
    }
}

/// The order on names, as a relation.
pub open spec fn name_order() -> spec_fn(Seq<char>, Seq<char>) -> bool {
    |a: Seq<char>, b: Seq<char>| name_le(a, b)
}

proof fn lemma_name_le_reflexive(a: Seq<char>)
    ensures
        name_le(a, a),
    decreases a.len(),
{
    if a.len() > 0 {
        lemma_name_le_reflexive(a.drop_first());
    }
}

proof fn lemma_name_le_antisymmetric(a: Seq<char>, b: Seq<char>)
    requires
        name_le(a, b),
        name_le(b, a),
    ensures
        a == b,
    decreases a.len(),
{
    if a.len() > 0 && b.len() > 0 {
        lemma_name_le_antisymmetric(a.drop_first(), b.drop_first());
        assert(a =~= seq![a[0]] + a.drop_first());
        assert(b =~= seq![b[0]] + b.drop_first());
    } else {
        assert(a =~= b);
    }
}

proof fn lemma_name_le_transitive(a: Seq<char>, b: Seq<char>, c: Seq<char>)
    requires
        name_le(a, b),
        name_le(b, c),
    ensures
        name_le(a, c),
    decreases a.len(),
{
    if a.len() > 0 && b.len() > 0 && c.len() > 0 {
        if a[0] == b[0] && b[0] == c[0] {
            lemma_name_le_transitive(a.drop_first(), b.drop_first(), c.drop_first());
        }
    }
}

proof fn lemma_name_le_connected(a: Seq<char>, b: Seq<char>)
    ensures
        name_le(a, b) || name_le(b, a),
    decreases a.len(),
{
    if a.len() > 0 && b.len() > 0 {
        if a[0] == b[0] {
            lemma_name_le_connected(a.drop_first(), b.drop_first());
        }
    }
}

/// Names are totally ordered.
pub proof fn lemma_name_order_total()
    ensures
        total_ordering(name_order()),
{
    assert forall|a: Seq<char>| #[trigger] name_order()(a, a) by {
        lemma_name_le_reflexive(a);
    }
    assert forall|a: Seq<char>, b: Seq<char>|
        #[trigger] name_order()(a, b) && #[trigger] name_order()(b, a) implies a == b by {
        lemma_name_le_antisymmetric(a, b);
    }
    assert forall|a: Seq<char>, b: Seq<char>, c: Seq<char>|
        #[trigger] name_order()(a, b) && #[trigger] name_order()(b, c) implies name_order()(
        a,
        c,
    ) by {
        lemma_name_le_transitive(a, b, c);
    }
    assert forall|a: Seq<char>, b: Seq<char>|
        #[trigger] name_order()(a, b) || #[trigger] name_order()(b, a) by {
        lemma_name_le_connected(a, b);
    }
}

/// Compares two names in the order of `String`.
pub fn chars_le(a: &Vec<char>, b: &Vec<char>) -> (r: bool)
    ensures
        r == name_le(a@, b@),
{
    let mut i: usize = 0;
    assert(a@.skip(0) =~= a@);
    assert(b@.skip(0) =~= b@);
    while i < a.len() && i < b.len() && a[i] == b[i]
        invariant
            i <= a.len(),
            i <= b.len(),
            name_le(a@, b@) == name_le(a@.skip(i as int), b@.skip(i as int)),
        decreases a.len() - i,
    {
        assert(a@.skip(i as int).drop_first() =~= a@.skip(i + 1));
        assert(b@.skip(i as int).drop_first() =~= b@.skip(i + 1));
        i = i + 1;
    }
    if i == a.len() {
        true
    } else if i == b.len() {
        false
    } else {
        a[i] < b[i]
    }
}

/// Sorts names in the order of `String` (the result is the unique sorted
/// arrangement of the input).
pub fn sort_names(names: Vec<Vec<char>>) -> (r: Vec<Vec<char>>)
    ensures
        r@.map_values(|v: Vec<char>| v@) == names@.map_values(|v: Vec<char>| v@).sort_by(
            name_order(),
        ),
{
    let ghost input = names@.map_values(|v: Vec<char>| v@);
    let mut out: Vec<Vec<char>> = Vec::new();
    let mut names = names;
    let ghost orig = names@;
    let mut k: usize = 0;
    let n = names.len();
    proof {
        lemma_name_order_total();
        broadcast use vstd::seq_lib::group_to_multiset_ensures;
        assert(out@.map_values(|v: Vec<char>| v@) =~= input.take(0));
    }
    while k < n
        invariant
            n == names.len(),
            names@ == orig,
            input == orig.map_values(|v: Vec<char>| v@),
            k <= n,
            total_ordering(name_order()),
            sorted_by(out@.map_values(|v: Vec<char>| v@), name_order()),
            out@.map_values(|v: Vec<char>| v@).to_multiset() == input.take(k as int).to_multiset(),
        decreases n - k,
    {
        broadcast use vstd::seq_lib::group_to_multiset_ensures;

        let x = names[k].clone();
        let ghost xs = x@;
        assert(xs == input[k as int]);
        let ghost before = out@.map_values(|v: Vec<char>| v@);
        let mut pos: usize = 0;
        while pos < out.len() && chars_le(&out[pos], &x)
            invariant
                pos <= out.len(),
                xs == x@,
                before == out@.map_values(|v: Vec<char>| v@),
                forall|j: int| 0 <= j < pos ==> name_le(#[trigger] before[j], xs),
            decreases out.len() - pos,
        {
            assert(before[pos as int] == out@[pos as int]@);
            pos = pos + 1;
        }
        out.insert(pos, x);
        let ghost after = out@.map_values(|v: Vec<char>| v@);
        assert(after =~= before.insert(pos as int, xs));
        assert(input.take(k + 1) =~= input.take(k as int).push(xs));
        assert forall|i: int, j: int| 0 <= i < j < after.len() implies #[trigger] name_order()(
            after[i],
            after[j],
        ) by {
            if pos < before.len() {
                assert(!name_le(before[pos as int], xs));
                lemma_name_le_connected(before[pos as int], xs);
            }
            if j < pos {
                assert(name_order()(before[i], before[j]));
            } else if j == pos {
                assert(name_le(before[i], xs));
            } else if i < pos {
                assert(name_le(before[i], xs));
                assert(name_order()(xs, before[pos as int]));
                assert(name_order()(before[pos as int], before[j - 1]) || pos == j - 1);
            } else if i == pos {
                assert(name_order()(xs, before[pos as int]));
                assert(name_order()(before[pos as int], before[j - 1]) || pos == j - 1);
            } else {
                assert(name_order()(before[i - 1], before[j - 1]));
            }
        }
        k = k + 1;
    }
    proof {
        assert(input.take(n as int) =~= input);
        input.lemma_sort_by_ensures(name_order());
        vstd::seq_lib::lemma_sorted_unique(
            out@.map_values(|v: Vec<char>| v@),
            input.sort_by(name_order()),
            name_order(),
        );
    }
    out
}

} // verus!
