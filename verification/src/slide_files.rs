//! The files generated from one document (its SVG pages and the videos taken
//! out of it), kept in an `OrderMap` from file name to the slide each file
//! stands for, and put in slide order.

use vstd::prelude::*;

use ordermap::OrderMap;

verus! {

/// `ordermap::OrderMap`, an insertion-ordered hash map.
#[verifier::external_type_specification]
#[verifier::external_body]
#[verifier::reject_recursive_types(K)]
#[verifier::reject_recursive_types(V)]
#[verifier::reject_recursive_types(S)]
pub struct ExOrderMap<K, V, S>(ordermap::OrderMap<K, V, S>);

/// What a map from file names to numbers (the slide a file stands for, or
/// the folder entry it came from) holds: its entries, name and number, in
/// the map's order.
pub uninterp spec fn slide_entries(m: OrderMap<String, u32>) -> Seq<(Seq<char>, u32)>;

/// Position of the first entry, below `n`, named `name`.
pub open spec fn name_position_within(es: Seq<(Seq<char>, u32)>, name: Seq<char>, n: int) -> Option<int>
    decreases n,
{
    if n <= 0 {
        None
    } else {
        match name_position_within(es, name, n - 1) {
            Some(i) => Some(i),
            None => if es[n - 1].0 == name {
                Some(n - 1)
            } else {
                None
            },
        }
    }
}

/// Position of the entry named `name`.
pub open spec fn name_position(es: Seq<(Seq<char>, u32)>, name: Seq<char>) -> Option<int> {
    name_position_within(es, name, es.len() as int)
}

/// The entries after inserting `name` with `slide`: an entry of that name
/// keeps its place and takes the new slide; otherwise the entry goes last.
pub open spec fn entries_insert(es: Seq<(Seq<char>, u32)>, name: Seq<char>, slide: u32) -> Seq<
    (Seq<char>, u32),
> {
    match name_position(es, name) {
        Some(i) => es.update(i, (name, slide)),
        None => es.push((name, slide)),
    }
}

/// `OrderMap::new`: an empty map.
#[verifier::external_body]
pub(crate) fn new_slide_map() -> (m: OrderMap<String, u32>)
    ensures
        slide_entries(m) == Seq::<(Seq<char>, u32)>::empty(),
{
    OrderMap::new()
}

/// `OrderMap::insert`: an entry of an equal name keeps its place in the
/// order and takes the new slide; a new name is added last.
#[verifier::external_body]
pub(crate) fn insert_slide(m: &mut OrderMap<String, u32>, name: String, slide: u32)
    ensures
        slide_entries(*final(m)) == entries_insert(slide_entries(*old(m)), name@, slide),
{
    m.insert(name, slide);
}

/// `OrderMap::contains_key`: whether an entry has this name.
#[verifier::external_body]
pub(crate) fn has_name(m: &OrderMap<String, u32>, name: &str) -> (b: bool)
    ensures
        b == name_position(slide_entries(*m), name@) is Some,
{
    m.contains_key(name)
}

/// `OrderMap::into_iter`, collected: the entries in the map's order.
#[verifier::external_body]
pub(crate) fn entries_in_order(m: OrderMap<String, u32>) -> (r: Vec<(String, u32)>)
    ensures
        r@.map_values(|p: (String, u32)| (p.0@, p.1)) == slide_entries(m),
{
    m.into_iter().collect()
}

/// `e` put into `s`, which is in slide order, after every entry whose slide
/// is not later than its own.
pub open spec fn insert_by_slide(s: Seq<(Seq<char>, u32)>, e: (Seq<char>, u32)) -> Seq<
    (Seq<char>, u32),
>
    decreases s.len(),
{
    if s.len() == 0 {
        seq![e]
    } else if s.last().1 <= e.1 {
        s.push(e)
    } else {
        insert_by_slide(s.drop_last(), e).push(s.last())
    }
}

/// The entries stably sorted by slide: in slide order, and entries of the
/// same slide in the order they had. (A stable sort has only this result.)
pub open spec fn stable_slide_sort(s: Seq<(Seq<char>, u32)>) -> Seq<(Seq<char>, u32)>
    decreases s.len(),
{
    if s.len() == 0 {
        s
    } else {
        insert_by_slide(stable_slide_sort(s.drop_last()), s.last())
    }
}

/// The order of two slide numbers.
fn slide_order(a: &u32, b: &u32) -> (o: std::cmp::Ordering)
    ensures
        o == (if *a < *b {
            std::cmp::Ordering::Less
        } else if *a == *b {
            std::cmp::Ordering::Equal
        } else {
            std::cmp::Ordering::Greater
        }),
{
    if *a < *b {
        std::cmp::Ordering::Less
    } else if *a == *b {
        std::cmp::Ordering::Equal
    } else {
        std::cmp::Ordering::Greater
    }
}

/// `OrderMap::sorted_by` comparing slides, collected: the sort is stable,
/// so the entries come out in slide order, those of one slide in the map's
/// order.
#[verifier::external_body]
fn sorted_by_slide(m: OrderMap<String, u32>) -> (r: Vec<(String, u32)>)
    ensures
        r@.map_values(|p: (String, u32)| (p.0@, p.1)) == stable_slide_sort(slide_entries(m)),
{
    m.sorted_by(|_, a, _, b| slide_order(a, b)).collect()
}

/// The entries of `base` after inserting each of `items` in turn.
pub open spec fn entries_insert_all(base: Seq<(Seq<char>, u32)>, items: Seq<(Seq<char>, u32)>) -> Seq<
    (Seq<char>, u32),
>
    decreases items.len(),
{
    if items.len() == 0 {
        base
    } else {
        entries_insert(entries_insert_all(base, items.drop_last()), items.last().0, items.last().1)
    }
}

/// The files a document gives, in slide order: its pages are entered first,
/// then its videos (a later file of an equal name keeps the earlier one's
/// place), and the whole is stably sorted by slide.
pub open spec fn generated_in_slide_order(pages: Seq<(Seq<char>, u32)>, videos: Seq<(Seq<char>, u32)>) -> Seq<
    (Seq<char>, u32),
> {
    stable_slide_sort(entries_insert_all(entries_insert_all(Seq::empty(), pages), videos))
}

fn insert_all(m: &mut OrderMap<String, u32>, items: &Vec<(String, u32)>)
    ensures
        slide_entries(*final(m)) == entries_insert_all(
            slide_entries(*old(m)),
            items@.map_values(|p: (String, u32)| (p.0@, p.1)),
        ),
{
    let ghost base = slide_entries(*m);
    let ghost iv = items@.map_values(|p: (String, u32)| (p.0@, p.1));
    let mut i: usize = 0;
    while i < items.len()
        invariant
            i <= items.len(),
            iv == items@.map_values(|p: (String, u32)| (p.0@, p.1)),
            slide_entries(*m) == entries_insert_all(base, iv.take(i as int)),
        decreases items.len() - i,
    {
        let name = items[i].0.clone();
        let slide = items[i].1;
        insert_slide(m, name, slide);
        assert(iv.take(i + 1).drop_last() =~= iv.take(i as int));
        i = i + 1;
    }
    assert(iv.take(items.len() as int) =~= iv);
}

/// The files generated from a document, in slide order: the pages (name and
/// page number) and the videos (name and the slide they were taken from)
/// are merged by slide, pages before videos of the same slide; a later file
/// of an equal name replaces an earlier one in its place.
pub fn merge_by_slide(pages: &Vec<(String, u32)>, videos: &Vec<(String, u32)>) -> (r: Vec<(String, u32)>)
    ensures
        r@.map_values(|p: (String, u32)| (p.0@, p.1)) == generated_in_slide_order(
            pages@.map_values(|p: (String, u32)| (p.0@, p.1)),
            videos@.map_values(|p: (String, u32)| (p.0@, p.1)),
        ),
{
    let mut m = new_slide_map();
    insert_all(&mut m, pages);
    insert_all(&mut m, videos);
    sorted_by_slide(m)
}

/// Pages `1..=n`, in order, but for those in `skip`.
pub open spec fn pages_except(n: nat, skip: Seq<u32>) -> Seq<u32>
    decreases n,
{
    if n == 0 {
        Seq::empty()
    } else if skip.contains(n as u32) {
        pages_except((n - 1) as nat, skip)
    } else {
        pages_except((n - 1) as nat, skip).push(n as u32)
    }
}

fn contains_page(v: &Vec<u32>, x: u32) -> (b: bool)
    ensures
        b == v@.contains(x),
{
    let mut i: usize = 0;
    while i < v.len()
        invariant
            i <= v.len(),
            forall|j: int| 0 <= j < i ==> v@[j] != x,
        decreases v.len() - i,
    {
        if v[i] == x {
            return true;
        }
        i = i + 1;
    }
    false
}

/// The pages of a document of `count` pages to render, in order: all but
/// those in `skip` (the slides whose videos stand in their place).
pub fn pages_to_render(count: u32, skip: &Vec<u32>) -> (r: Vec<u32>)
    ensures
        r@ == pages_except(count as nat, skip@),
{
    let mut r: Vec<u32> = Vec::new();
    let mut i: u32 = 0;
    while i < count
        invariant
            i <= count,
            r@ == pages_except(i as nat, skip@),
        decreases count - i,
    {
        i = i + 1;
        if !contains_page(skip, i) {
            r.push(i);
        }
    }
    r
}

// ---------------------------------------------------------------------
// Laws
// ---------------------------------------------------------------------

/// Entries in slide order.
pub open spec fn in_slide_order(s: Seq<(Seq<char>, u32)>) -> bool {
    forall|i: int, j: int| 0 <= i < j < s.len() ==> s[i].1 <= s[j].1
}

/// Whether an entry belongs to slide `k`.
pub open spec fn of_slide(k: u32) -> spec_fn((Seq<char>, u32)) -> bool {
    |e: (Seq<char>, u32)| e.1 == k
}

proof fn lemma_insert_by_slide(s: Seq<(Seq<char>, u32)>, e: (Seq<char>, u32))
    requires
        in_slide_order(s),
    ensures
        in_slide_order(insert_by_slide(s, e)),
        insert_by_slide(s, e).len() == s.len() + 1,
        insert_by_slide(s, e).last() == (if s.len() == 0 || s.last().1 <= e.1 {
            e
        } else {
            s.last()
        }),
        insert_by_slide(s, e).to_multiset() == s.to_multiset().insert(e),
        forall|k: u32|
            #[trigger] insert_by_slide(s, e).filter(of_slide(k)) == (if e.1 == k {
                s.filter(of_slide(k)).push(e)
            } else {
                s.filter(of_slide(k))
            }),
    decreases s.len(),
{
    broadcast use vstd::seq_lib::group_to_multiset_ensures;

    reveal(Seq::filter);
    let r = insert_by_slide(s, e);
    if s.len() == 0 {
        assert(r == Seq::<(Seq<char>, u32)>::empty().push(e));
        assert(s.push(e).drop_last() =~= s);
        assert forall|k: u32| #[trigger] r.filter(of_slide(k)) == (if e.1 == k {
            s.filter(of_slide(k)).push(e)
        } else {
            s.filter(of_slide(k))
        }) by {
            assert(r.drop_last() =~= s);
        }
    } else if s.last().1 <= e.1 {
        assert(r == s.push(e));
        assert(r.drop_last() =~= s);
        assert forall|i: int, j: int| 0 <= i < j < r.len() implies r[i].1 <= r[j].1 by {
            if j == s.len() {
                assert(s[i].1 <= s.last().1);
            }
        }
    } else {
        let t = s.drop_last();
        let l = s.last();
        assert(in_slide_order(t));
        lemma_insert_by_slide(t, e);
        let ti = insert_by_slide(t, e);
        assert(r == ti.push(l));
        assert(r.drop_last() =~= ti);
        assert(s =~= t.push(l));
        assert(ti.last().1 <= l.1) by {
            if !(t.len() == 0 || t.last().1 <= e.1) {
                assert(t.last() == s[s.len() - 2]);
            }
        }
        assert forall|i: int, j: int| 0 <= i < j < r.len() implies r[i].1 <= r[j].1 by {
            if j == ti.len() {
                if i < ti.len() - 1 {
                    assert(ti[i].1 <= ti[ti.len() - 1].1);
                }
            }
        }
        assert(r.to_multiset() =~= s.to_multiset().insert(e));
        assert forall|k: u32| #[trigger] r.filter(of_slide(k)) == (if e.1 == k {
            s.filter(of_slide(k)).push(e)
        } else {
            s.filter(of_slide(k))
        }) by {
            assert(ti.filter(of_slide(k)) == (if e.1 == k {
                t.filter(of_slide(k)).push(e)
            } else {
                t.filter(of_slide(k))
            }));
            assert(s.drop_last() == t);
        }
    }
}

/// The stable sort by slide puts the entries in slide order, keeps exactly
/// the entries it was given, and keeps the entries of each slide in the
/// order they had.
pub proof fn lemma_stable_slide_sort(s: Seq<(Seq<char>, u32)>)
    ensures
        in_slide_order(stable_slide_sort(s)),
        stable_slide_sort(s).to_multiset() == s.to_multiset(),
        forall|k: u32| #[trigger] stable_slide_sort(s).filter(of_slide(k)) == s.filter(of_slide(k)),
    decreases s.len(),
{
    broadcast use vstd::seq_lib::group_to_multiset_ensures;

    reveal(Seq::filter);
    if s.len() > 0 {
        let t = s.drop_last();
        lemma_stable_slide_sort(t);
        lemma_insert_by_slide(stable_slide_sort(t), s.last());
        assert(s =~= t.push(s.last()));
        assert forall|k: u32| #[trigger] stable_slide_sort(s).filter(of_slide(k)) == s.filter(
            of_slide(k),
        ) by {
            assert(stable_slide_sort(t).filter(of_slide(k)) == t.filter(of_slide(k)));
        }
    }
}

/// The pages rendered are, in increasing order, exactly the pages `1..=n`
/// not in `skip`.
pub proof fn lemma_pages_except(n: nat, skip: Seq<u32>)
    requires
        n <= u32::MAX,
    ensures
        forall|i: int|
            0 <= i < pages_except(n, skip).len() ==> 1 <= #[trigger] pages_except(n, skip)[i] <= n
                && !skip.contains(pages_except(n, skip)[i]),
        forall|i: int, j: int|
            0 <= i < j < pages_except(n, skip).len() ==> pages_except(n, skip)[i] < pages_except(
                n,
                skip,
            )[j],
        forall|p: u32| 1 <= p <= n && !skip.contains(p) ==> #[trigger] pages_except(n, skip).contains(p),
    decreases n,
{
    if n > 0 {
        let m = (n - 1) as nat;
        lemma_pages_except(m, skip);
        let prev = pages_except(m, skip);
        let cur = pages_except(n, skip);
        if !skip.contains(n as u32) {
            assert(cur == prev.push(n as u32));
            assert forall|p: u32| 1 <= p <= n && !skip.contains(p) implies #[trigger] cur.contains(p) by {
                if p == n {
                    assert(cur[prev.len() as int] == p);
                } else {
                    assert(prev.contains(p));
                    let k = choose|k: int| 0 <= k < prev.len() && prev[k] == p;
                    assert(cur[k] == p);
                }
            }
        }
    }
}

} // verus!
