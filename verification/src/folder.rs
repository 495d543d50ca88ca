//! The listing of the presentations folder: which entries are handled and in
//! which order, and the files the page shows, each name once, kept in an
//! `OrderMap` as they are found.

use vstd::prelude::*;

use crate::server::{classify_entry, entry_kind_of, EntryKind};
use crate::slide_files::{
    entries_in_order, entries_insert, has_name, insert_slide, name_position, name_position_within,
    new_slide_map, slide_entries,
};
use crate::sorting::{name_order, sort_names};
use crate::text::{chars_of, string_of};

verus! {

/// The entries to handle among names in this order, each with what to do
/// with it; skipped entries (hidden, or not media) are left out.
pub open spec fn handled_entries(names: Seq<Seq<char>>) -> Seq<(Seq<char>, EntryKind)>
    decreases names.len(),
{
    if names.len() == 0 {
        Seq::empty()
    } else if entry_kind_of(names.last()) == EntryKind::Skip {
        handled_entries(names.drop_last())
    } else {
        handled_entries(names.drop_last()).push((names.last(), entry_kind_of(names.last())))
    }
}

/// The folder's entries to handle, in name order, each with what to do with
/// it.
pub fn folder_plan(names: Vec<String>) -> (r: Vec<(String, EntryKind)>)
    ensures
        r@.map_values(|p: (String, EntryKind)| (p.0@, p.1)) == handled_entries(
            names@.map_values(|s: String| s@).sort_by(name_order()),
        ),
{
    let ghost nv = names@.map_values(|s: String| s@);
    let mut cs: Vec<Vec<char>> = Vec::new();
    let mut i: usize = 0;
    while i < names.len()
        invariant
            i <= names.len(),
            nv == names@.map_values(|s: String| s@),
            cs@.map_values(|v: Vec<char>| v@) == nv.take(i as int),
        decreases names.len() - i,
    {
        let c = chars_of(names[i].as_str());
        let ghost before = cs@.map_values(|v: Vec<char>| v@);
        cs.push(c);
        assert(cs@.map_values(|v: Vec<char>| v@) =~= before.push(nv[i as int]));
        assert(nv.take(i + 1) =~= nv.take(i as int).push(nv[i as int]));
        i = i + 1;
    }
    assert(nv.take(names.len() as int) =~= nv);
    let sorted = sort_names(cs);
    let ghost sv = sorted@.map_values(|v: Vec<char>| v@);
    let mut r: Vec<(String, EntryKind)> = Vec::new();
    let mut j: usize = 0;
    while j < sorted.len()
        invariant
            j <= sorted.len(),
            sv == sorted@.map_values(|v: Vec<char>| v@),
            r@.map_values(|p: (String, EntryKind)| (p.0@, p.1)) == handled_entries(sv.take(j as int)),
        decreases sorted.len() - j,
    {
        let n = string_of(&sorted[j], 0, sorted[j].len());
        assert(n@ =~= sv[j as int]);
        assert(sv.take(j + 1).drop_last() =~= sv.take(j as int));
        let k = classify_entry(n.as_str());
        match k {
            EntryKind::Skip => {},
            _ => {
                let ghost before = r@.map_values(|p: (String, EntryKind)| (p.0@, p.1));
                r.push((n, k));
                assert(r@.map_values(|p: (String, EntryKind)| (p.0@, p.1)) =~= before.push(
                    (sv[j as int], k),
                ));
            },
        }
        j = j + 1;
    }
    assert(sv.take(sorted.len() as int) =~= sv);
    r
}

/// What handling one folder entry gave: a media file shown as it is, or the
/// files a conversion generated, in their order.
pub enum FolderPart {
    Media(String),
    Generated(Vec<String>),
}

/// A folder part by the names it holds.
pub ghost enum FolderPartView {
    Media(Seq<char>),
    Generated(Seq<Seq<char>>),
}

/// The view of a folder part.
pub open spec fn part_view(p: FolderPart) -> FolderPartView {
    match p {
        FolderPart::Media(n) => FolderPartView::Media(n@),
        FolderPart::Generated(ns) => FolderPartView::Generated(ns@.map_values(|s: String| s@)),
    }
}

/// The entries after inserting each of `names`, with number `v`.
pub open spec fn names_insert_all(es: Seq<(Seq<char>, u32)>, names: Seq<Seq<char>>, v: u32) -> Seq<
    (Seq<char>, u32),
>
    decreases names.len(),
{
    if names.len() == 0 {
        es
    } else {
        entries_insert(names_insert_all(es, names.drop_last(), v), names.last(), v)
    }
}

/// The map of the files found, each name with the number of the part it
/// came from: a media file is entered only when its name is new; generated
/// files are inserted, an equal name keeping its place.
pub open spec fn folder_entries(parts: Seq<FolderPartView>) -> Seq<(Seq<char>, u32)>
    decreases parts.len(),
{
    if parts.len() == 0 {
        Seq::empty()
    } else {
        let es = folder_entries(parts.drop_last());
        let v = (parts.len() - 1) as u32;
        match parts.last() {
            FolderPartView::Media(n) => if name_position(es, n) is Some {
                es
            } else {
                es.push((n, v))
            },
            FolderPartView::Generated(ns) => names_insert_all(es, ns, v),
        }
    }
}

/// The names of the files the page shows, in the order they were found.
pub open spec fn folder_names(parts: Seq<FolderPartView>) -> Seq<Seq<char>> {
    folder_entries(parts).map_values(|e: (Seq<char>, u32)| e.0)
}

/// The files of the folder, in the order found, each name once: a media file
/// is taken unless its name is already there; generated files replace an
/// equal name in its place.
pub fn folder_files(parts: &Vec<FolderPart>) -> (r: Vec<String>)
    requires
        parts@.len() <= u32::MAX,
    ensures
        r@.map_values(|s: String| s@) == folder_names(parts@.map_values(|p: FolderPart| part_view(p))),
{
    let ghost pv = parts@.map_values(|p: FolderPart| part_view(p));
    let mut m = new_slide_map();
    let mut i: usize = 0;
    while i < parts.len()
        invariant
            i <= parts.len(),
            parts@.len() <= u32::MAX,
            pv == parts@.map_values(|p: FolderPart| part_view(p)),
            slide_entries(m) == folder_entries(pv.take(i as int)),
        decreases parts.len() - i,
    {
        let ghost es = slide_entries(m);
        let v = i as u32;
        assert(pv.take(i + 1).drop_last() =~= pv.take(i as int));
        match &parts[i] {
            FolderPart::Media(n) => {
                if !has_name(&m, n.as_str()) {
                    insert_slide(&mut m, n.clone(), v);
                }
            },
            FolderPart::Generated(ns) => {
                let ghost nsv = ns@.map_values(|s: String| s@);
                let mut j: usize = 0;
                while j < ns.len()
                    invariant
                        j <= ns.len(),
                        nsv == ns@.map_values(|s: String| s@),
                        slide_entries(m) == names_insert_all(es, nsv.take(j as int), v),
                    decreases ns.len() - j,
                {
                    insert_slide(&mut m, ns[j].clone(), v);
                    assert(nsv.take(j + 1).drop_last() =~= nsv.take(j as int));
                    j = j + 1;
                }
                assert(nsv.take(ns.len() as int) =~= nsv);
            },
        }
        i = i + 1;
    }
    assert(pv.take(parts.len() as int) =~= pv);
    let es = entries_in_order(m);
    let ghost ev = es@.map_values(|p: (String, u32)| (p.0@, p.1));
    let mut r: Vec<String> = Vec::new();
    let mut k: usize = 0;
    while k < es.len()
        invariant
            k <= es.len(),
            ev == es@.map_values(|p: (String, u32)| (p.0@, p.1)),
            r@.map_values(|s: String| s@) == ev.take(k as int).map_values(|e: (Seq<char>, u32)| e.0),
        decreases es.len() - k,
    {
        let ghost before = r@.map_values(|s: String| s@);
        r.push(es[k].0.clone());
        assert(r@.map_values(|s: String| s@) =~= before.push(ev[k as int].0));
        assert(ev.take(k + 1).map_values(|e: (Seq<char>, u32)| e.0) =~= ev.take(k as int).map_values(
            |e: (Seq<char>, u32)| e.0,
        ).push(ev[k as int].0));
        k = k + 1;
    }
    assert(ev.take(es.len() as int) =~= ev);
    r
}

// ---------------------------------------------------------------------
// Laws
// ---------------------------------------------------------------------

/// No two entries have the same name.
pub open spec fn names_distinct(es: Seq<(Seq<char>, u32)>) -> bool {
    forall|i: int, j: int| 0 <= i < j < es.len() ==> es[i].0 != es[j].0
}

/// Some entry has this name.
pub open spec fn has_entry_named(es: Seq<(Seq<char>, u32)>, n: Seq<char>) -> bool {
    exists|i: int| 0 <= i < es.len() && #[trigger] es[i].0 == n
}

proof fn lemma_name_position_within(es: Seq<(Seq<char>, u32)>, n: Seq<char>, k: int)
    requires
        0 <= k <= es.len(),
    ensures
        match name_position_within(es, n, k) {
            Some(i) => 0 <= i < k && es[i].0 == n,
            None => forall|i: int| 0 <= i < k ==> es[i].0 != n,
        },
    decreases k,
{
    if k > 0 {
        lemma_name_position_within(es, n, k - 1);
    }
}

proof fn lemma_entries_insert(es: Seq<(Seq<char>, u32)>, n: Seq<char>, v: u32)
    requires
        names_distinct(es),
    ensures
        names_distinct(entries_insert(es, n, v)),
        has_entry_named(entries_insert(es, n, v), n),
        forall|x: Seq<char>| has_entry_named(es, x) ==> has_entry_named(entries_insert(es, n, v), x),
{
    lemma_name_position_within(es, n, es.len() as int);
    let r = entries_insert(es, n, v);
    match name_position(es, n) {
        Some(i) => {
            assert(r[i].0 == n);
            assert forall|x: Seq<char>| has_entry_named(es, x) implies has_entry_named(r, x) by {
                let j = choose|j: int| 0 <= j < es.len() && #[trigger] es[j].0 == x;
                assert(r[j].0 == x);
            }
        },
        None => {
            assert(r[es.len() as int].0 == n);
            assert forall|x: Seq<char>| has_entry_named(es, x) implies has_entry_named(r, x) by {
                let j = choose|j: int| 0 <= j < es.len() && #[trigger] es[j].0 == x;
                assert(r[j].0 == x);
            }
        },
    }
}

proof fn lemma_names_insert_all(es: Seq<(Seq<char>, u32)>, ns: Seq<Seq<char>>, v: u32)
    requires
        names_distinct(es),
    ensures
        names_distinct(names_insert_all(es, ns, v)),
        forall|i: int| 0 <= i < ns.len() ==> has_entry_named(names_insert_all(es, ns, v), #[trigger] ns[i]),
        forall|x: Seq<char>| has_entry_named(es, x) ==> has_entry_named(names_insert_all(es, ns, v), x),
    decreases ns.len(),
{
    if ns.len() > 0 {
        let prev = names_insert_all(es, ns.drop_last(), v);
        lemma_names_insert_all(es, ns.drop_last(), v);
        lemma_entries_insert(prev, ns.last(), v);
        assert forall|i: int| 0 <= i < ns.len() implies has_entry_named(
            names_insert_all(es, ns, v),
            #[trigger] ns[i],
        ) by {
            if i < ns.len() - 1 {
                assert(ns[i] == ns.drop_last()[i]);
            }
        }
    }
}

/// The page's files: each name once, and every file found among them (a
/// media file, or a file a conversion generated), whatever came later.
pub proof fn lemma_folder_files(parts: Seq<FolderPartView>)
    ensures
        names_distinct(folder_entries(parts)),
        forall|p: int|
            0 <= p < parts.len() ==> match #[trigger] parts[p] {
                FolderPartView::Media(n) => has_entry_named(folder_entries(parts), n),
                FolderPartView::Generated(ns) => forall|i: int|
                    0 <= i < ns.len() ==> has_entry_named(folder_entries(parts), #[trigger] ns[i]),
            },
    decreases parts.len(),
{
    if parts.len() > 0 {
        let prev = parts.drop_last();
        lemma_folder_files(prev);
        let es = folder_entries(prev);
        let v = (parts.len() - 1) as u32;
        let r = folder_entries(parts);
        let keeps = forall|x: Seq<char>| has_entry_named(es, x) ==> has_entry_named(r, x);
        match parts.last() {
            FolderPartView::Media(n) => {
                lemma_name_position_within(es, n, es.len() as int);
                if name_position(es, n) is Some {
                    let i = name_position(es, n)->0;
                    assert(es[i].0 == n);
                } else {
                    assert(r == es.push((n, v)));
                    assert(r[es.len() as int].0 == n);
                    assert forall|x: Seq<char>| has_entry_named(es, x) implies has_entry_named(r, x) by {
                        let j = choose|j: int| 0 <= j < es.len() && #[trigger] es[j].0 == x;
                        assert(r[j].0 == x);
                    }
                }
                assert(keeps);
            },
            FolderPartView::Generated(ns) => {
                lemma_names_insert_all(es, ns, v);
                assert(keeps);
            },
        }
        assert forall|p: int| 0 <= p < parts.len() implies match #[trigger] parts[p] {
            FolderPartView::Media(n) => has_entry_named(r, n),
            FolderPartView::Generated(ns) => forall|i: int|
                0 <= i < ns.len() ==> has_entry_named(r, #[trigger] ns[i]),
        } by {
            if p < parts.len() - 1 {
                assert(parts[p] == prev[p]);
                match parts[p] {
                    FolderPartView::Media(n) => {
                        assert(has_entry_named(es, n));
                    },
                    FolderPartView::Generated(ns) => {
                        assert forall|i: int| 0 <= i < ns.len() implies has_entry_named(
                            r,
                            #[trigger] ns[i],
                        ) by {
                            assert(has_entry_named(es, ns[i]));
                        }
                    },
                }
            }
        }
    }
}

} // verus!
