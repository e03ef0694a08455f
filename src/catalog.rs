use std::collections::HashMap;
use vstd::prelude::*;

use crate::song::IIDXSong;

verus! {

broadcast use vstd::std_specs::hash::group_hash_axioms;

/// One source's entries applied in order on top of `base`: each entry sets
/// its identifier, so a later entry replaces an earlier one.
pub open spec fn apply_entries(
    base: Map<u32, IIDXSong>,
    entries: Seq<(u32, IIDXSong)>,
) -> Map<u32, IIDXSong>
    decreases entries.len(),
{
    if entries.len() == 0 {
        base
    } else {
        apply_entries(base, entries.drop_last()).insert(entries.last().0, entries.last().1)
    }
}

/// The mapping that one source defines.
pub open spec fn source_map(entries: Seq<(u32, IIDXSong)>) -> Map<u32, IIDXSong> {
    apply_entries(Map::empty(), entries)
}

/// The catalog merged from sources in the order given: each source's mapping
/// overrides what the earlier sources defined for the same identifier.
pub open spec fn merged_catalog(sources: Seq<Seq<(u32, IIDXSong)>>) -> Map<u32, IIDXSong>
    decreases sources.len(),
{
    if sources.len() == 0 {
        Map::empty()
    } else {
        merged_catalog(sources.drop_last()).union_prefer_right(source_map(sources.last()))
    }
}

/// The entries of each source, as sequences.
pub open spec fn sources_view(sources: Seq<Vec<(u32, IIDXSong)>>) -> Seq<Seq<(u32, IIDXSong)>> {
    sources.map_values(|s: Vec<(u32, IIDXSong)>| s@)
}

/// Applying entries on top of a mapping is the union that prefers the entries.
pub proof fn lemma_apply_entries_union(base: Map<u32, IIDXSong>, entries: Seq<(u32, IIDXSong)>)
    ensures
        apply_entries(base, entries) == base.union_prefer_right(source_map(entries)),
    decreases entries.len(),
{
    if entries.len() > 0 {
        let rest = entries.drop_last();
        lemma_apply_entries_union(base, rest);
        lemma_apply_entries_union(Map::empty(), rest);
        assert(Map::<u32, IIDXSong>::empty().union_prefer_right(source_map(rest)) =~= source_map(
            rest,
        ));
        assert(apply_entries(base, entries) =~= base.union_prefer_right(source_map(entries)));
    } else {
        assert(apply_entries(base, entries) =~= base.union_prefer_right(source_map(entries)));
    }
}

/// Merging two sources: every identifier of the later source has the later
/// source's metadata, every other identifier keeps the earlier source's.
pub proof fn lemma_later_source_wins(first: Seq<(u32, IIDXSong)>, second: Seq<(u32, IIDXSong)>)
    ensures
        merged_catalog(seq![first, second]).dom() == source_map(first).dom().union(
            source_map(second).dom(),
        ),
        forall|id: u32| #[trigger]
            source_map(second).contains_key(id) ==> merged_catalog(seq![first, second])[id]
                == source_map(second)[id],
        forall|id: u32|
            !source_map(second).contains_key(id) && #[trigger] source_map(first).contains_key(id)
                ==> merged_catalog(seq![first, second])[id] == source_map(first)[id],
{
    let s = seq![first, second];
    assert(s.drop_last() =~= seq![first]);
    assert(seq![first].drop_last() =~= Seq::<Seq<(u32, IIDXSong)>>::empty());
    assert(Map::<u32, IIDXSong>::empty().union_prefer_right(source_map(first)) =~= source_map(
        first,
    ));
    assert(seq![first].last() == first);
    assert(s.last() == second);
    assert(merged_catalog(Seq::<Seq<(u32, IIDXSong)>>::empty()) == Map::<u32, IIDXSong>::empty());
    assert(merged_catalog(seq![first]) == source_map(first));
    assert(merged_catalog(s) == source_map(first).union_prefer_right(source_map(second)));
    assert(merged_catalog(s).dom() =~= source_map(first).dom().union(source_map(second).dom()));
}

/// Applies one source's entries, in order, to `db`.
pub fn merge_source(db: &mut HashMap<u32, IIDXSong>, entries: Vec<(u32, IIDXSong)>)
    ensures
        final(db)@ == apply_entries(old(db)@, entries@),
{
    let ghost start = db@;
    let ghost all = entries@;
    for entry in it: entries.into_iter()
        invariant
            it.seq() == all,
            db@ == apply_entries(start, all.take(it.index() as int)),
    {
        let ghost done = all.take(it.index() as int);
        assert(all.take(it.index() + 1).drop_last() =~= done);
        let (id, song) = entry;
        db.insert(id, song);
    }
    assert(all.take(all.len() as int) =~= all);
}

/// Merges the sources in the order given into one catalog.
pub fn merge_catalog(sources: Vec<Vec<(u32, IIDXSong)>>) -> (r: HashMap<u32, IIDXSong>)
    ensures
        r@ == merged_catalog(sources_view(sources@)),
{
    let mut db: HashMap<u32, IIDXSong> = HashMap::new();
    let ghost all = sources@;
    for source in it: sources.into_iter()
        invariant
            it.seq() == all,
            db@ == merged_catalog(sources_view(all.take(it.index() as int))),
    {
        let ghost done = all.take(it.index() as int);
        let ghost next = all.take(it.index() + 1);
        assert(sources_view(next).drop_last() =~= sources_view(done));
        proof {
            lemma_apply_entries_union(db@, source@);
        }
        merge_source(&mut db, source);
    }
    assert(all.take(all.len() as int) =~= all);
    db
}

} // verus!
