//! The per-frame sync cycle: collect records from the visible tagged
//! lights and broadcast them to every material instance.

use vstd::prelude::*;
use crate::light::{record_of, BlacklightData, BlacklightSource};
use crate::material::{BlacklightMaterial, MaterialView};

verus! {

/// The sources that pass the visibility filter, in scene order.
pub open spec fn visible_sources(s: Seq<BlacklightSource>) -> Seq<BlacklightSource> {
    s.filter(|l: BlacklightSource| l.visible)
}

/// The records one collection pass yields: one per visible source, in
/// scene order, each a verbatim copy of that source's light values.
pub open spec fn collected_records(s: Seq<BlacklightSource>) -> Seq<BlacklightData> {
    visible_sources(s).map_values(|l: BlacklightSource| record_of(l))
}

/// A material's view after one sync cycle against the sources `s`: its
/// record sequence is replaced by the collection, its appearance
/// parameters are untouched.
pub open spec fn synced(m: MaterialView, s: Seq<BlacklightSource>) -> MaterialView {
    MaterialView { lights: collected_records(s), ..m }
}

/// Collecting one more source appends its record exactly when that
/// source is visible.
proof fn lemma_collected_take_succ(s: Seq<BlacklightSource>, i: int)
    requires
        0 <= i < s.len(),
    ensures
        collected_records(s.take(i + 1)) == (if s[i].visible {
            collected_records(s.take(i)).push(record_of(s[i]))
        } else {
            collected_records(s.take(i))
        }),
{
    broadcast use Seq::lemma_filter_push;
    broadcast use Seq::lemma_push_map_commute;

    s.lemma_take_succ_push(i);
    assert(s.take(i + 1).filter(|l: BlacklightSource| l.visible)
        == s.take(i).push(s[i]).filter(|l: BlacklightSource| l.visible));
}

/// Collecting nothing yields nothing.
proof fn lemma_collected_empty(s: Seq<BlacklightSource>)
    requires
        s.len() == 0,
    ensures
        collected_records(s) == Seq::<BlacklightData>::empty(),
{
    reveal(Seq::filter);
    assert(collected_records(s) =~= Seq::<BlacklightData>::empty());
}

/// Collect one shader record for each currently visible tagged light, in
/// iteration order: the visibility filter is exact, and each record is a
/// direct copy of its source's values.
pub fn collect_blacklight_data(sources: &Vec<BlacklightSource>) -> (records: Vec<
    BlacklightData,
>)
    ensures
        records@ == collected_records(sources@),
{
    let mut records: Vec<BlacklightData> = Vec::new();
    let n: usize = sources.len();
    let mut i: usize = 0;
    proof {
        assert(sources@.take(0) =~= Seq::<BlacklightSource>::empty());
        lemma_collected_empty(sources@.take(0));
    }
    while i < n
        invariant
            n == sources@.len(),
            i <= n,
            records@ == collected_records(sources@.take(i as int)),
        decreases n - i,
    {
        let l = sources[i];
        if l.visible {
            records.push(l.record());
        }
        proof {
            lemma_collected_take_succ(sources@, i as int);
        }
        i = i + 1;
    }
    proof {
        assert(sources@.take(n as int) =~= sources@);
    }
    records
}

/// Fresh copy of a record vector, element for element.
fn copy_records(records: &Vec<BlacklightData>) -> (out: Vec<BlacklightData>)
    ensures
        out@ == records@,
{
    let mut out: Vec<BlacklightData> = Vec::new();
    let n: usize = records.len();
    let mut i: usize = 0;
    while i < n
        invariant
            n == records@.len(),
            i <= n,
            out@ == records@.take(i as int),
        decreases n - i,
    {
        out.push(records[i]);
        proof {
            records@.lemma_take_succ_push(i as int);
        }
        i = i + 1;
    }
    proof {
        assert(records@.take(n as int) =~= records@);
    }
    out
}

/// One sync cycle: collect the records of the currently visible tagged
/// lights and overwrite every material instance's record sequence with
/// that one collection, leaving each instance's appearance untouched.
///
/// The final two clauses state the broadcast guarantee: after the cycle,
/// every instance holds the identical record sequence.
pub fn sync_materials(materials: &mut Vec<BlacklightMaterial>, sources: &Vec<BlacklightSource>)
    ensures
        final(materials)@.len() == old(materials)@.len(),
        forall|i: int|
            0 <= i < old(materials)@.len() ==> #[trigger] final(materials)@[i]@ == synced(
                old(materials)@[i]@,
                sources@,
            ),
        forall|i: int|
            0 <= i < final(materials)@.len() ==> #[trigger] final(materials)@[i]@.lights
                == collected_records(sources@),
{
    let records = collect_blacklight_data(sources);
    let n: usize = materials.len();
    let mut updated: Vec<BlacklightMaterial> = Vec::new();
    let mut i: usize = 0;
    while i < n
        invariant
            n == materials@.len(),
            materials@ == old(materials)@,
            records@ == collected_records(sources@),
            i <= n,
            updated@.len() == i,
            forall|j: int|
                0 <= j < i ==> #[trigger] updated@[j]@ == synced(materials@[j]@, sources@),
        decreases n - i,
    {
        let m = &materials[i];
        let next = BlacklightMaterial {
            lights: copy_records(&records),
            base_texture: m.base_texture,
            base_color: m.base_color,
            alpha_mode: m.alpha_mode,
        };
        proof {
            assert(next@ =~= synced(materials@[i as int]@, sources@));
        }
        updated.push(next);
        i = i + 1;
    }
    *materials = updated;
}

/// Law: the visibility filter is exact. The collection holds one record
/// per visible source, in order; each record copies its source's values
/// unchanged; every visible source is represented; and when no source is
/// visible the collection is empty.
pub proof fn lemma_visibility_filter_exact(s: Seq<BlacklightSource>)
    ensures
        collected_records(s).len() == visible_sources(s).len(),
        forall|i: int|
            0 <= i < visible_sources(s).len() ==> (#[trigger] visible_sources(s)[i]).visible,
        forall|i: int|
            0 <= i < visible_sources(s).len() ==> #[trigger] collected_records(s)[i] == record_of(
                visible_sources(s)[i],
            ),
        forall|i: int|
            0 <= i < s.len() && s[i].visible ==> visible_sources(s).contains(#[trigger] s[i]),
        (forall|i: int| 0 <= i < s.len() ==> !(#[trigger] s[i]).visible) ==> collected_records(s)
            == Seq::<BlacklightData>::empty(),
{
    broadcast use Seq::lemma_filter_pred;
    broadcast use Seq::lemma_filter_contains;

    if forall|i: int| 0 <= i < s.len() ==> !(#[trigger] s[i]).visible {
        s.lemma_all_neg_filter_empty(|l: BlacklightSource| l.visible);
        assert(collected_records(s) =~= Seq::<BlacklightData>::empty());
    }
}

/// Law: broadcast equality. One sync cycle gives any two materials the
/// same record sequence, whatever they held before.
pub proof fn lemma_broadcast_equal(m1: MaterialView, m2: MaterialView, s: Seq<BlacklightSource>)
    ensures
        synced(m1, s).lights == synced(m2, s).lights,
{
}

/// Law: idempotence. Syncing a material twice against unchanged sources
/// leaves exactly the state one sync produced.
pub proof fn lemma_sync_idempotent(m: MaterialView, s: Seq<BlacklightSource>)
    ensures
        synced(synced(m, s), s) == synced(m, s),
{
    assert(synced(synced(m, s), s) =~= synced(m, s));
}

} // verus!
