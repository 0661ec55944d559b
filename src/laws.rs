use crate::filter::BloomState;
use crate::record::RecordState;
use vstd::prelude::*;

verus! {

/// Inserting only ever sets bits: the seeds and the array length stay, and every
/// set bit stays set.
pub proof fn lemma_inserts_only_set_bits(s: BloomState, items: Seq<Seq<char>>)
    ensures
        s.after_inserts(items).seeds == s.seeds,
        s.after_inserts(items).size() == s.size(),
        forall|j: int| 0 <= j < s.size() && s.bits[j] ==> #[trigger] s.after_inserts(items).bits[j],
    decreases items.len(),
{
    if items.len() > 0 {
        lemma_inserts_only_set_bits(s, items.drop_last());
    }
}

/// No false negatives: once `x` has been inserted, the filter reports `x`, whatever
/// is inserted after it.
pub proof fn lemma_no_false_negatives(s: BloomState, x: Seq<char>, later: Seq<Seq<char>>)
    requires
        s.size() > 0,
    ensures
        s.after_insert(x).after_inserts(later).reports(x),
{
    let t = s.after_insert(x);
    let u = t.after_inserts(later);
    lemma_inserts_only_set_bits(t, later);
    let ds = s.digests_of(x);
    assert(u.digests_of(x) =~= ds);
    assert forall|i: int| 0 <= i < ds.len() implies u.bits[#[trigger] u.slot(ds[i])] by {
        let j = s.slot(ds[i]);
        assert(s.hit_among(ds, ds.len() as int, j));
        assert(t.bits[j]);
    }
}

/// An insert never turns a positive answer into a negative one.
pub proof fn lemma_insert_keeps_reports(s: BloomState, x: Seq<char>, y: Seq<char>)
    requires
        s.size() > 0,
        s.reports(y),
    ensures
        s.after_insert(x).reports(y),
{
    let t = s.after_insert(x);
    let ds = s.digests_of(y);
    assert(t.digests_of(y) =~= ds);
    assert forall|i: int| 0 <= i < ds.len() implies t.bits[#[trigger] t.slot(ds[i])] by {
        assert(s.bits[s.slot(ds[i])]);
    }
}

/// The insert count is the number of inserts made, duplicates included.
pub proof fn lemma_insert_count(s: BloomState, items: Seq<Seq<char>>)
    ensures
        s.after_inserts(items).insert_count == s.insert_count + items.len(),
    decreases items.len(),
{
    if items.len() > 0 {
        lemma_insert_count(s, items.drop_last());
    }
}

/// A new filter counts exactly the inserts made into it.
pub proof fn lemma_insert_count_from_empty(size: nat, seeds: Seq<u64>, items: Seq<Seq<char>>)
    ensures
        BloomState::empty(size, seeds).after_inserts(items).insert_count == items.len(),
{
    lemma_insert_count(BloomState::empty(size, seeds), items);
}

/// A filter with at least one seed into which nothing has been inserted reports no item.
pub proof fn lemma_empty_reports_nothing(size: nat, seeds: Seq<u64>, x: Seq<char>)
    requires
        size > 0,
        seeds.len() > 0,
    ensures
        !BloomState::empty(size, seeds).reports(x),
{
    let e = BloomState::empty(size, seeds);
    assert(e.size() == size);
    let j = e.slot(e.digests_of(x)[0]);
    assert(0 <= j < size);
    assert(!e.bits[j]);
}

/// Storing a filter as a record and reading it back gives the same filter: the same
/// bits, seeds in the same order, the same size and count, and the same answers.
pub proof fn lemma_record_round_trip(s: BloomState, x: Seq<char>)
    requires
        s.size() > 0,
        s.seeds.len() > 0,
    ensures
        RecordState::of(s).decode() == Some(s),
        RecordState::of(s).decode().unwrap().size() == s.size(),
        RecordState::of(s).decode().unwrap().seeds == s.seeds,
        RecordState::of(s).decode().unwrap().reports(x) == s.reports(x),
{
}

} // verus!
