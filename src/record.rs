use crate::filter::BloomState;
use vstd::prelude::*;

verus! {

/// The persisted form of a filter: its bit array, its seeds, the array length and
/// the insert count, each as a plain field.
pub struct BloomRecord {
    pub bit_vector: Vec<bool>,
    pub seeds: Vec<u64>,
    pub size: usize,
    pub insert_count: usize,
}

/// What a record holds, mathematically.
pub struct RecordState {
    pub bits: Seq<bool>,
    pub seeds: Seq<u64>,
    pub size: nat,
    pub insert_count: nat,
}

impl View for BloomRecord {
    type V = RecordState;

    open spec fn view(&self) -> RecordState {
        RecordState {
            bits: self.bit_vector@,
            seeds: self.seeds@,
            size: self.size as nat,
            insert_count: self.insert_count as nat,
        }
    }
}

impl RecordState {
    /// The record that stores filter `s`.
    pub open spec fn of(s: BloomState) -> RecordState {
        RecordState { bits: s.bits, seeds: s.seeds, size: s.size(), insert_count: s.insert_count }
    }

    /// The filter that the record describes: there is one exactly when the array is
    /// non-empty and `size` long and there is at least one seed.
    pub open spec fn decode(self) -> Option<BloomState> {
        if self.size > 0 && self.bits.len() == self.size && self.seeds.len() > 0 {
            Some(BloomState { bits: self.bits, seeds: self.seeds, insert_count: self.insert_count })
        } else {
            None
        }
    }
}

} // verus!
