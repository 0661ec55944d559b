//! A Bloom filter: an approximate-membership set with no false negatives.

mod filter;
mod hashing;
mod laws;
mod record;

pub use filter::{BloomBox, BloomError, BloomState};
pub use hashing::xxhash_str;
pub use laws::{
    lemma_empty_reports_nothing, lemma_insert_count, lemma_insert_keeps_reports, lemma_insert_count_from_empty,
    lemma_inserts_only_set_bits, lemma_no_false_negatives, lemma_record_round_trip,
};
pub use record::{BloomRecord, RecordState};
