use crate::hashing::{seeded_digest, xxhash_str};
use crate::laws::{lemma_insert_keeps_reports, lemma_no_false_negatives};
use crate::record::{BloomRecord, RecordState};
use vstd::prelude::*;

verus! {

/// What a filter is, mathematically: its bits, its seeds and how many inserts it has seen.
/// The array size is the length of `bits`.
pub struct BloomState {
    pub bits: Seq<bool>,
    pub seeds: Seq<u64>,
    pub insert_count: nat,
}

impl BloomState {
    pub open spec fn size(self) -> nat {
        self.bits.len()
    }

    /// A filter of `size` clear bits that has seen no insert.
    pub open spec fn empty(size: nat, seeds: Seq<u64>) -> BloomState {
        BloomState { bits: Seq::new(size, |j: int| false), seeds, insert_count: 0 }
    }

    /// The digest of `item` under each seed, in seed order.
    pub open spec fn digests_of(self, item: Seq<char>) -> Seq<u64> {
        Seq::new(self.seeds.len(), |i: int| xxhash_str(item, self.seeds[i]))
    }

    /// The bit that `digest` selects: the digest reduced modulo the array size.
    pub open spec fn slot(self, digest: u64) -> int {
        (digest as nat % self.size()) as int
    }

    /// One of the first `n` digests selects bit `j`.
    pub open spec fn hit_among(self, digests: Seq<u64>, n: int, j: int) -> bool {
        exists|i: int| 0 <= i < n && #[trigger] self.slot(digests[i]) == j
    }

    /// The filter after one insert whose digests are `digests`: each bit they select is
    /// set, the others keep their value, and the count grows by one.
    pub open spec fn after_insert_digests(self, digests: Seq<u64>) -> BloomState {
        BloomState {
            bits: Seq::new(
                self.size(),
                |j: int| self.bits[j] || self.hit_among(digests, digests.len() as int, j),
            ),
            seeds: self.seeds,
            insert_count: self.insert_count + 1,
        }
    }

    /// Every bit that one of `digests` selects is set.
    pub open spec fn all_set(self, digests: Seq<u64>) -> bool {
        forall|i: int| 0 <= i < digests.len() ==> self.bits[#[trigger] self.slot(digests[i])]
    }

    /// The filter after one insert of `item`.
    pub open spec fn after_insert(self, item: Seq<char>) -> BloomState {
        self.after_insert_digests(self.digests_of(item))
    }

    /// Whether the filter answers that `item` may have been inserted.
    pub open spec fn reports(self, item: Seq<char>) -> bool {
        self.all_set(self.digests_of(item))
    }

    /// The filter after inserting `items`, first to last.
    pub open spec fn after_inserts(self, items: Seq<Seq<char>>) -> BloomState
        decreases items.len(),
    {
        if items.len() == 0 {
            self
        } else {
            self.after_inserts(items.drop_last()).after_insert(items.last())
        }
    }
}

/// Why a filter could not be built.
#[derive(Clone, Copy, Debug, PartialEq, Eq, Structural)]
pub enum BloomError {
    /// A zero-length bit array or no hash function.
    InvalidConfiguration,
    /// A stored record whose fields do not describe a filter.
    DecodeError,
}

/// A Bloom filter over strings: a fixed bit array and one hash seed per hash function.
#[derive(Clone, Debug)]
pub struct BloomBox {
    bit_vector: Vec<bool>,
    seeds: Vec<u64>,
    size: usize,
    pub insert_count: usize,
}

impl View for BloomBox {
    type V = BloomState;

    closed spec fn view(&self) -> BloomState {
        BloomState {
            bits: self.bit_vector@,
            seeds: self.seeds@,
            insert_count: self.insert_count as nat,
        }
    }
}

impl BloomBox {
    /// The bit array is non-empty and `size` is its length, and there is at least one seed.
    pub closed spec fn wf(&self) -> bool {
        &&& self.size > 0
        &&& self.bit_vector@.len() == self.size
        &&& self.seeds@.len() > 0
    }

    /// A well-formed filter has a non-empty bit array and at least one seed.
    pub proof fn lemma_wf(b: &BloomBox)
        requires
            b.wf(),
        ensures
            b@.size() > 0,
            b@.seeds.len() > 0,
    {
    }

    /// A filter of `size` clear bits hashing with `seeds`.
    pub fn new(size: usize, seeds: Vec<u64>) -> (r: BloomBox)
        requires
            size > 0,
            seeds@.len() > 0,
        ensures
            r.wf(),
            r@ == BloomState::empty(size as nat, seeds@),
    {
        let r = BloomBox { bit_vector: vec![false; size], seeds, size, insert_count: 0 };
        assert(r@.bits =~= Seq::new(size as nat, |j: int| false));
        r
    }

    /// The digest of `item` under each seed.
    fn item_digests(&self, item: &str) -> (r: Vec<u64>)
        ensures
            r@ == self@.digests_of(item@),
    {
        let n = self.seeds.len();
        let mut r: Vec<u64> = Vec::with_capacity(n);
        let mut i: usize = 0;
        while i < n
            invariant
                0 <= i <= n,
                n == self@.seeds.len(),
                r@ == self@.digests_of(item@).take(i as int),
            decreases n - i,
        {
            let digest = seeded_digest(item, self.seeds[i]);
            r.push(digest);
            i += 1;
            assert(r@ =~= self@.digests_of(item@).take(i as int));
        }
        assert(r@ =~= self@.digests_of(item@));
        r
    }

    /// The bit that `digest` selects.
    fn slot_of(&self, digest: u64) -> (r: usize)
        requires
            self.wf(),
        ensures
            r == self@.slot(digest),
            r < self@.size(),
    {
        (digest % (self.size as u64)) as usize
    }

    /// Records one insert whose digests, one per seed, are `digests`: sets the bit that
    /// each selects and counts the insert.
    pub fn insert_digests(&mut self, digests: &Vec<u64>)
        requires
            old(self).wf(),
            old(self)@.insert_count < usize::MAX,
        ensures
            final(self).wf(),
            final(self)@ == old(self)@.after_insert_digests(digests@),
    {
        let ghost start = self@;
        let n = digests.len();
        let mut i: usize = 0;
        while i < n
            invariant
                self.wf(),
                0 <= i <= n,
                n == digests@.len(),
                self@.seeds == start.seeds,
                self@.insert_count == start.insert_count,
                self@.size() == start.size(),
                forall|j: int|
                    0 <= j < start.size() ==> self@.bits[j] == (start.bits[j] || start.hit_among(
                        digests@,
                        i as int,
                        j,
                    )),
            decreases n - i,
        {
            let pos = self.slot_of(digests[i]);
            let ghost before = self@.bits;
            assert(forall|j: int|
                0 <= j < start.size() ==> #[trigger] before[j] == (start.bits[j]
                    || start.hit_among(digests@, i as int, j)));
            let ghost done = i as int;
            self.bit_vector[pos] = true;
            i += 1;
            proof {
                assert forall|j: int| 0 <= j < start.size() implies self@.bits[j] == (start.bits[j]
                    || start.hit_among(digests@, i as int, j)) by {
                    if j == pos as int {
                        assert(start.slot(digests@[done]) == j);
                    } else {
                        assert(before[j] == self@.bits[j]);
                        if start.hit_among(digests@, i as int, j) {
                            let k = choose|k: int|
                                0 <= k < i && #[trigger] start.slot(digests@[k]) == j;
                            assert(k != done);
                        }
                    }
                }
            }
        }
        self.insert_count += 1;
        assert(self@.bits =~= start.after_insert_digests(digests@).bits);
    }

    /// Inserts `item`: sets the bit that each seed's digest of it selects and counts the
    /// insert.
    pub fn insert(&mut self, item: &str)
        requires
            old(self).wf(),
            old(self)@.insert_count < usize::MAX,
        ensures
            final(self).wf(),
            final(self)@ == old(self)@.after_insert(item@),
            final(self)@.reports(item@),
            forall|y: Seq<char>| old(self)@.reports(y) ==> #[trigger] final(self)@.reports(y),
    {
        let digests = self.item_digests(item);
        self.insert_digests(&digests);
        proof {
            lemma_no_false_negatives(old(self)@, item@, Seq::empty());
            assert(old(self)@.after_insert(item@).after_inserts(Seq::empty()) == self@);
            assert forall|y: Seq<char>| old(self)@.reports(y) implies #[trigger] self@.reports(
                y,
            ) by {
                lemma_insert_keeps_reports(old(self)@, item@, y);
            }
        }
    }

    /// Whether the bit that each of `digests` selects is set; stops at the first clear one.
    pub fn contains_digests(&self, digests: &Vec<u64>) -> (r: bool)
        requires
            self.wf(),
        ensures
            r == self@.all_set(digests@),
    {
        let n = digests.len();
        let mut i: usize = 0;
        while i < n
            invariant
                self.wf(),
                0 <= i <= n,
                n == digests@.len(),
                forall|k: int| 0 <= k < i ==> self@.bits[#[trigger] self@.slot(digests@[k])],
            decreases n - i,
        {
            let pos = self.slot_of(digests[i]);
            if !self.bit_vector[pos] {
                return false;
            }
            i += 1;
        }
        true
    }

    /// Whether `item` may have been inserted: false means it certainly was not.
    pub fn contains(&self, item: &str) -> (r: bool)
        requires
            self.wf(),
        ensures
            r == self@.reports(item@),
    {
        let digests = self.item_digests(item);
        self.contains_digests(&digests)
    }

    /// A filter of `size` clear bits hashing with the seeds `0, 1, ..., num_seeds - 1`:
    /// the construction that a target false-positive rate sizes.
    pub fn with_sizing(size: usize, num_seeds: u64) -> (r: Result<BloomBox, BloomError>)
        ensures
            r is Ok <==> size > 0 && num_seeds > 0,
            r is Err ==> r == Err::<BloomBox, BloomError>(BloomError::InvalidConfiguration),
            r matches Ok(b) ==> b.wf() && b@ == BloomState::empty(
                size as nat,
                Seq::new(num_seeds as nat, |i: int| i as u64),
            ),
    {
        if size == 0 || num_seeds == 0 {
            return Err(BloomError::InvalidConfiguration);
        }
        let mut seeds: Vec<u64> = Vec::new();
        let mut s: u64 = 0;
        while s < num_seeds
            invariant
                s <= num_seeds,
                seeds@ == Seq::new(s as nat, |i: int| i as u64),
            decreases num_seeds - s,
        {
            seeds.push(s);
            s += 1;
            assert(seeds@ =~= Seq::new(s as nat, |i: int| i as u64));
        }
        Ok(BloomBox::new(size, seeds))
    }

    /// The filter as a record of its four fields.
    pub fn into_record(self) -> (r: BloomRecord)
        requires
            self.wf(),
        ensures
            r@ == RecordState::of(self@),
    {
        BloomRecord {
            bit_vector: self.bit_vector,
            seeds: self.seeds,
            size: self.size,
            insert_count: self.insert_count,
        }
    }

    /// The filter that `rec` stores, or `DecodeError` when its fields do not describe one.
    pub fn from_record(rec: BloomRecord) -> (r: Result<BloomBox, BloomError>)
        ensures
            r is Ok <==> rec@.decode() is Some,
            r is Err ==> r == Err::<BloomBox, BloomError>(BloomError::DecodeError),
            r matches Ok(b) ==> b.wf() && rec@.decode() == Some(b@),
    {
        if rec.size == 0 || rec.bit_vector.len() != rec.size || rec.seeds.len() == 0 {
            return Err(BloomError::DecodeError);
        }
        Ok(
            BloomBox {
                bit_vector: rec.bit_vector,
                seeds: rec.seeds,
                size: rec.size,
                insert_count: rec.insert_count,
            },
        )
    }

    /// How many times `insert` has been called.
    pub fn get_insert_count(&self) -> (r: usize)
        ensures
            r == self@.insert_count,
    {
        self.insert_count
    }

    /// The length of the bit array.
    pub fn get_size(&self) -> (r: usize)
        requires
            self.wf(),
        ensures
            r == self@.size(),
    {
        self.size
    }

    /// The seeds, one per hash function, in order.
    pub fn get_seeds(&self) -> (r: &Vec<u64>)
        ensures
            r@ == self@.seeds,
    {
        &self.seeds
    }

    /// The number of hash functions.
    pub fn get_num_seeds(&self) -> (r: usize)
        ensures
            r == self@.seeds.len(),
    {
        self.seeds.len()
    }
}

} // verus!
