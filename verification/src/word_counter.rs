//! Counts how often each word was seen.

use vstd::prelude::*;
use crate::entries::distinct_keys;
use crate::entries::find;
use crate::entries::has_key;
use crate::entries::lemma_entry_is_mapped;
use crate::entries::lemma_push_inserts;
use crate::entries::lemma_update_inserts;
use crate::entries::map_of;

verus! {

/// The words seen so far, each once, with the number of times it was seen.
#[derive(Debug)]
pub struct WordCounter(pub Vec<(String, u64)>);

impl View for WordCounter {
    type V = Map<Seq<char>, u64>;

    open spec fn view(&self) -> Map<Seq<char>, u64> {
        map_of(self.0@)
    }
}

/// The count of `word` in `counts` after it was seen once more.
pub open spec fn seen_once_more(counts: Map<Seq<char>, u64>, word: Seq<char>) -> int {
    if counts.contains_key(word) {
        counts[word] + 1
    } else {
        1
    }
}

/// `listing` is `counts` without the words seen `filter` times or less,
/// each word once, in rising order of count.
pub open spec fn lists_above(
    listing: Seq<(String, u64)>,
    counts: Map<Seq<char>, u64>,
    filter: u64,
) -> bool {
    &&& distinct_keys(listing)
    &&& forall|i: int, j: int|
        0 <= i <= j < listing.len() ==> (#[trigger] listing[i]).1 <= (#[trigger] listing[j]).1
    &&& forall|i: int|
        0 <= i < listing.len() ==> {
            &&& (#[trigger] listing[i]).1 > filter
            &&& counts.contains_key(listing[i].0@)
            &&& counts[listing[i].0@] == listing[i].1
        }
    &&& forall|word: Seq<char>|
        counts.contains_key(word) && counts[word] > filter ==> #[trigger] has_key(listing, word)
}

impl WordCounter {
    /// No word is listed twice.
    pub open spec fn wf(&self) -> bool {
        distinct_keys(self.0@)
    }

    /// A counter that has seen no word.
    pub fn new() -> (counter: WordCounter)
        ensures
            counter.wf(),
            counter@ == Map::<Seq<char>, u64>::empty(),
            counter.0@.len() == 0,
    {
        let counter = WordCounter(Vec::new());
        assert(counter@ =~= Map::<Seq<char>, u64>::empty());
        counter
    }

    /// Counts `word` once more. A word that was seen `u64::MAX` times cannot
    /// be counted again.
    pub fn increment(&mut self, word: &str)
        requires
            old(self).wf(),
            seen_once_more(old(self)@, word@) <= u64::MAX,
        ensures
            final(self).wf(),
            final(self)@ == old(self)@.insert(word@, seen_once_more(old(self)@, word@) as u64),
            final(self).0@.len() == old(self).0@.len() + (if old(self)@.contains_key(word@) {
                0int
            } else {
                1int
            }),
    {
        let key = word.to_owned();
        match find(&self.0, &key) {
            Some(i) => {
                proof {
                    lemma_entry_is_mapped(self.0@, i as int);
                }
                let count: u64 = self.0[i].1;
                proof {
                    lemma_update_inserts(self.0@, i as int, key, (count + 1) as u64);
                }
                self.0.set(i, (key, count + 1));
            },
            None => {
                proof {
                    lemma_push_inserts(self.0@, key, 1u64);
                }
                self.0.push((key, 1));
            },
        }
    }

    /// The words seen more than `filter` times, with their counts, in rising
    /// order of count.
    pub fn above(&self, filter: u64) -> (listing: Vec<(String, u64)>)
        requires
            self.wf(),
        ensures
            lists_above(listing@, self@, filter),
    {
        let mut listing: Vec<(String, u64)> = Vec::new();
        let mut i: usize = 0;
        while i < self.0.len()
            invariant
                i <= self.0@.len(),
                self.wf(),
                distinct_keys(listing@),
                forall|a: int, b: int|
                    0 <= a <= b < listing@.len() ==> (#[trigger] listing@[a]).1 <= (
                    #[trigger] listing@[b]).1,
                forall|a: int|
                    0 <= a < listing@.len() ==> (#[trigger] listing@[a]).1 > filter && exists|k: int|
                        0 <= k < i && (#[trigger] self.0@[k]) == listing@[a],
                forall|k: int|
                    0 <= k < i && (#[trigger] self.0@[k]).1 > filter ==> has_key(
                        listing@,
                        self.0@[k].0@,
                    ),
            decreases self.0@.len() - i,
        {
            let count: u64 = self.0[i].1;
            if count > filter {
                let mut at: usize = 0;
                while at < listing.len() && listing[at].1 <= count
                    invariant
                        at <= listing@.len(),
                        forall|a: int| 0 <= a < at ==> (#[trigger] listing@[a]).1 <= count,
                    decreases listing@.len() - at,
                {
                    at = at + 1;
                }
                let word = self.0[i].0.clone();
                let ghost before = listing@;
                listing.insert(at, (word, count));
                proof {
                    let entry = self.0@[i as int];
                    assert(listing@[at as int] == entry);
                    assert forall|a: int| 0 <= a < listing@.len() implies #[trigger] listing@[a] == (
                    if a < at {
                        before[a]
                    } else if a == at {
                        entry
                    } else {
                        before[a - 1]
                    }) by {}
                    assert forall|a: int| 0 <= a < before.len() implies (#[trigger] before[a]).0@
                        != entry.0@ by {
                        let k = choose|k: int| 0 <= k < i && (#[trigger] self.0@[k]) == before[a];
                        assert(self.0@[k].0@ != self.0@[i as int].0@);
                    }
                    assert forall|a: int, b: int| 0 <= a < b < listing@.len() implies (
                    #[trigger] listing@[a]).0@ != (#[trigger] listing@[b]).0@ by {
                        let a0 = if a < at { a } else { a - 1 };
                        let b0 = if b < at { b } else { b - 1 };
                        if a != at && b != at {
                            assert(before[a0].0@ != before[b0].0@);
                        } else if a == at {
                            assert(before[b0].0@ != entry.0@);
                        } else {
                            assert(before[a0].0@ != entry.0@);
                        }
                    }
                    assert forall|a: int, b: int| 0 <= a <= b < listing@.len() implies (
                    #[trigger] listing@[a]).1 <= (#[trigger] listing@[b]).1 by {
                        let a0 = if a < at { a } else { a - 1 };
                        let b0 = if b < at { b } else { b - 1 };
                        if a != at && b != at {
                            assert(before[a0].1 <= before[b0].1);
                        } else if a == at && b != at {
                            if (at as int) < before.len() {
                                assert(before[at as int].1 <= before[b0].1);
                            }
                        } else if b == at && a != at {
                            assert(before[a0].1 <= count);
                        }
                    }
                    assert forall|a: int| 0 <= a < listing@.len() implies (#[trigger] listing@[a]).1
                        > filter && exists|k: int|
                        0 <= k < i + 1 && (#[trigger] self.0@[k]) == listing@[a] by {
                        if a == at {
                            assert(self.0@[i as int] == listing@[a]);
                        } else {
                            let a0 = if a < at { a } else { a - 1 };
                            let k = choose|k: int|
                                0 <= k < i && (#[trigger] self.0@[k]) == before[a0];
                            assert(self.0@[k] == listing@[a]);
                        }
                    }
                    assert forall|k: int| 0 <= k < i + 1 && (#[trigger] self.0@[k]).1
                        > filter implies has_key(listing@, self.0@[k].0@) by {
                        if k == i {
                            assert(listing@[at as int].0@ == self.0@[k].0@);
                        } else {
                            let a0 = choose|a: int|
                                0 <= a < before.len() && (#[trigger] before[a]).0@ == self.0@[k].0@;
                            let a = if a0 < at { a0 } else { a0 + 1 };
                            assert(listing@[a] == before[a0]);
                        }
                    }
                }
            }
            i = i + 1;
        }
        proof {
            assert forall|a: int| 0 <= a < listing@.len() implies {
                &&& (#[trigger] listing@[a]).1 > filter
                &&& self@.contains_key(listing@[a].0@)
                &&& self@[listing@[a].0@] == listing@[a].1
            } by {
                let k = choose|k: int| 0 <= k < i && (#[trigger] self.0@[k]) == listing@[a];
                lemma_entry_is_mapped(self.0@, k);
            }
            assert forall|word: Seq<char>|
                self@.contains_key(word) && self@[word] > filter implies #[trigger] has_key(
                listing@,
                word,
            ) by {
                let k = crate::entries::place_of(self.0@, word);
                lemma_entry_is_mapped(self.0@, k);
            }
        }
        listing
    }
}

} // verus!
