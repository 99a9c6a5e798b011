//! The record of the last timestamp accepted from each source.
//!
//! The record is written when a message passes the freshness check and is
//! never consulted to reject one: freshness is a bound around the receiver's
//! clock, not a uniqueness check.

use vstd::prelude::*;

verus! {

/// One source and the timestamp, in milliseconds, of the last message accepted from it.
pub struct ReplayEntry {
    source: String,
    ts: i64,
}

/// Last accepted timestamp by source identifier.
pub struct ReplayState {
    entries: Vec<ReplayEntry>,
}

impl View for ReplayState {
    type V = Map<Seq<char>, i64>;

    /// The record as a map from source identifier to timestamp.
    closed spec fn view(&self) -> Map<Seq<char>, i64> {
        Map::new(
            |source: Seq<char>| self.position(source) is Some,
            |source: Seq<char>| self.entries@[self.position(source).unwrap()].ts,
        )
    }
}

impl ReplayState {
    /// Whether `i` is the first entry that belongs to `source`.
    spec fn is_first(self, source: Seq<char>, i: int) -> bool {
        &&& 0 <= i < self.entries@.len()
        &&& self.entries@[i].source@ == source
        &&& forall|j: int| 0 <= j < i ==> self.entries@[j].source@ != source
    }

    /// Where a source stands among the entries, if it does.
    spec fn position(self, source: Seq<char>) -> Option<int> {
        if exists|i: int| self.is_first(source, i) {
            Some(choose|i: int| self.is_first(source, i))
        } else {
            None
        }
    }

    proof fn first_is_position(self, source: Seq<char>, i: int)
        requires
            self.is_first(source, i),
        ensures
            self.position(source) == Some(i),
    {
        let chosen = choose|c: int| self.is_first(source, c);
        assert(self.is_first(source, chosen));
        assert(chosen == i) by {
            if chosen < i {
                assert(self.entries@[chosen].source@ != source);
            }
            if i < chosen {
                assert(self.entries@[i].source@ != source);
            }
        }
    }

    /// A record that has seen no source.
    pub fn new() -> (state: ReplayState)
        ensures
            state@ == Map::<Seq<char>, i64>::empty(),
    {
        let state = ReplayState { entries: Vec::new() };
        assert(state@ =~= Map::<Seq<char>, i64>::empty());
        state
    }

    /// The index of the entry for `source`, or the number of entries where there is none.
    fn find(&self, source: &String) -> (at: usize)
        ensures
            at <= self.entries@.len(),
            at < self.entries@.len() ==> self.entries@[at as int].source@ == source@,
            forall|j: int| 0 <= j < at ==> self.entries@[j].source@ != source@,
            at == self.entries@.len() ==> self.position(source@) is None,
            at < self.entries@.len() ==> self.position(source@) == Some(at as int),
    {
        let mut i: usize = 0;
        while i < self.entries.len()
            invariant
                i <= self.entries@.len(),
                forall|j: int| 0 <= j < i ==> self.entries@[j].source@ != source@,
            decreases self.entries@.len() - i,
        {
            if self.entries[i].source == *source {
                proof {
                    self.first_is_position(source@, i as int);
                }
                return i;
            }
            i += 1;
        }
        assert forall|c: int| !self.is_first(source@, c) by {
            if 0 <= c < self.entries@.len() {
                assert(self.entries@[c].source@ != source@);
            }
        }
        i
    }

    /// The timestamp last accepted from `source`, if any was.
    pub fn last_seen(&self, source: &str) -> (ts: Option<i64>)
        ensures
            ts == (if self@.contains_key(source@) {
                Some(self@[source@])
            } else {
                None
            }),
    {
        let key = source.to_owned();
        let at = self.find(&key);
        if at < self.entries.len() {
            Some(self.entries[at].ts)
        } else {
            None
        }
    }

    /// Notes `ts` as the timestamp last accepted from `source`.
    pub fn record(&mut self, source: &str, ts: i64)
        ensures
            final(self)@ == old(self)@.insert(source@, ts),
    {
        let key = source.to_owned();
        let at = self.find(&key);
        let ghost before = *self;
        if at < self.entries.len() {
            self.entries.set(at, ReplayEntry { source: key, ts });
        } else {
            self.entries.push(ReplayEntry { source: key, ts });
        }
        proof {
            let after = *self;
            assert(after.entries@.len() >= before.entries@.len());
            assert forall|j: int| 0 <= j < before.entries@.len() implies after.entries@[j].source@
                == before.entries@[j].source@ by {}
            assert(after.is_first(source@, at as int));
            after.first_is_position(source@, at as int);
            assert forall|k: Seq<char>| k != source@ implies after.position(k) == before.position(
                k,
            ) && (before.position(k) matches Some(j) ==> after.entries@[j].ts
                == before.entries@[j].ts) by {
                if before.position(k) is Some {
                    let j = before.position(k).unwrap();
                    assert(before.is_first(k, j));
                    assert(after.is_first(k, j));
                    after.first_is_position(k, j);
                } else if after.position(k) is Some {
                    let j = after.position(k).unwrap();
                    assert(after.is_first(k, j));
                    assert(before.is_first(k, j));
                }
            }
            assert(after@ =~= before@.insert(source@, ts));
        }
    }
}

} // verus!
