use vstd::prelude::*;

verus! {

/// An invite request as submitted: the room, the user to invite, and the
/// visitor's proof-of-humanity token.
#[derive(Debug, PartialEq, Eq)]
pub struct Invite {
    pub room_id: String,
    pub user_id: String,
    pub cf_turnstile_response: String,
}

/// An invite parked while the visitor links a third-party identity, with the
/// time it was parked.
#[derive(Debug, PartialEq, Eq)]
pub struct PendingInvite {
    pub invite: Invite,
    pub issued_ms: u64,
}

/// Whether an entry parked at `issued_ms` has outlived `ttl_ms` at `now_ms`.
pub open spec fn is_expired(issued_ms: u64, now_ms: u64, ttl_ms: u64) -> bool {
    now_ms - issued_ms > ttl_ms
}

/// One-time store of parked invites, keyed by an unguessable token.
pub struct PendingStore {
    entries: Vec<(String, PendingInvite)>,
    contents: Ghost<Map<Seq<char>, PendingInvite>>,
    ttl_ms: u64,
}

impl PendingStore {
    /// The parked invites by token.
    pub closed spec fn view(&self) -> Map<Seq<char>, PendingInvite> {
        self.contents@
    }

    /// How long an entry stays claimable, in milliseconds.
    pub closed spec fn ttl(&self) -> u64 {
        self.ttl_ms
    }

    /// One entry per token, and the entries are exactly the view.
    pub closed spec fn wf(&self) -> bool {
        &&& forall|i: int, j: int|
            0 <= i < self.entries@.len() && 0 <= j < self.entries@.len() && i != j
                ==> (#[trigger] self.entries@[i]).0@ != (#[trigger] self.entries@[j]).0@
        &&& forall|i: int|
            0 <= i < self.entries@.len() ==> {
                &&& self.contents@.contains_key((#[trigger] self.entries@[i]).0@)
                &&& self.contents@[self.entries@[i].0@] == self.entries@[i].1
            }
        &&& forall|k: Seq<char>| #[trigger]
            self.contents@.contains_key(k) ==> exists|i: int|
                0 <= i < self.entries@.len() && (#[trigger] self.entries@[i]).0@ == k
    }

    /// An empty store whose entries stay claimable for `ttl_ms` milliseconds.
    pub fn new(ttl_ms: u64) -> (r: PendingStore)
        ensures
            r.wf(),
            r@ == Map::<Seq<char>, PendingInvite>::empty(),
            r.ttl() == ttl_ms,
    {
        PendingStore { entries: Vec::new(), contents: Ghost(Map::empty()), ttl_ms }
    }

    /// How long an entry stays claimable, in milliseconds.
    pub fn ttl_ms(&self) -> (r: u64)
        ensures
            r == self.ttl(),
    {
        self.ttl_ms
    }

    /// The number of parked invites.
    pub fn len(&self) -> (r: usize)
        requires
            self.wf(),
        ensures
            r == self@.len(),
    {
        proof {
            self.lemma_len();
        }
        self.entries.len()
    }

    proof fn lemma_len(&self)
        requires
            self.wf(),
        ensures
            self.entries@.len() == self@.len(),
    {
        let ks = self.entries@.map_values(|e: (String, PendingInvite)| e.0@);
        assert forall|i: int, j: int| 0 <= i < ks.len() && 0 <= j < ks.len() && i != j implies ks[i]
            != ks[j] by {
            assert(self.entries@[i].0@ != self.entries@[j].0@);
        }
        assert(ks.no_duplicates());
        assert(ks.to_set() =~= self@.dom()) by {
            assert forall|k: Seq<char>| ks.to_set().contains(k) implies self@.dom().contains(k) by {
                let i = choose|i: int| 0 <= i < ks.len() && ks[i] == k;
                assert(self.entries@[i].0@ == k);
            }
            assert forall|k: Seq<char>| self@.dom().contains(k) implies ks.to_set().contains(k) by {
                assert(self.contents@.contains_key(k));
                let i = choose|i: int|
                    0 <= i < self.entries@.len() && (#[trigger] self.entries@[i]).0@ == k;
                assert(ks[i] == k);
            }
        }
        ks.unique_seq_to_set();
    }

    /// Position of the entry for `token`, if any.
    fn position(&self, token: &String) -> (r: Option<usize>)
        requires
            self.wf(),
        ensures
            match r {
                Some(i) => i < self.entries@.len() && self.entries@[i as int].0@ == token@,
                None => !self@.contains_key(token@),
            },
    {
        let mut i: usize = 0;
        while i < self.entries.len()
            invariant
                i <= self.entries@.len(),
                forall|j: int| 0 <= j < i ==> (#[trigger] self.entries@[j]).0@ != token@,
            decreases self.entries@.len() - i,
        {
            if self.entries[i].0 == *token {
                return Some(i);
            }
            i = i + 1;
        }
        None
    }

    /// Whether an invite is parked under `token`.
    pub fn contains(&self, token: &str) -> (r: bool)
        requires
            self.wf(),
        ensures
            r == self@.contains_key(token@),
    {
        let t = token.to_owned();
        self.position(&t).is_some()
    }

    /// Parks `entry` under `token`. A token already in use is refused and
    /// the store is left as it was.
    pub fn insert(&mut self, token: String, entry: PendingInvite) -> (r: bool)
        requires
            old(self).wf(),
        ensures
            final(self).wf(),
            final(self).ttl() == old(self).ttl(),
            r == !old(self)@.contains_key(token@),
            r ==> final(self)@ == old(self)@.insert(token@, entry),
            !r ==> final(self)@ == old(self)@,
    {
        if self.position(&token).is_some() {
            return false;
        }
        let ghost key = token@;
        let ghost before = self.entries@;
        self.contents = Ghost(self.contents@.insert(key, entry));
        self.entries.push((token, entry));
        proof {
            let n = before.len() as int;
            assert(self.entries@[n].0@ == key);
            assert forall|i: int| 0 <= i < n implies (#[trigger] self.entries@[i]).0@ != key by {
                assert(self.entries@[i] == before[i]);
            }
            assert forall|k: Seq<char>| #[trigger]
                self.contents@.contains_key(k) implies exists|i: int|
                0 <= i < self.entries@.len() && (#[trigger] self.entries@[i]).0@ == k by {
                if k != key {
                    let i = choose|i: int| 0 <= i < before.len() && (#[trigger] before[i]).0@ == k;
                    assert(self.entries@[i] == before[i]);
                }
            }
        }
        true
    }

    /// Removes and returns the entry parked under `token`, if any.
    pub fn take(&mut self, token: &str) -> (r: Option<PendingInvite>)
        requires
            old(self).wf(),
        ensures
            final(self).wf(),
            final(self).ttl() == old(self).ttl(),
            final(self)@ == old(self)@.remove(token@),
            r == (if old(self)@.contains_key(token@) {
                Some(old(self)@[token@])
            } else {
                None
            }),
    {
        let t = token.to_owned();
        match self.position(&t) {
            None => {
                assert(self@.remove(token@) =~= self@);
                None
            },
            Some(i) => {
                let ghost before = self.entries@;
                let ghost key = token@;
                let (_, entry) = self.entries.remove(i);
                self.contents = Ghost(self.contents@.remove(key));
                proof {
                    assert forall|a: int| 0 <= a < self.entries@.len() implies #[trigger]
                        self.entries@[a] == before[if a < i { a } else { a + 1 }] by {}
                    assert forall|a: int|
                        0 <= a < self.entries@.len() implies (#[trigger] self.entries@[a]).0@
                        != key by {
                        let b = if a < i { a } else { a + 1 };
                        assert(before[b].0@ != before[i as int].0@);
                    }
                    assert forall|a: int, b: int|
                        0 <= a < self.entries@.len() && 0 <= b < self.entries@.len() && a
                            != b implies (#[trigger] self.entries@[a]).0@
                        != (#[trigger] self.entries@[b]).0@ by {
                        let a1 = if a < i { a } else { a + 1 };
                        let b1 = if b < i { b } else { b + 1 };
                        assert(before[a1].0@ != before[b1].0@);
                    }
                    assert forall|k: Seq<char>| #[trigger]
                        self.contents@.contains_key(k) implies exists|a: int|
                        0 <= a < self.entries@.len() && (#[trigger] self.entries@[a]).0@ == k by {
                        let j = choose|j: int| 0 <= j < before.len() && (#[trigger] before[j]).0@ == k;
                        assert(j != i);
                        let a = if j < i { j } else { j - 1 };
                        assert(self.entries@[a] == before[j]);
                    }
                }
                Some(entry)
            },
        }
    }
    /// Drops every entry that has outlived the store's lifetime at `now_ms`.
    pub fn purge_expired(&mut self, now_ms: u64)
        requires
            old(self).wf(),
        ensures
            final(self).wf(),
            final(self).ttl() == old(self).ttl(),
            forall|k: Seq<char>| #[trigger]
                final(self)@.contains_key(k) <==> old(self)@.contains_key(k) && !is_expired(
                    old(self)@[k].issued_ms,
                    now_ms,
                    old(self).ttl(),
                ),
            forall|k: Seq<char>| #[trigger]
                final(self)@.contains_key(k) ==> final(self)@[k] == old(self)@[k],
    {
        let ghost orig = self.entries@;
        let ghost old_map = self.contents@;
        let mut rest: Vec<(String, PendingInvite)> = Vec::new();
        std::mem::swap(&mut rest, &mut self.entries);
        let mut kept: Vec<(String, PendingInvite)> = Vec::new();
        let ghost mut kept_map = Map::<Seq<char>, PendingInvite>::empty();
        while rest.len() > 0
            invariant
                rest@ == orig.subrange(0, rest@.len() as int),
                rest@.len() <= orig.len(),
                forall|i: int, j: int|
                    0 <= i < orig.len() && 0 <= j < orig.len() && i != j ==> (#[trigger] orig[i]).0@
                        != (#[trigger] orig[j]).0@,
                forall|i: int|
                    0 <= i < orig.len() ==> {
                        &&& old_map.contains_key((#[trigger] orig[i]).0@)
                        &&& old_map[orig[i].0@] == orig[i].1
                    },
                forall|k: Seq<char>| #[trigger]
                    old_map.contains_key(k) ==> exists|i: int|
                        0 <= i < orig.len() && (#[trigger] orig[i]).0@ == k,
                forall|i: int|
                    0 <= i < kept@.len() ==> exists|j: int|
                        rest@.len() <= j < orig.len() && #[trigger] kept@[i] == orig[j],
                forall|i: int, j: int|
                    0 <= i < kept@.len() && 0 <= j < kept@.len() && i != j
                        ==> (#[trigger] kept@[i]).0@ != (#[trigger] kept@[j]).0@,
                forall|i: int|
                    0 <= i < kept@.len() ==> {
                        &&& kept_map.contains_key((#[trigger] kept@[i]).0@)
                        &&& kept_map[kept@[i].0@] == kept@[i].1
                    },
                forall|k: Seq<char>| #[trigger]
                    kept_map.contains_key(k) ==> exists|i: int|
                        0 <= i < kept@.len() && (#[trigger] kept@[i]).0@ == k,
                forall|k: Seq<char>| #[trigger]
                    kept_map.contains_key(k) <==> (exists|j: int|
                        rest@.len() <= j < orig.len() && (#[trigger] orig[j]).0@ == k)
                        && !is_expired(old_map[k].issued_ms, now_ms, self.ttl_ms),
            decreases rest@.len(),
        {
            let ghost n = rest@.len() as int - 1;
            let e = rest.pop().unwrap();
            assert(e == orig[n]);
            let expired = now_ms > e.1.issued_ms && now_ms - e.1.issued_ms > self.ttl_ms;
            if !expired {
                let ghost key = e.0@;
                let ghost val = e.1;
                proof {
                    assert forall|i: int| 0 <= i < kept@.len() implies (#[trigger] kept@[i]).0@
                        != key by {
                        let j = choose|j: int| n < j < orig.len() && #[trigger] kept@[i] == orig[j];
                        assert(orig[j].0@ != orig[n].0@);
                    }
                    kept_map = kept_map.insert(key, val);
                }
                let ghost before = kept@;
                kept.push(e);
                proof {
                    let m = before.len() as int;
                    assert(kept@[m] == orig[n]);
                    assert forall|i: int| 0 <= i < m implies #[trigger] kept@[i] == before[i] by {}
                    assert forall|i: int|
                        0 <= i < kept@.len() implies exists|j: int|
                        n <= j < orig.len() && #[trigger] kept@[i] == orig[j] by {
                        if i < m {
                            assert(kept@[i] == before[i]);
                        }
                    }
                    assert forall|k: Seq<char>| #[trigger]
                        kept_map.contains_key(k) implies exists|i: int|
                        0 <= i < kept@.len() && (#[trigger] kept@[i]).0@ == k by {
                        if k != key {
                            let i = choose|i: int|
                                0 <= i < before.len() && (#[trigger] before[i]).0@ == k;
                            assert(kept@[i] == before[i]);
                        }
                    }
                    assert forall|k: Seq<char>| #[trigger]
                        kept_map.contains_key(k) <==> (exists|j: int|
                            n <= j < orig.len() && (#[trigger] orig[j]).0@ == k) && !is_expired(
                            old_map[k].issued_ms,
                            now_ms,
                            self.ttl_ms,
                        ) by {
                        if k == key {
                            assert(orig[n].0@ == k);
                        } else if exists|j: int| n <= j < orig.len() && (#[trigger] orig[j]).0@ == k {
                            let j = choose|j: int| n <= j < orig.len() && (#[trigger] orig[j]).0@ == k;
                            assert(j != n);
                            assert(n + 1 <= j);
                        }
                    }
                }
            } else {
                proof {
                    assert forall|k: Seq<char>| #[trigger]
                        kept_map.contains_key(k) <==> (exists|j: int|
                            n <= j < orig.len() && (#[trigger] orig[j]).0@ == k) && !is_expired(
                            old_map[k].issued_ms,
                            now_ms,
                            self.ttl_ms,
                        ) by {
                        if k == orig[n].0@ {
                            assert(old_map[k] == orig[n].1);
                        } else if exists|j: int| n <= j < orig.len() && (#[trigger] orig[j]).0@ == k {
                            let j = choose|j: int| n <= j < orig.len() && (#[trigger] orig[j]).0@ == k;
                            assert(j != n);
                            assert(n + 1 <= j);
                        }
                    }
                }
            }
        }
        self.entries = kept;
        self.contents = Ghost(kept_map);
        proof {
            assert(forall|i: int, j: int|
                0 <= i < self.entries@.len() && 0 <= j < self.entries@.len() && i != j
                    ==> (#[trigger] self.entries@[i]).0@ != (#[trigger] self.entries@[j]).0@);
            assert(forall|i: int|
                0 <= i < self.entries@.len() ==> {
                    &&& self.contents@.contains_key((#[trigger] self.entries@[i]).0@)
                    &&& self.contents@[self.entries@[i].0@] == self.entries@[i].1
                });
            assert(forall|k: Seq<char>| #[trigger]
                self.contents@.contains_key(k) ==> exists|i: int|
                    0 <= i < self.entries@.len() && (#[trigger] self.entries@[i]).0@ == k);
            assert forall|k: Seq<char>| #[trigger]
                self.contents@.contains_key(k) <==> old_map.contains_key(k) && !is_expired(
                    old_map[k].issued_ms,
                    now_ms,
                    self.ttl_ms,
                ) by {
                if old_map.contains_key(k) {
                    let i = choose|i: int| 0 <= i < orig.len() && (#[trigger] orig[i]).0@ == k;
                    assert(orig[i].0@ == k);
                }
                if exists|j: int| 0 <= j < orig.len() && (#[trigger] orig[j]).0@ == k {
                    let j = choose|j: int| 0 <= j < orig.len() && (#[trigger] orig[j]).0@ == k;
                    assert(old_map.contains_key(orig[j].0@));
                }
            }
            assert forall|k: Seq<char>| #[trigger]
                self.contents@.contains_key(k) implies self.contents@[k] == old_map[k] by {
                let i = choose|i: int| 0 <= i < kept@.len() && (#[trigger] kept@[i]).0@ == k;
                let j = choose|j: int| 0 <= j < orig.len() && #[trigger] kept@[i] == orig[j];
                assert(old_map[orig[j].0@] == orig[j].1);
            }
        }
    }
}

} // verus!
