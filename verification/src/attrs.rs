use vstd::prelude::*;

verus! {

/// The value bound to key `k` in an entry list, read with the later entry
/// winning, or `None` when no entry carries the key.
pub open spec fn assoc_find(s: Seq<(String, String)>, k: Seq<char>) -> Option<Seq<char>>
    decreases s.len(),
{
    if s.len() == 0 {
        None
    } else if s.last().0@ == k {
        Some(s.last().1@)
    } else {
        assoc_find(s.drop_last(), k)
    }
}

/// A string-to-string attribute map kept as the list of insertions, later
/// insertions shadowing earlier ones with the same key. Reading it as a map
/// (its view) therefore gives insertion-order-wins semantics on key
/// collisions, which is what the backend's attribute set expects.
pub struct AttrMap {
    pub entries: Vec<(String, String)>,
}

impl View for AttrMap {
    type V = Map<Seq<char>, Seq<char>>;

    open spec fn view(&self) -> Map<Seq<char>, Seq<char>> {
        Map::new(
            |k: Seq<char>| assoc_find(self.entries@, k) is Some,
            |k: Seq<char>| assoc_find(self.entries@, k)->Some_0,
        )
    }
}

impl AttrMap {
    /// An empty map.
    pub fn new() -> (r: AttrMap)
        ensures
            r@ == Map::<Seq<char>, Seq<char>>::empty(),
            r.entries@.len() == 0,
    {
        let r = AttrMap { entries: Vec::new() };
        proof {
            assert(r@ =~= Map::<Seq<char>, Seq<char>>::empty());
        }
        r
    }

    /// How many entries the map holds, shadowed ones included.
    pub fn len(&self) -> (r: usize)
        ensures
            r == self.entries@.len(),
    {
        self.entries.len()
    }

    /// Binds `k` to `v`; a later insertion wins over any earlier one with
    /// the same key.
    pub fn insert(&mut self, k: String, v: String)
        ensures
            final(self)@ == old(self)@.insert(k@, v@),
            final(self).entries@ == old(self).entries@.push((k, v)),
    {
        let ghost old_entries = self.entries@;
        let ghost kv = k@;
        let ghost vv = v@;
        self.entries.push((k, v));
        proof {
            assert forall|k2: Seq<char>| #[trigger] assoc_find(self.entries@, k2) == (if k2 == kv {
                Some(vv)
            } else {
                assoc_find(old_entries, k2)
            }) by {
                assert(self.entries@.drop_last() =~= old_entries);
            }
            assert(self@ =~= old(self)@.insert(kv, vv));
        }
    }

    /// Looks `k` up, returning the value of the latest insertion.
    pub fn get(&self, k: &String) -> (r: Option<&String>)
        ensures
            match r {
                Some(v) => self@.contains_key(k@) && v@ == self@[k@],
                None => !self@.contains_key(k@),
            },
    {
        let n = self.entries.len();
        let mut i = n;
        proof {
            assert(self.entries@.take(n as int) =~= self.entries@);
        }
        while i > 0
            invariant
                i <= self.entries@.len(),
                assoc_find(self.entries@, k@) == assoc_find(self.entries@.take(i as int), k@),
            decreases i,
        {
            i = i - 1;
            let ghost pre = self.entries@.take(i as int + 1);
            proof {
                assert(pre.last() == self.entries@[i as int]);
                assert(pre.drop_last() =~= self.entries@.take(i as int));
            }
            if self.entries[i].0 == *k {
                return Some(&self.entries[i].1);
            }
        }
        proof {
            assert(self.entries@.take(0) =~= Seq::<(String, String)>::empty());
        }
        None
    }

    /// Removes every entry with key `k`, returning the value the map bound
    /// to `k` (the latest one) if any entry carried it.
    pub fn remove(&mut self, k: &String) -> (r: Option<String>)
        ensures
            final(self)@ == old(self)@.remove(k@),
            match r {
                Some(v) => old(self)@.contains_key(k@) && v@ == old(self)@[k@],
                None => !old(self)@.contains_key(k@),
            },
    {
        let ghost orig = self.entries@;
        let mut kept: Vec<(String, String)> = Vec::new();
        let mut found: Option<String> = None;
        let mut i: usize = 0;
        let n = self.entries.len();
        proof {
            assert(orig.take(0) =~= Seq::<(String, String)>::empty());
        }
        while i < n
            invariant
                n == orig.len(),
                self.entries@ == orig,
                i <= n,
                forall|k2: Seq<char>| k2 != k@ ==> #[trigger] assoc_find(kept@, k2) == assoc_find(
                    orig.take(i as int),
                    k2,
                ),
                assoc_find(kept@, k@) is None,
                match found {
                    Some(v) => assoc_find(orig.take(i as int), k@) == Some(v@),
                    None => assoc_find(orig.take(i as int), k@) is None,
                },
            decreases n - i,
        {
            let ghost old_kept = kept@;
            let ghost pre = orig.take(i as int + 1);
            proof {
                assert(pre.last() == orig[i as int]);
                assert(pre.drop_last() =~= orig.take(i as int));
            }
            let key = self.entries[i].0.clone();
            let val = self.entries[i].1.clone();
            if key == *k {
                found = Some(val);
                proof {
                    assert(assoc_find(pre, k@) == Some(val@));
                    assert forall|k2: Seq<char>| k2 != k@ implies #[trigger] assoc_find(
                        pre,
                        k2,
                    ) == assoc_find(orig.take(i as int), k2) by {
                        assert(pre.last().0@ == k@);
                        assert(assoc_find(pre, k2) == assoc_find(pre.drop_last(), k2));
                    }
                }
            } else {
                kept.push((key, val));
                proof {
                    assert(kept@.drop_last() =~= old_kept);
                    assert(kept@.last() == (orig[i as int].0, orig[i as int].1));
                    assert forall|k2: Seq<char>| k2 != k@ implies #[trigger] assoc_find(
                        kept@,
                        k2,
                    ) == assoc_find(pre, k2) by {
                        assert(kept@.drop_last() == old_kept);
                        if k2 == key@ {
                            assert(assoc_find(kept@, k2) == Some(val@));
                            assert(pre.last().0@ == k2);
                            assert(assoc_find(pre, k2) == Some(pre.last().1@));
                        } else {
                            assert(assoc_find(kept@, k2) == assoc_find(old_kept, k2));
                            assert(assoc_find(old_kept, k2) == assoc_find(
                                orig.take(i as int),
                                k2,
                            ));
                            assert(assoc_find(pre, k2) == assoc_find(pre.drop_last(), k2));
                        }
                    }
                    assert(assoc_find(kept@, k@) is None);
                }
            }
            i = i + 1;
        }
        proof {
            assert(orig.take(n as int) =~= orig);
        }
        self.entries = kept;
        proof {
            assert(self@ =~= old(self)@.remove(k@));
        }
        found
    }
}

} // verus!
