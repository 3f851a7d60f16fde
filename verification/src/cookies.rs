//! The cookies of one request and response: each name carries one value.
use vstd::prelude::*;
use crate::entries::{distinct_names, find_entry, lookup, pairs_map, pairs_view, lemma_pairs_map_entries};

verus! {

/// Name of the cookie that carries the session token.
pub open spec fn authorization_cookie() -> Seq<char> {
    "Authorization"@
}

/// The cookies of a request, as the server reads and changes them.
pub struct CookieJar {
    entries: Vec<(String, String)>,
}

impl View for CookieJar {
    type V = Map<Seq<char>, Seq<char>>;

    closed spec fn view(&self) -> Map<Seq<char>, Seq<char>> {
        pairs_map(pairs_view(self.entries@))
    }
}

impl CookieJar {
    #[verifier::type_invariant]
    closed spec fn well_formed(&self) -> bool {
        distinct_names(pairs_view(self.entries@))
    }

    /// A jar without cookies.
    pub fn new() -> (r: CookieJar)
        ensures
            r@ == Map::<Seq<char>, Seq<char>>::empty(),
    {
        let r = CookieJar { entries: Vec::new() };
        assert(pairs_view(r.entries@) =~= Seq::<(Seq<char>, Seq<char>)>::empty());
        r
    }

    /// The value of the cookie named `name`, if there is one.
    pub fn get(&self, name: &str) -> (r: Option<String>)
        ensures
            match r {
                Some(v) => self@.contains_key(name@) && self@[name@] == v@,
                None => !self@.contains_key(name@),
            },
    {
        proof {
            use_type_invariant(self);
        }
        lookup(&self.entries, name)
    }

    /// Sets the cookie named `name` to `value`, replacing one of the same name.
    pub fn add(&mut self, name: &str, value: String)
        ensures
            final(self)@ == old(self)@.insert(name@, value@),
    {
        proof {
            use_type_invariant(&*self);
        }
        let ghost before = pairs_view(self.entries@);
        let entry = (name.to_owned(), value);
        match find_entry(&self.entries, name) {
            Some(i) => {
                let ghost after = before.update(i as int, (entry.0@, entry.1@));
                assert(before[i as int].0 == name@);
                assert(after[i as int].0 == name@);
                assert(distinct_names(after)) by {
                    assert forall|a: int, b: int| 0 <= a < b < after.len() implies after[a].0 != after[b].0 by {
                        if a != i && b != i {
                            assert(after[a] == before[a] && after[b] == before[b]);
                        } else if a == i {
                            assert(after[b] == before[b]);
                            assert(before[a].0 != before[b].0);
                        } else {
                            assert(after[a] == before[a]);
                            assert(before[a].0 != before[b].0);
                        }
                    }
                }
                let mut entries: Vec<(String, String)> = Vec::new();
                std::mem::swap(&mut entries, &mut self.entries);
                entries.set(i, entry);
                assert(pairs_view(entries@) =~= after);
                self.entries = entries;
                proof {
                    lemma_pairs_map_entries(before);
                    lemma_pairs_map_entries(after);
                    assert(pairs_map(after) =~= pairs_map(before).insert(name@, value@)) by {
                        assert forall|k: Seq<char>| #[trigger] pairs_map(after).contains_key(k)
                            implies pairs_map(before).insert(name@, value@).contains_key(k)
                            && pairs_map(after)[k] == pairs_map(before).insert(name@, value@)[k] by {
                            let j = choose|j: int| 0 <= j < after.len() && after[j].0 == k;
                            assert(pairs_map(after).contains_key(after[j].0));
                            if j != i {
                                assert(after[j] == before[j]);
                                assert(pairs_map(before).contains_key(before[j].0));
                            } else {
                                assert(after[j].1 == value@);
                            }
                        }
                        assert forall|k: Seq<char>| #[trigger] pairs_map(before).insert(name@, value@).contains_key(k)
                            implies pairs_map(after).contains_key(k) by {
                            if k != name@ {
                                let j = choose|j: int| 0 <= j < before.len() && before[j].0 == k;
                                assert(after[j] == before[j]);
                                assert(pairs_map(after).contains_key(after[j].0));
                            } else {
                                assert(pairs_map(after).contains_key(after[i as int].0));
                            }
                        }
                    }
                }
            },
            None => {
                let ghost after = before.push((entry.0@, entry.1@));
                assert(distinct_names(after)) by {
                    assert forall|a: int, b: int| 0 <= a < b < after.len() implies after[a].0 != after[b].0 by {
                        if b < before.len() {
                            assert(after[a] == before[a] && after[b] == before[b]);
                        } else {
                            assert(after[a] == before[a]);
                            assert(before[a].0 == self.entries@[a].0@);
                        }
                    }
                }
                let mut entries: Vec<(String, String)> = Vec::new();
                std::mem::swap(&mut entries, &mut self.entries);
                entries.push(entry);
                assert(pairs_view(entries@) =~= after);
                self.entries = entries;
                proof {
                    assert(after.drop_last() =~= before);
                }
            },
        }
    }

    /// Removes the cookie named `name`, if there is one.
    pub fn remove(&mut self, name: &str)
        ensures
            final(self)@ == old(self)@.remove(name@),
    {
        proof {
            use_type_invariant(&*self);
        }
        let ghost before = pairs_view(self.entries@);
        proof {
            lemma_pairs_map_entries(before);
        }
        match find_entry(&self.entries, name) {
            Some(i) => {
                let ghost after = before.remove(i as int);
                assert(distinct_names(after)) by {
                    assert forall|a: int, b: int| 0 <= a < b < after.len() implies after[a].0 != after[b].0 by {
                        if a < i {
                            assert(after[a] == before[a]);
                        } else {
                            assert(after[a] == before[a + 1]);
                        }
                        if b < i {
                            assert(after[b] == before[b]);
                        } else {
                            assert(after[b] == before[b + 1]);
                        }
                    }
                }
                let mut entries: Vec<(String, String)> = Vec::new();
                std::mem::swap(&mut entries, &mut self.entries);
                entries.remove(i);
                assert(pairs_view(entries@) =~= after);
                self.entries = entries;
                proof {
                    lemma_pairs_map_entries(after);
                    assert(pairs_map(after) =~= pairs_map(before).remove(name@)) by {
                        assert forall|k: Seq<char>| #[trigger] pairs_map(after).contains_key(k)
                            implies pairs_map(before).remove(name@).contains_key(k)
                            && pairs_map(after)[k] == pairs_map(before)[k] by {
                            let j = choose|j: int| 0 <= j < after.len() && after[j].0 == k;
                            let jb = if j < i { j } else { j + 1 };
                            assert(after[j] == before[jb]);
                            assert(pairs_map(before).contains_key(before[jb].0));
                            assert(before[jb].0 != before[i as int].0);
                        }
                        assert forall|k: Seq<char>| #[trigger] pairs_map(before).remove(name@).contains_key(k)
                            implies pairs_map(after).contains_key(k) by {
                            let j = choose|j: int| 0 <= j < before.len() && before[j].0 == k;
                            assert(j != i);
                            let ja = if j < i { j } else { j - 1 };
                            assert(after[ja] == before[j]);
                            assert(pairs_map(after).contains_key(after[ja].0));
                        }
                    }
                }
            },
            None => {
                assert(!pairs_map(before).contains_key(name@)) by {
                    if pairs_map(before).contains_key(name@) {
                        let j = choose|j: int| 0 <= j < before.len() && before[j].0 == name@;
                        assert(before[j].0 == self.entries@[j].0@);
                    }
                }
                assert(pairs_map(before).remove(name@) =~= pairs_map(before));
            },
        }
    }
}

} // verus!
