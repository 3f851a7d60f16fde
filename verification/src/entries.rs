//! Lists of (name, value) string pairs, read as finite maps from names to values.
//!
//! Session-token claims and the cookies of a request are both held this way.
use vstd::prelude::*;

verus! {

/// The abstract view of a list of string pairs.
pub open spec fn pairs_view(v: Seq<(String, String)>) -> Seq<(Seq<char>, Seq<char>)> {
    v.map_values(|p: (String, String)| (p.0@, p.1@))
}

/// The map that a list of pairs denotes: a later pair overrides an earlier one
/// with the same name.
pub open spec fn pairs_map(s: Seq<(Seq<char>, Seq<char>)>) -> Map<Seq<char>, Seq<char>>
    decreases s.len(),
{
    if s.len() == 0 {
        Map::empty()
    } else {
        pairs_map(s.drop_last()).insert(s.last().0, s.last().1)
    }
}

/// No name occurs twice in the list.
pub open spec fn distinct_names(s: Seq<(Seq<char>, Seq<char>)>) -> bool {
    forall|i: int, j: int| 0 <= i < j < s.len() ==> s[i].0 != s[j].0
}

/// In a list without repeated names, the map holds exactly the listed names,
/// each with its listed value.
pub proof fn lemma_pairs_map_entries(s: Seq<(Seq<char>, Seq<char>)>)
    requires
        distinct_names(s),
    ensures
        forall|i: int| 0 <= i < s.len() ==> #[trigger] pairs_map(s).contains_key(s[i].0) && pairs_map(s)[s[i].0] == s[i].1,
        forall|k: Seq<char>| #[trigger] pairs_map(s).contains_key(k) ==> exists|i: int| 0 <= i < s.len() && s[i].0 == k,
    decreases s.len(),
{
    if s.len() > 0 {
        let p = s.drop_last();
        assert(distinct_names(p));
        lemma_pairs_map_entries(p);
        assert forall|i: int| 0 <= i < s.len() implies #[trigger] pairs_map(s).contains_key(s[i].0) && pairs_map(s)[s[i].0] == s[i].1 by {
            if i < s.len() - 1 {
                assert(p[i] == s[i]);
                assert(pairs_map(p).contains_key(p[i].0));
                assert(s[i].0 != s[s.len() - 1].0);
            }
        }
        assert forall|k: Seq<char>| #[trigger] pairs_map(s).contains_key(k) implies exists|i: int| 0 <= i < s.len() && s[i].0 == k by {
            if k != s.last().0 {
                assert(pairs_map(p).contains_key(k));
                let i = choose|i: int| 0 <= i < p.len() && p[i].0 == k;
                assert(s[i] == p[i]);
            } else {
                assert(s[s.len() - 1].0 == k);
            }
        }
    }
}

/// Position of the pair named `name`, if there is one.
pub fn find_entry(entries: &Vec<(String, String)>, name: &str) -> (r: Option<usize>)
    ensures
        match r {
            Some(i) => i < entries@.len() && entries@[i as int].0@ == name@,
            None => forall|i: int| 0 <= i < entries@.len() ==> entries@[i].0@ != name@,
        },
{
    let wanted: String = name.to_owned();
    let mut i: usize = 0;
    while i < entries.len()
        invariant
            i <= entries@.len(),
            wanted@ == name@,
            forall|j: int| 0 <= j < i ==> entries@[j].0@ != name@,
        decreases entries@.len() - i,
    {
        if entries[i].0 == wanted {
            return Some(i);
        }
        i = i + 1;
    }
    None
}

/// Value of the pair named `name` in a list without repeated names: exactly
/// what the denoted map holds for that name.
pub fn lookup(entries: &Vec<(String, String)>, name: &str) -> (r: Option<String>)
    requires
        distinct_names(pairs_view(entries@)),
    ensures
        match r {
            Some(v) => pairs_map(pairs_view(entries@)).contains_key(name@)
                && pairs_map(pairs_view(entries@))[name@] == v@,
            None => !pairs_map(pairs_view(entries@)).contains_key(name@),
        },
{
    let ghost s = pairs_view(entries@);
    proof {
        lemma_pairs_map_entries(s);
    }
    match find_entry(entries, name) {
        Some(i) => {
            assert(s[i as int].0 == name@);
            assert(pairs_map(s).contains_key(s[i as int].0));
            let v = entries[i].1.clone();
            assert(v@ == s[i as int].1);
            Some(v)
        },
        None => {
            assert forall|k: int| 0 <= k < s.len() implies s[k].0 != name@ by {
                assert(s[k].0 == entries@[k].0@);
            }
            None
        },
    }
}

} // verus!
