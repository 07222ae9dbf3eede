//! A string-to-string store kept as a vector of pairs with distinct keys,
//! viewed as a finite map.
use crate::hash::{hash, in_range, in_range_spec, key_id};
use vstd::prelude::*;
use vstd::string::StrSliceExecFns;

verus! {

/// The map built from paired key and value sequences, read up to `n`; a
/// later pair overrides an earlier one with the same key.
pub open spec fn pairs_to_map(ks: Seq<Seq<char>>, vs: Seq<Seq<char>>, n: int) -> Map<
    Seq<char>,
    Seq<char>,
>
    decreases n,
{
    if n <= 0 {
        Map::empty()
    } else {
        pairs_to_map(ks, vs, n - 1).insert(ks[n - 1], vs[n - 1])
    }
}

/// The views of a vector of strings.
pub open spec fn strings_view(v: Seq<String>) -> Seq<Seq<char>> {
    v.map_values(|s: String| s@)
}

/// No string occurs twice.
pub open spec fn distinct(s: Seq<Seq<char>>) -> bool {
    forall|i: int, j: int| 0 <= i < j < s.len() ==> s[i] != s[j]
}

/// Whether a key's ring identifier lies in `(min, max]` clockwise.
pub open spec fn key_in_range(k: Seq<char>, min: int, max: int) -> bool {
    in_range_spec(key_id(k), min, max, true)
}

/// The entries of `m` whose keys hash into `(min, max]`.
pub open spec fn range_part(m: Map<Seq<char>, Seq<char>>, min: int, max: int) -> Map<
    Seq<char>,
    Seq<char>,
> {
    m.restrict(m.dom().filter(|k: Seq<char>| key_in_range(k, min, max)))
}

/// The entries of `m` whose keys hash outside `(min, max]`.
pub open spec fn rest_part(m: Map<Seq<char>, Seq<char>>, min: int, max: int) -> Map<
    Seq<char>,
    Seq<char>,
> {
    m.restrict(m.dom().filter(|k: Seq<char>| !key_in_range(k, min, max)))
}

/// Keys and values side by side, with distinct keys, that make up exactly
/// the map `m`.
pub open spec fn pairs_hold(ks: Seq<Seq<char>>, vs: Seq<Seq<char>>, m: Map<Seq<char>, Seq<char>>) -> bool {
    &&& ks.len() == vs.len()
    &&& distinct(ks)
    &&& pairs_to_map(ks, vs, ks.len() as int) == m
}

/// Key and value strings handed out side by side that make up exactly the
/// map `m`.
pub open spec fn lists_hold(ks: Seq<String>, vs: Seq<String>, m: Map<Seq<char>, Seq<char>>) -> bool {
    pairs_hold(strings_view(ks), strings_view(vs), m)
}

/// Returns whether two strings hold the same characters.
pub fn same_text(a: &str, b: &str) -> (r: bool)
    ensures
        r == (a@ == b@),
{
    let n = a.unicode_len();
    if n != b.unicode_len() {
        return false;
    }
    let mut i: usize = 0;
    while i < n
        invariant
            n == a@.len(),
            n == b@.len(),
            i <= n,
            forall|j: int| 0 <= j < i ==> a@[j] == b@[j],
        decreases n - i,
    {
        if a.get_char(i) != b.get_char(i) {
            return false;
        }
        i += 1;
    }
    assert(a@ =~= b@);
    true
}

/// A key-value store of strings.
pub struct KvStore {
    entries: Vec<(String, String)>,
}

/// The view of a pair sequence as a map, given distinct keys.
pub open spec fn entries_map(s: Seq<(String, String)>) -> Map<Seq<char>, Seq<char>> {
    Map::new(
        |k: Seq<char>| exists|i: int| 0 <= i < s.len() && #[trigger] s[i].0@ == k,
        |k: Seq<char>| s[choose|i: int| 0 <= i < s.len() && #[trigger] s[i].0@ == k].1@,
    )
}

/// Keys of a pair sequence are distinct.
pub open spec fn entries_distinct(s: Seq<(String, String)>) -> bool {
    forall|i: int, j: int| 0 <= i < s.len() && 0 <= j < s.len() && i != j ==> s[i].0@ != s[j].0@
}

proof fn lemma_entries_lookup(s: Seq<(String, String)>, i: int)
    requires
        entries_distinct(s),
        0 <= i < s.len(),
    ensures
        entries_map(s).contains_key(s[i].0@),
        entries_map(s)[s[i].0@] == s[i].1@,
{
    let k = s[i].0@;
    assert(exists|j: int| 0 <= j < s.len() && #[trigger] s[j].0@ == k);
    let c = choose|j: int| 0 <= j < s.len() && #[trigger] s[j].0@ == k;
    assert(c == i);
}

proof fn lemma_entries_push(s: Seq<(String, String)>, p: (String, String))
    requires
        entries_distinct(s),
        !entries_map(s).contains_key(p.0@),
    ensures
        entries_distinct(s.push(p)),
        entries_map(s.push(p)) == entries_map(s).insert(p.0@, p.1@),
{
    let t = s.push(p);
    assert forall|i: int| 0 <= i < s.len() implies t[i].0@ != p.0@ by {
        if t[i].0@ == p.0@ {
            assert(s[i].0@ == p.0@);
        }
    }
    assert forall|k: Seq<char>| #[trigger] entries_map(t).contains_key(k) == entries_map(s).insert(
        p.0@,
        p.1@,
    ).contains_key(k) by {
        if entries_map(t).contains_key(k) {
            let j = choose|j: int| 0 <= j < t.len() && #[trigger] t[j].0@ == k;
            if j < s.len() {
                assert(s[j].0@ == k);
            }
        }
        if entries_map(s).contains_key(k) {
            let j = choose|j: int| 0 <= j < s.len() && #[trigger] s[j].0@ == k;
            assert(t[j].0@ == k);
        }
        if k == p.0@ {
            assert(t[s.len() as int].0@ == k);
        }
    }
    assert forall|k: Seq<char>| #[trigger] entries_map(t).contains_key(k) implies entries_map(t)[k]
        == entries_map(s).insert(p.0@, p.1@)[k] by {
        let j = choose|j: int| 0 <= j < t.len() && #[trigger] t[j].0@ == k;
        lemma_entries_lookup(t, j);
        if j < s.len() {
            assert(s[j] == t[j]);
            lemma_entries_lookup(s, j);
        }
    }
    assert(entries_map(t) =~= entries_map(s).insert(p.0@, p.1@));
}

proof fn lemma_entries_update(s: Seq<(String, String)>, i: int, p: (String, String))
    requires
        entries_distinct(s),
        0 <= i < s.len(),
        s[i].0@ == p.0@,
    ensures
        entries_distinct(s.update(i, p)),
        entries_map(s.update(i, p)) == entries_map(s).insert(p.0@, p.1@),
{
    let t = s.update(i, p);
    assert(entries_distinct(t));
    assert forall|k: Seq<char>| #[trigger] entries_map(t).contains_key(k) == entries_map(s).insert(
        p.0@,
        p.1@,
    ).contains_key(k) by {
        if entries_map(t).contains_key(k) {
            let j = choose|j: int| 0 <= j < t.len() && #[trigger] t[j].0@ == k;
            if j != i {
                assert(s[j].0@ == k);
            }
        }
        if entries_map(s).contains_key(k) {
            let j = choose|j: int| 0 <= j < s.len() && #[trigger] s[j].0@ == k;
            assert(t[j].0@ == k);
        }
        if k == p.0@ {
            assert(t[i].0@ == k);
        }
    }
    assert forall|k: Seq<char>| #[trigger] entries_map(t).contains_key(k) implies entries_map(t)[k]
        == entries_map(s).insert(p.0@, p.1@)[k] by {
        let j = choose|j: int| 0 <= j < t.len() && #[trigger] t[j].0@ == k;
        lemma_entries_lookup(t, j);
        if j != i {
            lemma_entries_lookup(s, j);
        }
    }
    assert(entries_map(t) =~= entries_map(s).insert(p.0@, p.1@));
}


proof fn lemma_pairs_prefix(
    ks: Seq<Seq<char>>,
    vs: Seq<Seq<char>>,
    ks2: Seq<Seq<char>>,
    vs2: Seq<Seq<char>>,
    n: int,
)
    requires
        0 <= n <= ks.len(),
        n <= vs.len(),
        n <= ks2.len(),
        n <= vs2.len(),
        forall|j: int| 0 <= j < n ==> ks[j] == ks2[j] && vs[j] == vs2[j],
    ensures
        pairs_to_map(ks, vs, n) == pairs_to_map(ks2, vs2, n),
    decreases n,
{
    if n > 0 {
        lemma_pairs_prefix(ks, vs, ks2, vs2, n - 1);
    }
}

proof fn lemma_pairs_dom(ks: Seq<Seq<char>>, vs: Seq<Seq<char>>, n: int)
    requires
        0 <= n <= ks.len(),
        n <= vs.len(),
    ensures
        forall|j: int| 0 <= j < n ==> pairs_to_map(ks, vs, n).contains_key(#[trigger] ks[j]),
        forall|k: Seq<char>| #[trigger]
            pairs_to_map(ks, vs, n).contains_key(k) ==> exists|j: int| 0 <= j < n && ks[j] == k,
    decreases n,
{
    if n > 0 {
        lemma_pairs_dom(ks, vs, n - 1);
        assert forall|k: Seq<char>| pairs_to_map(ks, vs, n).contains_key(k) implies exists|j: int|
            0 <= j < n && ks[j] == k by {
            if k == ks[n - 1] {
                assert(ks[n - 1] == k);
            } else {
                assert(pairs_to_map(ks, vs, n - 1).contains_key(k));
                let j = choose|j: int| 0 <= j < n - 1 && ks[j] == k;
                assert(ks[j] == k);
            }
        }
    }
}

proof fn lemma_pairs_push(ks: Seq<Seq<char>>, vs: Seq<Seq<char>>, k: Seq<char>, v: Seq<char>)
    requires
        ks.len() == vs.len(),
    ensures
        pairs_to_map(ks.push(k), vs.push(v), ks.len() + 1 as int) == pairs_to_map(ks, vs, ks.len() as int).insert(
            k,
            v,
        ),
{
    lemma_pairs_prefix(ks, vs, ks.push(k), vs.push(v), ks.len() as int);
}

proof fn lemma_entries_take_push(s: Seq<(String, String)>, i: int)
    requires
        entries_distinct(s),
        0 <= i < s.len(),
    ensures
        entries_distinct(s.take(i)),
        s.take(i + 1) == s.take(i).push(s[i]),
        entries_map(s.take(i + 1)) == entries_map(s.take(i)).insert(s[i].0@, s[i].1@),
        !entries_map(s.take(i)).contains_key(s[i].0@),
{
    assert(s.take(i + 1) =~= s.take(i).push(s[i]));
    let t = s.take(i);
    if entries_map(t).contains_key(s[i].0@) {
        let j = choose|j: int| 0 <= j < t.len() && #[trigger] t[j].0@ == s[i].0@;
        assert(s[j].0@ == s[i].0@);
    }
    lemma_entries_push(t, s[i]);
}

impl View for KvStore {
    type V = Map<Seq<char>, Seq<char>>;

    closed spec fn view(&self) -> Map<Seq<char>, Seq<char>> {
        entries_map(self.entries@)
    }
}

impl KvStore {
    /// The store's internal invariant: no key occurs twice.
    pub closed spec fn wf(&self) -> bool {
        entries_distinct(self.entries@)
    }

    /// An empty store.
    pub fn new() -> (r: KvStore)
        ensures
            r.wf(),
            r@ == Map::<Seq<char>, Seq<char>>::empty(),
    {
        let r = KvStore { entries: Vec::new() };
        assert(r@ =~= Map::<Seq<char>, Seq<char>>::empty());
        r
    }

    /// Looks a key up.
    pub fn get(&self, key: &str) -> (r: Option<&String>)
        requires
            self.wf(),
        ensures
            r.is_some() == self@.contains_key(key@),
            r.is_some() ==> r.unwrap()@ == self@[key@],
    {
        let mut i: usize = 0;
        while i < self.entries.len()
            invariant
                self.wf(),
                i <= self.entries@.len(),
                forall|j: int| 0 <= j < i ==> self.entries@[j].0@ != key@,
            decreases self.entries@.len() - i,
        {
            if same_text(self.entries[i].0.as_str(), key) {
                proof {
                    lemma_entries_lookup(self.entries@, i as int);
                }
                return Some(&self.entries[i].1);
            }
            i += 1;
        }
        assert(!self@.contains_key(key@)) by {
            if self@.contains_key(key@) {
                let j = choose|j: int|
                    0 <= j < self.entries@.len() && #[trigger] self.entries@[j].0@ == key@;
            }
        }
        None
    }

    /// Sets a key to a value, replacing any earlier value.
    pub fn insert(&mut self, key: String, value: String)
        requires
            old(self).wf(),
        ensures
            final(self).wf(),
            final(self)@ == old(self)@.insert(key@, value@),
    {
        let mut i: usize = 0;
        while i < self.entries.len()
            invariant
                self.wf(),
                self == old(self),
                i <= self.entries@.len(),
                forall|j: int| 0 <= j < i ==> self.entries@[j].0@ != key@,
            decreases self.entries@.len() - i,
        {
            if self.entries[i].0 == key {
                proof {
                    lemma_entries_update(self.entries@, i as int, (key, value));
                }
                self.entries.set(i, (key, value));
                return;
            }
            i += 1;
        }
        assert(!self@.contains_key(key@)) by {
            if self@.contains_key(key@) {
                let j = choose|j: int|
                    0 <= j < self.entries@.len() && #[trigger] self.entries@[j].0@ == key@;
            }
        }
        proof {
            lemma_entries_push(self.entries@, (key, value));
        }
        self.entries.push((key, value));
    }

    /// Copies the store out as keys and values side by side.
    pub fn snapshot(&self) -> (r: (Vec<String>, Vec<String>))
        requires
            self.wf(),
        ensures
            lists_hold(r.0@, r.1@, self@),
    {
        let mut ks: Vec<String> = Vec::new();
        let mut vs: Vec<String> = Vec::new();
        let mut i: usize = 0;
        proof {
            assert(self.entries@.take(0) =~= Seq::<(String, String)>::empty());
            assert(entries_map(self.entries@.take(0)) =~= Map::<Seq<char>, Seq<char>>::empty());
        }
        while i < self.entries.len()
            invariant
                self.wf(),
                i <= self.entries@.len(),
                ks@.len() == i,
                vs@.len() == i,
                distinct(strings_view(ks@)),
                pairs_to_map(strings_view(ks@), strings_view(vs@), i as int) == entries_map(
                    self.entries@.take(i as int),
                ),
            decreases self.entries@.len() - i,
        {
            let k = self.entries[i].0.clone();
            let v = self.entries[i].1.clone();
            proof {
                lemma_entries_take_push(self.entries@, i as int);
                lemma_pairs_dom(strings_view(ks@), strings_view(vs@), i as int);
                lemma_pairs_push(strings_view(ks@), strings_view(vs@), k@, v@);
                assert(strings_view(ks@.push(k)) =~= strings_view(ks@).push(k@));
                assert(strings_view(vs@.push(v)) =~= strings_view(vs@).push(v@));
            }
            ks.push(k);
            vs.push(v);
            i += 1;
        }
        assert(self.entries@.take(i as int) =~= self.entries@);
        (ks, vs)
    }

    /// Inserts the pairs of `keys` and `values` in order, up to the shorter
    /// of the two.
    pub fn insert_all(&mut self, keys: &Vec<String>, values: &Vec<String>)
        requires
            old(self).wf(),
        ensures
            final(self).wf(),
            final(self)@ == old(self)@.union_prefer_right(
                pairs_to_map(
                    strings_view(keys@),
                    strings_view(values@),
                    if keys@.len() < values@.len() { keys@.len() as int } else { values@.len() as int },
                ),
            ),
    {
        let n = if keys.len() < values.len() { keys.len() } else { values.len() };
        let mut i: usize = 0;
        assert(old(self)@.union_prefer_right(Map::empty()) =~= old(self)@);
        while i < n
            invariant
                self.wf(),
                n <= keys@.len(),
                n <= values@.len(),
                n == if keys@.len() < values@.len() { keys@.len() as int } else { values@.len() as int },
                i <= n,
                self@ == old(self)@.union_prefer_right(
                    pairs_to_map(strings_view(keys@), strings_view(values@), i as int),
                ),
            decreases n - i,
        {
            self.insert(keys[i].clone(), values[i].clone());
            proof {
                let m = pairs_to_map(strings_view(keys@), strings_view(values@), i as int);
                assert(old(self)@.union_prefer_right(m.insert(keys@[i as int]@, values@[i as int]@))
                    =~= old(self)@.union_prefer_right(m).insert(keys@[i as int]@, values@[i as int]@));
            }
            i += 1;
        }
    }

    /// Copies every entry of `other` in, its values winning over ours.
    pub fn merge(&mut self, other: &KvStore)
        requires
            old(self).wf(),
            other.wf(),
        ensures
            final(self).wf(),
            final(self)@ == old(self)@.union_prefer_right(other@),
    {
        let mut i: usize = 0;
        proof {
            assert(other.entries@.take(0) =~= Seq::<(String, String)>::empty());
            assert(entries_map(other.entries@.take(0)) =~= Map::<Seq<char>, Seq<char>>::empty());
            assert(old(self)@.union_prefer_right(Map::empty()) =~= old(self)@);
        }
        while i < other.entries.len()
            invariant
                self.wf(),
                other.wf(),
                i <= other.entries@.len(),
                self@ == old(self)@.union_prefer_right(entries_map(other.entries@.take(i as int))),
            decreases other.entries@.len() - i,
        {
            self.insert(other.entries[i].0.clone(), other.entries[i].1.clone());
            proof {
                lemma_entries_take_push(other.entries@, i as int);
                let m = entries_map(other.entries@.take(i as int));
                let e = other.entries@[i as int];
                assert(old(self)@.union_prefer_right(m.insert(e.0@, e.1@))
                    =~= old(self)@.union_prefer_right(m).insert(e.0@, e.1@));
            }
            i += 1;
        }
        assert(other.entries@.take(i as int) =~= other.entries@);
    }

    /// Removes the entries whose keys hash into `(min, max]` clockwise and
    /// hands them out as keys and values side by side.
    pub fn extract_range(&mut self, min: i32, max: i32) -> (r: (Vec<String>, Vec<String>))
        requires
            old(self).wf(),
        ensures
            final(self).wf(),
            final(self)@ == rest_part(old(self)@, min as int, max as int),
            lists_hold(r.0@, r.1@, range_part(old(self)@, min as int, max as int)),
    {
        let mut kept: Vec<(String, String)> = Vec::new();
        let mut ks: Vec<String> = Vec::new();
        let mut vs: Vec<String> = Vec::new();
        let mut i: usize = 0;
        proof {
            assert(self.entries@.take(0) =~= Seq::<(String, String)>::empty());
            assert(entries_map(self.entries@.take(0)) =~= Map::<Seq<char>, Seq<char>>::empty());
            assert(entries_map(kept@) =~= Map::<Seq<char>, Seq<char>>::empty());
            assert(rest_part(Map::empty(), min as int, max as int) =~= Map::empty());
            assert(range_part(Map::empty(), min as int, max as int) =~= Map::empty());
        }
        while i < self.entries.len()
            invariant
                self == old(self),
                self.wf(),
                i <= self.entries@.len(),
                ks@.len() == vs@.len(),
                distinct(strings_view(ks@)),
                entries_distinct(kept@),
                entries_map(kept@) == rest_part(
                    entries_map(self.entries@.take(i as int)),
                    min as int,
                    max as int,
                ),
                pairs_to_map(strings_view(ks@), strings_view(vs@), ks@.len() as int) == range_part(
                    entries_map(self.entries@.take(i as int)),
                    min as int,
                    max as int,
                ),
            decreases self.entries@.len() - i,
        {
            let k = self.entries[i].0.clone();
            let v = self.entries[i].1.clone();
            let h = hash(k.as_str());
            proof {
                lemma_entries_take_push(self.entries@, i as int);
                let m = entries_map(self.entries@.take(i as int));
                assert(rest_part(m.insert(k@, v@), min as int, max as int) =~= if key_in_range(
                    k@,
                    min as int,
                    max as int,
                ) {
                    rest_part(m, min as int, max as int)
                } else {
                    rest_part(m, min as int, max as int).insert(k@, v@)
                });
                assert(range_part(m.insert(k@, v@), min as int, max as int) =~= if key_in_range(
                    k@,
                    min as int,
                    max as int,
                ) {
                    range_part(m, min as int, max as int).insert(k@, v@)
                } else {
                    range_part(m, min as int, max as int)
                });
                lemma_pairs_dom(strings_view(ks@), strings_view(vs@), ks@.len() as int);
            }
            if in_range(h, min, max, true) {
                proof {
                    lemma_pairs_push(strings_view(ks@), strings_view(vs@), k@, v@);
                    assert(strings_view(ks@.push(k)) =~= strings_view(ks@).push(k@));
                    assert(strings_view(vs@.push(v)) =~= strings_view(vs@).push(v@));
                }
                ks.push(k);
                vs.push(v);
            } else {
                proof {
                    lemma_entries_push(kept@, (k, v));
                }
                kept.push((k, v));
            }
            i += 1;
        }
        assert(self.entries@.take(i as int) =~= self.entries@);
        self.entries = kept;
        (ks, vs)
    }
}

} // verus!
