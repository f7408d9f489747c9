//! Small maps keyed by text, kept in first-insertion order.
use vstd::prelude::*;
use crate::datetime::UtcDateTime;
use crate::text::chars_equal;

verus! {

/// Position of the first entry with key `k` at or after `from`, or -1.
pub open spec fn key_pos_from<V>(m: Seq<(Seq<char>, V)>, k: Seq<char>, from: int) -> int
    decreases m.len() - from,
{
    if from < 0 || from >= m.len() {
        -1
    } else if m[from].0 == k {
        from
    } else {
        key_pos_from(m, k, from + 1)
    }
}

pub open spec fn key_pos<V>(m: Seq<(Seq<char>, V)>, k: Seq<char>) -> int {
    key_pos_from(m, k, 0)
}

/// The value stored under `k`.
pub open spec fn assoc_get<V>(m: Seq<(Seq<char>, V)>, k: Seq<char>) -> Option<V> {
    let p = key_pos(m, k);
    if p >= 0 {
        Some(m[p].1)
    } else {
        None
    }
}

/// `m` with `v` stored under `k`: an existing entry keeps its place, a new key
/// goes last.
pub open spec fn assoc_put<V>(m: Seq<(Seq<char>, V)>, k: Seq<char>, v: V) -> Seq<
    (Seq<char>, V),
> {
    let p = key_pos(m, k);
    if p >= 0 {
        m.update(p, (k, v))
    } else {
        m.push((k, v))
    }
}

/// A map from text to text.
pub struct TextMap {
    pub entries: Vec<(Vec<char>, Vec<char>)>,
}

/// A map from text to date-times.
pub struct StampMap {
    pub entries: Vec<(Vec<char>, UtcDateTime)>,
}

impl View for TextMap {
    type V = Seq<(Seq<char>, Seq<char>)>;

    open spec fn view(&self) -> Seq<(Seq<char>, Seq<char>)> {
        Seq::new(self.entries@.len(), |i: int| (self.entries@[i].0@, self.entries@[i].1@))
    }
}

impl View for StampMap {
    type V = Seq<(Seq<char>, UtcDateTime)>;

    open spec fn view(&self) -> Seq<(Seq<char>, UtcDateTime)> {
        Seq::new(self.entries@.len(), |i: int| (self.entries@[i].0@, self.entries@[i].1))
    }
}

impl TextMap {
    pub fn new() -> (r: TextMap)
        ensures
            r@ == Seq::<(Seq<char>, Seq<char>)>::empty(),
    {
        let r = TextMap { entries: Vec::new() };
        assert(r@ =~= Seq::<(Seq<char>, Seq<char>)>::empty());
        r
    }

    pub fn len(&self) -> (r: usize)
        ensures
            r == self@.len(),
    {
        self.entries.len()
    }

    pub fn find(&self, k: &[char]) -> (r: Option<usize>)
        ensures
            r matches Some(i) ==> key_pos(self@, k@) == i && i < self@.len(),
            r is None ==> key_pos(self@, k@) == -1,
    {
        let mut i: usize = 0;
        while i < self.entries.len()
            invariant
                i <= self@.len(),
                self@.len() == self.entries@.len(),
                key_pos_from(self@, k@, i as int) == key_pos(self@, k@),
            decreases self@.len() - i,
        {
            if chars_equal(self.entries[i].0.as_slice(), k) {
                return Some(i);
            }
            i = i + 1;
        }
        None
    }

    pub fn get(&self, k: &[char]) -> (r: Option<Vec<char>>)
        ensures
            r matches Some(v) ==> assoc_get(self@, k@) == Some(v@),
            r is None ==> assoc_get(self@, k@) is None,
    {
        match self.find(k) {
            Some(i) => Some(self.entries[i].1.clone()),
            None => None,
        }
    }

    pub fn put(&mut self, k: &[char], v: &[char])
        ensures
            final(self)@ == assoc_put(old(self)@, k@, v@),
    {
        let kv = vstd::slice::slice_to_vec(k);
        let vv = vstd::slice::slice_to_vec(v);
        match self.find(k) {
            Some(i) => {
                self.entries.set(i, (kv, vv));
            },
            None => {
                self.entries.push((kv, vv));
            },
        }
        assert(self@ =~= assoc_put(old(self)@, k@, v@));
    }

    pub fn clear(&mut self)
        ensures
            final(self)@ == Seq::<(Seq<char>, Seq<char>)>::empty(),
    {
        self.entries = Vec::new();
        assert(self@ =~= Seq::<(Seq<char>, Seq<char>)>::empty());
    }
}

/// Every date-time of the list names an existing instant.
pub open spec fn stamps_wf(m: Seq<(Seq<char>, UtcDateTime)>) -> bool {
    forall|i: int| 0 <= i < m.len() ==> (#[trigger] m[i]).1.wf()
}

impl StampMap {
    pub fn new() -> (r: StampMap)
        ensures
            r@ == Seq::<(Seq<char>, UtcDateTime)>::empty(),
            stamps_wf(r@),
    {
        let r = StampMap { entries: Vec::new() };
        assert(r@ =~= Seq::<(Seq<char>, UtcDateTime)>::empty());
        r
    }

    pub fn find(&self, k: &[char]) -> (r: Option<usize>)
        ensures
            r matches Some(i) ==> key_pos(self@, k@) == i && i < self@.len(),
            r is None ==> key_pos(self@, k@) == -1,
    {
        let mut i: usize = 0;
        while i < self.entries.len()
            invariant
                i <= self@.len(),
                self@.len() == self.entries@.len(),
                key_pos_from(self@, k@, i as int) == key_pos(self@, k@),
            decreases self@.len() - i,
        {
            if chars_equal(self.entries[i].0.as_slice(), k) {
                return Some(i);
            }
            i = i + 1;
        }
        None
    }

    pub fn get(&self, k: &[char]) -> (r: Option<UtcDateTime>)
        ensures
            r == assoc_get(self@, k@),
            stamps_wf(self@) ==> (r matches Some(t) ==> t.wf()),
    {
        match self.find(k) {
            Some(i) => Some(self.entries[i].1),
            None => None,
        }
    }

    pub fn put(&mut self, k: &[char], v: UtcDateTime)
        ensures
            final(self)@ == assoc_put(old(self)@, k@, v),
            stamps_wf(old(self)@) && v.wf() ==> stamps_wf(final(self)@),
    {
        let kv = vstd::slice::slice_to_vec(k);
        match self.find(k) {
            Some(i) => {
                self.entries.set(i, (kv, v));
            },
            None => {
                self.entries.push((kv, v));
            },
        }
        assert(self@ =~= assoc_put(old(self)@, k@, v));
    }

    pub fn clear(&mut self)
        ensures
            final(self)@ == Seq::<(Seq<char>, UtcDateTime)>::empty(),
            stamps_wf(final(self)@),
    {
        self.entries = Vec::new();
        assert(self@ =~= Seq::<(Seq<char>, UtcDateTime)>::empty());
    }
}

} // verus!

verus! {

/// A key that occurs in a list is found in it.
pub proof fn lemma_listed_key_found<V>(m: Seq<(Seq<char>, V)>, k: Seq<char>, i: int)
    requires
        0 <= i < m.len(),
        m[i].0 == k,
    ensures
        key_pos(m, k) >= 0,
        assoc_get(m, k) is Some,
{
    lemma_listed_from(m, k, i, 0);
}

proof fn lemma_listed_from<V>(m: Seq<(Seq<char>, V)>, k: Seq<char>, i: int, from: int)
    requires
        0 <= from <= i < m.len(),
        m[i].0 == k,
    ensures
        key_pos_from(m, k, from) >= 0,
    decreases i - from,
{
    if m[from].0 != k {
        lemma_listed_from(m, k, i, from + 1);
    }
}

} // verus!
