use crate::values::Value;
use vstd::prelude::*;

verus! {

/// Looks a key up among ordered entries: the value of the first entry whose
/// key has the given characters.
pub open spec fn lookup(s: Seq<(String, Value)>, k: Seq<char>) -> Option<Value>
    decreases s.len(),
{
    if s.len() == 0 {
        None
    } else if s[0].0@ == k {
        Some(s[0].1)
    } else {
        lookup(s.drop_first(), k)
    }
}

/// Inserts into ordered entries: an existing key keeps its place and its key
/// string and takes the new value, a new key is appended at the end.
pub open spec fn insert_entry(s: Seq<(String, Value)>, k: String, v: Value) -> Seq<(String, Value)>
    decreases s.len(),
{
    if s.len() == 0 {
        seq![(k, v)]
    } else if s[0].0@ == k@ {
        seq![(s[0].0, v)].add(s.drop_first())
    } else {
        seq![s[0]].add(insert_entry(s.drop_first(), k, v))
    }
}

/// Removes the first entry whose key has the given characters, if any.
pub open spec fn remove_entry(s: Seq<(String, Value)>, k: Seq<char>) -> Seq<(String, Value)>
    decreases s.len(),
{
    if s.len() == 0 {
        s
    } else if s[0].0@ == k {
        s.drop_first()
    } else {
        seq![s[0]].add(remove_entry(s.drop_first(), k))
    }
}

/// Every key occurs at most once.
pub open spec fn entries_wf(s: Seq<(String, Value)>) -> bool {
    forall|i: int, j: int| 0 <= i < j < s.len() ==> s[i].0@ != s[j].0@
}

/// An insertion-ordered string-to-value mapping with unique keys: the shape
/// in which a call site's keyword arguments reach the binding algorithm, and
/// in which a keyword-spread parameter captures what is left of them.
#[derive(Debug)]
pub struct Dict {
    entries: Vec<(String, Value)>,
}

impl View for Dict {
    type V = Seq<(String, Value)>;

    closed spec fn view(&self) -> Seq<(String, Value)> {
        self.entries@
    }
}

proof fn lemma_lookup_at(s: Seq<(String, Value)>, k: Seq<char>, i: int)
    requires
        0 <= i < s.len(),
        s[i].0@ == k,
        forall|j: int| 0 <= j < i ==> s[j].0@ != k,
    ensures
        lookup(s, k) == Some(s[i].1),
    decreases i,
{
    if i > 0 {
        lemma_lookup_at(s.drop_first(), k, i - 1);
    }
}

proof fn lemma_lookup_none(s: Seq<(String, Value)>, k: Seq<char>)
    requires
        forall|j: int| 0 <= j < s.len() ==> s[j].0@ != k,
    ensures
        lookup(s, k) is None,
        remove_entry(s, k) == s,
    decreases s.len(),
{
    if s.len() > 0 {
        lemma_lookup_none(s.drop_first(), k);
        assert(remove_entry(s, k) =~= s);
    }
}

/// A mapping's entries stand below it in the well-founded order recursion
/// descends by.
pub proof fn lemma_dict_view_decreases(d: &Dict)
    ensures
        decreases_to!(*d => d@),
{
    broadcast use vstd::std_specs::vec::group_vec_axioms;

    assert(decreases_to!(*d => d.entries));
    assert(decreases_to!(d.entries => d.entries@));
}

/// Removing an absent key changes nothing.
pub proof fn lemma_remove_absent(s: Seq<(String, Value)>, k: Seq<char>)
    requires
        lookup(s, k) is None,
    ensures
        remove_entry(s, k) == s,
    decreases s.len(),
{
    if s.len() > 0 {
        lemma_remove_absent(s.drop_first(), k);
        assert(remove_entry(s, k) =~= s);
    }
}

proof fn lemma_insert_at(s: Seq<(String, Value)>, k: String, v: Value, i: int)
    requires
        0 <= i < s.len(),
        s[i].0@ == k@,
        forall|j: int| 0 <= j < i ==> s[j].0@ != k@,
    ensures
        insert_entry(s, k, v) == s.update(i, (s[i].0, v)),
    decreases i,
{
    if i == 0 {
        assert(insert_entry(s, k, v) =~= s.update(0, (s[0].0, v)));
    } else {
        lemma_insert_at(s.drop_first(), k, v, i - 1);
        assert(insert_entry(s, k, v) =~= s.update(i, (s[i].0, v)));
    }
}

proof fn lemma_insert_absent(s: Seq<(String, Value)>, k: String, v: Value)
    requires
        forall|j: int| 0 <= j < s.len() ==> s[j].0@ != k@,
    ensures
        insert_entry(s, k, v) == s.push((k, v)),
    decreases s.len(),
{
    if s.len() == 0 {
        assert(insert_entry(s, k, v) =~= s.push((k, v)));
    } else {
        lemma_insert_absent(s.drop_first(), k, v);
        assert(insert_entry(s, k, v) =~= s.push((k, v)));
    }
}

proof fn lemma_remove_at(s: Seq<(String, Value)>, k: Seq<char>, i: int)
    requires
        0 <= i < s.len(),
        s[i].0@ == k,
        forall|j: int| 0 <= j < i ==> s[j].0@ != k,
    ensures
        remove_entry(s, k) == s.remove(i),
    decreases i,
{
    if i == 0 {
        assert(remove_entry(s, k) =~= s.remove(0));
    } else {
        lemma_remove_at(s.drop_first(), k, i - 1);
        assert(remove_entry(s, k) =~= s.remove(i));
    }
}

proof fn lemma_wf_remove(s: Seq<(String, Value)>, i: int)
    requires
        entries_wf(s),
        0 <= i < s.len(),
    ensures
        entries_wf(s.remove(i)),
{
    let t = s.remove(i);
    assert forall|a: int, b: int| 0 <= a < b < t.len() implies t[a].0@ != t[b].0@ by {
        let a0 = if a < i { a } else { a + 1 };
        let b0 = if b < i { b } else { b + 1 };
        assert(t[a] == s[a0]);
        assert(t[b] == s[b0]);
    }
}

impl Dict {
    /// Unique keys, the invariant every constructor establishes and every
    /// method preserves.
    pub open spec fn wf(&self) -> bool {
        entries_wf(self@)
    }

    /// The empty mapping.
    pub fn new() -> (d: Dict)
        ensures
            d@ == Seq::<(String, Value)>::empty(),
            d.wf(),
    {
        Dict { entries: Vec::new() }
    }

    /// The index of the first entry with this key.
    fn find(&self, k: &String) -> (r: Option<usize>)
        ensures
            match r {
                Some(i) => i < self@.len() && self@[i as int].0@ == k@ && (forall|j: int|
                    0 <= j < i ==> self@[j].0@ != k@),
                None => forall|j: int| 0 <= j < self@.len() ==> self@[j].0@ != k@,
            },
    {
        let mut i: usize = 0;
        while i < self.entries.len()
            invariant
                i <= self@.len(),
                forall|j: int| 0 <= j < i ==> self@[j].0@ != k@,
            decreases self@.len() - i,
        {
            if self.entries[i].0 == *k {
                return Some(i);
            }
            i = i + 1;
        }
        None
    }

    /// Inserts a value under a key: an existing key keeps its place in the
    /// order and takes the new value, a new key goes to the end.
    pub fn insert(&mut self, k: String, v: Value)
        requires
            old(self).wf(),
        ensures
            final(self).wf(),
            final(self)@ == insert_entry(old(self)@, k, v),
    {
        match self.find(&k) {
            Some(i) => {
                proof {
                    lemma_insert_at(self@, k, v, i as int);
                }
                let pair = self.entries.remove(i);
                self.entries.insert(i, (pair.0, v));
                proof {
                    assert(self@ =~= old(self)@.update(i as int, (old(self)@[i as int].0, v)));
                }
            },
            None => {
                proof {
                    lemma_insert_absent(self@, k, v);
                }
                self.entries.push((k, v));
            },
        }
    }

    /// Removes a key and hands its value back; the mapping is unchanged when
    /// the key is absent.
    pub fn remove(&mut self, k: &String) -> (r: Option<Value>)
        requires
            old(self).wf(),
        ensures
            final(self).wf(),
            r == lookup(old(self)@, k@),
            final(self)@ == remove_entry(old(self)@, k@),
    {
        match self.find(k) {
            Some(i) => {
                proof {
                    lemma_lookup_at(self@, k@, i as int);
                    lemma_remove_at(self@, k@, i as int);
                    lemma_wf_remove(self@, i as int);
                }
                let pair = self.entries.remove(i);
                Some(pair.1)
            },
            None => {
                proof {
                    lemma_lookup_none(self@, k@);
                }
                None
            },
        }
    }

    /// The value stored under a key, if any.
    pub fn get(&self, k: &String) -> (r: Option<&Value>)
        ensures
            match r {
                Some(v) => lookup(self@, k@) == Some(*v),
                None => lookup(self@, k@) is None,
            },
    {
        match self.find(k) {
            Some(i) => {
                proof {
                    lemma_lookup_at(self@, k@, i as int);
                }
                Some(&self.entries[i].1)
            },
            None => {
                proof {
                    lemma_lookup_none(self@, k@);
                }
                None
            },
        }
    }

    pub fn len(&self) -> (r: usize)
        ensures
            r == self@.len(),
    {
        self.entries.len()
    }

    pub fn is_empty(&self) -> (r: bool)
        ensures
            r == (self@.len() == 0),
    {
        self.entries.len() == 0
    }

    /// The entry at a position of the insertion order.
    pub fn entry_at(&self, i: usize) -> (r: &(String, Value))
        requires
            i < self@.len(),
        ensures
            *r == self@[i as int],
    {
        &self.entries[i]
    }

    /// The keys, in order, each as a string value.
    pub fn key_values(&self) -> (r: Vec<Value>)
        ensures
            r@.len() == self@.len(),
            forall|i: int| 0 <= i < r@.len() ==> r@[i] == Value::Str(self@[i].0),
    {
        let mut r: Vec<Value> = Vec::new();
        let mut i: usize = 0;
        while i < self.entries.len()
            invariant
                i <= self@.len(),
                r@.len() == i,
                forall|j: int| 0 <= j < i ==> r@[j] == Value::Str(self@[j].0),
            decreases self@.len() - i,
        {
            r.push(Value::Str(self.entries[i].0.clone()));
            i = i + 1;
        }
        r
    }

    /// Gives the entries up, in order.
    pub fn into_entries(self) -> (r: Vec<(String, Value)>)
        ensures
            r@ == self@,
    {
        self.entries
    }
}

} // verus!
