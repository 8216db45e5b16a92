use vstd::prelude::*;
use std::collections::HashMap;
use crate::ids::CallbackId;

verus! {

broadcast use vstd::std_specs::hash::group_hash_axioms;

/// `s` with its first occurrence of `x` removed (unchanged when `x` does not occur).
pub open spec fn remove_first(s: Seq<CallbackId>, x: CallbackId) -> Seq<CallbackId>
    decreases s.len(),
{
    if s.len() == 0 {
        s
    } else if s[0] == x {
        s.drop_first()
    } else {
        seq![s[0]] + remove_first(s.drop_first(), x)
    }
}

/// Removing the first occurrence at index `i` is `remove(i)`.
pub proof fn lemma_remove_first_at(s: Seq<CallbackId>, x: CallbackId, i: int)
    requires
        0 <= i < s.len(),
        s[i] == x,
        forall|j: int| 0 <= j < i ==> s[j] != x,
    ensures
        remove_first(s, x) == s.remove(i),
    decreases i,
{
    if i == 0 {
        assert(s.drop_first() =~= s.remove(0));
    } else {
        lemma_remove_first_at(s.drop_first(), x, i - 1);
        assert(seq![s[0]] + s.drop_first().remove(i - 1) =~= s.remove(i));
    }
}

/// Removing an absent element changes nothing.
pub proof fn lemma_remove_first_absent(s: Seq<CallbackId>, x: CallbackId)
    requires
        !s.contains(x),
    ensures
        remove_first(s, x) == s,
    decreases s.len(),
{
    if s.len() > 0 {
        assert(!s.drop_first().contains(x)) by {
            if s.drop_first().contains(x) {
                let k = choose|k: int| 0 <= k < s.drop_first().len() && s.drop_first()[k] == x;
                assert(s[k + 1] == x);
            }
        }
        lemma_remove_first_absent(s.drop_first(), x);
        assert(seq![s[0]] + s.drop_first() =~= s);
    }
}

/// Removing the first occurrence of an element just pushed onto a list that lacks it gives the list back.
pub proof fn lemma_remove_first_pushed(s: Seq<CallbackId>, x: CallbackId)
    requires
        !s.contains(x),
    ensures
        remove_first(s.push(x), x) == s,
{
    lemma_remove_first_at(s.push(x), x, s.len() as int);
    assert(s.push(x).remove(s.len() as int) =~= s);
}

/// Index of the first occurrence of `x` in `v`, if any.
pub fn find_first(v: &Vec<CallbackId>, x: CallbackId) -> (res: Option<usize>)
    ensures
        match res {
            Some(i) => i < v@.len() && v@[i as int] == x && forall|j: int| 0 <= j < i ==> v@[j] != x,
            None => !v@.contains(x),
        },
{
    let mut i: usize = 0;
    while i < v.len()
        invariant
            0 <= i <= v.len(),
            forall|j: int| 0 <= j < i ==> v@[j] != x,
        decreases v.len() - i,
    {
        if v[i] == x {
            return Some(i);
        }
        i = i + 1;
    }
    None
}

/// Remove the first occurrence of `x` from `v`.
pub fn vec_remove_first(v: &mut Vec<CallbackId>, x: CallbackId)
    ensures
        final(v)@ == remove_first(old(v)@, x),
{
    match find_first(v, x) {
        Some(i) => {
            proof {
                lemma_remove_first_at(v@, x, i as int);
            }
            v.remove(i);
        },
        None => {
            proof {
                lemma_remove_first_absent(v@, x);
            }
        },
    }
}

/// The lists stored in a map of callback lists: no key maps to an empty list.
pub open spec fn no_empty_lists(m: Map<u64, Seq<CallbackId>>) -> bool {
    forall|k: u64| #[trigger] m.contains_key(k) ==> m[k].len() > 0
}

/// The list of `k` (empty when absent).
pub open spec fn list_of(m: Map<u64, Seq<CallbackId>>, k: u64) -> Seq<CallbackId> {
    if m.contains_key(k) {
        m[k]
    } else {
        Seq::empty()
    }
}

/// `m` after pushing `cb` onto the list of `k`.
pub open spec fn spec_push(m: Map<u64, Seq<CallbackId>>, k: u64, cb: CallbackId) -> Map<u64, Seq<CallbackId>> {
    m.insert(k, list_of(m, k).push(cb))
}

/// `m` after removing the first occurrence of `cb` from the list of `k`, dropping the key if its list empties.
pub open spec fn spec_revoke(m: Map<u64, Seq<CallbackId>>, k: u64, cb: CallbackId) -> Map<u64, Seq<CallbackId>> {
    if !m.contains_key(k) {
        m
    } else if remove_first(m[k], cb).len() == 0 {
        m.remove(k)
    } else {
        m.insert(k, remove_first(m[k], cb))
    }
}

/// Ordered callback lists keyed by an integer (a type key or an entity).
pub struct CallbackLists {
    lists: HashMap<u64, Vec<CallbackId>>,
}

impl View for CallbackLists {
    type V = Map<u64, Seq<CallbackId>>;

    closed spec fn view(&self) -> Map<u64, Seq<CallbackId>> {
        self.lists@.map_values(|v: Vec<CallbackId>| v@)
    }
}

impl CallbackLists {
    /// No key maps to an empty list.
    pub open spec fn wf(&self) -> bool {
        no_empty_lists(self@)
    }

    /// Empty lists.
    pub fn new() -> (res: Self)
        ensures
            res@ == Map::<u64, Seq<CallbackId>>::empty(),
            res.wf(),
    {
        let res = CallbackLists { lists: HashMap::new() };
        assert(res@ =~= Map::<u64, Seq<CallbackId>>::empty());
        res
    }

    /// Whether no key has a list.
    pub fn is_empty(&self) -> (res: bool)
        ensures
            res == (self@.dom() =~= Set::<u64>::empty()),
    {
        let r = self.lists.is_empty();
        assert(self@.dom() =~= self.lists@.dom());
        r
    }

    /// Append `cb` to the list of `key`.
    pub fn push(&mut self, key: u64, cb: CallbackId)
        requires
            old(self).wf(),
        ensures
            final(self).wf(),
            final(self)@ == spec_push(old(self)@, key, cb),
    {
        let mut list = match self.lists.remove(&key) {
            Some(v) => v,
            None => Vec::new(),
        };
        list.push(cb);
        self.lists.insert(key, list);
        assert(self@ =~= spec_push(old(self)@, key, cb));
    }

    /// Remove the first occurrence of `cb` from the list of `key`; the key is dropped if its list becomes empty.
    pub fn revoke(&mut self, key: u64, cb: CallbackId)
        requires
            old(self).wf(),
        ensures
            final(self).wf(),
            final(self)@ == spec_revoke(old(self)@, key, cb),
    {
        match self.lists.remove(&key) {
            Some(mut list) => {
                vec_remove_first(&mut list, cb);
                if list.len() > 0 {
                    self.lists.insert(key, list);
                }
                assert(self@ =~= spec_revoke(old(self)@, key, cb));
            },
            None => {
                assert(self@ =~= old(self)@);
            },
        }
    }

    /// A copy of the list of `key` (empty when absent).
    pub fn get(&self, key: u64) -> (res: Vec<CallbackId>)
        ensures
            res@ == list_of(self@, key),
    {
        match self.lists.get(&key) {
            Some(v) => v.clone(),
            None => Vec::new(),
        }
    }

    /// Remove the list of `key` and return it (empty when absent).
    pub fn take(&mut self, key: u64) -> (res: Vec<CallbackId>)
        requires
            old(self).wf(),
        ensures
            final(self).wf(),
            res@ == list_of(old(self)@, key),
            final(self)@ == old(self)@.remove(key),
    {
        let r = match self.lists.remove(&key) {
            Some(v) => v,
            None => Vec::new(),
        };
        assert(self@ =~= old(self)@.remove(key));
        r
    }
}

} // verus!
