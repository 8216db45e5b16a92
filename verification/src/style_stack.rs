use vstd::prelude::*;
use std::collections::HashMap;
use std::sync::Arc;

verus! {

broadcast use vstd::std_specs::hash::group_hash_axioms;

/// Key that stands for a style type, assigned by the code that owns the style types.
pub type StyleKey = u64;

/// A style entry: a style value, or `None` for an entry that hides the style.
pub type StyleEntry<V> = Option<Arc<V>>;

/// Abstract view of a style stack.
pub struct StyleStackView<V> {
    /// Per-style stacks of entries, latest last.
    pub styles: Map<StyleKey, Seq<StyleEntry<V>>>,
    /// Stack frames above the implicit root frame: the style keys added in each frame, in order.
    pub frames: Seq<Seq<StyleKey>>,
}

/// The entries of a style (empty when absent).
pub open spec fn entries_of<V>(m: Map<StyleKey, Seq<StyleEntry<V>>>, k: StyleKey) -> Seq<StyleEntry<V>> {
    if m.contains_key(k) {
        m[k]
    } else {
        Seq::empty()
    }
}

/// `s` without its last element (unchanged when empty).
pub open spec fn pop_seq<T>(s: Seq<T>) -> Seq<T> {
    if s.len() == 0 {
        s
    } else {
        s.drop_last()
    }
}

/// The style stacks after popping one entry for each key of `ids`, in order (keys without a stack are skipped).
pub open spec fn pop_each<V>(m: Map<StyleKey, Seq<StyleEntry<V>>>, ids: Seq<StyleKey>) -> Map<
    StyleKey,
    Seq<StyleEntry<V>>,
>
    decreases ids.len(),
{
    if ids.len() == 0 {
        m
    } else {
        let prev = pop_each(m, ids.drop_last());
        let k = ids.last();
        if prev.contains_key(k) {
            prev.insert(k, pop_seq(prev[k]))
        } else {
            prev
        }
    }
}

impl<V> StyleStackView<V> {
    /// The style currently visible for `k`: the latest entry, unless there is none or it hides the style.
    pub open spec fn get(self, k: StyleKey) -> Option<Arc<V>> {
        let e = entries_of(self.styles, k);
        if e.len() == 0 {
            None
        } else {
            e.last()
        }
    }

    /// The view after inserting an entry for `k`: the entry goes on top of the style's stack and, if a frame is
    /// open, is recorded in the top frame.
    pub open spec fn insert(self, k: StyleKey, entry: StyleEntry<V>) -> Self {
        StyleStackView {
            styles: self.styles.insert(k, entries_of(self.styles, k).push(entry)),
            frames: if self.frames.len() > 0 {
                self.frames.update(self.frames.len() - 1, self.frames.last().push(k))
            } else {
                self.frames
            },
        }
    }

    /// The view after pushing an empty frame.
    pub open spec fn push_frame(self) -> Self {
        StyleStackView { frames: self.frames.push(Seq::empty()), ..self }
    }

    /// The view after popping the latest frame and its entries (nothing happens without an open frame).
    pub open spec fn pop_frame(self) -> Self {
        if self.frames.len() == 0 {
            self
        } else {
            StyleStackView { styles: pop_each(self.styles, self.frames.last()), frames: self.frames.drop_last() }
        }
    }

    /// The view after inserting the entries of a bundle, in order.
    pub open spec fn insert_all(self, bundle: Seq<(StyleKey, StyleEntry<V>)>) -> Self
        decreases bundle.len(),
    {
        if bundle.len() == 0 {
            self
        } else {
            self.insert_all(bundle.drop_last()).insert(bundle.last().0, bundle.last().1)
        }
    }

    /// The empty style stack.
    pub open spec fn empty() -> Self {
        StyleStackView { styles: Map::empty(), frames: Seq::empty() }
    }
}

/// Manages a stack of styles.
///
/// The root stack frame is implicit and cannot be popped: styles added there are permanent until `clear`. Styles
/// added in a frame stay active until the frame is popped, and a later entry for a style overrides earlier ones.
pub struct StyleStack<V> {
    styles: HashMap<StyleKey, Vec<StyleEntry<V>>>,
    stack: Vec<Vec<StyleKey>>,
    buffers: Vec<Vec<StyleKey>>,
}

impl<V> View for StyleStack<V> {
    type V = StyleStackView<V>;

    closed spec fn view(&self) -> StyleStackView<V> {
        StyleStackView {
            styles: self.styles@.map_values(|v: Vec<StyleEntry<V>>| v@),
            frames: self.stack@.map_values(|f: Vec<StyleKey>| f@),
        }
    }
}

impl<V> StyleStack<V> {
    /// Cached frame buffers are empty.
    pub closed spec fn wf(&self) -> bool {
        forall|i: int| 0 <= i < self.buffers@.len() ==> (#[trigger] self.buffers@[i])@.len() == 0
    }

    /// An empty style stack.
    pub fn new() -> (res: Self)
        ensures
            res.wf(),
            res@ == StyleStackView::<V>::empty(),
    {
        let res = StyleStack { styles: HashMap::new(), stack: Vec::new(), buffers: Vec::new() };
        assert(res@.styles =~= Map::<StyleKey, Seq<StyleEntry<V>>>::empty());
        assert(res@.frames =~= Seq::<Seq<StyleKey>>::empty());
        res
    }

    /// Add an empty stack frame.
    pub fn push(&mut self)
        requires
            old(self).wf(),
        ensures
            final(self).wf(),
            final(self)@ == old(self)@.push_frame(),
    {
        let frame = match self.buffers.pop() {
            Some(b) => {
                assert(b@ == old(self).buffers@.last()@);
                assert(b@ =~= Seq::<StyleKey>::empty());
                b
            },
            None => Vec::new(),
        };
        assert(frame@ =~= Seq::<StyleKey>::empty());
        assert forall|i: int| 0 <= i < self.buffers@.len() implies (#[trigger] self.buffers@[i])@.len() == 0 by {
            assert(self.buffers@[i] == old(self).buffers@[i]);
        }
        self.stack.push(frame);
        assert(self@.frames =~= old(self)@.frames.push(Seq::empty()));
    }

    /// Remove the latest stack frame and the style entries added in it (nothing without an open frame).
    pub fn pop(&mut self)
        requires
            old(self).wf(),
        ensures
            final(self).wf(),
            final(self)@ == old(self)@.pop_frame(),
    {
        let mut last_frame = match self.stack.pop() {
            Some(f) => f,
            None => {
                return;
            },
        };
        assert(self@.frames =~= old(self)@.frames.drop_last());
        let ghost ids = last_frame@;
        let ghost m0 = old(self)@.styles;
        let mut i: usize = 0;
        while i < last_frame.len()
            invariant
                0 <= i <= last_frame.len(),
                last_frame@ == ids,
                self.wf(),
                self.buffers@ == old(self).buffers@,
                self@.frames == old(self)@.frames.drop_last(),
                self@.styles == pop_each(m0, ids.take(i as int)),
            decreases last_frame.len() - i,
        {
            let k = last_frame[i];
            assert(ids.take(i + 1).drop_last() =~= ids.take(i as int));
            if let Some(mut entries) = self.styles.remove(&k) {
                entries.pop();
                self.styles.insert(k, entries);
            }
            assert(self@.styles =~= pop_each(m0, ids.take(i + 1)));
            assert(self@.frames =~= old(self)@.frames.drop_last());
            i = i + 1;
        }
        assert(ids.take(ids.len() as int) =~= ids);
        last_frame.clear();
        self.buffers.push(last_frame);
        assert forall|j: int| 0 <= j < self.buffers@.len() implies (#[trigger] self.buffers@[j])@.len() == 0 by {
            if j < self.buffers@.len() - 1 {
                assert(self.buffers@[j] == old(self).buffers@[j]);
            }
        }
    }

    /// Clear all contents of the style stack.
    pub fn clear(&mut self)
        ensures
            final(self).wf(),
            final(self)@ == StyleStackView::<V>::empty(),
    {
        *self = StyleStack::new();
    }

    fn insert(&mut self, k: StyleKey, entry: StyleEntry<V>)
        requires
            old(self).wf(),
        ensures
            final(self).wf(),
            final(self)@ == old(self)@.insert(k, entry),
    {
        let mut entries = match self.styles.remove(&k) {
            Some(e) => e,
            None => Vec::new(),
        };
        entries.push(entry);
        self.styles.insert(k, entries);
        let n = self.stack.len();
        if n > 0 {
            let mut top = self.stack.pop().unwrap();
            top.push(k);
            self.stack.push(top);
        }
        assert(self@.styles =~= old(self)@.insert(k, entry).styles);
        assert(self@.frames =~= old(self)@.insert(k, entry).frames);
    }

    /// Add a style bundle (style entries in order) to the top of the current stack frame. When a bundle holds
    /// several entries for the same style, the last one is the visible one.
    pub fn add(&mut self, bundle: Vec<(StyleKey, V)>)
        requires
            old(self).wf(),
        ensures
            final(self).wf(),
            final(self)@ == old(self)@.insert_all(
                bundle@.map_values(|e: (StyleKey, V)| (e.0, Some(Arc::new(e.1)))),
            ),
    {
        let ghost b = bundle@.map_values(|e: (StyleKey, V)| (e.0, Some(Arc::new(e.1))));
        let ghost orig = bundle@;
        for e in it: bundle
            invariant
                self.wf(),
                it.seq() == orig,
                b == orig.map_values(|e: (StyleKey, V)| (e.0, Some(Arc::new(e.1)))),
                self@ == old(self)@.insert_all(b.take(it.index() as int)),
        {
            let ghost i = it.index();
            let (k, v) = e;
            assert(b.take(i + 1).drop_last() =~= b.take(i as int));
            self.insert(k, Some(Arc::new(v)));
        }
        assert(b.take(b.len() as int) =~= b);
    }

    /// Hide a style for the current stack frame: until the frame is popped (or a later entry is added), `get`
    /// returns `None` for it.
    pub fn hide_style(&mut self, k: StyleKey)
        requires
            old(self).wf(),
        ensures
            final(self).wf(),
            final(self)@ == old(self)@.insert(k, None),
    {
        self.insert(k, None);
    }

    /// Get a style from the top of its stack; `None` if it has no entry or is hidden.
    pub fn get(&self, k: StyleKey) -> (res: Option<Arc<V>>)
        ensures
            res == self@.get(k),
    {
        match self.styles.get(&k) {
            Some(entries) => {
                let n = entries.len();
                if n == 0 {
                    None
                } else {
                    match &entries[n - 1] {
                        Some(s) => Some(Arc::clone(s)),
                        None => None,
                    }
                }
            },
            None => None,
        }
    }

    /// Get a clone of a style from the top of its stack; `None` if it has no entry or is hidden.
    pub fn get_clone(&self, k: StyleKey) -> (res: Option<V>)
        where
            V: Clone,
        ensures
            match self@.get(k) {
                Some(s) => res matches Some(c) && cloned(*s, c),
                None => res is None,
            },
    {
        match self.get(k) {
            Some(s) => Some((*s).clone()),
            None => None,
        }
    }

    /// Edit a style and insert the edited version into the current style frame. Returns the edited style, or
    /// `Err(())` (changing nothing) if the style has no entry or is hidden.
    pub fn edit<F: FnOnce(V) -> V>(&mut self, k: StyleKey, editor: F) -> (res: Result<Arc<V>, ()>)
        where
            V: Clone,
        requires
            old(self).wf(),
            forall|v: V| editor.requires((v,)),
        ensures
            final(self).wf(),
            match old(self)@.get(k) {
                None => res is Err && final(self)@ == old(self)@,
                Some(s) => res matches Ok(a) && final(self)@ == old(self)@.insert(k, Some(a)) && exists|c: V|
                    cloned(*s, c) && editor.ensures((c,), *a),
            },
    {
        let style = match self.get_clone(k) {
            Some(s) => s,
            None => {
                return Err(());
            },
        };
        let ghost c = style;
        let edited = editor(style);
        let a = Arc::new(edited);
        self.insert(k, Some(Arc::clone(&a)));
        Ok(a)
    }
}

} // verus!
