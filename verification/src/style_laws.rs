use vstd::prelude::*;
use crate::style_stack::{entries_of, pop_each, pop_seq, StyleEntry, StyleKey, StyleStackView};

verus! {

/// Number of occurrences of `k` in `ids`.
pub open spec fn count_key(ids: Seq<StyleKey>, k: StyleKey) -> nat
    decreases ids.len(),
{
    if ids.len() == 0 {
        0
    } else {
        count_key(ids.drop_last(), k) + if ids.last() == k { 1nat } else { 0nat }
    }
}

/// The entries of a bundle for key `k`, in order.
pub open spec fn entries_for<V>(b: Seq<(StyleKey, StyleEntry<V>)>, k: StyleKey) -> Seq<StyleEntry<V>>
    decreases b.len(),
{
    if b.len() == 0 {
        Seq::empty()
    } else if b.last().0 == k {
        entries_for(b.drop_last(), k).push(b.last().1)
    } else {
        entries_for(b.drop_last(), k)
    }
}

/// The keys of a bundle, in order.
pub open spec fn keys_of<V>(b: Seq<(StyleKey, StyleEntry<V>)>) -> Seq<StyleKey> {
    b.map_values(|e: (StyleKey, StyleEntry<V>)| e.0)
}

/// `s` without its last `n` elements (empty when it has fewer).
pub open spec fn truncate<T>(s: Seq<T>, n: nat) -> Seq<T> {
    if n >= s.len() {
        Seq::empty()
    } else {
        s.take(s.len() - n)
    }
}

proof fn lemma_pop_each_entries<V>(m: Map<StyleKey, Seq<StyleEntry<V>>>, ids: Seq<StyleKey>, k: StyleKey)
    ensures
        entries_of(pop_each(m, ids), k) == truncate(entries_of(m, k), count_key(ids, k)),
    decreases ids.len(),
{
    if ids.len() == 0 {
        assert(entries_of(m, k).take(entries_of(m, k).len() as int) =~= entries_of(m, k));
    } else {
        lemma_pop_each_entries(m, ids.drop_last(), k);
        let prev = pop_each(m, ids.drop_last());
        let e = entries_of(m, k);
        let c = count_key(ids.drop_last(), k);
        if ids.last() == k {
            if prev.contains_key(k) {
                if c + 1 >= e.len() {
                    assert(pop_seq(truncate(e, c)) =~= truncate(e, c + 1));
                } else {
                    assert(pop_seq(truncate(e, c)) =~= truncate(e, c + 1));
                }
            } else {
                assert(truncate(e, c) =~= Seq::<StyleEntry<V>>::empty());
                assert(truncate(e, c + 1) =~= Seq::<StyleEntry<V>>::empty());
            }
        }
    }
}

proof fn lemma_insert_all_shape<V>(v: StyleStackView<V>, b: Seq<(StyleKey, StyleEntry<V>)>, k: StyleKey)
    ensures
        v.push_frame().insert_all(b).frames == v.frames.push(keys_of(b)),
        entries_of(v.push_frame().insert_all(b).styles, k) == entries_of(v.styles, k) + entries_for(b, k),
        count_key(keys_of(b), k) == entries_for(b, k).len(),
    decreases b.len(),
{
    if b.len() == 0 {
        assert(keys_of(b) =~= Seq::<StyleKey>::empty());
        assert(v.frames.push(Seq::<StyleKey>::empty()) =~= v.push_frame().frames);
        assert(entries_of(v.styles, k) + Seq::<StyleEntry<V>>::empty() =~= entries_of(v.styles, k));
    } else {
        lemma_insert_all_shape(v, b.drop_last(), k);
        let w = v.push_frame().insert_all(b.drop_last());
        assert(keys_of(b).drop_last() =~= keys_of(b.drop_last()));
        assert(keys_of(b).last() == b.last().0);
        assert(w.frames.len() > 0);
        assert(keys_of(b.drop_last()).push(b.last().0) =~= keys_of(b));
        assert(w.frames.last() == keys_of(b.drop_last()));
        assert(w.insert(b.last().0, b.last().1).frames =~= v.frames.push(keys_of(b)));
        if b.last().0 == k {
            assert(entries_of(v.styles, k) + entries_for(b, k) =~= (entries_of(v.styles, k) + entries_for(
                b.drop_last(),
                k,
            )).push(b.last().1));
        }
    }
}

/// Styles added in a stack frame stay only until the frame is popped: pushing a frame, adding any entries (styles
/// or hidings), then popping the frame gives back the same visible style for every key, and the same frames.
pub proof fn lemma_pop_restores_styles<V>(v: StyleStackView<V>, b: Seq<(StyleKey, StyleEntry<V>)>, k: StyleKey)
    ensures
        v.push_frame().insert_all(b).pop_frame().get(k) == v.get(k),
        v.push_frame().insert_all(b).pop_frame().frames == v.frames,
{
    lemma_insert_all_shape(v, b, k);
    let w = v.push_frame().insert_all(b);
    assert(w.frames.last() == keys_of(b));
    assert(w.frames.drop_last() =~= v.frames);
    lemma_pop_each_entries(w.styles, keys_of(b), k);
    let e0 = entries_of(v.styles, k);
    let extra = entries_for(b, k);
    assert(truncate(e0 + extra, extra.len()) =~= e0) by {
        if extra.len() >= (e0 + extra).len() {
            assert(e0.len() == 0);
        }
    }
}

/// The latest entry for a style is the visible one: after adding a style entry, `get` returns it.
pub proof fn lemma_get_after_insert<V>(v: StyleStackView<V>, k: StyleKey, entry: StyleEntry<V>)
    ensures
        v.insert(k, entry).get(k) == entry,
{
}

proof fn lemma_insert_all_entries<V>(v: StyleStackView<V>, b: Seq<(StyleKey, StyleEntry<V>)>, k: StyleKey)
    ensures
        entries_of(v.insert_all(b).styles, k) == entries_of(v.styles, k) + entries_for(b, k),
    decreases b.len(),
{
    if b.len() == 0 {
        assert(entries_of(v.styles, k) + Seq::<StyleEntry<V>>::empty() =~= entries_of(v.styles, k));
    } else {
        lemma_insert_all_entries(v, b.drop_last(), k);
        if b.last().0 == k {
            assert(entries_of(v.styles, k) + entries_for(b, k) =~= (entries_of(v.styles, k) + entries_for(
                b.drop_last(),
                k,
            )).push(b.last().1));
        }
    }
}

/// Within a bundle, the last entry for a style wins: after adding a bundle, the visible style is the bundle's last
/// entry for it, or the one visible before if the bundle has none.
pub proof fn lemma_bundle_last_wins<V>(v: StyleStackView<V>, b: Seq<(StyleKey, StyleEntry<V>)>, k: StyleKey)
    ensures
        v.insert_all(b).get(k) == (if entries_for(b, k).len() > 0 {
            entries_for(b, k).last()
        } else {
            v.get(k)
        }),
{
    lemma_insert_all_entries(v, b, k);
    if entries_for(b, k).len() == 0 {
        assert(entries_of(v.styles, k) + entries_for(b, k) =~= entries_of(v.styles, k));
    }
}

/// A balanced sequence of style stack operations: entries added to the current frame, and nested frames that are
/// pushed, filled and popped again.
pub enum StyleProgram<V> {
    /// Nothing more.
    Done,
    /// Add an entry (a style, or `None` to hide the style), then run the rest.
    Add(StyleKey, StyleEntry<V>, Box<StyleProgram<V>>),
    /// Push a frame, run the inner program, pop the frame, then run the rest.
    Frame(Box<StyleProgram<V>>, Box<StyleProgram<V>>),
}

/// The view after running a program.
pub open spec fn run_program<V>(v: StyleStackView<V>, p: StyleProgram<V>) -> StyleStackView<V>
    decreases p,
{
    match p {
        StyleProgram::Done => v,
        StyleProgram::Add(k, e, rest) => run_program(v.insert(k, e), *rest),
        StyleProgram::Frame(inner, rest) => run_program(run_program(v.push_frame(), *inner).pop_frame(), *rest),
    }
}

/// The entries a program adds to the frame it starts in (not those of its nested frames), in order.
pub open spec fn top_entries<V>(p: StyleProgram<V>) -> Seq<(StyleKey, StyleEntry<V>)>
    decreases p,
{
    match p {
        StyleProgram::Done => Seq::empty(),
        StyleProgram::Add(k, e, rest) => seq![(k, e)] + top_entries(*rest),
        StyleProgram::Frame(inner, rest) => top_entries(*rest),
    }
}

/// Two views with the same frames and the same entries for every style.
pub open spec fn same_styles<V>(a: StyleStackView<V>, b: StyleStackView<V>) -> bool {
    &&& a.frames == b.frames
    &&& forall|k: StyleKey| #[trigger] entries_of(a.styles, k) == entries_of(b.styles, k)
}

proof fn lemma_same_styles_trans<V>(a: StyleStackView<V>, b: StyleStackView<V>, c: StyleStackView<V>)
    requires
        same_styles(a, b),
        same_styles(b, c),
    ensures
        same_styles(a, c),
{
    assert forall|k: StyleKey| #[trigger] entries_of(a.styles, k) == entries_of(c.styles, k) by {
        assert(entries_of(a.styles, k) == entries_of(b.styles, k));
    }
}

proof fn lemma_same_styles_ops<V>(a: StyleStackView<V>, b: StyleStackView<V>, k: StyleKey, e: StyleEntry<V>)
    requires
        same_styles(a, b),
    ensures
        same_styles(a.insert(k, e), b.insert(k, e)),
        same_styles(a.push_frame(), b.push_frame()),
        same_styles(a.pop_frame(), b.pop_frame()),
{
    assert forall|j: StyleKey| #[trigger] entries_of(a.insert(k, e).styles, j) == entries_of(b.insert(k, e).styles, j) by {
        assert(entries_of(a.styles, j) == entries_of(b.styles, j));
        assert(entries_of(a.styles, k) == entries_of(b.styles, k));
    }
    if a.frames.len() > 0 {
        assert forall|j: StyleKey| #[trigger] entries_of(a.pop_frame().styles, j) == entries_of(
            b.pop_frame().styles,
            j,
        ) by {
            lemma_pop_each_entries(a.styles, a.frames.last(), j);
            lemma_pop_each_entries(b.styles, b.frames.last(), j);
            assert(entries_of(a.styles, j) == entries_of(b.styles, j));
        }
    }
}

proof fn lemma_run_same_styles<V>(a: StyleStackView<V>, b: StyleStackView<V>, p: StyleProgram<V>)
    requires
        same_styles(a, b),
    ensures
        same_styles(run_program(a, p), run_program(b, p)),
    decreases p,
{
    match p {
        StyleProgram::Done => {},
        StyleProgram::Add(k, e, rest) => {
            lemma_same_styles_ops(a, b, k, e);
            lemma_run_same_styles(a.insert(k, e), b.insert(k, e), *rest);
        },
        StyleProgram::Frame(inner, rest) => {
            lemma_same_styles_ops(a, b, 0, None);
            lemma_run_same_styles(a.push_frame(), b.push_frame(), *inner);
            let x = run_program(a.push_frame(), *inner);
            let y = run_program(b.push_frame(), *inner);
            lemma_same_styles_ops(x, y, 0, None);
            lemma_run_same_styles(x.pop_frame(), y.pop_frame(), *rest);
        },
    }
}

proof fn lemma_insert_all_cons<V>(w: StyleStackView<V>, x: (StyleKey, StyleEntry<V>), b: Seq<(StyleKey, StyleEntry<V>)>)
    ensures
        w.insert_all(seq![x] + b) == w.insert(x.0, x.1).insert_all(b),
    decreases b.len(),
{
    if b.len() == 0 {
        let e = Seq::<(StyleKey, StyleEntry<V>)>::empty();
        assert((seq![x] + b).drop_last() =~= e);
        assert((seq![x] + b).last() == x);
        assert(w.insert_all(e) == w);
        assert(b =~= e);
        assert(w.insert(x.0, x.1).insert_all(e) == w.insert(x.0, x.1));
    } else {
        assert((seq![x] + b).drop_last() =~= seq![x] + b.drop_last());
        assert((seq![x] + b).last() == b.last());
        lemma_insert_all_cons(w, x, b.drop_last());
    }
}

proof fn lemma_frame_restores_entries<V>(v: StyleStackView<V>, b: Seq<(StyleKey, StyleEntry<V>)>)
    ensures
        same_styles(v.push_frame().insert_all(b).pop_frame(), v),
{
    let w = v.push_frame().insert_all(b);
    assert forall|k: StyleKey| #[trigger] entries_of(w.pop_frame().styles, k) == entries_of(v.styles, k) by {
        lemma_insert_all_shape(v, b, k);
        assert(w.frames.last() == keys_of(b));
        lemma_pop_each_entries(w.styles, keys_of(b), k);
        let e0 = entries_of(v.styles, k);
        let extra = entries_for(b, k);
        assert(truncate(e0 + extra, extra.len()) =~= e0) by {
            if extra.len() >= (e0 + extra).len() {
                assert(e0.len() == 0);
            }
        }
    }
    lemma_insert_all_shape(v, b, 0);
    assert(w.frames.drop_last() =~= v.frames);
}

proof fn lemma_program_is_bundle<V>(w: StyleStackView<V>, p: StyleProgram<V>)
    ensures
        same_styles(run_program(w, p), w.insert_all(top_entries(p))),
    decreases p,
{
    match p {
        StyleProgram::Done => {},
        StyleProgram::Add(k, e, rest) => {
            lemma_program_is_bundle(w.insert(k, e), *rest);
            lemma_insert_all_cons(w, (k, e), top_entries(*rest));
        },
        StyleProgram::Frame(inner, rest) => {
            let x = run_program(w.push_frame(), *inner);
            let y = w.push_frame().insert_all(top_entries(*inner));
            lemma_program_is_bundle(w.push_frame(), *inner);
            lemma_same_styles_ops(x, y, 0, None);
            lemma_frame_restores_entries(w, top_entries(*inner));
            lemma_same_styles_trans(x.pop_frame(), y.pop_frame(), w);
            lemma_run_same_styles(x.pop_frame(), w, *rest);
            lemma_program_is_bundle(w, *rest);
            lemma_same_styles_trans(run_program(x.pop_frame(), *rest), run_program(w, *rest), w.insert_all(
                top_entries(*rest),
            ));
        },
    }
}

/// Nested frames are undone by their pops: pushing a frame, running any balanced program in it (entries, hidings
/// and nested frames that are pushed and popped), then popping the frame gives back the same visible style for
/// every key, and the same frames.
pub proof fn lemma_nested_frames_restore<V>(v: StyleStackView<V>, p: StyleProgram<V>)
    ensures
        run_program(v.push_frame(), p).pop_frame().frames == v.frames,
        forall|k: StyleKey| #[trigger] run_program(v.push_frame(), p).pop_frame().get(k) == v.get(k),
{
    let x = run_program(v.push_frame(), p);
    let y = v.push_frame().insert_all(top_entries(p));
    lemma_program_is_bundle(v.push_frame(), p);
    lemma_same_styles_ops(x, y, 0, None);
    lemma_frame_restores_entries(v, top_entries(p));
    lemma_same_styles_trans(x.pop_frame(), y.pop_frame(), v);
    assert forall|k: StyleKey| #[trigger] x.pop_frame().get(k) == v.get(k) by {
        assert(entries_of(x.pop_frame().styles, k) == entries_of(v.styles, k));
    }
}

} // verus!
