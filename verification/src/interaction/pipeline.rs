use vstd::prelude::*;
pub use crate::ids::EntityId;

verus! {

/// What an interaction source reports for one tick, with the element it targets.
#[derive(Debug, Copy, Clone, PartialEq, Eq, Structural)]
pub struct InteractionSourceInfoPack {
    pub just_clicked: bool,
    pub is_clicked: bool,
    pub just_unclicked: bool,
    /// The targeted element itself (not only its press home zone) is under the cursor.
    pub target_is_hovered: bool,
    /// The topmost element under the cursor: a pressed element whose press home zone is hit wins over
    /// unpressed elements.
    pub targeted: Option<EntityId>,
}

/// The handlers of the interaction pipeline.
#[derive(Debug, Copy, Clone, PartialEq, Eq, Structural)]
pub enum PipelineStep {
    /// Pressed elements learn of an unclick (and whether it happened over them).
    JustUnclicked,
    /// Pressed elements that are not targeted learn that the click is held away from them.
    IsClickedAway,
    /// The targeted element was just clicked.
    JustClicked,
    /// The targeted element is being clicked.
    IsClicked,
    /// The targeted pressed element is being clicked over its press home zone.
    IsClickedHome,
    /// The targeted element is hovered.
    Hover,
    /// Hovered elements that are no longer targeted and hovered are unhovered.
    Unhover,
}

/// A single step when `cond` holds, else nothing.
pub open spec fn step_if(cond: bool, s: PipelineStep) -> Seq<PipelineStep> {
    if cond {
        seq![s]
    } else {
        Seq::empty()
    }
}

/// The handlers that run for an info pack, in order.
pub open spec fn spec_pipeline_steps(info: InteractionSourceInfoPack) -> Seq<PipelineStep> {
    let c = info.is_clicked;
    let t = info.targeted is Some;
    let h = info.target_is_hovered;
    step_if(c && info.just_unclicked, PipelineStep::JustUnclicked)
        + step_if(c, PipelineStep::IsClickedAway)
        + step_if(info.just_clicked && t && h, PipelineStep::JustClicked)
        + step_if(c && t && h, PipelineStep::IsClicked)
        + step_if(c && t, PipelineStep::IsClickedHome)
        + step_if(!c && info.just_unclicked, PipelineStep::JustUnclicked)
        + step_if(t && h, PipelineStep::Hover)
        + seq![PipelineStep::Unhover]
}

fn push_step_if(cond: bool, s: PipelineStep, steps: &mut Vec<PipelineStep>)
    ensures
        final(steps)@ == old(steps)@ + step_if(cond, s),
{
    if cond {
        steps.push(s);
    } else {
        assert(old(steps)@ + step_if(cond, s) =~= old(steps)@);
    }
}

/// The handlers that the interaction pipeline runs for an info pack, in order.
/// - An unclick is handled before the click handlers when the source is clicked again (unclick, then click), and
///   after them otherwise (click, then unclick).
/// - Handlers that apply to the element (not its press home zone) only run when the target is hovered.
/// - Unhovering always runs last.
pub fn pipeline_steps(info: &InteractionSourceInfoPack) -> (res: Vec<PipelineStep>)
    ensures
        res@ == spec_pipeline_steps(*info),
{
    let c = info.is_clicked;
    let t = info.targeted.is_some();
    let h = info.target_is_hovered;
    let mut steps: Vec<PipelineStep> = Vec::new();
    push_step_if(c && info.just_unclicked, PipelineStep::JustUnclicked, &mut steps);
    push_step_if(c, PipelineStep::IsClickedAway, &mut steps);
    push_step_if(info.just_clicked && t && h, PipelineStep::JustClicked, &mut steps);
    push_step_if(c && t && h, PipelineStep::IsClicked, &mut steps);
    push_step_if(c && t, PipelineStep::IsClickedHome, &mut steps);
    push_step_if(!c && info.just_unclicked, PipelineStep::JustUnclicked, &mut steps);
    push_step_if(t && h, PipelineStep::Hover, &mut steps);
    steps.push(PipelineStep::Unhover);
    assert(steps@ =~= spec_pipeline_steps(*info));
    steps
}

/// The final target: a pressed element whose press home zone is under the cursor wins, and is hovered when its own
/// element widget is under the cursor; otherwise the topmost unpressed element, which is hovered.
pub open spec fn spec_select_target(
    top_unpressed: Option<EntityId>,
    top_pressed: Option<EntityId>,
    pressed_element_hovered: bool,
) -> (Option<EntityId>, bool) {
    match top_pressed {
        Some(e) => (Some(e), pressed_element_hovered),
        None => (top_unpressed, top_unpressed is Some),
    }
}

/// Decide the targeted element and whether it is hovered.
pub fn select_target(
    top_unpressed: Option<EntityId>,
    top_pressed: Option<EntityId>,
    pressed_element_hovered: bool,
) -> (res: (Option<EntityId>, bool))
    ensures
        res == spec_select_target(top_unpressed, top_pressed, pressed_element_hovered),
{
    match top_pressed {
        Some(e) => (Some(e), pressed_element_hovered),
        None => (top_unpressed, top_unpressed.is_some()),
    }
}

/// Assemble the info pack of a tick from the source's click flags and the cursor hits.
pub fn make_info_pack(
    just_clicked: bool,
    is_clicked: bool,
    just_unclicked: bool,
    top_unpressed: Option<EntityId>,
    top_pressed: Option<EntityId>,
    pressed_element_hovered: bool,
) -> (res: InteractionSourceInfoPack)
    ensures
        res.just_clicked == just_clicked,
        res.is_clicked == is_clicked,
        res.just_unclicked == just_unclicked,
        (res.targeted, res.target_is_hovered) == spec_select_target(
            top_unpressed,
            top_pressed,
            pressed_element_hovered,
        ),
{
    let (targeted, target_is_hovered) = select_target(top_unpressed, top_pressed, pressed_element_hovered);
    InteractionSourceInfoPack { just_clicked, is_clicked, just_unclicked, target_is_hovered, targeted }
}

fn contains_entity(v: &Vec<EntityId>, e: EntityId) -> (res: bool)
    ensures
        res == v@.contains(e),
{
    let mut i: usize = 0;
    while i < v.len()
        invariant
            0 <= i <= v.len(),
            forall|j: int| 0 <= j < i ==> v@[j] != e,
        decreases v.len() - i,
    {
        if v[i] == e {
            assert(v@[i as int] == e);
            return true;
        }
        i = i + 1;
    }
    false
}

/// The targeted entity when `cond` holds and the target has the responder (is among `with_callback`).
pub open spec fn spec_target_if(info: InteractionSourceInfoPack, cond: bool, with_callback: Seq<EntityId>) -> Option<
    EntityId,
> {
    match info.targeted {
        Some(e) => if cond && with_callback.contains(e) {
            Some(e)
        } else {
            None
        },
        None => None,
    }
}

fn target_if(info: &InteractionSourceInfoPack, cond: bool, with_callback: &Vec<EntityId>) -> (res: Option<EntityId>)
    ensures
        res == spec_target_if(*info, cond, with_callback@),
{
    match info.targeted {
        Some(e) => if cond && contains_entity(with_callback, e) {
            Some(e)
        } else {
            None
        },
        None => None,
    }
}

/// The element whose 'on click' responder runs: the targeted element, if the source was just clicked over it and
/// it has the responder.
pub fn handle_just_clicked(info: &InteractionSourceInfoPack, with_callback: &Vec<EntityId>) -> (res: Option<EntityId>)
    ensures
        res == spec_target_if(*info, info.just_clicked && info.target_is_hovered, with_callback@),
{
    target_if(info, info.just_clicked && info.target_is_hovered, with_callback)
}

/// The element whose 'on click hold' responder runs: the targeted element, if the source is clicked over it and it
/// has the responder.
pub fn handle_is_clicked(info: &InteractionSourceInfoPack, with_callback: &Vec<EntityId>) -> (res: Option<EntityId>)
    ensures
        res == spec_target_if(*info, info.is_clicked && info.target_is_hovered, with_callback@),
{
    target_if(info, info.is_clicked && info.target_is_hovered, with_callback)
}

/// The element whose 'on click hold home' responder runs: the targeted element, if the source is clicked and the
/// target is a pressed element with the responder (the press home zone counts, hovering the element is not needed).
pub fn handle_is_clicked_home(info: &InteractionSourceInfoPack, pressed_with_callback: &Vec<EntityId>) -> (res:
    Option<EntityId>)
    ensures
        res == spec_target_if(*info, info.is_clicked, pressed_with_callback@),
{
    target_if(info, info.is_clicked, pressed_with_callback)
}

/// The element whose 'on hover' responder runs: the targeted element, if its element widget is under the cursor
/// and it has the responder.
pub fn handle_hover(info: &InteractionSourceInfoPack, with_callback: &Vec<EntityId>) -> (res: Option<EntityId>)
    ensures
        res == spec_target_if(*info, info.target_is_hovered, with_callback@),
{
    target_if(info, info.target_is_hovered, with_callback)
}

/// Pressed elements (with their presence: `None` when the element's widget is not in the UI tree, else whether it
/// is visible and above the interaction barrier) that get 'click hold away', with their presence.
pub open spec fn spec_clicked_away(info: InteractionSourceInfoPack, ws: Seq<(EntityId, Option<bool>)>) -> Seq<
    (EntityId, bool),
>
    decreases ws.len(),
{
    if ws.len() == 0 {
        Seq::empty()
    } else {
        let prev = spec_clicked_away(info, ws.drop_last());
        let (e, presence) = ws.last();
        if info.targeted == Some(e) {
            prev
        } else {
            match presence {
                Some(p) => prev.push((e, p)),
                None => prev,
            }
        }
    }
}

/// The pressed elements that get the 'click hold away' responder, each with whether it is present.
/// - Nothing when the source is not clicked.
/// - The targeted element is skipped, and so are elements whose widget is not in the UI tree.
pub fn handle_is_clicked_away(info: &InteractionSourceInfoPack, pressed: &Vec<(EntityId, Option<bool>)>) -> (res: Vec<
    (EntityId, bool),
>)
    ensures
        res@ == (if info.is_clicked {
            spec_clicked_away(*info, pressed@)
        } else {
            Seq::empty()
        }),
{
    let mut out: Vec<(EntityId, bool)> = Vec::new();
    if !info.is_clicked {
        return out;
    }
    let mut i: usize = 0;
    while i < pressed.len()
        invariant
            0 <= i <= pressed.len(),
            out@ == spec_clicked_away(*info, pressed@.take(i as int)),
        decreases pressed.len() - i,
    {
        let (e, presence) = pressed[i];
        assert(pressed@.take(i + 1).drop_last() =~= pressed@.take(i as int));
        let skip = match info.targeted {
            Some(t) => t == e,
            None => false,
        };
        if !skip {
            if let Some(p) = presence {
                out.push((e, p));
            }
        }
        i = i + 1;
    }
    assert(pressed@.take(pressed.len() as int) =~= pressed@);
    out
}

/// Pressed elements that get 'unclick', each with whether it is the target (the cursor is over its press home zone).
pub open spec fn spec_unclicked(info: InteractionSourceInfoPack, ws: Seq<EntityId>) -> Seq<(EntityId, bool)> {
    ws.map_values(|e: EntityId| (e, info.targeted == Some(e)))
}

/// The pressed elements that get the 'unclick' responder: all of them when the source was just unclicked, each with
/// whether the unclick happened over its press home zone.
pub fn handle_just_unclicked(info: &InteractionSourceInfoPack, pressed: &Vec<EntityId>) -> (res: Vec<(EntityId, bool)>)
    ensures
        res@ == (if info.just_unclicked {
            spec_unclicked(*info, pressed@)
        } else {
            Seq::empty()
        }),
{
    let mut out: Vec<(EntityId, bool)> = Vec::new();
    if !info.just_unclicked {
        return out;
    }
    let mut i: usize = 0;
    while i < pressed.len()
        invariant
            0 <= i <= pressed.len(),
            out@ =~= spec_unclicked(*info, pressed@.take(i as int)),
        decreases pressed.len() - i,
    {
        let e = pressed[i];
        let under_cursor = match info.targeted {
            Some(t) => t == e,
            None => false,
        };
        out.push((e, under_cursor));
        i = i + 1;
        assert(spec_unclicked(*info, pressed@.take(i as int)) =~= spec_unclicked(*info, pressed@.take(i - 1)).push(
            (e, under_cursor),
        ));
    }
    assert(pressed@.take(pressed.len() as int) =~= pressed@);
    out
}

/// Hovered elements that get 'unhover': all but the target when it is hovered.
pub open spec fn spec_unhovered(info: InteractionSourceInfoPack, ws: Seq<EntityId>) -> Seq<EntityId> {
    ws.filter(|e: EntityId| !(info.targeted == Some(e) && info.target_is_hovered))
}

/// The hovered elements that get the 'unhover' responder: all of them but the targeted element if it is hovered.
pub fn handle_unhover(info: &InteractionSourceInfoPack, hovered: &Vec<EntityId>) -> (res: Vec<EntityId>)
    ensures
        res@ == spec_unhovered(*info, hovered@),
{
    let mut out: Vec<EntityId> = Vec::new();
    let mut i: usize = 0;
    while i < hovered.len()
        invariant
            0 <= i <= hovered.len(),
            out@ == spec_unhovered(*info, hovered@.take(i as int)),
        decreases hovered.len() - i,
    {
        let e = hovered[i];
        let keep_hover = match info.targeted {
            Some(t) => t == e && info.target_is_hovered,
            None => false,
        };
        proof {
            reveal(Seq::filter);
            assert(hovered@.take(i + 1).drop_last() =~= hovered@.take(i as int));
        }
        if !keep_hover {
            out.push(e);
        }
        i = i + 1;
    }
    assert(hovered@.take(hovered.len() as int) =~= hovered@);
    out
}


/// Every tick ends with the unhover handler, and the unclick handler runs exactly when the source was just
/// unclicked.
pub proof fn lemma_pipeline_shape(info: InteractionSourceInfoPack)
    ensures
        spec_pipeline_steps(info).last() == PipelineStep::Unhover,
        spec_pipeline_steps(info).contains(PipelineStep::JustUnclicked) <==> info.just_unclicked,
{
    let s = spec_pipeline_steps(info);
    let c = info.is_clicked;
    let t = info.targeted is Some;
    let h = info.target_is_hovered;
    let a = step_if(c && info.just_unclicked, PipelineStep::JustUnclicked);
    let rest = step_if(c, PipelineStep::IsClickedAway) + step_if(info.just_clicked && t && h, PipelineStep::JustClicked)
        + step_if(c && t && h, PipelineStep::IsClicked) + step_if(c && t, PipelineStep::IsClickedHome);
    let b = step_if(!c && info.just_unclicked, PipelineStep::JustUnclicked);
    let tail = step_if(t && h, PipelineStep::Hover) + seq![PipelineStep::Unhover];
    assert(s =~= a + rest + b + tail);
    assert(!rest.contains(PipelineStep::JustUnclicked));
    assert(!tail.contains(PipelineStep::JustUnclicked));
    if info.just_unclicked {
        if c {
            assert(s[0] == PipelineStep::JustUnclicked);
        } else {
            assert(s[rest.len() as int] == PipelineStep::JustUnclicked);
        }
    } else {
        assert(a =~= Seq::<PipelineStep>::empty());
        assert(b =~= Seq::<PipelineStep>::empty());
        assert(s =~= rest + tail);
        if s.contains(PipelineStep::JustUnclicked) {
            let k = choose|k: int| 0 <= k < s.len() && s[k] == PipelineStep::JustUnclicked;
            if k < rest.len() {
                assert(rest[k] == PipelineStep::JustUnclicked);
            } else {
                assert(tail[k - rest.len()] == PipelineStep::JustUnclicked);
            }
        }
    }
}

/// A target that is hovered this tick is never among the elements that get unhovered.
pub proof fn lemma_hovered_target_not_unhovered(info: InteractionSourceInfoPack, hovered: Seq<EntityId>)
    requires
        info.target_is_hovered,
        info.targeted is Some,
    ensures
        !spec_unhovered(info, hovered).contains(info.targeted->0),
{
    let e = info.targeted->0;
    let f = |x: EntityId| !(info.targeted == Some(x) && info.target_is_hovered);
    if spec_unhovered(info, hovered).contains(e) {
        let k = choose|k: int| 0 <= k < spec_unhovered(info, hovered).len() && spec_unhovered(info, hovered)[k] == e;
        hovered.lemma_filter_pred(f, k);
        assert(f(spec_unhovered(info, hovered)[k]));
    }
}

proof fn lemma_filter_keeps_all(ws: Seq<EntityId>, f: spec_fn(EntityId) -> bool)
    requires
        forall|e: EntityId| #[trigger] f(e),
    ensures
        ws.filter(f) == ws,
    decreases ws.len(),
{
    reveal(Seq::filter);
    if ws.len() > 0 {
        lemma_filter_keeps_all(ws.drop_last(), f);
        assert(f(ws.last()));
        assert(ws.drop_last().push(ws.last()) =~= ws);
    }
}

/// The elements unhovered in a tick are exactly the hovered elements other than a target that is hovered: an
/// element is kept hovered only when it is the target and the target itself is under the cursor, so when the
/// target is reached only through its press home zone, every hovered element (the target included) is unhovered.
pub proof fn lemma_unhover_keeps_only_hovered_target(info: InteractionSourceInfoPack, hovered: Seq<EntityId>)
    ensures
        forall|e: EntityId| #[trigger] spec_unhovered(info, hovered).contains(e) <==> (hovered.contains(e) && !(
        info.targeted == Some(e) && info.target_is_hovered)),
        !info.target_is_hovered ==> spec_unhovered(info, hovered) == hovered,
{
    let f = |x: EntityId| !(info.targeted == Some(x) && info.target_is_hovered);
    assert(spec_unhovered(info, hovered) == hovered.filter(f));
    assert forall|e: EntityId| #[trigger] spec_unhovered(info, hovered).contains(e) <==> (hovered.contains(e) && !(
    info.targeted == Some(e) && info.target_is_hovered)) by {
        if spec_unhovered(info, hovered).contains(e) {
            hovered.lemma_filter_contains_rev(f, e);
            let k = choose|k: int|
                0 <= k < spec_unhovered(info, hovered).len() && spec_unhovered(info, hovered)[k] == e;
            hovered.lemma_filter_pred(f, k);
        }
        if hovered.contains(e) && f(e) {
            let k = choose|k: int| 0 <= k < hovered.len() && hovered[k] == e;
            hovered.lemma_filter_contains(f, k);
        }
    }
    if !info.target_is_hovered {
        lemma_filter_keeps_all(hovered, f);
    }
}

/// The click handlers reach only the target: the element reached by a just-click, a click or a hover is the
/// target, among the given elements, and only when the target itself is under the cursor (and the source was just
/// clicked, or is clicked); the press-home handler reaches the target while the source is clicked, even when only
/// its press home zone is under the cursor.
pub proof fn lemma_handlers_reach_only_the_target(info: InteractionSourceInfoPack, with: Seq<EntityId>, e: EntityId)
    ensures
        spec_target_if(info, info.just_clicked && info.target_is_hovered, with) == Some(e) <==> (info.targeted
            == Some(e) && info.just_clicked && info.target_is_hovered && with.contains(e)),
        spec_target_if(info, info.is_clicked && info.target_is_hovered, with) == Some(e) <==> (info.targeted
            == Some(e) && info.is_clicked && info.target_is_hovered && with.contains(e)),
        spec_target_if(info, info.target_is_hovered, with) == Some(e) <==> (info.targeted == Some(e)
            && info.target_is_hovered && with.contains(e)),
        spec_target_if(info, info.is_clicked, with) == Some(e) <==> (info.targeted == Some(e) && info.is_clicked
            && with.contains(e)),
{
}

/// An unclick reaches every pressed element, in order, telling each whether it is the target (the unclick happened
/// over it); nothing is reached when the source was not just unclicked.
pub proof fn lemma_unclick_reaches_all_pressed(info: InteractionSourceInfoPack, pressed: Seq<EntityId>)
    ensures
        spec_unclicked(info, pressed).len() == pressed.len(),
        forall|i: int| 0 <= i < pressed.len() ==> #[trigger] spec_unclicked(info, pressed)[i] == (pressed[i],
            info.targeted == Some(pressed[i])),
{
}

/// A click held away reaches every pressed element that is not the target and whose presence is known, with that
/// presence, and never the target.
pub proof fn lemma_clicked_away_skips_target(info: InteractionSourceInfoPack, pressed: Seq<(EntityId, Option<bool>)>)
    ensures
        forall|e: EntityId, p: bool| #[trigger] spec_clicked_away(info, pressed).contains((e, p)) ==> info.targeted
            != Some(e) && pressed.contains((e, Some(p))),
        forall|i: int|
            0 <= i < pressed.len() && info.targeted != Some(#[trigger] pressed[i].0) && pressed[i].1 is Some
                ==> spec_clicked_away(info, pressed).contains((pressed[i].0, pressed[i].1->0)),
    decreases pressed.len(),
{
    if pressed.len() > 0 {
        let prev = pressed.drop_last();
        lemma_clicked_away_skips_target(info, prev);
        let r = spec_clicked_away(info, pressed);
        let rp = spec_clicked_away(info, prev);
        let (l, presence) = pressed.last();
        assert forall|e: EntityId, p: bool| #[trigger] r.contains((e, p)) implies info.targeted != Some(e)
            && pressed.contains((e, Some(p))) by {
            let k = choose|k: int| 0 <= k < r.len() && r[k] == (e, p);
            if k < rp.len() {
                assert(rp[k] == (e, p));
                assert(rp.contains((e, p)));
                let j = choose|j: int| 0 <= j < prev.len() && prev[j] == (e, Some(p));
                assert(pressed[j] == (e, Some(p)));
            } else {
                assert(pressed[pressed.len() - 1] == (e, Some(p)));
            }
        }
        assert forall|i: int|
            0 <= i < pressed.len() && info.targeted != Some(#[trigger] pressed[i].0) && pressed[i].1 is Some
                implies r.contains((pressed[i].0, pressed[i].1->0)) by {
            if i < pressed.len() - 1 {
                assert(prev[i] == pressed[i]);
                assert(rp.contains((prev[i].0, prev[i].1->0)));
                let k = choose|k: int| 0 <= k < rp.len() && rp[k] == (prev[i].0, prev[i].1->0);
                assert(r[k] == rp[k]);
            } else {
                assert(r[r.len() - 1] == (pressed[i].0, pressed[i].1->0));
            }
        }
    }
}

/// The target: a pressed element whose press home zone is under the cursor wins over any unpressed element, and
/// is hovered exactly when its own widget is under the cursor; otherwise the topmost unpressed element, which is
/// hovered.
pub proof fn lemma_target_choice(top_unpressed: Option<EntityId>, top_pressed: Option<EntityId>, hovered: bool)
    ensures
        top_pressed is Some ==> spec_select_target(top_unpressed, top_pressed, hovered) == (top_pressed, hovered),
        top_pressed is None ==> spec_select_target(top_unpressed, top_pressed, hovered) == (top_unpressed,
            top_unpressed is Some),
{
}

/// The handlers that run: the unclick handler runs first when the source was unclicked and clicked again within
/// the tick; the click handlers (held away, home) run only while the source is clicked, those for the element
/// (just clicked, clicked) only when the target itself is under the cursor, and hovering only for a hovered
/// target.
pub proof fn lemma_pipeline_runs(info: InteractionSourceInfoPack)
    ensures
        info.is_clicked && info.just_unclicked ==> spec_pipeline_steps(info)[0] == PipelineStep::JustUnclicked,
        spec_pipeline_steps(info).contains(PipelineStep::IsClickedAway) <==> info.is_clicked,
        spec_pipeline_steps(info).contains(PipelineStep::JustClicked) <==> (info.just_clicked && info.targeted is Some
            && info.target_is_hovered),
        spec_pipeline_steps(info).contains(PipelineStep::IsClicked) <==> (info.is_clicked && info.targeted is Some
            && info.target_is_hovered),
        spec_pipeline_steps(info).contains(PipelineStep::IsClickedHome) <==> (info.is_clicked
            && info.targeted is Some),
        spec_pipeline_steps(info).contains(PipelineStep::Hover) <==> (info.targeted is Some
            && info.target_is_hovered),
{
    let c = info.is_clicked;
    let t = info.targeted is Some;
    let h = info.target_is_hovered;
    let p0 = step_if(c && info.just_unclicked, PipelineStep::JustUnclicked);
    let p1 = step_if(c, PipelineStep::IsClickedAway);
    let p2 = step_if(info.just_clicked && t && h, PipelineStep::JustClicked);
    let p3 = step_if(c && t && h, PipelineStep::IsClicked);
    let p4 = step_if(c && t, PipelineStep::IsClickedHome);
    let p5 = step_if(!c && info.just_unclicked, PipelineStep::JustUnclicked);
    let p6 = step_if(t && h, PipelineStep::Hover);
    let p7 = seq![PipelineStep::Unhover];
    let s1 = p0 + p1;
    let s2 = s1 + p2;
    let s3 = s2 + p3;
    let s4 = s3 + p4;
    let s5 = s4 + p5;
    let s6 = s5 + p6;
    let s7 = s6 + p7;
    assert(s7 == spec_pipeline_steps(info));
    assert forall|x: PipelineStep| #[trigger] s7.contains(x) <==> (p0.contains(x) || p1.contains(x) || p2.contains(
        x,
    ) || p3.contains(x) || p4.contains(x) || p5.contains(x) || p6.contains(x) || p7.contains(x)) by {
        lemma_add_contains(p0, p1, x);
        lemma_add_contains(s1, p2, x);
        lemma_add_contains(s2, p3, x);
        lemma_add_contains(s3, p4, x);
        lemma_add_contains(s4, p5, x);
        lemma_add_contains(s5, p6, x);
        lemma_add_contains(s6, p7, x);
    }
    assert(p7[0] == PipelineStep::Unhover);
    if c {
        assert(p1[0] == PipelineStep::IsClickedAway);
    }
    if info.just_clicked && t && h {
        assert(p2[0] == PipelineStep::JustClicked);
    }
    if c && t && h {
        assert(p3[0] == PipelineStep::IsClicked);
    }
    if c && t {
        assert(p4[0] == PipelineStep::IsClickedHome);
    }
    if t && h {
        assert(p6[0] == PipelineStep::Hover);
    }
    if c && info.just_unclicked {
        assert(s7[0] == p0[0]);
    }
}

/// An element is in a concatenation exactly when it is in one of the two parts.
proof fn lemma_add_contains(a: Seq<PipelineStep>, b: Seq<PipelineStep>, x: PipelineStep)
    ensures
        (a + b).contains(x) <==> (a.contains(x) || b.contains(x)),
{
    if (a + b).contains(x) {
        let k = choose|k: int| 0 <= k < (a + b).len() && (a + b)[k] == x;
        if k < a.len() {
            assert(a[k] == x);
        } else {
            assert(b[k - a.len()] == x);
        }
    }
    if a.contains(x) {
        let k = choose|k: int| 0 <= k < a.len() && a[k] == x;
        assert((a + b)[k] == x);
    }
    if b.contains(x) {
        let k = choose|k: int| 0 <= k < b.len() && b[k] == x;
        assert((a + b)[a.len() + k] == x);
    }
}

} // verus!
