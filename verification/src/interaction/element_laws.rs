use vstd::prelude::*;
use crate::interaction::builder::{
    InteractiveElementBuilder,
    WidgetId,
    spec_check_all, spec_check_hover, spec_check_press, spec_check_select, spec_hoverable,
    InteractiveElementWidgetPack,
};
use crate::interaction::element::{
    pack_widgets, present_except, spec_hover_allowed, spec_visible_widget, spec_widgets_to_hide, user, vis, ElementEffect, ElementState, InteractiveElementBehavior,
    Pressed,
};

verus! {

/// A hovered element is one that is allowed to be hovered.
pub open spec fn hover_consistent(b: InteractiveElementBehavior, st: ElementState) -> bool {
    st.hovered ==> spec_hover_allowed(b.config, st)
}

/// A configuration that passed all checks sets a 'no hover' condition only when it tracks hovers.
proof fn lemma_no_hover_flags_need_hover(b: InteractiveElementBehavior)
    requires
        b.well_formed(),
    ensures
        (b.config.no_hover_on_pressed || b.config.no_hover_on_selected || b.config.no_hover_on_pressed_selected)
            ==> spec_hoverable(b.config),
{
    assert(spec_check_press(b.config) is Ok);
    assert(spec_check_select(b.config) is Ok);
    assert(spec_check_hover(b.config) is Ok);
}

proof fn lemma_unhover(b: InteractiveElementBehavior, st: ElementState)
    ensures
        b.spec_unhover(st).0.pressed == st.pressed,
        b.spec_unhover(st).0.selected == st.selected,
        b.spec_unhover(st).0.hovered ==> st.hovered,
        b.need_hover() ==> !b.spec_unhover(st).0.hovered,
{
}

proof fn lemma_fix_if(b: InteractiveElementBehavior, cond: bool, st: ElementState)
    requires
        b.well_formed(),
        cond || hover_consistent(b, st),
    ensures
        hover_consistent(b, b.spec_fix_if(cond, st).0),
        b.spec_fix_if(cond, st).0.pressed == st.pressed,
        b.spec_fix_if(cond, st).0.selected == st.selected,
{
    lemma_no_hover_flags_need_hover(b);
    lemma_unhover(b, st);
}

proof fn lemma_deselect(b: InteractiveElementBehavior, st: ElementState)
    requires
        b.well_formed(),
        hover_consistent(b, st),
    ensures
        hover_consistent(b, b.spec_deselect(st).0),
        b.spec_deselect(st).0.pressed == st.pressed,
{
    let st1 = ElementState { selected: false, ..st };
    lemma_fix_if(b, b.fix_on_select(), st1);
}

proof fn lemma_select(b: InteractiveElementBehavior, st: ElementState)
    requires
        b.well_formed(),
    ensures
        hover_consistent(b, st) ==> hover_consistent(b, b.spec_select(st).0),
        b.spec_select(st).0.pressed == st.pressed,
{
    if hover_consistent(b, st) {
        lemma_deselect(b, st);
    } else if st.selected && b.config.with_select_toggling && b.need_select() {
        let st1 = ElementState { selected: false, ..st };
        lemma_unhover(b, st1);
        lemma_no_hover_flags_need_hover(b);
    }
    let st1 = ElementState { selected: true, ..st };
    if b.fix_on_select() || hover_consistent(b, st1) {
        lemma_fix_if(b, b.fix_on_select(), st1);
    } else {
        lemma_unhover(b, st1);
    }
}

proof fn lemma_select_if(b: InteractiveElementBehavior, cond: bool, st: ElementState)
    requires
        b.well_formed(),
    ensures
        hover_consistent(b, st) ==> hover_consistent(b, b.spec_select_if(cond, st).0),
        b.spec_select_if(cond, st).0.pressed == st.pressed,
{
    lemma_select(b, st);
}

proof fn lemma_start_press(b: InteractiveElementBehavior, st: ElementState)
    requires
        b.well_formed(),
        hover_consistent(b, st),
    ensures
        hover_consistent(b, b.spec_start_press(st).0),
{
    let st1 = ElementState { pressed: Some(Pressed::Home), ..st };
    lemma_select_if(b, b.config.select_on_press_start, st1);
    let st2 = b.spec_select_if(b.config.select_on_press_start, st1).0;
    lemma_fix_if(b, b.fix_on_press(), st2);
}

proof fn lemma_unpress(b: InteractiveElementBehavior, st: ElementState)
    requires
        b.well_formed(),
        hover_consistent(b, st),
    ensures
        hover_consistent(b, b.spec_unpress(st).0),
{
    let st1 = ElementState { pressed: None, ..st };
    lemma_select_if(b, b.config.select_on_unpress, st1);
    let st2 = b.spec_select_if(b.config.select_on_unpress, st1).0;
    lemma_fix_if(b, b.fix_on_press(), st2);
}

proof fn lemma_abort_press(b: InteractiveElementBehavior, st: ElementState)
    requires
        b.well_formed(),
        hover_consistent(b, st),
    ensures
        hover_consistent(b, b.spec_abort_press(st).0),
{
    let st1 = ElementState { pressed: None, ..st };
    lemma_fix_if(b, b.fix_on_press(), st1);
}

/// No transition of a well-formed element leaves it hovered in a state where hovering is not allowed:
/// every action and responder keeps "hovered implies hovering is allowed".
pub proof fn lemma_transitions_keep_hover_consistent(
    b: InteractiveElementBehavior,
    st: ElementState,
    is_present: bool,
    home: bool,
)
    requires
        b.well_formed(),
        hover_consistent(b, st),
    ensures
        hover_consistent(b, b.spec_unhover(st).0),
        hover_consistent(b, b.spec_hover_fix(st).0),
        hover_consistent(b, b.spec_select(st).0),
        hover_consistent(b, b.spec_deselect(st).0),
        hover_consistent(b, b.spec_start_press(st).0),
        hover_consistent(b, b.spec_unpress(st).0),
        hover_consistent(b, b.spec_abort_press(st).0),
        hover_consistent(b, b.spec_on_click(st).0),
        hover_consistent(b, b.spec_on_click_hold(st).0),
        hover_consistent(b, b.spec_on_click_hold_home(st).0),
        hover_consistent(b, b.spec_on_click_hold_away(st, is_present).0),
        hover_consistent(b, b.spec_on_unclick(st, home).0),
        hover_consistent(b, b.spec_on_hover(st).0),
{
    lemma_unhover(b, st);
    lemma_fix_if(b, true, st);
    lemma_select(b, st);
    lemma_deselect(b, st);
    lemma_start_press(b, st);
    lemma_unpress(b, st);
    lemma_abort_press(b, st);
    // on click
    let st_c = if b.config.press_on_click { b.spec_start_press(st).0 } else { st };
    lemma_select_if(b, b.config.select_on_click, st_c);
    // click hold home
    let st_h = ElementState { pressed: Some(Pressed::Home), ..st };
    lemma_fix_if(b, b.fix_on_press(), st_h);
    // click hold away
    let st_a = ElementState { pressed: Some(Pressed::Away), ..st };
    lemma_fix_if(b, b.fix_on_press(), st_a);
    // unclick away
    let st_u = if b.config.abort_press_on_unclick_away { b.spec_abort_press(st).0 } else { st };
    lemma_unpress(b, st_u);
    // hover
    let st_v = ElementState { hovered: true, ..st };
    if b.need_hover() && spec_hover_allowed(b.config, st) {
        lemma_select_if(b, !st.hovered && b.config.select_on_hover_start, st_v);
    }
}

/// With select toggling, selecting twice gives back the selection it started with.
pub proof fn lemma_select_toggles(b: InteractiveElementBehavior, st: ElementState)
    requires
        b.need_select(),
        b.config.with_select_toggling,
    ensures
        b.spec_select(st).0.selected == !st.selected,
        b.spec_select(b.spec_select(st).0).0.selected == st.selected,
{
}

/// The widget that shows is one of the pack's widgets, and with a default widget some widget always shows.
pub proof fn lemma_visible_widget_in_pack(p: InteractiveElementWidgetPack, st: ElementState)
    ensures
        p.default_widget is Some ==> spec_visible_widget(p, st) is Some,
        spec_visible_widget(p, st) is Some ==> {
            let w = spec_visible_widget(p, st);
            ||| w == p.default_widget
            ||| w == p.pressed_widget
            ||| w == p.selected_widget
            ||| w == p.hovered_widget
            ||| w == p.pressed_selected_widget
            ||| w == p.hover_selected_widget
            ||| w == p.hover_pressed_widget
            ||| w == p.hover_pressed_selected_widget
        },
{
}

/// An element is only in the states its configuration can enter: pressed only if pressable, selected only if
/// selectable, hovered only if it tracks hovers.
pub open spec fn state_consistent(b: InteractiveElementBehavior, st: ElementState) -> bool {
    &&& st.pressed is Some ==> b.need_press()
    &&& st.selected ==> b.need_select()
    &&& st.hovered ==> b.need_hover()
}

proof fn lemma_fix_if_state(b: InteractiveElementBehavior, cond: bool, st: ElementState)
    ensures
        state_consistent(b, st) ==> state_consistent(b, b.spec_fix_if(cond, st).0),
{
}

proof fn lemma_select_state(b: InteractiveElementBehavior, cond: bool, st: ElementState)
    ensures
        state_consistent(b, st) ==> state_consistent(b, b.spec_select(st).0),
        state_consistent(b, st) ==> state_consistent(b, b.spec_deselect(st).0),
        state_consistent(b, st) ==> state_consistent(b, b.spec_select_if(cond, st).0),
{
    let st1 = ElementState { selected: false, ..st };
    lemma_fix_if_state(b, b.fix_on_select(), st1);
    let st2 = ElementState { selected: true, ..st };
    lemma_fix_if_state(b, b.fix_on_select(), st2);
}

proof fn lemma_press_state(b: InteractiveElementBehavior, st: ElementState)
    ensures
        state_consistent(b, st) ==> state_consistent(b, b.spec_start_press(st).0),
        state_consistent(b, st) ==> state_consistent(b, b.spec_unpress(st).0),
        state_consistent(b, st) ==> state_consistent(b, b.spec_abort_press(st).0),
{
    let st1 = ElementState { pressed: Some(Pressed::Home), ..st };
    lemma_select_state(b, b.config.select_on_press_start, st1);
    lemma_fix_if_state(b, b.fix_on_press(), b.spec_select_if(b.config.select_on_press_start, st1).0);
    let st2 = ElementState { pressed: None, ..st };
    lemma_select_state(b, b.config.select_on_unpress, st2);
    lemma_fix_if_state(b, b.fix_on_press(), b.spec_select_if(b.config.select_on_unpress, st2).0);
    lemma_fix_if_state(b, b.fix_on_press(), st2);
}

/// Every action and responder keeps an element in the states its configuration can enter: it is never pressed
/// unless pressable, selected unless selectable, or hovered unless it tracks hovers.
pub proof fn lemma_transitions_keep_state_consistent(
    b: InteractiveElementBehavior,
    st: ElementState,
    is_present: bool,
    home: bool,
)
    requires
        state_consistent(b, st),
    ensures
        state_consistent(b, b.spec_unhover(st).0),
        state_consistent(b, b.spec_hover_fix(st).0),
        state_consistent(b, b.spec_select(st).0),
        state_consistent(b, b.spec_deselect(st).0),
        state_consistent(b, b.spec_start_press(st).0),
        state_consistent(b, b.spec_unpress(st).0),
        state_consistent(b, b.spec_abort_press(st).0),
        state_consistent(b, b.spec_on_click(st).0),
        state_consistent(b, b.spec_on_click_hold(st).0),
        state_consistent(b, b.spec_on_click_hold_home(st).0),
        state_consistent(b, b.spec_on_click_hold_away(st, is_present).0),
        state_consistent(b, b.spec_on_unclick(st, home).0),
        state_consistent(b, b.spec_on_hover(st).0),
{
    lemma_fix_if_state(b, true, st);
    lemma_select_state(b, false, st);
    lemma_press_state(b, st);
    // on click
    let st_c = if b.config.press_on_click { b.spec_start_press(st).0 } else { st };
    lemma_select_state(b, b.config.select_on_click, st_c);
    // click hold home and away
    let st_h = ElementState { pressed: Some(Pressed::Home), ..st };
    lemma_fix_if_state(b, b.fix_on_press(), st_h);
    let st_a = ElementState { pressed: Some(Pressed::Away), ..st };
    lemma_fix_if_state(b, b.fix_on_press(), st_a);
    // unclick away
    let st_u = if b.config.abort_press_on_unclick_away { b.spec_abort_press(st).0 } else { st };
    lemma_press_state(b, st_u);
    // hover
    let st_v = ElementState { hovered: true, ..st };
    lemma_select_state(b, !st.hovered && b.config.select_on_hover_start, st_v);
}

/// The documented precedence of the widgets: the hover-pressed-selected widget shows whenever the element is
/// hovered, pressed home and selected; otherwise, when pressed home and selected, the pressed-selected widget
/// shows before the hover-pressed and hover-selected widgets.
pub proof fn lemma_visible_widget_precedence(p: InteractiveElementWidgetPack, st: ElementState)
    ensures
        st.hovered && st.pressed == Some(Pressed::Home) && st.selected && p.hover_pressed_selected_widget is Some
            ==> spec_visible_widget(p, st) == p.hover_pressed_selected_widget,
        !(st.hovered && p.hover_pressed_selected_widget is Some) && st.pressed == Some(Pressed::Home)
            && st.selected && p.pressed_selected_widget is Some ==> spec_visible_widget(p, st)
            == p.pressed_selected_widget,
{
}

/// For every state, the widget made for exactly that state shows whenever the pack has it, and the default widget
/// shows in the plain state; whatever shows is either the default widget or a widget made for states the element
/// is in (hovered, pressed home, selected).
pub proof fn lemma_visible_widget_matches_state(p: InteractiveElementWidgetPack, st: ElementState)
    ensures
        ({
            let h = st.hovered;
            let pr = st.pressed == Some(Pressed::Home);
            let s = st.selected;
            let w = spec_visible_widget(p, st);
            &&& (h && pr && s && p.hover_pressed_selected_widget is Some ==> w == p.hover_pressed_selected_widget)
            &&& (!h && pr && s && p.pressed_selected_widget is Some ==> w == p.pressed_selected_widget)
            &&& (h && !pr && s && p.hover_selected_widget is Some ==> w == p.hover_selected_widget)
            &&& (h && pr && !s && p.hover_pressed_widget is Some ==> w == p.hover_pressed_widget)
            &&& (!h && pr && !s && p.pressed_widget is Some ==> w == p.pressed_widget)
            &&& (!h && !pr && s && p.selected_widget is Some ==> w == p.selected_widget)
            &&& (h && !pr && !s && p.hovered_widget is Some ==> w == p.hovered_widget)
            &&& (!h && !pr && !s ==> w == p.default_widget)
            &&& ({
                ||| w == p.default_widget
                ||| (h && pr && s && w == p.hover_pressed_selected_widget)
                ||| (pr && s && w == p.pressed_selected_widget)
                ||| (h && s && w == p.hover_selected_widget)
                ||| (h && pr && w == p.hover_pressed_widget)
                ||| (pr && w == p.pressed_widget)
                ||| (s && w == p.selected_widget)
                ||| (h && w == p.hovered_widget)
            })
        }),
{
}

/// A click held away from a pressed element's press home zone aborts the press when the configuration says so:
/// always with `abort_press_on_press_away`, and with `abort_press_if_obstructed` when the element is not present.
/// The element ends unpressed, and the abort-press callback runs.
pub proof fn lemma_click_hold_away_aborts(b: InteractiveElementBehavior, st: ElementState, is_present: bool)
    requires
        b.need_press(),
        st.pressed is Some,
        b.config.abort_press_on_press_away || (b.config.abort_press_if_obstructed && !is_present),
    ensures
        b.spec_on_click_hold_away(st, is_present).0.pressed is None,
        b.spec_on_click_hold_away(st, is_present).0.selected == st.selected,
        b.config.abortpress_callback matches Some(id) ==> b.spec_on_click_hold_away(st, is_present).1.contains(
            ElementEffect::Invoke(id),
        ),
{
    let st1 = ElementState { pressed: None, ..st };
    let (st2, e2) = b.spec_fix_if(b.fix_on_press(), st1);
    let e = e2 + user(b.config.abortpress_callback) + vis(b.config, st2);
    assert(b.spec_abort_press(st).1 == e);
    if let Some(id) = b.config.abortpress_callback {
        assert(e[e2.len() as int] == ElementEffect::Invoke(id));
    }
}

/// A click held away from a present element, with no abort or unpress on press away configured, never ends the
/// press: a press held home moves away.
pub proof fn lemma_click_hold_away_keeps_press(b: InteractiveElementBehavior, st: ElementState)
    requires
        b.need_press(),
        st.pressed is Some,
        !b.config.abort_press_on_press_away,
        !b.config.unpress_on_press_away,
    ensures
        b.spec_on_click_hold_away(st, true).0.pressed == Some(Pressed::Away),
{
}

/// A click on an unpressed element that presses on click leaves it pressed home; a click hold on an unpressed
/// element that presses on click hold does too.
pub proof fn lemma_click_presses(b: InteractiveElementBehavior, st: ElementState)
    requires
        st.pressed is None,
    ensures
        b.config.press_on_click ==> b.spec_on_click(st).0.pressed == Some(Pressed::Home),
        b.config.press_on_clickhold ==> b.spec_on_click_hold(st).0.pressed == Some(Pressed::Home),
        !b.config.press_on_click ==> b.spec_on_click(st).0.pressed is None,
{
    let st1 = ElementState { pressed: Some(Pressed::Home), ..st };
    lemma_select_keeps_press(b, b.config.select_on_press_start, st1);
    lemma_select_keeps_press(b, b.config.select_on_click, b.spec_start_press(st).0);
    lemma_select_keeps_press(b, b.config.select_on_click, st);
    lemma_fix_keeps_press(b, b.fix_on_press(), b.spec_select_if(b.config.select_on_press_start, st1).0);
}

proof fn lemma_fix_keeps_press(b: InteractiveElementBehavior, cond: bool, st: ElementState)
    ensures
        b.spec_fix_if(cond, st).0.pressed == st.pressed,
        b.spec_fix_if(cond, st).0.selected == st.selected,
{
}

proof fn lemma_select_keeps_press(b: InteractiveElementBehavior, cond: bool, st: ElementState)
    ensures
        b.spec_select_if(cond, st).0.pressed == st.pressed,
        b.spec_select(st).0.pressed == st.pressed,
        b.spec_deselect(st).0.pressed == st.pressed,
{
    lemma_fix_keeps_press(b, b.fix_on_select(), ElementState { selected: false, ..st });
    lemma_fix_keeps_press(b, b.fix_on_select(), ElementState { selected: true, ..st });
}

/// A click selects an unselected element that selects on click (unless the press it starts selects it
/// already), and with toggling it deselects a selected one; without select on click it leaves the selection to
/// the press.
pub proof fn lemma_click_selects(b: InteractiveElementBehavior, st: ElementState)
    requires
        b.config.select_on_click,
        !(b.config.press_on_click && b.config.select_on_press_start),
    ensures
        !st.selected ==> b.spec_on_click(st).0.selected,
        st.selected && b.config.with_select_toggling ==> !b.spec_on_click(st).0.selected,
        st.selected && !b.config.with_select_toggling ==> b.spec_on_click(st).0.selected,
{
    let st1 = if b.config.press_on_click { b.spec_start_press(st).0 } else { st };
    let sp = ElementState { pressed: Some(Pressed::Home), ..st };
    lemma_fix_keeps_press(b, b.fix_on_press(), b.spec_select_if(b.config.select_on_press_start, sp).0);
    lemma_fix_keeps_press(b, b.fix_on_select(), ElementState { selected: false, ..st1 });
    lemma_fix_keeps_press(b, b.fix_on_select(), ElementState { selected: true, ..st1 });
    assert(st1.selected == st.selected);
}

/// An unclick over the press home zone unpresses a pressed element configured to unpress on unclick at home; an
/// unclick away unpresses it when configured to abort or unpress on unclick away; otherwise the press stays.
pub proof fn lemma_unclick_releases(b: InteractiveElementBehavior, st: ElementState)
    requires
        b.need_press(),
        st.pressed is Some,
    ensures
        b.config.unpress_on_unclick_home ==> b.spec_on_unclick(st, true).0.pressed is None,
        !b.config.unpress_on_unclick_home ==> b.spec_on_unclick(st, true).0.pressed == st.pressed,
        (b.config.abort_press_on_unclick_away || b.config.unpress_on_unclick_away) ==> b.spec_on_unclick(
            st,
            false,
        ).0.pressed is None,
        !(b.config.abort_press_on_unclick_away || b.config.unpress_on_unclick_away) ==> b.spec_on_unclick(
            st,
            false,
        ).0.pressed == st.pressed,
        b.config.on_unclick_callback matches Some(id) ==> b.spec_on_unclick(st, true).1[0] == ElementEffect::InvokeWith(
            id,
            true,
        ) && b.spec_on_unclick(st, false).1[0] == ElementEffect::InvokeWith(id, false),
{
    let st1 = ElementState { pressed: None, ..st };
    lemma_select_keeps_press(b, b.config.select_on_unpress, st1);
    lemma_fix_keeps_press(b, b.fix_on_press(), b.spec_select_if(b.config.select_on_unpress, st1).0);
    lemma_fix_keeps_press(b, b.fix_on_press(), st1);
    let sa = b.spec_abort_press(st).0;
    let su = ElementState { pressed: None, ..sa };
    lemma_select_keeps_press(b, b.config.select_on_unpress, su);
    if let Some(id) = b.config.on_unclick_callback {
        let e0 = seq![ElementEffect::InvokeWith(id, true)];
        assert((e0 + b.spec_on_unclick(st, true).1.subrange(1, b.spec_on_unclick(st, true).1.len() as int))[0]
            == ElementEffect::InvokeWith(id, true));
    }
}

/// A click held home moves a press held away back home.
pub proof fn lemma_click_hold_home_returns(b: InteractiveElementBehavior, st: ElementState)
    requires
        b.need_press(),
        st.pressed == Some(Pressed::Away),
    ensures
        b.spec_on_click_hold_home(st).0.pressed == Some(Pressed::Home),
{
}

/// Hovering an element that tracks hovers, in a state where hovering is allowed, leaves it hovered (unless
/// selecting on hover start can make hovering disallowed); unhovering always leaves it unhovered.
pub proof fn lemma_hover_and_unhover(b: InteractiveElementBehavior, st: ElementState)
    requires
        b.need_hover(),
    ensures
        spec_hover_allowed(b.config, st) && !b.config.select_on_hover_start ==> b.spec_on_hover(st).0.hovered,
        !spec_hover_allowed(b.config, st) ==> b.spec_on_hover(st).0 == st,
        !b.spec_unhover(st).0.hovered,
{
}

proof fn lemma_present_except_contains(ws: Seq<Option<WidgetId>>, on: Option<WidgetId>, w: WidgetId)
    ensures
        present_except(ws, on).contains(w) <==> (ws.contains(Some(w)) && on != Some(w)),
    decreases ws.len(),
{
    if ws.len() > 0 {
        let prev = ws.drop_last();
        lemma_present_except_contains(prev, on, w);
        let r = present_except(prev, on);
        assert(forall|x: Option<WidgetId>| ws.contains(x) <==> (prev.contains(x) || ws.last() == x)) by {
            assert forall|x: Option<WidgetId>| ws.contains(x) <==> (prev.contains(x) || ws.last() == x) by {
                if ws.contains(x) {
                    let k = choose|k: int| 0 <= k < ws.len() && ws[k] == x;
                    if k < ws.len() - 1 {
                        assert(prev[k] == x);
                    }
                }
                if prev.contains(x) {
                    let k = choose|k: int| 0 <= k < prev.len() && prev[k] == x;
                    assert(ws[k] == x);
                }
                if ws.last() == x {
                    assert(ws[ws.len() - 1] == x);
                }
            }
        }
        match ws.last() {
            Some(x) => {
                if on != Some(x) {
                    assert(r.push(x).contains(w) <==> (r.contains(w) || x == w)) by {
                        if r.push(x).contains(w) {
                            let k = choose|k: int| 0 <= k < r.push(x).len() && r.push(x)[k] == w;
                            if k < r.len() {
                                assert(r[k] == w);
                            }
                        }
                        if r.contains(w) {
                            let k = choose|k: int| 0 <= k < r.len() && r[k] == w;
                            assert(r.push(x)[k] == w);
                        }
                        if x == w {
                            assert(r.push(x)[r.len() as int] == w);
                        }
                    }
                }
            },
            None => {},
        }
    }
}

/// The widgets hidden when `on` is shown are exactly the pack's present widgets other than `on`.
pub proof fn lemma_widgets_to_hide_are_the_others(p: InteractiveElementWidgetPack, on: Option<WidgetId>, w: WidgetId)
    ensures
        spec_widgets_to_hide(p, on).contains(w) <==> (on != Some(w) && (p.default_widget == Some(w)
            || p.pressed_widget == Some(w) || p.selected_widget == Some(w) || p.hovered_widget == Some(w)
            || p.pressed_selected_widget == Some(w) || p.hover_selected_widget == Some(w)
            || p.hover_pressed_widget == Some(w) || p.hover_pressed_selected_widget == Some(w))),
{
    let ws = pack_widgets(p);
    lemma_present_except_contains(ws, on, w);
    if ws.contains(Some(w)) {
        let k = choose|k: int| 0 <= k < ws.len() && ws[k] == Some(w);
    }
    if p.default_widget == Some(w) { assert(ws[0] == Some(w)); }
    if p.pressed_widget == Some(w) { assert(ws[1] == Some(w)); }
    if p.selected_widget == Some(w) { assert(ws[2] == Some(w)); }
    if p.hovered_widget == Some(w) { assert(ws[3] == Some(w)); }
    if p.pressed_selected_widget == Some(w) { assert(ws[4] == Some(w)); }
    if p.hover_selected_widget == Some(w) { assert(ws[5] == Some(w)); }
    if p.hover_pressed_widget == Some(w) { assert(ws[6] == Some(w)); }
    if p.hover_pressed_selected_widget == Some(w) { assert(ws[7] == Some(w)); }
}

/// Hovering is refused exactly when a configured 'no hover' condition holds: selected with `no_hover_on_selected`,
/// pressed (home or away) with `no_hover_on_pressed`, or both with `no_hover_on_pressed_selected`.
pub proof fn lemma_hover_allowed_exactly(c: InteractiveElementBuilder, st: ElementState)
    ensures
        spec_hover_allowed(c, st) <==> !(c.no_hover_on_selected && st.selected) && !(c.no_hover_on_pressed
            && st.pressed is Some) && !(c.no_hover_on_pressed_selected && st.selected && st.pressed is Some),
{
}

} // verus!
