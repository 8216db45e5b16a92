use vstd::prelude::*;
use crate::interaction::builder::{
    check_hover_invariants, check_press_invariants, check_select_invariants, spec_check_all,
    spec_hoverable, spec_pressable, spec_selectable, spec_unpress_on_any, InteractiveElementBuilderError, CallbackId, InteractiveElementBuilder,
    InteractiveElementWidgetPack, WidgetId,
};

verus! {

/// Press state of an element: the clicker is above the press home zone (`Home`) or away from it (`Away`).
#[derive(Debug, Copy, Clone, PartialEq, Eq, Structural)]
pub enum Pressed {
    Home,
    Away,
}

/// Interaction state of an element: whether it is pressed (and how), selected, hovered.
#[derive(Debug, Copy, Clone, PartialEq, Eq, Structural)]
pub struct ElementState {
    pub pressed: Option<Pressed>,
    pub selected: bool,
    pub hovered: bool,
}

impl ElementState {
    /// The state of a freshly built element.
    pub fn new() -> (res: Self)
        ensures
            res == (ElementState { pressed: None, selected: false, hovered: false }),
    {
        ElementState { pressed: None, selected: false, hovered: false }
    }
}

/// Something the element's owner must do after a transition, in order.
#[derive(Debug, Copy, Clone, PartialEq, Eq, Structural)]
pub enum ElementEffect {
    /// Run a user callback system.
    Invoke(CallbackId),
    /// Run a user callback system that takes a flag.
    InvokeWith(CallbackId, bool),
    /// Make this widget of the element's widget pack visible and all the others invisible.
    ShowWidget(Option<WidgetId>),
}

/// An interactive element whose configuration passed all checks: the behavior that `build` installs.
#[derive(Debug, Copy, Clone, PartialEq, Eq, Structural)]
pub struct InteractiveElementBehavior {
    pub config: InteractiveElementBuilder,
    pub element_widget: WidgetId,
    /// Widget that decides press home/away; present exactly when the element is pressable.
    pub press_home_zone: Option<WidgetId>,
}

/// Effects of running an optional user callback.
pub open spec fn user(cb: Option<CallbackId>) -> Seq<ElementEffect> {
    match cb {
        Some(id) => seq![ElementEffect::Invoke(id)],
        None => Seq::empty(),
    }
}

/// Whether hovering is allowed for a configuration in a state.
pub open spec fn spec_hover_allowed(c: InteractiveElementBuilder, st: ElementState) -> bool {
    &&& !(c.no_hover_on_selected && st.selected)
    &&& !(c.no_hover_on_pressed && st.pressed is Some)
    &&& !(c.no_hover_on_pressed_selected && !(c.no_hover_on_selected || c.no_hover_on_pressed) && st.selected
        && st.pressed is Some)
}

/// The widget that shows in a state. A widget applies when the element is in (at least) the states it is for
/// ('pressed' meaning `Pressed::Home`); of the widgets that apply and are present, the first in this order shows:
/// hover-pressed-selected (before all others), pressed-selected (before hover-pressed and hover-selected),
/// hover-selected, hover-pressed, pressed, selected, hovered, and otherwise the default widget.
pub open spec fn spec_visible_widget(p: InteractiveElementWidgetPack, st: ElementState) -> Option<WidgetId> {
    let h = st.hovered;
    let pr = st.pressed == Some(Pressed::Home);
    let s = st.selected;
    if h && pr && s && p.hover_pressed_selected_widget is Some {
        p.hover_pressed_selected_widget
    } else if pr && s && p.pressed_selected_widget is Some {
        p.pressed_selected_widget
    } else if h && s && p.hover_selected_widget is Some {
        p.hover_selected_widget
    } else if h && pr && p.hover_pressed_widget is Some {
        p.hover_pressed_widget
    } else if pr && p.pressed_widget is Some {
        p.pressed_widget
    } else if s && p.selected_widget is Some {
        p.selected_widget
    } else if h && p.hovered_widget is Some {
        p.hovered_widget
    } else {
        p.default_widget
    }
}

/// Visibility update effects: none when the element has no widgets.
pub open spec fn vis(c: InteractiveElementBuilder, st: ElementState) -> Seq<ElementEffect> {
    if c.widget_pack == InteractiveElementWidgetPack::spec_empty() {
        Seq::empty()
    } else {
        seq![ElementEffect::ShowWidget(spec_visible_widget(c.widget_pack, st))]
    }
}

/// A transition result: the new state and the effects, in order.
pub type Step = (ElementState, Seq<ElementEffect>);

pub open spec fn none_step(st: ElementState) -> Step {
    (st, Seq::empty())
}

impl InteractiveElementBehavior {
    pub open spec fn need_press(self) -> bool {
        spec_pressable(self.config)
    }

    pub open spec fn need_select(self) -> bool {
        spec_selectable(self.config)
    }

    pub open spec fn need_hover(self) -> bool {
        spec_hoverable(self.config)
    }

    /// Whether the 'on click' responder exists.
    pub open spec fn has_on_click(self) -> bool {
        self.config.press_on_click || self.config.select_on_click || self.config.on_click_callback is Some
    }

    /// Whether the 'on click hold' responder exists.
    pub open spec fn has_on_click_hold(self) -> bool {
        self.config.press_on_clickhold || self.config.on_clickhold_callback is Some
    }

    /// The configuration passed all checks and the press home zone is set exactly for pressable elements.
    pub open spec fn well_formed(self) -> bool {
        &&& spec_check_all(self.config) is Ok
        &&& (self.press_home_zone is Some <==> self.need_press())
    }

    /// Stop hovering.
    pub open spec fn spec_unhover(self, st: ElementState) -> Step {
        if !self.need_hover() || !st.hovered {
            none_step(st)
        } else {
            let st1 = ElementState { hovered: false, ..st };
            (st1, user(self.config.on_unhover_callback) + vis(self.config, st1))
        }
    }

    /// Unhover the element if one of its 'no hover' conditions now holds.
    pub open spec fn spec_hover_fix(self, st: ElementState) -> Step {
        let c = self.config;
        if self.need_hover() && (c.no_hover_on_selected || c.no_hover_on_pressed || c.no_hover_on_pressed_selected)
            && st.hovered && !spec_hover_allowed(c, st) {
            self.spec_unhover(st)
        } else {
            none_step(st)
        }
    }

    /// The hover fixer when `cond` says the transition may need it.
    pub open spec fn spec_fix_if(self, cond: bool, st: ElementState) -> Step {
        if cond {
            self.spec_hover_fix(st)
        } else {
            none_step(st)
        }
    }

    pub open spec fn fix_on_select(self) -> bool {
        self.config.no_hover_on_selected || self.config.no_hover_on_pressed_selected
    }

    pub open spec fn fix_on_press(self) -> bool {
        self.config.no_hover_on_pressed || self.config.no_hover_on_pressed_selected
    }

    /// Deselect action.
    pub open spec fn spec_deselect(self, st: ElementState) -> Step {
        if !self.need_select() || !st.selected {
            none_step(st)
        } else {
            let st1 = ElementState { selected: false, ..st };
            let (st2, e2) = self.spec_fix_if(self.fix_on_select(), st1);
            (st2, e2 + user(self.config.deselect_callback) + vis(self.config, st2))
        }
    }

    /// Select action (toggles back to deselected when selecting an already selected element with toggling).
    pub open spec fn spec_select(self, st: ElementState) -> Step {
        if !self.need_select() {
            none_step(st)
        } else if st.selected {
            if self.config.with_select_toggling {
                self.spec_deselect(st)
            } else {
                none_step(st)
            }
        } else {
            let st1 = ElementState { selected: true, ..st };
            let (st2, e2) = self.spec_fix_if(self.fix_on_select(), st1);
            (st2, e2 + user(self.config.select_callback) + vis(self.config, st2))
        }
    }

    /// Select action when `cond`.
    pub open spec fn spec_select_if(self, cond: bool, st: ElementState) -> Step {
        if cond {
            self.spec_select(st)
        } else {
            none_step(st)
        }
    }

    /// Start-press action.
    pub open spec fn spec_start_press(self, st: ElementState) -> Step {
        if !self.need_press() || st.pressed is Some {
            none_step(st)
        } else {
            let st1 = ElementState { pressed: Some(Pressed::Home), ..st };
            let (st2, e2) = self.spec_select_if(self.config.select_on_press_start, st1);
            let (st3, e3) = self.spec_fix_if(self.fix_on_press(), st2);
            (st3, e2 + e3 + user(self.config.startpress_callback) + vis(self.config, st3))
        }
    }

    /// Unpress action.
    pub open spec fn spec_unpress(self, st: ElementState) -> Step {
        if !self.need_press() || st.pressed is None {
            none_step(st)
        } else {
            let st1 = ElementState { pressed: None, ..st };
            let (st2, e2) = self.spec_select_if(self.config.select_on_unpress, st1);
            let (st3, e3) = self.spec_fix_if(self.fix_on_press(), st2);
            (st3, e2 + e3 + user(self.config.unpress_callback) + vis(self.config, st3))
        }
    }

    /// Abort-press action.
    pub open spec fn spec_abort_press(self, st: ElementState) -> Step {
        if !self.need_press() || st.pressed is None {
            none_step(st)
        } else {
            let st1 = ElementState { pressed: None, ..st };
            let (st2, e2) = self.spec_fix_if(self.fix_on_press(), st1);
            (st2, e2 + user(self.config.abortpress_callback) + vis(self.config, st2))
        }
    }

    /// Responder: the source was just clicked over the element.
    pub open spec fn spec_on_click(self, st: ElementState) -> Step {
        if !self.has_on_click() {
            none_step(st)
        } else {
            let (st1, e1) = if self.config.press_on_click { self.spec_start_press(st) } else { none_step(st) };
            let (st2, e2) = self.spec_select_if(self.config.select_on_click, st1);
            (st2, e1 + e2 + user(self.config.on_click_callback))
        }
    }

    /// Responder: the source is clicking over the element.
    pub open spec fn spec_on_click_hold(self, st: ElementState) -> Step {
        if !self.has_on_click_hold() {
            none_step(st)
        } else {
            let (st1, e1) = if self.config.press_on_clickhold { self.spec_start_press(st) } else { none_step(st) };
            (st1, e1 + user(self.config.on_clickhold_callback))
        }
    }

    /// Responder: the source is clicking over the press home zone of the pressed element.
    pub open spec fn spec_on_click_hold_home(self, st: ElementState) -> Step {
        if !self.need_press() {
            none_step(st)
        } else {
            let e0 = user(self.config.press_home_callback);
            if st.pressed != Some(Pressed::Away) {
                (st, e0)
            } else {
                let st1 = ElementState { pressed: Some(Pressed::Home), ..st };
                let (st2, e2) = self.spec_fix_if(self.fix_on_press(), st1);
                (st2, e0 + e2 + user(self.config.press_home_start_callback) + vis(self.config, st2))
            }
        }
    }

    /// Responder: the source is clicking away from the press home zone of the pressed element;
    /// `is_present` tells whether the element is visible and not under an interaction barrier.
    pub open spec fn spec_on_click_hold_away(self, st: ElementState, is_present: bool) -> Step {
        let c = self.config;
        if !self.need_press() {
            none_step(st)
        } else if c.abort_press_on_press_away {
            self.spec_abort_press(st)
        } else if c.abort_press_if_obstructed && !is_present {
            self.spec_abort_press(st)
        } else if c.unpress_on_press_away {
            self.spec_unpress(st)
        } else {
            self.spec_press_away(st, is_present)
        }
    }

    /// Press-away callbacks that depend on whether the element is present.
    pub open spec fn press_away_where(self, is_present: bool) -> Seq<ElementEffect> {
        if is_present {
            user(self.config.press_away_present_callback)
        } else {
            user(self.config.press_away_obstructed_callback)
        }
    }

    /// Track a press held away from the press home zone: enter `Pressed::Away` if pressed home, then run the
    /// press-away callbacks.
    pub open spec fn spec_press_away(self, st: ElementState, is_present: bool) -> Step {
        if st.pressed == Some(Pressed::Home) {
            self.spec_press_away_start(st, is_present)
        } else {
            (st, user(self.config.press_away_always_callback) + self.press_away_where(is_present))
        }
    }

    /// A press held home just moved away.
    pub open spec fn spec_press_away_start(self, st: ElementState, is_present: bool) -> Step {
        let c = self.config;
        let st1 = ElementState { pressed: Some(Pressed::Away), ..st };
        let (st2, e2) = self.spec_fix_if(self.fix_on_press(), st1);
        (st2, e2 + user(c.press_away_start_callback) + user(c.press_away_always_callback) + self.press_away_where(
            is_present,
        ) + vis(c, st2))
    }

    /// Responder: the source was just unclicked while the element is pressed; `home` tells whether the cursor was
    /// above the press home zone.
    pub open spec fn spec_on_unclick(self, st: ElementState, home: bool) -> Step {
        let c = self.config;
        if !self.need_press() {
            none_step(st)
        } else {
            let e0 = match c.on_unclick_callback {
                Some(id) => seq![ElementEffect::InvokeWith(id, home)],
                None => Seq::empty(),
            };
            if home {
                let (st1, e1) = if c.unpress_on_unclick_home { self.spec_unpress(st) } else { none_step(st) };
                (st1, e0 + e1)
            } else {
                let (st1, e1) = if c.abort_press_on_unclick_away { self.spec_abort_press(st) } else { none_step(st) };
                let (st2, e2) = if c.unpress_on_unclick_away { self.spec_unpress(st1) } else { none_step(st1) };
                (st2, e0 + e1 + e2)
            }
        }
    }

    /// Responder: the source is hovering over the element.
    pub open spec fn spec_on_hover(self, st: ElementState) -> Step {
        let c = self.config;
        if !self.need_hover() || !spec_hover_allowed(c, st) {
            none_step(st)
        } else {
            let started = !st.hovered;
            let st1 = ElementState { hovered: true, ..st };
            let (st2, e2) = self.spec_select_if(started && c.select_on_hover_start, st1);
            let e_start = if started { user(c.on_hover_start_callback) } else { Seq::empty() };
            let e_vis = if started { vis(c, st2) } else { Seq::empty() };
            (st2, e2 + e_start + user(c.on_hover_callback) + e_vis)
        }
    }
}


/// Whether hovering is allowed for a configuration in a state.
pub fn hover_is_allowed(c: &InteractiveElementBuilder, st: &ElementState) -> (res: bool)
    ensures
        res == spec_hover_allowed(*c, *st),
{
    if c.no_hover_on_selected && st.selected {
        return false;
    }
    if c.no_hover_on_pressed && st.pressed.is_some() {
        return false;
    }
    if c.no_hover_on_pressed_selected && !(c.no_hover_on_selected || c.no_hover_on_pressed) {
        if st.selected && st.pressed.is_some() {
            return false;
        }
    }
    true
}

/// The widget of the pack that shows in the given state (see `spec_visible_widget` for the precedence).
pub fn visible_widget(p: &InteractiveElementWidgetPack, st: &ElementState) -> (res: Option<WidgetId>)
    ensures
        res == spec_visible_widget(*p, *st),
{
    let h = st.hovered;
    let pr = match st.pressed {
        Some(Pressed::Home) => true,
        _ => false,
    };
    let s = st.selected;
    if h && pr && s && p.hover_pressed_selected_widget.is_some() {
        p.hover_pressed_selected_widget
    } else if pr && s && p.pressed_selected_widget.is_some() {
        p.pressed_selected_widget
    } else if h && s && p.hover_selected_widget.is_some() {
        p.hover_selected_widget
    } else if h && pr && p.hover_pressed_widget.is_some() {
        p.hover_pressed_widget
    } else if pr && p.pressed_widget.is_some() {
        p.pressed_widget
    } else if s && p.selected_widget.is_some() {
        p.selected_widget
    } else if h && p.hovered_widget.is_some() {
        p.hovered_widget
    } else {
        p.default_widget
    }
}


/// The widgets of a pack, in the order default, pressed, selected, hovered, pressed-selected, hover-selected,
/// hover-pressed, hover-pressed-selected (absent ones included as `None`).
pub open spec fn pack_widgets(p: InteractiveElementWidgetPack) -> Seq<Option<WidgetId>> {
    seq![
        p.default_widget,
        p.pressed_widget,
        p.selected_widget,
        p.hovered_widget,
        p.pressed_selected_widget,
        p.hover_selected_widget,
        p.hover_pressed_widget,
        p.hover_pressed_selected_widget,
    ]
}

/// The widgets of `ws` that are present and differ from `on`, in order.
pub open spec fn present_except(ws: Seq<Option<WidgetId>>, on: Option<WidgetId>) -> Seq<WidgetId>
    decreases ws.len(),
{
    if ws.len() == 0 {
        Seq::empty()
    } else {
        let rest = present_except(ws.drop_last(), on);
        match ws.last() {
            Some(x) => if on == Some(x) { rest } else { rest.push(x) },
            None => rest,
        }
    }
}

/// The widgets to make invisible when `on` is shown: the pack's widgets that are present and differ from `on`.
pub open spec fn spec_widgets_to_hide(p: InteractiveElementWidgetPack, on: Option<WidgetId>) -> Seq<WidgetId> {
    present_except(pack_widgets(p), on)
}

/// The widgets to make invisible when the widget `on` of the pack is shown (then `on` is made visible).
pub fn widgets_to_hide(p: &InteractiveElementWidgetPack, on: Option<WidgetId>) -> (res: Vec<WidgetId>)
    ensures
        res@ == spec_widgets_to_hide(*p, on),
{
    let all = [
        p.default_widget,
        p.pressed_widget,
        p.selected_widget,
        p.hovered_widget,
        p.pressed_selected_widget,
        p.hover_selected_widget,
        p.hover_pressed_widget,
        p.hover_pressed_selected_widget,
    ];
    let ghost ws = pack_widgets(*p);
    assert(all@ =~= ws);
    let mut out: Vec<WidgetId> = Vec::new();
    let mut i: usize = 0;
    while i < 8
        invariant
            0 <= i <= 8,
            all@ == ws,
            ws.len() == 8,
            out@ == present_except(ws.take(i as int), on),
        decreases 8 - i,
    {
        let w = all[i];
        assert(ws.take(i + 1).drop_last() =~= ws.take(i as int));
        assert(ws.take(i + 1).last() == w);
        match w {
            Some(x) => {
                let same = match on {
                    Some(o) => o == x,
                    None => false,
                };
                if !same {
                    out.push(x);
                }
            },
            None => {},
        }
        i = i + 1;
    }
    assert(ws.take(8) =~= ws);
    out
}

fn push_user(cb: Option<CallbackId>, effects: &mut Vec<ElementEffect>)
    ensures
        final(effects)@ == old(effects)@ + user(cb),
{
    if let Some(id) = cb {
        effects.push(ElementEffect::Invoke(id));
    }
    proof {
        if cb is None {
            assert(final(effects)@ =~= old(effects)@ + user(cb));
        }
    }
}

fn push_vis(c: &InteractiveElementBuilder, st: &ElementState, effects: &mut Vec<ElementEffect>)
    ensures
        final(effects)@ == old(effects)@ + vis(*c, *st),
{
    if !c.widget_pack.is_empty() {
        let w = visible_widget(&c.widget_pack, st);
        effects.push(ElementEffect::ShowWidget(w));
    } else {
        assert(old(effects)@ + vis(*c, *st) =~= old(effects)@);
    }
}


impl InteractiveElementBehavior {
    fn exec_need_press(&self) -> (res: bool)
        ensures
            res == self.need_press(),
    {
        self.config.element_is_pressable()
    }

    fn exec_need_select(&self) -> (res: bool)
        ensures
            res == self.need_select(),
    {
        self.config.element_is_selectable()
    }

    fn exec_need_hover(&self) -> (res: bool)
        ensures
            res == self.need_hover(),
    {
        self.config.element_is_hoverable()
    }

    /// Responder: stop hovering the element. Returns whether the responder exists.
    pub fn on_unhover(&self, st: &mut ElementState, effects: &mut Vec<ElementEffect>) -> (exists: bool)
        ensures
            exists == self.need_hover(),
            *final(st) == self.spec_unhover(*old(st)).0,
            final(effects)@ == old(effects)@ + self.spec_unhover(*old(st)).1,
    {
        if !self.exec_need_hover() {
            assert(old(effects)@ + Seq::<ElementEffect>::empty() =~= old(effects)@);
            return false;
        }
        if !st.hovered {
            assert(old(effects)@ + Seq::<ElementEffect>::empty() =~= old(effects)@);
            return true;
        }
        st.hovered = false;
        push_user(self.config.on_unhover_callback, effects);
        push_vis(&self.config, st, effects);
        assert(final(effects)@ =~= old(effects)@ + self.spec_unhover(*old(st)).1);
        true
    }

    /// Unhover the element if one of its 'no hover' conditions now holds.
    pub fn hover_fixer(&self, st: &mut ElementState, effects: &mut Vec<ElementEffect>)
        ensures
            *final(st) == self.spec_hover_fix(*old(st)).0,
            final(effects)@ == old(effects)@ + self.spec_hover_fix(*old(st)).1,
    {
        let c = &self.config;
        if self.exec_need_hover() && (c.no_hover_on_selected || c.no_hover_on_pressed || c.no_hover_on_pressed_selected)
            && st.hovered && !hover_is_allowed(c, st) {
            self.on_unhover(st, effects);
        } else {
            assert(old(effects)@ + Seq::<ElementEffect>::empty() =~= old(effects)@);
        }
    }

    fn fix_if(&self, cond: bool, st: &mut ElementState, effects: &mut Vec<ElementEffect>)
        ensures
            *final(st) == self.spec_fix_if(cond, *old(st)).0,
            final(effects)@ == old(effects)@ + self.spec_fix_if(cond, *old(st)).1,
    {
        if cond {
            self.hover_fixer(st, effects);
        } else {
            assert(old(effects)@ + Seq::<ElementEffect>::empty() =~= old(effects)@);
        }
    }

    /// Action: deselect the element. Returns whether the action exists.
    pub fn deselect(&self, st: &mut ElementState, effects: &mut Vec<ElementEffect>) -> (exists: bool)
        ensures
            exists == self.need_select(),
            *final(st) == self.spec_deselect(*old(st)).0,
            final(effects)@ == old(effects)@ + self.spec_deselect(*old(st)).1,
    {
        if !self.exec_need_select() || !st.selected {
            assert(old(effects)@ + Seq::<ElementEffect>::empty() =~= old(effects)@);
            return self.exec_need_select();
        }
        st.selected = false;
        let ghost st1 = *st;
        let ghost e0 = effects@;
        let fix = self.config.no_hover_on_selected || self.config.no_hover_on_pressed_selected;
        self.fix_if(fix, st, effects);
        let ghost e2 = self.spec_fix_if(self.fix_on_select(), st1).1;
        assert(effects@ == e0 + e2);
        push_user(self.config.deselect_callback, effects);
        push_vis(&self.config, st, effects);
        assert(final(effects)@ =~= old(effects)@ + (e2 + user(self.config.deselect_callback) + vis(self.config, *final(st))));
        true
    }

    /// Action: select the element (with toggling, selecting a selected element deselects it).
    /// Returns whether the action exists.
    pub fn select(&self, st: &mut ElementState, effects: &mut Vec<ElementEffect>) -> (exists: bool)
        ensures
            exists == self.need_select(),
            *final(st) == self.spec_select(*old(st)).0,
            final(effects)@ == old(effects)@ + self.spec_select(*old(st)).1,
    {
        if !self.exec_need_select() {
            assert(old(effects)@ + Seq::<ElementEffect>::empty() =~= old(effects)@);
            return false;
        }
        if st.selected {
            if self.config.with_select_toggling {
                self.deselect(st, effects);
            } else {
                assert(old(effects)@ + Seq::<ElementEffect>::empty() =~= old(effects)@);
            }
            return true;
        }
        st.selected = true;
        let ghost st1 = *st;
        let ghost e0 = effects@;
        let fix = self.config.no_hover_on_selected || self.config.no_hover_on_pressed_selected;
        self.fix_if(fix, st, effects);
        let ghost e2 = self.spec_fix_if(self.fix_on_select(), st1).1;
        push_user(self.config.select_callback, effects);
        push_vis(&self.config, st, effects);
        assert(final(effects)@ =~= old(effects)@ + (e2 + user(self.config.select_callback) + vis(self.config, *final(st))));
        true
    }

    fn select_if(&self, cond: bool, st: &mut ElementState, effects: &mut Vec<ElementEffect>)
        ensures
            *final(st) == self.spec_select_if(cond, *old(st)).0,
            final(effects)@ == old(effects)@ + self.spec_select_if(cond, *old(st)).1,
    {
        if cond {
            self.select(st, effects);
        } else {
            assert(old(effects)@ + Seq::<ElementEffect>::empty() =~= old(effects)@);
        }
    }

    /// Action: start pressing the element (`Pressed::Home`). Returns whether the action exists.
    pub fn start_press(&self, st: &mut ElementState, effects: &mut Vec<ElementEffect>) -> (exists: bool)
        ensures
            exists == self.need_press(),
            *final(st) == self.spec_start_press(*old(st)).0,
            final(effects)@ == old(effects)@ + self.spec_start_press(*old(st)).1,
            self.need_press() ==> final(st).pressed is Some,
    {
        if !self.exec_need_press() || st.pressed.is_some() {
            assert(old(effects)@ + Seq::<ElementEffect>::empty() =~= old(effects)@);
            return self.exec_need_press();
        }
        st.pressed = Some(Pressed::Home);
        let ghost st1 = *st;
        self.select_if(self.config.select_on_press_start, st, effects);
        let ghost (st2, e2) = self.spec_select_if(self.config.select_on_press_start, st1);
        let fix = self.config.no_hover_on_pressed || self.config.no_hover_on_pressed_selected;
        self.fix_if(fix, st, effects);
        let ghost e3 = self.spec_fix_if(self.fix_on_press(), st2).1;
        push_user(self.config.startpress_callback, effects);
        push_vis(&self.config, st, effects);
        assert(final(effects)@ =~= old(effects)@ + (e2 + e3 + user(self.config.startpress_callback) + vis(self.config, *final(st))));
        true
    }

    /// Action: unpress the element. Returns whether the action exists.
    pub fn unpress(&self, st: &mut ElementState, effects: &mut Vec<ElementEffect>) -> (exists: bool)
        ensures
            exists == self.need_press(),
            *final(st) == self.spec_unpress(*old(st)).0,
            final(effects)@ == old(effects)@ + self.spec_unpress(*old(st)).1,
            self.need_press() ==> final(st).pressed is None,
    {
        if !self.exec_need_press() || st.pressed.is_none() {
            assert(old(effects)@ + Seq::<ElementEffect>::empty() =~= old(effects)@);
            return self.exec_need_press();
        }
        st.pressed = None;
        let ghost st1 = *st;
        self.select_if(self.config.select_on_unpress, st, effects);
        let ghost (st2, e2) = self.spec_select_if(self.config.select_on_unpress, st1);
        let fix = self.config.no_hover_on_pressed || self.config.no_hover_on_pressed_selected;
        self.fix_if(fix, st, effects);
        let ghost e3 = self.spec_fix_if(self.fix_on_press(), st2).1;
        push_user(self.config.unpress_callback, effects);
        push_vis(&self.config, st, effects);
        assert(final(effects)@ =~= old(effects)@ + (e2 + e3 + user(self.config.unpress_callback) + vis(self.config, *final(st))));
        true
    }

    /// Action: abort the press (unpress without the unpress callbacks). Returns whether the action exists.
    pub fn abort_press(&self, st: &mut ElementState, effects: &mut Vec<ElementEffect>) -> (exists: bool)
        ensures
            exists == self.need_press(),
            *final(st) == self.spec_abort_press(*old(st)).0,
            final(effects)@ == old(effects)@ + self.spec_abort_press(*old(st)).1,
            self.need_press() ==> final(st).pressed is None,
    {
        if !self.exec_need_press() || st.pressed.is_none() {
            assert(old(effects)@ + Seq::<ElementEffect>::empty() =~= old(effects)@);
            return self.exec_need_press();
        }
        st.pressed = None;
        let ghost st1 = *st;
        let fix = self.config.no_hover_on_pressed || self.config.no_hover_on_pressed_selected;
        self.fix_if(fix, st, effects);
        let ghost e2 = self.spec_fix_if(self.fix_on_press(), st1).1;
        push_user(self.config.abortpress_callback, effects);
        push_vis(&self.config, st, effects);
        assert(final(effects)@ =~= old(effects)@ + (e2 + user(self.config.abortpress_callback) + vis(self.config, *final(st))));
        true
    }
}


impl InteractiveElementBehavior {
    /// Responder: the interaction source was just clicked over the element. Returns whether the responder exists.
    pub fn on_click(&self, st: &mut ElementState, effects: &mut Vec<ElementEffect>) -> (exists: bool)
        ensures
            exists == self.has_on_click(),
            *final(st) == self.spec_on_click(*old(st)).0,
            final(effects)@ == old(effects)@ + self.spec_on_click(*old(st)).1,
    {
        let c = &self.config;
        if !(c.press_on_click || c.select_on_click || c.on_click_callback.is_some()) {
            assert(old(effects)@ + Seq::<ElementEffect>::empty() =~= old(effects)@);
            return false;
        }
        let ghost st0 = *st;
        if c.press_on_click {
            self.start_press(st, effects);
        } else {
            assert(old(effects)@ + Seq::<ElementEffect>::empty() =~= old(effects)@);
        }
        let ghost (st1, e1) = if c.press_on_click { self.spec_start_press(st0) } else { none_step(st0) };
        self.select_if(c.select_on_click, st, effects);
        let ghost e2 = self.spec_select_if(c.select_on_click, st1).1;
        push_user(c.on_click_callback, effects);
        assert(final(effects)@ =~= old(effects)@ + (e1 + e2 + user(c.on_click_callback)));
        true
    }

    /// Responder: the interaction source is clicking over the element. Returns whether the responder exists.
    pub fn on_click_hold(&self, st: &mut ElementState, effects: &mut Vec<ElementEffect>) -> (exists: bool)
        ensures
            exists == self.has_on_click_hold(),
            *final(st) == self.spec_on_click_hold(*old(st)).0,
            final(effects)@ == old(effects)@ + self.spec_on_click_hold(*old(st)).1,
    {
        let c = &self.config;
        if !(c.press_on_clickhold || c.on_clickhold_callback.is_some()) {
            assert(old(effects)@ + Seq::<ElementEffect>::empty() =~= old(effects)@);
            return false;
        }
        let ghost st0 = *st;
        if c.press_on_clickhold {
            self.start_press(st, effects);
        } else {
            assert(old(effects)@ + Seq::<ElementEffect>::empty() =~= old(effects)@);
        }
        let ghost e1 = if c.press_on_clickhold { self.spec_start_press(st0).1 } else { Seq::empty() };
        push_user(c.on_clickhold_callback, effects);
        assert(final(effects)@ =~= old(effects)@ + (e1 + user(c.on_clickhold_callback)));
        true
    }

    /// Responder: the source is clicking over the press home zone of the pressed element.
    /// Returns whether the responder exists.
    pub fn on_click_hold_home(&self, st: &mut ElementState, effects: &mut Vec<ElementEffect>) -> (exists: bool)
        ensures
            exists == self.need_press(),
            *final(st) == self.spec_on_click_hold_home(*old(st)).0,
            final(effects)@ == old(effects)@ + self.spec_on_click_hold_home(*old(st)).1,
    {
        if !self.exec_need_press() {
            assert(old(effects)@ + Seq::<ElementEffect>::empty() =~= old(effects)@);
            return false;
        }
        let c = &self.config;
        push_user(c.press_home_callback, effects);
        let is_away = match st.pressed {
            Some(Pressed::Away) => true,
            _ => false,
        };
        if !is_away {
            return true;
        }
        st.pressed = Some(Pressed::Home);
        let ghost st1 = *st;
        let fix = c.no_hover_on_pressed || c.no_hover_on_pressed_selected;
        self.fix_if(fix, st, effects);
        let ghost e2 = self.spec_fix_if(self.fix_on_press(), st1).1;
        push_user(c.press_home_start_callback, effects);
        push_vis(c, st, effects);
        assert(final(effects)@ =~= old(effects)@ + (user(c.press_home_callback) + e2 + user(
            c.press_home_start_callback,
        ) + vis(*c, *final(st))));
        true
    }

    /// Responder: the source is clicking away from the press home zone of the pressed element; `is_present` tells
    /// whether the element is visible and not under an interaction barrier. Returns whether the responder exists.
    pub fn on_click_hold_away(&self, st: &mut ElementState, is_present: bool, effects: &mut Vec<ElementEffect>) -> (exists: bool)
        ensures
            exists == self.need_press(),
            *final(st) == self.spec_on_click_hold_away(*old(st), is_present).0,
            final(effects)@ == old(effects)@ + self.spec_on_click_hold_away(*old(st), is_present).1,
    {
        if !self.exec_need_press() {
            assert(old(effects)@ + Seq::<ElementEffect>::empty() =~= old(effects)@);
            return false;
        }
        let c = &self.config;
        if c.abort_press_on_press_away {
            self.abort_press(st, effects);
            return true;
        }
        if c.abort_press_if_obstructed && !is_present {
            self.abort_press(st, effects);
            return true;
        }
        if c.unpress_on_press_away {
            self.unpress(st, effects);
            return true;
        }
        self.press_away(st, is_present, effects);
        true
    }

    fn push_where(&self, is_present: bool, effects: &mut Vec<ElementEffect>)
        ensures
            final(effects)@ == old(effects)@ + self.press_away_where(is_present),
    {
        if is_present {
            push_user(self.config.press_away_present_callback, effects);
        } else {
            push_user(self.config.press_away_obstructed_callback, effects);
        }
    }

    fn press_away_start(&self, st: &mut ElementState, is_present: bool, effects: &mut Vec<ElementEffect>)
        requires
            old(st).pressed == Some(Pressed::Home),
        ensures
            *final(st) == self.spec_press_away_start(*old(st), is_present).0,
            final(effects)@ == old(effects)@ + self.spec_press_away_start(*old(st), is_present).1,
    {
        let c = &self.config;
        let ghost e0 = effects@;
        st.pressed = Some(Pressed::Away);
        let ghost st1 = *st;
        let fix = c.no_hover_on_pressed || c.no_hover_on_pressed_selected;
        self.fix_if(fix, st, effects);
        let ghost fx = self.spec_fix_if(self.fix_on_press(), st1);
        let ghost e1 = effects@;
        assert(e1 == e0 + fx.1);
        push_user(c.press_away_start_callback, effects);
        push_user(c.press_away_always_callback, effects);
        self.push_where(is_present, effects);
        push_vis(c, st, effects);
        assert(effects@ =~= e0 + (fx.1 + user(c.press_away_start_callback) + user(c.press_away_always_callback)
            + self.press_away_where(is_present) + vis(*c, fx.0)));
    }

    fn press_away(&self, st: &mut ElementState, is_present: bool, effects: &mut Vec<ElementEffect>)
        ensures
            *final(st) == self.spec_press_away(*old(st), is_present).0,
            final(effects)@ == old(effects)@ + self.spec_press_away(*old(st), is_present).1,
    {
        let started = match st.pressed {
            Some(Pressed::Home) => true,
            _ => false,
        };
        if started {
            self.press_away_start(st, is_present, effects);
        } else {
            let ghost e0 = effects@;
            push_user(self.config.press_away_always_callback, effects);
            self.push_where(is_present, effects);
            assert(effects@ =~= e0 + (user(self.config.press_away_always_callback) + self.press_away_where(is_present)));
        }
    }

    /// Responder: the source was just unclicked while the element is pressed; `home` tells whether the cursor was
    /// above the press home zone. Returns whether the responder exists.
    pub fn on_unclick(&self, st: &mut ElementState, home: bool, effects: &mut Vec<ElementEffect>) -> (exists: bool)
        ensures
            exists == self.need_press(),
            *final(st) == self.spec_on_unclick(*old(st), home).0,
            final(effects)@ == old(effects)@ + self.spec_on_unclick(*old(st), home).1,
    {
        if !self.exec_need_press() {
            assert(old(effects)@ + Seq::<ElementEffect>::empty() =~= old(effects)@);
            return false;
        }
        let c = &self.config;
        if let Some(id) = c.on_unclick_callback {
            effects.push(ElementEffect::InvokeWith(id, home));
        }
        if home {
            if c.unpress_on_unclick_home {
                self.unpress(st, effects);
            }
        } else {
            if c.abort_press_on_unclick_away {
                self.abort_press(st, effects);
            }
            if c.unpress_on_unclick_away {
                self.unpress(st, effects);
            }
        }
        assert(final(effects)@ =~= old(effects)@ + self.spec_on_unclick(*old(st), home).1);
        true
    }

    /// Responder: the source is hovering over the element. Returns whether the responder exists.
    pub fn on_hover(&self, st: &mut ElementState, effects: &mut Vec<ElementEffect>) -> (exists: bool)
        ensures
            exists == self.need_hover(),
            *final(st) == self.spec_on_hover(*old(st)).0,
            final(effects)@ == old(effects)@ + self.spec_on_hover(*old(st)).1,
    {
        if !self.exec_need_hover() {
            assert(old(effects)@ + Seq::<ElementEffect>::empty() =~= old(effects)@);
            return false;
        }
        let c = &self.config;
        if !hover_is_allowed(c, st) {
            assert(old(effects)@ + Seq::<ElementEffect>::empty() =~= old(effects)@);
            return true;
        }
        let started = !st.hovered;
        st.hovered = true;
        let ghost st1 = *st;
        self.select_if(started && c.select_on_hover_start, st, effects);
        let ghost e2 = self.spec_select_if(started && c.select_on_hover_start, st1).1;
        if started {
            push_user(c.on_hover_start_callback, effects);
        }
        let ghost e_mid = effects@;
        push_user(c.on_hover_callback, effects);
        if started {
            push_vis(c, st, effects);
        }
        assert(final(effects)@ =~= old(effects)@ + self.spec_on_hover(*old(st)).1);
        true
    }
}


impl InteractiveElementBuilder {
    /// Consume the builder: check the configuration and return the element behavior to install.
    /// - Fails with the first failed check, in the order press checks, select checks, hover checks.
    /// - The press home zone is the configured one, else the element widget; only pressable elements have one.
    pub fn build(self, element_widget: WidgetId) -> (res: Result<InteractiveElementBehavior, InteractiveElementBuilderError>)
        ensures
            spec_check_all(self) is Err <==> res is Err,
            spec_check_all(self) matches Err(e) ==> res == Err::<InteractiveElementBehavior, _>(e),
            res matches Ok(b) ==> {
                &&& b.config == self
                &&& b.element_widget == element_widget
                &&& b.press_home_zone == (if spec_pressable(self) {
                    Some(match self.press_home_zone { Some(z) => z, None => element_widget })
                } else {
                    None
                })
                &&& b.well_formed()
                &&& spec_pressable(self) <==> spec_unpress_on_any(self)
            },
    {
        match check_press_invariants(&self) {
            Err(e) => return Err(e),
            Ok(()) => {},
        }
        match check_select_invariants(&self) {
            Err(e) => return Err(e),
            Ok(()) => {},
        }
        match check_hover_invariants(&self) {
            Err(e) => return Err(e),
            Ok(()) => {},
        }
        let press_home_zone = if self.element_is_pressable() {
            Some(match self.press_home_zone {
                Some(z) => z,
                None => element_widget,
            })
        } else {
            None
        };
        Ok(InteractiveElementBehavior { config: self, element_widget, press_home_zone })
    }
}

} // verus!
