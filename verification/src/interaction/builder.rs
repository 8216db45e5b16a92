use vstd::prelude::*;
pub use crate::ids::{CallbackId, WidgetId};

verus! {

/// Ways in which an interactive element builder configuration can be incomplete or inconsistent.
#[derive(Debug, Copy, Clone, PartialEq, Eq, Structural)]
pub enum InteractiveElementBuilderError {
    /// Missing `press_on_*`.
    MissingPressActivator,
    /// Missing `unpress_on_*`.
    MissingPressReleaser,
    /// Missing `select_on_*`.
    MissingSelectActivator,
    /// Setting `abort_press_on_press_away` is active in addition to something that uses `press_away`.
    InconsistentPressAway,
    /// An `unpress_on_unclick_*` setting is active but is inconsistent with other settings.
    InconsistentUnPressUnclick,
    /// A `no_hover_on_*` setting is active but no reason to track hovers was given.
    MissingHoverReason,
}

/// Widgets associated with the permutations of the hovered / pressed-home / selected states of an element.
#[derive(Debug, Copy, Clone, PartialEq, Eq, Structural)]
pub struct InteractiveElementWidgetPack {
    pub default_widget: Option<WidgetId>,
    pub pressed_widget: Option<WidgetId>,
    pub selected_widget: Option<WidgetId>,
    pub hovered_widget: Option<WidgetId>,
    pub pressed_selected_widget: Option<WidgetId>,
    pub hover_selected_widget: Option<WidgetId>,
    pub hover_pressed_widget: Option<WidgetId>,
    pub hover_pressed_selected_widget: Option<WidgetId>,
}

impl InteractiveElementWidgetPack {
    /// The pack with no widgets.
    pub open spec fn spec_empty() -> Self {
        InteractiveElementWidgetPack {
            default_widget: None,
            pressed_widget: None,
            selected_widget: None,
            hovered_widget: None,
            pressed_selected_widget: None,
            hover_selected_widget: None,
            hover_pressed_widget: None,
            hover_pressed_selected_widget: None,
        }
    }

    /// Make a pack with no widgets.
    pub fn new() -> (res: Self)
        ensures
            res == Self::spec_empty(),
    {
        InteractiveElementWidgetPack {
            default_widget: None,
            pressed_widget: None,
            selected_widget: None,
            hovered_widget: None,
            pressed_selected_widget: None,
            hover_selected_widget: None,
            hover_pressed_widget: None,
            hover_pressed_selected_widget: None,
        }
    }

    /// Whether the pack holds no widget.
    pub fn is_empty(&self) -> (res: bool)
        ensures
            res == (*self == Self::spec_empty()),
    {
        self.default_widget.is_none() && self.pressed_widget.is_none()
            && self.selected_widget.is_none() && self.hovered_widget.is_none()
            && self.pressed_selected_widget.is_none() && self.hover_selected_widget.is_none()
            && self.hover_pressed_widget.is_none() && self.hover_pressed_selected_widget.is_none()
    }
}

/// Builder for an interactive UI element.
///
/// An interactive element is a UI widget that responds to clicks and hovers. It can enter a temporary 'pressed'
/// state (home or away from its press home zone), a possibly persistent 'selected' state, and a 'hovered' state.
/// The builder decides when each state is entered and left, which widgets show in which state, and which user
/// callbacks are invoked at each step. Callbacks are referred to by the handles of the user's systems.
#[derive(Debug, Copy, Clone, PartialEq, Eq, Structural)]
pub struct InteractiveElementBuilder {
    pub widget_pack: InteractiveElementWidgetPack,
    pub press_home_zone: Option<WidgetId>,
    pub press_on_click: bool,
    pub press_on_clickhold: bool,
    pub unpress_on_unclick_home: bool,
    pub unpress_on_unclick_away: bool,
    pub unpress_on_press_away: bool,
    pub abort_press_on_unclick_away: bool,
    pub abort_press_on_press_away: bool,
    pub abort_press_if_obstructed: bool,
    pub select_on_click: bool,
    pub select_on_press_start: bool,
    pub select_on_unpress: bool,
    pub select_on_hover_start: bool,
    pub with_select_toggling: bool,
    pub no_hover_on_pressed: bool,
    pub no_hover_on_selected: bool,
    pub no_hover_on_pressed_selected: bool,
    pub on_click_callback: Option<CallbackId>,
    pub on_clickhold_callback: Option<CallbackId>,
    pub on_unclick_callback: Option<CallbackId>,
    pub on_hover_start_callback: Option<CallbackId>,
    pub on_hover_callback: Option<CallbackId>,
    pub on_unhover_callback: Option<CallbackId>,
    pub startpress_callback: Option<CallbackId>,
    pub press_home_start_callback: Option<CallbackId>,
    pub press_home_callback: Option<CallbackId>,
    pub press_away_start_callback: Option<CallbackId>,
    pub press_away_always_callback: Option<CallbackId>,
    pub press_away_present_callback: Option<CallbackId>,
    pub press_away_obstructed_callback: Option<CallbackId>,
    pub unpress_callback: Option<CallbackId>,
    pub abortpress_callback: Option<CallbackId>,
    pub select_callback: Option<CallbackId>,
    pub deselect_callback: Option<CallbackId>,
}

/// The element will be pressed on some interaction.
pub open spec fn spec_pressable(b: InteractiveElementBuilder) -> bool {
    b.press_on_click || b.press_on_clickhold
}

/// The element will be selected on some interaction.
pub open spec fn spec_selectable(b: InteractiveElementBuilder) -> bool {
    b.select_on_click || b.select_on_press_start || b.select_on_unpress || b.select_on_hover_start
}

/// The element has a reason to track hovers.
pub open spec fn spec_hoverable(b: InteractiveElementBuilder) -> bool {
    b.widget_pack.hovered_widget is Some || b.widget_pack.hover_selected_widget is Some
        || b.widget_pack.hover_pressed_widget is Some
        || b.widget_pack.hover_pressed_selected_widget is Some || b.select_on_hover_start
        || b.on_hover_start_callback is Some || b.on_hover_callback is Some
        || b.on_unhover_callback is Some
}

/// Some setting releases a press.
pub open spec fn spec_unpress_on_any(b: InteractiveElementBuilder) -> bool {
    b.unpress_on_unclick_home || b.unpress_on_unclick_away || b.unpress_on_press_away
}

/// The configuration holds a piece that only makes sense for a pressable element.
pub open spec fn spec_has_press_piece(b: InteractiveElementBuilder) -> bool {
    b.widget_pack.pressed_widget is Some || b.widget_pack.pressed_selected_widget is Some
        || b.widget_pack.hover_pressed_widget is Some
        || b.widget_pack.hover_pressed_selected_widget is Some || b.press_home_zone is Some
        || b.abort_press_on_unclick_away || b.abort_press_on_press_away
        || b.abort_press_if_obstructed || b.select_on_press_start || b.select_on_unpress
        || b.no_hover_on_pressed || b.no_hover_on_pressed_selected || b.on_unclick_callback is Some
        || b.startpress_callback is Some || b.press_away_start_callback is Some
        || b.press_away_always_callback is Some || b.press_away_present_callback is Some
        || b.press_away_obstructed_callback is Some || b.unpress_callback is Some
        || b.abortpress_callback is Some
}

/// Result of checking the press settings, in the order in which the checks apply.
pub open spec fn spec_check_press(b: InteractiveElementBuilder) -> Result<(), InteractiveElementBuilderError> {
    if b.abort_press_on_press_away && (b.unpress_on_press_away || b.press_away_start_callback is Some
        || b.press_away_always_callback is Some || b.press_away_present_callback is Some
        || b.press_away_obstructed_callback is Some) {
        Err(InteractiveElementBuilderError::InconsistentPressAway)
    } else if b.unpress_on_unclick_home && !(b.unpress_on_unclick_away || b.unpress_on_press_away
        || b.abort_press_on_unclick_away) {
        Err(InteractiveElementBuilderError::InconsistentUnPressUnclick)
    } else if b.unpress_on_unclick_away && !b.unpress_on_unclick_home {
        Err(InteractiveElementBuilderError::InconsistentUnPressUnclick)
    } else if spec_pressable(b) && spec_unpress_on_any(b) {
        Ok(())
    } else if spec_pressable(b) {
        Err(InteractiveElementBuilderError::MissingPressReleaser)
    } else if spec_unpress_on_any(b) || spec_has_press_piece(b) {
        Err(InteractiveElementBuilderError::MissingPressActivator)
    } else {
        Ok(())
    }
}

/// Result of checking the select settings.
pub open spec fn spec_check_select(b: InteractiveElementBuilder) -> Result<(), InteractiveElementBuilderError> {
    if spec_selectable(b) {
        Ok(())
    } else if b.widget_pack.selected_widget is Some || b.with_select_toggling || b.no_hover_on_selected
        || b.no_hover_on_pressed_selected || b.select_callback is Some || b.deselect_callback is Some {
        Err(InteractiveElementBuilderError::MissingSelectActivator)
    } else {
        Ok(())
    }
}

/// Result of checking the hover settings.
pub open spec fn spec_check_hover(b: InteractiveElementBuilder) -> Result<(), InteractiveElementBuilderError> {
    if spec_hoverable(b) {
        Ok(())
    } else if b.no_hover_on_pressed || b.no_hover_on_selected || b.no_hover_on_pressed_selected {
        Err(InteractiveElementBuilderError::MissingHoverReason)
    } else {
        Ok(())
    }
}

/// Result of checking the whole configuration: press checks, then select checks, then hover checks.
pub open spec fn spec_check_all(b: InteractiveElementBuilder) -> Result<(), InteractiveElementBuilderError> {
    if spec_check_press(b) is Err {
        spec_check_press(b)
    } else if spec_check_select(b) is Err {
        spec_check_select(b)
    } else {
        spec_check_hover(b)
    }
}

/// Check that the press settings are complete and consistent.
pub fn check_press_invariants(builder: &InteractiveElementBuilder) -> (res: Result<(), InteractiveElementBuilderError>)
    ensures
        res == spec_check_press(*builder),
{
    let b = builder;
    // press_away consistency
    if b.abort_press_on_press_away && (b.unpress_on_press_away || b.press_away_start_callback.is_some()
        || b.press_away_always_callback.is_some() || b.press_away_present_callback.is_some()
        || b.press_away_obstructed_callback.is_some()) {
        return Err(InteractiveElementBuilderError::InconsistentPressAway);
    }
    // unclick consistency
    if b.unpress_on_unclick_home && !(b.unpress_on_unclick_away || b.unpress_on_press_away
        || b.abort_press_on_unclick_away) {
        return Err(InteractiveElementBuilderError::InconsistentUnPressUnclick);
    }
    if b.unpress_on_unclick_away && !b.unpress_on_unclick_home {
        return Err(InteractiveElementBuilderError::InconsistentUnPressUnclick);
    }
    // will the element be pressed and unpressed
    let press_on_x = b.element_is_pressable();
    let unpress_on_x = b.unpress_on_unclick_home || b.unpress_on_unclick_away || b.unpress_on_press_away;
    if press_on_x && unpress_on_x {
        return Ok(());
    }
    if press_on_x && !unpress_on_x {
        return Err(InteractiveElementBuilderError::MissingPressReleaser);
    }
    if !press_on_x && unpress_on_x {
        return Err(InteractiveElementBuilderError::MissingPressActivator);
    }
    // the element won't be pressed, so there must be no press pieces
    let error = Err(InteractiveElementBuilderError::MissingPressActivator);
    let p = &b.widget_pack;
    if p.pressed_widget.is_some() || p.pressed_selected_widget.is_some() || p.hover_pressed_widget.is_some()
        || p.hover_pressed_selected_widget.is_some() {
        return error;
    }
    if b.press_home_zone.is_some() || b.abort_press_on_unclick_away || b.abort_press_on_press_away
        || b.abort_press_if_obstructed {
        return error;
    }
    if b.select_on_press_start || b.select_on_unpress || b.no_hover_on_pressed || b.no_hover_on_pressed_selected {
        return error;
    }
    if b.on_unclick_callback.is_some() || b.startpress_callback.is_some() || b.press_away_start_callback.is_some()
        || b.press_away_always_callback.is_some() || b.press_away_present_callback.is_some()
        || b.press_away_obstructed_callback.is_some() || b.unpress_callback.is_some()
        || b.abortpress_callback.is_some() {
        return error;
    }
    Ok(())
}

/// Check that the select settings are complete.
/// (The element owner is in charge of deselecting, so auto-deselection is not required.)
pub fn check_select_invariants(builder: &InteractiveElementBuilder) -> (res: Result<(), InteractiveElementBuilderError>)
    ensures
        res == spec_check_select(*builder),
{
    let b = builder;
    if b.element_is_selectable() {
        return Ok(());
    }
    if b.widget_pack.selected_widget.is_some() || b.with_select_toggling || b.no_hover_on_selected
        || b.no_hover_on_pressed_selected || b.select_callback.is_some() || b.deselect_callback.is_some() {
        return Err(InteractiveElementBuilderError::MissingSelectActivator);
    }
    Ok(())
}

/// Check that the hover settings are complete (unhovering is automatic).
pub fn check_hover_invariants(builder: &InteractiveElementBuilder) -> (res: Result<(), InteractiveElementBuilderError>)
    ensures
        res == spec_check_hover(*builder),
{
    let b = builder;
    if b.element_is_hoverable() {
        return Ok(());
    }
    if b.no_hover_on_pressed || b.no_hover_on_selected || b.no_hover_on_pressed_selected {
        return Err(InteractiveElementBuilderError::MissingHoverReason);
    }
    Ok(())
}

impl InteractiveElementBuilder {
    /// The builder with nothing set.
    pub open spec fn spec_default() -> Self {
        InteractiveElementBuilder {
            widget_pack: InteractiveElementWidgetPack::spec_empty(),
            press_home_zone: None,
            press_on_click: false,
            press_on_clickhold: false,
            unpress_on_unclick_home: false,
            unpress_on_unclick_away: false,
            unpress_on_press_away: false,
            abort_press_on_unclick_away: false,
            abort_press_on_press_away: false,
            abort_press_if_obstructed: false,
            select_on_click: false,
            select_on_press_start: false,
            select_on_unpress: false,
            select_on_hover_start: false,
            with_select_toggling: false,
            no_hover_on_pressed: false,
            no_hover_on_selected: false,
            no_hover_on_pressed_selected: false,
            on_click_callback: None,
            on_clickhold_callback: None,
            on_unclick_callback: None,
            on_hover_start_callback: None,
            on_hover_callback: None,
            on_unhover_callback: None,
            startpress_callback: None,
            press_home_start_callback: None,
            press_home_callback: None,
            press_away_start_callback: None,
            press_away_always_callback: None,
            press_away_present_callback: None,
            press_away_obstructed_callback: None,
            unpress_callback: None,
            abortpress_callback: None,
            select_callback: None,
            deselect_callback: None,
        }
    }

    /// New empty builder.
    pub fn new() -> (res: Self)
        ensures
            res == Self::spec_default(),
    {
        InteractiveElementBuilder {
            widget_pack: InteractiveElementWidgetPack::new(),
            press_home_zone: None,
            press_on_click: false,
            press_on_clickhold: false,
            unpress_on_unclick_home: false,
            unpress_on_unclick_away: false,
            unpress_on_press_away: false,
            abort_press_on_unclick_away: false,
            abort_press_on_press_away: false,
            abort_press_if_obstructed: false,
            select_on_click: false,
            select_on_press_start: false,
            select_on_unpress: false,
            select_on_hover_start: false,
            with_select_toggling: false,
            no_hover_on_pressed: false,
            no_hover_on_selected: false,
            no_hover_on_pressed_selected: false,
            on_click_callback: None,
            on_clickhold_callback: None,
            on_unclick_callback: None,
            on_hover_start_callback: None,
            on_hover_callback: None,
            on_unhover_callback: None,
            startpress_callback: None,
            press_home_start_callback: None,
            press_home_callback: None,
            press_away_start_callback: None,
            press_away_always_callback: None,
            press_away_present_callback: None,
            press_away_obstructed_callback: None,
            unpress_callback: None,
            abortpress_callback: None,
            select_callback: None,
            deselect_callback: None,
        }
    }

    /// Whether the element will be pressed on some interaction.
    pub fn element_is_pressable(&self) -> (res: bool)
        ensures
            res == spec_pressable(*self),
    {
        self.press_on_click || self.press_on_clickhold
    }

    /// Whether the element will be selected on some interaction.
    pub fn element_is_selectable(&self) -> (res: bool)
        ensures
            res == spec_selectable(*self),
    {
        self.select_on_click || self.select_on_press_start || self.select_on_unpress || self.select_on_hover_start
    }

    /// Whether the element has a reason to track hovers.
    pub fn element_is_hoverable(&self) -> (res: bool)
        ensures
            res == spec_hoverable(*self),
    {
        self.widget_pack.hovered_widget.is_some() || self.widget_pack.hover_selected_widget.is_some()
            || self.widget_pack.hover_pressed_widget.is_some()
            || self.widget_pack.hover_pressed_selected_widget.is_some() || self.select_on_hover_start
            || self.on_hover_start_callback.is_some() || self.on_hover_callback.is_some()
            || self.on_unhover_callback.is_some()
    }
}

} // verus!
