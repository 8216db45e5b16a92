use vstd::prelude::*;
use crate::interaction::builder::{CallbackId, InteractiveElementBuilder, InteractiveElementWidgetPack, WidgetId};
use crate::interaction::builder_laws::{apply_step, BuilderStep};

verus! {

impl InteractiveElementBuilder {
    /// Add widget that is visible in the default state of the element.
    pub fn with_default_widget(self, widget: WidgetId) -> (res: Self)
        ensures
            res == (InteractiveElementBuilder {
                widget_pack: InteractiveElementWidgetPack { default_widget: Some(widget), ..self.widget_pack },
                ..self
            }),
            res == apply_step(self, BuilderStep::WithDefaultWidget(widget)),
    {
        let res = InteractiveElementBuilder {
            widget_pack: InteractiveElementWidgetPack { default_widget: Some(widget), ..self.widget_pack },
            ..self
        };
        assert(res == apply_step(self, BuilderStep::WithDefaultWidget(widget)));
        res
    }

    /// Add widget that is visible when the element is `Pressed::Home`.
    pub fn with_pressed_widget(self, widget: WidgetId) -> (res: Self)
        ensures
            res == (InteractiveElementBuilder {
                widget_pack: InteractiveElementWidgetPack { pressed_widget: Some(widget), ..self.widget_pack },
                ..self
            }),
            res == apply_step(self, BuilderStep::WithPressedWidget(widget)),
    {
        let mut s = self;
        s.widget_pack.pressed_widget = Some(widget);
        s
    }

    /// Add widget that is visible when the element is `Hovered`.
    pub fn with_hovered_widget(self, widget: WidgetId) -> (res: Self)
        ensures
            res == (InteractiveElementBuilder {
                widget_pack: InteractiveElementWidgetPack { hovered_widget: Some(widget), ..self.widget_pack },
                ..self
            }),
            res == apply_step(self, BuilderStep::WithHoveredWidget(widget)),
    {
        let mut s = self;
        s.widget_pack.hovered_widget = Some(widget);
        s
    }

    /// Add widget that is visible when the element is `Selected`.
    pub fn with_selected_widget(self, widget: WidgetId) -> (res: Self)
        ensures
            res == (InteractiveElementBuilder {
                widget_pack: InteractiveElementWidgetPack { selected_widget: Some(widget), ..self.widget_pack },
                ..self
            }),
            res == apply_step(self, BuilderStep::WithSelectedWidget(widget)),
    {
        let mut s = self;
        s.widget_pack.selected_widget = Some(widget);
        s
    }

    /// Add widget that is visible when the element is `Pressed::Home` and `Selected`.
    /// - Takes precedence over `with_hover_pressed_widget` and `with_hover_selected_widget`.
    pub fn with_pressed_selected_widget(self, widget: WidgetId) -> (res: Self)
        ensures
            res == (InteractiveElementBuilder {
                widget_pack: InteractiveElementWidgetPack { pressed_selected_widget: Some(widget), ..self.widget_pack },
                ..self
            }),
            res == apply_step(self, BuilderStep::WithPressedSelectedWidget(widget)),
    {
        let mut s = self;
        s.widget_pack.pressed_selected_widget = Some(widget);
        s
    }

    /// Add widget that is visible when the element is `Hovered` and `Pressed::Home`.
    pub fn with_hover_pressed_widget(self, widget: WidgetId) -> (res: Self)
        ensures
            res == (InteractiveElementBuilder {
                widget_pack: InteractiveElementWidgetPack { hover_pressed_widget: Some(widget), ..self.widget_pack },
                ..self
            }),
            res == apply_step(self, BuilderStep::WithHoverPressedWidget(widget)),
    {
        let mut s = self;
        s.widget_pack.hover_pressed_widget = Some(widget);
        s
    }

    /// Add widget that is visible when the element is `Hovered` and `Selected`.
    pub fn with_hover_selected_widget(self, widget: WidgetId) -> (res: Self)
        ensures
            res == (InteractiveElementBuilder {
                widget_pack: InteractiveElementWidgetPack { hover_selected_widget: Some(widget), ..self.widget_pack },
                ..self
            }),
            res == apply_step(self, BuilderStep::WithHoverSelectedWidget(widget)),
    {
        let mut s = self;
        s.widget_pack.hover_selected_widget = Some(widget);
        s
    }

    /// Add widget that is visible when the element is `Hovered`, `Pressed::Home`, and `Selected`.
    /// - Takes precedence over all other widget visibility cases.
    pub fn with_hover_pressed_selected_widget(self, widget: WidgetId) -> (res: Self)
        ensures
            res == (InteractiveElementBuilder {
                widget_pack: InteractiveElementWidgetPack { hover_pressed_selected_widget: Some(widget), ..self.widget_pack },
                ..self
            }),
            res == apply_step(self, BuilderStep::WithHoverPressedSelectedWidget(widget)),
    {
        let mut s = self;
        s.widget_pack.hover_pressed_selected_widget = Some(widget);
        s
    }

    /// Add the widget for the zone where, if the element is pressed and the clicker is in the zone, the element is in
    /// state `Pressed::Home` (otherwise `Pressed::Away`). By default the press home zone is the element widget.
    pub fn with_press_home_zone(self, widget: WidgetId) -> (res: Self)
        ensures
            res == (InteractiveElementBuilder { press_home_zone: Some(widget), ..self }),
            res == apply_step(self, BuilderStep::WithPressHomeZone(widget)),
    {
        let mut s = self;
        s.press_home_zone = Some(widget);
        s
    }

    /// Press the element when a click is detected on the element (i.e. just clicked).
    /// - Disables setting `press_on_clickhold`.
    pub fn press_on_click(self) -> (res: Self)
        ensures
            res == (InteractiveElementBuilder { press_on_click: true, press_on_clickhold: false, ..self }),
            res == apply_step(self, BuilderStep::PressOnClick),
    {
        let mut s = self;
        s.press_on_click = true;
        s.press_on_clickhold = false;
        s
    }

    /// Press the element when a click or click hold is detected on the element.
    pub fn press_on_click_or_hold(self) -> (res: Self)
        ensures
            res == (InteractiveElementBuilder { press_on_click: true, press_on_clickhold: true, ..self }),
            res == apply_step(self, BuilderStep::PressOnClickOrHold),
    {
        let mut s = self;
        s.press_on_click = true;
        s.press_on_clickhold = true;
        s
    }

    /// Unpress the element when an unclick is detected on the element's press home zone, or abort the press
    /// if unclick is detected away from the press home zone.
    pub fn unpress_on_unclick_home_and_abort_on_unclick_away(self) -> (res: Self)
        ensures
            res == (InteractiveElementBuilder { unpress_on_unclick_home: true, abort_press_on_unclick_away: true, ..self }),
            res == apply_step(self, BuilderStep::UnpressOnUnclickHomeAndAbortOnUnclickAway),
    {
        let mut s = self;
        s.unpress_on_unclick_home = true;
        s.abort_press_on_unclick_away = true;
        s
    }

    /// Unpress the element when an unclick is detected anywhere.
    pub fn unpress_on_unclick_home_or_away(self) -> (res: Self)
        ensures
            res == (InteractiveElementBuilder { unpress_on_unclick_home: true, unpress_on_unclick_away: true, ..self }),
            res == apply_step(self, BuilderStep::UnpressOnUnclickHomeOrAway),
    {
        let mut s = self;
        s.unpress_on_unclick_home = true;
        s.unpress_on_unclick_away = true;
        s
    }

    /// Unpress the element when a click hold is detected away from the press home zone or if unclick is
    /// detected anywhere.
    /// - Disables setting `abort_press_on_press_away`.
    pub fn unpress_on_press_away_or_unclick_any(self) -> (res: Self)
        ensures
            res == (InteractiveElementBuilder { unpress_on_unclick_home: true, unpress_on_unclick_away: true, unpress_on_press_away: true, abort_press_on_unclick_away: false, abort_press_on_press_away: false, ..self }),
            res == apply_step(self, BuilderStep::UnpressOnPressAwayOrUnclickAny),
    {
        let mut s = self;
        s.unpress_on_unclick_home = true;
        s.unpress_on_unclick_away = true;
        s.unpress_on_press_away = true;
        s.abort_press_on_unclick_away = false;
        s.abort_press_on_press_away = false;
        s
    }

    /// Abort press when a click hold or unclick is detected away from the press home zone.
    /// - Disables settings `unpress_on_unclick_away`, `unpress_on_press_away`, and `abort_press_if_obstructed`.
    pub fn abort_press_on_press_away_or_unclick_away(self) -> (res: Self)
        ensures
            res == (InteractiveElementBuilder { unpress_on_unclick_away: false, unpress_on_press_away: false, abort_press_on_unclick_away: true, abort_press_on_press_away: true, abort_press_if_obstructed: false, ..self }),
            res == apply_step(self, BuilderStep::AbortPressOnPressAwayOrUnclickAway),
    {
        let mut s = self;
        s.unpress_on_unclick_away = false;
        s.unpress_on_press_away = false;
        s.abort_press_on_unclick_away = true;
        s.abort_press_on_press_away = true;
        s.abort_press_if_obstructed = false;
        s
    }

    /// Abort press when a click hold is detected away from the press home zone and the press home zone is obstructed.
    /// - Disables setting `abort_press_on_press_away`.
    pub fn abort_press_if_obstructed(self) -> (res: Self)
        ensures
            res == (InteractiveElementBuilder { abort_press_on_press_away: false, abort_press_if_obstructed: true, ..self }),
            res == apply_step(self, BuilderStep::AbortPressIfObstructed),
    {
        let mut s = self;
        s.abort_press_on_press_away = false;
        s.abort_press_if_obstructed = true;
        s
    }

    /// Select the element when a click is detected on the element (i.e. just clicked).
    pub fn select_on_click(self) -> (res: Self)
        ensures
            res == (InteractiveElementBuilder { select_on_click: true, select_on_press_start: false, select_on_unpress: false, select_on_hover_start: false, ..self }),
            res == apply_step(self, BuilderStep::SelectOnClick),
    {
        let mut s = self;
        s.select_on_click = true;
        s.select_on_press_start = false;
        s.select_on_unpress = false;
        s.select_on_hover_start = false;
        s
    }

    /// Select the element when the element was just pressed.
    pub fn select_on_press_start(self) -> (res: Self)
        ensures
            res == (InteractiveElementBuilder { select_on_click: false, select_on_press_start: true, select_on_unpress: false, select_on_hover_start: false, ..self }),
            res == apply_step(self, BuilderStep::SelectOnPressStart),
    {
        let mut s = self;
        s.select_on_click = false;
        s.select_on_press_start = true;
        s.select_on_unpress = false;
        s.select_on_hover_start = false;
        s
    }

    /// Select the element when the element was just unpressed.
    pub fn select_on_unpress(self) -> (res: Self)
        ensures
            res == (InteractiveElementBuilder { select_on_click: false, select_on_press_start: false, select_on_unpress: true, select_on_hover_start: false, ..self }),
            res == apply_step(self, BuilderStep::SelectOnUnpress),
    {
        let mut s = self;
        s.select_on_click = false;
        s.select_on_press_start = false;
        s.select_on_unpress = true;
        s.select_on_hover_start = false;
        s
    }

    /// Select the element when the element just started being hovered.
    pub fn select_on_hover_start(self) -> (res: Self)
        ensures
            res == (InteractiveElementBuilder { select_on_click: false, select_on_press_start: false, select_on_unpress: false, select_on_hover_start: true, ..self }),
            res == apply_step(self, BuilderStep::SelectOnHoverStart),
    {
        let mut s = self;
        s.select_on_click = false;
        s.select_on_press_start = false;
        s.select_on_unpress = false;
        s.select_on_hover_start = true;
        s
    }

    /// Selecting the element will toggle between selecting/deselecting the element.
    pub fn with_select_toggling(self) -> (res: Self)
        ensures
            res == (InteractiveElementBuilder { with_select_toggling: true, ..self }),
            res == apply_step(self, BuilderStep::WithSelectToggling),
    {
        let mut s = self;
        s.with_select_toggling = true;
        s
    }

    /// Do not hover the element when it is `Pressed::{Home/Away}`.
    pub fn no_hover_on_pressed(self) -> (res: Self)
        ensures
            res == (InteractiveElementBuilder { no_hover_on_pressed: true, ..self }),
            res == apply_step(self, BuilderStep::NoHoverOnPressed),
    {
        let mut s = self;
        s.no_hover_on_pressed = true;
        s
    }

    /// Do not hover the element when it is `Selected`.
    pub fn no_hover_on_selected(self) -> (res: Self)
        ensures
            res == (InteractiveElementBuilder { no_hover_on_selected: true, ..self }),
            res == apply_step(self, BuilderStep::NoHoverOnSelected),
    {
        let mut s = self;
        s.no_hover_on_selected = true;
        s
    }

    /// Do not hover the element when it is `Pressed::{Home/Away}` and `Selected`.
    pub fn no_hover_on_pressed_selected(self) -> (res: Self)
        ensures
            res == (InteractiveElementBuilder { no_hover_on_pressed_selected: true, ..self }),
            res == apply_step(self, BuilderStep::NoHoverOnPressedSelected),
    {
        let mut s = self;
        s.no_hover_on_pressed_selected = true;
        s
    }

    /// Callback invoked when a click is detected on the element (i.e. just clicked).
    pub fn on_click(self, callback: CallbackId) -> (res: Self)
        ensures
            res == (InteractiveElementBuilder { on_click_callback: Some(callback), ..self }),
            res == apply_step(self, BuilderStep::OnClick(callback)),
    {
        let mut s = self;
        s.on_click_callback = Some(callback);
        s
    }

    /// Callback invoked when click hold is detected on the element (every tick while true).
    pub fn on_clickhold(self, callback: CallbackId) -> (res: Self)
        ensures
            res == (InteractiveElementBuilder { on_clickhold_callback: Some(callback), ..self }),
            res == apply_step(self, BuilderStep::OnClickhold(callback)),
    {
        let mut s = self;
        s.on_clickhold_callback = Some(callback);
        s
    }

    /// Callback invoked when an unclick is detected and the element is pressed; it takes a flag telling
    /// whether the cursor was above the press home zone.
    pub fn on_unclick(self, callback: CallbackId) -> (res: Self)
        ensures
            res == (InteractiveElementBuilder { on_unclick_callback: Some(callback), ..self }),
            res == apply_step(self, BuilderStep::OnUnclick(callback)),
    {
        let mut s = self;
        s.on_unclick_callback = Some(callback);
        s
    }

    /// Callback invoked when the element just started being hovered.
    pub fn on_hover_start(self, callback: CallbackId) -> (res: Self)
        ensures
            res == (InteractiveElementBuilder { on_hover_start_callback: Some(callback), ..self }),
            res == apply_step(self, BuilderStep::OnHoverStart(callback)),
    {
        let mut s = self;
        s.on_hover_start_callback = Some(callback);
        s
    }

    /// Callback invoked when the element is being hovered (every tick while true).
    pub fn on_hover(self, callback: CallbackId) -> (res: Self)
        ensures
            res == (InteractiveElementBuilder { on_hover_callback: Some(callback), ..self }),
            res == apply_step(self, BuilderStep::OnHover(callback)),
    {
        let mut s = self;
        s.on_hover_callback = Some(callback);
        s
    }

    /// Callback invoked when the element stops being hovered.
    pub fn on_unhover(self, callback: CallbackId) -> (res: Self)
        ensures
            res == (InteractiveElementBuilder { on_unhover_callback: Some(callback), ..self }),
            res == apply_step(self, BuilderStep::OnUnhover(callback)),
    {
        let mut s = self;
        s.on_unhover_callback = Some(callback);
        s
    }

    /// Callback invoked when the element is just pressed.
    pub fn on_startpress(self, callback: CallbackId) -> (res: Self)
        ensures
            res == (InteractiveElementBuilder { startpress_callback: Some(callback), ..self }),
            res == apply_step(self, BuilderStep::OnStartpress(callback)),
    {
        let mut s = self;
        s.startpress_callback = Some(callback);
        s
    }

    /// Callback invoked when the element just transitioned to `Pressed::Home`.
    pub fn on_press_home_start(self, callback: CallbackId) -> (res: Self)
        ensures
            res == (InteractiveElementBuilder { press_home_start_callback: Some(callback), ..self }),
            res == apply_step(self, BuilderStep::OnPressHomeStart(callback)),
    {
        let mut s = self;
        s.press_home_start_callback = Some(callback);
        s
    }

    /// Callback invoked when the element is in state `Pressed::Home` (every tick while true).
    pub fn on_press_home(self, callback: CallbackId) -> (res: Self)
        ensures
            res == (InteractiveElementBuilder { press_home_callback: Some(callback), ..self }),
            res == apply_step(self, BuilderStep::OnPressHome(callback)),
    {
        let mut s = self;
        s.press_home_callback = Some(callback);
        s
    }

    /// Callback invoked when the element just transitioned to `Pressed::Away`.
    pub fn on_press_away_start(self, callback: CallbackId) -> (res: Self)
        ensures
            res == (InteractiveElementBuilder { press_away_start_callback: Some(callback), ..self }),
            res == apply_step(self, BuilderStep::OnPressAwayStart(callback)),
    {
        let mut s = self;
        s.press_away_start_callback = Some(callback);
        s
    }

    /// Callback invoked when the element is in state `Pressed::Away` (every tick while true).
    pub fn on_press_away_always(self, callback: CallbackId) -> (res: Self)
        ensures
            res == (InteractiveElementBuilder { press_away_always_callback: Some(callback), ..self }),
            res == apply_step(self, BuilderStep::OnPressAwayAlways(callback)),
    {
        let mut s = self;
        s.press_away_always_callback = Some(callback);
        s
    }

    /// Callback invoked when the element is in state `Pressed::Away` and the element is present.
    pub fn on_press_away_present(self, callback: CallbackId) -> (res: Self)
        ensures
            res == (InteractiveElementBuilder { press_away_present_callback: Some(callback), ..self }),
            res == apply_step(self, BuilderStep::OnPressAwayPresent(callback)),
    {
        let mut s = self;
        s.press_away_present_callback = Some(callback);
        s
    }

    /// Callback invoked when the element is in state `Pressed::Away` and the element is obstructed.
    pub fn on_press_away_obstructed(self, callback: CallbackId) -> (res: Self)
        ensures
            res == (InteractiveElementBuilder { press_away_obstructed_callback: Some(callback), ..self }),
            res == apply_step(self, BuilderStep::OnPressAwayObstructed(callback)),
    {
        let mut s = self;
        s.press_away_obstructed_callback = Some(callback);
        s
    }

    /// Callback invoked when the element is unpressed.
    pub fn on_unpress(self, callback: CallbackId) -> (res: Self)
        ensures
            res == (InteractiveElementBuilder { unpress_callback: Some(callback), ..self }),
            res == apply_step(self, BuilderStep::OnUnpress(callback)),
    {
        let mut s = self;
        s.unpress_callback = Some(callback);
        s
    }

    /// Callback invoked when press is aborted on the element.
    pub fn on_abortpress(self, callback: CallbackId) -> (res: Self)
        ensures
            res == (InteractiveElementBuilder { abortpress_callback: Some(callback), ..self }),
            res == apply_step(self, BuilderStep::OnAbortpress(callback)),
    {
        let mut s = self;
        s.abortpress_callback = Some(callback);
        s
    }

    /// Callback invoked when the element is selected.
    pub fn on_select(self, callback: CallbackId) -> (res: Self)
        ensures
            res == (InteractiveElementBuilder { select_callback: Some(callback), ..self }),
            res == apply_step(self, BuilderStep::OnSelect(callback)),
    {
        let mut s = self;
        s.select_callback = Some(callback);
        s
    }

    /// Callback invoked when the element is deselected.
    pub fn on_deselect(self, callback: CallbackId) -> (res: Self)
        ensures
            res == (InteractiveElementBuilder { deselect_callback: Some(callback), ..self }),
            res == apply_step(self, BuilderStep::OnDeselect(callback)),
    {
        let mut s = self;
        s.deselect_callback = Some(callback);
        s
    }

}

} // verus!