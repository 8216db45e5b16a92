use vstd::prelude::*;
use crate::interaction::builder::{
    spec_check_all, spec_check_hover, spec_check_press, spec_check_select, spec_hoverable, spec_pressable,
    spec_selectable, CallbackId, InteractiveElementBuilder, InteractiveElementBuilderError,
    InteractiveElementWidgetPack, WidgetId,
};

verus! {

/// A call of one of the builder's setters, with its argument.
pub enum BuilderStep {
    WithDefaultWidget(WidgetId),
    WithPressedWidget(WidgetId),
    WithHoveredWidget(WidgetId),
    WithSelectedWidget(WidgetId),
    WithPressedSelectedWidget(WidgetId),
    WithHoverPressedWidget(WidgetId),
    WithHoverSelectedWidget(WidgetId),
    WithHoverPressedSelectedWidget(WidgetId),
    WithPressHomeZone(WidgetId),
    PressOnClick,
    PressOnClickOrHold,
    UnpressOnUnclickHomeAndAbortOnUnclickAway,
    UnpressOnUnclickHomeOrAway,
    UnpressOnPressAwayOrUnclickAny,
    AbortPressOnPressAwayOrUnclickAway,
    AbortPressIfObstructed,
    SelectOnClick,
    SelectOnPressStart,
    SelectOnUnpress,
    SelectOnHoverStart,
    WithSelectToggling,
    NoHoverOnPressed,
    NoHoverOnSelected,
    NoHoverOnPressedSelected,
    OnClick(CallbackId),
    OnClickhold(CallbackId),
    OnUnclick(CallbackId),
    OnHoverStart(CallbackId),
    OnHover(CallbackId),
    OnUnhover(CallbackId),
    OnStartpress(CallbackId),
    OnPressHomeStart(CallbackId),
    OnPressHome(CallbackId),
    OnPressAwayStart(CallbackId),
    OnPressAwayAlways(CallbackId),
    OnPressAwayPresent(CallbackId),
    OnPressAwayObstructed(CallbackId),
    OnUnpress(CallbackId),
    OnAbortpress(CallbackId),
    OnSelect(CallbackId),
    OnDeselect(CallbackId),
}

/// The builder after a setter call (each setter's contract states that it returns this).
pub open spec fn apply_step(b: InteractiveElementBuilder, step: BuilderStep) -> InteractiveElementBuilder {
    match step {
        BuilderStep::WithDefaultWidget(x) => InteractiveElementBuilder {
                widget_pack: InteractiveElementWidgetPack { default_widget: Some(x), ..b.widget_pack },
                ..b
            },
        BuilderStep::WithPressedWidget(x) => InteractiveElementBuilder {
                widget_pack: InteractiveElementWidgetPack { pressed_widget: Some(x), ..b.widget_pack },
                ..b
            },
        BuilderStep::WithHoveredWidget(x) => InteractiveElementBuilder {
                widget_pack: InteractiveElementWidgetPack { hovered_widget: Some(x), ..b.widget_pack },
                ..b
            },
        BuilderStep::WithSelectedWidget(x) => InteractiveElementBuilder {
                widget_pack: InteractiveElementWidgetPack { selected_widget: Some(x), ..b.widget_pack },
                ..b
            },
        BuilderStep::WithPressedSelectedWidget(x) => InteractiveElementBuilder {
                widget_pack: InteractiveElementWidgetPack { pressed_selected_widget: Some(x), ..b.widget_pack },
                ..b
            },
        BuilderStep::WithHoverPressedWidget(x) => InteractiveElementBuilder {
                widget_pack: InteractiveElementWidgetPack { hover_pressed_widget: Some(x), ..b.widget_pack },
                ..b
            },
        BuilderStep::WithHoverSelectedWidget(x) => InteractiveElementBuilder {
                widget_pack: InteractiveElementWidgetPack { hover_selected_widget: Some(x), ..b.widget_pack },
                ..b
            },
        BuilderStep::WithHoverPressedSelectedWidget(x) => InteractiveElementBuilder {
                widget_pack: InteractiveElementWidgetPack { hover_pressed_selected_widget: Some(x), ..b.widget_pack },
                ..b
            },
        BuilderStep::WithPressHomeZone(x) => InteractiveElementBuilder { press_home_zone: Some(x), ..b },
        BuilderStep::PressOnClick => InteractiveElementBuilder { press_on_click: true, press_on_clickhold: false, ..b },
        BuilderStep::PressOnClickOrHold => InteractiveElementBuilder { press_on_click: true, press_on_clickhold: true, ..b },
        BuilderStep::UnpressOnUnclickHomeAndAbortOnUnclickAway => InteractiveElementBuilder { unpress_on_unclick_home: true, abort_press_on_unclick_away: true, ..b },
        BuilderStep::UnpressOnUnclickHomeOrAway => InteractiveElementBuilder { unpress_on_unclick_home: true, unpress_on_unclick_away: true, ..b },
        BuilderStep::UnpressOnPressAwayOrUnclickAny => InteractiveElementBuilder { unpress_on_unclick_home: true, unpress_on_unclick_away: true, unpress_on_press_away: true, abort_press_on_unclick_away: false, abort_press_on_press_away: false, ..b },
        BuilderStep::AbortPressOnPressAwayOrUnclickAway => InteractiveElementBuilder { unpress_on_unclick_away: false, unpress_on_press_away: false, abort_press_on_unclick_away: true, abort_press_on_press_away: true, abort_press_if_obstructed: false, ..b },
        BuilderStep::AbortPressIfObstructed => InteractiveElementBuilder { abort_press_on_press_away: false, abort_press_if_obstructed: true, ..b },
        BuilderStep::SelectOnClick => InteractiveElementBuilder { select_on_click: true, select_on_press_start: false, select_on_unpress: false, select_on_hover_start: false, ..b },
        BuilderStep::SelectOnPressStart => InteractiveElementBuilder { select_on_click: false, select_on_press_start: true, select_on_unpress: false, select_on_hover_start: false, ..b },
        BuilderStep::SelectOnUnpress => InteractiveElementBuilder { select_on_click: false, select_on_press_start: false, select_on_unpress: true, select_on_hover_start: false, ..b },
        BuilderStep::SelectOnHoverStart => InteractiveElementBuilder { select_on_click: false, select_on_press_start: false, select_on_unpress: false, select_on_hover_start: true, ..b },
        BuilderStep::WithSelectToggling => InteractiveElementBuilder { with_select_toggling: true, ..b },
        BuilderStep::NoHoverOnPressed => InteractiveElementBuilder { no_hover_on_pressed: true, ..b },
        BuilderStep::NoHoverOnSelected => InteractiveElementBuilder { no_hover_on_selected: true, ..b },
        BuilderStep::NoHoverOnPressedSelected => InteractiveElementBuilder { no_hover_on_pressed_selected: true, ..b },
        BuilderStep::OnClick(x) => InteractiveElementBuilder { on_click_callback: Some(x), ..b },
        BuilderStep::OnClickhold(x) => InteractiveElementBuilder { on_clickhold_callback: Some(x), ..b },
        BuilderStep::OnUnclick(x) => InteractiveElementBuilder { on_unclick_callback: Some(x), ..b },
        BuilderStep::OnHoverStart(x) => InteractiveElementBuilder { on_hover_start_callback: Some(x), ..b },
        BuilderStep::OnHover(x) => InteractiveElementBuilder { on_hover_callback: Some(x), ..b },
        BuilderStep::OnUnhover(x) => InteractiveElementBuilder { on_unhover_callback: Some(x), ..b },
        BuilderStep::OnStartpress(x) => InteractiveElementBuilder { startpress_callback: Some(x), ..b },
        BuilderStep::OnPressHomeStart(x) => InteractiveElementBuilder { press_home_start_callback: Some(x), ..b },
        BuilderStep::OnPressHome(x) => InteractiveElementBuilder { press_home_callback: Some(x), ..b },
        BuilderStep::OnPressAwayStart(x) => InteractiveElementBuilder { press_away_start_callback: Some(x), ..b },
        BuilderStep::OnPressAwayAlways(x) => InteractiveElementBuilder { press_away_always_callback: Some(x), ..b },
        BuilderStep::OnPressAwayPresent(x) => InteractiveElementBuilder { press_away_present_callback: Some(x), ..b },
        BuilderStep::OnPressAwayObstructed(x) => InteractiveElementBuilder { press_away_obstructed_callback: Some(x), ..b },
        BuilderStep::OnUnpress(x) => InteractiveElementBuilder { unpress_callback: Some(x), ..b },
        BuilderStep::OnAbortpress(x) => InteractiveElementBuilder { abortpress_callback: Some(x), ..b },
        BuilderStep::OnSelect(x) => InteractiveElementBuilder { select_callback: Some(x), ..b },
        BuilderStep::OnDeselect(x) => InteractiveElementBuilder { deselect_callback: Some(x), ..b },
    }
}

/// The builder obtained from `InteractiveElementBuilder::new()` by the setter calls `steps`, in order.
pub open spec fn build_from(steps: Seq<BuilderStep>) -> InteractiveElementBuilder
    decreases steps.len(),
{
    if steps.len() == 0 {
        InteractiveElementBuilder::spec_default()
    } else {
        apply_step(build_from(steps.drop_last()), steps.last())
    }
}

/// What the setters keep: unpressing on an unclick at home comes with a way to end a press away from home, and
/// unpressing on an unclick away only with unpressing at home; press on click-hold only with press on click;
/// press-away aborts never with press-away unpresses or with obstruction aborts; at most one `select_on_*`.
pub open spec fn setters_invariant(b: InteractiveElementBuilder) -> bool {
    &&& b.unpress_on_unclick_home ==> (b.unpress_on_unclick_away || b.unpress_on_press_away
        || b.abort_press_on_unclick_away)
    &&& b.unpress_on_unclick_away ==> b.unpress_on_unclick_home
    &&& b.press_on_clickhold ==> b.press_on_click
    &&& !(b.abort_press_on_press_away && b.unpress_on_press_away)
    &&& !(b.abort_press_on_press_away && b.abort_press_if_obstructed)
    &&& (b.select_on_click as int) + (b.select_on_press_start as int) + (b.select_on_unpress as int) + (
    b.select_on_hover_start as int) <= 1
}

/// Every builder made from `new()` by any sequence of setter calls keeps the setters' invariant, so its press
/// check never reports inconsistent unclick settings.
pub proof fn lemma_setters_keep_invariant(steps: Seq<BuilderStep>)
    ensures
        setters_invariant(build_from(steps)),
        spec_check_press(build_from(steps)) != Err::<(), InteractiveElementBuilderError>(
            InteractiveElementBuilderError::InconsistentUnPressUnclick,
        ),
    decreases steps.len(),
{
    if steps.len() > 0 {
        lemma_setters_keep_invariant(steps.drop_last());
    }
}

/// An element that is never pressed (no `press_on_*`) cannot hold a piece that only a pressed element uses — a
/// widget for a pressed state, a press home zone, a press abort or unpress setting, a select or no-hover setting
/// tied to pressing, or a press callback: the press check fails, and so does the whole configuration check (so
/// `build` fails). When no other press setting is inconsistent, the failure is `MissingPressActivator`.
pub proof fn lemma_press_pieces_need_press(b: InteractiveElementBuilder)
    requires
        !b.press_on_click,
        !b.press_on_clickhold,
        b.widget_pack.pressed_widget is Some || b.widget_pack.pressed_selected_widget is Some
            || b.widget_pack.hover_pressed_widget is Some || b.widget_pack.hover_pressed_selected_widget is Some
            || b.press_home_zone is Some || b.abort_press_on_unclick_away || b.abort_press_on_press_away
            || b.abort_press_if_obstructed || b.select_on_press_start || b.select_on_unpress
            || b.no_hover_on_pressed || b.no_hover_on_pressed_selected || b.on_unclick_callback is Some
            || b.startpress_callback is Some || b.press_away_start_callback is Some
            || b.press_away_always_callback is Some || b.press_away_present_callback is Some
            || b.press_away_obstructed_callback is Some || b.unpress_callback is Some
            || b.abortpress_callback is Some || b.unpress_on_unclick_home || b.unpress_on_unclick_away
            || b.unpress_on_press_away,
    ensures
        spec_check_press(b) is Err,
        spec_check_all(b) is Err,
        spec_check_press(b) == Err::<(), InteractiveElementBuilderError>(
            InteractiveElementBuilderError::MissingPressActivator,
        ) || spec_check_press(b) == Err::<(), InteractiveElementBuilderError>(
            InteractiveElementBuilderError::InconsistentPressAway,
        ) || spec_check_press(b) == Err::<(), InteractiveElementBuilderError>(
            InteractiveElementBuilderError::InconsistentUnPressUnclick,
        ),
        !b.abort_press_on_press_away && !b.unpress_on_unclick_home && !b.unpress_on_unclick_away
            ==> spec_check_press(b) == Err::<(), InteractiveElementBuilderError>(
            InteractiveElementBuilderError::MissingPressActivator,
        ),
{
    assert(!spec_pressable(b));
}

/// An element that presses but has nothing that ends a press (no unpress setting) is refused with
/// `MissingPressReleaser`, unless its press-away settings are inconsistent; one that presses and unpresses, with
/// consistent settings, passes the press check.
pub proof fn lemma_press_needs_release(b: InteractiveElementBuilder)
    requires
        b.press_on_click || b.press_on_clickhold,
    ensures
        !b.unpress_on_unclick_home && !b.unpress_on_unclick_away && !b.unpress_on_press_away
            && !b.abort_press_on_press_away ==> spec_check_press(b) == Err::<(), InteractiveElementBuilderError>(
            InteractiveElementBuilderError::MissingPressReleaser,
        ),
        !b.abort_press_on_press_away && b.unpress_on_unclick_home && b.unpress_on_unclick_away ==> spec_check_press(b)
            is Ok,
        !b.abort_press_on_press_away && b.unpress_on_press_away && !b.unpress_on_unclick_home
            && !b.unpress_on_unclick_away ==> spec_check_press(b) is Ok,
{
}

/// An element that is never selected (no `select_on_*`) cannot hold a select piece — a selected widget, select
/// toggling, a no-hover setting tied to selection, or a select or deselect callback: the select check fails with
/// `MissingSelectActivator`, and the whole configuration check fails.
pub proof fn lemma_select_pieces_need_select(b: InteractiveElementBuilder)
    requires
        !b.select_on_click,
        !b.select_on_press_start,
        !b.select_on_unpress,
        !b.select_on_hover_start,
        b.widget_pack.selected_widget is Some || b.with_select_toggling || b.no_hover_on_selected
            || b.no_hover_on_pressed_selected || b.select_callback is Some || b.deselect_callback is Some,
    ensures
        spec_check_select(b) == Err::<(), InteractiveElementBuilderError>(
            InteractiveElementBuilderError::MissingSelectActivator,
        ),
        spec_check_all(b) is Err,
{
    assert(!spec_selectable(b));
}

/// A `no_hover_on_*` setting needs a reason to track hovers (a hover widget, select on hover start, or a hover
/// callback): without one the hover check fails with `MissingHoverReason`, and the whole configuration check fails.
pub proof fn lemma_no_hover_needs_hover(b: InteractiveElementBuilder)
    requires
        b.widget_pack.hovered_widget is None,
        b.widget_pack.hover_selected_widget is None,
        b.widget_pack.hover_pressed_widget is None,
        b.widget_pack.hover_pressed_selected_widget is None,
        !b.select_on_hover_start,
        b.on_hover_start_callback is None,
        b.on_hover_callback is None,
        b.on_unhover_callback is None,
        b.no_hover_on_pressed || b.no_hover_on_selected || b.no_hover_on_pressed_selected,
    ensures
        spec_check_hover(b) == Err::<(), InteractiveElementBuilderError>(
            InteractiveElementBuilderError::MissingHoverReason,
        ),
        spec_check_all(b) is Err,
{
    assert(!spec_hoverable(b));
}

/// The empty builder passes every check.
pub proof fn lemma_empty_builder_passes()
    ensures
        spec_check_all(InteractiveElementBuilder::spec_default()) is Ok,
{
}

} // verus!
