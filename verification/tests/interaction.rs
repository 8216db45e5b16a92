use bevy_kot::interaction::builder::{
    check_hover_invariants, check_press_invariants, check_select_invariants, InteractiveElementBuilder,
    InteractiveElementBuilderError, InteractiveElementWidgetPack,
};
use bevy_kot::interaction::callback_tracker::InteractiveCallbackTracker;
use bevy_kot::interaction::element::{
    hover_is_allowed, visible_widget, widgets_to_hide, ElementEffect, ElementState, Pressed,
};

fn button() -> InteractiveElementBuilder {
    InteractiveElementBuilder::new()
        .with_default_widget(10)
        .with_pressed_widget(11)
        .press_on_click()
        .unpress_on_unclick_home_and_abort_on_unclick_away()
        .on_unpress(7)
}

#[test]
fn empty_builder_builds_an_inert_element() {
    let b = InteractiveElementBuilder::new().build(1).unwrap();
    assert_eq!(b.element_widget, 1);
    assert_eq!(b.press_home_zone, None);
    let mut st = ElementState::new();
    let mut eff = Vec::new();
    assert!(!b.on_click(&mut st, &mut eff));
    assert!(!b.on_hover(&mut st, &mut eff));
    assert!(!b.on_unhover(&mut st, &mut eff));
    assert!(!b.on_unclick(&mut st, true, &mut eff));
    assert!(eff.is_empty());
    assert_eq!(st, ElementState::new());
}

#[test]
fn press_without_release_is_refused() {
    let r = InteractiveElementBuilder::new().press_on_click().build(1);
    assert_eq!(r.unwrap_err(), InteractiveElementBuilderError::MissingPressReleaser);
}

#[test]
fn press_pieces_without_activator_are_refused() {
    let r = InteractiveElementBuilder::new().on_unpress(5).build(1);
    assert_eq!(r.unwrap_err(), InteractiveElementBuilderError::MissingPressActivator);
    let r = InteractiveElementBuilder::new().unpress_on_unclick_home_or_away().build(1);
    assert_eq!(r.unwrap_err(), InteractiveElementBuilderError::MissingPressActivator);
    let r = InteractiveElementBuilder::new().with_press_home_zone(4).build(1);
    assert_eq!(r.unwrap_err(), InteractiveElementBuilderError::MissingPressActivator);
}

#[test]
fn select_pieces_without_activator_are_refused() {
    let r = InteractiveElementBuilder::new().with_selected_widget(3).build(1);
    assert_eq!(r.unwrap_err(), InteractiveElementBuilderError::MissingSelectActivator);
    let r = InteractiveElementBuilder::new().with_select_toggling().build(1);
    assert_eq!(r.unwrap_err(), InteractiveElementBuilderError::MissingSelectActivator);
}

#[test]
fn no_hover_without_reason_is_refused() {
    let r = button().no_hover_on_pressed().build(1);
    assert_eq!(r.unwrap_err(), InteractiveElementBuilderError::MissingHoverReason);
    assert!(button().no_hover_on_pressed().on_hover(3).build(1).is_ok());
}

#[test]
fn inconsistent_press_away_is_refused() {
    let r = InteractiveElementBuilder::new()
        .press_on_click()
        .unpress_on_unclick_home_and_abort_on_unclick_away()
        .abort_press_on_press_away_or_unclick_away()
        .on_press_away_start(9)
        .build(1);
    assert_eq!(r.unwrap_err(), InteractiveElementBuilderError::InconsistentPressAway);
}

#[test]
fn inconsistent_unclick_is_refused() {
    let mut b = InteractiveElementBuilder::new().press_on_click();
    b.unpress_on_unclick_home = true;
    assert_eq!(b.build(1).unwrap_err(), InteractiveElementBuilderError::InconsistentUnPressUnclick);
    let mut b = InteractiveElementBuilder::new().press_on_click();
    b.unpress_on_unclick_away = true;
    assert_eq!(check_press_invariants(&b), Err(InteractiveElementBuilderError::InconsistentUnPressUnclick));
}

#[test]
fn checks_run_press_then_select_then_hover() {
    // press and select are both broken: the press error wins
    let b = InteractiveElementBuilder::new().press_on_click().with_selected_widget(2);
    assert_eq!(b.build(1).unwrap_err(), InteractiveElementBuilderError::MissingPressReleaser);
    let b = InteractiveElementBuilder::new().with_selected_widget(2).no_hover_on_selected();
    assert_eq!(check_select_invariants(&b), Err(InteractiveElementBuilderError::MissingSelectActivator));
    assert_eq!(check_hover_invariants(&b), Err(InteractiveElementBuilderError::MissingHoverReason));
    assert_eq!(b.build(1).unwrap_err(), InteractiveElementBuilderError::MissingSelectActivator);
}

#[test]
fn press_home_zone_defaults_to_element_widget() {
    assert_eq!(button().build(1).unwrap().press_home_zone, Some(1));
    assert_eq!(button().with_press_home_zone(4).build(1).unwrap().press_home_zone, Some(4));
}

#[test]
fn button_press_and_release() {
    let b = button().build(1).unwrap();
    let mut st = ElementState::new();

    let mut eff = Vec::new();
    assert!(b.on_click(&mut st, &mut eff));
    assert_eq!(st.pressed, Some(Pressed::Home));
    assert_eq!(eff, vec![ElementEffect::ShowWidget(Some(11))]);

    let mut eff = Vec::new();
    assert!(b.on_unclick(&mut st, true, &mut eff));
    assert_eq!(st.pressed, None);
    assert_eq!(eff, vec![ElementEffect::Invoke(7), ElementEffect::ShowWidget(Some(10))]);
}

#[test]
fn button_press_aborted_by_unclick_away() {
    let b = button().on_abortpress(8).build(1).unwrap();
    let mut st = ElementState::new();
    let mut eff = Vec::new();
    b.on_click(&mut st, &mut eff);
    let mut eff = Vec::new();
    assert!(b.on_unclick(&mut st, false, &mut eff));
    assert_eq!(st.pressed, None);
    assert_eq!(eff, vec![ElementEffect::Invoke(8), ElementEffect::ShowWidget(Some(10))]);
}

#[test]
fn pressing_twice_does_not_restart() {
    let b = button().on_startpress(6).build(1).unwrap();
    let mut st = ElementState::new();
    let mut eff = Vec::new();
    b.on_click(&mut st, &mut eff);
    assert_eq!(eff, vec![ElementEffect::Invoke(6), ElementEffect::ShowWidget(Some(11))]);
    let mut eff = Vec::new();
    b.start_press(&mut st, &mut eff);
    assert!(eff.is_empty());
}

#[test]
fn unclick_reports_home_to_its_callback() {
    let b = button().on_unclick(4).build(1).unwrap();
    let mut st = ElementState::new();
    let mut eff = Vec::new();
    b.on_click(&mut st, &mut eff);
    let mut eff = Vec::new();
    b.on_unclick(&mut st, false, &mut eff);
    assert_eq!(eff[0], ElementEffect::InvokeWith(4, false));
}

#[test]
fn select_toggling() {
    let b = InteractiveElementBuilder::new()
        .select_on_click()
        .with_select_toggling()
        .on_select(1)
        .on_deselect(2)
        .build(5)
        .unwrap();
    let mut st = ElementState::new();
    let mut eff = Vec::new();
    b.on_click(&mut st, &mut eff);
    assert!(st.selected);
    assert_eq!(eff, vec![ElementEffect::Invoke(1)]);
    let mut eff = Vec::new();
    b.on_click(&mut st, &mut eff);
    assert!(!st.selected);
    assert_eq!(eff, vec![ElementEffect::Invoke(2)]);
}

#[test]
fn select_without_toggling_stays_selected() {
    let b = InteractiveElementBuilder::new().select_on_click().on_select(1).build(5).unwrap();
    let mut st = ElementState::new();
    let mut eff = Vec::new();
    b.on_click(&mut st, &mut eff);
    b.on_click(&mut st, &mut eff);
    assert!(st.selected);
    assert_eq!(eff, vec![ElementEffect::Invoke(1)]);
    let mut eff = Vec::new();
    assert!(b.deselect(&mut st, &mut eff));
    assert!(!st.selected);
}

#[test]
fn hover_start_and_end() {
    let b = InteractiveElementBuilder::new()
        .with_default_widget(10)
        .with_hovered_widget(12)
        .on_hover_start(3)
        .on_hover(4)
        .on_unhover(5)
        .build(1)
        .unwrap();
    let mut st = ElementState::new();
    let mut eff = Vec::new();
    assert!(b.on_hover(&mut st, &mut eff));
    assert!(st.hovered);
    assert_eq!(eff, vec![ElementEffect::Invoke(3), ElementEffect::Invoke(4), ElementEffect::ShowWidget(Some(12))]);
    let mut eff = Vec::new();
    b.on_hover(&mut st, &mut eff);
    assert_eq!(eff, vec![ElementEffect::Invoke(4)]);
    let mut eff = Vec::new();
    assert!(b.on_unhover(&mut st, &mut eff));
    assert!(!st.hovered);
    assert_eq!(eff, vec![ElementEffect::Invoke(5), ElementEffect::ShowWidget(Some(10))]);
}

#[test]
fn no_hover_on_pressed_unhovers_on_press() {
    let b = button().with_hover_pressed_widget(13).no_hover_on_pressed().on_unhover(5).build(1).unwrap();
    let mut st = ElementState::new();
    let mut eff = Vec::new();
    b.on_hover(&mut st, &mut eff);
    assert!(st.hovered);
    let mut eff = Vec::new();
    b.on_click(&mut st, &mut eff);
    assert_eq!(st.pressed, Some(Pressed::Home));
    assert!(!st.hovered);
    assert_eq!(
        eff,
        vec![ElementEffect::Invoke(5), ElementEffect::ShowWidget(Some(11)), ElementEffect::ShowWidget(Some(11))]
    );
    // hovering is not allowed while pressed
    assert!(!hover_is_allowed(&b.config, &st));
    let mut eff = Vec::new();
    assert!(b.on_hover(&mut st, &mut eff));
    assert!(!st.hovered);
    assert!(eff.is_empty());
}

#[test]
fn visible_widget_precedence() {
    let mut p = InteractiveElementWidgetPack::new();
    p.default_widget = Some(1);
    p.pressed_widget = Some(2);
    p.hover_pressed_selected_widget = Some(8);
    let st = ElementState { pressed: Some(Pressed::Home), selected: true, hovered: true };
    assert_eq!(visible_widget(&p, &st), Some(8));
    let st = ElementState { pressed: Some(Pressed::Home), selected: false, hovered: false };
    assert_eq!(visible_widget(&p, &st), Some(2));
    // pressed away shows as not pressed
    let st = ElementState { pressed: Some(Pressed::Away), selected: false, hovered: false };
    assert_eq!(visible_widget(&p, &st), Some(1));
    // missing state widget falls back to the default
    let st = ElementState { pressed: None, selected: true, hovered: false };
    assert_eq!(visible_widget(&p, &st), Some(1));
}

#[test]
fn widgets_to_hide_lists_the_others() {
    let mut p = InteractiveElementWidgetPack::new();
    assert!(p.is_empty());
    p.default_widget = Some(1);
    p.pressed_widget = Some(2);
    p.hovered_widget = Some(4);
    assert!(!p.is_empty());
    assert_eq!(widgets_to_hide(&p, Some(2)), vec![1, 4]);
    assert_eq!(widgets_to_hide(&p, None), vec![1, 2, 4]);
}

#[test]
fn press_away_tracking() {
    let b = InteractiveElementBuilder::new()
        .press_on_click()
        .unpress_on_unclick_home_and_abort_on_unclick_away()
        .on_press_away_start(20)
        .on_press_away_always(21)
        .on_press_away_present(22)
        .on_press_away_obstructed(23)
        .on_press_home_start(24)
        .on_press_home(25)
        .build(1)
        .unwrap();
    let mut st = ElementState::new();
    let mut eff = Vec::new();
    b.on_click(&mut st, &mut eff);
    let mut eff = Vec::new();
    assert!(b.on_click_hold_away(&mut st, true, &mut eff));
    assert_eq!(st.pressed, Some(Pressed::Away));
    assert_eq!(eff, vec![ElementEffect::Invoke(20), ElementEffect::Invoke(21), ElementEffect::Invoke(22)]);
    let mut eff = Vec::new();
    b.on_click_hold_away(&mut st, false, &mut eff);
    assert_eq!(eff, vec![ElementEffect::Invoke(21), ElementEffect::Invoke(23)]);
    let mut eff = Vec::new();
    assert!(b.on_click_hold_home(&mut st, &mut eff));
    assert_eq!(st.pressed, Some(Pressed::Home));
    assert_eq!(eff, vec![ElementEffect::Invoke(25), ElementEffect::Invoke(24)]);
}

#[test]
fn callback_tracker_cleanup() {
    let mut t = InteractiveCallbackTracker::new();
    t.add(1, 10);
    t.add(2, 20);
    t.add(1, 11);
    assert_eq!(t.cleanup(&vec![1, 3, 1]), vec![10, 11]);
    assert_eq!(t.remove(2), vec![20]);
    assert_eq!(t.remove(2), Vec::<u64>::new());
}

use bevy_kot::interaction::pipeline::{
    handle_hover, handle_is_clicked, handle_is_clicked_away, handle_is_clicked_home, handle_just_clicked,
    handle_just_unclicked, handle_unhover, make_info_pack, pipeline_steps, select_target, InteractionSourceInfoPack,
    PipelineStep,
};

#[test]
fn pipeline_unclick_before_click_when_clicked_again() {
    let info = make_info_pack(true, true, true, Some(3), None, false);
    assert_eq!(info.targeted, Some(3));
    assert!(info.target_is_hovered);
    assert_eq!(
        pipeline_steps(&info),
        vec![
            PipelineStep::JustUnclicked,
            PipelineStep::IsClickedAway,
            PipelineStep::JustClicked,
            PipelineStep::IsClicked,
            PipelineStep::IsClickedHome,
            PipelineStep::Hover,
            PipelineStep::Unhover,
        ]
    );
}

#[test]
fn pipeline_unclick_after_click_handlers_otherwise() {
    let info = InteractionSourceInfoPack {
        just_clicked: false,
        is_clicked: false,
        just_unclicked: true,
        target_is_hovered: false,
        targeted: None,
    };
    assert_eq!(pipeline_steps(&info), vec![PipelineStep::JustUnclicked, PipelineStep::Unhover]);
}

#[test]
fn pressed_target_wins_over_unpressed() {
    assert_eq!(select_target(Some(1), Some(2), false), (Some(2), false));
    assert_eq!(select_target(Some(1), Some(2), true), (Some(2), true));
    assert_eq!(select_target(Some(1), None, false), (Some(1), true));
    assert_eq!(select_target(None, None, true), (None, false));
}

#[test]
fn pipeline_handlers_pick_the_target() {
    let info = make_info_pack(true, true, false, None, Some(5), false);
    let with = vec![4, 5];
    // the element widget is not under the cursor: element handlers do not fire
    assert_eq!(handle_just_clicked(&info, &with), None);
    assert_eq!(handle_is_clicked(&info, &with), None);
    assert_eq!(handle_hover(&info, &with), None);
    // the press home zone handler does
    assert_eq!(handle_is_clicked_home(&info, &with), Some(5));
    assert_eq!(handle_is_clicked_home(&info, &vec![4]), None);
    let info = make_info_pack(true, true, false, None, Some(5), true);
    assert_eq!(handle_just_clicked(&info, &with), Some(5));
    assert_eq!(handle_is_clicked(&info, &with), Some(5));
    assert_eq!(handle_hover(&info, &with), Some(5));
}

#[test]
fn pipeline_clicked_away_skips_target_and_absent() {
    let info = make_info_pack(false, true, false, None, Some(5), true);
    let pressed = vec![(5, Some(true)), (6, Some(false)), (7, None), (8, Some(true))];
    assert_eq!(handle_is_clicked_away(&info, &pressed), vec![(6, false), (8, true)]);
    let idle = make_info_pack(false, false, false, None, Some(5), true);
    assert!(handle_is_clicked_away(&idle, &pressed).is_empty());
}

#[test]
fn pipeline_unclick_and_unhover() {
    let info = make_info_pack(false, false, true, Some(2), None, false);
    assert_eq!(handle_just_unclicked(&info, &vec![1, 2]), vec![(1, false), (2, true)]);
    assert_eq!(handle_unhover(&info, &vec![1, 2, 3]), vec![1, 3]);
    let no_unclick = make_info_pack(false, false, false, Some(2), None, false);
    assert!(handle_just_unclicked(&no_unclick, &vec![1, 2]).is_empty());
}

#[test]
fn pressed_selected_widget_precedes_hover_pairs() {
    let mut p = InteractiveElementWidgetPack::new();
    p.default_widget = Some(1);
    p.pressed_selected_widget = Some(5);
    p.hover_pressed_widget = Some(6);
    p.hover_selected_widget = Some(7);
    let st = ElementState { pressed: Some(Pressed::Home), selected: true, hovered: true };
    assert_eq!(visible_widget(&p, &st), Some(5));
    assert_eq!(widgets_to_hide(&p, Some(5)), vec![1, 7, 6]);
    // hovered and selected, not pressed: the hover-selected widget
    let st = ElementState { pressed: None, selected: true, hovered: true };
    assert_eq!(visible_widget(&p, &st), Some(7));
    // hovered and pressed with only a pressed widget: the pressed widget
    let mut q = InteractiveElementWidgetPack::new();
    q.default_widget = Some(1);
    q.pressed_widget = Some(2);
    let st = ElementState { pressed: Some(Pressed::Home), selected: false, hovered: true };
    assert_eq!(visible_widget(&q, &st), Some(2));
}

#[test]
fn setters_keep_unclick_settings_consistent() {
    let b = InteractiveElementBuilder::new()
        .press_on_click_or_hold()
        .unpress_on_unclick_home_or_away()
        .abort_press_on_press_away_or_unclick_away()
        .abort_press_if_obstructed();
    assert!(b.unpress_on_unclick_home && !b.unpress_on_unclick_away && b.abort_press_on_unclick_away);
    assert!(!b.abort_press_on_press_away && b.abort_press_if_obstructed);
    assert_ne!(check_press_invariants(&b), Err(InteractiveElementBuilderError::InconsistentUnPressUnclick));
    assert!(b.build(1).is_ok());
    let b = InteractiveElementBuilder::new().select_on_click().select_on_hover_start();
    assert!(!b.select_on_click && b.select_on_hover_start);
}
