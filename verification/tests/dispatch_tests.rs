use main_menu::dispatch::{
    apply_change, change_reaction, click_action, dispatch_frame, frame, run_frames, ButtonColor,
    ButtonId, Element, Interaction, MenuAction,
};

#[test]
fn fresh_element_is_idle_and_base() {
    let e = Element::new(ButtonId::StartGame);
    assert_eq!(e.id, ButtonId::StartGame);
    assert_eq!(e.state, Interaction::Idle);
    assert_eq!(e.color, ButtonColor::Base);
}

#[test]
fn untouched_element_stays_base() {
    let mut e = Element::new(ButtonId::StartGame);
    let states = vec![Interaction::Idle; 10];
    let fired = run_frames(&mut e, &states);
    assert!(fired.is_empty());
    assert_eq!(e.state, Interaction::Idle);
    assert_eq!(e.color, ButtonColor::Base);
}

#[test]
fn hover_transition_highlights_without_firing() {
    let mut e = Element::new(ButtonId::StartGame);
    let fired = frame(&mut e, Interaction::Hovered);
    assert_eq!(fired, None);
    assert_eq!(e.state, Interaction::Hovered);
    assert_eq!(e.color, ButtonColor::Highlight);
}

#[test]
fn press_transition_fires_once_with_identity() {
    let mut e = Element::new(ButtonId::StartGame);
    let fired = frame(&mut e, Interaction::Pressed);
    assert_eq!(fired, Some(ButtonId::StartGame));
    assert_eq!(e.state, Interaction::Pressed);
    assert_eq!(e.color, ButtonColor::Accent);
}

#[test]
fn press_from_hovered_also_fires() {
    let mut e = Element::new(ButtonId::StartGame);
    assert_eq!(frame(&mut e, Interaction::Hovered), None);
    let fired = frame(&mut e, Interaction::Pressed);
    assert_eq!(fired, Some(ButtonId::StartGame));
    assert_eq!(e.color, ButtonColor::Accent);
}

#[test]
fn holding_press_does_not_fire_again() {
    let mut e = Element::new(ButtonId::StartGame);
    let first = frame(&mut e, Interaction::Pressed);
    let second = frame(&mut e, Interaction::Pressed);
    let third = frame(&mut e, Interaction::Pressed);
    assert_eq!(first, Some(ButtonId::StartGame));
    assert_eq!(second, None);
    assert_eq!(third, None);
    assert_eq!(e.state, Interaction::Pressed);
    assert_eq!(e.color, ButtonColor::Accent);
}

#[test]
fn release_resets_to_base_without_firing() {
    let mut e = Element::new(ButtonId::StartGame);
    frame(&mut e, Interaction::Pressed);
    let fired = frame(&mut e, Interaction::Idle);
    assert_eq!(fired, None);
    assert_eq!(e.state, Interaction::Idle);
    assert_eq!(e.color, ButtonColor::Base);
}

#[test]
fn apply_change_recolors_after_state() {
    let mut e = Element::new(ButtonId::StartGame);
    let fired = apply_change(&mut e, Interaction::Hovered);
    assert_eq!(fired, None);
    assert_eq!(e.color, ButtonColor::Highlight);
    let fired = apply_change(&mut e, Interaction::Idle);
    assert_eq!(fired, None);
    assert_eq!(e.color, ButtonColor::Base);
}

#[test]
fn start_game_sequence_fires_once_and_resets() {
    let mut e = Element::new(ButtonId::StartGame);
    let states = vec![
        Interaction::Idle,
        Interaction::Hovered,
        Interaction::Pressed,
        Interaction::Pressed,
        Interaction::Idle,
    ];
    let fired = run_frames(&mut e, &states);
    assert_eq!(fired.len(), 1);
    assert_eq!(fired[0], ButtonId::StartGame);
    assert_eq!(e.state, Interaction::Idle);
    assert_eq!(e.color, ButtonColor::Base);
}

#[test]
fn dispatch_frame_recolors_each_changed_element() {
    let mut elems = vec![
        Element::new(ButtonId::StartGame),
        Element::new(ButtonId::StartGame),
        Element::new(ButtonId::StartGame),
    ];
    let states = vec![Interaction::Pressed, Interaction::Hovered, Interaction::Idle];
    let fired = dispatch_frame(&mut elems, &states);
    assert_eq!(fired, vec![ButtonId::StartGame]);
    assert_eq!(elems[0].color, ButtonColor::Accent);
    assert_eq!(elems[1].color, ButtonColor::Highlight);
    assert_eq!(elems[2].color, ButtonColor::Base);
}

#[test]
fn dispatch_frame_on_held_presses_fires_nothing() {
    let mut elems = vec![Element::new(ButtonId::StartGame), Element::new(ButtonId::StartGame)];
    let press_all = vec![Interaction::Pressed, Interaction::Pressed];
    let fired = dispatch_frame(&mut elems, &press_all);
    assert_eq!(fired.len(), 2);
    let fired_again = dispatch_frame(&mut elems, &press_all);
    assert!(fired_again.is_empty());
    assert_eq!(elems[0].color, ButtonColor::Accent);
    assert_eq!(elems[1].color, ButtonColor::Accent);
}

#[test]
fn change_reaction_fires_only_on_press() {
    assert_eq!(change_reaction(Interaction::Pressed), (ButtonColor::Accent, true));
    assert_eq!(change_reaction(Interaction::Hovered), (ButtonColor::Highlight, false));
    assert_eq!(change_reaction(Interaction::Idle), (ButtonColor::Base, false));
}

#[test]
fn click_action_closes_window() {
    assert_eq!(click_action(ButtonId::StartGame), MenuAction::CloseWindow);
}
