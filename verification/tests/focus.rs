use oscilla::tabs::{focus_step, FocusAction, Key, TabState, Tabs};

#[test]
fn entry_keys_from_no_focus() {
    let s = TabState::NoFocus;
    assert_eq!(s.get_focus_tab(Key::Up), Some(Tabs::ButtonsArea));
    assert_eq!(s.get_focus_tab(Key::Down), Some(Tabs::ListArea));
    assert_eq!(s.get_focus_tab(Key::Left), Some(Tabs::EffectArea));
    assert_eq!(s.get_focus_tab(Key::Right), Some(Tabs::ListArea));
    assert_eq!(s.get_focus_tab(Key::Enter), None);
}

#[test]
fn neighbours_of_each_area() {
    let z = Tabs::ListArea.get_next_zone();
    assert_eq!((z.up, z.down, z.left, z.right), (None, Some(Tabs::DurationBarArea), None, Some(Tabs::EffectArea)));
    let z = Tabs::EffectArea.get_next_zone();
    assert_eq!((z.up, z.down, z.left, z.right), (None, Some(Tabs::DurationBarArea), Some(Tabs::ListArea), None));
    let z = Tabs::DurationBarArea.get_next_zone();
    assert_eq!((z.up, z.down, z.left, z.right), (Some(Tabs::ListArea), Some(Tabs::ButtonsArea), None, None));
    let z = Tabs::ButtonsArea.get_next_zone();
    assert_eq!((z.up, z.down, z.left, z.right), (Some(Tabs::DurationBarArea), None, None, Some(Tabs::VolArea)));
    let z = Tabs::VolArea.get_next_zone();
    assert_eq!((z.up, z.down, z.left, z.right), (Some(Tabs::DurationBarArea), None, Some(Tabs::ButtonsArea), None));
}

#[test]
fn horizontal_moves_invert() {
    for t in [Tabs::ListArea, Tabs::EffectArea, Tabs::DurationBarArea, Tabs::ButtonsArea, Tabs::VolArea] {
        if let Some(u) = TabState::Focused(t).get_focus_tab(Key::Right) {
            assert_eq!(TabState::Focused(u).get_focus_tab(Key::Left), Some(t));
        }
        if let Some(u) = TabState::Focused(t).get_focus_tab(Key::Left) {
            assert_eq!(TabState::Focused(u).get_focus_tab(Key::Right), Some(t));
        }
    }
}

#[test]
fn vertical_moves_do_not_invert_from_effect_area() {
    // down from the effect area reaches the duration bar, whose up leads to the list
    let d = TabState::Focused(Tabs::EffectArea).get_focus_tab(Key::Down).unwrap();
    assert_eq!(d, Tabs::DurationBarArea);
    assert_eq!(TabState::Focused(d).get_focus_tab(Key::Up), Some(Tabs::ListArea));
    let d = TabState::Focused(Tabs::ListArea).get_focus_tab(Key::Down).unwrap();
    assert_eq!(TabState::Focused(d).get_focus_tab(Key::Up), Some(Tabs::ListArea));
}

#[test]
fn select_only_enters_focused() {
    let mut s = TabState::Focused(Tabs::VolArea);
    s.select();
    assert_eq!(s, TabState::Selected(Tabs::VolArea));
    s.select();
    assert_eq!(s, TabState::Selected(Tabs::VolArea));
    let mut n = TabState::NoFocus;
    n.select();
    assert_eq!(n, TabState::NoFocus);
}

#[test]
fn enter_then_escape_round_trip() {
    let (s1, a1) = focus_step(TabState::Focused(Tabs::ListArea), Key::Enter);
    assert_eq!(s1, TabState::Selected(Tabs::ListArea));
    assert_eq!(a1, FocusAction::TabSelected(Tabs::ListArea));
    let (s2, a2) = focus_step(s1, Key::Esc);
    assert_eq!(s2, TabState::Focused(Tabs::ListArea));
    assert_eq!(a2, FocusAction::TabDeselected(Tabs::ListArea));
    let (s3, a3) = focus_step(s2, Key::Esc);
    assert_eq!(s3, TabState::NoFocus);
    assert_eq!(a3, FocusAction::Nothing);
}

#[test]
fn selected_area_receives_keys() {
    let s = TabState::Selected(Tabs::VolArea);
    assert_eq!(focus_step(s, Key::Up), (s, FocusAction::TabKey(Tabs::VolArea, Key::Up)));
    assert_eq!(focus_step(s, Key::Delete), (s, FocusAction::TabKey(Tabs::VolArea, Key::Delete)));
    assert_eq!(focus_step(s, Key::Enter), (s, FocusAction::TabKey(Tabs::VolArea, Key::Enter)));
}

#[test]
fn arrow_without_target_drops_focus() {
    assert_eq!(
        focus_step(TabState::Focused(Tabs::ListArea), Key::Up),
        (TabState::NoFocus, FocusAction::Nothing)
    );
    assert_eq!(
        focus_step(TabState::NoFocus, Key::Down),
        (TabState::Focused(Tabs::ListArea), FocusAction::Nothing)
    );
    assert_eq!(focus_step(TabState::NoFocus, Key::Other), (TabState::NoFocus, FocusAction::Nothing));
}
