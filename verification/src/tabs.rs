use vstd::prelude::*;

verus! {

/// A key press as the player logic sees it.
#[derive(Clone, Copy, Debug, PartialEq, Eq, Structural)]
pub enum Key {
    Up,
    Down,
    Left,
    Right,
    Enter,
    Esc,
    Delete,
    Other,
}

/// A key press as the terminal reports it: one of the keys that the areas know, or a character.
#[derive(Clone, Copy, Debug, PartialEq, Eq, Structural)]
pub enum Keystroke {
    Key(Key),
    Char(char),
}

/// The key that the areas see of a press: a character is none of theirs.
pub open spec fn spec_stroke_key(stroke: Keystroke) -> Key {
    match stroke {
        Keystroke::Key(k) => k,
        Keystroke::Char(_) => Key::Other,
    }
}

/// The five focusable areas of the player screen.
#[derive(Clone, Copy, Debug, PartialEq, Eq, Structural)]
pub enum Tabs {
    ListArea,
    EffectArea,
    DurationBarArea,
    ButtonsArea,
    VolArea,
}

/// Which area holds the focus, and whether it has been entered.
#[derive(Clone, Copy, Debug, PartialEq, Eq, Structural)]
pub enum TabState {
    Focused(Tabs),
    Selected(Tabs),
    NoFocus,
}

/// The areas reached from one area by the four arrow keys.
#[derive(Clone, Copy, Debug, PartialEq, Eq, Structural)]
pub struct NextZone {
    pub up: Option<Tabs>,
    pub down: Option<Tabs>,
    pub left: Option<Tabs>,
    pub right: Option<Tabs>,
}

/// The screen layout: the area reached from `tab` by the arrow `key`.
pub open spec fn neighbor(tab: Tabs, key: Key) -> Option<Tabs> {
    match tab {
        Tabs::ListArea => match key {
            Key::Down => Some(Tabs::DurationBarArea),
            Key::Right => Some(Tabs::EffectArea),
            _ => None,
        },
        Tabs::EffectArea => match key {
            Key::Down => Some(Tabs::DurationBarArea),
            Key::Left => Some(Tabs::ListArea),
            _ => None,
        },
        Tabs::DurationBarArea => match key {
            Key::Up => Some(Tabs::ListArea),
            Key::Down => Some(Tabs::ButtonsArea),
            _ => None,
        },
        Tabs::ButtonsArea => match key {
            Key::Up => Some(Tabs::DurationBarArea),
            Key::Right => Some(Tabs::VolArea),
            _ => None,
        },
        Tabs::VolArea => match key {
            Key::Up => Some(Tabs::DurationBarArea),
            Key::Left => Some(Tabs::ButtonsArea),
            _ => None,
        },
    }
}

/// Where an arrow key moves the focus when no area is focused.
pub open spec fn entry_tab(key: Key) -> Option<Tabs> {
    match key {
        Key::Up => Some(Tabs::ButtonsArea),
        Key::Down => Some(Tabs::ListArea),
        Key::Left => Some(Tabs::EffectArea),
        Key::Right => Some(Tabs::ListArea),
        _ => None,
    }
}

/// The area that the focus moves to from a state that is not `Selected`.
pub open spec fn focus_target(state: TabState, key: Key) -> Option<Tabs> {
    match state {
        TabState::Focused(tab) => neighbor(tab, key),
        TabState::NoFocus => entry_tab(key),
        TabState::Selected(_) => None,
    }
}

impl Tabs {
    /// The neighbours of this area in the four directions.
    pub fn get_next_zone(&self) -> (zone: NextZone)
        ensures
            zone.up == neighbor(*self, Key::Up),
            zone.down == neighbor(*self, Key::Down),
            zone.left == neighbor(*self, Key::Left),
            zone.right == neighbor(*self, Key::Right),
    {
        match self {
            Tabs::ListArea => NextZone {
                up: None,
                down: Some(Tabs::DurationBarArea),
                left: None,
                right: Some(Tabs::EffectArea),
            },
            Tabs::EffectArea => NextZone {
                up: None,
                down: Some(Tabs::DurationBarArea),
                left: Some(Tabs::ListArea),
                right: None,
            },
            Tabs::DurationBarArea => NextZone {
                up: Some(Tabs::ListArea),
                down: Some(Tabs::ButtonsArea),
                left: None,
                right: None,
            },
            Tabs::ButtonsArea => NextZone {
                up: Some(Tabs::DurationBarArea),
                down: None,
                left: None,
                right: Some(Tabs::VolArea),
            },
            Tabs::VolArea => NextZone {
                up: Some(Tabs::DurationBarArea),
                down: None,
                left: Some(Tabs::ButtonsArea),
                right: None,
            },
        }
    }
}

/// The state after entering the focused area; any other state stays as it is.
pub open spec fn spec_select(state: TabState) -> TabState {
    match state {
        TabState::Focused(tab) => TabState::Selected(tab),
        s => s,
    }
}

impl TabState {
    /// Enters the focused area; any other state is left as it is.
    pub fn select(&mut self)
        ensures
            *final(self) == spec_select(*old(self)),
    {
        match *self {
            TabState::Focused(tab) => {
                *self = TabState::Selected(tab);
            },
            _ => {},
        }
    }

    /// The area that `key` moves the focus to. An entered area keeps the arrow keys for itself,
    /// so this is asked only of a state that is not `Selected`.
    pub fn get_focus_tab(&self, key: Key) -> (r: Option<Tabs>)
        requires
            !(*self is Selected),
        ensures
            r == focus_target(*self, key),
    {
        let n = match self {
            TabState::Focused(tabs) => tabs.get_next_zone(),
            TabState::Selected(_) => {
                NextZone { up: None, down: None, left: None, right: None }
            },
            TabState::NoFocus => NextZone {
                up: Some(Tabs::ButtonsArea),
                down: Some(Tabs::ListArea),
                left: Some(Tabs::EffectArea),
                right: Some(Tabs::ListArea),
            },
        };
        match key {
            Key::Up => n.up,
            Key::Down => n.down,
            Key::Left => n.left,
            Key::Right => n.right,
            _ => None,
        }
    }
}

/// What a key asks of the area that holds the focus.
#[derive(Clone, Copy, Debug, PartialEq, Eq, Structural)]
pub enum FocusAction {
    /// Nothing further happens.
    Nothing,
    /// The area has just been entered.
    TabSelected(Tabs),
    /// The entered area handles the key itself.
    TabKey(Tabs, Key),
    /// The area has just been left.
    TabDeselected(Tabs),
}

pub open spec fn is_arrow(key: Key) -> bool {
    key == Key::Up || key == Key::Down || key == Key::Left || key == Key::Right
}

/// The focus state after `key`, and what the key asks of an area.
pub open spec fn spec_focus_step(state: TabState, key: Key) -> (TabState, FocusAction) {
    if is_arrow(key) {
        match state {
            TabState::Selected(tab) => (state, FocusAction::TabKey(tab, key)),
            _ => match focus_target(state, key) {
                Some(t) => (TabState::Focused(t), FocusAction::Nothing),
                None => (TabState::NoFocus, FocusAction::Nothing),
            },
        }
    } else if key == Key::Enter {
        match state {
            TabState::Focused(tab) => (TabState::Selected(tab), FocusAction::TabSelected(tab)),
            TabState::Selected(tab) => (state, FocusAction::TabKey(tab, key)),
            TabState::NoFocus => (state, FocusAction::Nothing),
        }
    } else if key == Key::Esc {
        match state {
            TabState::Focused(_) => (TabState::NoFocus, FocusAction::Nothing),
            TabState::Selected(tab) => (TabState::Focused(tab), FocusAction::TabDeselected(tab)),
            TabState::NoFocus => (state, FocusAction::Nothing),
        }
    } else {
        match state {
            TabState::Selected(tab) => (state, FocusAction::TabKey(tab, key)),
            _ => (state, FocusAction::Nothing),
        }
    }
}

/// Moves the focus for a key press while no popup is shown: arrows move between areas, Enter
/// enters the focused area, Esc leaves it, and an entered area receives the other keys.
pub fn focus_step(state: TabState, key: Key) -> (r: (TabState, FocusAction))
    ensures
        r == spec_focus_step(state, key),
{
    match key {
        Key::Up | Key::Down | Key::Left | Key::Right => match state {
            TabState::Selected(tab) => (state, FocusAction::TabKey(tab, key)),
            _ => {
                let next = state.get_focus_tab(key);
                match next {
                    Some(t) => (TabState::Focused(t), FocusAction::Nothing),
                    None => (TabState::NoFocus, FocusAction::Nothing),
                }
            },
        },
        Key::Enter => match state {
            TabState::Focused(tab) => {
                let mut s = state;
                s.select();
                (s, FocusAction::TabSelected(tab))
            },
            TabState::Selected(tab) => (state, FocusAction::TabKey(tab, Key::Enter)),
            TabState::NoFocus => (state, FocusAction::Nothing),
        },
        Key::Esc => match state {
            TabState::Focused(_) => (TabState::NoFocus, FocusAction::Nothing),
            TabState::Selected(tab) => (TabState::Focused(tab), FocusAction::TabDeselected(tab)),
            TabState::NoFocus => (state, FocusAction::Nothing),
        },
        _ => match state {
            TabState::Selected(tab) => (state, FocusAction::TabKey(tab, key)),
            _ => (state, FocusAction::Nothing),
        },
    }
}

/// Moving right and then left, or left and then right, comes back to the area one started in.
pub proof fn lemma_horizontal_moves_invert(tab: Tabs)
    ensures
        neighbor(tab, Key::Right) matches Some(u) ==> neighbor(u, Key::Left) == Some(tab),
        neighbor(tab, Key::Left) matches Some(u) ==> neighbor(u, Key::Right) == Some(tab),
{
}

/// Moving down and then up comes back to the starting area, except from the effect area, which
/// shares the duration bar below it with the list; moving up and then down comes back, except from
/// the volume area, which shares the duration bar above it with the buttons.
pub proof fn lemma_vertical_moves_invert(tab: Tabs)
    ensures
        tab != Tabs::EffectArea ==> (neighbor(tab, Key::Down) matches Some(u) ==> neighbor(
            u,
            Key::Up,
        ) == Some(tab)),
        tab != Tabs::VolArea ==> (neighbor(tab, Key::Up) matches Some(u) ==> neighbor(u, Key::Down)
            == Some(tab)),
{
}

/// Entering an area and leaving it again with Esc gives back the focused state; leaving the focus
/// with Esc leaves no area focused.
pub proof fn lemma_enter_then_escape(tab: Tabs)
    ensures
        spec_focus_step(spec_focus_step(TabState::Focused(tab), Key::Enter).0, Key::Esc).0
            == TabState::Focused(tab),
        spec_focus_step(TabState::Focused(tab), Key::Esc).0 == TabState::NoFocus,
{
}

/// Arrow keys never enter an area: after one, the state is `Focused` or `NoFocus`, unless the area
/// had already been entered, in which case the state does not change.
pub proof fn lemma_arrows_never_select(state: TabState, key: Key)
    requires
        is_arrow(key),
    ensures
        state is Selected ==> spec_focus_step(state, key).0 == state,
        !(state is Selected) ==> !(spec_focus_step(state, key).0 is Selected),
{
}

/// Selecting twice is the same as selecting once.
pub proof fn lemma_select_idempotent(state: TabState)
    ensures
        spec_select(spec_select(state)) == spec_select(state),
{
}

} // verus!
