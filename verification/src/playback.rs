use vstd::prelude::*;

use crate::tabs::Key;

verus! {

/// What the player is doing, with the index of the track in the play list.
#[derive(Clone, Copy, Debug, PartialEq, Eq, Structural)]
pub enum PlayState {
    Playing(usize),
    Paused(usize),
    Stopped,
}

/// The face of the play button.
#[derive(Clone, Copy, Debug, PartialEq, Eq, Hash, Structural)]
pub enum PlayButtonState {
    Playing,
    Paused,
    Stopped,
}

/// How a button is drawn.
#[derive(Clone, Copy, Debug, PartialEq, Eq, Structural)]
pub enum ButtonState {
    Normal,
    Focused,
}

/// The buttons of the button row, from left to right.
#[derive(Clone, Copy, Debug, PartialEq, Eq, Hash, Structural)]
pub enum ButtonIdent {
    PlayOrPause(PlayButtonState),
    Prev,
    Next,
}

pub open spec fn spec_play_button_state(s: PlayState) -> PlayButtonState {
    match s {
        PlayState::Playing(_) => PlayButtonState::Playing,
        PlayState::Paused(_) => PlayButtonState::Paused,
        PlayState::Stopped => PlayButtonState::Stopped,
    }
}

pub open spec fn spec_now_playing_idx(s: PlayState) -> Option<usize> {
    match s {
        PlayState::Playing(i) | PlayState::Paused(i) => Some(i),
        PlayState::Stopped => None,
    }
}

impl PlayState {
    /// The play button's face for this state.
    pub fn to_play_button_state(&self) -> (r: PlayButtonState)
        ensures
            r == spec_play_button_state(*self),
    {
        match self {
            PlayState::Playing(_) => PlayButtonState::Playing,
            PlayState::Paused(_) => PlayButtonState::Paused,
            PlayState::Stopped => PlayButtonState::Stopped,
        }
    }

    /// The index of the track being played or paused, if any.
    pub fn get_now_playing_idx(&self) -> (r: Option<usize>)
        ensures
            r == spec_now_playing_idx(*self),
    {
        match self {
            PlayState::Playing(i) | PlayState::Paused(i) => Some(*i),
            PlayState::Stopped => None,
        }
    }
}

/// The label of a button.
pub open spec fn spec_disp_name(b: ButtonIdent) -> Seq<char> {
    match b {
        ButtonIdent::PlayOrPause(PlayButtonState::Paused) => seq!['R', 'e', 's', 'u', 'm', 'e'],
        ButtonIdent::PlayOrPause(_) => seq!['P', 'a', 'u', 's', 'e'],
        ButtonIdent::Prev => seq!['p', 'r', 'e', 'v'],
        ButtonIdent::Next => seq!['n', 'e', 'x', 't'],
    }
}

/// The button that a key moves the button focus to, if it moves.
pub open spec fn spec_next_focus(b: ButtonIdent, play_state: PlayState, key: Key) -> Option<
    ButtonIdent,
> {
    match b {
        ButtonIdent::PlayOrPause(_) => match key {
            Key::Right => Some(ButtonIdent::Prev),
            _ => None,
        },
        ButtonIdent::Prev => match key {
            Key::Left => Some(ButtonIdent::PlayOrPause(spec_play_button_state(play_state))),
            Key::Right => Some(ButtonIdent::Next),
            _ => None,
        },
        ButtonIdent::Next => match key {
            Key::Left => Some(ButtonIdent::Prev),
            _ => None,
        },
    }
}

impl ButtonIdent {
    /// The label shown on the button: a playing or stopped player offers "Pause", a paused one
    /// "Resume".
    pub fn get_disp_name(&self) -> (r: &'static str)
        ensures
            r@ == spec_disp_name(*self),
    {
        match self {
            ButtonIdent::PlayOrPause(PlayButtonState::Playing) => {
                proof {
                    reveal_strlit("Pause");
                }
                "Pause"
            },
            ButtonIdent::PlayOrPause(PlayButtonState::Paused) => {
                proof {
                    reveal_strlit("Resume");
                }
                "Resume"
            },
            ButtonIdent::PlayOrPause(PlayButtonState::Stopped) => {
                proof {
                    reveal_strlit("Pause");
                }
                "Pause"
            },
            ButtonIdent::Prev => {
                proof {
                    reveal_strlit("prev");
                }
                "prev"
            },
            ButtonIdent::Next => {
                proof {
                    reveal_strlit("next");
                }
                "next"
            },
        }
    }

    /// The button that `key` moves the focus to within the button row; the play button takes the
    /// face of the current play state when it is reached from the left.
    pub fn get_next_focus(&self, play_state: &PlayState, key: Key) -> (r: Option<ButtonIdent>)
        ensures
            r == spec_next_focus(*self, *play_state, key),
    {
        match self {
            ButtonIdent::PlayOrPause(_) => match key {
                Key::Right => Some(ButtonIdent::Prev),
                _ => None,
            },
            ButtonIdent::Prev => match key {
                Key::Left => Some(ButtonIdent::PlayOrPause(play_state.to_play_button_state())),
                Key::Right => Some(ButtonIdent::Next),
                _ => None,
            },
            ButtonIdent::Next => match key {
                Key::Left => Some(ButtonIdent::Prev),
                _ => None,
            },
        }
    }
}

/// Moving right and then left within the button row comes back to the same button; the play
/// button comes back with the face of the current play state.
pub proof fn lemma_button_focus_round_trip(b: ButtonIdent, play_state: PlayState)
    ensures
        spec_next_focus(b, play_state, Key::Right) matches Some(n) ==> spec_next_focus(
            n,
            play_state,
            Key::Left,
        ) == Some(
            match b {
                ButtonIdent::PlayOrPause(_) => ButtonIdent::PlayOrPause(
                    spec_play_button_state(play_state),
                ),
                other => other,
            },
        ),
        spec_next_focus(b, play_state, Key::Left) matches Some(n) ==> spec_next_focus(
            n,
            play_state,
            Key::Right,
        ) == Some(b),
{
}

/// The visual effects offered in the effect area.
#[derive(Clone, Copy, Debug, PartialEq, Eq, Structural)]
pub enum VeSelectedTab {
    Off,
    Oscilloscope,
}

/// The effects in the order of the effect tabs.
pub open spec fn spec_ve_cases() -> Seq<VeSelectedTab> {
    seq![VeSelectedTab::Off, VeSelectedTab::Oscilloscope]
}

pub open spec fn spec_ve_index(t: VeSelectedTab) -> int {
    match t {
        VeSelectedTab::Off => 0,
        VeSelectedTab::Oscilloscope => 1,
    }
}

pub open spec fn spec_ve_name(t: VeSelectedTab) -> Seq<char> {
    match t {
        VeSelectedTab::Off => seq!['O', 'f', 'f'],
        VeSelectedTab::Oscilloscope => seq![
            'O',
            's',
            'c',
            'i',
            'l',
            'l',
            'o',
            's',
            'c',
            'o',
            'p',
            'e',
        ],
    }
}

/// The tab reached by a key: Left and Right move cyclically, other keys stay.
pub open spec fn spec_ve_focus(t: VeSelectedTab, key: Key) -> VeSelectedTab {
    let n = spec_ve_cases().len() as int;
    let slide: int = match key {
        Key::Left => -1,
        Key::Right => 1,
        _ => 0,
    };
    spec_ve_cases()[(spec_ve_index(t) + slide + n) % n]
}

impl VeSelectedTab {
    /// All effects, in tab order.
    pub fn enumate_case() -> (r: [VeSelectedTab; 2])
        ensures
            r@ == spec_ve_cases(),
    {
        let r = [VeSelectedTab::Off, VeSelectedTab::Oscilloscope];
        assert(r@ =~= spec_ve_cases());
        r
    }

    /// The names of all effects, in tab order.
    pub fn list_str() -> (r: [String; 2])
        ensures
            r@.len() == 2,
            forall|i: int| 0 <= i < 2 ==> #[trigger] r@[i]@ == spec_ve_name(spec_ve_cases()[i]),
    {
        let a = VeSelectedTab::Off.nameof();
        let b = VeSelectedTab::Oscilloscope.nameof();
        let r = [a, b];
        assert(r@[0]@ == spec_ve_name(spec_ve_cases()[0]));
        assert(r@[1]@ == spec_ve_name(spec_ve_cases()[1]));
        r
    }

    /// The name of this effect.
    pub fn nameof(&self) -> (r: String)
        ensures
            r@ == spec_ve_name(*self),
    {
        match self {
            VeSelectedTab::Off => {
                proof {
                    reveal_strlit("Off");
                }
                "Off".to_owned()
            },
            VeSelectedTab::Oscilloscope => {
                proof {
                    reveal_strlit("Oscilloscope");
                }
                "Oscilloscope".to_owned()
            },
        }
    }

    /// The position of this effect among the tabs.
    pub fn enumerate_arr_idnex(&self) -> (r: usize)
        ensures
            r == spec_ve_index(*self),
            r < spec_ve_cases().len(),
            spec_ve_cases()[r as int] == *self,
    {
        let arr = Self::enumate_case();
        let mut i: usize = 0;
        while i < 2
            invariant
                i <= 2,
                arr@ == spec_ve_cases(),
                forall|j: int| 0 <= j < i ==> arr@[j] != *self,
            decreases 2 - i,
        {
            if arr[i] == *self {
                return i;
            }
            i = i + 1;
        }
        assert(arr@[spec_ve_index(*self)] == *self);
        0
    }

    /// The effect that `key` moves the selection to: Left and Right wrap around.
    pub fn get_focus_tab(&self, key: Key) -> (r: VeSelectedTab)
        ensures
            r == spec_ve_focus(*self, key),
    {
        let arr = Self::enumate_case();
        let current_index = self.enumerate_arr_idnex();
        let slide: i32 = match key {
            Key::Left => -1,
            Key::Right => 1,
            _ => 0,
        };
        let len: i32 = 2;
        let target_index = (current_index as i32 + slide + len) % len;
        arr[target_index as usize]
    }
}

/// Left undoes Right and Right undoes Left on the effect tabs, and each effect's index names it.
pub proof fn lemma_ve_focus_round_trip(t: VeSelectedTab)
    ensures
        spec_ve_focus(spec_ve_focus(t, Key::Right), Key::Left) == t,
        spec_ve_focus(spec_ve_focus(t, Key::Left), Key::Right) == t,
        spec_ve_cases()[spec_ve_index(t)] == t,
{
    assert((0int + 1 + 2) % 2 == 1);
    assert((1int + 1 + 2) % 2 == 0);
    assert((0int - 1 + 2) % 2 == 1);
    assert((1int - 1 + 2) % 2 == 0);
}

} // verus!
