use vstd::prelude::*;

use crate::player::ControlMessage;
use crate::app_state::{
    AppContorlSignal,
    AppStateContainer,
    PlayerRequestState,
    SEEK_STEP_NANOS,
    UiCommand,
    list_select_next,
    list_select_previous,
    spec_seek_forward_base,
    spec_vol_step,
};
use crate::key_guide::{GuideColor, KeyGuide, guides_view, lemma_guides_view_concat, spec_global_guides};
use crate::playback::{
    ButtonIdent,
    PlayState,
    spec_next_focus,
    spec_now_playing_idx,
    spec_play_button_state,
    spec_ve_focus,
};
use crate::tabs::{FocusAction, Key, Keystroke, TabState, Tabs, focus_step, spec_focus_step, spec_stroke_key};
use crate::track_info::{MAX_DURATION_NANOS, PlayingTrackInfo};

verus! {

/// The play list after Delete: the selected entry is removed unless it is the track being
/// played or paused, and the index of that track follows its entry.
pub open spec fn spec_after_delete(
    list_len: nat,
    selected: Option<usize>,
    play_state: PlayState,
) -> Option<(usize, PlayState)> {
    match selected {
        None => None,
        Some(s) => if spec_now_playing_idx(play_state) == Some(s) || s >= list_len {
            None
        } else {
            Some(
                (
                    s,
                    match play_state {
                        PlayState::Playing(p) => if s < p {
                            PlayState::Playing((p - 1) as usize)
                        } else {
                            play_state
                        },
                        PlayState::Paused(p) => if s < p {
                            PlayState::Paused((p - 1) as usize)
                        } else {
                            play_state
                        },
                        PlayState::Stopped => play_state,
                    },
                ),
            )
        },
    }
}

impl<P, V, B> AppStateContainer<P, V, B> {
    /// Whether the keys can be handled without an overflow of the seek number, the track index or
    /// the position.
    pub open spec fn handles_keys(&self) -> bool {
        &&& self.seek_no < u64::MAX
        &&& self.playing_idx_below_max()
        &&& self.playing_track_info matches Some(info) ==> spec_seek_forward_base(info)
            + SEEK_STEP_NANOS <= MAX_DURATION_NANOS
    }

    /// Whether the keys can be handled without an overflow.
    pub fn can_handle_keys(&self) -> (r: bool)
        ensures
            r == self.handles_keys(),
    {
        if self.seek_no == u64::MAX {
            return false;
        }
        match self.play_state {
            PlayState::Playing(i) | PlayState::Paused(i) => {
                if i == usize::MAX {
                    return false;
                }
            },
            PlayState::Stopped => {},
        }
        match &self.playing_track_info {
            None => true,
            Some(info) => {
                let base = match info.seeking_duration {
                    Some(d) => d,
                    None => info.get_carib_duration(),
                };
                base <= MAX_DURATION_NANOS && SEEK_STEP_NANOS <= MAX_DURATION_NANOS - base
            },
        }
    }

    /// A key press (other than quitting): a shown popup takes every key; otherwise the
    /// focus moves, entering the button row focuses the play button, leaving the play list clears
    /// its selection, and a key within an entered area is that area's.
    pub open spec fn spec_handle_key_event(before: Self, after: Self, key: Key, r: Option<UiCommand>) -> bool {
        if before.popup_object is Some {
            r is None && Popup::spec_handle_key(before, after, key)
        } else {
            let (next, action) = spec_focus_step(before.focus_state, key);
            let mid = AppStateContainer { focus_state: next, ..before };
            match action {
                FocusAction::Nothing => r is None && after == mid,
                FocusAction::TabSelected(tab) => r is None && if tab == Tabs::ButtonsArea {
                    after == (AppStateContainer {
                        button_focus_state: ButtonIdent::PlayOrPause(
                            spec_play_button_state(before.play_state),
                        ),
                        ..mid
                    })
                } else {
                    after == mid
                },
                FocusAction::TabDeselected(tab) => r is None && if tab == Tabs::ListArea {
                    after == (AppStateContainer { play_list_selected: None, ..mid })
                } else {
                    after == mid
                },
                FocusAction::TabKey(tab, k) => match tab {
                    Tabs::ListArea => ListArea::spec_handle_key(mid, after, k, r),
                    Tabs::EffectArea => EffectArea::spec_handle_key(mid, after, k, r),
                    Tabs::DurationBarArea => DurationBarArea::spec_handle_key(mid, after, k, r),
                    Tabs::ButtonsArea => ButtonsArea::spec_handle_key(mid, after, k, r),
                    Tabs::VolArea => VolArea::spec_handle_key(mid, after, k, r),
                },
            }
        }
    }

    /// Whether a key event reaches the areas (so that `handles_keys` must hold): a press other
    /// than Ctrl+D.
    pub open spec fn spec_stroke_reaches_areas(pressed: bool, stroke: Keystroke, ctrl: bool) -> bool {
        pressed && !(ctrl && stroke == Keystroke::Char('d'))
    }

    /// A key event from the terminal: only presses count. Ctrl+D (Ctrl alone held) quits,
    /// telling a running player to stop, whether a popup is shown or not. Any other press is the
    /// areas' (`spec_handle_key_event`), whatever the modifiers, a character counting as none of
    /// their keys. `quit` says whether the screen is to close.
    pub open spec fn spec_handle_keystroke(
        before: Self,
        after: Self,
        pressed: bool,
        stroke: Keystroke,
        ctrl: bool,
        quit: bool,
        r: Option<UiCommand>,
    ) -> bool {
        if !pressed {
            !quit && r is None && after == before
        } else if ctrl && stroke == Keystroke::Char('d') {
            &&& quit
            &&& r == (if before.player_thread is Some {
                Some(UiCommand::Player(ControlMessage::Stop))
            } else {
                None
            })
            &&& after == before
        } else {
            !quit && Self::spec_handle_key_event(before, after, spec_stroke_key(stroke), r)
        }
    }

    /// Whether a key event can be handled without an overflow: it does not reach the areas, or
    /// the areas can handle keys.
    pub fn can_handle_keystroke(&self, pressed: bool, stroke: Keystroke, ctrl: bool) -> (r: bool)
        ensures
            r == (Self::spec_stroke_reaches_areas(pressed, stroke, ctrl) ==> self.handles_keys()),
    {
        let quit_key = ctrl && stroke == Keystroke::Char('d');
        !pressed || quit_key || self.can_handle_keys()
    }

    /// Handles a key event from the terminal, as `spec_handle_keystroke` says; the first part of
    /// the result says whether to quit.
    pub fn handle_keystroke(&mut self, pressed: bool, stroke: Keystroke, ctrl: bool) -> (r: (
        bool,
        Option<UiCommand>,
    ))
        requires
            Self::spec_stroke_reaches_areas(pressed, stroke, ctrl) ==> old(self).handles_keys(),
        ensures
            Self::spec_handle_keystroke(*old(self), *final(self), pressed, stroke, ctrl, r.0, r.1),
    {
        if !pressed {
            return (false, None);
        }
        if ctrl && stroke == Keystroke::Char('d') {
            let stop = if self.player_thread.is_some() {
                Some(UiCommand::Player(ControlMessage::Stop))
            } else {
                None
            };
            return (true, stop);
        }
        let key = match stroke {
            Keystroke::Key(k) => k,
            Keystroke::Char(_) => Key::Other,
        };
        (false, self.handle_key_event(key))
    }

    /// Handles a key press (other than quitting), as `spec_handle_key_event` says.
    pub fn handle_key_event(&mut self, key: Key) -> (r: Option<UiCommand>)
        requires
            old(self).handles_keys(),
        ensures
            Self::spec_handle_key_event(*old(self), *final(self), key, r),
    {
        if self.popup_object.is_some() {
            Popup::handle_key(self, key);
            return None;
        }
        let (next, action) = focus_step(self.focus_state, key);
        self.focus_state = next;
        match action {
            FocusAction::Nothing => None,
            FocusAction::TabSelected(tab) => {
                match tab {
                    Tabs::ButtonsArea => ButtonsArea::get_tab_selected_handler(self),
                    _ => {},
                }
                None
            },
            FocusAction::TabDeselected(tab) => {
                match tab {
                    Tabs::ListArea => ListArea::lost_tab_selection_handler(self),
                    _ => {},
                }
                None
            },
            FocusAction::TabKey(tab, k) => {
                let r = match tab {
                    Tabs::ListArea => ListArea::handle_key(self, k),
                    Tabs::EffectArea => EffectArea::handle_key(self, k),
                    Tabs::DurationBarArea => DurationBarArea::handle_key(self, k),
                    Tabs::ButtonsArea => ButtonsArea::handle_key(self, k),
                    Tabs::VolArea => VolArea::handle_key(self, k),
                };
                r
            },
        }
    }
}

/// The message box shown over the screen.
pub struct Popup {}

impl Popup {
    /// The popup's keys: Enter closes it; every other key is ignored.
    pub open spec fn spec_handle_key<P, V, B>(
        before: AppStateContainer<P, V, B>,
        after: AppStateContainer<P, V, B>,
        key: Key,
    ) -> bool {
        if key == Key::Enter {
            after == (AppStateContainer { popup_object: None, ..before })
        } else {
            after == before
        }
    }

    /// Handles a key while the popup is shown.
    pub fn handle_key<P, V, B>(state: &mut AppStateContainer<P, V, B>, key: Key)
        ensures
            Self::spec_handle_key(*old(state), *final(state), key),
    {
        match key {
            Key::Enter => {
                state.popup_object = None;
            },
            _ => {},
        }
    }

}

/// The play list.
pub struct ListArea {}

impl ListArea {
    /// The play list's keys: Up and Down move the selection; Enter plays the selected track, or
    /// on the entry after the last track asks for files to add; Delete removes the selected track
    /// unless it is the one being played, keeping the index of that one on its entry.
    pub open spec fn spec_handle_key<P, V, B>(
        before: AppStateContainer<P, V, B>,
        after: AppStateContainer<P, V, B>,
        key: Key,
        r: Option<UiCommand>,
    ) -> bool {
        match key {
            Key::Up => r is None && after == (AppStateContainer {
                play_list_selected: Some(
                    match before.play_list_selected {
                        None => usize::MAX,
                        Some(i) => if i == 0 {
                            0usize
                        } else {
                            (i - 1) as usize
                        },
                    },
                ),
                ..before
            }),
            Key::Down => r is None && after == (AppStateContainer {
                play_list_selected: Some(
                    match before.play_list_selected {
                        None => 0usize,
                        Some(i) => if i == usize::MAX {
                            i
                        } else {
                            (i + 1) as usize
                        },
                    },
                ),
                ..before
            }),
            Key::Enter => match before.play_list_selected {
                None => r is None && after == before,
                Some(s) => if s < before.play_list@.len() {
                    AppStateContainer::spec_play_track(before, after, s, r)
                } else {
                    r == Some(UiCommand::AddFiles) && after == before
                },
            },
            Key::Delete => r is None && match spec_after_delete(
                before.play_list@.len(),
                before.play_list_selected,
                before.play_state,
            ) {
                None => after == before,
                Some((s, ps)) => after.play_list@ == before.play_list@.remove(s as int) && after
                    == (AppStateContainer { play_list: after.play_list, play_state: ps, ..before }),
            },
            _ => r is None && after == before,
        }
    }

    /// Handles a key of the entered play list.
    pub fn handle_key<P, V, B>(state: &mut AppStateContainer<P, V, B>, key: Key) -> (r: Option<UiCommand>)
        ensures
            Self::spec_handle_key(*old(state), *final(state), key, r),
    {
        match key {
            Key::Up => {
                state.play_list_selected = list_select_previous(state.play_list_selected);
                None
            },
            Key::Down => {
                state.play_list_selected = list_select_next(state.play_list_selected);
                None
            },
            Key::Enter => {
                let selected_idx = match state.play_list_selected {
                    None => {
                        return None;
                    },
                    Some(i) => i,
                };
                if selected_idx < state.play_list.len() {
                    state.play_track(selected_idx)
                } else {
                    Some(UiCommand::AddFiles)
                }
            },
            Key::Delete => {
                let idx = match state.play_list_selected {
                    None => {
                        return None;
                    },
                    Some(i) => i,
                };
                match state.play_state {
                    PlayState::Playing(p) | PlayState::Paused(p) => {
                        if idx == p {
                            return None;
                        }
                    },
                    PlayState::Stopped => {},
                }
                if idx >= state.play_list.len() {
                    return None;
                }
                state.play_list.remove(idx);
                match state.play_state {
                    PlayState::Playing(p) => {
                        if idx < p {
                            state.play_state = PlayState::Playing(p - 1);
                        }
                    },
                    PlayState::Paused(p) => {
                        if idx < p {
                            state.play_state = PlayState::Paused(p - 1);
                        }
                    },
                    PlayState::Stopped => {},
                }
                None
            },
            _ => None,
        }
    }

    /// Leaving the play list clears its selection.
    pub fn lost_tab_selection_handler<P, V, B>(state: &mut AppStateContainer<P, V, B>)
        ensures
            *final(state) == (AppStateContainer { play_list_selected: None, ..*old(state) }),
    {
        state.play_list_selected = None;
    }

}

/// The area that shows the visual effect.
pub struct EffectArea {}

impl EffectArea {
    /// The effect area's keys: Left and Right choose the effect, which is asked for while a track
    /// plays.
    pub open spec fn spec_handle_key<P, V, B>(
        before: AppStateContainer<P, V, B>,
        after: AppStateContainer<P, V, B>,
        key: Key,
        r: Option<UiCommand>,
    ) -> bool {
        let t = spec_ve_focus(before.ve_selected, key);
        if t == before.ve_selected {
            r is None && after == before
        } else {
            &&& after == (AppStateContainer { ve_selected: t, ..before })
            &&& r == (if before.playing_track_info is Some {
                Some(UiCommand::RequestVeSwitch(t))
            } else {
                None
            })
        }
    }

    /// Handles a key of the entered effect area.
    pub fn handle_key<P, V, B>(state: &mut AppStateContainer<P, V, B>, key: Key) -> (r: Option<UiCommand>)
        ensures
            Self::spec_handle_key(*old(state), *final(state), key, r),
    {
        let target_tab = state.ve_selected.get_focus_tab(key);
        if state.ve_selected == target_tab {
            return None;
        }
        state.ve_selected = target_tab;
        if state.playing_track_info.is_none() {
            return None;
        }
        Some(UiCommand::RequestVeSwitch(target_tab))
    }

}

/// The bar that shows the position in the track.
pub struct DurationBarArea {}

impl DurationBarArea {
    /// The duration bar's keys: Left seeks five seconds back, Right five seconds forward.
    pub open spec fn spec_handle_key<P, V, B>(
        before: AppStateContainer<P, V, B>,
        after: AppStateContainer<P, V, B>,
        key: Key,
        r: Option<UiCommand>,
    ) -> bool {
        match key {
            Key::Left => AppStateContainer::spec_seek_prev(before, after, SEEK_STEP_NANOS, r),
            Key::Right => AppStateContainer::spec_seek_forward(before, after, SEEK_STEP_NANOS, r),
            _ => r is None && after == before,
        }
    }

    /// Handles a key of the entered duration bar.
    pub fn handle_key<P, V, B>(state: &mut AppStateContainer<P, V, B>, key: Key) -> (r: Option<UiCommand>)
        requires
            old(state).handles_keys(),
        ensures
            Self::spec_handle_key(*old(state), *final(state), key, r),
    {
        match key {
            Key::Left => state.seek_prev(SEEK_STEP_NANOS),
            Key::Right => state.seek_forward(SEEK_STEP_NANOS),
            _ => None,
        }
    }

}

/// The row of play, previous and next buttons.
pub struct ButtonsArea {}

impl ButtonsArea {
    /// Entering the button row focuses the play button, with the face of the play state.
    pub fn get_tab_selected_handler<P, V, B>(state: &mut AppStateContainer<P, V, B>)
        ensures
            *final(state) == (AppStateContainer {
                button_focus_state: ButtonIdent::PlayOrPause(
                    spec_play_button_state(old(state).play_state),
                ),
                ..*old(state)
            }),
    {
        state.button_focus_state = ButtonIdent::PlayOrPause(state.play_state.to_play_button_state());
    }

    /// Whether the play button does something: there is a track to play.
    pub fn is_play_button_enabled<P, V, B>(state: &AppStateContainer<P, V, B>) -> (r: bool)
        ensures
            r == (state.play_list@.len() > 0),
    {
        state.play_list.len() > 0
    }

    /// Whether the previous button does something: a track other than the first plays.
    pub fn is_prev_button_enabled<P, V, B>(state: &AppStateContainer<P, V, B>) -> (r: bool)
        ensures
            r == (spec_now_playing_idx(state.play_state) matches Some(i) && i != 0),
    {
        match state.play_state.get_now_playing_idx() {
            Some(i) => i != 0,
            None => false,
        }
    }

    /// Whether the next button does something: a track plays that has one after it.
    pub fn is_next_button_enabled<P, V, B>(state: &AppStateContainer<P, V, B>) -> (r: bool)
        ensures
            r == (spec_now_playing_idx(state.play_state) matches Some(i) && i + 1
                < state.play_list@.len()),
    {
        match state.play_state.get_now_playing_idx() {
            Some(i) => i < state.play_list.len() && state.play_list.len() - i > 1,
            None => false,
        }
    }

    /// The button row's keys: Left and Right move between the buttons; Enter presses the focused
    /// button: play (from the first track when stopped), pause or resume, previous, next.
    pub open spec fn spec_handle_key<P, V, B>(
        before: AppStateContainer<P, V, B>,
        after: AppStateContainer<P, V, B>,
        key: Key,
        r: Option<UiCommand>,
    ) -> bool {
        let focus = match spec_next_focus(before.button_focus_state, before.play_state, key) {
            Some(n) => n,
            None => before.button_focus_state,
        };
        let mid = AppStateContainer { button_focus_state: focus, ..before };
        if key != Key::Enter {
            r is None && after == mid
        } else {
            match before.button_focus_state {
                ButtonIdent::PlayOrPause(_) => match before.play_state {
                    PlayState::Stopped => after == mid && r == (if before.play_list@.len() > 0 {
                        Some(UiCommand::App(AppContorlSignal::StartPlayer(0)))
                    } else {
                        None
                    }),
                    _ => AppStateContainer::spec_toggle(mid, after, r),
                },
                ButtonIdent::Prev => AppStateContainer::spec_play_previous(mid, after, r),
                ButtonIdent::Next => AppStateContainer::spec_play_next(mid, after, r),
            }
        }
    }

    /// Handles a key of the entered button row.
    pub fn handle_key<P, V, B>(state: &mut AppStateContainer<P, V, B>, key: Key) -> (r: Option<UiCommand>)
        requires
            old(state).playing_idx_below_max(),
        ensures
            Self::spec_handle_key(*old(state), *final(state), key, r),
    {
        let focused = state.button_focus_state;
        match focused.get_next_focus(&state.play_state, key) {
            Some(next) => {
                state.button_focus_state = next;
            },
            None => {},
        }
        if key != Key::Enter {
            return None;
        }
        match focused {
            ButtonIdent::PlayOrPause(_) => match state.play_state {
                PlayState::Stopped => {
                    if state.play_list.len() > 0 {
                        Some(UiCommand::App(AppContorlSignal::StartPlayer(0)))
                    } else {
                        None
                    }
                },
                _ => state.toggle_play_pause(),
            },
            ButtonIdent::Prev => state.play_previous(),
            ButtonIdent::Next => state.play_next(),
        }
    }

}

/// The volume gauge.
pub struct VolArea {}

impl VolArea {
    /// The volume area's keys: Up and Down move the volume by ten, Right and Left by one.
    pub open spec fn spec_handle_key<P, V, B>(
        before: AppStateContainer<P, V, B>,
        after: AppStateContainer<P, V, B>,
        key: Key,
        r: Option<UiCommand>,
    ) -> bool {
        match spec_vol_step(key) {
            Some(q) => AppStateContainer::spec_move_vol(before, after, q, r),
            None => r is None && after == before,
        }
    }

    /// Handles a key of the entered volume area.
    pub fn handle_key<P, V, B>(state: &mut AppStateContainer<P, V, B>, key: Key) -> (r: Option<UiCommand>)
        ensures
            Self::spec_handle_key(*old(state), *final(state), key, r),
    {
        let move_quantity: i16 = match key {
            Key::Up => 10,
            Key::Right => 1,
            Key::Down => -10,
            Key::Left => -1,
            _ => {
                return None;
            },
        };
        state.move_vol(move_quantity)
    }

}

/// The key guide line at the bottom of the screen.
pub struct KeyGuideArea {}

/// The guides of the bottom line, and the name of the track being played where no area has the
/// focus.
pub struct BottomLine {
    pub guides: Vec<KeyGuide>,
    pub now_playing: Option<String>,
}

/// Appends `extra` to `v`.
fn append_guides(v: &mut Vec<KeyGuide>, extra: Vec<KeyGuide>)
    ensures
        final(v)@ == old(v)@ + extra@,
{
    let mut extra = extra;
    v.append(&mut extra);
}

/// The guides of an entered area, as text: Esc, then the area's own keys (Enter only where the
/// focused button does something), then the keys that work everywhere. The play list and the
/// duration bar show none.
pub open spec fn spec_area_guides<P, V, B>(state: AppStateContainer<P, V, B>, tab: Tabs) -> Seq<
    (Seq<char>, Seq<char>, GuideColor),
> {
    let m = GuideColor::Magenta;
    let esc = ("Esc"@, "Cancel"@, m);
    let globals = spec_global_guides(state.play_state);
    match tab {
        Tabs::ListArea | Tabs::DurationBarArea => seq![],
        Tabs::EffectArea => seq![esc, ("←/→"@, "Select Visual Effect"@, m)] + globals,
        Tabs::VolArea => seq![esc, ("↑/↓"@, "Volume ±10"@, m), ("←/→"@, "Volume ±1"@, m)] + globals,
        Tabs::ButtonsArea => {
            let playing = spec_now_playing_idx(state.play_state);
            let own = match state.button_focus_state {
                ButtonIdent::PlayOrPause(_) => (if state.play_list@.len() > 0 {
                    seq![
                        (
                            "Enter"@,
                            match state.play_state {
                                PlayState::Playing(_) => "Pause"@,
                                PlayState::Paused(_) => "Resume"@,
                                PlayState::Stopped => "Play"@,
                            },
                            m,
                        ),
                    ]
                } else {
                    seq![]
                }) + seq![("→"@, "Move"@, m)],
                ButtonIdent::Prev => (if playing matches Some(i) && i != 0 {
                    seq![("Enter"@, "Play Prev Item"@, m)]
                } else {
                    seq![]
                }) + seq![("←/→"@, "Move"@, m)],
                ButtonIdent::Next => (if playing matches Some(i) && i + 1 < state.play_list@.len() {
                    seq![("Enter"@, "Play Next Item"@, m)]
                } else {
                    seq![]
                }) + seq![("←/→"@, "Move"@, m)],
            };
            seq![esc] + own + globals
        },
    }
}

impl KeyGuideArea {
    /// The guides of an entered area, as `spec_area_guides` gives them.
    pub fn selected_area_guides<P, V, B>(state: &AppStateContainer<P, V, B>, tab: Tabs) -> (r: Vec<
        KeyGuide,
    >)
        ensures
            guides_view(r@) == spec_area_guides(*state, tab),
    {
        let mut v: Vec<KeyGuide> = Vec::new();
        match tab {
            Tabs::ListArea | Tabs::DurationBarArea => {
                return v;
            },
            Tabs::EffectArea => {
                v.push(KeyGuide::esc_default());
                v.push(KeyGuide::new_mazenta("←/→", "Select Visual Effect"));
            },
            Tabs::VolArea => {
                v.push(KeyGuide::esc_default());
                v.push(KeyGuide::new_mazenta("↑/↓", "Volume ±10"));
                v.push(KeyGuide::new_mazenta("←/→", "Volume ±1"));
            },
            Tabs::ButtonsArea => {
                v.push(KeyGuide::esc_default());
                match state.button_focus_state {
                    ButtonIdent::PlayOrPause(_) => {
                        if ButtonsArea::is_play_button_enabled(state) {
                            let desc = match state.play_state {
                                PlayState::Playing(_) => "Pause",
                                PlayState::Paused(_) => "Resume",
                                PlayState::Stopped => "Play",
                            };
                            v.push(KeyGuide::new_mazenta("Enter", desc));
                        }
                        v.push(KeyGuide::new_mazenta("→", "Move"));
                    },
                    ButtonIdent::Prev => {
                        if ButtonsArea::is_prev_button_enabled(state) {
                            v.push(KeyGuide::new_mazenta("Enter", "Play Prev Item"));
                        }
                        v.push(KeyGuide::new_mazenta("←/→", "Move"));
                    },
                    ButtonIdent::Next => {
                        if ButtonsArea::is_next_button_enabled(state) {
                            v.push(KeyGuide::new_mazenta("Enter", "Play Next Item"));
                        }
                        v.push(KeyGuide::new_mazenta("←/→", "Move"));
                    },
                }
            },
        }
        let ghost own = v@;
        let globals = KeyGuide::get_global_gudies(&state.play_state);
        append_guides(&mut v, globals);
        proof {
            lemma_guides_view_concat(own, globals@);
            assert(guides_view(v@) =~= spec_area_guides(*state, tab));
        }
        v
    }

    /// The bottom line: with an area focused, how to enter, leave and move; with one entered, its
    /// guides; with none, how to move the focus and the name of the track being played.
    pub fn bottom_line<P, V, B>(state: &AppStateContainer<P, V, B>) -> (r: BottomLine)
        ensures
            ({
                let m = GuideColor::Magenta;
                let globals = spec_global_guides(state.play_state);
                match state.focus_state {
                    TabState::Focused(_) => r.now_playing is None && guides_view(r.guides@) == seq![
                        ("Esc"@, "Cancel"@, m),
                        ("Enter"@, "Select"@, m),
                        ("↑/↓/→/←"@, "Move"@, m),
                    ] + globals,
                    TabState::Selected(tab) => r.now_playing is None && guides_view(r.guides@)
                        == spec_area_guides(*state, tab),
                    TabState::NoFocus => {
                        &&& guides_view(r.guides@) == seq![("↑/↓/→/←"@, "Move Focus"@, m)] + globals
                        &&& match spec_now_playing_idx(state.play_state) {
                            Some(i) if i < state.play_list@.len() => r.now_playing matches Some(t)
                                && t@ == "🎵 "@ + state.play_list@[i as int].disp_name@,
                            _ => r.now_playing is None,
                        }
                    },
                }
            }),
    {
        match state.focus_state {
            TabState::Focused(_) => {
                let mut v: Vec<KeyGuide> = Vec::new();
                v.push(KeyGuide::new_mazenta("Esc", "Cancel"));
                v.push(KeyGuide::new_mazenta("Enter", "Select"));
                v.push(KeyGuide::new_mazenta("↑/↓/→/←", "Move"));
                let ghost own = v@;
                let globals = KeyGuide::get_global_gudies(&state.play_state);
                append_guides(&mut v, globals);
                proof {
                    lemma_guides_view_concat(own, globals@);
                    assert(guides_view(own) =~= seq![
                        ("Esc"@, "Cancel"@, GuideColor::Magenta),
                        ("Enter"@, "Select"@, GuideColor::Magenta),
                        ("↑/↓/→/←"@, "Move"@, GuideColor::Magenta),
                    ]);
                }
                BottomLine { guides: v, now_playing: None }
            },
            TabState::Selected(tab) => BottomLine {
                guides: Self::selected_area_guides(state, tab),
                now_playing: None,
            },
            TabState::NoFocus => {
                let mut v: Vec<KeyGuide> = Vec::new();
                v.push(KeyGuide::new_mazenta("↑/↓/→/←", "Move Focus"));
                let ghost own = v@;
                let globals = KeyGuide::get_global_gudies(&state.play_state);
                append_guides(&mut v, globals);
                proof {
                    lemma_guides_view_concat(own, globals@);
                    assert(guides_view(own) =~= seq![("↑/↓/→/←"@, "Move Focus"@, GuideColor::Magenta)]);
                }
                let now_playing = match state.play_state.get_now_playing_idx() {
                    Some(i) => {
                        if i < state.play_list.len() {
                            let mut t = "🎵 ".to_owned();
                            t.append(state.play_list[i].get_disp_name().as_str());
                            Some(t)
                        } else {
                            None
                        }
                    },
                    None => None,
                };
                BottomLine { guides: v, now_playing }
            },
        }
    }
}

/// Deleting a track other than the one playing keeps the playing index on the same entry.
pub proof fn lemma_delete_keeps_playing_entry<T>(
    list: Seq<T>,
    selected: Option<usize>,
    play_state: PlayState,
)
    requires
        spec_now_playing_idx(play_state) matches Some(p) && p < list.len(),
        spec_after_delete(list.len(), selected, play_state) is Some,
    ensures
        ({
            let (s, ps) = spec_after_delete(list.len(), selected, play_state)->0;
            let p = spec_now_playing_idx(play_state)->0;
            let q = spec_now_playing_idx(ps)->0;
            &&& spec_now_playing_idx(ps) is Some
            &&& q < list.remove(s as int).len()
            &&& list.remove(s as int)[q as int] == list[p as int]
        }),
{
}

/// Right in the entered duration bar asks for a seek five seconds after the position it starts
/// from (the target of a pending seek, else the audible position), so to a later position, as
/// long as that stays within the track; past the end of the track it asks for no seek at all.
/// Left asks for a seek five seconds before the audible position, not before the start. Either
/// seek takes the next seek number and leaves the track waiting for its target.
pub proof fn lemma_duration_bar_seeks_five_seconds<P, V, B>(
    before: AppStateContainer<P, V, B>,
    after: AppStateContainer<P, V, B>,
    key: Key,
    r: Option<UiCommand>,
)
    requires
        DurationBarArea::spec_handle_key(before, after, key, r),
        before.playing_track_info is Some,
        before.player_thread is Some,
        before.player_request_state != Some(PlayerRequestState::VeSwitching),
        before.seek_no < u64::MAX,
    ensures
        ({
            let info = before.playing_track_info->0;
            let audible: int = if info.current_played_duration >= info.audio_device_buffered_duration {
                info.current_played_duration - info.audio_device_buffered_duration
            } else {
                0
            };
            let from: int = match info.seeking_duration {
                Some(d) => d as int,
                None => audible,
            };
            let back: int = if audible >= 5_000_000_000 {
                audible - 5_000_000_000
            } else {
                0
            };
            let n = before.seek_no + 1;
            &&& key == Key::Right && from + 5_000_000_000 <= info.track_duraion ==> {
                &&& r == Some(
                    UiCommand::Player(
                        ControlMessage::Seek {
                            target_nanos: (from + 5_000_000_000) as u128,
                            seek_no: n as u64,
                        },
                    ),
                )
                &&& after == (AppStateContainer {
                    seek_no: n as u64,
                    player_request_state: Some(PlayerRequestState::Seek(n as u64)),
                    playing_track_info: Some(
                        PlayingTrackInfo {
                            seeking_duration: Some((from + 5_000_000_000) as u128),
                            ..info
                        },
                    ),
                    ..before
                })
            }
            &&& key == Key::Right && from + 5_000_000_000 > info.track_duraion ==> !(r matches Some(
                UiCommand::Player(ControlMessage::Seek { .. }),
            ))
            &&& forall|t: u128, m: u64|
                key == Key::Right && r == Some(
                    UiCommand::Player(ControlMessage::Seek { target_nanos: t, seek_no: m }),
                ) ==> t > from && (info.seeking_duration is None ==> t > audible)
            &&& key == Key::Left ==> {
                &&& r == Some(
                    UiCommand::Player(
                        ControlMessage::Seek { target_nanos: back as u128, seek_no: n as u64 },
                    ),
                )
                &&& after == (AppStateContainer {
                    seek_no: n as u64,
                    player_request_state: Some(PlayerRequestState::Seek(n as u64)),
                    playing_track_info: Some(
                        PlayingTrackInfo { seeking_duration: Some(back as u128), ..info },
                    ),
                    ..before
                })
            }
            &&& key != Key::Left && key != Key::Right ==> r is None && after == before
        }),
{
}

/// In the entered volume area, Right raises the volume by one and Left lowers it by one, Up
/// raises it by ten and Down lowers it by ten, never above 100 nor below 0; only the volume
/// changes, and a running player is told the new one. Other keys change nothing.
pub proof fn lemma_volume_keys<P, V, B>(
    before: AppStateContainer<P, V, B>,
    after: AppStateContainer<P, V, B>,
    key: Key,
    r: Option<UiCommand>,
)
    requires
        VolArea::spec_handle_key(before, after, key, r),
    ensures
        ({
            let v = before.vol_state;
            let w = after.vol_state;
            &&& key == Key::Right ==> (v < 100 ==> w == v + 1) && (v >= 100 ==> w == 100)
            &&& key == Key::Left ==> (0 < v <= 100 ==> w == v - 1) && (v == 0 ==> w == 0)
            &&& key == Key::Up ==> (v <= 90 ==> w == v + 10) && (v > 90 ==> w == 100)
            &&& key == Key::Down ==> (10 <= v <= 100 ==> w == v - 10) && (v < 10 ==> w == 0)
            &&& w <= 100 || after == before
            &&& (key == Key::Right || key == Key::Left || key == Key::Up || key == Key::Down) ==> {
                &&& after == (AppStateContainer { vol_state: w, ..before })
                &&& r == (if before.player_thread is Some {
                    Some(UiCommand::Player(ControlMessage::SetVol(w)))
                } else {
                    None
                })
            }
            &&& !(key == Key::Right || key == Key::Left || key == Key::Up || key == Key::Down) ==> r
                is None && after == before
        }),
{
}

/// With the volume area entered and no popup shown, a key press is the volume area's: Right
/// raises the volume by one and Left lowers it by one (within 0 to 100), and the focus stays.
pub proof fn lemma_entered_volume_area_keys<P, V, B>(
    before: AppStateContainer<P, V, B>,
    after: AppStateContainer<P, V, B>,
    key: Key,
    r: Option<UiCommand>,
)
    requires
        AppStateContainer::spec_handle_key_event(before, after, key, r),
        before.popup_object is None,
        before.focus_state == TabState::Selected(Tabs::VolArea),
        key != Key::Esc,
    ensures
        after.focus_state == before.focus_state,
        VolArea::spec_handle_key(before, after, key, r),
        key == Key::Right && before.vol_state < 100 ==> after.vol_state == before.vol_state + 1,
        key == Key::Left && 0 < before.vol_state <= 100 ==> after.vol_state == before.vol_state - 1,
{
    let mid = AppStateContainer { focus_state: before.focus_state, ..before };
    assert(mid == before);
    lemma_volume_keys(before, after, key, r);
}

/// With the duration bar entered, no popup shown, a track and a player, Right asks for a seek to
/// five seconds after the audible position when no seek is pending and that stays within the
/// track.
pub proof fn lemma_entered_duration_bar_right<P, V, B>(
    before: AppStateContainer<P, V, B>,
    after: AppStateContainer<P, V, B>,
    r: Option<UiCommand>,
)
    requires
        AppStateContainer::spec_handle_key_event(before, after, Key::Right, r),
        before.popup_object is None,
        before.focus_state == TabState::Selected(Tabs::DurationBarArea),
        before.playing_track_info matches Some(info) && info.seeking_duration is None
            && info.current_played_duration >= info.audio_device_buffered_duration
            && info.current_played_duration - info.audio_device_buffered_duration + 5_000_000_000
            <= info.track_duraion,
        before.player_thread is Some,
        before.player_request_state != Some(PlayerRequestState::VeSwitching),
        before.seek_no < u64::MAX,
    ensures
        ({
            let info = before.playing_track_info->0;
            r == Some(
                UiCommand::Player(
                    ControlMessage::Seek {
                        target_nanos: (info.current_played_duration
                            - info.audio_device_buffered_duration + 5_000_000_000) as u128,
                        seek_no: (before.seek_no + 1) as u64,
                    },
                ),
            )
        }),
        after.focus_state == before.focus_state,
{
    let mid = AppStateContainer { focus_state: before.focus_state, ..before };
    assert(mid == before);
    lemma_duration_bar_seeks_five_seconds(before, after, Key::Right, r);
}

/// In the entered button row, Enter on the next button moves on to the track after the one being
/// played or paused, and Enter on the previous button to the track before it: with a player
/// running it is told to stop and that track waits to follow, without one a player is asked for
/// that track; at either end of the play list nothing is asked. Enter on the play button pauses a
/// playing track and resumes a paused one.
pub proof fn lemma_buttons_enter<P, V, B>(
    before: AppStateContainer<P, V, B>,
    after: AppStateContainer<P, V, B>,
    i: usize,
    r: Option<UiCommand>,
)
    requires
        ButtonsArea::spec_handle_key(before, after, Key::Enter, r),
        before.play_state == PlayState::Playing(i) || before.play_state == PlayState::Paused(i),
        i < before.play_list@.len(),
        i < usize::MAX,
    ensures
        before.button_focus_state == ButtonIdent::Next && i + 1 < before.play_list@.len() ==> {
            &&& before.player_thread is Some ==> r == Some(UiCommand::Player(ControlMessage::Stop))
                && after.wait_next_tack_idx == Some((i + 1) as usize)
            &&& before.player_thread is None ==> r == Some(
                UiCommand::App(AppContorlSignal::StartPlayer((i + 1) as usize)),
            )
        },
        before.button_focus_state == ButtonIdent::Next && i + 1 == before.play_list@.len() ==> r is None,
        before.button_focus_state == ButtonIdent::Prev && i > 0 ==> {
            &&& before.player_thread is Some ==> r == Some(UiCommand::Player(ControlMessage::Stop))
                && after.wait_next_tack_idx == Some((i - 1) as usize)
            &&& before.player_thread is None ==> r == Some(
                UiCommand::App(AppContorlSignal::StartPlayer((i - 1) as usize)),
            )
        },
        before.button_focus_state == ButtonIdent::Prev && i == 0 ==> r is None,
        before.button_focus_state is PlayOrPause && before.play_state == PlayState::Playing(i) ==> r
            == Some(UiCommand::Player(ControlMessage::Pause)) && after.play_state == PlayState::Paused(i),
        before.button_focus_state is PlayOrPause && before.play_state == PlayState::Paused(i) ==> r
            == Some(UiCommand::Player(ControlMessage::Resume)) && after.play_state == PlayState::Playing(i),
{
}

} // verus!
