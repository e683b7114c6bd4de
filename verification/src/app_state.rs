use vstd::prelude::*;

use crate::audio_file::AudioFileInfo;
use crate::playback::{ButtonIdent, PlayButtonState, PlayState, VeSelectedTab, spec_now_playing_idx};
use crate::player::ControlMessage;
use crate::tabs::{Key, TabState};
use crate::track_info::{
    MAX_DURATION_NANOS,
    NANOS_PER_SEC,
    PlayingTrackInfo,
    sat_add_duration,
    sat_sub,
    spec_frames_to_nanos,
};

verus! {

/// What the screen is waiting for from the player.
#[derive(Clone, Copy, Debug, PartialEq, Eq, Structural)]
pub enum PlayerRequestState {
    /// A seek with this number.
    Seek(u64),
    /// Turning the visual effect on or off.
    VeSwitching,
}

/// A message box with one button.
pub struct PopupObject {
    pub title: String,
    pub message: String,
    pub button_name: String,
}

impl PopupObject {
    /// An error box with the given message and an OK button.
    pub fn new(message: String) -> (r: Self)
        ensures
            r.title@ == "ERROR"@,
            r.message == message,
            r.button_name@ == "OK"@,
    {
        PopupObject { title: "ERROR".to_owned(), message, button_name: "OK".to_owned() }
    }
}

/// Requests from the screen to the rest of the application.
#[derive(Clone, Copy, Debug, PartialEq, Eq, Structural)]
pub enum AppContorlSignal {
    /// Start a player for this track of the play list.
    StartPlayer(usize),
}

/// What a decision of the screen asks the application to carry out.
#[derive(Clone, Copy, Debug, PartialEq, Eq, Structural)]
pub enum UiCommand {
    /// Send this request to the running player.
    Player(ControlMessage),
    /// Ask the application to start a player.
    App(AppContorlSignal),
    /// Ask for the visual effect to be switched to this one.
    RequestVeSwitch(VeSelectedTab),
    /// Ask the user for files to add to the play list.
    AddFiles,
}

/// What turning the visual effect on or off asks of the application.
#[derive(Clone, Copy, Debug, PartialEq, Eq, Structural)]
pub enum VeSwitchAction {
    /// Tell the player to turn the effect off.
    Disable,
    /// Make a buffer whose windows hold `move_window` frames and hand it to the player.
    Enable { move_window: usize },
}

/// Frames per second of the visual effect.
pub const FRAME_RATE: usize = 60;

/// How far one press of Left or Right moves in the track, in nanoseconds.
pub const SEEK_STEP_NANOS: u128 = 5_000_000_000;

/// The loudest volume.
pub const MAX_VOL: u16 = 100;

/// `ratatui`'s `ListState::select_next`: selects the item after the selected one (the first where
/// none is selected); the index saturates and is corrected when the list is drawn.
#[verifier::external_body]
pub(crate) fn list_select_next(selected: Option<usize>) -> (r: Option<usize>)
    ensures
        r == Some(
            match selected {
                None => 0usize,
                Some(i) => if i == usize::MAX {
                    i
                } else {
                    (i + 1) as usize
                },
            },
        ),
{
    let mut state = ratatui::widgets::ListState::default().with_selected(selected);
    state.select_next();
    state.selected()
}

/// `ratatui`'s `ListState::select_previous`: selects the item before the selected one (the last
/// where none is selected, written as `usize::MAX` until the list is drawn).
#[verifier::external_body]
pub(crate) fn list_select_previous(selected: Option<usize>) -> (r: Option<usize>)
    ensures
        r == Some(
            match selected {
                None => usize::MAX,
                Some(i) => if i == 0 {
                    0usize
                } else {
                    (i - 1) as usize
                },
            },
        ),
{
    let mut state = ratatui::widgets::ListState::default().with_selected(selected);
    state.select_previous();
    state.selected()
}

/// The state of the screen. `P` is the running player's handle, `V` the channels of the visual
/// effect, `B` the buffer that the effect draws from.
pub struct AppStateContainer<P, V, B> {
    pub focus_state: TabState,
    pub button_focus_state: ButtonIdent,
    pub vol_state: u16,
    pub play_list: Vec<AudioFileInfo>,
    pub play_list_selected: Option<usize>,
    pub play_state: PlayState,
    pub playing_track_info: Option<PlayingTrackInfo>,
    pub player_thread: Option<P>,
    pub ve_shared_buffer: Option<B>,
    pub ve_selected: VeSelectedTab,
    pub ve_channel: Option<V>,
    pub wait_next_tack_idx: Option<usize>,
    pub seek_no: u64,
    pub played_frame_buffer: Option<u32>,
    pub player_request_state: Option<PlayerRequestState>,
    pub popup_object: Option<PopupObject>,
}

/// The position that a Left press seeks to: five seconds before the audible position, not
/// before the start.
pub open spec fn spec_seek_prev_target(info: PlayingTrackInfo, amount: u128) -> u128 {
    sat_sub(info.spec_carib(), amount)
}

/// The position that a Right press starts from: a pending seek's target, else the audible
/// position.
pub open spec fn spec_seek_forward_base(info: PlayingTrackInfo) -> u128 {
    match info.seeking_duration {
        Some(d) => d,
        None => info.spec_carib(),
    }
}

/// The volume after moving it by `q`, kept within 0 to 100.
pub open spec fn spec_moved_vol(vol: u16, q: i16) -> u16 {
    let v = vol as int + q as int;
    if v <= 0 {
        0
    } else if v >= 100 {
        100
    } else {
        v as u16
    }
}

/// The play state after the play button pauses or resumes.
pub open spec fn spec_toggled(s: PlayState) -> PlayState {
    match s {
        PlayState::Playing(i) => PlayState::Paused(i),
        PlayState::Paused(i) => PlayState::Playing(i),
        PlayState::Stopped => PlayState::Stopped,
    }
}

/// The volume change of the volume area's keys: ±10 on Up and Down, ±1 on Right and Left.
pub open spec fn spec_vol_step(key: Key) -> Option<i16> {
    match key {
        Key::Up => Some(10i16),
        Key::Right => Some(1i16),
        Key::Down => Some(-10i16),
        Key::Left => Some(-1i16),
        _ => None,
    }
}

/// How the played frames of one report are counted, given the seek number of the last completed
/// seek and the frames held back: frames of the seek still pending are held back; frames of the
/// completed seek are counted along with those held back; frames of any other seek are dropped.
pub open spec fn spec_count_frames(
    completed_no: u64,
    held: Option<u32>,
    seek_no: u64,
    frames: u32,
) -> (nat, Option<u32>) {
    if completed_no + 1 == seek_no {
        (
            0,
            Some(
                match held {
                    Some(h) => (h + frames) as u32,
                    None => frames,
                },
            ),
        )
    } else if completed_no == seek_no {
        match held {
            Some(h) => ((frames + h) as nat, None),
            None => (frames as nat, None),
        }
    } else {
        (0, held)
    }
}

/// Whether a report of played frames can be counted without overflow: the held-back and reported
/// frames fit in 32 bits, the device's rate is positive, and the numbers of seeks do not wrap.
pub open spec fn spec_played_frames_ok(
    info: PlayingTrackInfo,
    held: Option<u32>,
    seek_no: u64,
    frames: u32,
    buffered_frames: u32,
) -> bool {
    &&& info.seek_completed_recieved_seek_no < u64::MAX
    &&& info.audio_device_sample_rate > 0
    &&& info.audio_device_sample_rate <= u64::MAX
    &&& (held matches Some(h) ==> h + frames <= u32::MAX)
    &&& spec_count_frames(info.seek_completed_recieved_seek_no, held, seek_no, frames).0
        + buffered_frames <= u32::MAX
}

impl<P, V, B> AppStateContainer<P, V, B> {
    /// A fresh screen for `play_list`: nothing focused, the play button focused in the button row,
    /// full volume, nothing playing and no effect.
    pub fn new(play_list: Vec<AudioFileInfo>) -> (r: Self)
        ensures
            r.focus_state == TabState::NoFocus,
            r.button_focus_state == ButtonIdent::PlayOrPause(PlayButtonState::Playing),
            r.vol_state == 100,
            r.play_list@ == play_list@,
            r.play_list_selected is None,
            r.play_state == PlayState::Stopped,
            r.playing_track_info is None,
            r.player_thread is None,
            r.ve_shared_buffer is None,
            r.ve_selected == VeSelectedTab::Off,
            r.ve_channel is None,
            r.wait_next_tack_idx is None,
            r.seek_no == 0,
            r.played_frame_buffer is None,
            r.player_request_state is None,
            r.popup_object is None,
    {
        AppStateContainer {
            focus_state: TabState::NoFocus,
            button_focus_state: ButtonIdent::PlayOrPause(PlayButtonState::Playing),
            vol_state: 100,
            play_list,
            play_list_selected: None,
            play_state: PlayState::Stopped,
            playing_track_info: None,
            player_thread: None,
            ve_shared_buffer: None,
            ve_selected: VeSelectedTab::Off,
            ve_channel: None,
            wait_next_tack_idx: None,
            seek_no: 0,
            played_frame_buffer: None,
            player_request_state: None,
            popup_object: None,
        }
    }

    /// Whether the index of the track being played can be moved one on without overflow.
    pub open spec fn playing_idx_below_max(&self) -> bool {
        spec_now_playing_idx(self.play_state) matches Some(i) ==> i < usize::MAX
    }

    /// A seek to `pos` was asked for: the seek number went up by one, the request names it, the
    /// track waits for `pos`, and nothing else changed.
    pub open spec fn spec_seek_post(before: Self, after: Self, pos: u128) -> bool {
        let n = (before.seek_no + 1) as u64;
        &&& before.playing_track_info is Some
        &&& after == (AppStateContainer {
            seek_no: n,
            player_request_state: Some(PlayerRequestState::Seek(n)),
            playing_track_info: Some(
                PlayingTrackInfo { seeking_duration: Some(pos), ..before.playing_track_info->0 },
            ),
            ..before
        })
    }

    /// Seek number `seek_no` landed at `actual`: the audible position is `actual`, nothing is
    /// buffered or pending, the effect's new channels (if any) replace the old ones, a request for
    /// this seek is answered, and nothing else changed.
    pub open spec fn spec_seek_complete_post(
        before: Self,
        after: Self,
        actual: u128,
        seek_no: u64,
        ves: Option<V>,
    ) -> bool {
        &&& before.playing_track_info is Some
        &&& after == (AppStateContainer {
            playing_track_info: Some(
                PlayingTrackInfo {
                    current_played_duration: actual,
                    audio_device_buffered_duration: 0,
                    seek_completed_recieved_seek_no: seek_no,
                    seeking_duration: None,
                    ..before.playing_track_info->0
                },
            ),
            ve_channel: if ves is Some {
                ves
            } else {
                before.ve_channel
            },
            player_request_state: if before.player_request_state == Some(
                PlayerRequestState::Seek(seek_no),
            ) {
                None
            } else {
                before.player_request_state
            },
            ..before
        })
    }

    /// Playing track `idx`: past the end of the play list nothing happens; with a player running,
    /// it is told to stop, the effect's channels are dropped and `idx` waits to follow; without
    /// one, a player is asked for.
    pub open spec fn spec_play_track(before: Self, after: Self, idx: usize, r: Option<UiCommand>) -> bool {
        if idx >= before.play_list@.len() {
            r is None && after == before
        } else if before.player_thread is Some {
            &&& r == Some(UiCommand::Player(ControlMessage::Stop))
            &&& after == (AppStateContainer { ve_channel: None, wait_next_tack_idx: Some(idx), ..before })
        } else {
            r == Some(UiCommand::App(AppContorlSignal::StartPlayer(idx))) && after == before
        }
    }

    /// Playing the track after the one being played or paused; nothing without one.
    pub open spec fn spec_play_next(before: Self, after: Self, r: Option<UiCommand>) -> bool {
        match spec_now_playing_idx(before.play_state) {
            None => r is None && after == before,
            Some(i) => Self::spec_play_track(before, after, (i + 1) as usize, r),
        }
    }

    /// Playing the track before the one being played or paused; nothing without one or at the
    /// first.
    pub open spec fn spec_play_previous(before: Self, after: Self, r: Option<UiCommand>) -> bool {
        match spec_now_playing_idx(before.play_state) {
            Some(i) if i > 0 => Self::spec_play_track(before, after, (i - 1) as usize, r),
            _ => r is None && after == before,
        }
    }

    /// Asking for a seek to `pos`: done with a track and a player while the effect is not being
    /// switched, else nothing happens.
    pub open spec fn spec_seek(before: Self, after: Self, pos: u128, r: Option<UiCommand>) -> bool {
        if before.playing_track_info is Some && before.player_request_state != Some(
            PlayerRequestState::VeSwitching,
        ) && before.player_thread is Some {
            &&& Self::spec_seek_post(before, after, pos)
            &&& r == Some(
                UiCommand::Player(ControlMessage::Seek { target_nanos: pos, seek_no: after.seek_no }),
            )
        } else {
            r is None && after == before
        }
    }

    /// Seeking `amount` back from the audible position.
    pub open spec fn spec_seek_prev(before: Self, after: Self, amount: u128, r: Option<UiCommand>) -> bool {
        match before.playing_track_info {
            None => r is None && after == before,
            Some(info) => Self::spec_seek(before, after, spec_seek_prev_target(info, amount), r),
        }
    }

    /// Seeking `amount` forward; past the end of the track, the next track instead.
    pub open spec fn spec_seek_forward(before: Self, after: Self, amount: u128, r: Option<UiCommand>) -> bool {
        match before.playing_track_info {
            None => r is None && after == before,
            Some(info) => {
                let target = spec_seek_forward_base(info) + amount;
                if target > info.track_duraion {
                    Self::spec_play_next(before, after, r)
                } else {
                    Self::spec_seek(before, after, target as u128, r)
                }
            },
        }
    }

    /// Moving the volume by `q`: the volume changes, and a running player is told.
    pub open spec fn spec_move_vol(before: Self, after: Self, q: i16, r: Option<UiCommand>) -> bool {
        let v = spec_moved_vol(before.vol_state, q);
        &&& after == (AppStateContainer { vol_state: v, ..before })
        &&& r == (if before.player_thread is Some {
            Some(UiCommand::Player(ControlMessage::SetVol(v)))
        } else {
            None
        })
    }

    /// Pausing a playing track or resuming a paused one; nothing when stopped.
    pub open spec fn spec_toggle(before: Self, after: Self, r: Option<UiCommand>) -> bool {
        match before.play_state {
            PlayState::Playing(_) => r == Some(UiCommand::Player(ControlMessage::Pause)) && after
                == (AppStateContainer { play_state: spec_toggled(before.play_state), ..before }),
            PlayState::Paused(_) => r == Some(UiCommand::Player(ControlMessage::Resume)) && after
                == (AppStateContainer { play_state: spec_toggled(before.play_state), ..before }),
            PlayState::Stopped => r is None && after == before,
        }
    }

    /// The stream ended: the track after the one being played or paused waits to follow.
    pub open spec fn spec_end_of_stream(before: Self, after: Self) -> bool {
        match spec_now_playing_idx(before.play_state) {
            Some(i) => after == (AppStateContainer {
                wait_next_tack_idx: Some((i + 1) as usize),
                ..before
            }),
            None => after == before,
        }
    }

    /// The player is gone: it, its track, the effect and any pending request are forgotten.
    pub open spec fn spec_forget_player(before: Self, after: Self) -> bool {
        after == (AppStateContainer {
            player_thread: None,
            play_state: PlayState::Stopped,
            playing_track_info: None,
            ve_channel: None,
            ve_shared_buffer: None,
            ..before
        })
    }

    /// The player finished, with `error_message` where it failed: the failure is shown, the player
    /// is forgotten, no request is pending, and the track waiting to follow comes back as `next`.
    pub open spec fn spec_player_finished(
        before: Self,
        after: Self,
        error_message: Option<String>,
        next: Option<usize>,
    ) -> bool {
        &&& next == before.wait_next_tack_idx
        &&& match error_message {
            Some(m) => after.popup_object matches Some(p) && p.message == m && p.title@ == "ERROR"@
                && p.button_name@ == "OK"@,
            None => after.popup_object == before.popup_object,
        }
        &&& after == (AppStateContainer {
            player_thread: None,
            play_state: PlayState::Stopped,
            playing_track_info: None,
            ve_channel: None,
            ve_shared_buffer: None,
            player_request_state: None,
            wait_next_tack_idx: None,
            popup_object: after.popup_object,
            ..before
        })
    }

    /// Plays track `idx`: a running player is stopped and told to go on with `idx` afterwards, the
    /// effect's channels being dropped; without a player one is started. An index past the end of
    /// the play list is ignored.
    pub fn play_track(&mut self, idx: usize) -> (r: Option<UiCommand>)
        ensures
            Self::spec_play_track(*old(self), *final(self), idx, r),
    {
        if idx >= self.play_list.len() {
            return None;
        }
        if self.player_thread.is_some() {
            self.ve_channel = None;
            self.wait_next_tack_idx = Some(idx);
            Some(UiCommand::Player(ControlMessage::Stop))
        } else {
            Some(UiCommand::App(AppContorlSignal::StartPlayer(idx)))
        }
    }

    /// Plays the track after the current one, if one is being played or paused.
    pub fn play_next(&mut self) -> (r: Option<UiCommand>)
        requires
            old(self).playing_idx_below_max(),
        ensures
            Self::spec_play_next(*old(self), *final(self), r),
    {
        match self.play_state {
            PlayState::Playing(idx) | PlayState::Paused(idx) => self.play_track(idx + 1),
            PlayState::Stopped => None,
        }
    }

    /// Plays the track before the current one, if one is being played or paused and it is not the
    /// first.
    pub fn play_previous(&mut self) -> (r: Option<UiCommand>)
        ensures
            Self::spec_play_previous(*old(self), *final(self), r),
    {
        match self.play_state {
            PlayState::Playing(idx) | PlayState::Paused(idx) => {
                if idx == 0 {
                    return None;
                }
                self.play_track(idx - 1)
            },
            PlayState::Stopped => None,
        }
    }

    /// Asks the player to seek to `reqest_pos` (nanoseconds), numbering the seek; nothing happens
    /// without a track, without a player, or while the effect is being switched.
    pub fn seek(&mut self, reqest_pos: u128) -> (r: Option<UiCommand>)
        requires
            old(self).seek_no < u64::MAX,
        ensures
            Self::spec_seek(*old(self), *final(self), reqest_pos, r),
    {
        if self.playing_track_info.is_none() {
            return None;
        }
        if let Some(PlayerRequestState::VeSwitching) = self.player_request_state {
            return None;
        }
        if self.player_thread.is_none() {
            return None;
        }
        let new_seek_no = self.seek_no + 1;
        self.seek_no = new_seek_no;
        self.player_request_state = Some(PlayerRequestState::Seek(new_seek_no));
        match self.playing_track_info.as_mut() {
            Some(info) => {
                info.seeking_duration = Some(reqest_pos);
            },
            None => {},
        }
        Some(UiCommand::Player(ControlMessage::Seek { target_nanos: reqest_pos, seek_no: new_seek_no }))
    }

    /// Seeks `move_amout` nanoseconds back from the audible position, not before the start.
    pub fn seek_prev(&mut self, move_amout: u128) -> (r: Option<UiCommand>)
        requires
            old(self).seek_no < u64::MAX,
        ensures
            Self::spec_seek_prev(*old(self), *final(self), move_amout, r),
    {
        let target = match &self.playing_track_info {
            None => {
                return None;
            },
            Some(info) => {
                let carib = info.get_carib_duration();
                if carib >= move_amout {
                    carib - move_amout
                } else {
                    0
                }
            },
        };
        self.seek(target)
    }

    /// Seeks `move_amout` nanoseconds forward from a pending seek's target, else from the audible
    /// position; past the end of the track, goes on to the next track instead.
    pub fn seek_forward(&mut self, move_amout: u128) -> (r: Option<UiCommand>)
        requires
            old(self).seek_no < u64::MAX,
            old(self).playing_idx_below_max(),
            old(self).playing_track_info matches Some(info) ==> spec_seek_forward_base(info)
                + move_amout <= MAX_DURATION_NANOS,
        ensures
            Self::spec_seek_forward(*old(self), *final(self), move_amout, r),
    {
        let (base, total) = match &self.playing_track_info {
            None => {
                return None;
            },
            Some(info) => {
                let base = match info.seeking_duration {
                    Some(d) => d,
                    None => info.get_carib_duration(),
                };
                (base, info.track_duraion)
            },
        };
        let reqest_pos = base + move_amout;
        if reqest_pos > total {
            return self.play_next();
        }
        self.seek(reqest_pos)
    }

    /// Moves the volume by `move_quantity`, within 0 to 100, and passes it on to a running
    /// player.
    pub fn move_vol(&mut self, move_quantity: i16) -> (r: Option<UiCommand>)
        ensures
            Self::spec_move_vol(*old(self), *final(self), move_quantity, r),
    {
        let after: i32 = self.vol_state as i32 + move_quantity as i32;
        let after: u16 = if after <= 0 {
            0
        } else if after >= MAX_VOL as i32 {
            MAX_VOL
        } else {
            after as u16
        };
        self.vol_state = after;
        if self.player_thread.is_some() {
            Some(UiCommand::Player(ControlMessage::SetVol(after)))
        } else {
            None
        }
    }

    /// Pauses a playing track or resumes a paused one.
    pub fn toggle_play_pause(&mut self) -> (r: Option<UiCommand>)
        ensures
            Self::spec_toggle(*old(self), *final(self), r),
    {
        match self.play_state {
            PlayState::Playing(i) => {
                self.play_state = PlayState::Paused(i);
                Some(UiCommand::Player(ControlMessage::Pause))
            },
            PlayState::Paused(i) => {
                self.play_state = PlayState::Playing(i);
                Some(UiCommand::Player(ControlMessage::Resume))
            },
            PlayState::Stopped => None,
        }
    }

    /// Marks track `idx` as playing before a player is started for it; says whether one is to be
    /// started, which it is not while another runs.
    pub fn begin_start_player(&mut self, idx: usize) -> (start: bool)
        ensures
            start == old(self).player_thread is None,
            start ==> *final(self) == (AppStateContainer {
                play_state: PlayState::Playing(idx),
                ..*old(self)
            }),
            !start ==> *final(self) == *old(self),
    {
        if self.player_thread.is_some() {
            return false;
        }
        self.play_state = PlayState::Playing(idx);
        true
    }

    /// The player finished, with `error_message` where it failed: the failure is shown, the
    /// player and its track are forgotten, no request is pending any more, and the track that is to
    /// follow, if any, comes back.
    pub fn on_player_finished(&mut self, error_message: Option<String>) -> (next: Option<usize>)
        ensures
            Self::spec_player_finished(*old(self), *final(self), error_message, next),
    {
        match error_message {
            Some(m) => {
                self.popup_object = Some(PopupObject::new(m));
            },
            None => {},
        }
        self.handle_player_thread_completed();
        self.player_request_state = None;
        self.wait_next_tack_idx.take()
    }

    /// Forgets the finished player and everything about its track.
    pub fn handle_player_thread_completed(&mut self)
        ensures
            Self::spec_forget_player(*old(self), *final(self)),
    {
        self.player_thread = None;
        self.play_state = PlayState::Stopped;
        self.playing_track_info = None;
        self.ve_channel = None;
        self.ve_shared_buffer = None;
    }

    /// The player reported the track's rates and length: the timing starts afresh, and a chosen
    /// effect is asked for again.
    pub fn on_track_info(
        &mut self,
        file_sample_rate: usize,
        audio_device_sample_rate: usize,
        track_duration: u128,
    ) -> (r: Option<UiCommand>)
        ensures
            *final(self) == (AppStateContainer {
                playing_track_info: Some(
                    PlayingTrackInfo {
                        file_sample_rate,
                        audio_device_sample_rate,
                        track_duraion: track_duration,
                        seek_completed_recieved_seek_no: 0,
                        seeking_duration: None,
                        current_played_duration: 0,
                        audio_device_buffered_duration: 0,
                    },
                ),
                ..*old(self)
            }),
            old(self).ve_selected != VeSelectedTab::Off ==> r == Some(
                UiCommand::RequestVeSwitch(old(self).ve_selected),
            ),
            old(self).ve_selected == VeSelectedTab::Off ==> r is None,
    {
        self.playing_track_info = Some(
            PlayingTrackInfo::new(file_sample_rate, audio_device_sample_rate, track_duration),
        );
        if self.ve_selected != VeSelectedTab::Off {
            Some(UiCommand::RequestVeSwitch(self.ve_selected))
        } else {
            None
        }
    }

    /// Whether a report of played frames can be counted without overflow.
    pub fn played_frames_ok(&self, frames: u32, buffered_frames: u32, seek_no: u64) -> (r: bool)
        ensures
            r == (self.playing_track_info matches Some(info) ==> spec_played_frames_ok(
                info,
                self.played_frame_buffer,
                seek_no,
                frames,
                buffered_frames,
            )),
    {
        match &self.playing_track_info {
            None => true,
            Some(info) => {
                if info.seek_completed_recieved_seek_no == u64::MAX {
                    return false;
                }
                if info.audio_device_sample_rate == 0 {
                    return false;
                }
                if info.audio_device_sample_rate as u128 > u64::MAX as u128 {
                    return false;
                }
                let x = info.seek_completed_recieved_seek_no;
                let counted: u64 = if x + 1 == seek_no {
                    match self.played_frame_buffer {
                        Some(h) => {
                            if h as u64 + frames as u64 > u32::MAX as u64 {
                                return false;
                            }
                        },
                        None => {},
                    }
                    0
                } else if x == seek_no {
                    match self.played_frame_buffer {
                        Some(h) => {
                            if h as u64 + frames as u64 > u32::MAX as u64 {
                                return false;
                            }
                            h as u64 + frames as u64
                        },
                        None => frames as u64,
                    }
                } else {
                    match self.played_frame_buffer {
                        Some(h) => {
                            if h as u64 + frames as u64 > u32::MAX as u64 {
                                return false;
                            }
                        },
                        None => {},
                    }
                    0
                };
                counted + buffered_frames as u64 <= u32::MAX as u64
            },
        }
    }

    /// The renderer reported `frames` frames played, `buffered_frames` more in the device, during
    /// seek number `seek_no`. Says whether the shown second changed, so that the screen is drawn
    /// again.
    pub fn on_played_frames(&mut self, frames: u32, buffered_frames: u32, seek_no: u64) -> (render:
        bool)
        requires
            old(self).playing_track_info matches Some(info) ==> spec_played_frames_ok(
                info,
                old(self).played_frame_buffer,
                seek_no,
                frames,
                buffered_frames,
            ),
        ensures
            old(self).playing_track_info is None ==> !render && *final(self) == *old(self),
            old(self).playing_track_info matches Some(info) ==> {
                let (counted, held) = spec_count_frames(
                    info.seek_completed_recieved_seek_no,
                    old(self).played_frame_buffer,
                    seek_no,
                    frames,
                );
                let rate = info.audio_device_sample_rate as nat;
                let j = PlayingTrackInfo {
                    current_played_duration: sat_add_duration(
                        info.current_played_duration,
                        spec_frames_to_nanos(counted, rate) as u128,
                    ),
                    audio_device_buffered_duration: spec_frames_to_nanos(
                        (counted + buffered_frames) as nat,
                        rate,
                    ) as u128,
                    ..info
                };
                &&& *final(self) == (AppStateContainer {
                    played_frame_buffer: held,
                    playing_track_info: Some(j),
                    ..*old(self)
                })
                &&& render == (info.spec_carib() / NANOS_PER_SEC != j.spec_carib() / NANOS_PER_SEC)
            },
    {
        let x = match &self.playing_track_info {
            None => {
                return false;
            },
            Some(info) => info.seek_completed_recieved_seek_no,
        };
        let counted: u32 = if x + 1 == seek_no {
            match self.played_frame_buffer {
                Some(h) => {
                    self.played_frame_buffer = Some(h + frames);
                },
                None => {
                    self.played_frame_buffer = Some(frames);
                },
            }
            0
        } else if x == seek_no {
            match self.played_frame_buffer {
                Some(h) => {
                    self.played_frame_buffer = None;
                    frames + h
                },
                None => frames,
            }
        } else {
            0
        };
        match self.playing_track_info.as_mut() {
            Some(info) => {
                let before = info.get_carib_duration();
                info.set_played_duration(counted, buffered_frames);
                let after = info.get_carib_duration();
                before / NANOS_PER_SEC != after / NANOS_PER_SEC
            },
            None => false,
        }
    }

    /// The stream of the current track ended: the next track is to follow once the player
    /// finishes.
    pub fn on_end_of_stream(&mut self)
        requires
            old(self).playing_idx_below_max(),
        ensures
            Self::spec_end_of_stream(*old(self), *final(self)),
    {
        match self.play_state {
            PlayState::Playing(idx) | PlayState::Paused(idx) => {
                self.wait_next_tack_idx = Some(idx + 1);
            },
            PlayState::Stopped => {},
        }
    }

    /// The renderer played everything: the player is told to stop, if it runs.
    pub fn on_renderer_play_completed(&self) -> (r: Option<UiCommand>)
        ensures
            self.player_thread is Some ==> r == Some(UiCommand::Player(ControlMessage::Stop)),
            self.player_thread is None ==> r is None,
    {
        if self.player_thread.is_some() {
            Some(UiCommand::Player(ControlMessage::Stop))
        } else {
            None
        }
    }

    /// The player confirmed the effect's switch: no request is pending any more.
    pub fn on_ve_switched(&mut self)
        ensures
            *final(self) == (AppStateContainer { player_request_state: None, ..*old(self) }),
    {
        self.player_request_state = None;
    }

    /// The player turned the effect off: its buffer and channels are dropped and no request is
    /// pending.
    pub fn on_ve_disabled(&mut self)
        ensures
            *final(self) == (AppStateContainer {
                ve_shared_buffer: None,
                ve_channel: None,
                player_request_state: None,
                ..*old(self)
            }),
    {
        self.ve_shared_buffer = None;
        self.ve_channel = None;
        self.player_request_state = None;
    }

    /// The seek numbered `seek_no` landed at `actual_nanos`: the audible position becomes that,
    /// the seek is no longer pending, a new effect channel replaces the old one where the effect
    /// took part, and a pending request for this seek is answered. Says whether to draw.
    pub fn on_seek_complete(&mut self, actual_nanos: u128, seek_no: u64, ves: Option<V>) -> (render:
        bool)
        ensures
            old(self).playing_track_info is None ==> !render && *final(self) == *old(self),
            old(self).playing_track_info is Some ==> render && Self::spec_seek_complete_post(
                *old(self),
                *final(self),
                actual_nanos,
                seek_no,
                ves,
            ),
    {
        match self.playing_track_info.as_mut() {
            None => {
                return false;
            },
            Some(info) => {
                info.set_played_duration_direct(actual_nanos, 0);
                info.seek_completed_recieved_seek_no = seek_no;
                info.seeking_duration = None;
            },
        }
        match ves {
            Some(v) => {
                self.ve_channel = Some(v);
            },
            None => {},
        }
        match self.player_request_state {
            Some(PlayerRequestState::Seek(n)) => {
                if n == seek_no {
                    self.player_request_state = None;
                }
            },
            _ => {},
        }
        true
    }

    /// Whether a pending request to switch the effect may be carried out: a request and the
    /// go-ahead of the last switch are both there, and nothing else is pending.
    pub fn ve_switch_ready(&self, has_request: bool, has_sync: bool) -> (r: bool)
        ensures
            r == (has_request && has_sync && self.player_request_state is None),
    {
        has_request && has_sync && self.player_request_state.is_none()
    }

    /// A switch of the effect has been asked of the player.
    pub fn begin_ve_switching(&mut self)
        ensures
            *final(self) == (AppStateContainer {
                player_request_state: Some(PlayerRequestState::VeSwitching),
                ..*old(self)
            }),
    {
        self.player_request_state = Some(PlayerRequestState::VeSwitching);
    }

    /// What switching the effect to `target_tab` asks of the application: nothing without a
    /// player; turning it off; or, with a track's rates known, a buffer of windows of a
    /// sixtieth of a second at the device's rate.
    pub fn handle_ve_switching(&self, target_tab: VeSelectedTab) -> (r: Option<VeSwitchAction>)
        ensures
            self.player_thread is None ==> r is None,
            self.player_thread is Some && target_tab == VeSelectedTab::Off ==> r == Some(
                VeSwitchAction::Disable,
            ),
            self.player_thread is Some && target_tab != VeSelectedTab::Off ==> match self.playing_track_info {
                None => r is None,
                Some(info) => r == Some(
                    VeSwitchAction::Enable {
                        move_window: (info.audio_device_sample_rate / FRAME_RATE) as usize,
                    },
                ),
            },
    {
        if self.player_thread.is_none() {
            return None;
        }
        match target_tab {
            VeSelectedTab::Off => Some(VeSwitchAction::Disable),
            _ => match &self.playing_track_info {
                None => None,
                Some(info) => Some(
                    VeSwitchAction::Enable { move_window: info.audio_device_sample_rate / FRAME_RATE },
                ),
            },
        }
    }
}

/// Pausing and then resuming, or resuming and then pausing, gives back the whole state, and the
/// player is told the two opposite things; when stopped, neither press does anything.
pub proof fn lemma_toggle_twice<P, V, B>(
    s0: AppStateContainer<P, V, B>,
    s1: AppStateContainer<P, V, B>,
    s2: AppStateContainer<P, V, B>,
    r1: Option<UiCommand>,
    r2: Option<UiCommand>,
)
    requires
        AppStateContainer::spec_toggle(s0, s1, r1),
        AppStateContainer::spec_toggle(s1, s2, r2),
    ensures
        s2 == s0,
        s0.play_state is Playing ==> r1 == Some(UiCommand::Player(ControlMessage::Pause)) && r2
            == Some(UiCommand::Player(ControlMessage::Resume)),
        s0.play_state is Paused ==> r1 == Some(UiCommand::Player(ControlMessage::Resume)) && r2
            == Some(UiCommand::Player(ControlMessage::Pause)),
        s0.play_state is Stopped ==> r1 is None && r2 is None,
{
}

/// Moving the volume keeps it between 0 and 100, and a step of ten up and then down (or down and
/// then up) gives back the whole state where the volume does not hit a bound.
pub proof fn lemma_volume_bounded_and_reversible<P, V, B>(
    s0: AppStateContainer<P, V, B>,
    s1: AppStateContainer<P, V, B>,
    s2: AppStateContainer<P, V, B>,
    q: i16,
    r1: Option<UiCommand>,
    r2: Option<UiCommand>,
)
    requires
        s0.vol_state <= 100,
        AppStateContainer::spec_move_vol(s0, s1, q, r1),
        AppStateContainer::spec_move_vol(s1, s2, -q as i16, r2),
    ensures
        s1.vol_state <= 100,
        s2.vol_state <= 100,
        q == 10 && s0.vol_state <= 90 ==> s2 == s0,
        q == -10 && s0.vol_state >= 10 ==> s2 == s0,
{
}

/// No reported frame is lost or counted twice: for reports of the completed seek or the one
/// pending, the frames counted plus those held back grow by exactly the frames reported.
pub proof fn lemma_frames_conserved(completed_no: u64, held: Option<u32>, seek_no: u64, frames: u32)
    requires
        seek_no == completed_no || seek_no == completed_no + 1,
        held matches Some(h) ==> h + frames <= u32::MAX,
    ensures
        ({
            let (counted, held2) = spec_count_frames(completed_no, held, seek_no, frames);
            let before = match held {
                Some(h) => h as nat,
                None => 0nat,
            };
            let after = match held2 {
                Some(h) => h as nat,
                None => 0nat,
            };
            counted + after == before + frames
        }),
{
}

/// When a track's stream ends, the player's finishing starts the next track: the index that the
/// end of the stream leaves waiting is the one handed back when the player finishes, and it is
/// one past the track that was playing.
pub proof fn lemma_end_of_stream_advances<P, V, B>(
    s0: AppStateContainer<P, V, B>,
    s1: AppStateContainer<P, V, B>,
    s2: AppStateContainer<P, V, B>,
    error_message: Option<String>,
    next: Option<usize>,
)
    requires
        s0.playing_idx_below_max(),
        spec_now_playing_idx(s0.play_state) is Some,
        AppStateContainer::spec_end_of_stream(s0, s1),
        AppStateContainer::spec_player_finished(s1, s2, error_message, next),
    ensures
        next == Some((spec_now_playing_idx(s0.play_state)->0 + 1) as usize),
        s2.player_thread is None,
        s2.wait_next_tack_idx is None,
{
}

/// A seek followed by the completion with its number answers the request and puts the audible
/// position where the seek landed; a completion with another number leaves the request pending.
pub proof fn lemma_seek_then_complete<P, V, B>(
    s0: AppStateContainer<P, V, B>,
    s1: AppStateContainer<P, V, B>,
    s2: AppStateContainer<P, V, B>,
    pos: u128,
    actual: u128,
    seek_no: u64,
    ves: Option<V>,
)
    requires
        AppStateContainer::spec_seek_post(s0, s1, pos),
        AppStateContainer::spec_seek_complete_post(s1, s2, actual, seek_no, ves),
    ensures
        seek_no == s1.seek_no ==> s2.player_request_state is None,
        seek_no != s1.seek_no ==> s2.player_request_state == s1.player_request_state,
        s2.playing_track_info matches Some(j) && j.spec_carib() == actual && j.seeking_duration is None,
{
}

} // verus!
