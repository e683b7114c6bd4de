use oscilla::app_state::{AppContorlSignal, AppStateContainer, PlayerRequestState, PopupObject, UiCommand, VeSwitchAction};
use oscilla::areas::{ButtonsArea, DurationBarArea, EffectArea, KeyGuideArea, ListArea, Popup, VolArea};
use oscilla::audio_file::AudioFileInfo;
use oscilla::key_guide::GuideColor;
use oscilla::playback::{ButtonIdent, PlayButtonState, PlayState, VeSelectedTab};
use oscilla::player::ControlMessage;
use oscilla::tabs::{Key, Keystroke, TabState, Tabs};
use oscilla::track_info::{format_to_min_sec, frames_to_nanos, track_duration, PlayingTrackInfo, MAX_DURATION_NANOS};

type State = AppStateContainer<(), u8, ()>;

fn files(n: usize) -> Vec<AudioFileInfo> {
    (0..n).map(|i| AudioFileInfo::new(&format!("/music/track{i}.mp3"), &vec![])).collect()
}

fn playing_state(n: usize, idx: usize) -> State {
    let mut s = State::new(files(n));
    s.play_state = PlayState::Playing(idx);
    s.player_thread = Some(());
    s.playing_track_info = Some(PlayingTrackInfo::new(44100, 48000, 60_000_000_000));
    s
}

#[test]
fn fresh_state() {
    let s = State::new(files(2));
    assert_eq!(s.focus_state, TabState::NoFocus);
    assert_eq!(s.vol_state, 100);
    assert_eq!(s.button_focus_state, ButtonIdent::PlayOrPause(PlayButtonState::Playing));
    assert_eq!(s.play_state, PlayState::Stopped);
    assert_eq!(s.play_list.len(), 2);
}

#[test]
fn popup_defaults() {
    let p = PopupObject::new("boom".to_string());
    assert_eq!(p.title, "ERROR");
    assert_eq!(p.message, "boom");
    assert_eq!(p.button_name, "OK");
}

#[test]
fn play_track_starts_or_restarts() {
    let mut s = State::new(files(3));
    assert_eq!(s.play_track(5), None);
    assert_eq!(s.play_track(1), Some(UiCommand::App(AppContorlSignal::StartPlayer(1))));
    let mut p = playing_state(3, 0);
    p.ve_channel = Some(9);
    assert_eq!(p.play_track(2), Some(UiCommand::Player(ControlMessage::Stop)));
    assert_eq!(p.wait_next_tack_idx, Some(2));
    assert_eq!(p.ve_channel, None);
}

#[test]
fn next_and_previous() {
    let mut p = playing_state(3, 0);
    assert_eq!(p.play_previous(), None);
    assert_eq!(p.play_next(), Some(UiCommand::Player(ControlMessage::Stop)));
    assert_eq!(p.wait_next_tack_idx, Some(1));
    let mut last = playing_state(3, 2);
    assert_eq!(last.play_next(), None);
    assert_eq!(last.play_previous(), Some(UiCommand::Player(ControlMessage::Stop)));
    assert_eq!(last.wait_next_tack_idx, Some(1));
}

#[test]
fn seek_numbers_requests() {
    let mut p = playing_state(1, 0);
    let cmd = p.seek(7_000_000_000);
    assert_eq!(cmd, Some(UiCommand::Player(ControlMessage::Seek { target_nanos: 7_000_000_000, seek_no: 1 })));
    assert_eq!(p.seek_no, 1);
    assert_eq!(p.player_request_state, Some(PlayerRequestState::Seek(1)));
    assert_eq!(p.playing_track_info.as_ref().unwrap().seeking_duration, Some(7_000_000_000));

    // a completion for another seek leaves the request pending
    assert!(p.on_seek_complete(3_000_000_000, 0, None));
    assert_eq!(p.player_request_state, Some(PlayerRequestState::Seek(1)));
    // the completion of this seek answers it
    assert!(p.on_seek_complete(6_990_000_000, 1, Some(4)));
    assert_eq!(p.player_request_state, None);
    let info = p.playing_track_info.as_ref().unwrap();
    assert_eq!(info.get_carib_duration(), 6_990_000_000);
    assert_eq!(info.seeking_duration, None);
    assert_eq!(info.seek_completed_recieved_seek_no, 1);
    assert_eq!(p.ve_channel, Some(4));

    p.begin_ve_switching();
    assert_eq!(p.seek(1), None);
    assert_eq!(p.seek_no, 1);
}

#[test]
fn seek_steps() {
    let mut p = playing_state(2, 0);
    {
        let info = p.playing_track_info.as_mut().unwrap();
        info.set_played_duration_direct(3_000_000_000, 1_000_000_000);
    }
    assert_eq!(p.seek_prev(5_000_000_000), Some(UiCommand::Player(ControlMessage::Seek { target_nanos: 0, seek_no: 1 })));
    // forward from the pending seek's target
    assert_eq!(p.seek_forward(5_000_000_000), Some(UiCommand::Player(ControlMessage::Seek { target_nanos: 5_000_000_000, seek_no: 2 })));
    // past the end goes on to the next track
    p.playing_track_info.as_mut().unwrap().seeking_duration = Some(58_000_000_000);
    assert_eq!(p.seek_forward(5_000_000_000), Some(UiCommand::Player(ControlMessage::Stop)));
    assert_eq!(p.wait_next_tack_idx, Some(1));
    assert_eq!(p.seek_no, 2);
}

#[test]
fn volume_moves_and_clamps() {
    let mut s = State::new(files(1));
    assert_eq!(s.move_vol(10), None);
    assert_eq!(s.vol_state, 100);
    s.move_vol(-10);
    assert_eq!(s.vol_state, 90);
    s.move_vol(10);
    assert_eq!(s.vol_state, 100);
    s.vol_state = 3;
    s.move_vol(-10);
    assert_eq!(s.vol_state, 0);
    let mut p = playing_state(1, 0);
    assert_eq!(VolArea::handle_key(&mut p, Key::Left), Some(UiCommand::Player(ControlMessage::SetVol(99))));
    assert_eq!(VolArea::handle_key(&mut p, Key::Enter), None);
    assert_eq!(p.vol_state, 99);
}

#[test]
fn toggling_play() {
    let mut p = playing_state(1, 0);
    assert_eq!(p.toggle_play_pause(), Some(UiCommand::Player(ControlMessage::Pause)));
    assert_eq!(p.play_state, PlayState::Paused(0));
    assert_eq!(p.toggle_play_pause(), Some(UiCommand::Player(ControlMessage::Resume)));
    assert_eq!(p.play_state, PlayState::Playing(0));
}

#[test]
fn played_frames_held_during_seek() {
    let mut p = playing_state(1, 0);
    assert!(p.played_frames_ok(4800, 4800, 0));
    // 48000 frames at 48 kHz: one second, half of it still in the device
    let redraw = p.on_played_frames(48000, 24000, 0);
    assert!(!redraw);
    let info = p.playing_track_info.as_ref().unwrap();
    assert_eq!(info.current_played_duration, 1_000_000_000);
    assert_eq!(info.audio_device_buffered_duration, 1_500_000_000);
    assert_eq!(info.get_carib_duration(), 0);
    // frames of the pending seek are held back
    // the device's buffer empties: the audible second changes
    assert!(p.on_played_frames(480, 0, 1));
    assert_eq!(p.played_frame_buffer, Some(480));
    assert_eq!(p.playing_track_info.as_ref().unwrap().current_played_duration, 1_000_000_000);
    p.on_seek_complete(0, 1, None);
    p.on_played_frames(480, 0, 1);
    assert_eq!(p.played_frame_buffer, None);
    assert_eq!(p.playing_track_info.as_ref().unwrap().current_played_duration, 20_000_000);
    // frames of an older seek are dropped
    p.on_played_frames(480, 0, 0);
    assert_eq!(p.playing_track_info.as_ref().unwrap().current_played_duration, 20_000_000);
}

#[test]
fn track_events() {
    let mut s = State::new(files(2));
    s.ve_selected = VeSelectedTab::Oscilloscope;
    assert_eq!(s.on_track_info(44100, 48000, 10), Some(UiCommand::RequestVeSwitch(VeSelectedTab::Oscilloscope)));
    s.play_state = PlayState::Paused(1);
    s.on_end_of_stream();
    assert_eq!(s.wait_next_tack_idx, Some(2));
    assert_eq!(s.on_renderer_play_completed(), None);
    s.player_thread = Some(());
    assert_eq!(s.on_renderer_play_completed(), Some(UiCommand::Player(ControlMessage::Stop)));
    assert_eq!(s.handle_ve_switching(VeSelectedTab::Oscilloscope), Some(VeSwitchAction::Enable { move_window: 800 }));
    assert_eq!(s.handle_ve_switching(VeSelectedTab::Off), Some(VeSwitchAction::Disable));
    s.ve_channel = Some(1);
    s.on_ve_disabled();
    assert_eq!(s.ve_channel, None);
    assert!(s.ve_switch_ready(true, true));
    s.begin_ve_switching();
    assert!(!s.ve_switch_ready(true, true));
    s.on_ve_switched();
    assert!(s.ve_switch_ready(true, true));
    s.handle_player_thread_completed();
    assert_eq!(s.play_state, PlayState::Stopped);
    assert!(s.player_thread.is_none() && s.playing_track_info.is_none());
}

#[test]
fn durations() {
    assert_eq!(frames_to_nanos(44100, 44100), 1_000_000_000);
    assert_eq!(frames_to_nanos(1, 3), 333_333_333);
    assert_eq!(frames_to_nanos(2, 3), 666_666_667);
    assert_eq!(track_duration(Some(96000), Some(48000)), Some(2_000_000_000));
    assert_eq!(track_duration(None, Some(48000)), None);
    assert_eq!(track_duration(Some(1), None), None);
    let mut info = PlayingTrackInfo::new(44100, 48000, 0);
    info.set_played_duration_direct(MAX_DURATION_NANOS, 0);
    info.set_played_duration(48000, 0);
    assert_eq!(info.current_played_duration, MAX_DURATION_NANOS);
}

#[test]
fn list_keys() {
    let mut s = State::new(files(3));
    assert_eq!(ListArea::handle_key(&mut s, Key::Down), None);
    assert_eq!(s.play_list_selected, Some(0));
    ListArea::handle_key(&mut s, Key::Down);
    assert_eq!(s.play_list_selected, Some(1));
    ListArea::handle_key(&mut s, Key::Up);
    assert_eq!(s.play_list_selected, Some(0));
    ListArea::handle_key(&mut s, Key::Up);
    assert_eq!(s.play_list_selected, Some(0));
    assert_eq!(ListArea::handle_key(&mut s, Key::Enter), Some(UiCommand::App(AppContorlSignal::StartPlayer(0))));
    s.play_list_selected = Some(3);
    assert_eq!(ListArea::handle_key(&mut s, Key::Enter), Some(UiCommand::AddFiles));
    s.play_list_selected = None;
    ListArea::handle_key(&mut s, Key::Up);
    assert_eq!(s.play_list_selected, Some(usize::MAX));
    ListArea::lost_tab_selection_handler(&mut s);
    assert_eq!(s.play_list_selected, None);
}

#[test]
fn delete_keeps_playing_entry() {
    let mut s = playing_state(4, 2);
    let playing_path = s.play_list[2].file_path.clone();
    s.play_list_selected = Some(0);
    ListArea::handle_key(&mut s, Key::Delete);
    assert_eq!(s.play_list.len(), 3);
    assert_eq!(s.play_state, PlayState::Playing(1));
    assert_eq!(s.play_list[1].file_path, playing_path);
    // the playing entry itself is not deleted
    s.play_list_selected = Some(1);
    ListArea::handle_key(&mut s, Key::Delete);
    assert_eq!(s.play_list.len(), 3);
    // an entry after it leaves the index alone
    s.play_list_selected = Some(2);
    ListArea::handle_key(&mut s, Key::Delete);
    assert_eq!(s.play_list.len(), 2);
    assert_eq!(s.play_state, PlayState::Playing(1));
}

#[test]
fn effect_duration_and_buttons() {
    let mut p = playing_state(3, 1);
    assert_eq!(EffectArea::handle_key(&mut p, Key::Right), Some(UiCommand::RequestVeSwitch(VeSelectedTab::Oscilloscope)));
    assert_eq!(EffectArea::handle_key(&mut p, Key::Up), None);
    assert_eq!(DurationBarArea::handle_key(&mut p, Key::Up), None);
    assert!(matches!(DurationBarArea::handle_key(&mut p, Key::Left), Some(UiCommand::Player(ControlMessage::Seek { .. }))));

    ButtonsArea::get_tab_selected_handler(&mut p);
    assert_eq!(p.button_focus_state, ButtonIdent::PlayOrPause(PlayButtonState::Playing));
    assert_eq!(ButtonsArea::handle_key(&mut p, Key::Enter), Some(UiCommand::Player(ControlMessage::Pause)));
    assert_eq!(p.play_state, PlayState::Paused(1));
    assert_eq!(ButtonsArea::handle_key(&mut p, Key::Right), None);
    assert_eq!(p.button_focus_state, ButtonIdent::Prev);
    assert!(ButtonsArea::is_prev_button_enabled(&p));
    assert!(ButtonsArea::is_next_button_enabled(&p));
    assert!(ButtonsArea::is_play_button_enabled(&p));
    assert_eq!(ButtonsArea::handle_key(&mut p, Key::Enter), Some(UiCommand::Player(ControlMessage::Stop)));
    assert_eq!(p.wait_next_tack_idx, Some(0));

    let mut stopped = State::new(files(2));
    assert_eq!(ButtonsArea::handle_key(&mut stopped, Key::Enter), Some(UiCommand::App(AppContorlSignal::StartPlayer(0))));
    assert!(!ButtonsArea::is_prev_button_enabled(&stopped));
}

#[test]
fn key_events_route_to_areas() {
    let mut p = playing_state(3, 0);
    assert_eq!(p.handle_key_event(Key::Up), None);
    assert_eq!(p.focus_state, TabState::Focused(Tabs::ButtonsArea));
    assert_eq!(p.handle_key_event(Key::Right), None);
    assert_eq!(p.focus_state, TabState::Focused(Tabs::VolArea));
    p.handle_key_event(Key::Enter);
    assert_eq!(p.focus_state, TabState::Selected(Tabs::VolArea));
    assert_eq!(p.handle_key_event(Key::Down), Some(UiCommand::Player(ControlMessage::SetVol(90))));
    p.handle_key_event(Key::Esc);
    assert_eq!(p.focus_state, TabState::Focused(Tabs::VolArea));

    p.popup_object = Some(PopupObject::new("x".to_string()));
    assert_eq!(p.handle_key_event(Key::Up), None);
    assert_eq!(p.focus_state, TabState::Focused(Tabs::VolArea));
    assert_eq!(p.handle_key_event(Key::Enter), None);
    assert!(p.popup_object.is_none());
    Popup::handle_key(&mut p, Key::Enter);
    assert!(p.can_handle_keys());
}

#[test]
fn bottom_line_guides() {
    let mut p = playing_state(3, 1);
    let line = KeyGuideArea::bottom_line(&p);
    assert_eq!(line.guides.len(), 7);
    assert_eq!(line.guides[0].desc, "Move Focus");
    assert_eq!(line.now_playing.as_deref(), Some("🎵 track1.mp3"));
    p.focus_state = TabState::Focused(Tabs::ListArea);
    let line = KeyGuideArea::bottom_line(&p);
    assert_eq!(line.guides.len(), 9);
    assert_eq!(line.guides[1].key, "Enter");
    assert!(line.now_playing.is_none());
    p.focus_state = TabState::Selected(Tabs::ButtonsArea);
    p.button_focus_state = ButtonIdent::Prev;
    let line = KeyGuideArea::bottom_line(&p);
    assert_eq!(line.guides[1].desc, "Play Prev Item");
    assert_eq!(line.guides[1].color, GuideColor::Magenta);
    assert_eq!(line.guides.last().unwrap().desc, "Quit Oscilla");
    p.focus_state = TabState::Selected(Tabs::ListArea);
    assert!(KeyGuideArea::bottom_line(&p).guides.is_empty());
    let mut stopped = State::new(vec![]);
    stopped.focus_state = TabState::Selected(Tabs::ButtonsArea);
    let g = KeyGuideArea::selected_area_guides(&stopped, Tabs::ButtonsArea);
    assert_eq!(g.len(), 6);
    assert_eq!(g[1].key, "→");
}

#[test]
fn keystrokes() {
    let mut s = playing_state(3, 1);
    assert!(s.can_handle_keystroke(true, Keystroke::Char('d'), true));
    assert_eq!(s.handle_keystroke(true, Keystroke::Char('d'), true), (true, Some(UiCommand::Player(ControlMessage::Stop))));
    assert_eq!(s.handle_keystroke(false, Keystroke::Char('d'), true), (false, None));
    assert_eq!(s.handle_keystroke(true, Keystroke::Char('d'), false), (false, None));
    assert_eq!(s.handle_keystroke(true, Keystroke::Char(' '), false), (false, None));
    assert_eq!(s.play_state, PlayState::Playing(1));
    assert_eq!(s.handle_keystroke(true, Keystroke::Key(Key::Down), true), (false, None));
    assert_eq!(s.focus_state, TabState::Focused(Tabs::ListArea));
    assert_eq!(s.vol_state, 100);

    let mut stopped = State::new(files(1));
    assert_eq!(stopped.handle_keystroke(true, Keystroke::Char('d'), true), (true, None));
    stopped.popup_object = Some(PopupObject::new("x".to_string()));
    assert_eq!(stopped.handle_keystroke(true, Keystroke::Char(' '), false), (false, None));
    assert!(stopped.popup_object.is_some());
    assert_eq!(stopped.handle_keystroke(true, Keystroke::Char('d'), true), (true, None));
    assert!(stopped.popup_object.is_some());
    assert_eq!(stopped.handle_keystroke(true, Keystroke::Key(Key::Enter), false), (false, None));
    assert!(stopped.popup_object.is_none());
}

#[test]
fn minutes_and_seconds() {
    assert_eq!(format_to_min_sec(0), "00:00");
    assert_eq!(format_to_min_sec(65_999_999_999), "01:05");
    assert_eq!(format_to_min_sec(600_000_000_000), "10:00");
    assert_eq!(format_to_min_sec(6_000_000_000_000 + 59_000_000_000), "100:59");
}
