use oscilla::playback::{ButtonIdent, PlayButtonState, PlayState, VeSelectedTab};
use oscilla::sample_rate::{resample_plan, ResamplePlan, SampleRate};
use oscilla::tabs::Key;

#[test]
fn play_button_faces() {
    assert_eq!(PlayState::Playing(3).to_play_button_state(), PlayButtonState::Playing);
    assert_eq!(PlayState::Paused(0).to_play_button_state(), PlayButtonState::Paused);
    assert_eq!(PlayState::Stopped.to_play_button_state(), PlayButtonState::Stopped);
    assert_eq!(PlayState::Paused(7).get_now_playing_idx(), Some(7));
    assert_eq!(PlayState::Stopped.get_now_playing_idx(), None);
}

#[test]
fn button_labels() {
    assert_eq!(ButtonIdent::PlayOrPause(PlayButtonState::Playing).get_disp_name(), "Pause");
    assert_eq!(ButtonIdent::PlayOrPause(PlayButtonState::Paused).get_disp_name(), "Resume");
    assert_eq!(ButtonIdent::PlayOrPause(PlayButtonState::Stopped).get_disp_name(), "Pause");
    assert_eq!(ButtonIdent::Prev.get_disp_name(), "prev");
    assert_eq!(ButtonIdent::Next.get_disp_name(), "next");
}

#[test]
fn button_focus_moves() {
    let ps = PlayState::Paused(1);
    let play = ButtonIdent::PlayOrPause(PlayButtonState::Playing);
    assert_eq!(play.get_next_focus(&ps, Key::Right), Some(ButtonIdent::Prev));
    assert_eq!(play.get_next_focus(&ps, Key::Left), None);
    assert_eq!(
        ButtonIdent::Prev.get_next_focus(&ps, Key::Left),
        Some(ButtonIdent::PlayOrPause(PlayButtonState::Paused))
    );
    assert_eq!(ButtonIdent::Prev.get_next_focus(&ps, Key::Right), Some(ButtonIdent::Next));
    assert_eq!(ButtonIdent::Next.get_next_focus(&ps, Key::Left), Some(ButtonIdent::Prev));
    assert_eq!(ButtonIdent::Next.get_next_focus(&ps, Key::Right), None);
    assert_eq!(ButtonIdent::Next.get_next_focus(&ps, Key::Up), None);
}

#[test]
fn ve_tabs_cycle() {
    assert_eq!(VeSelectedTab::enumate_case(), [VeSelectedTab::Off, VeSelectedTab::Oscilloscope]);
    assert_eq!(VeSelectedTab::Off.enumerate_arr_idnex(), 0);
    assert_eq!(VeSelectedTab::Oscilloscope.enumerate_arr_idnex(), 1);
    assert_eq!(VeSelectedTab::Off.get_focus_tab(Key::Right), VeSelectedTab::Oscilloscope);
    assert_eq!(VeSelectedTab::Off.get_focus_tab(Key::Left), VeSelectedTab::Oscilloscope);
    assert_eq!(VeSelectedTab::Oscilloscope.get_focus_tab(Key::Right), VeSelectedTab::Off);
    assert_eq!(VeSelectedTab::Oscilloscope.get_focus_tab(Key::Up), VeSelectedTab::Oscilloscope);
    for t in VeSelectedTab::enumate_case() {
        assert_eq!(t.get_focus_tab(Key::Right).get_focus_tab(Key::Left), t);
    }
}

#[test]
fn ve_names() {
    assert_eq!(VeSelectedTab::Off.nameof(), "Off");
    assert_eq!(VeSelectedTab::Oscilloscope.nameof(), "Oscilloscope");
    let names = VeSelectedTab::list_str();
    assert_eq!(names, ["Off".to_string(), "Oscilloscope".to_string()]);
}

#[test]
fn sample_rate_round_trip() {
    for r in [
        SampleRate::R44100,
        SampleRate::R88200,
        SampleRate::R176400,
        SampleRate::R48000,
        SampleRate::R96000,
        SampleRate::R192000,
    ] {
        assert_eq!(SampleRate::try_from(r.raw_value()), Ok(r));
    }
    assert_eq!(SampleRate::R88200.raw_value(), 88200);
    assert_eq!(SampleRate::try_from(22050), Err(22050));
    assert_eq!(SampleRate::try_from(0), Err(0));
}

#[test]
fn resample_plans() {
    assert_eq!(resample_plan(SampleRate::R48000, SampleRate::R48000), None);
    assert_eq!(
        resample_plan(SampleRate::R44100, SampleRate::R48000),
        Some(ResamplePlan { chunk_size: 147, decode_block_len: 14700, block_size: 16000 })
    );
    assert_eq!(
        resample_plan(SampleRate::R192000, SampleRate::R44100),
        Some(ResamplePlan { chunk_size: 640, decode_block_len: 64000, block_size: 14700 })
    );
    let p = resample_plan(SampleRate::R88200, SampleRate::R96000).unwrap();
    assert_eq!(p.decode_block_len * 3, 88200);
    assert_eq!(p.block_size * 3, 96000);
}
