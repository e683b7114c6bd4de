use oscilla::player::{
    decoder_seek_share, first_error, player_control_step, player_notification_step, ve_enable_plan,
    ControlMessage, DecoderCommand, Dispatch, NotificationState, PlayerExecutorError,
    RendererCommand, SeekCompleteFromDecoderSignal, SeekTimingSyncObj, VeCommand, VeEnablePlan,
    WorkerEvent, WorkerReaction, OTHER_SEEK_SHARE, SEEK_RENDERER_PRELOAD, SEEK_VE_PRELOAD,
    UI_VE_PRELOAD,
};
use oscilla::sample_rate::SampleRate;

#[test]
fn error_message_kept() {
    let e = PlayerExecutorError::new("sample_rate get failed");
    assert_eq!(e.error_message, "sample_rate get failed");
}

#[test]
fn seek_meeting_point_releases_at_three() {
    for ve in [true, false] {
        let mut sync = SeekTimingSyncObj::new();
        let (share, with_ve) = decoder_seek_share(ve);
        assert_eq!(with_ve, ve);
        assert!(!sync.arrive(OTHER_SEEK_SHARE));
        let released = if ve {
            assert!(!sync.arrive(OTHER_SEEK_SHARE));
            sync.arrive(share)
        } else {
            sync.arrive(share)
        };
        assert!(released);
        assert!(sync.is_released());
    }
    let mut wrap = SeekTimingSyncObj { arrived: 255 };
    assert!(!wrap.arrive(2));
    assert_eq!(wrap.arrived, 1);
}

#[test]
fn preload_counts() {
    assert_eq!(SEEK_RENDERER_PRELOAD, 10);
    assert_eq!(SEEK_VE_PRELOAD, 14);
    assert_eq!(UI_VE_PRELOAD, 178);
}

#[test]
fn control_messages_dispatch() {
    let p = player_control_step(false, ControlMessage::Stop);
    assert_eq!(
        p.dispatches,
        vec![
            Dispatch::ToRenderer(RendererCommand::Stop),
            Dispatch::ToDecoder(DecoderCommand::Stop),
            Dispatch::ToVe(VeCommand::Stop)
        ]
    );
    assert!(p.exit_loop);

    let p = player_control_step(false, ControlMessage::VeEnabled);
    assert!(p.ve_enabled);
    assert_eq!(p.dispatches, vec![Dispatch::ToDecoder(DecoderCommand::VeEnabled)]);

    let seek = ControlMessage::Seek { target_nanos: 5, seek_no: 2 };
    let with_ve = player_control_step(true, seek);
    assert_eq!(
        with_ve.dispatches,
        vec![
            Dispatch::ToVe(VeCommand::Seek),
            Dispatch::ToDecoder(DecoderCommand::Seek { target_nanos: 5, seek_no: 2, with_ve: true }),
            Dispatch::ToRenderer(RendererCommand::Seek { seek_no: 2 })
        ]
    );
    let without = player_control_step(false, seek);
    assert_eq!(without.dispatches.len(), 2);
    assert!(!without.exit_loop);

    let p = player_control_step(true, ControlMessage::VeDisabled);
    assert!(!p.ve_enabled);
    assert_eq!(
        p.dispatches,
        vec![Dispatch::ToDecoder(DecoderCommand::VeDisabled), Dispatch::ToVe(VeCommand::VeDisabled)]
    );
    let p = player_control_step(true, ControlMessage::SetVol(40));
    assert_eq!(p.dispatches, vec![Dispatch::ToRenderer(RendererCommand::SetVol(40))]);
}

fn dec(no: u64, ve: bool) -> SeekCompleteFromDecoderSignal {
    SeekCompleteFromDecoderSignal { actual_seek_nanos: 1_000, seek_no: no, ve_enabled: ve }
}

#[test]
fn seek_completion_in_either_order() {
    let mut s: NotificationState<u32> = NotificationState::new();
    assert!(matches!(player_notification_step(&mut s, 44100, WorkerEvent::SeekCompleteFromVe(7)), WorkerReaction::Nothing));
    match player_notification_step(&mut s, 44100, WorkerEvent::SeekCompleteFromDecoder(dec(1, true))) {
        WorkerReaction::NotifySeekComplete { ve, decoder } => {
            assert_eq!(ve, Some(7));
            assert_eq!(decoder, dec(1, true));
        }
        _ => panic!("expected a completion"),
    }
    let mut t: NotificationState<u32> = NotificationState::new();
    assert!(matches!(player_notification_step(&mut t, 44100, WorkerEvent::SeekCompleteFromDecoder(dec(1, true))), WorkerReaction::Nothing));
    match player_notification_step(&mut t, 44100, WorkerEvent::SeekCompleteFromVe(7)) {
        WorkerReaction::NotifySeekComplete { ve, decoder } => {
            assert_eq!(ve, Some(7));
            assert_eq!(decoder, dec(1, true));
        }
        _ => panic!("expected a completion"),
    }
    assert!(t.seek_ve_completed_signal.is_none() && t.seek_decoder_completed_signal.is_none());
    match player_notification_step(&mut t, 44100, WorkerEvent::SeekCompleteFromDecoder(dec(2, false))) {
        WorkerReaction::NotifySeekComplete { ve, .. } => assert_eq!(ve, None),
        _ => panic!("expected a completion"),
    }
}

#[test]
fn effect_off_after_both_confirm() {
    let mut s: NotificationState<u32> = NotificationState::new();
    assert!(matches!(player_notification_step(&mut s, 44100, WorkerEvent::VeDisabledSync), WorkerReaction::Nothing));
    assert!(matches!(player_notification_step(&mut s, 44100, WorkerEvent::VeDisabledSync), WorkerReaction::NotifyVeDisabled));
    assert_eq!(s.disabled_count, 0);
}

#[test]
fn device_info_checks_rates() {
    let mut s: NotificationState<u32> = NotificationState::new();
    assert!(matches!(
        player_notification_step(&mut s, 44100, WorkerEvent::NoticeAudioDeviceInfo { sample_rate: 48000 }),
        WorkerReaction::StartDecoding { file_rate: SampleRate::R44100, device_rate: SampleRate::R48000 }
    ));
    assert!(matches!(
        player_notification_step(&mut s, 22050, WorkerEvent::NoticeAudioDeviceInfo { sample_rate: 48000 }),
        WorkerReaction::UnsupportedFileRate(22050)
    ));
    assert!(matches!(
        player_notification_step(&mut s, 44100, WorkerEvent::NoticeAudioDeviceInfo { sample_rate: 8000 }),
        WorkerReaction::UnsupportedDeviceRate(8000)
    ));
    assert!(matches!(player_notification_step(&mut s, 44100, WorkerEvent::Error), WorkerReaction::StopAll));
    assert!(matches!(
        player_notification_step(&mut s, 44100, WorkerEvent::VeEnabledInfo),
        WorkerReaction::ForwardVeEnabled { ui_tokens: 178 }
    ));
}

#[test]
fn first_error_wins() {
    let r: Result<(), &str> = first_error(vec![Ok(()), Err("a"), Err("b")]);
    assert_eq!(r, Err("a"));
    let ok: Result<(), &str> = first_error(vec![Ok(()), Ok(())]);
    assert_eq!(ok, Ok(()));
    let empty: Result<(), &str> = first_error(vec![]);
    assert_eq!(empty, Ok(()));
}

#[test]
fn ve_enable_plans() {
    assert_eq!(
        ve_enable_plan(15, 3, 32768, 16384),
        VeEnablePlan { ve_start_read_exclusive: 3, ve_to_decoder_tokens: 3, decoder_to_ve_tokens: 11, offset_blocks: -10 }
    );
}
