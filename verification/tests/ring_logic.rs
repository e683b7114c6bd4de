use oscilla::decoder::{
    block_size, hand_over_plan, renderer_control_step, renderer_should_read_control, threshold_len,
    ve_offset_nanos, DecoderState, HandOver, RendererAction,
};
use oscilla::signals::{DecoderToRendererSyncSignal, EndOfStreamSignal};
use oscilla::player::RendererCommand;
use oscilla::ring::{
    copy_range, next_block, next_ve_frame, render_finished, render_plan, ve_sync, write_block, write_spill,
    write_step, EndOfStreamBlock, RenderPlan, WriteCursor, NUM_OF_BLOCK,
};
use oscilla::sample_rate::{resample_plan, SampleRate, BLOCK_SIZE_DEFAULT};
use oscilla::ve_timing::{ve_frame_plan, ve_sync_decision, VeFramePlan, VeSyncDecision};

#[test]
fn next_block_wraps() {
    assert_eq!(next_block(0), 1);
    assert_eq!(next_block(14), 15);
    assert_eq!(next_block(15), 0);
    let mut i = 3;
    for _ in 0..NUM_OF_BLOCK {
        i = next_block(i);
    }
    assert_eq!(i, 3);
}

#[test]
fn ve_frames_wrap() {
    let mut x = None;
    ve_sync(&mut x);
    assert_eq!(x, Some(0));
    let mut y = Some(178);
    ve_sync(&mut y);
    assert_eq!(y, Some(179));
    ve_sync(&mut y);
    assert_eq!(y, Some(0));
}

#[test]
fn copy_and_write_blocks() {
    let mut dst = vec![0u8; 6];
    copy_range(&mut dst, 2, &[7, 8, 9], 1, 2);
    assert_eq!(dst, vec![0, 0, 8, 9, 0, 0]);

    let mut block = vec![0i32; 5];
    assert_eq!(write_block(&mut block, 1, &[1, 2]), None);
    assert_eq!(block, vec![0, 1, 2, 0, 0]);

    let view = [5, 6, 7, 8];
    let split = write_block(&mut block, 3, &view);
    assert_eq!(split, Some(2));
    assert_eq!(block, vec![0, 1, 2, 5, 6]);
    let mut next = vec![0i32; 5];
    write_spill(&mut next, &view, 2);
    assert_eq!(next, vec![7, 8, 0, 0, 0]);
}

#[test]
fn writer_cursor_advances() {
    let c = WriteCursor { write_exclusive: 15, head: 3 };
    let (d, done) = write_step(c, 4, 5);
    assert_eq!(d, WriteCursor { write_exclusive: 0, head: 2 });
    assert!(done);
    let (e, done2) = write_step(d, 1, 5);
    assert_eq!(e, WriteCursor { write_exclusive: 0, head: 3 });
    assert!(!done2);
    // frames conserved around the ring: (15 * 5 + 3 + 4) mod 80 == 0 * 5 + 2
    assert_eq!((15 * 5 + 3 + 4) % (16 * 5), 2);
}

#[test]
fn render_plans() {
    assert_eq!(
        render_plan(2, 10, 100, 64, None),
        Some(RenderPlan { available: 64, first_len: 54, second_len: 10, new_read: 3, new_head: 10, block_done: true })
    );
    assert_eq!(
        render_plan(2, 10, 20, 64, None),
        Some(RenderPlan { available: 20, first_len: 20, second_len: 0, new_read: 2, new_head: 30, block_done: false })
    );
    assert_eq!(
        render_plan(15, 60, 4, 64, None),
        Some(RenderPlan { available: 4, first_len: 4, second_len: 0, new_read: 0, new_head: 0, block_done: true })
    );
    let eos = Some(EndOfStreamBlock { block_idx: 2, filled_len: 30 });
    assert_eq!(
        render_plan(2, 10, 100, 64, eos),
        Some(RenderPlan { available: 20, first_len: 20, second_len: 0, new_read: 2, new_head: 30, block_done: false })
    );
    assert_eq!(render_plan(2, 30, 100, 64, eos), None);
    assert!(render_finished(2, 30, eos));
    assert!(!render_finished(1, 30, eos));
    assert!(!render_finished(2, 30, None));
}

#[test]
fn ve_frame_plans() {
    assert_eq!(
        ve_frame_plan(0, 0, 100, 30, 30),
        VeFramePlan { first_len: 30, second_len: 0, new_read: 0, new_head: 30, block_done: false }
    );
    assert_eq!(
        ve_frame_plan(0, 70, 100, 30, 30),
        VeFramePlan { first_len: 30, second_len: 0, new_read: 1, new_head: 0, block_done: true }
    );
    assert_eq!(
        ve_frame_plan(15, 90, 100, 30, 10),
        VeFramePlan { first_len: 10, second_len: 20, new_read: 0, new_head: 20, block_done: true }
    );
}

#[test]
fn ve_sync_decisions() {
    // audible at 1 s, effect at 60 frames = 1 s: in range
    assert_eq!(ve_sync_decision(1_000_000_000, 60, 0), VeSyncDecision::SyncRange);
    // effect ahead by half a second
    assert_eq!(ve_sync_decision(1_000_000_000, 90, 0), VeSyncDecision::VeIsTooForward);
    // effect behind by one second: 60 frames = 30 double frames, drop 29 then show
    assert_eq!(ve_sync_decision(2_000_000_000, 60, 0), VeSyncDecision::CatchUp { skip_frames: 29 });
    // the offset counts: effect started half a second in
    assert_eq!(ve_sync_decision(1_500_000_000, 60, 500_000_000), VeSyncDecision::SyncRange);
}

#[test]
fn decoder_state_and_blocks() {
    let plan = resample_plan(SampleRate::R44100, SampleRate::R48000);
    assert_eq!(threshold_len(&plan), 14700);
    assert_eq!(block_size(&plan), 16000);
    assert_eq!(threshold_len(&None), BLOCK_SIZE_DEFAULT);
    assert_eq!(block_size(&None), 16384);

    let mut d = DecoderState::new();
    assert!(!d.should_read_control(true));
    assert!(d.should_read_control(false));
    d.on_decoded(44100);
    d.cursor = WriteCursor { write_exclusive: 15, head: 100 };
    let actions = d.on_end_of_stream(false);
    assert_eq!(
        actions,
        vec![
            HandOver::TakeRendererToken,
            HandOver::Announce(DecoderToRendererSyncSignal::EndOfStream(EndOfStreamSignal { last_block: 15, filled_len: 100 })),
        ]
    );
    assert_eq!(d.cursor, WriteCursor { write_exclusive: 0, head: 100 });
    assert!(d.should_read_control(true));
    // a failed seek reports the current position: 44100 samples at 44.1 kHz is one second
    assert_eq!(d.on_seek(None, SampleRate::R44100), 1_000_000_000);
    assert!(d.end_of_stream_reached);
    assert_eq!(d.on_seek(Some(22050), SampleRate::R44100), 500_000_000);
    assert_eq!(d.current_played_sample, 22050);
    assert!(!d.end_of_stream_reached);
    assert_eq!(d.cursor, WriteCursor { write_exclusive: 0, head: 0 });
}

#[test]
fn ve_offsets() {
    // two blocks of 16000 frames at 48 kHz behind: -2/3 s, rounded toward zero
    assert_eq!(ve_offset_nanos(-2, 16000, SampleRate::R48000), -666_666_666);
    assert_eq!(ve_offset_nanos(3, 16000, SampleRate::R48000), 1_000_000_000);
}

#[test]
fn renderer_controls() {
    assert!(renderer_should_read_control(true, true));
    assert!(renderer_should_read_control(false, false));
    assert!(!renderer_should_read_control(true, false));
    assert_eq!(renderer_control_step(false, RendererCommand::Pause), (true, RendererAction::Pause));
    assert_eq!(renderer_control_step(true, RendererCommand::Resume), (false, RendererAction::Resume));
    assert_eq!(
        renderer_control_step(true, RendererCommand::Seek { seek_no: 4 }),
        (true, RendererAction::Seek { restart: false, seek_no: 4 })
    );
    assert_eq!(renderer_control_step(false, RendererCommand::SetVol(30)), (false, RendererAction::SetVol(30)));
    assert_eq!(renderer_control_step(false, RendererCommand::Stop), (false, RendererAction::Stop));
}

#[test]
fn packets_and_hand_overs() {
    let mut d = DecoderState::new();
    assert!(d.on_packet(1000, 4096, true).is_empty());
    assert_eq!(d.cursor, WriteCursor { write_exclusive: 0, head: 1000 });
    assert_eq!(d.current_played_sample, 1000);
    let actions = d.on_packet(3596, 4096, true);
    assert_eq!(
        actions,
        vec![
            HandOver::TakeRendererToken,
            HandOver::TakeVeToken,
            HandOver::GiveVeBlock,
            HandOver::Announce(DecoderToRendererSyncSignal::Sync),
        ]
    );
    assert_eq!(d.cursor, WriteCursor { write_exclusive: 1, head: 500 });
    assert_eq!(d.current_played_sample, 4596);
    assert_eq!(
        hand_over_plan(false, DecoderToRendererSyncSignal::Sync),
        vec![HandOver::TakeRendererToken, HandOver::Announce(DecoderToRendererSyncSignal::Sync)]
    );
    assert_eq!(next_ve_frame(0), 1);
    assert_eq!(next_ve_frame(179), 0);
}
