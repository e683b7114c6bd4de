use vstd::prelude::*;

use crate::player::RendererCommand;
use crate::ring::{NUM_OF_BLOCK, WriteCursor, next_block, spec_next_block, spec_write_step, write_step};
use crate::signals::{DecoderToRendererSyncSignal, EndOfStreamSignal};
use crate::sample_rate::{BLOCK_SIZE_DEFAULT, ResamplePlan, SampleRate, spec_rate_value};
use crate::track_info::{frames_to_nanos, spec_frames_to_nanos};

verus! {

/// Frames that fill a decoded block: the converter's block where the rates differ, else the
/// default block.
pub open spec fn spec_threshold_len(plan: Option<ResamplePlan>) -> usize {
    match plan {
        Some(p) => p.decode_block_len,
        None => BLOCK_SIZE_DEFAULT,
    }
}

/// Frames of a block of the ring at the device's rate.
pub open spec fn spec_block_size(plan: Option<ResamplePlan>) -> usize {
    match plan {
        Some(p) => p.block_size,
        None => BLOCK_SIZE_DEFAULT,
    }
}

/// Frames that fill a decoded block.
pub fn threshold_len(plan: &Option<ResamplePlan>) -> (r: usize)
    ensures
        r == spec_threshold_len(*plan),
{
    match plan {
        Some(p) => p.decode_block_len,
        None => BLOCK_SIZE_DEFAULT,
    }
}

/// Frames of a block of the ring.
pub fn block_size(plan: &Option<ResamplePlan>) -> (r: usize)
    ensures
        r == spec_block_size(*plan),
{
    match plan {
        Some(p) => p.block_size,
        None => BLOCK_SIZE_DEFAULT,
    }
}

/// One action of handing a block over, in the order they are to be taken.
#[derive(Clone, Copy, Debug, PartialEq, Eq, Structural)]
pub enum HandOver {
    /// Wait for the renderer to give a block back.
    TakeRendererToken,
    /// Wait for the visual effect to give a block back.
    TakeVeToken,
    /// Hand the block to the visual effect.
    GiveVeBlock,
    /// Tell the renderer that the block is ready.
    Announce(DecoderToRendererSyncSignal),
}

/// Handing a block over: a block of the renderer is taken back first; with the effect on, one of
/// the effect's is taken back and the block handed to it; the renderer is told last.
pub open spec fn spec_hand_over(with_ve: bool, signal: DecoderToRendererSyncSignal) -> Seq<HandOver> {
    if with_ve {
        seq![
            HandOver::TakeRendererToken,
            HandOver::TakeVeToken,
            HandOver::GiveVeBlock,
            HandOver::Announce(signal),
        ]
    } else {
        seq![HandOver::TakeRendererToken, HandOver::Announce(signal)]
    }
}

/// The actions of handing a block over with `signal`, in order.
pub fn hand_over_plan(with_ve: bool, signal: DecoderToRendererSyncSignal) -> (r: Vec<HandOver>)
    ensures
        r@ == spec_hand_over(with_ve, signal),
{
    let mut v: Vec<HandOver> = Vec::new();
    v.push(HandOver::TakeRendererToken);
    if with_ve {
        v.push(HandOver::TakeVeToken);
        v.push(HandOver::GiveVeBlock);
    }
    v.push(HandOver::Announce(signal));
    assert(v@ =~= spec_hand_over(with_ve, signal));
    v
}

/// A block is announced once, as the last action, after a block of the renderer was taken back.
pub proof fn lemma_announce_after_token(with_ve: bool, signal: DecoderToRendererSyncSignal)
    ensures
        ({
            let h = spec_hand_over(with_ve, signal);
            &&& h[0] == HandOver::TakeRendererToken
            &&& h.last() == HandOver::Announce(signal)
            &&& forall|i: int| 0 <= i < h.len() - 1 ==> !(#[trigger] h[i] is Announce)
        }),
{
}

/// What the decoder keeps between packets.
#[derive(Clone, Copy, Debug, PartialEq, Eq, Structural)]
pub struct DecoderState {
    pub cursor: WriteCursor,
    pub end_of_stream_reached: bool,
    /// Samples decoded since the start of the track or the last seek's landing point.
    pub current_played_sample: u64,
}

impl DecoderState {
    /// The state at the start of a track.
    pub fn new() -> (r: Self)
        ensures
            r.cursor == (WriteCursor { write_exclusive: 0, head: 0 }),
            !r.end_of_stream_reached,
            r.current_played_sample == 0,
    {
        DecoderState {
            cursor: WriteCursor { write_exclusive: 0, head: 0 },
            end_of_stream_reached: false,
            current_played_sample: 0,
        }
    }

    /// Whether the decoder waits for a control message before decoding on: after the end of the
    /// stream it waits; otherwise only when one is queued.
    pub fn should_read_control(&self, control_queue_empty: bool) -> (r: bool)
        ensures
            r == (self.end_of_stream_reached || !control_queue_empty),
    {
        self.end_of_stream_reached || !control_queue_empty
    }

    /// Counts `frames` more decoded samples.
    pub fn on_decoded(&mut self, frames: u64)
        requires
            old(self).current_played_sample + frames <= u64::MAX,
        ensures
            final(self).current_played_sample == old(self).current_played_sample + frames,
            final(self).cursor == old(self).cursor,
            final(self).end_of_stream_reached == old(self).end_of_stream_reached,
    {
        self.current_played_sample = self.current_played_sample + frames;
    }

    /// A decoded packet of `n` frames was written at the cursor into blocks of `block_len`
    /// frames: the cursor moves past them and they are counted. Where they fill the block, the
    /// block is handed over with `Sync`; otherwise nothing is handed over, so a block is announced
    /// only once it is full.
    pub fn on_packet(&mut self, n: usize, block_len: usize, with_ve: bool) -> (r: Vec<HandOver>)
        requires
            old(self).cursor.write_exclusive < NUM_OF_BLOCK,
            old(self).cursor.head <= block_len,
            n <= 2 * block_len - old(self).cursor.head,
            block_len <= usize::MAX / 2,
            old(self).current_played_sample + n <= u64::MAX,
        ensures
            *final(self) == (DecoderState {
                cursor: spec_write_step(old(self).cursor, n as nat, block_len as nat),
                current_played_sample: (old(self).current_played_sample + n) as u64,
                ..*old(self)
            }),
            r@ == (if old(self).cursor.head + n >= block_len {
                spec_hand_over(with_ve, DecoderToRendererSyncSignal::Sync)
            } else {
                Seq::<HandOver>::empty()
            }),
    {
        let (next, block_done) = write_step(self.cursor, n, block_len);
        self.cursor = next;
        self.current_played_sample = self.current_played_sample + n as u64;
        if block_done {
            hand_over_plan(with_ve, DecoderToRendererSyncSignal::Sync)
        } else {
            Vec::new()
        }
    }

    /// The stream ended in the block being written: that block is handed over with where the
    /// stream ended in it, the cursor moves to the next block, and the decoder waits from now on.
    pub fn on_end_of_stream(&mut self, with_ve: bool) -> (r: Vec<HandOver>)
        requires
            old(self).cursor.write_exclusive < NUM_OF_BLOCK,
        ensures
            *final(self) == (DecoderState {
                cursor: WriteCursor {
                    write_exclusive: spec_next_block(old(self).cursor.write_exclusive as nat) as usize,
                    head: old(self).cursor.head,
                },
                end_of_stream_reached: true,
                ..*old(self)
            }),
            r@ == spec_hand_over(
                with_ve,
                DecoderToRendererSyncSignal::EndOfStream(
                    EndOfStreamSignal {
                        last_block: old(self).cursor.write_exclusive,
                        filled_len: old(self).cursor.head,
                    },
                ),
            ),
    {
        let last = self.cursor.write_exclusive;
        let signal = DecoderToRendererSyncSignal::EndOfStream(
            EndOfStreamSignal { last_block: last, filled_len: self.cursor.head },
        );
        self.cursor.write_exclusive = next_block(last);
        self.end_of_stream_reached = true;
        hand_over_plan(with_ve, signal)
    }

    /// A seek finished: where it landed at sample `seeked`, the decoder starts over at the first
    /// block from there; where it failed (`None`), nothing changes. Returns the position reached,
    /// in nanoseconds at the file's rate.
    pub fn on_seek(&mut self, seeked: Option<u64>, file_rate: SampleRate) -> (r: u128)
        ensures
            match seeked {
                Some(ts) => {
                    &&& final(self).cursor == (WriteCursor { write_exclusive: 0, head: 0 })
                    &&& !final(self).end_of_stream_reached
                    &&& final(self).current_played_sample == ts
                    &&& r == spec_frames_to_nanos(ts as nat, spec_rate_value(file_rate))
                },
                None => *final(self) == *old(self) && r == spec_frames_to_nanos(
                    old(self).current_played_sample as nat,
                    spec_rate_value(file_rate),
                ),
            },
    {
        let rate = file_rate.raw_value() as u64;
        match seeked {
            Some(ts) => {
                self.cursor = WriteCursor { write_exclusive: 0, head: 0 };
                self.end_of_stream_reached = false;
                self.current_played_sample = ts;
                frames_to_nanos(ts, rate)
            },
            None => frames_to_nanos(self.current_played_sample, rate),
        }
    }
}

/// `x / q` rounded toward zero, for a positive `q`.
pub open spec fn spec_div_toward_zero(x: int, q: int) -> int {
    if x >= 0 {
        x / q
    } else {
        -((-x) / q)
    }
}

/// The start offset of the visual effect in nanoseconds: `offset_blocks` blocks of
/// `block_size` frames at `rate` frames per second, rounded toward zero.
pub fn ve_offset_nanos(offset_blocks: i128, block_size: usize, rate: SampleRate) -> (r: i128)
    requires
        -(NUM_OF_BLOCK as int) <= offset_blocks <= u64::MAX,
        block_size <= u32::MAX,
    ensures
        r == spec_div_toward_zero(
            offset_blocks * block_size as int * 1_000_000_000,
            spec_rate_value(rate) as int,
        ),
{
    let q = rate.raw_value() as i128;
    let b = block_size as i128;
    assert(-(16 * 0xffff_ffff * 1_000_000_000) <= offset_blocks * b * 1_000_000_000 <= 0xffff_ffff_ffff_ffff * 0xffff_ffff * 1_000_000_000) by (nonlinear_arith)
        requires
            -16 <= offset_blocks <= 0xffff_ffff_ffff_ffff,
            0 <= b <= 0xffff_ffff,
    ;
    let x = offset_blocks * b * 1_000_000_000;
    assert(x == offset_blocks * block_size as int * 1_000_000_000);
    assert(q > 0);
    if x >= 0 {
        x / q
    } else {
        let y: i128 = -x;
        let z: i128 = y / q;
        assert(0 <= z <= y) by (nonlinear_arith)
            requires
                y >= 0,
                q > 0,
                z == y / q,
        ;
        0 - z
    }
}

/// What the renderer does with a control message, given whether it is paused.
#[derive(Clone, Copy, Debug, PartialEq, Eq, Structural)]
pub enum RendererAction {
    SetVol(u16),
    /// Stop the device; stay paused.
    Pause,
    /// Start the device again.
    Resume,
    /// Stop playing and finish.
    Stop,
    /// Reset the device, start it again unless paused, and take the new channels.
    Seek { restart: bool, seek_no: u64 },
}

/// Whether the renderer waits for control messages before writing: while paused, or when one is
/// queued.
pub fn renderer_should_read_control(control_queue_empty: bool, paused: bool) -> (r: bool)
    ensures
        r == (!control_queue_empty || paused),
{
    !control_queue_empty || paused
}

/// The renderer's reaction to `cmd`, and whether it is paused afterwards.
pub fn renderer_control_step(paused: bool, cmd: RendererCommand) -> (r: (bool, RendererAction))
    ensures
        r == (match cmd {
            RendererCommand::SetVol(v) => (paused, RendererAction::SetVol(v)),
            RendererCommand::Pause => (true, RendererAction::Pause),
            RendererCommand::Resume => (false, RendererAction::Resume),
            RendererCommand::Stop => (paused, RendererAction::Stop),
            RendererCommand::Seek { seek_no } => (
                paused,
                RendererAction::Seek { restart: !paused, seek_no },
            ),
        }),
{
    match cmd {
        RendererCommand::SetVol(v) => (paused, RendererAction::SetVol(v)),
        RendererCommand::Pause => (true, RendererAction::Pause),
        RendererCommand::Resume => (false, RendererAction::Resume),
        RendererCommand::Stop => (paused, RendererAction::Stop),
        RendererCommand::Seek { seek_no } => (paused, RendererAction::Seek { restart: !paused, seek_no }),
    }
}

} // verus!
