use vstd::prelude::*;

use crate::ring::{NUM_OF_BLOCK, WriteCursor, lemma_write_step_advances, next_block, ring_pos, spec_next_block, spec_write_step};
use crate::track_info::MAX_DURATION_NANOS;

verus! {

/// One frame of the visual effect: which part of the decoded ring is copied into the frame's
/// window, and where reading goes on.
#[derive(Clone, Copy, Debug, PartialEq, Eq, Structural)]
pub struct VeFramePlan {
    /// Frames copied from the current block, starting at the read position.
    pub first_len: usize,
    /// Frames copied from the start of the next block, placed after the first part.
    pub second_len: usize,
    pub new_read: usize,
    pub new_head: usize,
    /// Whether the current block was finished and handed back to the decoder.
    pub block_done: bool,
}

pub open spec fn spec_ve_frame_plan(
    read: usize,
    head: usize,
    block_len: usize,
    window_len: usize,
    move_window: usize,
) -> VeFramePlan {
    let target = head + window_len;
    if target < block_len {
        VeFramePlan {
            first_len: window_len,
            second_len: 0,
            new_read: read,
            new_head: (head + move_window) as usize,
            block_done: false,
        }
    } else if target == block_len {
        VeFramePlan {
            first_len: window_len,
            second_len: 0,
            new_read: spec_next_block(read as nat) as usize,
            new_head: 0,
            block_done: true,
        }
    } else {
        VeFramePlan {
            first_len: (block_len - head) as usize,
            second_len: (target - block_len) as usize,
            new_read: spec_next_block(read as nat) as usize,
            new_head: (target - block_len) as usize,
            block_done: true,
        }
    }
}

/// Plans the next frame of the visual effect, which reads block `read` of `block_len` frames
/// from `head` into a window of `window_len` frames, and then moves on by `move_window` frames
/// within the block, or past the block's end.
pub fn ve_frame_plan(
    read: usize,
    head: usize,
    block_len: usize,
    window_len: usize,
    move_window: usize,
) -> (r: VeFramePlan)
    requires
        read < NUM_OF_BLOCK,
        head < block_len,
        window_len <= block_len,
        head + move_window <= block_len,
        block_len <= usize::MAX / 2,
    ensures
        r == spec_ve_frame_plan(read, head, block_len, window_len, move_window),
        r.first_len + r.second_len == window_len,
        head + r.first_len <= block_len,
        r.second_len < block_len,
        r.new_read < NUM_OF_BLOCK,
{
    let target = head + window_len;
    if target < block_len {
        VeFramePlan {
            first_len: window_len,
            second_len: 0,
            new_read: read,
            new_head: head + move_window,
            block_done: false,
        }
    } else if target == block_len {
        VeFramePlan {
            first_len: window_len,
            second_len: 0,
            new_read: next_block(read),
            new_head: 0,
            block_done: true,
        }
    } else {
        VeFramePlan {
            first_len: block_len - head,
            second_len: target - block_len,
            new_read: next_block(read),
            new_head: target - block_len,
            block_done: true,
        }
    }
}

/// Where each window moves the effect's reading position by exactly the window's length, the
/// effect moves through the ring in steps of one window.
pub proof fn lemma_ve_frames_advance(read: usize, head: usize, block_len: usize, window_len: usize)
    requires
        read < NUM_OF_BLOCK,
        head < block_len,
        window_len <= block_len,
        head + window_len <= block_len + block_len,
        block_len <= usize::MAX / 2,
    ensures
        ({
            let p = spec_ve_frame_plan(read, head, block_len, window_len, window_len);
            let total = NUM_OF_BLOCK as int * block_len as int;
            ring_pos(p.new_read as nat, p.new_head as nat, block_len as nat) % total == (ring_pos(
                read as nat,
                head as nat,
                block_len as nat,
            ) + window_len) % total
        }),
{
    let c = WriteCursor { write_exclusive: read, head };
    lemma_write_step_advances(c, window_len as nat, block_len as nat);
    let p = spec_ve_frame_plan(read, head, block_len, window_len, window_len);
    assert(spec_write_step(c, window_len as nat, block_len as nat).write_exclusive == p.new_read);
    assert(spec_write_step(c, window_len as nat, block_len as nat).head == p.new_head);
}

/// How the screen catches up with the visual effect at a tick.
#[derive(Clone, Copy, Debug, PartialEq, Eq, Structural)]
pub enum VeSyncDecision {
    /// The effect is ahead of what can be heard: skip this tick.
    VeIsTooForward,
    /// The effect is within two frames of what can be heard: show its next frame.
    SyncRange,
    /// The effect lags: drop this many frames, then show the next one.
    CatchUp { skip_frames: u32 },
}

/// The lag of the effect behind what can be heard, times sixty, in nanoseconds: the audible
/// position less the effect's position (its frames at sixty per second, plus its start offset).
pub open spec fn spec_ve_lag60(carib: u128, frame_count: u32, offset_nanos: i128) -> int {
    carib as int * 60 - frame_count as int * 1_000_000_000 - offset_nanos as int * 60
}

/// Two frames of the effect, times sixty, in nanoseconds.
pub open spec fn two_frames60() -> int {
    2_000_000_000
}

pub open spec fn spec_ve_sync_decision(carib: u128, frame_count: u32, offset_nanos: i128) -> VeSyncDecision {
    let lag = spec_ve_lag60(carib, frame_count, offset_nanos);
    if lag <= -two_frames60() {
        VeSyncDecision::VeIsTooForward
    } else if lag <= two_frames60() {
        VeSyncDecision::SyncRange
    } else {
        let k = lag / two_frames60();
        let k32 = if k > u32::MAX {
            u32::MAX as int
        } else {
            k
        };
        VeSyncDecision::CatchUp { skip_frames: (k32 - 1) as u32 }
    }
}

/// Compares the audible position `carib` with the effect's position after `frame_count` frames
/// from `offset_nanos`, and decides how to catch up, two frames either way being close enough.
pub fn ve_sync_decision(carib: u128, frame_count: u32, offset_nanos: i128) -> (r: VeSyncDecision)
    requires
        carib <= MAX_DURATION_NANOS,
        -(MAX_DURATION_NANOS as int) <= offset_nanos <= MAX_DURATION_NANOS,
    ensures
        r == spec_ve_sync_decision(carib, frame_count, offset_nanos),
{
    let c: i128 = carib as i128;
    let lag: i128 = c * 60 - frame_count as i128 * 1_000_000_000 - offset_nanos * 60;
    let two: i128 = 2_000_000_000;
    if lag <= -two {
        VeSyncDecision::VeIsTooForward
    } else if lag <= two {
        VeSyncDecision::SyncRange
    } else {
        let k: i128 = lag / two;
        let k32: u32 = if k > u32::MAX as i128 {
            u32::MAX
        } else {
            k as u32
        };
        VeSyncDecision::CatchUp { skip_frames: k32 - 1 }
    }
}

/// An effect that is neither ahead nor behind is shown without dropping frames, and a lagging one
/// drops fewer frames than it lags.
pub proof fn lemma_ve_catch_up_bounded(carib: u128, frame_count: u32, offset_nanos: i128)
    ensures
        spec_ve_lag60(carib, frame_count, offset_nanos) == 0 ==> spec_ve_sync_decision(
            carib,
            frame_count,
            offset_nanos,
        ) == VeSyncDecision::SyncRange,
        spec_ve_sync_decision(carib, frame_count, offset_nanos) matches VeSyncDecision::CatchUp {
            skip_frames,
        } ==> (skip_frames as int) * two_frames60() < spec_ve_lag60(carib, frame_count, offset_nanos),
{
    let lag = spec_ve_lag60(carib, frame_count, offset_nanos);
    if lag > two_frames60() {
        let k = lag / two_frames60();
        assert(k * two_frames60() <= lag) by (nonlinear_arith)
            requires
                k == lag / two_frames60(),
                lag > 0,
                two_frames60() > 0,
        ;
        assert(k >= 1) by (nonlinear_arith)
            requires
                k == lag / two_frames60(),
                lag > two_frames60(),
                two_frames60() > 0,
        ;
    }
}

} // verus!
