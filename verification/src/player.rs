use vstd::prelude::*;

use crate::ring::{BACK_ROOM, NUM_OF_BLOCK, NUM_OF_BLOCK_VE};
use crate::sample_rate::{SampleRate, spec_rate_of};

verus! {

/// Why the player stopped with an error.
#[derive(Debug)]
pub struct PlayerExecutorError {
    pub error_message: String,
}

impl PlayerExecutorError {
    /// An error with the given message.
    pub fn new(error_message: &str) -> (r: Self)
        ensures
            r.error_message@ == error_message@,
    {
        PlayerExecutorError { error_message: error_message.to_owned() }
    }
}

/// The meeting point of the decoder, the renderer and the visual effect after a seek: each adds
/// its share, and all may go on once the shares reach three.
#[derive(Clone, Copy, Debug, PartialEq, Eq, Structural)]
pub struct SeekTimingSyncObj {
    pub arrived: u8,
}

/// The sum of the shares at which the threads may go on.
pub const SEEK_SYNC_PARTIES: u8 = 3;

impl SeekTimingSyncObj {
    /// A meeting point that nobody has reached yet.
    pub fn new() -> (r: Self)
        ensures
            r.arrived == 0,
    {
        SeekTimingSyncObj { arrived: 0 }
    }

    /// Adds a share (the count wraps as an atomic byte does) and says whether all have arrived.
    pub fn arrive(&mut self, increment: u8) -> (released: bool)
        ensures
            final(self).arrived == ((old(self).arrived + increment) % 256) as u8,
            released == (final(self).arrived >= SEEK_SYNC_PARTIES),
    {
        self.arrived = self.arrived.wrapping_add(increment);
        self.arrived >= SEEK_SYNC_PARTIES
    }

    /// Whether all have arrived.
    pub fn is_released(&self) -> (r: bool)
        ensures
            r == (self.arrived >= SEEK_SYNC_PARTIES),
    {
        self.arrived >= SEEK_SYNC_PARTIES
    }
}

/// The two meeting points of a seek: one when it starts, one when it is done.
#[derive(Clone, Copy, Debug, PartialEq, Eq, Structural)]
pub struct SeekTimingSyncState {
    pub init_sync: SeekTimingSyncObj,
    pub complete_sync: SeekTimingSyncObj,
}

impl SeekTimingSyncState {
    /// Two meeting points that nobody has reached yet.
    pub fn new() -> (r: Self)
        ensures
            r.init_sync.arrived == 0,
            r.complete_sync.arrived == 0,
    {
        SeekTimingSyncState { init_sync: SeekTimingSyncObj::new(), complete_sync: SeekTimingSyncObj::new() }
    }
}

/// The decoder's share at the meeting point after a seek, and whether the visual effect takes
/// part: with the effect on, the decoder, the renderer and the effect bring one each; with it
/// off, the decoder brings two.
pub fn decoder_seek_share(ve_channels_present: bool) -> (r: (u8, bool))
    ensures
        r == (if ve_channels_present {
            (1u8, true)
        } else {
            (2u8, false)
        }),
{
    if ve_channels_present {
        (1, true)
    } else {
        (2, false)
    }
}

/// The renderer's and the visual effect's share at the meeting point.
pub const OTHER_SEEK_SHARE: u8 = 1;

/// After a seek the shares of the threads that take part add up to exactly the number at which the
/// meeting point lets them go, whether the visual effect is on or off.
pub proof fn lemma_seek_shares_meet(ve_channels_present: bool)
    ensures
        ({
            let (d, ve) = if ve_channels_present {
                (1u8, true)
            } else {
                (2u8, false)
            };
            d + OTHER_SEEK_SHARE + (if ve {
                OTHER_SEEK_SHARE
            } else {
                0
            }) == SEEK_SYNC_PARTIES
        }),
{
}

/// Tokens that the renderer's channel to the decoder holds after a seek, so that the decoder may
/// run ahead by that many blocks.
pub const SEEK_RENDERER_PRELOAD: usize = NUM_OF_BLOCK - 2 - BACK_ROOM;

/// Tokens that the visual effect's channel to the decoder holds after a seek.
pub const SEEK_VE_PRELOAD: usize = NUM_OF_BLOCK - 2;

/// Tokens that the screen's channel to the visual effect holds when the effect starts.
pub const UI_VE_PRELOAD: usize = NUM_OF_BLOCK_VE - 2;

/// A request from the screen to the player, without what it carries for other threads.
#[derive(Clone, Copy, Debug, PartialEq, Eq, Structural)]
pub enum ControlMessage {
    SetVol(u16),
    Pause,
    Resume,
    Stop,
    VeEnabled,
    VeDisabled,
    Seek { target_nanos: u128, seek_no: u64 },
}

/// A message from the player to the renderer.
#[derive(Clone, Copy, Debug, PartialEq, Eq, Structural)]
pub enum RendererCommand {
    SetVol(u16),
    Pause,
    Resume,
    Stop,
    Seek { seek_no: u64 },
}

/// A message from the player to the decoder.
#[derive(Clone, Copy, Debug, PartialEq, Eq, Structural)]
pub enum DecoderCommand {
    VeEnabled,
    VeDisabled,
    Stop,
    Seek { target_nanos: u128, seek_no: u64, with_ve: bool },
}

/// A message from the player to the visual effect.
#[derive(Clone, Copy, Debug, PartialEq, Eq, Structural)]
pub enum VeCommand {
    VeDisabled,
    Stop,
    Seek,
}

/// One message to send, in order.
#[derive(Clone, Copy, Debug, PartialEq, Eq, Structural)]
pub enum Dispatch {
    ToRenderer(RendererCommand),
    ToDecoder(DecoderCommand),
    ToVe(VeCommand),
}

/// What the player does with one request from the screen.
pub struct ControlPlan {
    /// The messages to send, in this order.
    pub dispatches: Vec<Dispatch>,
    /// Whether the visual effect counts as requested afterwards.
    pub ve_enabled: bool,
    /// Whether the player stops listening to the screen.
    pub exit_loop: bool,
}

/// The messages for one request: volume, pause and resume go to the renderer; stop goes to all
/// three threads and ends the loop; enabling the effect goes to the decoder; disabling it to the
/// decoder and the effect; a seek goes to the effect (while it is on), the decoder and the
/// renderer, in that order.
pub open spec fn spec_control_dispatches(ve_enabled: bool, msg: ControlMessage) -> Seq<Dispatch> {
    match msg {
        ControlMessage::SetVol(v) => seq![Dispatch::ToRenderer(RendererCommand::SetVol(v))],
        ControlMessage::Pause => seq![Dispatch::ToRenderer(RendererCommand::Pause)],
        ControlMessage::Resume => seq![Dispatch::ToRenderer(RendererCommand::Resume)],
        ControlMessage::Stop => seq![
            Dispatch::ToRenderer(RendererCommand::Stop),
            Dispatch::ToDecoder(DecoderCommand::Stop),
            Dispatch::ToVe(VeCommand::Stop),
        ],
        ControlMessage::VeEnabled => seq![Dispatch::ToDecoder(DecoderCommand::VeEnabled)],
        ControlMessage::VeDisabled => seq![
            Dispatch::ToDecoder(DecoderCommand::VeDisabled),
            Dispatch::ToVe(VeCommand::VeDisabled),
        ],
        ControlMessage::Seek { target_nanos, seek_no } => {
            let rest = seq![
                Dispatch::ToDecoder(
                    DecoderCommand::Seek { target_nanos, seek_no, with_ve: ve_enabled },
                ),
                Dispatch::ToRenderer(RendererCommand::Seek { seek_no }),
            ];
            if ve_enabled {
                seq![Dispatch::ToVe(VeCommand::Seek)] + rest
            } else {
                rest
            }
        },
    }
}

pub open spec fn spec_control_ve_enabled(ve_enabled: bool, msg: ControlMessage) -> bool {
    match msg {
        ControlMessage::VeEnabled => true,
        ControlMessage::VeDisabled => false,
        _ => ve_enabled,
    }
}

/// Decides what the player's control loop does with `msg`, given whether the visual effect has
/// been requested.
pub fn player_control_step(ve_enabled: bool, msg: ControlMessage) -> (r: ControlPlan)
    ensures
        r.dispatches@ == spec_control_dispatches(ve_enabled, msg),
        r.ve_enabled == spec_control_ve_enabled(ve_enabled, msg),
        r.exit_loop == (msg == ControlMessage::Stop),
{
    let mut dispatches: Vec<Dispatch> = Vec::new();
    let mut next_ve = ve_enabled;
    let mut exit_loop = false;
    match msg {
        ControlMessage::SetVol(v) => {
            dispatches.push(Dispatch::ToRenderer(RendererCommand::SetVol(v)));
        },
        ControlMessage::Pause => {
            dispatches.push(Dispatch::ToRenderer(RendererCommand::Pause));
        },
        ControlMessage::Resume => {
            dispatches.push(Dispatch::ToRenderer(RendererCommand::Resume));
        },
        ControlMessage::Stop => {
            dispatches.push(Dispatch::ToRenderer(RendererCommand::Stop));
            dispatches.push(Dispatch::ToDecoder(DecoderCommand::Stop));
            dispatches.push(Dispatch::ToVe(VeCommand::Stop));
            exit_loop = true;
        },
        ControlMessage::VeEnabled => {
            next_ve = true;
            dispatches.push(Dispatch::ToDecoder(DecoderCommand::VeEnabled));
        },
        ControlMessage::VeDisabled => {
            next_ve = false;
            dispatches.push(Dispatch::ToDecoder(DecoderCommand::VeDisabled));
            dispatches.push(Dispatch::ToVe(VeCommand::VeDisabled));
        },
        ControlMessage::Seek { target_nanos, seek_no } => {
            if ve_enabled {
                dispatches.push(Dispatch::ToVe(VeCommand::Seek));
            }
            dispatches.push(
                Dispatch::ToDecoder(
                    DecoderCommand::Seek { target_nanos, seek_no, with_ve: ve_enabled },
                ),
            );
            dispatches.push(Dispatch::ToRenderer(RendererCommand::Seek { seek_no }));
        },
    }
    assert(dispatches@ =~= spec_control_dispatches(ve_enabled, msg));
    ControlPlan { dispatches, ve_enabled: next_ve, exit_loop }
}

/// Every request that ends the control loop tells all three threads to stop, and a seek reaches
/// the decoder and the renderer whatever the state of the effect.
pub proof fn lemma_control_reaches_threads(ve_enabled: bool, msg: ControlMessage)
    ensures
        msg == ControlMessage::Stop ==> spec_control_dispatches(ve_enabled, msg).contains(
            Dispatch::ToRenderer(RendererCommand::Stop),
        ) && spec_control_dispatches(ve_enabled, msg).contains(
            Dispatch::ToDecoder(DecoderCommand::Stop),
        ) && spec_control_dispatches(ve_enabled, msg).contains(Dispatch::ToVe(VeCommand::Stop)),
        msg matches ControlMessage::Seek { target_nanos, seek_no } ==> {
            &&& spec_control_dispatches(ve_enabled, msg).contains(
                Dispatch::ToDecoder(
                    DecoderCommand::Seek { target_nanos, seek_no, with_ve: ve_enabled },
                ),
            )
            &&& spec_control_dispatches(ve_enabled, msg).contains(
                Dispatch::ToRenderer(RendererCommand::Seek { seek_no }),
            )
        },
{
    let d = spec_control_dispatches(ve_enabled, msg);
    if msg == ControlMessage::Stop {
        assert(d[0] == Dispatch::ToRenderer(RendererCommand::Stop));
        assert(d[1] == Dispatch::ToDecoder(DecoderCommand::Stop));
        assert(d[2] == Dispatch::ToVe(VeCommand::Stop));
    }
    match msg {
        ControlMessage::Seek { target_nanos, seek_no } => {
            let k: int = if ve_enabled {
                1
            } else {
                0
            };
            assert(d[k] == Dispatch::ToDecoder(
                DecoderCommand::Seek { target_nanos, seek_no, with_ve: ve_enabled },
            ));
            assert(d[k + 1] == Dispatch::ToRenderer(RendererCommand::Seek { seek_no }));
        },
        _ => {},
    }
}

/// The decoder's report that its seek is done.
#[derive(Clone, Copy, Debug, PartialEq, Eq, Structural)]
pub struct SeekCompleteFromDecoderSignal {
    /// Where the decoder actually landed, in nanoseconds.
    pub actual_seek_nanos: u128,
    pub seek_no: u64,
    /// Whether the visual effect takes part in this seek.
    pub ve_enabled: bool,
}

/// A report from one of the player's threads. `V` is what the visual effect hands over when its
/// seek is done.
pub enum WorkerEvent<V> {
    VeEnabledInfo,
    VeDisabledSync,
    NoticeAudioDeviceInfo { sample_rate: usize },
    SeekCompleteFromVe(V),
    SeekCompleteFromDecoder(SeekCompleteFromDecoderSignal),
    Error,
}

/// What the player's notification loop does with one report.
pub enum WorkerReaction<V> {
    Nothing,
    /// Hand the effect its channels and tell the screen, with this many tokens preloaded.
    ForwardVeEnabled { ui_tokens: usize },
    /// Tell the screen that the effect is off.
    NotifyVeDisabled,
    /// Tell the decoder the device's rate and the screen the track's rates.
    StartDecoding { file_rate: SampleRate, device_rate: SampleRate },
    /// The file's rate is not handled: stop all threads and fail.
    UnsupportedFileRate(usize),
    /// The device's rate is not handled: stop all threads and fail.
    UnsupportedDeviceRate(usize),
    /// Tell the screen that the seek is done.
    NotifySeekComplete { ve: Option<V>, decoder: SeekCompleteFromDecoderSignal },
    /// A thread failed: stop all threads and end the loop.
    StopAll,
}

/// What the notification loop remembers between reports.
pub struct NotificationState<V> {
    /// How many of the two threads have confirmed that the effect is off.
    pub disabled_count: u8,
    pub seek_ve_completed_signal: Option<V>,
    pub seek_decoder_completed_signal: Option<SeekCompleteFromDecoderSignal>,
}

impl<V> NotificationState<V> {
    /// Nothing confirmed, nothing pending.
    pub fn new() -> (r: Self)
        ensures
            r.disabled_count == 0,
            r.seek_ve_completed_signal is None,
            r.seek_decoder_completed_signal is None,
    {
        NotificationState {
            disabled_count: 0,
            seek_ve_completed_signal: None,
            seek_decoder_completed_signal: None,
        }
    }
}

/// The notification loop's state and reaction after `event`.
pub open spec fn spec_notification_step<V>(
    state: NotificationState<V>,
    file_sample_rate: usize,
    event: WorkerEvent<V>,
) -> (NotificationState<V>, WorkerReaction<V>) {
    match event {
        WorkerEvent::VeEnabledInfo => (
            state,
            WorkerReaction::ForwardVeEnabled { ui_tokens: UI_VE_PRELOAD },
        ),
        WorkerEvent::VeDisabledSync => if state.disabled_count == 0 {
            (NotificationState { disabled_count: 1, ..state }, WorkerReaction::Nothing)
        } else {
            (NotificationState { disabled_count: 0, ..state }, WorkerReaction::NotifyVeDisabled)
        },
        WorkerEvent::NoticeAudioDeviceInfo { sample_rate } => (
            state,
            match (spec_rate_of(file_sample_rate as nat), spec_rate_of(sample_rate as nat)) {
                (None, _) => WorkerReaction::UnsupportedFileRate(file_sample_rate),
                (Some(_), None) => WorkerReaction::UnsupportedDeviceRate(sample_rate),
                (Some(f), Some(d)) => WorkerReaction::StartDecoding { file_rate: f, device_rate: d },
            },
        ),
        WorkerEvent::SeekCompleteFromVe(v) => match state.seek_decoder_completed_signal {
            Some(d) => (
                NotificationState { seek_decoder_completed_signal: None, ..state },
                WorkerReaction::NotifySeekComplete { ve: Some(v), decoder: d },
            ),
            None => (
                NotificationState { seek_ve_completed_signal: Some(v), ..state },
                WorkerReaction::Nothing,
            ),
        },
        WorkerEvent::SeekCompleteFromDecoder(d) => if !d.ve_enabled {
            (state, WorkerReaction::NotifySeekComplete { ve: None, decoder: d })
        } else {
            match state.seek_ve_completed_signal {
                Some(v) => (
                    NotificationState { seek_ve_completed_signal: None, ..state },
                    WorkerReaction::NotifySeekComplete { ve: Some(v), decoder: d },
                ),
                None => (
                    NotificationState { seek_decoder_completed_signal: Some(d), ..state },
                    WorkerReaction::Nothing,
                ),
            }
        },
        WorkerEvent::Error => (state, WorkerReaction::StopAll),
    }
}

/// Decides what the notification loop does with `event`, for a file whose samples come at
/// `file_sample_rate`.
///
/// The effect is off once both the decoder and the effect confirm it. A seek is reported to the
/// screen once the decoder is done and, where the effect takes part, the effect is done too,
/// whichever comes first.
pub fn player_notification_step<V>(
    state: &mut NotificationState<V>,
    file_sample_rate: usize,
    event: WorkerEvent<V>,
) -> (r: WorkerReaction<V>)
    requires
        old(state).disabled_count <= 1,
    ensures
        final(state).disabled_count <= 1,
        (*final(state), r) == spec_notification_step(*old(state), file_sample_rate, event),
{
    match event {
        WorkerEvent::VeEnabledInfo => WorkerReaction::ForwardVeEnabled { ui_tokens: UI_VE_PRELOAD },
        WorkerEvent::VeDisabledSync => {
            if state.disabled_count == 0 {
                state.disabled_count = 1;
                WorkerReaction::Nothing
            } else {
                state.disabled_count = 0;
                WorkerReaction::NotifyVeDisabled
            }
        },
        WorkerEvent::NoticeAudioDeviceInfo { sample_rate } => {
            match SampleRate::try_from(file_sample_rate) {
                Err(rate) => WorkerReaction::UnsupportedFileRate(rate),
                Ok(f) => match SampleRate::try_from(sample_rate) {
                    Err(rate) => WorkerReaction::UnsupportedDeviceRate(rate),
                    Ok(d) => WorkerReaction::StartDecoding { file_rate: f, device_rate: d },
                },
            }
        },
        WorkerEvent::SeekCompleteFromVe(v) => {
            match state.seek_decoder_completed_signal.take() {
                Some(d) => WorkerReaction::NotifySeekComplete { ve: Some(v), decoder: d },
                None => {
                    state.seek_ve_completed_signal = Some(v);
                    WorkerReaction::Nothing
                },
            }
        },
        WorkerEvent::SeekCompleteFromDecoder(d) => {
            if !d.ve_enabled {
                WorkerReaction::NotifySeekComplete { ve: None, decoder: d }
            } else {
                match state.seek_ve_completed_signal.take() {
                    Some(v) => WorkerReaction::NotifySeekComplete { ve: Some(v), decoder: d },
                    None => {
                        state.seek_decoder_completed_signal = Some(d);
                        WorkerReaction::Nothing
                    },
                }
            }
        },
        WorkerEvent::Error => WorkerReaction::StopAll,
    }
}

/// A seek's completion reaches the screen once, with the effect's hand-over, whether the effect
/// or the decoder finishes first; and the effect counts as off only after both threads confirm.
pub proof fn lemma_seek_completion_order_independent<V>(
    state: NotificationState<V>,
    file_sample_rate: usize,
    v: V,
    d: SeekCompleteFromDecoderSignal,
)
    requires
        state.seek_ve_completed_signal is None,
        state.seek_decoder_completed_signal is None,
        d.ve_enabled,
    ensures
        ({
            let (s1, r1) = spec_notification_step(
                state,
                file_sample_rate,
                WorkerEvent::SeekCompleteFromVe(v),
            );
            let (s2, r2) = spec_notification_step(
                s1,
                file_sample_rate,
                WorkerEvent::SeekCompleteFromDecoder(d),
            );
            let (t1, q1) = spec_notification_step(
                state,
                file_sample_rate,
                WorkerEvent::SeekCompleteFromDecoder(d),
            );
            let (t2, q2) = spec_notification_step(
                t1,
                file_sample_rate,
                WorkerEvent::SeekCompleteFromVe(v),
            );
            &&& r1 == WorkerReaction::<V>::Nothing
            &&& q1 == WorkerReaction::<V>::Nothing
            &&& r2 == WorkerReaction::NotifySeekComplete { ve: Some(v), decoder: d }
            &&& q2 == r2
            &&& s2 == state
            &&& t2 == state
        }),
        ({
            let (s1, r1) = spec_notification_step(state, file_sample_rate, WorkerEvent::VeDisabledSync);
            let (s2, r2) = spec_notification_step(s1, file_sample_rate, WorkerEvent::VeDisabledSync);
            state.disabled_count == 0 ==> r1 == WorkerReaction::<V>::Nothing
                && r2 == WorkerReaction::<V>::NotifyVeDisabled && s2.disabled_count == 0
        }),
{
}

/// The first error among the results of the player's tasks, or `Ok` where all succeeded.
pub open spec fn spec_first_error<E>(results: Seq<Result<(), E>>) -> Result<(), E>
    decreases results.len(),
{
    if results.len() == 0 {
        Ok(())
    } else if results[0] is Err {
        results[0]
    } else {
        spec_first_error(results.drop_first())
    }
}

/// The player's overall result: the first error among its tasks' results, or `Ok`.
pub fn first_error<E>(results: Vec<Result<(), E>>) -> (r: Result<(), E>)
    ensures
        r == spec_first_error(results@),
{
    let ghost all = results@;
    let mut i: usize = 0;
    let n = results.len();
    assert(all.skip(0) =~= all);
    while i < n
        invariant
            n == all.len(),
            results@ == all,
            i <= n,
            spec_first_error(all) == spec_first_error(all.skip(i as int)),
        decreases n - i,
    {
        assert(all.skip(i as int).drop_first() =~= all.skip(i + 1));
        let failed = match &results[i] {
            Err(_) => true,
            Ok(_) => false,
        };
        if failed {
            assert(all.skip(i as int)[0] == all[i as int]);
            let mut rs = results;
            return rs.swap_remove(i);
        }
        i = i + 1;
    }
    Ok(())
}

/// Where the visual effect starts reading and how the sync tokens are shared out when it is
/// turned on while `pending` tokens from the renderer wait at the decoder.
#[derive(Clone, Copy, Debug, PartialEq, Eq, Structural)]
pub struct VeEnablePlan {
    pub ve_start_read_exclusive: usize,
    /// Tokens for the effect's channel to the decoder.
    pub ve_to_decoder_tokens: usize,
    /// Tokens for the decoder's channel to the effect.
    pub decoder_to_ve_tokens: usize,
    /// How far behind the played position the effect starts, in blocks (negative: behind).
    pub offset_blocks: i128,
}

/// Plans the start of the visual effect inside the decoder, which writes block `write_exclusive`
/// and has written `played_samples` samples in blocks of `block_size`.
pub fn ve_enable_plan(
    write_exclusive: usize,
    pending: usize,
    played_samples: u64,
    block_size: usize,
) -> (r: VeEnablePlan)
    requires
        pending <= NUM_OF_BLOCK - 2,
        write_exclusive < NUM_OF_BLOCK,
        block_size > 0,
    ensures
        r.ve_start_read_exclusive == (write_exclusive + pending + 1) % (NUM_OF_BLOCK as int),
        r.ve_to_decoder_tokens == pending,
        r.decoder_to_ve_tokens == NUM_OF_BLOCK - pending - 2,
        r.ve_to_decoder_tokens + r.decoder_to_ve_tokens == NUM_OF_BLOCK - 2,
        r.offset_blocks == (played_samples / (block_size as u64)) as int + pending + 1
            - NUM_OF_BLOCK,
{
    let blocks: u64 = played_samples / (block_size as u64);
    VeEnablePlan {
        ve_start_read_exclusive: (write_exclusive + pending + 1) % NUM_OF_BLOCK,
        ve_to_decoder_tokens: pending,
        decoder_to_ve_tokens: NUM_OF_BLOCK - pending - 2,
        offset_blocks: blocks as i128 + pending as i128 + 1 - NUM_OF_BLOCK as i128,
    }
}

} // verus!
