use vstd::prelude::*;

use crate::playback::VeSelectedTab;

verus! {

/// A decoder's hand-over of one block to the renderer.
#[derive(Clone, Copy, Debug, PartialEq, Eq, Structural)]
pub enum DecoderToRendererSyncSignal {
    /// The next block is full.
    Sync,
    /// The stream ended in this block.
    EndOfStream(EndOfStreamSignal),
}

/// Where the stream ended: the last block and how many frames it holds.
#[derive(Clone, Copy, Debug, PartialEq, Eq, Structural)]
pub struct EndOfStreamSignal {
    pub last_block: usize,
    pub filled_len: usize,
}

/// The renderer gives a block back to the decoder.
pub struct RendererToDecoderSsynSignal();

/// The decoder hands a block to the visual effect.
pub struct DecorderToVeSyncSignal();

/// The visual effect gives a block back to the decoder.
pub struct VeToDecoderSyncSignal();

/// The screen and the visual effect pass one frame.
pub struct UiVEThreadSyncSignal();

/// The screen may switch the visual effect again.
#[derive(Clone, Copy)]
pub struct VeSwitcherSyncSignal();

/// The screen asks to switch the visual effect.
#[derive(Clone, Copy)]
pub struct VeSwitcherRequestSignal {
    pub request_tab: VeSelectedTab,
}

/// The renderer tells the player the device's rate.
#[derive(Clone, Copy, Debug, PartialEq, Eq, Structural)]
pub struct AudioDeviceInfo {
    pub sample_rate: usize,
}

/// The screen asks the player to seek.
#[derive(Clone, Copy, Debug, PartialEq, Eq, Structural)]
pub struct UiToPlayerSeekSignal {
    /// Where to, in nanoseconds.
    pub target_duration: u128,
    pub seek_no: u64,
}

/// The player tells the screen the track's rates and length.
#[derive(Clone, Copy, Debug, PartialEq, Eq, Structural)]
pub struct TrackInfo {
    pub file_sample_rate: usize,
    pub audio_device_sample_rate: usize,
    /// In nanoseconds.
    pub track_duration: u128,
}

/// The renderer tells the screen how much it played.
#[derive(Clone, Copy, Debug, PartialEq, Eq, Structural)]
pub struct PlayedFrames {
    pub frames: u32,
    pub buffered_frames: u32,
    pub seek_no: u64,
}

/// The screen's modes.
#[derive(Clone, Copy, Debug, PartialEq, Eq, Hash, Structural)]
pub enum Mode {
    Home,
}

impl Mode {
    /// The screen starts at home.
    pub fn default_mode() -> (r: Mode)
        ensures
            r == Mode::Home,
    {
        Mode::Home
    }
}

/// Why a file could not be opened for decoding.
#[derive(Clone, Copy, Debug, PartialEq, Eq, Structural)]
pub enum DecodeInitError {
    FileOpenFailed,
    NoTrackFound,
}

impl DecodeInitError {
    /// The message shown for the error; every kind is reported alike.
    pub fn message(&self) -> (r: &'static str)
        ensures
            r@ == "No Default Track is found "@,
    {
        "No Default Track is found "
    }
}

} // verus!
