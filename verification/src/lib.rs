//! The logic of a terminal audio player: the focus and keys of its screen, the play list, the
//! timing of the track being played, the ring of decoded blocks shared by the decoder, the
//! renderer and the visual effect, and the decisions of the player's threads.

pub mod app_state;
pub mod decoder;
pub mod areas;
pub mod audio_file;
pub mod key_guide;
pub mod playback;
pub mod player;
pub mod playlist;
pub mod ring;
pub mod sample_rate;
pub mod signals;
pub mod tabs;
pub mod track_info;
pub mod utils;
pub mod ve_timing;
