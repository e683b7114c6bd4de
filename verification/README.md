# Oscilla

A terminal audio player with an oscilloscope. The decisions of the player are a library verified
with Verus; the terminal, the audio device and the decoding of files are ordinary Rust around it.

## Layout

- `src/` — the verified library
  - `tabs`, `playback`, `areas`: the focus of the screen's areas and what each key does in them
  - `app_state`: the state of the screen and every change the player's reports make to it
  - `key_guide`: the key guide line and how much of it fits
  - `audio_file`, `playlist`: the files of the play list, their names and load errors
  - `track_info`: the timing of the track being played, in nanoseconds
  - `sample_rate`, `decoder`: the handled rates, the conversion plan and the decoder's bookkeeping
  - `ring`, `ve_timing`: the ring of decoded blocks shared by the decoder, the renderer and the
    visual effect, and how the effect keeps pace with what can be heard
  - `player`, `signals`: the player's control and notification loops, and the messages between
    its threads
- `app/` — the program: command line, terminal drawing and event loop (ratatui, crossterm,
  tokio), decoding (symphonia), resampling (rubato) and audio output (WASAPI on Windows)
- `tests/` — tests of the library on concrete values
