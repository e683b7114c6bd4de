use vstd::prelude::*;

verus! {

/// Nanoseconds in one second.
pub const NANOS_PER_SEC: u128 = 1_000_000_000;

/// The longest span of time that `std::time::Duration` can hold, in nanoseconds.
pub const MAX_DURATION_NANOS: u128 = 18_446_744_073_709_551_615_999_999_999;

/// `frames` samples at `rate` samples per second, in nanoseconds rounded to the nearest one.
pub open spec fn spec_frames_to_nanos(frames: nat, rate: nat) -> nat
    recommends
        rate > 0,
{
    (frames * 2_000_000_000 + rate) / (2 * rate)
}

/// The span that `frames` samples take at `rate` samples per second, rounded to the nearest
/// nanosecond.
pub fn frames_to_nanos(frames: u64, rate: u64) -> (r: u128)
    requires
        rate > 0,
    ensures
        r == spec_frames_to_nanos(frames as nat, rate as nat),
{
    let f: u128 = frames as u128;
    let q: u128 = rate as u128;
    assert(f * 2_000_000_000 + q <= 0xffff_ffff_ffff_ffff * 2_000_000_000 + 0xffff_ffff_ffff_ffff)
        by (nonlinear_arith)
        requires
            f <= 0xffff_ffff_ffff_ffff,
            q <= 0xffff_ffff_ffff_ffff,
    ;
    (f * 2_000_000_000 + q) / (2 * q)
}

/// `a - b`, or zero where `b` is the larger.
pub open spec fn sat_sub(a: u128, b: u128) -> u128 {
    if a >= b {
        (a - b) as u128
    } else {
        0
    }
}

/// `a + b`, or the longest duration where the sum would exceed it.
pub open spec fn sat_add_duration(a: u128, b: u128) -> u128 {
    if a + b <= MAX_DURATION_NANOS {
        (a + b) as u128
    } else {
        MAX_DURATION_NANOS
    }
}

/// The length of a track, from its frame count and sample rate as the container reports them.
pub open spec fn spec_track_duration(n_frames: Option<u64>, sample_rate: Option<u32>) -> Option<
    u128,
> {
    match (n_frames, sample_rate) {
        (Some(n), Some(r)) => Some(spec_frames_to_nanos(n as nat, r as nat) as u128),
        _ => None,
    }
}

/// The length of a track in nanoseconds, or `None` where the frame count or the sample rate is
/// unknown. A known sample rate of zero has no length and is left out.
pub fn track_duration(n_frames: Option<u64>, sample_rate: Option<u32>) -> (r: Option<u128>)
    requires
        sample_rate != Some(0u32),
    ensures
        r == spec_track_duration(n_frames, sample_rate),
{
    match (n_frames, sample_rate) {
        (Some(n), Some(rate)) => Some(frames_to_nanos(n, rate as u64)),
        _ => None,
    }
}

/// The timing of the track being played.
pub struct PlayingTrackInfo {
    pub file_sample_rate: usize,
    pub audio_device_sample_rate: usize,
    /// The track's length, in nanoseconds.
    pub track_duraion: u128,
    pub seek_completed_recieved_seek_no: u64,
    /// Where a pending seek goes, in nanoseconds.
    pub seeking_duration: Option<u128>,
    /// The time handed to the audio device so far, in nanoseconds.
    pub current_played_duration: u128,
    /// The time that the audio device still holds in its buffer, in nanoseconds.
    pub audio_device_buffered_duration: u128,
}

impl PlayingTrackInfo {
    /// Timing for a track that starts now: nothing played, nothing buffered, no seek.
    pub fn new(file_sample_rate: usize, audio_device_sample_rate: usize, track_duraion: u128) -> (r:
        Self)
        ensures
            r.file_sample_rate == file_sample_rate,
            r.audio_device_sample_rate == audio_device_sample_rate,
            r.track_duraion == track_duraion,
            r.current_played_duration == 0,
            r.audio_device_buffered_duration == 0,
            r.seek_completed_recieved_seek_no == 0,
            r.seeking_duration == None::<u128>,
    {
        PlayingTrackInfo {
            file_sample_rate,
            audio_device_sample_rate,
            track_duraion,
            current_played_duration: 0,
            audio_device_buffered_duration: 0,
            seek_completed_recieved_seek_no: 0,
            seeking_duration: None,
        }
    }

    /// The position that can be heard: what was handed to the device less what it still buffers.
    pub open spec fn spec_carib(&self) -> u128 {
        sat_sub(self.current_played_duration, self.audio_device_buffered_duration)
    }

    /// The audible position, in nanoseconds (never below zero).
    pub fn get_carib_duration(&self) -> (r: u128)
        ensures
            r == self.spec_carib(),
    {
        if self.current_played_duration >= self.audio_device_buffered_duration {
            self.current_played_duration - self.audio_device_buffered_duration
        } else {
            0
        }
    }

    /// Records that `add_frames` more frames went to the device, which now buffers
    /// `buffered_frames` frames besides them.
    pub fn set_played_duration(&mut self, add_frames: u32, buffered_frames: u32)
        requires
            old(self).audio_device_sample_rate > 0,
            old(self).audio_device_sample_rate <= u64::MAX,
            buffered_frames + add_frames <= u32::MAX,
        ensures
            final(self).current_played_duration == sat_add_duration(
                old(self).current_played_duration,
                spec_frames_to_nanos(
                    add_frames as nat,
                    old(self).audio_device_sample_rate as nat,
                ) as u128,
            ),
            final(self).audio_device_buffered_duration == spec_frames_to_nanos(
                (buffered_frames + add_frames) as nat,
                old(self).audio_device_sample_rate as nat,
            ),
            final(self).file_sample_rate == old(self).file_sample_rate,
            final(self).audio_device_sample_rate == old(self).audio_device_sample_rate,
            final(self).track_duraion == old(self).track_duraion,
            final(self).seek_completed_recieved_seek_no == old(self).seek_completed_recieved_seek_no,
            final(self).seeking_duration == old(self).seeking_duration,
    {
        let rate = self.audio_device_sample_rate as u64;
        let add = frames_to_nanos(add_frames as u64, rate);
        let cur = self.current_played_duration;
        self.current_played_duration = if cur <= MAX_DURATION_NANOS && add <= MAX_DURATION_NANOS
            - cur {
            cur + add
        } else {
            MAX_DURATION_NANOS
        };
        self.audio_device_buffered_duration = frames_to_nanos(
            (buffered_frames + add_frames) as u64,
            rate,
        );
    }

    /// Sets the played and buffered durations directly, as after a seek.
    pub fn set_played_duration_direct(
        &mut self,
        current_played_duration: u128,
        audio_device_buffered_duration: u128,
    )
        ensures
            final(self).current_played_duration == current_played_duration,
            final(self).audio_device_buffered_duration == audio_device_buffered_duration,
            final(self).file_sample_rate == old(self).file_sample_rate,
            final(self).audio_device_sample_rate == old(self).audio_device_sample_rate,
            final(self).track_duraion == old(self).track_duraion,
            final(self).seek_completed_recieved_seek_no == old(self).seek_completed_recieved_seek_no,
            final(self).seeking_duration == old(self).seeking_duration,
    {
        self.current_played_duration = current_played_duration;
        self.audio_device_buffered_duration = audio_device_buffered_duration;
    }
}

/// The character of a decimal digit.
pub open spec fn spec_digit(d: nat) -> char {
    if d == 0 {
        '0'
    } else if d == 1 {
        '1'
    } else if d == 2 {
        '2'
    } else if d == 3 {
        '3'
    } else if d == 4 {
        '4'
    } else if d == 5 {
        '5'
    } else if d == 6 {
        '6'
    } else if d == 7 {
        '7'
    } else if d == 8 {
        '8'
    } else {
        '9'
    }
}

/// The decimal digits of `n`, without leading zeros.
pub open spec fn spec_decimal(n: nat) -> Seq<char>
    decreases n,
{
    if n < 10 {
        seq![spec_digit(n)]
    } else {
        spec_decimal(n / 10) + seq![spec_digit(n % 10)]
    }
}

/// `n` in decimal with at least two digits.
pub open spec fn spec_two_digits(n: nat) -> Seq<char> {
    if n < 10 {
        seq!['0'] + spec_decimal(n)
    } else {
        spec_decimal(n)
    }
}

/// A span of `nanos` nanoseconds as whole minutes and seconds, "MM:SS".
pub open spec fn spec_min_sec(nanos: nat) -> Seq<char> {
    let secs = nanos / (NANOS_PER_SEC as nat);
    spec_two_digits(secs / 60) + seq![':'] + spec_two_digits(secs % 60)
}

fn digit(d: u128) -> (r: &'static str)
    requires
        d < 10,
    ensures
        r@ == seq![spec_digit(d as nat)],
{
    match d {
            0 => {
                proof {
                    reveal_strlit("0");
                }
                "0"
            },
            1 => {
                proof {
                    reveal_strlit("1");
                }
                "1"
            },
            2 => {
                proof {
                    reveal_strlit("2");
                }
                "2"
            },
            3 => {
                proof {
                    reveal_strlit("3");
                }
                "3"
            },
            4 => {
                proof {
                    reveal_strlit("4");
                }
                "4"
            },
            5 => {
                proof {
                    reveal_strlit("5");
                }
                "5"
            },
            6 => {
                proof {
                    reveal_strlit("6");
                }
                "6"
            },
            7 => {
                proof {
                    reveal_strlit("7");
                }
                "7"
            },
            8 => {
                proof {
                    reveal_strlit("8");
                }
                "8"
            },
            _ => {
                proof {
                    reveal_strlit("9");
                }
                "9"
            },
    }
}

fn append_decimal(s: &mut String, n: u128)
    ensures
        final(s)@ == old(s)@ + spec_decimal(n as nat),
    decreases n,
{
    if n >= 10 {
        append_decimal(s, n / 10);
    }
    let ghost mid = s@;
    s.append(digit(n % 10));
    assert(s@ =~= old(s)@ + spec_decimal(n as nat));
}

/// Minutes and seconds of a span of `nanos` nanoseconds, as the duration bar shows them: each at
/// least two digits, the seconds cut to whole ones.
pub fn format_to_min_sec(nanos: u128) -> (r: String)
    ensures
        r@ == spec_min_sec(nanos as nat),
{
    let secs = nanos / NANOS_PER_SEC;
    let min = secs / 60;
    let sec = secs % 60;
    let mut r = String::new();
    if min < 10 {
        proof {
            reveal_strlit("0");
        }
        r.append("0");
    }
    append_decimal(&mut r, min);
    proof {
        reveal_strlit(":");
    }
    r.append(":");
    if sec < 10 {
        proof {
            reveal_strlit("0");
        }
        r.append("0");
    }
    append_decimal(&mut r, sec);
    assert(r@ =~= spec_min_sec(nanos as nat));
    r
}

} // verus!
