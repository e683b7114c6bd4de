use vstd::prelude::*;

verus! {

/// The sample rates that the player handles, for files and for the audio device alike.
#[derive(Clone, Copy, Debug, PartialEq, Eq, Structural)]
pub enum SampleRate {
    R44100,
    R88200,
    R176400,
    R48000,
    R96000,
    R192000,
}

/// Samples per second of each rate.
pub open spec fn spec_rate_value(r: SampleRate) -> nat {
    match r {
        SampleRate::R44100 => 44100,
        SampleRate::R88200 => 88200,
        SampleRate::R176400 => 176400,
        SampleRate::R48000 => 48000,
        SampleRate::R96000 => 96000,
        SampleRate::R192000 => 192000,
    }
}

/// The rate with `value` samples per second, if it is one of those handled.
pub open spec fn spec_rate_of(value: nat) -> Option<SampleRate> {
    if value == 44100 {
        Some(SampleRate::R44100)
    } else if value == 88200 {
        Some(SampleRate::R88200)
    } else if value == 176400 {
        Some(SampleRate::R176400)
    } else if value == 48000 {
        Some(SampleRate::R48000)
    } else if value == 96000 {
        Some(SampleRate::R96000)
    } else if value == 192000 {
        Some(SampleRate::R192000)
    } else {
        None
    }
}

impl SampleRate {
    /// Samples per second.
    pub fn raw_value(&self) -> (r: usize)
        ensures
            r == spec_rate_value(*self),
    {
        match self {
            SampleRate::R44100 => 44100,
            SampleRate::R88200 => 88200,
            SampleRate::R176400 => 176400,
            SampleRate::R48000 => 48000,
            SampleRate::R96000 => 96000,
            SampleRate::R192000 => 192000,
        }
    }

    /// The rate of `value` samples per second; an unhandled value comes back as the error.
    pub fn try_from(value: usize) -> (r: Result<SampleRate, usize>)
        ensures
            spec_rate_of(value as nat) matches Some(rate) ==> r == Ok::<SampleRate, usize>(rate),
            spec_rate_of(value as nat) is None ==> r == Err::<SampleRate, usize>(value),
    {
        match value {
            44100 => Ok(SampleRate::R44100),
            88200 => Ok(SampleRate::R88200),
            176400 => Ok(SampleRate::R176400),
            48000 => Ok(SampleRate::R48000),
            96000 => Ok(SampleRate::R96000),
            192000 => Ok(SampleRate::R192000),
            other => Err(other),
        }
    }
}

/// A rate converts to its number of samples per second and back, and a number that converts to a
/// rate is that rate's number of samples per second.
pub proof fn lemma_rate_round_trip(r: SampleRate, value: nat)
    ensures
        spec_rate_of(spec_rate_value(r)) == Some(r),
        spec_rate_of(value) matches Some(q) ==> spec_rate_value(q) == value,
{
}

/// Samples of a decoded block before the conversion when no conversion is needed.
pub const BLOCK_SIZE_DEFAULT: usize = 16384;

/// How a file's samples are converted to the device's rate, block by block.
#[derive(Clone, Copy, Debug, PartialEq, Eq, Structural)]
pub struct ResamplePlan {
    /// Frames that the converter takes at a time.
    pub chunk_size: usize,
    /// Frames of a decoded block at the file's rate.
    pub decode_block_len: usize,
    /// Frames of a converted block at the device's rate.
    pub block_size: usize,
}

/// The converter's chunk for a file rate: 147 frames per 44.1 kHz, 160 per 48 kHz, times the
/// rate's multiple.
pub open spec fn spec_chunk(file: SampleRate) -> nat {
    let base: nat = match file {
        SampleRate::R44100 | SampleRate::R88200 | SampleRate::R176400 => 147,
        _ => 160,
    };
    let multiple: nat = match file {
        SampleRate::R44100 | SampleRate::R48000 => 1,
        SampleRate::R88200 | SampleRate::R96000 => 2,
        _ => 4,
    };
    base * multiple
}

pub open spec fn spec_resample_plan(file: SampleRate, device: SampleRate) -> Option<ResamplePlan> {
    if file == device {
        None
    } else {
        let chunk = spec_chunk(file);
        Some(
            ResamplePlan {
                chunk_size: chunk as usize,
                decode_block_len: (chunk * 100) as usize,
                block_size: ((chunk * 100 * spec_rate_value(device)) / spec_rate_value(
                    file,
                )) as usize,
            },
        )
    }
}

/// The conversion plan for playing a file at `file` rate on a device at `device` rate, or
/// `None` where the rates agree and no conversion is needed.
pub fn resample_plan(file: SampleRate, device: SampleRate) -> (r: Option<ResamplePlan>)
    ensures
        r == spec_resample_plan(file, device),
{
    if file == device {
        None
    } else {
        let base: usize = match file {
            SampleRate::R44100 | SampleRate::R88200 | SampleRate::R176400 => 147,
            _ => 160,
        };
        let multiple: usize = match file {
            SampleRate::R44100 | SampleRate::R48000 => 1,
            SampleRate::R88200 | SampleRate::R96000 => 2,
            _ => 4,
        };
        let chunk = base * multiple;
        let decode_block_len = chunk * 100;
        let dev = device.raw_value() as u64;
        let fil = file.raw_value() as u64;
        let len64 = decode_block_len as u64;
        assert(len64 * dev <= 64000 * 192000) by (nonlinear_arith)
            requires
                len64 <= 64000,
                dev <= 192000,
        ;
        let scaled = len64 * dev / fil;
        assert(scaled <= 64000 * 192000 / 44100) by (nonlinear_arith)
            requires
                scaled as int == (len64 * dev) as int / (fil as int),
                len64 * dev <= 64000 * 192000,
                fil >= 44100,
        ;
        Some(
            ResamplePlan {
                chunk_size: chunk,
                decode_block_len,
                block_size: scaled as usize,
            },
        )
    }
}

/// A decoded block holds a third of a second of the file and a converted block a third of a
/// second at the device's rate, so the conversion neither gains nor loses time.
pub proof fn lemma_resample_blocks_last_a_third_of_a_second(file: SampleRate, device: SampleRate)
    requires
        file != device,
    ensures
        ({
            let p = spec_resample_plan(file, device)->0;
            &&& p.decode_block_len * 3 == spec_rate_value(file)
            &&& p.block_size * 3 == spec_rate_value(device)
            &&& p.block_size * spec_rate_value(file) == p.decode_block_len * spec_rate_value(device)
        }),
{
    let f = spec_rate_value(file) as int;
    let d = spec_rate_value(device) as int;
    let third = f / 3;
    assert(third * 3 == f);
    assert(d % 3 == 0);
    let x = third * d;
    assert(x / f == d / 3) by (nonlinear_arith)
        requires
            third * 3 == f,
            d % 3 == 0,
            f > 0,
            x == third * d,
    {
        assert(x == (d / 3) * f);
        vstd::arithmetic::div_mod::lemma_div_multiples_vanish(d / 3, f);
    }
}

} // verus!
