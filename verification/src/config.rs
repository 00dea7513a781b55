//! The tunable constants of the pipeline, gathered into one configuration
//! value that is validated once at startup: sample rate, block size, band
//! cutoff frequencies, the normalizer's reference level and the LED count.

use vstd::prelude::*;

verus! {

/// Default sample rate, in Hz.
pub const SAMPLE_RATE: u32 = 48000;

/// Default number of stereo frames per analysis block; must be a power of two.
pub const SAMPLES_PER_PERIOD: usize = 1024;

/// Default upper edge of the bass band, in Hz.
pub const BASS_CUTOFF: u32 = 410;

/// Default lower edge of the high band, in Hz.
pub const HIGH_CUTOFF: u32 = 3800;

/// Top of the audible range the high-pass curve is anchored to, in Hz.
pub const MAX_FREQ: u32 = 20000;

/// The mid band reaches this far below the bass cutoff, in Hz.
pub const MID_LOW_MARGIN: u32 = 170;

/// The mid band reaches this far above the high cutoff, in Hz.
pub const MID_HIGH_MARGIN: u32 = 300;

/// Default reference level of the normalizer, in dB: peaks at or above it
/// map to full level.
pub const REFERENCE_DB: u32 = 52;

/// Default number of LEDs on the strip.
pub const N_LEDS: usize = 50;

/// Largest accepted block size; keeps bin arithmetic comfortably in range.
pub const MAX_BLOCK_SIZE: usize = 65536;

/// Largest LED count the device protocol can address.
pub const MAX_LED_COUNT: usize = 65536;

/// Whether `n` is a power of two.
pub open spec fn is_pow2(n: nat) -> bool
    decreases n,
{
    if n == 0 {
        false
    } else if n == 1 {
        true
    } else {
        n % 2 == 0 && is_pow2(n / 2)
    }
}

/// Run-time check that `n` is a power of two.
pub fn check_pow2(n: usize) -> (b: bool)
    ensures
        b == is_pow2(n as nat),
{
    if n == 0 {
        return false;
    }
    let mut m: usize = n;
    while m > 1
        invariant
            m >= 1,
            is_pow2(n as nat) == is_pow2(m as nat),
        decreases m,
    {
        if m % 2 != 0 {
            return false;
        }
        m = m / 2;
    }
    true
}

/// Why a configuration was rejected.
#[derive(Clone, Copy, PartialEq, Eq, Structural, Debug)]
pub enum ConfigError {
    /// The sample rate was zero.
    ZeroSampleRate,
    /// The block size was not a power of two, or too small or too large.
    BadBlockSize,
    /// The mid band's lower edge would fall below zero.
    BassCutoffBelowMargin,
    /// The cutoffs were not ordered bass below high.
    CutoffsOutOfOrder,
    /// A cutoff reached the Nyquist frequency or the top of the range.
    CutoffTooHigh,
    /// The reference level was zero.
    ZeroReferenceDb,
    /// The LED count was zero or too large for the protocol.
    BadLedCount,
}

/// The pipeline's configuration, fixed for the process lifetime.
#[derive(Clone, Copy, PartialEq, Eq, Structural, Debug)]
pub struct Config {
    /// Sample rate of the captured audio, in Hz.
    pub sample_rate: u32,
    /// Stereo frames per analysis block; a power of two.
    pub block_size: usize,
    /// Upper edge of the bass band, in Hz.
    pub bass_cutoff: u32,
    /// Lower edge of the high band, in Hz.
    pub high_cutoff: u32,
    /// Reference level of the normalizer, in dB.
    pub reference_db: u32,
    /// Number of LEDs on the strip.
    pub led_count: usize,
}

impl Config {
    /// Well-formedness: what `validate` establishes and every consumer relies
    /// on. The margins keep the widened mid band inside (0, MAX_FREQ), and
    /// the cutoffs stay below Nyquist so every cutoff bin lies inside the
    /// spectrum.
    pub open spec fn wf(self) -> bool {
        &&& self.sample_rate >= 1
        &&& is_pow2(self.block_size as nat)
        &&& 2 <= self.block_size <= MAX_BLOCK_SIZE
        &&& self.bass_cutoff > MID_LOW_MARGIN
        &&& self.bass_cutoff < self.high_cutoff
        &&& self.high_cutoff + MID_HIGH_MARGIN < MAX_FREQ
        &&& 2 * self.high_cutoff <= self.sample_rate
        &&& self.reference_db >= 1
        &&& 1 <= self.led_count <= MAX_LED_COUNT
    }

    /// Number of spectrum bins an analysis block yields: half the block size.
    pub open spec fn spectrum_len(self) -> int {
        self.block_size as int / 2
    }

    /// The spectrum bin nearest to frequency `f`:
    /// `round(f * block_size / sample_rate)`, written over integers as
    /// `floor((2 * f * block_size + sample_rate) / (2 * sample_rate))`.
    pub open spec fn bin_of_freq(self, f: int) -> int {
        (2 * f * self.block_size + self.sample_rate) / (2 * self.sample_rate as int)
    }

    /// The result `validate` owes: the first rule violated in declaration
    /// order, or the configuration itself when every rule holds.
    pub open spec fn validate_spec(self) -> Result<Config, ConfigError> {
        if self.sample_rate < 1 {
            Err(ConfigError::ZeroSampleRate)
        } else if self.block_size < 2 || self.block_size > MAX_BLOCK_SIZE || !is_pow2(
            self.block_size as nat,
        ) {
            Err(ConfigError::BadBlockSize)
        } else if self.bass_cutoff <= MID_LOW_MARGIN {
            Err(ConfigError::BassCutoffBelowMargin)
        } else if self.bass_cutoff >= self.high_cutoff {
            Err(ConfigError::CutoffsOutOfOrder)
        } else if self.high_cutoff + MID_HIGH_MARGIN >= MAX_FREQ || 2 * self.high_cutoff
            > self.sample_rate {
            Err(ConfigError::CutoffTooHigh)
        } else if self.reference_db < 1 {
            Err(ConfigError::ZeroReferenceDb)
        } else if self.led_count < 1 || self.led_count > MAX_LED_COUNT {
            Err(ConfigError::BadLedCount)
        } else {
            Ok(self)
        }
    }

    /// Checks every configuration rule and returns the validated
    /// configuration, or the first rule violated in declaration order; it
    /// succeeds exactly on well-formed configurations.
    pub fn validate(self) -> (r: Result<Config, ConfigError>)
        ensures
            r == self.validate_spec(),
            r is Ok <==> self.wf(),
            r is Ok ==> r->Ok_0 == self,
    {
        if self.sample_rate < 1 {
            return Err(ConfigError::ZeroSampleRate);
        }
        if self.block_size < 2 || self.block_size > MAX_BLOCK_SIZE || !check_pow2(
            self.block_size,
        ) {
            return Err(ConfigError::BadBlockSize);
        }
        if self.bass_cutoff <= MID_LOW_MARGIN {
            return Err(ConfigError::BassCutoffBelowMargin);
        }
        if self.bass_cutoff >= self.high_cutoff {
            return Err(ConfigError::CutoffsOutOfOrder);
        }
        if self.high_cutoff >= MAX_FREQ - MID_HIGH_MARGIN || 2 * self.high_cutoff
            > self.sample_rate {
            return Err(ConfigError::CutoffTooHigh);
        }
        if self.reference_db < 1 {
            return Err(ConfigError::ZeroReferenceDb);
        }
        if self.led_count < 1 || self.led_count > MAX_LED_COUNT {
            return Err(ConfigError::BadLedCount);
        }
        Ok(self)
    }

    /// The default configuration of the pipeline.
    pub fn default_config() -> (c: Config)
        ensures
            c.wf(),
            c.sample_rate == SAMPLE_RATE,
            c.block_size == SAMPLES_PER_PERIOD,
            c.bass_cutoff == BASS_CUTOFF,
            c.high_cutoff == HIGH_CUTOFF,
            c.reference_db == REFERENCE_DB,
            c.led_count == N_LEDS,
    {
        let c = Config {
            sample_rate: SAMPLE_RATE,
            block_size: SAMPLES_PER_PERIOD,
            bass_cutoff: BASS_CUTOFF,
            high_cutoff: HIGH_CUTOFF,
            reference_db: REFERENCE_DB,
            led_count: N_LEDS,
        };
        assert(is_pow2(1024nat)) by {
            reveal_with_fuel(is_pow2, 12);
        }
        c
    }

    /// The spectrum bin nearest to frequency `freq`.
    pub fn freq_to_bin(&self, freq: u32) -> (bin: usize)
        requires
            self.wf(),
            freq <= MAX_FREQ,
        ensures
            bin == self.bin_of_freq(freq as int),
    {
        proof {
            assert(2 * freq as int * self.block_size as int <= 2 * 20000 * 65536)
                by (nonlinear_arith)
                requires
                    freq <= 20000 && self.block_size <= 65536,
            ;
        }
        let num: u64 = 2 * freq as u64 * self.block_size as u64 + self.sample_rate as u64;
        let den: u64 = 2 * self.sample_rate as u64;
        proof {
            let x: int = 2 * freq as int * self.block_size as int;
            let r: int = self.sample_rate as int;
            vstd::arithmetic::div_mod::lemma_div_is_ordered(x + r, x + 2 * r, 2 * r);
            vstd::arithmetic::div_mod::lemma_div_plus_one(x, 2 * r);
            vstd::arithmetic::div_mod::lemma_div_is_ordered_by_denominator(x, 2, 2 * r);
            vstd::arithmetic::div_mod::lemma_div_pos_is_pos(x + r, 2 * r);
            assert(x / 2 == freq as int * self.block_size as int) by (nonlinear_arith)
                requires
                    x == 2 * freq as int * self.block_size as int,
            ;
            assert(freq as int * self.block_size as int <= 20000 * 65536) by (nonlinear_arith)
                requires
                    0 <= freq <= 20000 && 0 <= self.block_size <= 65536,
            ;
        }
        (num / den) as usize
    }
}

/// `bin_of_freq` picks the nearest bin: the chosen bin's center frequency,
/// `bin * sample_rate / block_size`, lies within half a bin width of `f`
/// (ties at the halfway point go to the higher bin).
pub proof fn lemma_bin_of_freq_is_nearest(c: Config, f: int)
    requires
        c.wf(),
        0 <= f,
    ensures
        -(c.sample_rate as int) <= 2 * (f * c.block_size - c.bin_of_freq(f) * c.sample_rate)
            < c.sample_rate,
{
    let b: int = c.block_size as int;
    let r: int = c.sample_rate as int;
    let x: int = 2 * f * b + r;
    let bin = c.bin_of_freq(f);
    vstd::arithmetic::div_mod::lemma_fundamental_div_mod(x, 2 * r);
    vstd::arithmetic::div_mod::lemma_mod_bound(x, 2 * r);
    assert(x == (2 * r) * bin + x % (2 * r));
    assert(2 * (f * b - bin * r) == x % (2 * r) - r) by (nonlinear_arith)
        requires
            x == (2 * r) * bin + x % (2 * r) && x == 2 * f * b + r,
    ;
}

/// `bin_of_freq` is monotone in the frequency: a higher frequency never maps
/// to a lower bin.
pub proof fn lemma_bin_of_freq_monotone(c: Config, f1: int, f2: int)
    requires
        c.wf(),
        0 <= f1 <= f2,
    ensures
        c.bin_of_freq(f1) <= c.bin_of_freq(f2),
{
    assert(2 * f1 * c.block_size <= 2 * f2 * c.block_size) by (nonlinear_arith)
        requires
            0 <= f1 <= f2 && c.block_size >= 0,
    ;
    vstd::arithmetic::div_mod::lemma_div_is_ordered(
        2 * f1 * c.block_size + c.sample_rate,
        2 * f2 * c.block_size + c.sample_rate,
        2 * c.sample_rate as int,
    );
}

/// A frequency at or below Nyquist maps to a bin inside the spectrum.
pub proof fn lemma_bin_of_freq_in_spectrum(c: Config, f: int)
    requires
        c.wf(),
        0 <= 2 * f <= c.sample_rate,
    ensures
        0 <= c.bin_of_freq(f) <= c.spectrum_len(),
{
    let b: int = c.block_size as int;
    let r: int = c.sample_rate as int;
    assert(2 * f * b <= r * b) by (nonlinear_arith)
        requires
            0 <= 2 * f <= r && b >= 0,
    ;
    assert(is_pow2(c.block_size as nat) && c.block_size >= 2 ==> c.block_size % 2 == 0);
    assert(b == 2 * (b / 2));
    assert(r * b + r == (2 * r) * (b / 2) + r) by (nonlinear_arith)
        requires
            b == 2 * (b / 2),
    ;
    assert((2 * f * b + r) <= (2 * r) * (b / 2) + r);
    assert((2 * r) * (b / 2) + r < (2 * r) * (b / 2 + 1)) by (nonlinear_arith)
        requires
            r >= 1,
    ;
    assert(c.bin_of_freq(f) <= b / 2) by {
        vstd::arithmetic::div_mod::lemma_div_is_ordered(
            2 * f * b + r,
            (2 * r) * (b / 2) + r,
            2 * r,
        );
        vstd::arithmetic::div_mod::lemma_div_multiples_vanish_fancy(b / 2, r, 2 * r);
    }
    vstd::arithmetic::div_mod::lemma_div_pos_is_pos(2 * f * b + r, 2 * r);
}

} // verus!
