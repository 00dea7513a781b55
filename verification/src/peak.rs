//! Peak extraction over decibel spectra. Amplitudes are held in thousandths
//! of a decibel; the running maximum starts at 0, so a bin at or below the
//! 0 dB reference never registers as a peak, and among equal maxima the
//! lowest-index bin wins under the strict comparison.

use vstd::prelude::*;
use crate::config::Config;
use crate::config::lemma_bin_of_freq_in_spectrum;
use crate::config::lemma_bin_of_freq_monotone;

verus! {

/// The strongest response in a band: the bin index and its amplitude in
/// thousandths of a decibel.
#[derive(Clone, Copy, PartialEq, Eq, Structural, Debug)]
pub struct BandPeak {
    /// Index of the winning bin; the start of the searched range when no bin
    /// rose above the 0 dB reference.
    pub bin: usize,
    /// Amplitude of the winning bin; 0 when no bin rose above the reference.
    pub amp: i64,
}

/// What the peak search owes for the range `[lo, hi)` of `amps`: `p.amp` is
/// the largest amplitude above 0 found there (or 0 when there is none), and
/// `p.bin` is the lowest-index bin attaining it (or `lo` when there is none).
pub open spec fn is_peak_of(p: BandPeak, amps: Seq<i64>, lo: int, hi: int) -> bool {
    &&& p.amp >= 0
    &&& (forall|j: int| lo <= j < hi ==> amps[j] <= p.amp)
    &&& (p.amp > 0 ==> lo <= p.bin < hi && amps[p.bin as int] == p.amp && (forall|j: int|
        lo <= j < p.bin ==> amps[j] < p.amp))
    &&& (p.amp == 0 ==> p.bin == lo)
}

/// Finds the peak of `amps` within the index range `[lo, hi)`, with the
/// running maximum starting at 0.
pub fn max_amp_in(amps: &Vec<i64>, lo: usize, hi: usize) -> (p: BandPeak)
    requires
        lo <= hi <= amps.len(),
    ensures
        is_peak_of(p, amps@, lo as int, hi as int),
{
    let mut max_bin: usize = lo;
    let mut max_amp: i64 = 0;
    let mut i: usize = lo;
    while i < hi
        invariant
            lo <= i <= hi <= amps.len(),
            max_amp >= 0,
            forall|j: int| lo <= j < i ==> amps@[j] <= max_amp,
            max_amp > 0 ==> lo <= max_bin < i && amps@[max_bin as int] == max_amp && (forall|
                j: int,
            |
                lo <= j < max_bin ==> amps@[j] < max_amp),
            max_amp == 0 ==> max_bin == lo,
        decreases hi - i,
    {
        if amps[i] > max_amp {
            max_amp = amps[i];
            max_bin = i;
        }
        i = i + 1;
    }
    BandPeak { bin: max_bin, amp: max_amp }
}

/// Finds the peak of the whole spectrum.
pub fn max_amp(amps: &Vec<i64>) -> (p: BandPeak)
    ensures
        is_peak_of(p, amps@, 0, amps.len() as int),
{
    max_amp_in(amps, 0, amps.len())
}

/// The per-band peaks of one iteration: bass, mid and high, plus the peak of
/// the unshaped spectrum.
#[derive(Clone, Copy, PartialEq, Eq, Structural, Debug)]
pub struct BandPeaks {
    /// Peak of the full unshaped spectrum.
    pub full: BandPeak,
    /// Peak of the bass-shaped spectrum, below the bass cutoff bin.
    pub bass: BandPeak,
    /// Peak of the mid-shaped spectrum, between the two cutoff bins.
    pub mid: BandPeak,
    /// Peak of the high-shaped spectrum, at or above the high cutoff bin.
    pub high: BandPeak,
}

impl Config {
    /// The bin of the bass cutoff frequency.
    pub open spec fn bass_bin(self) -> int {
        self.bin_of_freq(self.bass_cutoff as int)
    }

    /// The bin of the high cutoff frequency.
    pub open spec fn high_bin(self) -> int {
        self.bin_of_freq(self.high_cutoff as int)
    }

    /// The cutoff bins split the spectrum into three ordered ranges.
    pub proof fn lemma_band_bins_ordered(self)
        requires
            self.wf(),
        ensures
            0 <= self.bass_bin() <= self.high_bin() <= self.spectrum_len(),
    {
        lemma_bin_of_freq_monotone(self, self.bass_cutoff as int, self.high_cutoff as int);
        lemma_bin_of_freq_in_spectrum(self, self.high_cutoff as int);
        lemma_bin_of_freq_in_spectrum(self, self.bass_cutoff as int);
    }
}

/// Extracts the four peaks of one iteration from the unshaped spectrum and
/// the three shaped spectra: the bass search is restricted to bins below the
/// bass cutoff bin, the mid search to bins between the cutoff bins, and the
/// high search to bins from the high cutoff bin up.
pub fn extract_band_peaks(
    cfg: &Config,
    spectrum: &Vec<i64>,
    bass_amps: &Vec<i64>,
    mid_amps: &Vec<i64>,
    high_amps: &Vec<i64>,
) -> (p: BandPeaks)
    requires
        cfg.wf(),
        spectrum.len() == cfg.spectrum_len(),
        bass_amps.len() == cfg.spectrum_len(),
        mid_amps.len() == cfg.spectrum_len(),
        high_amps.len() == cfg.spectrum_len(),
    ensures
        is_peak_of(p.full, spectrum@, 0, cfg.spectrum_len()),
        is_peak_of(p.bass, bass_amps@, 0, cfg.bass_bin()),
        is_peak_of(p.mid, mid_amps@, cfg.bass_bin(), cfg.high_bin()),
        is_peak_of(p.high, high_amps@, cfg.high_bin(), cfg.spectrum_len()),
{
    proof {
        cfg.lemma_band_bins_ordered();
    }
    let bass_bin = cfg.freq_to_bin(cfg.bass_cutoff);
    let high_bin = cfg.freq_to_bin(cfg.high_cutoff);
    BandPeaks {
        full: max_amp(spectrum),
        bass: max_amp_in(bass_amps, 0, bass_bin),
        mid: max_amp_in(mid_amps, bass_bin, high_bin),
        high: max_amp_in(high_amps, high_bin, high_amps.len()),
    }
}

} // verus!
