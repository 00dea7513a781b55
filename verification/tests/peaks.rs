use heliecho::config::Config;
use heliecho::config::ConfigError;
use heliecho::peak::extract_band_peaks;
use heliecho::peak::max_amp;
use heliecho::peak::max_amp_in;

fn default_cfg() -> Config {
    Config::default_config()
}

#[test]
fn peak_finds_the_maximum() {
    let amps: Vec<i64> = vec![0, 4000, 12000, 7000, 11999];
    let p = max_amp(&amps);
    assert_eq!(p.bin, 2);
    assert_eq!(p.amp, 12000);
}

#[test]
fn first_bin_wins_ties() {
    let amps: Vec<i64> = vec![5, 9, 9, 9, 1];
    let p = max_amp(&amps);
    assert_eq!(p.bin, 1);
}

#[test]
fn amplitudes_at_or_below_reference_never_register() {
    // The running maximum starts at 0: a spectrum that never rises above the
    // 0 dB reference reports no peak.
    let amps: Vec<i64> = vec![0, -30000, -1, 0];
    let p = max_amp(&amps);
    assert_eq!(p.bin, 0);
    assert_eq!(p.amp, 0);
}

#[test]
fn empty_spectrum_has_no_peak() {
    let amps: Vec<i64> = vec![];
    let p = max_amp(&amps);
    assert_eq!((p.bin, p.amp), (0, 0));
}

#[test]
fn range_search_reports_absolute_bins() {
    let amps: Vec<i64> = vec![90, 1, 2, 50, 3, 4];
    let p = max_amp_in(&amps, 2, 5);
    assert_eq!(p.bin, 3);
    assert_eq!(p.amp, 50);
    // An empty-handed range search reports its own start bin.
    let q = max_amp_in(&amps, 4, 4);
    assert_eq!((q.bin, q.amp), (4, 0));
}

#[test]
fn band_peaks_respect_the_cutoff_bins() {
    let cfg = default_cfg();
    // Default configuration: bass cutoff bin 9, high cutoff bin 81.
    assert_eq!(cfg.freq_to_bin(cfg.bass_cutoff), 9);
    assert_eq!(cfg.freq_to_bin(cfg.high_cutoff), 81);

    let n = cfg.block_size / 2;
    let mut spectrum: Vec<i64> = vec![0; n];
    let mut bass: Vec<i64> = vec![0; n];
    let mut mid: Vec<i64> = vec![0; n];
    let mut high: Vec<i64> = vec![0; n];

    spectrum[300] = 44000;
    // A strong bin above the bass range must not win the bass search.
    bass[5] = 20000;
    bass[40] = 90000;
    mid[40] = 31000;
    high[100] = 15000;

    let p = extract_band_peaks(&cfg, &spectrum, &bass, &mid, &high);
    assert_eq!((p.full.bin, p.full.amp), (300, 44000));
    assert_eq!((p.bass.bin, p.bass.amp), (5, 20000));
    assert_eq!((p.mid.bin, p.mid.amp), (40, 31000));
    assert_eq!((p.high.bin, p.high.amp), (100, 15000));
}

#[test]
fn silent_bands_report_their_range_starts() {
    let cfg = default_cfg();
    let n = cfg.block_size / 2;
    let zeros: Vec<i64> = vec![0; n];
    let p = extract_band_peaks(&cfg, &zeros, &zeros, &zeros, &zeros);
    assert_eq!((p.full.bin, p.full.amp), (0, 0));
    assert_eq!((p.bass.bin, p.bass.amp), (0, 0));
    assert_eq!((p.mid.bin, p.mid.amp), (9, 0));
    assert_eq!((p.high.bin, p.high.amp), (81, 0));
}

#[test]
fn default_configuration_is_valid() {
    let cfg = default_cfg();
    assert_eq!(cfg.validate(), Ok(cfg));
    assert_eq!(cfg.sample_rate, 48000);
    assert_eq!(cfg.block_size, 1024);
    assert_eq!(cfg.bass_cutoff, 410);
    assert_eq!(cfg.high_cutoff, 3800);
    assert_eq!(cfg.led_count, 50);
}

#[test]
fn validation_rejects_each_bad_field() {
    let cfg = default_cfg();
    let r = Config { sample_rate: 0, ..cfg }.validate();
    assert_eq!(r, Err(ConfigError::ZeroSampleRate));
    let r = Config { block_size: 1000, ..cfg }.validate();
    assert_eq!(r, Err(ConfigError::BadBlockSize));
    let r = Config { block_size: 1, ..cfg }.validate();
    assert_eq!(r, Err(ConfigError::BadBlockSize));
    let r = Config { bass_cutoff: 100, ..cfg }.validate();
    assert_eq!(r, Err(ConfigError::BassCutoffBelowMargin));
    let r = Config { bass_cutoff: 3900, ..cfg }.validate();
    assert_eq!(r, Err(ConfigError::CutoffsOutOfOrder));
    let r = Config { high_cutoff: 19800, ..cfg }.validate();
    assert_eq!(r, Err(ConfigError::CutoffTooHigh));
    let r = Config { sample_rate: 7000, ..cfg }.validate();
    assert_eq!(r, Err(ConfigError::CutoffTooHigh));
    let r = Config { reference_db: 0, ..cfg }.validate();
    assert_eq!(r, Err(ConfigError::ZeroReferenceDb));
    let r = Config { led_count: 0, ..cfg }.validate();
    assert_eq!(r, Err(ConfigError::BadLedCount));
    let r = Config { led_count: 70000, ..cfg }.validate();
    assert_eq!(r, Err(ConfigError::BadLedCount));
}

#[test]
fn other_rates_and_blocks_validate_and_bin() {
    let cfg = Config { sample_rate: 44100, block_size: 2048, ..Config::default_config() };
    assert!(cfg.validate().is_ok());
    // 410 Hz * 2048 / 44100 = 19.04, rounding to bin 19.
    assert_eq!(cfg.freq_to_bin(410), 19);
    // 3800 Hz * 2048 / 44100 = 176.47, rounding down to bin 176.
    assert_eq!(cfg.freq_to_bin(3800), 176);
}

#[test]
fn frequency_to_bin_rounds_to_nearest() {
    let cfg = default_cfg();
    // 410 Hz * 1024 / 48000 = 8.747, rounding to bin 9.
    assert_eq!(cfg.freq_to_bin(410), 9);
    // 3800 Hz * 1024 / 48000 = 81.07, rounding down to bin 81.
    assert_eq!(cfg.freq_to_bin(3800), 81);
    assert_eq!(cfg.freq_to_bin(0), 0);
    // One bin spans 46.875 Hz; 23 Hz is below the halfway point, 24 above.
    assert_eq!(cfg.freq_to_bin(23), 0);
    assert_eq!(cfg.freq_to_bin(24), 1);
}
