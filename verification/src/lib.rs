//! Turns peaks of a live audio spectrum into a single RGB color and frames it
//! for an Adalight-style LED strip. The crate holds the value-level pipeline:
//! band peak extraction over decibel spectra, color smoothing, the device
//! protocol, and the output driver's state machine. Capturing audio, the
//! frequency transform, the floating-point shaping curves and the serial port
//! live outside, in the surrounding binary.

pub mod color;
pub mod config;
pub mod frame;
pub mod peak;
pub mod driver;
