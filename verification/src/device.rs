//! Values that describe a physical scale: its identity, its calibration
//! and the pair of both that is stored and exchanged.

use vstd::prelude::*;

verus! {

/// Product line of a scale.
#[derive(Clone, Copy, Debug, PartialEq, Eq, Structural)]
pub enum Model {
    Bench,
    Floor,
    Pallet,
}

impl Model {
    /// The model's name as it appears in textual device identifiers.
    pub open spec fn name_text(self) -> Seq<char> {
        match self {
            Model::Bench => "Bench"@,
            Model::Floor => "Floor"@,
            Model::Pallet => "Pallet"@,
        }
    }

    /// Returns the model's name as it appears in textual device identifiers.
    pub fn name(&self) -> (text: &'static str)
        ensures
            text@ == self.name_text(),
    {
        match self {
            Model::Bench => "Bench",
            Model::Floor => "Floor",
            Model::Pallet => "Pallet",
        }
    }
}

/// Identity of one physical unit: product line and serial number.
///
/// Two identities are the same unit exactly when both fields agree.
#[derive(Clone, Copy, Debug, PartialEq, Eq, Structural)]
pub struct Device {
    pub model: Model,
    pub number: u64,
}

/// A measured or derived quantity, kept as the bit pattern of an IEEE-754
/// double.
///
/// The crate stores and forwards such values and never interprets them, so
/// infinities and NaNs pass through unchanged.
#[derive(Clone, Copy, Debug, PartialEq, Eq, Structural)]
pub struct Reading {
    pub bits: u64,
}

/// A span of time: whole seconds and the nanoseconds beyond them.
#[derive(Clone, Copy, Debug, PartialEq, Eq, Structural)]
pub struct Timeout {
    pub secs: u64,
    pub nanos: u32,
}

/// Calibration parameters of one scale.
#[derive(Clone, Copy, Debug, PartialEq, Eq, Structural)]
pub struct Config {
    /// Multiplier from raw transducer units to weight.
    pub gain: Reading,
    /// Weight subtracted after scaling.
    pub offset: Reading,
    /// Number of samples averaged into one settled reading.
    pub sample_count: usize,
    /// Longest wait for a settled reading.
    pub settle_timeout: Timeout,
}

impl Config {
    /// The configuration with `gain` and `offset` replaced and every other
    /// parameter kept.
    pub open spec fn recalibrated(self, gain: Reading, offset: Reading) -> Config {
        Config { gain, offset, ..self }
    }

    /// Returns the configuration with new linear coefficients; sampling
    /// parameters are kept.
    pub fn with_calibration(&self, gain: Reading, offset: Reading) -> (config: Config)
        ensures
            config == self.recalibrated(gain, offset),
    {
        Config {
            gain,
            offset,
            sample_count: self.sample_count,
            settle_timeout: self.settle_timeout,
        }
    }
}

/// A device together with its calibration: the unit of storage and of
/// exchange with the remote service.
#[derive(Clone, Copy, Debug, PartialEq, Eq, Structural)]
pub struct Libra {
    pub config: Config,
    pub device: Device,
}

} // verus!
