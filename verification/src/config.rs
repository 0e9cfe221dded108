//! The three tunables of the detector.
//!
//! The threshold and the deadband factor are fractions of one, held in
//! hundredths: the settings surface moves them in steps of 0.01, and the
//! stored file keeps two decimals. Levels, which are compared with them, are
//! held in ten-thousandths of full scale, so that the product of the two
//! tunables is a level without rounding.

use vstd::prelude::*;

verus! {

/// The value of a tunable that stands for 1.0.
pub const ONE: u8 = 100;

/// The level, in ten-thousandths of full scale, of one hundredth.
pub const LEVELS_PER_HUNDREDTH: u32 = 100;

/// The threshold of a fresh configuration: 0.12.
pub const DEFAULT_THRESHOLD: u8 = 12;

/// The deadband factor of a fresh configuration: 0.30.
pub const DEFAULT_DEADBAND: u8 = 30;

/// Application configuration, as the detector reads it.
#[derive(Clone, Copy, Debug, PartialEq, Eq, Structural)]
pub struct ChibiConfig {
    /// Loudness at which the microphone turns active, in hundredths of full
    /// scale.
    pub microphone_threshold: u8,
    /// Fraction of the threshold, in hundredths, below which an active
    /// microphone turns inactive again.
    pub deadband_factor: u8,
    /// Whether an active microphone is reported as a short pulse rather than
    /// held.
    pub flicker_input: bool,
}

impl ChibiConfig {
    /// Both tunables lie between 0.0 and 1.0.
    pub open spec fn in_range(&self) -> bool {
        self.microphone_threshold <= ONE && self.deadband_factor <= ONE
    }

    /// The level at and above which an inactive detector turns active.
    pub open spec fn on_level(&self) -> int {
        self.microphone_threshold * LEVELS_PER_HUNDREDTH
    }

    /// The level below which an active detector turns inactive: the
    /// threshold times the deadband factor.
    pub open spec fn off_level(&self) -> int {
        self.microphone_threshold * self.deadband_factor
    }

    /// A configuration with the given threshold and the default deadband
    /// factor, flicker off.
    pub fn new(microphone_threshold: u8) -> (config: Self)
        ensures
            config.microphone_threshold == microphone_threshold,
            config.deadband_factor == DEFAULT_DEADBAND,
            !config.flicker_input,
    {
        ChibiConfig {
            microphone_threshold,
            deadband_factor: DEFAULT_DEADBAND,
            flicker_input: false,
        }
    }

    /// The turn-on level as a number.
    pub fn turn_on_level(&self) -> (level: u32)
        ensures
            level == self.on_level(),
    {
        let threshold: u32 = self.microphone_threshold as u32;
        threshold * LEVELS_PER_HUNDREDTH
    }

    /// The turn-off level as a number.
    pub fn turn_off_level(&self) -> (level: u32)
        ensures
            level == self.off_level(),
    {
        let threshold: u32 = self.microphone_threshold as u32;
        let factor: u32 = self.deadband_factor as u32;
        assert(threshold * factor <= 255 * 255) by (nonlinear_arith)
            requires
                threshold <= 255,
                factor <= 255,
        ;
        threshold * factor
    }

    /// Whether both tunables lie between 0.0 and 1.0.
    pub fn is_in_range(&self) -> (ok: bool)
        ensures
            ok == self.in_range(),
    {
        self.microphone_threshold <= ONE && self.deadband_factor <= ONE
    }

    /// With a deadband factor of at most 1.0 the turn-off level never lies
    /// above the turn-on level, so the two levels bound a band in which the
    /// detector keeps its state.
    pub proof fn off_level_at_most_on_level(self)
        requires
            self.deadband_factor <= ONE,
        ensures
            0 <= self.off_level() <= self.on_level(),
    {
        assert(self.microphone_threshold * self.deadband_factor
            <= self.microphone_threshold * 100) by (nonlinear_arith)
            requires
                self.deadband_factor <= 100,
                self.microphone_threshold >= 0,
        ;
        assert(0 <= self.microphone_threshold * self.deadband_factor) by (nonlinear_arith)
            requires
                self.deadband_factor >= 0,
                self.microphone_threshold >= 0,
        ;
    }
}

impl Default for ChibiConfig {
    /// Threshold 0.12, deadband factor 0.30, flicker off.
    fn default() -> (config: Self)
        ensures
            config.microphone_threshold == DEFAULT_THRESHOLD,
            config.deadband_factor == DEFAULT_DEADBAND,
            !config.flicker_input,
    {
        ChibiConfig {
            microphone_threshold: DEFAULT_THRESHOLD,
            deadband_factor: DEFAULT_DEADBAND,
            flicker_input: false,
        }
    }
}

} // verus!
