//! What holds of the detector whatever it is shown.

use vstd::prelude::*;

use crate::config::{ChibiConfig, ONE};
use crate::detector::{
    active_frames, emitted, events_for, events_of_run, next_active, plan_for, state_after,
};
use crate::level::{
    energy_unit, has_constant_amplitude, level_decides_exactly, rms_level,
    rms_level_of_constant_amplitude, scaled_energy, SAMPLE_ONE,
};

verus! {

/// The detector decides as if the level were not rounded: an inactive one
/// turns active exactly when the mean of the squares reaches the square of
/// the turn-on level, and an active one stays active exactly when it reaches
/// the square of the turn-off level.
pub proof fn decisions_are_exact(samples: Seq<i16>, config: ChibiConfig)
    requires
        samples.len() > 0,
    ensures
        next_active(false, rms_level(samples), config) <==> scaled_energy(samples)
            >= config.on_level() * config.on_level() * energy_unit(samples),
        next_active(true, rms_level(samples), config) <==> scaled_energy(samples)
            >= config.off_level() * config.off_level() * energy_unit(samples),
{
    assert(0 <= config.off_level()) by (nonlinear_arith)
        requires
            config.off_level() == config.microphone_threshold * config.deadband_factor,
    ;
    level_decides_exactly(samples, config.on_level());
    level_decides_exactly(samples, config.off_level());
}

/// A block of zeros has level 0.
pub proof fn silence_has_level_zero(samples: Seq<i16>)
    requires
        samples.len() > 0,
        has_constant_amplitude(samples, 0),
    ensures
        rms_level(samples) == 0,
{
    rms_level_of_constant_amplitude(samples, 0);
}

/// Silence leaves an inactive detector inactive, whatever the deadband factor
/// and the flicker mode, as long as the threshold is above zero. (A threshold
/// of zero is reached by every block, silence included.)
pub proof fn silence_keeps_inactive(samples: Seq<i16>, config: ChibiConfig)
    requires
        samples.len() > 0,
        has_constant_amplitude(samples, 0),
        config.microphone_threshold > 0,
    ensures
        !next_active(false, rms_level(samples), config),
{
    silence_has_level_zero(samples);
    assert(config.microphone_threshold * 100 > 0);
}

/// Silence turns an active detector inactive as long as the turn-off level is
/// above zero.
pub proof fn silence_turns_inactive(samples: Seq<i16>, config: ChibiConfig)
    requires
        samples.len() > 0,
        has_constant_amplitude(samples, 0),
        config.off_level() > 0,
    ensures
        !next_active(true, rms_level(samples), config),
{
    silence_has_level_zero(samples);
}

/// A block of constant amplitude turns an inactive detector active exactly
/// when the amplitude, as a fraction of full scale, is at least the
/// threshold, as a fraction of one.
pub proof fn constant_amplitude_turns_on(samples: Seq<i16>, amplitude: int, config: ChibiConfig)
    requires
        samples.len() > 0,
        0 <= amplitude,
        has_constant_amplitude(samples, amplitude),
    ensures
        next_active(false, rms_level(samples), config) <==> amplitude * ONE
            >= config.microphone_threshold * SAMPLE_ONE,
{
    rms_level_of_constant_amplitude(samples, amplitude);
    let scaled = amplitude * 10000;
    let level = scaled / 32767;
    let threshold = config.microphone_threshold as int;
    assert(level == rms_level(samples));
    assert(level * 32767 <= scaled < (level + 1) * 32767) by (nonlinear_arith)
        requires
            level == scaled / 32767,
            0 <= scaled,
    ;
    assert(level >= threshold * 100 <==> scaled >= threshold * 100 * 32767) by (nonlinear_arith)
        requires
            level * 32767 <= scaled < (level + 1) * 32767,
    ;
    assert(scaled >= threshold * 100 * 32767 <==> amplitude * 100 >= threshold * 32767)
        by (nonlinear_arith)
        requires
            scaled == amplitude * 10000,
    ;
}

/// An active detector stays active on every block at or above the turn-off
/// level, and on no other: it turns inactive only when the level falls
/// strictly below that level.
pub proof fn active_holds_down_to_off_level(level: int, config: ChibiConfig)
    ensures
        level >= config.off_level() ==> next_active(true, level, config),
        level < config.off_level() ==> !next_active(true, level, config),
{
}

/// Blocks whose levels all lie in the band from the turn-off level up to, but
/// not at, the turn-on level never change the state, however many they are.
pub proof fn band_keeps_state(start: bool, levels: Seq<int>, config: ChibiConfig)
    requires
        forall|i: int|
            0 <= i < levels.len() ==> config.off_level() <= #[trigger] levels[i]
                < config.on_level(),
    ensures
        state_after(start, levels, config) == start,
    decreases levels.len(),
{
    if levels.len() > 0 {
        band_keeps_state(start, levels.drop_last(), config);
    }
}

/// Of two detectors that differ only in their threshold and are shown the
/// same blocks from the inactive state, the one with the higher threshold is
/// active only where the other is: it turns active no earlier, and is active
/// in no more blocks.
pub proof fn higher_threshold_is_less_active(
    levels: Seq<int>,
    lower: ChibiConfig,
    higher: ChibiConfig,
)
    requires
        lower.microphone_threshold <= higher.microphone_threshold,
        lower.deadband_factor == higher.deadband_factor,
        lower.deadband_factor <= ONE,
    ensures
        state_after(false, levels, higher) ==> state_after(false, levels, lower),
        forall|count: int|
            0 <= count <= levels.len() && #[trigger] state_after(
                false,
                levels.take(count),
                higher,
            ) ==> state_after(false, levels.take(count), lower),
        active_frames(false, levels, higher) <= active_frames(false, levels, lower),
    decreases levels.len(),
{
    lower.off_level_at_most_on_level();
    assert(lower.on_level() <= higher.on_level());
    assert(lower.off_level() <= higher.off_level()) by (nonlinear_arith)
        requires
            lower.microphone_threshold <= higher.microphone_threshold,
            lower.deadband_factor == higher.deadband_factor,
            lower.off_level() == lower.microphone_threshold * lower.deadband_factor,
            higher.off_level() == higher.microphone_threshold * higher.deadband_factor,
    ;
    if levels.len() > 0 {
        higher_threshold_is_less_active(levels.drop_last(), lower, higher);
    }
    assert forall|count: int|
        0 <= count <= levels.len() && #[trigger] state_after(
            false,
            levels.take(count),
            higher,
        ) implies state_after(false, levels.take(count), lower) by {
        if count == levels.len() {
            assert(levels.take(count) =~= levels);
        } else {
            assert(levels.take(count) =~= levels.drop_last().take(count));
        }
    }
}

/// The events among the actions planned for a block are the events that the
/// block gives rise to, whatever the pause.
pub proof fn plan_emits_events(active: bool, flicker: bool, pause_ms: u64)
    ensures
        emitted(plan_for(active, flicker, pause_ms)) == events_for(active, flicker),
{
    let actions = plan_for(active, flicker, pause_ms);
    reveal_with_fuel(emitted, 4);
    if !active {
        assert(actions.drop_last() =~= Seq::empty());
        assert(emitted(actions) =~= seq![false]);
    } else if flicker {
        let two = actions.drop_last();
        let one = two.drop_last();
        assert(one.drop_last() =~= Seq::empty());
        assert(emitted(one) =~= seq![true]);
        assert(emitted(two) =~= seq![true]);
        assert(emitted(actions) =~= seq![true, false]);
    } else {
        assert(actions.drop_last() =~= Seq::empty());
        assert(emitted(actions) =~= seq![true]);
    }
}

/// While every block is at least as loud as the threshold, the detector is
/// active after each of them, from whichever state it started.
pub proof fn sustained_input_is_active(start: bool, levels: Seq<int>, config: ChibiConfig)
    requires
        config.deadband_factor <= ONE,
        levels.len() > 0,
        forall|i: int| 0 <= i < levels.len() ==> #[trigger] levels[i] >= config.on_level(),
    ensures
        state_after(start, levels, config),
{
    config.off_level_at_most_on_level();
    assert(levels.last() == levels[levels.len() - 1]);
}

/// While every block is at least as loud as the threshold, a detector in
/// flicker mode gives a `true` and then a `false` for each block, so that the
/// events alternate; one not in flicker mode gives one `true` for each block
/// and no `false` at all.
pub proof fn sustained_input_events(start: bool, levels: Seq<int>, config: ChibiConfig)
    requires
        config.deadband_factor <= ONE,
        forall|i: int| 0 <= i < levels.len() ==> #[trigger] levels[i] >= config.on_level(),
    ensures
        config.flicker_input ==> {
            &&& events_of_run(start, levels, config).len() == 2 * levels.len()
            &&& forall|j: int|
                0 <= j < 2 * levels.len() ==> #[trigger] events_of_run(start, levels, config)[j]
                    == (j % 2 == 0)
        },
        !config.flicker_input ==> {
            &&& events_of_run(start, levels, config).len() == levels.len()
            &&& forall|j: int|
                0 <= j < levels.len() ==> #[trigger] events_of_run(start, levels, config)[j]
        },
    decreases levels.len(),
{
    if levels.len() > 0 {
        sustained_input_events(start, levels.drop_last(), config);
        sustained_input_is_active(start, levels, config);
    }
}

} // verus!
