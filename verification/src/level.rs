//! How loud a block of samples is.
//!
//! A sample is a signed 16-bit number, 32767 standing for an amplitude of
//! 1.0. The loudness of a block is its root mean square, in ten-thousandths
//! of full scale and rounded down. Thresholds are whole numbers on that
//! scale, so rounding down changes no comparison with a threshold:
//! [`level_decides_exactly`] says so.

use vstd::prelude::*;

verus! {

/// The level of a block whose every sample has amplitude 1.0.
pub const FULL_SCALE: u32 = 10_000;

/// The sample that stands for an amplitude of 1.0.
pub const SAMPLE_ONE: i16 = 32767;

/// Why a block has no level.
#[derive(Clone, Copy, Debug, PartialEq, Eq, Structural)]
pub enum CaptureError {
    /// The block holds no sample, so it has no mean.
    EmptyBuffer,
}

/// The sum of the squares of the samples.
pub open spec fn square_sum(samples: Seq<i16>) -> nat
    decreases samples.len(),
{
    if samples.len() == 0 {
        0
    } else {
        square_sum(samples.drop_last()) + (samples.last() * samples.last()) as nat
    }
}

/// The energy of a block on the scale of levels: the squares of its samples,
/// each taken in ten-thousandths.
pub open spec fn scaled_energy(samples: Seq<i16>) -> int {
    square_sum(samples) * (FULL_SCALE * FULL_SCALE)
}

/// The energy that a block of the same length would have at level 1, were a
/// level not rounded: what a squared level is multiplied by to be compared
/// with [`scaled_energy`].
pub open spec fn energy_unit(samples: Seq<i16>) -> int {
    samples.len() * (SAMPLE_ONE * SAMPLE_ONE)
}

/// `level` is the root mean square of `samples`, in ten-thousandths of full
/// scale, rounded down: the mean of the squares lies between the square of
/// `level` and that of the next level. No number is the level of an empty
/// block.
pub open spec fn is_rms_level(samples: Seq<i16>, level: int) -> bool {
    &&& 0 <= level
    &&& level * level * energy_unit(samples) <= scaled_energy(samples)
    &&& scaled_energy(samples) < (level + 1) * (level + 1) * energy_unit(samples)
}

/// The level of a block; meaningful for a block that is not empty.
pub open spec fn rms_level(samples: Seq<i16>) -> int {
    choose|level: int| is_rms_level(samples, level)
}

/// Every sample of the block has the amplitude `amplitude`, with either sign.
pub open spec fn has_constant_amplitude(samples: Seq<i16>, amplitude: int) -> bool {
    forall|i: int|
        0 <= i < samples.len() ==> (#[trigger] samples[i] == amplitude || samples[i]
            == -amplitude)
}

proof fn squares_grow(a: int, b: int)
    requires
        0 <= a <= b,
    ensures
        a * a <= b * b,
{
    assert(a * a <= b * b) by (nonlinear_arith)
        requires
            0 <= a <= b,
    ;
}

proof fn products_grow(a: int, b: int, unit: int)
    requires
        a <= b,
        0 <= unit,
    ensures
        a * unit <= b * unit,
{
    assert(a * unit <= b * unit) by (nonlinear_arith)
        requires
            a <= b,
            0 <= unit,
    ;
}

/// A block has at most one level.
pub proof fn rms_level_is_unique(samples: Seq<i16>, first: int, second: int)
    requires
        is_rms_level(samples, first),
        is_rms_level(samples, second),
    ensures
        first == second,
{
    let unit = energy_unit(samples);
    assert(0 <= unit) by (nonlinear_arith)
        requires
            unit == samples.len() * (SAMPLE_ONE * SAMPLE_ONE),
    ;
    if first < second {
        squares_grow(first + 1, second);
        products_grow((first + 1) * (first + 1), second * second, unit);
    } else if second < first {
        squares_grow(second + 1, first);
        products_grow((second + 1) * (second + 1), first * first, unit);
    }
}

proof fn level_exists_from(samples: Seq<i16>, start: int)
    requires
        samples.len() > 0,
        0 <= start,
        start * start * energy_unit(samples) <= scaled_energy(samples),
    ensures
        exists|level: int| is_rms_level(samples, level),
    decreases scaled_energy(samples) - start,
{
    let unit = energy_unit(samples);
    let energy = scaled_energy(samples);
    assert(1 <= unit) by (nonlinear_arith)
        requires
            unit == samples.len() * (SAMPLE_ONE * SAMPLE_ONE),
            samples.len() > 0,
    ;
    if (start + 1) * (start + 1) * unit <= energy {
        assert(start + 1 <= (start + 1) * (start + 1) * unit) by (nonlinear_arith)
            requires
                0 <= start,
                1 <= unit,
        ;
        level_exists_from(samples, start + 1);
    } else {
        assert(is_rms_level(samples, start));
    }
}

/// Every block that is not empty has a level.
pub proof fn rms_level_exists(samples: Seq<i16>)
    requires
        samples.len() > 0,
    ensures
        is_rms_level(samples, rms_level(samples)),
{
    assert(0 <= scaled_energy(samples)) by (nonlinear_arith)
        requires
            scaled_energy(samples) == square_sum(samples) * (FULL_SCALE * FULL_SCALE),
    ;
    let unit = energy_unit(samples);
    assert(0 * 0 * unit == 0) by (nonlinear_arith);
    level_exists_from(samples, 0);
}

/// Whatever number is the level of a block is its [`rms_level`].
pub proof fn rms_level_is(samples: Seq<i16>, level: int)
    requires
        is_rms_level(samples, level),
    ensures
        rms_level(samples) == level,
{
    rms_level_is_unique(samples, level, rms_level(samples));
}

/// Rounding the level down loses nothing against a whole threshold: the
/// level reaches `threshold` exactly when the unrounded root mean square
/// does, that is when the mean of the squares reaches the threshold's square.
pub proof fn level_decides_exactly(samples: Seq<i16>, threshold: int)
    requires
        samples.len() > 0,
        0 <= threshold,
    ensures
        rms_level(samples) >= threshold <==> scaled_energy(samples) >= threshold * threshold
            * energy_unit(samples),
{
    rms_level_exists(samples);
    let level = rms_level(samples);
    let unit = energy_unit(samples);
    assert(0 <= unit) by (nonlinear_arith)
        requires
            unit == samples.len() * (SAMPLE_ONE * SAMPLE_ONE),
    ;
    if level >= threshold {
        squares_grow(threshold, level);
        products_grow(threshold * threshold, level * level, unit);
    } else {
        squares_grow(level + 1, threshold);
        products_grow((level + 1) * (level + 1), threshold * threshold, unit);
    }
}

/// The squares of a block of constant amplitude add up to the square of the
/// amplitude, once for each sample.
pub proof fn square_sum_of_constant_amplitude(samples: Seq<i16>, amplitude: int)
    requires
        has_constant_amplitude(samples, amplitude),
    ensures
        square_sum(samples) == samples.len() * (amplitude * amplitude),
    decreases samples.len(),
{
    if samples.len() > 0 {
        let front = samples.drop_last();
        assert forall|i: int| 0 <= i < front.len() implies (#[trigger] front[i] == amplitude
            || front[i] == -amplitude) by {
            assert(front[i] == samples[i]);
        }
        square_sum_of_constant_amplitude(front, amplitude);
        let last = samples.last();
        assert(last == samples[samples.len() - 1]);
        assert(last * last == amplitude * amplitude) by (nonlinear_arith)
            requires
                last == amplitude || last == -amplitude,
        ;
        assert(0 <= amplitude * amplitude) by (nonlinear_arith);
        assert(samples.len() * (amplitude * amplitude) == front.len() * (amplitude * amplitude)
            + amplitude * amplitude) by (nonlinear_arith)
            requires
                samples.len() == front.len() + 1,
        ;
    } else {
        assert(samples.len() * (amplitude * amplitude) == 0) by (nonlinear_arith)
            requires
                samples.len() == 0,
        ;
    }
}

/// A block of constant amplitude is as loud as one sample of it: its level is
/// the amplitude in ten-thousandths of full scale, rounded down.
pub proof fn rms_level_of_constant_amplitude(samples: Seq<i16>, amplitude: int)
    requires
        samples.len() > 0,
        0 <= amplitude,
        has_constant_amplitude(samples, amplitude),
    ensures
        is_rms_level(samples, amplitude * FULL_SCALE / (SAMPLE_ONE as int)),
        rms_level(samples) == amplitude * FULL_SCALE / (SAMPLE_ONE as int),
{
    square_sum_of_constant_amplitude(samples, amplitude);
    let n = samples.len() as int;
    let scaled = amplitude * 10000;
    let level = scaled / 32767;
    assert(level * 32767 <= scaled < (level + 1) * 32767 && 0 <= level) by (nonlinear_arith)
        requires
            level == scaled / 32767,
            0 <= scaled,
    ;
    squares_grow(level * 32767, scaled);
    squares_grow(scaled + 1, (level + 1) * 32767);
    let low = level * level * (n * (32767 * 32767));
    let mid = (n * (amplitude * amplitude)) * (10000 * 10000);
    let high = (level + 1) * (level + 1) * (n * (32767 * 32767));
    assert(low <= mid) by (nonlinear_arith)
        requires
            (level * 32767) * (level * 32767) <= scaled * scaled,
            scaled == amplitude * 10000,
            n > 0,
            low == level * level * (n * (32767 * 32767)),
            mid == (n * (amplitude * amplitude)) * (10000 * 10000),
    ;
    assert(mid < high) by (nonlinear_arith)
        requires
            (scaled + 1) * (scaled + 1) <= ((level + 1) * 32767) * ((level + 1) * 32767),
            scaled == amplitude * 10000,
            0 <= scaled,
            n > 0,
            high == (level + 1) * (level + 1) * (n * (32767 * 32767)),
            mid == (n * (amplitude * amplitude)) * (10000 * 10000),
    ;
    assert(is_rms_level(samples, level));
    rms_level_is(samples, level);
}

/// The largest number whose square is at most `value`.
pub fn integer_sqrt(value: u64) -> (root: u32)
    ensures
        root * root <= value < (root + 1) * (root + 1),
{
    let mut low: u64 = 0;
    let mut high: u64 = 0x1_0000_0000;
    assert(high * high > value) by (nonlinear_arith)
        requires
            high == 0x1_0000_0000,
            value <= u64::MAX,
    ;
    while high - low > 1
        invariant
            low < high <= 0x1_0000_0000,
            low * low <= value < high * high,
        decreases high - low,
    {
        let middle: u64 = low + (high - low) / 2;
        assert(middle * middle <= 0xFFFF_FFFF * 0xFFFF_FFFF) by (nonlinear_arith)
            requires
                middle <= 0xFFFF_FFFF,
        ;
        if middle * middle <= value {
            low = middle;
        } else {
            high = middle;
        }
    }
    low as u32
}

/// The sum of the squares of the samples, as a number.
pub fn sum_of_squares(samples: &[i16]) -> (total: u128)
    ensures
        total == square_sum(samples@),
        total <= samples@.len() * 0x4000_0000,
{
    let n: usize = samples.len();
    let mut total: u128 = 0;
    let mut i: usize = 0;
    while i < n
        invariant
            i <= n,
            n == samples@.len(),
            total == square_sum(samples@.take(i as int)),
            total <= i * 0x4000_0000,
        decreases n - i,
    {
        let sample: i64 = samples[i] as i64;
        assert(0 <= sample * sample <= 0x4000_0000) by (nonlinear_arith)
            requires
                -0x8000 <= sample <= 0x7FFF,
        ;
        let square: i64 = sample * sample;
        proof {
            let next = samples@.take(i + 1);
            assert(next.drop_last() =~= samples@.take(i as int));
            assert(next.last() == samples@[i as int]);
        }
        total = total + square as u128;
        i = i + 1;
    }
    proof {
        assert(samples@.take(n as int) =~= samples@);
    }
    total
}

/// The level of a block: its root mean square in ten-thousandths of full
/// scale, rounded down. An empty block has no mean and is refused.
pub fn block_level(samples: &[i16]) -> (result: Result<u32, CaptureError>)
    ensures
        samples@.len() == 0 <==> result == Err::<u32, CaptureError>(CaptureError::EmptyBuffer),
        samples@.len() > 0 <==> result is Ok,
        result matches Ok(level) ==> {
            &&& is_rms_level(samples@, level as int)
            &&& level == rms_level(samples@)
            &&& level <= FULL_SCALE
        },
{
    let n: usize = samples.len();
    if n == 0 {
        return Err(CaptureError::EmptyBuffer);
    }
    let total: u128 = sum_of_squares(samples);
    let count: u128 = n as u128;
    assert(total * 100_000_000 <= count * 0x4000_0000 * 100_000_000) by (nonlinear_arith)
        requires
            total <= count * 0x4000_0000,
    ;
    assert(count * 0x4000_0000 * 100_000_000 < 100_020_001 * (count * 1_073_676_289)
        && count * 1_073_676_289 <= 0xFFFF_FFFF_FFFF_FFFF * 1_073_676_289
        && 0 < count * 1_073_676_289) by (nonlinear_arith)
        requires
            0 < count <= 0xFFFF_FFFF_FFFF_FFFF,
    ;
    let energy: u128 = total * 100_000_000;
    let unit: u128 = count * 1_073_676_289;
    let mean: u128 = energy / unit;
    assert(mean * unit <= energy < (mean + 1) * unit && mean < 100_020_001) by (nonlinear_arith)
        requires
            mean == energy / unit,
            0 < unit,
            0 <= energy < 100_020_001 * unit,
    ;
    let root: u32 = integer_sqrt(mean as u64);
    proof {
        let level = root as int;
        assert(level * level * unit <= energy) by (nonlinear_arith)
            requires
                level * level <= mean,
                mean * unit <= energy,
                0 < unit,
        ;
        assert(energy < (level + 1) * (level + 1) * unit) by (nonlinear_arith)
            requires
                mean + 1 <= (level + 1) * (level + 1),
                energy < (mean + 1) * unit,
                0 < unit,
        ;
        assert(energy == scaled_energy(samples@));
        assert(unit == energy_unit(samples@));
        rms_level_is(samples@, level);
        assert(level <= 10000) by (nonlinear_arith)
            requires
                level * level <= mean,
                mean < 100_020_001,
                0 <= level,
        ;
    }
    Ok(root)
}

} // verus!
