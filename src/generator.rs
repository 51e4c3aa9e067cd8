//! The generator driven by the turbine: potential, frequency and current
//! derived from turbine speed.
use vstd::prelude::*;

use crate::jitter::JitterSampler;
use crate::units::FULL_N;

verus! {

/// Speed from which the generator is powered, in millionths of a percent.
pub const APU_GEN_POWERED_N: u64 = 84_000_000;

/// Speed from which the potential is the regulated (jittered) value.
pub const REGULATED_POTENTIAL_N: u64 = 85_000_000;

/// Potential between [`APU_GEN_POWERED_N`] and [`REGULATED_POTENTIAL_N`], in millivolts.
pub const RAMP_POTENTIAL_MV: u64 = 105_000;

/// Frequency at full speed, in millihertz.
pub const NOMINAL_FREQUENCY_MHZ: i64 = 400_000;

/// Current drawn while powered, in milliamperes.
pub const NOMINAL_CURRENT_MA: u64 = 782_600;

/// Interval at which the regulated potential is resampled.
pub const POTENTIAL_JITTER_INTERVAL_MS: u64 = 1000;

/// Whether a potential (millivolts) is within the normal range of 110 V to 120 V.
pub open spec fn potential_normal_spec(potential_mv: u64) -> bool {
    110_000 <= potential_mv <= 120_000
}

/// Whether a frequency (millihertz) is within the normal range of 390 Hz to 410 Hz.
pub open spec fn frequency_normal_spec(frequency_mhz: i64) -> bool {
    390_000 <= frequency_mhz <= 410_000
}

/// Whether the generator is powered at speed `n` with the given emergency
/// shutdown flag.
pub open spec fn powered_spec(n: u64, is_emergency_shutdown: bool) -> bool {
    n >= APU_GEN_POWERED_N && !is_emergency_shutdown
}

/// The potential candidates, in millivolts: mostly 115 V, sometimes 114 V.
pub open spec fn potential_candidates() -> Seq<u64> {
    seq![114_000, 115_000, 115_000, 115_000, 115_000]
}

/// The source of potential a consumer sees.
#[derive(PartialEq, Eq, Structural, Clone, Copy, Debug)]
pub enum Potential {
    Unpowered,
    ApuGenerator(usize),
}

impl Potential {
    pub fn is_powered(&self) -> (r: bool)
        ensures
            r == !(self is Unpowered),
    {
        !matches!(self, Potential::Unpowered)
    }

    pub fn is_unpowered(&self) -> (r: bool)
        ensures
            r == (self is Unpowered),
    {
        matches!(self, Potential::Unpowered)
    }
}

/// The quantities the generator publishes each tick.
#[derive(PartialEq, Eq, Structural, Clone, Copy, Debug)]
pub enum ElectricalMetric {
    Potential,
    PotentialNormal,
    Frequency,
    FrequencyNormal,
    Load,
    LoadNormal,
}

/// A published value: a fixed-point quantity in the metric's unit, or a flag.
#[derive(PartialEq, Eq, Structural, Clone, Copy, Debug)]
pub enum TelemetryValue {
    Number(i64),
    Flag(bool),
}

impl ElectricalMetric {
    pub open spec fn name_spec(&self) -> Seq<char> {
        match self {
            ElectricalMetric::Potential => "POTENTIAL"@,
            ElectricalMetric::PotentialNormal => "POTENTIAL_NORMAL"@,
            ElectricalMetric::Frequency => "FREQUENCY"@,
            ElectricalMetric::FrequencyNormal => "FREQUENCY_NORMAL"@,
            ElectricalMetric::Load => "LOAD"@,
            ElectricalMetric::LoadNormal => "LOAD_NORMAL"@,
        }
    }

    /// The metric's part of a published variable's name
    /// (`ELEC_<generator>_<metric>`, the generator being `APU_GEN_<number>`).
    pub fn name(&self) -> (r: &'static str)
        ensures
            r@ == self.name_spec(),
    {
        match self {
            ElectricalMetric::Potential => "POTENTIAL",
            ElectricalMetric::PotentialNormal => "POTENTIAL_NORMAL",
            ElectricalMetric::Frequency => "FREQUENCY",
            ElectricalMetric::FrequencyNormal => "FREQUENCY_NORMAL",
            ElectricalMetric::Load => "LOAD",
            ElectricalMetric::LoadNormal => "LOAD_NORMAL",
        }
    }
}

/// APS3200 APU generator.
pub struct Aps3200ApuGenerator {
    number: usize,
    output: Potential,
    random_voltage: JitterSampler,
    /// Milliamperes.
    current: u64,
    /// Millivolts.
    potential: u64,
    /// Millihertz.
    frequency: i64,
}

impl Aps3200ApuGenerator {
    pub closed spec fn wf(&self) -> bool {
        &&& self.random_voltage.wf()
        &&& self.random_voltage.candidates@ == potential_candidates()
        &&& self.random_voltage.interval_ms == POTENTIAL_JITTER_INTERVAL_MS
        &&& (self.output is Unpowered ==> self.current == 0 && self.potential == 0 && self.frequency == 0)
    }

    pub closed spec fn number_spec(&self) -> usize {
        self.number
    }

    pub closed spec fn output_spec(&self) -> Potential {
        self.output
    }

    pub closed spec fn current_spec(&self) -> u64 {
        self.current
    }

    pub closed spec fn potential_spec(&self) -> u64 {
        self.potential
    }

    pub closed spec fn frequency_spec(&self) -> i64 {
        self.frequency
    }

    /// The regulated potential sampler.
    pub closed spec fn jitter(&self) -> JitterSampler {
        self.random_voltage
    }

    pub open spec fn powered(&self) -> bool {
        !(self.output_spec() is Unpowered)
    }

    /// Generator `number`, unpowered.
    pub fn new(number: usize) -> (r: Aps3200ApuGenerator)
        ensures
            r.wf(),
            r.number_spec() == number,
            r.output_spec() == Potential::Unpowered,
            r.current_spec() == 0,
            r.potential_spec() == 0,
            r.frequency_spec() == 0,
    {
        let candidates: Vec<u64> = vec![114_000, 115_000, 115_000, 115_000, 115_000];
        let random_voltage = JitterSampler::new(POTENTIAL_JITTER_INTERVAL_MS, candidates);
        assert(random_voltage.candidates@ == potential_candidates());
        Aps3200ApuGenerator {
            number,
            output: Potential::Unpowered,
            random_voltage,
            current: 0,
            potential: 0,
            frequency: 0,
        }
    }

    /// Potential while powered: 105 V below 85%, the regulated value above.
    fn calculate_potential(&self, n: u64) -> (r: u64)
        requires
            self.wf(),
            n >= APU_GEN_POWERED_N,
        ensures
            r == if n < REGULATED_POTENTIAL_N { RAMP_POTENTIAL_MV } else { self.jitter().value() },
    {
        if n < REGULATED_POTENTIAL_N {
            RAMP_POTENTIAL_MV
        } else {
            self.random_voltage.current_value()
        }
    }

    /// Frequency while powered: the ramp curve's value below 100%, 400 Hz at
    /// 100%.
    fn calculate_frequency(n: u64, ramp_frequency: i64) -> (r: i64)
        requires
            n >= APU_GEN_POWERED_N,
        ensures
            r == if n < FULL_N { ramp_frequency } else { NOMINAL_FREQUENCY_MHZ },
    {
        if n < FULL_N {
            ramp_frequency
        } else {
            NOMINAL_FREQUENCY_MHZ
        }
    }

    /// Derives the outputs from speed `n` and the emergency shutdown flag.
    /// `draw` picks the regulated potential when it is resampled;
    /// `ramp_frequency` is the frequency ramp curve at `n` (millihertz), used
    /// from 84% up to 100%.
    pub fn update(&mut self, elapsed_ms: u64, n: u64, is_emergency_shutdown: bool, draw: u64, ramp_frequency: i64)
        requires
            old(self).wf(),
        ensures
            final(self).wf(),
            final(self).number_spec() == old(self).number_spec(),
            final(self).jitter().interval_ms == old(self).jitter().interval_ms,
            final(self).jitter().candidates@ == old(self).jitter().candidates@,
            final(self).jitter().selected == old(self).jitter().stepped_selected(elapsed_ms, draw),
            final(self).jitter().elapsed_ms == old(self).jitter().stepped_elapsed(elapsed_ms),
            final(self).output_spec() == if powered_spec(n, is_emergency_shutdown) {
                Potential::ApuGenerator(old(self).number_spec())
            } else {
                Potential::Unpowered
            },
            is_emergency_shutdown ==> !final(self).powered(),
            final(self).current_spec() == if powered_spec(n, is_emergency_shutdown) { NOMINAL_CURRENT_MA } else { 0 },
            final(self).potential_spec() == if !powered_spec(n, is_emergency_shutdown) {
                0
            } else if n < REGULATED_POTENTIAL_N {
                RAMP_POTENTIAL_MV
            } else {
                final(self).jitter().value()
            },
            final(self).frequency_spec() == if !powered_spec(n, is_emergency_shutdown) {
                0
            } else if n < FULL_N {
                ramp_frequency
            } else {
                NOMINAL_FREQUENCY_MHZ
            },
    {
        self.random_voltage.update(elapsed_ms, draw);
        self.output = if is_emergency_shutdown || n < APU_GEN_POWERED_N {
            Potential::Unpowered
        } else {
            Potential::ApuGenerator(self.number)
        };
        let powered = self.is_powered();
        self.current = if powered { NOMINAL_CURRENT_MA } else { 0 };
        self.potential = if powered { self.calculate_potential(n) } else { 0 };
        self.frequency = if powered { Self::calculate_frequency(n, ramp_frequency) } else { 0 };
    }

    pub fn number(&self) -> (r: usize)
        ensures
            r == self.number_spec(),
    {
        self.number
    }

    pub fn is_powered(&self) -> (r: bool)
        ensures
            r == self.powered(),
    {
        self.output.is_powered()
    }

    pub fn is_unpowered(&self) -> (r: bool)
        ensures
            r == !self.powered(),
    {
        self.output.is_unpowered()
    }

    /// Potential, in millivolts.
    pub fn potential(&self) -> (r: u64)
        ensures
            r == self.potential_spec(),
    {
        self.potential
    }

    pub fn potential_normal(&self) -> (r: bool)
        ensures
            r == potential_normal_spec(self.potential_spec()),
    {
        110_000 <= self.potential && self.potential <= 120_000
    }

    /// Frequency, in millihertz.
    pub fn frequency(&self) -> (r: i64)
        ensures
            r == self.frequency_spec(),
    {
        self.frequency
    }

    pub fn frequency_normal(&self) -> (r: bool)
        ensures
            r == frequency_normal_spec(self.frequency_spec()),
    {
        390_000 <= self.frequency && self.frequency <= 410_000
    }

    /// Current, in milliamperes.
    pub fn current(&self) -> (r: u64)
        ensures
            r == self.current_spec(),
    {
        self.current
    }

    /// Load, in millionths of a percent; no load is modelled yet.
    pub fn load(&self) -> (r: u64)
        ensures
            r == 0,
    {
        0
    }

    /// No load is modelled yet, so the load is always normal.
    pub fn load_normal(&self) -> (r: bool)
        ensures
            r,
    {
        true
    }

    pub fn output_potential(&self) -> (r: Potential)
        ensures
            r == self.output_spec(),
    {
        self.output
    }

    /// The six values published each tick, in this order: potential,
    /// its normal flag, frequency, its normal flag, load, its normal flag.
    pub fn write(&self) -> (r: Vec<(ElectricalMetric, TelemetryValue)>)
        ensures
            r@ == seq![
                (ElectricalMetric::Potential, TelemetryValue::Number(self.potential_spec() as i64)),
                (ElectricalMetric::PotentialNormal, TelemetryValue::Flag(potential_normal_spec(self.potential_spec()))),
                (ElectricalMetric::Frequency, TelemetryValue::Number(self.frequency_spec())),
                (ElectricalMetric::FrequencyNormal, TelemetryValue::Flag(frequency_normal_spec(self.frequency_spec()))),
                (ElectricalMetric::Load, TelemetryValue::Number(0)),
                (ElectricalMetric::LoadNormal, TelemetryValue::Flag(true)),
            ],
    {
        let mut r: Vec<(ElectricalMetric, TelemetryValue)> = Vec::new();
        r.push((ElectricalMetric::Potential, TelemetryValue::Number(self.potential as i64)));
        r.push((ElectricalMetric::PotentialNormal, TelemetryValue::Flag(self.potential_normal())));
        r.push((ElectricalMetric::Frequency, TelemetryValue::Number(self.frequency)));
        r.push((ElectricalMetric::FrequencyNormal, TelemetryValue::Flag(self.frequency_normal())));
        r.push((ElectricalMetric::Load, TelemetryValue::Number(self.load() as i64)));
        r.push((ElectricalMetric::LoadNormal, TelemetryValue::Flag(self.load_normal())));
        r
    }
}

/// The regulated potential is always 114 V or 115 V, drawn from the
/// generator's candidate list.
pub proof fn lemma_regulated_potential_range(g: Aps3200ApuGenerator)
    requires
        g.wf(),
    ensures
        g.jitter().candidates@ == potential_candidates(),
        g.jitter().value() == 114_000 || g.jitter().value() == 115_000,
{
    let j = g.random_voltage;
    assert(0 <= j.selected < 5);
}

/// An unpowered generator has no potential, frequency or current, and
/// reports neither its potential nor its frequency as normal.
pub proof fn lemma_unpowered_readings_not_normal(g: Aps3200ApuGenerator)
    requires
        g.wf(),
        !g.powered(),
    ensures
        g.potential_spec() == 0,
        g.frequency_spec() == 0,
        g.current_spec() == 0,
        !potential_normal_spec(g.potential_spec()),
        !frequency_normal_spec(g.frequency_spec()),
{
}

} // verus!
