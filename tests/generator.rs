use aps3200::generator::Aps3200ApuGenerator;
use aps3200::generator::ElectricalMetric;
use aps3200::generator::TelemetryValue;
use aps3200::turbine::Aps3200Turbine;
use aps3200::turbine::CurveSamples;
use aps3200::turbine::RandomDraws;
use aps3200::turbine::ShutdownAps3200Turbine;
use aps3200::turbine::Tick;
use aps3200::turbine::TurbineState;
use aps3200::units::FULL_N;

fn poly(coefficients: &[f64], x: f64) -> f64 {
    coefficients
        .iter()
        .enumerate()
        .map(|(i, c)| c * x.powi(i as i32))
        .sum()
}

const STARTING_N: [f64; 14] = [
    -0.08013606018640967,
    2.129832736394534,
    3.928273438786404,
    -1.88613299921213,
    0.42749452749180916,
    -0.05757707967690426,
    0.005022142795451004,
    -0.00029612873626050866,
    0.00001204152497871946,
    -0.00000033829604438116,
    0.00000000645140818528,
    -0.00000000007974743535,
    0.00000000000057654695,
    -0.00000000000000185126,
];

const STARTING_EGT: [f64; 14] = [
    -92.3417137705543,
    -14.36417426895237,
    12.210567963472547,
    -3.005504263233662,
    0.3808066398934025,
    -0.02679731462093699,
    0.001163901295794232,
    -0.0000332668380497951,
    0.00000064601180727581,
    -0.00000000859285727074,
    0.00000000007717119413,
    -0.00000000000044761099,
    0.00000000000000151429,
    -0.00000000000000000227,
];

const STOPPING_N: [f64; 12] = [
    100.22975364965701,
    -24.692008355859773,
    2.6116524551318787,
    0.006812541903222142,
    -0.03134644787752123,
    0.0036345606954833213,
    -0.00021794252200618456,
    0.00000798097055109138,
    -0.00000018481154462604,
    0.00000000264691628669,
    -0.00000000002143677577,
    0.00000000000007515448,
];

const STOPPING_EGT_DELTA: [f64; 13] = [
    -125.73137672208446,
    2.7141683591219037,
    -0.8102923071483102,
    0.08890509495240731,
    -0.003509532681984154,
    -0.00002709133732344767,
    0.00000749250123766767,
    -0.00000030306978045244,
    0.00000000641099706269,
    -0.00000000008068326110,
    0.00000000000060754088,
    -0.00000000000000253354,
    0.00000000000000000451,
];

const BLEED_AIR_RATE: [f64; 9] = [
    0.46763348242588143,
    0.43114440400626697,
    -0.11064487957454393,
    0.010414691679270397,
    -0.00045307219981909655,
    0.00001063664878607912,
    -0.00000013763963889674,
    0.00000000091837058563,
    -0.00000000000246054885,
];

const FREQUENCY: [f64; 14] = [
    1076894372064.8204,
    -118009165327.71873,
    5296044666.7118,
    -108419965.09400678,
    -36793.31899267512,
    62934.36386220135,
    -1870.5197158547767,
    31.376473743149806,
    -0.3510150716459761,
    0.002726493614147866,
    -0.00001463272647792659,
    0.00000005203375009496,
    -0.00000000011071318044,
    0.00000000000010697005,
];

fn micro(x: f64) -> i64 {
    (x * 1_000_000.).round() as i64
}

fn percent(n: u64) -> f64 {
    n as f64 / 1_000_000.
}

/// Drives a turbine and its generator tick by tick, reading the curves.
struct Tester {
    turbine: Option<Aps3200Turbine>,
    generator: Aps3200ApuGenerator,
    should_start: bool,
    should_stop: bool,
    emergency_shutdown: bool,
    draw: u64,
}

impl Tester {
    fn new() -> Tester {
        Tester {
            turbine: Some(Aps3200Turbine::Shutdown(ShutdownAps3200Turbine::new())),
            generator: Aps3200ApuGenerator::new(1),
            should_start: false,
            should_stop: false,
            emergency_shutdown: false,
            draw: 7,
        }
    }

    fn turbine(&self) -> &Aps3200Turbine {
        self.turbine.as_ref().unwrap()
    }

    fn starting_apu(mut self) -> Tester {
        self.should_start = true;
        self
    }

    fn running_apu(self) -> Tester {
        let mut tester = self.starting_apu();
        for _ in 0..10_000 {
            tester = tester.run(50);
            if tester.turbine().state() == TurbineState::Running {
                return tester;
            }
        }
        panic!("the turbine did not reach the running state");
    }

    fn released_apu_fire_pb(mut self) -> Tester {
        self.emergency_shutdown = true;
        self
    }

    fn next_draw(&mut self) -> u64 {
        self.draw = self.draw.wrapping_mul(6364136223846793005).wrapping_add(1442695040888963407);
        self.draw >> 33
    }

    fn run(mut self, elapsed_ms: u64) -> Tester {
        let turbine = self.turbine.take().unwrap();
        let state = turbine.state();
        let raw_n = match (state, turbine.speed_curve_point(elapsed_ms)) {
            (TurbineState::Starting, Some(t)) => micro(poly(&STARTING_N, t as f64 / 1000.).min(100.).max(0.)),
            (TurbineState::Stopping, Some(t)) => micro(poly(&STOPPING_N, t as f64 / 1000.).min(100.).max(0.)),
            _ => 0,
        };
        let n = percent(turbine.next_n(elapsed_ms, raw_n));
        let egt = match state {
            TurbineState::Starting => micro(poly(&STARTING_EGT, n)),
            TurbineState::Stopping => micro(poly(&STOPPING_EGT_DELTA, n)),
            _ => 0,
        };
        let bleed_air_rate = turbine
            .bleed_air_curve_point(false)
            .map(|d| micro(poly(&BLEED_AIR_RATE, d as f64 / 1_000_000.)))
            .unwrap_or(0);
        let tick = Tick {
            elapsed_ms,
            ambient: 15_000_000,
            should_start: self.should_start,
            should_stop: self.should_stop,
            apu_bleed_is_used: false,
            apu_gen_is_used: false,
        };
        let samples = CurveSamples { n: raw_n, egt, bleed_air_rate };
        let draws = RandomDraws {
            base_egt: self.next_draw(),
            bleed_air: self.next_draw(),
            generator_load: self.next_draw(),
        };
        assert!(turbine.is_in_range());
        let turbine = turbine.update(&tick, &samples, &draws);
        let n = turbine.n();
        let ramp_frequency = if n >= 84_000_000 && n < FULL_N {
            (poly(&FREQUENCY, percent(n)) * 1000.).round() as i64
        } else {
            0
        };
        let draw = self.next_draw();
        self.generator.update(elapsed_ms, n, self.emergency_shutdown, draw, ramp_frequency);
        self.turbine = Some(turbine);
        self
    }

    fn n(&self) -> u64 {
        self.turbine().n()
    }
}

fn update_above_threshold(generator: &mut Aps3200ApuGenerator) {
    generator.update(1000, FULL_N, false, 0, 0);
}

fn update_below_threshold(generator: &mut Aps3200ApuGenerator) {
    generator.update(1000, 0, false, 0, 0);
}

#[test]
fn starts_without_output() {
    assert!(Aps3200ApuGenerator::new(1).is_unpowered());
}

#[test]
fn when_apu_running_provides_output() {
    let mut generator = Aps3200ApuGenerator::new(1);
    update_below_threshold(&mut generator);
    update_above_threshold(&mut generator);

    assert!(generator.is_powered());
}

#[test]
fn when_apu_shutdown_provides_no_output() {
    let mut generator = Aps3200ApuGenerator::new(1);
    update_above_threshold(&mut generator);
    update_below_threshold(&mut generator);

    assert!(generator.is_unpowered());
}

#[test]
fn from_n_84_provides_voltage() {
    let mut tester = Tester::new().starting_apu();

    loop {
        tester = tester.run(50);

        let n = tester.n();
        if n > 84_000_000 {
            assert!(tester.generator.potential() > 0);
        }

        if n == FULL_N {
            break;
        }
    }
}

#[test]
fn from_n_84_has_frequency() {
    let mut tester = Tester::new().starting_apu();

    loop {
        tester = tester.run(50);

        let n = tester.n();
        if n > 84_000_000 {
            assert!(tester.generator.frequency() > 0);
        }

        if n == FULL_N {
            break;
        }
    }
}

#[test]
fn in_normal_conditions_when_n_100_voltage_114_or_115() {
    let mut tester = Tester::new().running_apu();

    for _ in 0..100 {
        tester = tester.run(50);

        let voltage = tester.generator.potential();
        assert!((114_000..=115_000).contains(&voltage));
    }
}

#[test]
fn in_normal_conditions_when_n_100_frequency_400() {
    let mut tester = Tester::new().running_apu();

    for _ in 0..100 {
        tester = tester.run(50);

        assert_eq!(tester.generator.frequency(), 400_000);
    }
}

#[test]
fn when_shutdown_frequency_not_normal() {
    let tester = Tester::new().run(1_000_000);

    assert!(!tester.generator.frequency_normal());
}

#[test]
fn when_running_frequency_normal() {
    let tester = Tester::new().running_apu().run(1_000_000);

    assert!(tester.generator.frequency_normal());
}

#[test]
fn when_shutdown_potential_not_normal() {
    let tester = Tester::new().run(1_000_000);

    assert!(!tester.generator.potential_normal());
}

#[test]
fn when_running_potential_normal() {
    let tester = Tester::new().running_apu().run(1_000_000);

    assert!(tester.generator.potential_normal());
}

#[test]
fn when_apu_emergency_shutdown_provides_no_output() {
    let tester = Tester::new().running_apu().released_apu_fire_pb().run(1000);

    assert!(tester.generator.output_potential().is_unpowered());
}

#[test]
fn writes_its_state() {
    let apu_gen = Aps3200ApuGenerator::new(1);
    let written: Vec<(String, TelemetryValue)> = apu_gen
        .write()
        .into_iter()
        .map(|(metric, value)| (format!("ELEC_APU_GEN_{}_{}", apu_gen.number(), metric.name()), value))
        .collect();

    assert_eq!(written.len(), 6);
    assert!(written.contains(&("ELEC_APU_GEN_1_POTENTIAL".to_string(), TelemetryValue::Number(0))));
    assert!(written.contains(&("ELEC_APU_GEN_1_POTENTIAL_NORMAL".to_string(), TelemetryValue::Flag(false))));
    assert!(written.contains(&("ELEC_APU_GEN_1_FREQUENCY".to_string(), TelemetryValue::Number(0))));
    assert!(written.contains(&("ELEC_APU_GEN_1_FREQUENCY_NORMAL".to_string(), TelemetryValue::Flag(false))));
    assert!(written.contains(&("ELEC_APU_GEN_1_LOAD".to_string(), TelemetryValue::Number(0))));
    assert!(written.contains(&("ELEC_APU_GEN_1_LOAD_NORMAL".to_string(), TelemetryValue::Flag(true))));
}

#[test]
fn metric_names_follow_the_published_convention() {
    assert_eq!(ElectricalMetric::Potential.name(), "POTENTIAL");
    assert_eq!(ElectricalMetric::FrequencyNormal.name(), "FREQUENCY_NORMAL");
    assert_eq!(ElectricalMetric::LoadNormal.name(), "LOAD_NORMAL");
}

#[test]
fn start_sequence_speed_never_falls_and_ends_running() {
    let mut tester = Tester::new().starting_apu();
    let mut last = 0;
    let mut ticks = 0;
    while tester.turbine().state() != TurbineState::Running {
        tester = tester.run(50);
        let n = tester.n();
        assert!(n >= last);
        assert!(n <= FULL_N);
        if n < FULL_N {
            assert_ne!(tester.turbine().state(), TurbineState::Running);
        }
        last = n;
        ticks += 1;
        assert!(ticks < 2000);
    }
    assert_eq!(tester.n(), FULL_N);
}

#[test]
fn stop_sequence_ends_shut_down_with_last_egt() {
    let mut tester = Tester::new().running_apu();
    tester.should_start = false;
    tester.should_stop = true;
    let mut last_stopping_egt = None;
    for _ in 0..2000 {
        let before = tester.turbine().state();
        tester = tester.run(50);
        match tester.turbine().state() {
            TurbineState::Stopping => last_stopping_egt = Some(tester.turbine().egt()),
            TurbineState::Shutdown => {
                assert_eq!(before, TurbineState::Stopping);
                assert_eq!(tester.n(), 0);
                assert!(last_stopping_egt.is_some());
                return;
            }
            other => panic!("unexpected state {:?}", other),
        }
    }
    panic!("the turbine did not shut down");
}

#[test]
fn emergency_shutdown_unpowers_at_full_speed() {
    let mut generator = Aps3200ApuGenerator::new(1);
    generator.update(50, FULL_N, false, 0, 0);
    assert!(generator.is_powered());
    generator.update(50, FULL_N, true, 0, 0);
    assert!(generator.is_unpowered());
    assert_eq!(generator.potential(), 0);
    assert_eq!(generator.frequency(), 0);
    assert_eq!(generator.current(), 0);
}

#[test]
fn generator_outputs_at_chosen_speeds() {
    let mut generator = Aps3200ApuGenerator::new(1);
    generator.update(50, 50_000_000, false, 0, 0);
    assert_eq!(generator.potential(), 0);
    assert_eq!(generator.frequency(), 0);
    assert!(!generator.potential_normal());
    assert!(!generator.frequency_normal());

    generator.update(50, 84_500_000, false, 0, 370_000);
    assert_eq!(generator.potential(), 105_000);
    assert_eq!(generator.frequency(), 370_000);
    assert_eq!(generator.current(), 782_600);
    assert!(!generator.potential_normal());
    assert!(!generator.frequency_normal());

    generator.update(50, 90_000_000, false, 0, 395_000);
    assert!((114_000..=115_000).contains(&generator.potential()));
    assert!(generator.potential_normal());
    assert!(generator.frequency_normal());

    generator.update(50, FULL_N, false, 0, 0);
    assert_eq!(generator.frequency(), 400_000);
    assert_eq!(generator.load(), 0);
    assert!(generator.load_normal());
}

#[test]
fn regulated_potential_follows_the_draw_once_a_second() {
    let mut generator = Aps3200ApuGenerator::new(1);
    generator.update(500, FULL_N, false, 1, 0);
    assert_eq!(generator.potential(), 114_000);
    generator.update(500, FULL_N, false, 1, 0);
    assert_eq!(generator.potential(), 115_000);
    generator.update(999, FULL_N, false, 0, 0);
    assert_eq!(generator.potential(), 115_000);
    generator.update(1, FULL_N, false, 5, 0);
    assert_eq!(generator.potential(), 114_000);
}

#[test]
fn normal_ranges_include_their_bounds() {
    let mut generator = Aps3200ApuGenerator::new(1);
    generator.update(50, 99_000_000, false, 0, 390_000);
    assert!(generator.frequency_normal());
    generator.update(50, 99_000_000, false, 0, 410_000);
    assert!(generator.frequency_normal());
    generator.update(50, 99_000_000, false, 0, 410_001);
    assert!(!generator.frequency_normal());
    generator.update(50, 99_000_000, false, 0, 389_999);
    assert!(!generator.frequency_normal());
}
