use freeverb::float::constant;
use freeverb::tuning::{
    fixed_gain, offset_room, scale_dampening, scale_room, scale_wet, ALLPASS_TUNING_L4,
    ALLPASS_TUNING_R4, COMB_TUNING_L1, COMB_TUNING_R1, COMB_TUNING_R8, STEREO_SPREAD,
};
use freeverb::{adjust_length, supports_rate, AllPass, Comb, DelayLine, Float, Freeverb, Ratio};
use std::ops::{Add, Div, Mul, Sub};

#[derive(Clone, Copy, Debug, PartialEq)]
struct F64(f64);

impl Add for F64 {
    type Output = F64;

    fn add(self, rhs: F64) -> F64 {
        F64(self.0 + rhs.0)
    }
}

impl Sub for F64 {
    type Output = F64;

    fn sub(self, rhs: F64) -> F64 {
        F64(self.0 - rhs.0)
    }
}

impl Mul for F64 {
    type Output = F64;

    fn mul(self, rhs: F64) -> F64 {
        F64(self.0 * rhs.0)
    }
}

impl Div for F64 {
    type Output = F64;

    fn div(self, rhs: F64) -> F64 {
        F64(self.0 / rhs.0)
    }
}

impl From<Ratio> for F64 {
    fn from(ratio: Ratio) -> F64 {
        F64(f64::from(ratio.num as f32 / ratio.den as f32))
    }
}

impl Float for F64 {
    fn log2(self) -> Self {
        F64(self.0.log2())
    }

    fn exp2(self) -> Self {
        F64(self.0.exp2())
    }

    fn rounded(self) -> String {
        format!("{:.0}", self.0)
    }
}

#[derive(Clone, Copy, Debug, PartialEq)]
struct F32(f32);

impl Add for F32 {
    type Output = F32;

    fn add(self, rhs: F32) -> F32 {
        F32(self.0 + rhs.0)
    }
}

impl Sub for F32 {
    type Output = F32;

    fn sub(self, rhs: F32) -> F32 {
        F32(self.0 - rhs.0)
    }
}

impl Mul for F32 {
    type Output = F32;

    fn mul(self, rhs: F32) -> F32 {
        F32(self.0 * rhs.0)
    }
}

impl Div for F32 {
    type Output = F32;

    fn div(self, rhs: F32) -> F32 {
        F32(self.0 / rhs.0)
    }
}

impl From<Ratio> for F32 {
    fn from(ratio: Ratio) -> F32 {
        F32(ratio.num as f32 / ratio.den as f32)
    }
}

impl Float for F32 {
    fn log2(self) -> Self {
        F32(self.0.log2())
    }

    fn exp2(self) -> Self {
        F32(self.0.exp2())
    }

    fn rounded(self) -> String {
        format!("{:.0}", self.0)
    }
}

fn pair(frame: (F64, F64)) -> (f64, f64) {
    ((frame.0).0, (frame.1).0)
}

#[test]
fn constants_are_the_fractions_they_name() {
    assert_eq!(constant::<F64>(1, 2), F64(0.5));
    assert_eq!(constant::<F64>(-3, 4), F64(-0.75));
    assert_eq!(constant::<F32>(0, 1), F32(0.0));
    assert_eq!(fixed_gain::<F32>(), F32(0.015));
    assert_eq!(scale_wet::<F32>(), F32(3.0));
    assert_eq!(scale_dampening::<F32>(), F32(0.4));
    assert_eq!(scale_room::<F32>(), F32(0.28));
    assert_eq!(offset_room::<F32>(), F32(0.7));
}

#[test]
fn right_hand_tunings_add_the_stereo_spread() {
    assert_eq!(STEREO_SPREAD, 23);
    assert_eq!(COMB_TUNING_R1, COMB_TUNING_L1 + 23);
    assert_eq!(COMB_TUNING_R8, 1640);
    assert_eq!(ALLPASS_TUNING_R4, ALLPASS_TUNING_L4 + 23);
}

fn round_trip(length: usize) {
    let mut line = DelayLine::<F32>::new(length);
    for i in 0..length {
        assert_eq!(line.read(), F32(0.0));
        line.write_and_advance(F32(i as f32));
    }
    for i in 0..length {
        assert_eq!(line.read(), F32(i as f32));
        line.write_and_advance(F32(0.0));
    }
}

#[test]
fn length_1() {
    round_trip(1);
}

#[test]
fn length_3() {
    round_trip(3);
}

#[test]
fn length_10() {
    round_trip(10);
}

#[test]
fn delay_line_reads_without_advancing() {
    let mut line = DelayLine::<F64>::new(2);
    line.write_and_advance(F64(7.0));
    line.write_and_advance(F64(9.0));
    assert_eq!(line.read(), F64(7.0));
    assert_eq!(line.read(), F64(7.0));
    line.write_and_advance(F64(1.0));
    assert_eq!(line.read(), F64(9.0));
}

#[test]
fn delay_line_full_cycle_returns_the_written_values() {
    let length = 5;
    let mut line = DelayLine::<F64>::new(length);
    line.write_and_advance(F64(-1.0));
    line.write_and_advance(F64(-2.0));
    let written = [11.0, 12.0, 13.0, 14.0, 15.0];
    for value in written {
        line.write_and_advance(F64(value));
    }
    let later = [21.0, 22.0, 23.0, 24.0, 25.0];
    for k in 0..length {
        assert_eq!(line.read(), F64(written[k]));
        line.write_and_advance(F64(later[k]));
    }
    assert_eq!(line.read(), F64(21.0));
}

#[test]
fn all_pass_basic_ticking() {
    let mut allpass = AllPass::<F64>::new(2);
    assert_eq!(allpass.tick(F64(1.0)), F64(-1.0));
    assert_eq!(allpass.tick(F64(0.0)), F64(0.0));
    assert_eq!(allpass.tick(F64(0.0)), F64(1.0));
    assert_eq!(allpass.tick(F64(0.0)), F64(0.0));
    assert_eq!(allpass.tick(F64(0.0)), F64(0.5));
    assert_eq!(allpass.tick(F64(0.0)), F64(0.0));
    assert_eq!(allpass.tick(F64(0.0)), F64(0.25));
}

#[test]
fn all_pass_subtracts_the_input_from_the_delayed_sample() {
    let mut allpass = AllPass::<F64>::new(1);
    assert_eq!(allpass.tick(F64(4.0)), F64(-4.0));
    assert_eq!(allpass.tick(F64(1.0)), F64(3.0));
    assert_eq!(allpass.tick(F64(0.0)), F64(3.0));
}

#[test]
fn comb_basic_ticking() {
    let mut comb = Comb::<F64>::new(2);
    assert_eq!(comb.tick(F64(1.0)), F64(0.0));
    assert_eq!(comb.tick(F64(0.0)), F64(0.0));
    assert_eq!(comb.tick(F64(0.0)), F64(1.0));
    assert_eq!(comb.tick(F64(0.0)), F64(0.0));
    assert_eq!(comb.tick(F64(0.0)), F64(0.25));
    assert_eq!(comb.tick(F64(0.0)), F64(0.125));
    assert_eq!(comb.tick(F64(0.0)), F64(0.125));
    assert_eq!(comb.tick(F64(0.0)), F64(0.09375));
}

#[test]
fn comb_dampening_sets_its_inverse_too() {
    let mut comb = Comb::<F64>::new(1);
    comb.set_feedback(F64(1.0));
    comb.set_dampening(F64(0.25));
    assert_eq!(comb.tick(F64(8.0)), F64(0.0));
    assert_eq!(comb.tick(F64(0.0)), F64(8.0));
    assert_eq!(comb.tick(F64(0.0)), F64(6.0));
    assert_eq!(comb.tick(F64(0.0)), F64(6.0));
}

#[test]
fn comb_feedback_scales_what_goes_back_in() {
    let mut comb = Comb::<F64>::new(1);
    comb.set_dampening(F64(0.0));
    comb.set_feedback(F64(0.5));
    assert_eq!(comb.tick(F64(8.0)), F64(0.0));
    assert_eq!(comb.tick(F64(0.0)), F64(8.0));
    assert_eq!(comb.tick(F64(0.0)), F64(4.0));
    assert_eq!(comb.tick(F64(0.0)), F64(2.0));
}

#[test]
fn frozen_comb_keeps_its_signal() {
    let mut comb = Comb::<F64>::new(3);
    comb.tick(F64(1.0));
    comb.tick(F64(2.0));
    comb.tick(F64(3.0));
    comb.set_feedback(F64(1.0));
    comb.set_dampening(F64(0.0));
    let first = [comb.tick(F64(0.0)), comb.tick(F64(0.0)), comb.tick(F64(0.0))];
    for _ in 0..1000 {
        let turn = [comb.tick(F64(0.0)), comb.tick(F64(0.0)), comb.tick(F64(0.0))];
        assert_eq!(turn, first);
    }
}

#[test]
fn check_adjust_length() {
    assert_eq!(adjust_length(1000, 44100), 1000);
    assert_eq!(adjust_length(100, 22050), 50);
    assert_eq!(adjust_length(2000, 88200), 4000);
    assert_eq!(adjust_length(4000, 96000), 8707);
}

#[test]
fn adjust_length_rounds_down_and_saturates() {
    assert_eq!(adjust_length(1, 44099), 0);
    assert_eq!(adjust_length(0, 44100), 0);
    assert_eq!(adjust_length(225, 195), 0);
    assert_eq!(adjust_length(225, 196), 1);
    assert_eq!(adjust_length(usize::MAX, 44100), usize::MAX);
    assert_eq!(adjust_length(usize::MAX, usize::MAX), usize::MAX);
}

#[test]
fn supported_rates_start_where_no_delay_line_is_empty() {
    assert!(!supports_rate(0));
    assert!(!supports_rate(195));
    assert!(supports_rate(196));
    assert!(supports_rate(44100));
    assert!(supports_rate(usize::MAX));
}

fn check_almost_equal(output: (F32, F32), expected: (f32, f32)) {
    let difference = (((output.0).0 - expected.0).abs(), ((output.1).0 - expected.1).abs());
    let allowed_difference = 1.0e-10;

    if difference.0 > allowed_difference || difference.1 > allowed_difference {
        panic!(
            "Value is not almost equal to the expected output:
  output: {output:?}
  expected: {expected:?}
  allowed difference: {allowed_difference}
  difference: {difference:?}
                ",
        )
    }
}

#[test]
fn check_output() {
    let mut freeverb = Freeverb::<F32>::new(44100);

    let delta = (F32(1.0), F32(1.0));
    let silence = (F32(0.0), F32(0.0));
    assert_eq!(freeverb.tick(delta), silence);

    for _ in 0..2999 {
        freeverb.tick(silence);
    }

    check_almost_equal(freeverb.tick(silence), (-0.0000064512, -0.0149999978));
    check_almost_equal(freeverb.tick(silence), (0.0074987095, 0.0023400011));
    check_almost_equal(freeverb.tick(silence), (0.0018747419, -0.0049695000));
    check_almost_equal(freeverb.tick(silence), (-0.0000000516, -0.0008064000));
    check_almost_equal(freeverb.tick(silence), (-0.0307050105, 0.0129637197));
    check_almost_equal(freeverb.tick(silence), (-0.0245160013, -0.0000322560));
    check_almost_equal(freeverb.tick(silence), (-0.0004032004, -0.0302464496));
    check_almost_equal(freeverb.tick(silence), (-0.0000806401, -0.0060492903));
}

#[test]
fn ticking_does_something() {
    let mut freeverb = Freeverb::<F64>::new(44100);
    assert_eq!(freeverb.tick((F64(1.0), F64(1.0))), (F64(0.0), F64(0.0)));
    for _ in 0..COMB_TUNING_R8 * 2 {
        freeverb.tick((F64(0.0), F64(0.0)));
    }
    assert_ne!(freeverb.tick((F64(0.0), F64(0.0))), (F64(0.0), F64(0.0)));
}

#[test]
fn first_echo_comes_after_the_shortest_comb_delay() {
    let mut freeverb = Freeverb::<F64>::new(44100);
    let silence = (F64(0.0), F64(0.0));
    assert_eq!(freeverb.tick((F64(1.0), F64(1.0))), silence);
    for _ in 1..1116 {
        assert_eq!(freeverb.tick(silence), silence);
    }
    let mixed = (1.0 + 1.0) * f64::from(0.015f32) * 1.0;
    assert_eq!(pair(freeverb.tick(silence)), (mixed, 0.0));
}

#[test]
fn wet_and_width_set_the_two_wet_gains() {
    let mut freeverb = Freeverb::<F64>::new(44100);
    freeverb.set_wet(F64(0.5));
    freeverb.set_width(F64(0.5));
    let silence = (F64(0.0), F64(0.0));
    freeverb.tick((F64(1.0), F64(1.0)));
    for _ in 1..1116 {
        freeverb.tick(silence);
    }
    let mixed = (1.0 + 1.0) * f64::from(0.015f32) * 1.0;
    let wet = 0.5 * 3.0;
    let gains = (wet * (0.5 / 2.0 + 0.5), wet * ((1.0 - 0.5) / 2.0));
    assert_eq!(gains, (1.125, 0.375));
    assert_eq!(pair(freeverb.tick(silence)), (mixed * gains.0, mixed * gains.1));
}

#[test]
fn dry_level_passes_the_input_through() {
    let mut freeverb = Freeverb::<F64>::new(44100);
    freeverb.set_dry(F64(0.5));
    assert_eq!(pair(freeverb.tick((F64(1.0), F64(-3.0)))), (0.5, -1.5));
    freeverb.set_dry(F64(1.0));
    assert_eq!(pair(freeverb.tick((F64(0.25), F64(4.0)))), (0.25, 4.0));
}

#[test]
fn right_channel_is_delayed_by_the_stereo_spread() {
    let mut freeverb = Freeverb::<F64>::new(44100);
    let silence = (F64(0.0), F64(0.0));
    freeverb.tick((F64(1.0), F64(1.0)));
    let mut first_left = 0;
    let mut first_right = 0;
    for frame in 1..2000 {
        let output = pair(freeverb.tick(silence));
        if first_left == 0 && output.0 != 0.0 {
            first_left = frame;
        }
        if first_right == 0 && output.1 != 0.0 {
            first_right = frame;
        }
    }
    assert_eq!(first_left, 1116);
    assert_eq!(first_right, 1116 + 23);
}

#[test]
fn delay_lengths_scale_with_the_sample_rate() {
    let mut freeverb = Freeverb::<F64>::new(22050);
    let silence = (F64(0.0), F64(0.0));
    freeverb.tick((F64(1.0), F64(1.0)));
    let mut first_left = 0;
    for frame in 1..2000 {
        let output = pair(freeverb.tick(silence));
        if first_left == 0 && output.0 != 0.0 {
            first_left = frame;
        }
    }
    assert_eq!(first_left, 558);
}

struct Model {
    combs: Vec<[(Vec<f64>, usize, f64); 2]>,
    allpasses: Vec<[(Vec<f64>, usize); 2]>,
    feedback: f64,
    dampening: f64,
    input_gain: f64,
    wet_gains: (f64, f64),
    dry: f64,
}

impl Model {
    fn new(feedback: f64, dampening: f64, input_gain: f64, wet_gains: (f64, f64), dry: f64) -> Model {
        let comb_lengths = [1116, 1188, 1277, 1356, 1422, 1491, 1557, 1617];
        let allpass_lengths = [556, 441, 341, 225];
        Model {
            combs: comb_lengths
                .iter()
                .map(|&n| [(vec![0.0; n], 0, 0.0), (vec![0.0; n + 23], 0, 0.0)])
                .collect(),
            allpasses: allpass_lengths
                .iter()
                .map(|&n| [(vec![0.0; n], 0), (vec![0.0; n + 23], 0)])
                .collect(),
            feedback,
            dampening,
            input_gain,
            wet_gains,
            dry,
        }
    }

    fn tick(&mut self, input: (f64, f64)) -> (f64, f64) {
        let mixed = (input.0 + input.1) * f64::from(0.015f32) * self.input_gain;
        let mut out = [0.0, 0.0];
        for pair in self.combs.iter_mut() {
            for side in 0..2 {
                let (line, cursor, state) = &mut pair[side];
                let output = line[*cursor];
                *state = output * (1.0 - self.dampening) + *state * self.dampening;
                line[*cursor] = mixed + *state * self.feedback;
                *cursor = (*cursor + 1) % line.len();
                out[side] = out[side] + output;
            }
        }
        for pair in self.allpasses.iter_mut() {
            for side in 0..2 {
                let (line, cursor) = &mut pair[side];
                let delayed = line[*cursor];
                let output = delayed - out[side];
                line[*cursor] = out[side] + delayed * 0.5;
                *cursor = (*cursor + 1) % line.len();
                out[side] = output;
            }
        }
        (
            out[0] * self.wet_gains.0 + out[1] * self.wet_gains.1 + input.0 * self.dry,
            out[1] * self.wet_gains.0 + out[0] * self.wet_gains.1 + input.1 * self.dry,
        )
    }
}

fn signal(frame: usize) -> (f64, f64) {
    if frame < 64 {
        (1.0 - frame as f64 / 64.0, (frame % 7) as f64 / 8.0 - 0.25)
    } else {
        (0.0, 0.0)
    }
}

#[test]
fn setters_scale_their_values_as_documented() {
    let mut freeverb = Freeverb::<F64>::new(44100);
    freeverb.set_dampening(F64(0.25));
    freeverb.set_room_size(F64(0.75));
    freeverb.set_wet(F64(0.5));
    freeverb.set_width(F64(0.25));
    freeverb.set_dry(F64(0.125));
    let dampening = 0.25 * f64::from(0.4f32);
    let room_size = 0.75 * f64::from(0.28f32) + f64::from(0.7f32);
    let wet = 0.5 * 3.0;
    let wet_gains = (wet * (0.25 / 2.0 + 0.5), wet * ((1.0 - 0.25) / 2.0));
    let mut model = Model::new(room_size, dampening, 1.0, wet_gains, 0.125);
    for frame in 0..6000 {
        let input = signal(frame);
        let output = freeverb.tick((F64(input.0), F64(input.1)));
        assert_eq!(pair(output), model.tick(input), "frame {}", frame);
    }
}

#[test]
fn freeze_forces_the_comb_settings_and_closes_the_input() {
    let mut freeverb = Freeverb::<F64>::new(44100);
    let mut model = Model::new(
        0.5 * f64::from(0.28f32) + f64::from(0.7f32),
        0.5 * f64::from(0.4f32),
        1.0,
        (1.0, 0.0),
        0.0,
    );
    for frame in 0..3000 {
        let input = signal(frame);
        let output = freeverb.tick((F64(input.0), F64(input.1)));
        assert_eq!(pair(output), model.tick(input), "frame {}", frame);
    }
    freeverb.set_freeze(true);
    model.feedback = 1.0;
    model.dampening = 0.0;
    model.input_gain = 0.0;
    for frame in 0..3000 {
        let input = (1.0, -1.0);
        let output = freeverb.tick((F64(input.0), F64(input.1)));
        assert_eq!(pair(output), model.tick(input), "frozen frame {}", frame);
    }
    freeverb.set_freeze(false);
    model.feedback = 0.5 * f64::from(0.28f32) + f64::from(0.7f32);
    model.dampening = 0.5 * f64::from(0.4f32);
    model.input_gain = 1.0;
    for frame in 0..3000 {
        let input = signal(frame);
        let output = freeverb.tick((F64(input.0), F64(input.1)));
        assert_eq!(pair(output), model.tick(input), "thawed frame {}", frame);
    }
}

fn loudest(freeverb: &mut Freeverb<F64>, frames: usize) -> f64 {
    let mut loudest: f64 = 0.0;
    for _ in 0..frames {
        let output = pair(freeverb.tick((F64(0.0), F64(0.0))));
        loudest = loudest.max(output.0.abs()).max(output.1.abs());
    }
    loudest
}

#[test]
fn frozen_reverb_does_not_decay_in_silence() {
    let mut frozen = Freeverb::<F64>::new(44100);
    let mut free = Freeverb::<F64>::new(44100);
    for frame in 0..4000 {
        let input = signal(frame);
        frozen.tick((F64(input.0), F64(input.1)));
        free.tick((F64(input.0), F64(input.1)));
    }
    frozen.set_freeze(true);
    let early = loudest(&mut frozen, 20000);
    let mut late = early;
    for _ in 0..20 {
        late = loudest(&mut frozen, 20000);
    }
    assert!(early > 0.0);
    assert!(late > 0.5 * early);
    let free_early = loudest(&mut free, 20000);
    let mut free_late = free_early;
    for _ in 0..20 {
        free_late = loudest(&mut free, 20000);
    }
    assert!(free_early > 0.0);
    assert!(free_late < 0.001 * free_early);
}
