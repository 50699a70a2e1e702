//! The stereo reverberator: eight comb pairs in parallel, four all-pass
//! pairs in series, and the mix of the reverberated and the dry signal.
use crate::all_pass::{AllPass, AllPassState};
use crate::comb::{Comb, CombState};
use crate::float::{constant, Float};
use crate::tuning::{
    fixed_gain, offset_room, scale_dampening, scale_room, scale_wet, ALLPASS_TUNING_L1,
    ALLPASS_TUNING_L2, ALLPASS_TUNING_L3, ALLPASS_TUNING_L4, ALLPASS_TUNING_R1,
    ALLPASS_TUNING_R2, ALLPASS_TUNING_R3, ALLPASS_TUNING_R4, COMB_TUNING_L1, COMB_TUNING_L2,
    COMB_TUNING_L3, COMB_TUNING_L4, COMB_TUNING_L5, COMB_TUNING_L6, COMB_TUNING_L7,
    COMB_TUNING_L8, COMB_TUNING_R1, COMB_TUNING_R2, COMB_TUNING_R3, COMB_TUNING_R4,
    COMB_TUNING_R5, COMB_TUNING_R6, COMB_TUNING_R7, COMB_TUNING_R8, REFERENCE_RATE,
    STEREO_SPREAD,
};
use vstd::prelude::*;
use vstd::std_specs::ops::*;

verus! {

/// A delay length given for the reference rate, scaled to the rate `sr`:
/// `length * sr / 44100` rounded down, or the largest `usize` if that is
/// smaller.
pub open spec fn spec_adjust_length(length: int, sr: int) -> int {
    let scaled = length * sr / (crate::tuning::REFERENCE_RATE as int);
    if scaled > usize::MAX {
        usize::MAX as int
    } else {
        scaled
    }
}

/// Whether every delay line of a reverberator at the rate `sr` gets at least
/// one cell. The shortest of them decides, and it does from 196 Hz on.
pub open spec fn spec_supports_rate(sr: int) -> bool {
    spec_adjust_length(ALLPASS_TUNING_L4 as int, sr) >= 1
}

/// Scales a delay length given for the reference rate to the rate `sr`.
pub fn adjust_length(length: usize, sr: usize) -> (adjusted: usize)
    ensures
        adjusted == spec_adjust_length(length as int, sr as int),
{
    assert(length * sr <= u128::MAX) by (nonlinear_arith)
        requires
            length <= 0xffff_ffff_ffff_ffff,
            sr <= 0xffff_ffff_ffff_ffff,
    ;
    let product: u128 = (length as u128) * (sr as u128);
    let scaled: u128 = product / (REFERENCE_RATE as u128);
    if scaled > usize::MAX as u128 {
        usize::MAX
    } else {
        scaled as usize
    }
}

/// Tests whether every delay line of a reverberator at the rate `sr` gets at
/// least one cell.
pub fn supports_rate(sr: usize) -> (supported: bool)
    ensures
        supported == spec_supports_rate(sr as int),
        supported == (sr >= 196),
{
    adjust_length(ALLPASS_TUNING_L4, sr) >= 1
}

/// At a supported rate no delay line is empty: a length of at least 225
/// samples at the reference rate scales to at least one sample.
pub proof fn lemma_adjusted_length_positive(length: int, sr: int)
    requires
        length >= 225,
        spec_supports_rate(sr),
    ensures
        spec_adjust_length(length, sr) >= 1,
{
    assert(length * sr >= 225 * sr) by (nonlinear_arith)
        requires
            length >= 225,
            sr >= 0,
    ;
}

/// The mathematical content of a reverberator.
pub struct FreeverbState<T> {
    pub combs: Seq<(CombState<T>, CombState<T>)>,
    pub allpasses: Seq<(AllPassState<T>, AllPassState<T>)>,
    pub wet_gains: (T, T),
    pub wet: T,
    pub width: T,
    pub dry: T,
    pub input_gain: T,
    pub dampening: T,
    pub room_size: T,
    pub frozen: bool,
}

impl<T: Float> FreeverbState<T> {
    /// There are eight comb pairs and four all-pass pairs, and each filter
    /// is well formed.
    pub open spec fn wf(self) -> bool {
        &&& self.combs.len() == 8
        &&& self.allpasses.len() == 4
        &&& forall|i: int|
            0 <= i < 8 ==> (#[trigger] self.combs[i]).0.wf() && self.combs[i].1.wf()
        &&& forall|i: int|
            0 <= i < 4 ==> (#[trigger] self.allpasses[i]).0.wf() && self.allpasses[i].1.wf()
    }

    /// The reverberator at the rate `sr` before its parameters are set: all
    /// filters silent, all coefficients zero. The left-hand delay lengths
    /// are the tuning lengths scaled to `sr`; the right-hand ones are the
    /// tuning lengths plus the stereo spread, scaled.
    pub open spec fn blank(sr: int) -> Self {
        FreeverbState {
            combs: Seq::new(
                8,
                |i: int|
                    (
                        CombState::silent(
                            spec_adjust_length(crate::tuning::comb_tuning()[i], sr) as nat,
                        ),
                        CombState::silent(
                            spec_adjust_length(
                                crate::tuning::comb_tuning()[i] + STEREO_SPREAD,
                                sr,
                            ) as nat,
                        ),
                    ),
            ),
            allpasses: Seq::new(
                4,
                |i: int|
                    (
                        AllPassState::silent(
                            spec_adjust_length(crate::tuning::allpass_tuning()[i], sr) as nat,
                        ),
                        AllPassState::silent(
                            spec_adjust_length(
                                crate::tuning::allpass_tuning()[i] + STEREO_SPREAD,
                                sr,
                            ) as nat,
                        ),
                    ),
            ),
            wet_gains: (crate::float::zero::<T>(), crate::float::zero::<T>()),
            wet: crate::float::zero::<T>(),
            width: crate::float::zero::<T>(),
            dry: crate::float::zero::<T>(),
            input_gain: crate::float::zero::<T>(),
            dampening: crate::float::zero::<T>(),
            room_size: crate::float::zero::<T>(),
            frozen: false,
        }
    }

    /// The reverberator at the rate `sr` as it is made: wet level one (a
    /// normalized third), full width, dampening and room size at the middle
    /// of their ranges, no dry signal, not frozen.
    pub open spec fn initial(sr: int) -> Self {
        let third = crate::float::one::<T>().div_spec(crate::tuning::spec_scale_wet::<T>());
        let half = crate::float::ratio::<T>(1, 2);
        Self::blank(sr).with_wet(third).with_width(crate::float::one::<T>()).with_dampening(
            half,
        ).with_room_size(half).with_freeze(false)
    }

    /// The feedback and the dampening that the comb filters are to have:
    /// one and zero while frozen, else the room size and the dampening.
    pub open spec fn comb_settings(self) -> (T, T) {
        if self.frozen {
            (crate::float::one::<T>(), crate::float::zero::<T>())
        } else {
            (self.room_size, self.dampening)
        }
    }

    /// The reverberator after its comb settings have been pushed to all
    /// sixteen comb filters.
    pub open spec fn refresh_combs(self) -> Self {
        let (feedback, dampening) = self.comb_settings();
        FreeverbState {
            combs: Seq::new(
                self.combs.len(),
                |i: int|
                    (
                        self.combs[i].0.with_feedback(feedback).with_dampening(dampening),
                        self.combs[i].1.with_feedback(feedback).with_dampening(dampening),
                    ),
            ),
            ..self
        }
    }

    /// The reverberator after its wet gains have been derived from the wet
    /// level and the width: `wet * (width / 2 + 0.5)` for a channel's own
    /// reverberation, `wet * ((1 - width) / 2)` for the other channel's.
    pub open spec fn refresh_wet_gains(self) -> Self {
        let two = crate::float::ratio::<T>(2, 1);
        let half = crate::float::ratio::<T>(1, 2);
        FreeverbState {
            wet_gains: (
                self.wet.mul_spec(self.width.div_spec(two).add_spec(half)),
                self.wet.mul_spec(crate::float::one::<T>().sub_spec(self.width).div_spec(two)),
            ),
            ..self
        }
    }

    /// The effect of `set_dampening`.
    pub open spec fn with_dampening(self, value: T) -> Self {
        FreeverbState {
            dampening: value.mul_spec(crate::tuning::spec_scale_dampening::<T>()),
            ..self
        }.refresh_combs()
    }

    /// The effect of `set_room_size`.
    pub open spec fn with_room_size(self, value: T) -> Self {
        FreeverbState {
            room_size: value.mul_spec(crate::tuning::spec_scale_room::<T>()).add_spec(
                crate::tuning::spec_offset_room::<T>(),
            ),
            ..self
        }.refresh_combs()
    }

    /// The effect of `set_freeze`.
    pub open spec fn with_freeze(self, frozen: bool) -> Self {
        FreeverbState {
            frozen,
            input_gain: if frozen {
                crate::float::zero::<T>()
            } else {
                crate::float::one::<T>()
            },
            ..self
        }.refresh_combs()
    }

    /// The effect of `set_wet`.
    pub open spec fn with_wet(self, value: T) -> Self {
        FreeverbState {
            wet: value.mul_spec(crate::tuning::spec_scale_wet::<T>()),
            ..self
        }.refresh_wet_gains()
    }

    /// The effect of `set_width`.
    pub open spec fn with_width(self, value: T) -> Self {
        FreeverbState { width: value, ..self }.refresh_wet_gains()
    }

    /// The effect of `set_dry`.
    pub open spec fn with_dry(self, value: T) -> Self {
        FreeverbState { dry: value, ..self }
    }

    /// The sample that a frame feeds into every comb filter: the sum of the
    /// two channels, times the fixed gain, times the input gain.
    pub open spec fn mixed(self, input: (T, T)) -> T {
        input.0.add_spec(input.1).mul_spec(crate::tuning::spec_fixed_gain::<T>()).mul_spec(
            self.input_gain,
        )
    }

    /// The outputs of the first `n` comb pairs, added up per channel in
    /// their order, starting from zero.
    pub open spec fn comb_sums(self, n: int) -> (T, T)
        decreases n,
    {
        if n <= 0 {
            (crate::float::zero::<T>(), crate::float::zero::<T>())
        } else {
            let sums = self.comb_sums(n - 1);
            (
                sums.0.add_spec(self.combs[n - 1].0.output()),
                sums.1.add_spec(self.combs[n - 1].1.output()),
            )
        }
    }

    /// The frame `signal` after it has gone through the first `n` all-pass
    /// pairs, one after the other.
    pub open spec fn cascade(self, n: int, signal: (T, T)) -> (T, T)
        decreases n,
    {
        if n <= 0 {
            signal
        } else {
            let fed = self.cascade(n - 1, signal);
            (self.allpasses[n - 1].0.output(fed.0), self.allpasses[n - 1].1.output(fed.1))
        }
    }

    /// The reverberated frame, before it is mixed with the dry signal: the
    /// comb sums sent through all the all-pass pairs.
    pub open spec fn reverberated(self) -> (T, T) {
        self.cascade(self.allpasses.len() as int, self.comb_sums(self.combs.len() as int))
    }

    /// The frame that one step returns for `input`. Each channel is its own
    /// reverberation times the first wet gain, plus the other channel's
    /// times the second, plus its input times the dry level.
    pub open spec fn output(self, input: (T, T)) -> (T, T) {
        let out = self.reverberated();
        (
            out.0.mul_spec(self.wet_gains.0).add_spec(out.1.mul_spec(self.wet_gains.1)).add_spec(
                input.0.mul_spec(self.dry),
            ),
            out.1.mul_spec(self.wet_gains.0).add_spec(out.0.mul_spec(self.wet_gains.1)).add_spec(
                input.1.mul_spec(self.dry),
            ),
        )
    }

    /// The reverberator after one step on `input`: every comb filter has
    /// taken the mixed input, and every all-pass pair the frame that the
    /// pairs before it made of the comb sums.
    pub open spec fn step(self, input: (T, T)) -> Self {
        let mixed = self.mixed(input);
        let sums = self.comb_sums(self.combs.len() as int);
        FreeverbState {
            combs: Seq::new(
                self.combs.len(),
                |i: int| (self.combs[i].0.step(mixed), self.combs[i].1.step(mixed)),
            ),
            allpasses: Seq::new(
                self.allpasses.len(),
                |i: int|
                    (
                        self.allpasses[i].0.step(self.cascade(i, sums).0),
                        self.allpasses[i].1.step(self.cascade(i, sums).1),
                    ),
            ),
            ..self
        }
    }

    /// The reverberator after the first `n` frames of `samples`, a buffer in
    /// which the left and the right sample of each frame follow each other.
    pub open spec fn after_frames(self, samples: Seq<T>, n: int) -> Self
        decreases n,
    {
        if n <= 0 {
            self
        } else {
            self.after_frames(samples, n - 1).step((samples[2 * n - 2], samples[2 * n - 1]))
        }
    }

    /// The samples that the reverberator returns for the frames of
    /// `samples`: those of each frame, left then right, follow each other as
    /// they do in `samples`.
    pub open spec fn produced(self, samples: Seq<T>) -> Seq<T> {
        Seq::new(
            samples.len(),
            |i: int|
                {
                    let frame = i / 2;
                    let output = self.after_frames(samples, frame).output(
                        (samples[2 * frame], samples[2 * frame + 1]),
                    );
                    if i % 2 == 0 {
                        output.0
                    } else {
                        output.1
                    }
                },
        )
    }

    /// Every comb filter's delay line holds the cells that it holds in
    /// `earlier`.
    pub open spec fn keeps_comb_cells_of(self, earlier: Self) -> bool {
        forall|i: int|
            0 <= i < earlier.combs.len() ==> (#[trigger] self.combs[i]).0.line.cells
                == earlier.combs[i].0.line.cells && self.combs[i].1.line.cells
                == earlier.combs[i].1.line.cells
    }

    /// Every comb filter returns the cell that lies, in `earlier`, `n`
    /// places after the cursor, counted round the delay line.
    pub open spec fn replays_combs_of(self, earlier: Self, n: int) -> bool {
        forall|i: int|
            0 <= i < earlier.combs.len() ==> (#[trigger] self.combs[i]).0.output()
                == earlier.combs[i].0.line.cells[(earlier.combs[i].0.line.cursor + n) % (
            earlier.combs[i].0.line.cells.len() as int)] && self.combs[i].1.output()
                == earlier.combs[i].1.line.cells[(earlier.combs[i].1.line.cursor + n) % (
            earlier.combs[i].1.line.cells.len() as int)]
    }

    /// The cursor of every comb filter's delay line is `n` places after
    /// where it is in `earlier`, counted round the delay line.
    pub open spec fn follows_cursors_of(self, earlier: Self, n: int) -> bool {
        forall|i: int|
            0 <= i < earlier.combs.len() ==> (#[trigger] self.combs[i]).0.line.cursor == (
            earlier.combs[i].0.line.cursor + n) % (earlier.combs[i].0.line.cells.len() as int)
                && self.combs[i].1.line.cursor == (earlier.combs[i].1.line.cursor + n) % (
            earlier.combs[i].1.line.cells.len() as int)
    }

    /// The reverberator holds its signal: it is frozen, its input gain is
    /// zero, and every comb filter has feedback one, dampening zero and the
    /// inverse dampening that goes with it.
    pub open spec fn holds_signal(self) -> bool {
        &&& self.frozen
        &&& self.input_gain == crate::float::zero::<T>()
        &&& forall|i: int|
            0 <= i < self.combs.len() ==> {
                &&& (#[trigger] self.combs[i]).0 == self.combs[i].0.with_feedback(
                    crate::float::one::<T>(),
                ).with_dampening(crate::float::zero::<T>())
                &&& self.combs[i].1 == self.combs[i].1.with_feedback(
                    crate::float::one::<T>(),
                ).with_dampening(crate::float::zero::<T>())
            }
    }
}

/// While every comb filter reads zero, the comb sums are zero.
proof fn lemma_silent_comb_sums<T: Float>(state: FreeverbState<T>, n: int)
    requires
        crate::float::exact_units::<T>(),
        0 <= n <= state.combs.len(),
        forall|i: int|
            0 <= i < state.combs.len() ==> (#[trigger] state.combs[i]).0.output()
                == crate::float::zero::<T>() && state.combs[i].1.output()
                == crate::float::zero::<T>(),
    ensures
        state.comb_sums(n) == (crate::float::zero::<T>(), crate::float::zero::<T>()),
    decreases n,
{
    if n > 0 {
        lemma_silent_comb_sums(state, n - 1);
    }
}

/// While every all-pass filter reads zero, silence goes through the
/// all-pass filters as silence.
proof fn lemma_silent_cascade<T: Float>(state: FreeverbState<T>, n: int)
    requires
        crate::float::exact_units::<T>(),
        0 <= n <= state.allpasses.len(),
        forall|i: int|
            0 <= i < state.allpasses.len() ==> (#[trigger] state.allpasses[i]).0.line.read()
                == crate::float::zero::<T>() && state.allpasses[i].1.line.read()
                == crate::float::zero::<T>(),
    ensures
        state.cascade(n, (crate::float::zero::<T>(), crate::float::zero::<T>())) == (
            crate::float::zero::<T>(),
            crate::float::zero::<T>(),
        ),
    decreases n,
{
    if n > 0 {
        lemma_silent_cascade(state, n - 1);
    }
}

/// A new reverberator answers its first frame with silence, whatever the
/// frame: nothing has come through a delay line yet, and the dry level is
/// zero.
pub proof fn lemma_first_frame_is_silent<T: Float>(sr: int, input: (T, T))
    requires
        crate::float::exact_units::<T>(),
        spec_supports_rate(sr),
    ensures
        FreeverbState::<T>::initial(sr).wf(),
        FreeverbState::<T>::initial(sr).output(input) == (
            crate::float::zero::<T>(),
            crate::float::zero::<T>(),
        ),
{
    let state = FreeverbState::<T>::initial(sr);
    let zero = crate::float::zero::<T>();
    assert forall|length: int| length >= 225 implies #[trigger] spec_adjust_length(length, sr)
        >= 1 by {
        lemma_adjusted_length_positive(length, sr);
    }
    assert forall|i: int| 0 <= i < 8 implies (#[trigger] state.combs[i]).0.output() == zero
        && state.combs[i].1.output() == zero && state.combs[i].0.wf() && state.combs[i].1.wf() by {}
    assert forall|i: int| 0 <= i < 4 implies (#[trigger] state.allpasses[i]).0.line.read()
        == zero && state.allpasses[i].1.line.read() == zero && state.allpasses[i].0.wf()
        && state.allpasses[i].1.wf() by {}
    lemma_silent_comb_sums(state, 8);
    lemma_silent_cascade(state, 4);
}

/// Switching the freeze on makes the reverberator hold its signal.
pub proof fn lemma_freeze_holds_signal<T: Float>(state: FreeverbState<T>)
    ensures
        state.with_freeze(true).holds_signal(),
{
}

/// A reverberator that holds its signal keeps it: one step, on whatever
/// input, changes no cell of any comb filter's delay line, and the
/// reverberator holds its signal afterwards too. Nothing of what the comb
/// filters hold is lost, and nothing new enters them.
pub proof fn lemma_frozen_step_keeps_combs<T: Float>(state: FreeverbState<T>, input: (T, T))
    requires
        crate::float::exact_units::<T>(),
        state.wf(),
        state.holds_signal(),
    ensures
        state.step(input).wf(),
        state.step(input).holds_signal(),
        state.step(input).keeps_comb_cells_of(state),
{
    let after = state.step(input);
    let zero = crate::float::zero::<T>();
    let one = crate::float::one::<T>();
    assert forall|i: int| 0 <= i < 8 implies {
        &&& (#[trigger] after.combs[i]).0.line.cells == state.combs[i].0.line.cells
        &&& after.combs[i].1.line.cells == state.combs[i].1.line.cells
        &&& after.combs[i].0.wf()
        &&& after.combs[i].1.wf()
        &&& after.combs[i].0 == after.combs[i].0.with_feedback(one).with_dampening(zero)
        &&& after.combs[i].1 == after.combs[i].1.with_feedback(one).with_dampening(zero)
    } by {
        lemma_frozen_comb_step(state.combs[i].0);
        lemma_frozen_comb_step(state.combs[i].1);
    }
}

/// A comb filter with feedback one and dampening zero that is fed zero
/// writes back what it reads.
proof fn lemma_frozen_comb_step<T: Float>(comb: CombState<T>)
    requires
        crate::float::exact_units::<T>(),
        comb.wf(),
        comb == comb.with_feedback(crate::float::one::<T>()).with_dampening(
            crate::float::zero::<T>(),
        ),
    ensures
        comb.step(crate::float::zero::<T>()).line.cells == comb.line.cells,
        comb.step(crate::float::zero::<T>()).wf(),
        comb.step(crate::float::zero::<T>()) == comb.step(
            crate::float::zero::<T>(),
        ).with_feedback(crate::float::one::<T>()).with_dampening(crate::float::zero::<T>()),
{
    let zero = crate::float::zero::<T>();
    let read = comb.line.read();
    assert(comb.damped() == read);
    assert(zero.add_spec(read) == read);
    assert(comb.step(zero).line.cells =~= comb.line.cells);
}

/// The freeze lasts: after any number of frames, of whatever samples, a
/// reverberator that held its signal still holds it, and every cell of
/// every comb filter's delay line is what it was. Each comb filter plays
/// its delay line round and round: after `n` frames it returns the cell `n`
/// places after the cursor, counted round the line. What the comb filters
/// return never dies away.
pub proof fn lemma_frozen_frames_keep_combs<T: Float>(
    state: FreeverbState<T>,
    samples: Seq<T>,
    n: int,
)
    requires
        crate::float::exact_units::<T>(),
        state.wf(),
        state.holds_signal(),
        0 <= n,
    ensures
        state.after_frames(samples, n).wf(),
        state.after_frames(samples, n).holds_signal(),
        state.after_frames(samples, n).keeps_comb_cells_of(state),
        state.after_frames(samples, n).replays_combs_of(state, n),
{
    lemma_frozen_frames_turn(state, samples, n);
}

/// The induction behind [`lemma_frozen_frames_keep_combs`], which also
/// follows the cursors.
proof fn lemma_frozen_frames_turn<T: Float>(state: FreeverbState<T>, samples: Seq<T>, n: int)
    requires
        crate::float::exact_units::<T>(),
        state.wf(),
        state.holds_signal(),
        0 <= n,
    ensures
        state.after_frames(samples, n).wf(),
        state.after_frames(samples, n).holds_signal(),
        state.after_frames(samples, n).keeps_comb_cells_of(state),
        state.after_frames(samples, n).follows_cursors_of(state, n),
    decreases n,
{
    if n > 0 {
        lemma_frozen_frames_turn(state, samples, n - 1);
        let earlier = state.after_frames(samples, n - 1);
        let input = (samples[2 * n - 2], samples[2 * n - 1]);
        lemma_frozen_step_keeps_combs(earlier, input);
        let later = earlier.step(input);
        assert forall|i: int| 0 <= i < 8 implies {
            &&& (#[trigger] later.combs[i]).0.line.cursor == (state.combs[i].0.line.cursor + n)
                % (state.combs[i].0.line.cells.len() as int)
            &&& later.combs[i].1.line.cursor == (state.combs[i].1.line.cursor + n) % (
            state.combs[i].1.line.cells.len() as int)
        } by {
            let mixed = earlier.mixed(input);
            lemma_comb_step_advances(earlier.combs[i].0, mixed);
            lemma_comb_step_advances(earlier.combs[i].1, mixed);
            vstd::arithmetic::div_mod::lemma_add_mod_noop_right(
                1,
                state.combs[i].0.line.cursor + n - 1,
                state.combs[i].0.line.cells.len() as int,
            );
            vstd::arithmetic::div_mod::lemma_add_mod_noop_right(
                1,
                state.combs[i].1.line.cursor + n - 1,
                state.combs[i].1.line.cells.len() as int,
            );
        }
    } else {
        assert forall|i: int| 0 <= i < 8 implies {
            &&& (#[trigger] state.combs[i]).0.line.cursor == (state.combs[i].0.line.cursor + 0)
                % (state.combs[i].0.line.cells.len() as int)
            &&& state.combs[i].1.line.cursor == (state.combs[i].1.line.cursor + 0) % (
            state.combs[i].1.line.cells.len() as int)
        } by {
            vstd::arithmetic::div_mod::lemma_small_mod(
                state.combs[i].0.line.cursor as nat,
                state.combs[i].0.line.cells.len(),
            );
            vstd::arithmetic::div_mod::lemma_small_mod(
                state.combs[i].1.line.cursor as nat,
                state.combs[i].1.line.cells.len(),
            );
        }
    }
}

/// A step of a comb filter moves the cursor of its delay line on by one
/// cell, counted round the line.
proof fn lemma_comb_step_advances<T: Float>(comb: CombState<T>, input: T)
    requires
        comb.wf(),
    ensures
        comb.step(input).line.cursor == (comb.line.cursor + 1) % (comb.line.cells.len() as int),
{
    crate::delay_line::lemma_write_advances(
        comb.line,
        input.add_spec(comb.damped().mul_spec(comb.feedback)),
    );
}

/// A processor for the Freeverb algorithm, on frames of two channels.
pub struct Freeverb<T> {
    combs: [(Comb<T>, Comb<T>); 8],
    allpasses: [(AllPass<T>, AllPass<T>); 4],
    wet_gains: (T, T),
    wet: T,
    width: T,
    dry: T,
    input_gain: T,
    dampening: T,
    room_size: T,
    frozen: bool,
}

impl<T> View for Freeverb<T> {
    type V = FreeverbState<T>;

    closed spec fn view(&self) -> FreeverbState<T> {
        FreeverbState {
            combs: Seq::new(8, |i: int| (self.combs@[i].0@, self.combs@[i].1@)),
            allpasses: Seq::new(4, |i: int| (self.allpasses@[i].0@, self.allpasses@[i].1@)),
            wet_gains: self.wet_gains,
            wet: self.wet,
            width: self.width,
            dry: self.dry,
            input_gain: self.input_gain,
            dampening: self.dampening,
            room_size: self.room_size,
            frozen: self.frozen,
        }
    }
}

impl<T: Float> Freeverb<T> {
    /// Makes a reverberator for the sample rate `sr`, in Hz. The tuning
    /// lengths are scaled from the reference rate to `sr`.
    pub fn new(sr: usize) -> (freeverb: Self)
        requires
            crate::float::obeys_arithmetic::<T>(),
            spec_supports_rate(sr as int),
        ensures
            freeverb@ == FreeverbState::<T>::initial(sr as int),
            freeverb@.wf(),
    {
        assert forall|length: int| length >= 225 implies #[trigger] spec_adjust_length(
            length,
            sr as int,
        ) >= 1 by {
            lemma_adjusted_length_positive(length, sr as int);
        }
        let zero: T = constant(0, 1);
        let one: T = constant(1, 1);
        let half: T = constant(1, 2);
        let mut freeverb = Freeverb {
            combs: [
                (
                    Comb::new(adjust_length(COMB_TUNING_L1, sr)),
                    Comb::new(adjust_length(COMB_TUNING_R1, sr)),
                ),
                (
                    Comb::new(adjust_length(COMB_TUNING_L2, sr)),
                    Comb::new(adjust_length(COMB_TUNING_R2, sr)),
                ),
                (
                    Comb::new(adjust_length(COMB_TUNING_L3, sr)),
                    Comb::new(adjust_length(COMB_TUNING_R3, sr)),
                ),
                (
                    Comb::new(adjust_length(COMB_TUNING_L4, sr)),
                    Comb::new(adjust_length(COMB_TUNING_R4, sr)),
                ),
                (
                    Comb::new(adjust_length(COMB_TUNING_L5, sr)),
                    Comb::new(adjust_length(COMB_TUNING_R5, sr)),
                ),
                (
                    Comb::new(adjust_length(COMB_TUNING_L6, sr)),
                    Comb::new(adjust_length(COMB_TUNING_R6, sr)),
                ),
                (
                    Comb::new(adjust_length(COMB_TUNING_L7, sr)),
                    Comb::new(adjust_length(COMB_TUNING_R7, sr)),
                ),
                (
                    Comb::new(adjust_length(COMB_TUNING_L8, sr)),
                    Comb::new(adjust_length(COMB_TUNING_R8, sr)),
                ),
            ],
            allpasses: [
                (
                    AllPass::new(adjust_length(ALLPASS_TUNING_L1, sr)),
                    AllPass::new(adjust_length(ALLPASS_TUNING_R1, sr)),
                ),
                (
                    AllPass::new(adjust_length(ALLPASS_TUNING_L2, sr)),
                    AllPass::new(adjust_length(ALLPASS_TUNING_R2, sr)),
                ),
                (
                    AllPass::new(adjust_length(ALLPASS_TUNING_L3, sr)),
                    AllPass::new(adjust_length(ALLPASS_TUNING_R3, sr)),
                ),
                (
                    AllPass::new(adjust_length(ALLPASS_TUNING_L4, sr)),
                    AllPass::new(adjust_length(ALLPASS_TUNING_R4, sr)),
                ),
            ],
            wet_gains: (zero, zero),
            wet: zero,
            width: zero,
            dry: zero,
            input_gain: zero,
            dampening: zero,
            room_size: zero,
            frozen: false,
        };
        assert(freeverb@.combs =~= FreeverbState::<T>::blank(sr as int).combs);
        assert(freeverb@.allpasses =~= FreeverbState::<T>::blank(sr as int).allpasses);
        freeverb.set_wet(one / scale_wet());
        freeverb.set_width(one);
        freeverb.set_dampening(half);
        freeverb.set_room_size(half);
        freeverb.set_freeze(false);
        freeverb
    }

    /// Processes one frame: the left and the right sample of one instant.
    pub fn tick(&mut self, input: (T, T)) -> (output: (T, T))
        requires
            crate::float::obeys_arithmetic::<T>(),
        ensures
            output == old(self)@.output(input),
            final(self)@ == old(self)@.step(input),
            old(self)@.wf(),
            final(self)@.wf(),
    {
        let ghost before = self@;
        let input_mixed = (input.0 + input.1) * fixed_gain() * self.input_gain;
        let mut left: T = constant(0, 1);
        let mut right: T = constant(0, 1);
        let mut i: usize = 0;
        while i < 8
            invariant
                crate::float::obeys_arithmetic::<T>(),
                i <= 8,
                before.combs.len() == 8,
                input_mixed == before.mixed(input),
                self@ == (FreeverbState { combs: self@.combs, ..before }),
                forall|k: int|
                    0 <= k < i ==> (#[trigger] self.combs@[k]).0@ == before.combs[k].0.step(
                        input_mixed,
                    ) && self.combs@[k].1@ == before.combs[k].1.step(input_mixed)
                        && self.combs@[k].0@.wf() && self.combs@[k].1@.wf(),
                forall|k: int|
                    0 <= k < i ==> (#[trigger] before.combs[k]).0.wf() && before.combs[k].1.wf(),
                forall|k: int|
                    i <= k < 8 ==> (#[trigger] self.combs@[k]).0@ == before.combs[k].0
                        && self.combs@[k].1@ == before.combs[k].1,
                (left, right) == before.comb_sums(i as int),
            decreases 8 - i,
        {
            left = left + self.combs[i].0.tick(input_mixed);
            right = right + self.combs[i].1.tick(input_mixed);
            i += 1;
        }
        let ghost sums = (left, right);
        let ghost combed = self@;
        let mut j: usize = 0;
        while j < 4
            invariant
                crate::float::obeys_arithmetic::<T>(),
                j <= 4,
                before.allpasses.len() == 4,
                self@ == (FreeverbState { allpasses: self@.allpasses, ..combed }),
                combed.allpasses == before.allpasses,
                combed.combs.len() == 8,
                before.combs.len() == 8,
                forall|k: int|
                    0 <= k < 8 ==> (#[trigger] combed.combs[k]).0.wf() && combed.combs[k].1.wf(),
                forall|k: int|
                    0 <= k < 8 ==> (#[trigger] before.combs[k]).0.wf() && before.combs[k].1.wf(),
                forall|k: int|
                    0 <= k < j ==> (#[trigger] self.allpasses@[k]).0@
                        == before.allpasses[k].0.step(before.cascade(k, sums).0)
                        && self.allpasses@[k].1@ == before.allpasses[k].1.step(
                        before.cascade(k, sums).1,
                    ) && self.allpasses@[k].0@.wf() && self.allpasses@[k].1@.wf(),
                forall|k: int|
                    0 <= k < j ==> (#[trigger] before.allpasses[k]).0.wf()
                        && before.allpasses[k].1.wf(),
                forall|k: int|
                    j <= k < 4 ==> (#[trigger] self.allpasses@[k]).0@ == before.allpasses[k].0
                        && self.allpasses@[k].1@ == before.allpasses[k].1,
                (left, right) == before.cascade(j as int, sums),
            decreases 4 - j,
        {
            left = self.allpasses[j].0.tick(left);
            right = self.allpasses[j].1.tick(right);
            j += 1;
        }
        assert(self@.combs =~= before.step(input).combs);
        assert(self@.allpasses =~= before.step(input).allpasses);
        (
            left * self.wet_gains.0 + right * self.wet_gains.1 + input.0 * self.dry,
            right * self.wet_gains.0 + left * self.wet_gains.1 + input.1 * self.dry,
        )
    }

    /// Sets the dampening from a normalized value, which should be between
    /// zero and one. It is stored times 0.4 and pushed to the comb filters.
    pub fn set_dampening(&mut self, value: T)
        requires
            crate::float::obeys_arithmetic::<T>(),
        ensures
            final(self)@ == old(self)@.with_dampening(value),
    {
        self.dampening = value * scale_dampening();
        self.update_combs();
    }

    /// Switches the freeze on or off. While frozen the comb filters neither
    /// damp nor lose signal, and no new signal enters them.
    pub fn set_freeze(&mut self, frozen: bool)
        requires
            crate::float::obeys_arithmetic::<T>(),
        ensures
            final(self)@ == old(self)@.with_freeze(frozen),
    {
        self.frozen = frozen;
        self.input_gain = if frozen {
            constant(0, 1)
        } else {
            constant(1, 1)
        };
        self.update_combs();
    }

    /// Sets the level of the dry signal, the unprocessed input, in the
    /// output. The value should be between zero and one.
    pub fn set_dry(&mut self, value: T)
        ensures
            final(self)@ == old(self)@.with_dry(value),
    {
        self.dry = value;
    }

    /// Sets the level of the wet signal, the reverberation, from a
    /// normalized value, which should be between zero and one. It is stored
    /// times 3, and the wet gains follow.
    pub fn set_wet(&mut self, value: T)
        requires
            crate::float::obeys_arithmetic::<T>(),
        ensures
            final(self)@ == old(self)@.with_wet(value),
    {
        self.wet = value * scale_wet();
        self.update_wet_gains();
    }

    /// Sets the stereo width, which should be between zero and one. The wet
    /// gains follow.
    pub fn set_width(&mut self, value: T)
        requires
            crate::float::obeys_arithmetic::<T>(),
        ensures
            final(self)@ == old(self)@.with_width(value),
    {
        self.width = value;
        self.update_wet_gains();
    }

    /// Sets the room size from a normalized value, which should be between
    /// zero and one. It is stored times 0.28 plus 0.7 and pushed to the comb
    /// filters.
    pub fn set_room_size(&mut self, value: T)
        requires
            crate::float::obeys_arithmetic::<T>(),
        ensures
            final(self)@ == old(self)@.with_room_size(value),
    {
        self.room_size = value * scale_room() + offset_room();
        self.update_combs();
    }

    fn update_wet_gains(&mut self)
        requires
            crate::float::obeys_arithmetic::<T>(),
        ensures
            final(self)@ == old(self)@.refresh_wet_gains(),
    {
        let one: T = constant(1, 1);
        let two: T = constant(2, 1);
        let half: T = constant(1, 2);
        self.wet_gains = (
            self.wet * (self.width / two + half),
            self.wet * ((one - self.width) / two),
        );
    }

    fn update_combs(&mut self)
        requires
            crate::float::obeys_arithmetic::<T>(),
        ensures
            final(self)@ == old(self)@.refresh_combs(),
    {
        let ghost before = self@;
        let (feedback, dampening): (T, T) = if self.frozen {
            (constant(1, 1), constant(0, 1))
        } else {
            (self.room_size, self.dampening)
        };
        let mut i: usize = 0;
        while i < 8
            invariant
                crate::float::obeys_arithmetic::<T>(),
                i <= 8,
                before.combs.len() == 8,
                (feedback, dampening) == before.comb_settings(),
                self@ == (FreeverbState { combs: self@.combs, ..before }),
                forall|k: int|
                    0 <= k < i ==> (#[trigger] self.combs@[k]).0@
                        == before.combs[k].0.with_feedback(feedback).with_dampening(dampening)
                        && self.combs@[k].1@ == before.combs[k].1.with_feedback(
                        feedback,
                    ).with_dampening(dampening),
                forall|k: int|
                    i <= k < 8 ==> (#[trigger] self.combs@[k]).0@ == before.combs[k].0
                        && self.combs@[k].1@ == before.combs[k].1,
            decreases 8 - i,
        {
            self.combs[i].0.set_feedback(feedback);
            self.combs[i].1.set_feedback(feedback);
            self.combs[i].0.set_dampening(dampening);
            self.combs[i].1.set_dampening(dampening);
            i += 1;
        }
        assert(self@.combs =~= before.refresh_combs().combs);
    }
}

} // verus!
