//! What holds of the controller and of the editing of its parameters, for
//! every input.

use crate::controller::decremented_threshold;
use crate::controller::elapsed;
use crate::controller::incremented_threshold;
use crate::controller::round_div;
use crate::controller::taken_pressure;
use crate::controller::Controller;
use crate::controller::DisplayCommand;
use crate::controller::EncoderCommand;
use crate::controller::Parameters;
use crate::controller::PollEvent;
use crate::controller::PollResult;
use crate::controller::Precission;
use crate::controller::SelectedParameter;
use crate::controller::SensorOutcome;
use crate::controller::SensorResult;
use crate::controller::State;
use crate::controller::TimerAction;
use crate::controller::TitleOptions;
use crate::controller::MAX_PRESSURE;
use crate::controller::MIN_PRESSURE;
use vstd::prelude::*;

verus! {

/// `v` on the grid of the step by which it goes up.
pub open spec fn snapped_threshold(v: u32) -> int {
    let step = Precission::spec_increment_value(v);
    round_div(v as int, step) * step
}

/// Rounding to a grid: a grid point stays where it is, and no value moves
/// further than half a step.
proof fn lemma_round_div(v: int, step: int)
    requires
        v >= 0,
        step > 0,
        step % 2 == 0,
    ensures
        -step <= 2 * (round_div(v, step) * step - v) <= step,
        v % step == 0 ==> round_div(v, step) * step == v,
        round_div(v, step) >= 0,
{
    let k = round_div(v, step);
    let h = step / 2;
    assert(k * step <= v + h < k * step + step && k >= 0) by (nonlinear_arith)
        requires
            k == (v + h) / step,
            step > 0,
            v >= 0,
            h >= 0,
    ;
    if v % step == 0 {
        let q = v / step;
        assert(q * step == v && (q == k || (q - k) * step >= step || (k - q) * step >= step)
            && (q - k) * step == q * step - k * step && (k - q) * step == k * step - q * step)
            by (nonlinear_arith)
            requires
                q == v / step,
                v % step == 0,
                step > 0,
        ;
    }
}

/// The grid point with index `k` rounds to itself.
proof fn lemma_round_div_of_multiple(k: int, step: int)
    requires
        k >= 0,
        step > 0,
        step % 2 == 0,
    ensures
        round_div(k * step, step) == k,
{
    let v = k * step;
    assert(v >= 0 && v % step == 0) by (nonlinear_arith)
        requires
            v == k * step,
            k >= 0,
            step > 0,
    ;
    lemma_round_div(v, step);
    let r = round_div(v, step);
    assert(r == k) by (nonlinear_arith)
        requires
            r * step == k * step,
            step > 0,
    ;
}

/// One step up and one step down lead back to where the threshold was, on the
/// grid of its step. The way down crosses into the finer bracket with the
/// finer step where the way up has left it.
///
/// This holds wherever the grid point is at or above the minimum and the
/// step up from it stays within the maximum.
pub proof fn lemma_increment_then_decrement(v: u32)
    requires
        MIN_PRESSURE <= snapped_threshold(v),
        snapped_threshold(v) + Precission::spec_increment_value(v) <= MAX_PRESSURE,
    ensures
        decremented_threshold(incremented_threshold(v) as u32) == snapped_threshold(v),
        v % (Precission::spec_increment_value(v) as u32) == 0 ==> decremented_threshold(
            incremented_threshold(v) as u32,
        ) == v,
        -Precission::spec_increment_value(v) <= 2 * (snapped_threshold(v) - v)
            <= Precission::spec_increment_value(v),
{
    let step = Precission::spec_increment_value(v);
    let k = round_div(v as int, step);
    lemma_round_div(v as int, step);
    lemma_round_div_of_multiple(k + 1, step);
    let w = ((k + 1) * step) as u32;
    assert((k + 1) * step == k * step + step) by (nonlinear_arith);
    assert((k + 1 - 1) * step == k * step);
    assert(incremented_threshold(v) == w);
    if v <= 90_000 {
        assert(step == 10_000);
        assert(1 <= k <= 9);
        assert(Precission::spec_decrement_value(w) == 10_000);
    } else if v <= 900_000 {
        assert(step == 100_000);
        assert(1 <= k <= 9);
        assert(Precission::spec_decrement_value(w) == 100_000);
    } else {
        assert(step == 1_000_000);
        assert(1 <= k);
        assert(Precission::spec_decrement_value(w) == 1_000_000);
    }
    assert(round_div(w as int, step) == k + 1);
}

/// At the low end of a bracket the step down is that of the next finer
/// bracket: one whole unit goes down to nine tenths, one tenth to nine
/// hundredths.
pub proof fn lemma_decrement_at_bracket_boundary()
    ensures
        decremented_threshold(1_000_000) == 900_000,
        decremented_threshold(100_000) == 90_000,
{
    assert(Precission::spec_decrement_value(1_000_000) == 100_000);
    assert(round_div(1_000_000, 100_000) == 10);
    assert(Precission::spec_decrement_value(100_000) == 10_000);
    assert(round_div(100_000, 10_000) == 10);
}

/// A threshold that has gone up lies within the limits; one that has gone
/// down lies at or above the minimum, and at or below the maximum if it did
/// before.
pub proof fn lemma_threshold_stays_bounded(v: u32)
    ensures
        MIN_PRESSURE <= incremented_threshold(v) <= MAX_PRESSURE,
        MIN_PRESSURE <= decremented_threshold(v),
        v <= MAX_PRESSURE ==> decremented_threshold(v) <= MAX_PRESSURE,
{
    let up = Precission::spec_increment_value(v);
    let down = Precission::spec_decrement_value(v);
    assert(up == 1_000_000 || up == 100_000 || up == 10_000);
    assert(down == 1_000_000 || down == 100_000 || down == 10_000 || down == 1_000);
    let ku = round_div(v as int, up);
    let kd = round_div(v as int, down);
    lemma_round_div(v as int, up);
    lemma_round_div(v as int, down);
    assert((ku + 1) * up >= up && (kd - 1) * down == kd * down - down) by (nonlinear_arith)
        requires
            ku >= 0,
            up > 0,
    ;
}

/// A record that was made of parameters stands for those parameters.
pub proof fn lemma_store_loads_back(p: Parameters)
    ensures
        Parameters::spec_load(p.spec_store()) == p,
{
}

/// On the title screen a turn one way undoes a turn the other way, and three
/// turns the same way lead back to where they began.
pub proof fn lemma_title_turns_cycle(option: TitleOptions)
    ensures
        option.spec_turned(EncoderCommand::Increment).spec_turned(EncoderCommand::Decrement)
            == option,
        option.spec_turned(EncoderCommand::Decrement).spec_turned(EncoderCommand::Increment)
            == option,
        option.spec_turned(EncoderCommand::Increment).spec_turned(
            EncoderCommand::Increment,
        ).spec_turned(EncoderCommand::Increment) == option,
        option.spec_turned(EncoderCommand::Increment) != option,
        option.spec_turned(EncoderCommand::Decrement) != option,
{
}

/// Parameters within their limits stay within them, whatever is edited and
/// whichever way the encoder turns.
pub proof fn lemma_edit_keeps_limits(p: Parameters, selected: SelectedParameter, cmd: EncoderCommand)
    requires
        p.within_limits(),
    ensures
        p.spec_edited(selected, cmd).within_limits(),
{
    lemma_threshold_stays_bounded(p.threshold);
}

/// No event takes parameters that are within their limits out of them.
pub proof fn lemma_poll_keeps_limits(
    c: Controller,
    event: PollEvent,
    now: u64,
    thyracont_active: bool,
)
    requires
        c.parameters.within_limits(),
    ensures
        c.spec_poll(event, now, thyracont_active).0.parameters.within_limits(),
{
    match event {
        PollEvent::Encoder(cmd) => {
            lemma_edit_keeps_limits(c.parameters, c.current_setup_parameter, cmd);
        },
        _ => {},
    }
}

/// A sensor sample together with the time at which it is handled.
pub struct TimedSample {
    pub sample: SensorResult,
    pub now: u64,
}

impl Controller {
    /// The controller after `n` pulls of the encoder, one to a poll.
    pub open spec fn pulled(self, n: nat) -> Controller
        decreases n,
    {
        if n == 0 {
            self
        } else {
            self.pulled((n - 1) as nat).spec_poll(
                PollEvent::Encoder(EncoderCommand::Pull),
                0,
                false,
            ).0
        }
    }

    /// The controller after the samples of `samples`, one to a poll, in
    /// order.
    pub open spec fn fed(self, samples: Seq<TimedSample>, thyracont_active: bool) -> Controller
        decreases samples.len(),
    {
        if samples.len() == 0 {
            self
        } else {
            self.fed(samples.drop_last(), thyracont_active).spec_poll(
                PollEvent::Sensor(samples.last().sample),
                samples.last().now,
                thyracont_active,
            ).0
        }
    }
}

/// Whether every sample is one of the primary sensor.
pub open spec fn all_primary(samples: Seq<TimedSample>) -> bool {
    forall|i: int|
        0 <= i < samples.len() ==> (#[trigger] samples[i]).sample is SctbSensorResult
}

/// The pressure that the sample at `i` reports.
pub open spec fn pressure_at(samples: Seq<TimedSample>, i: int) -> i64 {
    match samples[i].sample {
        SensorResult::SctbSensorResult { f, p, t } => p,
        SensorResult::TyracontSensorResult { p } => p,
    }
}

/// The pressure seen after the first `n` samples, where `first` was seen
/// before them: that of the last of them that was taken.
pub open spec fn pressure_after(
    first: i64,
    use_secondary: bool,
    thyracont_active: bool,
    samples: Seq<TimedSample>,
    n: int,
) -> i64
    decreases n,
{
    if n <= 0 {
        first
    } else {
        let before = pressure_after(first, use_secondary, thyracont_active, samples, n - 1);
        match taken_pressure(use_secondary, thyracont_active, before, samples[n - 1].sample) {
            Some(p) => p,
            None => before,
        }
    }
}

/// Whether the sample at `i` is taken, stands for a pressure at or below
/// `threshold`, and for one below the pressure seen before it.
pub open spec fn crosses(
    first: i64,
    threshold: u32,
    use_secondary: bool,
    thyracont_active: bool,
    samples: Seq<TimedSample>,
    i: int,
) -> bool {
    let before = pressure_after(first, use_secondary, thyracont_active, samples, i);
    match taken_pressure(use_secondary, thyracont_active, before, samples[i].sample) {
        Some(p) => before > p && p <= threshold,
        None => false,
    }
}

/// Whether a sample is taken: every sample of the primary sensor is, and one
/// of the secondary sensor while that sensor is in use.
pub open spec fn is_taken(use_secondary: bool, sample: SensorResult) -> bool {
    sample is SctbSensorResult || use_secondary
}

/// The setup menu goes through the threshold, the interval, the hold time and
/// the exit, in this order, and a pull on the exit leads to the title screen,
/// from where the next pull opens the menu at the threshold again. The choice
/// of sensor is never selected.
pub proof fn lemma_setup_cursor_cycle(c: Controller, n: nat)
    requires
        c.current_state == State::Setup,
        c.current_setup_parameter == SelectedParameter::Threshold,
    ensures
        c.pulled(n).current_setup_parameter != SelectedParameter::PSensorSelect,
        n % 5 == 0 ==> c.pulled(n).current_state == State::Setup && c.pulled(
            n,
        ).current_setup_parameter == SelectedParameter::Threshold,
        n % 5 == 1 ==> c.pulled(n).current_state == State::Setup && c.pulled(
            n,
        ).current_setup_parameter == SelectedParameter::UpdatePeriodMs,
        n % 5 == 2 ==> c.pulled(n).current_state == State::Setup && c.pulled(
            n,
        ).current_setup_parameter == SelectedParameter::WaitTimeS,
        n % 5 == 3 ==> c.pulled(n).current_state == State::Setup && c.pulled(
            n,
        ).current_setup_parameter == SelectedParameter::SaveAndExit,
        n % 5 == 4 ==> c.pulled(n).current_state == State::Title && c.pulled(n).title_option
            == TitleOptions::Setup && c.pulled(n).current_setup_parameter
            == SelectedParameter::Threshold,
    decreases n,
{
    if n > 0 {
        lemma_setup_cursor_cycle(c, (n - 1) as nat);
    }
}

/// No event selects the choice of sensor in the setup menu.
pub proof fn lemma_sensor_choice_never_selected(
    c: Controller,
    event: PollEvent,
    now: u64,
    thyracont_active: bool,
)
    requires
        c.current_setup_parameter != SelectedParameter::PSensorSelect,
    ensures
        c.spec_poll(event, now, thyracont_active).0.current_setup_parameter
            != SelectedParameter::PSensorSelect,
{
}

/// A pull on the title screen at a measuring option starts a measurement with
/// no first point; the samples that follow leave the option alone; and the
/// next pull leads back to the title screen at the option that started the
/// measurement.
pub proof fn lemma_measurement_returns_to_its_mode(
    c: Controller,
    samples: Seq<TimedSample>,
    thyracont_active: bool,
)
    requires
        c.current_state == State::Title,
        c.title_option != TitleOptions::Setup,
    ensures
        c.pulled(1).current_state == State::Measuring,
        c.pulled(1).initial_point is None,
        c.pulled(1).start_waiting_time is None,
        c.pulled(1).fed(samples, thyracont_active).pulled(1).current_state == State::Title,
        c.pulled(1).fed(samples, thyracont_active).pulled(1).title_option == c.title_option,
{
    reveal_with_fuel(Controller::pulled, 2);
    lemma_fed_keeps_mode(c.pulled(1), samples, thyracont_active);
}

/// Sensor samples change neither the state, but for the end of a measurement,
/// nor the options, nor the parameters.
pub proof fn lemma_fed_keeps_mode(c: Controller, samples: Seq<TimedSample>, thyracont_active: bool)
    ensures
        c.fed(samples, thyracont_active).title_option == c.title_option,
        c.fed(samples, thyracont_active).current_mode == c.current_mode,
        c.fed(samples, thyracont_active).parameters == c.parameters,
        c.fed(samples, thyracont_active).current_setup_parameter == c.current_setup_parameter,
        c.fed(samples, thyracont_active).current_state == c.current_state || (c.current_state
            == State::Measuring && c.fed(samples, thyracont_active).current_state
            == State::Result),
    decreases samples.len(),
{
    if samples.len() > 0 {
        lemma_fed_keeps_mode(c, samples.drop_last(), thyracont_active);
    }
}

/// In the automatic mode the hold starts at the first sample that is taken,
/// stands for a pressure at or below the threshold and for one below the
/// pressure seen before it; it starts at the time of that sample, and at no
/// sample before.
pub proof fn lemma_hold_starts_at_first_crossing(
    c: Controller,
    samples: Seq<TimedSample>,
    thyracont_active: bool,
    k: int,
)
    requires
        c.current_state == State::Measuring,
        c.title_option == TitleOptions::Auto,
        c.start_waiting_time is None,
        0 <= k < samples.len(),
        crosses(
            c.prev_p,
            c.parameters.threshold,
            c.parameters.try_use_alternative_sensor,
            thyracont_active,
            samples,
            k,
        ),
        forall|j: int|
            0 <= j < k ==> !crosses(
                c.prev_p,
                c.parameters.threshold,
                c.parameters.try_use_alternative_sensor,
                thyracont_active,
                samples,
                j,
            ),
    ensures
        forall|j: int|
            0 <= j <= k ==> (#[trigger] c.fed(
                samples.take(j),
                thyracont_active,
            )).start_waiting_time is None,
        c.fed(samples.take(k + 1), thyracont_active).start_waiting_time == Some(samples[k].now),
        c.fed(samples.take(k + 1), thyracont_active).current_state == State::Measuring,
{
    assert forall|j: int| 0 <= j <= k implies (#[trigger] c.fed(
        samples.take(j),
        thyracont_active,
    )).start_waiting_time is None by {
        lemma_no_hold_before_crossing(c, samples, thyracont_active, j);
    }
    lemma_no_hold_before_crossing(c, samples, thyracont_active, k);
    assert(samples.take(k + 1).drop_last() =~= samples.take(k));
}

/// While no sample has crossed the threshold, no hold runs, and the pressure
/// seen last is that of the last sample taken.
proof fn lemma_no_hold_before_crossing(
    c: Controller,
    samples: Seq<TimedSample>,
    thyracont_active: bool,
    j: int,
)
    requires
        c.current_state == State::Measuring,
        c.title_option == TitleOptions::Auto,
        c.start_waiting_time is None,
        0 <= j <= samples.len(),
        forall|i: int|
            0 <= i < j ==> !crosses(
                c.prev_p,
                c.parameters.threshold,
                c.parameters.try_use_alternative_sensor,
                thyracont_active,
                samples,
                i,
            ),
    ensures
        c.fed(samples.take(j), thyracont_active).start_waiting_time is None,
        c.fed(samples.take(j), thyracont_active).current_state == State::Measuring,
        c.fed(samples.take(j), thyracont_active).title_option == TitleOptions::Auto,
        c.fed(samples.take(j), thyracont_active).parameters == c.parameters,
        c.fed(samples.take(j), thyracont_active).prev_p == pressure_after(
            c.prev_p,
            c.parameters.try_use_alternative_sensor,
            thyracont_active,
            samples,
            j,
        ),
    decreases j,
{
    if j > 0 {
        lemma_no_hold_before_crossing(c, samples, thyracont_active, j - 1);
        assert(samples.take(j).drop_last() =~= samples.take(j - 1));
        assert(samples.take(j).last() == samples[j - 1]);
        assert(!crosses(
            c.prev_p,
            c.parameters.threshold,
            c.parameters.try_use_alternative_sensor,
            thyracont_active,
            samples,
            j - 1,
        ));
    }
}

/// With the primary sensor alone, the pressure seen after a sample is the
/// pressure of that sample.
proof fn lemma_pressure_after_primary(
    first: i64,
    thyracont_active: bool,
    samples: Seq<TimedSample>,
    n: int,
)
    requires
        all_primary(samples),
        0 < n <= samples.len(),
    ensures
        pressure_after(first, false, thyracont_active, samples, n) == pressure_at(samples, n - 1),
{
    assert(samples[n - 1].sample is SctbSensorResult);
}

/// A pressure that falls from sample to sample starts the hold at the first
/// sample at or below the threshold, and at no sample before.
///
/// The samples are those of the primary sensor, taken in the automatic mode
/// with the secondary sensor not in use, and the first of them lies above the
/// threshold.
pub proof fn lemma_hold_starts_when_falling_pressure_reaches_threshold(
    c: Controller,
    samples: Seq<TimedSample>,
    thyracont_active: bool,
    k: int,
)
    requires
        c.current_state == State::Measuring,
        c.title_option == TitleOptions::Auto,
        c.start_waiting_time is None,
        !c.parameters.try_use_alternative_sensor,
        all_primary(samples),
        forall|i: int, j: int|
            0 <= i < j < samples.len() ==> #[trigger] pressure_at(samples, j)
                < #[trigger] pressure_at(samples, i),
        0 < k < samples.len(),
        pressure_at(samples, k) <= c.parameters.threshold,
        forall|j: int| 0 <= j < k ==> pressure_at(samples, j) > c.parameters.threshold,
    ensures
        forall|j: int|
            0 <= j <= k ==> (#[trigger] c.fed(
                samples.take(j),
                thyracont_active,
            )).start_waiting_time is None,
        c.fed(samples.take(k + 1), thyracont_active).start_waiting_time == Some(samples[k].now),
{
    assert forall|j: int| 0 <= j < k implies !crosses(
        c.prev_p,
        c.parameters.threshold,
        false,
        thyracont_active,
        samples,
        j,
    ) by {
        assert(samples[j].sample is SctbSensorResult);
        assert(pressure_at(samples, j) > c.parameters.threshold);
    }
    lemma_pressure_after_primary(c.prev_p, thyracont_active, samples, k);
    assert(samples[k].sample is SctbSensorResult);
    assert(pressure_at(samples, k) < pressure_at(samples, k - 1));
    assert(crosses(c.prev_p, c.parameters.threshold, false, thyracont_active, samples, k));
    lemma_hold_starts_at_first_crossing(c, samples, thyracont_active, k);
}

/// A hold that runs ends at the first sample that is taken when the hold time
/// has gone by, and at no sample before: until then the measurement goes on,
/// and that sample leads to the result.
pub proof fn lemma_result_at_first_sample_after_hold(
    c: Controller,
    samples: Seq<TimedSample>,
    thyracont_active: bool,
    k: int,
)
    requires
        c.current_state == State::Measuring,
        c.start_waiting_time is Some,
        0 <= k < samples.len(),
        is_taken(c.parameters.try_use_alternative_sensor, samples[k].sample),
        elapsed(c.start_waiting_time->0, samples[k].now) >= c.wait_time_us(),
        forall|j: int|
            0 <= j < k ==> !is_taken(
                c.parameters.try_use_alternative_sensor,
                (#[trigger] samples[j]).sample,
            ) || elapsed(c.start_waiting_time->0, samples[j].now) < c.wait_time_us(),
    ensures
        forall|j: int|
            0 <= j <= k ==> (#[trigger] c.fed(samples.take(j), thyracont_active)).current_state
                == State::Measuring,
        c.fed(samples.take(k + 1), thyracont_active).current_state == State::Result,
        c.fed(samples.take(k + 1), thyracont_active).start_waiting_time is None,
{
    assert forall|j: int| 0 <= j <= k implies (#[trigger] c.fed(
        samples.take(j),
        thyracont_active,
    )).current_state == State::Measuring by {
        lemma_hold_runs_until_expiry(c, samples, thyracont_active, j);
    }
    lemma_hold_runs_until_expiry(c, samples, thyracont_active, k);
    assert(samples.take(k + 1).drop_last() =~= samples.take(k));
}

/// While no sample has been taken after the hold time has gone by, the hold
/// runs on from where it started.
proof fn lemma_hold_runs_until_expiry(
    c: Controller,
    samples: Seq<TimedSample>,
    thyracont_active: bool,
    j: int,
)
    requires
        c.current_state == State::Measuring,
        c.start_waiting_time is Some,
        0 <= j <= samples.len(),
        forall|i: int|
            0 <= i < j ==> !is_taken(
                c.parameters.try_use_alternative_sensor,
                (#[trigger] samples[i]).sample,
            ) || elapsed(c.start_waiting_time->0, samples[i].now) < c.wait_time_us(),
    ensures
        c.fed(samples.take(j), thyracont_active).current_state == State::Measuring,
        c.fed(samples.take(j), thyracont_active).start_waiting_time == c.start_waiting_time,
        c.fed(samples.take(j), thyracont_active).parameters == c.parameters,
    decreases j,
{
    if j > 0 {
        lemma_hold_runs_until_expiry(c, samples, thyracont_active, j - 1);
        assert(samples.take(j).drop_last() =~= samples.take(j - 1));
        assert(samples.take(j).last() == samples[j - 1]);
    }
}

/// While the secondary sensor is not in use, a sample of it changes nothing
/// and displays nothing, whatever the state.
pub proof fn lemma_secondary_sample_ignored(
    c: Controller,
    p: i64,
    now: u64,
    thyracont_active: bool,
)
    requires
        !c.parameters.try_use_alternative_sensor,
    ensures
        c.spec_process_sensor(SensorResult::TyracontSensorResult { p }, now, thyracont_active) == (
            c,
            SensorOutcome { display: None, cancel_timers: false },
        ),
        c.spec_poll(
            PollEvent::Sensor(SensorResult::TyracontSensorResult { p }),
            now,
            thyracont_active,
        ) == (
            c,
            PollResult {
                klapan: c.spec_klapan_state(),
                display: None,
                timers: TimerAction::Keep,
                store: false,
            },
        ),
{
}

/// The pressure that a display command shows, if it shows one.
pub open spec fn displayed_pressure(display: Option<DisplayCommand>) -> Option<i64> {
    match display {
        Some(DisplayCommand::Measure { f, p, threashold, wait_time }) => p,
        Some(DisplayCommand::Result { f, p, t, threashold, sensivity }) => Some(p),
        _ => None,
    }
}

/// While the secondary sensor is in use and its timer runs, a sample of the
/// primary sensor displays the pressure seen last, not its own, and leaves
/// that pressure as it is; its frequency and temperature are taken over.
pub proof fn lemma_primary_pressure_shadowed(
    c: Controller,
    f: i64,
    p: i64,
    t: i64,
    now: u64,
)
    requires
        c.current_state == State::Measuring,
        c.parameters.try_use_alternative_sensor,
    ensures
        ({
            let (next, outcome) = c.spec_process_sensor(
                SensorResult::SctbSensorResult { f, p, t },
                now,
                true,
            );
            &&& displayed_pressure(outcome.display) == Some(c.prev_p)
            &&& next.prev_p == c.prev_p
            &&& next.prev_f == f
            &&& next.prev_t == t
        }),
{
}

} // verus!
