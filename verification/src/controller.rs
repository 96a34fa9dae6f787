//! The measurement controller: takes encoder commands and sensor samples,
//! keeps the state of the session, and says what to display and when to start
//! and stop acquisition.
//!
//! Pressures, frequencies and temperatures are integers that count millionths
//! of their unit; times are microseconds of a clock that the host reads. The
//! controller compares, subtracts and steps these integers exactly, so that an
//! edited threshold lies on its grid and not near it.

use crate::klapan::KlapanState;
use vstd::prelude::*;

pub mod laws;

verus! {

/// Lowest threshold, in millionths of a unit of pressure.
pub const MIN_PRESSURE: u32 = 10_000;

/// Highest threshold, in millionths of a unit of pressure.
pub const MAX_PRESSURE: u32 = 800_000_000;

/// Longest hold time, in seconds.
pub const MAX_WAIT_TIME_S: u32 = 300;

/// Shortest polling interval, in milliseconds.
pub const MIN_INTERVAL: u32 = 50;

/// Longest polling interval, in milliseconds.
pub const MAX_INTERVAL: u32 = 200;

/// Step by which the polling interval is edited, in milliseconds.
pub const INTERVAL_STEP: u32 = 10;

pub const MICROS_PER_SECOND: u64 = 1_000_000;

#[derive(Clone, Copy, Debug, PartialEq, Eq, Structural)]
pub enum EncoderCommand {
    Increment,
    Decrement,
    Push,
    Pull,
}

/// Sense in which the encoder has turned since it was last looked at.
#[derive(Clone, Copy, Debug, PartialEq, Eq, Structural)]
pub enum Rotation {
    Clockwise,
    Anticlockwise,
    Still,
}

impl EncoderCommand {
    /// The command that a change of the button stands for: a push when it
    /// goes down, a pull when it comes up, none while it stays as it was.
    pub open spec fn spec_from_button(was_down: bool, is_down: bool) -> Option<EncoderCommand> {
        if was_down == is_down {
            None
        } else if is_down {
            Some(EncoderCommand::Push)
        } else {
            Some(EncoderCommand::Pull)
        }
    }

    /// The command that a turn stands for: an increment clockwise, a
    /// decrement anticlockwise.
    pub open spec fn spec_from_rotation(rotation: Rotation) -> Option<EncoderCommand> {
        match rotation {
            Rotation::Clockwise => Some(EncoderCommand::Increment),
            Rotation::Anticlockwise => Some(EncoderCommand::Decrement),
            Rotation::Still => None,
        }
    }

    #[verifier::when_used_as_spec(spec_from_button)]
    pub fn from_button(was_down: bool, is_down: bool) -> (cmd: Option<EncoderCommand>)
        ensures
            cmd == EncoderCommand::spec_from_button(was_down, is_down),
    {
        if was_down == is_down {
            None
        } else if is_down {
            Some(EncoderCommand::Push)
        } else {
            Some(EncoderCommand::Pull)
        }
    }

    #[verifier::when_used_as_spec(spec_from_rotation)]
    pub fn from_rotation(rotation: Rotation) -> (cmd: Option<EncoderCommand>)
        ensures
            cmd == EncoderCommand::spec_from_rotation(rotation),
    {
        match rotation {
            Rotation::Clockwise => Some(EncoderCommand::Increment),
            Rotation::Anticlockwise => Some(EncoderCommand::Decrement),
            Rotation::Still => None,
        }
    }
}

/// Granularity at which the threshold is edited: whole units, tenths or
/// hundredths.
#[derive(Clone, Copy, Debug, PartialEq, Eq, Structural)]
pub enum Precission {
    C1,
    C01,
    C001,
}

impl Default for Precission {
    fn default() -> (p: Self)
        ensures
            p == Precission::C1,
    {
        Precission::C1
    }
}

impl Precission {
    /// The bracket of a threshold: hundredths up to 0.09, tenths up to 0.9,
    /// whole units above.
    pub open spec fn of(v: u32) -> Precission {
        if v <= 90_000 {
            Precission::C001
        } else if v <= 900_000 {
            Precission::C01
        } else {
            Precission::C1
        }
    }

    /// The step of a bracket, in millionths.
    pub open spec fn step(self) -> int {
        match self {
            Precission::C1 => 1_000_000,
            Precission::C01 => 100_000,
            Precission::C001 => 10_000,
        }
    }

    /// Step by which a threshold of `current` goes up.
    pub open spec fn spec_increment_value(current: u32) -> int {
        Precission::of(current).step()
    }

    /// Step by which a threshold of `current` goes down: that of its bracket,
    /// or a tenth of it where a whole step would leave less than one step.
    pub open spec fn spec_decrement_value(current: u32) -> int {
        let inc = Precission::spec_increment_value(current);
        if current - inc < inc {
            inc / 10
        } else {
            inc
        }
    }

    /// Number of decimal places of the bracket.
    pub fn value(&self) -> (places: usize)
        ensures
            places == match *self {
                Precission::C1 => 0usize,
                Precission::C01 => 1usize,
                Precission::C001 => 2usize,
            },
    {
        match self {
            Precission::C1 => 0,
            Precission::C01 => 1,
            Precission::C001 => 2,
        }
    }

    /// Step by which a threshold of `current` goes up, in millionths.
    pub fn increment_value(current: u32) -> (step: u32)
        ensures
            step == Precission::spec_increment_value(current),
    {
        match Precission::from(current) {
            Precission::C1 => 1_000_000,
            Precission::C01 => 100_000,
            Precission::C001 => 10_000,
        }
    }

    /// Step by which a threshold of `current` goes down, in millionths.
    pub fn decrement_value(current: u32) -> (step: u32)
        ensures
            step == Precission::spec_decrement_value(current),
    {
        let inc = Self::increment_value(current);
        if (current as u64) < 2 * (inc as u64) {
            inc / 10
        } else {
            inc
        }
    }
}

impl From<u32> for Precission {
    fn from(v: u32) -> (p: Self) {
        if v <= 90_000 {
            Precission::C001
        } else if v <= 900_000 {
            Precission::C01
        } else {
            Precission::C1
        }
    }
}

impl vstd::std_specs::convert::FromSpecImpl<u32> for Precission {
    open spec fn obeys_from_spec() -> bool {
        true
    }

    open spec fn from_spec(v: u32) -> Precission {
        Precission::of(v)
    }
}

/// `v / step`, rounded to the nearest integer, a half going up.
pub open spec fn round_div(v: int, step: int) -> int {
    (v + step / 2) / step
}

/// A threshold of `v` after one step up: snapped to the grid of its step, one
/// step further, and no higher than the maximum.
pub open spec fn incremented_threshold(v: u32) -> int {
    let step = Precission::spec_increment_value(v);
    let next = (round_div(v as int, step) + 1) * step;
    if next > MAX_PRESSURE {
        MAX_PRESSURE as int
    } else {
        next
    }
}

/// A threshold of `v` after one step down: snapped to the grid of its step,
/// one step back, and no lower than the minimum.
pub open spec fn decremented_threshold(v: u32) -> int {
    let step = Precission::spec_decrement_value(v);
    let next = (round_div(v as int, step) - 1) * step;
    if next < MIN_PRESSURE {
        MIN_PRESSURE as int
    } else {
        next
    }
}

/// Index of the grid point of `step` that is nearest to `v`.
fn grid_index(v: u32, step: u32) -> (k: u64)
    requires
        step == 1_000_000 || step == 100_000 || step == 10_000 || step == 1_000,
    ensures
        k == round_div(v as int, step as int),
        k * step <= v + step / 2,
        (k + 1) * step == k * step + step,
        (k - 1) * step == k * step - step,
{
    let k: u64 = (v as u64 + (step / 2) as u64) / (step as u64);
    assert(k * step <= v + step / 2 && (k + 1) * step == k * step + step && (k - 1) * step == k
        * step - step) by (nonlinear_arith)
        requires
            k == (v + step / 2) / (step as int),
            step > 0,
    ;
    k
}

/// One step up of the threshold.
pub fn increment_threshold(v: u32) -> (next: u32)
    ensures
        next == incremented_threshold(v),
{
    let step = Precission::increment_value(v);
    let k = grid_index(v, step);
    let next: u64 = (k + 1) * (step as u64);
    if next > MAX_PRESSURE as u64 {
        MAX_PRESSURE
    } else {
        next as u32
    }
}

/// One step down of the threshold.
pub fn decrement_threshold(v: u32) -> (next: u32)
    ensures
        next == decremented_threshold(v),
{
    let step = Precission::decrement_value(v);
    let k = grid_index(v, step);
    if k == 0 {
        MIN_PRESSURE
    } else {
        let next: u64 = (k - 1) * (step as u64);
        if next < MIN_PRESSURE as u64 {
            MIN_PRESSURE
        } else {
            next as u32
        }
    }
}

/// A sample of one of the two sensors. The primary sensor reports frequency,
/// pressure and temperature; the secondary one pressure alone, in millibar.
#[derive(Clone, Copy, Debug, PartialEq, Eq)]
pub enum SensorResult {
    SctbSensorResult { f: i64, p: i64, t: i64 },
    TyracontSensorResult { p: i64 },
}

#[derive(Clone, Copy, Debug, PartialEq, Eq)]
pub struct Parameters {
    /// Pressure at or below which the hold starts, in millionths of a unit.
    pub threshold: u32,
    /// Time for which the pressure is held before the result is taken.
    pub wait_time_s: u32,
    /// Period of the two acquisition timers.
    pub update_period_ms: u32,
    /// Whether the pressure is taken from the secondary sensor.
    pub try_use_alternative_sensor: bool,
}

/// The parameters as the store holds them: a field is `None` where the store
/// has no value under its key.
#[derive(Clone, Copy, Debug, PartialEq, Eq)]
pub struct StoredParameters {
    pub threshold: Option<u32>,
    pub update_period_ms: Option<u32>,
    pub try_use_alternative_sensor: Option<u8>,
    pub wait_time_s: Option<u32>,
}

#[derive(Clone, Copy, Debug, PartialEq, Eq, Structural)]
pub enum SelectedParameter {
    Threshold,
    UpdatePeriodMs,
    PSensorSelect,
    WaitTimeS,
    SaveAndExit,
}

#[derive(Clone, Copy, Debug, PartialEq, Eq, Structural)]
pub enum State {
    Title,
    Setup,
    Measuring,
    Result,
}

#[derive(Clone, Copy, Debug, PartialEq, Eq, Structural)]
pub enum TitleOptions {
    Auto,
    Manual,
    Setup,
}

/// Change of frequency per change of pressure between the first point of a
/// measurement and its last, as the two differences. The quotient is
/// undefined where the pressure has not changed.
#[derive(Clone, Copy, Debug, PartialEq, Eq)]
pub struct Sensitivity {
    pub delta_f: i128,
    pub delta_p: i128,
}

impl Sensitivity {
    /// Whether the quotient of the two differences exists.
    pub open spec fn spec_is_defined(self) -> bool {
        self.delta_p != 0
    }

    #[verifier::when_used_as_spec(spec_is_defined)]
    pub fn is_defined(self) -> (defined: bool)
        ensures
            defined == self.spec_is_defined(),
    {
        self.delta_p != 0
    }
}

/// What the display shows next. `wait_time` is what is left of the hold, in
/// microseconds.
#[allow(inconsistent_fields)]
#[derive(Clone, Copy, Debug, PartialEq, Eq)]
pub enum DisplayCommand {
    TitleScreen { option: &'static str, selected: bool },
    SetupMenu { values: Parameters, selected: SelectedParameter, precision: Precission },
    Measure { f: Option<i64>, p: Option<i64>, threashold: u32, wait_time: Option<u64> },
    Result { f: i64, p: i64, t: Option<i64>, threashold: u32, sensivity: Sensitivity },
}

/// What the host does with the two acquisition timers.
#[derive(Clone, Copy, Debug, PartialEq, Eq)]
pub enum TimerAction {
    Keep,
    Start { period_ms: u32 },
    Cancel,
}

/// One thing for the controller to look at.
#[derive(Clone, Copy, Debug, PartialEq, Eq)]
pub enum PollEvent {
    Encoder(EncoderCommand),
    Sensor(SensorResult),
    Idle,
}

impl PollEvent {
    /// The one event of a tick: the encoder command where there is one, else
    /// the sensor sample where there is one, else none.
    pub open spec fn spec_select(
        encoder: Option<EncoderCommand>,
        sensor: Option<SensorResult>,
    ) -> PollEvent {
        match (encoder, sensor) {
            (Some(cmd), _) => PollEvent::Encoder(cmd),
            (None, Some(res)) => PollEvent::Sensor(res),
            (None, None) => PollEvent::Idle,
        }
    }

    /// Picks the one event of a tick. The encoder goes first, so the host
    /// takes a sample from the sensor queue only where the encoder queue has
    /// given nothing.
    #[verifier::when_used_as_spec(spec_select)]
    pub fn select(encoder: Option<EncoderCommand>, sensor: Option<SensorResult>) -> (event:
        PollEvent)
        ensures
            event == PollEvent::spec_select(encoder, sensor),
    {
        match (encoder, sensor) {
            (Some(cmd), _) => PollEvent::Encoder(cmd),
            (None, Some(res)) => PollEvent::Sensor(res),
            (None, None) => PollEvent::Idle,
        }
    }
}

/// What the host carries out after a command in the setup menu.
#[derive(Clone, Copy, Debug, PartialEq, Eq)]
pub struct SetupOutcome {
    pub display: Option<DisplayCommand>,
    pub store: bool,
}

/// What the host carries out after a sensor sample.
#[derive(Clone, Copy, Debug, PartialEq, Eq)]
pub struct SensorOutcome {
    pub display: Option<DisplayCommand>,
    pub cancel_timers: bool,
}

/// What the host carries out after one poll.
#[derive(Clone, Copy, Debug, PartialEq, Eq)]
pub struct PollResult {
    pub klapan: KlapanState,
    pub display: Option<DisplayCommand>,
    pub timers: TimerAction,
    pub store: bool,
}

impl Default for SelectedParameter {
    fn default() -> (s: Self)
        ensures
            s == SelectedParameter::Threshold,
    {
        SelectedParameter::Threshold
    }
}

impl SelectedParameter {
    /// The entry behind this one. The menu goes forward only, leaves out the
    /// choice of sensor, and starts over behind its last entry.
    pub open spec fn spec_next(self) -> SelectedParameter {
        match self {
            SelectedParameter::Threshold => SelectedParameter::UpdatePeriodMs,
            SelectedParameter::UpdatePeriodMs => SelectedParameter::WaitTimeS,
            SelectedParameter::PSensorSelect => SelectedParameter::WaitTimeS,
            SelectedParameter::WaitTimeS => SelectedParameter::SaveAndExit,
            SelectedParameter::SaveAndExit => SelectedParameter::Threshold,
        }
    }

    #[verifier::when_used_as_spec(spec_next)]
    pub fn next(self) -> (n: SelectedParameter)
        ensures
            n == self.spec_next(),
    {
        match self {
            SelectedParameter::Threshold => SelectedParameter::UpdatePeriodMs,
            SelectedParameter::UpdatePeriodMs => SelectedParameter::WaitTimeS,
            SelectedParameter::PSensorSelect => SelectedParameter::WaitTimeS,
            SelectedParameter::WaitTimeS => SelectedParameter::SaveAndExit,
            SelectedParameter::SaveAndExit => SelectedParameter::Threshold,
        }
    }
}

impl TitleOptions {
    /// The option that a turn of the encoder leads to. Turning back from the
    /// first option leads to the last.
    pub open spec fn spec_turned(self, cmd: EncoderCommand) -> TitleOptions {
        match (self, cmd) {
            (TitleOptions::Auto, EncoderCommand::Increment) => TitleOptions::Manual,
            (TitleOptions::Manual, EncoderCommand::Increment) => TitleOptions::Setup,
            (TitleOptions::Setup, EncoderCommand::Increment) => TitleOptions::Auto,
            (TitleOptions::Auto, EncoderCommand::Decrement) => TitleOptions::Setup,
            (TitleOptions::Manual, EncoderCommand::Decrement) => TitleOptions::Auto,
            (TitleOptions::Setup, EncoderCommand::Decrement) => TitleOptions::Manual,
            (option, _) => option,
        }
    }

    #[verifier::when_used_as_spec(spec_turned)]
    pub fn turned(self, cmd: EncoderCommand) -> (next: TitleOptions)
        ensures
            next == self.spec_turned(cmd),
    {
        match (self, cmd) {
            (TitleOptions::Auto, EncoderCommand::Increment) => TitleOptions::Manual,
            (TitleOptions::Manual, EncoderCommand::Increment) => TitleOptions::Setup,
            (TitleOptions::Setup, EncoderCommand::Increment) => TitleOptions::Auto,
            (TitleOptions::Auto, EncoderCommand::Decrement) => TitleOptions::Setup,
            (TitleOptions::Manual, EncoderCommand::Decrement) => TitleOptions::Auto,
            (TitleOptions::Setup, EncoderCommand::Decrement) => TitleOptions::Manual,
            (option, _) => option,
        }
    }

    /// The text of the option on the title screen.
    pub open spec fn spec_title(self) -> &'static str {
        match self {
            TitleOptions::Auto => "Авто",
            TitleOptions::Manual => "Ручной",
            TitleOptions::Setup => "Настройки",
        }
    }

    #[verifier::when_used_as_spec(spec_title)]
    pub fn title(self) -> (text: &'static str)
        ensures
            text == self.spec_title(),
    {
        match self {
            TitleOptions::Auto => "Авто",
            TitleOptions::Manual => "Ручной",
            TitleOptions::Setup => "Настройки",
        }
    }
}

/// `v` one `step` up, and no higher than `max`.
pub open spec fn stepped_up(v: u32, step: u32, max: u32) -> u32 {
    if v + step > max {
        max
    } else {
        (v + step) as u32
    }
}

/// `v` one `step` down, and no lower than `min`.
pub open spec fn stepped_down(v: u32, step: u32, min: u32) -> u32 {
    if v - step < min {
        min
    } else {
        (v - step) as u32
    }
}

fn step_up(v: u32, step: u32, max: u32) -> (r: u32)
    ensures
        r == stepped_up(v, step, max),
{
    if v as u64 + step as u64 > max as u64 {
        max
    } else {
        v + step
    }
}

fn step_down(v: u32, step: u32, min: u32) -> (r: u32)
    ensures
        r == stepped_down(v, step, min),
{
    if (v as u64) < step as u64 + min as u64 {
        min
    } else {
        v - step
    }
}

impl Default for Parameters {
    fn default() -> (p: Self)
        ensures
            p == (Parameters {
                threshold: 1_000_000,
                update_period_ms: 100,
                try_use_alternative_sensor: false,
                wait_time_s: 10,
            }),
    {
        Self {
            threshold: 1_000_000,
            update_period_ms: 100,
            try_use_alternative_sensor: false,
            wait_time_s: 10,
        }
    }
}

impl Parameters {
    /// The parameters that a stored record stands for: each field as stored,
    /// or its default where the store has none.
    pub open spec fn spec_load(stored: StoredParameters) -> Parameters {
        Parameters {
            threshold: match stored.threshold {
                Some(v) => v,
                None => 1_000_000,
            },
            update_period_ms: match stored.update_period_ms {
                Some(v) => v,
                None => 100,
            },
            try_use_alternative_sensor: match stored.try_use_alternative_sensor {
                Some(v) => v != 0,
                None => false,
            },
            wait_time_s: match stored.wait_time_s {
                Some(v) => v,
                None => 5,
            },
        }
    }

    /// The record that holds these parameters, every field present.
    pub open spec fn spec_store(self) -> StoredParameters {
        StoredParameters {
            threshold: Some(self.threshold),
            update_period_ms: Some(self.update_period_ms),
            try_use_alternative_sensor: Some(
                if self.try_use_alternative_sensor {
                    1u8
                } else {
                    0u8
                },
            ),
            wait_time_s: Some(self.wait_time_s),
        }
    }

    /// Whether every parameter lies within its limits.
    pub open spec fn within_limits(self) -> bool {
        &&& MIN_PRESSURE <= self.threshold <= MAX_PRESSURE
        &&& MIN_INTERVAL <= self.update_period_ms <= MAX_INTERVAL
        &&& self.wait_time_s <= MAX_WAIT_TIME_S
    }

    /// The parameters after a turn of the encoder on the selected entry.
    pub open spec fn spec_edited(self, selected: SelectedParameter, cmd: EncoderCommand) -> Parameters {
        match (selected, cmd) {
            (SelectedParameter::Threshold, EncoderCommand::Increment) => Parameters {
                threshold: incremented_threshold(self.threshold) as u32,
                ..self
            },
            (SelectedParameter::Threshold, EncoderCommand::Decrement) => Parameters {
                threshold: decremented_threshold(self.threshold) as u32,
                ..self
            },
            (SelectedParameter::UpdatePeriodMs, EncoderCommand::Increment) => Parameters {
                update_period_ms: stepped_up(self.update_period_ms, INTERVAL_STEP, MAX_INTERVAL),
                ..self
            },
            (SelectedParameter::UpdatePeriodMs, EncoderCommand::Decrement) => Parameters {
                update_period_ms: stepped_down(self.update_period_ms, INTERVAL_STEP, MIN_INTERVAL),
                ..self
            },
            (SelectedParameter::PSensorSelect, EncoderCommand::Increment)
            | (SelectedParameter::PSensorSelect, EncoderCommand::Decrement) => Parameters {
                try_use_alternative_sensor: !self.try_use_alternative_sensor,
                ..self
            },
            (SelectedParameter::WaitTimeS, EncoderCommand::Increment) => Parameters {
                wait_time_s: stepped_up(self.wait_time_s, 1, MAX_WAIT_TIME_S),
                ..self
            },
            (SelectedParameter::WaitTimeS, EncoderCommand::Decrement) => Parameters {
                wait_time_s: stepped_down(self.wait_time_s, 1, 0),
                ..self
            },
            _ => self,
        }
    }

    /// The parameters that a stored record stands for.
    pub fn load(stored: &StoredParameters) -> (p: Self)
        ensures
            p == Parameters::spec_load(*stored),
    {
        Self {
            threshold: match stored.threshold {
                Some(v) => v,
                None => 1_000_000,
            },
            update_period_ms: match stored.update_period_ms {
                Some(v) => v,
                None => 100,
            },
            try_use_alternative_sensor: match stored.try_use_alternative_sensor {
                Some(v) => v != 0,
                None => false,
            },
            wait_time_s: match stored.wait_time_s {
                Some(v) => v,
                None => 5,
            },
        }
    }

    /// The record to put in the store.
    pub fn store(&self) -> (stored: StoredParameters)
        ensures
            stored == self.spec_store(),
    {
        StoredParameters {
            threshold: Some(self.threshold),
            update_period_ms: Some(self.update_period_ms),
            try_use_alternative_sensor: Some(
                if self.try_use_alternative_sensor {
                    1
                } else {
                    0
                },
            ),
            wait_time_s: Some(self.wait_time_s),
        }
    }

    /// Applies a turn of the encoder to the selected entry.
    pub fn edit(&mut self, selected: SelectedParameter, cmd: EncoderCommand)
        ensures
            *final(self) == old(self).spec_edited(selected, cmd),
    {
        match (selected, cmd) {
            (SelectedParameter::Threshold, EncoderCommand::Increment) => {
                self.threshold = increment_threshold(self.threshold);
            },
            (SelectedParameter::Threshold, EncoderCommand::Decrement) => {
                self.threshold = decrement_threshold(self.threshold);
            },
            (SelectedParameter::UpdatePeriodMs, EncoderCommand::Increment) => {
                self.update_period_ms = step_up(self.update_period_ms, INTERVAL_STEP, MAX_INTERVAL);
            },
            (SelectedParameter::UpdatePeriodMs, EncoderCommand::Decrement) => {
                self.update_period_ms = step_down(
                    self.update_period_ms,
                    INTERVAL_STEP,
                    MIN_INTERVAL,
                );
            },
            (SelectedParameter::PSensorSelect, EncoderCommand::Increment)
            | (SelectedParameter::PSensorSelect, EncoderCommand::Decrement) => {
                self.try_use_alternative_sensor = !self.try_use_alternative_sensor;
            },
            (SelectedParameter::WaitTimeS, EncoderCommand::Increment) => {
                self.wait_time_s = step_up(self.wait_time_s, 1, MAX_WAIT_TIME_S);
            },
            (SelectedParameter::WaitTimeS, EncoderCommand::Decrement) => {
                self.wait_time_s = step_down(self.wait_time_s, 1, 0);
            },
            _ => {},
        }
    }
}

/// A pressure in millibar as the working unit of the instrument: times
/// 0.7500616, rounded towards zero.
pub open spec fn spec_mbar2mm_hg(p: i64) -> int {
    if p >= 0 {
        p * 7_500_616 / 10_000_000
    } else {
        -((-p) * 7_500_616 / 10_000_000)
    }
}

/// The pressure that a sample stands for, or `None` where the sample is not
/// taken.
///
/// While the secondary sensor is not in use its samples are not taken. While
/// it is in use its samples stand for their own pressure, converted to the
/// working unit, and as long as its timer runs a sample of the primary sensor
/// stands for the pressure seen last, `prev_p`, not for its own.
pub open spec fn taken_pressure(
    use_secondary: bool,
    thyracont_active: bool,
    prev_p: i64,
    res: SensorResult,
) -> Option<i64> {
    match res {
        SensorResult::SctbSensorResult { f, p, t } => {
            if use_secondary && thyracont_active {
                Some(prev_p)
            } else {
                Some(p)
            }
        },
        SensorResult::TyracontSensorResult { p } => {
            if use_secondary {
                Some(spec_mbar2mm_hg(p) as i64)
            } else {
                None
            }
        },
    }
}

/// Time from `start` to `now`. A clock that reads earlier than the start
/// counts as no time gone by.
pub open spec fn elapsed(start: u64, now: u64) -> int {
    if now >= start {
        now - start
    } else {
        0
    }
}

pub struct Controller {
    pub parameters: Parameters,
    /// Option shown on the title screen.
    pub title_option: TitleOptions,
    /// Option that started the measurement, to go back to when it ends.
    pub current_mode: TitleOptions,
    pub current_state: State,
    /// Entry of the setup menu that the encoder edits.
    pub current_setup_parameter: SelectedParameter,
    /// Pressure, frequency and temperature seen last.
    pub prev_p: i64,
    pub prev_f: i64,
    pub prev_t: i64,
    /// Pressure and frequency at the first sample of the measurement.
    pub initial_point: Option<(i64, i64)>,
    /// Time at which the hold started, while it runs.
    pub start_waiting_time: Option<u64>,
}

impl Controller {
    /// The controller as it starts: on the title screen, at the first option.
    pub open spec fn spec_new(stored: StoredParameters) -> Controller {
        Controller {
            parameters: Parameters::spec_load(stored),
            title_option: TitleOptions::Auto,
            current_mode: TitleOptions::Auto,
            current_state: State::Title,
            current_setup_parameter: SelectedParameter::Threshold,
            prev_p: 0,
            prev_f: 0,
            prev_t: 0,
            initial_point: None,
            start_waiting_time: None,
        }
    }

    /// The title screen of the current option.
    pub open spec fn title_screen(self, selected: bool) -> DisplayCommand {
        DisplayCommand::TitleScreen { option: self.title_option.spec_title(), selected }
    }

    /// The setup menu as it stands.
    pub open spec fn setup_menu(self) -> DisplayCommand {
        DisplayCommand::SetupMenu {
            values: self.parameters,
            selected: self.current_setup_parameter,
            precision: Precission::of(self.parameters.threshold),
        }
    }

    /// The position of the valve: on the vacuum line while measuring, on the
    /// atmosphere line in every other state.
    pub open spec fn spec_klapan_state(self) -> KlapanState {
        if self.current_state == State::Measuring {
            KlapanState::Vacuum
        } else {
            KlapanState::Atmosphere
        }
    }

    /// The hold time in microseconds.
    pub open spec fn wait_time_us(self) -> int {
        self.parameters.wait_time_s * MICROS_PER_SECOND
    }

    /// An encoder command on the title screen: the controller after it,
    /// whether the acquisition timers are to be started, and what to display.
    pub open spec fn spec_process_title_cmd(self, cmd: EncoderCommand) -> (
        Controller,
        bool,
        DisplayCommand,
    ) {
        match cmd {
            EncoderCommand::Increment | EncoderCommand::Decrement => {
                let next = Controller { title_option: self.title_option.spec_turned(cmd), ..self };
                (next, false, next.title_screen(false))
            },
            EncoderCommand::Push => (self, false, self.title_screen(true)),
            EncoderCommand::Pull => {
                if self.title_option == TitleOptions::Setup {
                    let next = Controller {
                        initial_point: None,
                        start_waiting_time: None,
                        current_state: State::Setup,
                        current_setup_parameter: SelectedParameter::Threshold,
                        ..self
                    };
                    (next, false, next.setup_menu())
                } else {
                    let next = Controller {
                        initial_point: None,
                        start_waiting_time: None,
                        prev_p: 0,
                        current_mode: self.title_option,
                        current_state: State::Measuring,
                        ..self
                    };
                    (
                        next,
                        true,
                        DisplayCommand::Measure {
                            f: None,
                            p: None,
                            threashold: self.parameters.threshold,
                            wait_time: None,
                        },
                    )
                }
            },
        }
    }

    /// An encoder command in the setup menu: the controller after it, what to
    /// display, and whether the parameters are to be stored.
    pub open spec fn spec_process_setup(self, cmd: EncoderCommand) -> (Controller, SetupOutcome) {
        match cmd {
            EncoderCommand::Pull => {
                if self.current_setup_parameter == SelectedParameter::SaveAndExit {
                    let next = Controller {
                        current_state: State::Title,
                        current_setup_parameter: SelectedParameter::Threshold,
                        title_option: TitleOptions::Setup,
                        ..self
                    };
                    (next, SetupOutcome { display: Some(next.title_screen(false)), store: true })
                } else {
                    let next = Controller {
                        current_setup_parameter: self.current_setup_parameter.spec_next(),
                        ..self
                    };
                    (next, SetupOutcome { display: Some(next.setup_menu()), store: false })
                }
            },
            EncoderCommand::Push => (self, SetupOutcome { display: None, store: false }),
            _ => {
                let next = Controller {
                    parameters: self.parameters.spec_edited(self.current_setup_parameter, cmd),
                    ..self
                };
                (next, SetupOutcome { display: Some(next.setup_menu()), store: false })
            },
        }
    }

    /// An encoder command during a measurement or on its result: a pull ends
    /// it and goes back to the title screen at the option that started it;
    /// nothing else has an effect.
    pub open spec fn spec_process_measure_cmd(self, cmd: EncoderCommand) -> (
        Controller,
        Option<DisplayCommand>,
    ) {
        if cmd == EncoderCommand::Pull {
            let next = Controller {
                current_state: State::Title,
                title_option: self.current_mode,
                ..self
            };
            (next, Some(next.title_screen(false)))
        } else {
            (self, None)
        }
    }

    /// Pressure and temperature that a sample stands for, or `None` for a
    /// sample that is not taken. A sample of the secondary sensor, which
    /// reports no temperature, goes with the temperature seen last.
    pub open spec fn reading(self, res: SensorResult, thyracont_active: bool) -> Option<(i64, i64)> {
        match taken_pressure(
            self.parameters.try_use_alternative_sensor,
            thyracont_active,
            self.prev_p,
            res,
        ) {
            Some(p) => Some(
                (
                    p,
                    match res {
                        SensorResult::SctbSensorResult { f, p: _, t } => t,
                        SensorResult::TyracontSensorResult { p: _ } => self.prev_t,
                    },
                ),
            ),
            None => None,
        }
    }

    /// Whether a sample at pressure `p` starts the hold: in the automatic
    /// mode, when the pressure is falling and has reached the threshold.
    pub open spec fn starts_hold(self, p: i64) -> bool {
        self.title_option == TitleOptions::Auto && self.prev_p > p && p
            <= self.parameters.threshold
    }

    /// A sensor sample taken at `now`: the controller after it, what to
    /// display, and whether the acquisition timers are to be cancelled.
    pub open spec fn spec_process_sensor(
        self,
        res: SensorResult,
        now: u64,
        thyracont_active: bool,
    ) -> (Controller, SensorOutcome) {
        if self.current_state != State::Measuring {
            (self, SensorOutcome { display: None, cancel_timers: false })
        } else {
            match self.reading(res, thyracont_active) {
                None => (self, SensorOutcome { display: None, cancel_timers: false }),
                Some((p, t)) => {
                    let (f, prev_t) = match res {
                        SensorResult::SctbSensorResult { f, p: _, t } => (f, t),
                        SensorResult::TyracontSensorResult { p: _ } => (self.prev_f, self.prev_t),
                    };
                    let anchor = match self.initial_point {
                        Some(point) => point,
                        None => (p, f),
                    };
                    let threashold = self.parameters.threshold;
                    match self.start_waiting_time {
                        Some(start) => {
                            if elapsed(start, now) >= self.wait_time_us() {
                                (
                                    Controller {
                                        current_state: State::Result,
                                        start_waiting_time: None,
                                        initial_point: None,
                                        prev_p: p,
                                        prev_f: f,
                                        prev_t,
                                        ..self
                                    },
                                    SensorOutcome {
                                        display: Some(
                                            DisplayCommand::Result {
                                                f,
                                                p,
                                                t: Some(t),
                                                threashold,
                                                sensivity: Sensitivity {
                                                    delta_f: (anchor.1 - f) as i128,
                                                    delta_p: (anchor.0 - p) as i128,
                                                },
                                            },
                                        ),
                                        cancel_timers: true,
                                    },
                                )
                            } else {
                                (
                                    Controller {
                                        initial_point: Some(anchor),
                                        prev_p: p,
                                        prev_f: f,
                                        prev_t,
                                        ..self
                                    },
                                    SensorOutcome {
                                        display: Some(
                                            DisplayCommand::Measure {
                                                f: Some(f),
                                                p: Some(p),
                                                threashold,
                                                wait_time: Some(
                                                    (self.wait_time_us() - elapsed(
                                                        start,
                                                        now,
                                                    )) as u64,
                                                ),
                                            },
                                        ),
                                        cancel_timers: false,
                                    },
                                )
                            }
                        },
                        None => (
                            Controller {
                                initial_point: Some(anchor),
                                start_waiting_time: if self.starts_hold(p) {
                                    Some(now)
                                } else {
                                    None
                                },
                                prev_p: p,
                                prev_f: f,
                                prev_t,
                                ..self
                            },
                            SensorOutcome {
                                display: Some(
                                    DisplayCommand::Measure {
                                        f: Some(f),
                                        p: Some(p),
                                        threashold,
                                        wait_time: None,
                                    },
                                ),
                                cancel_timers: false,
                            },
                        ),
                    }
                },
            }
        }
    }

    /// One poll: the controller after the event, and what the host carries
    /// out. The valve goes by the state before the event.
    pub open spec fn spec_poll(self, event: PollEvent, now: u64, thyracont_active: bool) -> (
        Controller,
        PollResult,
    ) {
        let klapan = self.spec_klapan_state();
        match event {
            PollEvent::Encoder(cmd) => match self.current_state {
                State::Title => {
                    let (next, start, display) = self.spec_process_title_cmd(cmd);
                    (
                        next,
                        PollResult {
                            klapan,
                            display: Some(display),
                            timers: if start {
                                TimerAction::Start { period_ms: next.parameters.update_period_ms }
                            } else {
                                TimerAction::Keep
                            },
                            store: false,
                        },
                    )
                },
                State::Setup => {
                    let (next, outcome) = self.spec_process_setup(cmd);
                    (
                        next,
                        PollResult {
                            klapan,
                            display: outcome.display,
                            timers: TimerAction::Keep,
                            store: outcome.store,
                        },
                    )
                },
                State::Measuring | State::Result => {
                    let (next, display) = self.spec_process_measure_cmd(cmd);
                    (
                        next,
                        PollResult {
                            klapan,
                            display,
                            timers: if cmd == EncoderCommand::Pull {
                                TimerAction::Cancel
                            } else {
                                TimerAction::Keep
                            },
                            store: false,
                        },
                    )
                },
            },
            PollEvent::Sensor(res) => {
                let (next, outcome) = self.spec_process_sensor(res, now, thyracont_active);
                (
                    next,
                    PollResult {
                        klapan,
                        display: outcome.display,
                        timers: if outcome.cancel_timers {
                            TimerAction::Cancel
                        } else {
                            TimerAction::Keep
                        },
                        store: false,
                    },
                )
            },
            PollEvent::Idle => (
                self,
                PollResult { klapan, display: None, timers: TimerAction::Keep, store: false },
            ),
        }
    }

    /// A controller on the title screen, with the parameters of the store.
    pub fn new(stored: &StoredParameters) -> (controller: Self)
        ensures
            controller == Controller::spec_new(*stored),
    {
        Self {
            parameters: Parameters::load(stored),
            title_option: TitleOptions::Auto,
            current_mode: TitleOptions::Auto,
            current_state: State::Title,
            current_setup_parameter: SelectedParameter::Threshold,
            prev_p: 0,
            prev_f: 0,
            prev_t: 0,
            initial_point: None,
            start_waiting_time: None,
        }
    }

    /// The command that opens the display channel: the title screen of the
    /// current option, not selected.
    pub fn display_chanel(&self) -> (first: DisplayCommand)
        ensures
            first == self.title_screen(false),
    {
        DisplayCommand::TitleScreen { option: self.title_option.title(), selected: false }
    }

    /// The position in which the valve belongs.
    pub fn klapan_state(&self) -> (state: KlapanState)
        ensures
            state == self.spec_klapan_state(),
    {
        match self.current_state {
            State::Measuring => KlapanState::Vacuum,
            _ => KlapanState::Atmosphere,
        }
    }

    fn menu(&self) -> (menu: DisplayCommand)
        ensures
            menu == self.setup_menu(),
    {
        DisplayCommand::SetupMenu {
            values: self.parameters,
            selected: self.current_setup_parameter,
            precision: Precission::from(self.parameters.threshold),
        }
    }

    /// A pressure in millibar as the working unit of the instrument.
    pub fn mbar2mm_hg(p: i64) -> (mm_hg: i64)
        ensures
            mm_hg == spec_mbar2mm_hg(p),
    {
        let scaled: i128 = (p as i128) * 7_500_616 / 10_000_000;
        scaled as i64
    }

    /// Handles an encoder command on the title screen. Returns whether the
    /// host must start the acquisition timers, and the command for the
    /// display.
    pub fn process_title_cmd(&mut self, cmd: EncoderCommand) -> (r: (bool, DisplayCommand))
        ensures
            (*final(self), r.0, r.1) == old(self).spec_process_title_cmd(cmd),
    {
        match cmd {
            EncoderCommand::Increment | EncoderCommand::Decrement => {
                self.title_option = self.title_option.turned(cmd);
                (false, self.display_chanel())
            },
            EncoderCommand::Push => (
                false,
                DisplayCommand::TitleScreen { option: self.title_option.title(), selected: true },
            ),
            EncoderCommand::Pull => {
                self.initial_point = None;
                self.start_waiting_time = None;
                match self.title_option {
                    TitleOptions::Auto | TitleOptions::Manual => {
                        self.prev_p = 0;
                        self.current_mode = self.title_option;
                        self.current_state = State::Measuring;
                        (
                            true,
                            DisplayCommand::Measure {
                                f: None,
                                p: None,
                                threashold: self.parameters.threshold,
                                wait_time: None,
                            },
                        )
                    },
                    TitleOptions::Setup => {
                        self.current_state = State::Setup;
                        self.current_setup_parameter = SelectedParameter::Threshold;
                        (false, self.menu())
                    },
                }
            },
        }
    }

    /// Handles an encoder command in the setup menu.
    pub fn process_setup(&mut self, cmd: EncoderCommand) -> (outcome: SetupOutcome)
        ensures
            (*final(self), outcome) == old(self).spec_process_setup(cmd),
    {
        match cmd {
            EncoderCommand::Pull => {
                match self.current_setup_parameter {
                    SelectedParameter::SaveAndExit => {
                        self.current_state = State::Title;
                        self.current_setup_parameter = SelectedParameter::Threshold;
                        self.title_option = TitleOptions::Setup;
                        SetupOutcome { display: Some(self.display_chanel()), store: true }
                    },
                    _ => {
                        self.current_setup_parameter = self.current_setup_parameter.next();
                        SetupOutcome { display: Some(self.menu()), store: false }
                    },
                }
            },
            EncoderCommand::Push => SetupOutcome { display: None, store: false },
            _ => {
                self.parameters.edit(self.current_setup_parameter, cmd);
                SetupOutcome { display: Some(self.menu()), store: false }
            },
        }
    }

    /// Handles an encoder command during a measurement or on its result.
    pub fn process_measure_cmd(&mut self, cmd: EncoderCommand) -> (display: Option<DisplayCommand>)
        ensures
            (*final(self), display) == old(self).spec_process_measure_cmd(cmd),
    {
        match cmd {
            EncoderCommand::Pull => {
                self.current_state = State::Title;
                self.title_option = self.current_mode;
                Some(self.display_chanel())
            },
            _ => None,
        }
    }

    /// Handles a sensor sample taken at `now`, in microseconds of a clock
    /// that does not go back. `thyracont_active` says whether the timer of the
    /// secondary sensor exists.
    pub fn process_sensor(&mut self, res: SensorResult, now: u64, thyracont_active: bool) -> (outcome:
        SensorOutcome)
        ensures
            (*final(self), outcome) == old(self).spec_process_sensor(res, now, thyracont_active),
    {
        if self.current_state != State::Measuring {
            return SensorOutcome { display: None, cancel_timers: false };
        }
        let (p, t) = match res {
            SensorResult::SctbSensorResult { f, p, t } => {
                let seen = if self.parameters.try_use_alternative_sensor && thyracont_active {
                    self.prev_p
                } else {
                    p
                };
                self.prev_f = f;
                self.prev_t = t;
                (seen, t)
            },
            SensorResult::TyracontSensorResult { p } => {
                if self.parameters.try_use_alternative_sensor {
                    (Self::mbar2mm_hg(p), self.prev_t)
                } else {
                    return SensorOutcome { display: None, cancel_timers: false };
                }
            },
        };
        let anchor = match self.initial_point {
            Some(point) => point,
            None => (p, self.prev_f),
        };
        self.initial_point = Some(anchor);
        let threashold = self.parameters.threshold;
        let display = match self.start_waiting_time {
            Some(start) => {
                let wait: u64 = self.parameters.wait_time_s as u64 * MICROS_PER_SECOND;
                let gone: u64 = if now >= start {
                    now - start
                } else {
                    0
                };
                if gone >= wait {
                    self.start_waiting_time = None;
                    self.current_state = State::Result;
                    self.initial_point = None;
                    DisplayCommand::Result {
                        f: self.prev_f,
                        p,
                        t: Some(t),
                        threashold,
                        sensivity: Sensitivity {
                            delta_f: anchor.1 as i128 - self.prev_f as i128,
                            delta_p: anchor.0 as i128 - p as i128,
                        },
                    }
                } else {
                    DisplayCommand::Measure {
                        f: Some(self.prev_f),
                        p: Some(p),
                        threashold,
                        wait_time: Some(wait - gone),
                    }
                }
            },
            None => {
                if self.title_option == TitleOptions::Auto && self.prev_p > p && p
                    <= threashold as i64 {
                    self.start_waiting_time = Some(now);
                }
                DisplayCommand::Measure {
                    f: Some(self.prev_f),
                    p: Some(p),
                    threashold,
                    wait_time: None,
                }
            },
        };
        self.prev_p = p;
        SensorOutcome {
            display: Some(display),
            cancel_timers: self.current_state == State::Result,
        }
    }

    /// Looks at the one event of a tick, as `PollEvent::select` picks it.
    ///
    /// Returns the position of the valve, which goes by the state before the
    /// event, the command for the display if there is one, what to do with
    /// the acquisition timers, and whether the parameters are to be stored.
    pub fn poll(&mut self, event: PollEvent, now: u64, thyracont_active: bool) -> (r: PollResult)
        ensures
            (*final(self), r) == old(self).spec_poll(event, now, thyracont_active),
    {
        let klapan = self.klapan_state();
        match event {
            PollEvent::Encoder(cmd) => match self.current_state {
                State::Title => {
                    let (start, display) = self.process_title_cmd(cmd);
                    PollResult {
                        klapan,
                        display: Some(display),
                        timers: if start {
                            TimerAction::Start { period_ms: self.parameters.update_period_ms }
                        } else {
                            TimerAction::Keep
                        },
                        store: false,
                    }
                },
                State::Setup => {
                    let outcome = self.process_setup(cmd);
                    PollResult {
                        klapan,
                        display: outcome.display,
                        timers: TimerAction::Keep,
                        store: outcome.store,
                    }
                },
                State::Measuring | State::Result => {
                    let display = self.process_measure_cmd(cmd);
                    PollResult {
                        klapan,
                        display,
                        timers: match cmd {
                            EncoderCommand::Pull => TimerAction::Cancel,
                            _ => TimerAction::Keep,
                        },
                        store: false,
                    }
                },
            },
            PollEvent::Sensor(res) => {
                let outcome = self.process_sensor(res, now, thyracont_active);
                PollResult {
                    klapan,
                    display: outcome.display,
                    timers: if outcome.cancel_timers {
                        TimerAction::Cancel
                    } else {
                        TimerAction::Keep
                    },
                    store: false,
                }
            },
            PollEvent::Idle => PollResult {
                klapan,
                display: None,
                timers: TimerAction::Keep,
                store: false,
            },
        }
    }
}

} // verus!
