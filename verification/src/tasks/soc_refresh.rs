//! A look at the battery, operation by operation.

use crate::battery;
use crate::battery::{
    lowest_resistance_measurement, BatteryMeasurement, DEFAULT_HEATER_CURRENT_MA,
};
use crate::tasks::environment;
use crate::tasks::environment::{
    counts_to_vdd_mv, estimate_loaded_voltage_drop_mv, heater_command, heater_current_ma,
    heater_wait_duration, open_voltage_evidence, Conditions, EnvironmentConfig, HeatingDuration,
    HeatingPower, SocEvidence,
};
use vstd::prelude::*;

verus! {

/// How many load pulses the first look at the battery takes.
pub const INITIAL_SOC_AUTOCAL_SAMPLES: usize = 3;

/// The pause after each of them.
pub const AUTOCAL_PAUSE_MS: u64 = 250;

/// What has become of the operation last asked for while the battery is looked at.
#[derive(Clone, Copy, Debug, PartialEq, Eq, Structural)]
pub enum SocEvent {
    Started,
    /// The converter has measured the supply.
    Sampled(i16),
    /// The command that starts the heater went out, or did not.
    HeaterStarted(bool),
    /// The time to wait is over.
    Elapsed,
    /// The result of the heated measurement was fetched, or was not there.
    HeaterRead,
}

/// The operation to perform next while the battery is looked at.
#[derive(Clone, Copy, Debug, PartialEq, Eq, Structural)]
pub enum SocAction {
    Start,
    SampleVdd,
    StartHeater { command: u8 },
    Wait { ms: u64 },
    ReadHeater,
    Finish(SocEvidence),
}

/// How far a look at the battery has come.
#[derive(Clone, Copy, Debug, PartialEq, Eq, Structural)]
pub enum SocStage {
    Starting,
    OpenSampling,
    HeaterStarting { open_mv: u16 },
    Loading { open_mv: u16 },
    LoadSampling { open_mv: u16 },
    Unloading { pulse: BatteryMeasurement },
    HeaterReading { pulse: BatteryMeasurement },
    Pausing,
    FallbackSampling,
    Over(SocEvidence),
}

/// A look at the battery. With a heater it is loaded by one pulse, or by several the first time,
/// of which the one with the lowest resistance counts; where that brings nothing, and without a
/// heater, its open voltage is measured.
#[derive(Clone, Copy, Debug, PartialEq, Eq)]
pub struct SocRefresh {
    config: EnvironmentConfig,
    conditions: Conditions,
    due: bool,
    heater: bool,
    auto_calibrate: bool,
    stage: SocStage,
    samples: [BatteryMeasurement; INITIAL_SOC_AUTOCAL_SAMPLES],
    sample_count: usize,
    pulses: usize,
}

/// What a [`SocRefresh`] goes by.
#[verifier::ext_equal]
pub struct SocProgress {
    pub config: EnvironmentConfig,
    pub conditions: Conditions,
    /// Whether the battery is to be looked at now.
    pub due: bool,
    /// Whether it is to be loaded by the heater.
    pub heater: bool,
    /// Whether by several pulses.
    pub auto_calibrate: bool,
    pub stage: SocStage,
    /// The pulses of several that have brought a measurement.
    pub samples: Seq<BatteryMeasurement>,
    /// The number of pulses of several so far.
    pub pulses: int,
}

impl SocProgress {
    /// No more measurements than pulses, and a pulse still to go while one is under way.
    pub open spec fn consistent(self) -> bool {
        &&& self.samples.len() <= self.pulses <= INITIAL_SOC_AUTOCAL_SAMPLES
        &&& match self.stage {
            SocStage::Starting => self.pulses == 0,
            SocStage::Pausing | SocStage::FallbackSampling | SocStage::Over(_) => true,
            _ => self.pulses < INITIAL_SOC_AUTOCAL_SAMPLES,
        }
    }

    pub open spec fn at(self, stage: SocStage) -> SocProgress {
        SocProgress { stage, ..self }
    }

    /// After a pulse, which brought a measurement or not.
    pub open spec fn after_pulse(self, pulse: Option<BatteryMeasurement>) -> SocProgress {
        if self.auto_calibrate {
            SocProgress {
                stage: SocStage::Pausing,
                pulses: self.pulses + 1,
                samples: match pulse {
                    Some(sample) => self.samples.push(sample),
                    None => self.samples,
                },
                ..self
            }
        } else {
            self.after_pulses(pulse)
        }
    }

    /// After all pulses, which brought a measurement or not.
    pub open spec fn after_pulses(self, measured: Option<BatteryMeasurement>) -> SocProgress {
        match measured {
            Some(measurement) => self.at(SocStage::Over(SocEvidence::Measurement(measurement))),
            None => self.at(SocStage::FallbackSampling),
        }
    }

    /// What a pulse has measured, given the voltage under load if there is one.
    pub open spec fn pulse(self, open_mv: u16, load: Option<u16>) -> BatteryMeasurement {
        BatteryMeasurement {
            open_mv,
            load_mv: match load {
                Some(load_mv) => load_mv,
                None => if open_mv >= self.conditions.drop_mv() {
                    (open_mv - self.conditions.drop_mv()) as u16
                } else {
                    0
                },
            },
            load_current_ma: self.config.heater_power.current_ma(),
        }
    }

    /// Where things stand after `event`. An event that is not waited for changes nothing.
    pub open spec fn after(self, event: SocEvent) -> SocProgress {
        match (self.stage, event) {
            (SocStage::Starting, SocEvent::Started) => if !self.due {
                self.at(SocStage::Over(SocEvidence::Nothing))
            } else if self.heater {
                self.at(SocStage::OpenSampling)
            } else {
                self.at(SocStage::FallbackSampling)
            },
            (SocStage::OpenSampling, SocEvent::Sampled(raw)) => match environment::vdd_mv(raw) {
                Some(open_mv) => self.at(SocStage::HeaterStarting { open_mv }),
                None => self.after_pulse(None),
            },
            (SocStage::HeaterStarting { open_mv }, SocEvent::HeaterStarted(started)) => if started {
                self.at(SocStage::Loading { open_mv })
            } else {
                self.after_pulse(None)
            },
            (SocStage::Loading { open_mv }, SocEvent::Elapsed) => self.at(
                SocStage::LoadSampling { open_mv },
            ),
            (SocStage::LoadSampling { open_mv }, SocEvent::Sampled(raw)) => self.at(
                SocStage::Unloading { pulse: self.pulse(open_mv, environment::vdd_mv(raw)) },
            ),
            (SocStage::Unloading { pulse }, SocEvent::Elapsed) => self.at(
                SocStage::HeaterReading { pulse },
            ),
            (SocStage::HeaterReading { pulse }, SocEvent::HeaterRead) => self.after_pulse(
                Some(pulse),
            ),
            (SocStage::Pausing, SocEvent::Elapsed) => if self.pulses
                < INITIAL_SOC_AUTOCAL_SAMPLES {
                self.at(SocStage::OpenSampling)
            } else {
                self.after_pulses(battery::lowest_of(self.samples))
            },
            (SocStage::FallbackSampling, SocEvent::Sampled(raw)) => self.at(
                SocStage::Over(SocEvidence::of_open_voltage(environment::vdd_mv(raw), self.conditions)),
            ),
            _ => self,
        }
    }

    /// What to do now.
    pub open spec fn action(self) -> SocAction {
        let wait_ms = self.config.heater_duration.wait_ms();
        match self.stage {
            SocStage::Starting => SocAction::Start,
            SocStage::OpenSampling => SocAction::SampleVdd,
            SocStage::HeaterStarting { .. } => SocAction::StartHeater {
                command: environment::heater_command_byte(self.config.heater_power, self.config.heater_duration),
            },
            SocStage::Loading { .. } => SocAction::Wait { ms: wait_ms / 2 },
            SocStage::LoadSampling { .. } => SocAction::SampleVdd,
            SocStage::Unloading { .. } => SocAction::Wait { ms: (wait_ms - wait_ms / 2) as u64 },
            SocStage::HeaterReading { .. } => SocAction::ReadHeater,
            SocStage::Pausing => SocAction::Wait { ms: AUTOCAL_PAUSE_MS },
            SocStage::FallbackSampling => SocAction::SampleVdd,
            SocStage::Over(evidence) => SocAction::Finish(evidence),
        }
    }
}

impl View for SocRefresh {
    type V = SocProgress;

    closed spec fn view(&self) -> SocProgress {
        SocProgress {
            config: self.config,
            conditions: self.conditions,
            due: self.due,
            heater: self.heater,
            auto_calibrate: self.auto_calibrate,
            stage: self.stage,
            samples: self.samples@.take(self.sample_count as int),
            pulses: self.pulses as int,
        }
    }
}

impl SocRefresh {
    /// The measurements fit their storage.
    pub closed spec fn wf(&self) -> bool {
        self@.consistent() && self.sample_count <= INITIAL_SOC_AUTOCAL_SAMPLES
    }

    pub fn new(
        config: EnvironmentConfig,
        conditions: Conditions,
        due: bool,
        heater: bool,
        auto_calibrate: bool,
    ) -> (refresh: Self)
        ensures
            refresh.wf(),
            refresh@ == (SocProgress {
                config,
                conditions,
                due,
                heater,
                auto_calibrate,
                stage: SocStage::Starting,
                samples: Seq::empty(),
                pulses: 0,
            }),
    {
        let blank = BatteryMeasurement {
            open_mv: 0,
            load_mv: 0,
            load_current_ma: DEFAULT_HEATER_CURRENT_MA,
        };
        SocRefresh {
            config,
            conditions,
            due,
            heater,
            auto_calibrate,
            stage: SocStage::Starting,
            samples: [blank; INITIAL_SOC_AUTOCAL_SAMPLES],
            sample_count: 0,
            pulses: 0,
        }
    }

    /// What to do now.
    pub fn action(&self) -> (action: SocAction)
        ensures
            action == self@.action(),
    {
        match self.stage {
            SocStage::Starting => SocAction::Start,
            SocStage::OpenSampling => SocAction::SampleVdd,
            SocStage::HeaterStarting { .. } => SocAction::StartHeater {
                command: heater_command(self.config.heater_power, self.config.heater_duration),
            },
            SocStage::Loading { .. } => SocAction::Wait {
                ms: heater_wait_duration(self.config.heater_duration) / 2,
            },
            SocStage::LoadSampling { .. } => SocAction::SampleVdd,
            SocStage::Unloading { .. } => {
                let wait_ms: u64 = heater_wait_duration(self.config.heater_duration);
                SocAction::Wait { ms: wait_ms - wait_ms / 2 }
            },
            SocStage::HeaterReading { .. } => SocAction::ReadHeater,
            SocStage::Pausing => SocAction::Wait { ms: AUTOCAL_PAUSE_MS },
            SocStage::FallbackSampling => SocAction::SampleVdd,
            SocStage::Over(evidence) => SocAction::Finish(evidence),
        }
    }

    /// Takes note of what has become of the operation last asked for.
    pub fn advance(&mut self, event: SocEvent)
        requires
            old(self).wf(),
        ensures
            final(self).wf(),
            final(self)@ == old(self)@.after(event),
    {
        match (self.stage, event) {
            (SocStage::Starting, SocEvent::Started) => {
                self.stage = if !self.due {
                    SocStage::Over(SocEvidence::Nothing)
                } else if self.heater {
                    SocStage::OpenSampling
                } else {
                    SocStage::FallbackSampling
                };
            },
            (SocStage::OpenSampling, SocEvent::Sampled(raw)) => match counts_to_vdd_mv(raw) {
                Some(open_mv) => {
                    self.stage = SocStage::HeaterStarting { open_mv };
                },
                None => self.end_pulse(None),
            },
            (SocStage::HeaterStarting { open_mv }, SocEvent::HeaterStarted(started)) => {
                if started {
                    self.stage = SocStage::Loading { open_mv };
                } else {
                    self.end_pulse(None);
                }
            },
            (SocStage::Loading { open_mv }, SocEvent::Elapsed) => {
                self.stage = SocStage::LoadSampling { open_mv };
            },
            (SocStage::LoadSampling { open_mv }, SocEvent::Sampled(raw)) => {
                let load_mv: u16 = match counts_to_vdd_mv(raw) {
                    Some(load_mv) => load_mv,
                    None => open_mv.saturating_sub(
                        estimate_loaded_voltage_drop_mv(self.conditions),
                    ),
                };
                let load_current_ma: u16 = heater_current_ma(self.config.heater_power);
                self.stage =
                SocStage::Unloading {
                    pulse: BatteryMeasurement { open_mv, load_mv, load_current_ma },
                };
            },
            (SocStage::Unloading { pulse }, SocEvent::Elapsed) => {
                self.stage = SocStage::HeaterReading { pulse };
            },
            (SocStage::HeaterReading { pulse }, SocEvent::HeaterRead) => {
                self.end_pulse(Some(pulse));
            },
            (SocStage::Pausing, SocEvent::Elapsed) => {
                if self.pulses < INITIAL_SOC_AUTOCAL_SAMPLES {
                    self.stage = SocStage::OpenSampling;
                } else {
                    let lowest = lowest_resistance_measurement(
                        vstd::slice::slice_subrange(&self.samples, 0, self.sample_count),
                    );
                    self.end_pulses(lowest);
                }
            },
            (SocStage::FallbackSampling, SocEvent::Sampled(raw)) => {
                let measured = counts_to_vdd_mv(raw);
                self.stage = SocStage::Over(open_voltage_evidence(measured, self.conditions));
            },
            _ => {},
        }
    }

    fn end_pulse(&mut self, pulse: Option<BatteryMeasurement>)
        requires
            old(self).sample_count <= old(self).pulses < INITIAL_SOC_AUTOCAL_SAMPLES,
        ensures
            final(self).wf(),
            final(self)@ == old(self)@.after_pulse(pulse),
    {
        if self.auto_calibrate {
            if let Some(sample) = pulse {
                self.samples[self.sample_count] = sample;
                self.sample_count = self.sample_count + 1;
            }
            self.pulses = self.pulses + 1;
            self.stage = SocStage::Pausing;
        } else {
            self.end_pulses(pulse);
        }
    }

    fn end_pulses(&mut self, measured: Option<BatteryMeasurement>)
        requires
            old(self).sample_count <= old(self).pulses <= INITIAL_SOC_AUTOCAL_SAMPLES,
        ensures
            final(self).wf(),
            final(self)@ == old(self)@.after_pulses(measured),
    {
        self.stage =
        match measured {
            Some(measurement) => SocStage::Over(SocEvidence::Measurement(measurement)),
            None => SocStage::FallbackSampling,
        };
    }
}

impl SocProgress {
    /// Whether `event` is what the current action is to bring.
    pub open spec fn awaits(self, event: SocEvent) -> bool {
        match self.action() {
            SocAction::Start => event is Started,
            SocAction::SampleVdd => event is Sampled,
            SocAction::StartHeater { .. } => event is HeaterStarted,
            SocAction::Wait { .. } => event is Elapsed,
            SocAction::ReadHeater => event is HeaterRead,
            SocAction::Finish(_) => false,
        }
    }

    /// The number of operations that are left at most.
    pub open spec fn left(self) -> int {
        let pulses_left = INITIAL_SOC_AUTOCAL_SAMPLES - self.pulses;
        match self.stage {
            SocStage::Over(_) => 0,
            SocStage::FallbackSampling => 1,
            SocStage::Pausing => 7 * pulses_left + 2,
            SocStage::HeaterReading { .. } => 7 * pulses_left - 4,
            SocStage::Unloading { .. } => 7 * pulses_left - 3,
            SocStage::LoadSampling { .. } => 7 * pulses_left - 2,
            SocStage::Loading { .. } => 7 * pulses_left - 1,
            SocStage::HeaterStarting { .. } => 7 * pulses_left,
            SocStage::OpenSampling => 7 * pulses_left + 1,
            SocStage::Starting => 7 * pulses_left + 2,
        }
    }

    /// Where things stand after several events.
    #[verifier::opaque]
    pub open spec fn run(self, events: Seq<SocEvent>) -> SocProgress
        decreases events.len(),
    {
        if events.len() == 0 {
            self
        } else {
            self.run(events.drop_last()).after(events.last())
        }
    }
}

/// Every answer brings a look at the battery closer to its end: it takes at most 23 operations.
pub proof fn refresh_comes_to_an_end(progress: SocProgress, event: SocEvent)
    requires
        progress.consistent(),
    ensures
        progress.after(event).consistent(),
        progress.awaits(event) ==> 0 <= progress.after(event).left() < progress.left() <= 23,
        !progress.awaits(event) ==> progress.after(event) == progress,
        progress.left() == 0 <==> progress.stage is Over,
{
}

/// A heater that was started is read out before the look at the battery ends, whatever happens.
pub proof fn heater_is_read_out(progress: SocProgress, event: SocEvent)
    requires
        progress.stage is Loading || progress.stage is LoadSampling || progress.stage is Unloading
            || progress.stage is HeaterReading,
    ensures
        ({
            let after = progress.after(event);
            ||| after.stage is Loading
            ||| after.stage is LoadSampling
            ||| after.stage is Unloading
            ||| after.stage is HeaterReading
            ||| progress.action() == SocAction::ReadHeater && event is HeaterRead
        }),
{
}

/// The two waits of a pulse add up to the time that the heated measurement takes.
pub proof fn pulse_waits_add_up(progress: SocProgress, open_mv: u16, pulse: BatteryMeasurement)
    ensures
        progress.at(SocStage::Loading { open_mv }).action()->ms + progress.at(
            SocStage::Unloading { pulse },
        ).action()->ms == progress.config.heater_duration.wait_ms(),
{
}

/// A battery that is not due is left alone; one that is due and has no heater to load it is
/// judged by its open voltage, or by what is to be expected where that cannot be measured.
pub proof fn plain_refresh_goes_by_open_voltage(start: SocProgress, raw: i16)
    requires
        start.stage is Starting,
    ensures
        !start.due ==> start.run(seq![SocEvent::Started]).action() == SocAction::Finish(
            SocEvidence::Nothing,
        ),
        start.due && !start.heater ==> start.run(
            seq![SocEvent::Started, SocEvent::Sampled(raw)],
        ).action() == SocAction::Finish(
            SocEvidence::of_open_voltage(environment::vdd_mv(raw), start.conditions),
        ),
{
    lemma_run_one(start, SocEvent::Started);
    lemma_run_extends(start, seq![SocEvent::Started], SocEvent::Sampled(raw));
    assert(seq![SocEvent::Started].push(SocEvent::Sampled(raw)) == seq![
        SocEvent::Started,
        SocEvent::Sampled(raw),
    ]);
}

/// The answers of a pulse in which everything works.
pub open spec fn good_pulse(open: i16, load: i16) -> Seq<SocEvent> {
    seq![
        SocEvent::Sampled(open),
        SocEvent::HeaterStarted(true),
        SocEvent::Elapsed,
        SocEvent::Sampled(load),
        SocEvent::Elapsed,
        SocEvent::HeaterRead,
    ]
}

proof fn lemma_run_extends(start: SocProgress, events: Seq<SocEvent>, event: SocEvent)
    ensures
        start.run(events.push(event)) == start.run(events).after(event),
{
    reveal(SocProgress::run);
    assert(events.push(event).drop_last() == events);
}

proof fn lemma_run_one(start: SocProgress, event: SocEvent)
    ensures
        start.run(seq![event]) == start.after(event),
{
    reveal_with_fuel(SocProgress::run, 2);
    assert(seq![event].drop_last() == Seq::<SocEvent>::empty());
}

proof fn lemma_run_chains(start: SocProgress, first: Seq<SocEvent>, second: Seq<SocEvent>)
    ensures
        start.run(first + second) == start.run(first).run(second),
    decreases second.len(),
{
    reveal(SocProgress::run);
    if second.len() == 0 {
        assert(first + second == first);
    } else {
        lemma_run_chains(start, first, second.drop_last());
        assert((first + second).drop_last() == first + second.drop_last());
    }
}

/// A pulse in which everything works measures the battery with and without load, and the drop
/// to be expected stands in for a voltage under load that could not be measured.
pub proof fn good_pulse_measures(progress: SocProgress, open: i16, load: i16)
    requires
        progress.stage is OpenSampling,
        open > 0,
    ensures
        progress.run(good_pulse(open, load)) == progress.after_pulse(
            Some(progress.pulse(environment::vdd_mv(open)->0, environment::vdd_mv(load))),
        ),
{
    let open_event = SocEvent::Sampled(open);
    let load_event = SocEvent::Sampled(load);
    let started = SocEvent::HeaterStarted(true);
    lemma_run_one(progress, open_event);
    lemma_run_extends(progress, seq![open_event], started);
    let two = seq![open_event].push(started);
    lemma_run_extends(progress, two, SocEvent::Elapsed);
    let three = two.push(SocEvent::Elapsed);
    lemma_run_extends(progress, three, load_event);
    let four = three.push(load_event);
    lemma_run_extends(progress, four, SocEvent::Elapsed);
    let five = four.push(SocEvent::Elapsed);
    lemma_run_extends(progress, five, SocEvent::HeaterRead);
    assert(five.push(SocEvent::HeaterRead) == good_pulse(open, load));
}

/// A single pulse that works decides by itself; one that fails, because the battery cannot be
/// measured or the heater does not start, leaves the decision to the open voltage.
pub proof fn single_pulse_decides(start: SocProgress, open: i16, load: i16)
    requires
        start.stage is Starting,
        start.due,
        start.heater,
        !start.auto_calibrate,
    ensures
        open > 0 ==> start.run(seq![SocEvent::Started] + good_pulse(open, load)).action()
            == SocAction::Finish(
            SocEvidence::Measurement(start.pulse(environment::vdd_mv(open)->0, environment::vdd_mv(load))),
        ),
        open <= 0 ==> start.run(
            seq![SocEvent::Started, SocEvent::Sampled(open), SocEvent::Sampled(load)],
        ).action() == SocAction::Finish(
            SocEvidence::of_open_voltage(environment::vdd_mv(load), start.conditions),
        ),
        open > 0 ==> start.run(
            seq![
                SocEvent::Started,
                SocEvent::Sampled(open),
                SocEvent::HeaterStarted(false),
                SocEvent::Sampled(load),
            ],
        ).action() == SocAction::Finish(
            SocEvidence::of_open_voltage(environment::vdd_mv(load), start.conditions),
        ),
{
    let started = seq![SocEvent::Started];
    lemma_run_one(start, SocEvent::Started);
    lemma_run_chains(start, started, good_pulse(open, load));
    if open > 0 {
        good_pulse_measures(start.run(started), open, load);
    }
    let sampled = started.push(SocEvent::Sampled(open));
    lemma_run_extends(start, started, SocEvent::Sampled(open));
    lemma_run_extends(start, sampled, SocEvent::Sampled(load));
    assert(sampled.push(SocEvent::Sampled(load)) == seq![
        SocEvent::Started,
        SocEvent::Sampled(open),
        SocEvent::Sampled(load),
    ]);
    let refused = sampled.push(SocEvent::HeaterStarted(false));
    lemma_run_extends(start, sampled, SocEvent::HeaterStarted(false));
    lemma_run_extends(start, refused, SocEvent::Sampled(load));
    assert(refused.push(SocEvent::Sampled(load)) == seq![
        SocEvent::Started,
        SocEvent::Sampled(open),
        SocEvent::HeaterStarted(false),
        SocEvent::Sampled(load),
    ]);
}

/// The first look at the battery takes three pulses, and the one that shows the lowest
/// resistance decides.
pub proof fn first_refresh_takes_the_best_of_three(
    start: SocProgress,
    open: (i16, i16, i16),
    load: (i16, i16, i16),
)
    requires
        start.stage is Starting,
        start.due,
        start.heater,
        start.auto_calibrate,
        start.samples.len() == 0,
        start.pulses == 0,
        open.0 > 0 && open.1 > 0 && open.2 > 0,
    ensures
        start.run(
            seq![SocEvent::Started] + (good_pulse(open.0, load.0).push(SocEvent::Elapsed) + (
            good_pulse(open.1, load.1).push(SocEvent::Elapsed) + good_pulse(open.2, load.2).push(
                SocEvent::Elapsed,
            ))),
        ).stage == SocStage::Over(
            SocEvidence::Measurement(
                battery::lowest_of(
                    seq![
                        start.pulse(environment::vdd_mv(open.0)->0, environment::vdd_mv(load.0)),
                        start.pulse(environment::vdd_mv(open.1)->0, environment::vdd_mv(load.1)),
                        start.pulse(environment::vdd_mv(open.2)->0, environment::vdd_mv(load.2)),
                    ],
                )->0,
            ),
        ),
{
    let first = start.run(seq![SocEvent::Started]);
    lemma_run_one(start, SocEvent::Started);
    let one = good_pulse(open.0, load.0).push(SocEvent::Elapsed);
    let two = good_pulse(open.1, load.1).push(SocEvent::Elapsed);
    let three = good_pulse(open.2, load.2).push(SocEvent::Elapsed);
    lemma_run_chains(start, seq![SocEvent::Started], one + (two + three));
    lemma_run_chains(first, one, two + three);
    good_pulse_measures(first, open.0, load.0);
    lemma_run_extends(first, good_pulse(open.0, load.0), SocEvent::Elapsed);
    let second = first.run(one);
    lemma_run_chains(second, two, three);
    good_pulse_measures(second, open.1, load.1);
    lemma_run_extends(second, good_pulse(open.1, load.1), SocEvent::Elapsed);
    let third = second.run(two);
    good_pulse_measures(third, open.2, load.2);
    lemma_run_extends(third, good_pulse(open.2, load.2), SocEvent::Elapsed);
    let samples = third.run(good_pulse(open.2, load.2)).samples;
    assert(samples == seq![
        start.pulse(environment::vdd_mv(open.0)->0, environment::vdd_mv(load.0)),
        start.pulse(environment::vdd_mv(open.1)->0, environment::vdd_mv(load.1)),
        start.pulse(environment::vdd_mv(open.2)->0, environment::vdd_mv(load.2)),
    ]);
}

/// What each answer leads to. A look that is not due ends with nothing; one that is starts with
/// the open voltage, which decides alone where there is no heater. A pulse goes from the open
/// voltage to the heater, the load, the voltage under load and the readout, and keeps what it has
/// measured on the way; where the open voltage is not above zero or the heater does not start, it
/// has brought nothing.
pub proof fn answers_lead_through_a_pulse(progress: SocProgress, open_mv: u16, raw: i16, pulse:
    BatteryMeasurement)
    ensures
        ({
            let started = progress.at(SocStage::Starting).after(SocEvent::Started).stage;
            &&& !progress.due ==> started == SocStage::Over(SocEvidence::Nothing)
            &&& progress.due && progress.heater ==> started == SocStage::OpenSampling
            &&& progress.due && !progress.heater ==> started == SocStage::FallbackSampling
        }),
        ({
            let sampled = progress.at(SocStage::OpenSampling).after(SocEvent::Sampled(raw));
            &&& raw > 0 ==> sampled.stage is HeaterStarting
            &&& raw > 0 ==> 4095 * sampled.stage->HeaterStarting_open_mv <= 3600 * raw < 4095
                * sampled.stage->HeaterStarting_open_mv + 4095
            &&& raw <= 0 && progress.auto_calibrate ==> sampled.stage is Pausing && sampled.pulses
                == progress.pulses + 1 && sampled.samples == progress.samples
            &&& raw <= 0 && !progress.auto_calibrate ==> sampled.stage is FallbackSampling
        }),
        ({
            let starting = progress.at(SocStage::HeaterStarting { open_mv });
            let refused = starting.after(SocEvent::HeaterStarted(false));
            &&& starting.after(SocEvent::HeaterStarted(true)).stage == SocStage::Loading { open_mv }
            &&& progress.auto_calibrate ==> refused.stage is Pausing && refused.pulses
                == progress.pulses + 1 && refused.samples == progress.samples
            &&& !progress.auto_calibrate ==> refused.stage is FallbackSampling
        }),
        progress.at(SocStage::Loading { open_mv }).after(SocEvent::Elapsed).stage
            == (SocStage::LoadSampling { open_mv }),
        ({
            let loaded = progress.at(SocStage::LoadSampling { open_mv }).after(
                SocEvent::Sampled(raw),
            ).stage;
            let found = loaded->Unloading_pulse;
            let drop = 280 + (if progress.conditions.ambient_temp_cdeg < 0 {
                170int
            } else {
                0int
            }) + (if progress.conditions.board_hot {
                185int
            } else {
                0int
            });
            &&& loaded is Unloading
            &&& found.open_mv == open_mv
            &&& found.load_current_ma == match progress.config.heater_power {
                HeatingPower::Low => 6,
                HeatingPower::Medium => 31,
                HeatingPower::High => 56int,
            }
            &&& raw > 0 ==> 4095 * found.load_mv <= 3600 * raw < 4095 * found.load_mv + 4095
            &&& raw <= 0 && open_mv >= drop ==> found.load_mv == open_mv - drop
            &&& raw <= 0 && open_mv < drop ==> found.load_mv == 0
        }),
        progress.at(SocStage::Unloading { pulse }).after(SocEvent::Elapsed).stage
            == (SocStage::HeaterReading { pulse }),
        ({
            let read = progress.at(SocStage::HeaterReading { pulse }).after(SocEvent::HeaterRead);
            &&& progress.auto_calibrate ==> read.stage is Pausing && read.pulses == progress.pulses
                + 1 && read.samples == progress.samples.push(pulse)
            &&& !progress.auto_calibrate ==> read.stage == SocStage::Over(
                SocEvidence::Measurement(pulse),
            )
        }),
{
    environment::converter_results_are_shares_of_full_scale(raw);
}

/// After a pause there is another pulse as long as there were fewer than three. After three, the
/// first of those measurements decides that has the lowest resistance, and the open voltage where
/// there is no measurement.
pub proof fn three_pulses_are_weighed(progress: SocProgress) -> (at: int)
    ensures
        ({
            let after = progress.at(SocStage::Pausing).after(SocEvent::Elapsed).stage;
            let samples = progress.samples;
            &&& progress.pulses < 3 ==> after == SocStage::OpenSampling
            &&& progress.pulses >= 3 && samples.len() == 0 ==> after == SocStage::FallbackSampling
            &&& progress.pulses >= 3 && samples.len() > 0 ==> {
                &&& 0 <= at < samples.len()
                &&& after == SocStage::Over(SocEvidence::Measurement(samples[at]))
                &&& forall|i: int|
                    0 <= i < samples.len() ==> samples[at].resistance() <= (
                    #[trigger] samples[i]).resistance()
                &&& forall|i: int|
                    0 <= i < at ==> samples[at].resistance() < (#[trigger] samples[i]).resistance()
            }
        }),
{
    battery::first_of_the_lowest_counts(progress.samples)
}

/// An open voltage that can be measured ends the look with itself, one that cannot with what is
/// to be expected.
pub proof fn fallback_goes_by_what_it_has(progress: SocProgress, raw: i16)
    ensures
        ({
            let after = progress.at(SocStage::FallbackSampling).after(SocEvent::Sampled(raw)).stage;
            &&& raw > 0 ==> after is Over && after->Over_0 is OpenVoltage
            &&& raw > 0 ==> 4095 * after->Over_0->OpenVoltage_0 <= 3600 * raw < 4095
                * after->Over_0->OpenVoltage_0 + 4095
            &&& raw <= 0 ==> after == SocStage::Over(
                SocEvidence::Measurement(progress.conditions.expected()),
            )
        }),
{
    environment::converter_results_are_shares_of_full_scale(raw);
}

/// What is asked for in each stage: a voltage three times, the heater with the command of the
/// configured pulse, each half of its time before and after the voltage under load, a quarter of
/// a second between pulses, and in the end what was found. Nothing but the stage, the pulses and
/// their measurements ever changes.
pub proof fn stages_ask_for_their_operation(progress: SocProgress, event: SocEvent)
    ensures
        ({
            let half_ms = match progress.config.heater_duration {
                HeatingDuration::Short => 55u64,
                HeatingDuration::Long => 550u64,
            };
            match progress.stage {
                SocStage::Starting => progress.action() == SocAction::Start,
                SocStage::OpenSampling | SocStage::LoadSampling { .. } | SocStage::FallbackSampling
                    => progress.action() == SocAction::SampleVdd,
                SocStage::HeaterStarting { .. } => progress.action() == (SocAction::StartHeater {
                    command: environment::heater_command_byte(
                        progress.config.heater_power,
                        progress.config.heater_duration,
                    ),
                }),
                SocStage::Loading { .. } | SocStage::Unloading { .. } => progress.action() == (
                SocAction::Wait { ms: half_ms }),
                SocStage::HeaterReading { .. } => progress.action() == SocAction::ReadHeater,
                SocStage::Pausing => progress.action() == (SocAction::Wait { ms: 250 }),
                SocStage::Over(evidence) => progress.action() == SocAction::Finish(evidence),
            }
        }),
        ({
            let after = progress.after(event);
            &&& after.config == progress.config && after.conditions == progress.conditions
            &&& after.due == progress.due && after.heater == progress.heater
            &&& after.auto_calibrate == progress.auto_calibrate
            &&& progress.stage is Over ==> after == progress
        }),
{
}

} // verus!
