//! Environment monitoring: periodic air readings and occasional looks at the battery.
//!
//! The air is read every five minutes. The battery is looked at once a week, either by its open
//! voltage alone or, with the heater of the air sensor as a load, by its internal resistance.

use crate::battery;
use crate::battery::{
    BatteryEstimator, BatteryMeasurement, BatteryRecord, DEFAULT_HEATER_CURRENT_MA,
    HEATER_CURRENT_110MW_MA, HEATER_CURRENT_200MW_MA, HEATER_CURRENT_20MW_MA,
};
use crate::diagnostics::DiagnosticsState;
use crate::settings::SocSettings;
use crate::tasks::air::{ambient_temp_cdeg, environment_reading, AirSample};
use crate::tasks::soc_refresh::{SocProgress, SocRefresh, SocStage};
use crate::telemetry::EnvReading;
use vstd::prelude::*;

verus! {

/// The largest result of the analog converter.
pub const ADC_MAX_COUNTS: i32 = 4095;

/// The voltage of that result.
pub const SAADC_VDD_FULL_SCALE_MV: i32 = 3600;

/// How often the battery is looked at until it has been once.
pub const INITIAL_SOC_REFRESH_CYCLES: u32 = 12;

/// A board above this temperature in degrees Celsius counts as hot.
pub const HOT_BOARD_C: u8 = 40;

/// The precision to ask of the air sensor.
#[derive(Clone, Copy, Debug, PartialEq, Eq, Structural)]
pub enum Precision {
    Low,
    Medium,
    High,
}

/// The power of the heater in the air sensor.
#[derive(Clone, Copy, Debug, PartialEq, Eq, Structural)]
pub enum HeatingPower {
    /// 20 mW.
    Low,
    /// 110 mW.
    Medium,
    /// 200 mW.
    High,
}

/// How long the heater in the air sensor stays on.
#[derive(Clone, Copy, Debug, PartialEq, Eq, Structural)]
pub enum HeatingDuration {
    /// A tenth of a second.
    Short,
    /// A second.
    Long,
}

#[derive(Clone, Copy, Debug, PartialEq, Eq, Structural)]
pub struct EnvironmentConfig {
    /// The time between two readings in seconds.
    pub env_period_s: u64,
    /// The number of readings from one look at the battery to the next.
    pub soc_refresh_cycles: u32,
    pub sht_precision: Precision,
    pub heater_power: HeatingPower,
    pub heater_duration: HeatingDuration,
}

impl EnvironmentConfig {
    /// The configuration as shipped: a reading every five minutes, the battery once a week.
    pub open spec fn shipping() -> Self {
        EnvironmentConfig {
            env_period_s: 300,
            soc_refresh_cycles: 2016,
            sht_precision: Precision::High,
            heater_power: HeatingPower::Medium,
            heater_duration: HeatingDuration::Short,
        }
    }

    pub fn default_env_period() -> (period_s: u64)
        ensures
            period_s == 300,
    {
        300
    }

    pub fn default_soc_refresh_cycles() -> (cycles: u32)
        ensures
            cycles * 300 == 7 * 24 * 60 * 60,
    {
        (7 * 24 * 60 * 60) / 300
    }

    /// The number of readings from one look at the battery to the next, at least one.
    pub open spec fn refresh_every(self, first_refresh_pending: bool) -> int {
        let weekly = if self.soc_refresh_cycles == 0 {
            1
        } else {
            self.soc_refresh_cycles as int
        };
        if first_refresh_pending && weekly > INITIAL_SOC_REFRESH_CYCLES {
            INITIAL_SOC_REFRESH_CYCLES as int
        } else {
            weekly
        }
    }
}

impl Default for EnvironmentConfig {
    fn default() -> (config: Self)
        ensures
            config == EnvironmentConfig::shipping(),
    {
        EnvironmentConfig {
            env_period_s: Self::default_env_period(),
            soc_refresh_cycles: Self::default_soc_refresh_cycles(),
            sht_precision: Precision::High,
            heater_power: HeatingPower::Medium,
            heater_duration: HeatingDuration::Short,
        }
    }
}

/// The command byte that starts a heated measurement.
pub open spec fn heater_command_byte(power: HeatingPower, duration: HeatingDuration) -> u8 {
    match (power, duration) {
        (HeatingPower::Low, HeatingDuration::Long) => 0x1e,
        (HeatingPower::Low, HeatingDuration::Short) => 0x15,
        (HeatingPower::Medium, HeatingDuration::Long) => 0x2f,
        (HeatingPower::Medium, HeatingDuration::Short) => 0x24,
        (HeatingPower::High, HeatingDuration::Long) => 0x39,
        (HeatingPower::High, HeatingDuration::Short) => 0x32,
    }
}

pub fn heater_command(power: HeatingPower, duration: HeatingDuration) -> (command: u8)
    ensures
        command == heater_command_byte(power, duration),
{
    match (power, duration) {
        (HeatingPower::Low, HeatingDuration::Long) => 0x1e,
        (HeatingPower::Low, HeatingDuration::Short) => 0x15,
        (HeatingPower::Medium, HeatingDuration::Long) => 0x2f,
        (HeatingPower::Medium, HeatingDuration::Short) => 0x24,
        (HeatingPower::High, HeatingDuration::Long) => 0x39,
        (HeatingPower::High, HeatingDuration::Short) => 0x32,
    }
}

impl HeatingDuration {
    /// The time until a heated measurement can be read.
    pub open spec fn wait_ms(self) -> u64 {
        match self {
            HeatingDuration::Short => 110,
            HeatingDuration::Long => 1100,
        }
    }
}

/// The time in milliseconds until a heated measurement can be read.
pub fn heater_wait_duration(duration: HeatingDuration) -> (ms: u64)
    ensures
        ms == duration.wait_ms(),
{
    match duration {
        HeatingDuration::Short => 110,
        HeatingDuration::Long => 1100,
    }
}

impl HeatingPower {
    /// The current that the heater draws.
    pub open spec fn current_ma(self) -> u16 {
        match self {
            HeatingPower::Low => HEATER_CURRENT_20MW_MA,
            HeatingPower::Medium => HEATER_CURRENT_110MW_MA,
            HeatingPower::High => HEATER_CURRENT_200MW_MA,
        }
    }
}

pub fn heater_current_ma(power: HeatingPower) -> (ma: u16)
    ensures
        ma == power.current_ma(),
{
    match power {
        HeatingPower::Low => HEATER_CURRENT_20MW_MA,
        HeatingPower::Medium => HEATER_CURRENT_110MW_MA,
        HeatingPower::High => HEATER_CURRENT_200MW_MA,
    }
}

/// The supply voltage for a result of the converter, if the result is one.
pub open spec fn vdd_mv(raw: i16) -> Option<u16> {
    if raw <= 0 {
        None
    } else {
        Some((raw * 3600 / 4095) as u16)
    }
}

pub fn counts_to_vdd_mv(raw: i16) -> (mv: Option<u16>)
    ensures
        mv == vdd_mv(raw),
{
    if raw <= 0 {
        return None;
    }
    let mv: i32 = (raw as i32 * SAADC_VDD_FULL_SCALE_MV) / ADC_MAX_COUNTS;
    Some(mv as u16)
}

pub fn is_soc_refresh_due(
    config: EnvironmentConfig,
    cycle: u32,
    first_refresh_pending: bool,
) -> (due: bool)
    ensures
        due <==> cycle as int % config.refresh_every(first_refresh_pending) == 0,
{
    let weekly: u32 = config.soc_refresh_cycles.max(1);
    let refresh_cycles: u32 = if first_refresh_pending {
        INITIAL_SOC_REFRESH_CYCLES.min(weekly)
    } else {
        weekly
    };
    cycle % refresh_cycles == 0
}

/// What is known of the temperatures while the battery is looked at.
#[derive(Clone, Copy, Debug, PartialEq, Eq, Structural)]
pub struct Conditions {
    /// The temperature of the air in hundredths of a degree.
    pub ambient_temp_cdeg: i16,
    /// Whether the board is known to be above [`HOT_BOARD_C`].
    pub board_hot: bool,
}

impl Conditions {
    /// The open voltage to expect of a good cell.
    pub open spec fn open_mv(self) -> u16 {
        match (self.ambient_temp_cdeg < 0, self.board_hot) {
            (false, false) => 3600,
            (false, true) => 3560,
            (true, false) => 3520,
            (true, true) => 3480,
        }
    }

    /// The voltage drop to expect under load.
    pub open spec fn drop_mv(self) -> u16 {
        match (self.ambient_temp_cdeg < 0, self.board_hot) {
            (false, false) => 280,
            (false, true) => 465,
            (true, false) => 450,
            (true, true) => 635,
        }
    }

    /// What to expect of the battery where nothing could be measured.
    pub open spec fn expected(self) -> BatteryMeasurement {
        BatteryMeasurement {
            open_mv: self.open_mv(),
            load_mv: (self.open_mv() - self.drop_mv()) as u16,
            load_current_ma: DEFAULT_HEATER_CURRENT_MA,
        }
    }
}

pub fn estimate_open_circuit_mv(conditions: Conditions) -> (mv: u16)
    ensures
        mv == conditions.open_mv(),
{
    let cold_penalty_mv: u16 = if conditions.ambient_temp_cdeg < 0 {
        80
    } else {
        0
    };
    let warm_penalty_mv: u16 = if conditions.board_hot {
        40
    } else {
        0
    };
    3600u16.saturating_sub(cold_penalty_mv + warm_penalty_mv)
}

pub fn estimate_loaded_voltage_drop_mv(conditions: Conditions) -> (mv: u16)
    ensures
        mv == conditions.drop_mv(),
{
    let base_mv: u16 = 280;
    let cold_extra_mv: u16 = if conditions.ambient_temp_cdeg < 0 {
        170
    } else {
        0
    };
    let hot_extra_mv: u16 = if conditions.board_hot {
        185
    } else {
        0
    };
    base_mv + cold_extra_mv + hot_extra_mv
}

/// What a look at the battery has brought to light.
#[derive(Clone, Copy, Debug, PartialEq, Eq, Structural)]
pub enum SocEvidence {
    /// The battery was not looked at.
    Nothing,
    /// Only its open voltage is known.
    OpenVoltage(u16),
    /// Its voltage with and without load is known, or expected.
    Measurement(BatteryMeasurement),
}

impl SocEvidence {
    /// What the estimate of the charge becomes in the light of this.
    pub open spec fn weighed(self, record: BatteryRecord) -> BatteryRecord {
        match self {
            SocEvidence::Nothing => record,
            SocEvidence::OpenVoltage(open_mv) => BatteryRecord {
                percent: battery::smoothed(
                    record.percent as int,
                    battery::charge_by_voltage(open_mv as int),
                ) as u8,
                ..record
            },
            SocEvidence::Measurement(measurement) => BatteryRecord {
                percent: battery::smoothed(
                    record.percent as int,
                    battery::charge(measurement.open_mv as int, measurement.resistance()),
                ) as u8,
                best_resistance_mohm: battery::best_of(
                    record.best_resistance_mohm as int,
                    measurement.resistance(),
                ) as u32,
            },
        }
    }

    /// What to go by after an attempt to measure the open voltage.
    pub open spec fn of_open_voltage(measured: Option<u16>, conditions: Conditions) -> SocEvidence {
        match measured {
            Some(open_mv) => SocEvidence::OpenVoltage(open_mv),
            None => SocEvidence::Measurement(conditions.expected()),
        }
    }
}

/// What to go by after an attempt to measure the open voltage: that voltage, or what is to be
/// expected of the battery under the given conditions.
pub fn open_voltage_evidence(measured_open_mv: Option<u16>, conditions: Conditions) -> (evidence:
    SocEvidence)
    ensures
        evidence == SocEvidence::of_open_voltage(measured_open_mv, conditions),
{
    match measured_open_mv {
        Some(open_mv) => SocEvidence::OpenVoltage(open_mv),
        None => {
            let open_mv: u16 = estimate_open_circuit_mv(conditions);
            let load_mv: u16 = open_mv.saturating_sub(estimate_loaded_voltage_drop_mv(conditions));
            SocEvidence::Measurement(
                BatteryMeasurement { open_mv, load_mv, load_current_ma: DEFAULT_HEATER_CURRENT_MA },
            )
        },
    }
}

/// Updates the estimate of the charge and returns it in percent.
pub fn estimate_battery_soc_pct(battery: &mut BatteryEstimator, evidence: SocEvidence) -> (percent:
    u8)
    ensures
        final(battery)@ == evidence.weighed(old(battery)@),
        percent == final(battery)@.percent,
{
    match evidence {
        SocEvidence::Nothing => battery.current_percent(),
        SocEvidence::OpenVoltage(open_mv) => battery.update_from_open_voltage(open_mv).percent,
        SocEvidence::Measurement(measurement) => battery.update_from_measurement(
            measurement,
        ).percent,
    }
}

/// What the environment task keeps in mind from one reading to the next.
#[derive(Clone, Copy, Debug, PartialEq, Eq)]
pub struct EnvironmentMonitor {
    config: EnvironmentConfig,
    cycle: u32,
    stored: SocSettings,
    battery: BatteryEstimator,
    first_refresh_pending: bool,
}

/// What an [`EnvironmentMonitor`] goes by.
pub struct EnvironmentProgress {
    pub config: EnvironmentConfig,
    /// The number of readings so far, starting over after the largest.
    pub cycle: u32,
    /// The settings last handed out to be stored.
    pub stored: SocSettings,
    pub battery: BatteryRecord,
    /// Whether the battery has not been looked at yet.
    pub first_refresh_pending: bool,
}

impl EnvironmentProgress {
    /// Where a device starts with the given settings.
    pub open spec fn start(config: EnvironmentConfig, stored: SocSettings) -> Self {
        EnvironmentProgress {
            config,
            cycle: 0,
            stored,
            battery: BatteryRecord {
                percent: stored.last_battery_percent,
                best_resistance_mohm: stored.best_resistance_mohm,
            },
            first_refresh_pending: !stored.autocal_complete,
        }
    }

    /// How a look at the battery starts under the given conditions.
    pub open spec fn refresh(self, heater: bool, air: AirSample, board_hot: bool) -> SocProgress {
        SocProgress {
            config: self.config,
            conditions: Conditions { ambient_temp_cdeg: air.temperature_cdeg() as i16, board_hot },
            due: self.cycle as int % self.config.refresh_every(self.first_refresh_pending) == 0,
            heater,
            auto_calibrate: self.first_refresh_pending,
            stage: SocStage::Starting,
            samples: Seq::empty(),
            pulses: 0,
        }
    }

    /// Where things stand once a reading has been made.
    pub open spec fn after_reading(self, evidence: SocEvidence) -> Self {
        let battery = evidence.weighed(self.battery);
        EnvironmentProgress {
            stored: SocSettings {
                autocal_complete: true,
                last_battery_percent: battery.percent,
                best_resistance_mohm: battery.best_resistance_mohm,
                ..self.stored
            },
            battery,
            first_refresh_pending: false,
            ..self
        }
    }

    /// Where things stand in the next cycle.
    pub open spec fn next_cycle(self) -> Self {
        EnvironmentProgress {
            cycle: if self.cycle == u32::MAX {
                0
            } else {
                (self.cycle + 1) as u32
            },
            ..self
        }
    }
}

impl View for EnvironmentMonitor {
    type V = EnvironmentProgress;

    closed spec fn view(&self) -> EnvironmentProgress {
        EnvironmentProgress {
            config: self.config,
            cycle: self.cycle,
            stored: self.stored,
            battery: self.battery@,
            first_refresh_pending: self.first_refresh_pending,
        }
    }
}

impl EnvironmentMonitor {
    pub fn new(config: EnvironmentConfig, stored: SocSettings) -> (monitor: Self)
        ensures
            monitor@ == EnvironmentProgress::start(config, stored),
    {
        EnvironmentMonitor {
            config,
            cycle: 0,
            stored,
            battery: BatteryEstimator::from_state(
                stored.last_battery_percent,
                stored.best_resistance_mohm,
            ),
            first_refresh_pending: !stored.autocal_complete,
        }
    }

    /// Starts to look at the battery, once the air has been measured. `heater` tells whether the
    /// heater of the air sensor may load it.
    pub fn start_refresh(&self, heater: bool, air: AirSample, board_hot: bool) -> (refresh:
        SocRefresh)
        ensures
            refresh.wf(),
            refresh@ == self@.refresh(heater, air, board_hot),
    {
        SocRefresh::new(
            self.config,
            Conditions { ambient_temp_cdeg: ambient_temp_cdeg(air), board_hot },
            is_soc_refresh_due(self.config, self.cycle, self.first_refresh_pending),
            heater,
            self.first_refresh_pending,
        )
    }

    /// Takes note of what the sensors have shown, and hands out the reading to send and the
    /// settings to store.
    pub fn on_reading(&mut self, air: AirSample, evidence: SocEvidence) -> (done: (
        EnvReading,
        SocSettings,
    ))
        ensures
            final(self)@ == old(self)@.after_reading(evidence),
            done.0 == air.reading(final(self)@.battery.percent),
            done.1 == final(self)@.stored,
    {
        let battery_soc_pct: u8 = estimate_battery_soc_pct(&mut self.battery, evidence);
        self.stored.autocal_complete = true;
        self.stored.last_battery_percent = self.battery.current_percent();
        self.stored.best_resistance_mohm = self.battery.best_resistance_mohm();
        self.first_refresh_pending = false;
        (environment_reading(air, battery_soc_pct), self.stored)
    }

    /// Ends a cycle, in which there was a reading or not.
    pub fn end_cycle(&mut self)
        ensures
            final(self)@ == old(self)@.next_cycle(),
    {
        self.cycle = self.cycle.wrapping_add(1);
    }
}

/// The settings to write to flash: none while the supply is about to fail, which is noted.
pub fn settings_to_persist(
    power_fail_warning: bool,
    diagnostics: &mut DiagnosticsState,
    settings: SocSettings,
) -> (persist: Option<SocSettings>)
    ensures
        persist == if power_fail_warning {
            None
        } else {
            Some(settings)
        },
        *final(diagnostics) == if power_fail_warning {
            (DiagnosticsState { pofwarn_seen: true, ..*old(diagnostics) })
        } else {
            *old(diagnostics)
        },
{
    if power_fail_warning {
        diagnostics.note_pofwarn();
        None
    } else {
        Some(settings)
    }
}

/// Between two readings the reported charge never rises, whatever the sensors show, and it
/// falls by ten percent at most.
pub proof fn reported_charge_never_rises(progress: EnvironmentProgress, evidence: SocEvidence)
    ensures
        progress.after_reading(evidence).battery.percent <= progress.battery.percent,
        progress.after_reading(evidence).battery.percent >= progress.battery.percent - 10,
        progress.next_cycle().battery == progress.battery,
        evidence is Nothing ==> progress.after_reading(evidence).battery == progress.battery,
{
    match evidence {
        SocEvidence::Nothing => {},
        SocEvidence::OpenVoltage(open_mv) => {
            battery::charge_follows_voltage_and_resistance(open_mv as int, open_mv as int, 1, 1);
        },
        SocEvidence::Measurement(measurement) => {
            battery::charge_follows_voltage_and_resistance(
                measurement.open_mv as int,
                measurement.open_mv as int,
                if measurement.resistance() > 0 {
                    measurement.resistance()
                } else {
                    1
                },
                if measurement.resistance() > 0 {
                    measurement.resistance()
                } else {
                    1
                },
            );
        },
    }
}

/// A device that restarts goes on with the estimate that it last stored, and looks at the
/// battery in its first cycle.
pub proof fn estimate_survives_a_restart(
    progress: EnvironmentProgress,
    evidence: SocEvidence,
    air: AirSample,
)
    ensures
        ({
            let before = progress.after_reading(evidence);
            let restarted = EnvironmentProgress::start(progress.config, before.stored);
            &&& restarted.battery == before.battery
            &&& restarted.first_refresh_pending == before.first_refresh_pending
            &&& restarted.refresh(false, air, false).due
            &&& before.stored.window_calibrated == progress.stored.window_calibrated
            &&& before.stored.window_closed_baseline_mt_x10
                == progress.stored.window_closed_baseline_mt_x10
        }),
{
    vstd::arithmetic::div_mod::lemma_small_mod(
        0,
        progress.config.refresh_every(false) as nat,
    );
}

/// A result of the converter stands for the share of 3.6 volts that it is of 4095, rounded down
/// to whole millivolts; only a result above zero is one.
pub proof fn converter_results_are_shares_of_full_scale(raw: i16)
    ensures
        vdd_mv(raw) is None <==> raw <= 0,
        vdd_mv(raw) matches Some(mv) ==> 4095 * mv <= 3600 * raw < 4095 * mv + 4095,
{
    if raw > 0 {
        let mv = raw as int * 3600 / 4095;
        assert(0 <= mv <= 65_535);
    }
}

/// The battery is looked at in every cycle whose number is a multiple of the period, which is the
/// configured one, but for the first look twelve cycles at most, and never zero.
pub proof fn looks_come_at_their_period(config: EnvironmentConfig)
    ensures
        config.soc_refresh_cycles > 0 ==> config.refresh_every(false) == config.soc_refresh_cycles,
        config.soc_refresh_cycles == 0 ==> config.refresh_every(false) == 1,
        config.refresh_every(true) <= 12,
        config.refresh_every(true) <= config.refresh_every(false),
        config.refresh_every(true) == 12 || config.refresh_every(true) == config.refresh_every(
            false,
        ),
        config.refresh_every(true) >= 1,
        EnvironmentConfig::shipping().refresh_every(false)
            * EnvironmentConfig::shipping().env_period_s == 7 * 24 * 60 * 60,
{
}

/// Cold takes 80 millivolts off the open voltage and a hot board takes 40, in sum; they add 170
/// and 185 to the 280 millivolts by which a load pulls it down. What is expected of the battery
/// has both, at the current of 31 milliamperes.
pub proof fn penalties_add_up(conditions: Conditions)
    ensures
        ({
            let cold = if conditions.ambient_temp_cdeg < 0 {
                1int
            } else {
                0int
            };
            let hot = if conditions.board_hot {
                1int
            } else {
                0int
            };
            &&& conditions.open_mv() == 3600 - 80 * cold - 40 * hot
            &&& conditions.drop_mv() == 280 + 170 * cold + 185 * hot
            &&& conditions.expected().open_mv == 3600 - 80 * cold - 40 * hot
            &&& conditions.expected().load_mv == 3320 - 250 * cold - 225 * hot
            &&& conditions.expected().load_current_ma == 31
        }),
{
}

/// A measured open voltage stands for itself, and only where there is none what is expected
/// stands in. The estimate goes ten percent at most toward what the evidence says, and only
/// downward; the best resistance is the lower of the one on record and the one measured, and an
/// open voltage tells nothing of it.
pub proof fn evidence_is_weighed_by_its_kind(
    record: BatteryRecord,
    open_mv: u16,
    measurement: BatteryMeasurement,
    conditions: Conditions,
)
    ensures
        SocEvidence::of_open_voltage(Some(open_mv), conditions) == SocEvidence::OpenVoltage(
            open_mv,
        ),
        SocEvidence::of_open_voltage(None, conditions) == SocEvidence::Measurement(
            conditions.expected(),
        ),
        SocEvidence::Nothing.weighed(record) == record,
        ({
            let after = SocEvidence::OpenVoltage(open_mv).weighed(record);
            let found = battery::charge_by_voltage(open_mv as int);
            &&& after.best_resistance_mohm == record.best_resistance_mohm
            &&& found >= record.percent ==> after.percent == record.percent
            &&& found < record.percent && record.percent - found <= 10 ==> after.percent == found
            &&& record.percent - found > 10 ==> after.percent == record.percent - 10
        }),
        ({
            let after = SocEvidence::Measurement(measurement).weighed(record);
            let resistance = measurement.resistance();
            let found = battery::charge(measurement.open_mv as int, resistance);
            &&& found >= record.percent ==> after.percent == record.percent
            &&& found < record.percent && record.percent - found <= 10 ==> after.percent == found
            &&& record.percent - found > 10 ==> after.percent == record.percent - 10
            &&& record.best_resistance_mohm == 0 ==> after.best_resistance_mohm == resistance
            &&& record.best_resistance_mohm > 0 ==> {
                &&& after.best_resistance_mohm <= record.best_resistance_mohm
                &&& after.best_resistance_mohm <= resistance
                &&& after.best_resistance_mohm == record.best_resistance_mohm
                    || after.best_resistance_mohm == resistance
            }
        }),
{
    battery::charge_follows_voltage_and_resistance(open_mv as int, open_mv as int, 1, 1);
    let resistance = if measurement.resistance() > 0 {
        measurement.resistance()
    } else {
        1
    };
    battery::charge_follows_voltage_and_resistance(
        measurement.open_mv as int,
        measurement.open_mv as int,
        resistance,
        resistance,
    );
}

/// A reading leaves the number of the cycle and the configuration as they are, what is stored
/// afterwards is the new estimate beside the calibration of the window as it was, and from then on
/// the first look is over. The next cycle has the next number, starting over after the largest,
/// and everything else as it was.
pub proof fn readings_are_kept_and_cycles_counted(
    progress: EnvironmentProgress,
    evidence: SocEvidence,
)
    ensures
        ({
            let after = progress.after_reading(evidence);
            let next = progress.next_cycle();
            &&& after.config == progress.config && after.cycle == progress.cycle
            &&& !after.first_refresh_pending
            &&& after.battery == evidence.weighed(progress.battery)
            &&& after.stored.autocal_complete
            &&& after.stored.last_battery_percent == after.battery.percent
            &&& after.stored.best_resistance_mohm == after.battery.best_resistance_mohm
            &&& after.stored.window_calibrated == progress.stored.window_calibrated
            &&& after.stored.window_closed_baseline_mt_x10
                == progress.stored.window_closed_baseline_mt_x10
            &&& next.cycle as int == (progress.cycle + 1) % 0x1_0000_0000
            &&& next == (EnvironmentProgress { cycle: next.cycle, ..progress })
        }),
{
}

/// A look at the battery starts with the conditions of the moment: it is due in the cycles that
/// the period divides, it is the first as long as none was finished, and it has no pulse yet.
pub proof fn looks_start_afresh(
    progress: EnvironmentProgress,
    heater: bool,
    air: AirSample,
    board_hot: bool,
)
    ensures
        ({
            let refresh = progress.refresh(heater, air, board_hot);
            &&& refresh.config == progress.config
            &&& refresh.heater == heater
            &&& refresh.auto_calibrate == progress.first_refresh_pending
            &&& refresh.conditions.board_hot == board_hot
            &&& refresh.conditions.ambient_temp_cdeg == air.reading(0).temperature_cdeg
            &&& refresh.stage is Starting && refresh.samples.len() == 0 && refresh.pulses == 0
            &&& progress.cycle == 0 ==> refresh.due
            &&& progress.config.soc_refresh_cycles == 1 ==> refresh.due
            &&& 0 < progress.cycle < progress.config.soc_refresh_cycles
                && !progress.first_refresh_pending ==> !refresh.due
            &&& progress.cycle == progress.config.soc_refresh_cycles
                && !progress.first_refresh_pending ==> refresh.due
            &&& progress.first_refresh_pending && progress.config.soc_refresh_cycles >= 12 ==> (
            refresh.due <==> progress.cycle as int % 12 == 0)
        }),
{
    let every = progress.config.refresh_every(progress.first_refresh_pending);
    let cycle = progress.cycle as int;
    if cycle < every {
        vstd::arithmetic::div_mod::lemma_small_mod(cycle as nat, every as nat);
    }
    vstd::arithmetic::div_mod::lemma_mod_self_0(every);
}

/// A starting device goes by what was stored: the same charge and resistance, and a first look
/// still to come exactly if none was finished.
pub proof fn devices_start_with_what_was_stored(config: EnvironmentConfig, stored: SocSettings)
    ensures
        ({
            let start = EnvironmentProgress::start(config, stored);
            &&& start.config == config && start.stored == stored && start.cycle == 0
            &&& start.battery.percent == stored.last_battery_percent
            &&& start.battery.best_resistance_mohm == stored.best_resistance_mohm
            &&& start.first_refresh_pending <==> !stored.autocal_complete
        }),
{
}

/// The heater draws more the more power it has, a long pulse is waited for ten times as long as a
/// short one, and no two pulses have the same command.
pub proof fn heater_pulses_are_told_apart(
    power: HeatingPower,
    duration: HeatingDuration,
    other_power: HeatingPower,
    other_duration: HeatingDuration,
)
    ensures
        heater_command_byte(power, duration) == heater_command_byte(other_power, other_duration)
            <==> power == other_power && duration == other_duration,
        HeatingDuration::Long.wait_ms() == 10 * HeatingDuration::Short.wait_ms(),
        HeatingDuration::Short.wait_ms() == 110,
        HeatingPower::Low.current_ma() < HeatingPower::Medium.current_ma(),
        HeatingPower::Medium.current_ma() < HeatingPower::High.current_ma(),
        match power {
            HeatingPower::Low => 0x10u8 <= heater_command_byte(power, duration) < 0x20u8,
            HeatingPower::Medium => 0x20u8 <= heater_command_byte(power, duration) < 0x30u8,
            HeatingPower::High => 0x30u8 <= heater_command_byte(power, duration) < 0x40u8,
        },
{
}

} // verus!
