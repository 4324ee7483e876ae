use window_sensor::battery::{BatteryEstimator, BatteryMeasurement};
use window_sensor::diagnostics::DiagnosticsState;
use window_sensor::settings::SocSettings;
use window_sensor::tasks::air::{ambient_temp_cdeg, environment_reading, AirSample};
use window_sensor::tasks::environment::{
    counts_to_vdd_mv, estimate_battery_soc_pct, estimate_loaded_voltage_drop_mv,
    estimate_open_circuit_mv, heater_command, heater_current_ma, heater_wait_duration,
    is_soc_refresh_due, open_voltage_evidence, settings_to_persist, Conditions, EnvironmentConfig,
    EnvironmentMonitor, HeatingDuration, HeatingPower, SocEvidence, HOT_BOARD_C,
};
use window_sensor::tasks::soc_refresh::{SocAction, SocEvent, SocRefresh};

/// The charge after a look at the battery in which nothing could be measured, if one is due.
fn estimate_unmeasured(
    ambient_temp_cdeg: i16,
    board_temp_c: Option<f32>,
    battery: &mut BatteryEstimator,
    refresh_due: bool,
) -> u8 {
    let conditions = Conditions {
        ambient_temp_cdeg,
        board_hot: matches!(board_temp_c, Some(temp_c) if temp_c > f32::from(HOT_BOARD_C)),
    };
    let evidence = if refresh_due {
        open_voltage_evidence(None, conditions)
    } else {
        SocEvidence::Nothing
    };
    estimate_battery_soc_pct(battery, evidence)
}

#[test]
fn soc_is_stable_between_refresh_cycles() {
    let mut battery = BatteryEstimator::new(87);
    assert_eq!(
        estimate_unmeasured(2150, Some(24.0), &mut battery, false),
        87
    );
    assert_eq!(
        estimate_unmeasured(2150, Some(24.0), &mut battery, false),
        87
    );
}

#[test]
fn soc_refresh_is_monotonic_and_penalizes_cold_cell() {
    let mut battery = BatteryEstimator::new(100);
    assert_eq!(
        estimate_unmeasured(-500, Some(20.0), &mut battery, true),
        90
    );
}

#[test]
fn soc_refresh_penalizes_hot_board() {
    let mut battery = BatteryEstimator::new(88);
    assert_eq!(
        estimate_unmeasured(2200, Some(45.0), &mut battery, true),
        78
    );
}

#[test]
fn first_refresh_happens_well_before_weekly_cadence() {
    let mut battery = BatteryEstimator::new(100);
    assert_eq!(
        estimate_unmeasured(2200, Some(24.0), &mut battery, true),
        90
    );
}

#[test]
fn heater_command_matches_datasheet_codes() {
    assert_eq!(
        heater_command(HeatingPower::Low, HeatingDuration::Long),
        0x1e
    );
    assert_eq!(
        heater_command(HeatingPower::Low, HeatingDuration::Short),
        0x15
    );
    assert_eq!(
        heater_command(HeatingPower::Medium, HeatingDuration::Long),
        0x2f
    );
    assert_eq!(
        heater_command(HeatingPower::Medium, HeatingDuration::Short),
        0x24
    );
    assert_eq!(
        heater_command(HeatingPower::High, HeatingDuration::Long),
        0x39
    );
    assert_eq!(
        heater_command(HeatingPower::High, HeatingDuration::Short),
        0x32
    );
}

#[test]
fn heater_wait_duration_matches_sensor_timing_budget() {
    assert_eq!(heater_wait_duration(HeatingDuration::Short), 110);
    assert_eq!(heater_wait_duration(HeatingDuration::Long), 1100);
}

#[test]
fn default_environment_config_matches_requirement_defaults() {
    let config = EnvironmentConfig::default();
    assert_eq!(config.env_period_s, 300);
    assert_eq!(config.soc_refresh_cycles, 2016);
    assert!(matches!(config.heater_power, HeatingPower::Medium));
    assert!(matches!(config.heater_duration, HeatingDuration::Short));
}

#[test]
fn vdd_counts_convert_to_mv() {
    assert_eq!(counts_to_vdd_mv(2048), Some(1800));
    assert_eq!(counts_to_vdd_mv(1024), Some(900));
    assert_eq!(counts_to_vdd_mv(0), None);
}

fn air(temperature: u16, humidity: u16) -> AirSample {
    AirSample {
        temperature,
        humidity,
    }
}

#[test]
fn raw_air_values_become_hundredths() {
    let reading = environment_reading(air(0x6666, 0x8000), 80);
    assert_eq!(reading.temperature_cdeg, 2499);
    assert_eq!(reading.humidity_cpct, 5650);
    assert_eq!(reading.battery_soc_pct, 80);
    let bottom = environment_reading(air(0, 0), 0);
    assert_eq!(bottom.temperature_cdeg, -4500);
    assert_eq!(bottom.humidity_cpct, 64936);
    let top = environment_reading(air(65535, 65535), 100);
    assert_eq!(top.temperature_cdeg, 13000);
    assert_eq!(top.humidity_cpct, 11900);
    assert_eq!(ambient_temp_cdeg(air(16801, 0)), -13);
}

#[test]
fn more_of_the_raw_value_never_reads_as_less() {
    let mut previous = i16::MIN;
    for raw in 0..=u16::MAX {
        let cdeg = ambient_temp_cdeg(air(raw, 0));
        assert!(previous <= cdeg);
        previous = cdeg;
    }
}

#[test]
fn the_battery_is_due_in_the_first_cycle_and_then_by_the_week() {
    let config = EnvironmentConfig::default();
    assert!(is_soc_refresh_due(config, 0, false));
    assert!(is_soc_refresh_due(config, 0, true));
    assert!(!is_soc_refresh_due(config, 12, false));
    assert!(is_soc_refresh_due(config, 12, true));
    assert!(is_soc_refresh_due(config, 2016, false));
    let always = EnvironmentConfig {
        soc_refresh_cycles: 0,
        ..config
    };
    assert!(is_soc_refresh_due(always, 7, false));
}

#[test]
fn the_expected_voltages_follow_the_temperatures() {
    for (ambient_temp_cdeg, board_hot, open_mv, drop_mv) in [
        (0, false, 3600, 280),
        (0, true, 3560, 465),
        (-1, false, 3520, 450),
        (-1, true, 3480, 635),
    ] {
        let conditions = Conditions {
            ambient_temp_cdeg,
            board_hot,
        };
        assert_eq!(estimate_open_circuit_mv(conditions), open_mv);
        assert_eq!(estimate_loaded_voltage_drop_mv(conditions), drop_mv);
    }
}

fn started(heater: bool, auto_calibrate: bool) -> SocRefresh {
    let mut refresh = SocRefresh::new(
        EnvironmentConfig::default(),
        Conditions {
            ambient_temp_cdeg: 2000,
            board_hot: false,
        },
        true,
        heater,
        auto_calibrate,
    );
    assert_eq!(refresh.action(), SocAction::Start);
    refresh.advance(SocEvent::Started);
    refresh
}

/// Runs a pulse in which everything works.
fn pulse(refresh: &mut SocRefresh, open: i16, load: i16) {
    assert_eq!(refresh.action(), SocAction::SampleVdd);
    refresh.advance(SocEvent::Sampled(open));
    assert_eq!(refresh.action(), SocAction::StartHeater { command: 0x24 });
    refresh.advance(SocEvent::HeaterStarted(true));
    assert_eq!(refresh.action(), SocAction::Wait { ms: 55 });
    refresh.advance(SocEvent::Elapsed);
    assert_eq!(refresh.action(), SocAction::SampleVdd);
    refresh.advance(SocEvent::Sampled(load));
    assert_eq!(refresh.action(), SocAction::Wait { ms: 55 });
    refresh.advance(SocEvent::Elapsed);
    assert_eq!(refresh.action(), SocAction::ReadHeater);
    refresh.advance(SocEvent::HeaterRead);
}

#[test]
fn a_battery_that_is_not_due_is_left_alone() {
    let mut refresh = SocRefresh::new(
        EnvironmentConfig::default(),
        Conditions {
            ambient_temp_cdeg: 2000,
            board_hot: false,
        },
        false,
        true,
        true,
    );
    refresh.advance(SocEvent::Started);
    assert_eq!(refresh.action(), SocAction::Finish(SocEvidence::Nothing));
}

#[test]
fn without_a_heater_the_open_voltage_decides() {
    let mut refresh = started(false, true);
    refresh.advance(SocEvent::Elapsed);
    assert_eq!(refresh.action(), SocAction::SampleVdd);
    refresh.advance(SocEvent::Sampled(4095));
    assert_eq!(
        refresh.action(),
        SocAction::Finish(SocEvidence::OpenVoltage(3600))
    );
    let mut blind = started(false, false);
    blind.advance(SocEvent::Sampled(-1));
    assert_eq!(
        blind.action(),
        SocAction::Finish(SocEvidence::Measurement(BatteryMeasurement {
            open_mv: 3600,
            load_mv: 3320,
            load_current_ma: 31,
        }))
    );
}

#[test]
fn a_single_pulse_decides_or_leaves_it_to_the_open_voltage() {
    let mut refresh = started(true, false);
    pulse(&mut refresh, 4095, 0);
    assert_eq!(
        refresh.action(),
        SocAction::Finish(SocEvidence::Measurement(BatteryMeasurement {
            open_mv: 3600,
            load_mv: 3320,
            load_current_ma: 31,
        }))
    );
    let mut cold = started(true, false);
    cold.advance(SocEvent::Sampled(4095));
    cold.advance(SocEvent::HeaterStarted(false));
    assert_eq!(cold.action(), SocAction::SampleVdd);
    cold.advance(SocEvent::Sampled(4000));
    assert_eq!(
        cold.action(),
        SocAction::Finish(SocEvidence::OpenVoltage(3516))
    );
}

#[test]
fn the_first_refresh_takes_the_best_of_three_pulses() {
    let mut refresh = started(true, true);
    for load in [3700, 3900, 3800] {
        pulse(&mut refresh, 4095, load);
        assert_eq!(refresh.action(), SocAction::Wait { ms: 250 });
        refresh.advance(SocEvent::Elapsed);
    }
    assert_eq!(
        refresh.action(),
        SocAction::Finish(SocEvidence::Measurement(BatteryMeasurement {
            open_mv: 3600,
            load_mv: 3428,
            load_current_ma: 31,
        }))
    );
}

#[test]
fn three_failed_pulses_leave_it_to_the_open_voltage() {
    let mut refresh = started(true, true);
    for _ in 0..3 {
        assert_eq!(refresh.action(), SocAction::SampleVdd);
        refresh.advance(SocEvent::Sampled(0));
        refresh.advance(SocEvent::Elapsed);
    }
    assert_eq!(refresh.action(), SocAction::SampleVdd);
    refresh.advance(SocEvent::Sampled(2048));
    assert_eq!(
        refresh.action(),
        SocAction::Finish(SocEvidence::OpenVoltage(1800))
    );
}

#[test]
fn the_monitor_reports_stores_and_goes_on_after_a_restart() {
    let mut monitor = EnvironmentMonitor::new(EnvironmentConfig::default(), SocSettings::default());
    let sample = air(0x6666, 0x8000);
    let mut refresh = monitor.start_refresh(false, sample, false);
    refresh.advance(SocEvent::Started);
    assert_eq!(refresh.action(), SocAction::SampleVdd);
    let (reading, stored) = monitor.on_reading(sample, SocEvidence::OpenVoltage(3500));
    assert_eq!(reading.battery_soc_pct, 92);
    assert_eq!(
        stored,
        SocSettings {
            autocal_complete: true,
            last_battery_percent: 92,
            ..SocSettings::default()
        }
    );
    monitor.end_cycle();
    let mut later = monitor.start_refresh(true, sample, true);
    later.advance(SocEvent::Started);
    assert_eq!(later.action(), SocAction::Finish(SocEvidence::Nothing));

    let mut restarted = EnvironmentMonitor::new(EnvironmentConfig::default(), stored);
    let (again, _) = restarted.on_reading(sample, SocEvidence::Nothing);
    assert_eq!(again.battery_soc_pct, 92);
}

#[test]
fn nothing_is_stored_while_the_supply_fails() {
    let mut diagnostics = DiagnosticsState::new();
    let settings = SocSettings::default();
    assert_eq!(
        settings_to_persist(false, &mut diagnostics, settings),
        Some(settings)
    );
    assert!(!diagnostics.problem_active());
    assert_eq!(settings_to_persist(true, &mut diagnostics, settings), None);
    assert!(diagnostics.problem_active());
}

#[test]
fn each_heater_power_has_its_current() {
    assert_eq!(heater_current_ma(HeatingPower::Low), 6);
    assert_eq!(heater_current_ma(HeatingPower::Medium), 31);
    assert_eq!(heater_current_ma(HeatingPower::High), 56);
}
