use window_sensor::battery::{
    internal_resistance_mohm, lowest_resistance_measurement, BatteryEstimator, BatteryMeasurement,
    DEFAULT_HEATER_CURRENT_MA,
};

#[test]
fn resistance_is_calculated_from_voltage_drop() {
    let measurement = BatteryMeasurement {
        open_mv: 3600,
        load_mv: 3445,
        load_current_ma: DEFAULT_HEATER_CURRENT_MA,
    };

    assert_eq!(internal_resistance_mohm(measurement), 5000);
}

#[test]
fn fresh_cell_maps_to_full_charge() {
    let mut estimator = BatteryEstimator::new(100);
    let state = estimator.update_from_measurement(BatteryMeasurement {
        open_mv: 3650,
        load_mv: 3620,
        load_current_ma: DEFAULT_HEATER_CURRENT_MA,
    });

    assert_eq!(state.percent, 100);
    assert!(state.resistance_mohm < 5000);
}

#[test]
fn deep_drop_is_smoothed_to_ten_percent_steps() {
    let mut estimator = BatteryEstimator::new(100);
    let state = estimator.update_from_measurement(BatteryMeasurement {
        open_mv: 3500,
        load_mv: 700,
        load_current_ma: DEFAULT_HEATER_CURRENT_MA,
    });

    assert_eq!(state.percent, 90);
}

#[test]
fn charge_never_increases_again() {
    let mut estimator = BatteryEstimator::new(50);
    let state = estimator.update_from_measurement(BatteryMeasurement {
        open_mv: 3650,
        load_mv: 3620,
        load_current_ma: DEFAULT_HEATER_CURRENT_MA,
    });

    assert_eq!(state.percent, 50);
}

#[test]
fn empty_cell_uses_voltage_floor() {
    let mut estimator = BatteryEstimator::new(12);
    let state = estimator.update_from_measurement(BatteryMeasurement {
        open_mv: 2700,
        load_mv: 2500,
        load_current_ma: DEFAULT_HEATER_CURRENT_MA,
    });

    assert_eq!(state.percent, 2);
}

#[test]
fn open_voltage_only_fallback_tracks_end_of_life_knee() {
    let mut estimator = BatteryEstimator::new(100);

    let plateau = estimator.update_from_open_voltage(3580);
    assert_eq!(plateau.percent, 98);

    let knee = estimator.update_from_open_voltage(3200);
    assert_eq!(knee.percent, 88);
}

#[test]
fn resistance_curve_is_smoother_than_coarse_buckets() {
    let mut estimator = BatteryEstimator::new(100);
    let state = estimator.update_from_measurement(BatteryMeasurement {
        open_mv: 3600,
        load_mv: 3290,
        load_current_ma: DEFAULT_HEATER_CURRENT_MA,
    });

    assert_eq!(state.resistance_mohm, 10000);
    assert_eq!(state.percent, 90);
}

#[test]
fn auto_calibration_prefers_lowest_resistance_measurement() {
    let best = lowest_resistance_measurement(&[
        BatteryMeasurement {
            open_mv: 3600,
            load_mv: 3450,
            load_current_ma: DEFAULT_HEATER_CURRENT_MA,
        },
        BatteryMeasurement {
            open_mv: 3600,
            load_mv: 3520,
            load_current_ma: DEFAULT_HEATER_CURRENT_MA,
        },
        BatteryMeasurement {
            open_mv: 3600,
            load_mv: 3490,
            load_current_ma: DEFAULT_HEATER_CURRENT_MA,
        },
    ])
    .unwrap();

    assert_eq!(best.load_mv, 3520);
    assert!(internal_resistance_mohm(best) < 3_000);
}

#[test]
fn estimator_tracks_best_resistance_seen() {
    let mut estimator = BatteryEstimator::new(100);

    estimator.update_from_measurement(BatteryMeasurement {
        open_mv: 3600,
        load_mv: 3500,
        load_current_ma: DEFAULT_HEATER_CURRENT_MA,
    });
    estimator.update_from_measurement(BatteryMeasurement {
        open_mv: 3600,
        load_mv: 3550,
        load_current_ma: DEFAULT_HEATER_CURRENT_MA,
    });

    assert!(estimator.best_resistance_mohm() > 0);
    assert_eq!(estimator.best_resistance_mohm(), 1612);
}

fn measured(open_mv: u16, load_mv: u16) -> BatteryMeasurement {
    BatteryMeasurement {
        open_mv,
        load_mv,
        load_current_ma: DEFAULT_HEATER_CURRENT_MA,
    }
}

#[test]
fn no_current_or_no_drop_means_no_resistance() {
    let idle = BatteryMeasurement {
        open_mv: 3600,
        load_mv: 3000,
        load_current_ma: 0,
    };
    assert_eq!(internal_resistance_mohm(idle), 0);
    assert_eq!(internal_resistance_mohm(measured(3600, 3600)), 0);
    assert_eq!(internal_resistance_mohm(measured(3600, 3700)), 0);
    assert_eq!(internal_resistance_mohm(measured(65535, 0)), 2_114_032);
}

#[test]
fn a_lower_voltage_or_higher_resistance_never_reads_as_more_charge() {
    let mut previous = 100;
    for open_mv in (2800..3700).rev() {
        let mut estimator = BatteryEstimator::new(100);
        for _ in 0..10 {
            estimator.update_from_open_voltage(open_mv);
        }
        assert!(estimator.current_percent() <= previous);
        previous = estimator.current_percent();
    }
    assert_eq!(previous, 0);

    let mut previous = 100;
    for load_mv in (0..3600).rev() {
        let mut estimator = BatteryEstimator::new(100);
        for _ in 0..10 {
            estimator.update_from_measurement(measured(3600, load_mv));
        }
        assert!(estimator.current_percent() <= previous);
        previous = estimator.current_percent();
    }
    assert_eq!(previous, 6);
}

#[test]
fn charge_steps_down_by_ten_until_it_arrives() {
    let mut estimator = BatteryEstimator::new(95);
    let seen: Vec<u8> = (0..9)
        .map(|_| estimator.update_from_open_voltage(3200).percent)
        .collect();
    assert_eq!(seen, vec![85, 75, 65, 55, 45, 35, 28, 28, 28]);
}

#[test]
fn the_best_resistance_never_gets_worse() {
    let mut estimator = BatteryEstimator::from_state(90, 5_000);
    estimator.update_from_measurement(measured(3600, 3000));
    assert_eq!(estimator.best_resistance_mohm(), 5_000);
    estimator.update_from_measurement(measured(3600, 3538));
    assert_eq!(estimator.best_resistance_mohm(), 2_000);
    assert_eq!(
        estimator.update_from_open_voltage(3600).resistance_mohm,
        2_000
    );
}

#[test]
fn the_first_of_equal_measurements_is_taken() {
    assert_eq!(lowest_resistance_measurement(&[]), None);
    let tied = [measured(3600, 3500), measured(3500, 3400)];
    assert_eq!(lowest_resistance_measurement(&tied), Some(tied[0]));
}
