//! Battery SoC estimation logic, independent of ADC/heater hardware wiring.

use vstd::prelude::*;

verus! {

/// Typical SHT4x heater current at 20 mW / 3.6 V.
pub const HEATER_CURRENT_20MW_MA: u16 = 6;

/// Typical SHT4x heater current at 110 mW / 3.6 V.
pub const HEATER_CURRENT_110MW_MA: u16 = 31;

/// Typical SHT4x heater current at 200 mW / 3.6 V.
pub const HEATER_CURRENT_200MW_MA: u16 = 56;

/// Shipping default: 110 mW SHT4x heater pulse.
pub const DEFAULT_HEATER_CURRENT_MA: u16 = HEATER_CURRENT_110MW_MA;

pub const MAX_DROP_PER_UPDATE_PCT: u8 = 10;

#[derive(Clone, Copy, Debug, PartialEq, Eq, Structural)]
pub struct BatteryMeasurement {
    pub open_mv: u16,
    pub load_mv: u16,
    pub load_current_ma: u16,
}

impl BatteryMeasurement {
    /// The internal resistance in milliohms, rounded down; 0 if the measurement shows none.
    pub open spec fn resistance(self) -> int {
        if self.load_current_ma == 0 || self.open_mv <= self.load_mv {
            0
        } else {
            ((self.open_mv - self.load_mv) * 1000) / (self.load_current_ma as int)
        }
    }
}

#[derive(Clone, Copy, Debug, PartialEq, Eq, Structural)]
pub struct BatteryState {
    pub percent: u8,
    pub voltage_mv: u16,
    pub resistance_mohm: u32,
}

#[derive(Clone, Copy, Debug, PartialEq, Eq)]
pub struct BatteryEstimator {
    reported_percent: u8,
    best_resistance_mohm: u32,
}

/// What a [`BatteryEstimator`] keeps: the percentage last reported and the lowest resistance seen,
/// 0 if there is none.
pub struct BatteryRecord {
    pub percent: u8,
    pub best_resistance_mohm: u32,
}

/// The quotient rounded toward zero, for a positive divisor.
pub open spec fn div_toward_zero(a: int, b: int) -> int {
    if a >= 0 {
        a / b
    } else {
        -((-a) / b)
    }
}

/// The height at `value` of the straight line from `from` to `to`, held between 0 and 100.
pub open spec fn on_segment(value: int, from: (u32, u8), to: (u32, u8)) -> int {
    let height = from.1 + div_toward_zero((to.1 - from.1) * (value - from.0), to.0 - from.0);
    if height < 0 {
        0
    } else if height > 100 {
        100
    } else {
        height
    }
}

/// The height at `value` of the curve through `points`; it is level before the first point and
/// after the last.
pub open spec fn on_curve(value: int, points: Seq<(u32, u8)>) -> int
    decreases points.len(),
{
    if points.len() == 0 {
        0
    } else if points.len() == 1 || value <= points[0].0 {
        points[0].1 as int
    } else if value <= points[1].0 {
        on_segment(value, points[0], points[1])
    } else {
        on_curve(value, points.drop_first())
    }
}

/// Whether the points of a curve go from left to right.
pub open spec fn left_to_right(points: Seq<(u32, u8)>) -> bool {
    forall|i: int, j: int| 0 <= i < j < points.len() ==> points[i].0 < points[j].0
}

/// State of charge by open-circuit voltage in millivolts.
pub open spec fn voltage_points() -> Seq<(u32, u8)> {
    seq![
        (2900u32, 0u8),
        (3000u32, 5u8),
        (3100u32, 12u8),
        (3200u32, 28u8),
        (3300u32, 55u8),
        (3400u32, 80u8),
        (3500u32, 92u8),
        (3600u32, 100u8),
    ]
}

/// State of charge by internal resistance in milliohms.
pub open spec fn resistance_points() -> Seq<(u32, u8)> {
    seq![
        (3_000u32, 100u8),
        (5_000u32, 97u8),
        (8_000u32, 92u8),
        (12_000u32, 84u8),
        (18_000u32, 72u8),
        (25_000u32, 60u8),
        (40_000u32, 42u8),
        (60_000u32, 24u8),
        (90_000u32, 10u8),
        (150_000u32, 0u8),
    ]
}

/// The charge that an open-circuit voltage speaks for.
pub open spec fn charge_by_voltage(open_mv: int) -> int {
    on_curve(open_mv, voltage_points())
}

/// The charge that a measurement speaks for: what its voltage allows, and no more than its
/// resistance allows if one was measured.
pub open spec fn charge(open_mv: int, resistance_mohm: int) -> int {
    let by_voltage = charge_by_voltage(open_mv);
    let by_resistance = on_curve(resistance_mohm, resistance_points());
    if resistance_mohm == 0 || by_voltage <= by_resistance {
        by_voltage
    } else {
        by_resistance
    }
}

/// The next percentage to report: it follows `raw` downwards, by at most ten points at a time.
pub open spec fn smoothed(previous: int, raw: int) -> int {
    if raw >= previous {
        previous
    } else if raw < previous - MAX_DROP_PER_UPDATE_PCT {
        previous - MAX_DROP_PER_UPDATE_PCT
    } else {
        raw
    }
}

/// The lowest resistance seen once `resistance` has been measured; 0 stands for none yet.
pub open spec fn best_of(best: int, resistance: int) -> int {
    if best == 0 || resistance < best {
        resistance
    } else {
        best
    }
}

impl View for BatteryEstimator {
    type V = BatteryRecord;

    closed spec fn view(&self) -> BatteryRecord {
        BatteryRecord {
            percent: self.reported_percent,
            best_resistance_mohm: self.best_resistance_mohm,
        }
    }
}

impl BatteryEstimator {
    pub fn new(initial_percent: u8) -> (estimator: Self)
        ensures
            estimator@.percent == initial_percent,
            estimator@.best_resistance_mohm == 0,
    {
        BatteryEstimator { reported_percent: initial_percent, best_resistance_mohm: 0 }
    }

    pub fn from_state(initial_percent: u8, best_resistance_mohm: u32) -> (estimator: Self)
        ensures
            estimator@.percent == initial_percent,
            estimator@.best_resistance_mohm == best_resistance_mohm,
    {
        BatteryEstimator { reported_percent: initial_percent, best_resistance_mohm }
    }

    pub fn current_percent(&self) -> (percent: u8)
        ensures
            percent == self@.percent,
    {
        self.reported_percent
    }

    pub fn best_resistance_mohm(&self) -> (best: u32)
        ensures
            best == self@.best_resistance_mohm,
    {
        self.best_resistance_mohm
    }

    pub fn update_from_measurement(&mut self, measurement: BatteryMeasurement) -> (state:
        BatteryState)
        ensures
            state.percent == smoothed(
                old(self)@.percent as int,
                charge(measurement.open_mv as int, measurement.resistance()),
            ),
            state.voltage_mv == measurement.open_mv,
            state.resistance_mohm == measurement.resistance(),
            final(self)@.percent == state.percent,
            final(self)@.best_resistance_mohm == best_of(
                old(self)@.best_resistance_mohm as int,
                measurement.resistance(),
            ),
    {
        let resistance_mohm: u32 = internal_resistance_mohm(measurement);
        let raw_percent: u8 = estimate_percent(measurement.open_mv, resistance_mohm);
        let next_percent: u8 = smooth_monotonic_percent(self.reported_percent, raw_percent);
        self.reported_percent = next_percent;
        if self.best_resistance_mohm == 0 || resistance_mohm < self.best_resistance_mohm {
            self.best_resistance_mohm = resistance_mohm;
        }
        BatteryState { percent: next_percent, voltage_mv: measurement.open_mv, resistance_mohm }
    }

    pub fn update_from_open_voltage(&mut self, open_mv: u16) -> (state: BatteryState)
        ensures
            state.percent == smoothed(old(self)@.percent as int, charge_by_voltage(open_mv as int)),
            state.voltage_mv == open_mv,
            state.resistance_mohm == old(self)@.best_resistance_mohm,
            final(self)@.percent == state.percent,
            final(self)@.best_resistance_mohm == old(self)@.best_resistance_mohm,
    {
        let raw_percent: u8 = open_voltage_percent(open_mv);
        let next_percent: u8 = smooth_monotonic_percent(self.reported_percent, raw_percent);
        self.reported_percent = next_percent;
        BatteryState {
            percent: next_percent,
            voltage_mv: open_mv,
            resistance_mohm: self.best_resistance_mohm,
        }
    }
}

pub fn internal_resistance_mohm(measurement: BatteryMeasurement) -> (mohm: u32)
    ensures
        mohm == measurement.resistance(),
{
    if measurement.load_current_ma == 0 || measurement.open_mv <= measurement.load_mv {
        return 0;
    }
    let delta_mv: u32 = (measurement.open_mv - measurement.load_mv) as u32;
    (delta_mv * 1000) / measurement.load_current_ma as u32
}

/// The measurement with the lowest resistance, the first of them if there are several.
pub open spec fn lowest_of(measurements: Seq<BatteryMeasurement>) -> Option<BatteryMeasurement>
    decreases measurements.len(),
{
    if measurements.len() == 0 {
        None
    } else {
        match lowest_of(measurements.drop_last()) {
            Some(best) if best.resistance() <= measurements.last().resistance() => Some(best),
            _ => Some(measurements.last()),
        }
    }
}

/// The measurement with the lowest resistance, the first of them if there are several.
pub fn lowest_resistance_measurement(measurements: &[BatteryMeasurement]) -> (lowest: Option<
    BatteryMeasurement,
>)
    ensures
        lowest == lowest_of(measurements@),
        lowest is None <==> measurements@.len() == 0,
        lowest matches Some(found) ==> exists|i: int|
            0 <= i < measurements@.len() && found == #[trigger] measurements@[i] && (forall|j: int|
                0 <= j < measurements@.len() ==> found.resistance() <= (
                #[trigger] measurements@[j]).resistance()) && (forall|j: int|
                0 <= j < i ==> found.resistance() < (#[trigger] measurements@[j]).resistance()),
{
    if measurements.len() == 0 {
        return None;
    }
    let mut best: usize = 0;
    let mut best_mohm: u32 = internal_resistance_mohm(measurements[0]);
    let mut k: usize = 1;
    proof {
        reveal_with_fuel(lowest_of, 2);
        assert(measurements@.take(1).drop_last() == Seq::<BatteryMeasurement>::empty());
    }
    while k < measurements.len()
        invariant
            1 <= k <= measurements.len(),
            best < k,
            lowest_of(measurements@.take(k as int)) == Some(measurements@[best as int]),
            best_mohm == measurements@[best as int].resistance(),
            forall|j: int| 0 <= j < k ==> best_mohm <= (#[trigger] measurements@[j]).resistance(),
            forall|j: int| 0 <= j < best ==> best_mohm < (#[trigger] measurements@[j]).resistance(),
        decreases measurements.len() - k,
    {
        let mohm: u32 = internal_resistance_mohm(measurements[k]);
        assert(measurements@.take(k + 1).drop_last() == measurements@.take(k as int));
        if mohm < best_mohm {
            best = k;
            best_mohm = mohm;
        }
        k = k + 1;
    }
    assert(measurements@.take(k as int) == measurements@);
    Some(measurements[best])
}

fn estimate_percent(open_mv: u16, resistance_mohm: u32) -> (percent: u8)
    ensures
        percent == charge(open_mv as int, resistance_mohm as int),
{
    let voltage_cap: u8 = open_voltage_percent(open_mv);
    if resistance_mohm == 0 {
        return voltage_cap;
    }
    let points: [(u32, u8); 10] = [
        (3_000, 100),
        (5_000, 97),
        (8_000, 92),
        (12_000, 84),
        (18_000, 72),
        (25_000, 60),
        (40_000, 42),
        (60_000, 24),
        (90_000, 10),
        (150_000, 0),
    ];
    assert(points@ == resistance_points());
    let resistance_cap: u8 = interpolate_percent(resistance_mohm, &points);
    if voltage_cap <= resistance_cap {
        voltage_cap
    } else {
        resistance_cap
    }
}

fn open_voltage_percent(open_mv: u16) -> (percent: u8)
    ensures
        percent == charge_by_voltage(open_mv as int),
{
    let points: [(u32, u8); 8] = [
        (2900, 0),
        (3000, 5),
        (3100, 12),
        (3200, 28),
        (3300, 55),
        (3400, 80),
        (3500, 92),
        (3600, 100),
    ];
    assert(points@ == voltage_points());
    interpolate_percent(open_mv as u32, &points)
}

fn interpolate_percent(value: u32, points: &[(u32, u8)]) -> (percent: u8)
    requires
        left_to_right(points@),
    ensures
        percent == on_curve(value as int, points@),
{
    if points.len() == 0 {
        return 0;
    }
    if value <= points[0].0 {
        return points[0].1;
    }
    let mut k: usize = 0;
    assert(points@.skip(0) == points@);
    while k + 1 < points.len()
        invariant
            k < points.len(),
            left_to_right(points@),
            value > points@[k as int].0,
            on_curve(value as int, points@) == on_curve(value as int, points@.skip(k as int)),
        decreases points.len() - k,
    {
        let (x0, y0) = points[k];
        let (x1, y1) = points[k + 1];
        assert(points@.skip(k as int)[0] == points@[k as int]);
        assert(points@.skip(k as int)[1] == points@[k + 1]);
        if value <= x1 {
            return segment_percent(value, (x0, y0), (x1, y1));
        }
        assert(points@.skip(k as int).drop_first() == points@.skip(k + 1));
        k = k + 1;
    }
    points[k].1
}

/// The height at `value` of the straight line from `from` to `to`, held between 0 and 100.
fn segment_percent(value: u32, from: (u32, u8), to: (u32, u8)) -> (percent: u8)
    requires
        from.0 < value <= to.0,
    ensures
        percent == on_segment(value as int, from, to),
{
    let span: u64 = (to.0 - from.0) as u64;
    let offset: u64 = (value - from.0) as u64;
    if to.1 >= from.1 {
        let rise: u64 = (to.1 - from.1) as u64;
        proof {
            lemma_share_is_bounded(rise as int, offset as int, span as int);
        }
        let height: u64 = from.1 as u64 + rise * offset / span;
        if height > 100 {
            100
        } else {
            height as u8
        }
    } else {
        let fall: u64 = (from.1 - to.1) as u64;
        proof {
            lemma_share_is_bounded(fall as int, offset as int, span as int);
            assert((to.1 - from.1) * offset == -(fall * offset)) by (nonlinear_arith)
                requires
                    to.1 - from.1 == -fall,
            ;
        }
        let height: u64 = from.1 as u64 - fall * offset / span;
        if height > 100 {
            100
        } else {
            height as u8
        }
    }
}

/// A part of the way goes no further than the whole.
proof fn lemma_share_is_bounded(whole: int, offset: int, span: int)
    requires
        0 <= whole <= u8::MAX,
        0 <= offset <= span <= u32::MAX,
        0 < span,
    ensures
        0 <= whole * offset <= u8::MAX * u32::MAX,
        0 <= whole * offset / span <= whole,
{
    assert(0 <= whole * offset <= whole * span <= u8::MAX * u32::MAX) by (nonlinear_arith)
        requires
            0 <= whole <= u8::MAX,
            0 <= offset <= span <= u32::MAX,
    ;
    assert(0 <= whole * offset / span <= whole) by (nonlinear_arith)
        requires
            0 <= whole * offset <= whole * span,
            0 < span,
    ;
}

fn smooth_monotonic_percent(previous: u8, raw: u8) -> (next: u8)
    ensures
        next == smoothed(previous as int, raw as int),
{
    let monotonic: u8 = raw.min(previous);
    let floor: u8 = previous.saturating_sub(MAX_DROP_PER_UPDATE_PCT);
    monotonic.max(floor)
}

/// The value nearest to `value` that is at least `low`, and at most `high` if that is larger.
spec fn held(value: int, low: int, high: int) -> int {
    if value < low {
        low
    } else if value > high {
        high
    } else {
        value
    }
}

/// Whether a curve never falls from left to right, and stays a percentage.
pub open spec fn rising(points: Seq<(u32, u8)>) -> bool {
    &&& left_to_right(points)
    &&& forall|i: int, j: int|
        0 <= i <= j < points.len() ==> (#[trigger] points[i]).1 <= (#[trigger] points[j]).1
    &&& forall|i: int| 0 <= i < points.len() ==> (#[trigger] points[i]).1 <= 100
}

/// Whether a curve never rises from left to right, and stays a percentage.
pub open spec fn falling(points: Seq<(u32, u8)>) -> bool {
    &&& left_to_right(points)
    &&& forall|i: int, j: int|
        0 <= i <= j < points.len() ==> (#[trigger] points[i]).1 >= (#[trigger] points[j]).1
    &&& forall|i: int| 0 <= i < points.len() ==> (#[trigger] points[i]).1 <= 100
}

/// Further along the way, the share of it is no smaller, and the whole way is all of it.
proof fn lemma_share_grows(whole: int, offset: int, further: int, span: int)
    requires
        0 <= whole,
        0 <= offset <= further <= span,
        0 < span,
    ensures
        0 <= whole * offset / span <= whole * further / span <= whole,
{
    assert(0 <= whole * offset <= whole * further <= whole * span) by (nonlinear_arith)
        requires
            0 <= whole,
            0 <= offset <= further <= span,
    ;
    assert(0 <= whole * offset / span <= whole * further / span <= whole) by (nonlinear_arith)
        requires
            0 <= whole * offset <= whole * further <= whole * span,
            0 < span,
    ;
}

/// A line that rises never leaves the band between its ends, and rises all along.
proof fn lemma_rising_segment(v: int, w: int, from: (u32, u8), to: (u32, u8))
    requires
        from.0 < to.0,
        from.1 <= to.1 <= 100,
        from.0 <= v <= w <= to.0,
    ensures
        from.1 <= on_segment(v, from, to) <= on_segment(w, from, to) <= to.1,
{
    lemma_share_grows(to.1 - from.1, v - from.0, w - from.0, to.0 - from.0);
    assert(0 <= (to.1 - from.1) * (v - from.0)) by (nonlinear_arith)
        requires
            from.1 <= to.1,
            from.0 <= v,
    ;
    assert(0 <= (to.1 - from.1) * (w - from.0)) by (nonlinear_arith)
        requires
            from.1 <= to.1,
            from.0 <= w,
    ;
}

/// A line that falls never leaves the band between its ends, and falls all along.
proof fn lemma_falling_segment(v: int, w: int, from: (u32, u8), to: (u32, u8))
    requires
        from.0 < to.0,
        100 >= from.1 >= to.1,
        from.0 <= v <= w <= to.0,
    ensures
        from.1 >= on_segment(v, from, to) >= on_segment(w, from, to) >= to.1,
{
    let fall = from.1 - to.1;
    lemma_share_grows(fall, v - from.0, w - from.0, to.0 - from.0);
    assert((to.1 - from.1) * (v - from.0) == -(fall * (v - from.0))) by (nonlinear_arith)
        requires
            fall == from.1 - to.1,
    ;
    assert((to.1 - from.1) * (w - from.0) == -(fall * (w - from.0))) by (nonlinear_arith)
        requires
            fall == from.1 - to.1,
    ;
    assert(0 <= fall * (v - from.0)) by (nonlinear_arith)
        requires
            fall >= 0,
            from.0 <= v,
    ;
    assert(0 <= fall * (w - from.0)) by (nonlinear_arith)
        requires
            fall >= 0,
            from.0 <= w,
    ;
}

/// A rising curve is monotone, and stays between the heights of its first and last points.
pub proof fn rising_curve_is_monotone(v: int, w: int, points: Seq<(u32, u8)>)
    requires
        rising(points),
        points.len() > 0,
        v <= w,
    ensures
        points[0].1 <= on_curve(v, points) <= on_curve(w, points) <= points.last().1,
    decreases points.len(),
{
    if points.len() > 1 {
        let rest = points.drop_first();
        assert(rising(rest)) by {
            assert(forall|i: int| 0 <= i < rest.len() ==> #[trigger] rest[i] == points[i + 1]);
        }
        let first = points[0].0 as int;
        let next = points[1].0 as int;
        rising_curve_is_monotone(held(v, next, v), held(w, next, w), rest);
        lemma_rising_segment(
            held(v, first, next),
            held(w, first, next),
            points[0],
            points[1],
        );
    }
}

/// A falling curve is antitone, and stays between the heights of its first and last points.
pub proof fn falling_curve_is_antitone(v: int, w: int, points: Seq<(u32, u8)>)
    requires
        falling(points),
        points.len() > 0,
        v <= w,
    ensures
        points[0].1 >= on_curve(v, points) >= on_curve(w, points) >= points.last().1,
    decreases points.len(),
{
    if points.len() > 1 {
        let rest = points.drop_first();
        assert(falling(rest)) by {
            assert(forall|i: int| 0 <= i < rest.len() ==> #[trigger] rest[i] == points[i + 1]);
        }
        let first = points[0].0 as int;
        let next = points[1].0 as int;
        falling_curve_is_antitone(held(v, next, v), held(w, next, w), rest);
        lemma_falling_segment(
            held(v, first, next),
            held(w, first, next),
            points[0],
            points[1],
        );
    }
}

/// A higher open-circuit voltage never speaks for less charge, a higher resistance never for
/// more, and what they speak for is a percentage.
pub proof fn charge_follows_voltage_and_resistance(
    low_mv: int,
    high_mv: int,
    low_mohm: int,
    high_mohm: int,
)
    requires
        low_mv <= high_mv,
        0 < low_mohm <= high_mohm,
    ensures
        0 <= charge_by_voltage(low_mv) <= charge_by_voltage(high_mv) <= 100,
        0 <= charge(low_mv, high_mohm) <= charge(high_mv, high_mohm) <= charge(
            high_mv,
            low_mohm,
        ) <= charge(high_mv, 0) <= 100,
{
    assert(rising(voltage_points()));
    rising_curve_is_monotone(low_mv, high_mv, voltage_points());
    assert(falling(resistance_points()));
    falling_curve_is_antitone(low_mohm, high_mohm, resistance_points());
}

/// The reported charge never rises, drops by at most ten points at a time, and never below what
/// is measured.
pub proof fn reported_charge_only_steps_down(previous: int, raw: int)
    ensures
        smoothed(previous, raw) <= previous,
        smoothed(previous, raw) >= previous - MAX_DROP_PER_UPDATE_PCT,
        raw <= previous ==> smoothed(previous, raw) >= raw,
        raw >= previous ==> smoothed(previous, raw) == previous,
{
}

/// The percentage reported after `times` updates that all measure `raw`.
pub open spec fn smoothed_times(previous: int, raw: int, times: nat) -> int
    decreases times,
{
    if times == 0 {
        previous
    } else {
        smoothed(smoothed_times(previous, raw, (times - 1) as nat), raw)
    }
}

/// Under a steady measurement the reported charge goes down ten points per update until it has
/// arrived, and then stays.
pub proof fn reported_charge_arrives(previous: int, raw: int, times: nat)
    requires
        raw <= previous,
    ensures
        smoothed_times(previous, raw, times) == if previous - MAX_DROP_PER_UPDATE_PCT * times
            >= raw {
            previous - MAX_DROP_PER_UPDATE_PCT * times
        } else {
            raw
        },
    decreases times,
{
    if times > 0 {
        reported_charge_arrives(previous, raw, (times - 1) as nat);
    }
}

/// Once a resistance has been seen, the best one on record never gets worse, and is never above
/// the latest one.
pub proof fn best_resistance_never_gets_worse(best: int, resistance: int)
    requires
        best > 0,
        resistance >= 0,
    ensures
        best_of(best, resistance) <= best,
        best_of(best, resistance) <= resistance,
        best_of(best, resistance) == best || best_of(best, resistance) == resistance,
{
}

/// Whether `p` is the height at `v` of the straight line from `(x0, y0)` to `(x1, y1)`, cut to a
/// whole number towards `y0`.
pub open spec fn lies_on_line(v: int, x0: int, y0: int, x1: int, y1: int, p: int) -> bool {
    &&& y0 <= y1 ==> (p - y0) * (x1 - x0) <= (y1 - y0) * (v - x0) < (p + 1 - y0) * (x1 - x0)
    &&& y0 >= y1 ==> (y0 - p) * (x1 - x0) <= (y0 - y1) * (v - x0) < (y0 - p + 1) * (x1 - x0)
}

/// Between two points of a curve the height lies on the straight line through them.
pub proof fn segments_are_straight(v: int, from: (u32, u8), to: (u32, u8))
    requires
        from.0 < v <= to.0,
        from.1 <= 100,
        to.1 <= 100,
    ensures
        lies_on_line(
            v,
            from.0 as int,
            from.1 as int,
            to.0 as int,
            to.1 as int,
            on_segment(v, from, to),
        ),
{
    let span = to.0 - from.0;
    let offset = v - from.0;
    if from.1 <= to.1 {
        let rise = to.1 - from.1;
        lemma_rising_segment(v, v, from, to);
        lemma_share_grows(rise, offset, offset, span);
        assert(0 <= rise * offset) by (nonlinear_arith)
            requires
                0 <= rise,
                0 <= offset,
        ;
        let q = rise * offset / span;
        assert(q * span <= rise * offset < (q + 1) * span) by (nonlinear_arith)
            requires
                q == rise * offset / span,
                0 < span,
        ;
    }
    if from.1 >= to.1 {
        let fall = from.1 - to.1;
        lemma_falling_segment(v, v, from, to);
        lemma_share_grows(fall, offset, offset, span);
        assert((to.1 - from.1) * offset == -(fall * offset)) by (nonlinear_arith)
            requires
                fall == from.1 - to.1,
        ;
        assert(0 <= fall * offset) by (nonlinear_arith)
            requires
                0 <= fall,
                0 <= offset,
        ;
        let q = fall * offset / span;
        assert(q * span <= fall * offset < (q + 1) * span) by (nonlinear_arith)
            requires
                q == fall * offset / span,
                0 < span,
        ;
    }
}

/// A curve is level up to its first point and beyond its last, and straight between any two
/// neighbours.
pub proof fn curves_join_their_points(v: int, points: Seq<(u32, u8)>, i: int)
    requires
        left_to_right(points),
        forall|j: int| 0 <= j < points.len() ==> (#[trigger] points[j]).1 <= 100,
        0 <= i < points.len(),
    ensures
        v <= points[0].0 ==> on_curve(v, points) == points[0].1,
        v >= points.last().0 ==> on_curve(v, points) == points.last().1,
        v == points[i].0 ==> on_curve(v, points) == points[i].1,
        i + 1 < points.len() && points[i].0 < v <= points[i + 1].0 ==> lies_on_line(
            v,
            points[i].0 as int,
            points[i].1 as int,
            points[i + 1].0 as int,
            points[i + 1].1 as int,
            on_curve(v, points),
        ),
    decreases points.len(),
{
    if points.len() > 1 {
        let rest = points.drop_first();
        assert(forall|j: int| 0 <= j < rest.len() ==> #[trigger] rest[j] == points[j + 1]);
        assert(left_to_right(rest));
        if i > 0 {
            curves_join_their_points(v, rest, i - 1);
            assert(rest[i - 1] == points[i]);
        } else {
            curves_join_their_points(v, rest, 0);
        }
        assert(rest.last() == points.last());
        if points[0].0 < v <= points[1].0 {
            segments_are_straight(v, points[0], points[1]);
            if v == points[1].0 {
                lemma_line_ends_at_its_point(points[0], points[1]);
            }
        }
        if i > 1 {
            assert(points[1].0 < points[i].0);
        }
        if points.len() > 2 {
            assert(points[1].0 < points[points.len() - 1].0);
        }
    }
}

proof fn lemma_line_ends_at_its_point(from: (u32, u8), to: (u32, u8))
    requires
        from.0 < to.0,
        from.1 <= 100,
        to.1 <= 100,
    ensures
        on_segment(to.0 as int, from, to) == to.1,
{
    let span = to.0 - from.0;
    let rise = to.1 - from.1;
    assert(rise >= 0 ==> rise * span / span == rise) by (nonlinear_arith)
        requires
            span > 0,
    ;
    assert(rise < 0 ==> (-(rise * span)) / span == -rise) by (nonlinear_arith)
        requires
            span > 0,
    ;
    assert(rise >= 0 ==> rise * span >= 0) by (nonlinear_arith)
        requires
            span > 0,
    ;
    assert(rise < 0 ==> rise * span < 0) by (nonlinear_arith)
        requires
            span > 0,
    ;
}

/// The charge by open-circuit voltage: nothing up to 2.9 V, full from 3.6 V on, and in between
/// on the lines through 5, 12, 28, 55, 80 and 92 percent at each tenth of a volt.
pub proof fn charge_by_voltage_follows_the_knee(open_mv: int)
    ensures
        ({
            let p = charge_by_voltage(open_mv);
            &&& open_mv <= 2900 ==> p == 0
            &&& 2900 < open_mv <= 3000 ==> lies_on_line(open_mv, 2900, 0, 3000, 5, p)
            &&& 3000 < open_mv <= 3100 ==> lies_on_line(open_mv, 3000, 5, 3100, 12, p)
            &&& 3100 < open_mv <= 3200 ==> lies_on_line(open_mv, 3100, 12, 3200, 28, p)
            &&& 3200 < open_mv <= 3300 ==> lies_on_line(open_mv, 3200, 28, 3300, 55, p)
            &&& 3300 < open_mv <= 3400 ==> lies_on_line(open_mv, 3300, 55, 3400, 80, p)
            &&& 3400 < open_mv <= 3500 ==> lies_on_line(open_mv, 3400, 80, 3500, 92, p)
            &&& 3500 < open_mv <= 3600 ==> lies_on_line(open_mv, 3500, 92, 3600, 100, p)
            &&& 3600 <= open_mv ==> p == 100
        }),
{
    let points = voltage_points();
    assert forall|i: int| 0 <= i < 8 implies #[trigger] points[i].1 <= 100 by {}
    curves_join_their_points(open_mv, points, 0);
    curves_join_their_points(open_mv, points, 1);
    curves_join_their_points(open_mv, points, 2);
    curves_join_their_points(open_mv, points, 3);
    curves_join_their_points(open_mv, points, 4);
    curves_join_their_points(open_mv, points, 5);
    curves_join_their_points(open_mv, points, 6);
}

/// A resistance caps the charge that a full voltage speaks for: not at all up to 3 ohms, down to
/// nothing from 150 ohms on, and in between on straight lines.
pub proof fn resistance_caps_the_charge(mohm: int)
    requires
        mohm > 0,
    ensures
        ({
            let p = charge(3600, mohm);
            &&& mohm <= 3_000 ==> p == 100
            &&& 3_000 < mohm <= 5_000 ==> lies_on_line(mohm, 3_000, 100, 5_000, 97, p)
            &&& 5_000 < mohm <= 8_000 ==> lies_on_line(mohm, 5_000, 97, 8_000, 92, p)
            &&& 8_000 < mohm <= 12_000 ==> lies_on_line(mohm, 8_000, 92, 12_000, 84, p)
            &&& 12_000 < mohm <= 18_000 ==> lies_on_line(mohm, 12_000, 84, 18_000, 72, p)
            &&& 18_000 < mohm <= 25_000 ==> lies_on_line(mohm, 18_000, 72, 25_000, 60, p)
            &&& 25_000 < mohm <= 40_000 ==> lies_on_line(mohm, 25_000, 60, 40_000, 42, p)
            &&& 40_000 < mohm <= 60_000 ==> lies_on_line(mohm, 40_000, 42, 60_000, 24, p)
            &&& 60_000 < mohm <= 90_000 ==> lies_on_line(mohm, 60_000, 24, 90_000, 10, p)
            &&& 90_000 < mohm <= 150_000 ==> lies_on_line(mohm, 90_000, 10, 150_000, 0, p)
            &&& 150_000 <= mohm ==> p == 0
        }),
{
    let points = resistance_points();
    assert forall|i: int| 0 <= i < 10 implies #[trigger] points[i].1 <= 100 by {}
    charge_by_voltage_follows_the_knee(3600);
    charge_follows_voltage_and_resistance(3600, 3600, mohm, mohm);
    assert(falling(points));
    falling_curve_is_antitone(mohm, mohm, points);
    curves_join_their_points(mohm, points, 0);
    curves_join_their_points(mohm, points, 1);
    curves_join_their_points(mohm, points, 2);
    curves_join_their_points(mohm, points, 3);
    curves_join_their_points(mohm, points, 4);
    curves_join_their_points(mohm, points, 5);
    curves_join_their_points(mohm, points, 6);
    curves_join_their_points(mohm, points, 7);
    curves_join_their_points(mohm, points, 8);
}

/// The charge of a measurement is the smaller of what its voltage alone and its resistance alone
/// speak for; no resistance leaves the voltage alone.
pub proof fn the_smaller_charge_counts(open_mv: int, mohm: int)
    requires
        mohm >= 0,
    ensures
        charge(open_mv, 0) == charge_by_voltage(open_mv),
        charge(open_mv, mohm) <= charge(open_mv, 0),
        mohm > 0 ==> charge(open_mv, mohm) <= charge(3600, mohm),
        mohm > 0 ==> charge(open_mv, mohm) == charge(open_mv, 0) || charge(open_mv, mohm)
            == charge(3600, mohm),
{
    charge_by_voltage_follows_the_knee(3600);
    if mohm > 0 {
        charge_follows_voltage_and_resistance(open_mv, open_mv, mohm, mohm);
        charge_follows_voltage_and_resistance(3600, 3600, mohm, mohm);
        assert(falling(resistance_points()));
        falling_curve_is_antitone(mohm, mohm, resistance_points());
    }
}

/// The resistance is the drop in microvolts over the current in milliamperes, cut to whole
/// milliohms, and none without a drop or without a current.
pub proof fn resistance_is_drop_over_current(measurement: BatteryMeasurement)
    ensures
        ({
            let drop = measurement.open_mv - measurement.load_mv;
            let current = measurement.load_current_ma as int;
            let mohm = measurement.resistance();
            &&& drop <= 0 || current == 0 ==> mohm == 0
            &&& drop > 0 && current > 0 ==> mohm * current <= drop * 1000 < (mohm + 1) * current
        }),
{
    let drop = measurement.open_mv - measurement.load_mv;
    let current = measurement.load_current_ma as int;
    if drop > 0 && current > 0 {
        let all = drop * 1000;
        let q = all / current;
        assert(q * current <= all < (q + 1) * current) by (nonlinear_arith)
            requires
                q == all / current,
                current > 0,
        ;
    }
}

/// A measurement above the reported charge changes nothing, one up to ten points below is
/// reported as it is, and one further below takes ten points.
pub proof fn reports_move_ten_points_at_most(previous: int, raw: int)
    ensures
        raw >= previous ==> smoothed(previous, raw) == previous,
        previous - 10 <= raw <= previous ==> smoothed(previous, raw) == raw,
        raw <= previous - 10 ==> smoothed(previous, raw) == previous - 10,
        best_of(0, raw) == raw,
        previous > 0 && raw <= previous ==> best_of(previous, raw) == raw,
        previous > 0 && raw >= previous ==> best_of(previous, raw) == previous,
{
}

/// Of several measurements the one with the lowest resistance counts, the first if several have
/// it; only of no measurement does none count.
pub proof fn first_of_the_lowest_counts(measurements: Seq<BatteryMeasurement>) -> (at: int)
    ensures
        lowest_of(measurements) is None <==> measurements.len() == 0,
        measurements.len() > 0 ==> {
            &&& 0 <= at < measurements.len()
            &&& lowest_of(measurements) == Some(measurements[at])
            &&& forall|i: int|
                0 <= i < measurements.len() ==> measurements[at].resistance() <= (
                #[trigger] measurements[i]).resistance()
            &&& forall|i: int|
                0 <= i < at ==> measurements[at].resistance() < (
                #[trigger] measurements[i]).resistance()
        },
    decreases measurements.len(),
{
    if measurements.len() == 0 {
        0
    } else {
        let before = measurements.drop_last();
        let at = first_of_the_lowest_counts(before);
        assert(forall|i: int| 0 <= i < before.len() ==> before[i] == #[trigger] measurements[i]);
        if before.len() > 0 && before[at].resistance() <= measurements.last().resistance() {
            at
        } else {
            measurements.len() - 1
        }
    }
}

/// However a segment lies, its height is a percentage; and where the straight line through its
/// ends is at or beyond a hundred, it is a hundred.
pub proof fn segments_are_held_to_percentages(v: int, from: (u32, u8), to: (u32, u8))
    requires
        from.0 < v <= to.0,
    ensures
        0 <= on_segment(v, from, to) <= 100,
        from.1 >= 100 && to.1 >= from.1 ==> on_segment(v, from, to) == 100,
{
    if to.1 >= from.1 {
        assert((to.1 - from.1) * (v - from.0) >= 0) by (nonlinear_arith)
            requires
                to.1 >= from.1,
                v >= from.0,
        ;
        let rise = (to.1 - from.1) * (v - from.0);
        let span = to.0 - from.0;
        assert(rise / span >= 0) by (nonlinear_arith)
            requires
                rise >= 0,
                span > 0,
        ;
    }
}

} // verus!
