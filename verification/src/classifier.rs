//! Window state classifier.
//!
//! Classifies magnetic field burst data into CLOSED / TILT / OPEN states. The field strengths are
//! compared with the thresholds by the caller; the classifier sees the outcome per sample.

use vstd::prelude::*;

verus! {

/// Window state (3-state output)
#[derive(Clone, Copy, PartialEq, Eq, Debug, Structural)]
pub enum WindowState {
    Closed,
    Tilt,
    Open,
}

/// A single magnetic field reading (raw 12-bit per axis, ±80 mT range)
#[derive(Clone, Copy, Debug, PartialEq, Eq, Structural)]
pub struct MagSample {
    pub x_raw: i16,
    pub y_raw: i16,
    pub z_raw: i16,
}

/// How the field strength of one burst sample compares with the classification thresholds.
#[derive(Clone, Copy, Debug, PartialEq, Eq, Structural)]
pub struct SampleLevel {
    /// The field is weaker than in the first sample by more than the collapse threshold.
    pub collapsed: bool,
    /// The field is stronger than the noise floor.
    pub above_noise: bool,
}

/// How many samples of a burst may show the collapse that marks a tilt, the first one included.
pub const COLLAPSE_SAMPLES: usize = 3;

/// Whether the field collapsed right at the start of the burst.
pub open spec fn collapses(burst: Seq<SampleLevel>) -> bool {
    exists|i: int|
        1 <= i < burst.len() && i < COLLAPSE_SAMPLES && #[trigger] burst[i].collapsed
}

/// How many samples of a burst are above the noise floor.
pub open spec fn count_above_noise(burst: Seq<SampleLevel>) -> nat
    decreases burst.len(),
{
    if burst.len() == 0 {
        0
    } else {
        count_above_noise(burst.drop_last()) + if burst.last().above_noise {
            1nat
        } else {
            0nat
        }
    }
}

/// The state that a burst shows.
pub open spec fn burst_state(burst: Seq<SampleLevel>, min_samples_for_open: int) -> WindowState {
    if burst.len() == 0 {
        WindowState::Open
    } else if collapses(burst) {
        WindowState::Tilt
    } else if count_above_noise(burst) >= min_samples_for_open {
        WindowState::Open
    } else {
        WindowState::Closed
    }
}

/// Classify a burst of samples taken at 20 Hz after the TMAG5273 INT fires.
///
/// The burst is captured immediately after the magnetic field drops below
/// the INT threshold (~45 mT), indicating the window is moving.
///
/// Classification logic:
/// - If the field collapses within 2 samples (0.1 s) → TILT
/// - If the field decays gradually with enough samples above noise → OPEN
/// - Empty → OPEN (conservative assumption)
/// - Ambiguous, neither collapse nor enough samples above noise → CLOSED
pub fn classify_burst(burst: &[SampleLevel], min_samples_for_open: usize) -> (state: WindowState)
    ensures
        state == burst_state(burst@, min_samples_for_open as int),
{
    if burst.len() == 0 {
        return WindowState::Open;
    }
    let check_count: usize = if burst.len() < COLLAPSE_SAMPLES {
        burst.len()
    } else {
        COLLAPSE_SAMPLES
    };
    let mut i: usize = 1;
    while i < check_count
        invariant
            1 <= i,
            check_count <= burst.len(),
            check_count <= COLLAPSE_SAMPLES,
            forall|j: int| 1 <= j < i ==> !(#[trigger] burst@[j].collapsed),
        decreases check_count - i,
    {
        if burst[i].collapsed {
            return WindowState::Tilt;
        }
        i = i + 1;
    }
    let mut above_noise: usize = 0;
    let mut k: usize = 0;
    while k < burst.len()
        invariant
            k <= burst.len(),
            above_noise <= k,
            above_noise == count_above_noise(burst@.take(k as int)),
        decreases burst.len() - k,
    {
        assert(burst@.take(k + 1).drop_last() == burst@.take(k as int));
        if burst[k].above_noise {
            above_noise = above_noise + 1;
        }
        k = k + 1;
    }
    assert(burst@.take(burst@.len() as int) == burst@);
    if above_noise >= min_samples_for_open {
        WindowState::Open
    } else {
        WindowState::Closed
    }
}

/// A tilt shows in the first samples alone: whatever follows them, a burst that collapses at its
/// start is a tilt.
pub proof fn tilt_is_decided_by_first_samples(
    burst: Seq<SampleLevel>,
    other: Seq<SampleLevel>,
    min_samples_for_open: int,
)
    requires
        burst.len() >= COLLAPSE_SAMPLES,
        other.len() >= COLLAPSE_SAMPLES,
        burst.take(COLLAPSE_SAMPLES as int) == other.take(COLLAPSE_SAMPLES as int),
    ensures
        burst_state(burst, min_samples_for_open) == WindowState::Tilt <==> burst_state(
            other,
            min_samples_for_open,
        ) == WindowState::Tilt,
{
    let first = burst.take(COLLAPSE_SAMPLES as int);
    assert(forall|i: int| 1 <= i < COLLAPSE_SAMPLES ==> burst[i] == first[i] && other[i] == first[i]);
    if collapses(burst) {
        let i = choose|i: int|
            1 <= i < burst.len() && i < COLLAPSE_SAMPLES && #[trigger] burst[i].collapsed;
        assert(other[i].collapsed);
    }
    if collapses(other) {
        let i = choose|i: int|
            1 <= i < other.len() && i < COLLAPSE_SAMPLES && #[trigger] other[i].collapsed;
        assert(burst[i].collapsed);
    }
}

/// The places in a burst where the field is above the noise floor.
pub open spec fn places_above_noise(burst: Seq<SampleLevel>) -> Set<int> {
    Set::new(|i: int| 0 <= i < burst.len() && burst[i].above_noise)
}

proof fn lemma_count_is_number_of_places(burst: Seq<SampleLevel>)
    ensures
        places_above_noise(burst).finite(),
        places_above_noise(burst).len() == count_above_noise(burst),
    decreases burst.len(),
{
    let places = places_above_noise(burst);
    if burst.len() == 0 {
        assert(places =~= Set::empty());
    } else {
        let shorter = burst.drop_last();
        lemma_count_is_number_of_places(shorter);
        if burst.last().above_noise {
            assert(places =~= places_above_noise(shorter).insert(burst.len() - 1));
        } else {
            assert(places =~= places_above_noise(shorter));
        }
    }
}

/// A burst is a tilt exactly when its second or third sample shows the collapse. Any other burst
/// is open exactly when the field is above the noise floor in enough places, wherever they lie,
/// and closed otherwise; a burst without samples is open.
pub proof fn burst_is_judged_sample_by_sample(burst: Seq<SampleLevel>, min_samples_for_open: int)
    ensures
        ({
            let state = burst_state(burst, min_samples_for_open);
            let tilts = (burst.len() > 1 && burst[1].collapsed) || (burst.len() > 2
                && burst[2].collapsed);
            let enough = places_above_noise(burst).len() >= min_samples_for_open;
            &&& places_above_noise(burst).finite()
            &&& state == WindowState::Tilt <==> tilts
            &&& state == WindowState::Open <==> !tilts && (burst.len() == 0 || enough)
            &&& state == WindowState::Closed <==> !tilts && burst.len() > 0 && !enough
        }),
{
    lemma_count_is_number_of_places(burst);
    if burst.len() > 1 && burst[1].collapsed {
        assert(collapses(burst));
    }
    if burst.len() > 2 && burst[2].collapsed {
        assert(collapses(burst));
    }
}

/// One more sample at the end of a burst that is long enough to show a tilt leaves a tilt a tilt,
/// never takes back an open window, and changes nothing at all if it is below the noise floor.
pub proof fn further_samples_only_add(
    burst: Seq<SampleLevel>,
    sample: SampleLevel,
    min_samples_for_open: int,
)
    requires
        burst.len() >= 3,
    ensures
        ({
            let before = burst_state(burst, min_samples_for_open);
            let after = burst_state(burst.push(sample), min_samples_for_open);
            &&& before != WindowState::Closed ==> after == before
            &&& !sample.above_noise ==> after == before
            &&& before == WindowState::Closed && sample.above_noise ==> (after == WindowState::Open
                <==> places_above_noise(burst).len() + 1 >= min_samples_for_open)
        }),
{
    let longer = burst.push(sample);
    burst_is_judged_sample_by_sample(burst, min_samples_for_open);
    burst_is_judged_sample_by_sample(longer, min_samples_for_open);
    if sample.above_noise {
        assert(places_above_noise(longer) =~= places_above_noise(burst).insert(
            burst.len() as int,
        ));
    } else {
        assert(places_above_noise(longer) =~= places_above_noise(burst));
    }
}

proof fn lemma_count_by_multiset(burst: Seq<SampleLevel>)
    ensures
        count_above_noise(burst) == burst.to_multiset().count(
            SampleLevel { collapsed: false, above_noise: true },
        ) + burst.to_multiset().count(SampleLevel { collapsed: true, above_noise: true }),
    decreases burst.len(),
{
    broadcast use vstd::seq_lib::group_to_multiset_ensures;

    if burst.len() == 0 {
        assert(burst.to_multiset().len() == 0);
    } else {
        lemma_count_by_multiset(burst.drop_last());
        assert(burst == burst.drop_last().push(burst.last()));
    }
}

/// Without a collapse at the start the order of the samples does not matter.
pub proof fn order_of_samples_does_not_matter(
    burst: Seq<SampleLevel>,
    shuffled: Seq<SampleLevel>,
    min_samples_for_open: int,
)
    requires
        burst.to_multiset() == shuffled.to_multiset(),
        burst_state(burst, min_samples_for_open) != WindowState::Tilt,
        burst_state(shuffled, min_samples_for_open) != WindowState::Tilt,
    ensures
        burst_state(burst, min_samples_for_open) == burst_state(shuffled, min_samples_for_open),
{
    burst.to_multiset_ensures();
    shuffled.to_multiset_ensures();
    lemma_count_by_multiset(burst);
    lemma_count_by_multiset(shuffled);
}

} // verus!
