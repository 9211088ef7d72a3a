//! Battery state estimation: calibration of raw samples to a voltage and the
//! mapping of a single cell's voltage to a charge percentage.

use vstd::prelude::*;

verus! {

/// Charge reported below the lowest breakpoint of the curve, in thousandths of a percent.
pub const PERCENT_BELOW_RANGE: i32 = -99_000;

/// Charge reported above the highest breakpoint of the curve, in thousandths of a percent.
pub const PERCENT_ABOVE_RANGE: i32 = 999_000;

/// Number of breakpoints of the NiMH discharge curve.
pub const CURVE_POINTS: usize = 11;

/// The discharge curve of a single NiMH cell: breakpoints of (millivolt, percent),
/// ordered by voltage.
pub open spec fn nimh_curve() -> Seq<(int, int)> {
    seq![
        (0int, -100int),
        (800int, -30int),
        (1000int, 0int),
        (1100int, 5int),
        (1150int, 10int),
        (1180int, 20int),
        (1200int, 50int),
        (1230int, 80int),
        (1300int, 95int),
        (1400int, 120int),
        (1600int, 200int),
    ]
}

/// A curve has at least two breakpoints, strictly ascending voltages and
/// ascending percentages.
pub open spec fn curve_ordered(curve: Seq<(int, int)>) -> bool {
    &&& curve.len() >= 2
    &&& forall|i: int| 0 < i < curve.len() ==> (#[trigger] curve[i]).0 > curve[i - 1].0
    &&& forall|i: int| 0 < i < curve.len() ==> (#[trigger] curve[i]).1 >= curve[i - 1].1
}

/// The point of the straight line from `a` to `b` at voltage `volt`, in
/// thousandths of a percent, rounded down.
pub open spec fn interpolate(a: (int, int), b: (int, int), volt: int) -> int {
    a.1 * 1000 + ((volt - a.0) * (b.1 - a.1) * 1000) / (b.0 - a.0)
}

/// `volt` lies on the segment that ends in breakpoint `i`.
pub open spec fn in_segment(curve: Seq<(int, int)>, i: int, volt: int) -> bool {
    0 < i < curve.len() && curve[i - 1].0 <= volt <= curve[i].0
}

/// What a curve assigns to `volt`: the sentinel outside the curve's range,
/// and the interpolation on each segment that holds `volt`.
pub open spec fn on_curve(curve: Seq<(int, int)>, volt: int, percent: int) -> bool {
    &&& volt < curve[0].0 ==> percent == PERCENT_BELOW_RANGE
    &&& volt > curve[curve.len() - 1].0 ==> percent == PERCENT_ABOVE_RANGE
    &&& forall|i: int| #[trigger]
        in_segment(curve, i, volt) ==> percent == interpolate(curve[i - 1], curve[i], volt)
}

/// The charge at `volt` on a curve, in thousandths of a percent: the sentinel
/// outside the curve's range, the interpolation on a segment that holds `volt`
/// within it.
pub open spec fn curve_percent(curve: Seq<(int, int)>, volt: int) -> int {
    if volt < curve[0].0 {
        PERCENT_BELOW_RANGE as int
    } else if volt > curve[curve.len() - 1].0 {
        PERCENT_ABOVE_RANGE as int
    } else {
        let i = choose|i: int| in_segment(curve, i, volt);
        interpolate(curve[i - 1], curve[i], volt)
    }
}

/// The charge of a single NiMH cell at `millivolt`, in thousandths of a percent.
pub open spec fn spec_single_nimh_cell_volt_to_percent(millivolt: int) -> int {
    curve_percent(nimh_curve(), millivolt)
}

fn curve_table() -> (table: [(i32, i32); 11])
    ensures
        table@.len() == nimh_curve().len(),
        forall|i: int|
            0 <= i < CURVE_POINTS ==> (#[trigger] table@[i]).0 == nimh_curve()[i].0 && table@[i].1
                == nimh_curve()[i].1,
{
    [
        (0, -100),
        (800, -30),
        (1000, 0),
        (1100, 5),
        (1150, 10),
        (1180, 20),
        (1200, 50),
        (1230, 80),
        (1300, 95),
        (1400, 120),
        (1600, 200),
    ]
}

/// The NiMH curve is ordered.
pub proof fn lemma_nimh_curve_ordered()
    ensures
        curve_ordered(nimh_curve()),
{
    let c = nimh_curve();
    assert forall|i: int| 0 < i < c.len() implies (#[trigger] c[i]).0 > c[i - 1].0 && c[i].1
        >= c[i - 1].1 by {
        if i == 1 {
        } else if i == 2 {
        } else if i == 3 {
        } else if i == 4 {
        } else if i == 5 {
        } else if i == 6 {
        } else if i == 7 {
        } else if i == 8 {
        } else if i == 9 {
        } else {
            assert(i == 10);
        }
    }
}

/// Voltages of an ordered curve ascend over any distance.
pub proof fn lemma_curve_ascends(curve: Seq<(int, int)>, i: int, j: int)
    requires
        curve_ordered(curve),
        0 <= i <= j < curve.len(),
    ensures
        curve[i].0 <= curve[j].0,
        i < j ==> curve[i].0 < curve[j].0,
        curve[i].1 <= curve[j].1,
    decreases j - i,
{
    if i < j {
        lemma_curve_ascends(curve, i, j - 1);
        assert(curve[j].0 > curve[j - 1].0);
        assert(curve[j].1 >= curve[j - 1].1);
    }
}

/// On a segment the interpolation starts at the left breakpoint's percentage
/// and ends at the right one's, and stays between the two.
pub proof fn lemma_interpolate_ends(a: (int, int), b: (int, int), volt: int)
    requires
        a.0 < b.0,
        a.1 <= b.1,
        a.0 <= volt <= b.0,
    ensures
        interpolate(a, b, a.0) == a.1 * 1000,
        interpolate(a, b, b.0) == b.1 * 1000,
        a.1 * 1000 <= interpolate(a, b, volt) <= b.1 * 1000,
{
    let d = b.0 - a.0;
    let rise = (b.1 - a.1) * 1000;
    assert((a.0 - a.0) * (b.1 - a.1) * 1000 == 0);
    assert(0int / d == 0) by (nonlinear_arith)
        requires
            d > 0,
    ;
    assert((b.0 - a.0) * (b.1 - a.1) * 1000 == d * rise) by (nonlinear_arith)
        requires
            d == b.0 - a.0,
            rise == (b.1 - a.1) * 1000,
    ;
    assert((d * rise) / d == rise) by (nonlinear_arith)
        requires
            d > 0,
    ;
    let x = volt - a.0;
    assert((volt - a.0) * (b.1 - a.1) * 1000 == x * rise) by (nonlinear_arith)
        requires
            x == volt - a.0,
            rise == (b.1 - a.1) * 1000,
    ;
    assert(0 <= (x * rise) / d <= rise) by (nonlinear_arith)
        requires
            0 <= x <= d,
            d > 0,
            rise >= 0,
    ;
}

/// The interpolation never falls as the voltage rises along a segment.
pub proof fn lemma_interpolate_monotone(a: (int, int), b: (int, int), low: int, high: int)
    requires
        a.0 < b.0,
        a.1 <= b.1,
        a.0 <= low <= high <= b.0,
    ensures
        interpolate(a, b, low) <= interpolate(a, b, high),
{
    let d = b.0 - a.0;
    let rise = (b.1 - a.1) * 1000;
    let x = low - a.0;
    let y = high - a.0;
    assert((low - a.0) * (b.1 - a.1) * 1000 == x * rise) by (nonlinear_arith)
        requires
            x == low - a.0,
            rise == (b.1 - a.1) * 1000,
    ;
    assert((high - a.0) * (b.1 - a.1) * 1000 == y * rise) by (nonlinear_arith)
        requires
            y == high - a.0,
            rise == (b.1 - a.1) * 1000,
    ;
    assert((x * rise) / d <= (y * rise) / d) by (nonlinear_arith)
        requires
            0 <= x <= y,
            d > 0,
            rise >= 0,
    ;
}

/// A voltage lies on at most two segments of an ordered curve, and on two only
/// at the breakpoint they share.
pub proof fn lemma_segments_meet(curve: Seq<(int, int)>, i: int, j: int, volt: int)
    requires
        curve_ordered(curve),
        in_segment(curve, i, volt),
        in_segment(curve, j, volt),
        i < j,
    ensures
        j == i + 1,
        volt == curve[i].0,
{
    lemma_curve_ascends(curve, i, j - 1);
}

/// The curve is continuous: where two segments hold the same voltage, both
/// interpolate to the same percentage.
pub proof fn lemma_curve_continuous(curve: Seq<(int, int)>, i: int, j: int, volt: int)
    requires
        curve_ordered(curve),
        in_segment(curve, i, volt),
        in_segment(curve, j, volt),
    ensures
        interpolate(curve[i - 1], curve[i], volt) == interpolate(curve[j - 1], curve[j], volt),
{
    if i < j {
        lemma_segments_meet(curve, i, j, volt);
        lemma_interpolate_ends(curve[i - 1], curve[i], volt);
        lemma_interpolate_ends(curve[j - 1], curve[j], volt);
    } else if j < i {
        lemma_segments_meet(curve, j, i, volt);
        lemma_interpolate_ends(curve[i - 1], curve[i], volt);
        lemma_interpolate_ends(curve[j - 1], curve[j], volt);
    }
}

/// Every voltage within the range of an ordered curve lies on one of its segments.
pub proof fn lemma_segment_exists(curve: Seq<(int, int)>, volt: int, upto: int)
    requires
        curve_ordered(curve),
        0 < upto < curve.len(),
        curve[0].0 <= volt <= curve[upto].0,
    ensures
        exists|i: int| 0 < i <= upto && in_segment(curve, i, volt),
    decreases upto,
{
    if curve[upto - 1].0 <= volt {
        assert(in_segment(curve, upto, volt));
    } else {
        assert(upto > 1);
        lemma_segment_exists(curve, volt, upto - 1);
    }
}

/// On an ordered curve the charge is the sentinel outside the range and the
/// interpolation on every segment that holds the voltage: the curve is linear
/// between neighbouring breakpoints and continuous at each of them.
pub proof fn lemma_curve_percent(curve: Seq<(int, int)>, volt: int)
    requires
        curve_ordered(curve),
    ensures
        on_curve(curve, volt, curve_percent(curve, volt)),
{
    let percent = curve_percent(curve, volt);
    lemma_curve_ascends(curve, 0, curve.len() - 1);
    assert forall|k: int| #[trigger] in_segment(curve, k, volt) implies percent == interpolate(
        curve[k - 1],
        curve[k],
        volt,
    ) by {
        lemma_curve_ascends(curve, 0, k - 1);
        lemma_curve_ascends(curve, k, curve.len() - 1);
        let i = choose|i: int| in_segment(curve, i, volt);
        lemma_curve_continuous(curve, i, k, volt);
    }
}

/// Every breakpoint of the NiMH curve lies within 0 mV to 1600 mV and -100 % to 200 %.
pub proof fn lemma_nimh_curve_bounds(i: int)
    requires
        0 <= i < nimh_curve().len(),
    ensures
        0 <= nimh_curve()[i].0 <= 1600,
        -100 <= nimh_curve()[i].1 <= 200,
{
    let c = nimh_curve();
    if i == 0 {
    } else if i == 1 {
    } else if i == 2 {
    } else if i == 3 {
    } else if i == 4 {
    } else if i == 5 {
    } else if i == 6 {
    } else if i == 7 {
    } else if i == 8 {
    } else if i == 9 {
    } else {
        assert(i == 10);
    }
}

/// Charge of a single NiMH cell at `millivolt`, in thousandths of a percent.
///
/// Within the curve the charge is interpolated linearly between the two
/// breakpoints around the voltage; outside it the result is one of the two
/// sentinels, which lie outside 0 % to 100 % on purpose.
pub fn single_nimh_cell_volt_to_percent(millivolt: i64) -> (percent: i32)
    ensures
        percent == spec_single_nimh_cell_volt_to_percent(millivolt as int),
        on_curve(nimh_curve(), millivolt as int, percent as int),
{
    let table = curve_table();
    let ghost curve = nimh_curve();
    proof {
        lemma_nimh_curve_ordered();
    }
    let mut i: usize = 1;
    while i < CURVE_POINTS
        invariant
            1 <= i <= CURVE_POINTS,
            curve == nimh_curve(),
            curve_ordered(curve),
            table@.len() == curve.len(),
            curve.len() == CURVE_POINTS,
            forall|k: int|
                0 <= k < CURVE_POINTS ==> (#[trigger] table@[k]).0 == curve[k].0 && table@[k].1
                    == curve[k].1,
            forall|k: int| 0 < k < i ==> !in_segment(curve, k, millivolt as int),
        decreases CURVE_POINTS - i,
    {
        let (volt_a, percent_a) = table[i - 1];
        let (volt_b, percent_b) = table[i];
        if volt_a as i64 <= millivolt && millivolt <= volt_b as i64 {
            proof {
                lemma_nimh_curve_bounds(i as int);
                lemma_nimh_curve_bounds(i - 1);
                lemma_interpolate_ends(curve[i - 1], curve[i as int], millivolt as int);
                assert(0 <= (millivolt - volt_a) * (percent_b - percent_a) <= 1600 * 300)
                    by (nonlinear_arith)
                    requires
                        0 <= millivolt - volt_a <= 1600,
                        0 <= percent_b - percent_a <= 300,
                ;
            }
            let span: i64 = (volt_b - volt_a) as i64;
            let rise: i64 = (millivolt - volt_a as i64) * (percent_b - percent_a) as i64 * 1000;
            let percent: i64 = percent_a as i64 * 1000 + rise / span;
            proof {
                assert(percent == interpolate(curve[i - 1], curve[i as int], millivolt as int));
                assert(in_segment(curve, i as int, millivolt as int));
                lemma_curve_percent(curve, millivolt as int);
            }
            return percent as i32;
        }
        i += 1;
    }
    let (last_volt, _) = table[CURVE_POINTS - 1];
    proof {
        if curve[0].0 <= millivolt <= curve[curve.len() - 1].0 {
            lemma_segment_exists(curve, millivolt as int, curve.len() - 1);
        }
        lemma_curve_percent(curve, millivolt as int);
    }
    if millivolt > last_volt as i64 {
        PERCENT_ABOVE_RANGE
    } else {
        PERCENT_BELOW_RANGE
    }
}

/// The charge of a NiMH cell never falls as the voltage rises within the
/// range of the curve.
pub proof fn lemma_percent_monotone(low: int, high: int)
    requires
        nimh_curve()[0].0 <= low <= high <= nimh_curve()[nimh_curve().len() - 1].0,
    ensures
        spec_single_nimh_cell_volt_to_percent(low) <= spec_single_nimh_cell_volt_to_percent(high),
{
    let c = nimh_curve();
    lemma_nimh_curve_ordered();
    lemma_curve_percent(c, low);
    lemma_curve_percent(c, high);
    lemma_segment_exists(c, low, c.len() - 1);
    lemma_segment_exists(c, high, c.len() - 1);
    let i = choose|i: int| 0 < i <= c.len() - 1 && in_segment(c, i, low);
    let j = choose|j: int| 0 < j <= c.len() - 1 && in_segment(c, j, high);
    if i == j {
        lemma_interpolate_monotone(c[i - 1], c[i], low, high);
    } else if i < j {
        lemma_interpolate_ends(c[i - 1], c[i], low);
        lemma_interpolate_ends(c[j - 1], c[j], high);
        lemma_curve_ascends(c, i, j - 1);
    } else {
        lemma_curve_ascends(c, j, i - 1);
        assert(low == high);
    }
}

/// Raw reading with the measuring pin grounded.
pub const LOW_VOLT: u32 = 142;

/// Raw reading with the measuring pin at the reference voltage.
pub const HIGH_VOLT: u32 = 3129;

/// Reference voltage of the converter, in millivolts.
pub const REFERENCE_MILLIVOLT: u32 = 3300;

/// Number of raw samples that go into one measurement.
pub const SAMPLE_SIZE: usize = 30;

/// Pause between two raw samples, in microseconds.
pub const SAMPLE_INTERVAL_MICROS: u64 = 250;

/// Sum of a sequence of raw samples.
pub open spec fn spec_sum(samples: Seq<u16>) -> int
    decreases samples.len(),
{
    if samples.len() == 0 {
        0
    } else {
        spec_sum(samples.drop_last()) + samples.last()
    }
}

/// The voltage that `count` raw samples with the given sum stand for, in
/// millivolts: the reference voltage times the mean's distance from the
/// grounded reading over the full-scale reading, times the divider's factor
/// `num / den`, rounded down. A mean below the grounded reading is 0 mV.
pub open spec fn spec_calibrate(sum: int, count: int, num: int, den: int) -> int {
    if sum <= LOW_VOLT * count {
        0
    } else {
        (REFERENCE_MILLIVOLT * (sum - LOW_VOLT * count) * num) / (HIGH_VOLT * count * den)
    }
}

/// A divider factor `num / den` under which every measurement fits 32 bits.
pub open spec fn factor_in_range(num: int, den: int) -> bool {
    den > 0 && num >= 0 && spec_calibrate(u16::MAX * SAMPLE_SIZE, SAMPLE_SIZE as int, num, den)
        <= u32::MAX
}

/// The calibration never falls as the sum of the samples rises.
pub proof fn lemma_calibrate_monotone(low: int, high: int, count: int, num: int, den: int)
    requires
        low <= high,
        count > 0,
        num >= 0,
        den > 0,
    ensures
        0 <= spec_calibrate(low, count, num, den) <= spec_calibrate(high, count, num, den),
{
    let d = HIGH_VOLT * count * den;
    assert(d > 0) by (nonlinear_arith)
        requires
            d == HIGH_VOLT * count * den,
            count > 0,
            den > 0,
    ;
    let offset = LOW_VOLT * count;
    if high > offset {
        let y = REFERENCE_MILLIVOLT * (high - offset) * num;
        assert(y >= 0) by (nonlinear_arith)
            requires
                y == REFERENCE_MILLIVOLT * (high - offset) * num,
                high > offset,
                num >= 0,
        ;
        if low > offset {
            let x = REFERENCE_MILLIVOLT * (low - offset) * num;
            assert(0 <= x <= y) by (nonlinear_arith)
                requires
                    x == REFERENCE_MILLIVOLT * (low - offset) * num,
                    y == REFERENCE_MILLIVOLT * (high - offset) * num,
                    offset < low <= high,
                    num >= 0,
            ;
            assert(0 <= x / d <= y / d) by (nonlinear_arith)
                requires
                    0 <= x <= y,
                    d > 0,
            ;
        } else {
            assert(0 <= y / d) by (nonlinear_arith)
                requires
                    0 <= y,
                    d > 0,
            ;
        }
    }
}

/// The sum of raw samples is at most the greatest sample times their number.
pub proof fn lemma_sum_bounds(samples: Seq<u16>)
    ensures
        0 <= spec_sum(samples) <= u16::MAX * samples.len(),
    decreases samples.len(),
{
    if samples.len() > 0 {
        lemma_sum_bounds(samples.drop_last());
    }
}

/// The battery monitor: calibrates raw samples of the supply voltage.
#[derive(Clone, Copy, Debug)]
pub struct Accu {
    factor_num: u32,
    factor_den: u32,
    min_millivolt: u32,
}

impl Accu {
    /// Numerator of the voltage divider's factor.
    pub closed spec fn factor_num(self) -> int {
        self.factor_num as int
    }

    /// Denominator of the voltage divider's factor.
    pub closed spec fn factor_den(self) -> int {
        self.factor_den as int
    }

    /// The voltage under load below which no pump may run, in millivolts.
    pub closed spec fn critical_millivolt(self) -> int {
        self.min_millivolt as int
    }

    /// The divider's factor keeps every measurement within 32 bits.
    #[verifier::type_invariant]
    pub closed spec fn wf(self) -> bool {
        factor_in_range(self.factor_num as int, self.factor_den as int)
    }

    /// The voltage that a set of raw samples stands for, in millivolts.
    pub open spec fn spec_measure(self, samples: Seq<u16>) -> int {
        spec_calibrate(
            spec_sum(samples),
            samples.len() as int,
            self.factor_num(),
            self.factor_den(),
        )
    }

    /// Every measurement of a full set of samples is a voltage of 32 bits.
    pub proof fn lemma_measure_bounds(self, samples: Seq<u16>)
        requires
            self.wf(),
            samples.len() == SAMPLE_SIZE,
        ensures
            0 <= self.spec_measure(samples) <= u32::MAX,
    {
        lemma_sum_bounds(samples);
        lemma_calibrate_monotone(
            spec_sum(samples),
            u16::MAX * SAMPLE_SIZE,
            SAMPLE_SIZE as int,
            self.factor_num as int,
            self.factor_den as int,
        );
    }

    /// A monitor behind a voltage divider of factor `factor_num / factor_den`
    /// with the critical voltage `min_millivolt`. There is none for a factor
    /// with a zero denominator or one that takes a measurement beyond 32 bits.
    pub fn new(factor_num: u32, factor_den: u32, min_millivolt: u32) -> (accu: Option<Accu>)
        ensures
            accu.is_some() <==> factor_in_range(factor_num as int, factor_den as int),
            accu.is_some() ==> {
                &&& accu.unwrap().wf()
                &&& accu.unwrap().factor_num() == factor_num
                &&& accu.unwrap().factor_den() == factor_den
                &&& accu.unwrap().critical_millivolt() == min_millivolt
            },
    {
        if factor_den == 0 {
            return None;
        }
        let top_sum: u128 = (u16::MAX as u128) * (SAMPLE_SIZE as u128);
        let offset: u128 = (LOW_VOLT as u128) * (SAMPLE_SIZE as u128);
        let scaled: u128 = (REFERENCE_MILLIVOLT as u128) * (top_sum - offset);
        assert(scaled * factor_num <= 0xffff_ffff_ffff_ffff_ffff) by (nonlinear_arith)
            requires
                scaled == 3300 * (65535 * 30 - 142 * 30),
                factor_num <= 0xffff_ffff,
        ;
        assert(0 < 3129 * 30 * factor_den <= 0xffff_ffff_ffff_ffff) by (nonlinear_arith)
            requires
                0 < factor_den <= 0xffff_ffff,
        ;
        let divisor: u128 = (HIGH_VOLT as u128) * (SAMPLE_SIZE as u128) * (factor_den as u128);
        let top: u128 = scaled * (factor_num as u128) / divisor;
        if top <= u32::MAX as u128 {
            Some(Accu { factor_num, factor_den, min_millivolt })
        } else {
            None
        }
    }

    /// The critical voltage, in millivolts.
    pub fn get_critical_volt(&self) -> (millivolt: u32)
        ensures
            millivolt == self.critical_millivolt(),
    {
        self.min_millivolt
    }

    /// The supply voltage that one set of raw samples stands for, in millivolts.
    pub fn measure_volt(&self, samples: &[u16; 30]) -> (millivolt: u32)
        ensures
            millivolt == self.spec_measure(samples@),
    {
        proof {
            use_type_invariant(self);
        }
        let mut sum: u32 = 0;
        let mut i: usize = 0;
        while i < SAMPLE_SIZE
            invariant
                0 <= i <= SAMPLE_SIZE,
                samples@.len() == SAMPLE_SIZE,
                sum == spec_sum(samples@.subrange(0, i as int)),
                sum <= u16::MAX * i,
            decreases SAMPLE_SIZE - i,
        {
            proof {
                assert(samples@.subrange(0, i + 1).drop_last() =~= samples@.subrange(0, i as int));
            }
            sum = sum + samples[i] as u32;
            i += 1;
        }
        proof {
            assert(samples@.subrange(0, SAMPLE_SIZE as int) =~= samples@);
            lemma_calibrate_monotone(
                sum as int,
                u16::MAX * SAMPLE_SIZE,
                SAMPLE_SIZE as int,
                self.factor_num as int,
                self.factor_den as int,
            );
        }
        let offset: u32 = LOW_VOLT * 30;
        if sum <= offset {
            return 0;
        }
        let scaled: u128 = (REFERENCE_MILLIVOLT as u128) * ((sum - offset) as u128);
        assert(scaled * self.factor_num <= 0xffff_ffff_ffff_ffff_ffff) by (nonlinear_arith)
            requires
                0 <= scaled <= 3300 * 65535 * 30,
                self.factor_num <= 0xffff_ffff,
        ;
        assert(0 < 3129 * 30 * self.factor_den <= 0xffff_ffff_ffff_ffff) by (nonlinear_arith)
            requires
                0 < self.factor_den <= 0xffff_ffff,
        ;
        let divisor: u128 = (HIGH_VOLT as u128) * 30 * (self.factor_den as u128);
        let millivolt: u128 = scaled * (self.factor_num as u128) / divisor;
        millivolt as u32
    }
}

/// Voltage of one cell of a pack of `cells` equal cells in series, in millivolts.
pub open spec fn spec_pack_to_single_cell(pack_millivolt: int, cells: int) -> int {
    pack_millivolt / cells
}

/// Divides the voltage of a pack evenly over its cells.
pub fn pack_to_single_cell(pack_millivolt: u32, cells: u32) -> (cell_millivolt: u32)
    requires
        cells > 0,
    ensures
        cell_millivolt == spec_pack_to_single_cell(pack_millivolt as int, cells as int),
{
    pack_millivolt / cells
}

} // verus!
