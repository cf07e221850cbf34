//! The running throughput estimate and its equivalence with the cumulative
//! mean.
//!
//! Rates are exact fractions in the statements. The estimator that runs
//! measures each frame in whole bytes per second and keeps their exact sum,
//! so its estimate is an exact fraction as well.
//!
//! The estimate weighs every measured frame alike, the first one included:
//! the running step is a cumulative mean, and no sample is left out of it.
//! What is left out of the measurement is the warm-up frame, which the
//! capture loop discards before the first cycle, and a frame whose rate
//! cannot be stated, which the loop counts and forwards without one.

use vstd::prelude::*;
use crate::fraction::Fraction;
use crate::fraction::Rate;

verus! {

/// One step of the running estimate. For the frame with 0-based index `i`
/// and instantaneous rate `cur`, the first frame sets the estimate to `cur`;
/// every later one attenuates the accumulated estimate by `i / (i + 1)` and
/// adds `cur` with weight `1 / (i + 1)`.
pub open spec fn running_step(rate: Fraction, i: nat, cur: Fraction) -> Fraction {
    if i == 0 {
        cur
    } else {
        rate.scaled(i as int, i as int + 1).plus(cur.scaled(1, i as int + 1))
    }
}

/// The running estimate after the step has been applied, frame by frame, to
/// every rate of `curs` in order.
pub open spec fn running_rate(curs: Seq<Fraction>) -> Fraction
    decreases curs.len(),
{
    if curs.len() == 0 {
        Fraction::whole(0)
    } else {
        running_step(running_rate(curs.drop_last()), (curs.len() - 1) as nat, curs.last())
    }
}

/// The sum of the rates of `curs`.
pub open spec fn total_rate(curs: Seq<Fraction>) -> Fraction
    decreases curs.len(),
{
    if curs.len() == 0 {
        Fraction::whole(0)
    } else {
        total_rate(curs.drop_last()).plus(curs.last())
    }
}

/// The arithmetic mean of the rates of `curs`: their sum over their count.
pub open spec fn mean_rate(curs: Seq<Fraction>) -> Fraction {
    total_rate(curs).scaled(1, curs.len() as int)
}

/// Every rate of `curs` has a positive denominator.
pub open spec fn all_defined(curs: Seq<Fraction>) -> bool {
    forall|k: int| 0 <= k < curs.len() ==> (#[trigger] curs[k]).den > 0
}

proof fn lemma_total_defined(curs: Seq<Fraction>)
    requires
        all_defined(curs),
    ensures
        total_rate(curs).den > 0,
    decreases curs.len(),
{
    if curs.len() > 0 {
        lemma_total_defined(curs.drop_last());
        let t = total_rate(curs.drop_last());
        let c = curs.last();
        assert(t.den * c.den > 0) by (nonlinear_arith)
            requires
                t.den > 0,
                c.den > 0,
        ;
    }
}

proof fn lemma_running_defined(curs: Seq<Fraction>)
    requires
        all_defined(curs),
    ensures
        running_rate(curs).den > 0,
    decreases curs.len(),
{
    if curs.len() > 1 {
        lemma_running_defined(curs.drop_last());
        let r = running_rate(curs.drop_last());
        let c = curs.last();
        let n = curs.len() as int;
        assert((r.den * n) * (c.den * n) > 0) by (nonlinear_arith)
            requires
                r.den > 0,
                c.den > 0,
                n > 0,
        ;
    }
}

/// The algebra of one step: if `r` is the mean `s / n` of the first `n`
/// rates, the step applied to `r` and `c` is the mean `(s + c) / (n + 1)`.
proof fn lemma_step_keeps_mean(r: Fraction, s: Fraction, c: Fraction, n: int)
    requires
        n >= 1,
        r.same(s.scaled(1, n)),
    ensures
        running_step(r, n as nat, c).same(s.plus(c).scaled(1, n + 1)),
{
    let m = n + 1;
    let step = running_step(r, n as nat, c);
    let mean = s.plus(c).scaled(1, m);
    // The step is x / r.den and the mean is y / s.den, both over the
    // common factors c.den and m.
    let x = (r.num * n) * c.den + c.num * r.den;
    let y = s.num * c.den + c.num * s.den;
    assert(step.num == x * m && step.den == (r.den * c.den) * (m * m)) by (nonlinear_arith)
        requires
            step.num == (r.num * n) * (c.den * m) + (c.num * 1) * (r.den * m),
            step.den == (r.den * m) * (c.den * m),
            x == (r.num * n) * c.den + c.num * r.den,
    ;
    assert(mean.num == y && mean.den == (s.den * c.den) * m);
    // By the hypothesis, x / r.den and y / s.den are the same number.
    let x1 = (r.num * n) * c.den;
    let x2 = c.num * r.den;
    let y1 = s.num * c.den;
    let y2 = c.num * s.den;
    assert(x1 * s.den == y1 * r.den) by (nonlinear_arith)
        requires
            r.num * (s.den * n) == (s.num * 1) * r.den,
            x1 == (r.num * n) * c.den,
            y1 == s.num * c.den,
    ;
    assert(x2 * s.den == y2 * r.den) by (nonlinear_arith)
        requires
            x2 == c.num * r.den,
            y2 == c.num * s.den,
    ;
    assert(x * s.den == y * r.den) by (nonlinear_arith)
        requires
            x == x1 + x2,
            y == y1 + y2,
            x1 * s.den == y1 * r.den,
            x2 * s.den == y2 * r.den,
    ;
    let k = c.den * (m * m);
    assert((x * m) * ((s.den * c.den) * m) == (x * s.den) * k) by (nonlinear_arith)
        requires
            k == c.den * (m * m),
    ;
    assert(y * ((r.den * c.den) * (m * m)) == (y * r.den) * k) by (nonlinear_arith)
        requires
            k == c.den * (m * m),
    ;
}

/// The running estimate is the cumulative mean: applied frame by frame to
/// any one or more rates, the running step gives the same number as the sum
/// of those rates divided by their count. Where every rate has a positive
/// denominator, so have both results.
pub proof fn lemma_running_is_mean(curs: Seq<Fraction>)
    requires
        curs.len() >= 1,
    ensures
        running_rate(curs).same(mean_rate(curs)),
        all_defined(curs) ==> running_rate(curs).den > 0 && mean_rate(curs).den > 0,
    decreases curs.len(),
{
    let head = curs.drop_last();
    let c = curs.last();
    if all_defined(curs) {
        lemma_running_defined(curs);
        lemma_total_defined(curs);
        assert(total_rate(curs).den * curs.len() > 0) by (nonlinear_arith)
            requires
                total_rate(curs).den > 0,
                curs.len() > 0,
        ;
    }
    if curs.len() == 1 {
        assert(head.len() == 0);
        assert(running_rate(curs) == c);
        assert(total_rate(head) == Fraction::whole(0));
        let t = Fraction::whole(0).plus(c);
        assert(total_rate(curs) == t);
        assert(t.num == c.num && t.den == c.den) by (nonlinear_arith)
            requires
                t.num == 0 * c.den + c.num * 1,
                t.den == 1 * c.den,
        ;
        assert(mean_rate(curs).num == c.num && mean_rate(curs).den == c.den) by (nonlinear_arith)
            requires
                mean_rate(curs).num == t.num * 1,
                mean_rate(curs).den == t.den * 1,
                t.num == c.num,
                t.den == c.den,
        ;
    } else {
        lemma_running_is_mean(head);
        lemma_step_keeps_mean(running_rate(head), total_rate(head), c, head.len() as int);
    }
}

/// One frame as it was measured: its length in bytes and the microseconds
/// its acquisition took.
pub struct Sample {
    pub bytes: nat,
    pub micros: nat,
}

/// The exact instantaneous rate of a sample, in bytes per second.
pub open spec fn exact_rate(sample: Sample) -> Fraction {
    Fraction { num: (sample.bytes * 1_000_000) as int, den: sample.micros as int }
}

/// The exact instantaneous rates of the samples, in their order.
pub open spec fn exact_rates(samples: Seq<Sample>) -> Seq<Fraction> {
    Seq::new(samples.len(), |k: int| exact_rate(samples[k]))
}

/// For every sequence of one or more samples, the running step applied
/// frame by frame to their instantaneous rates gives the same number as the
/// arithmetic mean of those rates. Where every acquisition took some time,
/// both are fractions of positive denominators.
pub proof fn lemma_running_is_mean_of_samples(samples: Seq<Sample>)
    requires
        samples.len() >= 1,
    ensures
        running_rate(exact_rates(samples)).same(mean_rate(exact_rates(samples))),
        (forall|k: int| 0 <= k < samples.len() ==> (#[trigger] samples[k]).micros > 0) ==> {
            &&& running_rate(exact_rates(samples)).den > 0
            &&& mean_rate(exact_rates(samples)).den > 0
        },
{
    lemma_running_is_mean(exact_rates(samples));
    if forall|k: int| 0 <= k < samples.len() ==> (#[trigger] samples[k]).micros > 0 {
        assert forall|k: int| 0 <= k < exact_rates(samples).len() implies (
        #[trigger] exact_rates(samples)[k]).den > 0 by {
            assert(samples[k].micros > 0);
        }
    }
}

/// Bytes in one megabyte, the unit in which throughput is reported.
pub const BYTES_PER_MEGABYTE: u64 = 1_048_576;

/// Microseconds in one second.
pub const MICROS_PER_SECOND: u64 = 1_000_000;

/// The instantaneous rate of one frame in whole bytes per second: `bytes`
/// over an acquisition that took `micros` microseconds, rounded down.
pub open spec fn bytes_per_second(bytes: nat, micros: nat) -> nat
    recommends
        micros > 0,
{
    (bytes * 1_000_000) / micros
}

/// Measures one frame. The rate is undefined for an acquisition of zero
/// microseconds, and is not given where it exceeds what a `u64` holds.
pub fn instantaneous_rate(bytes: u64, micros: u64) -> (cur: Option<u64>)
    ensures
        cur is Some <==> micros > 0 && bytes_per_second(bytes as nat, micros as nat) <= u64::MAX,
        cur matches Some(c) ==> c == bytes_per_second(bytes as nat, micros as nat),
        cur matches Some(c) ==> c * micros <= bytes * 1_000_000 < (c + 1) * micros,
{
    if micros == 0 {
        return None;
    }
    assert(bytes * MICROS_PER_SECOND == bytes * 1_000_000 <= u128::MAX);
    let scaled: u128 = (bytes as u128) * (MICROS_PER_SECOND as u128);
    let quotient: u128 = scaled / (micros as u128);
    assert(quotient * micros <= scaled < (quotient + 1) * micros) by (nonlinear_arith)
        requires
            micros > 0,
            quotient == scaled / (micros as u128),
    ;
    if quotient > u64::MAX as u128 {
        None
    } else {
        Some(quotient as u64)
    }
}

/// The sum of the recorded rates.
pub open spec fn sum_of(rates: Seq<u64>) -> nat
    decreases rates.len(),
{
    if rates.len() == 0 {
        0
    } else {
        sum_of(rates.drop_last()) + rates.last() as nat
    }
}

/// The recorded rates as fractions over one.
pub open spec fn as_fractions(rates: Seq<u64>) -> Seq<Fraction> {
    Seq::new(rates.len(), |k: int| Fraction::whole(rates[k] as int))
}

proof fn lemma_sum_bounded(rates: Seq<u64>)
    ensures
        sum_of(rates) <= rates.len() * u64::MAX,
    decreases rates.len(),
{
    if rates.len() > 0 {
        lemma_sum_bounded(rates.drop_last());
        assert((rates.len() - 1) * u64::MAX + u64::MAX == rates.len() * u64::MAX)
            by (nonlinear_arith);
    }
}

proof fn lemma_total_of_fractions(rates: Seq<u64>)
    ensures
        total_rate(as_fractions(rates)) == Fraction::whole(sum_of(rates) as int),
    decreases rates.len(),
{
    let curs = as_fractions(rates);
    if rates.len() > 0 {
        lemma_total_of_fractions(rates.drop_last());
        assert(curs.drop_last() =~= as_fractions(rates.drop_last()));
        let t = total_rate(curs.drop_last());
        let c = curs.last();
        assert(t.plus(c).num == t.num + c.num && t.plus(c).den == 1) by (nonlinear_arith)
            requires
                t.den == 1,
                c.den == 1,
                t.plus(c).num == t.num * c.den + c.num * t.den,
                t.plus(c).den == t.den * c.den,
        ;
    }
}

/// The running throughput estimate: the rates recorded so far, frame by
/// frame, and their exact sum.
pub struct ThroughputEstimate {
    frames: u64,
    total: u128,
    history: Ghost<Seq<u64>>,
}

impl View for ThroughputEstimate {
    type V = Seq<u64>;

    /// The rates recorded so far, oldest first.
    closed spec fn view(&self) -> Seq<u64> {
        self.history@
    }
}

impl ThroughputEstimate {
    /// The counters agree with the recorded rates.
    pub closed spec fn wf(&self) -> bool {
        &&& self.frames as nat == self.history@.len()
        &&& self.total as nat == sum_of(self.history@)
    }

    /// The estimate as an exact fraction, in bytes per second: the sum of
    /// the recorded rates over their count.
    pub open spec fn model(&self) -> Fraction {
        Fraction { num: sum_of(self@) as int, den: self@.len() as int }
    }

    /// An estimate with no frame recorded.
    pub fn new() -> (est: ThroughputEstimate)
        ensures
            est.wf(),
            est@ == Seq::<u64>::empty(),
    {
        ThroughputEstimate { frames: 0, total: 0, history: Ghost(Seq::empty()) }
    }

    /// The number of frames recorded.
    pub fn frames(&self) -> (n: u64)
        requires
            self.wf(),
        ensures
            n as nat == self@.len(),
    {
        self.frames
    }

    /// Records the rate of the next frame. The new estimate is the running
    /// step applied to the old estimate, the frame's index and its rate.
    pub fn record(&mut self, cur: u64)
        requires
            old(self).wf(),
            old(self)@.len() < u64::MAX,
        ensures
            final(self).wf(),
            final(self)@ == old(self)@.push(cur),
            final(self).model().same(
                running_step(old(self).model(), old(self)@.len(), Fraction::whole(cur as int)),
            ),
    {
        proof {
            lemma_sum_bounded(self.history@);
            assert(self.history@.len() * u64::MAX + u64::MAX <= u128::MAX) by (nonlinear_arith)
                requires
                    self.history@.len() < u64::MAX,
            ;
            assert(self.history@.push(cur).drop_last() =~= self.history@);
            lemma_record_is_step(sum_of(self.history@) as int, self.history@.len() as int, cur as int);
        }
        self.total = self.total + cur as u128;
        self.frames = self.frames + 1;
        self.history = Ghost(self.history@.push(cur));
    }

    /// The estimate in bytes per second, or `None` before the first frame.
    pub fn rate(&self) -> (r: Option<Rate>)
        requires
            self.wf(),
        ensures
            r is Some <==> self@.len() > 0,
            r matches Some(rate) ==> rate@ == self.model(),
    {
        if self.frames == 0 {
            None
        } else {
            Some(Rate { num: self.total, den: self.frames as u128 })
        }
    }

    /// The estimate in megabytes per second, or `None` before the first
    /// frame.
    pub fn megabytes_per_second(&self) -> (r: Option<Rate>)
        requires
            self.wf(),
        ensures
            r is Some <==> self@.len() > 0,
            r matches Some(rate) ==> rate@ == self.model().scaled(1, 1_048_576),
    {
        if self.frames == 0 {
            None
        } else {
            assert(self.frames * BYTES_PER_MEGABYTE == self.frames * 1_048_576 <= u128::MAX);
            assert(sum_of(self@) * 1 == sum_of(self@)) by (nonlinear_arith);
            Some(Rate { num: self.total, den: (self.frames as u128) * (BYTES_PER_MEGABYTE as u128) })
        }
    }
}

/// The counters' update is the running step: `(t + c) / (n + 1)` is the
/// step applied to `t / n`, the index `n` and the rate `c / 1`.
proof fn lemma_record_is_step(t: int, n: int, c: int)
    requires
        n >= 0,
        n == 0 ==> t == 0,
    ensures
        (Fraction { num: t + c, den: n + 1 }).same(
            running_step(Fraction { num: t, den: n }, n as nat, Fraction::whole(c)),
        ),
{
    let old_rate = Fraction { num: t, den: n };
    let step = running_step(old_rate, n as nat, Fraction::whole(c));
    if n > 0 {
        let m = n + 1;
        assert(step.num == (t * n) * (1 * m) + (c * 1) * (n * m));
        assert(step.den == (n * m) * (1 * m));
        assert((t + c) * ((n * m) * (1 * m)) == ((t * n) * (1 * m) + (c * 1) * (n * m)) * m)
            by (nonlinear_arith);
    }
}

/// The estimator computes the running estimate: the sum of the recorded
/// rates over their count is the same number as the running step applied,
/// frame by frame, to those rates.
pub proof fn lemma_estimate_is_running_rate(rates: Seq<u64>)
    requires
        rates.len() >= 1,
    ensures
        (Fraction { num: sum_of(rates) as int, den: rates.len() as int }).same(
            running_rate(as_fractions(rates)),
        ),
{
    let curs = as_fractions(rates);
    lemma_running_is_mean(curs);
    lemma_total_of_fractions(rates);
    let mean = mean_rate(curs);
    assert(mean.num == sum_of(rates) && mean.den == rates.len()) by (nonlinear_arith)
        requires
            mean.num == sum_of(rates) * 1,
            mean.den == 1 * rates.len(),
    ;
}

/// The recorded rates are the samples' rates as `instantaneous_rate` gives
/// them: every acquisition took some time, and each rate is its sample's
/// bytes per second, rounded down.
pub open spec fn measures(rates: Seq<u64>, samples: Seq<Sample>) -> bool {
    &&& rates.len() == samples.len()
    &&& forall|k: int|
        0 <= k < rates.len() ==> {
            &&& (#[trigger] samples[k]).micros > 0
            &&& rates[k] as nat == bytes_per_second(samples[k].bytes, samples[k].micros)
        }
}

proof fn lemma_add_within(s: int, n: int, tn: int, td: int, q: int, cn: int, cd: int)
    by (nonlinear_arith)
    requires
        td > 0,
        cd > 0,
        s * td <= tn <= (s + n) * td,
        q * cd <= cn < (q + 1) * cd,
    ensures
        td * cd > 0,
        (s + q) * (td * cd) <= tn * cd + cn * td < (s + q + n + 1) * (td * cd),
{
    assert((s * td) * cd <= tn * cd <= ((s + n) * td) * cd);
    assert((q * cd) * td <= cn * td < ((q + 1) * cd) * td);
}

proof fn lemma_total_within(rates: Seq<u64>, samples: Seq<Sample>)
    requires
        measures(rates, samples),
    ensures
        total_rate(exact_rates(samples)).den > 0,
        sum_of(rates) * total_rate(exact_rates(samples)).den <= total_rate(
            exact_rates(samples),
        ).num,
        total_rate(exact_rates(samples)).num <= (sum_of(rates) + rates.len()) * total_rate(
            exact_rates(samples),
        ).den,
        rates.len() > 0 ==> total_rate(exact_rates(samples)).num < (sum_of(rates) + rates.len())
            * total_rate(exact_rates(samples)).den,
    decreases rates.len(),
{
    let curs = exact_rates(samples);
    if rates.len() > 0 {
        let head = samples.drop_last();
        let last = samples.last();
        assert(measures(rates.drop_last(), head)) by {
            assert forall|k: int| 0 <= k < head.len() implies (#[trigger] head[k]).micros > 0
                && rates.drop_last()[k] as nat == bytes_per_second(head[k].bytes, head[k].micros) by {
                assert(head[k] == samples[k]);
            }
        }
        lemma_total_within(rates.drop_last(), head);
        assert(curs.drop_last() =~= exact_rates(head));
        let t = total_rate(curs.drop_last());
        let c = curs.last();
        let q = rates.last() as int;
        assert(c == exact_rate(last));
        assert(last.micros > 0);
        assert(q == (last.bytes * 1_000_000) / last.micros);
        assert(q * c.den <= c.num < (q + 1) * c.den) by (nonlinear_arith)
            requires
                c.den > 0,
                c.num >= 0,
                q == c.num / c.den,
        ;
        lemma_add_within(
            sum_of(rates.drop_last()) as int,
            rates.len() - 1,
            t.num,
            t.den,
            q,
            c.num,
            c.den,
        );
    }
}

/// What the rounding costs: the estimate over rates that were each rounded
/// down to whole bytes per second is at most the exact mean of the samples'
/// rates, and falls short of it by less than one byte per second.
pub proof fn lemma_estimate_within_one(rates: Seq<u64>, samples: Seq<Sample>)
    requires
        rates.len() >= 1,
        measures(rates, samples),
    ensures
        mean_rate(exact_rates(samples)).den > 0,
        (Fraction { num: sum_of(rates) as int, den: rates.len() as int }).at_most(
            mean_rate(exact_rates(samples)),
        ),
        mean_rate(exact_rates(samples)).below(
            Fraction { num: (sum_of(rates) + rates.len()) as int, den: rates.len() as int },
        ),
{
    lemma_total_within(rates, samples);
    let t = total_rate(exact_rates(samples));
    let n = rates.len() as int;
    let s = sum_of(rates) as int;
    assert(exact_rates(samples).len() == n);
    assert(t.den * n > 0 && s * (t.den * n) <= (t.num * 1) * n && (t.num * 1) * n < (s + n) * (t.den
        * n)) by (nonlinear_arith)
        requires
            n >= 1,
            t.den > 0,
            s * t.den <= t.num < (s + n) * t.den,
    ;
}

} // verus!
