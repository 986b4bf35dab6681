//! The sliding window of utilisation samples that the live chart shows.
//!
//! A series keeps its samples in the order in which they came, never holds more
//! than its cap, drops the oldest sample when a new one would exceed the cap, and
//! only takes a sample that is later than the last one it holds.

use vstd::prelude::*;

verus! {

/// One sample of the chart: the mean utilisation, in hundredths of a percent, at a
/// number of whole seconds into the run.
#[derive(Clone, Copy, Debug, PartialEq, Eq)]
pub struct ChartPoint {
    pub elapsed_secs: u64,
    pub usage: u32,
}

/// Every sample is later than all samples before it.
pub open spec fn strictly_increasing(points: Seq<ChartPoint>) -> bool {
    forall|i: int, j: int| 0 <= i < j < points.len() ==> points[i].elapsed_secs < points[j].elapsed_secs
}

/// Whether a sample taken at `elapsed_secs` may follow `points`: it must be later
/// than the last of them.
pub open spec fn accepts(points: Seq<ChartPoint>, elapsed_secs: u64) -> bool {
    points.len() == 0 || points.last().elapsed_secs < elapsed_secs
}

/// The last `cap` samples of `points`, or all of them if there are no more.
pub open spec fn window(points: Seq<ChartPoint>, cap: nat) -> Seq<ChartPoint> {
    if points.len() > cap {
        points.skip(points.len() - cap)
    } else {
        points
    }
}

/// The series that results from offering `point` to `points` under `cap`: a sample
/// that is not later than the last one is turned away; an accepted one is appended
/// and the series is cut back to its last `cap` samples.
pub open spec fn offered(points: Seq<ChartPoint>, cap: nat, point: ChartPoint) -> Seq<ChartPoint> {
    if accepts(points, point.elapsed_secs) {
        window(points.push(point), cap)
    } else {
        points
    }
}

/// The series that results from offering the samples `more` one after the other.
pub open spec fn offered_all(points: Seq<ChartPoint>, cap: nat, more: Seq<ChartPoint>) -> Seq<ChartPoint>
    decreases more.len(),
{
    if more.len() == 0 {
        points
    } else {
        offered_all(offered(points, cap, more[0]), cap, more.skip(1))
    }
}

/// A series as the contracts see it.
pub struct ChartView {
    pub points: Seq<ChartPoint>,
    pub cap: nat,
}

impl ChartView {
    /// The series is within its cap and its samples are in strictly increasing
    /// order of time.
    pub open spec fn wf(self) -> bool {
        &&& self.points.len() <= self.cap
        &&& strictly_increasing(self.points)
    }
}

/// A capped, insertion-ordered series of chart samples.
#[derive(Clone, Debug, PartialEq, Eq)]
pub struct ChartSeries {
    points: Vec<ChartPoint>,
    cap: usize,
}

impl View for ChartSeries {
    type V = ChartView;

    closed spec fn view(&self) -> ChartView {
        ChartView { points: self.points@, cap: self.cap as nat }
    }
}

impl ChartSeries {
    /// An empty series that will hold at most `cap` samples.
    pub fn new(cap: usize) -> (series: ChartSeries)
        ensures
            series@.wf(),
            series@ == (ChartView { points: Seq::empty(), cap: cap as nat }),
    {
        ChartSeries { points: Vec::new(), cap }
    }

    /// Offers a sample to the series. Returns whether it was taken; a sample that
    /// is not later than the last one leaves the series as it was.
    pub fn push(&mut self, elapsed_secs: u64, usage: u32) -> (taken: bool)
        requires
            old(self)@.wf(),
        ensures
            final(self)@.wf(),
            taken == accepts(old(self)@.points, elapsed_secs),
            final(self)@ == (ChartView {
                points: offered(
                    old(self)@.points,
                    old(self)@.cap,
                    ChartPoint { elapsed_secs, usage },
                ),
                cap: old(self)@.cap,
            }),
    {
        let n = self.points.len();
        if n > 0 && self.points[n - 1].elapsed_secs >= elapsed_secs {
            return false;
        }
        let ghost before = self.points@;
        self.points.push(ChartPoint { elapsed_secs, usage });
        if self.points.len() > self.cap {
            self.points.remove(0);
            assert(self.points@ =~= before.push(ChartPoint { elapsed_secs, usage }).skip(1));
        }
        true
    }

    /// Removes every sample; the cap stays.
    pub fn clear(&mut self)
        ensures
            final(self)@.wf(),
            final(self)@ == (ChartView { points: Seq::empty(), cap: old(self)@.cap }),
    {
        self.points.clear();
    }

    /// The number of samples held.
    pub fn len(&self) -> (n: usize)
        ensures
            n == self@.points.len(),
    {
        self.points.len()
    }

    /// The most samples the series will hold.
    pub fn cap(&self) -> (cap: usize)
        ensures
            cap == self@.cap,
    {
        self.cap
    }

    /// The samples, oldest first.
    pub fn points(&self) -> (points: &Vec<ChartPoint>)
        ensures
            points@ == self@.points,
    {
        &self.points
    }

    /// The newest sample, if there is one.
    pub fn last(&self) -> (point: Option<ChartPoint>)
        ensures
            self@.points.len() == 0 ==> point is None,
            self@.points.len() > 0 ==> point == Some(self@.points.last()),
    {
        let n = self.points.len();
        if n == 0 {
            None
        } else {
            Some(self.points[n - 1])
        }
    }
}

/// Whether the samples `more` follow on from `points`: taken together, in this
/// order, they are in strictly increasing order of time.
pub open spec fn follows_on(points: Seq<ChartPoint>, more: Seq<ChartPoint>) -> bool {
    strictly_increasing(points + more)
}

/// One offer keeps the series within its cap and in strictly increasing order. An
/// accepted sample becomes the newest one, and what the series then holds is the
/// tail of the old samples followed by the new one: if anything was dropped, it was
/// dropped from the old end.
pub proof fn lemma_offer_keeps_window(series: ChartView, point: ChartPoint)
    requires
        series.wf(),
    ensures
        offered(series.points, series.cap, point).len() <= series.cap,
        strictly_increasing(offered(series.points, series.cap, point)),
        accepts(series.points, point.elapsed_secs) ==> offered(series.points, series.cap, point)
            == window(series.points.push(point), series.cap),
        accepts(series.points, point.elapsed_secs) && series.points.len() < series.cap ==> offered(
            series.points,
            series.cap,
            point,
        ) == series.points.push(point),
        !accepts(series.points, point.elapsed_secs) ==> offered(series.points, series.cap, point)
            == series.points,
{
    let grown = series.points.push(point);
    if accepts(series.points, point.elapsed_secs) {
        assert(strictly_increasing(grown)) by {
            assert forall|i: int, j: int| 0 <= i < j < grown.len() implies grown[i].elapsed_secs
                < grown[j].elapsed_secs by {
                if j == grown.len() - 1 {
                    if i < series.points.len() - 1 {
                        assert(series.points[i].elapsed_secs < series.points[series.points.len()
                            - 1].elapsed_secs);
                    }
                }
            }
        }
        lemma_window_increasing(grown, series.cap);
    }
}

/// Cutting a strictly increasing series back to its last `cap` samples leaves a
/// strictly increasing series of at most `cap` samples.
pub proof fn lemma_window_increasing(points: Seq<ChartPoint>, cap: nat)
    requires
        strictly_increasing(points),
    ensures
        strictly_increasing(window(points, cap)),
        window(points, cap).len() <= cap,
        window(points, cap).len() <= points.len(),
{
    let w = window(points, cap);
    if points.len() > cap {
        let d = points.len() - cap;
        assert forall|i: int, j: int| 0 <= i < j < w.len() implies w[i].elapsed_secs
            < w[j].elapsed_secs by {
            assert(w[i] == points[i + d]);
            assert(w[j] == points[j + d]);
        }
    }
}

/// The sliding window. Offering to a series a run of samples that follow on from
/// it leaves exactly the last `cap` of all samples, old and new, in the order in
/// which they came: the series never exceeds its cap, the oldest samples are the
/// ones that go, and time keeps increasing strictly along it.
pub proof fn lemma_sliding_window(series: ChartView, more: Seq<ChartPoint>)
    requires
        series.wf(),
        follows_on(series.points, more),
    ensures
        offered_all(series.points, series.cap, more) == window(series.points + more, series.cap),
        offered_all(series.points, series.cap, more).len() <= series.cap,
        strictly_increasing(offered_all(series.points, series.cap, more)),
    decreases more.len(),
{
    let all = series.points + more;
    if more.len() == 0 {
        assert(all =~= series.points);
    } else {
        let first = more[0];
        let rest = more.skip(1);
        let grown = series.points.push(first);
        assert(accepts(series.points, first.elapsed_secs)) by {
            if series.points.len() > 0 {
                let k = series.points.len() - 1;
                assert(all[k] == series.points.last());
                assert(all[k + 1] == first);
            }
        }
        let next = offered(series.points, series.cap, first);
        assert(next == window(grown, series.cap));
        assert(strictly_increasing(grown)) by {
            assert forall|i: int, j: int| 0 <= i < j < grown.len() implies grown[i].elapsed_secs
                < grown[j].elapsed_secs by {
                assert(grown[i] == all[i]);
                assert(grown[j] == all[j]);
            }
        }
        lemma_window_increasing(grown, series.cap);
        let next_series = ChartView { points: next, cap: series.cap };
        assert(grown + rest =~= all);
        assert(strictly_increasing(next + rest)) by {
            let d = grown.len() - next.len();
            assert forall|i: int, j: int| 0 <= i < j < (next + rest).len() implies (next + rest)[i].elapsed_secs
                < (next + rest)[j].elapsed_secs by {
                assert((next + rest)[i] == all[i + d]);
                assert((next + rest)[j] == all[j + d]);
            }
        }
        lemma_sliding_window(next_series, rest);
        assert(window(next + rest, series.cap) =~= window(all, series.cap));
    }
}

} // verus!
