use vstd::prelude::*;

use crate::config::{HISTORY_BUCKET_SECS, HISTORY_POINTS, TREND_DEADBAND};
use heapless::HistoryBuffer;

verus! {

// ---------------------------------------------------------------------------
// The ring buffer of retained points (heapless) and the clock (embassy-time).
// ---------------------------------------------------------------------------

/// Makes `heapless::HistoryBuffer` known to Verus, as an opaque type: what it
/// holds is read through `retained`.
#[verifier::external_type_specification]
#[verifier::external_body]
#[verifier::reject_recursive_types(T)]
pub struct ExHistoryBuffer<T, const N: usize>(HistoryBuffer<T, N>);

/// The values a history buffer holds, oldest first.
pub uninterp spec fn retained(buf: HistoryBuffer<u16, HISTORY_POINTS>) -> Seq<u16>;

/// What a write-only ring of `HISTORY_POINTS` slots holds after `v` is
/// written: `v` is appended, and the oldest value leaves once the ring is full.
pub open spec fn ring_write(s: Seq<u16>, v: u16) -> Seq<u16> {
    if s.len() < HISTORY_POINTS {
        s.push(v)
    } else {
        s.push(v).drop_first()
    }
}

/// Calls `HistoryBuffer::new`: the new buffer holds nothing.
#[verifier::external_body]
fn buffer_new() -> (buf: HistoryBuffer<u16, HISTORY_POINTS>)
    ensures
        retained(buf) == Seq::<u16>::empty(),
{
    HistoryBuffer::new()
}

/// Calls `HistoryBuffer::write`: the value becomes the newest one, and when all
/// `HISTORY_POINTS` slots were taken the oldest value is overwritten.
#[verifier::external_body]
fn buffer_write(buf: &mut HistoryBuffer<u16, HISTORY_POINTS>, v: u16)
    requires
        retained(*old(buf)).len() <= HISTORY_POINTS,
    ensures
        retained(*final(buf)) == ring_write(retained(*old(buf)), v),
{
    buf.write(v)
}

/// Calls `HistoryBuffer::len`: the number of values held, never more than the
/// capacity.
#[verifier::external_body]
fn buffer_len(buf: &HistoryBuffer<u16, HISTORY_POINTS>) -> (n: usize)
    ensures
        n == retained(*buf).len(),
        n <= HISTORY_POINTS,
{
    buf.len()
}

/// Calls `HistoryBuffer::oldest_ordered` and copies out what it yields: the
/// values held, oldest first.
#[verifier::external_body]
fn buffer_oldest_first(buf: &HistoryBuffer<u16, HISTORY_POINTS>) -> (v: Vec<u16>)
    ensures
        v@ == retained(*buf),
{
    buf.oldest_ordered().copied().collect()
}

/// The clock ticks per second of the embassy-time build used here (its `std`
/// feature selects `tick-hz-1_000_000`).
pub open spec fn ticks_per_sec() -> nat {
    1_000_000
}

/// Calls `embassy_time::Duration::as_secs` on a duration of `ticks` ticks:
/// the whole seconds in it.
#[verifier::external_body]
fn ticks_as_secs(ticks: u64) -> (secs: u64)
    ensures
        secs == ticks as nat / ticks_per_sec(),
{
    embassy_time::Duration::from_ticks(ticks).as_secs()
}

/// Calls `embassy_time::Instant::now` and returns its tick count. Nothing is
/// stated of the value: it is whatever the clock reads.
#[verifier::external_body]
fn clock_ticks() -> (ticks: u64) {
    embassy_time::Instant::now().as_ticks()
}

// ---------------------------------------------------------------------------
// The history itself.
// ---------------------------------------------------------------------------

/// Direction of the CO2 trend relative to the recent history baseline.
#[derive(Debug, Clone, Copy, PartialEq, Eq, Structural)]
pub enum Trend {
    Up,
    Flat,
    Down,
}

/// Sum of a sequence of readings.
pub open spec fn sum(s: Seq<u16>) -> nat
    decreases s.len(),
{
    if s.len() == 0 {
        0
    } else {
        sum(s.drop_last()) + s.last() as nat
    }
}

/// Mean of a non-empty sequence of readings, rounded down.
pub open spec fn mean(s: Seq<u16>) -> nat
    recommends
        s.len() > 0,
{
    sum(s) / s.len()
}

/// The abstract state of a [`History`].
pub struct HistoryView {
    /// Retained bucket means, oldest first.
    pub points: Seq<u16>,
    /// Readings of the bucket that is still open, in arrival order.
    pub bucket: Seq<u16>,
    /// Clock tick at which the open bucket started.
    pub bucket_start: u64,
}

/// A history that retains nothing and whose empty bucket started at tick
/// `start`. Every result a history gives (its points, count, average, trend
/// and what each push makes of it) is a function of its view, so two fresh
/// histories started at the same tick behave the same under any calls.
pub open spec fn fresh(start: u64) -> HistoryView {
    HistoryView { points: Seq::empty(), bucket: Seq::empty(), bucket_start: start }
}

/// The state after a reading of `co2` arrives at tick `now`: the reading joins
/// the open bucket, and once `HISTORY_BUCKET_SECS` whole seconds have passed
/// since the bucket started, the bucket closes into one stored point (its mean)
/// and a new, empty bucket starts at `now`.
pub open spec fn after_push(h: HistoryView, co2: u16, now: u64) -> HistoryView
    recommends
        h.bucket_start <= now,
{
    let bucket = h.bucket.push(co2);
    if (now - h.bucket_start) as nat / ticks_per_sec() >= HISTORY_BUCKET_SECS {
        HistoryView {
            points: ring_write(h.points, mean(bucket) as u16),
            bucket: Seq::empty(),
            bucket_start: now,
        }
    } else {
        HistoryView { points: h.points, bucket, bucket_start: h.bucket_start }
    }
}

/// The trend of `latest` against the oldest retained point, with a deadband.
pub open spec fn trend_of(points: Seq<u16>, latest: u16) -> Trend {
    if points.len() == 0 {
        Trend::Flat
    } else {
        let delta = latest - points[0];
        if delta > TREND_DEADBAND {
            Trend::Up
        } else if delta < -TREND_DEADBAND {
            Trend::Down
        } else {
            Trend::Flat
        }
    }
}

/// The bucket of readings still being collected: the readings themselves
/// (ghost), their sum and count, and the clock tick at which it started.
struct OpenBucket {
    sum: u32,
    count: u32,
    start: u64,
    readings: Ghost<Seq<u16>>,
}

impl OpenBucket {
    /// The counters agree with the readings.
    #[verifier::type_invariant]
    spec fn counts_readings(self) -> bool {
        &&& self.sum == sum(self.readings@)
        &&& self.count == self.readings@.len()
    }
}

/// Downsampled CO2 history feeding the average, trend arrow, and sparkline.
///
/// Raw readings arrive every few seconds; they are accumulated into time buckets
/// of [`HISTORY_BUCKET_SECS`] and only the per-bucket mean is retained, so
/// [`HISTORY_POINTS`] points cover the full window with little RAM.
pub struct History {
    points: HistoryBuffer<u16, HISTORY_POINTS>,
    bucket: OpenBucket,
}

impl View for History {
    type V = HistoryView;

    closed spec fn view(&self) -> HistoryView {
        HistoryView {
            points: retained(self.points),
            bucket: self.bucket.readings@,
            bucket_start: self.bucket.start,
        }
    }
}

impl Default for History {
    /// The same as [`History::new`]: a fresh history started at the clock's
    /// reading.
    fn default() -> (h: Self)
        ensures
            h@ == fresh(h@.bucket_start),
    {
        Self::new()
    }
}

impl History {
    /// No more than `HISTORY_POINTS` points are retained.
    #[verifier::type_invariant]
    spec fn bounded(self) -> bool {
        retained(self.points).len() <= HISTORY_POINTS
    }

    /// A history with nothing retained and an empty bucket starting at `now`
    /// (clock ticks).
    pub fn starting_at(now: u64) -> (h: Self)
        ensures
            h@ == fresh(now),
    {
        History {
            points: buffer_new(),
            bucket: OpenBucket { sum: 0, count: 0, start: now, readings: Ghost(Seq::empty()) },
        }
    }

    /// A history with nothing retained whose first bucket starts now, as the
    /// clock reads.
    pub fn new() -> (h: Self)
        ensures
            h@ == fresh(h@.bucket_start),
    {
        Self::starting_at(clock_ticks())
    }

    /// Whether [`History::push`] can take a reading of `co2` at tick `now`:
    /// time has not gone backwards and the bucket's counters do not overflow.
    pub fn accepts(&self, co2: u16, now: u64) -> (b: bool)
        ensures
            b == (self@.bucket_start <= now && sum(self@.bucket) + co2 <= u32::MAX
                && self@.bucket.len() < u32::MAX),
    {
        proof {
            use_type_invariant(&self.bucket);
        }
        self.bucket.start <= now && self.bucket.sum <= u32::MAX - co2 as u32 && self.bucket.count
            < u32::MAX
    }

    /// Adds a reading to the current bucket, closing the bucket into a stored
    /// point once `HISTORY_BUCKET_SECS` have elapsed.
    pub fn push(&mut self, co2: u16, now: u64)
        requires
            old(self)@.bucket_start <= now,
            sum(old(self)@.bucket) + co2 <= u32::MAX,
            old(self)@.bucket.len() < u32::MAX,
        ensures
            final(self)@ == after_push(old(self)@, co2, now),
    {
        proof {
            use_type_invariant(&*self);
            use_type_invariant(&self.bucket);
        }
        let total = self.bucket.sum + co2 as u32;
        let count = self.bucket.count + 1;
        let ghost readings = self.bucket.readings@.push(co2);
        proof {
            assert(readings.drop_last() =~= self.bucket.readings@);
        }
        let elapsed = ticks_as_secs(now - self.bucket.start);
        if elapsed >= HISTORY_BUCKET_SECS {
            proof {
                lemma_sum_bounded(readings);
                lemma_mean_fits(sum(readings), readings.len());
            }
            let m = total / count;
            // Write into the buffer outside the history, so that the history
            // stays valid at every step.
            let mut points = buffer_new();
            std::mem::swap(&mut points, &mut self.points);
            buffer_write(&mut points, m as u16);
            self.points = points;
            self.bucket = OpenBucket { sum: 0, count: 0, start: now, readings: Ghost(Seq::empty()) };
        } else {
            self.bucket = OpenBucket {
                sum: total,
                count,
                start: self.bucket.start,
                readings: Ghost(readings),
            };
        }
    }

    /// Number of retained history points.
    pub fn len(&self) -> (n: usize)
        ensures
            n == self@.points.len(),
            n <= HISTORY_POINTS,
    {
        buffer_len(&self.points)
    }

    /// Whether any history points have been retained yet.
    pub fn is_empty(&self) -> (b: bool)
        ensures
            b == (self@.points.len() == 0),
    {
        buffer_len(&self.points) == 0
    }

    /// Retained points, oldest first, for rendering the graph.
    pub fn points_oldest_first(&self) -> (v: Vec<u16>)
        ensures
            v@ == self@.points,
            v@.len() <= HISTORY_POINTS,
    {
        proof {
            use_type_invariant(self);
        }
        buffer_oldest_first(&self.points)
    }

    /// Mean of all retained points, or `None` until the first bucket closes.
    pub fn average(&self) -> (r: Option<u16>)
        ensures
            r == (if self@.points.len() == 0 {
                None
            } else {
                Some(mean(self@.points) as u16)
            }),
            r matches Some(a) ==> a == mean(self@.points),
    {
        let len = buffer_len(&self.points);
        if len == 0 {
            return None;
        }
        let pts = buffer_oldest_first(&self.points);
        let ghost s = pts@;
        let mut total: u32 = 0;
        let mut i: usize = 0;
        while i < pts.len()
            invariant
                pts@ == s,
                s.len() == len,
                len <= HISTORY_POINTS,
                i <= len,
                total == sum(s.subrange(0, i as int)),
            decreases len - i,
        {
            proof {
                assert(s.subrange(0, i + 1).drop_last() =~= s.subrange(0, i as int));
                lemma_sum_bounded(s.subrange(0, i as int));
            }
            total = total + pts[i] as u32;
            i = i + 1;
        }
        proof {
            assert(s.subrange(0, len as int) =~= s);
            lemma_sum_bounded(s);
            lemma_mean_fits(sum(s), s.len());
        }
        Some((total / len as u32) as u16)
    }

    /// Trend of `latest` against the oldest retained point, with a deadband so
    /// small fluctuations read as steady.
    pub fn trend(&self, latest: u16) -> (t: Trend)
        ensures
            t == trend_of(self@.points, latest),
    {
        let pts = buffer_oldest_first(&self.points);
        if pts.len() == 0 {
            return Trend::Flat;
        }
        let baseline = pts[0];
        let deadband = TREND_DEADBAND as i32;
        let delta = latest as i32 - baseline as i32;
        if delta > deadband {
            Trend::Up
        } else if delta < -deadband {
            Trend::Down
        } else {
            Trend::Flat
        }
    }
}

/// Every reading is at most `u16::MAX`, so a sum is at most that many times
/// the number of readings.
pub proof fn lemma_sum_bounded(s: Seq<u16>)
    ensures
        sum(s) <= s.len() * 65535,
    decreases s.len(),
{
    if s.len() > 0 {
        lemma_sum_bounded(s.drop_last());
    }
}

/// A mean of readings fits in a `u16`.
pub proof fn lemma_mean_fits(total: nat, count: nat)
    requires
        count > 0,
        total <= count * 65535,
    ensures
        total / count <= 65535,
{
    assert(total / count <= 65535) by (nonlinear_arith)
        requires
            count > 0,
            total <= count * 65535,
    ;
}

/// A sum of readings that all lie in `lo..=hi` lies between `len * lo` and
/// `len * hi`.
proof fn lemma_sum_between(s: Seq<u16>, lo: int, hi: int)
    requires
        forall|i: int| 0 <= i < s.len() ==> lo <= #[trigger] s[i] <= hi,
    ensures
        s.len() * lo <= sum(s) <= s.len() * hi,
    decreases s.len(),
{
    if s.len() > 0 {
        let t = s.drop_last();
        assert forall|i: int| 0 <= i < t.len() implies lo <= #[trigger] t[i] <= hi by {
            assert(t[i] == s[i]);
        }
        lemma_sum_between(t, lo, hi);
        assert(s.len() * lo == t.len() * lo + lo) by (nonlinear_arith)
            requires
                s.len() == t.len() + 1,
        ;
        assert(s.len() * hi == t.len() * hi + hi) by (nonlinear_arith)
            requires
                s.len() == t.len() + 1,
        ;
    }
}

/// The mean of readings that all lie in `lo..=hi` lies in `lo..=hi` too: a
/// stored point lies within the range of the readings of its bucket, and the
/// average within the range of the retained points.
pub proof fn lemma_mean_between(s: Seq<u16>, lo: int, hi: int)
    requires
        s.len() > 0,
        forall|i: int| 0 <= i < s.len() ==> lo <= #[trigger] s[i] <= hi,
    ensures
        lo <= mean(s) <= hi,
{
    lemma_sum_between(s, lo, hi);
    let n = s.len() as int;
    let t = sum(s) as int;
    assert(lo <= t / n <= hi) by (nonlinear_arith)
        requires
            n > 0,
            n * lo <= t <= n * hi,
    ;
}

/// A reading arriving at least `HISTORY_BUCKET_SECS` whole seconds after the
/// bucket started closes the bucket: the bucket's mean (readings in `lo..=hi`
/// give a mean in `lo..=hi`) becomes the newest point, the points retained
/// before stay in order behind it, the oldest leaving only when
/// `HISTORY_POINTS` were retained, and a fresh bucket starts at that time.
/// Any earlier reading only joins the open bucket.
pub proof fn lemma_push_closes_bucket(h: HistoryView, co2: u16, now: u64)
    requires
        h.points.len() <= HISTORY_POINTS,
        h.bucket_start <= now,
    ensures
        ({
            let h2 = after_push(h, co2, now);
            let closes = (now - h.bucket_start) as nat / ticks_per_sec() >= HISTORY_BUCKET_SECS;
            &&& closes ==> {
                &&& h2.points.len() == if h.points.len() < HISTORY_POINTS {
                    h.points.len() + 1
                } else {
                    HISTORY_POINTS as nat
                }
                &&& h2.points.last() == mean(h.bucket.push(co2)) as u16
                &&& h2.points.drop_last() == h.points.subrange(
                    h.points.len() + 1 - h2.points.len(),
                    h.points.len() as int,
                )
                &&& h2.bucket.len() == 0
                &&& h2.bucket_start == now
            }
            &&& !closes ==> h2 == HistoryView {
                points: h.points,
                bucket: h.bucket.push(co2),
                bucket_start: h.bucket_start,
            }
        }),
{
    let h2 = after_push(h, co2, now);
    if (now - h.bucket_start) as nat / ticks_per_sec() >= HISTORY_BUCKET_SECS {
        assert(h2.points.drop_last() =~= h.points.subrange(
            h.points.len() + 1 - h2.points.len(),
            h.points.len() as int,
        ));
    }
}

/// A higher latest reading never turns the trend downwards: `Up` exactly when
/// it exceeds the baseline by more than the deadband, `Down` exactly when it
/// falls short of it by more than the deadband.
pub proof fn lemma_trend_monotone(points: Seq<u16>, a: u16, b: u16)
    requires
        a <= b,
    ensures
        trend_of(points, a) == Trend::Up ==> trend_of(points, b) == Trend::Up,
        trend_of(points, b) == Trend::Down ==> trend_of(points, a) == Trend::Down,
        points.len() > 0 ==> ((trend_of(points, a) == Trend::Up) <==> a > points[0]
            + TREND_DEADBAND),
        points.len() > 0 ==> ((trend_of(points, a) == Trend::Down) <==> a < points[0]
            - TREND_DEADBAND),
{
}

/// The state after the readings `rs` (each a CO2 value and the clock tick at
/// which it arrived) are pushed in order.
pub open spec fn after_pushes(h: HistoryView, rs: Seq<(u16, u64)>) -> HistoryView
    decreases rs.len(),
{
    if rs.len() == 0 {
        h
    } else {
        let prev = after_pushes(h, rs.drop_last());
        after_push(prev, rs.last().0, rs.last().1)
    }
}

/// Whether a reading at tick `now` closes the bucket of `h`.
pub open spec fn closes_bucket(h: HistoryView, now: u64) -> bool {
    (now - h.bucket_start) as nat / ticks_per_sec() >= HISTORY_BUCKET_SECS
}

/// How many of the readings `rs` close a bucket when pushed in order.
pub open spec fn closed_buckets(h: HistoryView, rs: Seq<(u16, u64)>) -> nat
    decreases rs.len(),
{
    if rs.len() == 0 {
        0
    } else {
        let prev = after_pushes(h, rs.drop_last());
        closed_buckets(h, rs.drop_last()) + if closes_bucket(prev, rs.last().1) {
            1nat
        } else {
            0nat
        }
    }
}

/// The points cover the last `HISTORY_POINTS` closed buckets: after any
/// readings, the number of points is what it was plus the buckets closed,
/// capped at `HISTORY_POINTS`. From an empty history, `n` closed buckets
/// leave `min(n, HISTORY_POINTS)` points.
pub proof fn lemma_points_count(h: HistoryView, rs: Seq<(u16, u64)>)
    requires
        h.points.len() <= HISTORY_POINTS,
    ensures
        after_pushes(h, rs).points.len() == if h.points.len() + closed_buckets(h, rs)
            <= HISTORY_POINTS {
            h.points.len() + closed_buckets(h, rs)
        } else {
            HISTORY_POINTS as nat
        },
    decreases rs.len(),
{
    if rs.len() > 0 {
        lemma_points_count(h, rs.drop_last());
    }
}

/// A reading that does not close the bucket changes nothing that is read off
/// the points: the count, the points themselves, the average and the trend
/// against any reading stay as they were.
pub proof fn lemma_open_bucket_push_keeps_points(h: HistoryView, co2: u16, now: u64, latest: u16)
    requires
        !closes_bucket(h, now),
    ensures
        after_push(h, co2, now).points == h.points,
        after_push(h, co2, now).points.len() == h.points.len(),
        h.points.len() > 0 ==> mean(after_push(h, co2, now).points) == mean(h.points),
        trend_of(after_push(h, co2, now).points, latest) == trend_of(h.points, latest),
{
}

} // verus!
