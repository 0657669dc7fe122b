//! Scanned single-beam range sensor: one revolution of samples is gathered
//! in a ring, aligned on the sensor's own mount, and read by sectors.

use crate::fanout::Fanout;
use crate::lidar::Frame;
use vstd::prelude::*;

verus! {

/// Range reported for a sector without a valid sample.
pub const NO_RANGE: u32 = u32::MAX;

/// Fewest samples of the mount that an alignment accepts.
pub const MIN_BACK_RUN: usize = 2;

/// Whether the `len` samples from `start` on all lie at or below the
/// threshold.
pub open spec fn is_run(samples: Seq<u16>, threshold: u16, start: int, len: int) -> bool {
    &&& 0 <= start
    &&& 0 <= len
    &&& start + len <= samples.len()
    &&& forall|j: int| start <= j < start + len ==> #[trigger] samples[j] <= threshold
}

/// Whether the run of `len` samples from `start` on is the longest there is,
/// and the first among those of its length.
pub open spec fn is_best_run(samples: Seq<u16>, threshold: u16, start: int, len: int) -> bool {
    &&& is_run(samples, threshold, start, len)
    &&& forall|a: int, l: int| #[trigger]
        is_run(samples, threshold, a, l) ==> l < len || (l == len && a >= start)
}

/// The longest run of samples at or below the threshold, as start and
/// length; the first of them where several are as long.
pub open spec fn best_run(samples: Seq<u16>, threshold: u16) -> (int, int) {
    choose|run: (int, int)| is_best_run(samples, threshold, run.0, run.1)
}

/// There is only one best run.
pub proof fn lemma_best_run_unique(samples: Seq<u16>, threshold: u16, start: int, len: int)
    requires
        is_best_run(samples, threshold, start, len),
    ensures
        best_run(samples, threshold) == (start, len),
{
    let found = best_run(samples, threshold);
    assert(is_best_run(samples, threshold, (start, len).0, (start, len).1));
    assert(is_best_run(samples, threshold, found.0, found.1));
    assert(is_run(samples, threshold, start, len));
    assert(is_run(samples, threshold, found.0, found.1));
}

/// The samples turned so that the one at `by` comes first.
pub open spec fn rotated(samples: Seq<u16>, by: int) -> Seq<u16> {
    samples.subrange(by, samples.len() as int) + samples.subrange(0, by)
}

/// The middle of a run, the earlier of the two where its length is even.
pub open spec fn midpoint(start: int, len: int) -> int {
    start + (len - 1) / 2
}

/// The aligned frame of a raw revolution: the samples turned so that the
/// middle of the sensor's mount, which is the best run, comes first. There is
/// none where that run has fewer than two samples.
pub open spec fn aligned_of(samples: Seq<u16>, threshold: u16) -> Option<Seq<u16>> {
    let run = best_run(samples, threshold);
    if run.1 >= MIN_BACK_RUN {
        Some(rotated(samples, midpoint(run.0, run.1)))
    } else {
        None
    }
}

/// The best run among the first `upto` samples, as start and length, and
/// with it the length of the run that ends where they end.
spec fn scan(samples: Seq<u16>, threshold: u16, upto: int) -> (int, int, int)
    decreases upto,
{
    if upto <= 0 {
        (0, 0, 0)
    } else {
        let before = scan(samples, threshold, upto - 1);
        let tail = if samples[upto - 1] <= threshold {
            before.2 + 1
        } else {
            0
        };
        if tail > before.1 {
            (upto - tail, tail, tail)
        } else {
            (before.0, before.1, tail)
        }
    }
}

/// `scan` finds what it says.
proof fn lemma_scan(samples: Seq<u16>, threshold: u16, upto: int)
    requires
        0 <= upto <= samples.len(),
    ensures
        ({
            let found = scan(samples, threshold, upto);
            &&& 0 <= found.2 <= upto
            &&& found.2 <= found.1
            &&& is_run(samples, threshold, upto - found.2, found.2)
            &&& upto - found.2 > 0 ==> samples[upto - found.2 - 1] > threshold
            &&& is_best_run(samples.take(upto), threshold, found.0, found.1)
        }),
    decreases upto,
{
    if upto == 0 {
        assert(is_run(samples.take(0), threshold, 0, 0));
    } else {
        lemma_scan(samples, threshold, upto - 1);
        let (old_start, old_len, old_tail) = scan(samples, threshold, upto - 1);
        let found = scan(samples, threshold, upto);
        let tail = found.2;
        let before = samples.take(upto - 1);
        let now = samples.take(upto);
        assert(is_run(before, threshold, old_start, old_len));
        assert(is_run(before, threshold, 0, 0));
        assert(is_run(now, threshold, found.0, found.1)) by {
            assert forall|j: int| found.0 <= j < found.0 + found.1 implies #[trigger] now[j]
                <= threshold by {
                if found.1 != old_len {
                    assert(samples[j] <= threshold);
                } else {
                    assert(before[j] <= threshold);
                }
            }
        }
        assert forall|a: int, l: int| #[trigger] is_run(now, threshold, a, l) implies l < found.1
            || (l == found.1 && a >= found.0) by {
            if a + l <= upto - 1 {
                assert(is_run(before, threshold, a, l)) by {
                    assert forall|j: int| a <= j < a + l implies #[trigger] before[j]
                        <= threshold by {
                        assert(now[j] <= threshold);
                    }
                }
            } else if l >= 1 {
                assert(now[upto - 1] <= threshold);
                if l > tail {
                    assert(now[upto - 1 - old_tail - 1] <= threshold);
                }
            }
        }
    }
}

/// Every revolution has a best run, and `best_run` is it.
pub proof fn lemma_best_run_is_best(samples: Seq<u16>, threshold: u16)
    ensures
        is_best_run(
            samples,
            threshold,
            best_run(samples, threshold).0,
            best_run(samples, threshold).1,
        ),
{
    lemma_scan(samples, threshold, samples.len() as int);
    let found = scan(samples, threshold, samples.len() as int);
    assert(samples.take(samples.len() as int) =~= samples);
    lemma_best_run_unique(samples, threshold, found.0, found.1);
}

/// An alignment turns the revolution and loses nothing: the aligned frame
/// has as many buckets, bucket `i` of it is the sample that stood `i` places
/// after the middle of the back run, going round, and so bucket zero is a
/// sample of the back run.
pub proof fn law_alignment_turns_the_back_to_the_front(samples: Seq<u16>, threshold: u16)
    requires
        aligned_of(samples, threshold) is Some,
    ensures
        ({
            let frame = aligned_of(samples, threshold)->0;
            let run = best_run(samples, threshold);
            let middle = midpoint(run.0, run.1);
            &&& frame.len() == samples.len()
            &&& run.0 <= middle < run.0 + run.1 <= samples.len()
            &&& forall|i: int|
                0 <= i < frame.len() ==> #[trigger] frame[i] == samples[(i + middle)
                    % samples.len() as int]
            &&& frame[0] <= threshold
        }),
{
    lemma_best_run_is_best(samples, threshold);
    let frame = aligned_of(samples, threshold)->0;
    let run = best_run(samples, threshold);
    let middle = midpoint(run.0, run.1);
    let n = samples.len() as int;
    assert(is_run(samples, threshold, run.0, run.1));
    assert forall|i: int| 0 <= i < frame.len() implies #[trigger] frame[i] == samples[(i + middle)
        % n] by {
        if i + middle < n {
            assert((i + middle) % n == i + middle) by (nonlinear_arith)
                requires
                    0 <= i + middle < n,
            ;
        } else {
            assert((i + middle) % n == i + middle - n) by (nonlinear_arith)
                requires
                    n <= i + middle < 2 * n,
            ;
        }
    }
    assert(frame[0] == samples[middle]);
}

/// An alignment fails exactly when no two neighbouring samples both lie at
/// or below the threshold.
pub proof fn law_alignment_needs_two_neighbours(samples: Seq<u16>, threshold: u16)
    ensures
        aligned_of(samples, threshold) is Some <==> exists|i: int|
            0 <= i && i + 1 < samples.len() && #[trigger] samples[i] <= threshold && samples[i + 1]
                <= threshold,
{
    lemma_best_run_is_best(samples, threshold);
    let run = best_run(samples, threshold);
    assert(is_run(samples, threshold, run.0, run.1));
    if aligned_of(samples, threshold) is Some {
        assert(samples[run.0] <= threshold);
        assert(samples[run.0 + 1] <= threshold);
    }
    if exists|i: int|
        0 <= i && i + 1 < samples.len() && #[trigger] samples[i] <= threshold && samples[i + 1]
            <= threshold {
        let i = choose|i: int|
            0 <= i && i + 1 < samples.len() && #[trigger] samples[i] <= threshold && samples[i + 1]
                <= threshold;
        assert(is_run(samples, threshold, i, 2)) by {
            assert forall|j: int| i <= j < i + 2 implies #[trigger] samples[j] <= threshold by {
                if j == i {
                } else {
                    assert(j == i + 1);
                }
            }
        }
    }
}

/// Finds the longest run of samples at or below the threshold: its start and
/// its length. Of several that are as long it finds the first; without any
/// such sample the run is empty and starts at zero.
pub fn longest_run(samples: &[u16], threshold: u16) -> (run: (usize, usize))
    ensures
        is_best_run(samples@, threshold, run.0 as int, run.1 as int),
        best_run(samples@, threshold) == (run.0 as int, run.1 as int),
{
    let n = samples.len();
    let mut best_start: usize = 0;
    let mut best_len: usize = 0;
    let mut cur_len: usize = 0;
    let mut i: usize = 0;
    while i < n
        invariant
            n == samples@.len(),
            i <= n,
            (best_start as int, best_len as int, cur_len as int) == scan(
                samples@,
                threshold,
                i as int,
            ),
        decreases n - i,
    {
        proof {
            lemma_scan(samples@, threshold, i as int);
        }
        if samples[i] <= threshold {
            cur_len = cur_len + 1;
            if cur_len > best_len {
                best_len = cur_len;
                best_start = i + 1 - cur_len;
            }
        } else {
            cur_len = 0;
        }
        i = i + 1;
    }
    proof {
        lemma_scan(samples@, threshold, n as int);
        assert(samples@.take(n as int) =~= samples@);
        lemma_best_run_unique(samples@, threshold, best_start as int, best_len as int);
    }
    (best_start, best_len)
}

/// Aligns one raw revolution on the sensor's mount: turns the samples so
/// that the middle of the longest run at or below `threshold` comes first.
/// Fails where that run has fewer than two samples.
pub fn fix_range(raw: &[u16], threshold: u16) -> (aligned: Option<Vec<u16>>)
    ensures
        match aligned {
            Some(frame) => aligned_of(raw@, threshold) == Some(frame@) && frame@.len()
                == raw@.len(),
            None => aligned_of(raw@, threshold) is None,
        },
{
    let (start, len) = longest_run(raw, threshold);
    if len < MIN_BACK_RUN {
        return None;
    }
    let n = raw.len();
    let mid = start + (len - 1) / 2;
    let mut frame: Vec<u16> = Vec::new();
    let mut i: usize = mid;
    while i < n
        invariant
            mid <= i <= n,
            n == raw@.len(),
            frame@ == raw@.subrange(mid as int, i as int),
        decreases n - i,
    {
        frame.push(raw[i]);
        i = i + 1;
        assert(frame@ =~= raw@.subrange(mid as int, i as int));
    }
    let mut k: usize = 0;
    while k < mid
        invariant
            k <= mid <= n,
            n == raw@.len(),
            frame@ == raw@.subrange(mid as int, n as int) + raw@.subrange(0, k as int),
        decreases mid - k,
    {
        frame.push(raw[k]);
        k = k + 1;
        assert(frame@ =~= raw@.subrange(mid as int, n as int) + raw@.subrange(0, k as int));
    }
    Some(frame)
}

/// The smallest sample above the threshold, or `NO_RANGE` where there is
/// none: samples at or below the threshold show the mount, not an obstacle.
pub open spec fn nearest_valid(samples: Seq<u16>, threshold: u16) -> u32
    decreases samples.len(),
{
    if samples.len() == 0 {
        NO_RANGE
    } else {
        let rest = nearest_valid(samples.drop_last(), threshold);
        if samples.last() > threshold && samples.last() < rest {
            samples.last() as u32
        } else {
            rest
        }
    }
}

/// `nearest_valid` is a lower bound of every sample above the threshold, and
/// it is one of them unless there is none.
pub proof fn law_nearest_valid_is_minimum(samples: Seq<u16>, threshold: u16)
    ensures
        forall|i: int|
            0 <= i < samples.len() && #[trigger] samples[i] > threshold ==> nearest_valid(
                samples,
                threshold,
            ) <= samples[i],
        nearest_valid(samples, threshold) == NO_RANGE ==> forall|i: int|
            0 <= i < samples.len() ==> #[trigger] samples[i] <= threshold,
        nearest_valid(samples, threshold) != NO_RANGE ==> exists|i: int|
            0 <= i < samples.len() && #[trigger] samples[i] > threshold && samples[i]
                == nearest_valid(samples, threshold),
    decreases samples.len(),
{
    if samples.len() > 0 {
        let head = samples.drop_last();
        law_nearest_valid_is_minimum(head, threshold);
        let m = nearest_valid(samples, threshold);
        assert forall|i: int| 0 <= i < samples.len() && #[trigger] samples[i] > threshold implies m
            <= samples[i] by {
            if i < head.len() {
                assert(head[i] == samples[i]);
            }
        }
        if m == NO_RANGE {
            assert forall|i: int| 0 <= i < samples.len() implies #[trigger] samples[i]
                <= threshold by {
                if i < head.len() {
                    assert(head[i] == samples[i]);
                }
            }
        } else if samples.last() > threshold && m == samples.last() {
            assert(samples[samples.len() - 1] == m);
        } else {
            let i = choose|i: int|
                0 <= i < head.len() && #[trigger] head[i] > threshold && head[i] == nearest_valid(
                    head,
                    threshold,
                );
            assert(samples[i] == head[i]);
        }
    }
}

/// Where the sector boundary at `eighths` eighths of a turn falls among `n`
/// buckets.
pub open spec fn boundary(n: int, eighths: int) -> int {
    (eighths * n) / 8
}

/// The buckets between two boundaries. Bucket zero looks back at the mount,
/// so a quarter turn on lies the left, half a turn on the front, and three
/// quarters on the right.
pub open spec fn sector(buckets: Seq<u16>, from_eighths: int, to_eighths: int) -> Seq<u16> {
    buckets.subrange(
        boundary(buckets.len() as int, from_eighths),
        boundary(buckets.len() as int, to_eighths),
    )
}

/// The quarter turn around the left.
pub open spec fn left_sector(buckets: Seq<u16>) -> Seq<u16> {
    sector(buckets, 1, 3)
}

/// The quarter turn around the front.
pub open spec fn front_sector(buckets: Seq<u16>) -> Seq<u16> {
    sector(buckets, 3, 5)
}

/// The quarter turn around the right.
pub open spec fn right_sector(buckets: Seq<u16>) -> Seq<u16> {
    sector(buckets, 5, 7)
}

/// The three ranges of an aligned revolution.
pub open spec fn ranges_of(buckets: Seq<u16>, threshold: u16) -> Frame {
    Frame::of(
        nearest_valid(left_sector(buckets), threshold),
        nearest_valid(front_sector(buckets), threshold),
        nearest_valid(right_sector(buckets), threshold),
    )
}

/// One aligned revolution: bucket zero looks back at the mount.
#[derive(Debug)]
pub struct Sweep {
    buckets: Vec<u16>,
    threshold: u16,
}

impl View for Sweep {
    type V = Seq<u16>;

    closed spec fn view(&self) -> Seq<u16> {
        self.buckets@
    }
}

/// The index of the boundary at `eighths` eighths of a turn.
fn boundary_at(n: usize, eighths: u8) -> (index: usize)
    requires
        eighths <= 8,
    ensures
        index == boundary(n as int, eighths as int),
        index <= n,
{
    assert(eighths * n <= 8 * n) by (nonlinear_arith)
        requires
            eighths <= 8,
            n >= 0,
    ;
    let wide: u128 = (eighths as u128) * (n as u128);
    (wide / 8) as usize
}

/// Earlier boundaries come first.
proof fn lemma_boundaries_ordered(n: int, low: int, high: int)
    requires
        0 <= n,
        0 <= low <= high <= 8,
    ensures
        0 <= boundary(n, low) <= boundary(n, high) <= n,
{
    assert(0 <= (low * n) / 8 <= (high * n) / 8 <= n) by (nonlinear_arith)
        requires
            0 <= n,
            0 <= low <= high <= 8,
    ;
}

impl Sweep {
    /// The reading at or below which a sample shows the mount.
    pub closed spec fn back_threshold(&self) -> u16 {
        self.threshold
    }

    /// A sweep of these buckets.
    pub fn new(buckets: Vec<u16>, threshold: u16) -> (sweep: Sweep)
        ensures
            sweep@ == buckets@,
            sweep.back_threshold() == threshold,
    {
        Sweep { buckets, threshold }
    }

    /// The buckets, from the one that looks back at the mount on.
    pub fn buckets(&self) -> (buckets: &Vec<u16>)
        ensures
            buckets@ == self@,
    {
        &self.buckets
    }

    /// The nearest valid sample between two sector boundaries.
    fn range_between(&self, from_eighths: u8, to_eighths: u8) -> (range: u32)
        requires
            from_eighths <= to_eighths <= 8,
        ensures
            range == nearest_valid(
                sector(self@, from_eighths as int, to_eighths as int),
                self.back_threshold(),
            ),
    {
        let n = self.buckets.len();
        let from = boundary_at(n, from_eighths);
        let to = boundary_at(n, to_eighths);
        proof {
            lemma_boundaries_ordered(n as int, from_eighths as int, to_eighths as int);
        }
        let mut range: u32 = NO_RANGE;
        let mut i: usize = from;
        while i < to
            invariant
                from <= i <= to <= n,
                n == self.buckets@.len(),
                range == nearest_valid(self.buckets@.subrange(from as int, i as int), self.threshold),
            decreases to - i,
        {
            proof {
                let next = self.buckets@.subrange(from as int, i + 1);
                assert(next.drop_last() =~= self.buckets@.subrange(from as int, i as int));
                assert(next.last() == self.buckets@[i as int]);
            }
            let sample = self.buckets[i];
            if sample > self.threshold && (sample as u32) < range {
                range = sample as u32;
            }
            i = i + 1;
        }
        range
    }

    /// Nearest valid sample of the left sector, or `NO_RANGE`.
    pub fn get_range_left(&self) -> (range: u32)
        ensures
            range == nearest_valid(left_sector(self@), self.back_threshold()),
    {
        self.range_between(1, 3)
    }

    /// Nearest valid sample of the front sector, or `NO_RANGE`.
    pub fn get_range_front(&self) -> (range: u32)
        ensures
            range == nearest_valid(front_sector(self@), self.back_threshold()),
    {
        self.range_between(3, 5)
    }

    /// Nearest valid sample of the right sector, or `NO_RANGE`.
    pub fn get_range_right(&self) -> (range: u32)
        ensures
            range == nearest_valid(right_sector(self@), self.back_threshold()),
    {
        self.range_between(5, 7)
    }

    /// The three ranges.
    pub fn get_frame(&self) -> (frame: Frame)
        ensures
            frame == ranges_of(self@, self.back_threshold()),
            frame.left() == nearest_valid(left_sector(self@), self.back_threshold()),
            frame.front() == nearest_valid(front_sector(self@), self.back_threshold()),
            frame.right() == nearest_valid(right_sector(self@), self.back_threshold()),
    {
        Frame::new(self.get_range_left(), self.get_range_front(), self.get_range_right())
    }
}

/// Thousandths of a degree in a full turn.
pub const FULL_TURN: u64 = 360_000;

/// The number of samples in one revolution at `rate` degrees per second and
/// one sample every `step_ms` milliseconds.
pub open spec fn frame_len(rate: u32, step_ms: u32) -> int {
    FULL_TURN as int / (rate as int * step_ms as int)
}

/// What the scan engine is, as plain values.
pub struct ScannerState {
    /// Degrees per second at which the sensor is turned.
    pub rate: u32,
    /// The reading at or below which a sample shows the mount.
    pub threshold: u16,
    /// The revolution being gathered.
    pub raw: Seq<u16>,
    /// Where the next sample goes.
    pub next: int,
    /// The last revolution that could be aligned.
    pub aligned: Seq<u16>,
    /// Whether the engine is switched on.
    pub running: bool,
}

/// What a power switch asks of the scan motor.
#[derive(Clone, Copy, Debug, PartialEq, Eq, Structural)]
pub enum ScanOrder {
    /// Turn the sensor at this many degrees per second and sample.
    Spin(u32),
    /// Stop the scan motor and stop sampling.
    Halt,
}

impl ScannerState {
    pub open spec fn wf(self) -> bool {
        &&& self.raw.len() >= 1
        &&& self.aligned.len() == self.raw.len()
        &&& 0 <= self.next < self.raw.len()
    }

    /// The state after the engine was switched. Switching on from off
    /// starts a fresh revolution.
    pub open spec fn power(self, on: bool) -> ScannerState {
        if !on {
            ScannerState { running: false, ..self }
        } else if self.running {
            self
        } else {
            ScannerState { running: true, next: 0, ..self }
        }
    }

    /// The state after one sample, and what became of the sample. A sample
    /// that completes the revolution has it aligned: where that succeeds the
    /// aligned frame is kept and published, where it fails the frame kept
    /// before stays and nothing is published. While switched off, samples
    /// are dropped.
    pub open spec fn push(self, sample: u16) -> (ScannerState, Outcome) {
        if !self.running {
            (self, Outcome::Dropped)
        } else {
            let raw = self.raw.update(self.next, sample);
            if self.next + 1 < self.raw.len() {
                (ScannerState { raw, next: self.next + 1, ..self }, Outcome::Gathered)
            } else {
                match aligned_of(raw, self.threshold) {
                    Some(frame) => (
                        ScannerState { raw, next: 0, aligned: frame, ..self },
                        Outcome::Published(frame),
                    ),
                    None => (ScannerState { raw, next: 0, ..self }, Outcome::Unaligned),
                }
            }
        }
    }
}

/// What became of a sample, as plain values.
pub enum Outcome {
    /// The engine is switched off: the sample was dropped.
    Dropped,
    /// The sample was stored; the revolution is not yet complete.
    Gathered,
    /// The sample completed a revolution, which was aligned to this frame.
    Published(Seq<u16>),
    /// The sample completed a revolution that could not be aligned.
    Unaligned,
}

/// What became of a sample.
#[derive(Debug)]
pub enum Progress {
    /// The engine is switched off: the sample was dropped.
    Dropped,
    /// The sample was stored; the revolution is not yet complete.
    Gathered,
    /// The sample completed a revolution: this is its aligned frame, to be
    /// published.
    Published(Sweep),
    /// The sample completed a revolution that could not be aligned: the
    /// frame kept before stays, and the failure is worth a warning.
    Unaligned,
}

impl Progress {
    /// The progress as plain values.
    pub open spec fn outcome(self) -> Outcome {
        match self {
            Progress::Dropped => Outcome::Dropped,
            Progress::Gathered => Outcome::Gathered,
            Progress::Published(sweep) => Outcome::Published(sweep@),
            Progress::Unaligned => Outcome::Unaligned,
        }
    }

    /// The frame to publish, if the sample completed one.
    pub fn published(self) -> (sweep: Option<Sweep>)
        ensures
            sweep == match self {
                Progress::Published(frame) => Some(frame),
                _ => None,
            },
    {
        match self {
            Progress::Published(frame) => Some(frame),
            _ => None,
        }
    }
}

/// The scan engine.
#[derive(Debug)]
pub struct Scanner {
    rate: u32,
    threshold: u16,
    raw: Vec<u16>,
    next: usize,
    aligned: Vec<u16>,
    running: bool,
}

impl View for Scanner {
    type V = ScannerState;

    closed spec fn view(&self) -> ScannerState {
        ScannerState {
            rate: self.rate,
            threshold: self.threshold,
            raw: self.raw@,
            next: self.next as int,
            aligned: self.aligned@,
            running: self.running,
        }
    }
}

impl Scanner {
    /// There is room for a revolution, as much for the aligned frame, and
    /// the next sample has a place.
    #[verifier::type_invariant]
    spec fn has_room(self) -> bool {
        self@.wf()
    }

    /// An engine, switched off, that turns the sensor at `rate` degrees per
    /// second, samples every `step_ms` milliseconds and takes readings up to
    /// `threshold` for the mount. Its frames have `frame_len(rate, step_ms)`
    /// buckets, all zero to begin with. There is no engine where a
    /// revolution would hold no sample.
    pub fn new(rate: u32, step_ms: u32, threshold: u16) -> (scanner: Option<Scanner>)
        ensures
            scanner is Some <==> 1 <= rate * step_ms <= FULL_TURN,
            scanner matches Some(engine) ==> {
                &&& engine@.wf()
                &&& engine@.rate == rate
                &&& engine@.threshold == threshold
                &&& engine@.raw =~= Seq::new(frame_len(rate, step_ms) as nat, |i: int| 0u16)
                &&& engine@.aligned =~= engine@.raw
                &&& engine@.next == 0
                &&& !engine@.running
            },
    {
        assert(rate * step_ms <= 0xffff_ffff * 0xffff_ffff) by (nonlinear_arith)
            requires
                rate <= 0xffff_ffff,
                step_ms <= 0xffff_ffff,
        ;
        let per_sample: u64 = (rate as u64) * (step_ms as u64);
        if per_sample == 0 || per_sample > FULL_TURN {
            return None;
        }
        let n: usize = (FULL_TURN / per_sample) as usize;
        assert(n >= 1) by (nonlinear_arith)
            requires
                n == FULL_TURN / per_sample,
                1 <= per_sample <= FULL_TURN,
        ;
        let raw: Vec<u16> = vec![0u16; n];
        let aligned: Vec<u16> = vec![0u16; n];
        Some(Scanner { rate, threshold, raw, next: 0, aligned, running: false })
    }

    /// Whether the engine is switched on.
    pub fn is_running(&self) -> (running: bool)
        ensures
            running == self@.running,
    {
        self.running
    }

    /// Switches the engine on or off and says what the scan motor is to do.
    pub fn set_power(&mut self, on: bool) -> (order: ScanOrder)
        ensures
            final(self)@.wf(),
            final(self)@ == old(self)@.power(on),
            order == if on {
                ScanOrder::Spin(old(self)@.rate)
            } else {
                ScanOrder::Halt
            },
    {
        proof {
            use_type_invariant(&*self);
        }
        if !on {
            self.running = false;
            ScanOrder::Halt
        } else {
            if !self.running {
                self.running = true;
                self.next = 0;
            }
            ScanOrder::Spin(self.rate)
        }
    }

    /// Takes one sample and says what became of it. The sample that
    /// completes a revolution has the revolution aligned and, where that
    /// succeeds, hands out the aligned frame for publication.
    pub fn push(&mut self, sample: u16) -> (progress: Progress)
        ensures
            final(self)@.wf(),
            final(self)@ == old(self)@.push(sample).0,
            progress.outcome() == old(self)@.push(sample).1,
            progress matches Progress::Published(sweep) ==> sweep.back_threshold()
                == old(self)@.threshold,
    {
        proof {
            use_type_invariant(&*self);
        }
        if !self.running {
            return Progress::Dropped;
        }
        let n = self.raw.len();
        let at = self.next;
        self.raw[at] = sample;
        if at + 1 < n {
            self.next = at + 1;
            return Progress::Gathered;
        }
        self.next = 0;
        match fix_range(self.raw.as_slice(), self.threshold) {
            Some(frame) => {
                self.aligned = frame.clone();
                Progress::Published(Sweep { buckets: frame, threshold: self.threshold })
            },
            None => Progress::Unaligned,
        }
    }

    /// Takes one sample and publishes what it completes: where the sample
    /// completes a revolution that can be aligned, the three ranges of the
    /// aligned frame go to every subscriber that can take them. Any other
    /// sample leaves the subscribers as they are.
    pub fn feed(&mut self, sample: u16, subscribers: &mut Fanout) -> (progress: Progress)
        ensures
            final(self)@.wf(),
            final(self)@ == old(self)@.push(sample).0,
            progress.outcome() == old(self)@.push(sample).1,
            progress matches Progress::Published(sweep) ==> sweep.back_threshold()
                == old(self)@.threshold,
            final(subscribers).limit() == old(subscribers).limit(),
            final(subscribers)@.len() == old(subscribers)@.len(),
            match old(self)@.push(sample).1 {
                Outcome::Published(frame) => forall|i: int|
                    0 <= i < old(subscribers)@.len() ==> #[trigger] final(subscribers)@[i] == old(
                        subscribers,
                    )@[i].offered(
                        ranges_of(frame, old(self)@.threshold),
                        old(subscribers).limit(),
                    ),
                _ => final(subscribers)@ == old(subscribers)@,
            },
    {
        let progress = self.push(sample);
        match &progress {
            Progress::Published(sweep) => {
                let _ = subscribers.publish(sweep.get_frame());
            },
            _ => {},
        }
        progress
    }

    /// The last revolution that could be aligned.
    pub fn sweep(&self) -> (sweep: Sweep)
        ensures
            sweep@ == self@.aligned,
            sweep.back_threshold() == self@.threshold,
    {
        Sweep { buckets: self.aligned.clone(), threshold: self.threshold }
    }
}

/// Milliseconds to wait before a reading is tried again.
pub const RETRY_DELAY_MS: u32 = 5;

/// Readings tried for one sample, at most.
pub const MAX_ATTEMPTS: u32 = 10;

/// What one attempt to read the sensor gave.
#[derive(Clone, Copy, Debug, PartialEq, Eq, Structural)]
pub enum Reading {
    /// A distance in mm.
    Distance(u16),
    /// The sensor reported an error.
    Failed,
}

/// What to make of a reading.
#[derive(Clone, Copy, Debug, PartialEq, Eq, Structural)]
pub enum Verdict {
    /// The sample is this distance.
    Accept(u16),
    /// Wait `RETRY_DELAY_MS` and read again.
    Retry,
    /// The sample is zero. `report` says whether the failure is worth a log
    /// line: it is unless the last reading was itself a distance of zero.
    GiveUp { report: bool },
}

/// The verdict on the reading of the `attempt`-th try, counted from one: a
/// distance above zero is accepted, anything else is tried again until the
/// tries are used up.
pub open spec fn verdict_of(attempt: u32, reading: Reading) -> Verdict {
    match reading {
        Reading::Distance(mm) if mm > 0 => Verdict::Accept(mm),
        _ => if attempt < MAX_ATTEMPTS {
            Verdict::Retry
        } else {
            Verdict::GiveUp { report: reading is Failed }
        },
    }
}

/// Judges the reading of the `attempt`-th try, counted from one.
pub fn judge(attempt: u32, reading: Reading) -> (verdict: Verdict)
    ensures
        verdict == verdict_of(attempt, reading),
{
    match reading {
        Reading::Distance(mm) => {
            if mm > 0 {
                Verdict::Accept(mm)
            } else if attempt < MAX_ATTEMPTS {
                Verdict::Retry
            } else {
                Verdict::GiveUp { report: false }
            }
        },
        Reading::Failed => {
            if attempt < MAX_ATTEMPTS {
                Verdict::Retry
            } else {
                Verdict::GiveUp { report: true }
            }
        },
    }
}

impl Verdict {
    /// The sample that the verdict settles on, if it settles.
    pub fn sample(&self) -> (sample: Option<u16>)
        ensures
            sample == match *self {
                Verdict::Accept(mm) => Some(mm),
                Verdict::Retry => None,
                Verdict::GiveUp { .. } => Some(0u16),
            },
    {
        match self {
            Verdict::Accept(mm) => Some(*mm),
            Verdict::Retry => None,
            Verdict::GiveUp { .. } => Some(0),
        }
    }
}

/// Sampling is bounded: the last permitted try always settles.
pub proof fn law_sampling_settles(attempt: u32, reading: Reading)
    requires
        attempt >= MAX_ATTEMPTS,
    ensures
        verdict_of(attempt, reading) != Verdict::Retry,
{
}

} // verus!
