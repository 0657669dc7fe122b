//! Spinning serial range sensor: one distance bucket per degree, the three
//! ranges the navigation reads from them, and the power and sync state of the
//! scan task.

use vstd::prelude::*;

verus! {

/// Number of angular buckets: one per degree.
pub const SAMPLE_COUNT: usize = 360;

/// Range reported for a sector in which no sample is nearer.
pub const RANGE_CEILING: u16 = 12000;

/// One decoded measurement: angle in hundredths of a degree, distance in mm.
#[derive(Clone, Copy, Debug, PartialEq, Eq, Structural)]
pub struct Point {
    pub angle: u16,
    pub distance: u16,
}

/// The three ranges (mm) the navigation decides on.
#[derive(Clone, Copy, Debug, PartialEq, Eq, Structural)]
pub struct Frame {
    range_left: u32,
    range_front: u32,
    range_right: u32,
}

impl Frame {
    pub closed spec fn left(&self) -> u32 {
        self.range_left
    }

    pub closed spec fn front(&self) -> u32 {
        self.range_front
    }

    pub closed spec fn right(&self) -> u32 {
        self.range_right
    }

    /// The frame with the given ranges.
    pub closed spec fn of(range_left: u32, range_front: u32, range_right: u32) -> Frame {
        Frame { range_left, range_front, range_right }
    }

    /// A frame with the given ranges.
    pub fn new(range_left: u32, range_front: u32, range_right: u32) -> (frame: Frame)
        ensures
            frame == Frame::of(range_left, range_front, range_right),
            frame.left() == range_left,
            frame.front() == range_front,
            frame.right() == range_right,
    {
        Frame { range_left, range_front, range_right }
    }

    #[verifier::when_used_as_spec(left)]
    pub fn get_range_left(&self) -> (range: u32)
        ensures
            range == self.left(),
    {
        self.range_left
    }

    #[verifier::when_used_as_spec(front)]
    pub fn get_range_front(&self) -> (range: u32)
        ensures
            range == self.front(),
    {
        self.range_front
    }

    #[verifier::when_used_as_spec(right)]
    pub fn get_range_right(&self) -> (range: u32)
        ensures
            range == self.right(),
    {
        self.range_right
    }
}

/// The bucket a measurement at `angle` falls into: whole degrees, with
/// everything from 360 degrees up folded into the last bucket.
pub open spec fn bucket_of(angle: u16) -> int {
    if angle / 100 >= 360 {
        359
    } else {
        (angle / 100) as int
    }
}

/// What bucket `bucket` holds after `points` were scattered in order over a
/// bucket that held `before`: the distance of the last point that falls into
/// it, or `before` where none does.
pub open spec fn latest(before: u16, points: Seq<Point>, bucket: int) -> u16
    decreases points.len(),
{
    if points.len() == 0 {
        before
    } else if bucket_of(points.last().angle) == bucket {
        points.last().distance
    } else {
        latest(before, points.drop_last(), bucket)
    }
}

/// The smallest of `ceiling` and the samples.
pub open spec fn nearest(samples: Seq<u16>, ceiling: u16) -> u16
    decreases samples.len(),
{
    if samples.len() == 0 {
        ceiling
    } else {
        let rest = nearest(samples.drop_last(), ceiling);
        if samples.last() < rest {
            samples.last()
        } else {
            rest
        }
    }
}

/// `nearest` is a lower bound of the ceiling and of every sample, and it is
/// one of them.
pub proof fn law_nearest_is_minimum(samples: Seq<u16>, ceiling: u16)
    ensures
        nearest(samples, ceiling) <= ceiling,
        forall|i: int| 0 <= i < samples.len() ==> nearest(samples, ceiling) <= #[trigger] samples[i],
        nearest(samples, ceiling) == ceiling || exists|i: int|
            0 <= i < samples.len() && #[trigger] samples[i] == nearest(samples, ceiling),
    decreases samples.len(),
{
    if samples.len() > 0 {
        let head = samples.drop_last();
        law_nearest_is_minimum(head, ceiling);
        assert forall|i: int| 0 <= i < samples.len() implies nearest(samples, ceiling)
            <= #[trigger] samples[i] by {
            if i < head.len() {
                assert(head[i] == samples[i]);
            }
        }
        let m = nearest(samples, ceiling);
        if m != ceiling {
            if m == samples.last() {
                assert(samples[samples.len() - 1] == m);
            } else {
                let i = choose|i: int| 0 <= i < head.len() && #[trigger] head[i] == m;
                assert(samples[i] == m);
            }
        }
    }
}

/// Taking the minimum over two stretches in turn is taking it over both.
pub proof fn lemma_nearest_concat(first: Seq<u16>, second: Seq<u16>, ceiling: u16)
    ensures
        nearest(first + second, ceiling) == nearest(second, nearest(first, ceiling)),
    decreases second.len(),
{
    if second.len() == 0 {
        assert(first + second =~= first);
    } else {
        assert((first + second).drop_last() =~= first + second.drop_last());
        lemma_nearest_concat(first, second.drop_last(), ceiling);
    }
}

/// Left sector: buckets 224 up to 315.
pub open spec fn left_sector(samples: Seq<u16>) -> Seq<u16> {
    samples.subrange(224, 315)
}

/// Front sector: buckets 315 up to 360, then 0 up to 45.
pub open spec fn front_sector(samples: Seq<u16>) -> Seq<u16> {
    samples.subrange(315, 360) + samples.subrange(0, 45)
}

/// Right sector: buckets 45 up to 135.
pub open spec fn right_sector(samples: Seq<u16>) -> Seq<u16> {
    samples.subrange(45, 135)
}

/// The most recent distance sample of each whole degree.
#[derive(Debug)]
pub struct Data {
    pub samples: [u16; 360],
}

impl View for Data {
    type V = Seq<u16>;

    open spec fn view(&self) -> Seq<u16> {
        self.samples@
    }
}

/// The smallest of `floor` and the samples from `from` up to `to`.
fn nearest_in(samples: &[u16; 360], from: usize, to: usize, floor: u16) -> (value: u16)
    requires
        from <= to <= 360,
    ensures
        value == nearest(samples@.subrange(from as int, to as int), floor),
{
    let mut value: u16 = floor;
    let mut i: usize = from;
    while i < to
        invariant
            from <= i <= to <= 360,
            value == nearest(samples@.subrange(from as int, i as int), floor),
        decreases to - i,
    {
        proof {
            let next = samples@.subrange(from as int, i + 1);
            assert(next.drop_last() =~= samples@.subrange(from as int, i as int));
            assert(next.last() == samples@[i as int]);
        }
        if samples[i] < value {
            value = samples[i];
        }
        i = i + 1;
    }
    value
}

impl Data {
    /// Every bucket at zero.
    pub fn new() -> (data: Data)
        ensures
            data@ =~= Seq::new(360, |i: int| 0u16),
            data@.len() == 360,
    {
        Data { samples: [0u16;360] }
    }

    /// Scatters the points of one decoded batch, in order, each into the
    /// bucket of its angle.
    pub fn update(&mut self, points: &[Point])
        ensures
            final(self)@.len() == 360,
            forall|b: int|
                0 <= b < 360 ==> #[trigger] final(self)@[b] == latest(old(self)@[b], points@, b),
    {
        let mut i: usize = 0;
        while i < points.len()
            invariant
                i <= points.len(),
                self@.len() == 360,
                forall|b: int|
                    0 <= b < 360 ==> #[trigger] self@[b] == latest(
                        old(self)@[b],
                        points@.subrange(0, i as int),
                        b,
                    ),
            decreases points.len() - i,
        {
            let point = points[i];
            let degree: usize = (point.angle / 100) as usize;
            let index: usize = if degree >= 360 {
                359
            } else {
                degree
            };
            proof {
                let done = points@.subrange(0, i + 1);
                assert(done.drop_last() =~= points@.subrange(0, i as int));
                assert(done.last() == points@[i as int]);
                assert(index == bucket_of(point.angle));
            }
            self.samples[index] = point.distance;
            i = i + 1;
        }
        proof {
            assert(points@.subrange(0, i as int) =~= points@);
        }
    }

    /// Back to every bucket at zero.
    pub fn reset(&mut self)
        ensures
            final(self)@ =~= Seq::new(360, |i: int| 0u16),
    {
        let mut i: usize = 0;
        while i < 360
            invariant
                i <= 360,
                self@.len() == 360,
                forall|b: int| 0 <= b < i ==> self@[b] == 0,
            decreases 360 - i,
        {
            self.samples[i] = 0;
            i = i + 1;
        }
    }

    /// Nearest sample of the left sector, at most the ceiling.
    pub fn get_range_left(&self) -> (range: u16)
        ensures
            range == nearest(left_sector(self@), RANGE_CEILING),
    {
        nearest_in(&self.samples, 224, 315, RANGE_CEILING)
    }

    /// Nearest sample of the front sector, at most the ceiling.
    pub fn get_range_front(&self) -> (range: u16)
        ensures
            range == nearest(front_sector(self@), RANGE_CEILING),
    {
        let upper = nearest_in(&self.samples, 315, 360, RANGE_CEILING);
        proof {
            lemma_nearest_concat(self@.subrange(315, 360), self@.subrange(0, 45), RANGE_CEILING);
        }
        nearest_in(&self.samples, 0, 45, upper)
    }

    /// Nearest sample of the right sector, at most the ceiling.
    pub fn get_range_right(&self) -> (range: u16)
        ensures
            range == nearest(right_sector(self@), RANGE_CEILING),
    {
        nearest_in(&self.samples, 45, 135, RANGE_CEILING)
    }

    /// The three ranges as they stand.
    pub fn get_frame(&self) -> (frame: Frame)
        ensures
            frame.left() == nearest(left_sector(self@), RANGE_CEILING),
            frame.front() == nearest(front_sector(self@), RANGE_CEILING),
            frame.right() == nearest(right_sector(self@), RANGE_CEILING),
    {
        Frame {
            range_left: self.get_range_left() as u32,
            range_front: self.get_range_front() as u32,
            range_right: self.get_range_right() as u32,
        }
    }
}

/// Milliseconds between two looks at the power switch while parked.
pub const POLL_MS: u32 = 100;

/// Milliseconds the sensor is given to come up to speed.
pub const SPINUP_MS: u32 = 6000;

/// Level of the enable pin, which is active low.
#[derive(Clone, Copy, Debug, PartialEq, Eq, Structural)]
pub enum PinLevel {
    Low,
    High,
}

/// Where the scan task stands in its cycle.
#[derive(Clone, Copy, Debug, PartialEq, Eq, Structural)]
pub enum Phase {
    /// Waiting for the power to come on, or about to wait for the spin-up.
    Parked,
    /// Power on and the spin-up wait ordered: the next step reads.
    Warmed,
    /// Reading the serial stream.
    Scanning,
}

/// What the scan task does next.
#[derive(Clone, Copy, Debug, PartialEq, Eq, Structural)]
pub enum LidarOrder {
    /// Wait this many milliseconds, then ask again.
    Sleep(u32),
    /// Read one byte of the serial stream, decode it, report a decoded
    /// batch, then ask again.
    Read,
}

/// Every bucket at zero.
pub open spec fn blank() -> Seq<u16> {
    Seq::new(360, |i: int| 0u16)
}

/// What the sensor engine is, as plain values.
pub struct LidarState {
    pub samples: Seq<u16>,
    /// Whether the power is switched on.
    pub running: bool,
    /// Whether a batch was decoded since the power came on and the sensor
    /// spun up.
    pub synced: bool,
    pub phase: Phase,
}

impl LidarState {
    /// What holds of every engine: there are 360 buckets; the scan task is
    /// past the parking only while the power is on; the engine is in sync
    /// only while it reads; and with the power off nothing is left of the
    /// last revolution.
    pub open spec fn sound(self) -> bool {
        &&& self.samples.len() == 360
        &&& self.phase != Phase::Parked ==> self.running
        &&& self.synced ==> self.phase == Phase::Scanning
        &&& !self.running ==> self.samples == blank()
    }

    /// The state after a power switch. Switching off forgets the samples
    /// and the sync at once and parks the scan task; switching on from off
    /// leaves the task parked, so that it waits for the spin-up before it
    /// reads; switching on while on changes nothing.
    pub open spec fn power(self, on: bool) -> LidarState {
        if !on {
            LidarState { samples: blank(), running: false, synced: false, phase: Phase::Parked }
        } else if self.running {
            self
        } else {
            LidarState { running: true, ..self }
        }
    }

    /// The state after the scan task asked what to do, and the answer.
    /// Parked, the task polls the switch; once the power is on it waits
    /// for the sensor to spin up, and then it reads.
    pub open spec fn step(self) -> (LidarState, LidarOrder) {
        match self.phase {
            Phase::Parked => if self.running {
                (LidarState { phase: Phase::Warmed, ..self }, LidarOrder::Sleep(SPINUP_MS))
            } else {
                (self, LidarOrder::Sleep(POLL_MS))
            },
            Phase::Warmed => (LidarState { phase: Phase::Scanning, ..self }, LidarOrder::Read),
            Phase::Scanning => (self, LidarOrder::Read),
        }
    }

    /// The state after a decoded batch was reported. While the engine
    /// reads, the batch puts it in sync and each point goes into the bucket
    /// of its angle; a batch that comes at any other time is stale and is
    /// dropped.
    pub open spec fn batch(self, points: Seq<Point>) -> LidarState {
        if self.phase == Phase::Scanning {
            LidarState {
                samples: Seq::new(360, |b: int| latest(self.samples[b], points, b)),
                synced: true,
                ..self
            }
        } else {
            self
        }
    }
}

/// The sensor engine: the samples, the power switch and the scan task's
/// place in its cycle.
#[derive(Debug)]
pub struct Lidar {
    data: Data,
    running: bool,
    synced: bool,
    phase: Phase,
}

impl View for Lidar {
    type V = LidarState;

    closed spec fn view(&self) -> LidarState {
        LidarState {
            samples: self.data@,
            running: self.running,
            synced: self.synced,
            phase: self.phase,
        }
    }
}

impl Lidar {
    #[verifier::type_invariant]
    spec fn is_sound(self) -> bool {
        self@.sound()
    }

    /// An engine with the power off and every bucket at zero. The enable
    /// pin is to be high.
    pub fn new() -> (lidar: Lidar)
        ensures
            lidar@.sound(),
            lidar@ == (LidarState {
                samples: blank(),
                running: false,
                synced: false,
                phase: Phase::Parked,
            }),
    {
        Lidar { data: Data::new(), running: false, synced: false, phase: Phase::Parked }
    }

    /// Switches the power on; the enable pin is to go low.
    pub fn set_power_on(&mut self) -> (pin: PinLevel)
        ensures
            final(self)@.sound(),
            final(self)@ == old(self)@.power(true),
            pin == PinLevel::Low,
    {
        self.set_power(true)
    }

    /// Switches the power off; the enable pin is to go high.
    pub fn set_power_off(&mut self) -> (pin: PinLevel)
        ensures
            final(self)@.sound(),
            final(self)@ == old(self)@.power(false),
            pin == PinLevel::High,
    {
        self.set_power(false)
    }

    /// Switches the power, and says the level the enable pin is to take.
    pub fn set_power(&mut self, value: bool) -> (pin: PinLevel)
        ensures
            final(self)@.sound(),
            final(self)@ == old(self)@.power(value),
            pin == if value {
                PinLevel::Low
            } else {
                PinLevel::High
            },
    {
        proof {
            use_type_invariant(&*self);
        }
        if value {
            if !self.running {
                *self = Lidar { running: true, ..Lidar::new() };
                assert(self@ == old(self)@.power(true));
            }
            PinLevel::Low
        } else {
            *self = Lidar::new();
            PinLevel::High
        }
    }

    /// Whether a batch was decoded since the power came on and the sensor
    /// spun up.
    pub fn is_synced(&self) -> (synced: bool)
        ensures
            synced == self@.synced,
    {
        self.synced
    }

    /// Whether the power is switched on.
    pub fn is_running(&self) -> (running: bool)
        ensures
            running == self@.running,
    {
        self.running
    }

    /// Says what the scan task does next.
    pub fn step(&mut self) -> (order: LidarOrder)
        ensures
            final(self)@.sound(),
            final(self)@ == old(self)@.step().0,
            order == old(self)@.step().1,
    {
        proof {
            use_type_invariant(&*self);
        }
        match self.phase {
            Phase::Parked => {
                if self.running {
                    self.phase = Phase::Warmed;
                    LidarOrder::Sleep(SPINUP_MS)
                } else {
                    LidarOrder::Sleep(POLL_MS)
                }
            },
            Phase::Warmed => {
                self.phase = Phase::Scanning;
                LidarOrder::Read
            },
            Phase::Scanning => LidarOrder::Read,
        }
    }

    /// Takes one decoded batch. While the engine reads, the engine is in
    /// sync from now on and each point goes into the bucket of its angle;
    /// at any other time the batch is dropped.
    pub fn batch(&mut self, points: &[Point])
        ensures
            final(self)@.sound(),
            final(self)@ == old(self)@.batch(points@),
    {
        proof {
            use_type_invariant(&*self);
        }
        match self.phase {
            Phase::Scanning => {
                let mut data = Data { samples: self.data.samples };
                data.update(points);
                assert(data@ =~= old(self)@.batch(points@).samples);
                *self = Lidar { data, running: true, synced: true, phase: Phase::Scanning };
            },
            _ => {},
        }
    }

    /// Nearest sample of the left sector, at most the ceiling.
    pub fn get_range_left(&self) -> (range: u16)
        ensures
            range == nearest(left_sector(self@.samples), RANGE_CEILING),
    {
        self.data.get_range_left()
    }

    /// Nearest sample of the front sector, at most the ceiling.
    pub fn get_range_front(&self) -> (range: u16)
        ensures
            range == nearest(front_sector(self@.samples), RANGE_CEILING),
    {
        self.data.get_range_front()
    }

    /// Nearest sample of the right sector, at most the ceiling.
    pub fn get_range_right(&self) -> (range: u16)
        ensures
            range == nearest(right_sector(self@.samples), RANGE_CEILING),
    {
        self.data.get_range_right()
    }

    /// The three ranges as they stand.
    pub fn get_frame(&self) -> (frame: Frame)
        ensures
            frame.left() == nearest(left_sector(self@.samples), RANGE_CEILING),
            frame.front() == nearest(front_sector(self@.samples), RANGE_CEILING),
            frame.right() == nearest(right_sector(self@.samples), RANGE_CEILING),
    {
        self.data.get_frame()
    }
}

/// Whatever happens to an engine, it stays sound: so it is in sync only
/// while the power is on and the spin-up wait is behind it.
pub proof fn law_engine_stays_sound(state: LidarState, on: bool, points: Seq<Point>)
    requires
        state.sound(),
    ensures
        state.power(on).sound(),
        state.step().0.sound(),
        state.batch(points).sound(),
        state.synced ==> state.running && state.phase == Phase::Scanning,
{
}

/// Every power-on starts afresh. Whatever the engine held and wherever the
/// scan task stood, once the power has been off the buckets are zero and the
/// engine is out of sync; after the power comes on, the first step orders
/// the spin-up wait, only the step after it reads, and no batch puts the
/// engine in sync before that.
pub proof fn law_power_on_starts_afresh(state: LidarState, stale: Seq<Point>)
    requires
        state.sound(),
    ensures
        ({
            let off = state.power(false);
            let on = off.power(true);
            &&& off.samples == blank() && !off.synced
            &&& on.samples == blank() && !on.synced && on.running
            &&& !on.batch(stale).synced
            &&& on.step().1 == LidarOrder::Sleep(SPINUP_MS)
            &&& !on.step().0.batch(stale).synced
            &&& on.step().0.step().1 == LidarOrder::Read
            &&& on.step().0.step().0.batch(stale).synced
        }),
{
}

} // verus!
