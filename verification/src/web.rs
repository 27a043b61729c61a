//! What the web interface shows: the oven's current state and the temperature
//! history of the current run.
use vstd::prelude::*;
use crate::profile::Phase;

verus! {

/// Most points that a history holds (one a second: ten minutes).
pub const HISTORY_CAPACITY: usize = 600;

/// The oven's state as the web interface shows it.
#[derive(Clone, Copy, Debug, PartialEq, Eq, Structural)]
pub struct OvenState {
    /// m°C
    pub temperature: i32,
    /// m°C
    pub target: i32,
    /// heater duty, thousandths of a percent
    pub duty_pct: u32,
    pub phase: Phase,
    pub simulating: bool,
    /// time spent in the active phases of the run, ms
    pub elapsed_ms: u64,
    pub open_door: bool,
}

impl Default for OvenState {
    /// Everything zero, idle, not simulating, door closed.
    fn default() -> (s: Self)
        ensures
            s == (OvenState {
                temperature: 0,
                target: 0,
                duty_pct: 0,
                phase: Phase::Idle,
                simulating: false,
                elapsed_ms: 0,
                open_door: false,
            }),
    {
        Self {
            temperature: 0,
            target: 0,
            duty_pct: 0,
            phase: Phase::Idle,
            simulating: false,
            elapsed_ms: 0,
            open_door: false,
        }
    }
}

/// One sample of a run.
#[derive(Clone, Copy, Debug, PartialEq, Eq, Structural)]
pub struct HistoryPoint {
    /// time into the run, ms
    pub t_ms: u64,
    /// m°C
    pub temp: i32,
    /// m°C
    pub target: i32,
    pub phase: Phase,
}

/// The last `n` elements of `s` (all of them if there are fewer).
pub open spec fn keep_recent<A>(s: Seq<A>, n: nat) -> Seq<A> {
    if s.len() <= n {
        s
    } else {
        s.subrange(s.len() - n, s.len() as int)
    }
}

/// The samples of a run, oldest first; the oldest are dropped beyond
/// `HISTORY_CAPACITY`.
pub struct History {
    points: Vec<HistoryPoint>,
}

impl View for History {
    type V = Seq<HistoryPoint>;

    closed spec fn view(&self) -> Seq<HistoryPoint> {
        self.points@
    }
}

impl History {
    #[verifier::type_invariant]
    spec fn within_capacity(self) -> bool {
        self.points@.len() <= HISTORY_CAPACITY
    }

    /// An empty history.
    pub fn new() -> (h: Self)
        ensures
            h@ == Seq::<HistoryPoint>::empty(),
    {
        Self { points: Vec::with_capacity(HISTORY_CAPACITY) }
    }

    /// The samples, oldest first.
    pub fn points(&self) -> (p: &Vec<HistoryPoint>)
        ensures
            p@ == self@,
            p@.len() <= HISTORY_CAPACITY,
    {
        proof {
            use_type_invariant(self);
        }
        &self.points
    }

    /// Appends a sample, dropping the oldest one when the history is full.
    pub fn push(&mut self, t_ms: u64, temp: i32, target: i32, phase: Phase)
        ensures
            final(self)@ == keep_recent(
                old(self)@.push(HistoryPoint { t_ms, temp, target, phase }),
                HISTORY_CAPACITY as nat,
            ),
    {
        proof {
            use_type_invariant(&*self);
        }
        let point = HistoryPoint { t_ms, temp, target, phase };
        let ghost before = self.points@;
        let mut points: Vec<HistoryPoint> = Vec::new();
        std::mem::swap(&mut points, &mut self.points);
        if points.len() >= HISTORY_CAPACITY {
            points.remove(0);
        }
        points.push(point);
        proof {
            assert(points@ =~= keep_recent(before.push(point), HISTORY_CAPACITY as nat));
        }
        self.points = points;
    }

    /// Forgets all samples.
    pub fn clear(&mut self)
        ensures
            final(self)@ == Seq::<HistoryPoint>::empty(),
    {
        self.points = Vec::new();
    }
}

/// What pushing `points` one by one onto `start` leaves, with the capacity `n`.
pub open spec fn after_pushes<A>(start: Seq<A>, points: Seq<A>, n: nat) -> Seq<A>
    decreases points.len(),
{
    if points.len() == 0 {
        start
    } else {
        keep_recent(after_pushes(start, points.drop_last(), n).push(points.last()), n)
    }
}

proof fn lemma_keep_recent_push<A>(s: Seq<A>, x: A, n: nat)
    requires
        n > 0,
    ensures
        keep_recent(keep_recent(s, n).push(x), n) =~= keep_recent(s.push(x), n),
{
}

/// A history never holds more than its capacity, and pushing samples one by
/// one onto an empty history leaves the last `HISTORY_CAPACITY` of them, in
/// the order in which they came.
pub proof fn lemma_history_keeps_latest(points: Seq<HistoryPoint>)
    ensures
        after_pushes(Seq::empty(), points, HISTORY_CAPACITY as nat) == keep_recent(
            points,
            HISTORY_CAPACITY as nat,
        ),
        after_pushes(Seq::empty(), points, HISTORY_CAPACITY as nat).len() <= HISTORY_CAPACITY,
    decreases points.len(),
{
    if points.len() > 0 {
        lemma_history_keeps_latest(points.drop_last());
        lemma_keep_recent_push(points.drop_last(), points.last(), HISTORY_CAPACITY as nat);
        assert(points.drop_last().push(points.last()) =~= points);
    }
}

} // verus!
