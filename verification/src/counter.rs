use vstd::prelude::*;

verus! {

/// Number of road sensors that update the shared vehicle counter.
pub const SENSOR_COUNT: usize = 5;

/// Number of vehicle detections that each road sensor reports.
pub const VEHICLES_PER_SENSOR: usize = 100000;

/// Every `YIELD_PERIOD`-th detection an unsynchronised sensor gives up the
/// processor between reading and writing the counter.
pub const YIELD_PERIOD: usize = 50;

/// The total that the shared counter should hold once every sensor has
/// reported all of its detections.
pub fn expected_total(sensor_count: usize, per_sensor: usize) -> (total: usize)
    requires
        sensor_count * per_sensor <= usize::MAX,
    ensures
        total == sensor_count * per_sensor,
{
    sensor_count * per_sensor
}

/// What a run of the counter demonstration recorded, against what it should have.
pub struct Tally {
    pub expected: usize,
    pub actual: usize,
    /// Detections that were lost, when the recorded total is not above the expected one.
    pub lost: Option<usize>,
    /// Whether the recorded total is exactly the expected one.
    pub exact: bool,
}

/// Compares the recorded total with the expected one.
pub fn tally(expected: usize, actual: usize) -> (t: Tally)
    ensures
        t.expected == expected,
        t.actual == actual,
        t.lost == (if actual <= expected {
            Some((expected - actual) as usize)
        } else {
            None::<usize>
        }),
        t.exact == (actual == expected),
{
    let lost = if actual <= expected {
        Some(expected - actual)
    } else {
        None
    };
    Tally { expected, actual, lost, exact: actual == expected }
}

// ------------------------------------------------------------------
// Unsynchronised sensor: read the counter, then write back one more.
// ------------------------------------------------------------------

/// The next thing an unsynchronised sensor asks its thread to do.
pub enum UnsyncAction {
    /// Read the shared counter.
    Load,
    /// Write `value` to the shared counter, after giving up the processor
    /// when `yield_first` holds.
    Store { value: usize, yield_first: bool },
    /// All detections have been reported.
    Done,
}

/// A road sensor that updates the shared counter with a separate read and
/// write, so that updates of concurrent sensors can be lost.
pub struct UnsyncSensor {
    /// Detections fully reported so far.
    pub detection: usize,
    /// Detections to report in all.
    pub total: usize,
    /// The counter value read for the detection in progress, if any.
    pub loaded: Option<usize>,
}

impl UnsyncSensor {
    pub open spec fn wf(&self) -> bool {
        &&& self.detection <= self.total
        &&& (self.loaded is Some ==> self.detection < self.total)
    }

    pub open spec fn fresh(total: usize) -> UnsyncSensor {
        UnsyncSensor { detection: 0, total, loaded: None }
    }

    pub open spec fn action(&self) -> UnsyncAction {
        match self.loaded {
            Some(v) => UnsyncAction::Store {
                value: (v + 1) as usize,
                yield_first: self.detection % YIELD_PERIOD == 0,
            },
            None => if self.detection < self.total {
                UnsyncAction::Load
            } else {
                UnsyncAction::Done
            },
        }
    }

    pub open spec fn after_load(&self, value: usize) -> UnsyncSensor {
        UnsyncSensor { loaded: Some(value), ..*self }
    }

    pub open spec fn after_store(&self) -> UnsyncSensor {
        UnsyncSensor { detection: (self.detection + 1) as usize, loaded: None, ..*self }
    }

    /// A sensor that has reported nothing yet.
    pub fn new(total: usize) -> (s: UnsyncSensor)
        ensures
            s == UnsyncSensor::fresh(total),
            s.wf(),
    {
        UnsyncSensor { detection: 0, total, loaded: None }
    }

    /// What the sensor's thread must do next.
    pub fn next_action(&self) -> (a: UnsyncAction)
        requires
            self.wf(),
            self.loaded matches Some(v) ==> v < usize::MAX,
        ensures
            a == self.action(),
    {
        match self.loaded {
            Some(v) => UnsyncAction::Store {
                value: v + 1,
                yield_first: self.detection % YIELD_PERIOD == 0,
            },
            None => if self.detection < self.total {
                UnsyncAction::Load
            } else {
                UnsyncAction::Done
            },
        }
    }

    /// The thread read `value` from the shared counter.
    pub fn on_loaded(&mut self, value: usize)
        requires
            old(self).wf(),
            old(self).action() is Load,
        ensures
            *final(self) == old(self).after_load(value),
            final(self).wf(),
    {
        self.loaded = Some(value);
    }

    /// The thread wrote the counter value that `next_action` asked for.
    pub fn on_stored(&mut self)
        requires
            old(self).wf(),
            old(self).action() is Store,
        ensures
            *final(self) == old(self).after_store(),
            final(self).wf(),
    {
        self.detection = self.detection + 1;
        self.loaded = None;
    }
}

// ------------------------------------------------------------------
// Synchronised sensor: one increment per detection under the lock.
// ------------------------------------------------------------------

/// The next thing a synchronised sensor asks its thread to do.
pub enum SyncAction {
    /// Take the lock and add one to the shared counter.
    Increment,
    /// All detections have been reported.
    Done,
}

/// A road sensor that updates the shared counter while it holds its lock.
pub struct SyncSensor {
    /// Detections recorded so far.
    pub recorded: usize,
    /// Detections to record in all.
    pub total: usize,
}

impl SyncSensor {
    pub open spec fn wf(&self) -> bool {
        self.recorded <= self.total
    }

    pub open spec fn fresh(total: usize) -> SyncSensor {
        SyncSensor { recorded: 0, total }
    }

    pub open spec fn action(&self) -> SyncAction {
        if self.recorded < self.total {
            SyncAction::Increment
        } else {
            SyncAction::Done
        }
    }

    pub open spec fn after_increment(&self) -> SyncSensor {
        SyncSensor { recorded: (self.recorded + 1) as usize, ..*self }
    }

    /// A sensor that has recorded nothing yet.
    pub fn new(total: usize) -> (s: SyncSensor)
        ensures
            s == SyncSensor::fresh(total),
            s.wf(),
    {
        SyncSensor { recorded: 0, total }
    }

    /// What the sensor's thread must do next.
    pub fn next_action(&self) -> (a: SyncAction)
        ensures
            a == self.action(),
    {
        if self.recorded < self.total {
            SyncAction::Increment
        } else {
            SyncAction::Done
        }
    }

    /// The thread added one to the shared counter.
    pub fn on_incremented(&mut self)
        requires
            old(self).wf(),
            old(self).action() is Increment,
        ensures
            *final(self) == old(self).after_increment(),
            final(self).wf(),
    {
        self.recorded = self.recorded + 1;
    }
}

/// Records one vehicle in the counter that the caller holds locked.
pub fn record_vehicle(count: &mut usize)
    requires
        *old(count) < usize::MAX,
    ensures
        *final(count) == *old(count) + 1,
{
    *count = *count + 1;
}


// ------------------------------------------------------------------
// Every interleaving of the sensors' steps against the shared counter.
// ------------------------------------------------------------------

/// Sum of a sequence of integers.
pub open spec fn sum(s: Seq<int>) -> int
    decreases s.len(),
{
    if s.len() == 0 {
        0
    } else {
        sum(s.drop_last()) + s.last()
    }
}

/// Sum of the detection counts that each sensor is to report.
pub open spec fn planned(totals: Seq<usize>) -> int {
    sum(totals.map_values(|t: usize| t as int))
}

/// Detections that the unsynchronised sensors have fully reported.
pub open spec fn reported(sensors: Seq<UnsyncSensor>) -> int {
    sum(sensors.map_values(|s: UnsyncSensor| s.detection as int))
}

/// Detections that the synchronised sensors have recorded.
pub open spec fn recorded(sensors: Seq<SyncSensor>) -> int {
    sum(sensors.map_values(|s: SyncSensor| s.recorded as int))
}

/// Unsynchronised sensors that have reported nothing yet.
pub open spec fn fresh_unsync(totals: Seq<usize>) -> Seq<UnsyncSensor> {
    Seq::new(totals.len(), |i: int| UnsyncSensor::fresh(totals[i]))
}

/// Synchronised sensors that have recorded nothing yet.
pub open spec fn fresh_sync(totals: Seq<usize>) -> Seq<SyncSensor> {
    Seq::new(totals.len(), |i: int| SyncSensor::fresh(totals[i]))
}

/// Sensor `i` takes its next step against the shared counter: a load reads
/// the counter, a store overwrites it.
pub open spec fn unsync_step(counter: int, sensors: Seq<UnsyncSensor>, i: int) -> (int, Seq<UnsyncSensor>) {
    if 0 <= i < sensors.len() {
        match sensors[i].action() {
            UnsyncAction::Load => (counter, sensors.update(i, sensors[i].after_load(counter as usize))),
            UnsyncAction::Store { value, .. } => (value as int, sensors.update(i, sensors[i].after_store())),
            UnsyncAction::Done => (counter, sensors),
        }
    } else {
        (counter, sensors)
    }
}

/// The sensors step in the order that `schedule` gives.
pub open spec fn unsync_run(counter: int, sensors: Seq<UnsyncSensor>, schedule: Seq<int>) -> (int, Seq<UnsyncSensor>)
    decreases schedule.len(),
{
    if schedule.len() == 0 {
        (counter, sensors)
    } else {
        let (c, s) = unsync_step(counter, sensors, schedule[0]);
        unsync_run(c, s, schedule.drop_first())
    }
}

/// Sensor `i` takes its next step: one increment of the counter under the lock.
pub open spec fn sync_step(counter: int, sensors: Seq<SyncSensor>, i: int) -> (int, Seq<SyncSensor>) {
    if 0 <= i < sensors.len() && sensors[i].action() is Increment {
        (counter + 1, sensors.update(i, sensors[i].after_increment()))
    } else {
        (counter, sensors)
    }
}

/// The synchronised sensors step in the order that `schedule` gives.
pub open spec fn sync_run(counter: int, sensors: Seq<SyncSensor>, schedule: Seq<int>) -> (int, Seq<SyncSensor>)
    decreases schedule.len(),
{
    if schedule.len() == 0 {
        (counter, sensors)
    } else {
        let (c, s) = sync_step(counter, sensors, schedule[0]);
        sync_run(c, s, schedule.drop_first())
    }
}

proof fn lemma_sum_update(s: Seq<int>, i: int, v: int)
    requires
        0 <= i < s.len(),
    ensures
        sum(s.update(i, v)) == sum(s) - s[i] + v,
    decreases s.len(),
{
    let u = s.update(i, v);
    if i == s.len() - 1 {
        assert(u.drop_last() =~= s.drop_last());
    } else {
        assert(u.drop_last() =~= s.drop_last().update(i, v));
        lemma_sum_update(s.drop_last(), i, v);
    }
}

proof fn lemma_sum_pointwise_le(a: Seq<int>, b: Seq<int>)
    requires
        a.len() == b.len(),
        forall|i: int| 0 <= i < a.len() ==> a[i] <= b[i],
    ensures
        sum(a) <= sum(b),
        (exists|k: int| 0 <= k < a.len() && a[k] < b[k]) ==> sum(a) < sum(b),
        (forall|i: int| 0 <= i < a.len() ==> a[i] == b[i]) ==> sum(a) == sum(b),
    decreases a.len(),
{
    if a.len() > 0 {
        lemma_sum_pointwise_le(a.drop_last(), b.drop_last());
        if exists|k: int| 0 <= k < a.len() && a[k] < b[k] {
            let k = choose|k: int| 0 <= k < a.len() && a[k] < b[k];
            if k < a.len() - 1 {
                assert(a.drop_last()[k] < b.drop_last()[k]);
            }
        }
    }
}

proof fn lemma_sum_zero(s: Seq<int>)
    requires
        forall|i: int| 0 <= i < s.len() ==> s[i] == 0,
    ensures
        sum(s) == 0,
    decreases s.len(),
{
    if s.len() > 0 {
        lemma_sum_zero(s.drop_last());
    }
}

spec fn unsync_inv(counter: int, sensors: Seq<UnsyncSensor>, totals: Seq<usize>) -> bool {
    &&& sensors.len() == totals.len()
    &&& forall|i: int| 0 <= i < sensors.len() ==> (#[trigger] sensors[i]).wf() && sensors[i].total == totals[i]
    &&& 0 <= counter <= reported(sensors)
    &&& forall|i: int| 0 <= i < sensors.len() ==> (#[trigger] sensors[i].loaded matches Some(v) ==> v <= reported(sensors))
    &&& planned(totals) <= usize::MAX
}

proof fn lemma_reported_bounds(sensors: Seq<UnsyncSensor>, totals: Seq<usize>)
    requires
        sensors.len() == totals.len(),
        forall|i: int| 0 <= i < sensors.len() ==> (#[trigger] sensors[i]).wf() && sensors[i].total == totals[i],
    ensures
        reported(sensors) <= planned(totals),
        (exists|k: int| 0 <= k < sensors.len() && sensors[k].loaded is Some) ==> reported(sensors) < planned(totals),
        (forall|i: int| 0 <= i < sensors.len() ==> (#[trigger] sensors[i]).detection == sensors[i].total) ==> reported(sensors) == planned(totals),
{
    let a = sensors.map_values(|s: UnsyncSensor| s.detection as int);
    let b = totals.map_values(|t: usize| t as int);
    lemma_sum_pointwise_le(a, b);
    if exists|k: int| 0 <= k < sensors.len() && sensors[k].loaded is Some {
        let k = choose|k: int| 0 <= k < sensors.len() && sensors[k].loaded is Some;
        assert(a[k] < b[k]);
    }
    if forall|i: int| 0 <= i < sensors.len() ==> (#[trigger] sensors[i]).detection == sensors[i].total {
        assert forall|i: int| 0 <= i < a.len() implies a[i] == b[i] by {
            assert(sensors[i].detection == sensors[i].total);
        }
    }
}

proof fn lemma_unsync_step_inv(counter: int, sensors: Seq<UnsyncSensor>, totals: Seq<usize>, i: int)
    requires
        unsync_inv(counter, sensors, totals),
    ensures
        unsync_inv(unsync_step(counter, sensors, i).0, unsync_step(counter, sensors, i).1, totals),
        reported(sensors) <= reported(unsync_step(counter, sensors, i).1),
{
    if 0 <= i < sensors.len() {
        let s = sensors[i];
        let f = |x: UnsyncSensor| x.detection as int;
        match s.action() {
            UnsyncAction::Load => {
                lemma_reported_bounds(sensors, totals);
                let ns = sensors.update(i, s.after_load(counter as usize));
                assert(ns.map_values(f) =~= sensors.map_values(f));
                assert(reported(ns) == reported(sensors));
                assert forall|j: int| 0 <= j < ns.len() implies (#[trigger] ns[j].loaded matches Some(v) ==> v <= reported(ns)) by {
                    if j == i {
                        assert(counter as usize == counter);
                    }
                }
            },
            UnsyncAction::Store { value, .. } => {
                lemma_reported_bounds(sensors, totals);
                let ns = sensors.update(i, s.after_store());
                assert(ns.map_values(f) =~= sensors.map_values(f).update(i, s.detection + 1));
                lemma_sum_update(sensors.map_values(f), i, s.detection + 1);
                assert(reported(ns) == reported(sensors) + 1);
                let v = s.loaded->0;
                assert(v <= reported(sensors));
                assert(reported(sensors) < planned(totals));
                assert(value == v + 1);
                assert forall|j: int| 0 <= j < ns.len() implies (#[trigger] ns[j].loaded matches Some(w) ==> w <= reported(ns)) by {
                    if j != i {
                        assert(ns[j] == sensors[j]);
                    }
                }
                assert forall|j: int| 0 <= j < ns.len() implies (#[trigger] ns[j]).wf() && ns[j].total == totals[j] by {
                    if j != i {
                        assert(ns[j] == sensors[j]);
                    }
                }
            },
            UnsyncAction::Done => {},
        }
    }
}

proof fn lemma_unsync_run_inv(counter: int, sensors: Seq<UnsyncSensor>, totals: Seq<usize>, schedule: Seq<int>)
    requires
        unsync_inv(counter, sensors, totals),
    ensures
        unsync_inv(unsync_run(counter, sensors, schedule).0, unsync_run(counter, sensors, schedule).1, totals),
    decreases schedule.len(),
{
    if schedule.len() > 0 {
        lemma_unsync_step_inv(counter, sensors, totals, schedule[0]);
        let (c, s) = unsync_step(counter, sensors, schedule[0]);
        lemma_unsync_run_inv(c, s, totals, schedule.drop_first());
    }
}

/// Lost updates only ever lose detections: whatever the order in which the
/// unsynchronised sensors' loads and stores interleave, the shared counter
/// never holds more than the detections reported so far, and so never more
/// than the expected total; once every sensor is done, the reported
/// detections are exactly the expected total.
pub proof fn lemma_unsynchronized_never_overcounts(totals: Seq<usize>, schedule: Seq<int>)
    requires
        planned(totals) <= usize::MAX,
    ensures
        0 <= unsync_run(0, fresh_unsync(totals), schedule).0,
        unsync_run(0, fresh_unsync(totals), schedule).0 <= reported(unsync_run(0, fresh_unsync(totals), schedule).1),
        reported(unsync_run(0, fresh_unsync(totals), schedule).1) <= planned(totals),
        (forall|i: int| 0 <= i < totals.len() ==> #[trigger] unsync_run(0, fresh_unsync(totals), schedule).1[i].action() is Done)
            ==> reported(unsync_run(0, fresh_unsync(totals), schedule).1) == planned(totals),
{
    let sensors = fresh_unsync(totals);
    let f = |x: UnsyncSensor| x.detection as int;
    lemma_sum_zero(sensors.map_values(f));
    assert(unsync_inv(0, sensors, totals));
    lemma_unsync_run_inv(0, sensors, totals, schedule);
    let (c, s) = unsync_run(0, sensors, schedule);
    lemma_reported_bounds(s, totals);
    if forall|i: int| 0 <= i < totals.len() ==> #[trigger] s[i].action() is Done {
        assert forall|i: int| 0 <= i < s.len() implies (#[trigger] s[i]).detection == s[i].total by {
            assert(s[i].action() is Done);
        }
    }
}


spec fn sync_inv(counter: int, sensors: Seq<SyncSensor>, totals: Seq<usize>) -> bool {
    &&& sensors.len() == totals.len()
    &&& forall|i: int| 0 <= i < sensors.len() ==> (#[trigger] sensors[i]).wf() && sensors[i].total == totals[i]
    &&& counter == recorded(sensors)
}

proof fn lemma_recorded_bounds(sensors: Seq<SyncSensor>, totals: Seq<usize>)
    requires
        sensors.len() == totals.len(),
        forall|i: int| 0 <= i < sensors.len() ==> (#[trigger] sensors[i]).wf() && sensors[i].total == totals[i],
    ensures
        recorded(sensors) <= planned(totals),
        (forall|i: int| 0 <= i < sensors.len() ==> (#[trigger] sensors[i]).recorded == sensors[i].total) ==> recorded(sensors) == planned(totals),
{
    let a = sensors.map_values(|s: SyncSensor| s.recorded as int);
    let b = totals.map_values(|t: usize| t as int);
    lemma_sum_pointwise_le(a, b);
    if forall|i: int| 0 <= i < sensors.len() ==> (#[trigger] sensors[i]).recorded == sensors[i].total {
        assert forall|i: int| 0 <= i < a.len() implies a[i] == b[i] by {
            assert(sensors[i].recorded == sensors[i].total);
        }
    }
}

proof fn lemma_sync_run_inv(counter: int, sensors: Seq<SyncSensor>, totals: Seq<usize>, schedule: Seq<int>)
    requires
        sync_inv(counter, sensors, totals),
    ensures
        sync_inv(sync_run(counter, sensors, schedule).0, sync_run(counter, sensors, schedule).1, totals),
    decreases schedule.len(),
{
    if schedule.len() > 0 {
        let i = schedule[0];
        if 0 <= i < sensors.len() && sensors[i].action() is Increment {
            let f = |x: SyncSensor| x.recorded as int;
            let s = sensors[i];
            let ns = sensors.update(i, s.after_increment());
            assert(ns.map_values(f) =~= sensors.map_values(f).update(i, s.recorded + 1));
            lemma_sum_update(sensors.map_values(f), i, s.recorded + 1);
            assert forall|j: int| 0 <= j < ns.len() implies (#[trigger] ns[j]).wf() && ns[j].total == totals[j] by {
                if j != i {
                    assert(ns[j] == sensors[j]);
                }
            }
        }
        let (c, s) = sync_step(counter, sensors, i);
        lemma_sync_run_inv(c, s, totals, schedule.drop_first());
    }
}

/// Mutual exclusion loses nothing: whatever the order in which the
/// synchronised sensors take the lock, the shared counter holds exactly the
/// detections recorded so far, never more than the expected total, and the
/// expected total once every sensor is done.
pub proof fn lemma_synchronized_counts_exactly(totals: Seq<usize>, schedule: Seq<int>)
    ensures
        sync_run(0, fresh_sync(totals), schedule).0 == recorded(sync_run(0, fresh_sync(totals), schedule).1),
        recorded(sync_run(0, fresh_sync(totals), schedule).1) <= planned(totals),
        (forall|i: int| 0 <= i < totals.len() ==> #[trigger] sync_run(0, fresh_sync(totals), schedule).1[i].action() is Done)
            ==> sync_run(0, fresh_sync(totals), schedule).0 == planned(totals),
{
    let sensors = fresh_sync(totals);
    let f = |x: SyncSensor| x.recorded as int;
    lemma_sum_zero(sensors.map_values(f));
    assert(sync_inv(0, sensors, totals));
    lemma_sync_run_inv(0, sensors, totals, schedule);
    let (c, s) = sync_run(0, sensors, schedule);
    lemma_recorded_bounds(s, totals);
    if forall|i: int| 0 <= i < totals.len() ==> #[trigger] s[i].action() is Done {
        assert forall|i: int| 0 <= i < s.len() implies (#[trigger] s[i]).recorded == s[i].total by {
            assert(s[i].action() is Done);
        }
    }
}


/// Updates really can be lost: when two sensors `i` and `j` both read the
/// counter before either writes it back, they write the same value, and the
/// counter ends one below the two detections that were reported.
pub proof fn lemma_interleaved_updates_lose_one(totals: Seq<usize>, i: int, j: int)
    requires
        planned(totals) <= usize::MAX,
        0 <= i < totals.len(),
        0 <= j < totals.len(),
        i != j,
        totals[i] >= 1,
        totals[j] >= 1,
    ensures
        unsync_run(0, fresh_unsync(totals), seq![i, j, i, j]).0 == 1,
        reported(unsync_run(0, fresh_unsync(totals), seq![i, j, i, j]).1) == 2,
{
    let f = |x: UnsyncSensor| x.detection as int;
    let s0 = fresh_unsync(totals);
    let sched = seq![i, j, i, j];
    let (c1, s1) = unsync_step(0, s0, i);
    let (c2, s2) = unsync_step(c1, s1, j);
    let (c3, s3) = unsync_step(c2, s2, i);
    let (c4, s4) = unsync_step(c3, s3, j);
    assert(c1 == 0 && s1 == s0.update(i, s0[i].after_load(0)));
    assert(c2 == 0 && s2 == s1.update(j, s1[j].after_load(0)));
    assert(s2[i].loaded == Some(0usize));
    assert(c3 == 1 && s3 == s2.update(i, s2[i].after_store()));
    assert(s3[j].loaded == Some(0usize));
    assert(c4 == 1 && s4 == s3.update(j, s3[j].after_store()));
    assert(sched.drop_first() =~= seq![j, i, j]);
    assert(sched.drop_first().drop_first() =~= seq![i, j]);
    assert(sched.drop_first().drop_first().drop_first() =~= seq![j]);
    assert(sched.drop_first().drop_first().drop_first().drop_first() =~= Seq::<int>::empty());
    assert(unsync_run(0, s0, sched) == (c4, s4)) by {
        reveal_with_fuel(unsync_run, 5);
    }
    lemma_sum_zero(s0.map_values(f));
    assert(s2.map_values(f) =~= s0.map_values(f));
    lemma_sum_update(s2.map_values(f), i, 1);
    assert(s3.map_values(f) =~= s2.map_values(f).update(i, 1));
    lemma_sum_update(s3.map_values(f), j, 1);
    assert(s4.map_values(f) =~= s3.map_values(f).update(j, 1));
}


/// How one unsynchronised sensor behaves: with no read in progress it reads
/// the counter until all detections are reported and then stops; after
/// reading `x` it writes back `x + 1`, giving up the processor first exactly
/// when the detection in progress is a multiple of 50; a read
/// records the value read, and a write completes one detection.
pub proof fn lemma_unsync_sensor_steps(s: UnsyncSensor, value: usize)
    requires
        s.wf(),
    ensures
        s.loaded is None && s.detection < s.total ==> s.action() is Load,
        s.loaded is None && s.detection == s.total ==> s.action() is Done,
        s.loaded is Some ==> s.action() is Store,
        s.loaded matches Some(x) ==> (x < usize::MAX ==> s.action()->value == x + 1),
        s.loaded is Some ==> (s.action()->yield_first <==> exists|k: int| 0 <= k && #[trigger] (k * 50) == s.detection),
        s.after_load(value).loaded == Some(value),
        s.after_load(value).detection == s.detection,
        s.after_load(value).total == s.total,
        s.loaded is Some ==> s.after_store().detection == s.detection + 1 && s.after_store().loaded is None
            && s.after_store().total == s.total,
{
    let d = s.detection as int;
    if d % 50 == 0 {
        let k = d / 50;
        assert(k * 50 == d);
    }
    if exists|k: int| 0 <= k && #[trigger] (k * 50) == d {
        let k = choose|k: int| 0 <= k && #[trigger] (k * 50) == d;
        assert((k * 50) % 50 == 0) by (nonlinear_arith);
    }
}

/// How one synchronised sensor behaves: it asks for an increment exactly
/// while it has recorded fewer detections than it is to report, and each
/// increment records one more detection.
pub proof fn lemma_sync_sensor_steps(s: SyncSensor)
    ensures
        s.action() is Increment <==> s.recorded < s.total,
        s.recorded < s.total ==> s.after_increment().recorded == s.recorded + 1
            && s.after_increment().total == s.total,
{
}

/// The demonstration's sizes: five sensors of one hundred thousand
/// detections each, an expected total of five hundred thousand, and an
/// unsynchronised sensor yields on every fiftieth detection.
pub proof fn lemma_demo_sizes()
    ensures
        SENSOR_COUNT == 5,
        VEHICLES_PER_SENSOR == 100000,
        SENSOR_COUNT * VEHICLES_PER_SENSOR == 500000,
        YIELD_PERIOD == 50,
{
}

} // verus!
