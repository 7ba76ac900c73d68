use vstd::prelude::*;
use crate::text::signed_text;

verus! {

/// What one traffic-analysis worker observed and achieved.
#[derive(Debug)]
pub struct SchedulingResult {
    pub task_name: String,
    pub requested_nice: i32,
    pub actual_nice: i32,
    pub policy: String,
    pub static_priority: i32,
    pub work_completed: u64,
}

/// The results whose actual nice value is `nice`, in their order in `s`.
pub open spec fn with_nice(s: Seq<SchedulingResult>, nice: i32) -> Seq<SchedulingResult> {
    s.filter(|r: SchedulingResult| r.actual_nice == nice)
}

/// The results are in ascending order of actual nice value.
pub open spec fn sorted_by_nice(s: Seq<SchedulingResult>) -> bool {
    forall|i: int, j: int| 0 <= i <= j < s.len() ==> s[i].actual_nice <= s[j].actual_nice
}

proof fn lemma_filter_none<A>(s: Seq<A>, pred: spec_fn(A) -> bool)
    requires
        forall|i: int| 0 <= i < s.len() ==> !pred(#[trigger] s[i]),
    ensures
        s.filter(pred) =~= Seq::<A>::empty(),
    decreases s.len(),
{
    reveal(Seq::filter);
    if s.len() > 0 {
        lemma_filter_none(s.drop_last(), pred);
    }
}

proof fn lemma_insert_keeps_groups(out: Seq<SchedulingResult>, p: int, x: SchedulingResult, nice: i32)
    requires
        0 <= p <= out.len(),
        sorted_by_nice(out),
        forall|i: int| 0 <= i < p ==> (#[trigger] out[i]).actual_nice <= x.actual_nice,
        forall|i: int| p <= i < out.len() ==> (#[trigger] out[i]).actual_nice > x.actual_nice,
    ensures
        with_nice(out.insert(p, x), nice) == if x.actual_nice == nice {
            with_nice(out, nice).push(x)
        } else {
            with_nice(out, nice)
        },
{
    let pred = |r: SchedulingResult| r.actual_nice == nice;
    let a = out.take(p);
    let b = out.skip(p);
    assert(out =~= a + b);
    assert(out.insert(p, x) =~= (a + seq![x]) + b);
    Seq::filter_distributes_over_add(a, b, pred);
    Seq::filter_distributes_over_add(a + seq![x], b, pred);
    Seq::filter_distributes_over_add(a, seq![x], pred);
    reveal_with_fuel(Seq::filter, 2);
    assert(seq![x].drop_last() =~= Seq::<SchedulingResult>::empty());
    if x.actual_nice == nice {
        lemma_filter_none(b, pred);
        assert(a.filter(pred) + seq![x].filter(pred) + b.filter(pred) =~= (a.filter(pred) + b.filter(pred)).push(x));
    } else {
        assert(seq![x].filter(pred) =~= Seq::<SchedulingResult>::empty());
        assert(a.filter(pred) + seq![x].filter(pred) =~= a.filter(pred));
    }
}

/// Orders the workers' results by their actual nice value, most favourable
/// (lowest) first; results with equal nice values keep their order.
pub fn sort_by_actual_nice(results: Vec<SchedulingResult>) -> (sorted: Vec<SchedulingResult>)
    ensures
        sorted@.len() == results@.len(),
        sorted@.to_multiset() =~= results@.to_multiset(),
        sorted_by_nice(sorted@),
        forall|nice: i32| #[trigger] with_nice(sorted@, nice) == with_nice(results@, nice),
{
    let ghost orig = results@;
    let count = results.len();
    let mut rest = results;
    let mut out: Vec<SchedulingResult> = Vec::new();
    let mut taken: usize = 0;
    assert(orig.take(0) =~= out@);
    while rest.len() > 0
        invariant
            taken <= orig.len(),
            orig.len() == count,
            rest@ == orig.skip(taken as int),
            out@.len() == taken,
            out@.to_multiset() =~= orig.take(taken as int).to_multiset(),
            sorted_by_nice(out@),
            forall|nice: i32| #[trigger] with_nice(out@, nice) == with_nice(orig.take(taken as int), nice),
        decreases rest@.len(),
    {
        let x = rest.remove(0);
        let mut p: usize = 0;
        while p < out.len() && out[p].actual_nice <= x.actual_nice
            invariant
                p <= out@.len(),
                forall|i: int| 0 <= i < p ==> (#[trigger] out@[i]).actual_nice <= x.actual_nice,
            decreases out@.len() - p,
        {
            p = p + 1;
        }
        proof {
            assert forall|i: int| p <= i < out@.len() implies (#[trigger] out@[i]).actual_nice > x.actual_nice by {
                assert(out@[p as int].actual_nice > x.actual_nice);
                assert(out@[p as int].actual_nice <= out@[i].actual_nice);
            }
            assert(x == orig[taken as int]);
            assert(orig.take(taken as int + 1) =~= orig.take(taken as int).push(x));
            assert forall|nice: i32| #[trigger] with_nice(out@.insert(p as int, x), nice) == with_nice(orig.take(taken as int + 1), nice) by {
                lemma_insert_keeps_groups(out@, p as int, x, nice);
                orig.take(taken as int).lemma_filter_push(x, |r: SchedulingResult| r.actual_nice == nice);
            }
        }
        let ghost before = out@;
        out.insert(p, x);
        proof {
            vstd::seq_lib::to_multiset_insert(before, p as int, x);
            vstd::seq_lib::to_multiset_build(orig.take(taken as int), x);
            assert forall|i: int, j: int| 0 <= i <= j < out@.len() implies out@[i].actual_nice <= out@[j].actual_nice by {
                assert(out@ == before.insert(p as int, x));
                if i < p && j > p {
                    assert(before[i].actual_nice <= before[j - 1].actual_nice);
                }
            }
            assert(rest@ =~= orig.skip(taken as int + 1));
        }
        taken = taken + 1;
    }
    proof {
        assert(orig.take(taken as int) =~= orig);
    }
    out
}


// ------------------------------------------------------------------
// The three analysis tasks and their requested nice values.
// ------------------------------------------------------------------

/// The least favourable nice value that Linux accepts.
pub const MAX_NICE: i32 = 19;

/// A traffic-analysis job and the nice value it asks to run with.
pub struct AnalysisTask {
    pub name: String,
    pub requested_nice: i32,
}

/// `base + offset`, but no higher than `MAX_NICE`.
pub open spec fn capped_nice(base: int, offset: int) -> int {
    if base + offset < MAX_NICE {
        base + offset
    } else {
        MAX_NICE as int
    }
}

fn capped(base: i32, offset: i32) -> (n: i32)
    requires
        0 <= offset,
        base + offset <= i32::MAX,
    ensures
        n == capped_nice(base as int, offset as int),
{
    if base + offset < MAX_NICE {
        base + offset
    } else {
        MAX_NICE
    }
}

/// The three analysis jobs, from the most to the least urgent: emergency
/// traffic analysis keeps the starting nice value, congestion analysis asks
/// for five more and historical statistics for ten more, each capped at
/// `MAX_NICE`.
pub fn analysis_tasks(starting_nice: i32) -> (tasks: Vec<AnalysisTask>)
    requires
        starting_nice + 10 <= i32::MAX,
    ensures
        tasks@.len() == 3,
        tasks@[0].name@ == "Emergency Traffic Analysis"@,
        tasks@[1].name@ == "Congestion Analysis"@,
        tasks@[2].name@ == "Historical Statistics"@,
        tasks@[0].requested_nice == starting_nice,
        tasks@[1].requested_nice == capped_nice(starting_nice as int, 5),
        tasks@[2].requested_nice == capped_nice(starting_nice as int, 10),
        starting_nice <= MAX_NICE ==> {
            &&& tasks@[0].requested_nice <= tasks@[1].requested_nice
            &&& tasks@[1].requested_nice <= tasks@[2].requested_nice
            &&& tasks@[2].requested_nice <= MAX_NICE
        },
{
    let mut tasks: Vec<AnalysisTask> = Vec::new();
    tasks.push(AnalysisTask { name: String::from_str("Emergency Traffic Analysis"), requested_nice: starting_nice });
    tasks.push(AnalysisTask { name: String::from_str("Congestion Analysis"), requested_nice: capped(starting_nice, 5) });
    tasks.push(AnalysisTask { name: String::from_str("Historical Statistics"), requested_nice: capped(starting_nice, 10) });
    tasks
}

// ------------------------------------------------------------------
// The scheduling policy of a thread, as Linux reports it.
// ------------------------------------------------------------------

/// A Linux scheduling policy.
#[derive(Clone, Copy, Debug, PartialEq, Eq, Structural)]
pub enum SchedPolicy {
    Other,
    Fifo,
    RoundRobin,
    Batch,
    Idle,
    /// A policy code that none of the above names.
    Unrecognised,
}

/// The name under which a policy is reported.
pub open spec fn policy_label(p: SchedPolicy) -> Seq<char> {
    match p {
        SchedPolicy::Other => "SCHED_OTHER"@,
        SchedPolicy::Fifo => "SCHED_FIFO"@,
        SchedPolicy::RoundRobin => "SCHED_RR"@,
        SchedPolicy::Batch => "SCHED_BATCH"@,
        SchedPolicy::Idle => "SCHED_IDLE"@,
        SchedPolicy::Unrecognised => "UNKNOWN"@,
    }
}

/// The name under which a policy is reported.
pub fn policy_name(p: SchedPolicy) -> (name: String)
    ensures
        name@ == policy_label(p),
{
    match p {
        SchedPolicy::Other => String::from_str("SCHED_OTHER"),
        SchedPolicy::Fifo => String::from_str("SCHED_FIFO"),
        SchedPolicy::RoundRobin => String::from_str("SCHED_RR"),
        SchedPolicy::Batch => String::from_str("SCHED_BATCH"),
        SchedPolicy::Idle => String::from_str("SCHED_IDLE"),
        SchedPolicy::Unrecognised => String::from_str("UNKNOWN"),
    }
}

/// The policy name and static priority to report for the current thread,
/// given what the query for its scheduling parameters gave back: the policy
/// and priority, or the error code of a failed query.
pub fn current_scheduling_information(query: Result<(SchedPolicy, i32), i32>) -> (info: (String, i32))
    ensures
        match query {
            Ok((p, priority)) => info.0@ == policy_label(p) && info.1 == priority,
            Err(code) => info.0@ == "UNKNOWN(error="@ + crate::text::decimal_text(code as int) + ")"@ && info.1 == -1,
        },
{
    match query {
        Ok((p, priority)) => (policy_name(p), priority),
        Err(code) => {
            let mut text = String::from_str("UNKNOWN(error=");
            let number = signed_text(code as i64);
            text.append(number.as_str());
            text.append(")");
            (text, -1)
        },
    }
}


// ------------------------------------------------------------------
// One analysis worker, step by step.
// ------------------------------------------------------------------

/// Where an analysis worker stands.
#[derive(Clone, Copy, Debug, PartialEq, Eq, Structural)]
pub enum WorkerStage {
    /// About to pin itself to the given CPU.
    Pinning(usize),
    /// About to ask for its nice value.
    SettingNice,
    /// About to read back its nice value and scheduling policy.
    Inspecting,
    /// Waiting until every worker is ready.
    Waiting,
    /// Calculating until its time is up.
    Computing,
    /// Done.
    Finished,
}

/// What an analysis worker asks its thread to do next.
#[derive(Clone, Copy, Debug, PartialEq, Eq, Structural)]
pub enum WorkerAction {
    PinToCpu(usize),
    SetNice(i32),
    Inspect,
    WaitForPeers,
    /// Check whether the measurement period is over.
    CheckClock,
    Finish,
}

/// What the thread reports back after doing what was asked.
pub enum WorkerEvent {
    /// Whether pinning to the CPU succeeded.
    Pinned(bool),
    /// Whether the nice value was changed.
    NiceSet(bool),
    /// The nice value, scheduling policy name and static priority now in force.
    Inspected { actual_nice: i32, policy: String, static_priority: i32 },
    /// Every worker is ready; the measurement period starts.
    Released,
    /// Whether the measurement period still has time left.
    ClockChecked(bool),
}

/// A problem that the worker reports and then carries on.
#[derive(Clone, Copy, Debug, PartialEq, Eq, Structural)]
pub enum WorkerWarning {
    AffinityFailed,
    NiceUnchanged,
}

/// A traffic-analysis worker that competes with the others for CPU time.
pub struct AnalysisWorker {
    pub task_name: String,
    pub requested_nice: i32,
    pub stage: WorkerStage,
    pub actual_nice: i32,
    pub policy: String,
    pub static_priority: i32,
    pub calculations: u64,
}

impl AnalysisWorker {
    pub open spec fn action(&self) -> WorkerAction {
        match self.stage {
            WorkerStage::Pinning(cpu) => WorkerAction::PinToCpu(cpu),
            WorkerStage::SettingNice => WorkerAction::SetNice(self.requested_nice),
            WorkerStage::Inspecting => WorkerAction::Inspect,
            WorkerStage::Waiting => WorkerAction::WaitForPeers,
            WorkerStage::Computing => WorkerAction::CheckClock,
            WorkerStage::Finished => WorkerAction::Finish,
        }
    }

    /// The worker after `event`; an event that does not answer the pending
    /// action leaves it as it was.
    pub open spec fn after(&self, event: WorkerEvent) -> AnalysisWorker {
        match (self.stage, event) {
            (WorkerStage::Pinning(_), WorkerEvent::Pinned(_)) => AnalysisWorker { stage: WorkerStage::SettingNice, ..*self },
            (WorkerStage::SettingNice, WorkerEvent::NiceSet(_)) => AnalysisWorker { stage: WorkerStage::Inspecting, ..*self },
            (WorkerStage::Inspecting, WorkerEvent::Inspected { actual_nice, policy, static_priority }) => AnalysisWorker {
                stage: WorkerStage::Waiting,
                actual_nice,
                policy,
                static_priority,
                ..*self
            },
            (WorkerStage::Waiting, WorkerEvent::Released) => AnalysisWorker { stage: WorkerStage::Computing, ..*self },
            (WorkerStage::Computing, WorkerEvent::ClockChecked(true)) => AnalysisWorker {
                calculations: if self.calculations == u64::MAX { 0 } else { (self.calculations + 1) as u64 },
                ..*self
            },
            (WorkerStage::Computing, WorkerEvent::ClockChecked(false)) => AnalysisWorker { stage: WorkerStage::Finished, ..*self },
            _ => *self,
        }
    }

    /// The warning that `event` gives rise to, if any.
    pub open spec fn warning(&self, event: WorkerEvent) -> Option<WorkerWarning> {
        match (self.stage, event) {
            (WorkerStage::Pinning(_), WorkerEvent::Pinned(false)) => Some(WorkerWarning::AffinityFailed),
            (WorkerStage::SettingNice, WorkerEvent::NiceSet(false)) => Some(WorkerWarning::NiceUnchanged),
            _ => None,
        }
    }

    /// A worker for `task`; it first pins itself to `cpu` when one was chosen.
    pub fn new(task: AnalysisTask, cpu: Option<usize>) -> (w: AnalysisWorker)
        ensures
            w.task_name == task.name,
            w.requested_nice == task.requested_nice,
            w.stage == (match cpu {
                Some(c) => WorkerStage::Pinning(c),
                None => WorkerStage::SettingNice,
            }),
            w.actual_nice == 0,
            w.policy@ == Seq::<char>::empty(),
            w.static_priority == 0,
            w.calculations == 0,
    {
        let stage = match cpu {
            Some(c) => WorkerStage::Pinning(c),
            None => WorkerStage::SettingNice,
        };
        AnalysisWorker {
            task_name: task.name,
            requested_nice: task.requested_nice,
            stage,
            actual_nice: 0,
            policy: String::new(),
            static_priority: 0,
            calculations: 0,
        }
    }

    /// What the worker's thread must do next.
    pub fn next_action(&self) -> (a: WorkerAction)
        ensures
            a == self.action(),
    {
        match self.stage {
            WorkerStage::Pinning(cpu) => WorkerAction::PinToCpu(cpu),
            WorkerStage::SettingNice => WorkerAction::SetNice(self.requested_nice),
            WorkerStage::Inspecting => WorkerAction::Inspect,
            WorkerStage::Waiting => WorkerAction::WaitForPeers,
            WorkerStage::Computing => WorkerAction::CheckClock,
            WorkerStage::Finished => WorkerAction::Finish,
        }
    }

    /// Takes in what the thread reports after the pending action, and says
    /// which warning, if any, the thread should print.
    pub fn on_event(&mut self, event: WorkerEvent) -> (w: Option<WorkerWarning>)
        ensures
            *final(self) == old(self).after(event),
            w == old(self).warning(event),
    {
        match event {
            WorkerEvent::Pinned(ok) => {
                if let WorkerStage::Pinning(_) = self.stage {
                    self.stage = WorkerStage::SettingNice;
                    if !ok {
                        return Some(WorkerWarning::AffinityFailed);
                    }
                }
                None
            },
            WorkerEvent::NiceSet(ok) => {
                if let WorkerStage::SettingNice = self.stage {
                    self.stage = WorkerStage::Inspecting;
                    if !ok {
                        return Some(WorkerWarning::NiceUnchanged);
                    }
                }
                None
            },
            WorkerEvent::Inspected { actual_nice, policy, static_priority } => {
                if let WorkerStage::Inspecting = self.stage {
                    self.stage = WorkerStage::Waiting;
                    self.actual_nice = actual_nice;
                    self.policy = policy;
                    self.static_priority = static_priority;
                }
                None
            },
            WorkerEvent::Released => {
                if let WorkerStage::Waiting = self.stage {
                    self.stage = WorkerStage::Computing;
                }
                None
            },
            WorkerEvent::ClockChecked(time_left) => {
                if let WorkerStage::Computing = self.stage {
                    if time_left {
                        self.calculations = self.calculations.wrapping_add(1);
                    } else {
                        self.stage = WorkerStage::Finished;
                    }
                }
                None
            },
        }
    }

    /// What the worker reports once it is done.
    pub fn into_result(self) -> (r: SchedulingResult)
        ensures
            r.task_name == self.task_name,
            r.requested_nice == self.requested_nice,
            r.actual_nice == self.actual_nice,
            r.policy == self.policy,
            r.static_priority == self.static_priority,
            r.work_completed == self.calculations,
    {
        SchedulingResult {
            task_name: self.task_name,
            requested_nice: self.requested_nice,
            actual_nice: self.actual_nice,
            policy: self.policy,
            static_priority: self.static_priority,
            work_completed: self.calculations,
        }
    }
}


/// What a worker asks for in each stage: to pin itself to the chosen CPU,
/// then to set exactly the nice value it requested (negative ones too), then
/// to read back its scheduling state, to wait for its peers, to check the
/// clock while computing, and finally to finish.
pub proof fn lemma_worker_actions(w: AnalysisWorker)
    ensures
        w.stage matches WorkerStage::Pinning(c) ==> w.action() == WorkerAction::PinToCpu(c),
        w.stage == WorkerStage::SettingNice ==> w.action() == WorkerAction::SetNice(w.requested_nice),
        w.stage == WorkerStage::Inspecting ==> w.action() == WorkerAction::Inspect,
        w.stage == WorkerStage::Waiting ==> w.action() == WorkerAction::WaitForPeers,
        w.stage == WorkerStage::Computing ==> w.action() == WorkerAction::CheckClock,
        w.stage == WorkerStage::Finished ==> w.action() == WorkerAction::Finish,
{
}

/// How a worker takes in what its thread reports: a pin result and a nice
/// result move it on and raise a warning exactly when they failed; the
/// inspection stores exactly the nice value, policy and static priority that
/// were read back, whatever was requested; release starts the computation;
/// each clock check with time left adds one calculation (wrapping at
/// `u64::MAX`), and the first without ends it. No event changes the task's
/// name or requested nice value.
pub proof fn lemma_worker_events(
    w: AnalysisWorker,
    ok: bool,
    actual_nice: i32,
    policy: String,
    static_priority: i32,
    event: WorkerEvent,
)
    ensures
        w.after(event).task_name == w.task_name,
        w.after(event).requested_nice == w.requested_nice,
        w.stage is Pinning ==> w.after(WorkerEvent::Pinned(ok)).stage == WorkerStage::SettingNice
            && (w.warning(WorkerEvent::Pinned(ok)) == Some(WorkerWarning::AffinityFailed) <==> !ok)
            && (ok ==> w.warning(WorkerEvent::Pinned(ok)) is None),
        w.stage == WorkerStage::SettingNice ==> w.after(WorkerEvent::NiceSet(ok)).stage == WorkerStage::Inspecting
            && (w.warning(WorkerEvent::NiceSet(ok)) == Some(WorkerWarning::NiceUnchanged) <==> !ok)
            && (ok ==> w.warning(WorkerEvent::NiceSet(ok)) is None),
        w.stage == WorkerStage::Inspecting ==> {
            let v = w.after(WorkerEvent::Inspected { actual_nice, policy, static_priority });
            &&& v.stage == WorkerStage::Waiting
            &&& v.actual_nice == actual_nice
            &&& v.policy == policy
            &&& v.static_priority == static_priority
            &&& v.calculations == w.calculations
        },
        w.stage == WorkerStage::Waiting ==> w.after(WorkerEvent::Released).stage == WorkerStage::Computing
            && w.after(WorkerEvent::Released).calculations == w.calculations,
        w.stage == WorkerStage::Computing ==> w.after(WorkerEvent::ClockChecked(true)).stage == WorkerStage::Computing
            && w.after(WorkerEvent::ClockChecked(true)).calculations == (w.calculations + 1) % 0x1_0000_0000_0000_0000,
        w.stage == WorkerStage::Computing ==> w.after(WorkerEvent::ClockChecked(false)).stage == WorkerStage::Finished
            && w.after(WorkerEvent::ClockChecked(false)).calculations == w.calculations,
        !(w.stage is Pinning) && !(w.stage == WorkerStage::SettingNice) ==> w.warning(event) is None,
        w.stage is Pinning ==> w.after(WorkerEvent::Pinned(ok)) == (AnalysisWorker { stage: WorkerStage::SettingNice, ..w }),
        w.stage == WorkerStage::SettingNice ==> w.after(WorkerEvent::NiceSet(ok)) == (AnalysisWorker { stage: WorkerStage::Inspecting, ..w }),
        w.stage == WorkerStage::Waiting ==> w.after(WorkerEvent::Released) == (AnalysisWorker { stage: WorkerStage::Computing, ..w }),
        w.stage == WorkerStage::Computing ==> w.after(WorkerEvent::ClockChecked(false)) == (AnalysisWorker { stage: WorkerStage::Finished, ..w }),
        event is Pinned && !(w.stage is Pinning) ==> w.after(event) == w,
        event is NiceSet && w.stage != WorkerStage::SettingNice ==> w.after(event) == w,
        event is Inspected && w.stage != WorkerStage::Inspecting ==> w.after(event) == w,
        event is Released && w.stage != WorkerStage::Waiting ==> w.after(event) == w,
        event is ClockChecked && w.stage != WorkerStage::Computing ==> w.after(event) == w,
{
}


/// A requested nice value is the base plus the offset when that stays at or
/// below `MAX_NICE`, and `MAX_NICE` otherwise: the lesser of the two.
pub proof fn lemma_capped_nice_is_least(base: int, offset: int)
    ensures
        MAX_NICE == 19,
        capped_nice(base, offset) <= MAX_NICE,
        capped_nice(base, offset) <= base + offset,
        capped_nice(base, offset) == base + offset || capped_nice(base, offset) == MAX_NICE,
{
}

/// The names under which Linux scheduling policies are reported.
pub proof fn lemma_policy_labels()
    ensures
        policy_label(SchedPolicy::Other) == "SCHED_OTHER"@,
        policy_label(SchedPolicy::Fifo) == "SCHED_FIFO"@,
        policy_label(SchedPolicy::RoundRobin) == "SCHED_RR"@,
        policy_label(SchedPolicy::Batch) == "SCHED_BATCH"@,
        policy_label(SchedPolicy::Idle) == "SCHED_IDLE"@,
        policy_label(SchedPolicy::Unrecognised) == "UNKNOWN"@,
{
}

} // verus!
