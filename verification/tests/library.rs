use gannonlinux::affinity::first_allowed_cpu;
use gannonlinux::command::{parse_command, usage_lines, Command, Demo};
use gannonlinux::counter::{
    expected_total, record_vehicle, tally, SyncAction, SyncSensor, UnsyncAction, UnsyncSensor,
    SENSOR_COUNT, VEHICLES_PER_SENSOR,
};
use gannonlinux::scheduling::{
    analysis_tasks, current_scheduling_information, policy_name, sort_by_actual_nice,
    AnalysisTask, AnalysisWorker, SchedPolicy, SchedulingResult, WorkerAction, WorkerEvent,
    WorkerStage, WorkerWarning, MAX_NICE,
};
use gannonlinux::sensors::{traffic_tasks, work_description, SensorWork};
use gannonlinux::text::{signed_text, unsigned_text};

fn args(words: &[&str]) -> Vec<String> {
    words.iter().map(|w| w.to_string()).collect()
}

fn result(name: &str, nice: i32) -> SchedulingResult {
    SchedulingResult {
        task_name: name.to_string(),
        requested_nice: nice,
        actual_nice: nice,
        policy: "SCHED_OTHER".to_string(),
        static_priority: 0,
        work_completed: 7,
    }
}

#[test]
fn decimal_text_matches_display() {
    for v in [0u64, 7, 10, 42, 100_000, 500_000, u64::MAX] {
        assert_eq!(unsigned_text(v), v.to_string());
    }
    for v in [0i64, -1, 5, -20, 19, i64::MIN, i64::MAX] {
        assert_eq!(signed_text(v), v.to_string());
    }
}

#[test]
fn expected_total_of_the_demo() {
    assert_eq!(expected_total(SENSOR_COUNT, VEHICLES_PER_SENSOR), 500_000);
    assert_eq!(expected_total(0, 9), 0);
}

#[test]
fn tally_reports_lost_detections() {
    let t = tally(500_000, 431_207);
    assert_eq!(t.expected, 500_000);
    assert_eq!(t.actual, 431_207);
    assert_eq!(t.lost, Some(68_793));
    assert!(!t.exact);
}

#[test]
fn tally_of_an_exact_count() {
    let t = tally(500_000, 500_000);
    assert_eq!(t.lost, Some(0));
    assert!(t.exact);
}

#[test]
fn tally_above_expected_has_no_loss() {
    let t = tally(10, 11);
    assert_eq!(t.lost, None);
    assert!(!t.exact);
}

#[test]
fn record_vehicle_adds_one() {
    let mut count = 41usize;
    record_vehicle(&mut count);
    assert_eq!(count, 42);
}

#[test]
fn unsync_sensor_loads_then_stores_one_more() {
    let mut s = UnsyncSensor::new(2);
    assert!(matches!(s.next_action(), UnsyncAction::Load));
    s.on_loaded(7);
    match s.next_action() {
        UnsyncAction::Store { value, yield_first } => {
            assert_eq!(value, 8);
            assert!(yield_first);
        }
        _ => panic!("expected a store"),
    }
    s.on_stored();
    assert_eq!(s.detection, 1);
    assert!(matches!(s.next_action(), UnsyncAction::Load));
    s.on_loaded(8);
    match s.next_action() {
        UnsyncAction::Store { value, yield_first } => {
            assert_eq!(value, 9);
            assert!(!yield_first);
        }
        _ => panic!("expected a store"),
    }
    s.on_stored();
    assert!(matches!(s.next_action(), UnsyncAction::Done));
}

fn unsync_step(counter: &mut usize, sensors: &mut [UnsyncSensor], i: usize) {
    match sensors[i].next_action() {
        UnsyncAction::Load => sensors[i].on_loaded(*counter),
        UnsyncAction::Store { value, .. } => {
            *counter = value;
            sensors[i].on_stored();
        }
        UnsyncAction::Done => {}
    }
}

#[test]
fn interleaved_sensors_lose_an_update() {
    let mut counter = 0usize;
    let mut sensors = vec![UnsyncSensor::new(1), UnsyncSensor::new(1)];
    for i in [0, 1, 0, 1] {
        unsync_step(&mut counter, &mut sensors, i);
    }
    assert_eq!(counter, 1);
    assert_eq!(sensors[0].detection + sensors[1].detection, 2);
}

#[test]
fn unsync_counter_never_exceeds_the_expected_total() {
    let mut counter = 0usize;
    let mut sensors = vec![UnsyncSensor::new(3), UnsyncSensor::new(4), UnsyncSensor::new(2)];
    let schedule = [0, 1, 1, 2, 0, 0, 1, 2, 2, 1, 0, 1, 1, 0, 2, 2, 0, 1, 1, 0, 0, 1, 1, 2, 2, 0, 1, 1];
    for i in schedule {
        unsync_step(&mut counter, &mut sensors, i);
        let reported: usize = sensors.iter().map(|s| s.detection).sum();
        assert!(counter <= reported);
    }
    for i in 0..3 {
        while !matches!(sensors[i].next_action(), UnsyncAction::Done) {
            unsync_step(&mut counter, &mut sensors, i);
        }
    }
    assert!(counter <= 9);
}

#[test]
fn serialized_unsync_sensors_count_exactly() {
    let mut counter = 0usize;
    let mut sensors = vec![UnsyncSensor::new(3), UnsyncSensor::new(2)];
    for i in 0..2 {
        while !matches!(sensors[i].next_action(), UnsyncAction::Done) {
            unsync_step(&mut counter, &mut sensors, i);
        }
    }
    assert_eq!(counter, 5);
}

#[test]
fn synchronized_sensors_count_exactly() {
    let mut counter = 0usize;
    let mut sensors = vec![SyncSensor::new(3), SyncSensor::new(2), SyncSensor::new(4)];
    let schedule = [2, 0, 1, 2, 2, 0, 1, 1, 0, 2, 2, 0, 0];
    for i in schedule {
        if let SyncAction::Increment = sensors[i].next_action() {
            record_vehicle(&mut counter);
            sensors[i].on_incremented();
        }
    }
    assert_eq!(counter, 9);
    for s in &sensors {
        assert!(matches!(s.next_action(), SyncAction::Done));
    }
}

#[test]
fn analysis_tasks_from_default_nice() {
    let tasks = analysis_tasks(0);
    let got: Vec<(String, i32)> = tasks.into_iter().map(|t| (t.name, t.requested_nice)).collect();
    assert_eq!(
        got,
        vec![
            ("Emergency Traffic Analysis".to_string(), 0),
            ("Congestion Analysis".to_string(), 5),
            ("Historical Statistics".to_string(), 10),
        ]
    );
}

#[test]
fn analysis_tasks_are_capped_at_max_nice() {
    let tasks = analysis_tasks(12);
    let nices: Vec<i32> = tasks.iter().map(|t| t.requested_nice).collect();
    assert_eq!(nices, vec![12, 17, MAX_NICE]);
    let tasks = analysis_tasks(-20);
    let nices: Vec<i32> = tasks.iter().map(|t| t.requested_nice).collect();
    assert_eq!(nices, vec![-20, -15, -10]);
    let tasks = analysis_tasks(19);
    let nices: Vec<i32> = tasks.iter().map(|t| t.requested_nice).collect();
    assert_eq!(nices, vec![19, 19, 19]);
}

#[test]
fn policy_names() {
    assert_eq!(policy_name(SchedPolicy::Other), "SCHED_OTHER");
    assert_eq!(policy_name(SchedPolicy::Fifo), "SCHED_FIFO");
    assert_eq!(policy_name(SchedPolicy::RoundRobin), "SCHED_RR");
    assert_eq!(policy_name(SchedPolicy::Batch), "SCHED_BATCH");
    assert_eq!(policy_name(SchedPolicy::Idle), "SCHED_IDLE");
    assert_eq!(policy_name(SchedPolicy::Unrecognised), "UNKNOWN");
}

#[test]
fn scheduling_information_of_a_successful_query() {
    let (policy, priority) = current_scheduling_information(Ok((SchedPolicy::Other, 0)));
    assert_eq!(policy, "SCHED_OTHER");
    assert_eq!(priority, 0);
    let (policy, priority) = current_scheduling_information(Ok((SchedPolicy::Fifo, 42)));
    assert_eq!(policy, "SCHED_FIFO");
    assert_eq!(priority, 42);
}

#[test]
fn scheduling_information_of_a_failed_query() {
    let (policy, priority) = current_scheduling_information(Err(3));
    assert_eq!(policy, "UNKNOWN(error=3)");
    assert_eq!(priority, -1);
    let (policy, _) = current_scheduling_information(Err(-22));
    assert_eq!(policy, "UNKNOWN(error=-22)");
}

#[test]
fn sort_orders_by_actual_nice() {
    let sorted = sort_by_actual_nice(vec![result("c", 10), result("a", 0), result("b", 5)]);
    let names: Vec<&str> = sorted.iter().map(|r| r.task_name.as_str()).collect();
    assert_eq!(names, vec!["a", "b", "c"]);
}

#[test]
fn sort_keeps_equal_nice_values_in_order() {
    let sorted = sort_by_actual_nice(vec![
        result("x", 19),
        result("y", 0),
        result("z", 19),
        result("w", 0),
        result("v", 19),
    ]);
    let names: Vec<&str> = sorted.iter().map(|r| r.task_name.as_str()).collect();
    assert_eq!(names, vec!["y", "w", "x", "z", "v"]);
}

#[test]
fn sort_of_nothing() {
    assert!(sort_by_actual_nice(Vec::new()).is_empty());
}

fn task(name: &str, nice: i32) -> AnalysisTask {
    AnalysisTask { name: name.to_string(), requested_nice: nice }
}

#[test]
fn worker_runs_through_its_stages() {
    let mut w = AnalysisWorker::new(task("Congestion Analysis", 5), Some(2));
    assert_eq!(w.next_action(), WorkerAction::PinToCpu(2));
    assert_eq!(w.on_event(WorkerEvent::Pinned(true)), None);
    assert_eq!(w.next_action(), WorkerAction::SetNice(5));
    assert_eq!(w.on_event(WorkerEvent::NiceSet(true)), None);
    assert_eq!(w.next_action(), WorkerAction::Inspect);
    w.on_event(WorkerEvent::Inspected {
        actual_nice: 5,
        policy: "SCHED_OTHER".to_string(),
        static_priority: 0,
    });
    assert_eq!(w.next_action(), WorkerAction::WaitForPeers);
    w.on_event(WorkerEvent::Released);
    assert_eq!(w.next_action(), WorkerAction::CheckClock);
    for _ in 0..3 {
        w.on_event(WorkerEvent::ClockChecked(true));
        assert_eq!(w.next_action(), WorkerAction::CheckClock);
    }
    w.on_event(WorkerEvent::ClockChecked(false));
    assert_eq!(w.next_action(), WorkerAction::Finish);
    let r = w.into_result();
    assert_eq!(r.task_name, "Congestion Analysis");
    assert_eq!(r.requested_nice, 5);
    assert_eq!(r.actual_nice, 5);
    assert_eq!(r.policy, "SCHED_OTHER");
    assert_eq!(r.static_priority, 0);
    assert_eq!(r.work_completed, 3);
}

#[test]
fn worker_without_cpu_skips_pinning_and_warns() {
    let mut w = AnalysisWorker::new(task("Historical Statistics", 10), None);
    assert_eq!(w.stage, WorkerStage::SettingNice);
    assert_eq!(w.next_action(), WorkerAction::SetNice(10));
    assert_eq!(w.on_event(WorkerEvent::NiceSet(false)), Some(WorkerWarning::NiceUnchanged));
    assert_eq!(w.next_action(), WorkerAction::Inspect);
}

#[test]
fn worker_warns_when_pinning_fails() {
    let mut w = AnalysisWorker::new(task("Emergency Traffic Analysis", 0), Some(0));
    assert_eq!(w.on_event(WorkerEvent::Pinned(false)), Some(WorkerWarning::AffinityFailed));
    assert_eq!(w.next_action(), WorkerAction::SetNice(0));
}

#[test]
fn worker_ignores_an_unexpected_event() {
    let mut w = AnalysisWorker::new(task("Emergency Traffic Analysis", 0), Some(0));
    assert_eq!(w.on_event(WorkerEvent::Released), None);
    assert_eq!(w.on_event(WorkerEvent::ClockChecked(true)), None);
    assert_eq!(w.calculations, 0);
    assert_eq!(w.next_action(), WorkerAction::PinToCpu(0));
}

#[test]
fn worker_calculation_count_wraps() {
    let mut w = AnalysisWorker::new(task("t", 0), None);
    w.stage = WorkerStage::Computing;
    w.calculations = u64::MAX;
    w.on_event(WorkerEvent::ClockChecked(true));
    assert_eq!(w.calculations, 0);
}

#[test]
fn first_allowed_cpu_is_the_lowest_allowed() {
    assert_eq!(first_allowed_cpu(&Some(vec![false, false, true, true])), Some(2));
    assert_eq!(first_allowed_cpu(&Some(vec![true])), Some(0));
}

#[test]
fn first_allowed_cpu_of_an_empty_or_unread_mask() {
    assert_eq!(first_allowed_cpu(&Some(vec![false; 1024])), None);
    assert_eq!(first_allowed_cpu(&Some(Vec::new())), None);
    assert_eq!(first_allowed_cpu(&None), None);
}

#[test]
fn parse_each_command() {
    assert_eq!(parse_command(&args(&["prog", "creation"])), Command::Creation);
    assert_eq!(parse_command(&args(&["prog", "unsync"])), Command::Unsync);
    assert_eq!(parse_command(&args(&["prog", "sync"])), Command::Sync);
    assert_eq!(parse_command(&args(&["prog", "schedule"])), Command::Schedule);
    assert_eq!(parse_command(&args(&["prog", "all"])), Command::All);
}

#[test]
fn parse_asks_for_usage_otherwise() {
    assert_eq!(parse_command(&args(&["prog"])), Command::Usage);
    assert_eq!(parse_command(&args(&["prog", "sync", "extra"])), Command::Usage);
    assert_eq!(parse_command(&args(&["prog", "SYNC"])), Command::Usage);
    assert_eq!(parse_command(&args(&[])), Command::Usage);
}

#[test]
fn all_runs_every_demo_in_order() {
    assert_eq!(
        Command::All.demos(),
        vec![Demo::ThreadCreation, Demo::Unsynchronized, Demo::Synchronized, Demo::Scheduling]
    );
    assert_eq!(Command::Sync.demos(), vec![Demo::Synchronized]);
    assert!(Command::Usage.demos().is_empty());
}

#[test]
fn usage_text() {
    assert_eq!(
        usage_lines("./traffic"),
        vec![
            "",
            "SMART TRAFFIC MANAGEMENT SYSTEM",
            "",
            "Usage:",
            "./traffic creation",
            "./traffic unsync",
            "./traffic sync",
            "./traffic schedule",
            "./traffic all",
        ]
    );
}

#[test]
fn the_five_traffic_tasks() {
    let tasks = traffic_tasks();
    let got: Vec<(String, String, String, u64, SensorWork)> = tasks
        .into_iter()
        .map(|t| (t.thread_name, t.label, t.role, t.work_millis, t.work))
        .collect();
    let want = vec![
        ("north-south-sensor", "North/South Sensor", "North/South sensor", 150, SensorWork::VehiclesDetected(42)),
        ("east-west-sensor", "East/West Sensor", "East/West sensor", 100, SensorWork::VehiclesDetected(35)),
        ("pedestrian-monitor", "Pedestrian Monitor", "pedestrian monitor", 120, SensorWork::PedestriansWaiting(8)),
        ("emergency-detector", "Emergency Detector", "emergency detector", 80, SensorWork::EmergencyVehicle(true)),
        ("signal-controller", "Signal Controller", "signal controller", 180, SensorWork::GreenLightSeconds(30)),
    ];
    let want: Vec<(String, String, String, u64, SensorWork)> = want
        .into_iter()
        .map(|(a, b, c, d, e)| (a.to_string(), b.to_string(), c.to_string(), d, e))
        .collect();
    assert_eq!(got, want);
}

#[test]
fn work_descriptions() {
    assert_eq!(work_description(SensorWork::VehiclesDetected(42)), "detected 42 vehicles");
    assert_eq!(work_description(SensorWork::PedestriansWaiting(8)), "8 pedestrians waiting to cross");
    assert_eq!(work_description(SensorWork::EmergencyVehicle(true)), "emergency vehicle detected");
    assert_eq!(work_description(SensorWork::EmergencyVehicle(false)), "no emergency vehicle detected");
    assert_eq!(work_description(SensorWork::GreenLightSeconds(30)), "green light timer set to 30 seconds");
}
