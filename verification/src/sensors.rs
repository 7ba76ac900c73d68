use vstd::prelude::*;
use crate::text::unsigned_text;

verus! {

/// What a traffic-control thread reports as its work.
#[derive(Clone, Copy, Debug, PartialEq, Eq, Structural)]
pub enum SensorWork {
    VehiclesDetected(u32),
    PedestriansWaiting(u32),
    /// Whether an emergency vehicle was detected.
    EmergencyVehicle(bool),
    GreenLightSeconds(u32),
}

/// One of the five traffic-control threads.
pub struct TrafficTask {
    /// Name given to the thread.
    pub thread_name: String,
    /// Tag that starts each line the thread prints.
    pub label: String,
    /// What the thread is, in the message shown when it cannot be created.
    pub role: String,
    /// How long the thread works, in milliseconds.
    pub work_millis: u64,
    pub work: SensorWork,
}

/// The text that describes a thread's work.
pub open spec fn work_text(work: SensorWork) -> Seq<char> {
    match work {
        SensorWork::VehiclesDetected(n) => "detected "@ + crate::text::decimal_digits(n as nat) + " vehicles"@,
        SensorWork::PedestriansWaiting(n) => crate::text::decimal_digits(n as nat) + " pedestrians waiting to cross"@,
        SensorWork::EmergencyVehicle(true) => "emergency vehicle detected"@,
        SensorWork::EmergencyVehicle(false) => "no emergency vehicle detected"@,
        SensorWork::GreenLightSeconds(n) => "green light timer set to "@ + crate::text::decimal_digits(n as nat) + " seconds"@,
    }
}

/// The text that describes a thread's work.
pub fn work_description(work: SensorWork) -> (text: String)
    ensures
        text@ == work_text(work),
{
    match work {
        SensorWork::VehiclesDetected(n) => {
            let mut text = String::from_str("detected ");
            let number = unsigned_text(n as u64);
            text.append(number.as_str());
            text.append(" vehicles");
            text
        },
        SensorWork::PedestriansWaiting(n) => {
            let mut text = unsigned_text(n as u64);
            text.append(" pedestrians waiting to cross");
            text
        },
        SensorWork::EmergencyVehicle(detected) => {
            if detected {
                String::from_str("emergency vehicle detected")
            } else {
                String::from_str("no emergency vehicle detected")
            }
        },
        SensorWork::GreenLightSeconds(n) => {
            let mut text = String::from_str("green light timer set to ");
            let number = unsigned_text(n as u64);
            text.append(number.as_str());
            text.append(" seconds");
            text
        },
    }
}

fn task(thread_name: &str, label: &str, role: &str, work_millis: u64, work: SensorWork) -> (t: TrafficTask)
    ensures
        t.thread_name@ == thread_name@,
        t.label@ == label@,
        t.role@ == role@,
        t.work_millis == work_millis,
        t.work == work,
{
    TrafficTask {
        thread_name: String::from_str(thread_name),
        label: String::from_str(label),
        role: String::from_str(role),
        work_millis,
        work,
    }
}

/// The five traffic-control threads, in the order they are started.
pub fn traffic_tasks() -> (tasks: Vec<TrafficTask>)
    ensures
        tasks@.len() == 5,
        tasks@[0].thread_name@ == "north-south-sensor"@,
        tasks@[0].label@ == "North/South Sensor"@,
        tasks@[0].role@ == "North/South sensor"@,
        tasks@[0].work_millis == 150,
        tasks@[0].work == SensorWork::VehiclesDetected(42),
        tasks@[1].thread_name@ == "east-west-sensor"@,
        tasks@[1].label@ == "East/West Sensor"@,
        tasks@[1].role@ == "East/West sensor"@,
        tasks@[1].work_millis == 100,
        tasks@[1].work == SensorWork::VehiclesDetected(35),
        tasks@[2].thread_name@ == "pedestrian-monitor"@,
        tasks@[2].label@ == "Pedestrian Monitor"@,
        tasks@[2].role@ == "pedestrian monitor"@,
        tasks@[2].work_millis == 120,
        tasks@[2].work == SensorWork::PedestriansWaiting(8),
        tasks@[3].thread_name@ == "emergency-detector"@,
        tasks@[3].label@ == "Emergency Detector"@,
        tasks@[3].role@ == "emergency detector"@,
        tasks@[3].work_millis == 80,
        tasks@[3].work == SensorWork::EmergencyVehicle(true),
        tasks@[4].thread_name@ == "signal-controller"@,
        tasks@[4].label@ == "Signal Controller"@,
        tasks@[4].role@ == "signal controller"@,
        tasks@[4].work_millis == 180,
        tasks@[4].work == SensorWork::GreenLightSeconds(30),
{
    let mut tasks: Vec<TrafficTask> = Vec::new();
    tasks.push(task("north-south-sensor", "North/South Sensor", "North/South sensor", 150, SensorWork::VehiclesDetected(42)));
    tasks.push(task("east-west-sensor", "East/West Sensor", "East/West sensor", 100, SensorWork::VehiclesDetected(35)));
    tasks.push(task("pedestrian-monitor", "Pedestrian Monitor", "pedestrian monitor", 120, SensorWork::PedestriansWaiting(8)));
    tasks.push(task("emergency-detector", "Emergency Detector", "emergency detector", 80, SensorWork::EmergencyVehicle(true)));
    tasks.push(task("signal-controller", "Signal Controller", "signal controller", 180, SensorWork::GreenLightSeconds(30)));
    tasks
}


/// Each work text carries its count in full: for every count `n`, the
/// vehicles, pedestrians and green-light texts are their fixed words around
/// the canonical decimal form of `n` (which reads back as `n`), and the
/// emergency text says "no" exactly when no emergency vehicle was detected.
pub proof fn lemma_work_text_carries_count(n: u32)
    ensures
        exists|d: Seq<char>| crate::text::is_decimal_of(d, n as int)
            && work_text(SensorWork::VehiclesDetected(n)) == "detected "@ + d + " vehicles"@,
        exists|d: Seq<char>| crate::text::is_decimal_of(d, n as int)
            && work_text(SensorWork::PedestriansWaiting(n)) == d + " pedestrians waiting to cross"@,
        exists|d: Seq<char>| crate::text::is_decimal_of(d, n as int)
            && work_text(SensorWork::GreenLightSeconds(n)) == "green light timer set to "@ + d + " seconds"@,
        work_text(SensorWork::EmergencyVehicle(true)) == "emergency vehicle detected"@,
        work_text(SensorWork::EmergencyVehicle(false)) == "no "@ + "emergency vehicle detected"@,
{
    let d = crate::text::decimal_digits(n as nat);
    crate::text::lemma_decimal_digits_read_back(n as nat);
    assert(crate::text::is_decimal_of(d, n as int)
        && work_text(SensorWork::VehiclesDetected(n)) == "detected "@ + d + " vehicles"@);
    assert(crate::text::is_decimal_of(d, n as int)
        && work_text(SensorWork::PedestriansWaiting(n)) == d + " pedestrians waiting to cross"@);
    assert(crate::text::is_decimal_of(d, n as int)
        && work_text(SensorWork::GreenLightSeconds(n)) == "green light timer set to "@ + d + " seconds"@);
    reveal_strlit("no ");
    reveal_strlit("emergency vehicle detected");
    reveal_strlit("no emergency vehicle detected");
    assert(work_text(SensorWork::EmergencyVehicle(false)) =~= "no "@ + "emergency vehicle detected"@);
}

} // verus!
