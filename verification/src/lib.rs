//! Decision logic of a small traffic-management demonstration of Linux
//! threads: sensor tasks, a shared vehicle counter with and without mutual
//! exclusion, and a scheduling investigation of analysis workers.
pub mod affinity;
pub mod command;
pub mod counter;
pub mod scheduling;
pub mod sensors;
pub mod text;
