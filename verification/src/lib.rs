//! Health-probe collection for a fleet of cluster nodes: probing, verdicts
//! and the events handed to the alerting sink.

pub mod juggler;
pub mod probe;
pub mod rmq;
pub mod roster;
pub mod run;
pub mod text;
pub mod zoo;
