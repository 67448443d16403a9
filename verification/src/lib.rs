//! The conference planner: speakers, sessions and a schedule, served by small
//! services that can be told to fail or to slow down at random.

pub mod numbers;
pub mod settings;
pub mod random;
pub mod failure;
pub mod delay;
pub mod json;
pub mod ids;
pub mod speaker;
pub mod session;
pub mod schedule_entries;
pub mod tracing;
pub mod frontend;
pub mod loadgenerator;
