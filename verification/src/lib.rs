//! Satellite onboard control system.

pub mod benchmark;
pub mod buffer;
pub mod clock;
pub mod downlink;
pub mod faults;
pub mod final_report;
pub mod ground;
pub mod logger;
pub mod metrics;
pub mod mission;
pub mod report;
pub mod scheduler;
pub mod sensor;
pub mod sums;
pub mod text;
pub mod types;
pub mod wire;
