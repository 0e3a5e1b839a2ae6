//! Benchmark harness core for an image codec: job discovery, the per-job
//! compress/decompress protocol, aggregation of measurements into a report,
//! and the axis computations behind the report's charts.
pub mod aggregate;
pub mod chart;
pub mod job;
pub mod measure;
pub mod run;
pub mod schedule;
