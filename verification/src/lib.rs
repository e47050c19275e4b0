//! Host telemetry probe library: decoding of raw hardware register dumps
//! into calibrated temperatures and topology, parsing of the sensor
//! tool's free-form text into structured per-package readings,
//! command-line construction and outcome classification for the execution
//! strategies, and the memoizing caches that hold calibration and
//! topology values for the life of the process. Process spawning, file
//! and network transport stay outside; they hand captured text and status
//! values in and take structured records back.
pub mod config;
pub mod execution;
pub mod install;
pub mod laws;
pub mod mock;
pub mod models;
pub mod monitor;
pub mod msr;
pub mod netinfo;
pub mod sensor;
pub mod text;
