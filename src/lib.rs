//! Request-dispatch core of a multi-model inference server.
//!
//! The library holds the logic that decides what happens to a prediction
//! request: the validated configuration, tensors and their shapes, the
//! per-model readiness table and worker life cycle, admission of requests
//! onto a model's queue, and the mapping of failures to protocol statuses.
//! Network servers, the inference runtime and the queues themselves live in
//! the application around it.
pub mod config;
pub mod dispatch;
pub mod error;
pub mod routes;
pub mod samples;
pub mod state;
pub mod tensor;
pub mod worker;
