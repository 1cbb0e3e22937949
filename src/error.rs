//! Request-level failures and their HTTP and gRPC statuses.
use vstd::prelude::*;

use crate::tensor::TensorError;

verus! {

/// Why a prediction request did not produce a result.
#[derive(Clone, Debug, PartialEq, Eq)]
pub enum PredictError {
    /// No model of the requested name is configured.
    UnknownModel,
    /// The model's worker has not finished loading, or failed to load.
    NotReady,
    /// The input tensor is malformed.
    BadRequest(TensorError),
    /// The model's queue stayed full past the enqueue deadline.
    QueueFull,
    /// The model's worker no longer receives requests.
    WorkerGone,
    /// The worker could not produce a result; the reason is attached.
    InferenceFailed(String),
}

/// The gRPC status codes that requests can end with.
#[derive(Clone, Copy, Debug, PartialEq, Eq, Structural)]
pub enum GrpcCode {
    NotFound,
    Unavailable,
    InvalidArgument,
    ResourceExhausted,
    Internal,
}

impl PredictError {
    /// HTTP status that reports this failure.
    pub open spec fn spec_http_status(&self) -> u16 {
        match self {
            PredictError::UnknownModel => 404,
            PredictError::NotReady => 503,
            PredictError::BadRequest(_) => 400,
            PredictError::QueueFull => 503,
            PredictError::WorkerGone => 502,
            PredictError::InferenceFailed(_) => 502,
        }
    }

    /// gRPC status that reports this failure.
    pub open spec fn spec_grpc_code(&self) -> GrpcCode {
        match self {
            PredictError::UnknownModel => GrpcCode::NotFound,
            PredictError::NotReady => GrpcCode::Unavailable,
            PredictError::BadRequest(_) => GrpcCode::InvalidArgument,
            PredictError::QueueFull => GrpcCode::ResourceExhausted,
            PredictError::WorkerGone => GrpcCode::Internal,
            PredictError::InferenceFailed(_) => GrpcCode::Internal,
        }
    }

    /// HTTP status that reports this failure.
    pub fn http_status(&self) -> (r: u16)
        ensures
            r == self.spec_http_status(),
    {
        match self {
            PredictError::UnknownModel => 404,
            PredictError::NotReady => 503,
            PredictError::BadRequest(_) => 400,
            PredictError::QueueFull => 503,
            PredictError::WorkerGone => 502,
            PredictError::InferenceFailed(_) => 502,
        }
    }

    /// gRPC status that reports this failure.
    pub fn grpc_code(&self) -> (r: GrpcCode)
        ensures
            r == self.spec_grpc_code(),
    {
        match self {
            PredictError::UnknownModel => GrpcCode::NotFound,
            PredictError::NotReady => GrpcCode::Unavailable,
            PredictError::BadRequest(_) => GrpcCode::InvalidArgument,
            PredictError::QueueFull => GrpcCode::ResourceExhausted,
            PredictError::WorkerGone => GrpcCode::Internal,
            PredictError::InferenceFailed(_) => GrpcCode::Internal,
        }
    }
}

} // verus!
