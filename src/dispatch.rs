//! Front-end side of a prediction: admission of a request onto its model's
//! queue, the enqueue deadline, and the reply that ends the request. Both
//! wire protocols go through these functions.
use vstd::prelude::*;

use crate::config::has_model;
use crate::error::{GrpcCode, PredictError};
use crate::state::SharedState;
use crate::tensor::{
    dims_fit_wire, dims_from_wire, dims_to_wire, shape_product, wire_dims_valid, Tensor,
    TensorError,
};
use crate::worker::Message;

verus! {

/// `id` carries the version nibble of a random UUID (4) and the RFC 4122
/// variant bits (`10`), as a big-endian 128-bit value.
pub open spec fn is_uuid_v4(id: u128) -> bool {
    (id >> 76u128) & 0xfu128 == 4 && (id >> 62u128) & 0x3u128 == 2
}

/// Relies on `uuid::Uuid::new_v4` and `Uuid::as_u128`: a fresh random UUID
/// with version 4 and the RFC 4122 variant, read as a big-endian integer.
#[verifier::external_body]
fn new_prediction_id() -> (r: u128)
    ensures
        is_uuid_v4(r),
{
    uuid::Uuid::new_v4().as_u128()
}

/// An HTTP prediction request: the model to run and its input tensor, not
/// yet checked.
pub struct InferenceRequest<T> {
    pub model_name: String,
    pub data: Tensor<T>,
}

/// An HTTP prediction result.
pub struct InferenceResponse<T> {
    pub prediction_id: u128,
    pub model_name: String,
    pub data: Tensor<T>,
}

/// A gRPC prediction result: the tensor flattened, its shape as `int32`.
pub struct WireResponse<T> {
    pub model_name: String,
    pub prediction_id: u128,
    pub data: Vec<T>,
    pub shape: Vec<i32>,
}

/// Why a request for `name` is turned away before its tensor is read, if it is.
pub open spec fn model_error(state: SharedState, name: Seq<char>) -> Option<PredictError> {
    if !has_model(state.spec_config().models@, name) {
        Some(PredictError::UnknownModel)
    } else if !state.model_ready(name) {
        Some(PredictError::NotReady)
    } else {
        None
    }
}

/// Why a request with a shape and `len` elements is refused, if it is.
pub open spec fn admission_error(
    state: SharedState,
    name: Seq<char>,
    shape: Seq<usize>,
    len: nat,
) -> Option<PredictError> {
    if model_error(state, name) is Some {
        model_error(state, name)
    } else if shape_product(shape) != len {
        Some(PredictError::BadRequest(TensorError::ShapeMismatch))
    } else {
        None
    }
}

/// Why a gRPC request with a wire shape and `len` elements is refused, if it is.
pub open spec fn wire_admission_error(
    state: SharedState,
    name: Seq<char>,
    shape: Seq<i32>,
    len: nat,
) -> Option<PredictError> {
    if model_error(state, name) is Some {
        model_error(state, name)
    } else if !wire_dims_valid(shape) {
        Some(PredictError::BadRequest(TensorError::NegativeDimension))
    } else if shape_product(shape.map_values(|d: i32| d as usize)) != len {
        Some(PredictError::BadRequest(TensorError::ShapeMismatch))
    } else {
        None
    }
}

/// Checks that the model named `name` exists and is ready to serve.
pub fn check_model(state: &SharedState, name: &String) -> (r: Result<(), PredictError>)
    requires
        state.wf(),
    ensures
        r == (match model_error(*state, name@) {
            None => Ok(()),
            Some(e) => Err(e),
        }),
{
    match state.phase(name) {
        None => Err(PredictError::UnknownModel),
        Some(_) => {
            if state.is_ready(name) {
                Ok(())
            } else {
                Err(PredictError::NotReady)
            }
        },
    }
}

/// Accepts an HTTP request: the model must be configured, then ready, then
/// the tensor well formed. Only an accepted request becomes a message, with
/// a fresh version-4 prediction id; a refused one touches no queue.
pub fn accept<T, R>(state: &SharedState, request: InferenceRequest<T>, response_tx: R) -> (r: Result<
    Message<T, R>,
    PredictError,
>)
    requires
        state.wf(),
    ensures
        r is Ok <==> admission_error(
            *state,
            request.model_name@,
            request.data.shape@,
            request.data.data@.len(),
        ) is None,
        r matches Err(e) ==> admission_error(
            *state,
            request.model_name@,
            request.data.shape@,
            request.data.data@.len(),
        ) == Some(e),
        r matches Ok(m) ==> {
            &&& m.model_name@ == request.model_name@
            &&& m.input_data.shape@ == request.data.shape@
            &&& m.input_data.data@ == request.data.data@
            &&& m.response_tx == response_tx
            &&& is_uuid_v4(m.prediction_id)
        },
{
    match check_model(state, &request.model_name) {
        Err(e) => Err(e),
        Ok(()) => {
            let InferenceRequest { model_name, data } = request;
            let Tensor { shape, data } = data;
            match Tensor::from_shape_vec(shape, data) {
                Err(e) => Err(PredictError::BadRequest(e)),
                Ok(input_data) => {
                    let prediction_id = new_prediction_id();
                    Ok(Message { prediction_id, model_name, input_data, response_tx })
                },
            }
        },
    }
}

/// Accepts a gRPC request, whose shape travels as signed dimensions: the
/// model must be configured, then ready, then every dimension non-negative,
/// then the shape must match the data.
pub fn accept_wire<T, R>(
    state: &SharedState,
    model_name: String,
    shape: Vec<i32>,
    data: Vec<T>,
    response_tx: R,
) -> (r: Result<Message<T, R>, PredictError>)
    requires
        state.wf(),
    ensures
        r is Ok <==> wire_admission_error(*state, model_name@, shape@, data@.len()) is None,
        r matches Err(e) ==> wire_admission_error(*state, model_name@, shape@, data@.len())
            == Some(e),
        r matches Ok(m) ==> {
            &&& m.model_name@ == model_name@
            &&& m.input_data.shape@ == shape@.map_values(|d: i32| d as usize)
            &&& m.input_data.data@ == data@
            &&& m.response_tx == response_tx
            &&& is_uuid_v4(m.prediction_id)
        },
{
    match check_model(state, &model_name) {
        Err(e) => Err(e),
        Ok(()) => match dims_from_wire(&shape) {
            Err(e) => Err(PredictError::BadRequest(e)),
            Ok(dims) => {
                proof {
                    assert(dims@ =~= shape@.map_values(|d: i32| d as usize));
                }
                match Tensor::from_shape_vec(dims, data) {
                    Err(e) => Err(PredictError::BadRequest(e)),
                    Ok(input_data) => {
                        let prediction_id = new_prediction_id();
                        Ok(Message { prediction_id, model_name, input_data, response_tx })
                    },
                }
            },
        },
    }
}

/// What a request waiting to be enqueued does next.
#[derive(Clone, Copy, Debug, PartialEq, Eq, Structural)]
pub enum EnqueueStep {
    /// The queue has room: hand the message over.
    Send,
    /// The queue is full and the deadline has not passed: wait for room.
    Wait,
    /// The queue is full past the deadline: answer `QueueFull`.
    Reject,
}

/// The step a request takes with `free_slots` places left in its queue,
/// `elapsed_ms` after it started to wait, with a deadline of `deadline_ms`.
pub open spec fn spec_enqueue_step(free_slots: nat, elapsed_ms: nat, deadline_ms: nat) -> EnqueueStep {
    if free_slots > 0 {
        EnqueueStep::Send
    } else if elapsed_ms >= deadline_ms {
        EnqueueStep::Reject
    } else {
        EnqueueStep::Wait
    }
}

/// Decides whether a request is sent, waits for room, or is turned away.
pub fn enqueue_step(free_slots: usize, elapsed_ms: u64, deadline_ms: u64) -> (r: EnqueueStep)
    ensures
        r == spec_enqueue_step(free_slots as nat, elapsed_ms as nat, deadline_ms as nat),
{
    if free_slots > 0 {
        EnqueueStep::Send
    } else if elapsed_ms >= deadline_ms {
        EnqueueStep::Reject
    } else {
        EnqueueStep::Wait
    }
}

/// The result of an accepted request, from what came back through its reply
/// handle: `None` when the handle was dropped without an answer.
pub fn settle<T>(received: Option<Result<Tensor<T>, PredictError>>) -> (r: Result<
    Tensor<T>,
    PredictError,
>)
    ensures
        received matches Some(x) ==> r == x,
        received is None ==> r matches Err(PredictError::InferenceFailed(_)),
{
    match received {
        Some(x) => x,
        None => Err(PredictError::InferenceFailed(String::from_str("reply handle dropped"))),
    }
}

/// The HTTP response of a request, from what came back through its reply
/// handle.
pub fn respond<T>(
    prediction_id: u128,
    model_name: String,
    received: Option<Result<Tensor<T>, PredictError>>,
) -> (r: Result<InferenceResponse<T>, PredictError>)
    ensures
        r is Ok <==> received matches Some(Ok(_)),
        r matches Ok(resp) ==> resp.prediction_id == prediction_id && resp.model_name
            == model_name && Some(Ok::<Tensor<T>, PredictError>(resp.data)) == received,
        received matches Some(Err(e)) ==> r == Err::<InferenceResponse<T>, PredictError>(e),
        received is None ==> r matches Err(PredictError::InferenceFailed(_)),
{
    match settle(received) {
        Ok(data) => Ok(InferenceResponse { prediction_id, model_name, data }),
        Err(e) => Err(e),
    }
}

/// The gRPC response of a request, from what came back through its reply
/// handle. An output dimension beyond `int32` cannot travel and fails the
/// request.
pub fn respond_wire<T>(
    prediction_id: u128,
    model_name: String,
    received: Option<Result<Tensor<T>, PredictError>>,
) -> (r: Result<WireResponse<T>, PredictError>)
    ensures
        r is Ok <==> (received matches Some(Ok(t)) && dims_fit_wire(t.shape@)),
        r matches Ok(resp) ==> {
            &&& resp.prediction_id == prediction_id
            &&& resp.model_name == model_name
            &&& (received matches Some(Ok(t)) && resp.data@ == t.data@ && resp.shape@.len()
                == t.shape@.len() && forall|i: int|
                0 <= i < t.shape@.len() ==> resp.shape@[i] as int == t.shape@[i] as int)
        },
        received matches Some(Err(e)) ==> r == Err::<WireResponse<T>, PredictError>(e),
        (received matches Some(Ok(t)) && !dims_fit_wire(t.shape@)) ==> r matches Err(
            PredictError::InferenceFailed(_),
        ),
        received is None ==> r matches Err(PredictError::InferenceFailed(_)),
{
    match settle(received) {
        Err(e) => Err(e),
        Ok(t) => match dims_to_wire(&t.shape) {
            Ok(shape) => {
                let Tensor { shape: _, data } = t;
                Ok(WireResponse { model_name, prediction_id, data, shape })
            },
            Err(_) => Err(
                PredictError::InferenceFailed(String::from_str("output dimension exceeds int32")),
            ),
        },
    }
}

/// A request for a model that is not configured is refused as unknown, over
/// either protocol, whatever its tensor: it never becomes a message, so it
/// never reaches a queue.
pub proof fn lemma_unknown_model_refused_first(
    state: SharedState,
    name: Seq<char>,
    shape: Seq<usize>,
    wire_shape: Seq<i32>,
    len: nat,
)
    requires
        !has_model(state.spec_config().models@, name),
    ensures
        admission_error(state, name, shape, len) == Some(PredictError::UnknownModel),
        wire_admission_error(state, name, wire_shape, len) == Some(PredictError::UnknownModel),
        PredictError::UnknownModel.spec_http_status() == 404,
        PredictError::UnknownModel.spec_grpc_code() == GrpcCode::NotFound,
{
}

/// A tensor whose shape does not describe as many elements as it holds is a
/// bad request, over either protocol, once its model is known and ready.
pub proof fn lemma_shape_mismatch_is_bad_request(
    state: SharedState,
    name: Seq<char>,
    shape: Seq<usize>,
    len: nat,
)
    requires
        model_error(state, name) is None,
        shape_product(shape) != len,
    ensures
        admission_error(state, name, shape, len) == Some(
            PredictError::BadRequest(TensorError::ShapeMismatch),
        ),
        PredictError::BadRequest(TensorError::ShapeMismatch).spec_http_status() == 400,
        PredictError::BadRequest(TensorError::ShapeMismatch).spec_grpc_code()
            == GrpcCode::InvalidArgument,
{
}

/// The same request refused or accepted over HTTP is refused with the same
/// error, or accepted, over gRPC, when its shape travels as `int32`.
pub proof fn lemma_wire_parity(
    state: SharedState,
    name: Seq<char>,
    shape: Seq<usize>,
    wire_shape: Seq<i32>,
    len: nat,
)
    requires
        wire_shape.len() == shape.len(),
        forall|i: int| 0 <= i < shape.len() ==> wire_shape[i] as int == shape[i] as int,
    ensures
        wire_admission_error(state, name, wire_shape, len) == admission_error(
            state,
            name,
            shape,
            len,
        ),
{
    assert(wire_shape.map_values(|d: i32| d as usize) =~= shape);
}

/// A queue of depth one that already holds a request makes the next request
/// wait, or refuses it once its deadline has passed; it is never sent.
pub proof fn lemma_single_slot_backpressure(
    buffer_size: nat,
    queued: nat,
    elapsed_ms: nat,
    deadline_ms: nat,
)
    requires
        buffer_size == 1,
        queued == 1,
    ensures
        spec_enqueue_step((buffer_size - queued) as nat, elapsed_ms, deadline_ms)
            != EnqueueStep::Send,
        elapsed_ms < deadline_ms ==> spec_enqueue_step(
            (buffer_size - queued) as nat,
            elapsed_ms,
            deadline_ms,
        ) == EnqueueStep::Wait,
{
}

/// With an enqueue deadline of zero, a request that finds its queue full is
/// refused at once with 503 / `RESOURCE_EXHAUSTED`.
pub proof fn lemma_zero_deadline_rejects(elapsed_ms: nat)
    ensures
        spec_enqueue_step(0, elapsed_ms, 0) == EnqueueStep::Reject,
        PredictError::QueueFull.spec_http_status() == 503,
        PredictError::QueueFull.spec_grpc_code() == GrpcCode::ResourceExhausted,
{
}

/// Waiting for room in a queue ends: once the deadline has passed the
/// request is either sent or refused.
pub proof fn lemma_enqueue_wait_bounded(free_slots: nat, elapsed_ms: nat, deadline_ms: nat)
    requires
        elapsed_ms >= deadline_ms,
    ensures
        spec_enqueue_step(free_slots, elapsed_ms, deadline_ms) != EnqueueStep::Wait,
{
}

} // verus!
