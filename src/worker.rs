//! Inference workers: the messages they serve and their life cycle.
use vstd::prelude::*;

use crate::config::{has_model, ModelConfig};
use crate::error::PredictError;
use crate::state::{index_of, phase_step, SharedState, StateError, WorkerPhase};
use crate::tensor::{shape_product, Tensor};

verus! {

/// One request on its way to a model's worker. `response_tx` is the
/// single-use handle through which the worker answers.
pub struct Message<T, R> {
    pub prediction_id: u128,
    pub model_name: String,
    pub input_data: Tensor<T>,
    pub response_tx: R,
}

/// What a worker observes about its own progress.
#[derive(Clone, Copy, Debug, PartialEq, Eq, Structural)]
pub enum WorkerEvent {
    /// The session starts loading.
    LoadStarted,
    /// The session has loaded.
    Loaded,
    /// The session could not be loaded.
    LoadFailed,
    /// The queue was closed; already received requests are finished.
    QueueClosed,
    /// Every received request has been answered.
    Drained,
}

/// The phase that an event leads to.
pub open spec fn event_phase(e: WorkerEvent) -> WorkerPhase {
    match e {
        WorkerEvent::LoadStarted => WorkerPhase::Loading,
        WorkerEvent::Loaded => WorkerPhase::Ready,
        WorkerEvent::LoadFailed => WorkerPhase::Failed,
        WorkerEvent::QueueClosed => WorkerPhase::Draining,
        WorkerEvent::Drained => WorkerPhase::Stopped,
    }
}

/// Owner of one model's session; serves that model's queue alone.
pub struct InferenceWorker {
    pub config: ModelConfig,
}

impl InferenceWorker {
    /// A worker for `config`. Nothing is loaded yet.
    pub fn new(config: ModelConfig) -> (r: InferenceWorker)
        ensures
            r.config == config,
    {
        InferenceWorker { config }
    }

    /// Publishes the phase that `event` leads to for this worker's model,
    /// where that is one step of the life cycle; otherwise changes nothing.
    pub fn record(&self, state: &mut SharedState, event: WorkerEvent) -> (r: Result<
        (),
        StateError,
    >)
        requires
            old(state).wf(),
        ensures
            final(state).wf(),
            final(state).spec_config() == old(state).spec_config(),
            r is Ok <==> has_model(old(state).spec_config().models@, self.config.name@)
                && phase_step(old(state).phase_of(self.config.name@)->Some_0, event_phase(event)),
            !has_model(old(state).spec_config().models@, self.config.name@) ==> r == Err::<
                (),
                StateError,
            >(StateError::UnknownModel),
            r is Ok ==> final(state).phases() == old(state).phases().update(
                index_of(old(state).spec_config(), self.config.name@),
                event_phase(event),
            ),
            r is Ok ==> final(state).phase_of(self.config.name@) == Some(event_phase(event)),
            r is Err ==> final(state).phases() == old(state).phases(),
    {
        let to = match event {
            WorkerEvent::LoadStarted => WorkerPhase::Loading,
            WorkerEvent::Loaded => WorkerPhase::Ready,
            WorkerEvent::LoadFailed => WorkerPhase::Failed,
            WorkerEvent::QueueClosed => WorkerPhase::Draining,
            WorkerEvent::Drained => WorkerPhase::Stopped,
        };
        state.advance(&self.config.name, to)
    }

    /// Decides whether a received request may run: it must name this
    /// worker's model, and the model must be ready. Otherwise the failure to
    /// answer with.
    pub fn refusal(&self, state: &SharedState, model_name: &String) -> (r: Option<PredictError>)
        requires
            state.wf(),
        ensures
            r is None <==> model_name@ == self.config.name@ && state.model_ready(
                self.config.name@,
            ),
            model_name@ == self.config.name@ && !state.model_ready(self.config.name@) ==> r
                == Some(PredictError::NotReady),
            model_name@ != self.config.name@ ==> r matches Some(PredictError::InferenceFailed(_)),
    {
        if *model_name != self.config.name {
            return Some(PredictError::InferenceFailed(String::from_str("request for another model")));
        }
        if state.is_ready(&self.config.name) {
            None
        } else {
            Some(PredictError::NotReady)
        }
    }

    /// Turns a request and what the session did with it into the one reply
    /// that its handle must deliver: the session's first output, as a shape
    /// and a row-major buffer, or the runtime's reason for failing. The
    /// handle comes back with the reply.
    pub fn complete<T, R>(
        &self,
        msg: Message<T, R>,
        outcome: Result<(Vec<usize>, Vec<T>), String>,
    ) -> (r: (R, Result<Tensor<T>, PredictError>))
        ensures
            r.0 == msg.response_tx,
            outcome matches Err(reason) ==> r.1 == Err::<Tensor<T>, PredictError>(
                PredictError::InferenceFailed(reason),
            ),
            outcome matches Ok(out) ==> (r.1 is Ok <==> shape_product(out.0@) == out.1@.len()),
            outcome matches Ok(out) ==> (r.1 matches Ok(t) ==> t.shape@ == out.0@ && t.data@
                == out.1@),
            outcome matches Ok(out) ==> (r.1 matches Err(e) ==> e is InferenceFailed),
    {
        let reply = match outcome {
            Err(reason) => Err(PredictError::InferenceFailed(reason)),
            Ok((shape, data)) => match Tensor::from_shape_vec(shape, data) {
                Ok(t) => Ok(t),
                Err(_) => Err(
                    PredictError::InferenceFailed(
                        String::from_str("output shape does not match its data"),
                    ),
                ),
            },
        };
        (msg.response_tx, reply)
    }
}

} // verus!
