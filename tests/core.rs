use proton::config::{Config, ConfigError, ModelConfig, ServerConfig};
use proton::dispatch::{
    accept, accept_wire, enqueue_step, respond, respond_wire, settle, EnqueueStep,
    InferenceRequest,
};
use proton::error::{GrpcCode, PredictError};
use proton::routes::{get_health, get_models};
use proton::samples::{MaskRCNN, Model, Squeezenet};
use proton::state::{can_advance, SharedState, StateError, WorkerPhase};
use proton::tensor::{dims_from_wire, dims_to_wire, element_count, Tensor, TensorError};
use proton::worker::{InferenceWorker, WorkerEvent};

fn model(name: &str, path: &str) -> ModelConfig {
    ModelConfig { name: name.to_string(), path: path.to_string(), softmax: false }
}

fn config_with(models: Vec<ModelConfig>, buffer_size: usize) -> Config {
    Config {
        log_level: "info".to_string(),
        models,
        server: ServerConfig { num_threads: 1, buffer_size, http_port: 8080, grpc_port: 50051 },
    }
}

fn squeezenet_config() -> Config {
    config_with(vec![model("squeezenet", "squeezenet1.0-8.onnx")], 16)
}

fn bring_up(state: &mut SharedState, cfg: &ModelConfig) {
    let worker = InferenceWorker::new(cfg.clone());
    assert_eq!(worker.record(state, WorkerEvent::LoadStarted), Ok(()));
    assert_eq!(worker.record(state, WorkerEvent::Loaded), Ok(()));
}

fn linspace(n: usize) -> Vec<f32> {
    (0..n).map(|i| i as f32 / (n - 1) as f32).collect()
}

fn is_v4(id: u128) -> bool {
    (id >> 76) & 0xf == 4 && (id >> 62) & 0x3 == 2
}

#[test]
fn tensor_accepts_matching_shape() {
    let t = Tensor::from_shape_vec(vec![2, 3], vec![1.0f32, 2.0, 3.0, 4.0, 5.0, 6.0]).unwrap();
    assert_eq!(t.shape, vec![2, 3]);
    assert_eq!(t.len(), 6);
}

#[test]
fn tensor_with_wrong_length_is_refused() {
    let r = Tensor::from_shape_vec(vec![2, 3], vec![1.0f32; 5]);
    assert!(matches!(r, Err(TensorError::ShapeMismatch)));
}

#[test]
fn empty_shape_is_a_scalar() {
    assert!(Tensor::from_shape_vec(vec![], vec![7.0f32]).is_ok());
    assert!(Tensor::from_shape_vec(vec![], Vec::<f32>::new()).is_err());
}

#[test]
fn zero_dimension_means_no_elements() {
    assert_eq!(element_count(&vec![usize::MAX, 0, 5]), Some(0));
    assert!(Tensor::from_shape_vec(vec![usize::MAX, usize::MAX, 0], Vec::<f32>::new()).is_ok());
}

#[test]
fn overflowing_shape_has_no_count() {
    assert_eq!(element_count(&vec![usize::MAX, 2]), None);
    assert_eq!(element_count(&vec![1, 3, 224, 224]), Some(150528));
}

#[test]
fn wire_dims_round_trip() {
    assert_eq!(dims_from_wire(&vec![1, 1000, 1, 1]), Ok(vec![1, 1000, 1, 1]));
    assert_eq!(dims_from_wire(&vec![1, -3]), Err(TensorError::NegativeDimension));
    assert_eq!(dims_to_wire(&vec![1, 1000, 1, 1]), Ok(vec![1, 1000, 1, 1]));
    assert_eq!(dims_to_wire(&vec![1usize << 31]), Err(TensorError::DimensionTooLarge));
}

#[test]
fn valid_config_passes() {
    assert_eq!(squeezenet_config().validate(), Ok(()));
}

#[test]
fn config_errors_in_order() {
    let c = config_with(vec![model("", "a.onnx")], 0);
    assert_eq!(c.validate(), Err(ConfigError::EmptyModelName));
    let c = config_with(vec![model("a", "a.onnx"), model("a", "b.onnx")], 1);
    assert_eq!(c.validate(), Err(ConfigError::DuplicateModelName));
    let mut c = squeezenet_config();
    c.server.grpc_port = c.server.http_port;
    assert_eq!(c.validate(), Err(ConfigError::SamePorts));
    let c = config_with(vec![model("a", "a.onnx")], 0);
    assert_eq!(c.validate(), Err(ConfigError::ZeroBufferSize));
    let mut c = squeezenet_config();
    c.server.num_threads = 0;
    assert_eq!(c.validate(), Err(ConfigError::InvalidThreadCount));
}

#[test]
fn find_model_by_name() {
    let c = config_with(vec![model("a", "a.onnx"), model("b", "b.onnx")], 1);
    assert_eq!(c.find_model(&"b".to_string()), Some(1));
    assert_eq!(c.find_model(&"c".to_string()), None);
    assert_eq!(c.model_names(), vec!["a".to_string(), "b".to_string()]);
}

#[test]
fn not_ready_before_load() {
    let state = SharedState::new(squeezenet_config());
    assert_eq!(state.phase(&"squeezenet".to_string()), Some(WorkerPhase::Created));
    assert!(!get_health(&state).healthy);
    assert!(!state.is_ready(&"squeezenet".to_string()));
}

#[test]
fn ready_after_load() {
    let cfg = squeezenet_config();
    let mut state = SharedState::new(cfg.clone());
    bring_up(&mut state, &cfg.models[0]);
    assert!(get_health(&state).healthy);
    assert!(state.is_ready(&"squeezenet".to_string()));
    assert!(!state.is_ready(&"missing".to_string()));
}

#[test]
fn no_models_is_healthy() {
    let state = SharedState::new(config_with(vec![], 1));
    assert!(get_health(&state).healthy);
}

#[test]
fn life_cycle_moves_forward_only() {
    let cfg = squeezenet_config();
    let mut state = SharedState::new(cfg.clone());
    let name = "squeezenet".to_string();
    assert_eq!(state.advance(&name, WorkerPhase::Ready), Err(StateError::IllegalTransition));
    assert_eq!(state.advance(&"x".to_string(), WorkerPhase::Loading), Err(StateError::UnknownModel));
    assert_eq!(state.advance(&name, WorkerPhase::Loading), Ok(()));
    assert_eq!(state.advance(&name, WorkerPhase::Failed), Ok(()));
    assert_eq!(state.advance(&name, WorkerPhase::Ready), Err(StateError::IllegalTransition));
    assert_eq!(state.phase(&name), Some(WorkerPhase::Failed));
    assert!(can_advance(WorkerPhase::Ready, WorkerPhase::Draining));
    assert!(can_advance(WorkerPhase::Draining, WorkerPhase::Stopped));
    assert!(!can_advance(WorkerPhase::Stopped, WorkerPhase::Ready));
}

#[test]
fn worker_drains_then_stops() {
    let cfg = squeezenet_config();
    let mut state = SharedState::new(cfg.clone());
    let worker = InferenceWorker::new(cfg.models[0].clone());
    assert_eq!(worker.record(&mut state, WorkerEvent::QueueClosed), Err(StateError::IllegalTransition));
    bring_up(&mut state, &cfg.models[0]);
    assert_eq!(worker.record(&mut state, WorkerEvent::QueueClosed), Ok(()));
    assert!(!get_health(&state).healthy);
    assert_eq!(worker.record(&mut state, WorkerEvent::Drained), Ok(()));
    assert_eq!(state.phase(&"squeezenet".to_string()), Some(WorkerPhase::Stopped));
}

#[test]
fn unknown_model_is_404() {
    let cfg = squeezenet_config();
    let mut state = SharedState::new(cfg.clone());
    bring_up(&mut state, &cfg.models[0]);
    let request = InferenceRequest {
        model_name: "missing".to_string(),
        data: Tensor { shape: vec![1, 2], data: vec![0.0f32; 3] },
    };
    let err = accept(&state, request, ()).err().unwrap();
    assert_eq!(err, PredictError::UnknownModel);
    assert_eq!(err.http_status(), 404);
    assert_eq!(err.grpc_code(), GrpcCode::NotFound);
}

#[test]
fn not_ready_model_is_503() {
    let state = SharedState::new(squeezenet_config());
    let request = InferenceRequest {
        model_name: "squeezenet".to_string(),
        data: Tensor { shape: vec![2], data: vec![0.0f32; 2] },
    };
    let err = accept(&state, request, ()).err().unwrap();
    assert_eq!(err, PredictError::NotReady);
    assert_eq!(err.http_status(), 503);
    assert_eq!(err.grpc_code(), GrpcCode::Unavailable);
}

#[test]
fn shape_mismatch_is_400() {
    let cfg = squeezenet_config();
    let mut state = SharedState::new(cfg.clone());
    bring_up(&mut state, &cfg.models[0]);
    let request = InferenceRequest {
        model_name: "squeezenet".to_string(),
        data: Tensor { shape: vec![1, 3, 224, 224], data: vec![0.0f32; 100] },
    };
    let err = accept(&state, request, ()).err().unwrap();
    assert_eq!(err, PredictError::BadRequest(TensorError::ShapeMismatch));
    assert_eq!(err.http_status(), 400);
    assert_eq!(err.grpc_code(), GrpcCode::InvalidArgument);
}

#[test]
fn happy_path_classification() {
    let cfg = squeezenet_config();
    let mut state = SharedState::new(cfg.clone());
    bring_up(&mut state, &cfg.models[0]);
    let data = linspace(150528);
    let request = InferenceRequest {
        model_name: "squeezenet".to_string(),
        data: Tensor { shape: vec![1, 3, 224, 224], data: data.clone() },
    };
    let msg = accept(&state, request, 7u8).ok().unwrap();
    assert!(is_v4(msg.prediction_id));
    assert_eq!(msg.model_name, "squeezenet");
    assert_eq!(msg.input_data.shape, vec![1, 3, 224, 224]);
    assert_eq!(msg.input_data.data, data);
    assert_eq!(msg.response_tx, 7u8);
    let id = msg.prediction_id;
    let worker = InferenceWorker::new(cfg.models[0].clone());
    assert_eq!(worker.refusal(&state, &msg.model_name), None);
    let output = (vec![1usize, 1000, 1, 1], vec![0.001f32; 1000]);
    let (handle, reply) = worker.complete(msg, Ok(output));
    assert_eq!(handle, 7u8);
    let resp = respond(id, "squeezenet".to_string(), Some(reply)).ok().unwrap();
    assert_eq!(resp.prediction_id, id);
    assert_eq!(resp.data.shape, vec![1, 1000, 1, 1]);
}

#[test]
fn prediction_ids_differ() {
    let cfg = squeezenet_config();
    let mut state = SharedState::new(cfg.clone());
    bring_up(&mut state, &cfg.models[0]);
    let make = || InferenceRequest {
        model_name: "squeezenet".to_string(),
        data: Tensor { shape: vec![1], data: vec![0.5f32] },
    };
    let a = accept(&state, make(), ()).ok().unwrap();
    let b = accept(&state, make(), ()).ok().unwrap();
    assert_ne!(a.prediction_id, b.prediction_id);
    assert!(is_v4(a.prediction_id) && is_v4(b.prediction_id));
}

#[test]
fn grpc_parity() {
    let cfg = squeezenet_config();
    let mut state = SharedState::new(cfg.clone());
    bring_up(&mut state, &cfg.models[0]);
    let data = linspace(150528);
    let http = accept(
        &state,
        InferenceRequest {
            model_name: "squeezenet".to_string(),
            data: Tensor { shape: vec![1, 3, 224, 224], data: data.clone() },
        },
        (),
    )
    .ok()
    .unwrap();
    let grpc = accept_wire(&state, "squeezenet".to_string(), vec![1, 3, 224, 224], data, ())
        .ok()
        .unwrap();
    assert_eq!(http.input_data.shape, grpc.input_data.shape);
    assert_eq!(http.input_data.data, grpc.input_data.data);
    let out = Tensor::from_shape_vec(vec![1, 1000, 1, 1], vec![0.25f32; 1000]).unwrap();
    let h = respond(1, "squeezenet".to_string(), Some(Ok(Tensor { shape: out.shape.clone(), data: out.data.clone() })))
        .ok()
        .unwrap();
    let g = respond_wire(2, "squeezenet".to_string(), Some(Ok(out))).ok().unwrap();
    assert_eq!(g.shape, vec![1, 1000, 1, 1]);
    assert_eq!(h.data.data, g.data);
    assert_eq!(g.prediction_id, 2);
}

#[test]
fn grpc_negative_dimension_is_invalid_argument() {
    let cfg = squeezenet_config();
    let mut state = SharedState::new(cfg.clone());
    bring_up(&mut state, &cfg.models[0]);
    let err = accept_wire(&state, "squeezenet".to_string(), vec![-1, 2], vec![0.0f32; 2], ())
        .err()
        .unwrap();
    assert_eq!(err, PredictError::BadRequest(TensorError::NegativeDimension));
    assert_eq!(err.grpc_code(), GrpcCode::InvalidArgument);
    let err = accept_wire(&state, "other".to_string(), vec![-1], vec![0.0f32], ()).err().unwrap();
    assert_eq!(err, PredictError::UnknownModel);
}

#[test]
fn backpressure_with_single_slot() {
    // Ten requests race for a queue of depth one whose worker is busy: the
    // first takes the slot, the others find it full until their deadline.
    let buffer_size: usize = 1;
    let deadline_ms: u64 = 100;
    let mut queued: usize = 0;
    let mut refused = 0;
    for _ in 0..10 {
        let mut elapsed_ms: u64 = 0;
        loop {
            match enqueue_step(buffer_size - queued, elapsed_ms, deadline_ms) {
                EnqueueStep::Send => {
                    queued += 1;
                    break;
                }
                EnqueueStep::Wait => elapsed_ms += 10,
                EnqueueStep::Reject => {
                    refused += 1;
                    assert_eq!(PredictError::QueueFull.http_status(), 503);
                    break;
                }
            }
        }
    }
    assert_eq!(queued, 1);
    assert!(refused >= 8);
    assert_eq!(enqueue_step(0, 0, 100), EnqueueStep::Wait);
}

#[test]
fn zero_deadline_rejects_at_once() {
    assert_eq!(enqueue_step(0, 0, 0), EnqueueStep::Reject);
    assert_eq!(enqueue_step(1, 0, 0), EnqueueStep::Send);
    assert_eq!(PredictError::QueueFull.grpc_code(), GrpcCode::ResourceExhausted);
}

#[test]
fn worker_isolation() {
    let cfg = config_with(vec![model("a", "broken.onnx"), model("b", "b.onnx")], 4);
    let mut state = SharedState::new(cfg.clone());
    let a = InferenceWorker::new(cfg.models[0].clone());
    assert_eq!(a.record(&mut state, WorkerEvent::LoadStarted), Ok(()));
    assert_eq!(a.record(&mut state, WorkerEvent::LoadFailed), Ok(()));
    bring_up(&mut state, &cfg.models[1]);
    assert!(!get_health(&state).healthy);
    let req = |name: &str| InferenceRequest {
        model_name: name.to_string(),
        data: Tensor { shape: vec![2], data: vec![1.0f32, 2.0] },
    };
    assert!(accept(&state, req("b"), ()).is_ok());
    let err = accept(&state, req("a"), ()).err().unwrap();
    assert_eq!(err.http_status(), 503);
}

#[test]
fn refusal_of_misrouted_or_unready() {
    let cfg = config_with(vec![model("a", "a.onnx"), model("b", "b.onnx")], 4);
    let mut state = SharedState::new(cfg.clone());
    let a = InferenceWorker::new(cfg.models[0].clone());
    assert_eq!(a.refusal(&state, &"a".to_string()), Some(PredictError::NotReady));
    bring_up(&mut state, &cfg.models[0]);
    assert_eq!(a.refusal(&state, &"a".to_string()), None);
    assert!(matches!(a.refusal(&state, &"b".to_string()), Some(PredictError::InferenceFailed(_))));
}

#[test]
fn worker_reply_on_failure() {
    let cfg = squeezenet_config();
    let worker = InferenceWorker::new(cfg.models[0].clone());
    let state = {
        let mut s = SharedState::new(cfg.clone());
        bring_up(&mut s, &cfg.models[0]);
        s
    };
    let req = || InferenceRequest {
        model_name: "squeezenet".to_string(),
        data: Tensor { shape: vec![1], data: vec![0.0f32] },
    };
    let msg = accept(&state, req(), 1u8).ok().unwrap();
    let (_, reply) = worker.complete(msg, Err("runtime error".to_string()));
    assert_eq!(reply.err().unwrap(), PredictError::InferenceFailed("runtime error".to_string()));
    let msg = accept(&state, req(), 2u8).ok().unwrap();
    let (h, reply) = worker.complete(msg, Ok((vec![2usize, 2], vec![0.0f32; 3])));
    assert_eq!(h, 2u8);
    assert!(matches!(reply, Err(PredictError::InferenceFailed(_))));
}

#[test]
fn dropped_reply_is_inference_failure() {
    let r = settle::<f32>(None);
    let err = r.err().unwrap();
    assert!(matches!(err, PredictError::InferenceFailed(_)));
    assert_eq!(err.http_status(), 502);
    assert_eq!(err.grpc_code(), GrpcCode::Internal);
    assert!(respond::<f32>(1, "m".to_string(), None).is_err());
    let e = respond::<f32>(1, "m".to_string(), Some(Err(PredictError::WorkerGone))).err().unwrap();
    assert_eq!(e, PredictError::WorkerGone);
    assert_eq!(e.http_status(), 502);
}

#[test]
fn oversized_output_dimension_fails_grpc() {
    let t = Tensor { shape: vec![1usize << 31, 0], data: Vec::<f32>::new() };
    let r = respond_wire(1, "m".to_string(), Some(Ok(t)));
    assert!(matches!(r, Err(PredictError::InferenceFailed(_))));
}

#[test]
fn models_listing() {
    let cfg = config_with(vec![model("squeezenet", "s.onnx"), model("maskrcnn", "m.onnx")], 2);
    let state = SharedState::new(cfg);
    let listed: Vec<String> = get_models(&state).models.into_iter().map(|m| m.name).collect();
    assert_eq!(listed, vec!["squeezenet".to_string(), "maskrcnn".to_string()]);
}

#[test]
fn sample_models() {
    let s = Squeezenet::new();
    assert_eq!(s.name(), "squeezenet");
    assert_eq!(s.input_shape(), vec![1, 3, 224, 224]);
    assert_eq!(s.file(), "squeezenet1.0-8.onnx");
    let m = MaskRCNN::new();
    assert_eq!(m.name(), "maskrcnn");
    assert_eq!(m.input_shape(), vec![3, 224, 224]);
    assert_eq!(m.file(), "MaskRCNN-10.onnx");
}
