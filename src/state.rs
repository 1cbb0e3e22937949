//! Process-wide state: the configuration and each model's worker phase.
use vstd::prelude::*;

use crate::config::{has_model, Config};

verus! {

/// Life cycle of a model's worker. Transitions only move forward; `Failed`
/// is reachable from `Loading` alone.
#[derive(Clone, Copy, Debug, PartialEq, Eq, Structural)]
pub enum WorkerPhase {
    Created,
    Loading,
    Ready,
    Draining,
    Stopped,
    Failed,
}

/// The single-step transitions of a worker's life cycle.
pub open spec fn phase_step(from: WorkerPhase, to: WorkerPhase) -> bool {
    match (from, to) {
        (WorkerPhase::Created, WorkerPhase::Loading) => true,
        (WorkerPhase::Loading, WorkerPhase::Ready) => true,
        (WorkerPhase::Loading, WorkerPhase::Failed) => true,
        (WorkerPhase::Ready, WorkerPhase::Draining) => true,
        (WorkerPhase::Draining, WorkerPhase::Stopped) => true,
        _ => false,
    }
}

/// Whether a worker may move from `from` to `to` in one step.
pub fn can_advance(from: WorkerPhase, to: WorkerPhase) -> (r: bool)
    ensures
        r == phase_step(from, to),
{
    match (from, to) {
        (WorkerPhase::Created, WorkerPhase::Loading) => true,
        (WorkerPhase::Loading, WorkerPhase::Ready) => true,
        (WorkerPhase::Loading, WorkerPhase::Failed) => true,
        (WorkerPhase::Ready, WorkerPhase::Draining) => true,
        (WorkerPhase::Draining, WorkerPhase::Stopped) => true,
        _ => false,
    }
}

/// Why a phase change was refused.
#[derive(Clone, Copy, Debug, PartialEq, Eq, Structural)]
pub enum StateError {
    /// No model of that name is configured.
    UnknownModel,
    /// The change is not a step of the life cycle.
    IllegalTransition,
}

/// Position of the model named `name` in `phases`-order, where configured.
pub open spec fn index_of(c: Config, name: Seq<char>) -> int
    recommends
        has_model(c.models@, name),
{
    choose|i: int| 0 <= i < c.models@.len() && c.models@[i].name@ == name
}

/// Configuration snapshot and per-model worker phases, shared by the front
/// ends and the workers. The set of models never changes after construction.
pub struct SharedState {
    config: Config,
    phases: Vec<WorkerPhase>,
}

impl SharedState {
    /// The configuration the state was built from.
    pub closed spec fn spec_config(&self) -> Config {
        self.config
    }

    /// Phase of each configured model, in configuration order.
    pub closed spec fn phases(&self) -> Seq<WorkerPhase> {
        self.phases@
    }

    /// One phase per configured model, and the configuration is valid.
    pub open spec fn wf(&self) -> bool {
        &&& self.spec_config().valid()
        &&& self.phases().len() == self.spec_config().models@.len()
    }

    /// The phase of the model named `name`, where configured.
    pub open spec fn phase_of(&self, name: Seq<char>) -> Option<WorkerPhase> {
        if has_model(self.spec_config().models@, name) {
            Some(self.phases()[index_of(self.spec_config(), name)])
        } else {
            None
        }
    }

    /// The model named `name` is configured and its worker is ready.
    pub open spec fn model_ready(&self, name: Seq<char>) -> bool {
        self.phase_of(name) == Some(WorkerPhase::Ready)
    }

    /// Every configured model's worker is ready.
    pub open spec fn all_ready(&self) -> bool {
        forall|i: int| 0 <= i < self.phases().len() ==> self.phases()[i] == WorkerPhase::Ready
    }

    /// The configuration the state was built from.
    pub fn config(&self) -> (r: &Config)
        ensures
            *r == self.spec_config(),
    {
        &self.config
    }

    /// State for `config` in which no worker has started yet.
    pub fn new(config: Config) -> (r: SharedState)
        requires
            config.valid(),
        ensures
            r.wf(),
            r.spec_config() == config,
            forall|i: int| 0 <= i < r.phases().len() ==> r.phases()[i] == WorkerPhase::Created,
    {
        let mut phases: Vec<WorkerPhase> = Vec::new();
        let mut i: usize = 0;
        while i < config.models.len()
            invariant
                i <= config.models@.len(),
                phases@.len() == i,
                forall|k: int| 0 <= k < i ==> phases@[k] == WorkerPhase::Created,
            decreases config.models@.len() - i,
        {
            phases.push(WorkerPhase::Created);
            i = i + 1;
        }
        SharedState { config, phases }
    }

    proof fn lemma_index_unique(&self, name: Seq<char>, i: int)
        requires
            self.wf(),
            0 <= i < self.spec_config().models@.len(),
            self.spec_config().models@[i].name@ == name,
        ensures
            has_model(self.spec_config().models@, name),
            index_of(self.spec_config(), name) == i,
    {
        let j = index_of(self.spec_config(), name);
        assert(0 <= j < self.config.models@.len() && self.config.models@[j].name@ == name);
    }

    /// The phase of the model named `name`, or `None` for an unknown name.
    pub fn phase(&self, name: &String) -> (r: Option<WorkerPhase>)
        requires
            self.wf(),
        ensures
            r == self.phase_of(name@),
    {
        match self.config.find_model(name) {
            Some(i) => {
                proof {
                    self.lemma_index_unique(name@, i as int);
                }
                Some(self.phases[i])
            },
            None => None,
        }
    }

    /// Whether the model named `name` is ready; `false` for an unknown name.
    pub fn is_ready(&self, name: &String) -> (r: bool)
        requires
            self.wf(),
        ensures
            r == self.model_ready(name@),
    {
        match self.phase(name) {
            Some(p) => p == WorkerPhase::Ready,
            None => false,
        }
    }

    /// Aggregate readiness: every configured model's worker is ready.
    pub fn healthy(&self) -> (r: bool)
        requires
            self.wf(),
        ensures
            r == self.all_ready(),
    {
        let mut i: usize = 0;
        while i < self.phases.len()
            invariant
                i <= self.phases@.len(),
                forall|k: int| 0 <= k < i ==> self.phases@[k] == WorkerPhase::Ready,
            decreases self.phases@.len() - i,
        {
            if self.phases[i] != WorkerPhase::Ready {
                return false;
            }
            i = i + 1;
        }
        true
    }

    /// Moves the worker of the model named `name` to phase `to`, where that
    /// is one step of its life cycle; otherwise leaves the state unchanged.
    pub fn advance(&mut self, name: &String, to: WorkerPhase) -> (r: Result<(), StateError>)
        requires
            old(self).wf(),
        ensures
            final(self).wf(),
            final(self).spec_config() == old(self).spec_config(),
            !has_model(old(self).spec_config().models@, name@) ==> r == Err::<(), StateError>(
                StateError::UnknownModel),
            has_model(old(self).spec_config().models@, name@) && !phase_step(
                old(self).phase_of(name@)->Some_0,
                to,
            ) ==> r == Err::<(), StateError>(StateError::IllegalTransition),
            r is Ok <==> has_model(old(self).spec_config().models@, name@) && phase_step(
                old(self).phase_of(name@)->Some_0,
                to,
            ),
            r is Ok ==> final(self).phases() == old(self).phases().update(
                index_of(old(self).spec_config(), name@),
                to,
            ),
            r is Err ==> final(self).phases() == old(self).phases(),
    {
        match self.config.find_model(name) {
            Some(i) => {
                proof {
                    self.lemma_index_unique(name@, i as int);
                }
                if can_advance(self.phases[i], to) {
                    self.phases.set(i, to);
                    Ok(())
                } else {
                    Err(StateError::IllegalTransition)
                }
            },
            None => Err(StateError::UnknownModel),
        }
    }
}

/// A worker becomes ready only by finishing its load, a failed load is
/// final, and failure comes only from loading. With `get_health`, which is
/// healthy exactly when every phase is `Ready`, readiness therefore means
/// that every model has loaded and none has failed.
pub proof fn lemma_ready_only_after_loading(from: WorkerPhase, to: WorkerPhase)
    ensures
        phase_step(from, WorkerPhase::Ready) <==> from == WorkerPhase::Loading,
        phase_step(from, WorkerPhase::Failed) <==> from == WorkerPhase::Loading,
        !phase_step(WorkerPhase::Failed, to),
{
}

} // verus!
