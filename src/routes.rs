//! Bodies of the HTTP endpoints that report on the server itself.
use vstd::prelude::*;

use crate::state::SharedState;

verus! {

/// Body of `/ready`.
#[derive(Clone, Copy, Debug, PartialEq, Eq, Structural)]
pub struct ReadyResponse {
    pub healthy: bool,
}

/// One entry of `/models`.
#[derive(Clone, Debug)]
pub struct Model {
    pub name: String,
}

/// Body of `/models`.
#[derive(Clone, Debug)]
pub struct ModelsResponse {
    pub models: Vec<Model>,
}

/// `/models`: the configured model names, in configuration order.
pub fn get_models(state: &SharedState) -> (r: ModelsResponse)
    requires
        state.wf(),
    ensures
        r.models@.len() == state.spec_config().models@.len(),
        forall|i: int|
            0 <= i < r.models@.len() ==> r.models@[i].name@
                == state.spec_config().models@[i].name@,
{
    let names = state.config().model_names();
    let mut models: Vec<Model> = Vec::new();
    let mut i: usize = 0;
    while i < names.len()
        invariant
            names@.len() == state.spec_config().models@.len(),
            forall|k: int| 0 <= k < names@.len() ==> names@[k]@ == state.spec_config().models@[k].name@,
            i <= names@.len(),
            models@.len() == i,
            forall|k: int| 0 <= k < i ==> models@[k].name@ == state.spec_config().models@[k].name@,
        decreases names@.len() - i,
    {
        models.push(Model { name: names[i].clone() });
        i = i + 1;
    }
    ModelsResponse { models }
}

/// `/ready`: healthy exactly when every configured model's worker is ready.
pub fn get_health(state: &SharedState) -> (r: ReadyResponse)
    requires
        state.wf(),
    ensures
        r.healthy == state.all_ready(),
{
    ReadyResponse { healthy: state.healthy() }
}

} // verus!
