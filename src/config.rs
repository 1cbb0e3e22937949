//! Server configuration and its validation.
use vstd::prelude::*;

verus! {

/// One model to serve: its unique name and the path of its artifact.
#[derive(Clone, Debug)]
pub struct ModelConfig {
    pub name: String,
    pub path: String,
    /// Apply a softmax over the class axis of the first output.
    pub softmax: bool,
}

/// Network and execution settings.
#[derive(Clone, Debug)]
pub struct ServerConfig {
    /// Intra-op threads per inference session.
    pub num_threads: i16,
    /// Depth of each model's request queue.
    pub buffer_size: usize,
    pub http_port: u16,
    pub grpc_port: u16,
}

/// The whole configuration, immutable once loaded.
#[derive(Clone, Debug)]
pub struct Config {
    pub log_level: String,
    pub models: Vec<ModelConfig>,
    pub server: ServerConfig,
}

/// The first rule that a configuration breaks.
#[derive(Clone, Copy, Debug, PartialEq, Eq, Structural)]
pub enum ConfigError {
    /// A model has an empty name.
    EmptyModelName,
    /// Two models share a name.
    DuplicateModelName,
    /// The HTTP and gRPC servers would bind the same port.
    SamePorts,
    /// Queues must hold at least one request.
    ZeroBufferSize,
    /// Sessions need at least one thread.
    InvalidThreadCount,
}

/// Every model has a non-empty name.
pub open spec fn names_nonempty(models: Seq<ModelConfig>) -> bool {
    forall|i: int| 0 <= i < models.len() ==> models[i].name@.len() > 0
}

/// No two models share a name.
pub open spec fn names_unique(models: Seq<ModelConfig>) -> bool {
    forall|i: int, j: int|
        0 <= i < models.len() && 0 <= j < models.len() && i != j ==> models[i].name@
            != models[j].name@
}

/// The first rule that `c` breaks, checked in a fixed order, or `None` when
/// it is valid.
pub open spec fn config_error(c: Config) -> Option<ConfigError> {
    if !names_nonempty(c.models@) {
        Some(ConfigError::EmptyModelName)
    } else if !names_unique(c.models@) {
        Some(ConfigError::DuplicateModelName)
    } else if c.server.http_port == c.server.grpc_port {
        Some(ConfigError::SamePorts)
    } else if c.server.buffer_size == 0 {
        Some(ConfigError::ZeroBufferSize)
    } else if c.server.num_threads < 1 {
        Some(ConfigError::InvalidThreadCount)
    } else {
        None
    }
}

/// A model named `name` is configured.
pub open spec fn has_model(models: Seq<ModelConfig>, name: Seq<char>) -> bool {
    exists|i: int| 0 <= i < models.len() && models[i].name@ == name
}

impl Config {
    /// The configuration breaks no rule.
    pub open spec fn valid(&self) -> bool {
        config_error(*self) is None
    }

    /// Checks the configuration and reports the first rule it breaks.
    pub fn validate(&self) -> (r: Result<(), ConfigError>)
        ensures
            r == (match config_error(*self) {
                None => Ok(()),
                Some(e) => Err(e),
            }),
    {
        let n = self.models.len();
        let mut i: usize = 0;
        while i < n
            invariant
                n == self.models@.len(),
                i <= n,
                forall|k: int| 0 <= k < i ==> self.models@[k].name@.len() > 0,
            decreases n - i,
        {
            if self.models[i].name.as_str().is_empty() {
                return Err(ConfigError::EmptyModelName);
            }
            i = i + 1;
        }
        let mut a: usize = 0;
        while a < n
            invariant
                n == self.models@.len(),
                a <= n,
                names_nonempty(self.models@),
                forall|x: int, y: int|
                    0 <= x < a && 0 <= y < n && x != y ==> self.models@[x].name@
                        != self.models@[y].name@,
            decreases n - a,
        {
            let mut b: usize = 0;
            while b < n
                invariant
                    n == self.models@.len(),
                    a < n,
                    b <= n,
                    names_nonempty(self.models@),
                    forall|x: int, y: int|
                        0 <= x < a && 0 <= y < n && x != y ==> self.models@[x].name@
                            != self.models@[y].name@,
                    forall|y: int| 0 <= y < b && a != y ==> self.models@[a as int].name@
                        != self.models@[y].name@,
                decreases n - b,
            {
                if a != b && self.models[a].name == self.models[b].name {
                    return Err(ConfigError::DuplicateModelName);
                }
                b = b + 1;
            }
            a = a + 1;
        }
        if self.server.http_port == self.server.grpc_port {
            return Err(ConfigError::SamePorts);
        }
        if self.server.buffer_size == 0 {
            return Err(ConfigError::ZeroBufferSize);
        }
        if self.server.num_threads < 1 {
            return Err(ConfigError::InvalidThreadCount);
        }
        Ok(())
    }

    /// Position of the first model named `name`, if any.
    pub fn find_model(&self, name: &String) -> (r: Option<usize>)
        ensures
            r is Some <==> has_model(self.models@, name@),
            r matches Some(i) ==> i < self.models@.len() && self.models@[i as int].name@ == name@
                && forall|j: int| 0 <= j < i ==> self.models@[j].name@ != name@,
    {
        let mut i: usize = 0;
        while i < self.models.len()
            invariant
                i <= self.models@.len(),
                forall|j: int| 0 <= j < i ==> self.models@[j].name@ != name@,
            decreases self.models@.len() - i,
        {
            if self.models[i].name == *name {
                return Some(i);
            }
            i = i + 1;
        }
        None
    }

    /// The names of the configured models, in configuration order.
    pub fn model_names(&self) -> (r: Vec<String>)
        ensures
            r@.len() == self.models@.len(),
            forall|i: int| 0 <= i < r@.len() ==> r@[i]@ == self.models@[i].name@,
    {
        let mut out: Vec<String> = Vec::new();
        let mut i: usize = 0;
        while i < self.models.len()
            invariant
                i <= self.models@.len(),
                out@.len() == i,
                forall|k: int| 0 <= k < i ==> out@[k]@ == self.models@[k].name@,
            decreases self.models@.len() - i,
        {
            out.push(self.models[i].name.clone());
            i = i + 1;
        }
        out
    }
}

} // verus!
