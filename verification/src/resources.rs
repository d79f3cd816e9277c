//! The concurrent resource registry's core: a name-to-state map whose
//! states move from loading to exactly one terminal state and never
//! change again. The host wraps this in a lock, spawns one background
//! loader per registered resource, and hands each loader's outcome
//! back through `resolve`.

use vstd::prelude::*;
use vstd::hash_map::StringHashMap;
use vstd::pervasive::unreached;
use vstd::string::StringExecFns;
use crate::config::Config;
use crate::rendering::Shader;

verus! {

/// A loaded payload: shader words or a validated configuration.
#[derive(Debug)]
pub enum Resource {
    Config(Config),
    Shader(Shader),
}

/// The lifecycle state of one registered resource.
#[derive(Debug)]
pub enum ResourceState {
    Loaded(Resource),
    Loading,
    /// Loading failed, with a human-readable reason.
    Failed(String),
}

impl ResourceState {
    pub fn is_loaded(&self) -> (loaded: bool)
        ensures
            loaded == (self is Loaded),
    {
        if let ResourceState::Loaded(_) = self {
            true
        } else {
            false
        }
    }

    pub fn is_loading(&self) -> (loading: bool)
        ensures
            loading == (self is Loading),
    {
        if let ResourceState::Loading = self {
            true
        } else {
            false
        }
    }

    pub fn is_failed(&self) -> (failed: bool)
        ensures
            failed == (self is Failed),
    {
        if let ResourceState::Failed(_) = self {
            true
        } else {
            false
        }
    }
}

/// A state is terminal when it is no longer loading.
pub open spec fn spec_is_terminal(state: ResourceState) -> bool {
    !(state is Loading)
}

/// Registering puts the name in the loading state, overwriting any
/// prior entry under that name.
pub open spec fn spec_register(
    m: Map<Seq<char>, ResourceState>,
    name: Seq<char>,
) -> Map<Seq<char>, ResourceState> {
    m.insert(name, ResourceState::Loading)
}

/// The terminal state a loader outcome settles into.
pub open spec fn spec_outcome_state(outcome: Result<Resource, String>) -> ResourceState {
    match outcome {
        Ok(resource) => ResourceState::Loaded(resource),
        Err(reason) => ResourceState::Failed(reason),
    }
}

/// Resolving settles a loading entry into the outcome's terminal
/// state; entries that are absent or already terminal stay exactly as
/// they are.
pub open spec fn spec_resolve(
    m: Map<Seq<char>, ResourceState>,
    name: Seq<char>,
    outcome: Result<Resource, String>,
) -> Map<Seq<char>, ResourceState> {
    if m.dom().contains(name) && m[name] is Loading {
        m.insert(name, spec_outcome_state(outcome))
    } else {
        m
    }
}

/// A terminal state survives any single resolve, whatever name and
/// outcome the resolve carries.
pub proof fn lemma_terminal_stable(
    m: Map<Seq<char>, ResourceState>,
    name: Seq<char>,
    outcome: Result<Resource, String>,
    target: Seq<char>,
)
    requires
        m.dom().contains(target),
        spec_is_terminal(m[target]),
    ensures
        spec_resolve(m, name, outcome).dom().contains(target),
        spec_resolve(m, name, outcome)[target] == m[target],
{
}

/// Registering one resource never disturbs another: a state survives
/// any registration under a different name. Only re-registering the
/// same name starts its lifecycle over.
pub proof fn lemma_register_keeps_other_states(
    m: Map<Seq<char>, ResourceState>,
    name: Seq<char>,
    target: Seq<char>,
)
    requires
        name != target,
        m.dom().contains(target),
    ensures
        spec_register(m, name).dom().contains(target),
        spec_register(m, name)[target] == m[target],
{
}

/// One operation on the registry: a registration or a loader outcome.
pub ghost enum StoreOp {
    Register { name: Seq<char> },
    Resolve { name: Seq<char>, outcome: Result<Resource, String> },
}

/// What one operation does to the registry.
pub open spec fn spec_apply_op(
    m: Map<Seq<char>, ResourceState>,
    op: StoreOp,
) -> Map<Seq<char>, ResourceState> {
    match op {
        StoreOp::Register { name } => spec_register(m, name),
        StoreOp::Resolve { name, outcome } => spec_resolve(m, name, outcome),
    }
}

/// Operations applied in order, oldest first.
pub open spec fn spec_apply_ops(
    m: Map<Seq<char>, ResourceState>,
    ops: Seq<StoreOp>,
) -> Map<Seq<char>, ResourceState>
    decreases ops,
{
    if ops.len() == 0 {
        m
    } else {
        spec_apply_op(spec_apply_ops(m, ops.drop_last()), ops.last())
    }
}

/// Whether the operation registers the given name anew.
pub open spec fn spec_op_registers(op: StoreOp, name: Seq<char>) -> bool {
    match op {
        StoreOp::Register { name: registered } => registered == name,
        StoreOp::Resolve { .. } => false,
    }
}

/// A resource holds its terminal state forever: once an entry is
/// terminal, no sequence of registrations and resolves — on any names
/// — changes it, as long as the entry's own name is not registered
/// anew. Reads never change anything, so repeated reads keep
/// returning the same value.
pub proof fn lemma_terminal_state_holds_forever(
    m: Map<Seq<char>, ResourceState>,
    ops: Seq<StoreOp>,
    target: Seq<char>,
)
    requires
        m.dom().contains(target),
        spec_is_terminal(m[target]),
        forall|i: int| 0 <= i < ops.len() ==> !spec_op_registers(#[trigger] ops[i], target),
    ensures
        spec_apply_ops(m, ops).dom().contains(target),
        spec_apply_ops(m, ops)[target] == m[target],
    decreases ops,
{
    if ops.len() > 0 {
        lemma_terminal_state_holds_forever(m, ops.drop_last(), target);
        let settled = spec_apply_ops(m, ops.drop_last());
        assert(!spec_op_registers(ops.last(), target));
        match ops.last() {
            StoreOp::Register { name } => {
                lemma_register_keeps_other_states(settled, name, target);
            },
            StoreOp::Resolve { name, outcome } => {
                lemma_terminal_stable(settled, name, outcome, target);
            },
        }
    }
}

/// A loading resource reaches a terminal state through exactly one
/// resolve of its name, and the state it reaches is the outcome's.
pub proof fn lemma_resolve_reaches_terminal(
    m: Map<Seq<char>, ResourceState>,
    name: Seq<char>,
    outcome: Result<Resource, String>,
)
    requires
        m.dom().contains(name),
        m[name] is Loading,
    ensures
        spec_resolve(m, name, outcome).dom().contains(name),
        spec_resolve(m, name, outcome)[name] == spec_outcome_state(outcome),
        spec_is_terminal(spec_resolve(m, name, outcome)[name]),
{
}

/// The name-to-state registry.
pub struct ResourcesData {
    resources: StringHashMap<ResourceState>,
}

impl ResourcesData {
    /// The registry as a map from names to states.
    pub closed spec fn view(&self) -> Map<Seq<char>, ResourceState> {
        self.resources@
    }

    /// An empty registry.
    pub fn new() -> (data: Self)
        ensures
            data@ == Map::<Seq<char>, ResourceState>::empty(),
    {
        ResourcesData { resources: StringHashMap::new() }
    }

    /// Registers a resource under the name, in the loading state; any
    /// prior entry under that name is overwritten. The host starts
    /// the background loader and later hands its outcome to
    /// `resolve`.
    pub fn add_resource(&mut self, name: &str)
        ensures
            final(self)@ == spec_register(old(self)@, name@),
    {
        self.resources.insert(String::from_str(name), ResourceState::Loading);
    }

    /// Settles a loading entry into the outcome's terminal state. An
    /// entry that was never registered, or that is already terminal,
    /// stays exactly as it is.
    pub fn resolve(&mut self, name: &str, outcome: Result<Resource, String>)
        ensures
            final(self)@ == spec_resolve(old(self)@, name@, outcome),
    {
        let loading = match self.resources.get(name) {
            Some(state) => state.is_loading(),
            None => false,
        };
        if loading {
            let state = match outcome {
                Ok(resource) => ResourceState::Loaded(resource),
                Err(reason) => ResourceState::Failed(reason),
            };
            self.resources.insert(String::from_str(name), state);
        }
    }

    /// The current state of a registered resource, without blocking.
    /// Asking for a name that was never registered is a programming
    /// error, so callers must know the name is present.
    pub fn get_resource(&self, name: &str) -> (state: &ResourceState)
        requires
            self@.dom().contains(name@),
        ensures
            *state == self@[name@],
    {
        match self.resources.get(name) {
            Some(state) => state,
            None => unreached(),
        }
    }

    /// Whether a resource was ever registered under the name.
    pub fn contains_resource(&self, name: &str) -> (present: bool)
        ensures
            present == self@.dom().contains(name@),
    {
        self.resources.contains_key(name)
    }

    /// One polling step of the blocking wait: the state once it is
    /// terminal, and nothing while the resource is still loading. The
    /// host repeats this at a fixed short interval until it yields.
    pub fn poll_resolved(&self, name: &str) -> (resolved: Option<&ResourceState>)
        requires
            self@.dom().contains(name@),
        ensures
            self@[name@] is Loading ==> resolved is None,
            spec_is_terminal(self@[name@]) ==> (resolved matches Some(state) && *state
                == self@[name@]),
    {
        let state = self.get_resource(name);
        if state.is_loading() {
            None
        } else {
            Some(state)
        }
    }
}

/// Where a resource file lives: under the open or closed resource
/// tree in development mode, and under the install prefix otherwise.
pub open spec fn spec_resource_prefix(is_dev: bool, is_open: bool) -> Seq<char> {
    if is_dev && is_open {
        "./resources/open/"@
    } else if is_dev {
        "./resources/closed/"@
    } else if is_open {
        "./"@
    } else {
        "./res/"@
    }
}

/// Resolves a resource-relative path against the tree it lives in:
/// the open or closed development tree, or the install prefix.
pub fn resource_path(path: &str, is_dev: bool, is_open: bool) -> (resolved: String)
    ensures
        resolved@ == spec_resource_prefix(is_dev, is_open) + path@,
{
    let mut resolved = String::new();
    if is_dev && is_open {
        resolved.append("./resources/open/");
    } else if is_dev {
        resolved.append("./resources/closed/");
    } else if is_open {
        resolved.append("./");
    } else {
        resolved.append("./res/");
    }
    resolved.append(path);
    resolved
}

/// Collects the resources the host registers at startup: their names,
/// states and on-disk paths. The host runs the loaders; the decisions
/// about names, paths and states are made here.
pub struct ResourceBuilder {
    pub res: ResourcesData,
    pub is_dev: bool,
    /// Registered configurations: name and document path.
    pub config_jobs: Vec<(String, String)>,
    /// Registered shaders: name, vertex path and fragment path.
    pub shader_jobs: Vec<(String, String, String)>,
}

impl ResourceBuilder {
    /// A builder over an empty registry.
    pub fn new(is_dev: bool) -> (builder: Self)
        ensures
            builder.res@ == Map::<Seq<char>, ResourceState>::empty(),
            builder.is_dev == is_dev,
            builder.config_jobs@.len() == 0,
            builder.shader_jobs@.len() == 0,
    {
        ResourceBuilder {
            res: ResourcesData::new(),
            is_dev,
            config_jobs: Vec::new(),
            shader_jobs: Vec::new(),
        }
    }

    /// Registers a configuration resource: the name enters the
    /// registry in the loading state and the job list records where
    /// its document lives.
    pub fn with_config(self, name: &str, path: &str) -> (builder: Self)
        ensures
            builder.res@ == spec_register(self.res@, name@),
            builder.is_dev == self.is_dev,
            builder.config_jobs@.len() == self.config_jobs@.len() + 1,
            builder.config_jobs@.drop_last() == self.config_jobs@,
            builder.config_jobs@.last().0@ == name@,
            builder.config_jobs@.last().1@ == path@,
            builder.shader_jobs@ == self.shader_jobs@,
    {
        let ResourceBuilder { mut res, is_dev, mut config_jobs, shader_jobs } = self;
        res.add_resource(name);
        config_jobs.push((String::from_str(name), String::from_str(path)));
        proof {
            assert(config_jobs@.drop_last() =~= self.config_jobs@);
        }
        ResourceBuilder { res, is_dev, config_jobs, shader_jobs }
    }

    /// Registers a shader resource: the name enters the registry in
    /// the loading state and the job list records where its vertex
    /// and fragment byte buffers live.
    pub fn with_shader(self, name: &str, vert_path: &str, frag_path: &str) -> (builder: Self)
        ensures
            builder.res@ == spec_register(self.res@, name@),
            builder.is_dev == self.is_dev,
            builder.shader_jobs@.len() == self.shader_jobs@.len() + 1,
            builder.shader_jobs@.drop_last() == self.shader_jobs@,
            builder.shader_jobs@.last().0@ == name@,
            builder.shader_jobs@.last().1@ == vert_path@,
            builder.shader_jobs@.last().2@ == frag_path@,
            builder.config_jobs@ == self.config_jobs@,
    {
        let ResourceBuilder { mut res, is_dev, config_jobs, mut shader_jobs } = self;
        res.add_resource(name);
        shader_jobs.push(
            (String::from_str(name), String::from_str(vert_path), String::from_str(frag_path)),
        );
        proof {
            assert(shader_jobs@.drop_last() =~= self.shader_jobs@);
        }
        ResourceBuilder { res, is_dev, config_jobs, shader_jobs }
    }
}

} // verus!
