//! The rendering core: startup decisions, swapchain planning, frame
//! scheduling and teardown ordering. The host binary owns the native
//! driver handles and executes what these modules decide.

use vstd::prelude::*;
use vstd::string::StringExecFns;
use crate::logger::Level;
use crate::resources::Resource;
use crate::resources::ResourceState;

pub mod device;
pub mod frame;
pub mod shaders;
pub mod swapchain;

verus! {

/// How many frames may be in flight at once; sync objects come in
/// exactly this many slots.
pub const MAX_FRAMES_IN_FLIGHT: usize = 2;

/// A shader pair as the pipeline consumes it: SPIR-V words for the
/// vertex and fragment stages.
#[derive(Debug)]
pub struct Shader {
    pub vert: Vec<u32>,
    pub frag: Vec<u32>,
}

/// A driver error code, or a reason of this engine's own.
#[derive(Debug)]
pub enum DriverOrReason {
    /// A raw result code as the driver returned it.
    Driver(i32),
    Reason(String),
}

/// Why renderer startup failed; all of these are fatal.
#[derive(Debug)]
pub enum RendererInitError {
    LoadingError { err: String },
    InstanceError { err: String },
    DebugCallbackError { err: i32 },
    SurfaceCreationError { err: i32 },
    PhysicalDeviceError { err: DriverOrReason },
    DeviceCreationError { err: i32 },
    SwapchainCreationError { err: DriverOrReason },
    ShaderLoadingError { name: String, err: DriverOrReason },
    PipelineCreationError { err: i32 },
    FramebufferCreationError { err: i32 },
    CommandBufferError { err: i32 },
    SyncCreationError { err: i32 },
}

/// The text of a cause: the raw code in decimal, or the recorded
/// reason verbatim.
pub open spec fn spec_cause_message(cause: DriverOrReason) -> Seq<char> {
    match cause {
        DriverOrReason::Driver(code) => crate::text::spec_signed_dec(code as int),
        DriverOrReason::Reason(msg) => msg@,
    }
}

impl DriverOrReason {
    /// The cause as text: the raw code in decimal, or the reason.
    pub fn message(&self) -> (line: String)
        ensures
            line@ == spec_cause_message(*self),
    {
        let mut line = String::new();
        match self {
            DriverOrReason::Driver(code) => {
                crate::text::push_signed_decimal(&mut line, *code);
            },
            DriverOrReason::Reason(msg) => {
                line.append(msg.as_str());
            },
        }
        assert(line@ =~= spec_cause_message(*self));
        line
    }
}

/// The reported line for each startup error.
pub open spec fn spec_renderer_error_message(e: RendererInitError) -> Seq<char> {
    match e {
        RendererInitError::LoadingError { err } => "Failed to load Vulkan: "@ + err@,
        RendererInitError::InstanceError { err } => "Failed to create Instance: "@ + err@,
        RendererInitError::DebugCallbackError { err } => "Failed to create Debug Callback: "@
            + crate::text::spec_signed_dec(err as int),
        RendererInitError::SurfaceCreationError { err } => "Failed to create Surface: "@
            + crate::text::spec_signed_dec(err as int),
        RendererInitError::PhysicalDeviceError { err } => "Physical Device Error: "@
            + spec_cause_message(err),
        RendererInitError::DeviceCreationError { err } => "Failed to create Device: "@
            + crate::text::spec_signed_dec(err as int),
        RendererInitError::SwapchainCreationError { err } => "Failed to create Swapchain: "@
            + spec_cause_message(err),
        RendererInitError::ShaderLoadingError { name, err } => "Failed to load Shader \""@ + name@
            + "\": "@ + spec_cause_message(err),
        RendererInitError::PipelineCreationError { err } => "Failed to create Pipeline: "@
            + crate::text::spec_signed_dec(err as int),
        RendererInitError::FramebufferCreationError { err } => "Failed to create Framebuffer: "@
            + crate::text::spec_signed_dec(err as int),
        RendererInitError::CommandBufferError { err } => "Failed to create Command buffer: "@
            + crate::text::spec_signed_dec(err as int),
        RendererInitError::SyncCreationError { err } => "Failed to create Sync: "@
            + crate::text::spec_signed_dec(err as int),
    }
}

impl RendererInitError {
    /// The human-readable line reported for this error.
    pub fn message(&self) -> (line: String)
        ensures
            line@ == spec_renderer_error_message(*self),
    {
        let mut line = String::new();
        match self {
            RendererInitError::LoadingError { err } => {
                line.append("Failed to load Vulkan: ");
                line.append(err.as_str());
            },
            RendererInitError::InstanceError { err } => {
                line.append("Failed to create Instance: ");
                line.append(err.as_str());
            },
            RendererInitError::DebugCallbackError { err } => {
                line.append("Failed to create Debug Callback: ");
                crate::text::push_signed_decimal(&mut line, *err);
            },
            RendererInitError::SurfaceCreationError { err } => {
                line.append("Failed to create Surface: ");
                crate::text::push_signed_decimal(&mut line, *err);
            },
            RendererInitError::PhysicalDeviceError { err } => {
                line.append("Physical Device Error: ");
                let cause = err.message();
                line.append(cause.as_str());
            },
            RendererInitError::DeviceCreationError { err } => {
                line.append("Failed to create Device: ");
                crate::text::push_signed_decimal(&mut line, *err);
            },
            RendererInitError::SwapchainCreationError { err } => {
                line.append("Failed to create Swapchain: ");
                let cause = err.message();
                line.append(cause.as_str());
            },
            RendererInitError::ShaderLoadingError { name, err } => {
                line.append("Failed to load Shader \"");
                line.append(name.as_str());
                line.append("\": ");
                let cause = err.message();
                line.append(cause.as_str());
            },
            RendererInitError::PipelineCreationError { err } => {
                line.append("Failed to create Pipeline: ");
                crate::text::push_signed_decimal(&mut line, *err);
            },
            RendererInitError::FramebufferCreationError { err } => {
                line.append("Failed to create Framebuffer: ");
                crate::text::push_signed_decimal(&mut line, *err);
            },
            RendererInitError::CommandBufferError { err } => {
                line.append("Failed to create Command buffer: ");
                crate::text::push_signed_decimal(&mut line, *err);
            },
            RendererInitError::SyncCreationError { err } => {
                line.append("Failed to create Sync: ");
                crate::text::push_signed_decimal(&mut line, *err);
            },
        }
        assert(line@ =~= spec_renderer_error_message(*self));
        line
    }
}

/// Severity of a message the driver's diagnostics callback delivers.
#[derive(Clone, Copy, PartialEq, Eq, Structural, Debug)]
pub enum DebugSeverity {
    Verbose,
    Info,
    Warning,
    Error,
}

/// The log level a diagnostics message of the given severity is
/// forwarded at; informational messages are suppressed.
pub open spec fn spec_debug_level(severity: DebugSeverity) -> Option<Level> {
    match severity {
        DebugSeverity::Verbose => Some(Level::Info),
        DebugSeverity::Info => None,
        DebugSeverity::Warning => Some(Level::Warn),
        DebugSeverity::Error => Some(Level::Error),
    }
}

/// Maps a diagnostics message to the level it is logged at, dropping
/// informational messages and stripping embedded newlines.
pub fn route_debug_message(severity: DebugSeverity, message: &str) -> (routed: Option<
    (Level, String),
>)
    ensures
        spec_debug_level(severity) is None ==> routed is None,
        spec_debug_level(severity) matches Some(level) ==> (routed matches Some(pair)
            && pair.0 == level && pair.1@ == crate::logger::spec_strip_newlines(message@)),
{
    let level = match severity {
        DebugSeverity::Verbose => Level::Info,
        DebugSeverity::Info => { return None; },
        DebugSeverity::Warning => Level::Warn,
        DebugSeverity::Error => Level::Error,
    };
    let stripped = crate::logger::strip_newlines(message);
    Some((level, stripped))
}

/// The shader pair behind an awaited resource state: the payload when
/// the resource loaded as a shader, and otherwise the startup error
/// naming the resource and its cause — the recorded reason when
/// loading failed, a wrong-kind cause when a non-shader payload sits
/// under a shader name, and a still-loading cause when the state was
/// read before the wait finished.
pub fn resolved_shader<'a>(name: &str, state: &'a ResourceState) -> (shader: Result<
    &'a Shader,
    RendererInitError,
>)
    ensures
        state matches ResourceState::Loaded(resource) ==> match resource {
            Resource::Shader(s) => shader matches Ok(found) && found == s,
            Resource::Config(_) => ({
                &&& shader matches Err(e)
                &&& e matches RendererInitError::ShaderLoadingError { name: n, err }
                &&& n@ == name@
                &&& err matches DriverOrReason::Reason(msg)
                &&& msg@ == "non-shader resource in shader list"@
            }),
        },
        state is Loading ==> ({
            &&& shader matches Err(e)
            &&& e matches RendererInitError::ShaderLoadingError { name: n, err }
            &&& n@ == name@
            &&& err matches DriverOrReason::Reason(msg)
            &&& msg@ == "shader resource still loading"@
        }),
        state matches ResourceState::Failed(reason) ==> ({
            &&& shader matches Err(e)
            &&& e matches RendererInitError::ShaderLoadingError { name: n, err }
            &&& n@ == name@
            &&& err matches DriverOrReason::Reason(msg)
            &&& msg@ == reason@
        }),
{
    match state {
        ResourceState::Loaded(resource) => match resource {
            Resource::Shader(s) => Ok(s),
            Resource::Config(_) => Err(
                RendererInitError::ShaderLoadingError {
                    name: String::from_str(name),
                    err: DriverOrReason::Reason(
                        String::from_str("non-shader resource in shader list"),
                    ),
                },
            ),
        },
        ResourceState::Loading => Err(
            RendererInitError::ShaderLoadingError {
                name: String::from_str(name),
                err: DriverOrReason::Reason(String::from_str("shader resource still loading")),
            },
        ),
        ResourceState::Failed(reason) => Err(
            RendererInitError::ShaderLoadingError {
                name: String::from_str(name),
                err: DriverOrReason::Reason(reason.clone()),
            },
        ),
    }
}

/// The classes of objects the renderer owns, named in the order they
/// are created at startup.
#[derive(Clone, Copy, PartialEq, Eq, Structural, Debug)]
pub enum RendererResource {
    Instance,
    DebugMessenger,
    Surface,
    Device,
    ShaderModules,
    CommandPool,
    SwapchainObjects,
    SyncObjects,
}

/// The order the renderer's objects are created in at startup.
pub open spec fn spec_renderer_creation_order() -> Seq<RendererResource> {
    seq![
        RendererResource::Instance,
        RendererResource::DebugMessenger,
        RendererResource::Surface,
        RendererResource::Device,
        RendererResource::ShaderModules,
        RendererResource::CommandPool,
        RendererResource::SwapchainObjects,
        RendererResource::SyncObjects,
    ]
}

/// Shutdown releases everything in exact reverse-creation order, after
/// the present queue has gone idle: sync objects, the swapchain-
/// dependent set, the command pool, the shader modules, then the
/// device, the surface, the diagnostics messenger and the instance.
pub fn renderer_teardown_steps() -> (order: Vec<RendererResource>)
    ensures
        order@ == spec_renderer_creation_order().reverse(),
{
    let mut order: Vec<RendererResource> = Vec::new();
    order.push(RendererResource::SyncObjects);
    order.push(RendererResource::SwapchainObjects);
    order.push(RendererResource::CommandPool);
    order.push(RendererResource::ShaderModules);
    order.push(RendererResource::Device);
    order.push(RendererResource::Surface);
    order.push(RendererResource::DebugMessenger);
    order.push(RendererResource::Instance);
    assert(order@ =~= spec_renderer_creation_order().reverse());
    order
}

/// Destruction in exact reverse-creation order: the returned sequence
/// is the recorded creation sequence read backwards.
pub fn teardown_order(created: &Vec<u64>) -> (order: Vec<u64>)
    ensures
        order@ == created@.reverse(),
{
    let n = created.len();
    let mut order: Vec<u64> = Vec::new();
    for i in 0..n
        invariant
            n == created@.len(),
            order@.len() == i,
            forall|j: int| 0 <= j < i ==> order@[j] == created@[n - 1 - j],
    {
        order.push(created[n - 1 - i]);
    }
    assert(order@ =~= created@.reverse());
    order
}

/// Reverse-creation teardown flips every pair: of two objects, the one
/// created earlier stands strictly later in the teardown order.
pub proof fn lemma_teardown_flips_order(created: Seq<u64>, earlier: int, later: int)
    requires
        0 <= earlier < later < created.len(),
    ensures
        created.reverse()[created.len() - 1 - earlier] == created[earlier],
        created.reverse()[created.len() - 1 - later] == created[later],
        created.len() - 1 - later < created.len() - 1 - earlier,
{
}

} // verus!
