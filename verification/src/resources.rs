//! The three buffers that host and kernels share, described apart from any
//! graphics interface: what kind of buffer each is, which shader stages see
//! it, how long it is and what it holds at the start.

use crate::parameters::{Parameters, SHADER_PARAMETERS_SIZE};
use vstd::prelude::*;

verus! {

/// Length of one agent in the data layer, in bytes: a position and a
/// velocity of two 32-bit reals each, packed.
pub const AGENT_SIZE: u64 = 16;

/// Length of one cell of the trail layer, in bytes: a 32-bit real.
pub const TRAIL_CELL_SIZE: u64 = 4;

/// A stage of a pipeline that may read a bound buffer.
#[derive(Debug, Clone, Copy, PartialEq, Eq, Structural)]
pub enum Stage {
    Compute,
    Vertex,
    Fragment,
}

/// The binding sets, named by what they hold.
#[derive(Debug, Clone, Copy, PartialEq, Eq, Structural)]
pub enum Slot {
    /// The uniform record of settings.
    ShaderContext,
    /// The array of agents.
    DataLayer,
    /// The field of deposits, one cell for each pixel of the canvas.
    TrailLayer,
}

impl Slot {
    /// Position of the binding set in the pipeline layout. The kernels name
    /// their bindings by these numbers.
    pub open spec fn group(self) -> u32 {
        match self {
            Slot::ShaderContext => 0,
            Slot::DataLayer => 1,
            Slot::TrailLayer => 2,
        }
    }

    /// Gives the position of the binding set in the pipeline layout.
    pub fn index(&self) -> (group: u32)
        ensures
            group == self.group(),
    {
        match self {
            Slot::ShaderContext => 0,
            Slot::DataLayer => 1,
            Slot::TrailLayer => 2,
        }
    }
}

/// How a buffer is bound.
#[derive(Debug, Clone, Copy, PartialEq, Eq, Structural)]
pub enum BufferKind {
    /// Read-only record of settings.
    Uniform,
    /// Storage that kernels read and write.
    Storage,
}

/// The stages that see a binding.
#[derive(Debug, Clone, Copy, PartialEq, Eq, Structural)]
pub struct Visibility {
    pub compute: bool,
    pub vertex: bool,
    pub fragment: bool,
}

impl Visibility {
    /// Whether the given stage sees the binding.
    pub open spec fn admits(self, stage: Stage) -> bool {
        match stage {
            Stage::Compute => self.compute,
            Stage::Vertex => self.vertex,
            Stage::Fragment => self.fragment,
        }
    }
}

/// What a buffer may be used for.
#[derive(Debug, Clone, Copy, PartialEq, Eq, Structural)]
pub struct Usage {
    pub uniform: bool,
    pub storage: bool,
    pub copy_dst: bool,
    pub copy_src: bool,
}

/// What a buffer holds when it is made.
#[derive(Debug, Clone, Copy, PartialEq, Eq, Structural)]
pub enum Contents {
    /// The uniform record, slot by slot.
    Settings,
    /// The seeded population, agent by agent.
    Agents,
    /// Nothing but zero bytes: a black canvas.
    Zeros,
}

/// One buffer with its binding.
#[derive(Debug, Clone, Copy, PartialEq, Eq, Structural)]
pub struct Resource {
    pub slot: Slot,
    pub kind: BufferKind,
    pub visibility: Visibility,
    pub usage: Usage,
    /// Length of the buffer in bytes, which is also the least length that
    /// its layout takes for a binding. It is fixed when the buffer is made.
    pub size: u64,
    pub contents: Contents,
}

/// The three buffers of a run.
#[derive(Debug, Clone, Copy, PartialEq, Eq, Structural)]
pub struct Resources {
    pub shader_context: Resource,
    pub data_layer: Resource,
    pub trail_layer: Resource,
}

/// Bytes of the data layer for the given population.
pub open spec fn data_layer_size(number_of_agents: u32) -> int {
    number_of_agents * AGENT_SIZE
}

/// Bytes of the trail layer for a canvas of the given size.
pub open spec fn trail_layer_size(canvas_width: u32, canvas_height: u32) -> int {
    canvas_width * canvas_height * TRAIL_CELL_SIZE
}

impl Resources {
    /// The buffers that a run with the given population and canvas needs.
    pub open spec fn layout(
        number_of_agents: u32,
        canvas_width: u32,
        canvas_height: u32,
    ) -> Resources {
        Resources {
            shader_context: Resource {
                slot: Slot::ShaderContext,
                kind: BufferKind::Uniform,
                visibility: Visibility { compute: true, vertex: true, fragment: true },
                usage: Usage { uniform: true, storage: false, copy_dst: true, copy_src: false },
                size: SHADER_PARAMETERS_SIZE,
                contents: Contents::Settings,
            },
            data_layer: Resource {
                slot: Slot::DataLayer,
                kind: BufferKind::Storage,
                visibility: Visibility { compute: true, vertex: false, fragment: false },
                usage: Usage { uniform: false, storage: true, copy_dst: true, copy_src: false },
                size: data_layer_size(number_of_agents) as u64,
                contents: Contents::Agents,
            },
            trail_layer: Resource {
                slot: Slot::TrailLayer,
                kind: BufferKind::Storage,
                visibility: Visibility { compute: true, vertex: false, fragment: true },
                usage: Usage { uniform: false, storage: true, copy_dst: true, copy_src: true },
                size: trail_layer_size(canvas_width, canvas_height) as u64,
                contents: Contents::Zeros,
            },
        }
    }

    /// Lays out the three buffers for a configuration. There is a layout
    /// unless the trail layer would be longer than a buffer can be addressed.
    pub fn new(params: &Parameters) -> (resources: Option<Resources>)
        ensures
            resources is Some <==> trail_layer_size(
                params.shader_parameters.canvas_width,
                params.shader_parameters.canvas_height,
            ) <= u64::MAX,
            resources matches Some(made) ==> {
                &&& made == Resources::layout(
                    params.number_of_agents,
                    params.shader_parameters.canvas_width,
                    params.shader_parameters.canvas_height,
                )
                &&& made.wf()
                &&& made.data_layer.size == data_layer_size(params.number_of_agents)
                &&& made.trail_layer.size == trail_layer_size(
                    params.shader_parameters.canvas_width,
                    params.shader_parameters.canvas_height,
                )
            },
    {
        let width: u64 = params.shader_parameters.canvas_width as u64;
        let height: u64 = params.shader_parameters.canvas_height as u64;
        assert(width * height <= 0xffff_ffff * 0xffff_ffff) by (nonlinear_arith)
            requires
                width <= 0xffff_ffff,
                height <= 0xffff_ffff,
        ;
        let cells: u64 = width * height;
        if cells > u64::MAX / TRAIL_CELL_SIZE {
            return None;
        }
        let population: u64 = params.number_of_agents as u64;
        Some(
            Resources {
                shader_context: Resource {
                    slot: Slot::ShaderContext,
                    kind: BufferKind::Uniform,
                    visibility: Visibility { compute: true, vertex: true, fragment: true },
                    usage: Usage { uniform: true, storage: false, copy_dst: true, copy_src: false },
                    size: SHADER_PARAMETERS_SIZE,
                    contents: Contents::Settings,
                },
                data_layer: Resource {
                    slot: Slot::DataLayer,
                    kind: BufferKind::Storage,
                    visibility: Visibility { compute: true, vertex: false, fragment: false },
                    usage: Usage { uniform: false, storage: true, copy_dst: true, copy_src: false },
                    size: population * AGENT_SIZE,
                    contents: Contents::Agents,
                },
                trail_layer: Resource {
                    slot: Slot::TrailLayer,
                    kind: BufferKind::Storage,
                    visibility: Visibility { compute: true, vertex: false, fragment: true },
                    usage: Usage { uniform: false, storage: true, copy_dst: true, copy_src: true },
                    size: cells * TRAIL_CELL_SIZE,
                    contents: Contents::Zeros,
                },
            },
        )
    }

    /// Whether the buffers make up the schema that the kernels are written
    /// against: each in its own binding set, the settings as a uniform of
    /// the record's length that every stage sees, the agents as storage for
    /// the compute stage alone, the trail as storage for the compute and the
    /// fragment stage, and the storage buffers made of whole agents and
    /// whole cells.
    pub open spec fn wf(self) -> bool {
        &&& self.shader_context.slot == Slot::ShaderContext
        &&& self.shader_context.kind == BufferKind::Uniform
        &&& self.shader_context.visibility == (Visibility {
            compute: true,
            vertex: true,
            fragment: true,
        })
        &&& self.shader_context.usage.uniform
        &&& self.shader_context.size == SHADER_PARAMETERS_SIZE
        &&& self.data_layer.slot == Slot::DataLayer
        &&& self.data_layer.kind == BufferKind::Storage
        &&& self.data_layer.visibility == (Visibility {
            compute: true,
            vertex: false,
            fragment: false,
        })
        &&& self.data_layer.usage.storage
        &&& self.data_layer.size % AGENT_SIZE == 0
        &&& self.trail_layer.slot == Slot::TrailLayer
        &&& self.trail_layer.kind == BufferKind::Storage
        &&& self.trail_layer.visibility == (Visibility {
            compute: true,
            vertex: false,
            fragment: true,
        })
        &&& self.trail_layer.usage.storage
        &&& self.trail_layer.size % TRAIL_CELL_SIZE == 0
    }

    /// Tests `wf`.
    pub fn is_valid(&self) -> (valid: bool)
        ensures
            valid == self.wf(),
    {
        let context = &self.shader_context;
        let data = &self.data_layer;
        let trail = &self.trail_layer;
        let context_ok: bool = context.slot == Slot::ShaderContext && context.kind
            == BufferKind::Uniform && context.visibility.compute && context.visibility.vertex
            && context.visibility.fragment && context.usage.uniform && context.size
            == SHADER_PARAMETERS_SIZE;
        let data_ok: bool = data.slot == Slot::DataLayer && data.kind == BufferKind::Storage
            && data.visibility.compute && !data.visibility.vertex && !data.visibility.fragment
            && data.usage.storage && data.size % AGENT_SIZE == 0;
        let trail_ok: bool = trail.slot == Slot::TrailLayer && trail.kind == BufferKind::Storage
            && trail.visibility.compute && !trail.visibility.vertex && trail.visibility.fragment
            && trail.usage.storage && trail.size % TRAIL_CELL_SIZE == 0;
        context_ok && data_ok && trail_ok
    }

    /// The buffer of the given binding set.
    pub open spec fn at(self, slot: Slot) -> Resource {
        match slot {
            Slot::ShaderContext => self.shader_context,
            Slot::DataLayer => self.data_layer,
            Slot::TrailLayer => self.trail_layer,
        }
    }

    /// Whether a device with the given capacity for one storage buffer, in
    /// bytes, has room for the agents and for the trail.
    pub open spec fn storage_within(self, capacity: u64) -> bool {
        self.data_layer.size <= capacity && self.trail_layer.size <= capacity
    }

    /// Tests whether a device with the given capacity for one storage
    /// buffer, in bytes, has room for the agents and for the trail.
    pub fn fits_storage(&self, capacity: u64) -> (fits: bool)
        ensures
            fits == self.storage_within(capacity),
    {
        self.data_layer.size <= capacity && self.trail_layer.size <= capacity
    }
}

/// The layout depends on the population and on the size of the canvas only:
/// two configurations that agree on these get the same buffers, of the same
/// lengths, whatever their other settings.
pub proof fn lemma_layout_is_fixed(a: Parameters, b: Parameters)
    requires
        a.number_of_agents == b.number_of_agents,
        a.shader_parameters.canvas_width == b.shader_parameters.canvas_width,
        a.shader_parameters.canvas_height == b.shader_parameters.canvas_height,
    ensures
        Resources::layout(
            a.number_of_agents,
            a.shader_parameters.canvas_width,
            a.shader_parameters.canvas_height,
        ) == Resources::layout(
            b.number_of_agents,
            b.shader_parameters.canvas_width,
            b.shader_parameters.canvas_height,
        ),
{
}

/// Every layout whose lengths fit a buffer address is the schema that the
/// kernels are written against.
pub proof fn lemma_layout_is_well_formed(
    number_of_agents: u32,
    canvas_width: u32,
    canvas_height: u32,
)
    requires
        trail_layer_size(canvas_width, canvas_height) <= u64::MAX,
    ensures
        Resources::layout(number_of_agents, canvas_width, canvas_height).wf(),
{
    assert(canvas_width * canvas_height >= 0) by (nonlinear_arith);
}

/// Each buffer of a layout sits in the binding set that it is named after.
pub proof fn lemma_layout_slots(number_of_agents: u32, canvas_width: u32, canvas_height: u32)
    ensures
        forall|slot: Slot|
            (#[trigger] Resources::layout(number_of_agents, canvas_width, canvas_height).at(
                slot,
            )).slot == slot,
{
}

} // verus!
