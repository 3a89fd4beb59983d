//! The pipelines built from the kernel module: two that compute and one
//! that renders, all on one pipeline layout.

use crate::resources::{Resources, Slot, Stage};
use vstd::prelude::*;

verus! {

/// Vertices of the two triangles that cover the screen. The vertex stage
/// makes them up from their index; no vertex buffer is bound.
pub const FULL_SCREEN_VERTICES: u32 = 6;

/// The entry points of the kernel module.
#[derive(Debug, Clone, Copy, PartialEq, Eq, Structural)]
pub enum EntryPoint {
    AgentSenseMoveDeposit,
    DiffuseAndDecay,
    VertexMain,
    FragmentMain,
}

impl EntryPoint {
    /// The name under which the kernel module exports the entry point.
    pub open spec fn exported_as(self) -> Seq<char> {
        match self {
            EntryPoint::AgentSenseMoveDeposit => "agent_sense_move_deposit"@,
            EntryPoint::DiffuseAndDecay => "diffuse_and_decay"@,
            EntryPoint::VertexMain => "vertex_main"@,
            EntryPoint::FragmentMain => "fragment_main"@,
        }
    }

    /// Gives the name under which the kernel module exports the entry point.
    pub fn name(&self) -> (name: &'static str)
        ensures
            name@ == self.exported_as(),
    {
        match self {
            EntryPoint::AgentSenseMoveDeposit => "agent_sense_move_deposit",
            EntryPoint::DiffuseAndDecay => "diffuse_and_decay",
            EntryPoint::VertexMain => "vertex_main",
            EntryPoint::FragmentMain => "fragment_main",
        }
    }

    /// The stage that the entry point runs in.
    pub open spec fn stage(self) -> Stage {
        match self {
            EntryPoint::AgentSenseMoveDeposit => Stage::Compute,
            EntryPoint::DiffuseAndDecay => Stage::Compute,
            EntryPoint::VertexMain => Stage::Vertex,
            EntryPoint::FragmentMain => Stage::Fragment,
        }
    }
}

/// The two compute kernels.
#[derive(Debug, Clone, Copy, PartialEq, Eq, Structural)]
pub enum Kernel {
    /// Blurs the trail and lets it fade.
    DiffuseAndDecay,
    /// Lets each active agent sense the trail, turn, move and deposit.
    AgentSenseMoveDeposit,
}

impl Kernel {
    /// The entry point of the kernel.
    pub open spec fn entry(self) -> EntryPoint {
        match self {
            Kernel::DiffuseAndDecay => EntryPoint::DiffuseAndDecay,
            Kernel::AgentSenseMoveDeposit => EntryPoint::AgentSenseMoveDeposit,
        }
    }

    /// Whether the kernel changes the buffer of the given binding set. The
    /// diffusion changes the trail; the agent kernel changes the agents and,
    /// by their deposits, the trail. Nothing changes the settings.
    pub open spec fn writes(self, slot: Slot) -> bool {
        match (self, slot) {
            (Kernel::DiffuseAndDecay, Slot::TrailLayer) => true,
            (Kernel::AgentSenseMoveDeposit, Slot::DataLayer) => true,
            (Kernel::AgentSenseMoveDeposit, Slot::TrailLayer) => true,
            _ => false,
        }
    }
}

/// The order of the binding sets in the pipeline layout.
pub open spec fn layout_order() -> Seq<Slot> {
    seq![Slot::ShaderContext, Slot::DataLayer, Slot::TrailLayer]
}

/// What is built from the kernel module, once, before the first dispatch.
#[derive(Debug, PartialEq, Eq)]
pub struct Pipelines {
    /// The binding sets of the one pipeline layout that all three pipelines
    /// share, in the order of their group numbers.
    pub layout: Vec<Slot>,
    pub agent_sense_move_deposit: EntryPoint,
    pub diffuse_and_decay: EntryPoint,
    /// Vertex stage of the render pipeline.
    pub vertex: EntryPoint,
    /// Fragment stage of the render pipeline.
    pub fragment: EntryPoint,
    /// Vertices drawn in a frame.
    pub vertices: u32,
}

impl Pipelines {
    /// Whether `self` is the plan of the three pipelines.
    pub open spec fn wf(self) -> bool {
        &&& self.layout@ == layout_order()
        &&& self.agent_sense_move_deposit == EntryPoint::AgentSenseMoveDeposit
        &&& self.diffuse_and_decay == EntryPoint::DiffuseAndDecay
        &&& self.vertex == EntryPoint::VertexMain
        &&& self.fragment == EntryPoint::FragmentMain
        &&& self.vertices == FULL_SCREEN_VERTICES
    }

    /// Plans the pipelines over the given buffers. The plan is made exactly
    /// when the buffers are the schema that the kernels are written against;
    /// buffers bound otherwise are turned down.
    pub fn new(resources: &Resources) -> (pipelines: Option<Pipelines>)
        ensures
            pipelines is Some <==> resources.wf(),
            pipelines matches Some(planned) ==> planned.wf(),
    {
        if !resources.is_valid() {
            return None;
        }
        let layout = vec![
            resources.shader_context.slot,
            resources.data_layer.slot,
            resources.trail_layer.slot,
        ];
        assert(layout@ =~= layout_order());
        Some(
            Pipelines {
                layout,
                agent_sense_move_deposit: EntryPoint::AgentSenseMoveDeposit,
                diffuse_and_decay: EntryPoint::DiffuseAndDecay,
                vertex: EntryPoint::VertexMain,
                fragment: EntryPoint::FragmentMain,
                vertices: FULL_SCREEN_VERTICES,
            },
        )
    }
}

/// The pipeline layout lists each binding set at its own group number:
/// the settings at 0, the agents at 1, the trail at 2.
pub proof fn lemma_layout_order_matches_groups()
    ensures
        layout_order().len() == 3,
        forall|i: int| 0 <= i < 3 ==> (#[trigger] layout_order()[i]).group() == i,
{
}

/// Every stage finds what it is bound to: in a well-formed schema the
/// compute stage sees all three buffers, the fragment stage the settings
/// and the trail, the vertex stage the settings, and nothing else is seen.
pub proof fn lemma_schema_visibility(resources: Resources)
    requires
        resources.wf(),
    ensures
        forall|slot: Slot| (#[trigger] resources.at(slot)).visibility.admits(Stage::Compute),
        forall|slot: Slot|
            (#[trigger] resources.at(slot)).visibility.admits(Stage::Fragment) <==> slot
                != Slot::DataLayer,
        forall|slot: Slot|
            (#[trigger] resources.at(slot)).visibility.admits(Stage::Vertex) <==> slot
                == Slot::ShaderContext,
{
}

/// Only storage is written: whatever a kernel writes is a storage buffer
/// that the compute stage sees.
pub proof fn lemma_written_buffers_are_storage(resources: Resources, kernel: Kernel, slot: Slot)
    requires
        resources.wf(),
        kernel.writes(slot),
    ensures
        resources.at(slot).kind == crate::resources::BufferKind::Storage,
        resources.at(slot).visibility.admits(kernel.entry().stage()),
{
}

} // verus!
