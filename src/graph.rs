//! The collaborators that the surface logic drives: the render-task graph,
//! the list of command buffers and the mapping between coordinate spaces.
use vstd::prelude::*;
use crate::geom::{IntPoint, IntRect, IntSize};

verus! {

/// Index of a task in a `RenderTaskGraphBuilder`.
#[derive(Clone, Copy, Debug, PartialEq, Eq, Structural)]
pub struct RenderTaskId(pub usize);

/// A copy, after a task has rendered, from that task into another one.
#[derive(Clone, Copy, Debug, PartialEq, Eq, Structural)]
pub struct ResolveOp {
    pub src_task_id: RenderTaskId,
    pub dest_origin: IntPoint,
    pub dest_task_id: RenderTaskId,
}

/// The parameters of a task that draws the primitives of a picture.
#[derive(Clone, Copy, Debug, PartialEq, Eq, Structural)]
pub struct PictureTask {
    pub prim_index: usize,
    pub unclipped_size: IntSize,
    pub content_origin: IntPoint,
    pub surface_spatial_node_index: usize,
    pub raster_spatial_node_index: usize,
    pub cmd_buffer_index: usize,
    pub resolve_op: Option<ResolveOp>,
}

/// `pic` drawing into another command buffer, with no resolve of its own.
pub open spec fn duplicated(pic: PictureTask, cmd_buffer_index: usize) -> PictureTask {
    PictureTask { cmd_buffer_index, resolve_op: None, ..pic }
}

impl PictureTask {
    /// The same picture task, drawing into the command buffer `cmd_buffer_index`.
    pub fn duplicate(&self, cmd_buffer_index: usize) -> (r: PictureTask)
        ensures
            r == duplicated(*self, cmd_buffer_index),
    {
        PictureTask { cmd_buffer_index, resolve_op: None, ..*self }
    }
}

/// What a render task does.
#[derive(Clone, Copy, Debug, PartialEq, Eq, Structural)]
pub enum RenderTaskKind {
    Picture(PictureTask),
    /// A blur with the given standard deviation, in hundredths of a device pixel.
    Blur { std_deviation: u64, source: RenderTaskId },
    /// A copy of the framebuffer region under the given device rect.
    Readback(IntRect),
}

/// Where a render task draws.
#[derive(Clone, Copy, Debug, PartialEq, Eq, Structural)]
pub enum RenderTaskLocation {
    /// A fresh area of the given size in a transient target.
    Dynamic(IntSize),
    /// The area that another task already draws to.
    Existing { parent_task_id: RenderTaskId, size: IntSize },
    /// A fixed rect of a persistent surface (such as a picture-cache tile).
    Static { surface: u64, rect: IntRect },
}

pub open spec fn location_size(l: RenderTaskLocation) -> IntSize {
    match l {
        RenderTaskLocation::Dynamic(size) => size,
        RenderTaskLocation::Existing { size, .. } => size,
        RenderTaskLocation::Static { rect, .. } => IntSize {
            width: (rect.max.x - rect.min.x) as i32,
            height: (rect.max.y - rect.min.y) as i32,
        },
    }
}

impl RenderTaskLocation {
    /// The size of the area drawn to; for a static rect, its extent wrapped to `i32`.
    pub fn size(&self) -> (r: IntSize)
        ensures
            r == location_size(*self),
    {
        match self {
            RenderTaskLocation::Dynamic(size) => *size,
            RenderTaskLocation::Existing { size, .. } => *size,
            RenderTaskLocation::Static { rect, .. } => {
                let w = (rect.max.x as i64 - rect.min.x as i64) as i32;
                let h = (rect.max.y as i64 - rect.min.y as i64) as i32;
                IntSize { width: w, height: h }
            },
        }
    }
}

#[derive(Clone, Copy, Debug, PartialEq, Eq, Structural)]
pub struct RenderTask {
    pub location: RenderTaskLocation,
    pub kind: RenderTaskKind,
    /// Kept after the frame, for a later draw that samples it.
    pub saved: bool,
}

impl RenderTask {
    pub fn new(location: RenderTaskLocation, kind: RenderTaskKind) -> (r: RenderTask)
        ensures
            r == (RenderTask { location, kind, saved: false }),
    {
        RenderTask { location, kind, saved: false }
    }
}

/// The render tasks of a frame and the dependency edges between them.
/// An edge `(parent, child)` says that `parent` reads what `child` drew.
pub struct RenderTaskGraphBuilder {
    pub tasks: Vec<RenderTask>,
    pub edges: Vec<(RenderTaskId, RenderTaskId)>,
}

/// True when `id` names a picture task of `tasks`.
pub open spec fn is_picture_in(tasks: Seq<RenderTask>, id: RenderTaskId) -> bool {
    &&& id.0 < tasks.len()
    &&& tasks[id.0 as int].kind is Picture
}

/// The picture parameters of the task `id` (meaningful where `is_picture_in`).
pub open spec fn picture_of(tasks: Seq<RenderTask>, id: RenderTaskId) -> PictureTask {
    tasks[id.0 as int].kind->Picture_0
}

impl RenderTaskGraphBuilder {
    pub fn new() -> (r: RenderTaskGraphBuilder)
        ensures
            r.tasks@.len() == 0,
            r.edges@.len() == 0,
    {
        RenderTaskGraphBuilder { tasks: Vec::new(), edges: Vec::new() }
    }

    /// Adds a task; its id is the number of tasks before it.
    pub fn add(&mut self, task: RenderTask) -> (id: RenderTaskId)
        requires
            old(self).tasks@.len() < usize::MAX,
        ensures
            id.0 == old(self).tasks@.len(),
            final(self).tasks@ == old(self).tasks@.push(task),
            final(self).edges@ == old(self).edges@,
    {
        let id = RenderTaskId(self.tasks.len());
        self.tasks.push(task);
        id
    }

    /// Records that `parent` depends on `child`.
    pub fn add_dependency(&mut self, parent: RenderTaskId, child: RenderTaskId)
        ensures
            final(self).tasks@ == old(self).tasks@,
            final(self).edges@ == old(self).edges@.push((parent, child)),
    {
        self.edges.push((parent, child));
    }

    pub fn get_task(&self, id: RenderTaskId) -> (r: RenderTask)
        requires
            id.0 < self.tasks@.len(),
        ensures
            r == self.tasks@[id.0 as int],
    {
        self.tasks[id.0]
    }

    /// Replaces the task `id`.
    pub fn set_task(&mut self, id: RenderTaskId, task: RenderTask)
        requires
            id.0 < old(self).tasks@.len(),
        ensures
            final(self).tasks@ == old(self).tasks@.update(id.0 as int, task),
            final(self).edges@ == old(self).edges@,
    {
        self.tasks.set(id.0, task);
    }
}

/// Location of a primitive's data in the GPU cache.
#[derive(Clone, Copy, Debug, PartialEq, Eq, Structural)]
pub struct GpuCacheAddress {
    pub u: u16,
    pub v: u16,
}

/// One primitive added to one command buffer.
#[derive(Clone, Copy, Debug, PartialEq, Eq, Structural)]
pub struct PrimitiveCommand {
    pub cmd_buffer_index: usize,
    pub prim_instance_index: usize,
    pub spatial_node_index: usize,
    pub gpu_address: Option<GpuCacheAddress>,
}

/// The command buffers of a frame, as their number and every primitive
/// added to any of them, in the order of addition.
pub struct CommandBufferList {
    pub count: usize,
    pub commands: Vec<PrimitiveCommand>,
}

impl CommandBufferList {
    pub fn new() -> (r: CommandBufferList)
        ensures
            r.count == 0,
            r.commands@.len() == 0,
    {
        CommandBufferList { count: 0, commands: Vec::new() }
    }

    /// Creates an empty command buffer and returns its index.
    pub fn create_cmd_buffer(&mut self) -> (index: usize)
        requires
            old(self).count < usize::MAX,
        ensures
            index == old(self).count,
            final(self).count == old(self).count + 1,
            final(self).commands@ == old(self).commands@,
    {
        let index = self.count;
        self.count = self.count + 1;
        index
    }

    /// Adds a primitive to the command buffer `cmd_buffer_index`.
    pub fn add_prim(
        &mut self,
        cmd_buffer_index: usize,
        prim_instance_index: usize,
        spatial_node_index: usize,
        gpu_address: Option<GpuCacheAddress>,
    )
        requires
            cmd_buffer_index < old(self).count,
        ensures
            final(self).count == old(self).count,
            final(self).commands@ == old(self).commands@.push(
                PrimitiveCommand { cmd_buffer_index, prim_instance_index, spatial_node_index, gpu_address },
            ),
    {
        self.commands.push(
            PrimitiveCommand { cmd_buffer_index, prim_instance_index, spatial_node_index, gpu_address },
        );
    }
}

/// Coordinate spaces related to device space by whole-pixel translations:
/// node `i` sits at `offsets[i]`, or cannot be projected when that is `None`.
pub struct SpatialTree {
    pub offsets: Vec<Option<IntPoint>>,
}

/// `p` in the space of `from`, seen in the space of `to`, where that is defined.
pub open spec fn mapped_point(offsets: Seq<Option<IntPoint>>, from: usize, to: usize, p: IntPoint) -> Option<IntPoint> {
    if from < offsets.len() && to < offsets.len() && offsets[from as int] is Some
        && offsets[to as int] is Some {
        let a = offsets[from as int]->Some_0;
        let b = offsets[to as int]->Some_0;
        let x = p.x + a.x - b.x;
        let y = p.y + a.y - b.y;
        if i32::MIN <= x <= i32::MAX && i32::MIN <= y <= i32::MAX {
            Some(IntPoint { x: x as i32, y: y as i32 })
        } else {
            None
        }
    } else {
        None
    }
}

impl SpatialTree {
    /// Maps `p` from the space of node `from` into that of node `to`;
    /// `None` where either node cannot be projected or the result leaves `i32`.
    pub fn map_point(&self, from: usize, to: usize, p: IntPoint) -> (r: Option<IntPoint>)
        ensures
            r == mapped_point(self.offsets@, from, to, p),
    {
        if from >= self.offsets.len() || to >= self.offsets.len() {
            return None;
        }
        match (self.offsets[from], self.offsets[to]) {
            (Some(a), Some(b)) => {
                let x = p.x as i64 + a.x as i64 - b.x as i64;
                let y = p.y as i64 + a.y as i64 - b.y as i64;
                if i32::MIN as i64 <= x && x <= i32::MAX as i64 && i32::MIN as i64 <= y && y
                    <= i32::MAX as i64 {
                    Some(IntPoint { x: x as i32, y: y as i32 })
                } else {
                    None
                }
            },
            _ => None,
        }
    }
}

} // verus!
