//! The surface builder: a stack of surface scopes that routes primitives to
//! command buffers and wires the render-task graph as surfaces are pushed and popped.
use vstd::prelude::*;
use crate::geom::{IntPoint, IntRect, rects_intersect};
use crate::graph::{
    CommandBufferList, GpuCacheAddress, PictureTask, PrimitiveCommand, RenderTask, RenderTaskGraphBuilder,
    RenderTaskId, RenderTaskKind, RenderTaskLocation, ResolveOp, SpatialTree, duplicated, is_picture_in,
    location_size, mapped_point, picture_of,
};

verus! {

/// A picture-cache tile: its integer coordinate and its sub-slice.
#[derive(Clone, Copy, Debug, PartialEq, Eq, Structural)]
pub struct TileKey {
    pub tile_offset: IntPoint,
    pub sub_slice_index: u16,
}

/// Index of a surface in the frame's list of surfaces.
#[derive(Clone, Copy, Debug, PartialEq, Eq, Structural)]
pub struct SurfaceIndex(pub usize);

/// What the builder records on a surface.
#[derive(Clone, Copy, Debug, PartialEq, Eq, Structural)]
pub struct SurfaceInfo {
    pub clipping_rect: IntRect,
}

/// True when no key occurs twice in `tiles`.
pub open spec fn keys_unique<V>(tiles: Seq<(TileKey, V)>) -> bool {
    forall|i: int, j: int|
        0 <= i < tiles.len() && 0 <= j < tiles.len() && i != j ==> #[trigger] tiles[i].0 != #[trigger] tiles[j].0
}

/// How a surface is rendered.
pub enum SurfaceDescriptorKind {
    /// Picture-cache tiles, each with the task that draws it.
    Tiled { tiles: Vec<(TileKey, RenderTaskId)> },
    /// A single off-screen target.
    Simple { render_task_id: RenderTaskId },
    /// A target followed by one or more tasks (e.g. a blur); `root_task_id` is the last of them.
    Chained { render_task_id: RenderTaskId, root_task_id: RenderTaskId },
}

/// A surface's layout and the rects of it that must be redrawn.
pub struct SurfaceDescriptor {
    pub kind: SurfaceDescriptorKind,
    pub dirty_rects: Vec<IntRect>,
}

impl SurfaceDescriptor {
    /// A picture-cache tiled surface.
    pub fn new_tiled(tiles: Vec<(TileKey, RenderTaskId)>, dirty_rects: Vec<IntRect>) -> (r: SurfaceDescriptor)
        requires
            keys_unique(tiles@),
        ensures
            r.kind matches SurfaceDescriptorKind::Tiled { tiles: t } && t@ == tiles@,
            r.dirty_rects@ == dirty_rects@,
    {
        SurfaceDescriptor { kind: SurfaceDescriptorKind::Tiled { tiles }, dirty_rects }
    }

    /// A surface drawn by a chain of tasks (e.g. a blur).
    pub fn new_chained(render_task_id: RenderTaskId, root_task_id: RenderTaskId, dirty_rect: IntRect) -> (r:
        SurfaceDescriptor)
        ensures
            r.kind == (SurfaceDescriptorKind::Chained { render_task_id, root_task_id }),
            r.dirty_rects@ == seq![dirty_rect],
    {
        SurfaceDescriptor {
            kind: SurfaceDescriptorKind::Chained { render_task_id, root_task_id },
            dirty_rects: vec![dirty_rect],
        }
    }

    /// A single-target surface (e.g. an opacity filter).
    pub fn new_simple(render_task_id: RenderTaskId, dirty_rect: IntRect) -> (r: SurfaceDescriptor)
        ensures
            r.kind == (SurfaceDescriptorKind::Simple { render_task_id }),
            r.dirty_rects@ == seq![dirty_rect],
    {
        SurfaceDescriptor { kind: SurfaceDescriptorKind::Simple { render_task_id }, dirty_rects: vec![dirty_rect] }
    }
}

/// The tasks that a surface scope draws into.
pub enum CommandBufferBuilderKind {
    Tiled { tiles: Vec<(TileKey, RenderTaskId)> },
    Simple { render_task_id: RenderTaskId, root_task_id: Option<RenderTaskId> },
}

/// One surface scope on the builder's stack.
pub struct CommandBufferBuilder {
    pub kind: CommandBufferBuilderKind,
    /// The scope's output must be resolved into an ancestor target.
    pub establishes_sub_graph: bool,
    /// The task that the sub-graph resolves into, once registered.
    pub resolve_source: Option<RenderTaskId>,
}

/// The command buffers that primitives are currently added to.
pub enum CommandBufferTargets {
    Tiled { tiles: Vec<(TileKey, usize)> },
    Simple { cmd_buffer_index: usize },
}

/// The tasks of a scope that its parent-side edges attach to, in order.
pub open spec fn scope_tasks(k: CommandBufferBuilderKind) -> Seq<RenderTaskId> {
    match k {
        CommandBufferBuilderKind::Tiled { tiles } => tiles@.map_values(|t: (TileKey, RenderTaskId)| t.1),
        CommandBufferBuilderKind::Simple { render_task_id, .. } => seq![render_task_id],
    }
}

/// The task whose result a scope hands to its parent: the chain's last task, else its own.
/// A tiled scope is a root and hands nothing on; its arm is never used.
pub open spec fn scope_output(k: CommandBufferBuilderKind) -> RenderTaskId {
    match k {
        CommandBufferBuilderKind::Simple { render_task_id, root_task_id } => match root_task_id {
            Some(root) => root,
            None => render_task_id,
        },
        CommandBufferBuilderKind::Tiled { .. } => RenderTaskId(0),
    }
}

/// Every task of the scope is a picture task of `tasks`.
pub open spec fn scope_on_pictures(k: CommandBufferBuilderKind, tasks: Seq<RenderTask>) -> bool {
    forall|i: int| 0 <= i < scope_tasks(k).len() ==> is_picture_in(tasks, #[trigger] scope_tasks(k)[i])
}

/// `t` addresses the command buffers of the picture tasks of scope `b`, or none when there is no scope.
pub open spec fn targets_match(t: CommandBufferTargets, b: Option<CommandBufferBuilderKind>, tasks: Seq<RenderTask>) -> bool {
    match b {
        None => t matches CommandBufferTargets::Tiled { tiles } && tiles@.len() == 0,
        Some(CommandBufferBuilderKind::Tiled { tiles }) => match t {
            CommandBufferTargets::Tiled { tiles: ct } => {
                &&& ct@.len() == tiles@.len()
                &&& forall|i: int| 0 <= i < tiles@.len() ==> #[trigger] ct@[i] == (
                    tiles@[i].0,
                    picture_of(tasks, tiles@[i].1).cmd_buffer_index,
                )
            },
            CommandBufferTargets::Simple { .. } => false,
        },
        Some(CommandBufferBuilderKind::Simple { render_task_id, .. }) => match t {
            CommandBufferTargets::Simple { cmd_buffer_index } => cmd_buffer_index == picture_of(
                tasks,
                render_task_id,
            ).cmd_buffer_index,
            CommandBufferTargets::Tiled { .. } => false,
        },
    }
}

/// Every command buffer that `t` addresses exists in a list of `count` buffers.
pub open spec fn targets_below(t: CommandBufferTargets, count: usize) -> bool {
    match t {
        CommandBufferTargets::Tiled { tiles } => forall|i: int| 0 <= i < tiles@.len() ==> #[trigger] tiles@[i].1 < count,
        CommandBufferTargets::Simple { cmd_buffer_index } => cmd_buffer_index < count,
    }
}

/// The value of the last entry of `tiles` under key `k`.
pub open spec fn lookup_tile(tiles: Seq<(TileKey, usize)>, k: TileKey) -> Option<usize>
    decreases tiles.len(),
{
    if tiles.len() == 0 {
        None
    } else if tiles.last().0 == k {
        Some(tiles.last().1)
    } else {
        lookup_tile(tiles.drop_last(), k)
    }
}

/// A primitive's visibility, as computed before routing.
#[derive(Clone, Copy, Debug, PartialEq, Eq, Structural)]
pub enum VisibilityState {
    /// Not computed yet.
    Unset,
    Culled,
    /// Visible in the given range of tiles (`max` exclusive) of the given sub-slice.
    Visible { tile_rect: IntRect, sub_slice_index: u16 },
    /// Visibility is decided by the primitive's children.
    PassThrough,
}

#[derive(Clone, Copy, Debug, PartialEq, Eq, Structural)]
pub struct PrimitiveVisibility {
    pub state: VisibilityState,
    /// The picture-space rect that the primitive covers after clipping.
    pub pic_coverage_rect: IntRect,
}

/// The command `p` placed in the command buffer `c`.
pub open spec fn in_buffer(p: PrimitiveCommand, c: usize) -> PrimitiveCommand {
    PrimitiveCommand { cmd_buffer_index: c, ..p }
}

/// The tile of column `x` and row `y` in sub-slice `sub`.
pub open spec fn tile_at(x: int, y: int, sub: u16) -> TileKey {
    TileKey { tile_offset: IntPoint { x: x as i32, y: y as i32 }, sub_slice_index: sub }
}

/// The commands that adding `p` to the tiles of row `y`, columns `x0..x1`, produces:
/// one per tile that has a command buffer, left to right.
pub open spec fn row_commands(tiles: Seq<(TileKey, usize)>, y: int, x0: int, x1: int, sub: u16, p: PrimitiveCommand) -> Seq<
    PrimitiveCommand,
>
    decreases x1 - x0,
{
    if x1 <= x0 {
        seq![]
    } else {
        row_commands(tiles, y, x0, x1 - 1, sub, p) + match lookup_tile(tiles, tile_at(x1 - 1, y, sub)) {
            Some(c) => seq![in_buffer(p, c)],
            None => seq![],
        }
    }
}

/// The commands for the rows `r.min.y..y1` of the tile range `r`, top to bottom.
pub open spec fn rect_commands(tiles: Seq<(TileKey, usize)>, r: IntRect, y1: int, sub: u16, p: PrimitiveCommand) -> Seq<
    PrimitiveCommand,
>
    decreases y1 - r.min.y,
{
    if y1 <= r.min.y {
        seq![]
    } else {
        rect_commands(tiles, r, y1 - 1, sub, p) + row_commands(tiles, y1 - 1, r.min.x as int, r.max.x as int, sub, p)
    }
}

/// The value under `k` in `tiles` (the last entry with that key).
fn find_tile(tiles: &Vec<(TileKey, usize)>, k: TileKey) -> (r: Option<usize>)
    ensures
        r == lookup_tile(tiles@, k),
{
    let mut i: usize = tiles.len();
    assert(tiles@.take(i as int) =~= tiles@);
    while i > 0
        invariant
            i <= tiles@.len(),
            lookup_tile(tiles@, k) == lookup_tile(tiles@.take(i as int), k),
        decreases i,
    {
        let ghost prefix = tiles@.take(i as int);
        assert(prefix.drop_last() =~= tiles@.take(i - 1));
        if tiles[i - 1].0 == k {
            return Some(tiles[i - 1].1);
        }
        i = i - 1;
    }
    assert(tiles@.take(0).len() == 0);
    None
}

/// The targets that draw into the picture tasks of `kind`.
fn targets_for(kind: &CommandBufferBuilderKind, rg_builder: &RenderTaskGraphBuilder) -> (t: CommandBufferTargets)
    requires
        scope_on_pictures(*kind, rg_builder.tasks@),
    ensures
        targets_match(t, Some(*kind), rg_builder.tasks@),
{
    match kind {
        CommandBufferBuilderKind::Tiled { tiles } => {
            let mut cb_tiles: Vec<(TileKey, usize)> = Vec::new();
            let mut i: usize = 0;
            while i < tiles.len()
                invariant
                    i <= tiles@.len(),
                    scope_on_pictures(*kind, rg_builder.tasks@),
                    *kind == (CommandBufferBuilderKind::Tiled { tiles: *tiles }),
                    cb_tiles@.len() == i,
                    forall|j: int| 0 <= j < i ==> #[trigger] cb_tiles@[j] == (
                        tiles@[j].0,
                        picture_of(rg_builder.tasks@, tiles@[j].1).cmd_buffer_index,
                    ),
                decreases tiles@.len() - i,
            {
                let (key, task_id) = tiles[i];
                assert(scope_tasks(*kind)[i as int] == task_id);
                let task = rg_builder.get_task(task_id);
                match task.kind {
                    RenderTaskKind::Picture(info) => {
                        cb_tiles.push((key, info.cmd_buffer_index));
                    },
                    _ => {},
                }
                i = i + 1;
            }
            CommandBufferTargets::Tiled { tiles: cb_tiles }
        },
        CommandBufferBuilderKind::Simple { render_task_id, .. } => {
            assert(scope_tasks(*kind)[0] == *render_task_id);
            let task = rg_builder.get_task(*render_task_id);
            match task.kind {
                RenderTaskKind::Picture(info) => CommandBufferTargets::Simple { cmd_buffer_index: info.cmd_buffer_index },
                _ => CommandBufferTargets::Simple { cmd_buffer_index: 0 },
            }
        },
    }
}

impl CommandBufferTargets {
    /// Adds a primitive to each target tile in `tile_rect` of sub-slice `sub_slice_index`
    /// that has a command buffer, or to the single target.
    fn push_prim(
        &self,
        prim_instance_index: usize,
        spatial_node_index: usize,
        tile_rect: IntRect,
        sub_slice_index: u16,
        gpu_address: Option<GpuCacheAddress>,
        cmd_buffers: &mut CommandBufferList,
    )
        requires
            targets_below(*self, old(cmd_buffers).count),
        ensures
            final(cmd_buffers).count == old(cmd_buffers).count,
            final(cmd_buffers).commands@ == old(cmd_buffers).commands@ + match *self {
                CommandBufferTargets::Tiled { tiles } => rect_commands(
                    tiles@,
                    tile_rect,
                    tile_rect.max.y as int,
                    sub_slice_index,
                    PrimitiveCommand { cmd_buffer_index: 0, prim_instance_index, spatial_node_index, gpu_address },
                ),
                CommandBufferTargets::Simple { cmd_buffer_index } => seq![
                    PrimitiveCommand { cmd_buffer_index, prim_instance_index, spatial_node_index, gpu_address },
                ],
            },
    {
        let ghost p = PrimitiveCommand { cmd_buffer_index: 0, prim_instance_index, spatial_node_index, gpu_address };
        match self {
            CommandBufferTargets::Tiled { tiles } => {
                let ghost start = cmd_buffers.commands@;
                let mut y: i32 = tile_rect.min.y;
                while y < tile_rect.max.y
                    invariant
                        tile_rect.min.y <= y,
                        y <= tile_rect.max.y || y == tile_rect.min.y,
                        cmd_buffers.count == old(cmd_buffers).count,
                        p == (PrimitiveCommand { cmd_buffer_index: 0, prim_instance_index, spatial_node_index, gpu_address }),
                        forall|j: int| 0 <= j < tiles@.len() ==> #[trigger] tiles@[j].1 < cmd_buffers.count,
                        *self == (CommandBufferTargets::Tiled { tiles: *tiles }),
                        cmd_buffers.commands@ == start + rect_commands(tiles@, tile_rect, y as int, sub_slice_index, p),
                    decreases tile_rect.max.y - y,
                {
                    let ghost row_start = cmd_buffers.commands@;
                    let mut x: i32 = tile_rect.min.x;
                    while x < tile_rect.max.x
                        invariant
                            tile_rect.min.x <= x,
                            x <= tile_rect.max.x || x == tile_rect.min.x,
                            y < tile_rect.max.y,
                            cmd_buffers.count == old(cmd_buffers).count,
                            p == (PrimitiveCommand { cmd_buffer_index: 0, prim_instance_index, spatial_node_index, gpu_address }),
                            forall|j: int| 0 <= j < tiles@.len() ==> #[trigger] tiles@[j].1 < cmd_buffers.count,
                            *self == (CommandBufferTargets::Tiled { tiles: *tiles }),
                            cmd_buffers.commands@ == row_start + row_commands(
                                tiles@,
                                y as int,
                                tile_rect.min.x as int,
                                x as int,
                                sub_slice_index,
                                p,
                            ),
                        decreases tile_rect.max.x - x,
                    {
                        let key = TileKey { tile_offset: IntPoint { x, y }, sub_slice_index };
                        assert(key == tile_at(x as int, y as int, sub_slice_index));
                        let found = find_tile(tiles, key);
                        proof {
                            lemma_lookup_in(tiles@, key);
                        }
                        match found {
                            Some(cmd_buffer_index) => {
                                proof {
                                    let i = choose|i: int| 0 <= i < tiles@.len() && #[trigger] tiles@[i] == (key, cmd_buffer_index);
                                    assert(tiles@[i].1 < cmd_buffers.count);
                                }
                                cmd_buffers.add_prim(cmd_buffer_index, prim_instance_index, spatial_node_index, gpu_address);
                                assert(in_buffer(p, cmd_buffer_index) == PrimitiveCommand {
                                    cmd_buffer_index, prim_instance_index, spatial_node_index, gpu_address });
                            },
                            None => {},
                        }
                        assert(cmd_buffers.commands@ =~= row_start + row_commands(
                            tiles@, y as int, tile_rect.min.x as int, x + 1, sub_slice_index, p));
                        x = x + 1;
                    }
                    proof {
                        if tile_rect.max.x < tile_rect.min.x {
                            assert(row_commands(tiles@, y as int, tile_rect.min.x as int, tile_rect.max.x as int, sub_slice_index, p) =~= seq![]);
                        }
                    }
                    assert(row_commands(tiles@, y as int, tile_rect.min.x as int, tile_rect.max.x as int, sub_slice_index, p)
                        == row_commands(tiles@, y as int, tile_rect.min.x as int, x as int, sub_slice_index, p));
                    assert(cmd_buffers.commands@ =~= start + rect_commands(tiles@, tile_rect, y + 1, sub_slice_index, p));
                    y = y + 1;
                }
            },
            CommandBufferTargets::Simple { cmd_buffer_index } => {
                cmd_buffers.add_prim(*cmd_buffer_index, prim_instance_index, spatial_node_index, gpu_address);
            },
        }
    }
}

/// A key that `lookup_tile` finds names an entry of `tiles`.
proof fn lemma_lookup_in(tiles: Seq<(TileKey, usize)>, k: TileKey)
    ensures
        lookup_tile(tiles, k) matches Some(c) ==> exists|i: int| 0 <= i < tiles.len() && #[trigger] tiles[i] == (k, c),
    decreases tiles.len(),
{
    if tiles.len() > 0 && tiles.last().0 != k {
        lemma_lookup_in(tiles.drop_last(), k);
        if let Some(c) = lookup_tile(tiles, k) {
            let i = choose|i: int| 0 <= i < tiles.drop_last().len() && #[trigger] tiles.drop_last()[i] == (k, c);
            assert(tiles[i] == (k, c));
        }
    }
}

/// Builds the render-task graph from the surfaces pushed and popped during the prepare pass.
pub struct SurfaceBuilder {
    /// The command buffers of the surface on top of the stack.
    pub current_cmd_buffers: CommandBufferTargets,
    /// The surface scopes, innermost last.
    pub builder_stack: Vec<CommandBufferBuilder>,
    /// The dirty rects of each scope, used to reject primitives.
    pub dirty_rect_stack: Vec<Vec<IntRect>>,
}

/// A tiled scope names each tile once.
pub open spec fn scope_wf(b: CommandBufferBuilder) -> bool {
    match b.kind {
        CommandBufferBuilderKind::Tiled { tiles } => keys_unique(tiles@),
        CommandBufferBuilderKind::Simple { .. } => true,
    }
}

/// The scope that a descriptor opens.
pub open spec fn scope_of(kind: SurfaceDescriptorKind, is_sub_graph: bool) -> CommandBufferBuilder {
    match kind {
        SurfaceDescriptorKind::Tiled { tiles } => CommandBufferBuilder {
            kind: CommandBufferBuilderKind::Tiled { tiles },
            establishes_sub_graph: is_sub_graph,
            resolve_source: None,
        },
        SurfaceDescriptorKind::Simple { render_task_id } => CommandBufferBuilder {
            kind: CommandBufferBuilderKind::Simple { render_task_id, root_task_id: None },
            establishes_sub_graph: is_sub_graph,
            resolve_source: None,
        },
        SurfaceDescriptorKind::Chained { render_task_id, root_task_id } => CommandBufferBuilder {
            kind: CommandBufferBuilderKind::Simple { render_task_id, root_task_id: Some(root_task_id) },
            establishes_sub_graph: is_sub_graph,
            resolve_source: None,
        },
    }
}

/// The descriptor names each tile once.
pub open spec fn descriptor_wf(kind: SurfaceDescriptorKind) -> bool {
    kind matches SurfaceDescriptorKind::Tiled { tiles } ==> keys_unique(tiles@)
}

/// The index of the innermost scope that establishes a sub-graph.
pub open spec fn nearest_sub_graph(stack: Seq<CommandBufferBuilder>) -> Option<int>
    decreases stack.len(),
{
    if stack.len() == 0 {
        None
    } else if stack.last().establishes_sub_graph {
        Some(stack.len() - 1)
    } else {
        nearest_sub_graph(stack.drop_last())
    }
}

/// The edges from each of `parents` to `child`, in order.
pub open spec fn edges_to(parents: Seq<RenderTaskId>, child: RenderTaskId) -> Seq<(RenderTaskId, RenderTaskId)> {
    parents.map_values(|p: RenderTaskId| (p, child))
}

impl SurfaceBuilder {
    /// The stacks have one entry per scope, and each scope is well formed.
    pub open spec fn wf(&self) -> bool {
        &&& self.dirty_rect_stack@.len() == self.builder_stack@.len()
        &&& forall|i: int| 0 <= i < self.builder_stack@.len() ==> scope_wf(#[trigger] self.builder_stack@[i])
    }

    /// The number of open scopes.
    pub open spec fn depth(&self) -> nat {
        self.builder_stack@.len()
    }

    /// The innermost scope.
    pub open spec fn top(&self) -> CommandBufferBuilder {
        self.builder_stack@.last()
    }

    /// The kind of the innermost scope, if any.
    pub open spec fn top_kind(&self) -> Option<CommandBufferBuilderKind> {
        if self.builder_stack@.len() == 0 {
            None
        } else {
            Some(self.top().kind)
        }
    }

    pub fn new() -> (r: SurfaceBuilder)
        ensures
            r.wf(),
            r.depth() == 0,
            targets_match(r.current_cmd_buffers, None, seq![]),
    {
        SurfaceBuilder {
            current_cmd_buffers: CommandBufferTargets::Tiled { tiles: Vec::new() },
            builder_stack: Vec::new(),
            dirty_rect_stack: Vec::new(),
        }
    }

    /// Records the top surface's task as the target that the innermost enclosing
    /// sub-graph resolves into.
    pub fn register_resolve_source(&mut self)
        requires
            old(self).depth() > 0,
            old(self).top().kind is Simple,
            nearest_sub_graph(old(self).builder_stack@) matches Some(i) && old(self).builder_stack@[i].resolve_source is None,
        ensures
            final(self).current_cmd_buffers == old(self).current_cmd_buffers,
            final(self).dirty_rect_stack == old(self).dirty_rect_stack,
            ({
                let i = nearest_sub_graph(old(self).builder_stack@)->Some_0;
                final(self).builder_stack@ == old(self).builder_stack@.update(
                    i,
                    CommandBufferBuilder {
                        resolve_source: Some(old(self).top().kind->Simple_render_task_id),
                        ..old(self).builder_stack@[i]
                    },
                )
            }),
            old(self).wf() ==> final(self).wf(),
    {
        let n = self.builder_stack.len();
        let surface_task_id = match &self.builder_stack[n - 1].kind {
            CommandBufferBuilderKind::Simple { render_task_id, .. } => *render_task_id,
            CommandBufferBuilderKind::Tiled { .. } => RenderTaskId(0),
        };
        let mut i: usize = n;
        assert(self.builder_stack@.take(n as int) =~= self.builder_stack@);
        while i > 0
            invariant
                i <= self.builder_stack@.len(),
                self.builder_stack@ == old(self).builder_stack@,
                self.current_cmd_buffers == old(self).current_cmd_buffers,
                self.dirty_rect_stack == old(self).dirty_rect_stack,
                n == old(self).builder_stack@.len(),
                surface_task_id == old(self).top().kind->Simple_render_task_id,
                nearest_sub_graph(self.builder_stack@) == nearest_sub_graph(self.builder_stack@.take(i as int)),
            decreases i,
        {
            assert(self.builder_stack@.take(i as int).drop_last() =~= self.builder_stack@.take(i - 1));
            if self.builder_stack[i - 1].establishes_sub_graph {
                self.builder_stack[i - 1].resolve_source = Some(surface_task_id);
                return;
            }
            i = i - 1;
        }
        assert(self.builder_stack@.take(0) =~= Seq::<CommandBufferBuilder>::empty());
    }

    /// Opens a scope for a surface, and directs primitives to its targets.
    pub fn push_surface(
        &mut self,
        surface_index: SurfaceIndex,
        is_sub_graph: bool,
        clipping_rect: IntRect,
        descriptor: SurfaceDescriptor,
        surfaces: &mut Vec<SurfaceInfo>,
        rg_builder: &RenderTaskGraphBuilder,
    )
        requires
            old(self).wf(),
            surface_index.0 < old(surfaces)@.len(),
            descriptor_wf(descriptor.kind),
            scope_on_pictures(scope_of(descriptor.kind, is_sub_graph).kind, rg_builder.tasks@),
        ensures
            final(self).wf(),
            final(surfaces)@ == old(surfaces)@.update(surface_index.0 as int, SurfaceInfo { clipping_rect }),
            final(self).builder_stack@ == old(self).builder_stack@.push(scope_of(descriptor.kind, is_sub_graph)),
            final(self).dirty_rect_stack@ == old(self).dirty_rect_stack@.push(descriptor.dirty_rects),
            targets_match(final(self).current_cmd_buffers, final(self).top_kind(), rg_builder.tasks@),
    {
        surfaces.set(surface_index.0, SurfaceInfo { clipping_rect });
        let SurfaceDescriptor { kind, dirty_rects } = descriptor;
        self.dirty_rect_stack.push(dirty_rects);
        let builder = match kind {
            SurfaceDescriptorKind::Tiled { tiles } => CommandBufferBuilder {
                kind: CommandBufferBuilderKind::Tiled { tiles },
                establishes_sub_graph: is_sub_graph,
                resolve_source: None,
            },
            SurfaceDescriptorKind::Simple { render_task_id } => CommandBufferBuilder {
                kind: CommandBufferBuilderKind::Simple { render_task_id, root_task_id: None },
                establishes_sub_graph: is_sub_graph,
                resolve_source: None,
            },
            SurfaceDescriptorKind::Chained { render_task_id, root_task_id } => CommandBufferBuilder {
                kind: CommandBufferBuilderKind::Simple { render_task_id, root_task_id: Some(root_task_id) },
                establishes_sub_graph: is_sub_graph,
                resolve_source: None,
            },
        };
        self.current_cmd_buffers = targets_for(&builder.kind, rg_builder);
        self.builder_stack.push(builder);
        assert(self.builder_stack@.last() == scope_of(kind, is_sub_graph));
    }

    /// Makes every task of the current surface depend on `child_task_id`
    /// (e.g. a clip mask or a cached render task).
    pub fn add_child_render_task(&mut self, child_task_id: RenderTaskId, rg_builder: &mut RenderTaskGraphBuilder)
        requires
            old(self).depth() > 0,
        ensures
            *final(self) == *old(self),
            final(rg_builder).tasks@ == old(rg_builder).tasks@,
            final(rg_builder).edges@ == old(rg_builder).edges@ + edges_to(scope_tasks(old(self).top().kind), child_task_id),
    {
        let n = self.builder_stack.len();
        add_edges_from_scope(&self.builder_stack[n - 1].kind, child_task_id, rg_builder);
    }

    /// True when the primitive is visible and its coverage meets a dirty rect of the current surface.
    pub fn is_prim_visible_and_in_dirty_region(&self, vis: &PrimitiveVisibility) -> (r: bool)
        requires
            !(vis.state is Unset),
            vis.state is Visible ==> self.dirty_rect_stack@.len() > 0,
        ensures
            r == match vis.state {
                VisibilityState::Visible { .. } => exists|i: int|
                    0 <= i < self.dirty_rect_stack@.last()@.len() && rects_intersect(
                        #[trigger] self.dirty_rect_stack@.last()@[i],
                        vis.pic_coverage_rect,
                    ),
                VisibilityState::Culled => false,
                _ => true,
            },
    {
        match vis.state {
            VisibilityState::Visible { .. } => {
                let n = self.dirty_rect_stack.len();
                let rects = &self.dirty_rect_stack[n - 1];
                let mut i: usize = 0;
                while i < rects.len()
                    invariant
                        i <= rects@.len(),
                        *rects == self.dirty_rect_stack@.last(),
                        vis.state is Visible,
                        forall|j: int| 0 <= j < i ==> !rects_intersect(#[trigger] rects@[j], vis.pic_coverage_rect),
                    decreases rects@.len() - i,
                {
                    if rects[i].intersects(&vis.pic_coverage_rect) {
                        assert(self.dirty_rect_stack@.last()@[i as int] == rects@[i as int]);

                        return true;
                    }
                    i = i + 1;
                }
                false
            },
            VisibilityState::Culled => false,
            _ => true,
        }
    }

    /// Adds a visible primitive to the command buffers of the current targets that its tiles reach.
    pub fn push_prim(
        &mut self,
        prim_instance_index: usize,
        spatial_node_index: usize,
        vis: &PrimitiveVisibility,
        gpu_address: Option<GpuCacheAddress>,
        cmd_buffers: &mut CommandBufferList,
    )
        requires
            !(vis.state is Unset),
            vis.state is Visible ==> targets_below(old(self).current_cmd_buffers, old(cmd_buffers).count),
        ensures
            *final(self) == *old(self),
            final(cmd_buffers).count == old(cmd_buffers).count,
            final(cmd_buffers).commands@ == old(cmd_buffers).commands@ + match vis.state {
                VisibilityState::Visible { tile_rect, sub_slice_index } => match old(self).current_cmd_buffers {
                    CommandBufferTargets::Tiled { tiles } => rect_commands(
                        tiles@,
                        tile_rect,
                        tile_rect.max.y as int,
                        sub_slice_index,
                        PrimitiveCommand { cmd_buffer_index: 0, prim_instance_index, spatial_node_index, gpu_address },
                    ),
                    CommandBufferTargets::Simple { cmd_buffer_index } => seq![
                        PrimitiveCommand { cmd_buffer_index, prim_instance_index, spatial_node_index, gpu_address },
                    ],
                },
                _ => seq![],
            },
    {
        match vis.state {
            VisibilityState::Visible { tile_rect, sub_slice_index } => {
                self.current_cmd_buffers.push_prim(
                    prim_instance_index,
                    spatial_node_index,
                    tile_rect,
                    sub_slice_index,
                    gpu_address,
                    cmd_buffers,
                );
            },
            _ => {
                assert(cmd_buffers.commands@ =~= cmd_buffers.commands@ + seq![]);
            },
        }
    }

    /// The scope under the top one.
    pub open spec fn parent(&self) -> CommandBufferBuilder {
        self.builder_stack@[self.builder_stack@.len() - 2]
    }

    /// Where the registered resolve target of the top scope draws its content, in its raster space.
    pub open spec fn resolve_origin(&self, tasks: Seq<RenderTask>, offsets: Seq<Option<IntPoint>>) -> Option<IntPoint> {
        let r = self.top().resolve_source->Some_0;
        let info = picture_of(tasks, r);
        mapped_point(offsets, info.surface_spatial_node_index, info.raster_spatial_node_index, info.content_origin)
    }

    /// What popping the top scope needs: a scope to pop; a parent scope for a simple or
    /// sub-graph scope, whose tasks are pictures; and, for a sub-graph, a simple surface
    /// and a registered picture task to resolve into whose origin maps into its raster space.
    pub open spec fn can_pop(&self, tasks: Seq<RenderTask>, cmd_count: usize, offsets: Seq<Option<IntPoint>>) -> bool {
        let n = self.depth();
        &&& n > 0
        &&& (self.top().kind is Simple || self.top().establishes_sub_graph) ==> n >= 2
        &&& n >= 2 ==> scope_on_pictures(self.parent().kind, tasks)
        &&& !(self.top().kind is Tiled && self.top().establishes_sub_graph)
        &&& self.top().establishes_sub_graph ==> {
            &&& self.top().resolve_source matches Some(r) && is_picture_in(tasks, r)
            &&& self.resolve_origin(tasks, offsets) is Some
            &&& tasks.len() + scope_tasks(self.parent().kind).len() < usize::MAX
            &&& cmd_count + scope_tasks(self.parent().kind).len() < usize::MAX
        }
    }

    /// Closes the top scope and wires its output into the graph, then directs primitives
    /// to the scope below.
    ///
    /// For an ordinary scope, every task of the parent scope depends on the popped scope's
    /// output (a tiled scope, being a root, adds nothing). For a sub-graph, each parent task
    /// resolves into the registered target, which depends on it, and is taken over by a new
    /// task that draws to the same place and depends on the sub-graph's output.
    pub fn pop_surface(
        &mut self,
        rg_builder: &mut RenderTaskGraphBuilder,
        cmd_buffers: &mut CommandBufferList,
        spatial_tree: &SpatialTree,
    )
        requires
            old(self).wf(),
            old(self).can_pop(old(rg_builder).tasks@, old(cmd_buffers).count, spatial_tree.offsets@),
        ensures
            final(self).wf(),
            final(self).depth() == old(self).depth() - 1,
            final(self).dirty_rect_stack@ == old(self).dirty_rect_stack@.drop_last(),
            targets_match(final(self).current_cmd_buffers, final(self).top_kind(), final(rg_builder).tasks@),
            final(cmd_buffers).commands@ == old(cmd_buffers).commands@,
            !old(self).top().establishes_sub_graph ==> {
                &&& final(self).builder_stack@ == old(self).builder_stack@.drop_last()
                &&& final(rg_builder).tasks@ == old(rg_builder).tasks@
                &&& final(rg_builder).edges@ == old(rg_builder).edges@ + if old(self).top().kind is Tiled {
                    Seq::empty()
                } else {
                    edges_to(scope_tasks(old(self).parent().kind), scope_output(old(self).top().kind))
                }
                &&& final(cmd_buffers).count == old(cmd_buffers).count
            },
            old(self).top().establishes_sub_graph ==> ({
                let parent = old(self).parent();
                let parents = scope_tasks(parent.kind);
                let dest = old(self).top().resolve_source->Some_0;
                let origin = old(self).resolve_origin(old(rg_builder).tasks@, spatial_tree.offsets@)->Some_0;
                let first_new = old(rg_builder).tasks@.len() as int;
                &&& forall|i: int| 0 <= i < final(self).depth() - 1 ==> #[trigger] final(self).builder_stack@[i]
                    == old(self).builder_stack@[i]
                &&& final(self).top().establishes_sub_graph == parent.establishes_sub_graph
                &&& final(self).top().resolve_source == parent.resolve_source
                &&& replaced_scope(parent.kind, final(self).top().kind, first_new)
                &&& final(rg_builder).tasks@ == resolved_tasks(old(rg_builder).tasks@, parents, origin, dest)
                    + replacement_tasks(old(rg_builder).tasks@, parents, parent.kind is Tiled, old(cmd_buffers).count as int)
                &&& final(rg_builder).edges@ == old(rg_builder).edges@ + resolve_edges(
                    parents,
                    dest,
                    first_new,
                    scope_output(old(self).top().kind),
                )
                &&& final(cmd_buffers).count == old(cmd_buffers).count + parents.len()
            }),
    {
        let ghost old_tasks = rg_builder.tasks@;
        let ghost old_edges = rg_builder.edges@;
        let ghost old_count = cmd_buffers.count;
        let ghost old_stack = self.builder_stack@;
        self.dirty_rect_stack.pop();
        let builder = match self.builder_stack.pop() {
            Some(b) => b,
            None => {
                return;
            },
        };
        assert(self.builder_stack@ =~= old_stack.drop_last());
        assert(builder == old_stack.last());
        assert(scope_wf(old_stack[old_stack.len() - 1]));
        if builder.establishes_sub_graph {
            let (child_task_id, child_root_task_id) = match builder.kind {
                CommandBufferBuilderKind::Simple { render_task_id, root_task_id } => (render_task_id, root_task_id),
                CommandBufferBuilderKind::Tiled { .. } => {
                    return;
                },
            };
            let output = match child_root_task_id {
                Some(root) => root,
                None => child_task_id,
            };
            let resolve_task_id = match builder.resolve_source {
                Some(r) => r,
                None => {
                    return;
                },
            };
            let dest_task = rg_builder.get_task(resolve_task_id);
            let dest_origin = match dest_task.kind {
                RenderTaskKind::Picture(info) => {
                    match spatial_tree.map_point(
                        info.surface_spatial_node_index,
                        info.raster_spatial_node_index,
                        info.content_origin,
                    ) {
                        Some(p) => p,
                        None => {
                            return;
                        },
                    }
                },
                _ => {
                    return;
                },
            };
            let parent = match self.builder_stack.pop() {
                Some(p) => p,
                None => {
                    return;
                },
            };
            assert(parent == old_stack[old_stack.len() - 2]);
            let ghost parents = scope_tasks(parent.kind);
            let ghost tiled = parent.kind is Tiled;
            let CommandBufferBuilder { kind: parent_kind, establishes_sub_graph, resolve_source } = parent;
            assert(forall|k: int| 0 <= k < parents.len() ==> is_picture_in(old_tasks, #[trigger] parents[k]));
            let new_kind = match parent_kind {
                CommandBufferBuilderKind::Tiled { tiles } => {
                    let mut new_tiles: Vec<(TileKey, RenderTaskId)> = Vec::new();
                    let mut i: usize = 0;
                    assert(resolved_tasks(old_tasks, parents.take(0), dest_origin, resolve_task_id) =~= old_tasks);
                    assert(replacement_tasks(old_tasks, parents.take(0), true, old_count as int) =~= Seq::<RenderTask>::empty());
                    assert(old_tasks + Seq::<RenderTask>::empty() =~= old_tasks);
                    assert(resolve_edges(parents.take(0), resolve_task_id, old_tasks.len() as int, output) =~= Seq::empty());
                    assert(old_edges + Seq::<(RenderTaskId, RenderTaskId)>::empty() =~= old_edges);
                    while i < tiles.len()
                        invariant
                            i <= tiles@.len(),
                            parents.len() == tiles@.len(),
                            forall|j: int| 0 <= j < tiles@.len() ==> #[trigger] parents[j] == tiles@[j].1,
                            forall|k: int| 0 <= k < parents.len() ==> is_picture_in(old_tasks, #[trigger] parents[k]),
                            old_tasks.len() + parents.len() < usize::MAX,
                            old_count + parents.len() < usize::MAX,
                            rg_builder.tasks@ == resolved_tasks(old_tasks, parents.take(i as int), dest_origin, resolve_task_id)
                                + replacement_tasks(old_tasks, parents.take(i as int), true, old_count as int),
                            rg_builder.edges@ == old_edges + resolve_edges(
                                parents.take(i as int),
                                resolve_task_id,
                                old_tasks.len() as int,
                                output,
                            ),
                            cmd_buffers.count == old_count + i,
                            cmd_buffers.commands@ == old(cmd_buffers).commands@,
                            new_tiles@.len() == i,
                            forall|j: int| 0 <= j < i ==> #[trigger] new_tiles@[j] == (
                                tiles@[j].0,
                                RenderTaskId((old_tasks.len() + j) as usize),
                            ),
                        decreases tiles@.len() - i,
                    {
                        let (key, parent_task_id) = tiles[i];
                        proof {
                            lemma_resolve_step(old_tasks, parents, i as int, true, old_count as int, dest_origin, resolve_task_id);
                        }
                        let ghost edges_before = rg_builder.edges@;
                        let new_task_id = resolve_parent_task(
                            rg_builder,
                            cmd_buffers,
                            parent_task_id,
                            true,
                            resolve_task_id,
                            dest_origin,
                            output,
                        );
                        proof {
                            let t1 = parents.take(i + 1);
                            assert(t1.drop_last() =~= parents.take(i as int));
                            assert(t1.last() == parent_task_id);
                            assert(rg_builder.edges@ =~= old_edges + resolve_edges(t1, resolve_task_id, old_tasks.len() as int, output));
                        }
                        new_tiles.push((key, new_task_id));
                        i = i + 1;
                    }
                    assert(parents.take(i as int) =~= parents);
                    CommandBufferBuilderKind::Tiled { tiles: new_tiles }
                },
                CommandBufferBuilderKind::Simple { render_task_id, root_task_id } => {
                    proof {
                        assert(parents[0] == render_task_id);
                        lemma_resolve_step(old_tasks, parents, 0, false, old_count as int, dest_origin, resolve_task_id);
                        assert(parents.take(1) =~= parents);
                        assert(resolved_tasks(old_tasks, parents.take(0), dest_origin, resolve_task_id) =~= old_tasks);
                        assert(replacement_tasks(old_tasks, parents.take(0), false, old_count as int) =~= Seq::<RenderTask>::empty());
                        assert(old_tasks + Seq::<RenderTask>::empty() =~= old_tasks);
                        assert(parents.drop_last() =~= Seq::<RenderTaskId>::empty());
                    }
                    let new_task_id = resolve_parent_task(
                        rg_builder,
                        cmd_buffers,
                        render_task_id,
                        false,
                        resolve_task_id,
                        dest_origin,
                        output,
                    );
                    proof {
                        assert(parents.len() == 1);
                        assert(parents.last() == render_task_id);
                        assert(resolve_edges(parents.drop_last(), resolve_task_id, old_tasks.len() as int, output) =~= Seq::empty());
                        assert(new_task_id == RenderTaskId((old_tasks.len() + parents.len() - 1) as usize));
                        assert(resolve_edges(parents, resolve_task_id, old_tasks.len() as int, output) =~= seq![
                            (resolve_task_id, render_task_id), (new_task_id, output)]);
                    }
                    assert(rg_builder.edges@ =~= old_edges + resolve_edges(parents, resolve_task_id, old_tasks.len() as int, output));
                    CommandBufferBuilderKind::Simple { render_task_id: new_task_id, root_task_id }
                },
            };
            self.builder_stack.push(CommandBufferBuilder { kind: new_kind, establishes_sub_graph, resolve_source });
            proof {
                let top = self.builder_stack@.last();
                assert(scope_wf(old_stack[old_stack.len() - 2]));
                assert(forall|j: int| 0 <= j < scope_tasks(top.kind).len() ==> #[trigger] scope_tasks(top.kind)[j]
                    == RenderTaskId((old_tasks.len() + j) as usize));
                assert(forall|j: int| 0 <= j < scope_tasks(top.kind).len() ==> is_picture_in(
                    rg_builder.tasks@, #[trigger] scope_tasks(top.kind)[j]));
                assert forall|i: int| 0 <= i < self.builder_stack@.len() implies scope_wf(#[trigger] self.builder_stack@[i]) by {
                    if i < self.builder_stack@.len() - 1 {
                        assert(self.builder_stack@[i] == old_stack[i]);
                    }
                }
            }
        } else {
            match builder.kind {
                CommandBufferBuilderKind::Tiled { .. } => {
                    assert(rg_builder.edges@ =~= old_edges + Seq::<(RenderTaskId, RenderTaskId)>::empty());
                },
                CommandBufferBuilderKind::Simple { render_task_id, root_task_id } => {
                    let output = match root_task_id {
                        Some(root) => root,
                        None => render_task_id,
                    };
                    let n = self.builder_stack.len();
                    add_edges_from_scope(&self.builder_stack[n - 1].kind, output, rg_builder);
                },
            }
        }
        let n = self.builder_stack.len();
        if n > 0 {
            self.current_cmd_buffers = targets_for(&self.builder_stack[n - 1].kind, rg_builder);
        } else {
            self.current_cmd_buffers = CommandBufferTargets::Tiled { tiles: Vec::new() };
        }
    }

    /// Ends the frame's surface building: `Err` with the number of scopes still open
    /// unless every push was matched by a pop. An unbalanced stack is an upstream bug that
    /// must abort the frame; it is reported rather than excluded so that callers can detect it.
    pub fn finalize(self) -> (r: Result<(), usize>)
        ensures
            r is Ok <==> self.depth() == 0,
            r matches Err(n) ==> n == self.depth(),
    {
        if self.builder_stack.len() == 0 {
            Ok(())
        } else {
            Err(self.builder_stack.len())
        }
    }
}

/// Adds an edge from each task of the scope `kind` to `child`.
fn add_edges_from_scope(kind: &CommandBufferBuilderKind, child: RenderTaskId, rg_builder: &mut RenderTaskGraphBuilder)
    ensures
        final(rg_builder).tasks@ == old(rg_builder).tasks@,
        final(rg_builder).edges@ == old(rg_builder).edges@ + edges_to(scope_tasks(*kind), child),
{
    match kind {
        CommandBufferBuilderKind::Tiled { tiles } => {
            let mut i: usize = 0;
            while i < tiles.len()
                invariant
                    i <= tiles@.len(),
                    *kind == (CommandBufferBuilderKind::Tiled { tiles: *tiles }),
                    rg_builder.tasks@ == old(rg_builder).tasks@,
                    rg_builder.edges@ == old(rg_builder).edges@ + edges_to(scope_tasks(*kind).take(i as int), child),
                decreases tiles@.len() - i,
            {
                rg_builder.add_dependency(tiles[i].1, child);
                assert(scope_tasks(*kind).take(i + 1) =~= scope_tasks(*kind).take(i as int).push(tiles@[i as int].1));
                assert(edges_to(scope_tasks(*kind).take(i + 1), child) =~= edges_to(scope_tasks(*kind).take(i as int), child).push((tiles@[i as int].1, child)));
                i = i + 1;
            }
            assert(scope_tasks(*kind).take(i as int) =~= scope_tasks(*kind));
        },
        CommandBufferBuilderKind::Simple { render_task_id, .. } => {
            rg_builder.add_dependency(*render_task_id, child);
            assert(edges_to(scope_tasks(*kind), child) =~= seq![(*render_task_id, child)]);
        },
    }
}

/// The resolve that a sub-graph pop attaches to the parent task `p`.
pub open spec fn resolve_of(p: RenderTaskId, dest_origin: IntPoint, dest: RenderTaskId) -> ResolveOp {
    ResolveOp { src_task_id: p, dest_origin, dest_task_id: dest }
}

/// The picture task `t`, resolving through `op` once drawn.
pub open spec fn with_resolve(t: RenderTask, op: ResolveOp) -> RenderTask {
    RenderTask {
        kind: RenderTaskKind::Picture(PictureTask { resolve_op: Some(op), ..t.kind->Picture_0 }),
        ..t
    }
}

/// `tasks` with each of `parents` resolving into `dest` at `dest_origin`.
pub open spec fn resolved_tasks(tasks: Seq<RenderTask>, parents: Seq<RenderTaskId>, dest_origin: IntPoint, dest: RenderTaskId) -> Seq<
    RenderTask,
> {
    Seq::new(
        tasks.len(),
        |j: int|
            if parents.contains(RenderTaskId(j as usize)) {
                with_resolve(tasks[j], resolve_of(RenderTaskId(j as usize), dest_origin, dest))
            } else {
                tasks[j]
            },
    )
}

/// Where the task that takes over from parent `p` draws: a tile's own location,
/// or the area that the single parent task draws to.
pub open spec fn replacement_location(tiled: bool, p: RenderTaskId, loc: RenderTaskLocation) -> RenderTaskLocation {
    if tiled {
        loc
    } else {
        RenderTaskLocation::Existing { parent_task_id: p, size: location_size(loc) }
    }
}

/// The task that takes over from parent `p`, drawing into the command buffer `c`.
pub open spec fn replacement_task(tasks: Seq<RenderTask>, p: RenderTaskId, tiled: bool, c: usize) -> RenderTask {
    RenderTask {
        location: replacement_location(tiled, p, tasks[p.0 as int].location),
        kind: RenderTaskKind::Picture(duplicated(picture_of(tasks, p), c)),
        saved: false,
    }
}

/// The tasks that take over from `parents`, the i-th drawing into command buffer `first_cmd + i`.
pub open spec fn replacement_tasks(tasks: Seq<RenderTask>, parents: Seq<RenderTaskId>, tiled: bool, first_cmd: int) -> Seq<
    RenderTask,
> {
    Seq::new(parents.len(), |i: int| replacement_task(tasks, parents[i], tiled, (first_cmd + i) as usize))
}

/// The edges of a sub-graph pop: per parent, the resolve target depends on it, and its
/// replacement (ids from `first_new` on) depends on the sub-graph's output.
pub open spec fn resolve_edges(parents: Seq<RenderTaskId>, dest: RenderTaskId, first_new: int, output: RenderTaskId) -> Seq<
    (RenderTaskId, RenderTaskId),
>
    decreases parents.len(),
{
    if parents.len() == 0 {
        seq![]
    } else {
        resolve_edges(parents.drop_last(), dest, first_new, output) + seq![
            (dest, parents.last()),
            (RenderTaskId((first_new + parents.len() - 1) as usize), output),
        ]
    }
}

/// `new` is the scope `old` with its i-th task replaced by the task `first_new + i`.
pub open spec fn replaced_scope(old: CommandBufferBuilderKind, new: CommandBufferBuilderKind, first_new: int) -> bool {
    match old {
        CommandBufferBuilderKind::Tiled { tiles: a } => match new {
            CommandBufferBuilderKind::Tiled { tiles: b } => {
                &&& b@.len() == a@.len()
                &&& forall|i: int| 0 <= i < a@.len() ==> #[trigger] b@[i] == (a@[i].0, RenderTaskId((first_new + i) as usize))
            },
            _ => false,
        },
        CommandBufferBuilderKind::Simple { root_task_id: r1, .. } => match new {
            CommandBufferBuilderKind::Simple { render_task_id, root_task_id: r2 } => {
                render_task_id == RenderTaskId(first_new as usize) && r1 == r2
            },
            _ => false,
        },
    }
}

/// A sub-graph pop gives each parent task exactly one resolve, into the resolve target
/// and from the parent itself, and makes the resolve target depend on each parent task;
/// it adds two edges per parent.
pub proof fn lemma_sub_graph_resolves(
    tasks: Seq<RenderTask>,
    parents: Seq<RenderTaskId>,
    dest_origin: IntPoint,
    dest: RenderTaskId,
    first_new: int,
    output: RenderTaskId,
)
    requires
        tasks.len() < usize::MAX,
        forall|k: int| 0 <= k < parents.len() ==> is_picture_in(tasks, #[trigger] parents[k]),
    ensures
        forall|k: int| 0 <= k < parents.len() ==> {
            let t = #[trigger] resolved_tasks(tasks, parents, dest_origin, dest)[parents[k].0 as int];
            &&& t.kind is Picture
            &&& t.kind->Picture_0.resolve_op == Some(resolve_of(parents[k], dest_origin, dest))
        },
        forall|k: int| 0 <= k < parents.len() ==> resolve_edges(parents, dest, first_new, output).contains(
            (dest, #[trigger] parents[k]),
        ),
        resolve_edges(parents, dest, first_new, output).len() == 2 * parents.len(),
    decreases parents.len(),
{
    assert forall|k: int| 0 <= k < parents.len() implies {
        let t = #[trigger] resolved_tasks(tasks, parents, dest_origin, dest)[parents[k].0 as int];
        &&& t.kind is Picture
        &&& t.kind->Picture_0.resolve_op == Some(resolve_of(parents[k], dest_origin, dest))
    } by {
        let p = parents[k];
        assert(is_picture_in(tasks, p));
        assert(RenderTaskId(p.0 as usize) == p);
        assert(parents.contains(p));
    }
    if parents.len() > 0 {
        let rest = parents.drop_last();
        lemma_sub_graph_resolves(tasks, rest, dest_origin, dest, first_new, output);
        let e = resolve_edges(parents, dest, first_new, output);
        let er = resolve_edges(rest, dest, first_new, output);
        assert forall|k: int| 0 <= k < parents.len() implies e.contains((dest, #[trigger] parents[k])) by {
            if k < parents.len() - 1 {
                assert(rest[k] == parents[k]);
                assert(er.contains((dest, rest[k])));
                let m = choose|m: int| 0 <= m < er.len() && #[trigger] er[m] == (dest, rest[k]);
                assert(e[m] == er[m]);
            } else {
                assert(e[er.len() as int] == (dest, parents[k]));
            }
        }
    }
}

/// Pushing a surface that starts no sub-graph and popping it again leaves the stack as it
/// was and adds exactly one edge from each task of the enclosing scope to the surface's
/// output (its chain's last task for a chained surface); a tiled surface adds none.
pub proof fn lemma_push_pop_edges(
    before: SurfaceBuilder,
    pushed: SurfaceBuilder,
    kind: SurfaceDescriptorKind,
    edges_before: Seq<(RenderTaskId, RenderTaskId)>,
    popped: SurfaceBuilder,
    edges_after: Seq<(RenderTaskId, RenderTaskId)>,
)
    requires
        before.depth() > 0,
        pushed.builder_stack@ == before.builder_stack@.push(scope_of(kind, false)),
        !pushed.top().establishes_sub_graph ==> {
            &&& popped.builder_stack@ == pushed.builder_stack@.drop_last()
            &&& edges_after == edges_before + if pushed.top().kind is Tiled {
                Seq::empty()
            } else {
                edges_to(scope_tasks(pushed.parent().kind), scope_output(pushed.top().kind))
            }
        },
    ensures
        popped.builder_stack@ == before.builder_stack@,
        edges_after.len() == edges_before.len() + if kind is Tiled {
            0
        } else {
            scope_tasks(before.top().kind).len()
        },
        !(kind is Tiled) ==> forall|i: int| 0 <= i < scope_tasks(before.top().kind).len() ==>
            #[trigger] edges_after[edges_before.len() + i] == (
                scope_tasks(before.top().kind)[i],
                match kind {
                    SurfaceDescriptorKind::Chained { root_task_id, .. } => root_task_id,
                    SurfaceDescriptorKind::Simple { render_task_id } => render_task_id,
                    SurfaceDescriptorKind::Tiled { .. } => RenderTaskId(0),
                },
            ),
{
    assert(pushed.builder_stack@.drop_last() =~= before.builder_stack@);
    assert(pushed.parent() == before.top());
}

/// A builder that starts empty is empty again, so that `finalize` succeeds, after a push
/// and its matching pop; after the push alone one scope is open and `finalize` fails.
pub proof fn lemma_balanced_stack(before: SurfaceBuilder, pushed: SurfaceBuilder, b: CommandBufferBuilder, popped: SurfaceBuilder)
    requires
        before.depth() == 0,
        pushed.builder_stack@ == before.builder_stack@.push(b),
        popped.depth() == pushed.depth() - 1,
    ensures
        pushed.depth() == 1,
        popped.depth() == 0,
{
}

/// The edges of a sub-graph pop, two per parent: first the resolve target's edge to the
/// parent, then the replacement's edge to the sub-graph's output.
pub proof fn lemma_resolve_edges_layout(parents: Seq<RenderTaskId>, dest: RenderTaskId, first_new: int, output: RenderTaskId)
    ensures
        resolve_edges(parents, dest, first_new, output).len() == 2 * parents.len(),
        forall|i: int| 0 <= i < parents.len() ==> {
            &&& #[trigger] resolve_edges(parents, dest, first_new, output)[2 * i] == (dest, parents[i])
            &&& resolve_edges(parents, dest, first_new, output)[2 * i + 1] == (
                RenderTaskId((first_new + i) as usize),
                output,
            )
        },
    decreases parents.len(),
{
    if parents.len() > 0 {
        let rest = parents.drop_last();
        lemma_resolve_edges_layout(rest, dest, first_new, output);
        let e = resolve_edges(parents, dest, first_new, output);
        let er = resolve_edges(rest, dest, first_new, output);
        assert forall|i: int| 0 <= i < parents.len() implies {
            &&& #[trigger] resolve_edges(parents, dest, first_new, output)[2 * i] == (dest, parents[i])
            &&& resolve_edges(parents, dest, first_new, output)[2 * i + 1] == (
                RenderTaskId((first_new + i) as usize),
                output,
            )
        } by {
            assert(er.len() == 2 * rest.len());
            if i < rest.len() {
                assert(er[2 * i] == (dest, rest[i]));
                assert(e[2 * i] == er[2 * i]);
                assert(e[2 * i + 1] == er[2 * i + 1]);
            } else {
                assert(i == rest.len());
                assert(e[2 * i] == (dest, parents.last()));
                assert(e[2 * i + 1] == (RenderTaskId((first_new + parents.len() - 1) as usize), output));
            }
        }
        assert(e.len() == 2 * parents.len());
    } else {
        assert(resolve_edges(parents, dest, first_new, output).len() == 0);
    }
}

/// When the parent scope names each task once, a sub-graph pop makes the resolve target
/// depend on each parent task through exactly one edge.
pub proof fn lemma_resolve_edge_once(
    parents: Seq<RenderTaskId>,
    dest: RenderTaskId,
    first_new: int,
    output: RenderTaskId,
    k: int,
    m: int,
)
    requires
        parents.no_duplicates(),
        dest.0 < first_new,
        first_new + parents.len() <= usize::MAX,
        0 <= k < parents.len(),
        0 <= m < resolve_edges(parents, dest, first_new, output).len(),
        resolve_edges(parents, dest, first_new, output)[m] == (dest, parents[k]),
    ensures
        m == 2 * k,
{
    lemma_resolve_edges_layout(parents, dest, first_new, output);
    let e = resolve_edges(parents, dest, first_new, output);
    let i = m / 2;
    if m % 2 == 0 {
        assert(m == 2 * i);
        assert(e[2 * i] == (dest, parents[i]));
    } else {
        assert(m == 2 * i + 1);
        assert(e[2 * i] == (dest, parents[i]));
        assert(e[2 * i + 1] == (RenderTaskId((first_new + i) as usize), output));
    }
}

/// Replacing a scope's tasks keeps their number.
pub proof fn lemma_replaced_scope_len(old: CommandBufferBuilderKind, new: CommandBufferBuilderKind, first_new: int)
    requires
        replaced_scope(old, new, first_new),
    ensures
        scope_tasks(new).len() == scope_tasks(old).len(),
{
}

proof fn lemma_take_contains(s: Seq<RenderTaskId>, i: int, x: RenderTaskId)
    requires
        0 <= i < s.len(),
    ensures
        s.take(i + 1).contains(x) <==> (s.take(i).contains(x) || s[i] == x),
{
    if s.take(i + 1).contains(x) {
        let k = choose|k: int| 0 <= k < s.take(i + 1).len() && #[trigger] s.take(i + 1)[k] == x;
        if k < i {
            assert(s.take(i)[k] == x);
        }
    }
    if s.take(i).contains(x) {
        let k = choose|k: int| 0 <= k < s.take(i).len() && #[trigger] s.take(i)[k] == x;
        assert(s.take(i + 1)[k] == x);
    }
    if s[i] == x {
        assert(s.take(i + 1)[i] == x);
    }
}

/// One more parent resolved and replaced extends the tasks of the first `i` parents.
proof fn lemma_resolve_step(
    tasks: Seq<RenderTask>,
    parents: Seq<RenderTaskId>,
    i: int,
    tiled: bool,
    first_cmd: int,
    dest_origin: IntPoint,
    dest: RenderTaskId,
)
    requires
        0 <= i < parents.len(),
        tasks.len() < usize::MAX,
        forall|k: int| 0 <= k < parents.len() ==> is_picture_in(tasks, #[trigger] parents[k]),
    ensures
        ({
            let cur = resolved_tasks(tasks, parents.take(i), dest_origin, dest) + replacement_tasks(
                tasks,
                parents.take(i),
                tiled,
                first_cmd,
            );
            let p = parents[i];
            &&& is_picture_in(cur, p)
            &&& cur.update(p.0 as int, with_resolve(cur[p.0 as int], resolve_of(p, dest_origin, dest))).push(
                replacement_task(cur, p, tiled, (first_cmd + i) as usize),
            ) == resolved_tasks(tasks, parents.take(i + 1), dest_origin, dest) + replacement_tasks(
                tasks,
                parents.take(i + 1),
                tiled,
                first_cmd,
            )
        }),
{
    let cur = resolved_tasks(tasks, parents.take(i), dest_origin, dest) + replacement_tasks(
        tasks,
        parents.take(i),
        tiled,
        first_cmd,
    );
    let p = parents[i];
    let op = resolve_of(p, dest_origin, dest);
    assert(is_picture_in(tasks, p));
    assert(RenderTaskId(p.0 as usize) == p);
    lemma_take_contains(parents, i, p);
    assert(replacement_task(cur, p, tiled, (first_cmd + i) as usize) == replacement_task(
        tasks,
        p,
        tiled,
        (first_cmd + i) as usize,
    ));
    let lhs = cur.update(p.0 as int, with_resolve(cur[p.0 as int], op)).push(
        replacement_task(cur, p, tiled, (first_cmd + i) as usize),
    );
    let rhs = resolved_tasks(tasks, parents.take(i + 1), dest_origin, dest) + replacement_tasks(
        tasks,
        parents.take(i + 1),
        tiled,
        first_cmd,
    );
    assert forall|j: int| 0 <= j < lhs.len() implies lhs[j] == rhs[j] by {
        let n = tasks.len() as int;
        if j < n {
            let q = RenderTaskId(j as usize);
            lemma_take_contains(parents, i, q);
            assert(cur[j] == resolved_tasks(tasks, parents.take(i), dest_origin, dest)[j]);
            if j == p.0 {
                assert(q == p);
                assert(with_resolve(with_resolve(tasks[j], op), op) == with_resolve(tasks[j], op));
                assert(lhs[j] == with_resolve(cur[j], op));
                assert(rhs[j] == with_resolve(tasks[j], op));
            } else {
                assert(q.0 == j);
                assert(q != p);
                assert(lhs[j] == cur[j]);
            }
        } else if j < n + i {
            assert(parents.take(i + 1)[j - n] == parents.take(i)[j - n]);
            assert(lhs[j] == cur[j]);
            assert(cur[j] == replacement_tasks(tasks, parents.take(i), tiled, first_cmd)[j - n]);
            assert(rhs[j] == replacement_tasks(tasks, parents.take(i + 1), tiled, first_cmd)[j - n]);
        } else {
            assert(j == n + i);
            assert(parents.take(i + 1)[i] == p);
            assert(rhs[j] == replacement_tasks(tasks, parents.take(i + 1), tiled, first_cmd)[i]);
        }
    }
    assert(lhs =~= rhs);
}

/// Resolves the parent task `parent` into `dest` and makes a task that takes over from it,
/// drawing to the same place into a new command buffer and depending on `output`.
fn resolve_parent_task(
    rg_builder: &mut RenderTaskGraphBuilder,
    cmd_buffers: &mut CommandBufferList,
    parent: RenderTaskId,
    tiled: bool,
    dest: RenderTaskId,
    dest_origin: IntPoint,
    output: RenderTaskId,
) -> (new_id: RenderTaskId)
    requires
        is_picture_in(old(rg_builder).tasks@, parent),
        old(rg_builder).tasks@.len() < usize::MAX,
        old(cmd_buffers).count < usize::MAX,
    ensures
        new_id.0 == old(rg_builder).tasks@.len(),
        final(rg_builder).tasks@ == old(rg_builder).tasks@.update(
            parent.0 as int,
            with_resolve(old(rg_builder).tasks@[parent.0 as int], resolve_of(parent, dest_origin, dest)),
        ).push(replacement_task(old(rg_builder).tasks@, parent, tiled, old(cmd_buffers).count)),
        final(rg_builder).edges@ == old(rg_builder).edges@ + seq![(dest, parent), (new_id, output)],
        final(cmd_buffers).count == old(cmd_buffers).count + 1,
        final(cmd_buffers).commands@ == old(cmd_buffers).commands@,
{
    let parent_task = rg_builder.get_task(parent);
    let location = if tiled {
        parent_task.location
    } else {
        RenderTaskLocation::Existing { parent_task_id: parent, size: parent_task.location.size() }
    };
    let pic = match parent_task.kind {
        RenderTaskKind::Picture(pic) => pic,
        _ => {
            proof {
                assert(false);
            }
            return parent;
        },
    };
    let cmd_buffer_index = cmd_buffers.create_cmd_buffer();
    let new_pic = pic.duplicate(cmd_buffer_index);
    let resolve_op = ResolveOp { src_task_id: parent, dest_origin, dest_task_id: dest };
    rg_builder.set_task(
        parent,
        RenderTask { kind: RenderTaskKind::Picture(PictureTask { resolve_op: Some(resolve_op), ..pic }), ..parent_task },
    );
    rg_builder.add_dependency(dest, parent);
    let new_id = rg_builder.add(RenderTask::new(location, RenderTaskKind::Picture(new_pic)));
    rg_builder.add_dependency(new_id, output);
    assert(rg_builder.edges@ =~= old(rg_builder).edges@ + seq![(dest, parent), (new_id, output)]);
    new_id
}

} // verus!
