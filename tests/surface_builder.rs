use webrender::geom::{IntPoint, IntRect, IntSize};
use webrender::graph::{
    CommandBufferList, PictureTask, RenderTask, RenderTaskGraphBuilder, RenderTaskId, RenderTaskKind,
    RenderTaskLocation, ResolveOp, SpatialTree,
};
use webrender::surface::{
    CommandBufferBuilderKind, PrimitiveVisibility, SurfaceBuilder, SurfaceDescriptor, SurfaceIndex, SurfaceInfo,
    TileKey, VisibilityState,
};

fn rect(x0: i32, y0: i32, x1: i32, y1: i32) -> IntRect {
    IntRect::new(x0, y0, x1, y1)
}

fn tile(x: i32, y: i32) -> TileKey {
    TileKey { tile_offset: IntPoint { x, y }, sub_slice_index: 0 }
}

/// Adds a picture task drawing into a new command buffer.
fn add_pic(rg: &mut RenderTaskGraphBuilder, cmds: &mut CommandBufferList, location: RenderTaskLocation) -> RenderTaskId {
    let cmd_buffer_index = cmds.create_cmd_buffer();
    rg.add(RenderTask::new(
        location,
        RenderTaskKind::Picture(PictureTask {
            prim_index: 0,
            unclipped_size: IntSize { width: 100, height: 100 },
            content_origin: IntPoint { x: 10, y: 20 },
            surface_spatial_node_index: 1,
            raster_spatial_node_index: 0,
            cmd_buffer_index,
            resolve_op: None,
        }),
    ))
}

fn dynamic() -> RenderTaskLocation {
    RenderTaskLocation::Dynamic(IntSize { width: 100, height: 100 })
}

fn surfaces() -> Vec<SurfaceInfo> {
    vec![SurfaceInfo { clipping_rect: IntRect::zero() }; 4]
}

fn visible(coverage: IntRect) -> PrimitiveVisibility {
    PrimitiveVisibility {
        state: VisibilityState::Visible { tile_rect: rect(0, 0, 1, 1), sub_slice_index: 0 },
        pic_coverage_rect: coverage,
    }
}

fn no_spatial() -> SpatialTree {
    SpatialTree { offsets: vec![] }
}

#[test]
fn simple_pop_adds_one_edge_to_parent() {
    let mut rg = RenderTaskGraphBuilder::new();
    let mut cmds = CommandBufferList::new();
    let parent = add_pic(&mut rg, &mut cmds, dynamic());
    let child = add_pic(&mut rg, &mut cmds, dynamic());
    let mut sb = SurfaceBuilder::new();
    let mut infos = surfaces();
    sb.push_surface(SurfaceIndex(0), false, rect(0, 0, 5, 5), SurfaceDescriptor::new_simple(parent, rect(0, 0, 100, 100)), &mut infos, &rg);
    sb.push_surface(SurfaceIndex(1), false, rect(1, 1, 4, 4), SurfaceDescriptor::new_simple(child, rect(0, 0, 100, 100)), &mut infos, &rg);
    assert_eq!(infos[1].clipping_rect, rect(1, 1, 4, 4));
    sb.pop_surface(&mut rg, &mut cmds, &no_spatial());
    assert_eq!(rg.edges, vec![(parent, child)]);
    assert_eq!(sb.builder_stack.len(), 1);
}

#[test]
fn chained_pop_depends_on_root_task() {
    let mut rg = RenderTaskGraphBuilder::new();
    let mut cmds = CommandBufferList::new();
    let parent = add_pic(&mut rg, &mut cmds, dynamic());
    let child = add_pic(&mut rg, &mut cmds, dynamic());
    let root = add_pic(&mut rg, &mut cmds, dynamic());
    let mut sb = SurfaceBuilder::new();
    let mut infos = surfaces();
    sb.push_surface(SurfaceIndex(0), false, rect(0, 0, 5, 5), SurfaceDescriptor::new_simple(parent, rect(0, 0, 100, 100)), &mut infos, &rg);
    sb.push_surface(SurfaceIndex(1), false, rect(0, 0, 5, 5), SurfaceDescriptor::new_chained(child, root, rect(0, 0, 100, 100)), &mut infos, &rg);
    sb.pop_surface(&mut rg, &mut cmds, &no_spatial());
    assert_eq!(rg.edges, vec![(parent, root)]);
}

#[test]
fn tiled_parent_gets_one_edge_per_tile() {
    let mut rg = RenderTaskGraphBuilder::new();
    let mut cmds = CommandBufferList::new();
    let t0 = add_pic(&mut rg, &mut cmds, dynamic());
    let t1 = add_pic(&mut rg, &mut cmds, dynamic());
    let child = add_pic(&mut rg, &mut cmds, dynamic());
    let mut sb = SurfaceBuilder::new();
    let mut infos = surfaces();
    let tiles = vec![(tile(0, 0), t0), (tile(1, 0), t1)];
    sb.push_surface(SurfaceIndex(0), false, rect(0, 0, 5, 5), SurfaceDescriptor::new_tiled(tiles, vec![rect(0, 0, 100, 100)]), &mut infos, &rg);
    sb.push_surface(SurfaceIndex(1), false, rect(0, 0, 5, 5), SurfaceDescriptor::new_simple(child, rect(0, 0, 100, 100)), &mut infos, &rg);
    sb.pop_surface(&mut rg, &mut cmds, &no_spatial());
    assert_eq!(rg.edges, vec![(t0, child), (t1, child)]);
    // Popping the tiled root adds nothing.
    sb.pop_surface(&mut rg, &mut cmds, &no_spatial());
    assert_eq!(rg.edges.len(), 2);
    assert!(sb.finalize().is_ok());
}

#[test]
fn finalize_fails_with_unmatched_push() {
    let mut rg = RenderTaskGraphBuilder::new();
    let mut cmds = CommandBufferList::new();
    let t = add_pic(&mut rg, &mut cmds, dynamic());
    let mut sb = SurfaceBuilder::new();
    let mut infos = surfaces();
    sb.push_surface(SurfaceIndex(0), false, rect(0, 0, 5, 5), SurfaceDescriptor::new_simple(t, rect(0, 0, 10, 10)), &mut infos, &rg);
    assert_eq!(sb.finalize(), Err(1));
}

#[test]
fn finalize_succeeds_when_balanced() {
    let mut rg = RenderTaskGraphBuilder::new();
    let mut cmds = CommandBufferList::new();
    let t = add_pic(&mut rg, &mut cmds, dynamic());
    let mut sb = SurfaceBuilder::new();
    let mut infos = surfaces();
    sb.push_surface(SurfaceIndex(0), false, rect(0, 0, 5, 5), SurfaceDescriptor::new_tiled(vec![(tile(0, 0), t)], vec![]), &mut infos, &rg);
    sb.pop_surface(&mut rg, &mut cmds, &no_spatial());
    assert_eq!(sb.finalize(), Ok(()));
}

#[test]
fn dirty_region_visibility() {
    let mut rg = RenderTaskGraphBuilder::new();
    let mut cmds = CommandBufferList::new();
    let t = add_pic(&mut rg, &mut cmds, dynamic());
    let mut sb = SurfaceBuilder::new();
    let mut infos = surfaces();
    let dirty = vec![rect(0, 0, 10, 10), rect(50, 50, 60, 60)];
    sb.push_surface(SurfaceIndex(0), false, rect(0, 0, 5, 5), SurfaceDescriptor::new_tiled(vec![(tile(0, 0), t)], dirty), &mut infos, &rg);
    assert!(!sb.is_prim_visible_and_in_dirty_region(&visible(rect(20, 20, 30, 30))));
    assert!(!sb.is_prim_visible_and_in_dirty_region(&visible(rect(10, 0, 20, 10))));
    assert!(sb.is_prim_visible_and_in_dirty_region(&visible(rect(55, 55, 70, 70))));
    assert!(sb.is_prim_visible_and_in_dirty_region(&visible(rect(9, 9, 11, 11))));
    let culled = PrimitiveVisibility { state: VisibilityState::Culled, pic_coverage_rect: rect(0, 0, 10, 10) };
    assert!(!sb.is_prim_visible_and_in_dirty_region(&culled));
    let pass = PrimitiveVisibility { state: VisibilityState::PassThrough, pic_coverage_rect: rect(200, 200, 210, 210) };
    assert!(sb.is_prim_visible_and_in_dirty_region(&pass));
}

#[test]
fn push_prim_fans_out_to_registered_tiles() {
    let mut rg = RenderTaskGraphBuilder::new();
    let mut cmds = CommandBufferList::new();
    let t0 = add_pic(&mut rg, &mut cmds, dynamic());
    let t1 = add_pic(&mut rg, &mut cmds, dynamic());
    let mut sb = SurfaceBuilder::new();
    let mut infos = surfaces();
    let tiles = vec![(tile(0, 0), t0), (tile(1, 1), t1)];
    sb.push_surface(SurfaceIndex(0), false, rect(0, 0, 5, 5), SurfaceDescriptor::new_tiled(tiles, vec![rect(0, 0, 100, 100)]), &mut infos, &rg);
    let vis = PrimitiveVisibility {
        state: VisibilityState::Visible { tile_rect: rect(0, 0, 2, 2), sub_slice_index: 0 },
        pic_coverage_rect: rect(0, 0, 100, 100),
    };
    sb.push_prim(7, 3, &vis, None, &mut cmds);
    assert_eq!(cmds.commands.len(), 2);
    assert_eq!(cmds.commands[0].cmd_buffer_index, 0);
    assert_eq!(cmds.commands[1].cmd_buffer_index, 1);
    assert_eq!(cmds.commands[1].prim_instance_index, 7);
    // Another sub-slice reaches no tile.
    let other = PrimitiveVisibility {
        state: VisibilityState::Visible { tile_rect: rect(0, 0, 2, 2), sub_slice_index: 1 },
        pic_coverage_rect: rect(0, 0, 100, 100),
    };
    sb.push_prim(8, 3, &other, None, &mut cmds);
    assert_eq!(cmds.commands.len(), 2);
    // Culled primitives are not added.
    let culled = PrimitiveVisibility { state: VisibilityState::Culled, pic_coverage_rect: rect(0, 0, 1, 1) };
    sb.push_prim(9, 3, &culled, None, &mut cmds);
    assert_eq!(cmds.commands.len(), 2);
}

#[test]
fn push_prim_simple_target() {
    let mut rg = RenderTaskGraphBuilder::new();
    let mut cmds = CommandBufferList::new();
    add_pic(&mut rg, &mut cmds, dynamic());
    let t = add_pic(&mut rg, &mut cmds, dynamic());
    let mut sb = SurfaceBuilder::new();
    let mut infos = surfaces();
    sb.push_surface(SurfaceIndex(0), false, rect(0, 0, 5, 5), SurfaceDescriptor::new_simple(t, rect(0, 0, 10, 10)), &mut infos, &rg);
    sb.push_prim(4, 2, &visible(rect(0, 0, 1, 1)), None, &mut cmds);
    assert_eq!(cmds.commands.len(), 1);
    assert_eq!(cmds.commands[0].cmd_buffer_index, 1);
    assert_eq!(cmds.commands[0].spatial_node_index, 2);
}

#[test]
fn child_render_task_reaches_every_tile() {
    let mut rg = RenderTaskGraphBuilder::new();
    let mut cmds = CommandBufferList::new();
    let t0 = add_pic(&mut rg, &mut cmds, dynamic());
    let t1 = add_pic(&mut rg, &mut cmds, dynamic());
    let mut sb = SurfaceBuilder::new();
    let mut infos = surfaces();
    let tiles = vec![(tile(0, 0), t0), (tile(0, 1), t1)];
    sb.push_surface(SurfaceIndex(0), false, rect(0, 0, 5, 5), SurfaceDescriptor::new_tiled(tiles, vec![]), &mut infos, &rg);
    sb.add_child_render_task(RenderTaskId(42), &mut rg);
    assert_eq!(rg.edges, vec![(t0, RenderTaskId(42)), (t1, RenderTaskId(42))]);
}

#[test]
fn sub_graph_pop_rewires_tiled_parent() {
    let mut rg = RenderTaskGraphBuilder::new();
    let mut cmds = CommandBufferList::new();
    let static_loc = |x: i32| RenderTaskLocation::Static { surface: 9, rect: IntRect::new(x, 0, x + 10, 10) };
    let t0 = add_pic(&mut rg, &mut cmds, static_loc(0));
    let t1 = add_pic(&mut rg, &mut cmds, static_loc(10));
    let blur_src = add_pic(&mut rg, &mut cmds, dynamic());
    let blur_out = add_pic(&mut rg, &mut cmds, dynamic());
    let resolve_target = add_pic(&mut rg, &mut cmds, dynamic());
    let mut sb = SurfaceBuilder::new();
    let mut infos = surfaces();
    let tiles = vec![(tile(0, 0), t0), (tile(1, 0), t1)];
    sb.push_surface(SurfaceIndex(0), false, rect(0, 0, 5, 5), SurfaceDescriptor::new_tiled(tiles, vec![rect(0, 0, 100, 100)]), &mut infos, &rg);
    sb.push_surface(SurfaceIndex(1), true, rect(0, 0, 5, 5), SurfaceDescriptor::new_chained(blur_src, blur_out, rect(0, 0, 100, 100)), &mut infos, &rg);
    sb.push_surface(SurfaceIndex(2), false, rect(0, 0, 5, 5), SurfaceDescriptor::new_simple(resolve_target, rect(0, 0, 100, 100)), &mut infos, &rg);
    sb.register_resolve_source();
    assert_eq!(sb.builder_stack[1].resolve_source, Some(resolve_target));
    sb.pop_surface(&mut rg, &mut cmds, &no_spatial());
    assert_eq!(rg.edges, vec![(blur_src, resolve_target)]);

    // Node 1 sits 3 pixels right of node 0, so the origin (10, 20) maps to (13, 20).
    let spatial = SpatialTree { offsets: vec![Some(IntPoint { x: 0, y: 0 }), Some(IntPoint { x: 3, y: 0 })] };
    let tasks_before = rg.tasks.len();
    let cmds_before = cmds.count;
    sb.pop_surface(&mut rg, &mut cmds, &spatial);

    let op = |src: RenderTaskId| ResolveOp { src_task_id: src, dest_origin: IntPoint { x: 13, y: 20 }, dest_task_id: resolve_target };
    for t in [t0, t1] {
        match rg.tasks[t.0].kind {
            RenderTaskKind::Picture(pic) => assert_eq!(pic.resolve_op, Some(op(t))),
            _ => panic!("not a picture"),
        }
    }
    let n0 = RenderTaskId(tasks_before);
    let n1 = RenderTaskId(tasks_before + 1);
    assert_eq!(rg.tasks.len(), tasks_before + 2);
    assert_eq!(cmds.count, cmds_before + 2);
    assert_eq!(rg.tasks[n0.0].location, static_loc(0));
    assert_eq!(rg.tasks[n1.0].location, static_loc(10));
    match rg.tasks[n1.0].kind {
        RenderTaskKind::Picture(pic) => {
            assert_eq!(pic.cmd_buffer_index, cmds_before + 1);
            assert_eq!(pic.resolve_op, None);
        }
        _ => panic!("not a picture"),
    }
    assert_eq!(
        rg.edges[1..].to_vec(),
        vec![(resolve_target, t0), (n0, blur_out), (resolve_target, t1), (n1, blur_out)]
    );
    match &sb.builder_stack[0].kind {
        CommandBufferBuilderKind::Tiled { tiles } => assert_eq!(tiles, &vec![(tile(0, 0), n0), (tile(1, 0), n1)]),
        _ => panic!("parent should stay tiled"),
    }
    sb.pop_surface(&mut rg, &mut cmds, &spatial);
    assert!(sb.finalize().is_ok());
}

#[test]
fn sub_graph_pop_rewires_simple_parent() {
    let mut rg = RenderTaskGraphBuilder::new();
    let mut cmds = CommandBufferList::new();
    let parent = add_pic(&mut rg, &mut cmds, RenderTaskLocation::Dynamic(IntSize { width: 30, height: 40 }));
    let child = add_pic(&mut rg, &mut cmds, dynamic());
    let mut sb = SurfaceBuilder::new();
    let mut infos = surfaces();
    sb.push_surface(SurfaceIndex(0), false, rect(0, 0, 5, 5), SurfaceDescriptor::new_simple(parent, rect(0, 0, 100, 100)), &mut infos, &rg);
    sb.push_surface(SurfaceIndex(1), true, rect(0, 0, 5, 5), SurfaceDescriptor::new_simple(child, rect(0, 0, 100, 100)), &mut infos, &rg);
    sb.register_resolve_source();
    let spatial = SpatialTree { offsets: vec![Some(IntPoint { x: 0, y: 0 }), Some(IntPoint { x: 0, y: 0 })] };
    sb.pop_surface(&mut rg, &mut cmds, &spatial);
    let new_task = RenderTaskId(2);
    assert_eq!(rg.tasks.len(), 3);
    assert_eq!(
        rg.tasks[2].location,
        RenderTaskLocation::Existing { parent_task_id: parent, size: IntSize { width: 30, height: 40 } }
    );
    assert_eq!(rg.edges, vec![(child, parent), (new_task, child)]);
    match rg.tasks[parent.0].kind {
        RenderTaskKind::Picture(pic) => assert_eq!(
            pic.resolve_op,
            Some(ResolveOp { src_task_id: parent, dest_origin: IntPoint { x: 10, y: 20 }, dest_task_id: child })
        ),
        _ => panic!("not a picture"),
    }
    match &sb.builder_stack[0].kind {
        CommandBufferBuilderKind::Simple { render_task_id, root_task_id } => {
            assert_eq!(*render_task_id, new_task);
            assert_eq!(*root_task_id, None);
        }
        _ => panic!("parent should stay simple"),
    }
    // Primitives now go to the new task's command buffer.
    sb.push_prim(1, 0, &visible(rect(0, 0, 1, 1)), None, &mut cmds);
    assert_eq!(cmds.commands[0].cmd_buffer_index, 2);
}

#[test]
fn map_point_translates_between_nodes() {
    let spatial = SpatialTree { offsets: vec![Some(IntPoint { x: 5, y: 5 }), None, Some(IntPoint { x: 1, y: 2 })] };
    assert_eq!(spatial.map_point(0, 2, IntPoint { x: 0, y: 0 }), Some(IntPoint { x: 4, y: 3 }));
    assert_eq!(spatial.map_point(0, 1, IntPoint { x: 0, y: 0 }), None);
    assert_eq!(spatial.map_point(0, 7, IntPoint { x: 0, y: 0 }), None);
}

#[test]
fn rect_intersection_and_inflation() {
    let a = rect(0, 0, 10, 10);
    assert_eq!(a.intersection(&rect(5, 5, 20, 20)), Some(rect(5, 5, 10, 10)));
    assert_eq!(a.intersection(&rect(10, 0, 20, 10)), None);
    assert_eq!(a.inflate(2), rect(-2, -2, 12, 12));
    assert_eq!(a.translate(3, -1), rect(3, -1, 13, 9));
    assert_eq!(a.size(), IntSize { width: 10, height: 10 });
}

#[test]
fn tiled_push_records_sub_graph_flag() {
    let mut rg = RenderTaskGraphBuilder::new();
    let mut cmds = CommandBufferList::new();
    let t = add_pic(&mut rg, &mut cmds, dynamic());
    let mut sb = SurfaceBuilder::new();
    let mut infos = surfaces();
    sb.push_surface(SurfaceIndex(0), true, rect(0, 0, 5, 5), SurfaceDescriptor::new_tiled(vec![(tile(0, 0), t)], vec![]), &mut infos, &rg);
    assert!(sb.builder_stack[0].establishes_sub_graph);
    sb.push_surface(SurfaceIndex(1), false, rect(0, 0, 5, 5), SurfaceDescriptor::new_tiled(vec![(tile(0, 0), t)], vec![]), &mut infos, &rg);
    assert!(!sb.builder_stack[1].establishes_sub_graph);
}
