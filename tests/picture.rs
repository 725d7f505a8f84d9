use webrender::cache::{GpuBlockData, GpuCache, RenderTaskCache};
use webrender::geom::{IntPoint, IntRect, IntSize};
use webrender::graph::{CommandBufferList, RenderTaskGraphBuilder, RenderTaskId, RenderTaskKind, RenderTaskLocation};
use webrender::picture::{
    ColorU, FilterOp, FrameBuildingContext, FrameBuildingState, MixBlendMode, PictureCacheKey, PictureCompositeMode,
    PictureId, PicturePrimitive, PictureState, PictureSurface, PipelineId, PrimitiveContext, PrimitiveIndex,
    PrimitiveMetadata, PrimitiveRun, PropertyBinding, SceneProperties,
};

fn picture(mode: Option<PictureCompositeMode>) -> PicturePrimitive {
    PicturePrimitive::new_image(PictureId(1), mode, false, PipelineId(0, 0), None, true)
}

fn no_props() -> SceneProperties {
    SceneProperties { float_properties: vec![] }
}

fn state(tasks: Vec<RenderTaskId>, has_non_root_coord_system: bool) -> PictureState {
    PictureState { tasks, has_non_root_coord_system, local_rect_changed: false }
}

fn frame_state() -> FrameBuildingState {
    FrameBuildingState {
        render_tasks: RenderTaskGraphBuilder::new(),
        cmd_buffers: CommandBufferList::new(),
        gpu_cache: GpuCache::new(),
        resource_cache: RenderTaskCache::new(),
    }
}

fn metadata(clipped: IntRect, unclipped: IntRect) -> PrimitiveMetadata {
    PrimitiveMetadata { local_rect: IntRect::new(0, 0, 10, 20), clipped_device_rect: Some(clipped), unclipped_device_rect: unclipped }
}

const CTX: PrimitiveContext = PrimitiveContext { spatial_node_index: 2, raster_spatial_node_index: 0 };
const FRAME: FrameBuildingContext = FrameBuildingContext { device_pixel_scale: 100, scene_id: 5 };

/// Enters and leaves `pic` with the given child tasks, leaving its state in place.
fn traverse(pic: &mut PicturePrimitive, children: Vec<RenderTaskId>, has_non_root_coord_system: bool) {
    let ctx = pic.take_context(true, &no_props()).unwrap();
    pic.restore_context(ctx, state(children, has_non_root_coord_system), Some(IntRect::new(0, 0, 10, 20)));
}

#[test]
fn add_primitive_coalesces_runs() {
    let mut pic = picture(None);
    for i in [5, 6, 7, 10] {
        pic.add_primitive(PrimitiveIndex(i));
    }
    assert_eq!(
        pic.runs,
        vec![
            PrimitiveRun { base_prim_index: PrimitiveIndex(5), count: 3 },
            PrimitiveRun { base_prim_index: PrimitiveIndex(10), count: 1 },
        ]
    );
}

#[test]
fn no_composite_mode_draws_directly() {
    let mut pic = picture(None);
    pic.add_primitive(PrimitiveIndex(3));
    assert!(pic.can_draw_directly_to_parent_surface());
    let ctx = pic.take_context(true, &no_props()).unwrap();
    assert!(!ctx.has_surface);
    assert!(ctx.allow_subpixel_aa);
    assert_eq!(ctx.inflation_factor, 0);
    assert_eq!(ctx.prim_runs.len(), 1);
    assert!(pic.runs.is_empty());
}

#[test]
fn blit_and_mix_blend_need_a_surface() {
    assert!(!picture(Some(PictureCompositeMode::Blit)).can_draw_directly_to_parent_surface());
    let mut pic = picture(Some(PictureCompositeMode::MixBlend(MixBlendMode::Multiply)));
    assert!(!pic.can_draw_directly_to_parent_surface());
    let ctx = pic.take_context(true, &no_props()).unwrap();
    assert!(ctx.has_surface);
    assert!(!ctx.allow_subpixel_aa);
}

#[test]
fn noop_filters_draw_directly() {
    let mut identity = [0i32; 20];
    for i in [0, 5, 10, 15] {
        identity[i] = 100;
    }
    assert!(picture(Some(PictureCompositeMode::Filter(FilterOp::ColorMatrix(identity)))).can_draw_directly_to_parent_surface());
    let mut tinted = identity;
    tinted[3] = 50;
    assert!(!picture(Some(PictureCompositeMode::Filter(FilterOp::ColorMatrix(tinted)))).can_draw_directly_to_parent_surface());
    assert!(picture(Some(PictureCompositeMode::Filter(FilterOp::Blur(0)))).can_draw_directly_to_parent_surface());
    assert!(!picture(Some(PictureCompositeMode::Filter(FilterOp::Blur(1)))).can_draw_directly_to_parent_surface());
    assert!(picture(Some(PictureCompositeMode::Filter(FilterOp::Brightness(100)))).can_draw_directly_to_parent_surface());
    assert!(!picture(Some(PictureCompositeMode::Filter(FilterOp::Grayscale(30)))).can_draw_directly_to_parent_surface());
    assert!(picture(Some(PictureCompositeMode::Filter(FilterOp::Contrast(100)))).can_draw_directly_to_parent_surface());
    assert!(!picture(Some(PictureCompositeMode::Filter(FilterOp::Contrast(120)))).can_draw_directly_to_parent_surface());
    assert!(picture(Some(PictureCompositeMode::Filter(FilterOp::Saturate(100)))).can_draw_directly_to_parent_surface());
    assert!(!picture(Some(PictureCompositeMode::Filter(FilterOp::Saturate(0)))).can_draw_directly_to_parent_surface());
    assert!(picture(Some(PictureCompositeMode::Filter(FilterOp::HueRotate(0)))).can_draw_directly_to_parent_surface());
    assert!(!picture(Some(PictureCompositeMode::Filter(FilterOp::HueRotate(-9000)))).can_draw_directly_to_parent_surface());
    let opaque = FilterOp::Opacity(PropertyBinding::Value(100), 100);
    assert!(picture(Some(PictureCompositeMode::Filter(opaque))).can_draw_directly_to_parent_surface());
}

#[test]
fn zero_opacity_binding_culls_picture() {
    let props = SceneProperties { float_properties: vec![(7, 60), (7, 0)] };
    let mut pic = picture(Some(PictureCompositeMode::Filter(FilterOp::Opacity(PropertyBinding::Binding(7, 50), 100))));
    pic.add_primitive(PrimitiveIndex(1));
    assert!(pic.take_context(true, &props).is_none());
    assert_eq!(pic.runs.len(), 1);
    match pic.composite_mode {
        Some(PictureCompositeMode::Filter(FilterOp::Opacity(_, v))) => assert_eq!(v, 0),
        _ => panic!("mode changed"),
    }
}

#[test]
fn unbound_opacity_uses_default() {
    let props = SceneProperties { float_properties: vec![(3, 0)] };
    let mut pic = picture(Some(PictureCompositeMode::Filter(FilterOp::Opacity(PropertyBinding::Binding(7, 50), 0))));
    let ctx = pic.take_context(true, &props).unwrap();
    assert!(ctx.has_surface);
    assert_eq!(props.resolve_float(&PropertyBinding::Binding(7, 50)), 50);
    assert_eq!(props.resolve_float(&PropertyBinding::Binding(3, 50)), 0);
}

#[test]
fn blur_inflates_bounding_rect() {
    let mut pic = picture(Some(PictureCompositeMode::Filter(FilterOp::Blur(150))));
    let ctx = pic.take_context(false, &no_props()).unwrap();
    assert_eq!(ctx.inflation_factor, 450);
    // ceil(1.5 * 3) = 5 on every side.
    let r = pic.restore_context(ctx, state(vec![], false), Some(IntRect::new(0, 0, 10, 10)));
    assert_eq!(r, IntRect::new(-5, -5, 15, 15));
    assert!(pic.state.is_some());
}

#[test]
fn drop_shadow_inflates_bounding_rect() {
    let mode = FilterOp::DropShadow(IntPoint { x: 4, y: 4 }, 100, ColorU { r: 0, g: 0, b: 0, a: 255 });
    let mut pic = picture(Some(PictureCompositeMode::Filter(mode)));
    let ctx = pic.take_context(false, &no_props()).unwrap();
    let r = pic.restore_context(ctx, state(vec![], false), Some(IntRect::new(0, 0, 10, 10)));
    assert_eq!(r, IntRect::new(-3, -3, 13, 13));
}

#[test]
fn other_modes_keep_bounding_rect() {
    let mut pic = picture(Some(PictureCompositeMode::Blit));
    let ctx = pic.take_context(false, &no_props()).unwrap();
    let r = pic.restore_context(ctx, state(vec![], false), Some(IntRect::new(1, 2, 3, 4)));
    assert_eq!(r, IntRect::new(1, 2, 3, 4));
    let mut direct = picture(None);
    let ctx = direct.take_context(false, &no_props()).unwrap();
    assert_eq!(direct.restore_context(ctx, state(vec![], false), None), IntRect::zero());
}

#[test]
fn cache_key_ignores_translation() {
    let a = PictureCacheKey::new(5, PictureId(1), &IntRect::new(110, 120, 150, 160), &IntRect::new(100, 100, 200, 200));
    let b = PictureCacheKey::new(5, PictureId(1), &IntRect::new(-90, 20, -50, 60), &IntRect::new(-100, 0, 0, 100));
    assert_eq!(a, b);
    assert_eq!(a.pic_relative_render_rect, IntRect::new(10, 20, 50, 60));
    assert_eq!(a.unclipped_size, IntSize { width: 100, height: 100 });
    let c = PictureCacheKey::new(5, PictureId(1), &IntRect::new(110, 120, 150, 160), &IntRect::new(100, 100, 201, 200));
    assert_ne!(a, c);
}

#[test]
fn direct_picture_forwards_child_tasks() {
    let mut pic = picture(None);
    traverse(&mut pic, vec![RenderTaskId(4), RenderTaskId(5)], false);
    let mut parent = state(vec![RenderTaskId(1)], false);
    let mut fs = frame_state();
    let meta = metadata(IntRect::new(0, 0, 10, 10), IntRect::new(0, 0, 10, 10));
    pic.prepare_for_render(PrimitiveIndex(0), &meta, &CTX, &mut parent, &FRAME, &mut fs);
    assert_eq!(parent.tasks, vec![RenderTaskId(1), RenderTaskId(4), RenderTaskId(5)]);
    assert!(pic.surface.is_none());
    assert!(pic.state.is_none());
    assert!(fs.render_tasks.tasks.is_empty());
}

#[test]
fn blur_builds_cached_task_pair() {
    let mut fs = frame_state();
    let meta = metadata(IntRect::new(20, 20, 40, 40), IntRect::new(0, 0, 100, 100));
    let mut pic = picture(Some(PictureCompositeMode::Filter(FilterOp::Blur(200))));
    traverse(&mut pic, vec![RenderTaskId(9)], false);
    let mut parent = state(vec![], false);
    pic.prepare_for_render(PrimitiveIndex(3), &meta, &CTX, &mut parent, &FRAME, &mut fs);
    // Margin ceil(2 * 3) = 6 around the clipped rect.
    assert_eq!(fs.render_tasks.tasks.len(), 2);
    assert_eq!(fs.render_tasks.tasks[0].location, RenderTaskLocation::Dynamic(IntSize { width: 32, height: 32 }));
    match fs.render_tasks.tasks[0].kind {
        RenderTaskKind::Picture(p) => {
            assert_eq!(p.content_origin, IntPoint { x: 14, y: 14 });
            assert_eq!(p.unclipped_size, IntSize { width: 100, height: 100 });
            assert_eq!(p.prim_index, 3);
        }
        _ => panic!("not a picture"),
    }
    assert_eq!(fs.render_tasks.tasks[1].kind, RenderTaskKind::Blur { std_deviation: 200, source: RenderTaskId(0) });
    assert_eq!(fs.render_tasks.edges, vec![(RenderTaskId(0), RenderTaskId(9)), (RenderTaskId(1), RenderTaskId(0))]);
    assert_eq!(parent.tasks, vec![RenderTaskId(1)]);
    assert_eq!(pic.surface, Some(PictureSurface::TextureCache(webrender::cache::RenderTaskCacheEntryHandle(0))));
    assert_eq!(fs.resource_cache.entries.len(), 1);

    // Next frame, scrolled: the same key hits the cache and builds nothing.
    let moved = metadata(IntRect::new(70, 20, 90, 40), IntRect::new(50, 0, 150, 100));
    traverse(&mut pic, vec![RenderTaskId(9)], false);
    let mut parent2 = state(vec![], false);
    pic.prepare_for_render(PrimitiveIndex(3), &moved, &CTX, &mut parent2, &FRAME, &mut fs);
    assert_eq!(fs.render_tasks.tasks.len(), 2);
    assert!(parent2.tasks.is_empty());
    assert_eq!(pic.surface, Some(PictureSurface::TextureCache(webrender::cache::RenderTaskCacheEntryHandle(0))));
}

#[test]
fn blur_in_non_root_space_skips_cache() {
    let mut fs = frame_state();
    let meta = metadata(IntRect::new(0, 0, 40, 40), IntRect::new(0, 0, 40, 40));
    let mut pic = picture(Some(PictureCompositeMode::Filter(FilterOp::Blur(100))));
    traverse(&mut pic, vec![], true);
    let mut parent = state(vec![], false);
    pic.prepare_for_render(PrimitiveIndex(0), &meta, &CTX, &mut parent, &FRAME, &mut fs);
    assert_eq!(pic.surface, Some(PictureSurface::RenderTask(RenderTaskId(1))));
    assert!(fs.resource_cache.entries.is_empty());
    // The inflated rect is clamped to the unclipped rect.
    assert_eq!(fs.render_tasks.tasks[0].location, RenderTaskLocation::Dynamic(IntSize { width: 40, height: 40 }));
}

#[test]
fn drop_shadow_saves_picture_task_and_writes_brush_data() {
    let mut fs = frame_state();
    let meta = metadata(IntRect::new(0, 0, 40, 40), IntRect::new(0, 0, 100, 100));
    let color = ColorU { r: 255, g: 0, b: 100, a: 51 };
    let mut pic = picture(Some(PictureCompositeMode::Filter(FilterOp::DropShadow(IntPoint { x: 2, y: 3 }, 125, color))));
    traverse(&mut pic, vec![], false);
    let mut parent = state(vec![], false);
    let frame = FrameBuildingContext { device_pixel_scale: 200, scene_id: 5 };
    pic.prepare_for_render(PrimitiveIndex(0), &meta, &CTX, &mut parent, &frame, &mut fs);
    assert!(fs.render_tasks.tasks[0].saved);
    // std deviation 2.5 device pixels, rounded to 3.
    assert_eq!(fs.render_tasks.tasks[1].kind, RenderTaskKind::Blur { std_deviation: 300, source: RenderTaskId(0) });
    assert_eq!(pic.secondary_render_task_id, Some(RenderTaskId(0)));
    assert_eq!(pic.surface, Some(PictureSurface::RenderTask(RenderTaskId(1))));
    assert_eq!(
        fs.gpu_cache.slots[0],
        vec![
            GpuBlockData(51, 0, 20, 51),
            GpuBlockData(255, 255, 255, 255),
            GpuBlockData(10, 20, 0, 0),
            GpuBlockData(2, 3, 10, 20),
            GpuBlockData(0, 0, 0, 0),
        ]
    );
    assert_eq!(pic.extra_gpu_data_handle.location, Some(0));
}

#[test]
fn mix_blend_reads_back_before_drawing() {
    let mut fs = frame_state();
    let clipped = IntRect::new(5, 5, 25, 15);
    let meta = metadata(clipped, IntRect::new(0, 0, 100, 100));
    let mut pic = picture(Some(PictureCompositeMode::MixBlend(MixBlendMode::Screen)));
    traverse(&mut pic, vec![RenderTaskId(7)], false);
    let mut parent = state(vec![], false);
    pic.prepare_for_render(PrimitiveIndex(0), &meta, &CTX, &mut parent, &FRAME, &mut fs);
    assert_eq!(fs.render_tasks.tasks[0].kind, RenderTaskKind::Readback(clipped));
    assert_eq!(parent.tasks, vec![RenderTaskId(0), RenderTaskId(1)]);
    assert_eq!(pic.secondary_render_task_id, Some(RenderTaskId(0)));
    assert_eq!(pic.surface, Some(PictureSurface::RenderTask(RenderTaskId(1))));
    assert_eq!(fs.render_tasks.edges, vec![(RenderTaskId(1), RenderTaskId(7))]);
}

#[test]
fn color_matrix_writes_rows_once() {
    let mut fs = frame_state();
    let meta = metadata(IntRect::new(0, 0, 8, 8), IntRect::new(0, 0, 8, 8));
    let mut m = [0i32; 20];
    for (i, v) in m.iter_mut().enumerate() {
        *v = i as i32;
    }
    let mut pic = picture(Some(PictureCompositeMode::Filter(FilterOp::ColorMatrix(m))));
    traverse(&mut pic, vec![], false);
    let mut parent = state(vec![], false);
    pic.prepare_for_render(PrimitiveIndex(0), &meta, &CTX, &mut parent, &FRAME, &mut fs);
    assert_eq!(fs.gpu_cache.slots[0].len(), 5);
    assert_eq!(fs.gpu_cache.slots[0][4], GpuBlockData(16, 17, 18, 19));
    assert_eq!(pic.surface, Some(PictureSurface::RenderTask(RenderTaskId(0))));
    // The data is up to date next frame.
    traverse(&mut pic, vec![], false);
    pic.prepare_for_render(PrimitiveIndex(0), &meta, &CTX, &mut parent, &FRAME, &mut fs);
    assert_eq!(fs.gpu_cache.slots.len(), 1);
}

#[test]
fn blit_allocates_plain_picture_task() {
    let mut fs = frame_state();
    let meta = metadata(IntRect::new(0, 0, 8, 6), IntRect::new(0, 0, 8, 6));
    let mut pic = picture(Some(PictureCompositeMode::Blit));
    traverse(&mut pic, vec![], false);
    let mut parent = state(vec![], false);
    pic.prepare_for_render(PrimitiveIndex(0), &meta, &CTX, &mut parent, &FRAME, &mut fs);
    assert_eq!(fs.render_tasks.tasks.len(), 1);
    assert_eq!(fs.render_tasks.tasks[0].location, RenderTaskLocation::Dynamic(IntSize { width: 8, height: 6 }));
    assert_eq!(fs.cmd_buffers.count, 1);
    assert_eq!(parent.tasks, vec![RenderTaskId(0)]);
}
