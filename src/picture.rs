//! Pictures: how each one composites into its parent, and the render tasks
//! and cache keys that this implies.
//!
//! Fractional quantities (blur radii, filter amounts, the device pixel scale)
//! are fixed-point numbers in hundredths.
use vstd::prelude::*;
use crate::geom::{IntPoint, IntRect, IntSize, inflate_fits, inflated, intersection_of, rect_size, rects_intersect, translate_fits, translated};
use crate::cache::{
    GpuBlockData, GpuCache, GpuCacheHandle, RenderTaskCache, RenderTaskCacheEntryHandle, RenderTaskCacheKey,
    handle_is_current, lookup_entry,
};
use crate::graph::{
    CommandBufferList, PictureTask, RenderTask, RenderTaskGraphBuilder, RenderTaskId, RenderTaskKind, RenderTaskLocation,
};

verus! {

/// How many blur radii of margin a blur samples from.
pub const BLUR_SAMPLE_SCALE: u32 = 3;

/// The fixed-point unit: fractional quantities are counted in hundredths.
pub const FIXED_ONE: u32 = 100;

/// A unique identifier for a picture.
#[derive(Clone, Copy, Debug, PartialEq, Eq, Hash, Structural)]
pub struct PictureId(pub u64);

#[derive(Clone, Copy, Debug, PartialEq, Eq, Structural)]
pub struct PipelineId(pub u32, pub u32);

/// Index of a primitive in the scene's primitive store.
#[derive(Clone, Copy, Debug, PartialEq, Eq, Structural)]
pub struct PrimitiveIndex(pub usize);

/// `count` consecutive primitives, starting at `base_prim_index`.
#[derive(Clone, Copy, Debug, PartialEq, Eq, Structural)]
pub struct PrimitiveRun {
    pub base_prim_index: PrimitiveIndex,
    pub count: usize,
}

/// A value that is either given or looked up among the animated scene properties.
#[derive(Clone, Copy, Debug, PartialEq, Eq, Structural)]
pub enum PropertyBinding {
    Value(u32),
    /// A property key and the value to use while the key has no value.
    Binding(u64, u32),
}

/// The current values of the animated float properties, by key.
pub struct SceneProperties {
    pub float_properties: Vec<(u64, u32)>,
}

/// The value of the last entry under `key`.
pub open spec fn lookup_property(props: Seq<(u64, u32)>, key: u64) -> Option<u32>
    decreases props.len(),
{
    if props.len() == 0 {
        None
    } else if props.last().0 == key {
        Some(props.last().1)
    } else {
        lookup_property(props.drop_last(), key)
    }
}

pub open spec fn resolved_float(props: Seq<(u64, u32)>, binding: PropertyBinding) -> u32 {
    match binding {
        PropertyBinding::Value(v) => v,
        PropertyBinding::Binding(key, default) => match lookup_property(props, key) {
            Some(v) => v,
            None => default,
        },
    }
}

impl SceneProperties {
    /// The value of `binding` in the current scene.
    pub fn resolve_float(&self, binding: &PropertyBinding) -> (r: u32)
        ensures
            r == resolved_float(self.float_properties@, *binding),
    {
        match binding {
            PropertyBinding::Value(v) => *v,
            PropertyBinding::Binding(key, default) => {
                let mut i: usize = self.float_properties.len();
                assert(self.float_properties@.take(i as int) =~= self.float_properties@);
                while i > 0
                    invariant
                        i <= self.float_properties@.len(),
                        *binding == PropertyBinding::Binding(*key, *default),
                        lookup_property(self.float_properties@, *key) == lookup_property(
                            self.float_properties@.take(i as int),
                            *key,
                        ),
                    decreases i,
                {
                    assert(self.float_properties@.take(i as int).drop_last() =~= self.float_properties@.take(i - 1));
                    if self.float_properties[i - 1].0 == *key {
                        return self.float_properties[i - 1].1;
                    }
                    i = i - 1;
                }
                assert(self.float_properties@.take(0).len() == 0);
                *default
            },
        }
    }
}

/// A colour with 8-bit channels.
#[derive(Clone, Copy, Debug, PartialEq, Eq, Structural)]
pub struct ColorU {
    pub r: u8,
    pub g: u8,
    pub b: u8,
    pub a: u8,
}

/// A filter applied to a picture's content.
#[derive(Clone, Copy, Debug, PartialEq)]
pub enum FilterOp {
    /// Opacity bound to a scene property, with its resolved amount.
    Opacity(PropertyBinding, u32),
    /// A Gaussian blur of the given radius.
    Blur(u32),
    /// A blurred, offset and coloured copy under the content.
    DropShadow(IntPoint, u32, ColorU),
    /// A 4x5 colour matrix, row by row.
    ColorMatrix([i32; 20]),
    Brightness(u32),
    Grayscale(u32),
    Invert(u32),
    Sepia(u32),
    Contrast(u32),
    Saturate(u32),
    /// A hue rotation, in hundredths of a degree.
    HueRotate(i32),
}

/// The 4x5 identity colour matrix, in hundredths.
pub open spec fn is_identity_matrix(m: [i32; 20]) -> bool {
    forall|i: int| 0 <= i < 20 ==> #[trigger] m@[i] == if i == 0 || i == 5 || i == 10 || i == 15 {
        100i32
    } else {
        0i32
    }
}

/// The filter leaves the content unchanged.
pub open spec fn filter_is_noop(f: FilterOp) -> bool {
    match f {
        FilterOp::Opacity(_, amount) => amount >= FIXED_ONE,
        FilterOp::Blur(radius) => radius == 0,
        FilterOp::DropShadow(offset, radius, _) => offset.x == 0 && offset.y == 0 && radius == 0,
        FilterOp::ColorMatrix(m) => is_identity_matrix(m),
        FilterOp::Brightness(amount) => amount == FIXED_ONE,
        FilterOp::Grayscale(amount) => amount == 0,
        FilterOp::Invert(amount) => amount == 0,
        FilterOp::Sepia(amount) => amount == 0,
        FilterOp::Contrast(amount) => amount == FIXED_ONE,
        FilterOp::Saturate(amount) => amount == FIXED_ONE,
        FilterOp::HueRotate(angle) => angle == 0,
    }
}

/// The filter draws something: only an opacity of zero hides the content.
pub open spec fn filter_is_visible(f: FilterOp) -> bool {
    match f {
        FilterOp::Opacity(_, amount) => amount > 0,
        _ => true,
    }
}

impl FilterOp {
    pub fn is_noop(&self) -> (r: bool)
        ensures
            r == filter_is_noop(*self),
    {
        match self {
            FilterOp::Opacity(_, amount) => *amount >= FIXED_ONE,
            FilterOp::Blur(radius) => *radius == 0,
            FilterOp::DropShadow(offset, radius, _) => offset.x == 0 && offset.y == 0 && *radius == 0,
            FilterOp::ColorMatrix(m) => {
                let mut i: usize = 0;
                while i < 20
                    invariant
                        i <= 20,
                        *self == FilterOp::ColorMatrix(*m),
                        forall|j: int| 0 <= j < i ==> #[trigger] m@[j] == if j == 0 || j == 5 || j == 10 || j == 15 {
                            100i32
                        } else {
                            0i32
                        },
                    decreases 20 - i,
                {
                    let expected: i32 = if i == 0 || i == 5 || i == 10 || i == 15 {
                        100
                    } else {
                        0
                    };
                    if m[i] != expected {
                        assert(m@[i as int] != expected);
                        return false;
                    }
                    i = i + 1;
                }
                true
            },
            FilterOp::Brightness(amount) => *amount == FIXED_ONE,
            FilterOp::Grayscale(amount) => *amount == 0,
            FilterOp::Invert(amount) => *amount == 0,
            FilterOp::Sepia(amount) => *amount == 0,
            FilterOp::Contrast(amount) => *amount == FIXED_ONE,
            FilterOp::Saturate(amount) => *amount == FIXED_ONE,
            FilterOp::HueRotate(angle) => *angle == 0,
        }
    }

    pub fn is_visible(&self) -> (r: bool)
        ensures
            r == filter_is_visible(*self),
    {
        match self {
            FilterOp::Opacity(_, amount) => *amount > 0,
            _ => true,
        }
    }
}

/// Identifies the cached output of a picture, independently of where it lies on the device.
#[derive(Clone, Copy, Debug, PartialEq, Eq, Structural)]
pub struct PictureCacheKey {
    /// The scene the picture belongs to.
    pub scene_id: u64,
    pub picture_id: PictureId,
    /// The rendered part of the picture, relative to its unclipped rect.
    pub pic_relative_render_rect: IntRect,
    /// The size of the whole picture on the device.
    pub unclipped_size: IntSize,
}

/// The key of a picture rendered at `device_rect` within the device rect `unclipped`.
pub open spec fn cache_key_for(scene_id: u64, picture_id: PictureId, device_rect: IntRect, unclipped: IntRect) -> PictureCacheKey {
    PictureCacheKey {
        scene_id,
        picture_id,
        pic_relative_render_rect: IntRect {
            min: IntPoint {
                x: (device_rect.min.x - unclipped.min.x) as i32,
                y: (device_rect.min.y - unclipped.min.y) as i32,
            },
            max: IntPoint {
                x: (device_rect.max.x - unclipped.min.x) as i32,
                y: (device_rect.max.y - unclipped.min.y) as i32,
            },
        },
        unclipped_size: rect_size(unclipped),
    }
}

impl PictureCacheKey {
    pub fn new(scene_id: u64, picture_id: PictureId, device_rect: &IntRect, unclipped: &IntRect) -> (r: PictureCacheKey)
        ensures
            r == cache_key_for(scene_id, picture_id, *device_rect, *unclipped),
    {
        PictureCacheKey {
            scene_id,
            picture_id,
            pic_relative_render_rect: IntRect::new(
                (device_rect.min.x as i64 - unclipped.min.x as i64) as i32,
                (device_rect.min.y as i64 - unclipped.min.y as i64) as i32,
                (device_rect.max.x as i64 - unclipped.min.x as i64) as i32,
                (device_rect.max.y as i64 - unclipped.min.y as i64) as i32,
            ),
            unclipped_size: unclipped.size(),
        }
    }
}

/// Moving a picture's rendered and unclipped rects together across the device leaves its
/// cache key unchanged, while a change of unclipped size always changes the key.
pub proof fn lemma_cache_key_translation(
    scene_id: u64,
    picture_id: PictureId,
    device_rect: IntRect,
    unclipped: IntRect,
    dx: int,
    dy: int,
    other_device_rect: IntRect,
    other_unclipped: IntRect,
)
    requires
        translate_fits(device_rect, dx, dy),
        translate_fits(unclipped, dx, dy),
    ensures
        cache_key_for(scene_id, picture_id, translated(device_rect, dx, dy), translated(unclipped, dx, dy))
            == cache_key_for(scene_id, picture_id, device_rect, unclipped),
        rect_size(other_unclipped) != rect_size(unclipped) ==> cache_key_for(
            scene_id,
            picture_id,
            other_device_rect,
            other_unclipped,
        ) != cache_key_for(scene_id, picture_id, device_rect, unclipped),
{
}

/// A CSS mix-blend-mode.
#[derive(Clone, Copy, Debug, PartialEq, Eq, Structural)]
pub enum MixBlendMode {
    Normal,
    Multiply,
    Screen,
    Overlay,
    Darken,
    Lighten,
    Difference,
    Exclusion,
}

/// How a picture is composited into the target it belongs to.
#[derive(Clone, Copy, Debug, PartialEq)]
pub enum PictureCompositeMode {
    /// A mix-blend-mode effect.
    MixBlend(MixBlendMode),
    /// A filter.
    Filter(FilterOp),
    /// An intermediate surface copied straight across (isolation, plane splitting).
    Blit,
}

/// Where a picture drawn to an intermediate surface ends up.
#[derive(Clone, Copy, Debug, PartialEq, Eq, Structural)]
pub enum PictureSurface {
    /// A task of this frame.
    RenderTask(RenderTaskId),
    /// An entry of the render-task cache, kept across frames.
    TextureCache(RenderTaskCacheEntryHandle),
}

/// The per-traversal state of a picture: the tasks its children produced.
pub struct PictureState {
    pub tasks: Vec<RenderTaskId>,
    /// Some primitive or clip below uses a coordinate system other than the root's.
    pub has_non_root_coord_system: bool,
    /// The picture's local rect changed this frame.
    pub local_rect_changed: bool,
}

/// What the traversal of a picture's children needs from the picture.
pub struct PictureContext {
    pub pipeline_id: PipelineId,
    pub prim_runs: Vec<PrimitiveRun>,
    pub apply_local_clip_rect: bool,
    /// Extra margin for the visibility test of the children, in hundredths.
    pub inflation_factor: u64,
    pub allow_subpixel_aa: bool,
    /// The picture draws into a surface of its own.
    pub has_surface: bool,
}

/// A dynamically rendered image: primitives drawn onto it, and how it composites into its parent.
pub struct PicturePrimitive {
    /// Where the picture was drawn, when it uses an intermediate surface.
    pub surface: Option<PictureSurface>,
    /// The primitives of the picture, as runs of consecutive indices.
    pub runs: Vec<PrimitiveRun>,
    pub state: Option<PictureState>,
    /// The pipeline that the primitives of the picture belong to.
    pub pipeline_id: PipelineId,
    /// Apply the local clip rect to the primitives drawn in this picture.
    pub apply_local_clip_rect: bool,
    /// The readback task of a mix-blend, or the unblurred picture task of a drop-shadow.
    pub secondary_render_task_id: Option<RenderTaskId>,
    /// `None`: draw straight into the parent surface.
    pub composite_mode: Option<PictureCompositeMode>,
    /// The picture is part of a 3D context.
    pub is_in_3d_context: bool,
    /// The pipeline this picture is the root of, when it is requested as a frame output.
    pub frame_output_pipeline_id: Option<PipelineId>,
    /// Extra per-picture data in the GPU cache.
    pub extra_gpu_data_handle: GpuCacheHandle,
    pub id: PictureId,
}

/// The composite mode once an opacity filter's binding has been resolved.
pub open spec fn resolved_mode(mode: Option<PictureCompositeMode>, props: Seq<(u64, u32)>) -> Option<PictureCompositeMode> {
    match mode {
        Some(PictureCompositeMode::Filter(FilterOp::Opacity(binding, _))) => Some(
            PictureCompositeMode::Filter(FilterOp::Opacity(binding, resolved_float(props, binding))),
        ),
        _ => mode,
    }
}

/// The picture draws something under `mode`.
pub open spec fn mode_is_visible(mode: Option<PictureCompositeMode>) -> bool {
    match mode {
        Some(PictureCompositeMode::Filter(f)) => filter_is_visible(f),
        _ => true,
    }
}

/// A picture under `mode` needs no surface of its own.
pub open spec fn draws_directly(mode: Option<PictureCompositeMode>) -> bool {
    match mode {
        Some(PictureCompositeMode::Filter(f)) => filter_is_noop(f),
        Some(PictureCompositeMode::Blit) => false,
        Some(PictureCompositeMode::MixBlend(_)) => false,
        None => true,
    }
}

/// The blur radius of `mode`, when it is a blur filter.
pub open spec fn blur_radius_of(mode: Option<PictureCompositeMode>) -> Option<u32> {
    match mode {
        Some(PictureCompositeMode::Filter(FilterOp::Blur(r))) => Some(r),
        _ => None,
    }
}

/// The margin that a blur of radius `r` needs, in whole pixels: `ceil(r * BLUR_SAMPLE_SCALE)`.
pub open spec fn blur_margin(r: u32) -> int {
    (r * BLUR_SAMPLE_SCALE + FIXED_ONE - 1) / FIXED_ONE as int
}

/// `runs` after adding the primitive `index`: the last run grows when `index` follows it,
/// otherwise a run of one starts.
pub open spec fn runs_after_add(runs: Seq<PrimitiveRun>, index: usize) -> Seq<PrimitiveRun> {
    if runs.len() > 0 && runs.last().base_prim_index.0 + runs.last().count == index {
        runs.update(runs.len() - 1, PrimitiveRun { count: (runs.last().count + 1) as usize, ..runs.last() })
    } else {
        runs.push(PrimitiveRun { base_prim_index: PrimitiveIndex(index), count: 1 })
    }
}

/// The bounding rect of a picture whose content covers `local_rect`: blurs and drop-shadows
/// add their margin on every side.
pub open spec fn bounding_rect(mode: Option<PictureCompositeMode>, local_rect: IntRect) -> IntRect {
    match mode {
        Some(PictureCompositeMode::Filter(FilterOp::Blur(r))) => inflated(local_rect, blur_margin(r)),
        Some(PictureCompositeMode::Filter(FilterOp::DropShadow(_, r, _))) => inflated(local_rect, blur_margin(r)),
        _ => local_rect,
    }
}

/// The bounding rect fits in `i32` coordinates.
pub open spec fn bounding_rect_fits(mode: Option<PictureCompositeMode>, local_rect: IntRect) -> bool {
    match mode {
        Some(PictureCompositeMode::Filter(FilterOp::Blur(r))) => inflate_fits(local_rect, blur_margin(r)),
        Some(PictureCompositeMode::Filter(FilterOp::DropShadow(_, r, _))) => inflate_fits(local_rect, blur_margin(r)),
        _ => true,
    }
}

impl PicturePrimitive {
    /// Resolves an opacity filter's binding against the scene; true when the picture still draws something.
    fn resolve_scene_properties(&mut self, properties: &SceneProperties) -> (r: bool)
        ensures
            *final(self) == (PicturePrimitive {
                composite_mode: resolved_mode(old(self).composite_mode, properties.float_properties@),
                ..*old(self)
            }),
            r == mode_is_visible(final(self).composite_mode),
    {
        match self.composite_mode {
            Some(PictureCompositeMode::Filter(filter)) => {
                let filter = match filter {
                    FilterOp::Opacity(binding, _) => FilterOp::Opacity(binding, properties.resolve_float(&binding)),
                    other => other,
                };
                self.composite_mode = Some(PictureCompositeMode::Filter(filter));
                filter.is_visible()
            },
            _ => true,
        }
    }

    pub fn new_image(
        id: PictureId,
        composite_mode: Option<PictureCompositeMode>,
        is_in_3d_context: bool,
        pipeline_id: PipelineId,
        frame_output_pipeline_id: Option<PipelineId>,
        apply_local_clip_rect: bool,
    ) -> (r: PicturePrimitive)
        ensures
            r.runs@.len() == 0,
            r.state is None,
            r.surface is None,
            r.secondary_render_task_id is None,
            r.composite_mode == composite_mode,
            r.is_in_3d_context == is_in_3d_context,
            r.frame_output_pipeline_id == frame_output_pipeline_id,
            r.extra_gpu_data_handle.location is None,
            r.apply_local_clip_rect == apply_local_clip_rect,
            r.pipeline_id == pipeline_id,
            r.id == id,
    {
        PicturePrimitive {
            runs: Vec::new(),
            state: None,
            surface: None,
            secondary_render_task_id: None,
            composite_mode,
            is_in_3d_context,
            frame_output_pipeline_id,
            extra_gpu_data_handle: GpuCacheHandle::new(),
            apply_local_clip_rect,
            pipeline_id,
            id,
        }
    }

    /// True when the picture needs no intermediate surface: no composite mode, or a filter
    /// that changes nothing.
    pub fn can_draw_directly_to_parent_surface(&self) -> (r: bool)
        ensures
            r == draws_directly(self.composite_mode),
            self.composite_mode is None ==> r,
    {
        match self.composite_mode {
            Some(PictureCompositeMode::Filter(filter)) => filter.is_noop(),
            Some(PictureCompositeMode::Blit) => false,
            Some(PictureCompositeMode::MixBlend(_)) => false,
            None => true,
        }
    }

    /// Enters the picture for the traversal of its children: `None` when the picture is culled
    /// because it draws nothing, else the context for its children, which takes the picture's runs.
    pub fn take_context(&mut self, parent_allows_subpixel_aa: bool, scene_properties: &SceneProperties) -> (r: Option<
        PictureContext,
    >)
        ensures
            *final(self) == (PicturePrimitive {
                composite_mode: resolved_mode(old(self).composite_mode, scene_properties.float_properties@),
                runs: final(self).runs,
                ..*old(self)
            }),
            r is None <==> !mode_is_visible(final(self).composite_mode),
            r is None ==> final(self).runs@ == old(self).runs@,
            r matches Some(ctx) ==> {
                &&& ctx.prim_runs@ == old(self).runs@
                &&& final(self).runs@.len() == 0
                &&& ctx.pipeline_id == old(self).pipeline_id
                &&& ctx.apply_local_clip_rect == old(self).apply_local_clip_rect
                &&& ctx.has_surface == !draws_directly(final(self).composite_mode)
                &&& ctx.allow_subpixel_aa == (parent_allows_subpixel_aa && draws_directly(final(self).composite_mode))
                &&& ctx.inflation_factor == match blur_radius_of(final(self).composite_mode) {
                    Some(radius) => BLUR_SAMPLE_SCALE * radius,
                    None => 0,
                }
            },
            old(self).composite_mode is None ==> (r matches Some(ctx) && !ctx.has_surface),
    {
        if !self.resolve_scene_properties(scene_properties) {
            return None;
        }
        let direct = self.can_draw_directly_to_parent_surface();
        let allow_subpixel_aa = parent_allows_subpixel_aa && direct;
        let inflation_factor: u64 = match self.composite_mode {
            Some(PictureCompositeMode::Filter(FilterOp::Blur(blur_radius))) => BLUR_SAMPLE_SCALE as u64 * blur_radius as u64,
            _ => 0,
        };
        let mut prim_runs: Vec<PrimitiveRun> = Vec::new();
        std::mem::swap(&mut prim_runs, &mut self.runs);
        Some(
            PictureContext {
                pipeline_id: self.pipeline_id,
                prim_runs,
                apply_local_clip_rect: self.apply_local_clip_rect,
                inflation_factor,
                allow_subpixel_aa,
                has_surface: !direct,
            },
        )
    }

    /// Adds the primitive `prim_index`, extending the last run when it follows it.
    pub fn add_primitive(&mut self, prim_index: PrimitiveIndex)
        requires
            prim_index.0 < usize::MAX,
        ensures
            final(self).runs@ == runs_after_add(old(self).runs@, prim_index.0),
            *final(self) == (PicturePrimitive { runs: final(self).runs, ..*old(self) }),
    {
        let n = self.runs.len();
        if n > 0 {
            let run = self.runs[n - 1];
            if prim_index.0 >= run.base_prim_index.0 && prim_index.0 - run.base_prim_index.0 == run.count {
                self.runs.set(n - 1, PrimitiveRun { base_prim_index: run.base_prim_index, count: run.count + 1 });
                return;
            }
        }
        self.runs.push(PrimitiveRun { base_prim_index: prim_index, count: 1 });
    }

    /// Leaves the picture after its children: takes back the runs, keeps `state`, and returns
    /// the picture's bounding rect (the zero rect when it has no local rect).
    pub fn restore_context(&mut self, context: PictureContext, state: PictureState, local_rect: Option<IntRect>) -> (r:
        IntRect)
        requires
            local_rect is None ==> draws_directly(old(self).composite_mode),
            local_rect matches Some(lr) ==> bounding_rect_fits(old(self).composite_mode, lr),
        ensures
            *final(self) == (PicturePrimitive { runs: context.prim_runs, state: Some(state), ..*old(self) }),
            r == match local_rect {
                Some(lr) => bounding_rect(old(self).composite_mode, lr),
                None => IntRect::zero_spec(),
            },
    {
        self.runs = context.prim_runs;
        self.state = Some(state);
        match local_rect {
            Some(local_content_rect) => match self.composite_mode {
                Some(PictureCompositeMode::Filter(FilterOp::Blur(blur_radius))) => {
                    let inflate_size = blur_margin_exec(blur_radius);
                    local_content_rect.inflate(inflate_size)
                },
                Some(PictureCompositeMode::Filter(FilterOp::DropShadow(_, blur_radius, _))) => {
                    let inflate_size = blur_margin_exec(blur_radius);
                    local_content_rect.inflate(inflate_size)
                },
                _ => local_content_rect,
            },
            None => IntRect::zero(),
        }
    }

    /// Builds the render tasks of the picture for this frame, once its device rects are known.
    ///
    /// A picture that draws directly hands its children's tasks to its parent. Otherwise it
    /// gets a picture task reading its children's tasks: a blur or drop-shadow renders the visible
    /// rect grown by the blur margin (within the whole picture) and adds a blur task, a blur being
    /// taken from the render-task cache when nothing below uses a non-root coordinate system; a
    /// mix-blend first reads the framebuffer back; a colour matrix or drop-shadow writes its data to
    /// the GPU cache when the cached copy is stale. The output task becomes the picture's surface
    /// and is added to the parent's tasks.
    pub fn prepare_for_render(
        &mut self,
        prim_index: PrimitiveIndex,
        prim_metadata: &PrimitiveMetadata,
        prim_context: &PrimitiveContext,
        pic_state: &mut PictureState,
        frame_context: &FrameBuildingContext,
        frame_state: &mut FrameBuildingState,
    )
        requires
            old(self).state is Some,
            !draws_directly(old(self).composite_mode) ==> {
                let clipped = prim_metadata.clipped_device_rect->Some_0;
                let unclipped = prim_metadata.unclipped_device_rect;
                let dps = frame_context.device_pixel_scale;
                &&& prim_metadata.clipped_device_rect is Some
                &&& old(frame_state).render_tasks.tasks@.len() + 2 < usize::MAX
                &&& old(frame_state).cmd_buffers.count < usize::MAX
                &&& match old(self).composite_mode {
                    Some(PictureCompositeMode::Filter(FilterOp::Blur(r))) => blur_rect_exists(clipped, unclipped, r, dps),
                    Some(PictureCompositeMode::Filter(FilterOp::DropShadow(_, r, _))) => blur_rect_exists(
                        clipped,
                        unclipped,
                        r,
                        dps,
                    ),
                    _ => true,
                }
            },
        ensures
            *final(self) == (PicturePrimitive {
                state: None,
                surface: final(self).surface,
                secondary_render_task_id: final(self).secondary_render_task_id,
                extra_gpu_data_handle: final(self).extra_gpu_data_handle,
                ..*old(self)
            }),
            draws_directly(old(self).composite_mode) ==> final(self).secondary_render_task_id
                == old(self).secondary_render_task_id,
            !(old(self).composite_mode matches Some(PictureCompositeMode::MixBlend(_)))
                && !(old(self).composite_mode matches Some(PictureCompositeMode::Filter(FilterOp::DropShadow(..))))
                ==> final(self).secondary_render_task_id == old(self).secondary_render_task_id,
            final(frame_state).cmd_buffers.commands@ == old(frame_state).cmd_buffers.commands@,
            ({
                let st = old(self).state->Some_0;
                let children = st.tasks@;
                let mode = old(self).composite_mode;
                let t0 = old(frame_state).render_tasks.tasks@;
                let e0 = old(frame_state).render_tasks.edges@;
                let c0 = old(frame_state).cmd_buffers.count;
                let t1 = final(frame_state).render_tasks.tasks@;
                let e1 = final(frame_state).render_tasks.edges@;
                let c1 = final(frame_state).cmd_buffers.count;
                let q0 = old(pic_state).tasks@;
                let q1 = final(pic_state).tasks@;
                let cache0 = old(frame_state).resource_cache.entries@;
                let cache1 = final(frame_state).resource_cache.entries@;
                let gpu_unchanged = final(frame_state).gpu_cache.slots@ == old(frame_state).gpu_cache.slots@
                    && final(self).extra_gpu_data_handle == old(self).extra_gpu_data_handle;
                let clipped = prim_metadata.clipped_device_rect->Some_0;
                let unclipped = prim_metadata.unclipped_device_rect;
                let dps = frame_context.device_pixel_scale;
                let first = RenderTaskId(t0.len() as usize);
                let second = RenderTaskId((t0.len() + 1) as usize);
                let plain = t1 == t0.push(picture_task_spec(clipped, unclipped, prim_index.0, *prim_context, c0, false))
                    && e1 == e0 + edges_from(first, children) && c1 == c0 + 1 && q1 == q0.push(first)
                    && final(self).surface == Some(PictureSurface::RenderTask(first)) && cache1 == cache0;
                if draws_directly(mode) {
                    &&& q1 == q0 + children
                    &&& final(self).surface is None
                    &&& t1 == t0 && e1 == e0 && c1 == c0 && cache1 == cache0 && gpu_unchanged
                } else {
                    match mode {
                        Some(PictureCompositeMode::Filter(FilterOp::Blur(r))) => {
                            let rect = blur_render_rect(clipped, unclipped, r, dps);
                            let built = t1 == t0 + seq![
                                picture_task_spec(rect, unclipped, prim_index.0, *prim_context, c0, false),
                                blur_task_spec(blur_std_deviation(r, dps), first, rect_size(rect)),
                            ] && e1 == e0 + edges_from(first, children) + seq![(second, first)] && c1 == c0 + 1
                                && q1 == q0.push(second);
                            let key = RenderTaskCacheKey {
                                size: rect_size(rect),
                                kind: cache_key_for(frame_context.scene_id, old(self).id, rect, unclipped),
                            };
                            &&& gpu_unchanged
                            &&& if st.has_non_root_coord_system {
                                built && cache1 == cache0 && final(self).surface == Some(PictureSurface::RenderTask(second))
                            } else {
                                match lookup_entry(cache0, key) {
                                    Some(h) => t1 == t0 && e1 == e0 && c1 == c0 && q1 == q0 && cache1 == cache0
                                        && final(self).surface == Some(
                                        PictureSurface::TextureCache(RenderTaskCacheEntryHandle(h)),
                                    ),
                                    None => built && cache1 == cache0.push((key, second)) && final(self).surface == Some(
                                        PictureSurface::TextureCache(RenderTaskCacheEntryHandle(cache0.len() as usize)),
                                    ),
                                }
                            }
                        },
                        Some(PictureCompositeMode::Filter(FilterOp::DropShadow(offset, r, color))) => {
                            let rect = blur_render_rect(clipped, unclipped, r, dps);
                            let handle = if old(pic_state).local_rect_changed {
                                GpuCacheHandle { location: None }
                            } else {
                                old(self).extra_gpu_data_handle
                            };
                            &&& t1 == t0 + seq![
                                picture_task_spec(rect, unclipped, prim_index.0, *prim_context, c0, true),
                                blur_task_spec(rounded_std_deviation(blur_std_deviation(r, dps)), first, rect_size(rect)),
                            ]
                            &&& e1 == e0 + edges_from(first, children) + seq![(second, first)]
                            &&& c1 == c0 + 1
                            &&& q1 == q0.push(second)
                            &&& cache1 == cache0
                            &&& final(self).secondary_render_task_id == Some(first)
                            &&& final(self).surface == Some(PictureSurface::RenderTask(second))
                            &&& gpu_after_request(
                                old(frame_state).gpu_cache.slots@,
                                handle,
                                final(frame_state).gpu_cache.slots@,
                                final(self).extra_gpu_data_handle,
                                drop_shadow_blocks(color, prim_metadata.local_rect, offset),
                            )
                        },
                        Some(PictureCompositeMode::MixBlend(_)) => {
                            &&& t1 == t0 + seq![
                                readback_task_spec(clipped),
                                picture_task_spec(clipped, unclipped, prim_index.0, *prim_context, c0, false),
                            ]
                            &&& e1 == e0 + edges_from(second, children)
                            &&& c1 == c0 + 1
                            &&& q1 == q0 + seq![first, second]
                            &&& cache1 == cache0
                            &&& gpu_unchanged
                            &&& final(self).secondary_render_task_id == Some(first)
                            &&& final(self).surface == Some(PictureSurface::RenderTask(second))
                        },
                        Some(PictureCompositeMode::Filter(FilterOp::ColorMatrix(m))) => {
                            &&& plain
                            &&& gpu_after_request(
                                old(frame_state).gpu_cache.slots@,
                                old(self).extra_gpu_data_handle,
                                final(frame_state).gpu_cache.slots@,
                                final(self).extra_gpu_data_handle,
                                matrix_blocks(m),
                            )
                        },
                        _ => plain && gpu_unchanged,
                    }
                }
            }),
    {
        let st = self.take_state();
        let PictureState { tasks: children, has_non_root_coord_system, local_rect_changed: _ } = st;
        if self.can_draw_directly_to_parent_surface() {
            let ghost q0 = pic_state.tasks@;
            let mut i: usize = 0;
            while i < children.len()
                invariant
                    i <= children@.len(),
                    pic_state.tasks@ == q0 + children@.take(i as int),
                decreases children@.len() - i,
            {
                pic_state.tasks.push(children[i]);
                assert(q0 + children@.take(i + 1) =~= (q0 + children@.take(i as int)).push(children@[i as int]));
                i = i + 1;
            }
            assert(children@.take(i as int) =~= children@);
            self.surface = None;
            return;
        }
        let clipped = match prim_metadata.clipped_device_rect {
            Some(r) => r,
            None => {
                return;
            },
        };
        let unclipped = prim_metadata.unclipped_device_rect;
        let dps = frame_context.device_pixel_scale;
        let ghost t0 = frame_state.render_tasks.tasks@;
        let ghost e0 = frame_state.render_tasks.edges@;
        let ghost g0 = frame_state.gpu_cache.slots@;
        match self.composite_mode {
            Some(PictureCompositeMode::Filter(FilterOp::Blur(blur_radius))) => {
                let (std_deviation, margin) = device_blur_params(blur_radius, dps);
                let device_rect = match clipped.inflate(margin as i32).intersection(&unclipped) {
                    Some(r) => r,
                    None => {
                        return;
                    },
                };
                if has_non_root_coord_system {
                    let picture_task_id = add_picture_task(
                        &mut frame_state.render_tasks,
                        &mut frame_state.cmd_buffers,
                        device_rect,
                        unclipped,
                        prim_index,
                        prim_context,
                        &children,
                        false,
                    );
                    let render_task_id = add_blur_task(
                        &mut frame_state.render_tasks,
                        std_deviation,
                        picture_task_id,
                        device_rect.size(),
                    );
                    pic_state.tasks.push(render_task_id);
                    assert(frame_state.render_tasks.tasks@ =~= t0 + seq![
                        frame_state.render_tasks.tasks@[t0.len() as int],
                        frame_state.render_tasks.tasks@[t0.len() as int + 1],
                    ]);
                    assert(frame_state.render_tasks.edges@ =~= e0 + edges_from(picture_task_id, children@) + seq![
                        (render_task_id, picture_task_id)]);
                    self.surface = Some(PictureSurface::RenderTask(render_task_id));
                } else {
                    let key = RenderTaskCacheKey {
                        size: device_rect.size(),
                        kind: PictureCacheKey::new(frame_context.scene_id, self.id, &device_rect, &unclipped),
                    };
                    let handle = match frame_state.resource_cache.lookup(&key) {
                        Some(h) => h,
                        None => {
                            let picture_task_id = add_picture_task(
                                &mut frame_state.render_tasks,
                                &mut frame_state.cmd_buffers,
                                device_rect,
                                unclipped,
                                prim_index,
                                prim_context,
                                &children,
                                false,
                            );
                            let render_task_id = add_blur_task(
                                &mut frame_state.render_tasks,
                                std_deviation,
                                picture_task_id,
                                device_rect.size(),
                            );
                            pic_state.tasks.push(render_task_id);
                            assert(frame_state.render_tasks.tasks@ =~= t0 + seq![
                                frame_state.render_tasks.tasks@[t0.len() as int],
                                frame_state.render_tasks.tasks@[t0.len() as int + 1],
                            ]);
                            assert(frame_state.render_tasks.edges@ =~= e0 + edges_from(picture_task_id, children@) + seq![
                                (render_task_id, picture_task_id)]);
                            frame_state.resource_cache.insert(key, render_task_id)
                        },
                    };
                    self.surface = Some(PictureSurface::TextureCache(handle));
                }
            },
            Some(PictureCompositeMode::Filter(FilterOp::DropShadow(offset, blur_radius, color))) => {
                let (std_deviation, margin) = device_blur_params(blur_radius, dps);
                let device_rect = match clipped.inflate(margin as i32).intersection(&unclipped) {
                    Some(r) => r,
                    None => {
                        return;
                    },
                };
                let picture_task_id = add_picture_task(
                    &mut frame_state.render_tasks,
                    &mut frame_state.cmd_buffers,
                    device_rect,
                    unclipped,
                    prim_index,
                    prim_context,
                    &children,
                    true,
                );
                let render_task_id = add_blur_task(
                    &mut frame_state.render_tasks,
                    (std_deviation + 50) / 100 * 100,
                    picture_task_id,
                    device_rect.size(),
                );
                self.secondary_render_task_id = Some(picture_task_id);
                pic_state.tasks.push(render_task_id);
                self.surface = Some(PictureSurface::RenderTask(render_task_id));
                if pic_state.local_rect_changed {
                    frame_state.gpu_cache.invalidate(&mut self.extra_gpu_data_handle);
                }
                let requested = frame_state.gpu_cache.request(&mut self.extra_gpu_data_handle);
                if let Some(slot) = requested {
                    let ghost g1 = frame_state.gpu_cache.slots@;
                    frame_state.gpu_cache.write(slot, drop_shadow_data(color, prim_metadata.local_rect, offset));
                    assert forall|i: int| 0 <= i < g0.len() implies frame_state.gpu_cache.slots@[i] == g0[i] by {
                        assert(g1.drop_last()[i] == g1[i]);
                    }
                    assert(frame_state.gpu_cache.slots@.drop_last() =~= g0);
                }
            },
            Some(PictureCompositeMode::MixBlend(_)) => {
                let readback_task_id = frame_state.render_tasks.add(
                    RenderTask::new(RenderTaskLocation::Dynamic(clipped.size()), RenderTaskKind::Readback(clipped)),
                );
                self.secondary_render_task_id = Some(readback_task_id);
                pic_state.tasks.push(readback_task_id);
                let render_task_id = add_picture_task(
                    &mut frame_state.render_tasks,
                    &mut frame_state.cmd_buffers,
                    clipped,
                    unclipped,
                    prim_index,
                    prim_context,
                    &children,
                    false,
                );
                pic_state.tasks.push(render_task_id);
                self.surface = Some(PictureSurface::RenderTask(render_task_id));
            },
            Some(PictureCompositeMode::Filter(filter)) => {
                if let FilterOp::ColorMatrix(m) = filter {
                    let requested = frame_state.gpu_cache.request(&mut self.extra_gpu_data_handle);
                if let Some(slot) = requested {
                        let ghost g1 = frame_state.gpu_cache.slots@;
                        frame_state.gpu_cache.write(slot, color_matrix_data(&m));
                        assert forall|i: int| 0 <= i < g0.len() implies frame_state.gpu_cache.slots@[i] == g0[i] by {
                            assert(g1.drop_last()[i] == g1[i]);
                        }
                        assert(frame_state.gpu_cache.slots@.drop_last() =~= g0);
                    }
                }
                let render_task_id = add_picture_task(
                    &mut frame_state.render_tasks,
                    &mut frame_state.cmd_buffers,
                    clipped,
                    unclipped,
                    prim_index,
                    prim_context,
                    &children,
                    false,
                );
                pic_state.tasks.push(render_task_id);
                self.surface = Some(PictureSurface::RenderTask(render_task_id));
            },
            Some(PictureCompositeMode::Blit) | None => {
                let render_task_id = add_picture_task(
                    &mut frame_state.render_tasks,
                    &mut frame_state.cmd_buffers,
                    clipped,
                    unclipped,
                    prim_index,
                    prim_context,
                    &children,
                    false,
                );
                pic_state.tasks.push(render_task_id);
                self.surface = Some(PictureSurface::RenderTask(render_task_id));
            },
        }
    }

    /// Takes the per-traversal state, which must be present.
    pub fn take_state(&mut self) -> (r: PictureState)
        requires
            old(self).state is Some,
        ensures
            r == old(self).state->Some_0,
            *final(self) == (PicturePrimitive { state: None, ..*old(self) }),
    {
        match self.state.take() {
            Some(state) => state,
            None => {
                proof {
                    assert(false);
                }
                PictureState { tasks: Vec::new(), has_non_root_coord_system: false, local_rect_changed: false }
            },
        }
    }
}

/// What the primitive store knows of a picture primitive this frame, in device pixels.
pub struct PrimitiveMetadata {
    pub local_rect: IntRect,
    /// The visible part of the picture on the device, if any.
    pub clipped_device_rect: Option<IntRect>,
    /// The whole picture on the device, before clipping.
    pub unclipped_device_rect: IntRect,
}

/// The coordinate spaces a primitive is drawn in.
#[derive(Clone, Copy, Debug, PartialEq, Eq, Structural)]
pub struct PrimitiveContext {
    pub spatial_node_index: usize,
    pub raster_spatial_node_index: usize,
}

#[derive(Clone, Copy, Debug, PartialEq, Eq, Structural)]
pub struct FrameBuildingContext {
    /// Device pixels per layout pixel, in hundredths.
    pub device_pixel_scale: u32,
    pub scene_id: u64,
}

/// What building a frame fills in.
pub struct FrameBuildingState {
    pub render_tasks: RenderTaskGraphBuilder,
    pub cmd_buffers: CommandBufferList,
    pub gpu_cache: GpuCache,
    pub resource_cache: RenderTaskCache,
}

/// The device-space standard deviation of a blur of radius `r`, in hundredths of a device pixel.
pub open spec fn blur_std_deviation(r: u32, dps: u32) -> int {
    (r * dps) / FIXED_ONE as int
}

/// The margin of a blur of radius `r` on the device, in whole device pixels:
/// `ceil(std_deviation * BLUR_SAMPLE_SCALE)`.
pub open spec fn device_blur_margin(r: u32, dps: u32) -> int {
    (r * dps * BLUR_SAMPLE_SCALE + FIXED_ONE * FIXED_ONE - 1) / (FIXED_ONE * FIXED_ONE) as int
}

/// A standard deviation in hundredths, rounded to a whole pixel.
pub open spec fn rounded_std_deviation(sd: int) -> int {
    ((sd + 50) / 100) * 100
}

/// The part of the picture that a blur renders: the visible rect grown by the blur's
/// margin, within the whole picture.
pub open spec fn blur_render_rect(clipped: IntRect, unclipped: IntRect, r: u32, dps: u32) -> IntRect {
    intersection_of(inflated(clipped, device_blur_margin(r, dps)), unclipped)
}

/// The blur of radius `r` can render: its grown rect has `i32` coordinates and meets the whole picture.
pub open spec fn blur_rect_exists(clipped: IntRect, unclipped: IntRect, r: u32, dps: u32) -> bool {
    &&& inflate_fits(clipped, device_blur_margin(r, dps))
    &&& rects_intersect(inflated(clipped, device_blur_margin(r, dps)), unclipped)
}

/// The task that draws the picture's primitives into `rect`, with command buffer `cmd`.
pub open spec fn picture_task_spec(
    rect: IntRect,
    unclipped: IntRect,
    prim_index: usize,
    ctx: PrimitiveContext,
    cmd: usize,
    saved: bool,
) -> RenderTask {
    RenderTask {
        location: RenderTaskLocation::Dynamic(rect_size(rect)),
        kind: RenderTaskKind::Picture(
            PictureTask {
                prim_index,
                unclipped_size: rect_size(unclipped),
                content_origin: rect.min,
                surface_spatial_node_index: ctx.spatial_node_index,
                raster_spatial_node_index: ctx.raster_spatial_node_index,
                cmd_buffer_index: cmd,
                resolve_op: None,
            },
        ),
        saved,
    }
}

/// The task that blurs `source` into an area of `size`.
pub open spec fn blur_task_spec(std_deviation: int, source: RenderTaskId, size: IntSize) -> RenderTask {
    RenderTask {
        location: RenderTaskLocation::Dynamic(size),
        kind: RenderTaskKind::Blur { std_deviation: std_deviation as u64, source },
        saved: false,
    }
}

/// The task that reads the framebuffer back under `rect`.
pub open spec fn readback_task_spec(rect: IntRect) -> RenderTask {
    RenderTask { location: RenderTaskLocation::Dynamic(rect_size(rect)), kind: RenderTaskKind::Readback(rect), saved: false }
}

/// The edges from `parent` to each of `children`.
pub open spec fn edges_from(parent: RenderTaskId, children: Seq<RenderTaskId>) -> Seq<(RenderTaskId, RenderTaskId)> {
    children.map_values(|c: RenderTaskId| (parent, c))
}

/// A colour channel premultiplied by the alpha `a`.
pub open spec fn premultiplied(c: u8, a: u8) -> int {
    c * a / 255
}

/// The brush data of a drop-shadow: its colour, white for the content, the local size,
/// the shadow's rect (origin and size), and an empty segment.
pub open spec fn drop_shadow_blocks(color: ColorU, local_rect: IntRect, offset: IntPoint) -> Seq<GpuBlockData> {
    let w = local_rect.max.x - local_rect.min.x;
    let h = local_rect.max.y - local_rect.min.y;
    seq![
        GpuBlockData(
            premultiplied(color.r, color.a) as i64,
            premultiplied(color.g, color.a) as i64,
            premultiplied(color.b, color.a) as i64,
            color.a as i64,
        ),
        GpuBlockData(255, 255, 255, 255),
        GpuBlockData(w as i64, h as i64, 0, 0),
        GpuBlockData((local_rect.min.x + offset.x) as i64, (local_rect.min.y + offset.y) as i64, w as i64, h as i64),
        GpuBlockData(0, 0, 0, 0),
    ]
}

/// The rows of a colour matrix, one block each.
pub open spec fn matrix_blocks(m: [i32; 20]) -> Seq<GpuBlockData> {
    Seq::new(
        5,
        |i: int| GpuBlockData(m@[4 * i] as i64, m@[4 * i + 1] as i64, m@[4 * i + 2] as i64, m@[4 * i + 3] as i64),
    )
}

/// The GPU cache after requesting `handle` and writing `blocks` when the request asks for data.
pub open spec fn gpu_after_request(
    old_slots: Seq<Vec<GpuBlockData>>,
    handle: GpuCacheHandle,
    new_slots: Seq<Vec<GpuBlockData>>,
    new_handle: GpuCacheHandle,
    blocks: Seq<GpuBlockData>,
) -> bool {
    if handle_is_current(handle, old_slots.len()) {
        new_slots == old_slots && new_handle == handle
    } else {
        &&& new_slots.len() == old_slots.len() + 1
        &&& new_slots.drop_last() == old_slots
        &&& new_slots.last()@ == blocks
        &&& new_handle.location matches Some(i) && i == old_slots.len()
    }
}

/// Adds the task that draws the picture's primitives into `rect`, reading `children`.
fn add_picture_task(
    render_tasks: &mut RenderTaskGraphBuilder,
    cmd_buffers: &mut CommandBufferList,
    rect: IntRect,
    unclipped: IntRect,
    prim_index: PrimitiveIndex,
    ctx: &PrimitiveContext,
    children: &Vec<RenderTaskId>,
    saved: bool,
) -> (id: RenderTaskId)
    requires
        old(render_tasks).tasks@.len() < usize::MAX,
        old(cmd_buffers).count < usize::MAX,
    ensures
        id.0 == old(render_tasks).tasks@.len(),
        final(render_tasks).tasks@ == old(render_tasks).tasks@.push(
            picture_task_spec(rect, unclipped, prim_index.0, *ctx, old(cmd_buffers).count, saved),
        ),
        final(render_tasks).edges@ == old(render_tasks).edges@ + edges_from(id, children@),
        final(cmd_buffers).count == old(cmd_buffers).count + 1,
        final(cmd_buffers).commands@ == old(cmd_buffers).commands@,
{
    let cmd_buffer_index = cmd_buffers.create_cmd_buffer();
    let pic = PictureTask {
        prim_index: prim_index.0,
        unclipped_size: unclipped.size(),
        content_origin: rect.min,
        surface_spatial_node_index: ctx.spatial_node_index,
        raster_spatial_node_index: ctx.raster_spatial_node_index,
        cmd_buffer_index,
        resolve_op: None,
    };
    let task = RenderTask { location: RenderTaskLocation::Dynamic(rect.size()), kind: RenderTaskKind::Picture(pic), saved };
    let id = render_tasks.add(task);
    let ghost edges0 = render_tasks.edges@;
    let mut i: usize = 0;
    while i < children.len()
        invariant
            i <= children@.len(),
            render_tasks.tasks@ == old(render_tasks).tasks@.push(
                picture_task_spec(rect, unclipped, prim_index.0, *ctx, old(cmd_buffers).count, saved),
            ),
            edges0 == old(render_tasks).edges@,
            render_tasks.edges@ == edges0 + edges_from(id, children@.take(i as int)),
        decreases children@.len() - i,
    {
        render_tasks.add_dependency(id, children[i]);
        assert(edges_from(id, children@.take(i + 1)) =~= edges_from(id, children@.take(i as int)).push((id, children@[i as int])));
        i = i + 1;
    }
    assert(children@.take(i as int) =~= children@);
    id
}

/// Adds a task that blurs `source` into an area of `size`.
fn add_blur_task(render_tasks: &mut RenderTaskGraphBuilder, std_deviation: u64, source: RenderTaskId, size: IntSize) -> (id:
    RenderTaskId)
    requires
        old(render_tasks).tasks@.len() < usize::MAX,
    ensures
        id.0 == old(render_tasks).tasks@.len(),
        final(render_tasks).tasks@ == old(render_tasks).tasks@.push(blur_task_spec(std_deviation as int, source, size)),
        final(render_tasks).edges@ == old(render_tasks).edges@.push((id, source)),
{
    let id = render_tasks.add(
        RenderTask { location: RenderTaskLocation::Dynamic(size), kind: RenderTaskKind::Blur { std_deviation, source }, saved: false },
    );
    render_tasks.add_dependency(id, source);
    id
}

/// The device-space standard deviation and margin of a blur of radius `r`.
fn device_blur_params(r: u32, dps: u32) -> (res: (u64, u128))
    ensures
        res.0 == blur_std_deviation(r, dps),
        res.1 == device_blur_margin(r, dps),
{
    assert(r * dps <= u32::MAX * u32::MAX) by (nonlinear_arith)
        requires
            r <= u32::MAX,
            dps <= u32::MAX,
    ;
    let product: u64 = r as u64 * dps as u64;
    let std_deviation = product / 100;
    let margin = (product as u128 * 3 + 9999) / 10000;
    (std_deviation, margin)
}

/// The brush data of a drop-shadow (see `drop_shadow_blocks`).
fn drop_shadow_data(color: ColorU, local_rect: IntRect, offset: IntPoint) -> (r: Vec<GpuBlockData>)
    ensures
        r@ == drop_shadow_blocks(color, local_rect, offset),
{
    let a = color.a as i64;
    let w = local_rect.max.x as i64 - local_rect.min.x as i64;
    let h = local_rect.max.y as i64 - local_rect.min.y as i64;
    assert(color.r * color.a <= 255 * 255 && color.g * color.a <= 255 * 255 && color.b * color.a <= 255 * 255)
        by (nonlinear_arith)
        requires
            color.r <= 255,
            color.g <= 255,
            color.b <= 255,
            color.a <= 255,
    ;
    let blocks = vec![
        GpuBlockData(color.r as i64 * a / 255, color.g as i64 * a / 255, color.b as i64 * a / 255, a),
        GpuBlockData(255, 255, 255, 255),
        GpuBlockData(w, h, 0, 0),
        GpuBlockData(local_rect.min.x as i64 + offset.x as i64, local_rect.min.y as i64 + offset.y as i64, w, h),
        GpuBlockData(0, 0, 0, 0),
    ];
    assert(blocks@ =~= drop_shadow_blocks(color, local_rect, offset));
    blocks
}

/// The rows of the colour matrix `m` (see `matrix_blocks`).
fn color_matrix_data(m: &[i32; 20]) -> (r: Vec<GpuBlockData>)
    ensures
        r@ == matrix_blocks(*m),
{
    let mut blocks: Vec<GpuBlockData> = Vec::new();
    let mut i: usize = 0;
    while i < 5
        invariant
            i <= 5,
            blocks@ == matrix_blocks(*m).take(i as int),
        decreases 5 - i,
    {
        blocks.push(GpuBlockData(m[i * 4] as i64, m[i * 4 + 1] as i64, m[i * 4 + 2] as i64, m[i * 4 + 3] as i64));
        assert(blocks@ =~= matrix_blocks(*m).take(i + 1));
        i = i + 1;
    }
    assert(matrix_blocks(*m).take(5) =~= matrix_blocks(*m));
    blocks
}

/// `ceil(r * BLUR_SAMPLE_SCALE)` in whole pixels, for `r` in hundredths.
fn blur_margin_exec(r: u32) -> (m: i32)
    ensures
        m == blur_margin(r),
{
    let scaled: u64 = r as u64 * 3;
    assert(scaled == r * BLUR_SAMPLE_SCALE);
    ((scaled + 99) / 100) as i32
}

} // verus!
