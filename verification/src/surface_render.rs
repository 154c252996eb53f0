//! The decisions of rendering a Wayland surface into a texture: which buffer, which
//! source (holding area, texture cache, DMA-BUF import, shared memory),
//! and when the color mask is applied. The texture work itself happens outside.
use vstd::prelude::*;

verus! {

/// What a surface's state says about its buffer.
#[derive(Debug, Clone, Copy, PartialEq, Eq)]
pub enum BufferAssignment<B> {
    NewBuffer(B),
    Removed,
}

/// The current assignment, `Removed` when the state holds none.
pub fn current_assignment<B>(current: Option<BufferAssignment<B>>) -> (a: BufferAssignment<B>)
    ensures
        a == (match current {
            Some(x) => x,
            None => BufferAssignment::Removed,
        }),
{
    match current {
        Some(x) => x,
        None => BufferAssignment::Removed,
    }
}

/// The buffer of the current assignment, when it is a new buffer.
pub fn new_buffer_of<B>(current: Option<BufferAssignment<B>>) -> (b: Option<B>)
    ensures
        b == (match current {
            Some(BufferAssignment::NewBuffer(x)) => Some(x),
            _ => None,
        }),
{
    match current {
        Some(BufferAssignment::NewBuffer(x)) => Some(x),
        _ => None,
    }
}

/// The buffer a window is rendered from: the current new buffer, else the pending one.
pub fn window_buffer<B>(current: Option<BufferAssignment<B>>, pending: Option<BufferAssignment<B>>) -> (b: Option<B>)
    ensures
        b == (match current {
            Some(BufferAssignment::NewBuffer(x)) => Some(x),
            _ => match pending {
                Some(BufferAssignment::NewBuffer(y)) => Some(y),
                _ => None,
            },
        }),
{
    match new_buffer_of(current) {
        Some(x) => Some(x),
        None => new_buffer_of(pending),
    }
}

/// What to do with the color mask of a buffer before it becomes a texture.
#[derive(Debug, Clone, Copy, PartialEq, Eq)]
pub enum MaskAction<M, C> {
    /// Leave the pixels as they are.
    Keep,
    /// Replace the pixels that match the mask by the background color.
    Replace(M, C),
    /// Make the pixels that match the mask transparent.
    MakeTransparent(M),
}

/// The mask action for a mask and a background color, when the mask was not yet applied.
pub open spec fn mask_action_spec<M, C>(mask: Option<M>, background: Option<C>, applied: bool) -> MaskAction<M, C> {
    match mask {
        None => MaskAction::Keep,
        Some(m) => if applied {
            MaskAction::Keep
        } else {
            match background {
                Some(c) => MaskAction::Replace(m, c),
                None => MaskAction::MakeTransparent(m),
            }
        },
    }
}

/// The mask action for cached pixels: none without a mask or when it was applied
/// already; else replace by the background color, or make transparent without one.
pub fn mask_action<M, C>(mask: Option<M>, background: Option<C>, applied: bool) -> (a: MaskAction<M, C>)
    ensures
        a == mask_action_spec(mask, background, applied),
{
    match mask {
        None => MaskAction::Keep,
        Some(m) => {
            if applied {
                MaskAction::Keep
            } else {
                match background {
                    Some(c) => MaskAction::Replace(m, c),
                    None => MaskAction::MakeTransparent(m),
                }
            }
        },
    }
}

/// The mask action for a subsurface: its own mask and background color take
/// precedence over the window's.
pub fn subsurface_mask_action<M, C>(
    subsurface_mask: Option<M>,
    mask: Option<M>,
    subsurface_background: Option<C>,
    background: Option<C>,
    applied: bool,
) -> (a: MaskAction<M, C>)
    ensures
        a == mask_action_spec(
            match subsurface_mask {
                Some(m) => Some(m),
                None => mask,
            },
            match subsurface_background {
                Some(c) => Some(c),
                None => background,
            },
            applied,
        ),
{
    let m = match subsurface_mask {
        Some(m) => Some(m),
        None => mask,
    };
    let c = match subsurface_background {
        Some(c) => Some(c),
        None => background,
    };
    mask_action(m, c, applied)
}

/// A buffer in the holding area is imported as DMA-BUF texture when it is a
/// DMA-BUF and DMA-BUF import is enabled.
pub fn import_from_holding_area(is_dmabuf: bool, dma_buf_available: bool) -> (r: bool)
    ensures
        r == (is_dmabuf && dma_buf_available),
{
    is_dmabuf && dma_buf_available
}

/// The shared-memory path takes a buffer only when it is not a DMA-BUF buffer and
/// reading it gives bytes; a refused buffer leaves the texture cache and the render
/// counters untouched.
pub fn shm_path_accepts(is_dmabuf: bool, data_length: usize) -> (r: bool)
    ensures
        r == (!is_dmabuf && data_length > 0),
{
    !is_dmabuf && data_length > 0
}

/// The DMA-BUF path takes a buffer only when it is a DMA-BUF buffer and its import
/// gave a texture; only then is the DMA-BUF render counter advanced.
pub fn dma_buf_path_accepts(is_dmabuf: bool, imported: bool) -> (r: bool)
    ensures
        r == (is_dmabuf && imported),
{
    is_dmabuf && imported
}

/// A DMA-BUF import is tried only for a DMA-BUF buffer and with a display to build
/// the texture on.
pub fn dma_buf_import_possible(is_dmabuf: bool, has_display: bool) -> (r: bool)
    ensures
        r == (is_dmabuf && has_display),
{
    is_dmabuf && has_display
}

/// What a direct read of a surface's shared-memory buffer does with the pixels: a
/// read of no bytes gives no texture; a window's pixels get the color mask (replaced
/// by the background color, or made transparent without one); the pixels of popups,
/// dialogs and subsurfaces are shown as read.
pub fn direct_read_action<M, C>(
    kind: SurfaceKind,
    data_length: usize,
    mask: Option<M>,
    background: Option<C>,
) -> (r: Option<MaskAction<M, C>>)
    ensures
        r == (if data_length == 0 {
            None
        } else if kind == SurfaceKind::Window {
            Some(mask_action_spec(mask, background, false))
        } else {
            Some(MaskAction::Keep)
        }),
{
    if data_length == 0 {
        return None;
    }
    match kind {
        SurfaceKind::Window => Some(mask_action(mask, background, false)),
        _ => Some(MaskAction::Keep),
    }
}

/// The kinds of surfaces rendered to textures.
#[derive(Debug, Clone, Copy, PartialEq, Eq, Structural)]
pub enum SurfaceKind {
    Window,
    Popup,
    Dialog,
    Subsurface,
}

/// Where rendering a surface stands.
#[derive(Debug, Clone, Copy, PartialEq, Eq, Structural)]
pub enum RenderStep {
    /// Nothing tried yet.
    Start,
    /// Try the buffer held for the surface (DMA-BUF import).
    HoldingArea,
    /// Try the pixels cached at commit time.
    Cache,
    /// Look up the surface's buffer.
    SurfaceBuffer,
    /// Import the buffer as DMA-BUF texture.
    DmaBuf,
    /// Read the buffer's shared memory.
    SharedMemory,
    /// A texture was made.
    Done,
    /// No texture.
    Nothing,
}

/// What the last step observed.
#[derive(Debug, Clone, Copy, PartialEq, Eq, Structural)]
pub enum RenderEvent {
    /// The surface or the state needed for the step is missing.
    Missing,
    /// The step gave a texture.
    Texture,
    /// The step gave no texture.
    NoTexture,
    /// The surface has a shared-memory buffer.
    ShmBuffer,
    /// The surface has a DMA-BUF buffer.
    DmaBufBuffer,
}

/// The next step of rendering a surface of kind `kind` after `event` was observed
/// at `step`. Every surface, a window too, ends with no texture when it has none,
/// when no buffer is attached, or when reading the buffer gives nothing; only a
/// window imports a DMA-BUF buffer, and a failed import falls back to shared memory.
pub open spec fn next_render_step_spec(
    kind: SurfaceKind,
    step: RenderStep,
    event: RenderEvent,
    dma_buf_available: bool,
) -> RenderStep {
    match step {
        RenderStep::Start => if event == RenderEvent::Missing { RenderStep::Nothing } else { RenderStep::HoldingArea },
        RenderStep::HoldingArea => if event == RenderEvent::Texture { RenderStep::Done } else { RenderStep::Cache },
        RenderStep::Cache => if event == RenderEvent::Texture { RenderStep::Done } else { RenderStep::SurfaceBuffer },
        RenderStep::SurfaceBuffer => match event {
            RenderEvent::DmaBufBuffer => if kind == SurfaceKind::Window && dma_buf_available {
                RenderStep::DmaBuf
            } else {
                RenderStep::SharedMemory
            },
            RenderEvent::ShmBuffer => RenderStep::SharedMemory,
            _ => RenderStep::Nothing,
        },
        RenderStep::DmaBuf => if event == RenderEvent::Texture { RenderStep::Done } else { RenderStep::SharedMemory },
        RenderStep::SharedMemory => if event == RenderEvent::Texture { RenderStep::Done } else { RenderStep::Nothing },
        RenderStep::Done => RenderStep::Done,
        RenderStep::Nothing => RenderStep::Nothing,
    }
}

/// The next step of rendering a surface (see `next_render_step_spec`).
pub fn next_render_step(
    kind: SurfaceKind,
    step: RenderStep,
    event: RenderEvent,
    dma_buf_available: bool,
) -> (next: RenderStep)
    ensures
        next == next_render_step_spec(kind, step, event, dma_buf_available),
{
    let window = match kind {
        SurfaceKind::Window => true,
        _ => false,
    };
    match step {
        RenderStep::Start => match event {
            RenderEvent::Missing => RenderStep::Nothing,
            _ => RenderStep::HoldingArea,
        },
        RenderStep::HoldingArea => match event {
            RenderEvent::Texture => RenderStep::Done,
            _ => RenderStep::Cache,
        },
        RenderStep::Cache => match event {
            RenderEvent::Texture => RenderStep::Done,
            _ => RenderStep::SurfaceBuffer,
        },
        RenderStep::SurfaceBuffer => match event {
            RenderEvent::DmaBufBuffer => {
                if window && dma_buf_available {
                    RenderStep::DmaBuf
                } else {
                    RenderStep::SharedMemory
                }
            },
            RenderEvent::ShmBuffer => RenderStep::SharedMemory,
            _ => RenderStep::Nothing,
        },
        RenderStep::DmaBuf => match event {
            RenderEvent::Texture => RenderStep::Done,
            _ => RenderStep::SharedMemory,
        },
        RenderStep::SharedMemory => match event {
            RenderEvent::Texture => RenderStep::Done,
            _ => RenderStep::Nothing,
        },
        RenderStep::Done => RenderStep::Done,
        RenderStep::Nothing => RenderStep::Nothing,
    }
}

/// How many steps at most remain before rendering ends.
pub open spec fn steps_left(step: RenderStep) -> nat {
    match step {
        RenderStep::Start => 6,
        RenderStep::HoldingArea => 5,
        RenderStep::Cache => 4,
        RenderStep::SurfaceBuffer => 3,
        RenderStep::DmaBuf => 2,
        RenderStep::SharedMemory => 1,
        RenderStep::Done => 0,
        RenderStep::Nothing => 0,
    }
}

/// Rendering a surface ends: every step that is not final moves closer to the end,
/// whatever it observed. A texture is made only when a source gave one, so a
/// surface without a buffer, or whose buffer gives nothing, gets no texture; and
/// only a window with DMA-BUF enabled imports a DMA-BUF buffer.
pub proof fn lemma_render_steps_end(
    kind: SurfaceKind,
    step: RenderStep,
    event: RenderEvent,
    dma_buf_available: bool,
)
    ensures
        step != RenderStep::Done && step != RenderStep::Nothing ==> steps_left(
            next_render_step_spec(kind, step, event, dma_buf_available),
        ) < steps_left(step),
        step != RenderStep::Done && next_render_step_spec(kind, step, event, dma_buf_available)
            == RenderStep::Done ==> event == RenderEvent::Texture,
        step == RenderStep::SurfaceBuffer && event != RenderEvent::ShmBuffer && event
            != RenderEvent::DmaBufBuffer ==> next_render_step_spec(kind, step, event, dma_buf_available)
            == RenderStep::Nothing,
        next_render_step_spec(kind, step, event, dma_buf_available) == RenderStep::DmaBuf ==> kind
            == SurfaceKind::Window && dma_buf_available,
{
}

/// A texture that a source gives is the result: every step that tries a source
/// (the holding area, the cache, the DMA-BUF import, shared memory) ends rendering
/// with that texture when it gets one, for every kind of surface.
pub proof fn lemma_texture_found_ends_rendering(
    kind: SurfaceKind,
    step: RenderStep,
    dma_buf_available: bool,
)
    requires
        step == RenderStep::HoldingArea || step == RenderStep::Cache || step == RenderStep::DmaBuf
            || step == RenderStep::SharedMemory,
    ensures
        next_render_step_spec(kind, step, RenderEvent::Texture, dma_buf_available) == RenderStep::Done,
{
}

/// The sources are tried in order: a present surface first tries the buffer held
/// for it, then the cache, then its own buffer; a shared-memory buffer is read
/// directly, and a failed DMA-BUF import falls back to shared memory.
pub proof fn lemma_sources_tried_in_order(kind: SurfaceKind, event: RenderEvent, dma_buf_available: bool)
    ensures
        event != RenderEvent::Missing ==> next_render_step_spec(kind, RenderStep::Start, event, dma_buf_available)
            == RenderStep::HoldingArea,
        event != RenderEvent::Texture ==> next_render_step_spec(kind, RenderStep::HoldingArea, event, dma_buf_available)
            == RenderStep::Cache,
        event != RenderEvent::Texture ==> next_render_step_spec(kind, RenderStep::Cache, event, dma_buf_available)
            == RenderStep::SurfaceBuffer,
        next_render_step_spec(kind, RenderStep::SurfaceBuffer, RenderEvent::ShmBuffer, dma_buf_available)
            == RenderStep::SharedMemory,
        event != RenderEvent::Texture ==> next_render_step_spec(kind, RenderStep::DmaBuf, event, dma_buf_available)
            == RenderStep::SharedMemory,
        next_render_step_spec(SurfaceKind::Window, RenderStep::SurfaceBuffer, RenderEvent::DmaBufBuffer, true)
            == RenderStep::DmaBuf,
{
}

/// The state of a surface's cached pixels.
#[derive(Debug, Clone, Copy, PartialEq, Eq, Structural)]
pub struct CacheState {
    /// The commit at which the pixels were read.
    pub commit_count: u64,
    /// Whether the color mask was applied to them.
    pub color_mask_applied: bool,
}

/// The cache entry to render from: an entry of the current commit is kept; a missing
/// or older one is replaced by fresh, unmasked pixels of the current commit.
pub open spec fn refreshed_cache_spec(existing: Option<CacheState>, current: u64) -> CacheState {
    match existing {
        Some(e) => if e.commit_count == current {
            e
        } else {
            CacheState { commit_count: current, color_mask_applied: false }
        },
        None => CacheState { commit_count: current, color_mask_applied: false },
    }
}

/// The cache entry to render from, and whether fresh pixels are stored.
pub fn refresh_cache(existing: Option<CacheState>, current: u64) -> (r: (CacheState, bool))
    ensures
        r.0 == refreshed_cache_spec(existing, current),
        r.1 == !(existing matches Some(e) && e.commit_count == current),
{
    match existing {
        Some(e) => {
            if e.commit_count == current {
                (e, false)
            } else {
                (CacheState { commit_count: current, color_mask_applied: false }, true)
            }
        },
        None => (CacheState { commit_count: current, color_mask_applied: false }, true),
    }
}

/// A mask is set, and it was not applied or was applied at another commit.
pub open spec fn mask_due_spec(mask_set: bool, entry: CacheState, current: u64) -> bool {
    mask_set && (!entry.color_mask_applied || entry.commit_count != current)
}

/// Whether the color mask must be applied to cached pixels.
pub fn mask_due(mask_set: bool, entry: CacheState, current: u64) -> (r: bool)
    ensures
        r == mask_due_spec(mask_set, entry, current),
{
    mask_set && (!entry.color_mask_applied || entry.commit_count != current)
}

/// The cache entry after the mask was applied at the current commit.
pub fn mask_applied(entry: CacheState, current: u64) -> (r: CacheState)
    ensures
        r == (CacheState { commit_count: current, color_mask_applied: true }),
{
    CacheState { commit_count: current, ..entry }.with_mask_applied()
}

impl CacheState {
    fn with_mask_applied(self) -> (r: CacheState)
        ensures
            r == (CacheState { color_mask_applied: true, ..self }),
    {
        CacheState { color_mask_applied: true, ..self }
    }
}

/// The mask is applied at most once per commit: after a render (refresh the cache,
/// then apply the mask when it is due), rendering the same commit again keeps the
/// cached pixels and finds the mask not due.
pub proof fn lemma_mask_applied_once_per_commit(existing: Option<CacheState>, current: u64, mask_set: bool)
    ensures
        ({
            let refreshed = refreshed_cache_spec(existing, current);
            let rendered = if mask_due_spec(mask_set, refreshed, current) {
                CacheState { commit_count: current, color_mask_applied: true }
            } else {
                refreshed
            };
            &&& refreshed_cache_spec(Some(rendered), current) == rendered
            &&& !mask_due_spec(mask_set, rendered, current)
        }),
{
}

/// How a DMA-BUF texture is finished.
#[derive(Debug, Clone, Copy, PartialEq, Eq, Structural)]
pub enum DmaBufPlan {
    /// DMA-BUF display is off: copy the pixels to the cache and mask them on the CPU.
    CpuCopy,
    /// Mask the texture with the shader.
    Shader,
    /// Show the imported texture as it is.
    AsImported,
}

/// The plan for an imported DMA-BUF texture: the CPU copy when DMA-BUF display is
/// off; the shader when the shader flag is off and a mask is set; else the texture
/// as imported.
pub fn dma_buf_plan(dma_buf_available: bool, color_mask_shader: bool, mask_set: bool) -> (p: DmaBufPlan)
    ensures
        p == (if !dma_buf_available {
            DmaBufPlan::CpuCopy
        } else if !color_mask_shader && mask_set {
            DmaBufPlan::Shader
        } else {
            DmaBufPlan::AsImported
        }),
{
    if !dma_buf_available {
        DmaBufPlan::CpuCopy
    } else if !color_mask_shader && mask_set {
        DmaBufPlan::Shader
    } else {
        DmaBufPlan::AsImported
    }
}

/// The cache entry of the CPU copy of an imported DMA-BUF texture at commit
/// `current`, and the mask to apply to it: the copy is a fresh entry; with a mask
/// set, the pixels matching it are replaced by transparent black and the entry is
/// marked masked; without one the entry stays unmasked.
pub fn cpu_copy_entry<M>(mask: Option<M>, current: u64) -> (r: (Option<M>, CacheState))
    ensures
        r == (match mask {
            Some(m) => (Some(m), CacheState { commit_count: current, color_mask_applied: true }),
            None => (None::<M>, CacheState { commit_count: current, color_mask_applied: false }),
        }),
{
    match mask {
        Some(m) => (Some(m), CacheState { commit_count: current, color_mask_applied: true }),
        None => (None, CacheState { commit_count: current, color_mask_applied: false }),
    }
}

/// A cached masked texture is reused on the CPU path only after the first commit.
pub fn reuse_cached_texture(plan: DmaBufPlan, commit_count: u64) -> (r: bool)
    ensures
        r == (plan == DmaBufPlan::Shader || (plan == DmaBufPlan::CpuCopy && commit_count > 0)),
{
    match plan {
        DmaBufPlan::Shader => true,
        DmaBufPlan::CpuCopy => commit_count > 0,
        DmaBufPlan::AsImported => false,
    }
}

/// The commit count of a surface is advanced after rendering its first two commits.
pub fn advance_commit_count(commit_count: u64) -> (r: bool)
    ensures
        r == (commit_count < 2),
{
    commit_count < 2
}

/// The file descriptor, stride and offset of one plane of a DMA-BUF.
#[derive(Debug, Clone, Copy, PartialEq, Eq, Structural)]
pub struct PlaneLayout {
    pub fd: i32,
    pub stride: u32,
    pub offset: u32,
}

/// The layouts of the first `num_planes` planes; `None` when a descriptor, stride
/// or offset of one of them is missing.
pub fn plane_layouts(num_planes: usize, fds: &Vec<i32>, strides: &Vec<u32>, offsets: &Vec<u32>) -> (r: Option<Vec<PlaneLayout>>)
    ensures
        r is None <==> (num_planes > fds@.len() || num_planes > strides@.len() || num_planes
            > offsets@.len()),
        r matches Some(v) ==> v@.len() == num_planes && forall|i: int|
            0 <= i < num_planes ==> #[trigger] v@[i] == (PlaneLayout {
                fd: fds@[i],
                stride: strides@[i],
                offset: offsets@[i],
            }),
{
    let mut v: Vec<PlaneLayout> = Vec::new();
    let mut i: usize = 0;
    while i < num_planes
        invariant
            i <= num_planes,
            i <= fds@.len() && i <= strides@.len() && i <= offsets@.len(),
            v@.len() == i,
            forall|j: int|
                0 <= j < i ==> #[trigger] v@[j] == (PlaneLayout {
                    fd: fds@[j],
                    stride: strides@[j],
                    offset: offsets@[j],
                }),
        decreases num_planes - i,
    {
        if i >= fds.len() || i >= strides.len() || i >= offsets.len() {
            return None;
        }
        v.push(PlaneLayout { fd: fds[i], stride: strides[i], offset: offsets[i] });
        i = i + 1;
    }
    Some(v)
}

} // verus!
