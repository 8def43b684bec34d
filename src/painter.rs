use crate::state::EguiState;
use vstd::prelude::*;

verus! {

/// A texture of the GUI library: one it manages, or one the user registered.
#[derive(Clone, Copy, Debug, PartialEq, Eq, Structural)]
pub enum TextureId {
    Managed(u64),
    User(u64),
}

/// The surface size and pixel scale a frame is painted at.
#[derive(Clone, Copy, Debug)]
pub struct ScreenDescriptor {
    pub size_in_pixels: [u32; 2],
    /// Thousandths of a pixel per point.
    pub pixels_per_point: u32,
}

/// The surface size and pixel scale for the next frame of a window.
pub fn get_screen_descriptor(state: &EguiState) -> (r: ScreenDescriptor)
    ensures
        r.size_in_pixels@ == seq![state.physical_width, state.physical_height],
        r.pixels_per_point == state.pixels_per_point,
{
    ScreenDescriptor {
        size_in_pixels: [state.physical_width, state.physical_height],
        pixels_per_point: state.pixels_per_point,
    }
}

/// One piece of GPU work in painting a frame.
#[derive(Clone, Copy, Debug, PartialEq, Eq, Structural)]
pub enum FrameStep {
    FreeTexture(TextureId),
    /// Upload entry `index` of the frame's texture changes, for texture `id`.
    UpdateTexture { index: usize, id: TextureId },
    UpdateBuffers,
    /// Record the render pass into a new command encoder, clearing to black.
    Execute,
    /// Record into a render pass the caller already holds.
    ExecuteInPass,
    Submit,
    Present,
}

/// The texture work of a frame: the textures to free are freed first, then
/// the texture changes are uploaded in their order, each by its position. A
/// freed id can thus be taken up again by an upload of the same frame.
pub open spec fn spec_texture_steps(free: Seq<TextureId>, set: Seq<TextureId>) -> Seq<FrameStep> {
    free.map_values(|id: TextureId| FrameStep::FreeTexture(id)) + set.map(
        |i: int, id: TextureId| FrameStep::UpdateTexture { index: i as usize, id },
    )
}

/// The work of a frame painted onto the window's surface. Where no surface
/// texture could be had the frame is dropped: nothing is done.
pub open spec fn spec_paint_steps(
    acquired: bool,
    free: Seq<TextureId>,
    set: Seq<TextureId>,
) -> Seq<FrameStep> {
    if acquired {
        spec_texture_steps(free, set) + seq![
            FrameStep::UpdateBuffers,
            FrameStep::Execute,
            FrameStep::Submit,
            FrameStep::Present,
        ]
    } else {
        Seq::empty()
    }
}

fn push_texture_steps(out: &mut Vec<FrameStep>, free: &[TextureId], set: &[TextureId])
    ensures
        final(out)@ == old(out)@ + spec_texture_steps(free@, set@),
{
    let ghost start = out@;
    let mut i: usize = 0;
    while i < free.len()
        invariant
            i <= free@.len(),
            out@ == start + free@.subrange(0, i as int).map_values(
                |id: TextureId| FrameStep::FreeTexture(id),
            ),
        decreases free@.len() - i,
    {
        out.push(FrameStep::FreeTexture(free[i]));
        assert(free@.subrange(0, i + 1) =~= free@.subrange(0, i as int).push(free@[i as int]));
        assert(free@.subrange(0, i + 1).map_values(|id: TextureId| FrameStep::FreeTexture(id))
            =~= free@.subrange(0, i as int).map_values(
            |id: TextureId| FrameStep::FreeTexture(id),
        ).push(FrameStep::FreeTexture(free@[i as int])));
        i = i + 1;
    }
    assert(free@.subrange(0, free@.len() as int) =~= free@);
    let ghost mid = out@;
    let mut j: usize = 0;
    while j < set.len()
        invariant
            j <= set@.len(),
            out@ == mid + set@.subrange(0, j as int).map(
                |i: int, id: TextureId| FrameStep::UpdateTexture { index: i as usize, id },
            ),
        decreases set@.len() - j,
    {
        out.push(FrameStep::UpdateTexture { index: j, id: set[j] });
        assert(set@.subrange(0, j + 1).map(
            |i: int, id: TextureId| FrameStep::UpdateTexture { index: i as usize, id },
        ) =~= set@.subrange(0, j as int).map(
            |i: int, id: TextureId| FrameStep::UpdateTexture { index: i as usize, id },
        ).push(FrameStep::UpdateTexture { index: j, id: set@[j as int] }));
        j = j + 1;
    }
    assert(set@.subrange(0, set@.len() as int) =~= set@);
    assert(out@ =~= start + spec_texture_steps(free@, set@));
}

/// The work of a frame painted onto the window's surface, given whether a
/// surface texture was acquired and the frame's texture changes.
pub fn paint_jobs(acquired: bool, free: &[TextureId], set: &[TextureId]) -> (r: Vec<FrameStep>)
    ensures
        r@ == spec_paint_steps(acquired, free@, set@),
{
    let mut out: Vec<FrameStep> = Vec::new();
    if !acquired {
        assert(out@ =~= spec_paint_steps(acquired, free@, set@));
        return out;
    }
    push_texture_steps(&mut out, free, set);
    out.push(FrameStep::UpdateBuffers);
    out.push(FrameStep::Execute);
    out.push(FrameStep::Submit);
    out.push(FrameStep::Present);
    assert(out@ =~= spec_paint_steps(acquired, free@, set@));
    out
}

/// The work of painting into a render pass the caller holds: the texture
/// changes, the buffers, then the pass itself.
pub fn paint_with_rpass(free: &[TextureId], set: &[TextureId]) -> (r: Vec<FrameStep>)
    ensures
        r@ == spec_texture_steps(free@, set@) + seq![
            FrameStep::UpdateBuffers,
            FrameStep::ExecuteInPass,
        ],
{
    let mut out: Vec<FrameStep> = Vec::new();
    push_texture_steps(&mut out, free, set);
    out.push(FrameStep::UpdateBuffers);
    out.push(FrameStep::ExecuteInPass);
    assert(out@ =~= spec_texture_steps(free@, set@) + seq![
        FrameStep::UpdateBuffers,
        FrameStep::ExecuteInPass,
    ]);
    out
}

} // verus!
