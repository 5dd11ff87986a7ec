//! Configuring renderers for a blend space.

use vstd::prelude::*;

use crate::backend::tty_renderer::TtyRenderer;
use crate::render_helpers::blend::frame::{
    blend_uniform_names, params_uniforms, scales_to, sets_flag, ColorBlendParams, FrameBlendState,
};
use crate::render_helpers::blend::tonemap::Luminance;
use crate::render_helpers::uniform::Uniform;
use crate::utils::ratio::Ratio;

verus! {

/// The shader program that default texture draws use, with its uniform values.
pub type TexProgramOverride<P> = Option<(P, Vec<Uniform>)>;

/// What a GLES renderer (and each of its frames) is configured with for blending. `P` is a handle
/// to a texture shader program.
pub struct GlesBlend<P> {
    pub state: FrameBlendState,
    /// The program that draws with the default texture program use instead.
    pub tex_program_override: TexProgramOverride<P>,
    /// The reference luminance scale with which solid colors are encoded to PQ on the CPU.
    pub solid_color_transform: Option<Ratio>,
}

/// What a Vulkan renderer is configured with for blending.
pub struct VulkanBlend {
    /// Missing until the first frame is configured.
    pub state: Option<FrameBlendState>,
    /// The blend parameters of draws that do not set their own.
    pub default_color_params: Option<ColorBlendParams>,
    /// The reference luminance scale with which solid colors are encoded to PQ on the CPU.
    pub solid_color_transform: Option<Ratio>,
}

/// The uniforms of default texture draws in HDR frames: plain sRGB content is encoded with the
/// shader's built-in constants and never needs tone mapping (reference white fits the output).
/// Uniform values persist in the program object, so the state that other content sets is reset.
pub open spec fn default_hdr_uniforms(reference: Luminance) -> Seq<Uniform> {
    seq![
        Uniform::flag_spec("niri_hdr_pq", true),
        Uniform::float_spec("niri_ref_lum_scale", reference.pq_scale()),
        Uniform::flag_spec("niri_linear", false),
        Uniform::float_spec("niri_linear_scale", Ratio::zero_spec()),
        Uniform::float_spec("niri_linear_to_ref", Ratio::zero_spec()),
        Uniform::flag_spec("niri_hdr_to_sdr", false),
        Uniform::flag_spec("niri_pq_gamut", false),
        Uniform::flag_spec("niri_use_gamut", false),
        Uniform::flag_spec("niri_tonemap", false),
    ]
}

/// The uniforms of default texture draws are declared in the program they are set on.
pub proof fn law_default_hdr_uniforms_are_declared(reference: Luminance, i: int)
    requires
        0 <= i < default_hdr_uniforms(reference).len(),
    ensures
        default_hdr_uniforms(reference)[i].declared_in(blend_uniform_names()),
{
    let k = if i < 8 {
        i
    } else {
        9
    };
    assert(blend_uniform_names()[k].name == default_hdr_uniforms(reference)[i].name);
}

/// The program and the uniform values of an override.
pub open spec fn override_view<P>(tex_program: TexProgramOverride<P>) -> Option<(P, Seq<Uniform>)> {
    match tex_program {
        Some((program, uniforms)) => Some((program, uniforms@)),
        None => None,
    }
}

/// `after` is the GLES renderer `before`, configured for frames in the given blend space. On HDR
/// frames without the blend-space texture shader, the override in place stays.
pub open spec fn configured_for_blend<P>(
    before: GlesBlend<P>,
    after: GlesBlend<P>,
    blend: Option<(Luminance, Luminance)>,
    texture_hdr: Option<P>,
) -> bool {
    &&& after.state == FrameBlendState::for_blend(blend)
    &&& match blend {
        Some((reference, _)) => {
            &&& after.solid_color_transform == Some(reference.pq_scale())
            &&& match texture_hdr {
                Some(program) => override_view(after.tex_program_override) == Some(
                    (program, default_hdr_uniforms(reference)),
                ),
                None => after.tex_program_override == before.tex_program_override,
            }
        },
        None => {
            &&& after.solid_color_transform is None
            &&& after.tex_program_override is None
        },
    }
}

/// `after` is a Vulkan renderer that is configured for frames in the given blend space.
pub open spec fn vulkan_configured_for_blend(
    after: VulkanBlend,
    blend: Option<(Luminance, Luminance)>,
) -> bool {
    &&& after.state == Some(FrameBlendState::for_blend(blend))
    &&& match blend {
        Some((reference, _)) => {
            &&& after.default_color_params == Some(
                ColorBlendParams {
                    hdr_pq: true,
                    ref_lum_scale: reference.pq_scale(),
                    ..ColorBlendParams::off_spec()
                },
            )
            &&& after.solid_color_transform == Some(reference.pq_scale())
        },
        None => {
            &&& after.default_color_params is None
            &&& after.solid_color_transform is None
        },
    }
}

/// Configures the renderer for rendering frames in the given blend space: `Some((reference
/// luminance, output peak luminance))` = HDR (PQ/BT.2020), `None` = SDR.
///
/// In HDR, texture draws using the default program go through the blend-space texture shader,
/// solid colors are encoded on the CPU, and the other shader programs read the frame blend state
/// for their `niri_blend` stage. PQ content brighter than the output peak is tone mapped at draw
/// time. Call with `None` after rendering the output so screencasts, screenshots and other outputs
/// stay SDR.
///
/// Returns whether the blend-space texture shader would be needed but is missing. SDR content then
/// renders raw.
pub fn set_frame_blend<P>(
    renderer: &mut GlesBlend<P>,
    blend: Option<(Luminance, Luminance)>,
    texture_hdr: Option<P>,
) -> (shader_missing: bool)
    ensures
        shader_missing == (blend is Some && texture_hdr is None),
        configured_for_blend(*old(renderer), *final(renderer), blend, texture_hdr),
{
    FrameBlendState::set(renderer, blend);
    match blend {
        Some((reference, _)) => {
            let mut shader_missing: bool = true;
            if let Some(program) = texture_hdr {
                let uniforms: Vec<Uniform> = vec![
                    Uniform::flag("niri_hdr_pq", true),
                    Uniform::float("niri_ref_lum_scale", reference.to_pq_scale()),
                    Uniform::flag("niri_linear", false),
                    Uniform::float("niri_linear_scale", Ratio::zero()),
                    Uniform::float("niri_linear_to_ref", Ratio::zero()),
                    Uniform::flag("niri_hdr_to_sdr", false),
                    Uniform::flag("niri_pq_gamut", false),
                    Uniform::flag("niri_use_gamut", false),
                    Uniform::flag("niri_tonemap", false),
                ];
                renderer.tex_program_override = Some((program, uniforms));
                shader_missing = false;
            }
            renderer.solid_color_transform = Some(reference.to_pq_scale());
            shader_missing
        },
        None => {
            renderer.tex_program_override = None;
            renderer.solid_color_transform = None;
            false
        },
    }
}

/// [`set_frame_blend`] over the TTY backend renderer.
///
/// On the Vulkan renderer, HDR frames install default [`ColorBlendParams`] performing the
/// sRGB-to-PQ encode for every texture draw and a CPU transform for solid colors, mirroring the
/// GLES default-program override.
pub fn set_frame_blend_tty<P>(
    renderer: &mut TtyRenderer<GlesBlend<P>, VulkanBlend>,
    blend: Option<(Luminance, Luminance)>,
    texture_hdr: Option<P>,
) -> (shader_missing: bool)
    ensures
        match (*old(renderer), *final(renderer)) {
            (TtyRenderer::Gles(before), TtyRenderer::Gles(after)) => {
                &&& shader_missing == (blend is Some && texture_hdr is None)
                &&& configured_for_blend(before, after, blend, texture_hdr)
            },
            (TtyRenderer::Vulkan(_), TtyRenderer::Vulkan(after)) => {
                &&& !shader_missing
                &&& vulkan_configured_for_blend(after, blend)
            },
            _ => false,
        },
{
    match renderer {
        TtyRenderer::Gles(gles) => set_frame_blend(gles, blend, texture_hdr),
        TtyRenderer::Vulkan(vk) => {
            FrameBlendState::init(&mut vk.state);
            if let Some(state) = &mut vk.state {
                state.set_values(blend);
            }
            match blend {
                Some((reference, _)) => {
                    let mut params: ColorBlendParams = ColorBlendParams::default();
                    params.hdr_pq = true;
                    params.ref_lum_scale = reference.to_pq_scale();
                    vk.default_color_params = Some(params);
                    vk.solid_color_transform = Some(reference.to_pq_scale());
                },
                None => {
                    vk.default_color_params = None;
                    vk.solid_color_transform = None;
                },
            }
            false
        },
    }
}

/// Configuring a renderer for rendering into SDR capture buffers.
pub trait CaptureBlend: Sized {
    /// `after` is `before` configured for SDR captures with the given reference luminance.
    spec fn configured_for_capture(
        before: Self,
        after: Self,
        reference_luminance: Luminance,
    ) -> bool;

    /// See [`set_sdr_capture_blend`].
    fn set_sdr_capture_blend(&mut self, reference_luminance: Luminance)
        ensures
            Self::configured_for_capture(*old(self), *final(self), reference_luminance),
    ;
}

impl<P> CaptureBlend for GlesBlend<P> {
    open spec fn configured_for_capture(
        before: Self,
        after: Self,
        reference_luminance: Luminance,
    ) -> bool {
        &&& after.state == FrameBlendState::for_capture(reference_luminance)
        &&& after.tex_program_override is None
        &&& after.solid_color_transform is None
    }

    fn set_sdr_capture_blend(&mut self, reference_luminance: Luminance) {
        FrameBlendState::set_sdr_capture(self, reference_luminance);
        self.tex_program_override = None;
        self.solid_color_transform = None;
    }
}

impl<P> CaptureBlend for TtyRenderer<GlesBlend<P>, VulkanBlend> {
    open spec fn configured_for_capture(
        before: Self,
        after: Self,
        reference_luminance: Luminance,
    ) -> bool {
        match (before, after) {
            (TtyRenderer::Gles(before), TtyRenderer::Gles(after)) => {
                &&& after.state == FrameBlendState::for_capture(reference_luminance)
                &&& after.tex_program_override is None
                &&& after.solid_color_transform is None
            },
            (TtyRenderer::Vulkan(before), TtyRenderer::Vulkan(after)) => {
                &&& after.state == Some(FrameBlendState::for_capture(reference_luminance))
                &&& after.default_color_params is None
                &&& after.solid_color_transform is None
            },
            _ => false,
        }
    }

    fn set_sdr_capture_blend(&mut self, reference_luminance: Luminance) {
        match self {
            TtyRenderer::Gles(gles) => gles.set_sdr_capture_blend(reference_luminance),
            TtyRenderer::Vulkan(vk) => {
                FrameBlendState::init(&mut vk.state);
                if let Some(state) = &mut vk.state {
                    state.set_sdr_capture_values(reference_luminance);
                }
                vk.default_color_params = None;
                vk.solid_color_transform = None;
            },
        }
    }
}

/// Configures the renderer for rendering into an SDR capture buffer, while preserving the
/// reference luminance needed to convert HDR content back to SDR.
pub fn set_sdr_capture_blend<R: CaptureBlend>(renderer: &mut R, reference_luminance: Luminance)
    ensures
        R::configured_for_capture(*old(renderer), *final(renderer), reference_luminance),
{
    renderer.set_sdr_capture_blend(reference_luminance);
}

impl FrameBlendState {
    /// Gives a renderer a blend state, unless it has one already.
    pub fn init(stored: &mut Option<FrameBlendState>)
        ensures
            *final(stored) == Some(
                match *old(stored) {
                    Some(state) => state,
                    None => FrameBlendState {
                        hdr_pq: false,
                        reference_luminance: Luminance(0),
                        max_luminance: Luminance(0),
                    },
                },
            ),
    {
        if stored.is_none() {
            *stored = Some(FrameBlendState::default());
        }
    }

    /// [`Self::set_values`] on the state of a renderer.
    pub fn set<P>(renderer: &mut GlesBlend<P>, blend: Option<(Luminance, Luminance)>)
        ensures
            *final(renderer) == (GlesBlend {
                state: FrameBlendState::for_blend(blend),
                ..*old(renderer)
            }),
    {
        renderer.state.set_values(blend);
    }

    /// [`Self::set_sdr_capture_values`] on the state of a renderer.
    pub fn set_sdr_capture<P>(renderer: &mut GlesBlend<P>, reference_luminance: Luminance)
        ensures
            *final(renderer) == (GlesBlend {
                state: FrameBlendState::for_capture(reference_luminance),
                ..*old(renderer)
            }),
    {
        renderer.state.set_sdr_capture_values(reference_luminance);
    }
}

/// A renderer that is configured for SDR frames has nothing left of the HDR frames before: no
/// program, no encoding of solid colors, and no HDR blend state. That goes for captures too.
pub proof fn law_sdr_frames_have_nothing_of_hdr_ones<P>(
    before: GlesBlend<P>,
    after: GlesBlend<P>,
    texture_hdr: Option<P>,
    reference: Luminance,
    vulkan: VulkanBlend,
)
    ensures
        configured_for_blend(before, after, None, texture_hdr) || <GlesBlend<
            P,
        > as CaptureBlend>::configured_for_capture(before, after, reference) ==> {
            &&& after.tex_program_override is None
            &&& after.solid_color_transform is None
            &&& !after.state.hdr_pq
        },
        vulkan_configured_for_blend(vulkan, None) ==> {
            &&& vulkan.default_color_params is None
            &&& vulkan.solid_color_transform is None
            &&& vulkan.state matches Some(state)
            &&& !state.hdr_pq
        },
{
}

/// A renderer that is configured for HDR frames encodes what it draws by default, with the reference
/// white of the output: textures with the blend shader, and solid colors on the CPU. The shader goes
/// through no other stage.
pub proof fn law_hdr_frames_encode_by_default<P>(
    before: GlesBlend<P>,
    after: GlesBlend<P>,
    program: P,
    reference: Luminance,
    peak: Luminance,
)
    requires
        configured_for_blend(before, after, Some((reference, peak)), Some(program)),
    ensures
        after.state.hdr_pq,
        after.state.reference_luminance == reference,
        after.state.max_luminance == peak,
        after.solid_color_transform matches Some(scale) && scales_to(scale, reference),
        after.tex_program_override matches Some((own, u)) && {
            &&& own == program
            &&& sets_flag(u@, "niri_hdr_pq", true)
            &&& u@[1].name == "niri_ref_lum_scale"
            &&& u@[1].value is Float && scales_to(u@[1].value->Float_0, reference)
            &&& sets_flag(u@, "niri_linear", false)
            &&& sets_flag(u@, "niri_hdr_to_sdr", false)
            &&& sets_flag(u@, "niri_pq_gamut", false)
            &&& sets_flag(u@, "niri_use_gamut", false)
            &&& sets_flag(u@, "niri_tonemap", false)
        },
{
    let u = (after.tex_program_override->0).1@;
    assert(u == default_hdr_uniforms(reference));
    assert(u[0].name == "niri_hdr_pq");
    assert(u[2].name == "niri_linear");
    assert(u[5].name == "niri_hdr_to_sdr");
    assert(u[6].name == "niri_pq_gamut");
    assert(u[7].name == "niri_use_gamut");
    assert(u[8].name == "niri_tonemap");
}

/// Both renderers draw by default with the same parameters on HDR frames: each uniform of the GLES
/// renderer has the value that hands the Vulkan renderer's parameter to a shader. Both encode solid
/// colors with the same scale.
pub proof fn law_renderers_agree_on_hdr_defaults<P>(
    before: GlesBlend<P>,
    gles: GlesBlend<P>,
    vulkan: VulkanBlend,
    program: P,
    reference: Luminance,
    peak: Luminance,
)
    requires
        configured_for_blend(before, gles, Some((reference, peak)), Some(program)),
        vulkan_configured_for_blend(vulkan, Some((reference, peak))),
    ensures
        vulkan.state == Some(gles.state),
        vulkan.solid_color_transform == gles.solid_color_transform,
        gles.tex_program_override is Some,
        vulkan.default_color_params is Some,
        ({
            let u = (gles.tex_program_override->0).1@;
            let v = params_uniforms(vulkan.default_color_params->0);
            &&& u.len() == 9
            &&& forall|i: int|
                0 <= i < 8 ==> (#[trigger] u[i]).name == v[i].name && u[i].value == v[i].value
            &&& u[8].name == v[9].name && u[8].value == v[9].value
        }),
{
}

/// A renderer that is configured for captures makes SDR frames of the given reference white, and has
/// nothing left of HDR frames, whichever renderer it is.
pub proof fn law_captures_are_sdr<P>(
    before: TtyRenderer<GlesBlend<P>, VulkanBlend>,
    after: TtyRenderer<GlesBlend<P>, VulkanBlend>,
    reference: Luminance,
)
    requires
        <TtyRenderer<GlesBlend<P>, VulkanBlend> as CaptureBlend>::configured_for_capture(
            before,
            after,
            reference,
        ),
    ensures
        match (before, after) {
            (TtyRenderer::Gles(_), TtyRenderer::Gles(after)) => {
                &&& !after.state.hdr_pq
                &&& after.state.reference_luminance == reference
                &&& after.state.max_luminance == reference
                &&& after.tex_program_override is None
                &&& after.solid_color_transform is None
            },
            (TtyRenderer::Vulkan(_), TtyRenderer::Vulkan(after)) => {
                &&& after.state matches Some(state)
                &&& !state.hdr_pq
                &&& state.reference_luminance == reference
                &&& state.max_luminance == reference
                &&& after.default_color_params is None
                &&& after.solid_color_transform is None
            },
            _ => false,
        },
{
}

/// Without the blend-space texture shader, configuring for HDR frames leaves the texture program
/// alone; with it, and for SDR frames, what was configured before makes no difference.
pub proof fn law_texture_program_stays_without_the_shader<P>(
    before: GlesBlend<P>,
    after: GlesBlend<P>,
    other: GlesBlend<P>,
    other_after: GlesBlend<P>,
    blend: Option<(Luminance, Luminance)>,
    texture_hdr: Option<P>,
)
    requires
        configured_for_blend(before, after, blend, texture_hdr),
        configured_for_blend(other, other_after, blend, texture_hdr),
    ensures
        blend is Some && texture_hdr is None ==> after.tex_program_override
            == before.tex_program_override,
        blend is None || texture_hdr is Some ==> override_view(after.tex_program_override)
            == override_view(other_after.tex_program_override),
        blend is Some && texture_hdr is Some ==> after.tex_program_override is Some,
        after.state == other_after.state,
        after.solid_color_transform == other_after.solid_color_transform,
        after.solid_color_transform is Some <==> blend is Some,
{
}

} // verus!
