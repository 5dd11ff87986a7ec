//! Drawing surfaces in the blend space.

use vstd::prelude::*;

use crate::backend::tty_renderer::TtyFrame;
use crate::render_helpers::blend::content::{ContentColor, ContentGamut};
use crate::render_helpers::blend::frame::{
    blend_uniform_names, gamut_uniforms, gamut_uniforms_spec,
    law_content_uniforms_are_the_declared_ones, params_for_content, params_uniforms,
    scales_to, tonemap_uniforms_spec, tonemap_values_spec, transforms_content, ColorBlendParams,
    FrameBlendState,
};
use crate::render_helpers::blend::renderer::{override_view, GlesBlend, TexProgramOverride};
use crate::render_helpers::blend::tonemap::{
    law_content_brighter_than_the_output_is_tone_mapped, tonemap_needed, tonemap_needed_spec,
};
use crate::render_helpers::colorimetry::Mat3;
use crate::render_helpers::uniform::{Uniform, UniformValue};

verus! {

/// The texture shader programs for blending. A program that failed to compile is missing.
#[derive(Debug, Clone, Copy)]
pub struct BlendTexturePrograms<P> {
    /// Encodes SDR and linear content, and converts the gamut of PQ content.
    pub texture_hdr: Option<P>,
    /// Converts PQ content for SDR frames.
    pub texture_hdr_to_sdr: Option<P>,
}

/// The uniforms of the HDR-to-SDR program: the container gamut is converted to BT.709, and the
/// headroom above the SDR reference white is compressed instead of clipped.
pub open spec fn hdr_to_sdr_uniforms(
    state: FrameBlendState,
    gamut: ContentGamut,
    max_lum: Option<u32>,
    tonemapping: bool,
    computed: Option<Mat3>,
) -> Seq<Uniform> {
    seq![Uniform::float_spec("niri_ref_lum_scale", state.reference_luminance.pq_scale())]
        + gamut_uniforms_spec(true, gamut.matrix_to_spec(false, computed)) + tonemap_uniforms_spec(
        tonemap_values_spec(
            tonemap_needed_spec(tonemapping, max_lum, state.max_luminance),
            match max_lum {
                Some(max) => max,
                None => 0,
            },
            state.reference_luminance,
            state.max_luminance,
        ),
    )
}

/// The uniforms of the HDR-to-SDR program are declared in it.
pub proof fn law_hdr_to_sdr_uniforms_are_declared(
    state: FrameBlendState,
    gamut: ContentGamut,
    max_lum: Option<u32>,
    tonemapping: bool,
    computed: Option<Mat3>,
    i: int,
)
    requires
        0 <= i < hdr_to_sdr_uniforms(state, gamut, max_lum, tonemapping, computed).len(),
    ensures
        hdr_to_sdr_uniforms(state, gamut, max_lum, tonemapping, computed)[i].declared_in(
            blend_uniform_names(),
        ),
{
    let k = if i == 0 {
        1
    } else {
        i + 6
    };
    assert(blend_uniform_names()[k].name == hdr_to_sdr_uniforms(
        state,
        gamut,
        max_lum,
        tonemapping,
        computed,
    )[i].name);
}

/// The program for a draw that needs the blend-space texture shader: that of the frame override,
/// else the blend shader itself.
pub open spec fn blend_program<P>(frame: GlesBlend<P>, programs: BlendTexturePrograms<P>) -> Option<
    P,
> {
    match frame.tex_program_override {
        Some((program, _)) => Some(program),
        None => programs.texture_hdr,
    }
}

/// The override with which the content is drawn.
pub open spec fn draw_override<P>(
    frame: GlesBlend<P>,
    programs: BlendTexturePrograms<P>,
    content: ContentColor,
    tonemapping: bool,
    computed: Option<Mat3>,
) -> Option<(P, Seq<Uniform>)> {
    let own_uniforms = params_uniforms(
        params_for_content(frame.state, content, tonemapping, computed),
    );
    let own_program = match blend_program(frame, programs) {
        Some(program) => Some((program, own_uniforms)),
        // The shader failed to compile: render raw.
        None => None,
    };
    match content {
        // Plain sRGB content uses the frame's default path. Wide-gamut SDR content needs the gamut
        // uniform on HDR frames.
        ContentColor::Sdr { gamut } => if gamut is Srgb || !frame.state.hdr_pq {
            override_view(frame.tex_program_override)
        } else {
            own_program
        },
        // PQ content suspends the override on HDR frames (numeric passthrough), unless it needs a
        // gamut conversion or tone mapping, and is converted on SDR frames.
        ContentColor::HdrPq { gamut, max_lum } => if frame.state.hdr_pq {
            if transforms_content(frame.state, content, tonemapping, computed) {
                own_program
            } else {
                None
            }
        } else {
            match programs.texture_hdr_to_sdr {
                Some(program) => Some(
                    (
                        program,
                        hdr_to_sdr_uniforms(frame.state, gamut, max_lum, tonemapping, computed),
                    ),
                ),
                None => None,
            }
        },
        // Linear content is encoded on HDR and SDR frames alike.
        ContentColor::Linear { .. } => own_program,
    }
}

/// Whether the override has to be put back after the draw.
pub open spec fn replaces_override<P>(
    frame: GlesBlend<P>,
    programs: BlendTexturePrograms<P>,
    content: ContentColor,
    tonemapping: bool,
    computed: Option<Mat3>,
) -> bool {
    match content {
        ContentColor::Sdr { gamut } => {
            &&& gamut !is Srgb
            &&& frame.state.hdr_pq
            &&& blend_program(frame, programs) is Some
        },
        ContentColor::HdrPq { .. } => {
            ||| !frame.state.hdr_pq
            ||| frame.tex_program_override is Some
            ||| programs.texture_hdr is Some && transforms_content(
                frame.state,
                content,
                tonemapping,
                computed,
            )
        },
        ContentColor::Linear { .. } => blend_program(frame, programs) is Some,
    }
}

/// Adjusts the frame's default-texture-program override for a draw of the given content,
/// returning the previous override to restore afterwards (`None` = nothing was changed).
///
/// HDR PQ client content suspends the override on HDR frames (numeric passthrough) and installs
/// the HDR-to-SDR texture program on SDR capture frames. Extended-linear content installs the
/// blend texture program with the `niri_linear` state set, on HDR *and* SDR frames: raw
/// extended-linear values are meaningless on an SDR framebuffer, so SDR frames get the
/// reference-white-anchored SDR encode from the shader instead of a passthrough.
pub fn adjust_tex_program_for_content<P: Copy>(
    frame: &mut GlesBlend<P>,
    programs: &BlendTexturePrograms<P>,
    content: ContentColor,
    tonemapping: bool,
    computed: Option<Mat3>,
) -> (saved: Option<TexProgramOverride<P>>)
    ensures
        adjusted(*old(frame), *final(frame), *programs, content, tonemapping, computed),
        saved == if replaces_override(*old(frame), *programs, content, tonemapping, computed) {
            Some(old(frame).tex_program_override)
        } else {
            None
        },
        saved is None ==> *final(frame) == *old(frame),
{
    let hdr: bool = frame.state.is_hdr_frame();
    match content {
        ContentColor::Sdr { gamut: ContentGamut::Srgb } => None,
        ContentColor::Sdr { .. } => {
            if !hdr {
                return None;
            }
            install_blend_program(frame, programs.texture_hdr, content, tonemapping, computed)
        },
        ContentColor::HdrPq { gamut, max_lum } => {
            if hdr {
                let tonemap: bool = tonemap_needed(
                    tonemapping,
                    max_lum,
                    frame.state.max_luminance,
                );
                if gamut.matrix_to(true, computed).is_none() && !tonemap {
                    // BT.2020-container PQ within the output's peak passes through numerically.
                    let saved: TexProgramOverride<P> = frame.tex_program_override.take();
                    if saved.is_some() {
                        Some(saved)
                    } else {
                        None
                    }
                } else {
                    // Other containers are decoded, converted and re-encoded; content brighter
                    // than the output peak is additionally tone mapped.
                    install_blend_program(
                        frame,
                        programs.texture_hdr,
                        content,
                        tonemapping,
                        computed,
                    )
                }
            } else {
                let saved: TexProgramOverride<P> = frame.tex_program_override.take();
                if let Some(program) = programs.texture_hdr_to_sdr {
                    let max_in: u32 = match max_lum {
                        Some(max) => max,
                        None => 0,
                    };
                    let mut uniforms: Vec<Uniform> = vec![
                        Uniform::float("niri_ref_lum_scale", frame.state.ref_lum_scale()),
                    ];
                    // The uniform (rather than the shader's built-in 2020 constant) also covers
                    // non-2020 containers.
                    let mut gamut: Vec<Uniform> = gamut_uniforms(
                        true,
                        gamut.matrix_to(false, computed),
                    );
                    uniforms.append(&mut gamut);
                    let mut tonemap: Vec<Uniform> = FrameBlendState::tonemap_uniforms(
                        tonemap_needed(tonemapping, max_lum, frame.state.max_luminance),
                        max_in,
                        frame.state.reference_luminance,
                        frame.state.max_luminance,
                    );
                    uniforms.append(&mut tonemap);
                    frame.tex_program_override = Some((program, uniforms));
                }
                Some(saved)
            }
        },
        ContentColor::Linear { .. } => install_blend_program(
            frame,
            programs.texture_hdr,
            content,
            tonemapping,
            computed,
        ),
    }
}

/// Overrides the texture program with the blend shader for a draw of the content, preferring the
/// program of the override in place. Returns that override, or `None` when there is no program.
fn install_blend_program<P: Copy>(
    frame: &mut GlesBlend<P>,
    texture_hdr: Option<P>,
    content: ContentColor,
    tonemapping: bool,
    computed: Option<Mat3>,
) -> (saved: Option<TexProgramOverride<P>>)
    ensures
        final(frame).state == old(frame).state,
        final(frame).solid_color_transform == old(frame).solid_color_transform,
        match (old(frame).tex_program_override, texture_hdr) {
            (Some((program, _)), _) | (None, Some(program)) => {
                &&& saved == Some(old(frame).tex_program_override)
                &&& override_view(final(frame).tex_program_override) == Some(
                    (
                        program,
                        params_uniforms(
                            params_for_content(old(frame).state, content, tonemapping, computed),
                        ),
                    ),
                )
            },
            (None, None) => {
                &&& saved is None
                &&& final(frame).tex_program_override is None
            },
        },
{
    let saved: TexProgramOverride<P> = frame.tex_program_override.take();
    let program: Option<P> = match &saved {
        Some(over) => Some(over.0),
        None => texture_hdr,
    };
    match program {
        Some(program) => {
            let uniforms: Vec<Uniform> = frame.state.uniforms_for_content(
                content,
                tonemapping,
                computed,
            );
            frame.tex_program_override = Some((program, uniforms));
            Some(saved)
        },
        // The shader failed to compile at startup; render raw.
        None => None,
    }
}

/// What a Vulkan frame draws with.
pub struct VulkanFrameBlend {
    /// The blend state of the renderer, if it has one.
    pub state: Option<FrameBlendState>,
    /// The blend parameters of draws in place of the renderer's default ones.
    pub color_params_override: Option<ColorBlendParams>,
}

/// A surface-tree render element that knows how its content relates to the output blend space
/// (from its committed image description).
///
/// For blend-space (PQ) content the frame-wide blend-space texture program is suspended around the
/// draw, so the client's PQ values pass through numerically. For scRGB content the frame program
/// is swapped for one applying the absolute scRGB encode.
#[derive(Debug)]
pub struct BlendSurfaceRenderElement<E> {
    pub inner: E,
    pub content: ContentColor,
}

/// `during` is the frame `before`, with the override for a draw of the content.
pub open spec fn adjusted<P>(
    before: GlesBlend<P>,
    during: GlesBlend<P>,
    programs: BlendTexturePrograms<P>,
    content: ContentColor,
    tonemapping: bool,
    computed: Option<Mat3>,
) -> bool {
    &&& during.state == before.state
    &&& during.solid_color_transform == before.solid_color_transform
    &&& override_view(during.tex_program_override) =~= draw_override(
        before,
        programs,
        content,
        tonemapping,
        computed,
    )
}

/// `during` is the Vulkan frame `before`, with the blend parameters for a draw of the content.
pub open spec fn vulkan_adjusted(
    before: VulkanFrameBlend,
    during: VulkanFrameBlend,
    content: ContentColor,
    tonemapping: bool,
    computed: Option<Mat3>,
) -> bool {
    &&& during.state == before.state
    &&& during.color_params_override == Some(
        params_for_content(
            match before.state {
                Some(state) => state,
                None => FrameBlendState::for_blend(None),
            },
            content,
            tonemapping,
            computed,
        ),
    )
}

impl<E> BlendSurfaceRenderElement<E> {
    pub fn new(inner: E, content: ContentColor) -> (element: Self)
        ensures
            element.inner == inner,
            element.content == content,
    {
        BlendSurfaceRenderElement { inner, content }
    }

    pub fn inner(&self) -> (inner: &E)
        ensures
            *inner == self.inner,
    {
        &self.inner
    }

    pub fn into_inner(self) -> (inner: E)
        ensures
            inner == self.inner,
    {
        self.inner
    }

    pub fn content(&self) -> (content: ContentColor)
        ensures
            content == self.content,
    {
        self.content
    }

    /// Draws the inner element in a GLES frame with `draw_inner`. The frame's texture program
    /// override is adjusted for the content around that, and put back afterwards.
    pub fn draw<P: Copy, T, F: FnOnce(&E, &GlesBlend<P>) -> T>(
        &self,
        frame: &mut GlesBlend<P>,
        programs: &BlendTexturePrograms<P>,
        tonemapping: bool,
        computed: Option<Mat3>,
        draw_inner: F,
    ) -> (result: T)
        requires
            forall|during: &GlesBlend<P>| #[trigger]
                call_requires(draw_inner, (&self.inner, during)),
        ensures
            *final(frame) == *old(frame),
            exists|during: GlesBlend<P>|
                {
                    &&& #[trigger] call_ensures(draw_inner, (&self.inner, &during), result)
                    &&& adjusted(
                        *old(frame),
                        during,
                        *programs,
                        self.content,
                        tonemapping,
                        computed,
                    )
                },
    {
        let saved: Option<TexProgramOverride<P>> = adjust_tex_program_for_content(
            frame,
            programs,
            self.content,
            tonemapping,
            computed,
        );
        let result: T = draw_inner(&self.inner, frame);
        if let Some(previous) = saved {
            frame.tex_program_override = previous;
        }
        result
    }

    /// Draws the inner element in a frame of the TTY backend with `draw_inner`. The frame's texture
    /// program override or blend parameters are adjusted for the content around that, and put
    /// back afterwards.
    pub fn draw_tty<P: Copy, T, F: FnOnce(&E, &TtyFrame<GlesBlend<P>, VulkanFrameBlend>) -> T>(
        &self,
        frame: &mut TtyFrame<GlesBlend<P>, VulkanFrameBlend>,
        programs: &BlendTexturePrograms<P>,
        tonemapping: bool,
        computed: Option<Mat3>,
        draw_inner: F,
    ) -> (result: T)
        requires
            forall|during: &TtyFrame<GlesBlend<P>, VulkanFrameBlend>| #[trigger]
                call_requires(draw_inner, (&self.inner, during)),
        ensures
            *final(frame) == *old(frame),
            exists|during: TtyFrame<GlesBlend<P>, VulkanFrameBlend>|
                {
                    &&& #[trigger] call_ensures(draw_inner, (&self.inner, &during), result)
                    &&& match (*old(frame), during) {
                        (TtyFrame::Gles(before), TtyFrame::Gles(during)) => adjusted(
                            before,
                            during,
                            *programs,
                            self.content,
                            tonemapping,
                            computed,
                        ),
                        (TtyFrame::Vulkan(before), TtyFrame::Vulkan(during)) => vulkan_adjusted(
                            before,
                            during,
                            self.content,
                            tonemapping,
                            computed,
                        ),
                        _ => false,
                    }
                },
    {
        let mut saved: Option<TexProgramOverride<P>> = None;
        let mut saved_vk: Option<ColorBlendParams> = None;
        match frame {
            TtyFrame::Gles(gles) => {
                saved = adjust_tex_program_for_content(
                    gles,
                    programs,
                    self.content,
                    tonemapping,
                    computed,
                );
            },
            TtyFrame::Vulkan(vk) => {
                let params: ColorBlendParams = FrameBlendState::vulkan_params_for_content(
                    vk.state,
                    self.content,
                    tonemapping,
                    computed,
                );
                saved_vk = vk.color_params_override.take();
                vk.color_params_override = Some(params);
            },
        }
        let result: T = draw_inner(&self.inner, frame);
        match frame {
            TtyFrame::Gles(gles) => {
                if let Some(previous) = saved {
                    gles.tex_program_override = previous;
                }
            },
            TtyFrame::Vulkan(vk) => {
                vk.color_params_override = saved_vk;
            },
        }
        result
    }
}

/// The override in place during a draw never sets a uniform that the blend-space programs do not
/// declare, as long as the override in place before the draw did not.
pub proof fn law_draw_override_uniforms_are_declared<P>(
    frame: GlesBlend<P>,
    programs: BlendTexturePrograms<P>,
    content: ContentColor,
    tonemapping: bool,
    computed: Option<Mat3>,
)
    requires
        override_view(frame.tex_program_override) matches Some((_, uniforms)) ==> forall|i: int|
            #![trigger uniforms[i]]
            0 <= i < uniforms.len() ==> uniforms[i].declared_in(blend_uniform_names()),
    ensures
        draw_override(frame, programs, content, tonemapping, computed) matches Some((_, uniforms))
            ==> forall|i: int|
            #![trigger uniforms[i]]
            0 <= i < uniforms.len() ==> uniforms[i].declared_in(blend_uniform_names()),
{
    if let Some((_, uniforms)) = draw_override(frame, programs, content, tonemapping, computed) {
        let params = params_for_content(frame.state, content, tonemapping, computed);
        assert forall|i: int| #![trigger uniforms[i]] 0 <= i < uniforms.len() implies uniforms[i].declared_in(
            blend_uniform_names(),
        ) by {
            if uniforms == params_uniforms(params) {
                law_content_uniforms_are_the_declared_ones(params, i);
                assert(blend_uniform_names()[i].name == uniforms[i].name);
            } else if let ContentColor::HdrPq { gamut, max_lum } = content {
                law_hdr_to_sdr_uniforms_are_declared(
                    frame.state,
                    gamut,
                    max_lum,
                    tonemapping,
                    computed,
                    i,
                );
            }
        }
    }
}

/// On SDR frames, HDR content is drawn with the HDR-to-SDR program, which knows the reference white
/// of the frame. Everything it is told agrees with the blend parameters that a Vulkan frame in the
/// same state computes for the content: the reference white, the gamut conversion, and the tone
/// mapping. Without the program the content is drawn raw.
pub proof fn law_hdr_content_on_sdr_frames<P>(
    frame: GlesBlend<P>,
    programs: BlendTexturePrograms<P>,
    gamut: ContentGamut,
    max_lum: Option<u32>,
    tonemapping: bool,
    computed: Option<Mat3>,
)
    requires
        !frame.state.hdr_pq,
    ensures
        ({
            let content = ContentColor::HdrPq { gamut, max_lum };
            let vulkan = params_for_content(frame.state, content, tonemapping, computed);
            match (
                draw_override(frame, programs, content, tonemapping, computed),
                programs.texture_hdr_to_sdr,
            ) {
                (Some((program, u)), Some(hdr_to_sdr)) => {
                    &&& program == hdr_to_sdr
                    &&& u.len() == 7
                    &&& u[0].name == "niri_ref_lum_scale"
                    &&& u[0].value == UniformValue::Float(vulkan.ref_lum_scale)
                    &&& scales_to(vulkan.ref_lum_scale, frame.state.reference_luminance)
                    &&& u[1].name == "niri_use_gamut"
                    &&& u[1].value is Float && u[1].value->Float_0.num == 1
                    &&& u[1].value->Float_0.den == 1
                    &&& vulkan.use_gamut
                    &&& u[2].name == "niri_gamut"
                    &&& u[2].value == UniformValue::Matrix3x3(vulkan.gamut)
                    &&& u[3].name == "niri_tonemap"
                    &&& u[3].value is Float && u[3].value->Float_0.den == 1
                    &&& u[3].value->Float_0.num == if vulkan.tonemap {
                        1int
                    } else {
                        0
                    }
                    &&& u[4].name == "niri_tm_v"
                    &&& u[4].value == UniformValue::Float(vulkan.tm_v)
                    &&& u[5].name == "niri_tm_ref_scale"
                    &&& u[5].value == UniformValue::Float(vulkan.tm_ref_scale)
                    &&& u[6].name == "niri_tm_out_scale"
                    &&& u[6].value == UniformValue::Float(vulkan.tm_out_scale)
                },
                (None, None) => true,
                _ => false,
            }
        }),
{
}

/// What each content is drawn with elsewhere. Plain sRGB content is drawn like everything else in
/// the frame, and so is all SDR content on SDR frames. PQ content that needs no gamut conversion and
/// is no brighter than the output passes through HDR frames, with no program at all. All other
/// content is drawn with the program in place, or the blend shader if there is none, set up with the
/// blend parameters of the content.
pub proof fn law_programs_of_draws<P>(
    frame: GlesBlend<P>,
    programs: BlendTexturePrograms<P>,
    content: ContentColor,
    tonemapping: bool,
    computed: Option<Mat3>,
)
    requires
        frame.state.hdr_pq || content !is HdrPq,
    ensures
        ({
            let drawn = draw_override(frame, programs, content, tonemapping, computed);
            let default = match content {
                ContentColor::Sdr { gamut } => gamut is Srgb || !frame.state.hdr_pq,
                _ => false,
            };
            let passes = match content {
                ContentColor::HdrPq { gamut, max_lum } => gamut.matrix_to_spec(
                    true,
                    computed,
                ) is None && (max_lum matches Some(max) ==> !tonemapping || max * 10_000
                    <= frame.state.max_luminance.0),
                _ => false,
            };
            let converted = match content {
                ContentColor::Sdr { .. } => !default,
                ContentColor::HdrPq { gamut, .. } => gamut.matrix_to_spec(true, computed) is Some,
                ContentColor::Linear { .. } => true,
            };
            &&& default ==> match (drawn, frame.tex_program_override) {
                (Some((program, u)), Some((own, own_u))) => program == own && u == own_u@,
                (None, None) => true,
                _ => false,
            }
            &&& passes ==> drawn is None
            &&& drawn is Some && !default ==> (drawn->0).1 == params_uniforms(
                params_for_content(frame.state, content, tonemapping, computed),
            )
            &&& drawn is Some && !default ==> match frame.tex_program_override {
                Some((own, _)) => (drawn->0).0 == own,
                None => programs.texture_hdr == Some((drawn->0).0),
            }
            &&& converted ==> (drawn is None <==> frame.tex_program_override is None
                && programs.texture_hdr is None)
        }),
{
    if let ContentColor::HdrPq { max_lum, .. } = content {
        law_content_brighter_than_the_output_is_tone_mapped(
            tonemapping,
            max_lum,
            frame.state.max_luminance,
        );
    }
}

/// An override that a draw changes is handed back to be restored.
pub proof fn law_changed_overrides_are_handed_back<P>(
    frame: GlesBlend<P>,
    programs: BlendTexturePrograms<P>,
    content: ContentColor,
    tonemapping: bool,
    computed: Option<Mat3>,
)
    requires
        match (
            draw_override(frame, programs, content, tonemapping, computed),
            frame.tex_program_override,
        ) {
            (Some((program, u)), Some((own, own_u))) => program != own || u != own_u@,
            (None, None) => false,
            _ => true,
        },
    ensures
        replaces_override(frame, programs, content, tonemapping, computed),
{
}

/// HDR content that is brighter than the output, by a factor of 1.001 or more, is drawn with a
/// program on HDR frames that have one.
pub proof fn law_bright_hdr_content_is_drawn_with_a_program<P>(
    frame: GlesBlend<P>,
    programs: BlendTexturePrograms<P>,
    gamut: ContentGamut,
    max: u32,
    computed: Option<Mat3>,
)
    requires
        frame.state.hdr_pq,
        frame.state.max_luminance.0 > 0,
        max * 10_000 * 1_000 >= frame.state.max_luminance.0 * 1_001,
        frame.tex_program_override is Some || programs.texture_hdr is Some,
    ensures
        draw_override(
            frame,
            programs,
            ContentColor::HdrPq { gamut, max_lum: Some(max) },
            true,
            computed,
        ) is Some,
{
    law_content_brighter_than_the_output_is_tone_mapped(
        true,
        Some(max),
        frame.state.max_luminance,
    );
}

/// A draw changes nothing of the frame but the override, which is the one for its content.
pub proof fn law_draws_change_only_the_override<P>(
    before: GlesBlend<P>,
    during: GlesBlend<P>,
    programs: BlendTexturePrograms<P>,
    content: ContentColor,
    tonemapping: bool,
    computed: Option<Mat3>,
)
    requires
        adjusted(before, during, programs, content, tonemapping, computed),
    ensures
        during.state == before.state,
        during.solid_color_transform == before.solid_color_transform,
        match (
            during.tex_program_override,
            draw_override(before, programs, content, tonemapping, computed),
        ) {
            (Some((program, u)), Some((expected, expected_u))) => program == expected && u@
                == expected_u,
            (None, None) => true,
            _ => false,
        },
{
}

/// A draw in a Vulkan frame has the blend parameters for its content in the state of the frame. A
/// frame without a state is an SDR frame with a reference white of 203 cd/m².
pub proof fn law_vulkan_draws_have_the_parameters_of_their_content(
    before: VulkanFrameBlend,
    during: VulkanFrameBlend,
    content: ContentColor,
    tonemapping: bool,
    computed: Option<Mat3>,
)
    requires
        vulkan_adjusted(before, during, content, tonemapping, computed),
    ensures
        during.state == before.state,
        during.color_params_override is Some,
        before.state matches Some(state) ==> during.color_params_override->0 == params_for_content(
            state,
            content,
            tonemapping,
            computed,
        ),
        before.state is None ==> {
            let p = during.color_params_override->0;
            &&& p.ref_lum_scale.den > 0
            &&& p.ref_lum_scale.num * 10_000 == 203 * p.ref_lum_scale.den
            &&& !p.hdr_pq && !p.pq_gamut
            &&& p.hdr_to_sdr <==> content is HdrPq
        },
{
}

/// A draw leaves the frame as it was. While the inner element is drawn, the frame has the same blend
/// state, and only the texture program may be another one.
pub proof fn law_draws_leave_the_frame_as_it_was<E, P: Copy, T, F: FnOnce(&E, &GlesBlend<P>) -> T>(
    element: BlendSurfaceRenderElement<E>,
    frame: &mut GlesBlend<P>,
    programs: BlendTexturePrograms<P>,
    tonemapping: bool,
    computed: Option<Mat3>,
    draw_inner: F,
    result: T,
)
    requires
        call_ensures(
            BlendSurfaceRenderElement::<E>::draw::<P, T, F>,
            (&element, frame, &programs, tonemapping, computed, draw_inner),
            result,
        ),
    ensures
        *final(frame) == *old(frame),
        exists|during: GlesBlend<P>|
            {
                &&& #[trigger] call_ensures(draw_inner, (&element.inner, &during), result)
                &&& during.state == old(frame).state
                &&& during.solid_color_transform == old(frame).solid_color_transform
                &&& element.content is Sdr && !old(frame).state.hdr_pq ==> override_view(
                    during.tex_program_override,
                ) == override_view(old(frame).tex_program_override)
                &&& element.content is HdrPq && !old(frame).state.hdr_pq ==> match (
                    programs.texture_hdr_to_sdr,
                    during.tex_program_override,
                ) {
                    (Some(program), Some((used, _))) => used == program,
                    (None, None) => true,
                    _ => false,
                }
            },
{
}

/// The same draws on the TTY backend: the frame is of the same renderer while the inner element is
/// drawn, and is left as it was.
pub proof fn law_tty_draws_leave_the_frame_as_it_was<
    E,
    P: Copy,
    T,
    F: FnOnce(&E, &TtyFrame<GlesBlend<P>, VulkanFrameBlend>) -> T,
>(
    element: BlendSurfaceRenderElement<E>,
    frame: &mut TtyFrame<GlesBlend<P>, VulkanFrameBlend>,
    programs: BlendTexturePrograms<P>,
    tonemapping: bool,
    computed: Option<Mat3>,
    draw_inner: F,
    result: T,
)
    requires
        call_ensures(
            BlendSurfaceRenderElement::<E>::draw_tty::<P, T, F>,
            (&element, frame, &programs, tonemapping, computed, draw_inner),
            result,
        ),
    ensures
        *final(frame) == *old(frame),
        exists|during: TtyFrame<GlesBlend<P>, VulkanFrameBlend>|
            {
                &&& #[trigger] call_ensures(draw_inner, (&element.inner, &during), result)
                &&& match (*old(frame), during) {
                    (TtyFrame::Gles(before), TtyFrame::Gles(during)) => {
                        &&& during.state == before.state
                        &&& during.solid_color_transform == before.solid_color_transform
                    },
                    (TtyFrame::Vulkan(before), TtyFrame::Vulkan(during)) => {
                        &&& during.state == before.state
                        &&& during.color_params_override is Some
                        &&& element.content is Sdr && before.state is Some && !(
                        before.state->0).hdr_pq ==> !(during.color_params_override->0).hdr_pq && !(
                        during.color_params_override->0).use_gamut
                    },
                    _ => false,
                }
            },
{
}

} // verus!
