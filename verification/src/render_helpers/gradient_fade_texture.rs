//! Textures that fade out where they are clipped.

use vstd::prelude::*;

use crate::backend::tty_renderer::{TtyFrame, TtyOffscreen};
use crate::render_helpers::blend::content::{ContentColor, ContentGamut};
use crate::render_helpers::blend::frame::{
    blend_uniform_names, params_for_content, params_uniforms, FrameBlendState,
};
use crate::render_helpers::blend::renderer::{override_view, GlesBlend, TexProgramOverride};
use crate::render_helpers::shaders::uniforms::{
    gradient_fade_uniforms_spec, law_programs_accept_blend_uniforms,
};
use crate::render_helpers::shaders::{NiriTexProgram, Shaders};
use crate::render_helpers::texture::{TextureRenderElement, UniversalTextureRenderElement};
use crate::render_helpers::uniform::{Uniform, UniformValue};
use crate::utils::geometry::LogicalCoord;
use crate::utils::ratio::Ratio;

verus! {

/// The program that fades a texture out.
#[derive(Debug)]
pub struct GradientFadeShader<G, V>(pub NiriTexProgram<G, V>);

/// A texture that is shown with a fade where it is clipped on its right. `PG` and `PV` are handles
/// to texture programs.
#[derive(Debug)]
pub struct GradientFadeTextureRenderElement<G, V, M, A, PG, PV> {
    pub inner: UniversalTextureRenderElement<G, V, M, A>,
    pub program: GradientFadeShader<PG, PV>,
    /// Where the fade starts and ends, relative to the width of the whole texture.
    pub cutoff: (Ratio, Ratio),
}

/// Whether one logical length is shorter than another.
pub open spec fn shorter(a: LogicalCoord, b: LogicalCoord) -> bool {
    a.num * b.den < b.num * a.den
}

/// The fade of a texture of which `shown` of the `whole` width is shown. A clipped texture fades
/// out over the last 18 logical pixels that are shown, or over all of them if they are fewer. One
/// that is shown whole does not fade.
pub open spec fn fade_cutoff(shown: LogicalCoord, whole: LogicalCoord) -> (Ratio, Ratio) {
    if shorter(shown, whole) {
        let den = (shown.den * whole.num) as u128;
        (
            Ratio {
                num: if 0 <= shown.num <= 18 * shown.den {
                    0
                } else {
                    ((shown.num - 18 * shown.den) * whole.den) as i128
                },
                den,
            },
            Ratio { num: (shown.num * whole.den) as i128, den },
        )
    } else {
        (Ratio::one_spec(), Ratio::one_spec())
    }
}

proof fn lemma_products_fit(a: i64, b: u32)
    ensures
        -0x1_0000_0000 * 0x8000_0000_0000_0000 <= a * b <= 0x1_0000_0000 * 0x8000_0000_0000_0000,
{
    assert(-0x1_0000_0000 * 0x8000_0000_0000_0000 <= a * b <= 0x1_0000_0000 * 0x8000_0000_0000_0000)
        by (nonlinear_arith)
        requires
            -0x8000_0000_0000_0000 <= a <= 0x8000_0000_0000_0000,
            0 <= b <= 0x1_0000_0000,
    ;
}

fn compute_cutoff(shown: LogicalCoord, whole: LogicalCoord) -> (cutoff: (Ratio, Ratio))
    requires
        whole.num >= 0,
    ensures
        cutoff == fade_cutoff(shown, whole),
{
    proof {
        lemma_products_fit(shown.num, whole.den);
        lemma_products_fit(whole.num, shown.den);
        assert(0 <= whole.num * shown.den) by (nonlinear_arith)
            requires
                0 <= whole.num,
                0 <= shown.den,
        ;
        assert(shown.den * whole.num == whole.num * shown.den) by (nonlinear_arith);
        let x = shown.num - 18 * shown.den;
        assert(-0x1_0000_0000 * 0x1_0000_0000_0000_0000 <= x * whole.den <= 0x1_0000_0000
            * 0x8000_0000_0000_0000) by (nonlinear_arith)
            requires
                -0x1_0000_0000_0000_0000 <= x <= 0x8000_0000_0000_0000,
                0 <= whole.den <= 0x1_0000_0000,
        ;
    }
    let full: i128 = shown.num as i128 * whole.den as i128;
    let width: i128 = whole.num as i128 * shown.den as i128;
    if full < width {
        // Texture is clipped, add a fade.
        let start: i128 = if 0 <= shown.num && shown.num as i128 <= 18 * shown.den as i128 {
            0
        } else {
            (shown.num as i128 - 18 * shown.den as i128) * whole.den as i128
        };
        (Ratio::new(start, width as u128), Ratio::new(full, width as u128))
    } else {
        // Texture is displayed full-size, no cutoff necessary.
        (Ratio::one(), Ratio::one())
    }
}

/// What a Vulkan frame draws textures with. `PV` is a handle to a texture program.
pub struct VulkanTexFrame<PV> {
    /// The blend state of the renderer, if it has one.
    pub state: Option<FrameBlendState>,
    /// The program that draws with the default texture program use instead.
    pub tex_program_override: Option<(PV, Vec<Uniform>)>,
}

/// The uniforms of the fade program in a frame: the fade itself, and the blend stage for SDR
/// content.
pub open spec fn fade_uniforms(cutoff: (Ratio, Ratio), state: FrameBlendState, tonemapping: bool) -> Seq<
    Uniform,
> {
    seq![Uniform { name: "cutoff", value: UniformValue::Float2(cutoff.0, cutoff.1) }]
        + params_uniforms(
        params_for_content(
            state,
            ContentColor::Sdr { gamut: ContentGamut::Srgb },
            tonemapping,
            None,
        ),
    )
}

/// `during` is the frame `before`, with the fade program overriding the texture program.
pub open spec fn faded<P>(
    before: GlesBlend<P>,
    during: GlesBlend<P>,
    program: P,
    cutoff: (Ratio, Ratio),
    tonemapping: bool,
) -> bool {
    &&& during.state == before.state
    &&& during.solid_color_transform == before.solid_color_transform
    &&& override_view(during.tex_program_override) == Some(
        (program, fade_uniforms(cutoff, before.state, tonemapping)),
    )
}

/// The uniforms of the fade program are declared in it.
pub proof fn law_fade_uniforms_are_declared(
    cutoff: (Ratio, Ratio),
    state: FrameBlendState,
    tonemapping: bool,
    i: int,
)
    requires
        0 <= i < fade_uniforms(cutoff, state, tonemapping).len(),
    ensures
        fade_uniforms(cutoff, state, tonemapping)[i].declared_in(
            gradient_fade_uniforms_spec() + blend_uniform_names(),
        ),
{
    let declared = gradient_fade_uniforms_spec() + blend_uniform_names();
    let params = params_for_content(
        state,
        ContentColor::Sdr { gamut: ContentGamut::Srgb },
        tonemapping,
        None,
    );
    if i == 0 {
        assert(declared[0].name == "cutoff");
    } else {
        law_programs_accept_blend_uniforms(gradient_fade_uniforms_spec(), params, i - 1);
    }
}

/// The fade ends where the shown part of the texture ends, starts no later, and without a clip
/// there is none.
pub proof fn law_fade_lies_in_the_shown_part(shown: LogicalCoord, whole: LogicalCoord)
    requires
        shown.num >= 0,
        shown.den > 0,
        whole.num > 0,
        whole.den > 0,
    ensures
        ({
            let (start, end) = fade_cutoff(shown, whole);
            &&& start.den == end.den
            &&& end.den > 0
            &&& 0 <= start.num <= end.num <= end.den
            &&& shorter(shown, whole) <==> end.num < end.den
            &&& shorter(shown, whole) ==> end.num * (shown.den * whole.num) == (shown.num
                * whole.den) * end.den
        }),
{
    lemma_products_fit(shown.num, whole.den);
    lemma_products_fit(whole.num, shown.den);
    assert(shown.den * whole.num == whole.num * shown.den) by (nonlinear_arith);
    assert(0 < whole.num * shown.den) by (nonlinear_arith)
        requires
            0 < whole.num,
            0 < shown.den,
    ;
    let x = shown.num - 18 * shown.den;
    assert(x * whole.den <= shown.num * whole.den) by (nonlinear_arith)
        requires
            x <= shown.num,
            0 < whole.den,
    ;
    assert(0 <= shown.num * whole.den) by (nonlinear_arith)
        requires
            0 <= shown.num,
            0 < whole.den,
    ;
    if x >= 0 {
        assert(0 <= x * whole.den) by (nonlinear_arith)
            requires
                0 <= x,
                0 < whole.den,
        ;
    }
}

impl<G, V, M, A, PG: Copy, PV: Copy> GradientFadeTextureRenderElement<G, V, M, A, PG, PV> {
    pub fn new(
        texture: TextureRenderElement<TtyOffscreen<G, V, M>, A>,
        program: GradientFadeShader<PG, PV>,
    ) -> (element: Self)
        requires
            texture.buffer.size.w >= 0,
            texture.buffer.size.h >= 0,
        ensures
            element.inner.0 == texture,
            element.program == program,
            element.cutoff == fade_cutoff(
                texture.logical_src_spec().size.w,
                texture.buffer.logical_size_spec().w,
            ),
    {
        let whole: LogicalCoord = texture.buffer().logical_size().w;
        let shown: LogicalCoord = texture.logical_src().size.w;
        let cutoff: (Ratio, Ratio) = compute_cutoff(shown, whole);
        GradientFadeTextureRenderElement {
            inner: UniversalTextureRenderElement(texture),
            program,
            cutoff,
        }
    }

    /// The fade program of a renderer, if it compiled.
    pub fn shader<S, B>(shaders: Option<&Shaders<S, PG, PV, B>>) -> (shader: Option<
        GradientFadeShader<PG, PV>,
    >)
        ensures
            shader == match shaders {
                Some(shaders) => match shaders.gradient_fade {
                    Some(program) => Some(
                        GradientFadeShader(NiriTexProgram::<PG, PV>::Gles(program)),
                    ),
                    None => None,
                },
                None => None,
            },
    {
        match shaders {
            Some(shaders) => match shaders.gradient_fade {
                Some(program) => Some(GradientFadeShader(NiriTexProgram::Gles(program))),
                None => None,
            },
            None => None,
        }
    }

    /// The uniforms of the fade program in a frame.
    fn uniforms(&self, state: &FrameBlendState, tonemapping: bool) -> (uniforms: Vec<Uniform>)
        ensures
            uniforms@ == fade_uniforms(self.cutoff, *state, tonemapping),
    {
        let mut uniforms: Vec<Uniform> = vec![
            Uniform {
                name: "cutoff",
                value: UniformValue::Float2(self.cutoff.0, self.cutoff.1),
            },
        ];
        let mut blend: Vec<Uniform> = state.uniforms(tonemapping);
        uniforms.append(&mut blend);
        uniforms
    }

    /// Overrides the texture program with the fade program. Returns the override in place before.
    fn override_gles(&self, frame: &mut GlesBlend<PG>, program: PG, tonemapping: bool) -> (saved:
        TexProgramOverride<PG>)
        ensures
            saved == old(frame).tex_program_override,
            faded(*old(frame), *final(frame), program, self.cutoff, tonemapping),
    {
        let uniforms: Vec<Uniform> = self.uniforms(&frame.state, tonemapping);
        let saved: TexProgramOverride<PG> = frame.tex_program_override.take();
        frame.tex_program_override = Some((program, uniforms));
        saved
    }

    /// Draws the inner element in a frame of the raw GLES renderer with `draw_inner`, with the fade
    /// program in place of the default texture program. A program for another renderer draws
    /// nothing.
    pub fn draw<
        E,
        F: FnOnce(&UniversalTextureRenderElement<G, V, M, A>, &GlesBlend<PG>) -> Result<(), E>,
    >(&self, frame: &mut GlesBlend<PG>, tonemapping: bool, draw_inner: F) -> (result: Result<
        (),
        E,
    >)
        requires
            forall|during: &GlesBlend<PG>| #[trigger]
                call_requires(draw_inner, (&self.inner, during)),
        ensures
            *final(frame) == *old(frame),
            match self.program.0 {
                NiriTexProgram::Gles(program) => exists|during: GlesBlend<PG>|
                    {
                        &&& #[trigger] call_ensures(draw_inner, (&self.inner, &during), result)
                        &&& faded(*old(frame), during, program, self.cutoff, tonemapping)
                    },
                NiriTexProgram::Vulkan(_) => result is Ok,
            },
    {
        match self.program.0 {
            NiriTexProgram::Gles(program) => {
                let saved: TexProgramOverride<PG> = self.override_gles(frame, program, tonemapping);
                let result: Result<(), E> = draw_inner(&self.inner, frame);
                frame.tex_program_override = saved;
                result
            },
            NiriTexProgram::Vulkan(_) => Ok(()),
        }
    }

    /// Draws the inner element in a frame of the TTY backend with `draw_inner`, with the fade
    /// program in place of the default texture program. A program for the other renderer is not
    /// used, and the texture is drawn without a fade.
    pub fn draw_tty<
        T,
        F: FnOnce(
            &UniversalTextureRenderElement<G, V, M, A>,
            &TtyFrame<GlesBlend<PG>, VulkanTexFrame<PV>>,
        ) -> T,
    >(
        &self,
        frame: &mut TtyFrame<GlesBlend<PG>, VulkanTexFrame<PV>>,
        tonemapping: bool,
        draw_inner: F,
    ) -> (result: T)
        requires
            forall|during: &TtyFrame<GlesBlend<PG>, VulkanTexFrame<PV>>| #[trigger]
                call_requires(draw_inner, (&self.inner, during)),
        ensures
            *final(frame) == *old(frame),
            exists|during: TtyFrame<GlesBlend<PG>, VulkanTexFrame<PV>>|
                {
                    &&& #[trigger] call_ensures(draw_inner, (&self.inner, &during), result)
                    &&& match (self.program.0, *old(frame)) {
                        (NiriTexProgram::Gles(program), TtyFrame::Gles(before)) => {
                            &&& during matches TtyFrame::Gles(during)
                            &&& faded(before, during, program, self.cutoff, tonemapping)
                        },
                        (NiriTexProgram::Vulkan(program), TtyFrame::Vulkan(before)) => {
                            &&& during matches TtyFrame::Vulkan(during)
                            &&& during.state == before.state
                            &&& override_view(during.tex_program_override) == Some(
                                (
                                    program,
                                    fade_uniforms(
                                        self.cutoff,
                                        match before.state {
                                            Some(state) => state,
                                            None => FrameBlendState::for_blend(None),
                                        },
                                        tonemapping,
                                    ),
                                ),
                            )
                        },
                        _ => during == *old(frame),
                    }
                },
    {
        match (self.program.0, &mut *frame) {
            (NiriTexProgram::Gles(program), TtyFrame::Gles(gles)) => {
                let saved: TexProgramOverride<PG> = self.override_gles(gles, program, tonemapping);
                let result: T = draw_inner(&self.inner, frame);
                if let TtyFrame::Gles(gles) = frame {
                    gles.tex_program_override = saved;
                }
                result
            },
            (NiriTexProgram::Vulkan(program), TtyFrame::Vulkan(vk)) => {
                let state: FrameBlendState = match vk.state {
                    Some(state) => state,
                    None => {
                        let mut state: FrameBlendState = FrameBlendState::default();
                        state.set_values(None);
                        state
                    },
                };
                let uniforms: Vec<Uniform> = self.uniforms(&state, tonemapping);
                let saved: Option<(PV, Vec<Uniform>)> = vk.tex_program_override.take();
                vk.tex_program_override = Some((program, uniforms));
                let result: T = draw_inner(&self.inner, frame);
                if let TtyFrame::Vulkan(vk) = frame {
                    vk.tex_program_override = saved;
                }
                result
            },
            _ => draw_inner(&self.inner, frame),
        }
    }
}

/// The fade of a clipped texture is 18 logical pixels long, or as long as what is shown if that is
/// less. `start` and `end` are relative to the whole width, so times that width their distance is
/// the length of the fade. A texture that is shown whole has no fade: it would start and end at 1.
pub proof fn law_fade_is_eighteen_pixels_long(shown: LogicalCoord, whole: LogicalCoord)
    requires
        shown.num >= 0,
        shown.den > 0,
        whole.num > 0,
        whole.den > 0,
    ensures
        ({
            let (start, end) = fade_cutoff(shown, whole);
            if shown.num * whole.den < whole.num * shown.den {
                &&& start.den == end.den && end.den > 0
                &&& end.num * whole.num * shown.den == shown.num * whole.den * end.den
                &&& shown.num <= 18 * shown.den ==> start.num == 0
                &&& shown.num >= 18 * shown.den ==> (end.num - start.num) * whole.num == 18
                    * whole.den * end.den
            } else {
                start.num == 1 && start.den == 1 && end.num == 1 && end.den == 1
            }
        }),
{
    lemma_products_fit(shown.num, whole.den);
    lemma_products_fit(whole.num, shown.den);
    let (start, end) = fade_cutoff(shown, whole);
    let (s, sd, w, wd) = (shown.num as int, shown.den as int, whole.num as int, whole.den as int);
    assert(sd * w == w * sd) by (nonlinear_arith);
    assert(0 < w * sd) by (nonlinear_arith)
        requires
            0 < w,
            0 < sd,
    ;
    if s * wd < w * sd {
        assert(end.num == s * wd && end.den == w * sd);
        assert((s * wd) * w * sd == s * wd * (w * sd)) by (nonlinear_arith);
        if s >= 18 * sd {
            let x = s - 18 * sd;
            assert(-0x1_0000_0000 * 0x1_0000_0000_0000_0000 <= x * wd <= 0x1_0000_0000
                * 0x8000_0000_0000_0000) by (nonlinear_arith)
                requires
                    -0x1_0000_0000_0000_0000 <= x <= 0x8000_0000_0000_0000,
                    0 <= wd <= 0x1_0000_0000,
            ;
            assert(0 * wd == 0);
            assert(start.num == x * wd);
            assert((s * wd - x * wd) * w == 18 * wd * (w * sd)) by (nonlinear_arith)
                requires
                    x == s - 18 * sd,
            ;
        }
    }
}

/// A faded texture is drawn with the fade program, which is told where the fade is, and encodes the
/// texture into the blend space as plain sRGB content. Nothing else of the frame changes.
pub proof fn law_faded_draws_are_blended<P>(
    before: GlesBlend<P>,
    during: GlesBlend<P>,
    program: P,
    cutoff: (Ratio, Ratio),
    tonemapping: bool,
)
    requires
        faded(before, during, program, cutoff, tonemapping),
    ensures
        during.state == before.state,
        during.solid_color_transform == before.solid_color_transform,
        during.tex_program_override matches Some((own, u)) && {
            &&& own == program
            &&& u@.len() == 14
            &&& u@[0].name == "cutoff"
            &&& u@[0].value == UniformValue::Float2(cutoff.0, cutoff.1)
            &&& u@.skip(1) == params_uniforms(
                params_for_content(
                    before.state,
                    ContentColor::Sdr { gamut: ContentGamut::Srgb },
                    tonemapping,
                    None,
                ),
            )
        },
{
}

/// A fade element fades where its texture is clipped: by how much of the width of the buffer it
/// shows.
pub proof fn law_elements_fade_where_they_are_clipped<G, V, M, A, PG: Copy, PV: Copy>(
    texture: TextureRenderElement<TtyOffscreen<G, V, M>, A>,
    program: GradientFadeShader<PG, PV>,
    element: GradientFadeTextureRenderElement<G, V, M, A, PG, PV>,
)
    requires
        call_ensures(
            GradientFadeTextureRenderElement::<G, V, M, A, PG, PV>::new,
            (texture, program),
            element,
        ),
    ensures
        element.inner.0 == texture,
        element.program == program,
        element.cutoff == fade_cutoff(
            match (texture.src, texture.size) {
                (Some(src), _) => src.size.w,
                (None, Some(size)) => size.w,
                (None, None) => texture.buffer.logical_size_spec().w,
            },
            texture.buffer.logical_size_spec().w,
        ),
{
}

/// A faded draw leaves the frame as it was. While the texture is drawn, the frame has the same blend
/// state and the fade program.
pub proof fn law_faded_draws_leave_the_frame_as_it_was<
    G,
    V,
    M,
    A,
    PG: Copy,
    PV: Copy,
    E,
    F: FnOnce(&UniversalTextureRenderElement<G, V, M, A>, &GlesBlend<PG>) -> Result<(), E>,
>(
    element: GradientFadeTextureRenderElement<G, V, M, A, PG, PV>,
    frame: &mut GlesBlend<PG>,
    tonemapping: bool,
    draw_inner: F,
    result: Result<(), E>,
)
    requires
        call_ensures(
            GradientFadeTextureRenderElement::<G, V, M, A, PG, PV>::draw::<E, F>,
            (&element, frame, tonemapping, draw_inner),
            result,
        ),
    ensures
        *final(frame) == *old(frame),
        element.program.0 is Vulkan ==> result is Ok,
        element.program.0 matches NiriTexProgram::Gles(program) ==> exists|during: GlesBlend<PG>|
            {
                &&& #[trigger] call_ensures(draw_inner, (&element.inner, &during), result)
                &&& during.state == old(frame).state
                &&& during.solid_color_transform == old(frame).solid_color_transform
                &&& during.tex_program_override matches Some((used, _)) && used == program
            },
{
}

} // verus!
