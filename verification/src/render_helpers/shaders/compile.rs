//! What each shader program is compiled from.

use vstd::prelude::*;

use crate::render_helpers::blend::frame::{
    blend_uniform_names, params_uniforms, ColorBlendParams, FrameBlendState,
};
use crate::render_helpers::shaders::uniforms::{
    border_uniforms, border_uniforms_spec, clip_uniforms, clip_uniforms_spec,
    gradient_fade_uniforms, gradient_fade_uniforms_spec, injected_uniforms, injected_uniforms_spec,
    law_programs_accept_blend_uniforms, postprocess_uniforms, postprocess_uniforms_spec,
    resize_uniforms, resize_uniforms_spec, shadow_uniforms, shadow_uniforms_spec,
    window_animation_uniforms, window_animation_uniforms_spec, with_blend_uniform_names,
};
use crate::render_helpers::uniform::UniformName;

verus! {

/// The fragment shader sources, one per `.frag` file.
#[derive(Debug, Clone, Copy)]
pub struct ShaderSources {
    pub texture_hdr: &'static str,
    pub texture_hdr_to_sdr: &'static str,
    pub hdr: &'static str,
    pub border: &'static str,
    pub shadow: &'static str,
    pub rounding_alpha: &'static str,
    pub clipped_surface: &'static str,
    pub postprocess: &'static str,
    pub gradient_fade: &'static str,
    pub resize: &'static str,
    pub resize_prelude: &'static str,
    pub resize_epilogue: &'static str,
    pub close_prelude: &'static str,
    pub close_epilogue: &'static str,
    pub open_prelude: &'static str,
    pub open_epilogue: &'static str,
}

/// What a program is compiled from.
#[derive(Debug)]
pub struct ProgramRequest {
    pub source: String,
    pub uniforms: Vec<UniformName>,
    /// The names of the texture uniforms.
    pub textures: Vec<&'static str>,
}

/// The contents of a [`ProgramRequest`].
#[verifier::ext_equal]
pub struct ProgramRequestView {
    pub source: Seq<char>,
    pub uniforms: Seq<UniformName>,
    pub textures: Seq<&'static str>,
}

impl View for ProgramRequest {
    type V = ProgramRequestView;

    open spec fn view(&self) -> ProgramRequestView {
        ProgramRequestView {
            source: self.source@,
            uniforms: self.uniforms@,
            textures: self.textures@,
        }
    }
}

/// The programs of a GLES renderer, besides the blur program.
#[derive(Debug)]
pub struct GlesPlan {
    /// A custom texture shader.
    pub texture_hdr: ProgramRequest,
    /// A custom texture shader.
    pub texture_hdr_to_sdr: ProgramRequest,
    pub border: ProgramRequest,
    pub shadow: ProgramRequest,
    /// A custom texture shader.
    pub clipped_surface: ProgramRequest,
    /// A custom texture shader.
    pub postprocess_and_clip: ProgramRequest,
    pub resize: ProgramRequest,
    /// A custom texture shader.
    pub gradient_fade: ProgramRequest,
}

/// The programs of a Vulkan renderer.
#[derive(Debug)]
pub struct VulkanPlan {
    pub border: ProgramRequest,
    pub shadow: ProgramRequest,
    pub clipped_surface: ProgramRequest,
    pub resize: ProgramRequest,
}

fn concat(first: &str, second: &str) -> (text: String)
    ensures
        text@ == first@ + second@,
{
    let mut text: String = first.to_owned();
    text.append(second);
    text
}

pub open spec fn border_request_spec(sources: ShaderSources) -> ProgramRequestView {
    ProgramRequestView {
        source: sources.border@ + sources.rounding_alpha@,
        uniforms: border_uniforms_spec(),
        textures: Seq::empty(),
    }
}

pub open spec fn texture_hdr_request_spec(sources: ShaderSources) -> ProgramRequestView {
    ProgramRequestView {
        source: sources.texture_hdr@ + sources.hdr@,
        uniforms: blend_uniform_names(),
        textures: Seq::empty(),
    }
}

pub open spec fn texture_hdr_to_sdr_request_spec(sources: ShaderSources) -> ProgramRequestView {
    ProgramRequestView {
        source: sources.texture_hdr_to_sdr@,
        uniforms: blend_uniform_names(),
        textures: Seq::empty(),
    }
}

pub open spec fn shadow_request_spec(sources: ShaderSources) -> ProgramRequestView {
    ProgramRequestView {
        source: sources.shadow@ + sources.rounding_alpha@,
        uniforms: shadow_uniforms_spec(),
        textures: Seq::empty(),
    }
}

pub open spec fn clipped_surface_source_spec(sources: ShaderSources) -> Seq<char> {
    sources.clipped_surface@ + sources.rounding_alpha@ + sources.hdr@
        + "\nvec4 postprocess(vec4 color) { return color; }"@
}

pub open spec fn clipped_surface_request_spec(sources: ShaderSources) -> ProgramRequestView {
    ProgramRequestView {
        source: clipped_surface_source_spec(sources),
        uniforms: clip_uniforms_spec() + blend_uniform_names(),
        textures: Seq::empty(),
    }
}

/// On the Vulkan renderer, the program also declares the interface of the GLES texture shaders, and
/// its texture.
pub open spec fn vulkan_clipped_surface_request_spec(sources: ShaderSources) -> ProgramRequestView {
    ProgramRequestView {
        source: clipped_surface_source_spec(sources),
        uniforms: clip_uniforms_spec() + injected_uniforms_spec() + blend_uniform_names(),
        textures: seq!["tex"],
    }
}

pub open spec fn postprocess_and_clip_request_spec(sources: ShaderSources) -> ProgramRequestView {
    ProgramRequestView {
        source: sources.clipped_surface@ + sources.rounding_alpha@ + sources.postprocess@
            + sources.hdr@,
        uniforms: clip_uniforms_spec() + postprocess_uniforms_spec() + blend_uniform_names(),
        textures: Seq::empty(),
    }
}

pub open spec fn gradient_fade_request_spec(sources: ShaderSources) -> ProgramRequestView {
    ProgramRequestView {
        source: sources.gradient_fade@ + sources.hdr@,
        uniforms: gradient_fade_uniforms_spec() + blend_uniform_names(),
        textures: Seq::empty(),
    }
}

pub open spec fn resize_request_spec(sources: ShaderSources, src: Seq<char>) -> ProgramRequestView {
    ProgramRequestView {
        source: sources.resize_prelude@ + src + sources.resize_epilogue@ + sources.rounding_alpha@,
        uniforms: resize_uniforms_spec(),
        textures: seq!["niri_tex_prev", "niri_tex_next"],
    }
}

pub open spec fn close_request_spec(sources: ShaderSources, src: Seq<char>) -> ProgramRequestView {
    ProgramRequestView {
        source: sources.close_prelude@ + src + sources.close_epilogue@,
        uniforms: window_animation_uniforms_spec(),
        textures: seq!["niri_tex"],
    }
}

pub open spec fn open_request_spec(sources: ShaderSources, src: Seq<char>) -> ProgramRequestView {
    ProgramRequestView {
        source: sources.open_prelude@ + src + sources.open_epilogue@,
        uniforms: window_animation_uniforms_spec(),
        textures: seq!["niri_tex"],
    }
}

/// Puts a resize shader between its prelude and epilogue.
pub fn assemble_resize_program(sources: &ShaderSources, src: &str) -> (program: String)
    ensures
        program@ == sources.resize_prelude@ + src@ + sources.resize_epilogue@
            + sources.rounding_alpha@,
{
    let mut program: String = sources.resize_prelude.to_owned();
    program.append(src);
    program.append(sources.resize_epilogue);
    program.append(sources.rounding_alpha);
    program
}

/// What a resize program with the given source is compiled from.
pub fn resize_request(sources: &ShaderSources, src: &str) -> (request: ProgramRequest)
    ensures
        request@ == resize_request_spec(*sources, src@),
{
    ProgramRequest {
        source: assemble_resize_program(sources, src),
        uniforms: resize_uniforms(),
        textures: vec!["niri_tex_prev", "niri_tex_next"],
    }
}

/// What a window closing program with the given source is compiled from.
pub fn close_request(sources: &ShaderSources, src: &str) -> (request: ProgramRequest)
    ensures
        request@ == close_request_spec(*sources, src@),
{
    let mut source: String = sources.close_prelude.to_owned();
    source.append(src);
    source.append(sources.close_epilogue);
    ProgramRequest { source, uniforms: window_animation_uniforms(), textures: vec!["niri_tex"] }
}

/// What a window opening program with the given source is compiled from.
pub fn open_request(sources: &ShaderSources, src: &str) -> (request: ProgramRequest)
    ensures
        request@ == open_request_spec(*sources, src@),
{
    let mut source: String = sources.open_prelude.to_owned();
    source.append(src);
    source.append(sources.open_epilogue);
    ProgramRequest { source, uniforms: window_animation_uniforms(), textures: vec!["niri_tex"] }
}

fn border_request(sources: &ShaderSources) -> (request: ProgramRequest)
    ensures
        request@ == border_request_spec(*sources),
{
    ProgramRequest {
        source: concat(sources.border, sources.rounding_alpha),
        uniforms: border_uniforms(),
        textures: Vec::new(),
    }
}

fn shadow_request(sources: &ShaderSources) -> (request: ProgramRequest)
    ensures
        request@ == shadow_request_spec(*sources),
{
    ProgramRequest {
        source: concat(sources.shadow, sources.rounding_alpha),
        uniforms: shadow_uniforms(),
        textures: Vec::new(),
    }
}

fn clipped_surface_source(sources: &ShaderSources) -> (source: String)
    ensures
        source@ == clipped_surface_source_spec(*sources),
{
    let mut source: String = concat(sources.clipped_surface, sources.rounding_alpha);
    source.append(sources.hdr);
    source.append("\nvec4 postprocess(vec4 color) { return color; }");
    source
}

/// What the programs of a GLES renderer are compiled from.
pub fn gles_plan(sources: &ShaderSources) -> (plan: GlesPlan)
    ensures
        plan.texture_hdr@ == texture_hdr_request_spec(*sources),
        plan.texture_hdr_to_sdr@ == texture_hdr_to_sdr_request_spec(*sources),
        plan.border@ == border_request_spec(*sources),
        plan.shadow@ == shadow_request_spec(*sources),
        plan.clipped_surface@ == clipped_surface_request_spec(*sources),
        plan.postprocess_and_clip@ == postprocess_and_clip_request_spec(*sources),
        plan.resize@ == resize_request_spec(*sources, sources.resize@),
        plan.gradient_fade@ == gradient_fade_request_spec(*sources),
{
    let mut postprocess_source: String = concat(sources.clipped_surface, sources.rounding_alpha);
    postprocess_source.append(sources.postprocess);
    postprocess_source.append(sources.hdr);
    let mut postprocess_own: Vec<UniformName> = clip_uniforms();
    let mut postprocess_more: Vec<UniformName> = postprocess_uniforms();
    postprocess_own.append(&mut postprocess_more);

    GlesPlan {
        texture_hdr: ProgramRequest {
            source: concat(sources.texture_hdr, sources.hdr),
            uniforms: FrameBlendState::uniform_names(),
            textures: Vec::new(),
        },
        texture_hdr_to_sdr: ProgramRequest {
            source: sources.texture_hdr_to_sdr.to_owned(),
            uniforms: FrameBlendState::uniform_names(),
            textures: Vec::new(),
        },
        border: border_request(sources),
        shadow: shadow_request(sources),
        clipped_surface: ProgramRequest {
            source: clipped_surface_source(sources),
            uniforms: with_blend_uniform_names(&clip_uniforms()),
            textures: Vec::new(),
        },
        postprocess_and_clip: ProgramRequest {
            source: postprocess_source,
            uniforms: with_blend_uniform_names(&postprocess_own),
            textures: Vec::new(),
        },
        resize: resize_request(sources, sources.resize),
        gradient_fade: ProgramRequest {
            source: concat(sources.gradient_fade, sources.hdr),
            uniforms: with_blend_uniform_names(&gradient_fade_uniforms()),
            textures: Vec::new(),
        },
    }
}

/// What the programs of a Vulkan renderer are compiled from, in the GLES dialect (see
/// [`super::vulkan::vulkanize_fragment`]).
pub fn vulkan_plan(sources: &ShaderSources) -> (plan: VulkanPlan)
    ensures
        plan.border@ == border_request_spec(*sources),
        plan.shadow@ == shadow_request_spec(*sources),
        plan.clipped_surface@ == vulkan_clipped_surface_request_spec(*sources),
        plan.resize@ == resize_request_spec(*sources, sources.resize@),
{
    let mut clip_own: Vec<UniformName> = clip_uniforms();
    let mut clip_more: Vec<UniformName> = injected_uniforms();
    clip_own.append(&mut clip_more);

    VulkanPlan {
        border: border_request(sources),
        shadow: shadow_request(sources),
        clipped_surface: ProgramRequest {
            source: clipped_surface_source(sources),
            uniforms: with_blend_uniform_names(&clip_own),
            textures: vec!["tex"],
        },
        resize: resize_request(sources, sources.resize),
    }
}

/// Why a custom program did not compile.
#[derive(Debug, PartialEq, Eq)]
pub enum CompileError<E> {
    /// The renderer is neither GLES nor Vulkan.
    UnsupportedRenderer,
    /// The renderer refused the program.
    Failed(E),
}

/// `compile` was given the request, and returned `result`.
pub open spec fn asked_for<P, E, F: FnOnce(&ProgramRequest) -> Result<P, E>>(
    compile: F,
    request: ProgramRequestView,
    result: Result<P, E>,
) -> bool {
    exists|made: ProgramRequest|
        {
            &&& made@ == request
            &&& #[trigger] call_ensures(compile, (&made,), result)
        }
}

/// The program that `compile` makes of the request; without a program, it failed.
pub open spec fn compiled<P, E, F: FnOnce(&ProgramRequest) -> Result<P, E>>(
    compile: F,
    request: ProgramRequestView,
    program: Option<P>,
) -> bool {
    exists|result: Result<P, E>|
        {
            &&& #[trigger] asked_for(compile, request, result)
            &&& program == match result {
                Ok(program) => Some(program),
                Err(_) => None,
            }
        }
}

/// Compiles a program, which is missing if that fails.
pub fn try_compile<P, E, F: Fn(&ProgramRequest) -> Result<P, E>>(
    compile: &F,
    request: &ProgramRequest,
) -> (program: Option<P>)
    requires
        call_requires(*compile, (request,)),
    ensures
        compiled(*compile, request@, program),
{
    let result: Result<P, E> = compile(request);
    assert(asked_for(*compile, request@, result));
    match result {
        Ok(program) => Some(program),
        Err(_) => None,
    }
}

/// The outcome of a compilation that was tried.
pub open spec fn or_failed<P, E>(result: Result<P, E>) -> Result<P, CompileError<E>> {
    match result {
        Ok(program) => Ok(program),
        Err(err) => Err(CompileError::Failed(err)),
    }
}

/// What compiling a custom program comes to on a renderer that is GLES, Vulkan or neither. GLES
/// takes precedence.
pub open spec fn custom_compiled<
    P,
    E,
    FG: FnOnce(&ProgramRequest) -> Result<P, E>,
    FV: FnOnce(&ProgramRequest) -> Result<P, E>,
>(
    request: ProgramRequestView,
    has_gles: bool,
    has_vulkan: bool,
    compile_gles: FG,
    compile_vulkan: FV,
    program: Result<P, CompileError<E>>,
) -> bool {
    if has_gles {
        exists|result: Result<P, E>|
            #[trigger] asked_for(compile_gles, request, result) && program == or_failed(result)
    } else if has_vulkan {
        exists|result: Result<P, E>|
            #[trigger] asked_for(compile_vulkan, request, result) && program == or_failed(result)
    } else {
        program == Err::<P, CompileError<E>>(CompileError::UnsupportedRenderer)
    }
}

/// What compiling a custom program comes to if there is a source for one.
pub open spec fn source_compiled<
    P,
    E,
    FG: FnOnce(&ProgramRequest) -> Result<P, E>,
    FV: FnOnce(&ProgramRequest) -> Result<P, E>,
>(
    request: Option<ProgramRequestView>,
    has_gles: bool,
    has_vulkan: bool,
    compile_gles: FG,
    compile_vulkan: FV,
    program: Option<Result<P, CompileError<E>>>,
) -> bool {
    match (request, program) {
        (None, None) => true,
        (Some(request), Some(program)) => custom_compiled(
            request,
            has_gles,
            has_vulkan,
            compile_gles,
            compile_vulkan,
            program,
        ),
        _ => false,
    }
}

fn compile_custom<
    P,
    E,
    FG: FnOnce(&ProgramRequest) -> Result<P, E>,
    FV: FnOnce(&ProgramRequest) -> Result<P, E>,
>(
    request: &ProgramRequest,
    has_gles: bool,
    has_vulkan: bool,
    compile_gles: FG,
    compile_vulkan: FV,
) -> (program: Result<P, CompileError<E>>)
    requires
        has_gles ==> call_requires(compile_gles, (request,)),
        has_vulkan ==> call_requires(compile_vulkan, (request,)),
    ensures
        custom_compiled(
            request@,
            has_gles,
            has_vulkan,
            compile_gles,
            compile_vulkan,
            program,
        ),
{
    let result: Result<P, E> = if has_gles {
        compile_gles(request)
    } else if has_vulkan {
        compile_vulkan(request)
    } else {
        return Err(CompileError::UnsupportedRenderer);
    };
    assert(has_gles ==> asked_for(compile_gles, request@, result));
    assert(!has_gles ==> asked_for(compile_vulkan, request@, result));
    match result {
        Ok(program) => Ok(program),
        Err(err) => Err(CompileError::Failed(err)),
    }
}

/// Compiles a resize program with the given source.
pub fn compile_resize_program<
    P,
    E,
    FG: FnOnce(&ProgramRequest) -> Result<P, E>,
    FV: FnOnce(&ProgramRequest) -> Result<P, E>,
>(
    sources: &ShaderSources,
    src: &str,
    has_gles: bool,
    has_vulkan: bool,
    compile_gles: FG,
    compile_vulkan: FV,
) -> (program: Result<P, CompileError<E>>)
    requires
        forall|request: &ProgramRequest| #[trigger] call_requires(compile_gles, (request,)),
        forall|request: &ProgramRequest| #[trigger] call_requires(compile_vulkan, (request,)),
    ensures
        custom_compiled(
            resize_request_spec(*sources, src@),
            has_gles,
            has_vulkan,
            compile_gles,
            compile_vulkan,
            program,
        ),
{
    compile_custom(
        &resize_request(sources, src),
        has_gles,
        has_vulkan,
        compile_gles,
        compile_vulkan,
    )
}

/// Compiles a window closing program with the given source.
pub fn compile_close_program<
    P,
    E,
    FG: FnOnce(&ProgramRequest) -> Result<P, E>,
    FV: FnOnce(&ProgramRequest) -> Result<P, E>,
>(
    sources: &ShaderSources,
    src: &str,
    has_gles: bool,
    has_vulkan: bool,
    compile_gles: FG,
    compile_vulkan: FV,
) -> (program: Result<P, CompileError<E>>)
    requires
        forall|request: &ProgramRequest| #[trigger] call_requires(compile_gles, (request,)),
        forall|request: &ProgramRequest| #[trigger] call_requires(compile_vulkan, (request,)),
    ensures
        custom_compiled(
            close_request_spec(*sources, src@),
            has_gles,
            has_vulkan,
            compile_gles,
            compile_vulkan,
            program,
        ),
{
    compile_custom(
        &close_request(sources, src),
        has_gles,
        has_vulkan,
        compile_gles,
        compile_vulkan,
    )
}

/// Compiles a window opening program with the given source.
pub fn compile_open_program<
    P,
    E,
    FG: FnOnce(&ProgramRequest) -> Result<P, E>,
    FV: FnOnce(&ProgramRequest) -> Result<P, E>,
>(
    sources: &ShaderSources,
    src: &str,
    has_gles: bool,
    has_vulkan: bool,
    compile_gles: FG,
    compile_vulkan: FV,
) -> (program: Result<P, CompileError<E>>)
    requires
        forall|request: &ProgramRequest| #[trigger] call_requires(compile_gles, (request,)),
        forall|request: &ProgramRequest| #[trigger] call_requires(compile_vulkan, (request,)),
    ensures
        custom_compiled(
            open_request_spec(*sources, src@),
            has_gles,
            has_vulkan,
            compile_gles,
            compile_vulkan,
            program,
        ),
{
    compile_custom(
        &open_request(sources, src),
        has_gles,
        has_vulkan,
        compile_gles,
        compile_vulkan,
    )
}

/// Whether every blend uniform of every draw is declared in the program.
pub open spec fn accepts_blend_uniforms(request: ProgramRequestView) -> bool {
    forall|params: ColorBlendParams, i: int|
        0 <= i < params_uniforms(params).len() ==> (#[trigger] params_uniforms(
            params,
        )[i]).declared_in(request.uniforms)
}

proof fn lemma_accepts(request: ProgramRequestView, own: Seq<UniformName>)
    requires
        request.uniforms == own + blend_uniform_names(),
    ensures
        accepts_blend_uniforms(request),
{
    assert forall|params: ColorBlendParams, i: int|
        0 <= i < params_uniforms(params).len() implies (#[trigger] params_uniforms(
        params,
    )[i]).declared_in(request.uniforms) by {
        law_programs_accept_blend_uniforms(own, params, i);
    }
}

/// Every texture program accepts all blend uniforms, on either renderer, so that no draw fails for
/// an undeclared one.
pub proof fn law_texture_programs_accept_blend_uniforms(sources: ShaderSources)
    ensures
        accepts_blend_uniforms(texture_hdr_request_spec(sources)),
        accepts_blend_uniforms(texture_hdr_to_sdr_request_spec(sources)),
        accepts_blend_uniforms(clipped_surface_request_spec(sources)),
        accepts_blend_uniforms(vulkan_clipped_surface_request_spec(sources)),
        accepts_blend_uniforms(postprocess_and_clip_request_spec(sources)),
        accepts_blend_uniforms(gradient_fade_request_spec(sources)),
{
    assert(blend_uniform_names() == Seq::<UniformName>::empty() + blend_uniform_names());
    lemma_accepts(texture_hdr_request_spec(sources), Seq::empty());
    lemma_accepts(texture_hdr_to_sdr_request_spec(sources), Seq::empty());
    lemma_accepts(clipped_surface_request_spec(sources), clip_uniforms_spec());
    lemma_accepts(
        vulkan_clipped_surface_request_spec(sources),
        clip_uniforms_spec() + injected_uniforms_spec(),
    );
    lemma_accepts(
        postprocess_and_clip_request_spec(sources),
        clip_uniforms_spec() + postprocess_uniforms_spec(),
    );
    lemma_accepts(gradient_fade_request_spec(sources), gradient_fade_uniforms_spec());
}

/// The text stands in the source at an index.
pub open spec fn stands_at(source: Seq<char>, at: int, text: Seq<char>) -> bool {
    0 <= at && at + text.len() <= source.len() && source.subrange(at, at + text.len()) =~= text
}

/// A custom shader stands in its program as it is, behind the prelude and before the epilogue. A
/// resize program also ends with the function for rounded corners.
pub proof fn law_custom_shaders_stand_between_prelude_and_epilogue(
    sources: ShaderSources,
    src: Seq<char>,
)
    ensures
        ({
            let source = resize_request_spec(sources, src).source;
            let (start, end) = (sources.resize_prelude@.len(), sources.resize_prelude@.len() + src.len());
            let corners = end + sources.resize_epilogue@.len();
            &&& stands_at(source, 0, sources.resize_prelude@)
            &&& stands_at(source, start as int, src)
            &&& stands_at(source, end as int, sources.resize_epilogue@)
            &&& stands_at(source, corners as int, sources.rounding_alpha@)
            &&& source.len() == corners + sources.rounding_alpha@.len()
        }),
        ({
            let source = close_request_spec(sources, src).source;
            let end = sources.close_prelude@.len() + src.len();
            &&& stands_at(source, 0, sources.close_prelude@)
            &&& stands_at(source, sources.close_prelude@.len() as int, src)
            &&& stands_at(source, end as int, sources.close_epilogue@)
            &&& source.len() == end + sources.close_epilogue@.len()
        }),
        ({
            let source = open_request_spec(sources, src).source;
            let end = sources.open_prelude@.len() + src.len();
            &&& stands_at(source, 0, sources.open_prelude@)
            &&& stands_at(source, sources.open_prelude@.len() as int, src)
            &&& stands_at(source, end as int, sources.open_epilogue@)
            &&& source.len() == end + sources.open_epilogue@.len()
        }),
{
}

/// What a program is told does not depend on its source: a custom resize program has the interface
/// of the built-in one, and programs for opening and closing windows have the same interface.
/// Resize programs see the window before and after, the others the window as it is.
pub proof fn law_custom_programs_have_the_builtin_interface(
    sources: ShaderSources,
    src: Seq<char>,
)
    ensures
        ({
            let custom = resize_request_spec(sources, src);
            let builtin = resize_request_spec(sources, sources.resize@);
            &&& custom.uniforms == builtin.uniforms
            &&& custom.textures == builtin.textures
            &&& custom.textures.len() == 2
            &&& custom.textures[0] == "niri_tex_prev" && custom.textures[1] == "niri_tex_next"
        }),
        ({
            let open = open_request_spec(sources, src);
            let close = close_request_spec(sources, src);
            &&& open.uniforms == close.uniforms
            &&& open.textures == close.textures
            &&& open.textures.len() == 1 && open.textures[0] == "niri_tex"
        }),
{
}

/// Both renderers compile the program for clipped surfaces from the same source. The Vulkan renderer
/// declares what the GLES renderer declares, and the opacity and tint that GLES sets by itself.
pub proof fn law_renderers_compile_the_same_clipping(sources: ShaderSources, i: int)
    requires
        0 <= i < clipped_surface_request_spec(sources).uniforms.len(),
    ensures
        ({
            let gles = clipped_surface_request_spec(sources);
            let vulkan = vulkan_clipped_surface_request_spec(sources);
            &&& vulkan.source == gles.source
            &&& vulkan.uniforms.contains(gles.uniforms[i])
            &&& vulkan.uniforms.len() == gles.uniforms.len() + 2
            &&& exists|a: int, t: int| #![trigger vulkan.uniforms[a], vulkan.uniforms[t]]
                0 <= a < vulkan.uniforms.len() && 0 <= t < vulkan.uniforms.len()
                    && vulkan.uniforms[a].name == "alpha" && vulkan.uniforms[t].name == "tint"
        }),
{
    let gles = clipped_surface_request_spec(sources).uniforms;
    let vulkan = vulkan_clipped_surface_request_spec(sources).uniforms;
    let own = clip_uniforms_spec().len() as int;
    let k = if i < own {
        i
    } else {
        i + 2
    };
    assert(vulkan[k] == gles[i]);
    assert(vulkan[own].name == "alpha" && vulkan[own + 1].name == "tint");
}

/// A custom program is compiled by the renderer that is there, GLES before Vulkan, and its outcome
/// is passed on. Without a renderer nothing is compiled, and that is an error of its own.
pub proof fn law_custom_programs_need_a_renderer<
    P,
    E,
    FG: FnOnce(&ProgramRequest) -> Result<P, E>,
    FV: FnOnce(&ProgramRequest) -> Result<P, E>,
>(
    request: ProgramRequestView,
    has_gles: bool,
    has_vulkan: bool,
    compile_gles: FG,
    compile_vulkan: FV,
    program: Result<P, CompileError<E>>,
)
    requires
        custom_compiled(request, has_gles, has_vulkan, compile_gles, compile_vulkan, program),
    ensures
        program matches Err(CompileError::UnsupportedRenderer) <==> !has_gles && !has_vulkan,
        has_gles && program is Ok ==> asked_for(
            compile_gles,
            request,
            Ok::<P, E>(program->Ok_0),
        ),
        !has_gles && program is Ok ==> has_vulkan && asked_for(
            compile_vulkan,
            request,
            Ok::<P, E>(program->Ok_0),
        ),
        has_gles && (program matches Err(CompileError::Failed(_))) ==> asked_for(
            compile_gles,
            request,
            Err::<P, E>(program->Err_0->Failed_0),
        ),
        !has_gles && (program matches Err(CompileError::Failed(_))) ==> asked_for(
            compile_vulkan,
            request,
            Err::<P, E>(program->Err_0->Failed_0),
        ),
{
}

/// A program is there exactly if its compilation from the request succeeds.
pub proof fn law_compiled_programs_are_there<P, E, F: FnOnce(&ProgramRequest) -> Result<P, E>>(
    compile: F,
    request: ProgramRequestView,
    program: Option<P>,
)
    requires
        compiled(compile, request, program),
    ensures
        program matches Some(program) ==> asked_for(compile, request, Ok::<P, E>(program)),
        program is None ==> exists|err: E| #[trigger]
            asked_for(compile, request, Err::<P, E>(err)),
{
    let result = choose|result: Result<P, E>|
        {
            &&& #[trigger] asked_for(compile, request, result)
            &&& program == match result {
                Ok(program) => Some(program),
                Err(_) => None,
            }
        };
    if let Err(err) = result {
        assert(asked_for(compile, request, Err::<P, E>(err)));
    }
}

/// Each program begins with its own shader. Programs that draw textures in the blend space hold the
/// blend stage behind it, and programs with rounded corners the function for those. A clipped surface
/// is postprocessed by the postprocessing shader, or by a function that changes no color.
pub proof fn law_programs_hold_the_functions_they_call(sources: ShaderSources)
    ensures
        ({
            let (texture, fade) = (sources.texture_hdr@, sources.gradient_fade@);
            let hdr = texture_hdr_request_spec(sources).source;
            let gradient = gradient_fade_request_spec(sources).source;
            &&& stands_at(hdr, 0, texture) && stands_at(hdr, texture.len() as int, sources.hdr@)
            &&& stands_at(gradient, 0, fade) && stands_at(
                gradient,
                fade.len() as int,
                sources.hdr@,
            )
            &&& texture_hdr_to_sdr_request_spec(sources).source == sources.texture_hdr_to_sdr@
        }),
        ({
            let border = border_request_spec(sources).source;
            let shadow = shadow_request_spec(sources).source;
            &&& stands_at(border, 0, sources.border@) && stands_at(
                border,
                sources.border@.len() as int,
                sources.rounding_alpha@,
            )
            &&& stands_at(shadow, 0, sources.shadow@) && stands_at(
                shadow,
                sources.shadow@.len() as int,
                sources.rounding_alpha@,
            )
        }),
        ({
            let clipped = clipped_surface_request_spec(sources).source;
            let postprocess = postprocess_and_clip_request_spec(sources).source;
            let corners = sources.clipped_surface@.len() as int;
            let next = corners + sources.rounding_alpha@.len();
            &&& stands_at(clipped, 0, sources.clipped_surface@)
            &&& stands_at(clipped, corners, sources.rounding_alpha@)
            &&& stands_at(clipped, next, sources.hdr@)
            &&& stands_at(
                clipped,
                next + sources.hdr@.len(),
                "\nvec4 postprocess(vec4 color) { return color; }"@,
            )
            &&& stands_at(postprocess, 0, sources.clipped_surface@)
            &&& stands_at(postprocess, corners, sources.rounding_alpha@)
            &&& stands_at(postprocess, next, sources.postprocess@)
            &&& stands_at(postprocess, next + sources.postprocess@.len(), sources.hdr@)
        }),
{
}

} // verus!
