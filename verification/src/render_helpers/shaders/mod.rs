//! Shader programs: what they are compiled from, and which one a draw uses.

pub mod compile;
pub mod declarations;
pub mod stripping;
pub mod uniforms;
pub mod vulkan;

use vstd::prelude::*;

use crate::backend::tty_renderer::TtyRenderer;
use crate::render_helpers::colorimetry::Mat3;
use crate::render_helpers::shaders::compile::{
    border_request_spec, clipped_surface_request_spec, close_request_spec, compile_close_program,
    compile_open_program, compile_resize_program, compiled, gles_plan, gradient_fade_request_spec,
    open_request_spec, postprocess_and_clip_request_spec, resize_request_spec, shadow_request_spec,
    source_compiled, texture_hdr_request_spec, texture_hdr_to_sdr_request_spec, try_compile,
    vulkan_clipped_surface_request_spec, vulkan_plan, CompileError, GlesPlan, ProgramRequest,
    ProgramRequestView, ShaderSources, VulkanPlan,
};
use crate::render_helpers::uniform::{Uniform, UniformValue};

verus! {

/// A custom texture shader program for either renderer.
#[derive(Debug, Clone, Copy)]
pub enum NiriTexProgram<G, V> {
    Gles(G),
    Vulkan(V),
}

/// The compiled shader programs of a renderer. A program that failed to compile, or that the
/// renderer does not have, is missing.
///
/// `S` is a handle to a shader program of render elements, `G` and `V` are handles to custom
/// texture programs of the GLES and the Vulkan renderer, and `B` is a handle to the blur program.
#[derive(Debug)]
pub struct Shaders<S, G, V, B> {
    pub texture_hdr: Option<G>,
    pub texture_hdr_to_sdr: Option<G>,
    pub border: Option<S>,
    pub shadow: Option<S>,
    pub clipped_surface: Option<NiriTexProgram<G, V>>,
    pub postprocess_and_clip: Option<G>,
    pub resize: Option<S>,
    pub gradient_fade: Option<G>,
    pub blur: Option<B>,
    pub custom_resize: Option<S>,
    pub custom_close: Option<S>,
    pub custom_open: Option<S>,
}

/// The program of the GLES renderer, if it is one.
pub open spec fn gles_program<G, V>(program: Option<NiriTexProgram<G, V>>) -> Option<G> {
    match program {
        Some(NiriTexProgram::Gles(program)) => Some(program),
        _ => None,
    }
}

/// The program of the Vulkan renderer, if it is one.
pub open spec fn vulkan_program<G, V>(program: Option<NiriTexProgram<G, V>>) -> Option<V> {
    match program {
        Some(NiriTexProgram::Vulkan(program)) => Some(program),
        _ => None,
    }
}

/// The kinds of shader programs that render elements draw with.
#[derive(Debug, Clone, Copy, PartialEq, Eq, Structural)]
pub enum ProgramType {
    Border,
    Shadow,
    Resize,
    Close,
    Open,
}

impl<S, G, V, B> Shaders<S, G, V, B> {
    /// Compiles the programs of a GLES renderer: `compile_texture` compiles custom texture shaders,
    /// and `compile_element` the programs of render elements. A program that fails to compile is
    /// missing, which the others do not suffer from.
    pub fn compile<
        E,
        FT: Fn(&ProgramRequest) -> Result<G, E>,
        FS: Fn(&ProgramRequest) -> Result<S, E>,
        FB: FnOnce() -> Result<B, E>,
    >(
        sources: &ShaderSources,
        compile_texture: FT,
        compile_element: FS,
        compile_blur: FB,
    ) -> (shaders: Self)
        requires
            forall|request: &ProgramRequest| #[trigger] call_requires(compile_texture, (request,)),
            forall|request: &ProgramRequest| #[trigger] call_requires(compile_element, (request,)),
            call_requires(compile_blur, ()),
        ensures
            compiled(compile_texture, texture_hdr_request_spec(*sources), shaders.texture_hdr),
            compiled(
                compile_texture,
                texture_hdr_to_sdr_request_spec(*sources),
                shaders.texture_hdr_to_sdr,
            ),
            compiled(compile_element, border_request_spec(*sources), shaders.border),
            compiled(compile_element, shadow_request_spec(*sources), shaders.shadow),
            compiled(
                compile_texture,
                clipped_surface_request_spec(*sources),
                gles_program(shaders.clipped_surface),
            ),
            vulkan_program(shaders.clipped_surface) is None,
            compiled(
                compile_texture,
                postprocess_and_clip_request_spec(*sources),
                shaders.postprocess_and_clip,
            ),
            compiled(
                compile_element,
                resize_request_spec(*sources, sources.resize@),
                shaders.resize,
            ),
            compiled(compile_texture, gradient_fade_request_spec(*sources), shaders.gradient_fade),
            exists|blur: Result<B, E>|
                {
                    &&& #[trigger] call_ensures(compile_blur, (), blur)
                    &&& shaders.blur == match blur {
                        Ok(blur) => Some(blur),
                        Err(_) => None,
                    }
                },
            shaders.custom_resize is None,
            shaders.custom_close is None,
            shaders.custom_open is None,
    {
        let plan: GlesPlan = gles_plan(sources);
        let clipped_surface: Option<G> = try_compile(&compile_texture, &plan.clipped_surface);
        Shaders {
            texture_hdr: try_compile(&compile_texture, &plan.texture_hdr),
            texture_hdr_to_sdr: try_compile(&compile_texture, &plan.texture_hdr_to_sdr),
            border: try_compile(&compile_element, &plan.border),
            shadow: try_compile(&compile_element, &plan.shadow),
            clipped_surface: match clipped_surface {
                Some(program) => Some(NiriTexProgram::Gles(program)),
                None => None,
            },
            postprocess_and_clip: try_compile(&compile_texture, &plan.postprocess_and_clip),
            resize: try_compile(&compile_element, &plan.resize),
            gradient_fade: try_compile(&compile_texture, &plan.gradient_fade),
            blur: match compile_blur() {
                Ok(blur) => Some(blur),
                Err(_) => None,
            },
            custom_resize: None,
            custom_close: None,
            custom_open: None,
        }
    }

    /// Compiles the programs of a Vulkan renderer, which does not have all of them:
    /// `compile_texture` compiles custom texture shaders, and `compile_element` the programs of
    /// render elements, both from the GLES dialect (see [`vulkan::compile_vulkan_program`]).
    pub fn compile_vulkan<
        E,
        FT: Fn(&ProgramRequest) -> Result<V, E>,
        FS: Fn(&ProgramRequest) -> Result<S, E>,
    >(sources: &ShaderSources, compile_texture: FT, compile_element: FS) -> (shaders: Self)
        requires
            forall|request: &ProgramRequest| #[trigger] call_requires(compile_texture, (request,)),
            forall|request: &ProgramRequest| #[trigger] call_requires(compile_element, (request,)),
        ensures
            compiled(compile_element, border_request_spec(*sources), shaders.border),
            compiled(compile_element, shadow_request_spec(*sources), shaders.shadow),
            compiled(
                compile_texture,
                vulkan_clipped_surface_request_spec(*sources),
                vulkan_program(shaders.clipped_surface),
            ),
            gles_program(shaders.clipped_surface) is None,
            compiled(
                compile_element,
                resize_request_spec(*sources, sources.resize@),
                shaders.resize,
            ),
            shaders.texture_hdr is None,
            shaders.texture_hdr_to_sdr is None,
            shaders.postprocess_and_clip is None,
            shaders.gradient_fade is None,
            shaders.blur is None,
            shaders.custom_resize is None,
            shaders.custom_close is None,
            shaders.custom_open is None,
    {
        let plan: VulkanPlan = vulkan_plan(sources);
        let clipped_surface: Option<V> = try_compile(&compile_texture, &plan.clipped_surface);
        Shaders {
            texture_hdr: None,
            texture_hdr_to_sdr: None,
            border: try_compile(&compile_element, &plan.border),
            shadow: try_compile(&compile_element, &plan.shadow),
            clipped_surface: match clipped_surface {
                Some(program) => Some(NiriTexProgram::Vulkan(program)),
                None => None,
            },
            postprocess_and_clip: None,
            resize: try_compile(&compile_element, &plan.resize),
            gradient_fade: None,
            blur: None,
            custom_resize: None,
            custom_close: None,
            custom_open: None,
        }
    }

    /// Replaces the custom resize program, returning the previous one.
    pub fn replace_custom_resize_program(&mut self, program: Option<S>) -> (previous: Option<S>)
        ensures
            *final(self) == (Shaders { custom_resize: program, ..*old(self) }),
            previous == old(self).custom_resize,
    {
        let previous: Option<S> = self.custom_resize.take();
        self.custom_resize = program;
        previous
    }

    /// Replaces the custom close program, returning the previous one.
    pub fn replace_custom_close_program(&mut self, program: Option<S>) -> (previous: Option<S>)
        ensures
            *final(self) == (Shaders { custom_close: program, ..*old(self) }),
            previous == old(self).custom_close,
    {
        let previous: Option<S> = self.custom_close.take();
        self.custom_close = program;
        previous
    }

    /// Replaces the custom open program, returning the previous one.
    pub fn replace_custom_open_program(&mut self, program: Option<S>) -> (previous: Option<S>)
        ensures
            *final(self) == (Shaders { custom_open: program, ..*old(self) }),
            previous == old(self).custom_open,
    {
        let previous: Option<S> = self.custom_open.take();
        self.custom_open = program;
        previous
    }

    /// A custom resize program takes precedence over the built-in one. There are no built-in
    /// programs for opening and closing windows.
    pub open spec fn program_spec(self, program: ProgramType) -> Option<S> {
        match program {
            ProgramType::Border => self.border,
            ProgramType::Shadow => self.shadow,
            ProgramType::Resize => if self.custom_resize is Some {
                self.custom_resize
            } else {
                self.resize
            },
            ProgramType::Close => self.custom_close,
            ProgramType::Open => self.custom_open,
        }
    }
}

impl<S: Copy, G, V, B> Shaders<S, G, V, B> {
    /// The program to draw with.
    pub fn program(&self, program: ProgramType) -> (found: Option<S>)
        ensures
            found == self.program_spec(program),
    {
        match program {
            ProgramType::Border => self.border,
            ProgramType::Shadow => self.shadow,
            ProgramType::Resize => match self.custom_resize {
                Some(custom) => Some(custom),
                None => self.resize,
            },
            ProgramType::Close => self.custom_close,
            ProgramType::Open => self.custom_open,
        }
    }
}

impl<S, G, V, B> Shaders<S, G, V, B> {
    /// The shaders of a renderer. A GLES renderer always has some; a Vulkan renderer may not have
    /// them yet.
    pub fn get(stored: &TtyRenderer<Self, Option<Self>>) -> (shaders: Option<&Self>)
        ensures
            match stored {
                TtyRenderer::Gles(own) => shaders == Some(own),
                TtyRenderer::Vulkan(Some(own)) => shaders == Some(own),
                TtyRenderer::Vulkan(None) => shaders is None,
            },
    {
        match stored {
            TtyRenderer::Gles(own) => Some(own),
            TtyRenderer::Vulkan(Some(own)) => Some(own),
            TtyRenderer::Vulkan(None) => None,
        }
    }
}

/// A matrix uniform, which shaders take in column-major order.
pub fn mat3_uniform(name: &'static str, mat: Mat3) -> (uniform: Uniform)
    ensures
        uniform == Uniform::matrix_spec(name, mat.transposed_spec()),
{
    Uniform::matrix(name, mat.transposed())
}

/// Stores the shaders of a renderer, unless it has some already. Returns whether they were stored.
pub fn init<S, G, V, B>(
    stored: &mut Option<Shaders<S, G, V, B>>,
    shaders: Shaders<S, G, V, B>,
) -> (inserted: bool)
    ensures
        inserted == (*old(stored) is None),
        *final(stored) == if *old(stored) is None {
            Some(shaders)
        } else {
            *old(stored)
        },
{
    if stored.is_some() {
        return false;
    }
    *stored = Some(shaders);
    true
}

/// Stores the shaders of a Vulkan renderer, unless it has some already.
pub fn init_vulkan<S, G, V, B>(
    stored: &mut Option<Shaders<S, G, V, B>>,
    shaders: Shaders<S, G, V, B>,
)
    ensures
        *final(stored) == if *old(stored) is None {
            Some(shaders)
        } else {
            *old(stored)
        },
{
    if stored.is_none() {
        *stored = Some(shaders);
    }
}

/// What setting a custom program comes to.
#[derive(Debug)]
pub enum CustomProgramChange<S, E> {
    /// The program did not compile. What was set before stays.
    Failed(E),
    /// The program is set. The given program, which it replaces, is to be destroyed.
    Replaced { destroy: Option<S> },
}

/// The outcome of setting a custom program.
///
/// `compiled` is the program compiled from the custom source, or `None` to go back to no custom
/// program. The replaced program has to be destroyed only on the GLES renderer.
pub open spec fn custom_program_change<S, E>(
    has_shaders: bool,
    previous: Option<S>,
    compiled: Option<Result<S, E>>,
    is_gles: bool,
) -> CustomProgramChange<S, E> {
    match compiled {
        Some(Err(err)) => CustomProgramChange::Failed(err),
        _ => CustomProgramChange::Replaced {
            destroy: if has_shaders && is_gles {
                previous
            } else {
                None
            },
        },
    }
}

/// The custom program after setting it.
pub open spec fn custom_program_after<S, E>(
    previous: Option<S>,
    compiled: Option<Result<S, E>>,
) -> Option<S> {
    match compiled {
        Some(Err(_)) => previous,
        Some(Ok(program)) => Some(program),
        None => None,
    }
}

/// What the custom resize program with the given source is compiled from, if there is a source.
pub open spec fn custom_resize_request(sources: ShaderSources, src: Option<&str>) -> Option<
    ProgramRequestView,
> {
    match src {
        Some(src) => Some(resize_request_spec(sources, src@)),
        None => None,
    }
}

/// The custom resize program of a renderer is set, if the renderer has shaders.
pub open spec fn custom_resize_set<S, G, V, B, E>(
    before: Option<Shaders<S, G, V, B>>,
    after: Option<Shaders<S, G, V, B>>,
    compiled: Option<Result<S, E>>,
    is_gles: bool,
    change: CustomProgramChange<S, E>,
) -> bool {
    match (before, after) {
        (Some(before), Some(after)) => {
            &&& change == custom_program_change(true, before.custom_resize, compiled, is_gles)
            &&& after == (Shaders {
                custom_resize: custom_program_after(before.custom_resize, compiled),
                ..before
            })
        },
        (None, None) => change == custom_program_change(false, None, compiled, is_gles),
        _ => false,
    }
}

/// Sets the custom resize program of a renderer, if it has shaders: that with the given source, or
/// none. The programs of GLES and of Vulkan renderers are compiled by `compile_gles` and
/// `compile_vulkan`.
pub fn set_custom_resize_program<
    S,
    G,
    V,
    B,
    E,
    FG: FnOnce(&ProgramRequest) -> Result<S, E>,
    FV: FnOnce(&ProgramRequest) -> Result<S, E>,
>(
    stored: &mut Option<Shaders<S, G, V, B>>,
    sources: &ShaderSources,
    src: Option<&str>,
    has_gles: bool,
    has_vulkan: bool,
    compile_gles: FG,
    compile_vulkan: FV,
) -> (change: CustomProgramChange<S, CompileError<E>>)
    requires
        forall|request: &ProgramRequest| #[trigger] call_requires(compile_gles, (request,)),
        forall|request: &ProgramRequest| #[trigger] call_requires(compile_vulkan, (request,)),
    ensures
        exists|compiled: Option<Result<S, CompileError<E>>>|
            {
                &&& #[trigger] source_compiled(
                    custom_resize_request(*sources, src),
                    has_gles,
                    has_vulkan,
                    compile_gles,
                    compile_vulkan,
                    compiled,
                )
                &&& custom_resize_set(*old(stored), *final(stored), compiled, has_gles, change)
            },
{
    let compiled: Option<Result<S, CompileError<E>>> = match src {
        Some(src) => Some(
            compile_resize_program(
                sources,
                src,
                has_gles,
                has_vulkan,
                compile_gles,
                compile_vulkan,
            ),
        ),
        None => None,
    };
    assert(source_compiled(
        custom_resize_request(*sources, src),
        has_gles,
        has_vulkan,
        compile_gles,
        compile_vulkan,
        compiled,
    ));
    let program: Option<S> = match compiled {
        Some(Ok(program)) => Some(program),
        Some(Err(err)) => {
            return CustomProgramChange::Failed(err);
        },
        None => None,
    };
    match stored {
        Some(shaders) => {
            let previous: Option<S> = shaders.replace_custom_resize_program(program);
            CustomProgramChange::Replaced { destroy: if has_gles { previous } else { None } }
        },
        None => CustomProgramChange::Replaced { destroy: None },
    }
}

/// What the custom close program with the given source is compiled from, if there is a source.
pub open spec fn custom_close_request(sources: ShaderSources, src: Option<&str>) -> Option<
    ProgramRequestView,
> {
    match src {
        Some(src) => Some(close_request_spec(sources, src@)),
        None => None,
    }
}

/// The custom close program of a renderer is set, if the renderer has shaders.
pub open spec fn custom_close_set<S, G, V, B, E>(
    before: Option<Shaders<S, G, V, B>>,
    after: Option<Shaders<S, G, V, B>>,
    compiled: Option<Result<S, E>>,
    is_gles: bool,
    change: CustomProgramChange<S, E>,
) -> bool {
    match (before, after) {
        (Some(before), Some(after)) => {
            &&& change == custom_program_change(true, before.custom_close, compiled, is_gles)
            &&& after == (Shaders {
                custom_close: custom_program_after(before.custom_close, compiled),
                ..before
            })
        },
        (None, None) => change == custom_program_change(false, None, compiled, is_gles),
        _ => false,
    }
}

/// Sets the custom close program of a renderer, if it has shaders: that with the given source, or
/// none. The programs of GLES and of Vulkan renderers are compiled by `compile_gles` and
/// `compile_vulkan`.
pub fn set_custom_close_program<
    S,
    G,
    V,
    B,
    E,
    FG: FnOnce(&ProgramRequest) -> Result<S, E>,
    FV: FnOnce(&ProgramRequest) -> Result<S, E>,
>(
    stored: &mut Option<Shaders<S, G, V, B>>,
    sources: &ShaderSources,
    src: Option<&str>,
    has_gles: bool,
    has_vulkan: bool,
    compile_gles: FG,
    compile_vulkan: FV,
) -> (change: CustomProgramChange<S, CompileError<E>>)
    requires
        forall|request: &ProgramRequest| #[trigger] call_requires(compile_gles, (request,)),
        forall|request: &ProgramRequest| #[trigger] call_requires(compile_vulkan, (request,)),
    ensures
        exists|compiled: Option<Result<S, CompileError<E>>>|
            {
                &&& #[trigger] source_compiled(
                    custom_close_request(*sources, src),
                    has_gles,
                    has_vulkan,
                    compile_gles,
                    compile_vulkan,
                    compiled,
                )
                &&& custom_close_set(*old(stored), *final(stored), compiled, has_gles, change)
            },
{
    let compiled: Option<Result<S, CompileError<E>>> = match src {
        Some(src) => Some(
            compile_close_program(
                sources,
                src,
                has_gles,
                has_vulkan,
                compile_gles,
                compile_vulkan,
            ),
        ),
        None => None,
    };
    assert(source_compiled(
        custom_close_request(*sources, src),
        has_gles,
        has_vulkan,
        compile_gles,
        compile_vulkan,
        compiled,
    ));
    let program: Option<S> = match compiled {
        Some(Ok(program)) => Some(program),
        Some(Err(err)) => {
            return CustomProgramChange::Failed(err);
        },
        None => None,
    };
    match stored {
        Some(shaders) => {
            let previous: Option<S> = shaders.replace_custom_close_program(program);
            CustomProgramChange::Replaced { destroy: if has_gles { previous } else { None } }
        },
        None => CustomProgramChange::Replaced { destroy: None },
    }
}

/// What the custom open program with the given source is compiled from, if there is a source.
pub open spec fn custom_open_request(sources: ShaderSources, src: Option<&str>) -> Option<
    ProgramRequestView,
> {
    match src {
        Some(src) => Some(open_request_spec(sources, src@)),
        None => None,
    }
}

/// The custom open program of a renderer is set, if the renderer has shaders.
pub open spec fn custom_open_set<S, G, V, B, E>(
    before: Option<Shaders<S, G, V, B>>,
    after: Option<Shaders<S, G, V, B>>,
    compiled: Option<Result<S, E>>,
    is_gles: bool,
    change: CustomProgramChange<S, E>,
) -> bool {
    match (before, after) {
        (Some(before), Some(after)) => {
            &&& change == custom_program_change(true, before.custom_open, compiled, is_gles)
            &&& after == (Shaders {
                custom_open: custom_program_after(before.custom_open, compiled),
                ..before
            })
        },
        (None, None) => change == custom_program_change(false, None, compiled, is_gles),
        _ => false,
    }
}

/// Sets the custom open program of a renderer, if it has shaders: that with the given source, or
/// none. The programs of GLES and of Vulkan renderers are compiled by `compile_gles` and
/// `compile_vulkan`.
pub fn set_custom_open_program<
    S,
    G,
    V,
    B,
    E,
    FG: FnOnce(&ProgramRequest) -> Result<S, E>,
    FV: FnOnce(&ProgramRequest) -> Result<S, E>,
>(
    stored: &mut Option<Shaders<S, G, V, B>>,
    sources: &ShaderSources,
    src: Option<&str>,
    has_gles: bool,
    has_vulkan: bool,
    compile_gles: FG,
    compile_vulkan: FV,
) -> (change: CustomProgramChange<S, CompileError<E>>)
    requires
        forall|request: &ProgramRequest| #[trigger] call_requires(compile_gles, (request,)),
        forall|request: &ProgramRequest| #[trigger] call_requires(compile_vulkan, (request,)),
    ensures
        exists|compiled: Option<Result<S, CompileError<E>>>|
            {
                &&& #[trigger] source_compiled(
                    custom_open_request(*sources, src),
                    has_gles,
                    has_vulkan,
                    compile_gles,
                    compile_vulkan,
                    compiled,
                )
                &&& custom_open_set(*old(stored), *final(stored), compiled, has_gles, change)
            },
{
    let compiled: Option<Result<S, CompileError<E>>> = match src {
        Some(src) => Some(
            compile_open_program(
                sources,
                src,
                has_gles,
                has_vulkan,
                compile_gles,
                compile_vulkan,
            ),
        ),
        None => None,
    };
    assert(source_compiled(
        custom_open_request(*sources, src),
        has_gles,
        has_vulkan,
        compile_gles,
        compile_vulkan,
        compiled,
    ));
    let program: Option<S> = match compiled {
        Some(Ok(program)) => Some(program),
        Some(Err(err)) => {
            return CustomProgramChange::Failed(err);
        },
        None => None,
    };
    match stored {
        Some(shaders) => {
            let previous: Option<S> = shaders.replace_custom_open_program(program);
            CustomProgramChange::Replaced { destroy: if has_gles { previous } else { None } }
        },
        None => CustomProgramChange::Replaced { destroy: None },
    }
}

/// A custom program that does not compile changes nothing: draws keep using the program they used.
pub proof fn law_failed_custom_program_changes_nothing<S, G, V, B, E>(
    before: Shaders<S, G, V, B>,
    err: E,
    program: ProgramType,
)
    ensures
        (Shaders {
            custom_resize: custom_program_after::<S, E>(before.custom_resize, Some(Err(err))),
            custom_close: custom_program_after::<S, E>(before.custom_close, Some(Err(err))),
            custom_open: custom_program_after::<S, E>(before.custom_open, Some(Err(err))),
            ..before
        }).program_spec(program) == before.program_spec(program),
{
}

/// A custom resize program is used in place of the built-in one until it is cleared, whatever was
/// set before.
pub proof fn law_custom_resize_program_replaces_the_builtin<S, G, V, B, E>(
    before: Shaders<S, G, V, B>,
    custom: S,
)
    ensures
        (Shaders {
            custom_resize: custom_program_after::<S, E>(before.custom_resize, Some(Ok(custom))),
            ..before
        }).program_spec(ProgramType::Resize) == Some(custom),
        (Shaders {
            custom_resize: custom_program_after::<S, E>(before.custom_resize, None),
            ..before
        }).program_spec(ProgramType::Resize) == before.resize,
{
}

/// Each draw uses the program of its kind. A custom resize program takes precedence over the
/// built-in one, which is used without a custom one. Windows open and close with custom programs
/// only. Replacing a custom program changes nothing for draws of another kind.
pub proof fn law_draws_use_the_program_of_their_kind<S, G, V, B>(
    shaders: Shaders<S, G, V, B>,
    custom: Option<S>,
    kind: ProgramType,
)
    ensures
        shaders.program_spec(ProgramType::Border) == shaders.border,
        shaders.program_spec(ProgramType::Shadow) == shaders.shadow,
        shaders.custom_resize is Some ==> shaders.program_spec(ProgramType::Resize)
            == shaders.custom_resize,
        shaders.custom_resize is None ==> shaders.program_spec(ProgramType::Resize)
            == shaders.resize,
        shaders.program_spec(ProgramType::Close) == shaders.custom_close,
        shaders.program_spec(ProgramType::Open) == shaders.custom_open,
        kind != ProgramType::Resize ==> (Shaders { custom_resize: custom, ..shaders }).program_spec(
            kind,
        ) == shaders.program_spec(kind),
        kind != ProgramType::Close ==> (Shaders { custom_close: custom, ..shaders }).program_spec(
            kind,
        ) == shaders.program_spec(kind),
        kind != ProgramType::Open ==> (Shaders { custom_open: custom, ..shaders }).program_spec(
            kind,
        ) == shaders.program_spec(kind),
{
}

/// Setting a custom program: one that compiled is set, none clears it, and one that failed leaves
/// what was set. Only a program that is replaced is destroyed, and only on the GLES renderer. That
/// goes for resize, close and open programs alike, and nothing else of the shaders changes.
pub proof fn law_setting_custom_programs<S, G, V, B, E>(
    before: Shaders<S, G, V, B>,
    after: Option<Shaders<S, G, V, B>>,
    compiled: Option<Result<S, E>>,
    is_gles: bool,
    change: CustomProgramChange<S, E>,
)
    ensures
        custom_resize_set(Some(before), after, compiled, is_gles, change) ==> {
            &&& after is Some
            &&& program_is_set(
                before.custom_resize,
                after->0.custom_resize,
                compiled,
                is_gles,
                change,
            )
            &&& after->0 == (Shaders { custom_resize: after->0.custom_resize, ..before })
        },
        custom_close_set(Some(before), after, compiled, is_gles, change) ==> {
            &&& after is Some
            &&& program_is_set(
                before.custom_close,
                after->0.custom_close,
                compiled,
                is_gles,
                change,
            )
            &&& after->0 == (Shaders { custom_close: after->0.custom_close, ..before })
        },
        custom_open_set(Some(before), after, compiled, is_gles, change) ==> {
            &&& after is Some
            &&& program_is_set(
                before.custom_open,
                after->0.custom_open,
                compiled,
                is_gles,
                change,
            )
            &&& after->0 == (Shaders { custom_open: after->0.custom_open, ..before })
        },
{
}

/// A custom program was `before` and is `after` setting it, with the given outcome.
pub open spec fn program_is_set<S, E>(
    before: Option<S>,
    after: Option<S>,
    compiled: Option<Result<S, E>>,
    is_gles: bool,
    change: CustomProgramChange<S, E>,
) -> bool {
    &&& match compiled {
        Some(Ok(program)) => after == Some(program),
        Some(Err(_)) => after == before,
        None => after is None,
    }
    &&& match change {
        CustomProgramChange::Failed(err) => compiled == Some(Err::<S, E>(err)),
        CustomProgramChange::Replaced { destroy } => {
            &&& !(compiled matches Some(Err(_)))
            &&& is_gles ==> destroy == before
            &&& !is_gles ==> destroy is None
        },
    }
}

/// On a renderer without shaders, setting a custom program stores nothing and destroys nothing.
pub proof fn law_no_custom_programs_without_shaders<S, G, V, B, E>(
    after: Option<Shaders<S, G, V, B>>,
    compiled: Option<Result<S, E>>,
    is_gles: bool,
    change: CustomProgramChange<S, E>,
)
    requires
        custom_resize_set(None, after, compiled, is_gles, change) || custom_close_set(
            None,
            after,
            compiled,
            is_gles,
            change,
        ) || custom_open_set(None, after, compiled, is_gles, change),
    ensures
        after is None,
        change matches CustomProgramChange::Replaced { destroy } ==> destroy is None,
        change is Failed <==> (compiled matches Some(Err(_))),
{
}

/// Shaders take matrices column by column: the first column of a uniform is the first column of the
/// matrix.
pub proof fn law_matrix_uniforms_are_column_major(name: &'static str, mat: Mat3, uniform: Uniform)
    requires
        call_ensures(mat3_uniform, (name, mat), uniform),
    ensures
        uniform.name == name,
        uniform.value matches UniformValue::Matrix3x3(columns) && {
            &&& columns.r.r == mat.r.r && columns.r.g == mat.g.r && columns.r.b == mat.b.r
            &&& columns.g.r == mat.r.g && columns.g.g == mat.g.g && columns.g.b == mat.b.g
            &&& columns.b.r == mat.r.b && columns.b.g == mat.g.b && columns.b.b == mat.b.b
        },
{
}

/// The shaders of a renderer are stored once: those that are there stay.
pub proof fn law_shaders_are_stored_once<S, G, V, B>(
    first: &mut Option<Shaders<S, G, V, B>>,
    second: &mut Option<Shaders<S, G, V, B>>,
    vulkan: &mut Option<Shaders<S, G, V, B>>,
    shaders: Shaders<S, G, V, B>,
    others: Shaders<S, G, V, B>,
    inserted: bool,
    inserted_later: bool,
)
    requires
        call_ensures(init::<S, G, V, B>, (first, shaders), inserted),
        call_ensures(init::<S, G, V, B>, (second, others), inserted_later),
        call_ensures(init_vulkan::<S, G, V, B>, (vulkan, others), ()),
        *old(second) == *final(first),
        *old(vulkan) == *final(first),
    ensures
        !inserted_later,
        *final(second) == *final(first) && *final(vulkan) == *final(first),
        inserted <==> *old(first) is None,
        inserted ==> *final(first) == Some(shaders),
        !inserted ==> *final(first) == *old(first),
{
}

/// Replacing a custom program hands back the one in place, and putting that one back undoes the
/// replacement. The other programs stay.
pub proof fn law_replaced_programs_can_be_put_back<S, G, V, B>(
    resize: &mut Shaders<S, G, V, B>,
    resize_back: &mut Shaders<S, G, V, B>,
    close: &mut Shaders<S, G, V, B>,
    close_back: &mut Shaders<S, G, V, B>,
    open: &mut Shaders<S, G, V, B>,
    open_back: &mut Shaders<S, G, V, B>,
    program: Option<S>,
    previous: (Option<S>, Option<S>, Option<S>),
    replaced: (Option<S>, Option<S>, Option<S>),
)
    requires
        call_ensures(
            Shaders::<S, G, V, B>::replace_custom_resize_program,
            (resize, program),
            previous.0,
        ),
        call_ensures(
            Shaders::<S, G, V, B>::replace_custom_resize_program,
            (resize_back, previous.0),
            replaced.0,
        ),
        *old(resize_back) == *final(resize),
        call_ensures(
            Shaders::<S, G, V, B>::replace_custom_close_program,
            (close, program),
            previous.1,
        ),
        call_ensures(
            Shaders::<S, G, V, B>::replace_custom_close_program,
            (close_back, previous.1),
            replaced.1,
        ),
        *old(close_back) == *final(close),
        call_ensures(
            Shaders::<S, G, V, B>::replace_custom_open_program,
            (open, program),
            previous.2,
        ),
        call_ensures(
            Shaders::<S, G, V, B>::replace_custom_open_program,
            (open_back, previous.2),
            replaced.2,
        ),
        *old(open_back) == *final(open),
    ensures
        replaced == (program, program, program),
        previous == (old(resize).custom_resize, old(close).custom_close, old(open).custom_open),
        *final(resize_back) == *old(resize),
        *final(close_back) == *old(close),
        *final(open_back) == *old(open),
        final(resize).program_spec(ProgramType::Close) == old(resize).program_spec(
            ProgramType::Close,
        ),
        final(close).program_spec(ProgramType::Close) == program,
        final(open).program_spec(ProgramType::Open) == program,
        program is Some ==> final(resize).program_spec(ProgramType::Resize) == program,
{
}

/// Fresh shaders have no custom programs. The programs of a renderer are its own, and a Vulkan
/// renderer has none that only GLES draws with.
pub proof fn law_fresh_shaders<
    S,
    G,
    V,
    B,
    E,
    FT: Fn(&ProgramRequest) -> Result<G, E>,
    FV: Fn(&ProgramRequest) -> Result<V, E>,
    FS: Fn(&ProgramRequest) -> Result<S, E>,
    FB: FnOnce() -> Result<B, E>,
>(
    sources: ShaderSources,
    compile_texture: FT,
    compile_vulkan_texture: FV,
    compile_element: FS,
    compile_blur: FB,
    gles: Shaders<S, G, V, B>,
    vulkan: Shaders<S, G, V, B>,
)
    requires
        call_ensures(
            Shaders::<S, G, V, B>::compile::<E, FT, FS, FB>,
            (&sources, compile_texture, compile_element, compile_blur),
            gles,
        ),
        call_ensures(
            Shaders::<S, G, V, B>::compile_vulkan::<E, FV, FS>,
            (&sources, compile_vulkan_texture, compile_element),
            vulkan,
        ),
    ensures
        gles.program_spec(ProgramType::Resize) == gles.resize,
        gles.program_spec(ProgramType::Close) is None,
        gles.program_spec(ProgramType::Open) is None,
        vulkan.program_spec(ProgramType::Resize) == vulkan.resize,
        vulkan.program_spec(ProgramType::Close) is None,
        vulkan.program_spec(ProgramType::Open) is None,
        !(gles.clipped_surface matches Some(NiriTexProgram::Vulkan(_))),
        !(vulkan.clipped_surface matches Some(NiriTexProgram::Gles(_))),
        vulkan.texture_hdr is None && vulkan.texture_hdr_to_sdr is None && vulkan.gradient_fade
            is None && vulkan.postprocess_and_clip is None && vulkan.blur is None,
        gles.blur matches Some(blur) ==> call_ensures(compile_blur, (), Ok::<B, E>(blur)),
{
}

} // verus!
