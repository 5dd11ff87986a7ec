//! Renderer of the TTY backend: either GLES or Vulkan.
//!
//! The two possible renderers, and the frames, framebuffers, texture mappings and errors that go
//! with them, are wrapped in enums. Operations on a wrapped value go to the variant it holds, given
//! as one function for each. The GLES-specific parts (custom shaders, EGL buffers) are not
//! available on the Vulkan variant.

use vstd::prelude::*;

verus! {

/// The rendering APIs.
#[derive(Debug, Clone, Copy, PartialEq, Eq, Structural)]
pub enum RenderApi {
    Gles,
    Vulkan,
}

/// Renderer of the TTY backend.
#[derive(Debug)]
pub enum TtyRenderer<G, V> {
    Gles(G),
    Vulkan(V),
}

/// Frame of the TTY backend renderer.
#[derive(Debug)]
pub enum TtyFrame<G, V> {
    Gles(G),
    Vulkan(V),
}

/// Framebuffer of the TTY backend renderer.
#[derive(Debug)]
pub enum TtyFramebuffer<G, V> {
    Gles(G),
    Vulkan(V),
}

/// Texture mapping of the TTY backend renderer.
#[derive(Debug)]
pub enum TtyTextureMapping<G, V> {
    Gles(G),
    Vulkan(V),
}

/// GPU manager of the TTY backend, one per selected rendering API.
#[derive(Debug)]
pub enum TtyGpuManager<G, V> {
    Gles(G),
    Vulkan(V),
}

/// A texture that a renderer can draw to.
#[derive(Debug, PartialEq, Eq)]
pub enum TtyOffscreen<G, V, M> {
    Gles(G),
    Vulkan(V),
    /// A texture that exists on several GPUs.
    Multi(M),
}

impl<G: Copy, V: Copy, M: Copy> Clone for TtyOffscreen<G, V, M> {
    fn clone(&self) -> (texture: Self)
        ensures
            texture == *self,
    {
        *self
    }
}

impl<G: Copy, V: Copy, M: Copy> Copy for TtyOffscreen<G, V, M> {

}

/// Error of the TTY backend renderer.
#[derive(Debug, PartialEq, Eq)]
pub enum TtyRendererError<G, V> {
    Gles(G),
    Vulkan(V),
    VulkanUnsupported,
}

impl<G, V> TtyRendererError<G, V> {
    /// The error as text: `inner` describes the error of the renderer itself.
    pub fn message(&self, inner: String) -> (message: String)
        ensures
            message@ == match self {
                TtyRendererError::VulkanUnsupported =>
                    "operation not supported by the vulkan renderer"@,
                _ => inner@,
            },
    {
        match self {
            TtyRendererError::Gles(_) => inner,
            TtyRendererError::Vulkan(_) => inner,
            TtyRendererError::VulkanUnsupported => "operation not supported by the vulkan renderer".to_owned(),
        }
    }

    /// The error of the GLES renderer that is behind this one, if any.
    pub fn gles_source(&self) -> (source: Option<&G>)
        ensures
            match self {
                TtyRendererError::Gles(err) => source == Some(err),
                _ => source is None,
            },
    {
        match self {
            TtyRendererError::Gles(err) => Some(err),
            _ => None,
        }
    }

    /// The error of the Vulkan renderer that is behind this one, if any.
    pub fn vulkan_source(&self) -> (source: Option<&V>)
        ensures
            match self {
                TtyRendererError::Vulkan(err) => source == Some(err),
                _ => source is None,
            },
    {
        match self {
            TtyRendererError::Vulkan(err) => Some(err),
            _ => None,
        }
    }
}

/// `result` is that of the GLES operation, with its error wrapped.
pub open spec fn gles_result<T, EG, EV>(
    inner: Result<T, EG>,
    result: Result<T, TtyRendererError<EG, EV>>,
) -> bool {
    match inner {
        Ok(value) => result == Ok::<T, TtyRendererError<EG, EV>>(value),
        Err(err) => result == Err::<T, TtyRendererError<EG, EV>>(TtyRendererError::Gles(err)),
    }
}

/// `result` is that of the Vulkan operation, with its error wrapped.
pub open spec fn vulkan_result<T, EG, EV>(
    inner: Result<T, EV>,
    result: Result<T, TtyRendererError<EG, EV>>,
) -> bool {
    match inner {
        Ok(value) => result == Ok::<T, TtyRendererError<EG, EV>>(value),
        Err(err) => result == Err::<T, TtyRendererError<EG, EV>>(TtyRendererError::Vulkan(err)),
    }
}

/// Wraps the error of the GLES renderer.
pub fn wrap_gles<T, EG, EV>(inner: Result<T, EG>) -> (result: Result<T, TtyRendererError<EG, EV>>)
    ensures
        gles_result(inner, result),
{
    match inner {
        Ok(value) => Ok(value),
        Err(err) => Err(TtyRendererError::Gles(err)),
    }
}

/// Wraps the error of the Vulkan renderer.
pub fn wrap_vulkan<T, EG, EV>(inner: Result<T, EV>) -> (result: Result<T, TtyRendererError<EG, EV>>)
    ensures
        vulkan_result(inner, result),
{
    match inner {
        Ok(value) => Ok(value),
        Err(err) => Err(TtyRendererError::Vulkan(err)),
    }
}

impl<G, V> TtyRenderer<G, V> {
    pub open spec fn api_spec(self) -> RenderApi {
        match self {
            TtyRenderer::Gles(_) => RenderApi::Gles,
            TtyRenderer::Vulkan(_) => RenderApi::Vulkan,
        }
    }

    pub fn api(&self) -> (api: RenderApi)
        ensures
            api == self.api_spec(),
    {
        match self {
            TtyRenderer::Gles(_) => RenderApi::Gles,
            TtyRenderer::Vulkan(_) => RenderApi::Vulkan,
        }
    }

    pub fn as_ref(&self) -> (inner: TtyRenderer<&G, &V>)
        ensures
            match (*self, inner) {
                (TtyRenderer::Gles(whole), TtyRenderer::Gles(part)) => whole == *part,
                (TtyRenderer::Vulkan(whole), TtyRenderer::Vulkan(part)) => whole == *part,
                _ => false,
            },
    {
        match self {
            TtyRenderer::Gles(inner) => TtyRenderer::Gles(inner),
            TtyRenderer::Vulkan(inner) => TtyRenderer::Vulkan(inner),
        }
    }

    pub fn as_mut(&mut self) -> (inner: TtyRenderer<&mut G, &mut V>)
        ensures
            match (*old(self), inner) {
                (TtyRenderer::Gles(before), TtyRenderer::Gles(part)) => {
                    &&& *part == before
                    &&& *final(self) == TtyRenderer::<G, V>::Gles(*final(part))
                },
                (TtyRenderer::Vulkan(before), TtyRenderer::Vulkan(part)) => {
                    &&& *part == before
                    &&& *final(self) == TtyRenderer::<G, V>::Vulkan(*final(part))
                },
                _ => false,
            },
    {
        match self {
            TtyRenderer::Gles(inner) => TtyRenderer::Gles(inner),
            TtyRenderer::Vulkan(inner) => TtyRenderer::Vulkan(inner),
        }
    }

    /// Does what the variant says.
    pub fn with<T, FG: FnOnce(G) -> T, FV: FnOnce(V) -> T>(self, gles: FG, vulkan: FV) -> (value: T)
        requires
            match self {
                TtyRenderer::Gles(inner) => call_requires(gles, (inner,)),
                TtyRenderer::Vulkan(inner) => call_requires(vulkan, (inner,)),
            },
        ensures
            match self {
                TtyRenderer::Gles(inner) => call_ensures(gles, (inner,), value),
                TtyRenderer::Vulkan(inner) => call_ensures(vulkan, (inner,), value),
            },
    {
        match self {
            TtyRenderer::Gles(inner) => gles(inner),
            TtyRenderer::Vulkan(inner) => vulkan(inner),
        }
    }

    /// Does what the variant says, which may fail.
    pub fn try_with<T, EG, EV, FG: FnOnce(G) -> Result<T, EG>, FV: FnOnce(V) -> Result<T, EV>>(
        self,
        gles: FG,
        vulkan: FV,
    ) -> (result: Result<T, TtyRendererError<EG, EV>>)
        requires
            match self {
                TtyRenderer::Gles(inner) => call_requires(gles, (inner,)),
                TtyRenderer::Vulkan(inner) => call_requires(vulkan, (inner,)),
            },
        ensures
            match self {
                TtyRenderer::Gles(inner) => exists|r: Result<T, EG>|
                    #[trigger] call_ensures(gles, (inner,), r) && gles_result(r, result),
                TtyRenderer::Vulkan(inner) => exists|r: Result<T, EV>|
                    #[trigger] call_ensures(vulkan, (inner,), r) && vulkan_result(r, result),
            },
    {
        match self {
            TtyRenderer::Gles(inner) => wrap_gles(gles(inner)),
            TtyRenderer::Vulkan(inner) => wrap_vulkan(vulkan(inner)),
        }
    }
}

impl<G, V> TtyFrame<G, V> {
    pub open spec fn api_spec(self) -> RenderApi {
        match self {
            TtyFrame::Gles(_) => RenderApi::Gles,
            TtyFrame::Vulkan(_) => RenderApi::Vulkan,
        }
    }

    pub fn api(&self) -> (api: RenderApi)
        ensures
            api == self.api_spec(),
    {
        match self {
            TtyFrame::Gles(_) => RenderApi::Gles,
            TtyFrame::Vulkan(_) => RenderApi::Vulkan,
        }
    }

    pub fn as_ref(&self) -> (inner: TtyFrame<&G, &V>)
        ensures
            match (*self, inner) {
                (TtyFrame::Gles(whole), TtyFrame::Gles(part)) => whole == *part,
                (TtyFrame::Vulkan(whole), TtyFrame::Vulkan(part)) => whole == *part,
                _ => false,
            },
    {
        match self {
            TtyFrame::Gles(inner) => TtyFrame::Gles(inner),
            TtyFrame::Vulkan(inner) => TtyFrame::Vulkan(inner),
        }
    }

    pub fn as_mut(&mut self) -> (inner: TtyFrame<&mut G, &mut V>)
        ensures
            match (*old(self), inner) {
                (TtyFrame::Gles(before), TtyFrame::Gles(part)) => {
                    &&& *part == before
                    &&& *final(self) == TtyFrame::<G, V>::Gles(*final(part))
                },
                (TtyFrame::Vulkan(before), TtyFrame::Vulkan(part)) => {
                    &&& *part == before
                    &&& *final(self) == TtyFrame::<G, V>::Vulkan(*final(part))
                },
                _ => false,
            },
    {
        match self {
            TtyFrame::Gles(inner) => TtyFrame::Gles(inner),
            TtyFrame::Vulkan(inner) => TtyFrame::Vulkan(inner),
        }
    }

    /// Does what the variant says.
    pub fn with<T, FG: FnOnce(G) -> T, FV: FnOnce(V) -> T>(self, gles: FG, vulkan: FV) -> (value: T)
        requires
            match self {
                TtyFrame::Gles(inner) => call_requires(gles, (inner,)),
                TtyFrame::Vulkan(inner) => call_requires(vulkan, (inner,)),
            },
        ensures
            match self {
                TtyFrame::Gles(inner) => call_ensures(gles, (inner,), value),
                TtyFrame::Vulkan(inner) => call_ensures(vulkan, (inner,), value),
            },
    {
        match self {
            TtyFrame::Gles(inner) => gles(inner),
            TtyFrame::Vulkan(inner) => vulkan(inner),
        }
    }

    /// Does what the variant says, which may fail.
    pub fn try_with<T, EG, EV, FG: FnOnce(G) -> Result<T, EG>, FV: FnOnce(V) -> Result<T, EV>>(
        self,
        gles: FG,
        vulkan: FV,
    ) -> (result: Result<T, TtyRendererError<EG, EV>>)
        requires
            match self {
                TtyFrame::Gles(inner) => call_requires(gles, (inner,)),
                TtyFrame::Vulkan(inner) => call_requires(vulkan, (inner,)),
            },
        ensures
            match self {
                TtyFrame::Gles(inner) => exists|r: Result<T, EG>|
                    #[trigger] call_ensures(gles, (inner,), r) && gles_result(r, result),
                TtyFrame::Vulkan(inner) => exists|r: Result<T, EV>|
                    #[trigger] call_ensures(vulkan, (inner,), r) && vulkan_result(r, result),
            },
    {
        match self {
            TtyFrame::Gles(inner) => wrap_gles(gles(inner)),
            TtyFrame::Vulkan(inner) => wrap_vulkan(vulkan(inner)),
        }
    }
}

impl<G, V> TtyFramebuffer<G, V> {
    pub open spec fn api_spec(self) -> RenderApi {
        match self {
            TtyFramebuffer::Gles(_) => RenderApi::Gles,
            TtyFramebuffer::Vulkan(_) => RenderApi::Vulkan,
        }
    }

    pub fn api(&self) -> (api: RenderApi)
        ensures
            api == self.api_spec(),
    {
        match self {
            TtyFramebuffer::Gles(_) => RenderApi::Gles,
            TtyFramebuffer::Vulkan(_) => RenderApi::Vulkan,
        }
    }

    pub fn as_ref(&self) -> (inner: TtyFramebuffer<&G, &V>)
        ensures
            match (*self, inner) {
                (TtyFramebuffer::Gles(whole), TtyFramebuffer::Gles(part)) => whole == *part,
                (TtyFramebuffer::Vulkan(whole), TtyFramebuffer::Vulkan(part)) => whole == *part,
                _ => false,
            },
    {
        match self {
            TtyFramebuffer::Gles(inner) => TtyFramebuffer::Gles(inner),
            TtyFramebuffer::Vulkan(inner) => TtyFramebuffer::Vulkan(inner),
        }
    }

    pub fn as_mut(&mut self) -> (inner: TtyFramebuffer<&mut G, &mut V>)
        ensures
            match (*old(self), inner) {
                (TtyFramebuffer::Gles(before), TtyFramebuffer::Gles(part)) => {
                    &&& *part == before
                    &&& *final(self) == TtyFramebuffer::<G, V>::Gles(*final(part))
                },
                (TtyFramebuffer::Vulkan(before), TtyFramebuffer::Vulkan(part)) => {
                    &&& *part == before
                    &&& *final(self) == TtyFramebuffer::<G, V>::Vulkan(*final(part))
                },
                _ => false,
            },
    {
        match self {
            TtyFramebuffer::Gles(inner) => TtyFramebuffer::Gles(inner),
            TtyFramebuffer::Vulkan(inner) => TtyFramebuffer::Vulkan(inner),
        }
    }

    /// Does what the variant says.
    pub fn with<T, FG: FnOnce(G) -> T, FV: FnOnce(V) -> T>(self, gles: FG, vulkan: FV) -> (value: T)
        requires
            match self {
                TtyFramebuffer::Gles(inner) => call_requires(gles, (inner,)),
                TtyFramebuffer::Vulkan(inner) => call_requires(vulkan, (inner,)),
            },
        ensures
            match self {
                TtyFramebuffer::Gles(inner) => call_ensures(gles, (inner,), value),
                TtyFramebuffer::Vulkan(inner) => call_ensures(vulkan, (inner,), value),
            },
    {
        match self {
            TtyFramebuffer::Gles(inner) => gles(inner),
            TtyFramebuffer::Vulkan(inner) => vulkan(inner),
        }
    }
}

impl<G, V> TtyTextureMapping<G, V> {
    pub open spec fn api_spec(self) -> RenderApi {
        match self {
            TtyTextureMapping::Gles(_) => RenderApi::Gles,
            TtyTextureMapping::Vulkan(_) => RenderApi::Vulkan,
        }
    }

    pub fn api(&self) -> (api: RenderApi)
        ensures
            api == self.api_spec(),
    {
        match self {
            TtyTextureMapping::Gles(_) => RenderApi::Gles,
            TtyTextureMapping::Vulkan(_) => RenderApi::Vulkan,
        }
    }

    pub fn as_ref(&self) -> (inner: TtyTextureMapping<&G, &V>)
        ensures
            match (*self, inner) {
                (TtyTextureMapping::Gles(whole), TtyTextureMapping::Gles(part)) => whole == *part,
                (TtyTextureMapping::Vulkan(whole), TtyTextureMapping::Vulkan(part)) => whole == *part,
                _ => false,
            },
    {
        match self {
            TtyTextureMapping::Gles(inner) => TtyTextureMapping::Gles(inner),
            TtyTextureMapping::Vulkan(inner) => TtyTextureMapping::Vulkan(inner),
        }
    }

    pub fn as_mut(&mut self) -> (inner: TtyTextureMapping<&mut G, &mut V>)
        ensures
            match (*old(self), inner) {
                (TtyTextureMapping::Gles(before), TtyTextureMapping::Gles(part)) => {
                    &&& *part == before
                    &&& *final(self) == TtyTextureMapping::<G, V>::Gles(*final(part))
                },
                (TtyTextureMapping::Vulkan(before), TtyTextureMapping::Vulkan(part)) => {
                    &&& *part == before
                    &&& *final(self) == TtyTextureMapping::<G, V>::Vulkan(*final(part))
                },
                _ => false,
            },
    {
        match self {
            TtyTextureMapping::Gles(inner) => TtyTextureMapping::Gles(inner),
            TtyTextureMapping::Vulkan(inner) => TtyTextureMapping::Vulkan(inner),
        }
    }

    /// Does what the variant says.
    pub fn with<T, FG: FnOnce(G) -> T, FV: FnOnce(V) -> T>(self, gles: FG, vulkan: FV) -> (value: T)
        requires
            match self {
                TtyTextureMapping::Gles(inner) => call_requires(gles, (inner,)),
                TtyTextureMapping::Vulkan(inner) => call_requires(vulkan, (inner,)),
            },
        ensures
            match self {
                TtyTextureMapping::Gles(inner) => call_ensures(gles, (inner,), value),
                TtyTextureMapping::Vulkan(inner) => call_ensures(vulkan, (inner,), value),
            },
    {
        match self {
            TtyTextureMapping::Gles(inner) => gles(inner),
            TtyTextureMapping::Vulkan(inner) => vulkan(inner),
        }
    }
}

impl<G, V> TtyRenderer<G, V> {
    /// Does something that only the GLES renderer can do: importing EGL buffers, drawing to GLES
    /// textures and creating them.
    pub fn gles_only<T, EG, EV, F: FnOnce(G) -> Result<T, EG>>(self, gles: F) -> (result: Result<
        T,
        TtyRendererError<EG, EV>,
    >)
        requires
            self matches TtyRenderer::Gles(inner) ==> call_requires(gles, (inner,)),
        ensures
            match self {
                TtyRenderer::Gles(inner) => exists|r: Result<T, EG>|
                    #[trigger] call_ensures(gles, (inner,), r) && gles_result(r, result),
                TtyRenderer::Vulkan(_) => result == Err::<T, TtyRendererError<EG, EV>>(
                    TtyRendererError::VulkanUnsupported,
                ),
            },
    {
        match self {
            TtyRenderer::Gles(inner) => wrap_gles(gles(inner)),
            TtyRenderer::Vulkan(_) => Err(TtyRendererError::VulkanUnsupported),
        }
    }

    /// Makes the display usable for clients of `wl_drm`. There is no such support on the Vulkan
    /// renderer, which fails with the given error; clients use dmabuf.
    pub fn bind_wl_display<E, F: FnOnce(G) -> Result<(), E>>(self, gles: F, not_supported: E) -> (
    result: Result<(), E>)
        requires
            self matches TtyRenderer::Gles(inner) ==> call_requires(gles, (inner,)),
        ensures
            match self {
                TtyRenderer::Gles(inner) => call_ensures(gles, (inner,), result),
                TtyRenderer::Vulkan(_) => result == Err::<(), E>(not_supported),
            },
    {
        match self {
            TtyRenderer::Gles(inner) => gles(inner),
            TtyRenderer::Vulkan(_) => Err(not_supported),
        }
    }

    /// The GLES renderer, if it is one.
    pub fn gles(self) -> (renderer: Option<G>)
        ensures
            match self {
                TtyRenderer::Gles(inner) => renderer == Some(inner),
                TtyRenderer::Vulkan(_) => renderer is None,
            },
    {
        match self {
            TtyRenderer::Gles(inner) => Some(inner),
            TtyRenderer::Vulkan(_) => None,
        }
    }

    /// Starts a frame: the framebuffer has to be one of the same API.
    pub fn render<
        GB,
        VB,
        GF,
        VF,
        EG,
        EV,
        FG: FnOnce(G, GB) -> Result<GF, EG>,
        FV: FnOnce(V, VB) -> Result<VF, EV>,
    >(self, framebuffer: TtyFramebuffer<GB, VB>, gles: FG, vulkan: FV) -> (frame: Result<
        TtyFrame<GF, VF>,
        TtyRendererError<EG, EV>,
    >)
        requires
            match (self, framebuffer) {
                (TtyRenderer::Gles(inner), TtyFramebuffer::Gles(fb)) => call_requires(
                    gles,
                    (inner, fb),
                ),
                (TtyRenderer::Vulkan(inner), TtyFramebuffer::Vulkan(fb)) => call_requires(
                    vulkan,
                    (inner, fb),
                ),
                _ => false,
            },
        ensures
            match (self, framebuffer) {
                (TtyRenderer::Gles(inner), TtyFramebuffer::Gles(fb)) => match frame {
                    Ok(frame) => frame matches TtyFrame::Gles(f) && call_ensures(
                        gles,
                        (inner, fb),
                        Ok::<GF, EG>(f),
                    ),
                    Err(err) => err matches TtyRendererError::Gles(e) && call_ensures(
                        gles,
                        (inner, fb),
                        Err::<GF, EG>(e),
                    ),
                },
                (TtyRenderer::Vulkan(inner), TtyFramebuffer::Vulkan(fb)) => match frame {
                    Ok(frame) => frame matches TtyFrame::Vulkan(f) && call_ensures(
                        vulkan,
                        (inner, fb),
                        Ok::<VF, EV>(f),
                    ),
                    Err(err) => err matches TtyRendererError::Vulkan(e) && call_ensures(
                        vulkan,
                        (inner, fb),
                        Err::<VF, EV>(e),
                    ),
                },
                _ => false,
            },
    {
        match (self, framebuffer) {
            (TtyRenderer::Gles(inner), TtyFramebuffer::Gles(fb)) => match gles(inner, fb) {
                Ok(frame) => Ok(TtyFrame::Gles(frame)),
                Err(err) => Err(TtyRendererError::Gles(err)),
            },
            (TtyRenderer::Vulkan(inner), TtyFramebuffer::Vulkan(fb)) => match vulkan(inner, fb) {
                Ok(frame) => Ok(TtyFrame::Vulkan(frame)),
                Err(err) => Err(TtyRendererError::Vulkan(err)),
            },
            _ => vstd::pervasive::unreached(),
        }
    }

    /// Copies part of a framebuffer, which has to be one of the same API, into a texture mapping.
    pub fn copy_framebuffer<
        GB,
        VB,
        GM,
        VM,
        EG,
        EV,
        FG: FnOnce(G, GB) -> Result<GM, EG>,
        FV: FnOnce(V, VB) -> Result<VM, EV>,
    >(self, target: TtyFramebuffer<GB, VB>, gles: FG, vulkan: FV) -> (mapping: Result<
        TtyTextureMapping<GM, VM>,
        TtyRendererError<EG, EV>,
    >)
        requires
            match (self, target) {
                (TtyRenderer::Gles(inner), TtyFramebuffer::Gles(fb)) => call_requires(
                    gles,
                    (inner, fb),
                ),
                (TtyRenderer::Vulkan(inner), TtyFramebuffer::Vulkan(fb)) => call_requires(
                    vulkan,
                    (inner, fb),
                ),
                _ => false,
            },
        ensures
            match (self, target) {
                (TtyRenderer::Gles(inner), TtyFramebuffer::Gles(fb)) => match mapping {
                    Ok(mapping) => mapping matches TtyTextureMapping::Gles(m) && call_ensures(
                        gles,
                        (inner, fb),
                        Ok::<GM, EG>(m),
                    ),
                    Err(err) => err matches TtyRendererError::Gles(e) && call_ensures(
                        gles,
                        (inner, fb),
                        Err::<GM, EG>(e),
                    ),
                },
                (TtyRenderer::Vulkan(inner), TtyFramebuffer::Vulkan(fb)) => match mapping {
                    Ok(mapping) => mapping matches TtyTextureMapping::Vulkan(m) && call_ensures(
                        vulkan,
                        (inner, fb),
                        Ok::<VM, EV>(m),
                    ),
                    Err(err) => err matches TtyRendererError::Vulkan(e) && call_ensures(
                        vulkan,
                        (inner, fb),
                        Err::<VM, EV>(e),
                    ),
                },
                _ => false,
            },
    {
        match (self, target) {
            (TtyRenderer::Gles(inner), TtyFramebuffer::Gles(fb)) => match gles(inner, fb) {
                Ok(mapping) => Ok(TtyTextureMapping::Gles(mapping)),
                Err(err) => Err(TtyRendererError::Gles(err)),
            },
            (TtyRenderer::Vulkan(inner), TtyFramebuffer::Vulkan(fb)) => match vulkan(inner, fb) {
                Ok(mapping) => Ok(TtyTextureMapping::Vulkan(mapping)),
                Err(err) => Err(TtyRendererError::Vulkan(err)),
            },
            _ => vstd::pervasive::unreached(),
        }
    }

    /// Reads a texture mapping, which has to be one of the same API.
    pub fn map_texture<
        T,
        GM,
        VM,
        EG,
        EV,
        FG: FnOnce(G, GM) -> Result<T, EG>,
        FV: FnOnce(V, VM) -> Result<T, EV>,
    >(self, mapping: TtyTextureMapping<GM, VM>, gles: FG, vulkan: FV) -> (data: Result<
        T,
        TtyRendererError<EG, EV>,
    >)
        requires
            match (self, mapping) {
                (TtyRenderer::Gles(inner), TtyTextureMapping::Gles(m)) => call_requires(
                    gles,
                    (inner, m),
                ),
                (TtyRenderer::Vulkan(inner), TtyTextureMapping::Vulkan(m)) => call_requires(
                    vulkan,
                    (inner, m),
                ),
                _ => false,
            },
        ensures
            match (self, mapping) {
                (TtyRenderer::Gles(inner), TtyTextureMapping::Gles(m)) => exists|r: Result<T, EG>|
                    #[trigger] call_ensures(gles, (inner, m), r) && gles_result(r, data),
                (TtyRenderer::Vulkan(inner), TtyTextureMapping::Vulkan(m)) => exists|r: Result<T, EV>|
                    #[trigger] call_ensures(vulkan, (inner, m), r) && vulkan_result(r, data),
                _ => false,
            },
    {
        match (self, mapping) {
            (TtyRenderer::Gles(inner), TtyTextureMapping::Gles(m)) => wrap_gles(gles(inner, m)),
            (TtyRenderer::Vulkan(inner), TtyTextureMapping::Vulkan(m)) => wrap_vulkan(
                vulkan(inner, m),
            ),
            _ => vstd::pervasive::unreached(),
        }
    }
}

impl<G, V> TtyGpuManager<G, V> {
    pub fn is_vulkan(&self) -> (vulkan: bool)
        ensures
            vulkan == (*self is Vulkan),
    {
        matches!(self, TtyGpuManager::Vulkan(_))
    }

    pub fn as_mut(&mut self) -> (inner: TtyGpuManager<&mut G, &mut V>)
        ensures
            match (*old(self), inner) {
                (TtyGpuManager::Gles(before), TtyGpuManager::Gles(part)) => {
                    &&& *part == before
                    &&& *final(self) == TtyGpuManager::<G, V>::Gles(*final(part))
                },
                (TtyGpuManager::Vulkan(before), TtyGpuManager::Vulkan(part)) => {
                    &&& *part == before
                    &&& *final(self) == TtyGpuManager::<G, V>::Vulkan(*final(part))
                },
                _ => false,
            },
    {
        match self {
            TtyGpuManager::Gles(inner) => TtyGpuManager::Gles(inner),
            TtyGpuManager::Vulkan(inner) => TtyGpuManager::Vulkan(inner),
        }
    }

    /// Gets a renderer for a single device, which is one of the manager's API.
    pub fn single_renderer<
        GR,
        VR,
        E,
        FG: FnOnce(G) -> Result<GR, E>,
        FV: FnOnce(V) -> Result<VR, E>,
    >(self, gles: FG, vulkan: FV) -> (renderer: Result<TtyRenderer<GR, VR>, E>)
        requires
            match self {
                TtyGpuManager::Gles(gpus) => call_requires(gles, (gpus,)),
                TtyGpuManager::Vulkan(gpus) => call_requires(vulkan, (gpus,)),
            },
        ensures
            match (self, renderer) {
                (TtyGpuManager::Gles(gpus), Ok(TtyRenderer::Gles(r))) => call_ensures(
                    gles,
                    (gpus,),
                    Ok::<GR, E>(r),
                ),
                (TtyGpuManager::Gles(gpus), Err(err)) => call_ensures(
                    gles,
                    (gpus,),
                    Err::<GR, E>(err),
                ),
                (TtyGpuManager::Vulkan(gpus), Ok(TtyRenderer::Vulkan(r))) => call_ensures(
                    vulkan,
                    (gpus,),
                    Ok::<VR, E>(r),
                ),
                (TtyGpuManager::Vulkan(gpus), Err(err)) => call_ensures(
                    vulkan,
                    (gpus,),
                    Err::<VR, E>(err),
                ),
                _ => false,
            },
    {
        match self {
            TtyGpuManager::Gles(gpus) => match gles(gpus) {
                Ok(renderer) => Ok(TtyRenderer::Gles(renderer)),
                Err(err) => Err(err),
            },
            TtyGpuManager::Vulkan(gpus) => match vulkan(gpus) {
                Ok(renderer) => Ok(TtyRenderer::Vulkan(renderer)),
                Err(err) => Err(err),
            },
        }
    }

    /// Gets a renderer that renders on one device for another, which is one of the manager's API.
    pub fn renderer<
        GR,
        VR,
        E,
        FG: FnOnce(G) -> Result<GR, E>,
        FV: FnOnce(V) -> Result<VR, E>,
    >(self, gles: FG, vulkan: FV) -> (renderer: Result<TtyRenderer<GR, VR>, E>)
        requires
            match self {
                TtyGpuManager::Gles(gpus) => call_requires(gles, (gpus,)),
                TtyGpuManager::Vulkan(gpus) => call_requires(vulkan, (gpus,)),
            },
        ensures
            match (self, renderer) {
                (TtyGpuManager::Gles(gpus), Ok(TtyRenderer::Gles(r))) => call_ensures(
                    gles,
                    (gpus,),
                    Ok::<GR, E>(r),
                ),
                (TtyGpuManager::Gles(gpus), Err(err)) => call_ensures(
                    gles,
                    (gpus,),
                    Err::<GR, E>(err),
                ),
                (TtyGpuManager::Vulkan(gpus), Ok(TtyRenderer::Vulkan(r))) => call_ensures(
                    vulkan,
                    (gpus,),
                    Ok::<VR, E>(r),
                ),
                (TtyGpuManager::Vulkan(gpus), Err(err)) => call_ensures(
                    vulkan,
                    (gpus,),
                    Err::<VR, E>(err),
                ),
                _ => false,
            },
    {
        match self {
            TtyGpuManager::Gles(gpus) => match gles(gpus) {
                Ok(renderer) => Ok(TtyRenderer::Gles(renderer)),
                Err(err) => Err(err),
            },
            TtyGpuManager::Vulkan(gpus) => match vulkan(gpus) {
                Ok(renderer) => Ok(TtyRenderer::Vulkan(renderer)),
                Err(err) => Err(err),
            },
        }
    }

    /// Adds a device. That cannot fail on Vulkan.
    pub fn add_node<E, FG: FnOnce(G) -> Result<(), E>, FV: FnOnce(V)>(
        self,
        gles: FG,
        vulkan: FV,
    ) -> (result: Result<(), E>)
        requires
            match self {
                TtyGpuManager::Gles(gpus) => call_requires(gles, (gpus,)),
                TtyGpuManager::Vulkan(gpus) => call_requires(vulkan, (gpus,)),
            },
        ensures
            match self {
                TtyGpuManager::Gles(gpus) => call_ensures(gles, (gpus,), result),
                TtyGpuManager::Vulkan(gpus) => call_ensures(vulkan, (gpus,), ()) && result is Ok,
            },
    {
        match self {
            TtyGpuManager::Gles(gpus) => gles(gpus),
            TtyGpuManager::Vulkan(gpus) => {
                vulkan(gpus);
                Ok(())
            },
        }
    }

    /// Removes a device.
    pub fn remove_node<FG: FnOnce(G), FV: FnOnce(V)>(self, gles: FG, vulkan: FV)
        requires
            match self {
                TtyGpuManager::Gles(gpus) => call_requires(gles, (gpus,)),
                TtyGpuManager::Vulkan(gpus) => call_requires(vulkan, (gpus,)),
            },
        ensures
            match self {
                TtyGpuManager::Gles(gpus) => call_ensures(gles, (gpus,), ()),
                TtyGpuManager::Vulkan(gpus) => call_ensures(vulkan, (gpus,), ()),
            },
    {
        match self {
            TtyGpuManager::Gles(gpus) => gles(gpus),
            TtyGpuManager::Vulkan(gpus) => vulkan(gpus),
        }
    }

    /// Triggers a re-enumeration of the devices, whose result is of no interest.
    pub fn refresh_devices<T, U, FG: FnOnce(G) -> T, FV: FnOnce(V) -> U>(self, gles: FG, vulkan: FV)
        requires
            match self {
                TtyGpuManager::Gles(gpus) => call_requires(gles, (gpus,)),
                TtyGpuManager::Vulkan(gpus) => call_requires(vulkan, (gpus,)),
            },
        ensures
            match self {
                TtyGpuManager::Gles(gpus) => exists|r: T| #[trigger] call_ensures(gles, (gpus,), r),
                TtyGpuManager::Vulkan(gpus) => exists|r: U| #[trigger] call_ensures(vulkan, (gpus,), r),
            },
    {
        match self {
            TtyGpuManager::Gles(gpus) => {
                let _ = gles(gpus);
            },
            TtyGpuManager::Vulkan(gpus) => {
                let _ = vulkan(gpus);
            },
        }
    }

    /// Imports the buffers of a surface early.
    pub fn early_import<E, FG: FnOnce(G) -> Result<(), E>, FV: FnOnce(V) -> Result<(), E>>(
        self,
        gles: FG,
        vulkan: FV,
    ) -> (result: Result<(), E>)
        requires
            match self {
                TtyGpuManager::Gles(gpus) => call_requires(gles, (gpus,)),
                TtyGpuManager::Vulkan(gpus) => call_requires(vulkan, (gpus,)),
            },
        ensures
            match self {
                TtyGpuManager::Gles(gpus) => call_ensures(gles, (gpus,), result),
                TtyGpuManager::Vulkan(gpus) => call_ensures(vulkan, (gpus,), result),
            },
    {
        match self {
            TtyGpuManager::Gles(gpus) => gles(gpus),
            TtyGpuManager::Vulkan(gpus) => vulkan(gpus),
        }
    }
}

/// A wrapped result says what the renderer's own result says: the same value, or the same error,
/// marked with the renderer that it comes from.
pub proof fn law_wrapped_results_keep_their_outcome<T, EG, EV>(
    gles: Result<T, EG>,
    vulkan: Result<T, EV>,
    result: Result<T, TtyRendererError<EG, EV>>,
)
    ensures
        gles_result(gles, result) ==> match (gles, result) {
            (Ok(value), Ok(passed)) => passed == value,
            (Err(err), Err(TtyRendererError::Gles(passed))) => passed == err,
            _ => false,
        },
        vulkan_result(vulkan, result) ==> match (vulkan, result) {
            (Ok(value), Ok(passed)) => passed == value,
            (Err(err), Err(TtyRendererError::Vulkan(passed))) => passed == err,
            _ => false,
        },
{
}

/// What only the GLES renderer can do is done by it, with its outcome, and refused on Vulkan.
pub proof fn law_vulkan_refuses_what_only_gles_can_do<
    G,
    V,
    T,
    EG,
    EV,
    E,
    F: FnOnce(G) -> Result<T, EG>,
    B: FnOnce(G) -> Result<(), E>,
>(
    renderer: TtyRenderer<G, V>,
    operation: F,
    bind: B,
    not_supported: E,
    result: Result<T, TtyRendererError<EG, EV>>,
    bound: Result<(), E>,
    gles: Option<G>,
)
    requires
        call_ensures(TtyRenderer::<G, V>::gles_only::<T, EG, EV, F>, (renderer, operation), result),
        call_ensures(
            TtyRenderer::<G, V>::bind_wl_display::<E, B>,
            (renderer, bind, not_supported),
            bound,
        ),
        call_ensures(TtyRenderer::<G, V>::gles, (renderer,), gles),
    ensures
        renderer is Vulkan ==> result == Err::<T, TtyRendererError<EG, EV>>(
            TtyRendererError::VulkanUnsupported,
        ) && bound == Err::<(), E>(not_supported) && gles is None,
        renderer matches TtyRenderer::Gles(inner) ==> {
            &&& gles == Some(inner)
            &&& call_ensures(bind, (inner,), bound)
            &&& match result {
                Ok(value) => call_ensures(operation, (inner,), Ok::<T, EG>(value)),
                Err(TtyRendererError::Gles(err)) => call_ensures(
                    operation,
                    (inner,),
                    Err::<T, EG>(err),
                ),
                _ => false,
            }
        },
{
}

/// The result of an operation is the value or the error of the renderer that it was done with, and
/// of no other.
pub proof fn law_operations_have_the_outcome_of_their_renderer<
    G,
    V,
    T,
    EG,
    EV,
    FG: FnOnce(G) -> Result<T, EG>,
    FV: FnOnce(V) -> Result<T, EV>,
>(
    renderer: TtyRenderer<G, V>,
    frame: TtyFrame<G, V>,
    gles: FG,
    vulkan: FV,
    result: Result<T, TtyRendererError<EG, EV>>,
    drawn: Result<T, TtyRendererError<EG, EV>>,
)
    requires
        call_ensures(
            TtyRenderer::<G, V>::try_with::<T, EG, EV, FG, FV>,
            (renderer, gles, vulkan),
            result,
        ),
        call_ensures(
            TtyFrame::<G, V>::try_with::<T, EG, EV, FG, FV>,
            (frame, gles, vulkan),
            drawn,
        ),
    ensures
        match (renderer, result) {
            (TtyRenderer::Gles(inner), Ok(value)) => call_ensures(
                gles,
                (inner,),
                Ok::<T, EG>(value),
            ),
            (TtyRenderer::Gles(inner), Err(TtyRendererError::Gles(err))) => call_ensures(
                gles,
                (inner,),
                Err::<T, EG>(err),
            ),
            (TtyRenderer::Vulkan(inner), Ok(value)) => call_ensures(
                vulkan,
                (inner,),
                Ok::<T, EV>(value),
            ),
            (TtyRenderer::Vulkan(inner), Err(TtyRendererError::Vulkan(err))) => call_ensures(
                vulkan,
                (inner,),
                Err::<T, EV>(err),
            ),
            _ => false,
        },
        match (frame, drawn) {
            (TtyFrame::Gles(inner), Ok(value)) => call_ensures(gles, (inner,), Ok::<T, EG>(value)),
            (TtyFrame::Gles(inner), Err(TtyRendererError::Gles(err))) => call_ensures(
                gles,
                (inner,),
                Err::<T, EG>(err),
            ),
            (TtyFrame::Vulkan(inner), Ok(value)) => call_ensures(
                vulkan,
                (inner,),
                Ok::<T, EV>(value),
            ),
            (TtyFrame::Vulkan(inner), Err(TtyRendererError::Vulkan(err))) => call_ensures(
                vulkan,
                (inner,),
                Err::<T, EV>(err),
            ),
            _ => false,
        },
{
}

} // verus!
