//! What the rendering code needs from a renderer.

use vstd::prelude::*;

use crate::backend::tty_renderer::{TtyFrame, TtyOffscreen, TtyRenderer};
use crate::render_helpers::blend::renderer::{CaptureBlend, GlesBlend, VulkanBlend};

verus! {

/// Trait with our main renderer requirements to save on the typing. `GT`, `VT` and `MT` are the
/// textures of the GLES and the Vulkan renderer, and those that exist on several GPUs.
pub trait NiriRenderer<GT, VT, MT>:
    AsGlesRenderer + AsVulkanRenderer + HasOffscreen<GT, VT, MT> + CaptureBlend {

}

impl<R, GT, VT, MT> NiriRenderer<GT, VT, MT> for R where
    R: AsGlesRenderer + AsVulkanRenderer + HasOffscreen<GT, VT, MT> + CaptureBlend,
 {

}

/// Renderer bounds needed by the generic capture helpers (screenshots, screencopy, screencasting):
/// offscreen render targets of the renderer's own texture type plus the SDR-capture blend control.
pub trait NiriCaptureRenderer<GT, VT, MT>:
    NiriRenderer<GT, VT, MT> + HasOffscreen<GT, VT, MT> + CaptureBlend {

}

impl<R, GT, VT, MT> NiriCaptureRenderer<GT, VT, MT> for R where
    R: NiriRenderer<GT, VT, MT> + HasOffscreen<GT, VT, MT> + CaptureBlend,
 {

}

/// Trait for getting the underlying GLES renderer, if any.
///
/// Returns `None` for the Vulkan renderer; GLES-specific functionality (custom shaders, offscreen
/// effects) degrades gracefully in that case.
pub trait AsGlesRenderer: Sized {
    type Gles;

    /// The underlying GLES renderer.
    spec fn gles_part(self) -> Option<Self::Gles>;

    /// The renderer with another GLES renderer in place of its own.
    spec fn with_gles_part(self, gles: Self::Gles) -> Self;

    fn as_gles_renderer(&mut self) -> (gles: Option<&mut Self::Gles>)
        ensures
            match gles {
                Some(gles) => {
                    &&& old(self).gles_part() == Some(*gles)
                    &&& *final(self) == old(self).with_gles_part(*final(gles))
                },
                None => {
                    &&& old(self).gles_part() is None
                    &&& *final(self) == *old(self)
                },
            },
    ;
}

impl<P> AsGlesRenderer for GlesBlend<P> {
    type Gles = GlesBlend<P>;

    open spec fn gles_part(self) -> Option<GlesBlend<P>> {
        Some(self)
    }

    open spec fn with_gles_part(self, gles: GlesBlend<P>) -> Self {
        gles
    }

    fn as_gles_renderer(&mut self) -> (gles: Option<&mut GlesBlend<P>>) {
        Some(self)
    }
}

impl<G, V> AsGlesRenderer for TtyRenderer<G, V> {
    type Gles = G;

    open spec fn gles_part(self) -> Option<G> {
        match self {
            TtyRenderer::Gles(renderer) => Some(renderer),
            TtyRenderer::Vulkan(_) => None,
        }
    }

    open spec fn with_gles_part(self, gles: G) -> Self {
        TtyRenderer::Gles(gles)
    }

    fn as_gles_renderer(&mut self) -> (gles: Option<&mut G>) {
        match self {
            TtyRenderer::Gles(renderer) => Some(renderer),
            TtyRenderer::Vulkan(_) => None,
        }
    }
}

/// Trait for getting the underlying GLES frame, if any.
pub trait AsGlesFrame: Sized {
    type Gles;

    /// The underlying GLES frame.
    spec fn gles_part(self) -> Option<Self::Gles>;

    /// The frame with another GLES frame in place of its own.
    spec fn with_gles_part(self, gles: Self::Gles) -> Self;

    fn as_gles_frame(&mut self) -> (gles: Option<&mut Self::Gles>)
        ensures
            match gles {
                Some(gles) => {
                    &&& old(self).gles_part() == Some(*gles)
                    &&& *final(self) == old(self).with_gles_part(*final(gles))
                },
                None => {
                    &&& old(self).gles_part() is None
                    &&& *final(self) == *old(self)
                },
            },
    ;
}

impl<P> AsGlesFrame for GlesBlend<P> {
    type Gles = GlesBlend<P>;

    open spec fn gles_part(self) -> Option<GlesBlend<P>> {
        Some(self)
    }

    open spec fn with_gles_part(self, gles: GlesBlend<P>) -> Self {
        gles
    }

    fn as_gles_frame(&mut self) -> (gles: Option<&mut GlesBlend<P>>) {
        Some(self)
    }
}

impl<G, V> AsGlesFrame for TtyFrame<G, V> {
    type Gles = G;

    open spec fn gles_part(self) -> Option<G> {
        match self {
            TtyFrame::Gles(frame) => Some(frame),
            TtyFrame::Vulkan(_) => None,
        }
    }

    open spec fn with_gles_part(self, gles: G) -> Self {
        TtyFrame::Gles(gles)
    }

    fn as_gles_frame(&mut self) -> (gles: Option<&mut G>) {
        match self {
            TtyFrame::Gles(frame) => Some(frame),
            TtyFrame::Vulkan(_) => None,
        }
    }
}

/// Trait for getting the underlying Vulkan renderer, if any.
pub trait AsVulkanRenderer: Sized {
    type Vulkan;

    /// The underlying Vulkan renderer.
    spec fn vulkan_part(self) -> Option<Self::Vulkan>;

    /// The renderer with another Vulkan renderer in place of its own.
    spec fn with_vulkan_part(self, vulkan: Self::Vulkan) -> Self;

    fn as_vulkan_renderer(&mut self) -> (vulkan: Option<&mut Self::Vulkan>)
        ensures
            match vulkan {
                Some(vulkan) => {
                    &&& old(self).vulkan_part() == Some(*vulkan)
                    &&& *final(self) == old(self).with_vulkan_part(*final(vulkan))
                },
                None => {
                    &&& old(self).vulkan_part() is None
                    &&& *final(self) == *old(self)
                },
            },
    ;
}

impl<P> AsVulkanRenderer for GlesBlend<P> {
    type Vulkan = VulkanBlend;

    open spec fn vulkan_part(self) -> Option<VulkanBlend> {
        None
    }

    open spec fn with_vulkan_part(self, vulkan: VulkanBlend) -> Self {
        self
    }

    fn as_vulkan_renderer(&mut self) -> (vulkan: Option<&mut VulkanBlend>) {
        None
    }
}

impl<G, V> AsVulkanRenderer for TtyRenderer<G, V> {
    type Vulkan = V;

    open spec fn vulkan_part(self) -> Option<V> {
        match self {
            TtyRenderer::Gles(_) => None,
            TtyRenderer::Vulkan(renderer) => Some(renderer),
        }
    }

    open spec fn with_vulkan_part(self, vulkan: V) -> Self {
        TtyRenderer::Vulkan(vulkan)
    }

    fn as_vulkan_renderer(&mut self) -> (vulkan: Option<&mut V>) {
        match self {
            TtyRenderer::Gles(_) => None,
            TtyRenderer::Vulkan(renderer) => Some(renderer),
        }
    }
}

/// The offscreen render target texture type of a renderer.
pub trait HasOffscreen<GT, VT, MT> {
    type Offscreen;

    /// The texture as the renderer-agnostic enum.
    spec fn wrapped(texture: Self::Offscreen) -> TtyOffscreen<GT, VT, MT>;

    /// Wraps the renderer's offscreen texture into the renderer-agnostic enum.
    fn wrap_offscreen(texture: Self::Offscreen) -> (wrapped: TtyOffscreen<GT, VT, MT>)
        ensures
            wrapped == Self::wrapped(texture),
    ;

    /// Unwraps the renderer-agnostic enum back into this renderer's texture type.
    fn unwrap_offscreen(texture: &mut TtyOffscreen<GT, VT, MT>) -> (inner: Option<
        &mut Self::Offscreen,
    >)
        ensures
            match inner {
                Some(inner) => {
                    &&& *old(texture) == Self::wrapped(*inner)
                    &&& *final(texture) == Self::wrapped(*final(inner))
                },
                None => {
                    &&& *final(texture) == *old(texture)
                    &&& forall|own: Self::Offscreen| *old(texture) != #[trigger] Self::wrapped(own)
                },
            },
    ;
}

impl<P, GT, VT, MT> HasOffscreen<GT, VT, MT> for GlesBlend<P> {
    type Offscreen = GT;

    open spec fn wrapped(texture: GT) -> TtyOffscreen<GT, VT, MT> {
        TtyOffscreen::Gles(texture)
    }

    fn wrap_offscreen(texture: GT) -> (wrapped: TtyOffscreen<GT, VT, MT>) {
        TtyOffscreen::Gles(texture)
    }

    fn unwrap_offscreen(texture: &mut TtyOffscreen<GT, VT, MT>) -> (inner: Option<&mut GT>) {
        match texture {
            TtyOffscreen::Gles(texture) => Some(texture),
            _ => None,
        }
    }
}

impl<G, V, GT, VT, MT> HasOffscreen<GT, VT, MT> for TtyRenderer<G, V> {
    type Offscreen = TtyOffscreen<GT, VT, MT>;

    open spec fn wrapped(texture: TtyOffscreen<GT, VT, MT>) -> TtyOffscreen<GT, VT, MT> {
        texture
    }

    fn wrap_offscreen(texture: TtyOffscreen<GT, VT, MT>) -> (wrapped: TtyOffscreen<GT, VT, MT>) {
        texture
    }

    fn unwrap_offscreen(texture: &mut TtyOffscreen<GT, VT, MT>) -> (inner: Option<
        &mut TtyOffscreen<GT, VT, MT>,
    >) {
        Some(texture)
    }
}

/// A renderer of the TTY backend is either GLES or Vulkan, and gives out the one it is. What is done
/// to that stays in the renderer. The GLES renderer itself is GLES only.
pub proof fn law_renderers_give_out_what_they_are<G, V, P>(
    renderer: TtyRenderer<G, V>,
    gles: G,
    vulkan: V,
    own: GlesBlend<P>,
)
    ensures
        match renderer {
            TtyRenderer::Gles(part) => {
                &&& AsGlesRenderer::gles_part(renderer) == Some(part)
                &&& AsVulkanRenderer::vulkan_part(renderer) is None
                &&& AsGlesRenderer::with_gles_part(renderer, gles) == TtyRenderer::<G, V>::Gles(gles)
            },
            TtyRenderer::Vulkan(part) => {
                &&& AsVulkanRenderer::vulkan_part(renderer) == Some(part)
                &&& AsGlesRenderer::gles_part(renderer) is None
                &&& AsVulkanRenderer::with_vulkan_part(renderer, vulkan) == TtyRenderer::<
                    G,
                    V,
                >::Vulkan(vulkan)
            },
        },
        AsGlesRenderer::gles_part(own) == Some(own),
        AsVulkanRenderer::vulkan_part(own) is None,
{
}

/// A frame of the TTY backend gives out the GLES frame if it is one, and what is done to that stays
/// in the frame. The frame of the GLES renderer is one itself.
pub proof fn law_frames_give_out_what_they_are<G, V, P>(
    frame: TtyFrame<G, V>,
    gles: G,
    own: GlesBlend<P>,
    other: GlesBlend<P>,
)
    ensures
        match frame {
            TtyFrame::Gles(part) => {
                &&& AsGlesFrame::gles_part(frame) == Some(part)
                &&& AsGlesFrame::with_gles_part(frame, gles) == TtyFrame::<G, V>::Gles(gles)
            },
            TtyFrame::Vulkan(_) => AsGlesFrame::gles_part(frame) is None,
        },
        AsGlesFrame::gles_part(own) == Some(own),
        AsGlesFrame::with_gles_part(own, other) == other,
        AsGlesRenderer::with_gles_part(own, other) == other,
{
}

/// Offscreen textures of the GLES renderer are GLES textures, and those of the TTY backend are
/// whatever they are. Unwrapping gives back what was wrapped, and only that.
pub proof fn law_offscreen_textures_can_be_unwrapped<G, V, P, GT, VT, MT>(
    texture: GT,
    other: GT,
    any: TtyOffscreen<GT, VT, MT>,
)
    ensures
        <GlesBlend<P> as HasOffscreen<GT, VT, MT>>::wrapped(texture) == TtyOffscreen::<
            GT,
            VT,
            MT,
        >::Gles(texture),
        <GlesBlend<P> as HasOffscreen<GT, VT, MT>>::wrapped(texture) == <GlesBlend<
            P,
        > as HasOffscreen<GT, VT, MT>>::wrapped(other) ==> texture == other,
        <TtyRenderer<G, V> as HasOffscreen<GT, VT, MT>>::wrapped(any) == any,
{
}

} // verus!
