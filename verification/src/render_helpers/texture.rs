//! Texture buffers and the render elements that show them.

use vstd::prelude::*;

use crate::backend::tty_renderer::{RenderApi, TtyOffscreen};
use crate::render_helpers::effect_buffer::{CommitCounter, ContextId};
use crate::utils::geometry::{FractionalScale, LogicalCoord, Point, Rectangle, Size, Transform};

verus! {

/// A texture with a fractional scale.
#[derive(Debug)]
pub struct TextureBuffer<T> {
    pub id: u64,
    pub commit_counter: CommitCounter,
    /// The renderer context that the texture belongs to.
    pub renderer_context_id: ContextId,
    pub texture: T,
    /// Size of the texture in pixels.
    pub size: Size<i32>,
    pub scale: FractionalScale,
    pub transform: Transform,
    pub opaque_regions: Vec<Rectangle<i32>>,
}

/// The contents of a memory buffer that a texture is made from.
#[derive(Debug)]
pub struct MemoryBuffer<F> {
    pub data: Vec<u8>,
    pub format: F,
    pub size: Size<i32>,
    pub scale: FractionalScale,
    pub transform: Transform,
}

/// Whether an element is a cursor, a candidate for direct scanout, or neither.
#[derive(Debug, Clone, Copy, PartialEq, Eq, Structural)]
pub enum Kind {
    Cursor,
    ScanoutCandidate,
    Unspecified,
}

/// Render element for a [`TextureBuffer`]. `A` is the opacity.
#[derive(Debug)]
pub struct TextureRenderElement<T, A> {
    pub buffer: TextureBuffer<T>,
    pub location: Point<LogicalCoord>,
    pub alpha: A,
    /// The part of the texture that is shown; all of it by default.
    pub src: Option<Rectangle<LogicalCoord>>,
    /// The size at which it is shown; that of the shown part by default.
    pub size: Option<Size<LogicalCoord>>,
    pub kind: Kind,
}

/// Render element for a [`TextureBuffer`] of the universal [`TtyOffscreen`] texture enum.
///
/// Draws with both the raw GLES renderer and either TTY renderer variant, matching the texture arm
/// to the frame. Mismatched combinations (e.g. a texture captured on a different backend) skip
/// drawing.
#[derive(Debug)]
pub struct UniversalTextureRenderElement<G, V, M, A>(
    pub TextureRenderElement<TtyOffscreen<G, V, M>, A>,
);

/// How a universal texture is drawn into a frame.
#[derive(Debug, Clone, Copy, PartialEq, Eq)]
pub enum UniversalDraw<G, V, M> {
    /// With the frame itself, whatever its API.
    Frame(M),
    /// With the raw GLES frame.
    Gles(G),
    /// With the raw Vulkan frame.
    Vulkan(V),
    /// Not at all: the texture does not match the renderer.
    Skip,
}

impl<T> TextureBuffer<T> {
    /// Size of the texture on the surface: that of its pixels, turned by the transform and divided
    /// by the scale.
    pub open spec fn logical_size_spec(self) -> Size<LogicalCoord> {
        let size = if self.transform.exchanges_axes() {
            (Size { w: self.size.h, h: self.size.w })
        } else {
            self.size
        };
        Size {
            w: LogicalCoord::of_pixels(size.w, self.scale),
            h: LogicalCoord::of_pixels(size.h, self.scale),
        }
    }

    /// A buffer for a texture of the given size, which belongs to the given renderer context.
    pub fn from_texture(
        id: u64,
        renderer_context_id: ContextId,
        texture: T,
        size: Size<i32>,
        scale: FractionalScale,
        transform: Transform,
        opaque_regions: Vec<Rectangle<i32>>,
    ) -> (buffer: Self)
        ensures
            buffer == (TextureBuffer {
                id,
                commit_counter: CommitCounter(0),
                renderer_context_id,
                texture,
                size,
                scale,
                transform,
                opaque_regions,
            }),
    {
        TextureBuffer {
            id,
            commit_counter: CommitCounter(0),
            renderer_context_id,
            texture,
            size,
            scale,
            transform,
            opaque_regions,
        }
    }

    /// A buffer for a texture that `import` makes from memory.
    pub fn from_memory<F, E, I: FnOnce(&Vec<u8>, F, Size<i32>, bool) -> Result<T, E>>(
        id: u64,
        renderer_context_id: ContextId,
        data: &Vec<u8>,
        format: F,
        size: Size<i32>,
        flipped: bool,
        scale: FractionalScale,
        transform: Transform,
        opaque_regions: Vec<Rectangle<i32>>,
        import: I,
    ) -> (buffer: Result<Self, E>)
        requires
            call_requires(import, (data, format, size, flipped)),
        ensures
            match buffer {
                Ok(buffer) => {
                    &&& call_ensures(
                        import,
                        (data, format, size, flipped),
                        Ok::<T, E>(buffer.texture),
                    )
                    &&& buffer == (TextureBuffer {
                        id,
                        commit_counter: CommitCounter(0),
                        renderer_context_id,
                        texture: buffer.texture,
                        size,
                        scale,
                        transform,
                        opaque_regions,
                    })
                },
                Err(err) => call_ensures(
                    import,
                    (data, format, size, flipped),
                    Err::<T, E>(err),
                ),
            },
    {
        match import(data, format, size, flipped) {
            Ok(texture) => Ok(
                TextureBuffer::from_texture(
                    id,
                    renderer_context_id,
                    texture,
                    size,
                    scale,
                    transform,
                    opaque_regions,
                ),
            ),
            Err(err) => Err(err),
        }
    }

    /// A buffer for a texture that `import` makes from a memory buffer, upright and without opaque
    /// regions.
    pub fn from_memory_buffer<F: Copy, E, I: FnOnce(&Vec<u8>, F, Size<i32>, bool) -> Result<T, E>>(
        id: u64,
        renderer_context_id: ContextId,
        memory: &MemoryBuffer<F>,
        import: I,
    ) -> (buffer: Result<Self, E>)
        requires
            call_requires(import, (&memory.data, memory.format, memory.size, false)),
        ensures
            match buffer {
                Ok(buffer) => {
                    &&& call_ensures(
                        import,
                        (&memory.data, memory.format, memory.size, false),
                        Ok::<T, E>(buffer.texture),
                    )
                    &&& buffer.id == id
                    &&& buffer.commit_counter == CommitCounter(0)
                    &&& buffer.renderer_context_id == renderer_context_id
                    &&& buffer.size == memory.size
                    &&& buffer.scale == memory.scale
                    &&& buffer.transform == memory.transform
                    &&& buffer.opaque_regions@.len() == 0
                },
                Err(err) => call_ensures(
                    import,
                    (&memory.data, memory.format, memory.size, false),
                    Err::<T, E>(err),
                ),
            },
    {
        TextureBuffer::from_memory(
            id,
            renderer_context_id,
            &memory.data,
            memory.format,
            memory.size,
            false,
            memory.scale,
            memory.transform,
            Vec::new(),
            import,
        )
    }

    pub fn texture(&self) -> (texture: &T)
        ensures
            *texture == self.texture,
    {
        &self.texture
    }

    /// Converts the texture type, keeping all buffer metadata.
    pub fn map_texture<U, F: FnOnce(T) -> U>(self, f: F) -> (mapped: TextureBuffer<U>)
        requires
            call_requires(f, (self.texture,)),
        ensures
            call_ensures(f, (self.texture,), mapped.texture),
            mapped == (TextureBuffer {
                id: self.id,
                commit_counter: self.commit_counter,
                renderer_context_id: self.renderer_context_id,
                texture: mapped.texture,
                size: self.size,
                scale: self.scale,
                transform: self.transform,
                opaque_regions: self.opaque_regions,
            }),
    {
        TextureBuffer {
            id: self.id,
            commit_counter: self.commit_counter,
            renderer_context_id: self.renderer_context_id,
            texture: f(self.texture),
            size: self.size,
            scale: self.scale,
            transform: self.transform,
            opaque_regions: self.opaque_regions,
        }
    }

    pub fn texture_scale(&self) -> (scale: FractionalScale)
        ensures
            scale == self.scale,
    {
        self.scale
    }

    pub fn set_texture_scale(&mut self, scale: FractionalScale)
        ensures
            *final(self) == (TextureBuffer { scale, ..*old(self) }),
    {
        self.scale = scale;
    }

    pub fn texture_transform(&self) -> (transform: Transform)
        ensures
            transform == self.transform,
    {
        self.transform
    }

    pub fn set_texture_transform(&mut self, transform: Transform)
        ensures
            *final(self) == (TextureBuffer { transform, ..*old(self) }),
    {
        self.transform = transform;
    }

    pub fn logical_size(&self) -> (size: Size<LogicalCoord>)
        ensures
            size == self.logical_size_spec(),
    {
        let size: Size<i32> = self.transform.transform_size(self.size);
        Size {
            w: LogicalCoord::from_pixels(size.w, self.scale),
            h: LogicalCoord::from_pixels(size.h, self.scale),
        }
    }
}

impl<T, A> TextureRenderElement<T, A> {
    pub open spec fn logical_size_spec(self) -> Size<LogicalCoord> {
        match (self.size, self.src) {
            (Some(size), _) => size,
            (None, Some(src)) => src.size,
            (None, None) => self.buffer.logical_size_spec(),
        }
    }

    pub open spec fn logical_src_spec(self) -> Rectangle<LogicalCoord> {
        match self.src {
            Some(src) => src,
            None => Rectangle {
                loc: Point {
                    x: LogicalCoord { num: 0, den: 1 },
                    y: LogicalCoord { num: 0, den: 1 },
                },
                size: self.logical_size_spec(),
            },
        }
    }

    pub fn from_texture_buffer(
        buffer: TextureBuffer<T>,
        location: Point<LogicalCoord>,
        alpha: A,
        src: Option<Rectangle<LogicalCoord>>,
        size: Option<Size<LogicalCoord>>,
        kind: Kind,
    ) -> (element: Self)
        ensures
            element == (TextureRenderElement { buffer, location, alpha, src, size, kind }),
    {
        TextureRenderElement { buffer, location, alpha, src, size, kind }
    }

    pub fn buffer(&self) -> (buffer: &TextureBuffer<T>)
        ensures
            *buffer == self.buffer,
    {
        &self.buffer
    }

    /// The size at which the texture is shown.
    pub fn logical_size(&self) -> (size: Size<LogicalCoord>)
        ensures
            size == self.logical_size_spec(),
    {
        if let Some(size) = self.size {
            return size;
        }
        if let Some(src) = self.src {
            return src.size;
        }
        self.buffer.logical_size()
    }

    /// The part of the texture that is shown.
    pub fn logical_src(&self) -> (src: Rectangle<LogicalCoord>)
        ensures
            src == self.logical_src_spec(),
    {
        match self.src {
            Some(src) => src,
            None => Rectangle {
                loc: Point {
                    x: LogicalCoord { num: 0, den: 1 },
                    y: LogicalCoord { num: 0, den: 1 },
                },
                size: self.logical_size(),
            },
        }
    }

    /// Whether a frame of the given renderer context can draw the texture. A texture from a
    /// different renderer is not drawn.
    pub fn can_draw(&self, frame_context: ContextId) -> (can_draw: bool)
        ensures
            can_draw == (frame_context == self.buffer.renderer_context_id),
    {
        frame_context == self.buffer.renderer_context_id
    }
}

impl<G: Copy, V: Copy, M: Copy, A> UniversalTextureRenderElement<G, V, M, A> {
    /// How the raw GLES renderer draws the texture: only if it is one of its own.
    pub fn draw_gles(&self) -> (texture: Option<G>)
        ensures
            texture == match self.0.buffer.texture {
                TtyOffscreen::Gles(texture) => Some(texture),
                _ => None,
            },
    {
        match self.0.buffer.texture {
            TtyOffscreen::Gles(texture) => Some(texture),
            _ => None,
        }
    }

    /// How a frame of the TTY backend draws the texture.
    pub fn draw_tty(&self, frame: RenderApi) -> (draw: UniversalDraw<G, V, M>)
        ensures
            draw == match (frame, self.0.buffer.texture) {
                (_, TtyOffscreen::Multi(texture)) => UniversalDraw::Frame(texture),
                (RenderApi::Gles, TtyOffscreen::Gles(texture)) => UniversalDraw::Gles(texture),
                (RenderApi::Vulkan, TtyOffscreen::Vulkan(texture)) => UniversalDraw::Vulkan(
                    texture,
                ),
                _ => UniversalDraw::Skip,
            },
    {
        match (frame, self.0.buffer.texture) {
            (_, TtyOffscreen::Multi(texture)) => UniversalDraw::Frame(texture),
            (RenderApi::Gles, TtyOffscreen::Gles(texture)) => UniversalDraw::Gles(texture),
            (RenderApi::Vulkan, TtyOffscreen::Vulkan(texture)) => UniversalDraw::Vulkan(texture),
            _ => UniversalDraw::Skip,
        }
    }
}

/// A quarter turn of the buffer swaps the sides of its logical size, and two of them give it back.
pub proof fn law_quarter_turns_swap_logical_sides<T>(buffer: TextureBuffer<T>, turned: Transform)
    ensures
        ({
            let size = buffer.logical_size_spec();
            let after = (TextureBuffer { transform: turned, ..buffer }).logical_size_spec();
            if turned.exchanges_axes() == buffer.transform.exchanges_axes() {
                after == size
            } else {
                after.w == size.h && after.h == size.w
            }
        }),
{
}

/// The logical size of a buffer, times its scale of `n120 / 120`, is its size in pixels, with the
/// sides exchanged by quarter turns.
pub proof fn law_logical_size_is_that_of_the_pixels<T>(buffer: TextureBuffer<T>)
    ensures
        ({
            let size = buffer.logical_size_spec();
            let turned = match buffer.transform {
                Transform::Normal | Transform::Rotated180 => false,
                Transform::Flipped | Transform::Flipped180 => false,
                Transform::Rotated90 | Transform::Rotated270 => true,
                Transform::Flipped90 | Transform::Flipped270 => true,
            };
            let (w, h) = if turned {
                (buffer.size.h, buffer.size.w)
            } else {
                (buffer.size.w, buffer.size.h)
            };
            &&& size.w.num * buffer.scale.n120 == w * 120 * size.w.den
            &&& size.h.num * buffer.scale.n120 == h * 120 * size.h.den
            &&& buffer.scale.n120 > 0 ==> size.w.den > 0 && size.h.den > 0
        }),
{
    let w = buffer.logical_size_spec().w;
    let h = buffer.logical_size_spec().h;
    assert(w.den == buffer.scale.n120 && h.den == buffer.scale.n120);
}

/// An element is shown at the size it is given, else at that of the part it shows, else at that of
/// the whole buffer. It shows the part it is given, else everything from the top left corner on.
pub proof fn law_elements_show_their_part<T, A>(element: TextureRenderElement<T, A>)
    ensures
        element.size is Some ==> element.logical_size_spec() == element.size->0,
        element.size is None && element.src is Some ==> element.logical_size_spec()
            == element.src->0.size,
        element.size is None && element.src is None ==> element.logical_size_spec()
            == element.buffer.logical_size_spec(),
        element.src is Some ==> element.logical_src_spec() == element.src->0,
        element.src is None ==> {
            let src = element.logical_src_spec();
            &&& src.loc.x.num == 0 && src.loc.y.num == 0
            &&& src.loc.x.den > 0 && src.loc.y.den > 0
            &&& src.size == element.logical_size_spec()
        },
{
}

/// A texture is drawn by the renderer it belongs to, and by no other: one on several GPUs by every
/// frame of the TTY backend, and the others by frames of their API.
pub proof fn law_textures_are_drawn_by_their_renderer<G: Copy, V: Copy, M: Copy, A>(
    element: UniversalTextureRenderElement<G, V, M, A>,
    gles: Option<G>,
    on_gles: UniversalDraw<G, V, M>,
    on_vulkan: UniversalDraw<G, V, M>,
)
    requires
        call_ensures(UniversalTextureRenderElement::<G, V, M, A>::draw_gles, (&element,), gles),
        call_ensures(
            UniversalTextureRenderElement::<G, V, M, A>::draw_tty,
            (&element, RenderApi::Gles),
            on_gles,
        ),
        call_ensures(
            UniversalTextureRenderElement::<G, V, M, A>::draw_tty,
            (&element, RenderApi::Vulkan),
            on_vulkan,
        ),
    ensures
        match element.0.buffer.texture {
            TtyOffscreen::Gles(texture) => {
                &&& gles == Some(texture)
                &&& on_gles == UniversalDraw::<G, V, M>::Gles(texture)
                &&& on_vulkan is Skip
            },
            TtyOffscreen::Vulkan(texture) => {
                &&& gles is None
                &&& on_gles is Skip
                &&& on_vulkan == UniversalDraw::<G, V, M>::Vulkan(texture)
            },
            TtyOffscreen::Multi(texture) => {
                &&& gles is None
                &&& on_gles == UniversalDraw::<G, V, M>::Frame(texture)
                &&& on_vulkan == on_gles
            },
        },
{
}

/// A texture is drawn only in frames of the renderer context that it comes from.
pub proof fn law_textures_stay_in_their_context<T, A>(
    element: TextureRenderElement<T, A>,
    frame_context: ContextId,
    can_draw: bool,
)
    requires
        call_ensures(
            TextureRenderElement::<T, A>::can_draw,
            (&element, frame_context),
            can_draw,
        ),
    ensures
        can_draw <==> element.buffer.renderer_context_id.0 == frame_context.0,
{
}

/// A texture from a memory buffer is imported upright from the data in its format and size, is
/// shown as large as its pixels say, and belongs to the context that it was imported in.
pub proof fn law_memory_buffers_are_imported_as_they_are<
    T,
    F: Copy,
    E,
    I: FnOnce(&Vec<u8>, F, Size<i32>, bool) -> Result<T, E>,
>(
    id: u64,
    context: ContextId,
    memory: MemoryBuffer<F>,
    import: I,
    buffer: Result<TextureBuffer<T>, E>,
)
    requires
        call_ensures(
            TextureBuffer::<T>::from_memory_buffer::<F, E, I>,
            (id, context, &memory, import),
            buffer,
        ),
    ensures
        match buffer {
            Ok(buffer) => {
                let turned = memory.transform.exchanges_axes();
                let size = buffer.logical_size_spec();
                &&& call_ensures(
                    import,
                    (&memory.data, memory.format, memory.size, false),
                    Ok::<T, E>(buffer.texture),
                )
                &&& buffer.renderer_context_id == context
                &&& size.w == LogicalCoord::of_pixels(
                    if turned { memory.size.h } else { memory.size.w },
                    memory.scale,
                )
                &&& size.h == LogicalCoord::of_pixels(
                    if turned { memory.size.w } else { memory.size.h },
                    memory.scale,
                )
                &&& buffer.opaque_regions@ =~= Seq::empty()
            },
            Err(err) => call_ensures(
                import,
                (&memory.data, memory.format, memory.size, false),
                Err::<T, E>(err),
            ),
        },
{
}

/// Importing from memory hands the data over as it is described, and makes the buffer that the
/// imported texture itself would make.
pub proof fn law_imported_textures_are_textures<
    T,
    F,
    E,
    I: FnOnce(&Vec<u8>, F, Size<i32>, bool) -> Result<T, E>,
>(
    id: u64,
    context: ContextId,
    data: Vec<u8>,
    format: F,
    size: Size<i32>,
    flipped: bool,
    scale: FractionalScale,
    transform: Transform,
    opaque_regions: Vec<Rectangle<i32>>,
    import: I,
    imported: TextureBuffer<T>,
    made: TextureBuffer<T>,
)
    requires
        call_ensures(
            TextureBuffer::<T>::from_memory::<F, E, I>,
            (id, context, &data, format, size, flipped, scale, transform, opaque_regions, import),
            Ok(imported),
        ),
        call_ensures(
            TextureBuffer::<T>::from_texture,
            (id, context, imported.texture, size, scale, transform, opaque_regions),
            made,
        ),
    ensures
        call_ensures(import, (&data, format, size, flipped), Ok::<T, E>(imported.texture)),
        imported == made,
        made.renderer_context_id == context && made.id == id,
        made.size == size && made.scale == scale && made.transform == transform,
        made.opaque_regions == opaque_regions && made.commit_counter == CommitCounter(0),
{
}

/// Converting the texture changes nothing about the buffer: its size on the surface, its damage
/// tracking and its context stay.
pub proof fn law_mapping_keeps_the_buffer<T, U, F: FnOnce(T) -> U>(
    buffer: TextureBuffer<T>,
    f: F,
    mapped: TextureBuffer<U>,
)
    requires
        call_ensures(TextureBuffer::<T>::map_texture::<U, F>, (buffer, f), mapped),
    ensures
        call_ensures(f, (buffer.texture,), mapped.texture),
        mapped.logical_size_spec() == buffer.logical_size_spec(),
        mapped.id == buffer.id && mapped.commit_counter == buffer.commit_counter,
        mapped.renderer_context_id == buffer.renderer_context_id,
        mapped.opaque_regions == buffer.opaque_regions,
        mapped.transform == buffer.transform && mapped.scale == buffer.scale,
{
}

} // verus!
