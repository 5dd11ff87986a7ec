//! Offscreen buffers that background effects are drawn from, with an optional blur.
//!
//! Preparing and rendering an effect buffer alternates decisions with work on the GPU, which is
//! handed in as functions.

use vstd::prelude::*;
use vstd::std_specs::cmp::PartialEqSpec;

use crate::backend::tty_renderer::{RenderApi, TtyOffscreen};
use crate::utils::geometry::{FractionalScale, LogicalCoord, Size};

verus! {

/// Counts the changes of an element's contents.
#[derive(Debug, Clone, Copy, PartialEq, Eq, Structural)]
pub struct CommitCounter(pub usize);

impl CommitCounter {
    /// The counter after one more change. It wraps around.
    pub open spec fn next(self) -> CommitCounter {
        CommitCounter(
            if self.0 == usize::MAX {
                0
            } else {
                (self.0 + 1) as usize
            },
        )
    }

    pub fn increment(&mut self)
        ensures
            *final(self) == old(self).next(),
    {
        self.0 = if self.0 == usize::MAX {
            0
        } else {
            self.0 + 1
        };
    }
}

/// Contents for one frame, typed for the raw renderer that created them.
#[derive(Debug)]
pub enum ElementStore<G, V> {
    Gles(Vec<G>),
    Vulkan(Vec<V>),
}

impl<G, V> ElementStore<G, V> {
    pub open spec fn api(self) -> RenderApi {
        match self {
            ElementStore::Gles(_) => RenderApi::Gles,
            ElementStore::Vulkan(_) => RenderApi::Vulkan,
        }
    }

    /// The elements for the GLES renderer: none when the store holds elements for another one.
    pub open spec fn gles_spec(self) -> Seq<G> {
        match self {
            ElementStore::Gles(elements) => elements@,
            ElementStore::Vulkan(_) => Seq::empty(),
        }
    }

    /// The elements for the Vulkan renderer: none when the store holds elements for another one.
    pub open spec fn vulkan_spec(self) -> Seq<V> {
        match self {
            ElementStore::Gles(_) => Seq::empty(),
            ElementStore::Vulkan(elements) => elements@,
        }
    }

    pub open spec fn is_empty_spec(self) -> bool {
        self.gles_spec().len() == 0 && self.vulkan_spec().len() == 0
    }

    /// Removes all elements.
    pub fn clear(&mut self)
        ensures
            final(self).api() == old(self).api(),
            final(self).is_empty_spec(),
    {
        match self {
            ElementStore::Gles(elements) => elements.clear(),
            ElementStore::Vulkan(elements) => elements.clear(),
        }
    }

    /// The store for the given renderer. Elements for another one are dropped.
    pub fn for_api(self, api: RenderApi) -> (store: Self)
        ensures
            store.api() == api,
            store.gles_spec() == if api is Gles {
                self.gles_spec()
            } else {
                Seq::empty()
            },
            store.vulkan_spec() == if api is Vulkan {
                self.vulkan_spec()
            } else {
                Seq::empty()
            },
    {
        match (self, api) {
            (ElementStore::Gles(elements), RenderApi::Gles) => ElementStore::Gles(elements),
            (ElementStore::Vulkan(elements), RenderApi::Vulkan) => ElementStore::Vulkan(elements),
            (_, RenderApi::Gles) => ElementStore::Gles(Vec::new()),
            (_, RenderApi::Vulkan) => ElementStore::Vulkan(Vec::new()),
        }
    }
}

/// Accessor for the [`ElementStore`] variant of a raw renderer.
pub trait XrayElementStore<G, V> {
    type Element;

    /// The elements of this renderer: none when the store holds elements for another one.
    spec fn own(store: ElementStore<G, V>) -> Seq<Self::Element>;

    /// The store that holds the given elements of this renderer.
    spec fn wrap(elements: Vec<Self::Element>) -> ElementStore<G, V>;

    /// The elements of this renderer, to be changed in place.
    fn elements(store: &mut ElementStore<G, V>) -> (elements: &mut Vec<Self::Element>)
        ensures
            elements@ == Self::own(*old(store)),
            *final(store) == Self::wrap(*final(elements)),
    ;
}

/// The raw GLES renderer.
#[derive(Debug)]
pub struct GlesStore;

/// The raw Vulkan renderer.
#[derive(Debug)]
pub struct VulkanStore;

impl<G, V> XrayElementStore<G, V> for GlesStore {
    type Element = G;

    open spec fn own(store: ElementStore<G, V>) -> Seq<G> {
        store.gles_spec()
    }

    open spec fn wrap(elements: Vec<G>) -> ElementStore<G, V> {
        ElementStore::Gles(elements)
    }

    fn elements(store: &mut ElementStore<G, V>) -> (elements: &mut Vec<G>) {
        if !matches!(store, ElementStore::Gles(_)) {
            *store = ElementStore::Gles(Vec::new());
        }
        match store {
            ElementStore::Gles(elements) => elements,
            ElementStore::Vulkan(_) => vstd::pervasive::unreached(),
        }
    }
}

impl<G, V> XrayElementStore<G, V> for VulkanStore {
    type Element = V;

    open spec fn own(store: ElementStore<G, V>) -> Seq<V> {
        store.vulkan_spec()
    }

    open spec fn wrap(elements: Vec<V>) -> ElementStore<G, V> {
        ElementStore::Vulkan(elements)
    }

    fn elements(store: &mut ElementStore<G, V>) -> (elements: &mut Vec<V>) {
        if !matches!(store, ElementStore::Vulkan(_)) {
            *store = ElementStore::Vulkan(Vec::new());
        }
        match store {
            ElementStore::Vulkan(elements) => elements,
            ElementStore::Gles(_) => vstd::pervasive::unreached(),
        }
    }
}

/// Elements to be rendered on demand.
#[derive(Debug)]
pub enum Elements<G, V> {
    /// Contents remain unchanged.
    Unchanged(ElementStore<G, V>),
    /// New contents, need to check damage and render.
    New(ElementStore<G, V>),
}

impl<G, V> Elements<G, V> {
    pub open spec fn store(self) -> ElementStore<G, V> {
        match self {
            Elements::Unchanged(store) => store,
            Elements::New(store) => store,
        }
    }
}

/// The renderer's types that an effect buffer holds.
pub trait EffectTypes {
    type GlesElement;

    type VulkanElement;

    /// A handle to a texture of the GLES renderer.
    type GlesTexture: Copy;

    /// A handle to a texture of the Vulkan renderer.
    type VulkanTexture: Copy;

    /// A handle to a texture that exists on several GPUs.
    type MultiTexture: Copy;

    type GlesBlur;

    type VulkanBlur;

    type DamageTracker;

    type RenderStates;

    type BlurOptions: PartialEq + Copy;
}

/// Identifies a renderer context.
#[derive(Debug, Clone, Copy, PartialEq, Eq, Structural)]
pub struct ContextId(pub u64);

/// Blurring program.
pub enum BlurVariant<K: EffectTypes> {
    /// With the renderer context it was made for.
    Gles(K::GlesBlur, ContextId),
    Vulkan(K::VulkanBlur),
}

/// Offscreen buffer where elements get rendered.
pub struct Offscreen<K: EffectTypes> {
    /// The texture with the offscreen contents.
    pub texture: TtyOffscreen<K::GlesTexture, K::VulkanTexture, K::MultiTexture>,
    /// Size of the texture.
    pub size: Size<i32>,
    /// Id of the renderer context that the texture comes from.
    pub renderer_context_id: ContextId,
    /// Scale of the texture.
    pub scale: FractionalScale,
    /// Damage tracker for drawing to the texture.
    pub damage: K::DamageTracker,
    /// Render element states from the last render into the offscreen.
    pub states: K::RenderStates,
    /// Rendered blurred version of the texture.
    ///
    /// When texture needs to be reblurred, this field must be reset to `None`.
    pub blurred: Option<TtyOffscreen<K::GlesTexture, K::VulkanTexture, K::MultiTexture>>,
}

/// An offscreen buffer for a background effect.
pub struct EffectBuffer<K: EffectTypes> {
    /// Id to be used for this effect buffer's elements.
    pub id: u64,
    /// Size of the effect buffer.
    pub size: Size<i32>,
    /// Scale of the effect buffer.
    pub scale: FractionalScale,
    /// Options for blurring.
    pub blur_options: K::BlurOptions,
    /// Elements to be rendered on demand.
    pub elements: Elements<K::GlesElement, K::VulkanElement>,
    /// Offscreen buffer where elements get rendered.
    pub offscreen: Option<Offscreen<K>>,
    /// Blurring program, if available.
    pub blur: Option<BlurVariant<K>>,
    /// Commit counter that takes into account both original and blurred texture changes.
    pub commit_counter: CommitCounter,
}

/// Why a new offscreen texture is made.
#[derive(Debug, Clone, Copy, PartialEq, Eq)]
pub enum RecreateReason {
    FirstRender,
    SizeChanged { from: Size<i32>, to: Size<i32> },
    /// Something else still uses the texture.
    NotUnique,
    RendererChanged,
}

/// Why preparing the offscreen contents failed.
#[derive(Debug, PartialEq, Eq)]
pub enum OffscreenError<E> {
    /// The texture could not be created.
    Create(E),
    /// The offscreen texture is from a different renderer.
    DifferentRenderer,
    /// The elements could not be rendered.
    Render(E),
}

/// Why an effect cannot be blurred or drawn.
#[derive(Debug, Clone, Copy, PartialEq, Eq, Structural)]
pub enum EffectError {
    /// There is no offscreen buffer.
    MissingOffscreen,
    /// The offscreen buffer belongs to another renderer context.
    WrongContext,
    /// The offscreen texture is not one of the GLES renderer.
    NotGles,
    /// The offscreen texture is not one of the Vulkan renderer.
    NotVulkan,
    /// There is no blurring program.
    MissingBlur,
}

/// Why preparing the blur, or drawing a blurred effect, failed.
#[derive(Debug, PartialEq, Eq)]
pub enum BlurError<E> {
    Effect(EffectError),
    /// The blurring program failed.
    Blur(E),
}

/// Which texture to draw.
#[derive(Debug, Clone, Copy, PartialEq, Eq)]
pub enum DrawTexture<T> {
    /// This one.
    Ready(T),
    /// The blurred version of this one, which is still to be rendered.
    Blur(T),
}

/// Whether a texture is one of the raw renderer of the given API.
pub open spec fn texture_of<G, V, M>(texture: TtyOffscreen<G, V, M>, api: RenderApi) -> bool {
    match api {
        RenderApi::Gles => texture is Gles,
        RenderApi::Vulkan => texture is Vulkan,
    }
}

impl<K: EffectTypes> EffectBuffer<K> {
    pub fn new(id: u64, blur_options: K::BlurOptions) -> (buffer: Self)
        ensures
            buffer.id == id,
            buffer.size == (Size { w: 0i32, h: 0i32 }),
            buffer.scale == (FractionalScale { n120: 120 }),
            buffer.blur_options == blur_options,
            buffer.elements is Unchanged,
            buffer.elements.store() is Gles,
            buffer.elements.store().is_empty_spec(),
            buffer.offscreen is None,
            buffer.blur is None,
            buffer.commit_counter == CommitCounter(0),
    {
        EffectBuffer {
            id,
            size: Size { w: 0, h: 0 },
            scale: FractionalScale { n120: 120 },
            blur_options,
            elements: Elements::Unchanged(ElementStore::Gles(Vec::new())),
            offscreen: None,
            blur: None,
            commit_counter: CommitCounter(0),
        }
    }

    pub fn id(&self) -> (id: u64)
        ensures
            id == self.id,
    {
        self.id
    }

    pub fn commit(&self) -> (commit: CommitCounter)
        ensures
            commit == self.commit_counter,
    {
        self.commit_counter
    }

    /// The size in logical pixels.
    pub fn logical_size(&self) -> (size: Size<LogicalCoord>)
        ensures
            size.w == LogicalCoord::of_pixels(self.size.w, self.scale),
            size.h == LogicalCoord::of_pixels(self.size.h, self.scale),
    {
        Size {
            w: LogicalCoord::from_pixels(self.size.w, self.scale),
            h: LogicalCoord::from_pixels(self.size.h, self.scale),
        }
    }

    pub fn scale(&self) -> (scale: FractionalScale)
        ensures
            scale == self.scale,
    {
        self.scale
    }

    /// Render element states from the last render into the offscreen.
    pub fn render_element_states(&self) -> (states: Option<&K::RenderStates>)
        ensures
            match self.offscreen {
                Some(offscreen) => states == Some(&offscreen.states),
                None => states is None,
            },
    {
        match &self.offscreen {
            Some(offscreen) => Some(&offscreen.states),
            None => None,
        }
    }

    pub fn update_size(&mut self, size: Size<i32>, scale: FractionalScale)
        ensures
            *final(self) == (EffectBuffer { size, scale, ..*old(self) }),
    {
        self.size = size;
        self.scale = scale;
    }

    /// Changes the options for blurring. A blurred texture that was rendered with other options is
    /// dropped, which is a change of contents.
    pub fn update_blur_options(&mut self, options: K::BlurOptions)
        ensures
            *final(self) == *old(self) || *final(self) == old(self).with_options(options),
            K::BlurOptions::obeys_eq_spec() ==> if old(self).blur_options.eq_spec(&options) {
                *final(self) == *old(self)
            } else {
                *final(self) == old(self).with_options(options)
            },
    {
        if self.blur_options == options {
            return;
        }
        self.blur_options = options;
        if let Some(offscreen) = &mut self.offscreen {
            if offscreen.blurred.is_some() {
                offscreen.blurred = None;
                self.commit_counter.increment();
            }
        }
    }

    /// The buffer with other options for blurring.
    pub open spec fn with_options(self, options: K::BlurOptions) -> Self {
        match self.offscreen {
            Some(offscreen) => if offscreen.blurred is Some {
                EffectBuffer {
                    blur_options: options,
                    offscreen: Some(Offscreen { blurred: None, ..offscreen }),
                    commit_counter: self.commit_counter.next(),
                    ..self
                }
            } else {
                EffectBuffer { blur_options: options, ..self }
            },
            None => EffectBuffer { blur_options: options, ..self },
        }
    }

    /// Takes the elements, leaving none behind.
    fn take_elements(&mut self) -> (elements: Elements<K::GlesElement, K::VulkanElement>)
        ensures
            elements == old(self).elements,
            final(self).elements is Unchanged,
            final(self).elements.store() is Gles,
            final(self).elements.store().is_empty_spec(),
            *final(self) == (EffectBuffer { elements: final(self).elements, ..*old(self) }),
    {
        let mut elements: Elements<K::GlesElement, K::VulkanElement> = Elements::Unchanged(
            ElementStore::Gles(Vec::new()),
        );
        std::mem::swap(&mut self.elements, &mut elements);
        elements
    }

    /// The elements of a renderer, to be changed in place. From now on they count as new.
    pub fn elements<R: XrayElementStore<K::GlesElement, K::VulkanElement>>(&mut self) -> (elements:
        &mut Vec<R::Element>)
        ensures
            elements@ == R::own(old(self).elements.store()),
            *final(self) == (EffectBuffer {
                elements: Elements::New(R::wrap(*final(elements))),
                ..*old(self)
            }),
    {
        // Assume we're going to insert new elements, switch to New.
        let store: ElementStore<K::GlesElement, K::VulkanElement> = match self.take_elements() {
            Elements::Unchanged(store) => store,
            Elements::New(store) => store,
        };
        self.elements = Elements::New(store);
        match &mut self.elements {
            Elements::New(store) => R::elements(store),
            Elements::Unchanged(_) => vstd::pervasive::unreached(),
        }
    }

    /// Removes all elements, which are then new contents.
    pub fn clear_elements(&mut self)
        ensures
            final(self).elements is New,
            final(self).elements.store().api() == old(self).elements.store().api(),
            final(self).elements.store().is_empty_spec(),
            *final(self) == (EffectBuffer { elements: final(self).elements, ..*old(self) }),
    {
        let mut store: ElementStore<K::GlesElement, K::VulkanElement> = match self.take_elements() {
            Elements::Unchanged(store) => store,
            Elements::New(store) => store,
        };
        store.clear();
        self.elements = Elements::New(store);
    }

    /// Why the offscreen texture cannot be kept for a render in the given context, if so. `unique`
    /// says whether nothing else uses the texture.
    pub open spec fn recreate_reason(self, context: ContextId, unique: bool) -> Option<
        RecreateReason,
    > {
        match self.offscreen {
            None => Some(RecreateReason::FirstRender),
            Some(offscreen) => if offscreen.size != self.size {
                Some(RecreateReason::SizeChanged { from: offscreen.size, to: self.size })
            } else if !unique {
                Some(RecreateReason::NotUnique)
            } else if offscreen.renderer_context_id != context {
                Some(RecreateReason::RendererChanged)
            } else {
                None
            },
        }
    }

    /// Checks if the texture has to be created or recreated, and drops the old one if so.
    fn start_offscreen(&mut self, context: ContextId, unique: bool) -> (create: Option<
        RecreateReason,
    >)
        ensures
            create == old(self).recreate_reason(context, unique),
            *final(self) == (EffectBuffer {
                offscreen: if create is Some {
                    None
                } else {
                    old(self).offscreen
                },
                ..*old(self)
            }),
    {
        let reason: Option<RecreateReason> = match &self.offscreen {
            None => Some(RecreateReason::FirstRender),
            Some(offscreen) => if offscreen.size.w != self.size.w || offscreen.size.h
                != self.size.h {
                Some(RecreateReason::SizeChanged { from: offscreen.size, to: self.size })
            } else if !unique {
                Some(RecreateReason::NotUnique)
            } else if offscreen.renderer_context_id != context {
                Some(RecreateReason::RendererChanged)
            } else {
                None
            },
        };
        if reason.is_some() {
            self.offscreen = None;
        }
        reason
    }

    /// The buffer with a new offscreen texture, which was created in the given context, and a new
    /// damage tracker.
    pub open spec fn with_texture(
        self,
        texture: TtyOffscreen<K::GlesTexture, K::VulkanTexture, K::MultiTexture>,
        context: ContextId,
        damage: K::DamageTracker,
        states: K::RenderStates,
    ) -> Self {
        EffectBuffer {
            offscreen: Some(
                Offscreen {
                    texture,
                    size: self.size,
                    renderer_context_id: context,
                    scale: self.scale,
                    damage,
                    states,
                    blurred: None,
                },
            ),
            ..self
        }
    }

    /// The offscreen texture was created in the given context, with a new damage tracker for the
    /// buffer's size and scale.
    fn offscreen_created(
        &mut self,
        texture: TtyOffscreen<K::GlesTexture, K::VulkanTexture, K::MultiTexture>,
        context: ContextId,
        damage: K::DamageTracker,
        states: K::RenderStates,
    )
        ensures
            *final(self) == old(self).with_texture(texture, context, damage, states),
    {
        self.offscreen = Some(
            Offscreen {
                texture,
                size: self.size,
                renderer_context_id: context,
                scale: self.scale,
                damage,
                states,
                blurred: None,
            },
        );
    }

    /// The offscreen buffer once it has the buffer's scale. A change of scale needs a new damage
    /// tracker and drops the blurred texture.
    pub open spec fn rescaled(offscreen: Offscreen<K>, scale: FractionalScale, damage:
        K::DamageTracker) -> Offscreen<K> {
        if offscreen.scale == scale {
            offscreen
        } else {
            Offscreen { scale, damage, blurred: None, ..offscreen }
        }
    }

    /// Whether the offscreen buffer has another scale than the effect buffer.
    fn scale_changed(&self) -> (changed: bool)
        ensures
            changed == (self.offscreen matches Some(offscreen) && offscreen.scale != self.scale),
    {
        match &self.offscreen {
            Some(offscreen) => offscreen.scale != self.scale,
            None => false,
        }
    }

    /// Takes over the buffer's scale, with a new damage tracker. The buffer is already recreated
    /// for size changes, and its transform is always Normal.
    fn rescale(&mut self, damage: K::DamageTracker)
        requires
            old(self).offscreen matches Some(offscreen) && offscreen.scale != old(self).scale,
        ensures
            *final(self) == (EffectBuffer {
                offscreen: Some(
                    Self::rescaled(old(self).offscreen->0, old(self).scale, damage),
                ),
                commit_counter: old(self).commit_counter.next(),
                ..*old(self)
            }),
    {
        let scale: FractionalScale = self.scale;
        if let Some(offscreen) = &mut self.offscreen {
            offscreen.scale = scale;
            offscreen.damage = damage;
            offscreen.blurred = None;
            self.commit_counter.increment();
        }
    }

    /// The offscreen buffer after a render into it.
    pub open spec fn rendered(
        offscreen: Offscreen<K>,
        states: K::RenderStates,
        damaged: bool,
    ) -> Offscreen<K> {
        Offscreen {
            states,
            blurred: if damaged {
                None
            } else {
                offscreen.blurred
            },
            ..offscreen
        }
    }

    /// The elements were rendered, with the given states. If that damaged the texture, its blurred
    /// version is outdated.
    fn finish_render(
        &mut self,
        elements: ElementStore<K::GlesElement, K::VulkanElement>,
        states: K::RenderStates,
        damaged: bool,
    )
        requires
            old(self).offscreen is Some,
        ensures
            final(self).elements is Unchanged,
            final(self).elements.store().api() == elements.api(),
            final(self).elements.store().is_empty_spec(),
            *final(self) == (EffectBuffer {
                elements: final(self).elements,
                offscreen: Some(Self::rendered(old(self).offscreen->0, states, damaged)),
                commit_counter: if damaged {
                    old(self).commit_counter.next()
                } else {
                    old(self).commit_counter
                },
                ..*old(self)
            }),
    {
        if let Some(offscreen) = &mut self.offscreen {
            offscreen.states = states;
            if damaged {
                self.commit_counter.increment();
                // Original texture changed; reset the blurred texture.
                offscreen.blurred = None;
            }
        }
        // Clear and put the storage back.
        let mut store: ElementStore<K::GlesElement, K::VulkanElement> = elements;
        store.clear();
        self.elements = Elements::Unchanged(store);
    }
}

impl EffectError {
    /// Describes the error.
    pub fn message(&self) -> (message: &'static str)
        ensures
            message@ == match self {
                EffectError::MissingOffscreen => "offscreen is missing"@,
                EffectError::WrongContext => "wrong renderer context id"@,
                EffectError::NotGles => "offscreen texture is not a GLES texture"@,
                EffectError::NotVulkan => "offscreen texture is not a Vulkan texture"@,
                EffectError::MissingBlur => "blur is missing"@,
            },
    {
        match self {
            EffectError::MissingOffscreen => "offscreen is missing",
            EffectError::WrongContext => "wrong renderer context id",
            EffectError::NotGles => "offscreen texture is not a GLES texture",
            EffectError::NotVulkan => "offscreen texture is not a Vulkan texture",
            EffectError::MissingBlur => "blur is missing",
        }
    }
}

/// Whether a blurring program can be used on a renderer: it has to be of the same API and, on GLES,
/// of the same context.
pub open spec fn blur_usable<K: EffectTypes>(
    blur: Option<BlurVariant<K>>,
    api: RenderApi,
    context: ContextId,
) -> bool {
    match blur {
        Some(BlurVariant::Gles(_, made_for)) => api is Gles && made_for == context,
        Some(BlurVariant::Vulkan(_)) => api is Vulkan,
        None => false,
    }
}

/// The buffer has no elements, and nothing to render.
pub open spec fn no_elements<K: EffectTypes>(
    elements: Elements<K::GlesElement, K::VulkanElement>,
) -> bool {
    &&& elements is Unchanged
    &&& elements.store() is Gles
    &&& elements.store().is_empty_spec()
}

/// `after` is `before` with an offscreen texture to render into: its own if it can be kept, else
/// one that `create` makes.
pub open spec fn has_texture<
    K: EffectTypes,
    E,
    FC: FnOnce(Size<i32>) -> Result<
        TtyOffscreen<K::GlesTexture, K::VulkanTexture, K::MultiTexture>,
        E,
    >,
    FT: Fn(Size<i32>, FractionalScale) -> K::DamageTracker,
>(
    before: EffectBuffer<K>,
    after: EffectBuffer<K>,
    context: ContextId,
    unique: bool,
    states: K::RenderStates,
    create: FC,
    tracker: FT,
) -> bool {
    if before.recreate_reason(context, unique) is None {
        after == before
    } else {
        exists|
            texture: TtyOffscreen<K::GlesTexture, K::VulkanTexture, K::MultiTexture>,
            damage: K::DamageTracker,
        |
            {
                &&& #[trigger] call_ensures(create, (before.size,), Ok(texture))
                &&& #[trigger] call_ensures(tracker, (before.size, before.scale), damage)
                &&& after == before.with_texture(texture, context, damage, states)
            }
    }
}

/// `after` is `before` with an offscreen buffer of the buffer's scale.
pub open spec fn has_scale<
    K: EffectTypes,
    FT: Fn(Size<i32>, FractionalScale) -> K::DamageTracker,
>(before: EffectBuffer<K>, after: EffectBuffer<K>, tracker: FT) -> bool {
    let offscreen = before.offscreen->0;
    if offscreen.scale == before.scale {
        after == before
    } else {
        exists|damage: K::DamageTracker|
            {
                &&& #[trigger] call_ensures(tracker, (before.size, before.scale), damage)
                &&& after == (EffectBuffer {
                    offscreen: Some(EffectBuffer::rescaled(offscreen, before.scale, damage)),
                    commit_counter: before.commit_counter.next(),
                    ..before
                })
            }
    }
}

/// `after` is `before` with its elements rendered. Unchanged elements need no rendering. New ones
/// are gone even if that fails.
pub open spec fn has_contents<
    K: EffectTypes,
    E,
    FR: FnOnce(
        TtyOffscreen<K::GlesTexture, K::VulkanTexture, K::MultiTexture>,
        &K::DamageTracker,
        &ElementStore<K::GlesElement, K::VulkanElement>,
    ) -> Result<(K::RenderStates, bool), E>,
>(
    before: EffectBuffer<K>,
    after: EffectBuffer<K>,
    result: Result<(), OffscreenError<E>>,
    api: RenderApi,
    render: FR,
) -> bool {
    let offscreen = before.offscreen->0;
    match before.elements {
        Elements::Unchanged(_) => after == before && result is Ok,
        Elements::New(store) => if !texture_of(offscreen.texture, api) {
            &&& result == Err::<(), OffscreenError<E>>(OffscreenError::DifferentRenderer)
            &&& no_elements::<K>(after.elements)
            &&& after == (EffectBuffer { elements: after.elements, ..before })
        } else {
            exists|
                elements: ElementStore<K::GlesElement, K::VulkanElement>,
                rendered: Result<(K::RenderStates, bool), E>,
            |
                {
                    &&& elements.api() == api
                    &&& api is Gles ==> elements.gles_spec() == store.gles_spec()
                    &&& api is Vulkan ==> elements.vulkan_spec() == store.vulkan_spec()
                    &&& #[trigger] call_ensures(
                        render,
                        (offscreen.texture, &offscreen.damage, &elements),
                        rendered,
                    )
                    &&& match rendered {
                        Err(err) => {
                            &&& result == Err::<(), OffscreenError<E>>(OffscreenError::Render(err))
                            &&& no_elements::<K>(after.elements)
                            &&& after == (EffectBuffer { elements: after.elements, ..before })
                        },
                        Ok((states, damaged)) => {
                            &&& result is Ok
                            &&& after.elements is Unchanged
                            &&& after.elements.store().api() == api
                            &&& after.elements.store().is_empty_spec()
                            &&& after == (EffectBuffer {
                                elements: after.elements,
                                offscreen: Some(
                                    EffectBuffer::rendered(offscreen, states, damaged),
                                ),
                                commit_counter: if damaged {
                                    before.commit_counter.next()
                                } else {
                                    before.commit_counter
                                },
                                ..before
                            })
                        },
                    }
                }
        },
    }
}

/// How the offscreen contents are prepared: a texture, then the scale, then the contents. Without
/// a texture nothing else happens.
pub open spec fn offscreen_prepared<
    K: EffectTypes,
    E,
    FC: FnOnce(Size<i32>) -> Result<
        TtyOffscreen<K::GlesTexture, K::VulkanTexture, K::MultiTexture>,
        E,
    >,
    FT: Fn(Size<i32>, FractionalScale) -> K::DamageTracker,
    FR: FnOnce(
        TtyOffscreen<K::GlesTexture, K::VulkanTexture, K::MultiTexture>,
        &K::DamageTracker,
        &ElementStore<K::GlesElement, K::VulkanElement>,
    ) -> Result<(K::RenderStates, bool), E>,
>(
    before: EffectBuffer<K>,
    after: EffectBuffer<K>,
    result: Result<(), OffscreenError<E>>,
    api: RenderApi,
    context: ContextId,
    unique: bool,
    states: K::RenderStates,
    create: FC,
    tracker: FT,
    render: FR,
) -> bool {
    ||| {
        &&& before.recreate_reason(context, unique) is Some
        &&& result matches Err(OffscreenError::Create(err))
        &&& call_ensures(create, (before.size,), Err(err))
        &&& after == (EffectBuffer { offscreen: None, ..before })
    }
    ||| exists|created: EffectBuffer<K>, scaled: EffectBuffer<K>|
        {
            &&& #[trigger] has_texture(before, created, context, unique, states, create, tracker)
            &&& #[trigger] has_scale(created, scaled, tracker)
            &&& has_contents(scaled, after, result, api, render)
        }
}

/// The blurring programs that `make_blur` makes are for the renderer of the given API and context.
pub open spec fn makes_usable_blur<K: EffectTypes, FM: FnOnce() -> Option<BlurVariant<K>>>(
    make_blur: FM,
    api: RenderApi,
    context: ContextId,
) -> bool {
    forall|made: Option<BlurVariant<K>>| #[trigger]
        call_ensures(make_blur, (), made) ==> made is None || blur_usable(made, api, context)
}

/// How the blur is prepared: a blurring program for the renderer, then its textures. Nothing is
/// done when the blurred texture is already rendered, or when the blur shader is missing.
pub open spec fn blur_prepared<
    K: EffectTypes,
    E,
    FM: FnOnce() -> Option<BlurVariant<K>>,
    FP: FnOnce(
        &BlurVariant<K>,
        TtyOffscreen<K::GlesTexture, K::VulkanTexture, K::MultiTexture>,
        K::BlurOptions,
    ) -> Result<(), E>,
>(
    before: EffectBuffer<K>,
    after: EffectBuffer<K>,
    result: Result<(), BlurError<E>>,
    api: RenderApi,
    context: ContextId,
    make_blur: FM,
    prepare_textures: FP,
) -> bool {
    match before.offscreen {
        None => {
            &&& result == Err::<(), BlurError<E>>(BlurError::Effect(EffectError::MissingOffscreen))
            &&& after == before
        },
        Some(offscreen) => if offscreen.blurred is Some {
            result is Ok && after == before
        } else if blur_usable(before.blur, api, context) {
            after == before && blur_textures_prepared(after, result, api, context, prepare_textures)
        } else {
            exists|made: Option<BlurVariant<K>>|
                {
                    &&& #[trigger] call_ensures(make_blur, (), made)
                    &&& after == (EffectBuffer { blur: made, ..before })
                    &&& if made is None {
                        result is Ok
                    } else {
                        blur_textures_prepared(after, result, api, context, prepare_textures)
                    }
                }
        },
    }
}

/// How the textures of the blurring program are prepared: for the offscreen texture, if it belongs
/// to the renderer.
pub open spec fn blur_textures_prepared<
    K: EffectTypes,
    E,
    FP: FnOnce(
        &BlurVariant<K>,
        TtyOffscreen<K::GlesTexture, K::VulkanTexture, K::MultiTexture>,
        K::BlurOptions,
    ) -> Result<(), E>,
>(
    buffer: EffectBuffer<K>,
    result: Result<(), BlurError<E>>,
    api: RenderApi,
    context: ContextId,
    prepare_textures: FP,
) -> bool {
    match buffer.texture_to_blur(api, context) {
        Err(err) => result == Err::<(), BlurError<E>>(BlurError::Effect(err)),
        Ok(texture) => exists|prepared: Result<(), E>|
            {
                &&& #[trigger] call_ensures(
                    prepare_textures,
                    (&buffer.blur->0, texture, buffer.blur_options),
                    prepared,
                )
                &&& match prepared {
                    Ok(_) => result is Ok,
                    Err(err) => result == Err::<(), BlurError<E>>(BlurError::Blur(err)),
                }
            },
    }
}

impl<K: EffectTypes> EffectBuffer<K> {
    /// Prepares the offscreen contents on a renderer of the given API and context. `unique` says
    /// whether nothing else uses the offscreen texture, and `states` are those of a new texture.
    ///
    /// `create` makes an offscreen texture of the given size, `tracker` makes a damage tracker for
    /// a size and scale, and `render` renders elements into a texture with its damage tracker,
    /// which gives the states of the elements and whether the texture was damaged.
    pub fn prepare_offscreen<
        E,
        FC: FnOnce(Size<i32>) -> Result<
            TtyOffscreen<K::GlesTexture, K::VulkanTexture, K::MultiTexture>,
            E,
        >,
        FT: Fn(Size<i32>, FractionalScale) -> K::DamageTracker,
        FR: FnOnce(
            TtyOffscreen<K::GlesTexture, K::VulkanTexture, K::MultiTexture>,
            &K::DamageTracker,
            &ElementStore<K::GlesElement, K::VulkanElement>,
        ) -> Result<(K::RenderStates, bool), E>,
    >(
        &mut self,
        api: RenderApi,
        context: ContextId,
        unique: bool,
        states: K::RenderStates,
        create: FC,
        tracker: FT,
        render: FR,
    ) -> (result: Result<(), OffscreenError<E>>)
        requires
            forall|size: Size<i32>| #[trigger] call_requires(create, (size,)),
            forall|size: Size<i32>, scale: FractionalScale| #[trigger]
                call_requires(tracker, (size, scale)),
            forall|
                texture: TtyOffscreen<K::GlesTexture, K::VulkanTexture, K::MultiTexture>,
                damage: &K::DamageTracker,
                elements: &ElementStore<K::GlesElement, K::VulkanElement>,
            | #[trigger] call_requires(render, (texture, damage, elements)),
        ensures
            offscreen_prepared(
                *old(self),
                *final(self),
                result,
                api,
                context,
                unique,
                states,
                create,
                tracker,
                render,
            ),
    {
        if self.start_offscreen(context, unique).is_some() {
            match create(self.size) {
                Ok(texture) => {
                    let damage: K::DamageTracker = tracker(self.size, self.scale);
                    self.offscreen_created(texture, context, damage, states);
                },
                Err(err) => {
                    return Err(OffscreenError::Create(err));
                },
            }
        }
        let ghost created = *self;
        assert(has_texture(*old(self), created, context, unique, states, create, tracker));

        if self.scale_changed() {
            let damage: K::DamageTracker = tracker(self.size, self.scale);
            self.rescale(damage);
        }
        let ghost scaled = *self;
        assert(has_scale(created, scaled, tracker));

        // Render the elements if any.
        let store: ElementStore<K::GlesElement, K::VulkanElement> = match self.take_elements() {
            Elements::Unchanged(store) => {
                // No redrawing necessary.
                self.elements = Elements::Unchanged(store);
                return Ok(());
            },
            Elements::New(store) => store,
        };
        let elements: ElementStore<K::GlesElement, K::VulkanElement> = store.for_api(api);
        let rendered: Result<(K::RenderStates, bool), E> = match &self.offscreen {
            Some(offscreen) => {
                let same_renderer: bool = match (&offscreen.texture, api) {
                    (TtyOffscreen::Gles(_), RenderApi::Gles) => true,
                    (TtyOffscreen::Vulkan(_), RenderApi::Vulkan) => true,
                    _ => false,
                };
                if !same_renderer {
                    return Err(OffscreenError::DifferentRenderer);
                }
                render(offscreen.texture, &offscreen.damage, &elements)
            },
            None => vstd::pervasive::unreached(),
        };
        match rendered {
            Ok((states, damaged)) => {
                self.finish_render(elements, states, damaged);
                Ok(())
            },
            Err(err) => Err(OffscreenError::Render(err)),
        }
    }

    /// The offscreen texture to blur on the renderer of the given API and context, if it belongs to
    /// that renderer.
    pub open spec fn texture_to_blur(self, api: RenderApi, context: ContextId) -> Result<
        TtyOffscreen<K::GlesTexture, K::VulkanTexture, K::MultiTexture>,
        EffectError,
    > {
        match self.offscreen {
            None => Err(EffectError::MissingOffscreen),
            Some(offscreen) => if offscreen.renderer_context_id != context {
                Err(EffectError::WrongContext)
            } else if texture_of(offscreen.texture, api) {
                Ok(offscreen.texture)
            } else if api is Gles {
                Err(EffectError::NotGles)
            } else {
                Err(EffectError::NotVulkan)
            },
        }
    }

    fn check_blur(&self, api: RenderApi, context: ContextId) -> (texture: Result<
        TtyOffscreen<K::GlesTexture, K::VulkanTexture, K::MultiTexture>,
        EffectError,
    >)
        ensures
            texture == self.texture_to_blur(api, context),
    {
        let offscreen: &Offscreen<K> = match &self.offscreen {
            Some(offscreen) => offscreen,
            None => {
                return Err(EffectError::MissingOffscreen);
            },
        };
        if offscreen.renderer_context_id != context {
            return Err(EffectError::WrongContext);
        }
        match (offscreen.texture, api) {
            (TtyOffscreen::Gles(texture), RenderApi::Gles) => Ok(TtyOffscreen::Gles(texture)),
            (TtyOffscreen::Vulkan(texture), RenderApi::Vulkan) => Ok(TtyOffscreen::Vulkan(texture)),
            (_, RenderApi::Gles) => Err(EffectError::NotGles),
            (_, RenderApi::Vulkan) => Err(EffectError::NotVulkan),
        }
    }

    /// Prepares the blur on a renderer of the given API and context. `make_blur` makes a blurring
    /// program for it, if the blur shader is there, and `prepare_textures` prepares the program for
    /// blurring the offscreen texture with the options.
    pub fn prepare_blur<
        E,
        FM: FnOnce() -> Option<BlurVariant<K>>,
        FP: FnOnce(
            &BlurVariant<K>,
            TtyOffscreen<K::GlesTexture, K::VulkanTexture, K::MultiTexture>,
            K::BlurOptions,
        ) -> Result<(), E>,
    >(
        &mut self,
        api: RenderApi,
        context: ContextId,
        make_blur: FM,
        prepare_textures: FP,
    ) -> (result: Result<(), BlurError<E>>)
        requires
            call_requires(make_blur, ()),
            makes_usable_blur(make_blur, api, context),
            forall|
                blur: &BlurVariant<K>,
                texture: TtyOffscreen<K::GlesTexture, K::VulkanTexture, K::MultiTexture>,
                options: K::BlurOptions,
            | #[trigger] call_requires(prepare_textures, (blur, texture, options)),
        ensures
            blur_prepared(
                *old(self),
                *final(self),
                result,
                api,
                context,
                make_blur,
                prepare_textures,
            ),
    {
        match &self.offscreen {
            None => {
                return Err(BlurError::Effect(EffectError::MissingOffscreen));
            },
            Some(offscreen) => {
                if offscreen.blurred.is_some() {
                    // Already rendered.
                    return Ok(());
                }
            },
        }
        let usable: bool = match (&self.blur, api) {
            (Some(BlurVariant::Gles(_, made_for)), RenderApi::Gles) => *made_for == context,
            (Some(BlurVariant::Vulkan(_)), RenderApi::Vulkan) => true,
            _ => false,
        };
        if !usable {
            // The program was made for another renderer, or there is none.
            self.blur = make_blur();
        }
        let texture: Result<
            TtyOffscreen<K::GlesTexture, K::VulkanTexture, K::MultiTexture>,
            EffectError,
        > = self.check_blur(api, context);
        match &self.blur {
            // Missing blur shader.
            None => Ok(()),
            Some(blur) => match texture {
                Ok(texture) => match prepare_textures(blur, texture, self.blur_options) {
                    Ok(()) => Ok(()),
                    Err(err) => Err(BlurError::Blur(err)),
                },
                Err(err) => Err(BlurError::Effect(err)),
            },
        }
    }

    /// Prepares the offscreen (and optionally blurred) contents on a renderer, which is of neither
    /// API if `api` is `None`. Returns whether that worked; see [`Self::prepare_offscreen`] and
    /// [`Self::prepare_blur`] for the functions.
    pub fn prepare<
        E,
        FC: FnOnce(Size<i32>) -> Result<
            TtyOffscreen<K::GlesTexture, K::VulkanTexture, K::MultiTexture>,
            E,
        >,
        FT: Fn(Size<i32>, FractionalScale) -> K::DamageTracker,
        FR: FnOnce(
            TtyOffscreen<K::GlesTexture, K::VulkanTexture, K::MultiTexture>,
            &K::DamageTracker,
            &ElementStore<K::GlesElement, K::VulkanElement>,
        ) -> Result<(K::RenderStates, bool), E>,
        FM: FnOnce() -> Option<BlurVariant<K>>,
        FP: FnOnce(
            &BlurVariant<K>,
            TtyOffscreen<K::GlesTexture, K::VulkanTexture, K::MultiTexture>,
            K::BlurOptions,
        ) -> Result<(), E>,
    >(
        &mut self,
        api: Option<RenderApi>,
        context: ContextId,
        unique: bool,
        states: K::RenderStates,
        blur: bool,
        create: FC,
        tracker: FT,
        render: FR,
        make_blur: FM,
        prepare_textures: FP,
    ) -> (prepared: bool)
        requires
            forall|size: Size<i32>| #[trigger] call_requires(create, (size,)),
            forall|size: Size<i32>, scale: FractionalScale| #[trigger]
                call_requires(tracker, (size, scale)),
            forall|
                texture: TtyOffscreen<K::GlesTexture, K::VulkanTexture, K::MultiTexture>,
                damage: &K::DamageTracker,
                elements: &ElementStore<K::GlesElement, K::VulkanElement>,
            | #[trigger] call_requires(render, (texture, damage, elements)),
            call_requires(make_blur, ()),
            api matches Some(api) ==> makes_usable_blur(make_blur, api, context),
            forall|
                blur: &BlurVariant<K>,
                texture: TtyOffscreen<K::GlesTexture, K::VulkanTexture, K::MultiTexture>,
                options: K::BlurOptions,
            | #[trigger] call_requires(prepare_textures, (blur, texture, options)),
        ensures
            match api {
                None => !prepared && *final(self) == *old(self),
                Some(api) => exists|
                    mid: EffectBuffer<K>,
                    offscreen: Result<(), OffscreenError<E>>,
                |
                    {
                        &&& #[trigger] offscreen_prepared(
                            *old(self),
                            mid,
                            offscreen,
                            api,
                            context,
                            unique,
                            states,
                            create,
                            tracker,
                            render,
                        )
                        &&& if offscreen is Ok && blur {
                            exists|blurred: Result<(), BlurError<E>>|
                                {
                                    &&& #[trigger] blur_prepared(
                                        mid,
                                        *final(self),
                                        blurred,
                                        api,
                                        context,
                                        make_blur,
                                        prepare_textures,
                                    )
                                    &&& prepared == (blurred is Ok)
                                }
                        } else {
                            *final(self) == mid && prepared == (offscreen is Ok)
                        }
                    },
            },
    {
        let api: RenderApi = match api {
            Some(api) => api,
            None => {
                return false;
            },
        };
        let offscreen: Result<(), OffscreenError<E>> = self.prepare_offscreen(
            api,
            context,
            unique,
            states,
            create,
            tracker,
            render,
        );
        if offscreen.is_err() {
            return false;
        }
        if blur {
            let blurred: Result<(), BlurError<E>> = self.prepare_blur(
                api,
                context,
                make_blur,
                prepare_textures,
            );
            return blurred.is_ok();
        }
        true
    }

    /// The texture that a GLES frame draws, blurred or not.
    pub open spec fn gles_texture(self, blur: bool) -> Result<
        DrawTexture<K::GlesTexture>,
        EffectError,
    > {
        match self.offscreen {
            None => Err(EffectError::MissingOffscreen),
            Some(offscreen) => match (offscreen.texture, offscreen.blurred) {
                (TtyOffscreen::Vulkan(_), _) | (TtyOffscreen::Multi(_), _) => Err(
                    EffectError::NotGles,
                ),
                (TtyOffscreen::Gles(texture), blurred) => if !blur {
                    Ok(DrawTexture::Ready(texture))
                } else {
                    match blurred {
                        Some(TtyOffscreen::Gles(blurred)) => Ok(DrawTexture::Ready(blurred)),
                        _ => match self.blur {
                            Some(BlurVariant::Gles(_, _)) => Ok(DrawTexture::Blur(texture)),
                            _ => Err(EffectError::MissingBlur),
                        },
                    }
                },
            },
        }
    }

    /// The texture that a Vulkan frame draws, blurred or not.
    pub open spec fn vulkan_texture(self, blur: bool) -> Result<
        DrawTexture<K::VulkanTexture>,
        EffectError,
    > {
        match self.offscreen {
            None => Err(EffectError::MissingOffscreen),
            Some(offscreen) => match (offscreen.texture, offscreen.blurred) {
                (TtyOffscreen::Gles(_), _) | (TtyOffscreen::Multi(_), _) => Err(
                    EffectError::NotVulkan,
                ),
                (TtyOffscreen::Vulkan(texture), blurred) => if !blur {
                    Ok(DrawTexture::Ready(texture))
                } else {
                    match blurred {
                        Some(TtyOffscreen::Vulkan(blurred)) => Ok(DrawTexture::Ready(blurred)),
                        _ => match self.blur {
                            Some(BlurVariant::Vulkan(_)) => Ok(DrawTexture::Blur(texture)),
                            _ => Err(EffectError::MissingBlur),
                        },
                    }
                },
            },
        }
    }

    /// The buffer with a rendered blurred version of its offscreen texture, which is kept for later
    /// draws.
    pub open spec fn with_blurred(
        self,
        blurred: TtyOffscreen<K::GlesTexture, K::VulkanTexture, K::MultiTexture>,
    ) -> Self {
        EffectBuffer {
            offscreen: Some(Offscreen { blurred: Some(blurred), ..self.offscreen->0 }),
            ..self
        }
    }

    /// Gives the texture to draw in a GLES frame. A blurred texture that is still missing is
    /// rendered by `render_blur`, which takes the blurring program, the texture and the options.
    pub fn render_gles<
        E,
        F: FnOnce(&K::GlesBlur, K::GlesTexture, K::BlurOptions) -> Result<K::GlesTexture, E>,
    >(&mut self, blur: bool, render_blur: F) -> (texture: Result<K::GlesTexture, BlurError<E>>)
        requires
            forall|program: &K::GlesBlur, texture: K::GlesTexture, options: K::BlurOptions|
                #[trigger] call_requires(render_blur, (program, texture, options)),
        ensures
            match old(self).gles_texture(blur) {
                Err(err) => {
                    &&& texture == Err::<K::GlesTexture, BlurError<E>>(BlurError::Effect(err))
                    &&& *final(self) == *old(self)
                },
                Ok(DrawTexture::Ready(ready)) => {
                    &&& texture == Ok::<K::GlesTexture, BlurError<E>>(ready)
                    &&& *final(self) == *old(self)
                },
                Ok(DrawTexture::Blur(sharp)) => {
                    &&& old(self).blur matches Some(BlurVariant::Gles(program, _))
                    &&& match texture {
                        Ok(blurred) => {
                            &&& call_ensures(
                                render_blur,
                                (&program, sharp, old(self).blur_options),
                                Ok::<K::GlesTexture, E>(blurred),
                            )
                            &&& *final(self) == old(self).with_blurred(TtyOffscreen::Gles(blurred))
                        },
                        Err(err) => {
                            &&& err matches BlurError::Blur(err)
                            &&& call_ensures(
                                render_blur,
                                (&program, sharp, old(self).blur_options),
                                Err::<K::GlesTexture, E>(err),
                            )
                            &&& *final(self) == *old(self)
                        },
                    }
                },
            },
    {
        let options: K::BlurOptions = self.blur_options;
        let offscreen: &mut Offscreen<K> = match &mut self.offscreen {
            Some(offscreen) => offscreen,
            None => {
                return Err(BlurError::Effect(EffectError::MissingOffscreen));
            },
        };
        let texture: K::GlesTexture = match offscreen.texture {
            TtyOffscreen::Gles(texture) => texture,
            _ => {
                return Err(BlurError::Effect(EffectError::NotGles));
            },
        };
        if !blur {
            return Ok(texture);
        }
        if let Some(TtyOffscreen::Gles(blurred)) = offscreen.blurred {
            return Ok(blurred);
        }
        match &self.blur {
            Some(BlurVariant::Gles(program, _)) => match render_blur(program, texture, options) {
                Ok(blurred) => {
                    offscreen.blurred = Some(TtyOffscreen::Gles(blurred));
                    Ok(blurred)
                },
                Err(err) => Err(BlurError::Blur(err)),
            },
            _ => Err(BlurError::Effect(EffectError::MissingBlur)),
        }
    }

    /// Gives the texture to draw in a Vulkan frame. A blurred texture that is still missing is
    /// rendered by `render_blur`, which takes the blurring program, the texture and the options.
    pub fn render_vulkan<
        E,
        F: FnOnce(&K::VulkanBlur, K::VulkanTexture, K::BlurOptions) -> Result<K::VulkanTexture, E>,
    >(&mut self, blur: bool, render_blur: F) -> (texture: Result<K::VulkanTexture, BlurError<E>>)
        requires
            forall|program: &K::VulkanBlur, texture: K::VulkanTexture, options: K::BlurOptions|
                #[trigger] call_requires(render_blur, (program, texture, options)),
        ensures
            match old(self).vulkan_texture(blur) {
                Err(err) => {
                    &&& texture == Err::<K::VulkanTexture, BlurError<E>>(BlurError::Effect(err))
                    &&& *final(self) == *old(self)
                },
                Ok(DrawTexture::Ready(ready)) => {
                    &&& texture == Ok::<K::VulkanTexture, BlurError<E>>(ready)
                    &&& *final(self) == *old(self)
                },
                Ok(DrawTexture::Blur(sharp)) => {
                    &&& old(self).blur matches Some(BlurVariant::Vulkan(program))
                    &&& match texture {
                        Ok(blurred) => {
                            &&& call_ensures(
                                render_blur,
                                (&program, sharp, old(self).blur_options),
                                Ok::<K::VulkanTexture, E>(blurred),
                            )
                            &&& *final(self) == old(self).with_blurred(
                                TtyOffscreen::Vulkan(blurred),
                            )
                        },
                        Err(err) => {
                            &&& err matches BlurError::Blur(err)
                            &&& call_ensures(
                                render_blur,
                                (&program, sharp, old(self).blur_options),
                                Err::<K::VulkanTexture, E>(err),
                            )
                            &&& *final(self) == *old(self)
                        },
                    }
                },
            },
    {
        let options: K::BlurOptions = self.blur_options;
        let offscreen: &mut Offscreen<K> = match &mut self.offscreen {
            Some(offscreen) => offscreen,
            None => {
                return Err(BlurError::Effect(EffectError::MissingOffscreen));
            },
        };
        let texture: K::VulkanTexture = match offscreen.texture {
            TtyOffscreen::Vulkan(texture) => texture,
            _ => {
                return Err(BlurError::Effect(EffectError::NotVulkan));
            },
        };
        if !blur {
            return Ok(texture);
        }
        if let Some(TtyOffscreen::Vulkan(blurred)) = offscreen.blurred {
            return Ok(blurred);
        }
        match &self.blur {
            Some(BlurVariant::Vulkan(program)) => match render_blur(program, texture, options) {
                Ok(blurred) => {
                    offscreen.blurred = Some(TtyOffscreen::Vulkan(blurred));
                    Ok(blurred)
                },
                Err(err) => Err(BlurError::Blur(err)),
            },
            _ => Err(BlurError::Effect(EffectError::MissingBlur)),
        }
    }
}

/// The renderer for which contents are prepared, if there is one. GLES takes precedence.
pub fn prepare_api(has_gles: bool, has_vulkan: bool) -> (api: Option<RenderApi>)
    ensures
        api == if has_gles {
            Some(RenderApi::Gles)
        } else if has_vulkan {
            Some(RenderApi::Vulkan)
        } else {
            None
        },
{
    if has_gles {
        Some(RenderApi::Gles)
    } else if has_vulkan {
        Some(RenderApi::Vulkan)
    } else {
        None
    }
}

/// A blurred texture that is no longer current is dropped: after a change of options, after a
/// change of scale, and after a render that damaged the texture. Otherwise it is kept.
pub proof fn law_outdated_blur_is_dropped<K: EffectTypes>(
    buffer: EffectBuffer<K>,
    offscreen: Offscreen<K>,
    options: K::BlurOptions,
    scale: FractionalScale,
    tracker: K::DamageTracker,
    states: K::RenderStates,
    damaged: bool,
)
    ensures
        buffer.with_options(options).offscreen matches Some(after) ==> after.blurred is None,
        EffectBuffer::rescaled(offscreen, scale, tracker).blurred == if offscreen.scale == scale {
            offscreen.blurred
        } else {
            None
        },
        EffectBuffer::rendered(offscreen, states, damaged).blurred == if damaged {
            None
        } else {
            offscreen.blurred
        },
{
}

/// Changing the options moves the commit counter exactly if that drops a blurred texture, so that
/// what was drawn with it is drawn anew.
pub proof fn law_dropping_the_blur_is_a_change<K: EffectTypes>(
    buffer: EffectBuffer<K>,
    options: K::BlurOptions,
)
    ensures
        buffer.with_options(options).commit_counter != buffer.commit_counter <==> (buffer.offscreen
            matches Some(offscreen) && offscreen.blurred is Some),
{
}

/// A texture that was just created is kept for the next render in the same context, as long as
/// nothing else uses it and the size does not change.
pub proof fn law_created_offscreen_is_kept<K: EffectTypes>(
    buffer: EffectBuffer<K>,
    texture: TtyOffscreen<K::GlesTexture, K::VulkanTexture, K::MultiTexture>,
    context: ContextId,
    damage: K::DamageTracker,
    states: K::RenderStates,
)
    ensures
        buffer.with_texture(texture, context, damage, states).recreate_reason(
            context,
            true,
        ) is None,
{
}

/// Once the offscreen contents are prepared, the offscreen buffer has the size and the scale of the
/// effect buffer, belongs to the renderer context, and shows all elements.
pub proof fn law_prepared_offscreen_is_current<
    K: EffectTypes,
    E,
    FC: FnOnce(Size<i32>) -> Result<
        TtyOffscreen<K::GlesTexture, K::VulkanTexture, K::MultiTexture>,
        E,
    >,
    FT: Fn(Size<i32>, FractionalScale) -> K::DamageTracker,
    FR: FnOnce(
        TtyOffscreen<K::GlesTexture, K::VulkanTexture, K::MultiTexture>,
        &K::DamageTracker,
        &ElementStore<K::GlesElement, K::VulkanElement>,
    ) -> Result<(K::RenderStates, bool), E>,
>(
    before: EffectBuffer<K>,
    after: EffectBuffer<K>,
    result: Result<(), OffscreenError<E>>,
    api: RenderApi,
    context: ContextId,
    unique: bool,
    states: K::RenderStates,
    create: FC,
    tracker: FT,
    render: FR,
)
    requires
        offscreen_prepared(
            before,
            after,
            result,
            api,
            context,
            unique,
            states,
            create,
            tracker,
            render,
        ),
        result is Ok,
    ensures
        after.offscreen matches Some(offscreen) && {
            &&& offscreen.size == after.size
            &&& offscreen.scale == after.scale
            &&& offscreen.renderer_context_id == context
        },
        after.elements is Unchanged,
        after.recreate_reason(context, true) is None,
        after == (EffectBuffer {
            elements: after.elements,
            offscreen: after.offscreen,
            commit_counter: after.commit_counter,
            ..before
        }),
{
}

/// Preparing the offscreen contents a second time changes nothing, as long as nothing else has come
/// to use the texture.
pub proof fn law_preparing_again_changes_nothing<
    K: EffectTypes,
    E,
    FC: FnOnce(Size<i32>) -> Result<
        TtyOffscreen<K::GlesTexture, K::VulkanTexture, K::MultiTexture>,
        E,
    >,
    FT: Fn(Size<i32>, FractionalScale) -> K::DamageTracker,
    FR: FnOnce(
        TtyOffscreen<K::GlesTexture, K::VulkanTexture, K::MultiTexture>,
        &K::DamageTracker,
        &ElementStore<K::GlesElement, K::VulkanElement>,
    ) -> Result<(K::RenderStates, bool), E>,
>(
    before: EffectBuffer<K>,
    once: EffectBuffer<K>,
    twice: EffectBuffer<K>,
    first: Result<(), OffscreenError<E>>,
    second: Result<(), OffscreenError<E>>,
    api: RenderApi,
    context: ContextId,
    unique: bool,
    states: K::RenderStates,
    create: FC,
    tracker: FT,
    render: FR,
)
    requires
        offscreen_prepared(
            before,
            once,
            first,
            api,
            context,
            unique,
            states,
            create,
            tracker,
            render,
        ),
        first is Ok,
        offscreen_prepared(
            once,
            twice,
            second,
            api,
            context,
            true,
            states,
            create,
            tracker,
            render,
        ),
    ensures
        second is Ok,
        twice == once,
{
}

/// A blurred texture is kept only as long as it shows what the offscreen texture shows: then
/// neither has changed, and the commit counter has not moved.
pub proof fn law_kept_blur_is_current<
    K: EffectTypes,
    E,
    FC: FnOnce(Size<i32>) -> Result<
        TtyOffscreen<K::GlesTexture, K::VulkanTexture, K::MultiTexture>,
        E,
    >,
    FT: Fn(Size<i32>, FractionalScale) -> K::DamageTracker,
    FR: FnOnce(
        TtyOffscreen<K::GlesTexture, K::VulkanTexture, K::MultiTexture>,
        &K::DamageTracker,
        &ElementStore<K::GlesElement, K::VulkanElement>,
    ) -> Result<(K::RenderStates, bool), E>,
>(
    before: EffectBuffer<K>,
    after: EffectBuffer<K>,
    result: Result<(), OffscreenError<E>>,
    api: RenderApi,
    context: ContextId,
    unique: bool,
    states: K::RenderStates,
    create: FC,
    tracker: FT,
    render: FR,
)
    requires
        offscreen_prepared(
            before,
            after,
            result,
            api,
            context,
            unique,
            states,
            create,
            tracker,
            render,
        ),
        after.offscreen matches Some(offscreen) && offscreen.blurred is Some,
    ensures
        before.offscreen matches Some(offscreen) && {
            &&& offscreen.texture == after.offscreen->0.texture
            &&& offscreen.blurred == after.offscreen->0.blurred
        },
        after.commit_counter == before.commit_counter,
{
}

/// Once the blur is prepared on the renderer that the offscreen texture belongs to, drawing the
/// blurred effect finds a texture, if the blur shader is there.
pub proof fn law_prepared_blur_can_be_drawn<
    K: EffectTypes,
    E,
    FM: FnOnce() -> Option<BlurVariant<K>>,
    FP: FnOnce(
        &BlurVariant<K>,
        TtyOffscreen<K::GlesTexture, K::VulkanTexture, K::MultiTexture>,
        K::BlurOptions,
    ) -> Result<(), E>,
>(
    before: EffectBuffer<K>,
    after: EffectBuffer<K>,
    result: Result<(), BlurError<E>>,
    api: RenderApi,
    context: ContextId,
    make_blur: FM,
    prepare_textures: FP,
)
    requires
        makes_usable_blur(make_blur, api, context),
        blur_prepared(before, after, result, api, context, make_blur, prepare_textures),
        result is Ok,
        after.blur is Some,
        after.offscreen matches Some(offscreen) && {
            &&& texture_of(offscreen.texture, api)
            &&& offscreen.blurred matches Some(blurred) ==> texture_of(blurred, api)
        },
    ensures
        api is Gles ==> after.gles_texture(true) is Ok,
        api is Vulkan ==> after.vulkan_texture(true) is Ok,
{
}

/// Every change moves the commit counter, even at its limit.
pub proof fn law_commit_counter_moves(counter: CommitCounter)
    ensures
        counter.next() != counter,
{
}

/// The offscreen texture is kept exactly if there is one, it has the size of the buffer, nothing
/// else uses it, and it belongs to the renderer context.
pub proof fn law_offscreen_texture_is_kept_while_it_fits<K: EffectTypes>(
    buffer: EffectBuffer<K>,
    context: ContextId,
    unique: bool,
)
    ensures
        buffer.recreate_reason(context, unique) is None <==> unique && (buffer.offscreen matches Some(
            offscreen,
        ) && offscreen.size.w == buffer.size.w && offscreen.size.h == buffer.size.h
            && offscreen.renderer_context_id == context),
{
}

/// Taking over another scale drops the blurred texture and is a change of contents. Nothing happens
/// if the scale is the same.
pub proof fn law_change_of_scale_is_a_change<
    K: EffectTypes,
    FT: Fn(Size<i32>, FractionalScale) -> K::DamageTracker,
>(before: EffectBuffer<K>, after: EffectBuffer<K>, tracker: FT)
    requires
        before.offscreen is Some,
        has_scale(before, after, tracker),
    ensures
        after.offscreen is Some,
        after.offscreen->0.scale.n120 == before.scale.n120,
        after.offscreen->0.texture == before.offscreen->0.texture,
        after.scale == before.scale && after.size == before.size && after.elements
            == before.elements,
        before.offscreen->0.scale.n120 != before.scale.n120 ==> after.offscreen->0.blurred is None
            && after.commit_counter != before.commit_counter,
        before.offscreen->0.scale.n120 == before.scale.n120 ==> after == before,
{
}

/// A render that damages the offscreen texture is a change of contents and drops the blurred
/// texture. One that does not is none, and keeps it.
pub proof fn law_damage_is_a_change<
    K: EffectTypes,
    E,
    FR: FnOnce(
        TtyOffscreen<K::GlesTexture, K::VulkanTexture, K::MultiTexture>,
        &K::DamageTracker,
        &ElementStore<K::GlesElement, K::VulkanElement>,
    ) -> Result<(K::RenderStates, bool), E>,
>(
    before: EffectBuffer<K>,
    after: EffectBuffer<K>,
    result: Result<(), OffscreenError<E>>,
    api: RenderApi,
    render: FR,
    damaged: bool,
)
    requires
        before.offscreen is Some,
        before.elements is New,
        has_contents(before, after, result, api, render),
        result is Ok,
        forall|
            texture: TtyOffscreen<K::GlesTexture, K::VulkanTexture, K::MultiTexture>,
            damage: &K::DamageTracker,
            elements: &ElementStore<K::GlesElement, K::VulkanElement>,
            rendered: Result<(K::RenderStates, bool), E>,
        | #[trigger]
            call_ensures(render, (texture, damage, elements), rendered) ==> (rendered matches Ok((
                _,
                d,
            )) && d == damaged),
    ensures
        after.offscreen is Some,
        after.offscreen->0.texture == before.offscreen->0.texture,
        damaged ==> after.commit_counter != before.commit_counter && after.offscreen->0.blurred is None,
        !damaged ==> after.commit_counter == before.commit_counter && after.offscreen->0.blurred
            == before.offscreen->0.blurred,
{
}

/// New elements are rendered, all of those that are for the renderer, and then they are gone. They
/// are rendered into the offscreen texture, which has to be one of the renderer, and the states that
/// gives are kept.
pub proof fn law_new_elements_are_rendered<
    K: EffectTypes,
    E,
    FR: FnOnce(
        TtyOffscreen<K::GlesTexture, K::VulkanTexture, K::MultiTexture>,
        &K::DamageTracker,
        &ElementStore<K::GlesElement, K::VulkanElement>,
    ) -> Result<(K::RenderStates, bool), E>,
>(
    before: EffectBuffer<K>,
    after: EffectBuffer<K>,
    result: Result<(), OffscreenError<E>>,
    api: RenderApi,
    render: FR,
)
    requires
        before.offscreen is Some,
        before.elements is New,
        has_contents(before, after, result, api, render),
        result is Ok,
    ensures
        after.elements is Unchanged,
        match api {
            RenderApi::Gles => before.offscreen->0.texture is Gles && exists|
                elements: Vec<K::GlesElement>,
                rendered: Result<(K::RenderStates, bool), E>,
            | #[trigger]
                call_ensures(
                    render,
                    (
                        before.offscreen->0.texture,
                        &before.offscreen->0.damage,
                        &ElementStore::<K::GlesElement, K::VulkanElement>::Gles(elements),
                    ),
                    rendered,
                ) && (rendered matches Ok((states, _)) && states == after.offscreen->0.states) && (before.elements.store() matches ElementStore::Gles(own) ==> elements@ == own@),
            RenderApi::Vulkan => before.offscreen->0.texture is Vulkan && exists|
                elements: Vec<K::VulkanElement>,
                rendered: Result<(K::RenderStates, bool), E>,
            | #[trigger]
                call_ensures(
                    render,
                    (
                        before.offscreen->0.texture,
                        &before.offscreen->0.damage,
                        &ElementStore::<K::GlesElement, K::VulkanElement>::Vulkan(elements),
                    ),
                    rendered,
                ) && (rendered matches Ok((states, _)) && states == after.offscreen->0.states) && (before.elements.store() matches ElementStore::Vulkan(own) ==> elements@
                == own@),
        },
{
    let offscreen = before.offscreen->0;
    let store = before.elements.store();
    let (elements, rendered) = choose|
        elements: ElementStore<K::GlesElement, K::VulkanElement>,
        rendered: Result<(K::RenderStates, bool), E>,
    |
        {
            &&& elements.api() == api
            &&& api is Gles ==> elements.gles_spec() == store.gles_spec()
            &&& api is Vulkan ==> elements.vulkan_spec() == store.vulkan_spec()
            &&& #[trigger] call_ensures(
                render,
                (offscreen.texture, &offscreen.damage, &elements),
                rendered,
            )
            &&& match rendered {
                Err(err) => {
                    &&& result == Err::<(), OffscreenError<E>>(OffscreenError::Render(err))
                    &&& no_elements::<K>(after.elements)
                    &&& after == (EffectBuffer { elements: after.elements, ..before })
                },
                Ok((states, damaged)) => {
                    &&& result is Ok
                    &&& after.elements is Unchanged
                    &&& after.elements.store().api() == api
                    &&& after.elements.store().is_empty_spec()
                    &&& after == (EffectBuffer {
                        elements: after.elements,
                        offscreen: Some(EffectBuffer::rendered(offscreen, states, damaged)),
                        commit_counter: if damaged {
                            before.commit_counter.next()
                        } else {
                            before.commit_counter
                        },
                        ..before
                    })
                },
            }
        };
    match elements {
        ElementStore::Gles(own) => {
            assert(call_ensures(
                render,
                (
                    offscreen.texture,
                    &offscreen.damage,
                    &ElementStore::<K::GlesElement, K::VulkanElement>::Gles(own),
                ),
                rendered,
            ));
        },
        ElementStore::Vulkan(own) => {
            assert(call_ensures(
                render,
                (
                    offscreen.texture,
                    &offscreen.damage,
                    &ElementStore::<K::GlesElement, K::VulkanElement>::Vulkan(own),
                ),
                rendered,
            ));
        },
    }
}

/// An effect without blur is drawn from the offscreen texture, and one with blur never is: it is
/// drawn from the blurred texture, which is rendered from the offscreen texture if it is missing. A
/// texture of another renderer is not drawn.
pub proof fn law_effects_are_drawn_from_their_texture<K: EffectTypes>(
    buffer: EffectBuffer<K>,
    offscreen: Offscreen<K>,
)
    requires
        buffer.offscreen == Some(offscreen),
    ensures
        match offscreen.texture {
            TtyOffscreen::Gles(sharp) => {
                &&& buffer.gles_texture(false) == Ok::<_, EffectError>(DrawTexture::Ready(sharp))
                &&& buffer.vulkan_texture(false) is Err && buffer.vulkan_texture(true) is Err
                &&& match buffer.gles_texture(true) {
                    Ok(DrawTexture::Ready(texture)) => offscreen.blurred == Some(
                        TtyOffscreen::<
                            K::GlesTexture,
                            K::VulkanTexture,
                            K::MultiTexture,
                        >::Gles(texture),
                    ),
                    Ok(DrawTexture::Blur(texture)) => texture == sharp && !(offscreen.blurred
                        matches Some(TtyOffscreen::Gles(_))),
                    Err(err) => err == EffectError::MissingBlur && !(buffer.blur matches Some(
                        BlurVariant::Gles(_, _),
                    )),
                }
            },
            TtyOffscreen::Vulkan(sharp) => {
                &&& buffer.vulkan_texture(false) == Ok::<_, EffectError>(DrawTexture::Ready(sharp))
                &&& buffer.gles_texture(false) is Err && buffer.gles_texture(true) is Err
                &&& match buffer.vulkan_texture(true) {
                    Ok(DrawTexture::Ready(texture)) => offscreen.blurred == Some(
                        TtyOffscreen::<
                            K::GlesTexture,
                            K::VulkanTexture,
                            K::MultiTexture,
                        >::Vulkan(texture),
                    ),
                    Ok(DrawTexture::Blur(texture)) => texture == sharp && !(offscreen.blurred
                        matches Some(TtyOffscreen::Vulkan(_))),
                    Err(err) => err == EffectError::MissingBlur && !(buffer.blur matches Some(
                        BlurVariant::Vulkan(_),
                    )),
                }
            },
            TtyOffscreen::Multi(_) => buffer.gles_texture(false) is Err && buffer.vulkan_texture(
                false,
            ) is Err,
        },
{
}

/// A blurred texture that was rendered is drawn from then on, and drawing without blur is as before.
pub proof fn law_rendered_blur_is_reused<K: EffectTypes>(
    buffer: EffectBuffer<K>,
    sharp: K::GlesTexture,
    blurred: K::GlesTexture,
)
    requires
        buffer.offscreen matches Some(offscreen) && offscreen.texture == TtyOffscreen::<
            K::GlesTexture,
            K::VulkanTexture,
            K::MultiTexture,
        >::Gles(sharp),
    ensures
        ({
            let after = buffer.with_blurred(TtyOffscreen::Gles(blurred));
            &&& after.gles_texture(true) == Ok::<_, EffectError>(DrawTexture::Ready(blurred))
            &&& after.gles_texture(false) == Ok::<_, EffectError>(DrawTexture::Ready(sharp))
            &&& after.commit_counter == buffer.commit_counter
        }),
{
}

/// Only a texture of the renderer and of its context is blurred there, and only with a program for
/// that renderer and, on GLES, for that context.
pub proof fn law_blurs_stay_on_their_renderer<K: EffectTypes>(
    buffer: EffectBuffer<K>,
    api: RenderApi,
    context: ContextId,
)
    ensures
        match buffer.texture_to_blur(api, context) {
            Ok(texture) => {
                &&& buffer.offscreen matches Some(offscreen)
                &&& offscreen.texture == texture
                &&& offscreen.renderer_context_id == context
                &&& api == RenderApi::Gles ==> texture is Gles
                &&& api == RenderApi::Vulkan ==> texture is Vulkan
            },
            Err(EffectError::MissingOffscreen) => buffer.offscreen is None,
            Err(EffectError::WrongContext) => buffer.offscreen matches Some(offscreen)
                && offscreen.renderer_context_id != context,
            Err(EffectError::NotGles) => buffer.offscreen matches Some(offscreen)
                && offscreen.texture !is Gles && api == RenderApi::Gles,
            Err(EffectError::NotVulkan) => buffer.offscreen matches Some(offscreen)
                && offscreen.texture !is Vulkan && api == RenderApi::Vulkan,
            Err(EffectError::MissingBlur) => false,
        },
        blur_usable(buffer.blur, api, context) <==> match buffer.blur {
            Some(BlurVariant::Gles(_, own)) => api == RenderApi::Gles && own.0 == context.0,
            Some(BlurVariant::Vulkan(_)) => api == RenderApi::Vulkan,
            None => false,
        },
{
}

/// New options are taken over, and nothing but the blurred texture and the commit counter changes
/// with them.
pub proof fn law_new_blur_options_are_taken_over<K: EffectTypes>(
    buffer: EffectBuffer<K>,
    options: K::BlurOptions,
)
    ensures
        ({
            let after = buffer.with_options(options);
            &&& after.blur_options == options
            &&& after.size == buffer.size && after.scale == buffer.scale
            &&& after.elements == buffer.elements && after.blur == buffer.blur
            &&& after.offscreen is Some <==> buffer.offscreen is Some
            &&& buffer.offscreen is Some ==> after.offscreen->0.texture
                == buffer.offscreen->0.texture && after.offscreen->0.states
                == buffer.offscreen->0.states
        }),
{
}

/// Contents are prepared for the GLES renderer if there is one, else for the Vulkan renderer.
pub proof fn law_contents_are_prepared_for_a_renderer(
    has_gles: bool,
    has_vulkan: bool,
    api: Option<RenderApi>,
)
    requires
        call_ensures(prepare_api, (has_gles, has_vulkan), api),
    ensures
        has_gles ==> api == Some(RenderApi::Gles),
        !has_gles && has_vulkan ==> api == Some(RenderApi::Vulkan),
        !has_gles && !has_vulkan ==> api is None,
{
}

/// The logical size of the buffer, times its scale of `n120 / 120`, is its size in pixels.
pub proof fn law_logical_size_of_effects<K: EffectTypes>(
    buffer: EffectBuffer<K>,
    size: Size<LogicalCoord>,
)
    requires
        call_ensures(EffectBuffer::<K>::logical_size, (&buffer,), size),
    ensures
        size.w.num * buffer.scale.n120 == buffer.size.w * 120 * size.w.den,
        size.h.num * buffer.scale.n120 == buffer.size.h * 120 * size.h.den,
        buffer.scale.n120 > 0 ==> size.w.den > 0 && size.h.den > 0,
{
    assert(size.w.den == buffer.scale.n120 && size.h.den == buffer.scale.n120);
}

/// Without a texture nothing is rendered: if none can be created, the old one is gone, and the
/// elements are still new. A texture that does not belong to the renderer is not rendered to.
pub proof fn law_failed_preparations<
    K: EffectTypes,
    E,
    FC: FnOnce(Size<i32>) -> Result<
        TtyOffscreen<K::GlesTexture, K::VulkanTexture, K::MultiTexture>,
        E,
    >,
    FT: Fn(Size<i32>, FractionalScale) -> K::DamageTracker,
    FR: FnOnce(
        TtyOffscreen<K::GlesTexture, K::VulkanTexture, K::MultiTexture>,
        &K::DamageTracker,
        &ElementStore<K::GlesElement, K::VulkanElement>,
    ) -> Result<(K::RenderStates, bool), E>,
>(
    before: EffectBuffer<K>,
    after: EffectBuffer<K>,
    result: Result<(), OffscreenError<E>>,
    api: RenderApi,
    context: ContextId,
    unique: bool,
    states: K::RenderStates,
    create: FC,
    tracker: FT,
    render: FR,
)
    requires
        offscreen_prepared(
            before,
            after,
            result,
            api,
            context,
            unique,
            states,
            create,
            tracker,
            render,
        ),
    ensures
        result matches Err(OffscreenError::Create(_)) ==> after.offscreen is None && after.elements
            == before.elements && after.commit_counter == before.commit_counter,
        result matches Err(OffscreenError::DifferentRenderer) ==> after.offscreen matches Some(
            offscreen,
        ) && !(api == RenderApi::Gles && offscreen.texture is Gles) && !(api == RenderApi::Vulkan
            && offscreen.texture is Vulkan),
        result is Ok && before.elements is New ==> after.offscreen is Some && (match api {
            RenderApi::Gles => after.offscreen->0.texture is Gles,
            RenderApi::Vulkan => after.offscreen->0.texture is Vulkan,
        }),
{
}

/// Preparing the blur changes nothing but the blurring program, and that only if it is missing or
/// made for another renderer. A blurred texture that is there needs no preparation.
pub proof fn law_blur_is_prepared_when_needed<
    K: EffectTypes,
    E,
    FM: FnOnce() -> Option<BlurVariant<K>>,
    FP: FnOnce(
        &BlurVariant<K>,
        TtyOffscreen<K::GlesTexture, K::VulkanTexture, K::MultiTexture>,
        K::BlurOptions,
    ) -> Result<(), E>,
>(
    before: EffectBuffer<K>,
    after: EffectBuffer<K>,
    result: Result<(), BlurError<E>>,
    api: RenderApi,
    context: ContextId,
    make_blur: FM,
    prepare_textures: FP,
)
    requires
        blur_prepared(before, after, result, api, context, make_blur, prepare_textures),
    ensures
        after == (EffectBuffer { blur: after.blur, ..before }),
        before.offscreen is None ==> result is Err && after == before,
        before.offscreen matches Some(offscreen) && offscreen.blurred is Some ==> result is Ok
            && after == before,
        api == RenderApi::Gles && (before.blur matches Some(BlurVariant::Gles(_, own)) && own
            == context) ==> after == before,
        api == RenderApi::Vulkan && (before.blur matches Some(BlurVariant::Vulkan(_))) ==> after
            == before,
        after.blur is None && before.offscreen is Some ==> result is Ok,
        result matches Err(BlurError::Blur(err)) ==> before.offscreen is Some && after.blur is Some
            && call_ensures(
            prepare_textures,
            (&after.blur->0, before.offscreen->0.texture, before.blur_options),
            Err::<(), E>(err),
        ),
{
}

/// The damage tracker of a prepared offscreen buffer is made for the size and scale that the buffer
/// has, and so is its texture: they are new ones, or those of before if nothing of that changed.
pub proof fn law_damage_trackers_match_their_texture<
    K: EffectTypes,
    E,
    FC: FnOnce(Size<i32>) -> Result<
        TtyOffscreen<K::GlesTexture, K::VulkanTexture, K::MultiTexture>,
        E,
    >,
    FT: Fn(Size<i32>, FractionalScale) -> K::DamageTracker,
    FR: FnOnce(
        TtyOffscreen<K::GlesTexture, K::VulkanTexture, K::MultiTexture>,
        &K::DamageTracker,
        &ElementStore<K::GlesElement, K::VulkanElement>,
    ) -> Result<(K::RenderStates, bool), E>,
>(
    before: EffectBuffer<K>,
    after: EffectBuffer<K>,
    result: Result<(), OffscreenError<E>>,
    api: RenderApi,
    context: ContextId,
    unique: bool,
    states: K::RenderStates,
    create: FC,
    tracker: FT,
    render: FR,
)
    requires
        offscreen_prepared(
            before,
            after,
            result,
            api,
            context,
            unique,
            states,
            create,
            tracker,
            render,
        ),
    ensures
        after.offscreen matches Some(offscreen) ==> {
            ||| before.offscreen matches Some(kept) && kept.scale == before.scale && kept.size
                == before.size && kept.renderer_context_id == context && offscreen.damage
                == kept.damage
            ||| call_ensures(tracker, (before.size, before.scale), offscreen.damage)
        },
        after.offscreen matches Some(offscreen) ==> {
            ||| before.offscreen matches Some(kept) && kept.size == before.size
                && kept.renderer_context_id == context && offscreen.texture == kept.texture
            ||| call_ensures(create, (before.size,), Ok(offscreen.texture))
        },
        before.elements is Unchanged ==> (after.offscreen matches Some(offscreen) ==> {
            ||| offscreen.states == states
            ||| before.offscreen matches Some(kept) && offscreen.states == kept.states
        }),
{
}

/// A GLES frame draws the offscreen texture, or its blurred version: the one that is there, or else
/// one that is rendered from it with the options, and kept. Nothing else of the buffer changes.
pub proof fn law_gles_frames_draw_the_effect<
    K: EffectTypes,
    E,
    F: FnOnce(&K::GlesBlur, K::GlesTexture, K::BlurOptions) -> Result<K::GlesTexture, E>,
>(
    buffer: &mut EffectBuffer<K>,
    blur: bool,
    render_blur: F,
    texture: Result<K::GlesTexture, BlurError<E>>,
)
    requires
        call_ensures(
            EffectBuffer::<K>::render_gles::<E, F>,
            (buffer, blur, render_blur),
            texture,
        ),
    ensures
        final(buffer).commit_counter == old(buffer).commit_counter,
        final(buffer).size == old(buffer).size && final(buffer).scale == old(buffer).scale,
        texture is Err ==> *final(buffer) == *old(buffer),
        old(buffer).offscreen is None ==> texture is Err,
        texture matches Ok(drawn) ==> old(buffer).offscreen is Some && {
            let before = old(buffer).offscreen->0;
            &&& before.texture matches TtyOffscreen::Gles(sharp)
            &&& final(buffer).offscreen matches Some(after)
            &&& after.texture == before.texture
            &&& !blur ==> drawn == sharp && *final(buffer) == *old(buffer)
            &&& blur ==> after.blurred == Some(
                TtyOffscreen::<K::GlesTexture, K::VulkanTexture, K::MultiTexture>::Gles(drawn),
            )
            &&& blur && after.blurred != before.blurred ==> {
                &&& old(buffer).blur matches Some(BlurVariant::Gles(program, _))
                &&& call_ensures(
                    render_blur,
                    (&program, sharp, old(buffer).blur_options),
                    Ok::<K::GlesTexture, E>(drawn),
                )
            }
        },
{
}

/// A Vulkan frame draws the offscreen texture, or its blurred version: the one that is there, or
/// else one that is rendered from it with the options, and kept. Nothing else of the buffer changes.
pub proof fn law_vulkan_frames_draw_the_effect<
    K: EffectTypes,
    E,
    F: FnOnce(&K::VulkanBlur, K::VulkanTexture, K::BlurOptions) -> Result<K::VulkanTexture, E>,
>(
    buffer: &mut EffectBuffer<K>,
    blur: bool,
    render_blur: F,
    texture: Result<K::VulkanTexture, BlurError<E>>,
)
    requires
        call_ensures(
            EffectBuffer::<K>::render_vulkan::<E, F>,
            (buffer, blur, render_blur),
            texture,
        ),
    ensures
        final(buffer).commit_counter == old(buffer).commit_counter,
        final(buffer).size == old(buffer).size && final(buffer).scale == old(buffer).scale,
        texture is Err ==> *final(buffer) == *old(buffer),
        old(buffer).offscreen is None ==> texture is Err,
        texture matches Ok(drawn) ==> old(buffer).offscreen is Some && {
            let before = old(buffer).offscreen->0;
            &&& before.texture matches TtyOffscreen::Vulkan(sharp)
            &&& final(buffer).offscreen matches Some(after)
            &&& after.texture == before.texture
            &&& !blur ==> drawn == sharp && *final(buffer) == *old(buffer)
            &&& blur ==> after.blurred == Some(
                TtyOffscreen::<K::GlesTexture, K::VulkanTexture, K::MultiTexture>::Vulkan(drawn),
            )
            &&& blur && after.blurred != before.blurred ==> {
                &&& old(buffer).blur matches Some(BlurVariant::Vulkan(program))
                &&& call_ensures(
                    render_blur,
                    (&program, sharp, old(buffer).blur_options),
                    Ok::<K::VulkanTexture, E>(drawn),
                )
            }
        },
{
}

/// A prepared effect has an offscreen buffer of its size and scale in the renderer's context, with
/// no contents left to render. Without a renderer nothing is prepared, and without blur the
/// blurring program is left alone.
pub proof fn law_prepared_effects_can_be_drawn<
    K: EffectTypes,
    E,
    FC: FnOnce(Size<i32>) -> Result<
        TtyOffscreen<K::GlesTexture, K::VulkanTexture, K::MultiTexture>,
        E,
    >,
    FT: Fn(Size<i32>, FractionalScale) -> K::DamageTracker,
    FR: FnOnce(
        TtyOffscreen<K::GlesTexture, K::VulkanTexture, K::MultiTexture>,
        &K::DamageTracker,
        &ElementStore<K::GlesElement, K::VulkanElement>,
    ) -> Result<(K::RenderStates, bool), E>,
    FM: FnOnce() -> Option<BlurVariant<K>>,
    FP: FnOnce(
        &BlurVariant<K>,
        TtyOffscreen<K::GlesTexture, K::VulkanTexture, K::MultiTexture>,
        K::BlurOptions,
    ) -> Result<(), E>,
>(
    buffer: &mut EffectBuffer<K>,
    api: Option<RenderApi>,
    context: ContextId,
    unique: bool,
    states: K::RenderStates,
    blur: bool,
    create: FC,
    tracker: FT,
    render: FR,
    make_blur: FM,
    prepare_textures: FP,
    prepared: bool,
)
    requires
        call_ensures(
            EffectBuffer::<K>::prepare::<E, FC, FT, FR, FM, FP>,
            (
                buffer,
                api,
                context,
                unique,
                states,
                blur,
                create,
                tracker,
                render,
                make_blur,
                prepare_textures,
            ),
            prepared,
        ),
    ensures
        final(buffer).size == old(buffer).size && final(buffer).scale == old(buffer).scale,
        final(buffer).blur_options == old(buffer).blur_options && final(buffer).id
            == old(buffer).id,
        api is None ==> !prepared && *final(buffer) == *old(buffer),
        !blur ==> final(buffer).blur == old(buffer).blur,
        prepared ==> final(buffer).elements is Unchanged && final(buffer).offscreen is Some && {
            let offscreen = final(buffer).offscreen->0;
            &&& offscreen.size == old(buffer).size
            &&& offscreen.scale == old(buffer).scale
            &&& offscreen.renderer_context_id == context
        },
{
}

/// New options for blurring leave the contents alone, and a buffer takes over the size and scale
/// that it is given.
pub proof fn law_updates_keep_the_contents<K: EffectTypes>(
    resized: &mut EffectBuffer<K>,
    size: Size<i32>,
    scale: FractionalScale,
    updated: &mut EffectBuffer<K>,
    options: K::BlurOptions,
    cleared: &mut EffectBuffer<K>,
)
    requires
        call_ensures(EffectBuffer::<K>::update_size, (resized, size, scale), ()),
        call_ensures(EffectBuffer::<K>::update_blur_options, (updated, options), ()),
        call_ensures(EffectBuffer::<K>::clear_elements, (cleared,), ()),
    ensures
        *final(resized) == (EffectBuffer { size, scale, ..*old(resized) }),
        final(updated).elements == old(updated).elements,
        final(updated).offscreen is Some <==> old(updated).offscreen is Some,
        final(updated).offscreen is Some ==> (final(updated).offscreen->0).texture
            == (old(updated).offscreen->0).texture,
        final(updated).commit_counter == old(updated).commit_counter ==> final(updated).offscreen
            == old(updated).offscreen,
        final(updated).size == old(updated).size && final(updated).scale == old(updated).scale
            && final(updated).blur == old(updated).blur,
        final(cleared).elements is New && final(cleared).elements.store().is_empty_spec(),
        final(cleared).offscreen == old(cleared).offscreen && final(cleared).commit_counter
            == old(cleared).commit_counter,
{
}

} // verus!
