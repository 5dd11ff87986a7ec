use std::cell::{Cell, RefCell};

use niri::backend::tty_renderer::{RenderApi, TtyFrame, TtyOffscreen};
use niri::render_helpers::blend::{FrameBlendState, GlesBlend, Luminance};
use niri::render_helpers::effect_buffer::{
    prepare_api, BlurError, BlurVariant, CommitCounter, ContextId, EffectBuffer, EffectError,
    EffectTypes, ElementStore, Elements, GlesStore, OffscreenError, VulkanStore,
};
use niri::render_helpers::gradient_fade_texture::{
    GradientFadeShader, GradientFadeTextureRenderElement, VulkanTexFrame,
};
use niri::render_helpers::shaders::compile::{ProgramRequest, ShaderSources};
use niri::render_helpers::shaders::{NiriTexProgram, Shaders};
use niri::render_helpers::snapshot::{RenderSnapshot, SnapshotVariant};
use niri::render_helpers::texture::{
    Kind, MemoryBuffer, TextureBuffer, TextureRenderElement, UniversalDraw,
    UniversalTextureRenderElement,
};
use niri::render_helpers::uniform::UniformValue;
use niri::utils::geometry::{FractionalScale, LogicalCoord, Point, Rectangle, Size, Transform};
use niri::utils::ratio::Ratio;

struct Types;

impl EffectTypes for Types {
    type GlesElement = &'static str;
    type VulkanElement = u8;
    type GlesTexture = u32;
    type VulkanTexture = u32;
    type MultiTexture = u32;
    type GlesBlur = &'static str;
    type VulkanBlur = &'static str;
    type DamageTracker = (i32, u32);
    type RenderStates = u64;
    type BlurOptions = u8;
}

const ONE: FractionalScale = FractionalScale { n120: 120 };
const TWO: FractionalScale = FractionalScale { n120: 240 };
const GLES: ContextId = ContextId(1);
const OTHER: ContextId = ContextId(2);

fn buffer() -> EffectBuffer<Types> {
    let mut buffer = EffectBuffer::new(7, 3);
    buffer.update_size(Size::new(300, 200), ONE);
    buffer
}

type Texture = TtyOffscreen<u32, u32, u32>;

/// Prepares the offscreen contents, counting what was created and rendered.
struct Gpu {
    api: RenderApi,
    context: ContextId,
    unique: bool,
    texture: Result<Texture, &'static str>,
    rendered: Result<(u64, bool), &'static str>,
    created: Cell<Option<Size<i32>>>,
    trackers: Cell<u32>,
    drawn: RefCell<Option<String>>,
}

fn gpu() -> Gpu {
    Gpu {
        api: RenderApi::Gles,
        context: GLES,
        unique: true,
        texture: Ok(TtyOffscreen::Gles(50)),
        rendered: Ok((9, true)),
        created: Cell::new(None),
        trackers: Cell::new(0),
        drawn: RefCell::new(None),
    }
}

impl Gpu {
    fn prepare(
        &self,
        buffer: &mut EffectBuffer<Types>,
    ) -> Result<(), OffscreenError<&'static str>> {
        buffer.prepare_offscreen(
            self.api,
            self.context,
            self.unique,
            0,
            |size: Size<i32>| {
                self.created.set(Some(size));
                self.texture
            },
            |size: Size<i32>, scale: FractionalScale| {
                self.trackers.set(self.trackers.get() + 1);
                (size.w, scale.n120)
            },
            |texture: Texture, damage: &(i32, u32), elements: &ElementStore<&str, u8>| {
                let mut drawn = self.drawn.borrow_mut();
                *drawn = Some(format!("{texture:?} {damage:?} {elements:?}"));
                self.rendered
            },
        )
    }
}

fn with_offscreen() -> EffectBuffer<Types> {
    let mut buffer = buffer();
    gpu().prepare(&mut buffer).unwrap();
    buffer
}

/// Blurs the offscreen texture of a GLES buffer into texture 60.
fn blur(buffer: &mut EffectBuffer<Types>) {
    prepare_blur(buffer, RenderApi::Gles, GLES, Some(BlurVariant::Gles("blur", GLES))).unwrap();
    let texture = buffer.render_gles(true, |_: &&str, _: u32, _: u8| Ok::<_, ()>(60));
    assert_eq!(texture, Ok(60));
    assert_eq!(blurred(buffer), Some(TtyOffscreen::Gles(60)));
}

fn blurred(buffer: &EffectBuffer<Types>) -> Option<Texture> {
    buffer.offscreen.as_ref().unwrap().blurred
}

fn prepare_blur(
    buffer: &mut EffectBuffer<Types>,
    api: RenderApi,
    context: ContextId,
    made: Option<BlurVariant<Types>>,
) -> Result<(), BlurError<()>> {
    buffer.prepare_blur(
        api,
        context,
        || made,
        |_: &BlurVariant<Types>, _: Texture, _: u8| Ok(()),
    )
}

#[test]
fn new_effect_buffers_are_empty() {
    let buffer: EffectBuffer<Types> = EffectBuffer::new(7, 3);
    assert_eq!(buffer.id(), 7);
    assert_eq!(buffer.commit(), CommitCounter(0));
    assert_eq!(buffer.scale(), ONE);
    assert_eq!(buffer.size, Size::new(0, 0));
    assert!(buffer.render_element_states().is_none());
    assert!(matches!(buffer.elements, Elements::Unchanged(_)));

    let mut buffer = self::buffer();
    buffer.update_size(Size::new(300, 200), TWO);
    let size = buffer.logical_size();
    assert_eq!(size.w, LogicalCoord { num: 300 * 120, den: 240 });
    assert_eq!(size.h, LogicalCoord { num: 200 * 120, den: 240 });
}

#[test]
fn offscreen_texture_is_recreated_when_needed() {
    let mut buffer = buffer();
    let first = gpu();
    assert_eq!(first.prepare(&mut buffer), Ok(()));
    assert_eq!(first.created.get(), Some(Size::new(300, 200)));
    assert_eq!(first.trackers.get(), 1);
    let offscreen = buffer.offscreen.as_ref().unwrap();
    assert_eq!(offscreen.texture, TtyOffscreen::Gles(50));
    assert_eq!(offscreen.damage, (300, 120));
    assert_eq!(buffer.render_element_states(), Some(&0));

    // Nothing has changed.
    let kept = gpu();
    assert_eq!(kept.prepare(&mut buffer), Ok(()));
    assert_eq!(kept.created.get(), None);
    assert_eq!(kept.trackers.get(), 0);

    let other_context = Gpu { context: OTHER, ..gpu() };
    assert_eq!(other_context.prepare(&mut buffer), Ok(()));
    assert!(other_context.created.get().is_some());
    let context = buffer.offscreen.as_ref().unwrap().renderer_context_id;
    assert_eq!(context, OTHER);

    let shared = Gpu { context: OTHER, unique: false, ..gpu() };
    assert_eq!(shared.prepare(&mut buffer), Ok(()));
    assert!(shared.created.get().is_some());

    buffer.update_size(Size::new(300, 201), ONE);
    let resized = Gpu { context: OTHER, ..gpu() };
    assert_eq!(resized.prepare(&mut buffer), Ok(()));
    assert_eq!(resized.created.get(), Some(Size::new(300, 201)));

    // Without a texture there is no offscreen buffer any more.
    let failing = Gpu { texture: Err("no memory"), ..gpu() };
    buffer.elements::<GlesStore>().push("a");
    assert_eq!(
        failing.prepare(&mut buffer),
        Err(OffscreenError::Create("no memory"))
    );
    assert!(buffer.offscreen.is_none());
    assert!(matches!(buffer.elements, Elements::New(_)));
}

#[test]
fn new_elements_are_rendered_once() {
    let mut buffer = with_offscreen();
    blur(&mut buffer);
    buffer.elements::<GlesStore>().push("a");
    buffer.elements::<GlesStore>().push("b");
    let first = gpu();
    assert_eq!(first.prepare(&mut buffer), Ok(()));
    let drawn = first.drawn.borrow().clone().unwrap();
    assert_eq!(drawn, "Gles(50) (300, 120) Gles([\"a\", \"b\"])");
    assert_eq!(buffer.commit(), CommitCounter(1));
    assert_eq!(buffer.render_element_states(), Some(&9));
    assert_eq!(blurred(&buffer), None);
    assert!(buffer.elements::<GlesStore>().is_empty());

    let mut buffer = with_offscreen();
    blur(&mut buffer);
    let unchanged = gpu();
    assert_eq!(unchanged.prepare(&mut buffer), Ok(()));
    assert!(unchanged.drawn.borrow().is_none());
    assert_eq!(buffer.commit(), CommitCounter(0));

    // A render without damage keeps the blurred texture.
    buffer.clear_elements();
    assert!(matches!(buffer.elements, Elements::New(_)));
    let undamaged = Gpu { rendered: Ok((10, false)), ..gpu() };
    assert_eq!(undamaged.prepare(&mut buffer), Ok(()));
    assert!(undamaged.drawn.borrow().is_some());
    assert_eq!(buffer.commit(), CommitCounter(0));
    assert_eq!(buffer.render_element_states(), Some(&10));
    assert!(blurred(&buffer).is_some());

    // New elements are gone even if rendering them failed.
    buffer.elements::<GlesStore>().push("a");
    let failing = Gpu { rendered: Err("lost"), ..gpu() };
    assert_eq!(
        failing.prepare(&mut buffer),
        Err(OffscreenError::Render("lost"))
    );
    assert!(matches!(&buffer.elements, Elements::Unchanged(_)));
    assert!(buffer.elements::<GlesStore>().is_empty());
    assert_eq!(buffer.render_element_states(), Some(&10));
}

#[test]
fn elements_belong_to_one_renderer() {
    let mut buffer = with_offscreen();
    buffer.elements::<GlesStore>().push("a");
    assert!(buffer.elements::<VulkanStore>().is_empty());
    buffer.elements::<VulkanStore>().push(1);
    assert_eq!(buffer.elements::<VulkanStore>(), &[1]);
    // The offscreen texture is a GLES one.
    let vulkan = Gpu { api: RenderApi::Vulkan, ..gpu() };
    assert_eq!(
        vulkan.prepare(&mut buffer),
        Err(OffscreenError::DifferentRenderer)
    );
    assert!(vulkan.drawn.borrow().is_none());
    assert!(matches!(buffer.elements, Elements::Unchanged(_)));

    buffer.elements::<VulkanStore>().push(1);
    let gles = gpu();
    assert_eq!(gles.prepare(&mut buffer), Ok(()));
    let drawn = gles.drawn.borrow().clone().unwrap();
    assert_eq!(drawn, "Gles(50) (300, 120) Gles([])");

    let mut store = ElementStore::<u8, u8>::Vulkan(vec![1, 2]);
    store.clear();
    assert!(matches!(&store, ElementStore::Vulkan(list) if list.is_empty()));
}

#[test]
fn scale_changes_recreate_the_damage_tracker() {
    let mut buffer = with_offscreen();
    blur(&mut buffer);
    buffer.update_size(Size::new(300, 200), TWO);
    let rescaled = gpu();
    assert_eq!(rescaled.prepare(&mut buffer), Ok(()));
    assert_eq!(rescaled.created.get(), None);
    assert_eq!(rescaled.trackers.get(), 1);
    assert!(rescaled.drawn.borrow().is_none());
    let offscreen = buffer.offscreen.as_ref().unwrap();
    assert_eq!(offscreen.damage, (300, 240));
    assert_eq!(offscreen.scale, TWO);
    assert_eq!(blurred(&buffer), None);
    assert_eq!(buffer.commit(), CommitCounter(1));
}

#[test]
fn blur_options_drop_the_blurred_texture() {
    let mut buffer = with_offscreen();
    buffer.update_blur_options(4);
    assert_eq!(buffer.blur_options, 4);
    assert_eq!(buffer.commit(), CommitCounter(0));
    blur(&mut buffer);
    buffer.update_blur_options(4);
    assert!(blurred(&buffer).is_some());
    buffer.update_blur_options(5);
    assert_eq!(blurred(&buffer), None);
    assert_eq!(buffer.commit(), CommitCounter(1));

    let mut counter = CommitCounter(usize::MAX);
    counter.increment();
    assert_eq!(counter, CommitCounter(0));
}

/// Equal whatever they hold, unless either is zero.
#[derive(Debug, Clone, Copy)]
struct Options(u8);

impl PartialEq for Options {
    fn eq(&self, other: &Self) -> bool {
        self.0 != 0 && other.0 != 0
    }
}

struct OddTypes;

impl EffectTypes for OddTypes {
    type GlesElement = u8;
    type VulkanElement = u8;
    type GlesTexture = u32;
    type VulkanTexture = u32;
    type MultiTexture = u32;
    type GlesBlur = u8;
    type VulkanBlur = u8;
    type DamageTracker = u8;
    type RenderStates = u8;
    type BlurOptions = Options;
}

#[test]
fn blur_options_are_kept_or_taken_over() {
    let mut buffer: EffectBuffer<OddTypes> = EffectBuffer::new(7, Options(1));
    buffer.update_blur_options(Options(2));
    assert_eq!(buffer.blur_options.0, 1);
    buffer.update_blur_options(Options(0));
    assert_eq!(buffer.blur_options.0, 0);
}

#[test]
fn blur_program_matches_the_renderer() {
    let gles = || Some(BlurVariant::Gles("blur", GLES));
    let mut buffer = buffer();
    assert_eq!(
        prepare_blur(&mut buffer, RenderApi::Gles, GLES, gles()),
        Err(BlurError::Effect(EffectError::MissingOffscreen))
    );
    assert!(buffer.blur.is_none());

    // A missing blur shader is no error.
    let mut buffer = with_offscreen();
    assert_eq!(
        prepare_blur(&mut buffer, RenderApi::Gles, GLES, None),
        Ok(())
    );
    assert!(buffer.blur.is_none());

    let prepared = buffer.prepare_blur(
        RenderApi::Gles,
        GLES,
        gles,
        |blur: &BlurVariant<Types>, texture: Texture, options: u8| {
            assert!(matches!(blur, BlurVariant::Gles("blur", GLES)));
            assert_eq!(texture, TtyOffscreen::Gles(50));
            assert_eq!(options, 3);
            Err("no memory")
        },
    );
    assert_eq!(prepared, Err(BlurError::Blur("no memory")));

    // The program in place is used.
    assert_eq!(
        prepare_blur(&mut buffer, RenderApi::Gles, GLES, None),
        Ok(())
    );
    assert!(matches!(buffer.blur, Some(BlurVariant::Gles("blur", GLES))));

    // Another context, then another API.
    let other = Some(BlurVariant::Gles("other", OTHER));
    assert_eq!(
        prepare_blur(&mut buffer, RenderApi::Gles, OTHER, other),
        Err(BlurError::Effect(EffectError::WrongContext))
    );
    assert!(matches!(buffer.blur, Some(BlurVariant::Gles("other", OTHER))));
    let vulkan = Some(BlurVariant::Vulkan("vulkan"));
    assert_eq!(
        prepare_blur(&mut buffer, RenderApi::Vulkan, GLES, vulkan),
        Err(BlurError::Effect(EffectError::NotVulkan))
    );
    assert!(matches!(buffer.blur, Some(BlurVariant::Vulkan("vulkan"))));
    assert_eq!(
        prepare_blur(&mut buffer, RenderApi::Gles, GLES, None),
        Ok(())
    );
    assert!(buffer.blur.is_none());

    // Already rendered: nothing is made.
    blur(&mut buffer);
    buffer.blur = None;
    assert_eq!(
        prepare_blur(&mut buffer, RenderApi::Gles, GLES, gles()),
        Ok(())
    );
    assert!(buffer.blur.is_none());
}

fn render_gles(
    buffer: &mut EffectBuffer<Types>,
    blur: bool,
) -> Result<u32, BlurError<&'static str>> {
    buffer.render_gles(blur, |program: &&str, texture: u32, options: u8| {
        assert_eq!(options, 3);
        if *program == "blur" {
            Ok(texture + 10)
        } else {
            Err("lost")
        }
    })
}

fn render_vulkan(
    buffer: &mut EffectBuffer<Types>,
    blur: bool,
) -> Result<u32, BlurError<&'static str>> {
    buffer.render_vulkan(blur, |program: &&str, texture: u32, options: u8| {
        assert_eq!(options, 3);
        if *program == "blur" {
            Ok(texture + 10)
        } else {
            Err("lost")
        }
    })
}

#[test]
fn effects_are_drawn_blurred_or_not() {
    let mut buffer = buffer();
    let missing = Err(BlurError::Effect(EffectError::MissingOffscreen));
    assert_eq!(render_gles(&mut buffer, false), missing);
    assert_eq!(render_vulkan(&mut buffer, true), missing);

    gpu().prepare(&mut buffer).unwrap();
    assert_eq!(render_gles(&mut buffer, false), Ok(50));
    assert_eq!(
        render_gles(&mut buffer, true),
        Err(BlurError::Effect(EffectError::MissingBlur))
    );
    assert_eq!(
        render_vulkan(&mut buffer, false),
        Err(BlurError::Effect(EffectError::NotVulkan))
    );
    buffer.blur = Some(BlurVariant::Gles("broken", GLES));
    assert_eq!(render_gles(&mut buffer, true), Err(BlurError::Blur("lost")));
    assert_eq!(blurred(&buffer), None);
    buffer.blur = Some(BlurVariant::Gles("blur", GLES));
    assert_eq!(render_gles(&mut buffer, true), Ok(60));
    assert_eq!(blurred(&buffer), Some(TtyOffscreen::Gles(60)));
    // The blurred texture is kept.
    buffer.blur = None;
    assert_eq!(render_gles(&mut buffer, true), Ok(60));
    assert_eq!(render_gles(&mut buffer, false), Ok(50));

    let vulkan = Gpu {
        api: RenderApi::Vulkan,
        context: OTHER,
        texture: Ok(TtyOffscreen::Vulkan(70)),
        ..gpu()
    };
    vulkan.prepare(&mut buffer).unwrap();
    assert_eq!(
        render_gles(&mut buffer, false),
        Err(BlurError::Effect(EffectError::NotGles))
    );
    assert_eq!(
        render_vulkan(&mut buffer, true),
        Err(BlurError::Effect(EffectError::MissingBlur))
    );
    buffer.blur = Some(BlurVariant::Vulkan("broken"));
    assert_eq!(
        render_vulkan(&mut buffer, true),
        Err(BlurError::Blur("lost"))
    );
    buffer.blur = Some(BlurVariant::Vulkan("blur"));
    assert_eq!(render_vulkan(&mut buffer, true), Ok(80));
    assert_eq!(blurred(&buffer), Some(TtyOffscreen::Vulkan(80)));
    assert_eq!(render_vulkan(&mut buffer, false), Ok(70));

    // A texture on several GPUs belongs to neither.
    buffer.offscreen.as_mut().unwrap().texture = TtyOffscreen::Multi(90);
    buffer.offscreen.as_mut().unwrap().blurred = None;
    assert_eq!(
        render_gles(&mut buffer, false),
        Err(BlurError::Effect(EffectError::NotGles))
    );
    assert_eq!(
        render_vulkan(&mut buffer, false),
        Err(BlurError::Effect(EffectError::NotVulkan))
    );
    assert_eq!(
        prepare_blur(
            &mut buffer,
            RenderApi::Gles,
            OTHER,
            Some(BlurVariant::Gles("blur", OTHER))
        ),
        Err(BlurError::Effect(EffectError::NotGles))
    );
}

#[test]
fn effect_error_messages() {
    assert_eq!(
        EffectError::MissingOffscreen.message(),
        "offscreen is missing"
    );
    assert_eq!(
        EffectError::WrongContext.message(),
        "wrong renderer context id"
    );
    assert_eq!(
        EffectError::NotGles.message(),
        "offscreen texture is not a GLES texture"
    );
    assert_eq!(
        EffectError::NotVulkan.message(),
        "offscreen texture is not a Vulkan texture"
    );
    assert_eq!(EffectError::MissingBlur.message(), "blur is missing");
}

#[test]
fn preparing_succeeds_as_a_whole() {
    assert_eq!(prepare_api(true, true), Some(RenderApi::Gles));
    assert_eq!(prepare_api(false, true), Some(RenderApi::Vulkan));
    assert_eq!(prepare_api(false, false), None);

    let prepare = |api: Option<RenderApi>, blur: bool, texture: bool, textures: bool| {
        let mut buffer = buffer();
        let prepared = buffer.prepare(
            api,
            GLES,
            true,
            0,
            blur,
            |_: Size<i32>| {
                if texture {
                    Ok(TtyOffscreen::Gles(50))
                } else {
                    Err(())
                }
            },
            |size: Size<i32>, scale: FractionalScale| (size.w, scale.n120),
            |_: Texture, _: &(i32, u32), _: &ElementStore<&str, u8>| Ok((9, true)),
            || Some(BlurVariant::Gles("blur", GLES)),
            |_: &BlurVariant<Types>, _: Texture, _: u8| {
                if textures {
                    Ok(())
                } else {
                    Err(())
                }
            },
        );
        (prepared, buffer.offscreen.is_some(), buffer.blur.is_some())
    };
    let gles = Some(RenderApi::Gles);
    assert_eq!(prepare(None, true, true, true), (false, false, false));
    assert_eq!(prepare(gles, false, true, true), (true, true, false));
    assert_eq!(prepare(gles, true, true, true), (true, true, true));
    assert_eq!(prepare(gles, false, true, false), (true, true, false));
    assert_eq!(prepare(gles, true, true, false), (false, true, true));
    assert_eq!(prepare(gles, true, false, true), (false, false, false));
}

fn texture_buffer(transform: Transform) -> TextureBuffer<TtyOffscreen<u8, u16, u32>> {
    TextureBuffer::from_texture(
        1,
        GLES,
        TtyOffscreen::Gles(5),
        Size::new(300, 200),
        TWO,
        transform,
        vec![Rectangle::new(Point::new(0, 0), Size::new(10, 10))],
    )
}

fn coord(num: i64) -> LogicalCoord {
    LogicalCoord { num, den: 1 }
}

fn element(
    buffer: TextureBuffer<TtyOffscreen<u8, u16, u32>>,
    src: Option<Rectangle<LogicalCoord>>,
    size: Option<Size<LogicalCoord>>,
) -> TextureRenderElement<TtyOffscreen<u8, u16, u32>, u8> {
    TextureRenderElement::from_texture_buffer(
        buffer,
        Point::new(coord(1), coord(2)),
        255,
        src,
        size,
        Kind::Unspecified,
    )
}

#[test]
fn texture_buffers() {
    let mut buffer = texture_buffer(Transform::Normal);
    assert_eq!(buffer.commit_counter, CommitCounter(0));
    assert_eq!(*buffer.texture(), TtyOffscreen::Gles(5));
    assert_eq!(buffer.texture_scale(), TWO);
    assert_eq!(buffer.texture_transform(), Transform::Normal);
    let size = buffer.logical_size();
    assert_eq!(size.w, LogicalCoord { num: 300 * 120, den: 240 });
    assert_eq!(size.h, LogicalCoord { num: 200 * 120, den: 240 });
    buffer.set_texture_transform(Transform::Flipped90);
    buffer.set_texture_scale(ONE);
    let size = buffer.logical_size();
    assert_eq!(size.w, LogicalCoord { num: 200 * 120, den: 120 });
    assert_eq!(size.h, LogicalCoord { num: 300 * 120, den: 120 });

    let mapped = buffer.map_texture(|texture| matches!(texture, TtyOffscreen::Gles(5)));
    assert!(*mapped.texture());
    assert_eq!(mapped.id, 1);
    assert_eq!(mapped.renderer_context_id, GLES);
    assert_eq!(mapped.texture_transform(), Transform::Flipped90);
    assert_eq!(mapped.opaque_regions.len(), 1);
}

#[test]
fn textures_from_memory() {
    let memory = MemoryBuffer {
        data: vec![1, 2, 3],
        format: "argb",
        size: Size::new(4, 5),
        scale: TWO,
        transform: Transform::Rotated180,
    };
    let buffer = TextureBuffer::from_memory_buffer(
        3,
        OTHER,
        &memory,
        |data: &Vec<u8>, format: &str, size: Size<i32>, flipped: bool| {
            Ok::<_, ()>((data.len(), format.to_string(), size.h, flipped))
        },
    )
    .unwrap();
    assert_eq!(*buffer.texture(), (3, "argb".to_string(), 5, false));
    assert_eq!(buffer.id, 3);
    assert_eq!(buffer.renderer_context_id, OTHER);
    assert_eq!(buffer.size, Size::new(4, 5));
    assert_eq!(buffer.texture_transform(), Transform::Rotated180);
    assert!(buffer.opaque_regions.is_empty());

    let failed: Result<TextureBuffer<()>, &str> = TextureBuffer::from_memory_buffer(
        3,
        OTHER,
        &memory,
        |_: &Vec<u8>, _: &str, _: Size<i32>, _: bool| Err("no memory"),
    );
    assert_eq!(failed.err(), Some("no memory"));
}

#[test]
fn shown_part_of_a_texture() {
    let whole = element(texture_buffer(Transform::Normal), None, None);
    assert_eq!(
        whole.logical_size(),
        texture_buffer(Transform::Normal).logical_size()
    );
    assert_eq!(whole.logical_src().loc, Point::new(coord(0), coord(0)));
    assert_eq!(whole.logical_src().size, whole.logical_size());

    let src = Rectangle::new(
        Point::new(coord(5), coord(6)),
        Size::new(coord(70), coord(80)),
    );
    let clipped = element(texture_buffer(Transform::Normal), Some(src), None);
    assert_eq!(clipped.logical_size(), src.size);
    assert_eq!(clipped.logical_src(), src);

    let size = Size::new(coord(7), coord(8));
    let scaled = element(texture_buffer(Transform::Normal), Some(src), Some(size));
    assert_eq!(scaled.logical_size(), size);
    assert_eq!(scaled.logical_src(), src);
    let stretched = element(texture_buffer(Transform::Normal), None, Some(size));
    assert_eq!(stretched.logical_src().size, size);

    assert!(whole.can_draw(GLES));
    assert!(!whole.can_draw(OTHER));
}

#[test]
fn universal_textures_match_their_frame() {
    let draw = |texture: TtyOffscreen<u8, u16, u32>| {
        let buffer = texture_buffer(Transform::Normal).map_texture(|_| texture);
        let element = UniversalTextureRenderElement(element(buffer, None, None));
        (
            element.draw_gles(),
            element.draw_tty(RenderApi::Gles),
            element.draw_tty(RenderApi::Vulkan),
        )
    };
    assert_eq!(
        draw(TtyOffscreen::Gles(1)),
        (Some(1), UniversalDraw::Gles(1), UniversalDraw::Skip)
    );
    assert_eq!(
        draw(TtyOffscreen::Vulkan(2)),
        (None, UniversalDraw::Skip, UniversalDraw::Vulkan(2))
    );
    assert_eq!(
        draw(TtyOffscreen::Multi(3)),
        (None, UniversalDraw::Frame(3), UniversalDraw::Frame(3))
    );
}

fn value(ratio: Ratio) -> f64 {
    ratio.num as f64 / ratio.den as f64
}

type Fade = GradientFadeTextureRenderElement<u8, u16, u32, u8, u8, u16>;

fn fade(shown: Option<i64>, program: NiriTexProgram<u8, u16>) -> Fade {
    let src = shown.map(|w| {
        Rectangle::new(
            Point::new(coord(0), coord(0)),
            Size::new(coord(w), coord(10)),
        )
    });
    GradientFadeTextureRenderElement::new(
        element(texture_buffer(Transform::Normal), src, None),
        GradientFadeShader(program),
    )
}

#[test]
fn clipped_textures_fade_out() {
    // The texture is 150 logical pixels wide.
    let cutoff = |shown| {
        let (start, end) = fade(shown, NiriTexProgram::Gles(1)).cutoff;
        (value(start), value(end))
    };
    assert_eq!(cutoff(None), (1., 1.));
    assert_eq!(cutoff(Some(150)), (1., 1.));
    assert_eq!(cutoff(Some(200)), (1., 1.));
    assert_eq!(cutoff(Some(75)), (57. / 150., 0.5));
    assert_eq!(cutoff(Some(18)), (0., 18. / 150.));
    assert_eq!(cutoff(Some(9)), (0., 9. / 150.));
    assert_eq!(cutoff(Some(0)), (0., 0.));

    // The same as computed with floats.
    for shown in 1..150 {
        let full = shown as f64 / 150.;
        let start = (1. - f64::min(18. / shown as f64, 1.)) * full;
        let (s, e) = cutoff(Some(shown));
        assert!((s - start).abs() < 1e-12 && (e - full).abs() < 1e-12);
    }
}

#[test]
fn fade_program_is_used_for_the_draw() {
    let state = FrameBlendState {
        hdr_pq: true,
        reference_luminance: Luminance(2_030_000),
        max_luminance: Luminance(8_000_000),
    };
    let gles = || GlesBlend {
        state,
        tex_program_override: Some((9u8, Vec::new())),
        solid_color_transform: None,
    };

    type Inner = UniversalTextureRenderElement<u8, u16, u32, u8>;
    let program = |frame: &GlesBlend<u8>| frame.tex_program_override.as_ref().unwrap().0;

    let element = fade(Some(75), NiriTexProgram::Gles(4));
    let mut frame = gles();
    let result = element.draw(&mut frame, true, |_: &Inner, during: &GlesBlend<u8>| {
        let (program, uniforms) = during.tex_program_override.as_ref().unwrap();
        assert_eq!(*program, 4);
        assert_eq!(uniforms.len(), 14);
        assert_eq!(uniforms[0].name, "cutoff");
        assert_eq!(
            uniforms[0].value,
            UniformValue::Float2(element.cutoff.0, element.cutoff.1)
        );
        assert_eq!(uniforms[1].name, "niri_hdr_pq");
        assert_eq!(uniforms[1].value, UniformValue::Float(Ratio::one()));
        Err("lost")
    });
    assert_eq!(result, Err("lost"));
    assert_eq!(program(&frame), 9);

    // The raw GLES renderer draws nothing with a Vulkan program.
    let vulkan = fade(Some(75), NiriTexProgram::Vulkan(5));
    let result = vulkan.draw(&mut frame, true, |_: &Inner, _: &GlesBlend<u8>| Err("lost"));
    assert_eq!(result, Ok(()));
    assert_eq!(program(&frame), 9);

    type Frame = TtyFrame<GlesBlend<u8>, VulkanTexFrame<u16>>;
    let gles_program = |_: &Inner, during: &Frame| match during {
        TtyFrame::Gles(during) => Some(during.tex_program_override.as_ref().unwrap().0),
        TtyFrame::Vulkan(_) => None,
    };
    let mut frame: Frame = TtyFrame::Gles(gles());
    assert_eq!(vulkan.draw_tty(&mut frame, true, gles_program), Some(9));
    assert_eq!(element.draw_tty(&mut frame, true, gles_program), Some(4));
    let TtyFrame::Gles(after) = &frame else {
        panic!();
    };
    assert_eq!(program(after), 9);

    let vulkan_program = |_: &Inner, during: &Frame| match during {
        TtyFrame::Gles(_) => panic!(),
        TtyFrame::Vulkan(during) => during
            .tex_program_override
            .as_ref()
            .map(|(program, uniforms)| (*program, uniforms[1].value.clone())),
    };
    let mut frame: Frame = TtyFrame::Vulkan(VulkanTexFrame {
        state: None,
        tex_program_override: None,
    });
    assert_eq!(element.draw_tty(&mut frame, true, vulkan_program), None);
    assert_eq!(
        vulkan.draw_tty(&mut frame, true, vulkan_program),
        Some((5, UniformValue::Float(Ratio::zero())))
    );
    let TtyFrame::Vulkan(after) = &frame else {
        panic!();
    };
    assert!(after.tex_program_override.is_none());
}

#[test]
fn fade_shader_comes_from_the_shaders() {
    const SOURCES: ShaderSources = ShaderSources {
        texture_hdr: "",
        texture_hdr_to_sdr: "",
        hdr: "",
        border: "",
        shadow: "",
        rounding_alpha: "",
        clipped_surface: "",
        postprocess: "",
        gradient_fade: "fade",
        resize: "",
        resize_prelude: "",
        resize_epilogue: "",
        close_prelude: "",
        close_epilogue: "",
        open_prelude: "",
        open_epilogue: "",
    };
    let shaders = |fade: Result<u8, ()>| -> Shaders<u8, u8, u16, u8> {
        Shaders::compile(
            &SOURCES,
            |request: &ProgramRequest| {
                if request.source == "fade" {
                    fade
                } else {
                    Ok(1)
                }
            },
            |_: &ProgramRequest| Err(()),
            || Err(()),
        )
    };
    let shader = Fade::shader(Some(&shaders(Ok(6)))).unwrap();
    assert!(matches!(shader.0, NiriTexProgram::Gles(6)));
    assert!(Fade::shader(Some(&shaders(Err(())))).is_none());
    assert!(Fade::shader::<u8, u8>(None).is_none());
}

fn snapshot(bg: bool) -> RenderSnapshot<&'static str, u8, (), (), String> {
    RenderSnapshot {
        contents: vec!["a", "b"],
        contents_with_blocked_out_bg: bg.then_some(vec!["bg"]),
        blocked_out_contents: vec![1],
        block_out_from: None,
        size: (),
        texture: None,
        texture_with_blocked_out_bg: None,
        blocked_out_texture: None,
    }
}

#[test]
fn snapshots_are_rendered_once() {
    let mut snapshot = snapshot(false);
    let texture = snapshot.contents_texture(|c: &Vec<&str>| Ok::<_, ()>(c.concat()));
    assert_eq!(texture.map(String::as_str), Some("ab"));
    let texture = snapshot.contents_texture(|_: &Vec<&str>| Ok::<_, ()>("again".to_string()));
    assert_eq!(texture.map(String::as_str), Some("ab"));

    // A failure is not retried.
    assert_eq!(snapshot.blocked_out_texture(|_: &Vec<u8>| Err(())), None);
    let texture = snapshot.blocked_out_texture(|c: &Vec<u8>| Ok::<_, ()>(c.len().to_string()));
    assert_eq!(texture, None);

    // Without contents for it, there is nothing to render.
    let texture =
        snapshot.contents_with_blocked_out_bg_texture(|c: &Vec<&str>| Ok::<_, ()>(c.concat()));
    assert_eq!(texture, None);
    assert!(snapshot.texture_with_blocked_out_bg.is_none());
}

#[test]
fn snapshots_show_what_the_target_may_see() {
    let plain = snapshot(false);
    let with_bg = snapshot(true);
    assert_eq!(plain.variant(true, true), SnapshotVariant::BlockedOut);
    assert_eq!(with_bg.variant(true, false), SnapshotVariant::BlockedOut);
    assert_eq!(plain.variant(false, false), SnapshotVariant::Contents);
    assert_eq!(with_bg.variant(false, true), SnapshotVariant::Contents);
    assert_eq!(
        with_bg.variant(false, false),
        SnapshotVariant::ContentsWithBlockedOutBg
    );

    let mut snapshot = with_bg;
    let mut show = |block_out: bool, output: bool| {
        snapshot
            .texture(
                block_out,
                output,
                |c: &Vec<&str>| Ok::<_, ()>(c.concat()),
                |c: &Vec<u8>| Ok::<_, ()>(format!("{c:?}")),
            )
            .cloned()
    };
    assert_eq!(show(true, false).as_deref(), Some("[1]"));
    assert_eq!(show(false, false).as_deref(), Some("bg"));
    assert_eq!(show(false, true).as_deref(), Some("ab"));
}
