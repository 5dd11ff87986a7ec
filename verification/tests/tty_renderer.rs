use niri::backend::tty_renderer::{
    RenderApi, TtyFrame, TtyFramebuffer, TtyGpuManager, TtyOffscreen, TtyRenderer,
    TtyRendererError, TtyTextureMapping,
};
use niri::render_helpers::blend::{FrameBlendState, GlesBlend, VulkanBlend};
use niri::render_helpers::renderer::{
    AsGlesFrame, AsGlesRenderer, AsVulkanRenderer, HasOffscreen, NiriCaptureRenderer, NiriRenderer,
};

type Error = TtyRendererError<&'static str, u8>;
type Renderer = TtyRenderer<u32, u64>;

#[test]
fn operations_go_to_the_variant() {
    let mut renderer: Renderer = TtyRenderer::Gles(1);
    assert_eq!(renderer.api(), RenderApi::Gles);
    renderer.as_mut().with(|r: &mut u32| *r += 1, |_: &mut u64| ());
    assert_eq!(renderer.as_ref().with(|r: &u32| *r, |_: &u64| 0), 2);
    let result: Result<u32, Error> =
        renderer.as_mut().try_with(|r: &mut u32| Ok(*r), |_: &mut u64| Err(0));
    assert_eq!(result, Ok(2));
    let result: Result<u32, Error> =
        renderer.as_mut().try_with(|_: &mut u32| Err("gles"), |_: &mut u64| Ok(0));
    assert_eq!(result, Err(TtyRendererError::Gles("gles")));

    let renderer: Renderer = TtyRenderer::Vulkan(3);
    assert_eq!(renderer.api(), RenderApi::Vulkan);
    let result: Result<u32, Error> = renderer.try_with(|_: u32| Ok(0), |_: u64| Err(9));
    assert_eq!(result, Err(TtyRendererError::Vulkan(9)));

    let mut frame: TtyFrame<u32, u64> = TtyFrame::Vulkan(5);
    let result: Result<(), Error> = frame.as_mut().try_with(
        |_: &mut u32| Err("gles"),
        |f: &mut u64| {
            *f = 6;
            Ok(())
        },
    );
    assert_eq!(result, Ok(()));
    assert!(matches!(frame, TtyFrame::Vulkan(6)));

    let framebuffer: TtyFramebuffer<u32, u64> = TtyFramebuffer::Gles(640);
    assert_eq!(framebuffer.as_ref().with(|w: &u32| *w, |_: &u64| 0), 640);
    let mapping: TtyTextureMapping<bool, bool> = TtyTextureMapping::Vulkan(true);
    assert!(mapping.as_ref().with(|_: &bool| false, |flipped: &bool| *flipped));
}

#[test]
fn some_operations_need_gles() {
    let import = |renderer: Renderer| -> Result<u32, Error> { renderer.gles_only(|r: u32| Ok(r)) };
    assert_eq!(import(TtyRenderer::Gles(4)), Ok(4));
    assert_eq!(
        import(TtyRenderer::Vulkan(4)),
        Err(TtyRendererError::VulkanUnsupported)
    );
    let failing: Result<u32, Error> = Renderer::Gles(4).gles_only(|_: u32| Err("egl"));
    assert_eq!(failing, Err(TtyRendererError::Gles("egl")));

    let bind = |renderer: Renderer| renderer.bind_wl_display(|_: u32| Ok(()), "not supported");
    assert_eq!(bind(TtyRenderer::Gles(4)), Ok(()));
    assert_eq!(bind(TtyRenderer::Vulkan(4)), Err("not supported"));

    assert_eq!(Renderer::Gles(4).gles(), Some(4));
    assert_eq!(Renderer::Vulkan(4).gles(), None);
}

#[test]
fn frames_and_mappings_have_the_api_of_their_renderer() {
    let frame: Result<TtyFrame<u32, u64>, Error> = Renderer::Gles(4).render(
        TtyFramebuffer::<u32, u64>::Gles(10),
        |r: u32, fb: u32| Ok(r + fb),
        |_: u64, _: u64| Err(0),
    );
    assert!(matches!(frame, Ok(TtyFrame::Gles(14))));
    let frame: Result<TtyFrame<u32, u64>, Error> = Renderer::Vulkan(4).render(
        TtyFramebuffer::<u32, u64>::Vulkan(10),
        |r: u32, fb: u32| Ok(r + fb),
        |_: u64, _: u64| Err(7),
    );
    assert!(matches!(frame, Err(TtyRendererError::Vulkan(7))));

    let mapping: Result<TtyTextureMapping<u32, u64>, Error> = Renderer::Vulkan(4).copy_framebuffer(
        TtyFramebuffer::<u32, u64>::Vulkan(10),
        |_: u32, _: u32| Err("gles"),
        |r: u64, fb: u64| Ok(r * fb),
    );
    let Ok(mapping) = mapping else {
        panic!();
    };
    assert!(matches!(mapping, TtyTextureMapping::Vulkan(40)));
    let data: Result<u64, Error> = Renderer::Vulkan(4).map_texture(
        mapping,
        |_: u32, _: u32| Err("gles"),
        |r: u64, m: u64| Ok(r + m),
    );
    assert_eq!(data, Ok(44));
    let mapping: Result<TtyTextureMapping<u32, u64>, Error> = Renderer::Gles(4).copy_framebuffer(
        TtyFramebuffer::<u32, u64>::Gles(10),
        |_: u32, _: u32| Err("gles"),
        |r: u64, fb: u64| Ok(r * fb),
    );
    assert!(matches!(mapping, Err(TtyRendererError::Gles("gles"))));
}

#[test]
fn renderer_errors() {
    let unsupported: Error = TtyRendererError::VulkanUnsupported;
    assert_eq!(
        unsupported.message("unused".to_string()),
        "operation not supported by the vulkan renderer"
    );
    assert_eq!(unsupported.gles_source(), None);
    assert_eq!(unsupported.vulkan_source(), None);
    let gles: Error = TtyRendererError::Gles("egl");
    assert_eq!(gles.message("egl error".to_string()), "egl error");
    assert_eq!(gles.gles_source(), Some(&"egl"));
    assert_eq!(gles.vulkan_source(), None);
    let vulkan: Error = TtyRendererError::Vulkan(3);
    assert_eq!(vulkan.message("vk error".to_string()), "vk error");
    assert_eq!(vulkan.vulkan_source(), Some(&3));
}

#[test]
fn gpu_managers_give_renderers_of_their_api() {
    let mut gles: TtyGpuManager<Vec<u32>, Vec<u64>> = TtyGpuManager::Gles(vec![1]);
    assert!(!gles.is_vulkan());
    let renderer: Result<Renderer, &str> = gles
        .as_mut()
        .single_renderer(|gpus: &mut Vec<u32>| Ok(gpus[0]), |_: &mut Vec<u64>| Err("vulkan"));
    assert!(matches!(renderer, Ok(TtyRenderer::Gles(1))));
    assert_eq!(
        gles.as_mut().add_node(|_: &mut Vec<u32>| Err("add"), |_: &mut Vec<u64>| ()),
        Err("add")
    );

    let mut vulkan: TtyGpuManager<Vec<u32>, Vec<u64>> = TtyGpuManager::Vulkan(vec![]);
    assert!(vulkan.is_vulkan());
    assert_eq!(
        vulkan.as_mut().add_node(|_: &mut Vec<u32>| Err("add"), |gpus: &mut Vec<u64>| gpus.push(2)),
        Ok(())
    );
    let renderer: Result<Renderer, &str> = vulkan
        .as_mut()
        .renderer(|_: &mut Vec<u32>| Err("gles"), |gpus: &mut Vec<u64>| Ok(gpus[0]));
    assert!(matches!(renderer, Ok(TtyRenderer::Vulkan(2))));
    assert_eq!(
        vulkan.as_mut().early_import(|_: &mut Vec<u32>| Ok(()), |_: &mut Vec<u64>| Err("import")),
        Err("import")
    );
    vulkan
        .as_mut()
        .refresh_devices(|gpus: &mut Vec<u32>| gpus.len(), |gpus: &mut Vec<u64>| gpus.push(3));
    vulkan.as_mut().remove_node(|gpus: &mut Vec<u32>| gpus.clear(), |gpus: &mut Vec<u64>| {
        gpus.remove(0);
    });
    assert!(matches!(vulkan, TtyGpuManager::Vulkan(gpus) if gpus == [3]));
}

fn raw() -> GlesBlend<u32> {
    GlesBlend {
        state: FrameBlendState::default(),
        tex_program_override: None,
        solid_color_transform: None,
    }
}

fn captures<R: NiriCaptureRenderer<u8, u16, u32>>(mut renderer: R) -> (bool, bool) {
    (
        renderer.as_gles_renderer().is_some(),
        renderer.as_vulkan_renderer().is_some(),
    )
}

fn offscreen_of<R: NiriRenderer<u8, u16, u32>>(texture: &mut TtyOffscreen<u8, u16, u32>) -> bool {
    R::unwrap_offscreen(texture).is_some()
}

#[test]
fn underlying_renderers() {
    type Tty = TtyRenderer<GlesBlend<u32>, VulkanBlend>;
    assert_eq!(captures(raw()), (true, false));
    assert_eq!(captures::<Tty>(TtyRenderer::Gles(raw())), (true, false));
    let vulkan = VulkanBlend {
        state: None,
        default_color_params: None,
        solid_color_transform: None,
    };
    assert_eq!(captures::<Tty>(TtyRenderer::Vulkan(vulkan)), (false, true));

    let mut texture = TtyOffscreen::Gles(1);
    assert!(offscreen_of::<GlesBlend<u32>>(&mut texture));
    assert!(offscreen_of::<Tty>(&mut texture));
    for mut texture in [TtyOffscreen::Vulkan(2), TtyOffscreen::Multi(3)] {
        assert!(!offscreen_of::<GlesBlend<u32>>(&mut texture));
        assert!(offscreen_of::<Tty>(&mut texture));
    }
    let wrapped: TtyOffscreen<u8, u16, u32> = GlesBlend::<u32>::wrap_offscreen(4);
    assert_eq!(wrapped, TtyOffscreen::Gles(4));
    let wrapped: TtyOffscreen<u8, u16, u32> = Tty::wrap_offscreen(TtyOffscreen::Multi(5));
    assert_eq!(wrapped, TtyOffscreen::Multi(5));

    let mut frame: TtyFrame<u32, u64> = TtyFrame::Gles(1);
    *frame.as_gles_frame().unwrap() = 2;
    assert!(matches!(frame, TtyFrame::Gles(2)));
    let mut frame: TtyFrame<u32, u64> = TtyFrame::Vulkan(1);
    assert!(frame.as_gles_frame().is_none());
    assert!(AsGlesFrame::as_gles_frame(&mut raw()).is_some());
    assert!(AsGlesRenderer::as_gles_renderer(&mut raw()).is_some());
    assert!(AsVulkanRenderer::as_vulkan_renderer(&mut raw()).is_none());
}
