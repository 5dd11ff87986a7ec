use niri::backend::tty_renderer::TtyRenderer;
use niri::render_helpers::blend::FrameBlendState;
use niri::render_helpers::colorimetry::Mat3;
use niri::render_helpers::shaders::compile::{
    assemble_resize_program, close_request, compile_close_program, compile_open_program,
    compile_resize_program, gles_plan, open_request, resize_request, vulkan_plan, CompileError,
    ProgramRequest, ShaderSources,
};
use niri::render_helpers::shaders::uniforms::with_blend_uniform_names;
use niri::render_helpers::shaders::vulkan::{
    compile_vulkan_program, uniform_name_to_decl, vulkan_decls, vulkanize_fragment,
    CustomUniformDecl, CustomUniformKind,
};
use niri::render_helpers::shaders::{
    init, init_vulkan, mat3_uniform, set_custom_close_program, set_custom_open_program,
    set_custom_resize_program, CustomProgramChange, NiriTexProgram, ProgramType, Shaders,
};
use niri::render_helpers::uniform::{UniformName, UniformType, UniformValue};

const SOURCES: ShaderSources = ShaderSources {
    texture_hdr: "[texture_hdr]",
    texture_hdr_to_sdr: "[texture_hdr_to_sdr]",
    hdr: "[hdr]",
    border: "[border]",
    shadow: "[shadow]",
    rounding_alpha: "[rounding_alpha]",
    clipped_surface: "[clipped_surface]",
    postprocess: "[postprocess]",
    gradient_fade: "[gradient_fade]",
    resize: "[resize]",
    resize_prelude: "[resize_prelude]",
    resize_epilogue: "[resize_epilogue]",
    close_prelude: "[close_prelude]",
    close_epilogue: "[close_epilogue]",
    open_prelude: "[open_prelude]",
    open_epilogue: "[open_epilogue]",
};

fn names(uniforms: &[UniformName]) -> Vec<&'static str> {
    uniforms.iter().map(|u| u.name).collect()
}

fn blend_names() -> Vec<&'static str> {
    names(&FrameBlendState::uniform_names())
}

#[test]
fn custom_programs_are_wrapped() {
    assert_eq!(
        assemble_resize_program(&SOURCES, "{src}"),
        "[resize_prelude]{src}[resize_epilogue][rounding_alpha]"
    );

    let resize = resize_request(&SOURCES, "{src}");
    assert_eq!(
        resize.source,
        "[resize_prelude]{src}[resize_epilogue][rounding_alpha]"
    );
    assert_eq!(resize.textures, ["niri_tex_prev", "niri_tex_next"]);
    assert_eq!(
        names(&resize.uniforms),
        [
            "niri_input_to_curr_geo",
            "niri_curr_geo_to_prev_geo",
            "niri_curr_geo_to_next_geo",
            "niri_curr_geo_size",
            "niri_geo_to_tex_prev",
            "niri_geo_to_tex_next",
            "niri_progress",
            "niri_clamped_progress",
            "niri_corner_radius",
            "niri_clip_to_geometry",
        ]
    );

    let close = close_request(&SOURCES, "{src}");
    assert_eq!(close.source, "[close_prelude]{src}[close_epilogue]");
    assert_eq!(close.textures, ["niri_tex"]);
    let open = open_request(&SOURCES, "{src}");
    assert_eq!(open.source, "[open_prelude]{src}[open_epilogue]");
    for request in [close, open] {
        assert_eq!(
            names(&request.uniforms),
            [
                "niri_input_to_geo",
                "niri_geo_size",
                "niri_geo_to_tex",
                "niri_progress",
                "niri_clamped_progress",
                "niri_random_seed",
            ]
        );
    }
}

#[test]
fn gles_programs() {
    let plan = gles_plan(&SOURCES);
    assert_eq!(plan.texture_hdr.source, "[texture_hdr][hdr]");
    assert_eq!(names(&plan.texture_hdr.uniforms), blend_names());
    assert_eq!(plan.texture_hdr_to_sdr.source, "[texture_hdr_to_sdr]");
    assert_eq!(plan.border.source, "[border][rounding_alpha]");
    assert_eq!(plan.border.uniforms.len(), 11);
    assert_eq!(plan.border.uniforms[7].type_, UniformType::Matrix3x3);
    assert_eq!(plan.shadow.source, "[shadow][rounding_alpha]");
    assert_eq!(plan.shadow.uniforms[0].name, "shadow_color");
    assert_eq!(
        plan.clipped_surface.source,
        "[clipped_surface][rounding_alpha][hdr]\nvec4 postprocess(vec4 color) { return color; }"
    );
    assert_eq!(
        plan.postprocess_and_clip.source,
        "[clipped_surface][rounding_alpha][postprocess][hdr]"
    );
    assert_eq!(
        names(&plan.postprocess_and_clip.uniforms)[..7],
        [
            "niri_scale",
            "geo_size",
            "corner_radius",
            "input_to_geo",
            "noise",
            "saturation",
            "bg_color",
        ]
    );
    assert_eq!(
        plan.resize.source,
        "[resize_prelude][resize][resize_epilogue][rounding_alpha]"
    );
    assert_eq!(plan.gradient_fade.source, "[gradient_fade][hdr]");
    for request in [
        &plan.texture_hdr,
        &plan.texture_hdr_to_sdr,
        &plan.clipped_surface,
        &plan.postprocess_and_clip,
        &plan.gradient_fade,
    ] {
        let declared = names(&request.uniforms);
        assert!(declared.ends_with(&blend_names()));
        assert!(request.textures.is_empty());
    }
}

#[test]
fn vulkan_programs() {
    let plan = vulkan_plan(&SOURCES);
    assert_eq!(plan.border.source, "[border][rounding_alpha]");
    assert_eq!(plan.shadow.source, "[shadow][rounding_alpha]");
    assert_eq!(plan.clipped_surface.textures, ["tex"]);
    assert_eq!(
        names(&plan.clipped_surface.uniforms)[..6],
        [
            "niri_scale",
            "geo_size",
            "corner_radius",
            "input_to_geo",
            "alpha",
            "tint",
        ]
    );
    assert_eq!(plan.resize.textures.len(), 2);

    let decls = vulkan_decls(&plan.clipped_surface.uniforms);
    // The scale is declared already, the size is added.
    assert_eq!(decls.len(), plan.clipped_surface.uniforms.len() + 1);
    assert_eq!(decls.last().unwrap().name, "niri_size");
    assert_eq!(decls.last().unwrap().kind, CustomUniformKind::Vec2);
}

#[test]
fn programs_are_compiled_for_the_renderer() {
    let gles = |r: &ProgramRequest| Ok::<_, ()>(format!("gles {}", r.source));
    let vulkan = |r: &ProgramRequest| Ok::<_, ()>(format!("vulkan {}", r.source));
    let resize = |has_gles: bool, has_vulkan: bool| {
        compile_resize_program(&SOURCES, "{src}", has_gles, has_vulkan, gles, vulkan)
    };
    let source = "[resize_prelude]{src}[resize_epilogue][rounding_alpha]";
    assert_eq!(resize(true, false), Ok(format!("gles {source}")));
    assert_eq!(resize(true, true), Ok(format!("gles {source}")));
    assert_eq!(resize(false, true), Ok(format!("vulkan {source}")));
    assert_eq!(resize(false, false), Err(CompileError::UnsupportedRenderer));

    assert_eq!(
        compile_close_program(&SOURCES, "{src}", false, true, gles, vulkan),
        Ok("vulkan [close_prelude]{src}[close_epilogue]".to_string())
    );
    assert_eq!(
        compile_open_program(&SOURCES, "{src}", true, true, gles, vulkan),
        Ok("gles [open_prelude]{src}[open_epilogue]".to_string())
    );
    let failing = |_: &ProgramRequest| Err::<String, _>("syntax error");
    assert_eq!(
        compile_open_program(&SOURCES, "{src}", true, false, failing, failing),
        Err(CompileError::Failed("syntax error"))
    );
}

#[test]
fn vulkan_programs_are_compiled_from_the_gles_dialect() {
    let request = ProgramRequest {
        source: "precision highp float;\nvoid main() {}".to_string(),
        uniforms: vec![UniformName::new("a", UniformType::Float1)],
        textures: vec!["tex"],
    };
    let bindings = |textures: &Vec<&'static str>| format!("<{}>", textures.join(","));
    let block = |decls: &Vec<CustomUniformDecl>| format!("<{}>", decls.len());
    let program = compile_vulkan_program(
        &request,
        bindings,
        block,
        |source: &String, decls: &Vec<CustomUniformDecl>, textures: &Vec<&'static str>| {
            assert_eq!(*source, vulkanize_fragment(&request.source, "<tex>", "<3>"));
            let names: Vec<_> = decls.iter().map(|d| d.name).collect();
            assert_eq!(names, ["a", "niri_size", "niri_scale"]);
            assert_eq!(*textures, ["tex"]);
            Ok::<_, ()>(7)
        },
    );
    assert_eq!(program, Ok(7));
    let failed: Result<u8, _> = compile_vulkan_program(
        &request,
        bindings,
        block,
        |_: &String, _: &Vec<CustomUniformDecl>, _: &Vec<&'static str>| Err("lost"),
    );
    assert_eq!(failed, Err("lost"));
}

#[test]
fn uniform_declarations() {
    let own = vec![UniformName::new("cutoff", UniformType::Float2)];
    let declared = with_blend_uniform_names(&own);
    assert_eq!(declared.len(), 14);
    assert_eq!(declared[0].name, "cutoff");
    assert_eq!(declared[1].name, "niri_hdr_pq");

    for (type_, kind) in [
        (UniformType::Float1, Some(CustomUniformKind::Float)),
        (UniformType::Float2, Some(CustomUniformKind::Vec2)),
        (UniformType::Float3, Some(CustomUniformKind::Vec3)),
        (UniformType::Float4, Some(CustomUniformKind::Vec4)),
        (UniformType::Matrix3x3, Some(CustomUniformKind::Mat3)),
        (UniformType::Int1, None),
        (UniformType::Matrix4x4, None),
    ] {
        let decl = uniform_name_to_decl(&UniformName::new("u", type_));
        assert_eq!(decl.map(|d| d.kind), kind);
        assert!(decl.is_none_or(|d| d.name == "u"));
    }

    // Uniforms without a Vulkan counterpart are left out.
    let decls = vulkan_decls(&vec![
        UniformName::new("a", UniformType::Float1),
        UniformName::new("b", UniformType::Int2),
        UniformName::new("niri_size", UniformType::Float4),
    ]);
    let decls: Vec<_> = decls.iter().map(|d| (d.name, d.kind)).collect();
    assert_eq!(
        decls,
        [
            ("a", CustomUniformKind::Float),
            ("niri_size", CustomUniformKind::Vec4),
            ("niri_scale", CustomUniformKind::Float),
        ]
    );

    let uniform = mat3_uniform("m", Mat3::bt709_to_bt2020());
    assert_eq!(uniform.name, "m");
    assert_eq!(
        uniform.value,
        UniformValue::Matrix3x3(Mat3::bt709_to_bt2020().transposed())
    );
}

fn body(src: &str) -> String {
    let out = vulkanize_fragment(src, "<textures>", "<block>");
    let start = "#version 450\n         #define DEBUG_FLAGS\n         #define texture2D texture\n<textures><block>layout(location = 0) in vec2 niri_v_coords;\n";
    assert!(out.starts_with(start), "{out}");
    let marker = "#define v_coords niri_v_coords\n";
    out[out.find(marker).unwrap() + marker.len()..].to_string()
}

#[test]
fn declarations_are_stripped() {
    assert_eq!(body(""), "");
    assert_eq!(body("a"), "a\n");
    assert_eq!(body("a\n"), "a\n");
    assert_eq!(body("a\n\nb"), "a\n\nb\n");
    assert_eq!(
        body("#version 100\n#extension x\nprecision highp float;\nvarying vec2 v;\n"),
        ""
    );
    assert_eq!(
        body("  \u{a0}uniform float a; \t\nfloat uniform b;\nuniform\n"),
        "float uniform b;\nuniform\n"
    );
    // Comments after a uniform declaration.
    assert_eq!(body("uniform float a; // strength"), "");
    assert_eq!(body("  uniform float a ;\t/* strength */ \nx"), "x\n");
    assert_eq!(body("uniform float a; // b; {\nx"), "x\n");
    // A slash alone starts no comment.
    assert_eq!(body("uniform float a; / b"), " / b\n");
    // Declarations over several lines.
    assert_eq!(body("uniform float a\n;\nx"), "x\n");
    assert_eq!(
        body("uniform vec4 // color;\n\n    from,\r\n    to; // end\nvoid main() {}"),
        "void main() {}\n"
    );
    assert_eq!(body("varying vec2\nv;\nx"), "x\n");
    assert_eq!(body("precision\n  highp\n  float;\nx"), "x\n");
    assert_eq!(body("uniform\nfloat a;\nx"), "x\n");
    // Any whitespace behind the word.
    assert_eq!(
        body("uniform\tfloat a;\nvarying\tvec2 v;\nprecision\u{a0}highp float;\nx"),
        "x\n"
    );
    assert_eq!(
        body("uniforms;\nvaryings;\nprecisions;"),
        "uniforms;\nvaryings;\nprecisions;\n"
    );
    // Windows line endings; a lone carriage return is part of the line.
    assert_eq!(body("varying x;\r\nvoid main() {}\r\n"), "void main() {}\n");
    assert_eq!(body("x\r"), "x\r\n");
    assert_eq!(body("x\r\r\ny"), "x\r\ny\n");
}

#[test]
fn comments_are_no_code() {
    assert_eq!(body("uniform float a/**/;"), "");
    assert_eq!(body("uniform float a/**/;\nfloat k;"), "float k;\n");
    assert_eq!(body("uniform/* ; */float a; /* { */ // ;\nfloat k;"), "float k;\n");
    assert_eq!(body("/* a */ uniform float a;\nfloat k;"), "float k;\n");
    assert_eq!(body("// uniform float a;\nx"), "// uniform float a;\nx\n");
    assert_eq!(body("/*/ uniform float a; */\nx"), "/*/ uniform float a; */\nx\n");
    // A declaration may hold a comment over several lines.
    assert_eq!(body("uniform /* ;\n;\n */ float a;\nx"), "x\n");
    // Text of a comment begins nothing.
    let comment = "/*\nuniform scaling\n*/\nfloat k;\n";
    assert_eq!(body(comment), comment);
    let comment = "/* a\nvarying b;\n  precision c;\n#version 100\nd */ float k;\n";
    assert_eq!(body(comment), comment);
    // Code behind the end of a comment does.
    assert_eq!(body("/*\n a */ uniform float b;\nx"), "/*\n a */\nx\n");
    // No comment is left without its start.
    assert_eq!(body("uniform float a; /* b\n c */ x"), " /* b\n c */ x\n");
    assert_eq!(
        body("uniform float a; /* b\nuniform c;\n*/\nuniform float d;\nx"),
        " /* b\nuniform c;\n*/\nx\n"
    );
}

#[test]
fn code_behind_a_declaration_is_kept() {
    assert_eq!(body("uniform float a; float b;"), " float b;\n");
    assert_eq!(body("uniform float\na; float b;"), " float b;\n");
    assert_eq!(body("precision highp float; float b;"), " float b;\n");
    assert_eq!(body("varying vec2 v; // a\r\nfloat b;"), "float b;\n");
    assert_eq!(body("uniform float a; void main() {}"), " void main() {}\n");
    assert_eq!(
        body("uniform float\n  a; float b() {\n}"),
        " float b() {\n}\n"
    );
    // More declarations behind the first.
    assert_eq!(body("uniform float a; uniform float b;\nx"), "x\n");
    assert_eq!(body("varying vec2 v; uniform float\nb; float c;"), " float c;\n");
}

#[test]
fn declarations_without_an_end() {
    assert_eq!(body("uniform float a\nx"), "uniform float a\nx\n");
    assert_eq!(body("uniform float a // b;\n"), "");
    assert_eq!(body("uniform float a // b;\nvoid main() {}"), "void main() {}\n");
    assert_eq!(body("varying vec2 v"), "");
    assert_eq!(body("precision highp float\nvoid main() {}"), "void main() {}\n");
    // A brace before the semicolon: a block.
    assert_eq!(body("uniform Block { float a; };\nx"), "x\n");
    assert_eq!(body("uniform Block { float a; }; // b\nx"), "x\n");
    assert_eq!(
        body("uniform Block {\n  float a;\n};\n"),
        "uniform Block {\n  float a;\n};\n"
    );
}

#[test]
fn vulkan_source_has_the_whole_preamble() {
    let out = vulkanize_fragment("void main() {}", "", "");
    for line in [
        "layout(location = 0) out vec4 niri_frag_color;",
        "#define gl_FragColor niri_frag_color",
        "layout(push_constant) uniform NiriPush {",
        "vec4 niri_pc0; vec4 niri_pc1; vec4 niri_pc2; vec4 niri_pc3; vec4 niri_pc4; vec4 niri_pc5;",
        "};",
        "#define niri_alpha niri_pc2.z",
        "#define niri_tint niri_pc2.w",
        "void main() {}",
    ] {
        assert!(out.lines().any(|l| l.trim() == line), "{line}");
    }
}

type TestShaders = Shaders<u8, u16, u32, u64>;

fn gles_shaders() -> TestShaders {
    Shaders::compile(
        &SOURCES,
        |request: &ProgramRequest| {
            let source = request.source.as_str();
            Ok(if source == "[texture_hdr][hdr]" {
                10
            } else if source == "[texture_hdr_to_sdr]" {
                11
            } else if source.ends_with("}") {
                12
            } else if source.contains("[postprocess]") {
                13
            } else {
                14
            })
        },
        |request: &ProgramRequest| {
            if request.source.starts_with("[border]") {
                Ok(1)
            } else if request.source.starts_with("[resize_prelude][resize]") {
                Ok(2)
            } else {
                Err("no shadows")
            }
        },
        || Ok(15),
    )
}

#[test]
fn programs_are_stored() {
    let shaders = gles_shaders();
    assert!(matches!(
        shaders.clipped_surface,
        Some(NiriTexProgram::Gles(12))
    ));
    assert_eq!(shaders.program(ProgramType::Border), Some(1));
    assert_eq!(shaders.program(ProgramType::Shadow), None);
    assert_eq!(shaders.program(ProgramType::Resize), Some(2));
    assert_eq!(shaders.program(ProgramType::Close), None);
    assert_eq!(shaders.program(ProgramType::Open), None);

    assert_eq!(shaders.texture_hdr, Some(10));
    assert_eq!(shaders.texture_hdr_to_sdr, Some(11));
    assert_eq!(shaders.postprocess_and_clip, Some(13));
    assert_eq!(shaders.gradient_fade, Some(14));
    assert_eq!(shaders.blur, Some(15));

    let shaders: TestShaders = Shaders::compile_vulkan(
        &SOURCES,
        |request: &ProgramRequest| {
            assert_eq!(request.textures, ["tex"]);
            Ok(20)
        },
        |request: &ProgramRequest| {
            if request.source.starts_with("[border]") {
                Ok(1)
            } else if request.source.starts_with("[shadow]") {
                Ok(3)
            } else {
                Err("no resize")
            }
        },
    );
    assert_eq!(shaders.program(ProgramType::Resize), None);
    assert!(matches!(
        shaders.clipped_surface,
        Some(NiriTexProgram::Vulkan(20))
    ));
    assert_eq!(shaders.program(ProgramType::Shadow), Some(3));
    assert!(shaders.texture_hdr.is_none() && shaders.blur.is_none());

    let mut stored = None;
    assert!(init(&mut stored, shaders));
    assert!(!init(&mut stored, gles_shaders()));
    assert_eq!(stored.as_ref().unwrap().shadow, Some(3));
    init_vulkan(&mut stored, gles_shaders());
    assert_eq!(stored.as_ref().unwrap().shadow, Some(3));
    let mut empty = None;
    init_vulkan(&mut empty, gles_shaders());
    assert_eq!(empty.unwrap().blur, Some(15));

    let renderer: TtyRenderer<TestShaders, Option<TestShaders>> = TtyRenderer::Vulkan(stored);
    assert_eq!(Shaders::get(&renderer).unwrap().shadow, Some(3));
    let renderer: TtyRenderer<TestShaders, Option<TestShaders>> = TtyRenderer::Vulkan(None);
    assert!(Shaders::get(&renderer).is_none());
    let renderer: TtyRenderer<TestShaders, Option<TestShaders>> =
        TtyRenderer::Gles(gles_shaders());
    assert_eq!(Shaders::get(&renderer).unwrap().blur, Some(15));
}

#[test]
fn custom_programs_replace_each_other() {
    let mut stored = Some(gles_shaders());
    let program = |stored: &Option<TestShaders>, p| stored.as_ref().unwrap().program(p);
    // The program is the length of its source; an empty one does not compile.
    let compile = |prefix: usize| {
        move |request: &ProgramRequest| {
            let len = request.source.len() - prefix;
            if len > 0 {
                Ok(len as u8)
            } else {
                Err("empty")
            }
        }
    };
    let unused = |_: &ProgramRequest| -> Result<u8, &'static str> { panic!() };

    let wrapped = "[resize_prelude][resize_epilogue][rounding_alpha]".len();
    let resize = |stored: &mut Option<TestShaders>, src: Option<&str>| {
        set_custom_resize_program(
            stored,
            &SOURCES,
            src,
            true,
            false,
            compile(wrapped),
            unused,
        )
    };
    assert!(matches!(
        resize(&mut stored, Some("12345")),
        CustomProgramChange::Replaced { destroy: None }
    ));
    assert_eq!(program(&stored, ProgramType::Resize), Some(5));
    // A failed compilation changes nothing.
    assert!(matches!(
        resize(&mut stored, Some("")),
        CustomProgramChange::Failed(CompileError::Failed("empty"))
    ));
    assert_eq!(program(&stored, ProgramType::Resize), Some(5));
    // Back to the built-in program.
    assert!(matches!(
        resize(&mut stored, None),
        CustomProgramChange::Replaced { destroy: Some(5) }
    ));
    assert_eq!(program(&stored, ProgramType::Resize), Some(2));

    // On Vulkan, programs are not destroyed.
    let wrapped = "[close_prelude][close_epilogue]".len();
    let close = |stored: &mut Option<TestShaders>, src: Option<&str>| {
        set_custom_close_program(
            stored,
            &SOURCES,
            src,
            false,
            true,
            unused,
            compile(wrapped),
        )
    };
    close(&mut stored, Some("123456"));
    assert_eq!(program(&stored, ProgramType::Close), Some(6));
    assert!(matches!(
        close(&mut stored, Some("1234567")),
        CustomProgramChange::Replaced { destroy: None }
    ));
    assert_eq!(program(&stored, ProgramType::Close), Some(7));
    assert_eq!(program(&stored, ProgramType::Open), None);

    let wrapped = "[open_prelude][open_epilogue]".len();
    let open = |stored: &mut Option<TestShaders>, src: Option<&str>, has_gles: bool| {
        set_custom_open_program(
            stored,
            &SOURCES,
            src,
            has_gles,
            false,
            compile(wrapped),
            unused,
        )
    };
    open(&mut stored, Some("12345678"), true);
    assert_eq!(program(&stored, ProgramType::Open), Some(8));
    assert!(matches!(
        open(&mut stored, Some("123456789"), true),
        CustomProgramChange::Replaced { destroy: Some(8) }
    ));
    assert!(matches!(
        open(&mut stored, Some("1"), false),
        CustomProgramChange::Failed(CompileError::UnsupportedRenderer)
    ));
    assert_eq!(program(&stored, ProgramType::Open), Some(9));

    // Without shaders there is nothing to replace.
    let mut missing: Option<TestShaders> = None;
    assert!(matches!(
        open(&mut missing, Some("1"), true),
        CustomProgramChange::Replaced { destroy: None }
    ));
    assert!(missing.is_none());
}
