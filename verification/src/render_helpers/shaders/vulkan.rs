//! GLES-dialect shaders on the Vulkan renderer.

use vstd::prelude::*;

use crate::render_helpers::shaders::compile::ProgramRequest;
use crate::render_helpers::shaders::declarations::{
    append_without_declarations, joined, kept_lines, without_declarations,
};
use crate::render_helpers::shaders::stripping::{
    begins, blank_from, lacks, law_declarations_are_stripped_up_to_their_semicolon,
    law_directives_are_stripped, law_lines_without_the_words_are_kept, opens_with,
};
use crate::render_helpers::uniform::{UniformName, UniformType};
use crate::utils::text::{law_lines_are_split_at_line_feeds, lines, same_text};

verus! {

/// The type of a member of a program's uniform block.
#[derive(Debug, Clone, Copy, PartialEq, Eq, Structural)]
pub enum CustomUniformKind {
    Float,
    Vec2,
    Vec3,
    Vec4,
    Mat3,
}

/// A member of a program's uniform block.
#[derive(Debug, Clone, Copy)]
pub struct CustomUniformDecl {
    pub name: &'static str,
    pub kind: CustomUniformKind,
}

pub open spec fn uniform_kind(type_: UniformType) -> Option<CustomUniformKind> {
    match type_ {
        UniformType::Float1 => Some(CustomUniformKind::Float),
        UniformType::Float2 => Some(CustomUniformKind::Vec2),
        UniformType::Float3 => Some(CustomUniformKind::Vec3),
        UniformType::Float4 => Some(CustomUniformKind::Vec4),
        UniformType::Matrix3x3 => Some(CustomUniformKind::Mat3),
        _ => None,
    }
}

pub open spec fn uniform_name_to_decl_spec(uniform: UniformName) -> Option<CustomUniformDecl> {
    match uniform_kind(uniform.type_) {
        Some(kind) => Some(CustomUniformDecl { name: uniform.name, kind }),
        None => None,
    }
}

/// Maps a GLES uniform declaration to a custom Vulkan uniform declaration.
pub fn uniform_name_to_decl(uniform: &UniformName) -> (decl: Option<CustomUniformDecl>)
    ensures
        decl == uniform_name_to_decl_spec(*uniform),
{
    let kind: CustomUniformKind = match uniform.type_ {
        UniformType::Float1 => CustomUniformKind::Float,
        UniformType::Float2 => CustomUniformKind::Vec2,
        UniformType::Float3 => CustomUniformKind::Vec3,
        UniformType::Float4 => CustomUniformKind::Vec4,
        UniformType::Matrix3x3 => CustomUniformKind::Mat3,
        _ => {
            return None;
        },
    };
    Some(CustomUniformDecl { name: uniform.name, kind })
}

/// The declarations of those uniforms that have a Vulkan counterpart, in order.
pub open spec fn mapped_decls(uniforms: Seq<UniformName>) -> Seq<CustomUniformDecl>
    decreases uniforms.len(),
{
    if uniforms.len() == 0 {
        Seq::empty()
    } else {
        let rest = mapped_decls(uniforms.drop_last());
        match uniform_name_to_decl_spec(uniforms.last()) {
            Some(decl) => rest.push(decl),
            None => rest,
        }
    }
}

pub open spec fn declares(decls: Seq<CustomUniformDecl>, name: Seq<char>) -> bool {
    exists|i: int| #![trigger decls[i]] 0 <= i < decls.len() && decls[i].name@ == name
}

/// The declarations with one more at the end, unless they hold its name already.
pub open spec fn with_decl(
    decls: Seq<CustomUniformDecl>,
    decl: CustomUniformDecl,
) -> Seq<CustomUniformDecl> {
    if declares(decls, decl.name@) {
        decls
    } else {
        decls.push(decl)
    }
}

/// The uniform block of a Vulkan program: its own uniforms, then the size and the scale of the
/// element unless it declares them itself.
pub open spec fn vulkan_decls_spec(uniforms: Seq<UniformName>) -> Seq<CustomUniformDecl> {
    with_decl(
        with_decl(
            mapped_decls(uniforms),
            CustomUniformDecl { name: "niri_size", kind: CustomUniformKind::Vec2 },
        ),
        CustomUniformDecl { name: "niri_scale", kind: CustomUniformKind::Float },
    )
}

fn add_decl(decls: &mut Vec<CustomUniformDecl>, decl: CustomUniformDecl)
    ensures
        final(decls)@ == with_decl(old(decls)@, decl),
{
    let mut i: usize = 0;
    while i < decls.len()
        invariant
            i <= decls.len(),
            decls@ == old(decls)@,
            forall|k: int| 0 <= k < i ==> #[trigger] decls@[k].name@ != decl.name@,
        decreases decls.len() - i,
    {
        if same_text(decls[i].name, decl.name) {
            assert(decls@[i as int].name@ == decl.name@);
            return;
        }
        i = i + 1;
    }
    decls.push(decl);
}

/// The uniform declarations with which a program is compiled for the Vulkan renderer.
pub fn vulkan_decls(uniforms: &Vec<UniformName>) -> (decls: Vec<CustomUniformDecl>)
    ensures
        decls@ == vulkan_decls_spec(uniforms@),
{
    let mut decls: Vec<CustomUniformDecl> = Vec::new();
    let mut i: usize = 0;
    assert(uniforms@.take(0) == Seq::<UniformName>::empty());
    while i < uniforms.len()
        invariant
            i <= uniforms.len(),
            decls@ == mapped_decls(uniforms@.take(i as int)),
        decreases uniforms.len() - i,
    {
        assert(uniforms@.take(i + 1).drop_last() == uniforms@.take(i as int));
        if let Some(decl) = uniform_name_to_decl(&uniforms[i]) {
            decls.push(decl);
        }
        i = i + 1;
    }
    assert(uniforms@.take(uniforms@.len() as int) == uniforms@);
    add_decl(
        &mut decls,
        CustomUniformDecl { name: "niri_size", kind: CustomUniformKind::Vec2 },
    );
    add_decl(
        &mut decls,
        CustomUniformDecl { name: "niri_scale", kind: CustomUniformKind::Float },
    );
    decls
}

/// The Vulkan GLSL of a GLES-dialect fragment shader, given the texture bindings and the uniform
/// block.
pub open spec fn vulkan_source(
    src: Seq<char>,
    texture_bindings: Seq<char>,
    uniform_block: Seq<char>,
) -> Seq<char> {
    "#version 450
         #define DEBUG_FLAGS
         #define texture2D texture
"@ + texture_bindings + uniform_block + "layout(location = 0) in vec2 niri_v_coords;
         layout(location = 0) out vec4 niri_frag_color;
         #define gl_FragColor niri_frag_color
         layout(push_constant) uniform NiriPush {
             vec4 niri_pc0; vec4 niri_pc1; vec4 niri_pc2; vec4 niri_pc3; vec4 niri_pc4; vec4 niri_pc5;
         };
         #define niri_alpha niri_pc2.z
         #define niri_tint niri_pc2.w
         #define v_coords niri_v_coords
"@ + without_declarations(lines(src))
}

/// Transforms a GLES-dialect fragment shader into Vulkan GLSL.
///
/// Uniform, varying and precision declarations are stripped from the source; uniforms are provided
/// through the given std140 block, textures through the given bindings, `niri_v_coords` becomes
/// the vertex input, and `niri_alpha`/`niri_tint` map to the push constants.
///
/// A declaration is stripped where it begins a line, outside comments, or follows another one or a
/// comment there. It goes up to its semicolon, over as many lines as it takes. What stands behind
/// the semicolon is kept, unless it is blank or a comment that ends there. Of a declaration without
/// an end, the line is stripped if it begins with `varying` or `precision`, or if it begins with
/// `uniform` and ends in a semicolon. Version and extension directives are stripped as well, and
/// all other lines are kept as they are.
pub fn vulkanize_fragment(src: &str, texture_bindings: &str, uniform_block: &str) -> (out: String)
    ensures
        out@ == vulkan_source(src@, texture_bindings@, uniform_block@),
{
    let mut out: String = "#version 450
         #define DEBUG_FLAGS
         #define texture2D texture
".to_owned();
    out.append(texture_bindings);
    out.append(uniform_block);
    out.append(
        "layout(location = 0) in vec2 niri_v_coords;
         layout(location = 0) out vec4 niri_frag_color;
         #define gl_FragColor niri_frag_color
         layout(push_constant) uniform NiriPush {
             vec4 niri_pc0; vec4 niri_pc1; vec4 niri_pc2; vec4 niri_pc3; vec4 niri_pc4; vec4 niri_pc5;
         };
         #define niri_alpha niri_pc2.z
         #define niri_tint niri_pc2.w
         #define v_coords niri_v_coords
",
    );
    append_without_declarations(&mut out, src);
    out
}

/// Compiles a shader program for the Vulkan renderer from its GLES-dialect source.
/// `texture_bindings` and `uniform_block` give the GLSL of the program's textures and uniforms, and
/// `compile` compiles Vulkan GLSL with them.
pub fn compile_vulkan_program<
    P,
    E,
    FT: FnOnce(&Vec<&'static str>) -> String,
    FU: FnOnce(&Vec<CustomUniformDecl>) -> String,
    FC: FnOnce(&String, &Vec<CustomUniformDecl>, &Vec<&'static str>) -> Result<P, E>,
>(request: &ProgramRequest, texture_bindings: FT, uniform_block: FU, compile: FC) -> (program:
    Result<P, E>)
    requires
        call_requires(texture_bindings, (&request.textures,)),
        forall|decls: &Vec<CustomUniformDecl>| #[trigger] call_requires(uniform_block, (decls,)),
        forall|source: &String, decls: &Vec<CustomUniformDecl>| #[trigger]
            call_requires(compile, (source, decls, &request.textures)),
    ensures
        exists|
            source: String,
            decls: Vec<CustomUniformDecl>,
            bindings: String,
            block: String,
        |
            {
                &&& #[trigger] call_ensures(
                    compile,
                    (&source, &decls, &request.textures),
                    program,
                )
                &&& decls@ == vulkan_decls_spec(request.uniforms@)
                &&& #[trigger] call_ensures(texture_bindings, (&request.textures,), bindings)
                &&& #[trigger] call_ensures(uniform_block, (&decls,), block)
                &&& source@ == vulkan_source(request.source@, bindings@, block@)
            },
{
    let decls: Vec<CustomUniformDecl> = vulkan_decls(&request.uniforms);
    let bindings: String = texture_bindings(&request.textures);
    let block: String = uniform_block(&decls);
    let source: String = vulkanize_fragment(
        request.source.as_str(),
        bindings.as_str(),
        block.as_str(),
    );
    compile(&source, &decls, &request.textures)
}

/// Every Vulkan program declares the size and the scale of its element, whatever its own uniforms
/// are, and all of its own uniforms that have a Vulkan counterpart, first and in order.
pub proof fn law_vulkan_programs_declare_size_and_scale(uniforms: Seq<UniformName>)
    ensures
        declares(vulkan_decls_spec(uniforms), "niri_size"@),
        declares(vulkan_decls_spec(uniforms), "niri_scale"@),
        mapped_decls(uniforms).is_prefix_of(vulkan_decls_spec(uniforms)),
{
    let own = mapped_decls(uniforms);
    let size = CustomUniformDecl { name: "niri_size", kind: CustomUniformKind::Vec2 };
    let scale = CustomUniformDecl { name: "niri_scale", kind: CustomUniformKind::Float };
    lemma_with_decl(own, size);
    lemma_with_decl(with_decl(own, size), scale);
    lemma_still_declares(with_decl(own, size), scale, "niri_size"@);
    assert(own =~= vulkan_decls_spec(uniforms).take(own.len() as int));
}

proof fn lemma_with_decl(decls: Seq<CustomUniformDecl>, decl: CustomUniformDecl)
    ensures
        declares(with_decl(decls, decl), decl.name@),
{
    if !declares(decls, decl.name@) {
        assert(decls.push(decl)[decls.len() as int].name@ == decl.name@);
    }
}

proof fn lemma_still_declares(
    decls: Seq<CustomUniformDecl>,
    decl: CustomUniformDecl,
    name: Seq<char>,
)
    requires
        declares(decls, name),
    ensures
        declares(with_decl(decls, decl), name),
{
    let i = choose|i: int| #![trigger decls[i]] 0 <= i < decls.len() && decls[i].name@ == name;
    assert(with_decl(decls, decl)[i].name@ == name);
}

/// A uniform of one, two, three or four floats or a 3x3 matrix keeps its name and its type in the
/// uniform block of a Vulkan program. Uniforms of other types are left out of it.
pub proof fn law_uniforms_keep_their_type(uniforms: Seq<UniformName>, i: int)
    requires
        0 <= i < uniforms.len(),
    ensures
        ({
            let decls = vulkan_decls_spec(uniforms);
            let u = uniforms[i];
            &&& u.type_ == UniformType::Float1 ==> holds(decls, u.name, CustomUniformKind::Float)
            &&& u.type_ == UniformType::Float2 ==> holds(decls, u.name, CustomUniformKind::Vec2)
            &&& u.type_ == UniformType::Float3 ==> holds(decls, u.name, CustomUniformKind::Vec3)
            &&& u.type_ == UniformType::Float4 ==> holds(decls, u.name, CustomUniformKind::Vec4)
            &&& u.type_ == UniformType::Matrix3x3 ==> holds(decls, u.name, CustomUniformKind::Mat3)
        }),
{
    lemma_mapped(uniforms, i);
    let own = mapped_decls(uniforms);
    law_vulkan_programs_declare_size_and_scale(uniforms);
    assert(own =~= vulkan_decls_spec(uniforms).take(own.len() as int));
    if let Some(decl) = uniform_name_to_decl_spec(uniforms[i]) {
        let k = own.index_of(decl);
        assert(vulkan_decls_spec(uniforms)[k] == decl);
    }
}

/// The declarations hold one of this name and type.
pub open spec fn holds(
    decls: Seq<CustomUniformDecl>,
    name: &'static str,
    kind: CustomUniformKind,
) -> bool {
    exists|k: int| #![trigger decls[k]]
        0 <= k < decls.len() && decls[k].name == name && decls[k].kind == kind
}

proof fn lemma_mapped(uniforms: Seq<UniformName>, i: int)
    requires
        0 <= i < uniforms.len(),
    ensures
        uniform_name_to_decl_spec(uniforms[i]) matches Some(decl) ==> mapped_decls(
            uniforms,
        ).contains(decl),
    decreases uniforms.len(),
{
    let rest = mapped_decls(uniforms.drop_last());
    let all = mapped_decls(uniforms);
    if let Some(decl) = uniform_name_to_decl_spec(uniforms[i]) {
        if i < uniforms.len() - 1 {
            lemma_mapped(uniforms.drop_last(), i);
            let k = rest.index_of(decl);
            assert(all[k] == decl);
        } else {
            assert(all[rest.len() as int] == decl);
        }
    }
}

/// Each member of the uniform block is one of the program's own uniforms, or the size or the scale
/// of the element: two floats and one.
pub proof fn law_uniform_block_holds_nothing_else(uniforms: Seq<UniformName>, k: int)
    requires
        0 <= k < vulkan_decls_spec(uniforms).len(),
    ensures
        ({
            let decl = vulkan_decls_spec(uniforms)[k];
            ||| decl.name == "niri_size" && decl.kind == CustomUniformKind::Vec2
            ||| decl.name == "niri_scale" && decl.kind == CustomUniformKind::Float
            ||| exists|i: int|
                0 <= i < uniforms.len() && (#[trigger] uniforms[i]).name == decl.name
        }),
{
    let own = mapped_decls(uniforms);
    if k < own.len() {
        assert(vulkan_decls_spec(uniforms)[k] == own[k]);
        lemma_mapped_from(uniforms, k);
    }
}

proof fn lemma_mapped_from(uniforms: Seq<UniformName>, k: int)
    requires
        0 <= k < mapped_decls(uniforms).len(),
    ensures
        exists|i: int|
            0 <= i < uniforms.len() && (#[trigger] uniforms[i]).name == mapped_decls(
                uniforms,
            )[k].name,
    decreases uniforms.len(),
{
    let shorter = uniforms.drop_last();
    let rest = mapped_decls(shorter);
    if k < rest.len() {
        lemma_mapped_from(shorter, k);
        let i = choose|i: int|
            0 <= i < shorter.len() && (#[trigger] shorter[i]).name == rest[k].name;
        assert(uniforms[i].name == mapped_decls(uniforms)[k].name);
    } else {
        assert(uniforms[uniforms.len() - 1].name == mapped_decls(uniforms)[k].name);
    }
}

/// The Vulkan source is a preamble, which does not depend on the shader, and then the shader without
/// its declarations. The preamble begins with the GLSL version and holds the texture bindings, and
/// then the uniform block, as they are.
pub proof fn law_shader_follows_the_preamble(
    src: Seq<char>,
    texture_bindings: Seq<char>,
    uniform_block: Seq<char>,
)
    ensures
        ({
            let preamble = vulkan_source(Seq::empty(), texture_bindings, uniform_block);
            &&& vulkan_source(src, texture_bindings, uniform_block) == preamble
                + without_declarations(lines(src))
            &&& "#version 450\n"@.is_prefix_of(preamble)
            &&& exists|head: Seq<char>, tail: Seq<char>|
                preamble == #[trigger] (head + (texture_bindings + uniform_block) + tail)
        }),
{
    let version = "#version 450
         #define DEBUG_FLAGS
         #define texture2D texture
"@;
    let stage = "layout(location = 0) in vec2 niri_v_coords;
         layout(location = 0) out vec4 niri_frag_color;
         #define gl_FragColor niri_frag_color
         layout(push_constant) uniform NiriPush {
             vec4 niri_pc0; vec4 niri_pc1; vec4 niri_pc2; vec4 niri_pc3; vec4 niri_pc4; vec4 niri_pc5;
         };
         #define niri_alpha niri_pc2.z
         #define niri_tint niri_pc2.w
         #define v_coords niri_v_coords
"@;
    let preamble = vulkan_source(Seq::empty(), texture_bindings, uniform_block);
    assert(without_declarations(lines(Seq::empty())) == Seq::<char>::empty());
    assert(preamble == version + (texture_bindings + uniform_block) + stage);
    assert(vulkan_source(src, texture_bindings, uniform_block) == preamble + without_declarations(
        lines(src),
    ));
    assert("#version 450\n"@.is_prefix_of(preamble)) by {
        reveal_strlit("#version 450\n");
        reveal_strlit("#version 450
         #define DEBUG_FLAGS
         #define texture2D texture
");
        assert("#version 450\n"@ =~= preamble.take(13));
    }
}

/// A line that is put in front of a shader is put in front of what the shader adds to the Vulkan
/// source, unless its first characters are `#version` or `#extension` or its first word is `uniform`,
/// `varying` or `precision`. Nothing else changes.
pub proof fn law_lines_in_front_stay_in_front(
    src: &str,
    longer: &str,
    line: Seq<char>,
    texture_bindings: &str,
    uniform_block: &str,
    out: String,
    longer_out: String,
)
    requires
        call_ensures(vulkanize_fragment, (src, texture_bindings, uniform_block), out),
        call_ensures(vulkanize_fragment, (longer, texture_bindings, uniform_block), longer_out),
        longer@ == line + seq!['\n'] + src@,
        forall|i: int| 0 <= i < line.len() ==> #[trigger] line[i] != '\n',
        line.len() > 0 ==> line.last() != '\r',
        lacks(line, '/'),
        !opens_with(line, "uniform"@),
        !opens_with(line, "varying"@),
        !opens_with(line, "precision"@),
        !begins(line, "#version"@),
        !begins(line, "#extension"@),
    ensures
        exists|preamble: Seq<char>, body: Seq<char>|
            out@ == preamble + body && longer_out@ == #[trigger] (preamble + (line + seq!['\n']
                + body)),
{
    law_lines_are_split_at_line_feeds(line, src@);
    let source = lines(src@);
    law_lines_without_the_words_are_kept(Seq::empty(), line, source);
    let tail = seq![line] + source;
    assert(Seq::<Seq<char>>::empty() + tail == tail);
    let kept = kept_lines(source, false);
    let longer_kept = kept_lines(lines(longer@), false);
    assert(longer_kept == seq![line] + kept);
    assert(longer_kept.first() == line);
    assert(longer_kept.drop_first() == kept);
    let preamble = vulkan_source(Seq::empty(), texture_bindings@, uniform_block@);
    law_shader_follows_the_preamble(src@, texture_bindings@, uniform_block@);
    law_shader_follows_the_preamble(longer@, texture_bindings@, uniform_block@);
    let body = joined(kept);
    assert(line.push('\n') + body == line + seq!['\n'] + body);
    assert(out@ == preamble + body);
    assert(longer_out@ == preamble + (line + seq!['\n'] + body));
}

/// A declaration on a line of its own, and a version or extension directive, may stand in front of a
/// shader or not: the Vulkan source is the same.
pub proof fn law_declarations_in_front_make_no_difference(
    src: &str,
    longer: &str,
    line: Seq<char>,
    k: int,
    texture_bindings: &str,
    uniform_block: &str,
    out: String,
    longer_out: String,
)
    requires
        call_ensures(vulkanize_fragment, (src, texture_bindings, uniform_block), out),
        call_ensures(vulkanize_fragment, (longer, texture_bindings, uniform_block), longer_out),
        longer@ == line + seq!['\n'] + src@,
        forall|i: int| 0 <= i < line.len() ==> #[trigger] line[i] != '\n',
        line.len() > 0 ==> line.last() != '\r',
        lacks(line, '/'),
        begins(line, "#version"@) || begins(line, "#extension"@) || {
            &&& opens_with(line, "uniform"@) || opens_with(line, "varying"@) || opens_with(
                line,
                "precision"@,
            )
            &&& 0 <= k < line.len()
            &&& line[k] == ';'
            &&& forall|j: int| 0 <= j < k ==> #[trigger] line[j] != ';' && line[j] != '{'
            &&& blank_from(line, k + 1)
        },
    ensures
        longer_out@ == out@,
{
    law_lines_are_split_at_line_feeds(line, src@);
    let source = lines(src@);
    let tail = seq![line] + source;
    let none = Seq::<Seq<char>>::empty();
    assert(none + tail == tail);
    assert(kept_lines(none, false) + kept_lines(source, false) == kept_lines(source, false));
    if begins(line, "#version"@) || begins(line, "#extension"@) {
        law_directives_are_stripped(none, line, source);
    } else {
        assert((none + seq![line]).first() == line);
        law_declarations_are_stripped_up_to_their_semicolon(none, none, line, k, source);
    }
}

/// No name is declared twice.
pub open spec fn names_differ(decls: Seq<CustomUniformDecl>) -> bool {
    forall|i: int, j: int|
        0 <= i < j < decls.len() ==> (#[trigger] decls[i]).name@ != (#[trigger] decls[j]).name@
}

proof fn lemma_names_differ(decls: Seq<CustomUniformDecl>, decl: CustomUniformDecl)
    requires
        names_differ(decls),
    ensures
        names_differ(with_decl(decls, decl)),
{
    let longer = with_decl(decls, decl);
    assert forall|i: int, j: int| 0 <= i < j < longer.len() implies (#[trigger] longer[i]).name@ != (
    #[trigger] longer[j]).name@ by {
        assert(longer[i] == decls[i]);
        if j < decls.len() {
            assert(longer[j] == decls[j]);
        }
    }
}

/// The size and the scale are declared in addition only by programs that do not declare them
/// themselves: the uniform block never declares a name twice unless the program does.
pub proof fn law_uniform_block_declares_names_once(uniforms: Seq<UniformName>)
    requires
        names_differ(mapped_decls(uniforms)),
    ensures
        names_differ(vulkan_decls_spec(uniforms)),
{
    let own = mapped_decls(uniforms);
    let size = CustomUniformDecl { name: "niri_size", kind: CustomUniformKind::Vec2 };
    let scale = CustomUniformDecl { name: "niri_scale", kind: CustomUniformKind::Float };
    lemma_names_differ(own, size);
    lemma_names_differ(with_decl(own, size), scale);
}

} // verus!
