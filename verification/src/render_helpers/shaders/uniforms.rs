//! The uniform declarations of the shader programs.

use vstd::prelude::*;

use crate::render_helpers::blend::frame::{
    blend_uniform_names, law_content_uniforms_are_the_declared_ones, params_uniforms,
    ColorBlendParams, FrameBlendState,
};
use crate::render_helpers::uniform::{UniformName, UniformType};

verus! {

/// A program's own uniform declarations followed by the shared `niri_blend` ones.
///
/// Every texture program embeds (or is drawn with) the blend stage, so its uniform list must always
/// hold [`FrameBlendState::uniform_names`]; missing declarations fail draws at runtime, not compile
/// time.
pub fn with_blend_uniform_names(specific: &Vec<UniformName>) -> (names: Vec<UniformName>)
    ensures
        names@ == specific@ + blend_uniform_names(),
{
    let mut names: Vec<UniformName> = Vec::new();
    let mut i: usize = 0;
    while i < specific.len()
        invariant
            i <= specific.len(),
            names@ == specific@.take(i as int),
        decreases specific.len() - i,
    {
        names.push(specific[i]);
        i = i + 1;
    }
    assert(specific@.take(specific@.len() as int) == specific@);
    let mut blend: Vec<UniformName> = FrameBlendState::uniform_names();
    names.append(&mut blend);
    names
}

/// The uniforms of the border program.
pub open spec fn border_uniforms_spec() -> Seq<UniformName> {
    seq![
        UniformName { name: "colorspace", type_: UniformType::Float1 },
        UniformName { name: "hue_interpolation", type_: UniformType::Float1 },
        UniformName { name: "color_from", type_: UniformType::Float4 },
        UniformName { name: "color_to", type_: UniformType::Float4 },
        UniformName { name: "grad_offset", type_: UniformType::Float2 },
        UniformName { name: "grad_width", type_: UniformType::Float1 },
        UniformName { name: "grad_vec", type_: UniformType::Float2 },
        UniformName { name: "input_to_geo", type_: UniformType::Matrix3x3 },
        UniformName { name: "geo_size", type_: UniformType::Float2 },
        UniformName { name: "outer_radius", type_: UniformType::Float4 },
        UniformName { name: "border_width", type_: UniformType::Float1 },
    ]
}

pub fn border_uniforms() -> (names: Vec<UniformName>)
    ensures
        names@ == border_uniforms_spec(),
{
    vec![
        UniformName::new("colorspace", UniformType::Float1),
        UniformName::new("hue_interpolation", UniformType::Float1),
        UniformName::new("color_from", UniformType::Float4),
        UniformName::new("color_to", UniformType::Float4),
        UniformName::new("grad_offset", UniformType::Float2),
        UniformName::new("grad_width", UniformType::Float1),
        UniformName::new("grad_vec", UniformType::Float2),
        UniformName::new("input_to_geo", UniformType::Matrix3x3),
        UniformName::new("geo_size", UniformType::Float2),
        UniformName::new("outer_radius", UniformType::Float4),
        UniformName::new("border_width", UniformType::Float1),
    ]
}

/// The uniforms of the shadow program.
pub open spec fn shadow_uniforms_spec() -> Seq<UniformName> {
    seq![
        UniformName { name: "shadow_color", type_: UniformType::Float4 },
        UniformName { name: "sigma", type_: UniformType::Float1 },
        UniformName { name: "input_to_geo", type_: UniformType::Matrix3x3 },
        UniformName { name: "geo_size", type_: UniformType::Float2 },
        UniformName { name: "corner_radius", type_: UniformType::Float4 },
        UniformName { name: "window_input_to_geo", type_: UniformType::Matrix3x3 },
        UniformName { name: "window_geo_size", type_: UniformType::Float2 },
        UniformName { name: "window_corner_radius", type_: UniformType::Float4 },
    ]
}

pub fn shadow_uniforms() -> (names: Vec<UniformName>)
    ensures
        names@ == shadow_uniforms_spec(),
{
    vec![
        UniformName::new("shadow_color", UniformType::Float4),
        UniformName::new("sigma", UniformType::Float1),
        UniformName::new("input_to_geo", UniformType::Matrix3x3),
        UniformName::new("geo_size", UniformType::Float2),
        UniformName::new("corner_radius", UniformType::Float4),
        UniformName::new("window_input_to_geo", UniformType::Matrix3x3),
        UniformName::new("window_geo_size", UniformType::Float2),
        UniformName::new("window_corner_radius", UniformType::Float4),
    ]
}

/// The uniforms of programs that clip a texture to a rounded rectangle.
pub open spec fn clip_uniforms_spec() -> Seq<UniformName> {
    seq![
        UniformName { name: "niri_scale", type_: UniformType::Float1 },
        UniformName { name: "geo_size", type_: UniformType::Float2 },
        UniformName { name: "corner_radius", type_: UniformType::Float4 },
        UniformName { name: "input_to_geo", type_: UniformType::Matrix3x3 },
    ]
}

pub fn clip_uniforms() -> (names: Vec<UniformName>)
    ensures
        names@ == clip_uniforms_spec(),
{
    vec![
        UniformName::new("niri_scale", UniformType::Float1),
        UniformName::new("geo_size", UniformType::Float2),
        UniformName::new("corner_radius", UniformType::Float4),
        UniformName::new("input_to_geo", UniformType::Matrix3x3),
    ]
}

/// The uniforms of the postprocessing of a background effect.
pub open spec fn postprocess_uniforms_spec() -> Seq<UniformName> {
    seq![
        UniformName { name: "noise", type_: UniformType::Float1 },
        UniformName { name: "saturation", type_: UniformType::Float1 },
        UniformName { name: "bg_color", type_: UniformType::Float4 },
    ]
}

pub fn postprocess_uniforms() -> (names: Vec<UniformName>)
    ensures
        names@ == postprocess_uniforms_spec(),
{
    vec![
        UniformName::new("noise", UniformType::Float1),
        UniformName::new("saturation", UniformType::Float1),
        UniformName::new("bg_color", UniformType::Float4),
    ]
}

/// The uniforms of the gradient fade program.
pub open spec fn gradient_fade_uniforms_spec() -> Seq<UniformName> {
    seq![
        UniformName { name: "cutoff", type_: UniformType::Float2 },
    ]
}

pub fn gradient_fade_uniforms() -> (names: Vec<UniformName>)
    ensures
        names@ == gradient_fade_uniforms_spec(),
{
    vec![
        UniformName::new("cutoff", UniformType::Float2),
    ]
}

/// The uniforms of resize programs.
pub open spec fn resize_uniforms_spec() -> Seq<UniformName> {
    seq![
        UniformName { name: "niri_input_to_curr_geo", type_: UniformType::Matrix3x3 },
        UniformName { name: "niri_curr_geo_to_prev_geo", type_: UniformType::Matrix3x3 },
        UniformName { name: "niri_curr_geo_to_next_geo", type_: UniformType::Matrix3x3 },
        UniformName { name: "niri_curr_geo_size", type_: UniformType::Float2 },
        UniformName { name: "niri_geo_to_tex_prev", type_: UniformType::Matrix3x3 },
        UniformName { name: "niri_geo_to_tex_next", type_: UniformType::Matrix3x3 },
        UniformName { name: "niri_progress", type_: UniformType::Float1 },
        UniformName { name: "niri_clamped_progress", type_: UniformType::Float1 },
        UniformName { name: "niri_corner_radius", type_: UniformType::Float4 },
        UniformName { name: "niri_clip_to_geometry", type_: UniformType::Float1 },
    ]
}

pub fn resize_uniforms() -> (names: Vec<UniformName>)
    ensures
        names@ == resize_uniforms_spec(),
{
    vec![
        UniformName::new("niri_input_to_curr_geo", UniformType::Matrix3x3),
        UniformName::new("niri_curr_geo_to_prev_geo", UniformType::Matrix3x3),
        UniformName::new("niri_curr_geo_to_next_geo", UniformType::Matrix3x3),
        UniformName::new("niri_curr_geo_size", UniformType::Float2),
        UniformName::new("niri_geo_to_tex_prev", UniformType::Matrix3x3),
        UniformName::new("niri_geo_to_tex_next", UniformType::Matrix3x3),
        UniformName::new("niri_progress", UniformType::Float1),
        UniformName::new("niri_clamped_progress", UniformType::Float1),
        UniformName::new("niri_corner_radius", UniformType::Float4),
        UniformName::new("niri_clip_to_geometry", UniformType::Float1),
    ]
}

/// The uniforms of window opening and closing programs.
pub open spec fn window_animation_uniforms_spec() -> Seq<UniformName> {
    seq![
        UniformName { name: "niri_input_to_geo", type_: UniformType::Matrix3x3 },
        UniformName { name: "niri_geo_size", type_: UniformType::Float2 },
        UniformName { name: "niri_geo_to_tex", type_: UniformType::Matrix3x3 },
        UniformName { name: "niri_progress", type_: UniformType::Float1 },
        UniformName { name: "niri_clamped_progress", type_: UniformType::Float1 },
        UniformName { name: "niri_random_seed", type_: UniformType::Float1 },
    ]
}

pub fn window_animation_uniforms() -> (names: Vec<UniformName>)
    ensures
        names@ == window_animation_uniforms_spec(),
{
    vec![
        UniformName::new("niri_input_to_geo", UniformType::Matrix3x3),
        UniformName::new("niri_geo_size", UniformType::Float2),
        UniformName::new("niri_geo_to_tex", UniformType::Matrix3x3),
        UniformName::new("niri_progress", UniformType::Float1),
        UniformName::new("niri_clamped_progress", UniformType::Float1),
        UniformName::new("niri_random_seed", UniformType::Float1),
    ]
}

/// The uniforms of the texture shader interface, which the GLES renderer injects per draw.
pub open spec fn injected_uniforms_spec() -> Seq<UniformName> {
    seq![
        UniformName { name: "alpha", type_: UniformType::Float1 },
        UniformName { name: "tint", type_: UniformType::Float1 },
    ]
}

pub fn injected_uniforms() -> (names: Vec<UniformName>)
    ensures
        names@ == injected_uniforms_spec(),
{
    vec![
        UniformName::new("alpha", UniformType::Float1),
        UniformName::new("tint", UniformType::Float1),
    ]
}

/// A program whose declarations end with the shared ones accepts every blend uniform of every draw.
pub proof fn law_programs_accept_blend_uniforms(
    specific: Seq<UniformName>,
    params: ColorBlendParams,
    i: int,
)
    requires
        0 <= i < params_uniforms(params).len(),
    ensures
        params_uniforms(params)[i].declared_in(specific + blend_uniform_names()),
{
    law_content_uniforms_are_the_declared_ones(params, i);
    assert((specific + blend_uniform_names())[specific.len() + i] == blend_uniform_names()[i]);
}

/// A program keeps its own declarations, first and in order, and accepts every blend uniform.
pub proof fn law_programs_keep_their_own_uniforms(
    specific: Vec<UniformName>,
    names: Vec<UniformName>,
    params: ColorBlendParams,
    i: int,
)
    requires
        call_ensures(with_blend_uniform_names, (&specific,), names),
        0 <= i < params_uniforms(params).len(),
    ensures
        specific@.is_prefix_of(names@),
        params_uniforms(params)[i].declared_in(names@),
{
    law_programs_accept_blend_uniforms(specific@, params, i);
    assert(specific@ =~= names@.take(specific@.len() as int));
}

/// The declarations hold one of this name and type.
pub open spec fn declares(names: Seq<UniformName>, name: &'static str, type_: UniformType) -> bool {
    exists|i: int| #![trigger names[i]]
        0 <= i < names.len() && names[i].name == name && names[i].type_ == type_
}

/// Colors and corner radii are four floats, sizes, offsets and directions are two, transforms are
/// 3x3 matrices, and everything else is one float, in all programs.
pub proof fn law_uniform_types_by_meaning()
    ensures
        ({
            let border = border_uniforms_spec();
            &&& declares(border, "color_from", UniformType::Float4)
            &&& declares(border, "color_to", UniformType::Float4)
            &&& declares(border, "outer_radius", UniformType::Float4)
            &&& declares(border, "geo_size", UniformType::Float2)
            &&& declares(border, "grad_offset", UniformType::Float2)
            &&& declares(border, "grad_vec", UniformType::Float2)
            &&& declares(border, "input_to_geo", UniformType::Matrix3x3)
            &&& declares(border, "colorspace", UniformType::Float1)
            &&& declares(border, "hue_interpolation", UniformType::Float1)
            &&& declares(border, "grad_width", UniformType::Float1)
            &&& declares(border, "border_width", UniformType::Float1)
        }),
        ({
            let shadow = shadow_uniforms_spec();
            &&& declares(shadow, "shadow_color", UniformType::Float4)
            &&& declares(shadow, "corner_radius", UniformType::Float4)
            &&& declares(shadow, "window_corner_radius", UniformType::Float4)
            &&& declares(shadow, "geo_size", UniformType::Float2)
            &&& declares(shadow, "window_geo_size", UniformType::Float2)
            &&& declares(shadow, "input_to_geo", UniformType::Matrix3x3)
            &&& declares(shadow, "window_input_to_geo", UniformType::Matrix3x3)
            &&& declares(shadow, "sigma", UniformType::Float1)
        }),
        ({
            let clip = clip_uniforms_spec();
            &&& declares(clip, "corner_radius", UniformType::Float4)
            &&& declares(clip, "geo_size", UniformType::Float2)
            &&& declares(clip, "input_to_geo", UniformType::Matrix3x3)
            &&& declares(clip, "niri_scale", UniformType::Float1)
        }),
        ({
            let postprocess = postprocess_uniforms_spec();
            &&& declares(postprocess, "bg_color", UniformType::Float4)
            &&& declares(postprocess, "noise", UniformType::Float1)
            &&& declares(postprocess, "saturation", UniformType::Float1)
        }),
        ({
            let resize = resize_uniforms_spec();
            &&& declares(resize, "niri_corner_radius", UniformType::Float4)
            &&& declares(resize, "niri_curr_geo_size", UniformType::Float2)
            &&& declares(resize, "niri_input_to_curr_geo", UniformType::Matrix3x3)
            &&& declares(resize, "niri_curr_geo_to_prev_geo", UniformType::Matrix3x3)
            &&& declares(resize, "niri_curr_geo_to_next_geo", UniformType::Matrix3x3)
            &&& declares(resize, "niri_geo_to_tex_prev", UniformType::Matrix3x3)
            &&& declares(resize, "niri_geo_to_tex_next", UniformType::Matrix3x3)
            &&& declares(resize, "niri_progress", UniformType::Float1)
            &&& declares(resize, "niri_clamped_progress", UniformType::Float1)
            &&& declares(resize, "niri_clip_to_geometry", UniformType::Float1)
        }),
        ({
            let window = window_animation_uniforms_spec();
            &&& declares(window, "niri_geo_size", UniformType::Float2)
            &&& declares(window, "niri_input_to_geo", UniformType::Matrix3x3)
            &&& declares(window, "niri_geo_to_tex", UniformType::Matrix3x3)
            &&& declares(window, "niri_progress", UniformType::Float1)
            &&& declares(window, "niri_clamped_progress", UniformType::Float1)
            &&& declares(window, "niri_random_seed", UniformType::Float1)
        }),
        declares(gradient_fade_uniforms_spec(), "cutoff", UniformType::Float2),
        declares(injected_uniforms_spec(), "alpha", UniformType::Float1),
        declares(injected_uniforms_spec(), "tint", UniformType::Float1),
{
    let border = border_uniforms_spec();
    assert(border[0].name == "colorspace" && border[1].name == "hue_interpolation");
    assert(border[2].name == "color_from" && border[3].name == "color_to");
    assert(border[4].name == "grad_offset" && border[5].name == "grad_width");
    assert(border[6].name == "grad_vec" && border[7].name == "input_to_geo");
    assert(border[8].name == "geo_size" && border[9].name == "outer_radius");
    assert(border[10].name == "border_width");
    let shadow = shadow_uniforms_spec();
    assert(shadow[0].name == "shadow_color" && shadow[1].name == "sigma");
    assert(shadow[2].name == "input_to_geo" && shadow[3].name == "geo_size");
    assert(shadow[4].name == "corner_radius" && shadow[5].name == "window_input_to_geo");
    assert(shadow[6].name == "window_geo_size" && shadow[7].name == "window_corner_radius");
    let clip = clip_uniforms_spec();
    assert(clip[0].name == "niri_scale" && clip[1].name == "geo_size");
    assert(clip[2].name == "corner_radius" && clip[3].name == "input_to_geo");
    let postprocess = postprocess_uniforms_spec();
    assert(postprocess[0].name == "noise" && postprocess[1].name == "saturation");
    assert(postprocess[2].name == "bg_color");
    let resize = resize_uniforms_spec();
    assert(resize[0].name == "niri_input_to_curr_geo");
    assert(resize[1].name == "niri_curr_geo_to_prev_geo");
    assert(resize[2].name == "niri_curr_geo_to_next_geo");
    assert(resize[3].name == "niri_curr_geo_size" && resize[4].name == "niri_geo_to_tex_prev");
    assert(resize[5].name == "niri_geo_to_tex_next" && resize[6].name == "niri_progress");
    assert(resize[7].name == "niri_clamped_progress" && resize[8].name == "niri_corner_radius");
    assert(resize[9].name == "niri_clip_to_geometry");
    let window = window_animation_uniforms_spec();
    assert(window[0].name == "niri_input_to_geo" && window[1].name == "niri_geo_size");
    assert(window[2].name == "niri_geo_to_tex" && window[3].name == "niri_progress");
    assert(window[4].name == "niri_clamped_progress" && window[5].name == "niri_random_seed");
    assert(gradient_fade_uniforms_spec()[0].name == "cutoff");
    assert(injected_uniforms_spec()[0].name == "alpha");
    assert(injected_uniforms_spec()[1].name == "tint");
}

} // verus!
