use crate::config::{NamedChannel, NamedResource, ResourceConfig};
use crate::validate::{find_resource, first_named, has_resource, lemma_first_named_is_choice};
use vstd::prelude::*;
use vstd::string::*;

verus! {

/// The declarations that every shader starts with, after its version line:
/// the block of per-frame state and the two per-pass uniforms. The block's
/// fields stand in the order in which `EffectState::to_bytes` writes them.
pub open spec fn preamble_text() -> Seq<char> {
    "layout(std140) uniform GRIM_STATE {\n  vec4 iMouse;\n  vec4 iDate;\n  vec3 iWindowResolution;\n  float iTime;\n  float iTimeDelta;\n  float iFrame;\n  float iFrameRate;\n};\nuniform vec3 iResolution;\nuniform int iVertexCount;"@
}

pub fn preamble() -> (text: &'static str)
    ensures
        text@ == preamble_text(),
{
    "layout(std140) uniform GRIM_STATE {\n  vec4 iMouse;\n  vec4 iDate;\n  vec3 iWindowResolution;\n  float iTime;\n  float iTimeDelta;\n  float iFrame;\n  float iFrameRate;\n};\nuniform vec3 iResolution;\nuniform int iVertexCount;"
}

/// The line that makes the compiler count the lines of the shader's own text
/// from 1.
pub open spec fn line_reset() -> Seq<char> {
    "#line 1 0"@
}

/// One line that declares a uniform of the given type.
pub open spec fn declaration(kind: Seq<char>, name: Seq<char>) -> Seq<char> {
    "uniform "@ + kind + " "@ + name + ";\n"@
}

fn push_declaration(text: &mut String, kind: &str, name: &str)
    ensures
        final(text)@ == old(text)@ + declaration(kind@, name@),
{
    text.append("uniform ");
    text.append(kind);
    text.append(" ");
    text.append(name);
    text.append(";\n");
    assert(text@ =~= old(text)@ + declaration(kind@, name@));
}

/// The shader type of a scalar or vector uniform; none for other resources.
pub open spec fn uniform_type(config: ResourceConfig) -> Option<Seq<char>> {
    match config {
        ResourceConfig::UniformFloat(_) => Some("float"@),
        ResourceConfig::UniformVec2(_) => Some("vec2"@),
        ResourceConfig::UniformVec3(_) => Some("vec3"@),
        ResourceConfig::UniformVec4(_) => Some("vec4"@),
        _ => None,
    }
}

fn uniform_type_of(config: &ResourceConfig) -> (kind: Option<&'static str>)
    ensures
        match kind {
            Some(k) => uniform_type(*config) == Some(k@),
            None => uniform_type(*config) is None,
        },
{
    match config {
        ResourceConfig::UniformFloat(_) => Some("float"),
        ResourceConfig::UniformVec2(_) => Some("vec2"),
        ResourceConfig::UniformVec3(_) => Some("vec3"),
        ResourceConfig::UniformVec4(_) => Some("vec4"),
        _ => None,
    }
}

/// The declarations of the scalar and vector uniforms among the first `n`
/// resources, one line each, in resource order.
pub open spec fn uniform_declarations(resources: Seq<NamedResource>, n: int) -> Seq<char>
    decreases n,
{
    if n <= 0 {
        Seq::empty()
    } else {
        let before = uniform_declarations(resources, n - 1);
        match uniform_type(resources[n - 1].config) {
            Some(kind) => before + declaration(kind, resources[n - 1].name@),
            None => before,
        }
    }
}

/// Writes the declarations of all scalar and vector uniforms.
pub fn declare_uniforms(resources: &Vec<NamedResource>) -> (text: String)
    ensures
        text@ == uniform_declarations(resources@, resources@.len() as int),
{
    let mut text = String::new();
    let mut r: usize = 0;
    while r < resources.len()
        invariant
            r <= resources.len(),
            text@ == uniform_declarations(resources@, r as int),
        decreases resources.len() - r,
    {
        if let Some(kind) = uniform_type_of(&resources[r].config) {
            push_declaration(&mut text, kind, resources[r].name.as_str());
        }
        r = r + 1;
    }
    text
}

/// The sampler type through which a resource is read: a cube sampler for a
/// cube map, a three-dimensional one for a volume, a two-dimensional one for
/// every other texture; none for a scalar or vector uniform.
pub open spec fn sampler_type(config: ResourceConfig) -> Option<Seq<char>> {
    match config {
        ResourceConfig::Texture3D(_) => Some("sampler3D"@),
        ResourceConfig::Cubemap(_) => Some("samplerCube"@),
        ResourceConfig::UniformFloat(_) | ResourceConfig::UniformVec2(_)
        | ResourceConfig::UniformVec3(_) | ResourceConfig::UniformVec4(_) => None,
        _ => Some("sampler2D"@),
    }
}

fn sampler_type_of(config: &ResourceConfig) -> (kind: Option<&'static str>)
    ensures
        match kind {
            Some(k) => sampler_type(*config) == Some(k@),
            None => sampler_type(*config) is None,
        },
{
    match config {
        ResourceConfig::Image(_) => Some("sampler2D"),
        ResourceConfig::Video(_) => Some("sampler2D"),
        ResourceConfig::WebCam(_) => Some("sampler2D"),
        ResourceConfig::Keyboard(_) => Some("sampler2D"),
        ResourceConfig::Microphone(_) => Some("sampler2D"),
        ResourceConfig::Audio(_) => Some("sampler2D"),
        ResourceConfig::Texture2D(_) => Some("sampler2D"),
        ResourceConfig::Texture3D(_) => Some("sampler3D"),
        ResourceConfig::Cubemap(_) => Some("samplerCube"),
        ResourceConfig::GstAppSinkPipeline(_) => Some("sampler2D"),
        ResourceConfig::Buffer(_) => Some("sampler2D"),
        _ => None,
    }
}

/// The three lines that a sampler channel adds to a shader: the sampler, its
/// resolution and its playback time.
pub open spec fn sampler_lines(kind: Seq<char>, uniform: Seq<char>) -> Seq<char> {
    declaration(kind, uniform) + declaration("vec3"@, uniform + "_Resolution"@) + declaration(
        "vec3"@,
        uniform + "_Time"@,
    )
}

/// The name of the resolution uniform that goes with a sampler.
pub open spec fn resolution_name(uniform: Seq<char>) -> Seq<char> {
    uniform + "_Resolution"@
}

/// The name of the playback time uniform that goes with a sampler.
pub open spec fn time_name(uniform: Seq<char>) -> Seq<char> {
    uniform + "_Time"@
}

pub fn resolution_uniform_name(uniform: &str) -> (name: String)
    ensures
        name@ == resolution_name(uniform@),
{
    let mut name = String::from_str(uniform);
    name.append("_Resolution");
    name
}

pub fn time_uniform_name(uniform: &str) -> (name: String)
    ensures
        name@ == time_name(uniform@),
{
    let mut name = String::from_str(uniform);
    name.append("_Time");
    name
}

/// The sampler type of a channel: that of the resource it names, if the
/// resource exists and can be sampled.
pub open spec fn channel_sampler_type(channel: NamedChannel, resources: Seq<NamedResource>) -> Option<
    Seq<char>,
> {
    let name = channel.channel.name();
    if has_resource(resources, name) {
        sampler_type(resources[choose|i: int| first_named(resources, name, i)].config)
    } else {
        None
    }
}

/// The declarations of the first `n` channels of a pass, three lines for each
/// channel that can be sampled, in channel order.
pub open spec fn sampler_declarations(
    channels: Seq<NamedChannel>,
    resources: Seq<NamedResource>,
    n: int,
) -> Seq<char>
    decreases n,
{
    if n <= 0 {
        Seq::empty()
    } else {
        let before = sampler_declarations(channels, resources, n - 1);
        match channel_sampler_type(channels[n - 1], resources) {
            Some(kind) => before + sampler_lines(kind, channels[n - 1].uniform@),
            None => before,
        }
    }
}

/// Writes the sampler declarations of a pass.
pub fn declare_samplers(channels: &Vec<NamedChannel>, resources: &Vec<NamedResource>) -> (text:
    String)
    ensures
        text@ == sampler_declarations(channels@, resources@, channels@.len() as int),
{
    let mut text = String::new();
    let mut c: usize = 0;
    while c < channels.len()
        invariant
            c <= channels.len(),
            text@ == sampler_declarations(channels@, resources@, c as int),
        decreases channels.len() - c,
    {
        let name = channels[c].channel.resource_name();
        if let Some(i) = find_resource(resources, name) {
            proof {
                lemma_first_named_is_choice(resources@, name@, i as int);
            }
            if let Some(kind) = sampler_type_of(&resources[i].config) {
                let uniform = channels[c].uniform.as_str();
                let resolution = resolution_uniform_name(uniform);
                let time = time_uniform_name(uniform);
                let ghost before = text@;
                push_declaration(&mut text, kind, uniform);
                push_declaration(&mut text, "vec3", resolution.as_str());
                push_declaration(&mut text, "vec3", time.as_str());
                assert(text@ =~= before + sampler_lines(kind@, uniform@));
            }
        }
        c = c + 1;
    }
    text
}

/// The full text of a shader: the version line, the built-in declarations,
/// the uniform declarations, the sampler declarations, the line reset and the
/// shader's own text, each starting on a new line.
pub open spec fn shader_text(
    version: Seq<char>,
    uniforms: Seq<char>,
    samplers: Seq<char>,
    body: Seq<char>,
) -> Seq<char> {
    version + "\n"@ + preamble_text() + "\n"@ + uniforms + samplers + line_reset() + "\n"@ + body
}

/// Puts a shader's text together.
pub fn shader_source(version: &str, uniforms: &str, samplers: &str, body: &str) -> (text: String)
    ensures
        text@ == shader_text(version@, uniforms@, samplers@, body@),
{
    let mut text = String::from_str(version);
    text.append("\n");
    text.append(preamble());
    text.append("\n");
    text.append(uniforms);
    text.append(samplers);
    text.append("#line 1 0");
    text.append("\n");
    text.append(body);
    text
}

} // verus!
