use grimoire::config::{
    ChannelConfig, ImageConfig, NamedChannel, NamedResource, ResourceConfig, Texture3DConfig,
    TextureFormat, UniformFloatConfig, UniformVec2Config, UniformVec3Config, UniformVec4Config,
    CubemapConfig,
};
use grimoire::error::{Error, ErrorKind};
use grimoire::shader::{
    declare_samplers, declare_uniforms, preamble, resolution_uniform_name, shader_source,
    time_uniform_name,
};
use grimoire::source::{config_source_in_comment_block, config_source_of};

fn named(name: &str, config: ResourceConfig) -> NamedResource {
    NamedResource { name: String::from(name), config }
}

fn resources() -> Vec<NamedResource> {
    vec![
        named(
            "picture",
            ResourceConfig::Image(ImageConfig {
                image: String::from("p.png"),
                flipv: true,
                fliph: false,
            }),
        ),
        named("a", ResourceConfig::UniformFloat(UniformFloatConfig { uniform: 0, min: 0, max: 0 })),
        named(
            "b",
            ResourceConfig::UniformVec2(UniformVec2Config {
                uniform: [0; 2],
                min: [0; 2],
                max: [0; 2],
            }),
        ),
        named(
            "volume",
            ResourceConfig::Texture3D(Texture3DConfig {
                texture_3d: String::from("v.raw"),
                width: 1,
                height: 1,
                depth: 1,
                format: TextureFormat::RU8,
            }),
        ),
        named(
            "c",
            ResourceConfig::UniformVec3(UniformVec3Config {
                uniform: [0; 3],
                min: [0; 3],
                max: [0; 3],
            }),
        ),
        named(
            "d",
            ResourceConfig::UniformVec4(UniformVec4Config {
                uniform: [0; 4],
                min: [0; 4],
                max: [0; 4],
            }),
        ),
        named(
            "sky",
            ResourceConfig::Cubemap(CubemapConfig {
                right: String::new(),
                left: String::new(),
                top: String::new(),
                bottom: String::new(),
                back: String::new(),
                front: String::new(),
                flipv: true,
                fliph: false,
            }),
        ),
    ]
}

fn channel(uniform: &str, resource: &str) -> NamedChannel {
    NamedChannel {
        uniform: String::from(uniform),
        channel: ChannelConfig::Simple(String::from(resource)),
    }
}

#[test]
fn uniforms_are_declared_by_type() {
    assert_eq!(
        declare_uniforms(&resources()),
        "uniform float a;\nuniform vec2 b;\nuniform vec3 c;\nuniform vec4 d;\n"
    );
    assert_eq!(declare_uniforms(&vec![]), "");
}

#[test]
fn samplers_are_declared_by_the_kind_of_their_resource() {
    let channels = vec![
        channel("iChannel0", "picture"),
        channel("iVolume", "volume"),
        channel("iMissing", "nothing"),
        channel("iSky", "sky"),
        channel("iScalar", "a"),
    ];
    assert_eq!(
        declare_samplers(&channels, &resources()),
        "uniform sampler2D iChannel0;\nuniform vec3 iChannel0_Resolution;\nuniform vec3 iChannel0_Time;\n\
uniform sampler3D iVolume;\nuniform vec3 iVolume_Resolution;\nuniform vec3 iVolume_Time;\n\
uniform samplerCube iSky;\nuniform vec3 iSky_Resolution;\nuniform vec3 iSky_Time;\n"
    );
}

#[test]
fn names_of_the_companion_uniforms() {
    assert_eq!(resolution_uniform_name("iChannel0"), "iChannel0_Resolution");
    assert_eq!(time_uniform_name("iChannel0"), "iChannel0_Time");
}

#[test]
fn shader_text_is_put_together_in_order() {
    assert_eq!(
        shader_source("#version 410", "uniform float a;\n", "uniform sampler2D s;\n", "void main() {}"),
        format!(
            "#version 410\n{}\nuniform float a;\nuniform sampler2D s;\n#line 1 0\nvoid main() {{}}",
            preamble()
        )
    );
    assert_eq!(
        shader_source("", "", "", ""),
        format!("\n{}\n#line 1 0\n", preamble())
    );
}

#[test]
fn preamble_declares_the_state_block_in_the_order_of_its_bytes() {
    let text = preamble();
    let order = ["iMouse", "iDate", "iWindowResolution", "iTime;", "iTimeDelta", "iFrame;", "iFrameRate"];
    let mut from = 0;
    for field in order.iter() {
        let at = text[from..].find(field).unwrap();
        from += at + field.len();
    }
    assert!(text.starts_with("layout(std140) uniform GRIM_STATE {"));
    assert!(text.ends_with("uniform vec3 iResolution;\nuniform int iVertexCount;"));
}

#[test]
fn configuration_in_the_first_comment_block() {
    assert_eq!(
        config_source_in_comment_block("/*\n[[pass]]\nbuffer = \"a\"\n*/\nvoid main() {} /* other */"),
        "\n[[pass]]\nbuffer = \"a\"\n"
    );
    assert_eq!(config_source_in_comment_block("a /**/ b /* c */"), "");
    assert_eq!(config_source_in_comment_block("x /* y * z */ w"), " y * z ");
}

#[test]
fn shader_without_comment_block_has_the_default_configuration() {
    assert_eq!(config_source_in_comment_block("void main() {}"), "[[pass]]");
    assert_eq!(config_source_in_comment_block("/* never closed"), "[[pass]]");
    assert_eq!(config_source_in_comment_block(""), "[[pass]]");
    assert_eq!(config_source_of(None), "[[pass]]");
    assert_eq!(config_source_of(Some(String::from("x = 1"))), "x = 1");
}

#[test]
fn error_messages() {
    let text = |kind: ErrorKind| kind.message();
    assert_eq!(
        text(ErrorKind::Image(String::from("a b.png"), String::from("bad"))),
        "Error loading image at \"a b.png\": bad"
    );
    assert_eq!(
        text(ErrorKind::Io(String::from("dir\\file"), String::from("gone"))),
        "Error performing I/O operation on \"dir\\\\file\": gone"
    );
    assert_eq!(
        text(ErrorKind::WatchPath(String::from("p"), String::from("no"))),
        "Error watching path \"p\": no"
    );
    assert_eq!(
        text(ErrorKind::BadResourceConfig(String::from("noise"))),
        "Error loading resource \"noise\""
    );
    assert_eq!(text(ErrorKind::Notify(String::from("lost"))), "lost");
    assert_eq!(
        text(ErrorKind::FromUtf8(String::from("s.glsl"), String::from("byte 3"))),
        "Error calling String::from_utf8 on bytes from file \"s.glsl\": byte 3"
    );
    assert_eq!(
        text(ErrorKind::GlslVertex(String::from("e"))),
        "[GLSL] Error compiling vertex shader: e"
    );
    assert_eq!(
        text(ErrorKind::GlslFragment(String::from("e"))),
        "[GLSL] Error compiling fragment shader: e"
    );
    assert_eq!(text(ErrorKind::GlslProgram(String::from("e"))), "[GLSL] Error linking program: e");
    assert_eq!(text(ErrorKind::Toml(String::from("e"))), "[TOML] Error parsing configuration: e");
    assert_eq!(text(ErrorKind::GLPass(0)), "Error building [[pass]] 0");
    assert_eq!(text(ErrorKind::GLPass(7)), "Error building [[pass]] 7");
    assert_eq!(text(ErrorKind::GLPass(1203)), "Error building [[pass]] 1203");
    assert_eq!(
        text(ErrorKind::GLPass(usize::MAX)),
        format!("Error building [[pass]] {}", usize::MAX)
    );
    assert_eq!(
        text(ErrorKind::ResourceNotFound(
            String::from("nose"),
            String::from("iChannel0"),
            vec![String::from("noise"), String::from("b\"c")]
        )),
        "Bad channel map iChannel0 = \"nose\": resource \"nose\" not found. Valid resource names: [\"noise\", \"b\\\"c\"]"
    );
    assert_eq!(text(ErrorKind::SDL2(String::from("e"))), "[SDL2]: e");
    assert_eq!(
        text(ErrorKind::Gstreamer(String::from("no \"sink\""))),
        "[GSTREAMER] \"no \\\"sink\\\"\" (Run with GST_DEBUG=3 for more information)"
    );
    assert_eq!(
        text(ErrorKind::Bug(String::from("oops"))),
        "[BUG] oops\nPlease report this bug with a backtrace at https://github.com/jshrake/grimoire"
    );
}

#[test]
fn errors_with_their_cause() {
    let cause = Error::glsl_fragment("0:1: no");
    assert!(matches!(cause.kind(), ErrorKind::GlslFragment(message) if message == "0:1: no"));
    assert!(cause.cause.is_none());
    let error = cause.with_context(ErrorKind::GLPass(2));
    assert!(matches!(error.kind(), ErrorKind::GLPass(2)));
    assert_eq!(
        error.pretty_error(),
        "Error building [[pass]] 2\n[GLSL] Error compiling fragment shader: 0:1: no"
    );
    assert_eq!(Error::bug("b").pretty_error(), ErrorKind::Bug(String::from("b")).message());
    assert!(matches!(Error::glsl_vertex("v").kind(), ErrorKind::GlslVertex(m) if m == "v"));
    assert!(matches!(Error::glsl_program("p").kind(), ErrorKind::GlslProgram(m) if m == "p"));
    assert!(matches!(
        Error::from_kind(ErrorKind::Toml(String::from("t"))).kind(),
        ErrorKind::Toml(m) if m == "t"
    ));
}
