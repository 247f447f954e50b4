use grimoire::config::{
    default_audio_bands, default_buffer_config_attachments, default_buffer_config_format,
    default_flipv, BufferConfig, BufferDepthConfig, BufferFormat, ChannelConfig, DrawConfig,
    DrawModeConfig, EffectConfig, FilterConfig, ImageConfig, NamedChannel, NamedResource,
    PassConfig, ResourceConfig, TextureFormat, UniformFloatConfig, WrapConfig,
};
use grimoire::validate::ConfigIssue;

fn pass(buffer: Option<&str>, channels: Vec<(&str, ChannelConfig)>) -> PassConfig {
    PassConfig {
        draw: DrawConfig::default(),
        vertex: String::from("pass.vert"),
        fragment: String::from("pass.frag"),
        geometry: None,
        uniform_to_channel: channels
            .into_iter()
            .map(|(uniform, channel)| NamedChannel { uniform: String::from(uniform), channel })
            .collect(),
        buffer: buffer.map(String::from),
        clear: None,
        clear_depth: None,
        blend: None,
        depth: None,
        disable: false,
        loop_count: 1,
    }
}

fn named(name: &str, config: ResourceConfig) -> NamedResource {
    NamedResource { name: String::from(name), config }
}

fn image(path: &str) -> ResourceConfig {
    ResourceConfig::Image(ImageConfig { image: String::from(path), flipv: true, fliph: false })
}

fn uniform(value: f32) -> ResourceConfig {
    ResourceConfig::UniformFloat(UniformFloatConfig {
        uniform: value.to_bits(),
        min: 0.0f32.to_bits(),
        max: 1.0f32.to_bits(),
    })
}

#[test]
fn channel_counts() {
    assert_eq!(TextureFormat::RU8.channels(), 1);
    assert_eq!(TextureFormat::RF32.channels(), 1);
    assert_eq!(TextureFormat::RGF16.channels(), 2);
    assert_eq!(TextureFormat::RGBU8.channels(), 3);
    assert_eq!(TextureFormat::BGRF32.channels(), 3);
    assert_eq!(TextureFormat::RGBAU8.channels(), 4);
    assert_eq!(TextureFormat::BGRAF16.channels(), 4);
}

#[test]
fn bytes_of_a_texel() {
    assert_eq!(TextureFormat::RU8.bytes_per(), 1);
    assert_eq!(TextureFormat::RF16.bytes_per(), 2);
    assert_eq!(TextureFormat::RF32.bytes_per(), 4);
    assert_eq!(TextureFormat::RGU8.bytes_per(), 2);
    assert_eq!(TextureFormat::RGF16.bytes_per(), 4);
    assert_eq!(TextureFormat::RGF32.bytes_per(), 8);
    assert_eq!(TextureFormat::RGBU8.bytes_per(), 3);
    assert_eq!(TextureFormat::RGBF16.bytes_per(), 6);
    assert_eq!(TextureFormat::RGBF32.bytes_per(), 12);
    assert_eq!(TextureFormat::RGBAU8.bytes_per(), 4);
    assert_eq!(TextureFormat::RGBAF16.bytes_per(), 8);
    assert_eq!(TextureFormat::RGBAF32.bytes_per(), 16);
    assert_eq!(TextureFormat::BGRU8.bytes_per(), 3);
    assert_eq!(TextureFormat::BGRF16.bytes_per(), 6);
    assert_eq!(TextureFormat::BGRF32.bytes_per(), 12);
    assert_eq!(TextureFormat::BGRAU8.bytes_per(), 4);
    assert_eq!(TextureFormat::BGRAF16.bytes_per(), 8);
    assert_eq!(TextureFormat::BGRAF32.bytes_per(), 16);
}

#[test]
fn defaults() {
    assert_eq!(default_audio_bands(), 512);
    assert!(default_flipv());
    assert_eq!(default_buffer_config_attachments(), 1);
    assert_eq!(default_buffer_config_format(), BufferFormat::F32);
    assert_eq!(WrapConfig::default(), WrapConfig::Repeat);
    assert_eq!(FilterConfig::default(), FilterConfig::Mipmap);
    assert_eq!(DrawConfig::default(), DrawConfig { mode: DrawModeConfig::Triangles, count: 1 });
    let buffer = BufferConfig::default();
    assert!(buffer.buffer);
    assert_eq!(buffer.attachments, 1);
    assert_eq!(buffer.format, BufferFormat::F32);
    assert_eq!(buffer.components, 4);
    assert_eq!(buffer.width, None);
    assert_eq!(buffer.height, None);
    assert_eq!(buffer.scale, None);
    assert_eq!(buffer.depth, BufferDepthConfig::Enabled);
    assert!(!buffer.feedback);
}

#[test]
fn channel_names_its_resource() {
    let simple = ChannelConfig::Simple(String::from("noise"));
    assert_eq!(simple.resource_name(), "noise");
    let complete = ChannelConfig::Complete {
        resource: String::from("feedback"),
        attachment: 1,
        wrap: WrapConfig::Clamp,
        filter: FilterConfig::Nearest,
    };
    assert_eq!(complete.resource_name(), "feedback");
}

#[test]
fn empty_configuration_is_valid() {
    let config = EffectConfig::default();
    assert!(config.is_ok());
    assert!(config.validate().is_empty());
    assert!(config.passes().is_empty());
    assert!(config.resources().is_empty());
}

#[test]
fn valid_configuration_passes() {
    let config = EffectConfig::new(
        vec![pass(
            Some("feedback"),
            vec![
                ("iChannel0", ChannelConfig::Simple(String::from("noise"))),
                ("iChannel1", ChannelConfig::Simple(String::from("feedback"))),
            ],
        )],
        vec![
            named("noise", image("noise.png")),
            named("feedback", ResourceConfig::Buffer(BufferConfig::default())),
            named("speed", uniform(0.5)),
        ],
    );
    assert!(config.is_ok());
    assert_eq!(config.validate(), vec![]);
}

#[test]
fn dangling_buffer_is_reported_with_its_pass() {
    let config = EffectConfig::new(
        vec![pass(None, vec![]), pass(Some("missing"), vec![])],
        vec![named("noise", image("noise.png"))],
    );
    assert!(!config.is_ok());
    assert_eq!(config.validate(), vec![ConfigIssue::BufferNotFound { pass: 1 }]);
}

#[test]
fn dangling_channel_is_reported_with_pass_and_channel() {
    let config = EffectConfig::new(
        vec![pass(
            None,
            vec![
                ("iChannel0", ChannelConfig::Simple(String::from("noise"))),
                ("iChannel1", ChannelConfig::Simple(String::from("nothing"))),
            ],
        )],
        vec![named("noise", image("noise.png"))],
    );
    assert!(!config.is_ok());
    assert_eq!(config.validate(), vec![ConfigIssue::ResourceNotFound { pass: 0, channel: 1 }]);
}

#[test]
fn sampled_uniform_is_reported() {
    let config = EffectConfig::new(
        vec![pass(None, vec![("iChannel0", ChannelConfig::Simple(String::from("speed")))])],
        vec![named("speed", uniform(2.0))],
    );
    assert!(!config.is_ok());
    assert_eq!(config.validate(), vec![ConfigIssue::UniformAsSampler { pass: 0, channel: 0 }]);
}

#[test]
fn zero_sized_buffer_and_zero_attachments_are_reported() {
    let mut flat = BufferConfig::default();
    flat.width = Some(0);
    let mut bare = BufferConfig::default();
    bare.attachments = 0;
    let mut both = BufferConfig::default();
    both.height = Some(0);
    both.attachments = 0;
    let config = EffectConfig::new(
        vec![],
        vec![
            named("flat", ResourceConfig::Buffer(flat)),
            named("bare", ResourceConfig::Buffer(bare)),
            named("both", ResourceConfig::Buffer(both)),
        ],
    );
    assert!(!config.is_ok());
    assert_eq!(
        config.validate(),
        vec![
            ConfigIssue::ZeroSizedBuffer { resource: 0 },
            ConfigIssue::ZeroAttachments { resource: 1 },
            ConfigIssue::ZeroSizedBuffer { resource: 2 },
            ConfigIssue::ZeroAttachments { resource: 2 },
        ]
    );
}

#[test]
fn repeated_name_is_reported() {
    let config = EffectConfig::new(
        vec![],
        vec![named("a", image("a.png")), named("b", image("b.png")), named("a", image("c.png"))],
    );
    assert!(!config.is_ok());
    assert_eq!(config.validate(), vec![ConfigIssue::DuplicateName { resource: 2 }]);
}

#[test]
fn findings_come_buffers_first_then_channels_then_resources() {
    let mut flat = BufferConfig::default();
    flat.width = Some(0);
    let config = EffectConfig::new(
        vec![pass(
            Some("missing"),
            vec![("iChannel0", ChannelConfig::Simple(String::from("nothing")))],
        )],
        vec![named("flat", ResourceConfig::Buffer(flat))],
    );
    assert_eq!(
        config.validate(),
        vec![
            ConfigIssue::BufferNotFound { pass: 0 },
            ConfigIssue::ResourceNotFound { pass: 0, channel: 0 },
            ConfigIssue::ZeroSizedBuffer { resource: 0 },
        ]
    );
}

#[test]
fn configurations_compare_by_content() {
    let make = |path: &str, loops: u32| {
        let mut first = pass(None, vec![("iChannel0", ChannelConfig::Simple(String::from("n")))]);
        first.loop_count = loops;
        EffectConfig::new(vec![first], vec![named("n", image(path))])
    };
    assert!(make("a.png", 1).equals(&make("a.png", 1)));
    assert!(!make("a.png", 1).equals(&make("b.png", 1)));
    assert!(!make("a.png", 1).equals(&make("a.png", 2)));
    assert!(make("a.png", 1).clone().equals(&make("a.png", 1)));
    assert!(!make("a.png", 1).equals(&EffectConfig::default()));
}

#[test]
fn uniform_values_count_in_comparison() {
    let with = |value: f32| EffectConfig::new(vec![], vec![named("speed", uniform(value))]);
    assert!(with(0.5).equals(&with(0.5)));
    assert!(!with(0.5).equals(&with(0.25)));
}

#[test]
fn feedback_is_sampling_the_own_target() {
    let reads_itself = pass(
        Some("b"),
        vec![("iChannel0", ChannelConfig::Simple(String::from("b")))],
    );
    let reads_other = pass(
        Some("b"),
        vec![("iChannel0", ChannelConfig::Simple(String::from("n")))],
    );
    let no_target = pass(None, vec![("iChannel0", ChannelConfig::Simple(String::from("b")))]);
    assert!(reads_itself.is_feedback());
    assert!(!reads_other.is_feedback());
    assert!(!no_target.is_feedback());
}
