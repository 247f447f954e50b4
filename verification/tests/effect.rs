use grimoire::command::GpuCommand;
use grimoire::config::{
    BufferConfig, BufferDepthConfig, BufferFormat, ChannelConfig, DrawConfig, DrawModeConfig,
    EffectConfig, FilterConfig, ImageConfig, NamedChannel, NamedResource, PassConfig,
    ResourceConfig, UniformFloatConfig, WrapConfig,
};
use grimoire::effect::{Effect, EffectState, Frame, ShaderFailure};
use grimoire::error::ErrorKind;
use grimoire::gl::GLTextureParam;
use grimoire::pipeline::{PassLocations, SamplerLocations, ShaderSource, ShaderStage};

const PREAMBLE: &str = "layout(std140) uniform GRIM_STATE {\n  vec4 iMouse;\n  vec4 iDate;\n  vec3 iWindowResolution;\n  float iTime;\n  float iTimeDelta;\n  float iFrame;\n  float iFrameRate;\n};\nuniform vec3 iResolution;\nuniform int iVertexCount;";

const TEXTURE_2D: u32 = 0x0DE1;

fn pass(name: &str, buffer: Option<&str>, channels: Vec<(&str, ChannelConfig)>) -> PassConfig {
    PassConfig {
        draw: DrawConfig { mode: DrawModeConfig::Triangles, count: 1 },
        vertex: format!("{}.vert", name),
        fragment: format!("{}.frag", name),
        geometry: None,
        uniform_to_channel: channels
            .into_iter()
            .map(|(uniform, channel)| NamedChannel { uniform: String::from(uniform), channel })
            .collect(),
        buffer: buffer.map(String::from),
        clear: None,
        clear_depth: None,
        blend: None,
        depth: None,
        disable: false,
        loop_count: 1,
    }
}

fn feedback_buffer() -> BufferConfig {
    BufferConfig {
        buffer: true,
        attachments: 2,
        format: BufferFormat::F32,
        components: 4,
        width: Some(4),
        height: Some(2),
        scale: None,
        depth: BufferDepthConfig::Enabled,
        feedback: false,
    }
}

/// A pass that draws into the buffer "B" while sampling it, and a pass that
/// shows "B" on the screen.
fn feedback_config() -> EffectConfig {
    EffectConfig::new(
        vec![
            pass(
                "a",
                Some("B"),
                vec![(
                    "iChannel0",
                    ChannelConfig::Complete {
                        resource: String::from("B"),
                        attachment: 0,
                        wrap: WrapConfig::Clamp,
                        filter: FilterConfig::Nearest,
                    },
                )],
            ),
            pass("b", None, vec![("prev", ChannelConfig::Simple(String::from("B")))]),
        ],
        vec![
            NamedResource {
                name: String::from("B"),
                config: ResourceConfig::Buffer(feedback_buffer()),
            },
            NamedResource {
                name: String::from("speed"),
                config: ResourceConfig::UniformFloat(UniformFloatConfig {
                    uniform: 0.5f32.to_bits(),
                    min: 0.0f32.to_bits(),
                    max: 1.0f32.to_bits(),
                }),
            },
        ],
    )
}

fn cache() -> Vec<ShaderSource> {
    ["a.vert", "a.frag", "b.vert", "b.frag"]
        .iter()
        .map(|path| ShaderSource {
            path: String::from(*path),
            source: format!("// {}\nvoid main() {{}}", path),
        })
        .collect()
}

/// The shader texts after an edit of one of them.
fn edited_cache() -> Vec<ShaderSource> {
    let mut texts = cache();
    texts[1].source.push_str("\n// edited");
    texts
}

fn locations() -> PassLocations {
    PassLocations {
        resolution: 0,
        vertex_count: 1,
        samplers: vec![SamplerLocations { uniform: 2, resolution: 3, playback_time: 4 }],
    }
}

fn staged() -> Effect {
    let mut effect = Effect::new(String::from("#version 410"));
    assert!(effect.stage_config(feedback_config()).is_ok());
    assert!(effect.stage_shader_cache(cache()).is_ok());
    effect
}

fn color_params() -> GLTextureParam {
    GLTextureParam { internal: 0x8814, format: 0x1908, data_type: 0x1406 }
}

fn depth_params() -> GLTextureParam {
    GLTextureParam { internal: 0x81A6, format: 0x1902, data_type: 0x1406 }
}

fn target_commands(fbo: u32) -> Vec<GpuCommand> {
    vec![
        GpuCommand::CreateFramebuffer { framebuffer: fbo },
        GpuCommand::CreateTexture2D {
            texture: fbo + 1,
            params: color_params(),
            width: 4,
            height: 2,
            zeroed: true,
        },
        GpuCommand::GenerateMipmap { target: TEXTURE_2D, texture: fbo + 1 },
        GpuCommand::AttachColor { framebuffer: fbo, index: 0, texture: fbo + 1 },
        GpuCommand::CreateTexture2D {
            texture: fbo + 2,
            params: color_params(),
            width: 4,
            height: 2,
            zeroed: true,
        },
        GpuCommand::GenerateMipmap { target: TEXTURE_2D, texture: fbo + 2 },
        GpuCommand::AttachColor { framebuffer: fbo, index: 1, texture: fbo + 2 },
        GpuCommand::CreateTexture2D {
            texture: fbo + 3,
            params: depth_params(),
            width: 4,
            height: 2,
            zeroed: false,
        },
        GpuCommand::AttachDepth { framebuffer: fbo, texture: fbo + 3 },
        GpuCommand::DrawBuffers { framebuffer: fbo, count: 2 },
        GpuCommand::CheckFramebuffer { framebuffer: fbo },
    ]
}

fn draws(frame: &Frame) -> Vec<(u32, u64)> {
    frame
        .commands
        .commands
        .iter()
        .filter_map(|command| match command {
            GpuCommand::DrawArrays { mode, count } => Some((*mode, *count)),
            _ => None,
        })
        .collect()
}

fn bound_framebuffers(frame: &Frame) -> Vec<u32> {
    frame
        .commands
        .commands
        .iter()
        .filter_map(|command| match command {
            GpuCommand::BindFramebuffer { framebuffer, .. } => Some(*framebuffer),
            _ => None,
        })
        .collect()
}

fn sampled_textures(frame: &Frame) -> Vec<u32> {
    frame
        .commands
        .commands
        .iter()
        .filter_map(|command| match command {
            GpuCommand::BindSampler { texture, .. } => Some(*texture),
            _ => None,
        })
        .collect()
}

fn makes_or_deletes(frame: &Frame) -> bool {
    frame.commands.commands.iter().any(|command| {
        matches!(
            command,
            GpuCommand::CreateFramebuffer { .. }
                | GpuCommand::CreateTexture2D { .. }
                | GpuCommand::CreateTexture3D { .. }
                | GpuCommand::CreateCubemap { .. }
                | GpuCommand::CreatePixelBuffers { .. }
                | GpuCommand::CreateUniformBuffer { .. }
                | GpuCommand::CreateVertexArray { .. }
                | GpuCommand::DeleteTexture { .. }
                | GpuCommand::DeleteBuffer { .. }
                | GpuCommand::DeleteFramebuffer { .. }
                | GpuCommand::DeleteVertexArray { .. }
                | GpuCommand::DeleteProgram { .. }
                | GpuCommand::DeleteShader { .. }
        )
    })
}

#[test]
fn first_frame_builds_targets_and_asks_for_passes() {
    let mut effect = staged();
    let frame = effect.draw(640, 480);
    assert!(frame.error.is_none());
    let mut expected = vec![
        GpuCommand::Enable { capability: 0x884F },
        GpuCommand::Enable { capability: 0x8642 },
    ];
    expected.extend(target_commands(1));
    expected.extend(target_commands(5));
    expected.push(GpuCommand::DeleteVertexArray { vertex_array: 0 });
    expected.push(GpuCommand::CreateVertexArray { vertex_array: 9 });
    assert_eq!(frame.commands.commands, expected);
    assert!(frame.commands.blobs.is_empty());
    assert!(frame.commands.names.is_empty());

    assert_eq!(frame.jobs.len(), 2);
    let first = &frame.jobs[0];
    assert_eq!(first.pass, 0);
    assert_eq!(
        (first.vertex_shader, first.fragment_shader, first.geometry_shader, first.program),
        (10, 11, None, 12)
    );
    assert_eq!(first.samplers, vec![String::from("iChannel0")]);
    assert_eq!(
        first.vertex_source,
        format!(
            "#version 410\n{}\nuniform float speed;\nuniform sampler2D iChannel0;\nuniform vec3 iChannel0_Resolution;\nuniform vec3 iChannel0_Time;\n#line 1 0\n// a.vert\nvoid main() {{}}",
            PREAMBLE
        )
    );
    assert_eq!(
        first.fragment_source,
        format!(
            "#version 410\n{}\nuniform float speed;\nuniform sampler2D iChannel0;\nuniform vec3 iChannel0_Resolution;\nuniform vec3 iChannel0_Time;\n#line 1 0\n// a.frag\nvoid main() {{}}",
            PREAMBLE
        )
    );
    assert_eq!(first.geometry_source, None);
    let second = &frame.jobs[1];
    assert_eq!(second.pass, 1);
    assert_eq!(
        (second.vertex_shader, second.fragment_shader, second.geometry_shader, second.program),
        (13, 14, None, 15)
    );
    assert_eq!(second.samplers, vec![String::from("prev")]);
    assert!(!effect.gpu_pipeline_is_ok());
}

#[test]
fn second_half_draws_every_pass_in_order() {
    let mut effect = staged();
    effect.draw(640, 480);
    let frame = effect.finish_draw(vec![Ok(locations()), Ok(locations())]);
    assert!(frame.error.is_none());
    assert!(frame.jobs.is_empty());
    assert!(effect.gpu_pipeline_is_ok());
    let front = 2; // attachment 0 of the first target
    let back = 6; // attachment 0 of the second target
    let expected = vec![
        GpuCommand::BindVertexArray { vertex_array: 9 },
        // pass 0 draws into the second target and samples the first
        GpuCommand::BindFramebuffer { framebuffer: 5, width: 4, height: 2 },
        GpuCommand::UseProgram { program: 12 },
        GpuCommand::SetResolution { location: 0, width: 4, height: 2 },
        GpuCommand::SetVertexCount { location: 1, count: 3 },
        GpuCommand::BindSampler {
            unit: 0,
            target: TEXTURE_2D,
            texture: front,
            wrap_s: 0x812F,
            wrap_t: 0x812F,
            wrap_r: 0x812F,
            wrap_depth: false,
            min_filter: 0x2600,
            mag_filter: 0x2600,
            location: 2,
        },
        GpuCommand::SetSamplerResolution {
            location: 3,
            target: TEXTURE_2D,
            width: 4,
            height: 2,
            depth: 0,
        },
        GpuCommand::SetSamplerTime { location: 4, time: 0 },
        GpuCommand::NoBlend,
        GpuCommand::NoDepthTest,
        GpuCommand::DepthMask { write: true },
        GpuCommand::DrawArrays { mode: 4, count: 3 },
        GpuCommand::UseProgram { program: 0 },
        GpuCommand::UnbindSampler { unit: 0, target: TEXTURE_2D },
        // pass 1 shows on the screen what pass 0 has just drawn
        GpuCommand::BindFramebuffer { framebuffer: 0, width: 640, height: 480 },
        GpuCommand::UseProgram { program: 15 },
        GpuCommand::SetResolution { location: 0, width: 640, height: 480 },
        GpuCommand::SetVertexCount { location: 1, count: 3 },
        GpuCommand::BindSampler {
            unit: 0,
            target: TEXTURE_2D,
            texture: back,
            wrap_s: 0x2901,
            wrap_t: 0x2901,
            wrap_r: 0x2901,
            wrap_depth: false,
            min_filter: 0x2703,
            mag_filter: 0x2601,
            location: 2,
        },
        GpuCommand::SetSamplerResolution {
            location: 3,
            target: TEXTURE_2D,
            width: 4,
            height: 2,
            depth: 0,
        },
        GpuCommand::SetSamplerTime { location: 4, time: 0 },
        GpuCommand::NoBlend,
        GpuCommand::NoDepthTest,
        GpuCommand::DepthMask { write: true },
        GpuCommand::DrawArrays { mode: 4, count: 3 },
        GpuCommand::UseProgram { program: 0 },
        GpuCommand::UnbindSampler { unit: 0, target: TEXTURE_2D },
    ];
    assert_eq!(frame.commands.commands, expected);
}

#[test]
fn feedback_persists_from_frame_to_frame() {
    let mut effect = staged();
    effect.draw(640, 480);
    let one = effect.finish_draw(vec![Ok(locations()), Ok(locations())]);
    effect.draw(640, 480);
    let two = effect.finish_draw(vec![]);
    effect.draw(640, 480);
    let three = effect.finish_draw(vec![]);
    // the targets take turns
    assert_eq!(bound_framebuffers(&one), vec![5, 0]);
    assert_eq!(bound_framebuffers(&two), vec![1, 0]);
    assert_eq!(bound_framebuffers(&three), vec![5, 0]);
    // texture 2 belongs to target 1, texture 6 to target 5: a pass that draws
    // into one target samples the other, and what it samples is what the
    // frame before has drawn; the screen pass sees what was just drawn
    assert_eq!(sampled_textures(&one), vec![2, 6]);
    assert_eq!(sampled_textures(&two), vec![6, 2]);
    assert_eq!(sampled_textures(&three), vec![2, 6]);
}

#[test]
fn loops_of_a_feedback_pass_see_one_another() {
    let mut config_passes = feedback_config().passes().clone();
    config_passes[0].loop_count = 3;
    let config = EffectConfig::new(config_passes, feedback_config().resources().clone());
    let mut effect = Effect::new(String::from("#version 410"));
    effect.stage_config(config).unwrap();
    effect.stage_shader_cache(cache()).unwrap();
    effect.draw(640, 480);
    let frame = effect.finish_draw(vec![Ok(locations()), Ok(locations())]);
    assert_eq!(bound_framebuffers(&frame), vec![5, 1, 5, 0]);
    assert_eq!(sampled_textures(&frame), vec![2, 6, 2, 6]);
    assert_eq!(draws(&frame).len(), 4);
}

#[test]
fn reload_with_the_same_configuration_does_nothing_again() {
    let mut effect = staged();
    effect.draw(640, 480);
    effect.finish_draw(vec![Ok(locations()), Ok(locations())]);
    effect.stage_config(feedback_config()).unwrap();
    let opened = effect.draw(640, 480);
    assert!(opened.commands.commands.is_empty());
    assert!(opened.jobs.is_empty());
    assert!(opened.error.is_none());
    let closed = effect.finish_draw(vec![]);
    assert!(closed.jobs.is_empty());
    assert!(!makes_or_deletes(&closed));
    assert_eq!(draws(&closed).len(), 2);
}

#[test]
fn changed_configuration_rebuilds_the_targets() {
    let mut effect = staged();
    effect.draw(640, 480);
    effect.finish_draw(vec![Ok(locations()), Ok(locations())]);
    let mut passes = feedback_config().passes().clone();
    passes[1].disable = true;
    effect.stage_config(EffectConfig::new(passes, feedback_config().resources().clone())).unwrap();
    let opened = effect.draw(640, 480);
    // no shader text has changed: nothing is compiled
    assert!(opened.jobs.is_empty());
    let commands = &opened.commands.commands;
    // the old targets go, each with the textures that stand under its keys:
    // after one draw the colour textures of the two targets have changed
    // places in the table
    assert_eq!(
        commands[..10].to_vec(),
        vec![
            GpuCommand::DeleteTexture { texture: 6 },
            GpuCommand::DeleteTexture { texture: 7 },
            GpuCommand::DeleteTexture { texture: 4 },
            GpuCommand::DeleteFramebuffer { framebuffer: 1 },
            GpuCommand::DeleteTexture { texture: 2 },
            GpuCommand::DeleteTexture { texture: 3 },
            GpuCommand::DeleteTexture { texture: 8 },
            GpuCommand::DeleteFramebuffer { framebuffer: 5 },
            GpuCommand::CreateFramebuffer { framebuffer: 16 },
            GpuCommand::CreateTexture2D {
                texture: 17,
                params: color_params(),
                width: 4,
                height: 2,
                zeroed: true,
            },
        ]
    );
    let closed = effect.finish_draw(vec![]);
    // the disabled pass is not drawn
    assert_eq!(bound_framebuffers(&closed), vec![20]);
}

#[test]
fn resize_rebuilds_targets_but_compiles_nothing() {
    let mut resources = feedback_config().resources().clone();
    if let ResourceConfig::Buffer(buffer) = &mut resources[0].config {
        buffer.width = None;
        buffer.height = None;
    }
    let config = EffectConfig::new(feedback_config().passes().clone(), resources);
    let mut effect = Effect::new(String::from("#version 410"));
    effect.stage_config(config).unwrap();
    effect.stage_shader_cache(cache()).unwrap();
    effect.draw(640, 480);
    effect.finish_draw(vec![Ok(locations()), Ok(locations())]);
    let opened = effect.draw(800, 600);
    assert!(opened.jobs.is_empty());
    assert!(opened.error.is_none());
    let commands = &opened.commands.commands;
    let deleted: Vec<u32> = commands
        .iter()
        .filter_map(|command| match command {
            GpuCommand::DeleteTexture { texture } => Some(*texture),
            _ => None,
        })
        .collect();
    assert_eq!(deleted, vec![6, 7, 4, 2, 3, 8]);
    let made: Vec<(u32, u32)> = commands
        .iter()
        .filter_map(|command| match command {
            GpuCommand::CreateTexture2D { width, height, .. } => Some((*width, *height)),
            _ => None,
        })
        .collect();
    assert_eq!(made, vec![(800, 600); 6]);
    assert!(!commands.iter().any(|command| matches!(
        command,
        GpuCommand::DeleteProgram { .. }
            | GpuCommand::DeleteShader { .. }
            | GpuCommand::DeleteVertexArray { .. }
            | GpuCommand::CreateVertexArray { .. }
    )));
    assert!(effect.gpu_pipeline_is_ok());
    let closed = effect.finish_draw(vec![]);
    assert_eq!(draws(&closed).len(), 2);
    assert_eq!(
        closed.commands.commands[1],
        GpuCommand::BindFramebuffer { framebuffer: 20, width: 800, height: 600 }
    );
}

#[test]
fn invalid_configuration_draws_nothing() {
    let config = EffectConfig::new(
        vec![pass("a", Some("missing"), vec![])],
        vec![NamedResource {
            name: String::from("B"),
            config: ResourceConfig::Buffer(feedback_buffer()),
        }],
    );
    assert!(!config.is_ok());
    let mut effect = Effect::new(String::from("#version 410"));
    effect.stage_config(config).unwrap();
    effect.stage_shader_cache(cache()).unwrap();
    let opened = effect.draw(640, 480);
    assert_eq!(
        opened.commands.commands,
        vec![
            GpuCommand::Enable { capability: 0x884F },
            GpuCommand::Enable { capability: 0x8642 },
        ]
    );
    assert!(opened.jobs.is_empty());
    let closed = effect.finish_draw(vec![]);
    assert!(closed.commands.commands.is_empty());
    assert!(closed.error.is_none());
    // and so it stays, frame after frame, until the configuration is mended
    let opened = effect.draw(640, 480);
    assert!(opened.commands.commands.is_empty());
    effect.stage_config(feedback_config()).unwrap();
    let opened = effect.draw(640, 480);
    assert_eq!(opened.jobs.len(), 2);
}

#[test]
fn one_failed_pass_stops_every_pass() {
    let mut effect = staged();
    effect.draw(640, 480);
    let frame = effect.finish_draw(vec![
        Ok(locations()),
        Err(ShaderFailure {
            stage: ShaderStage::Fragment,
            message: String::from("0:3: syntax error"),
        }),
    ]);
    assert!(frame.commands.commands.is_empty());
    let error = frame.error.unwrap();
    assert!(matches!(error.kind(), ErrorKind::GLPass(1)));
    assert!(matches!(
        &error.cause,
        Some(ErrorKind::GlslFragment(message)) if message == "0:3: syntax error"
    ));
    assert!(!effect.gpu_pipeline_is_ok());
    // the pass that did compile is not drawn either
    effect.draw(640, 480);
    let next = effect.finish_draw(vec![]);
    assert!(next.commands.commands.is_empty());
    assert!(next.error.is_none());
    // the same texts once more are no reason to compile again
    effect.stage_shader_cache(cache()).unwrap();
    let opened = effect.draw(640, 480);
    assert!(opened.commands.commands.is_empty());
    assert!(opened.jobs.is_empty());
    assert!(effect.finish_draw(vec![]).commands.commands.is_empty());
    // mended shaders are compiled, the broken pipeline is deleted first
    effect.stage_shader_cache(edited_cache()).unwrap();
    let opened = effect.draw(640, 480);
    assert_eq!(
        opened.commands.commands,
        vec![
            GpuCommand::DeleteVertexArray { vertex_array: 9 },
            GpuCommand::DeleteProgram { program: 12 },
            GpuCommand::DeleteShader { shader: 10 },
            GpuCommand::DeleteShader { shader: 11 },
            GpuCommand::CreateVertexArray { vertex_array: 16 },
        ]
    );
    assert_eq!(opened.jobs.len(), 2);
    let closed = effect.finish_draw(vec![Ok(locations()), Ok(locations())]);
    assert_eq!(draws(&closed).len(), 2);
}

#[test]
fn failures_are_reported_by_stage() {
    let stages = [
        (ShaderStage::Vertex, "vertex"),
        (ShaderStage::Fragment, "fragment"),
        (ShaderStage::Geometry, "fragment"),
        (ShaderStage::Program, "program"),
    ];
    for (stage, reported) in stages.iter() {
        let mut effect = staged();
        effect.draw(640, 480);
        let frame = effect.finish_draw(vec![Err(ShaderFailure {
            stage: *stage,
            message: String::from("no"),
        })]);
        let error = frame.error.unwrap();
        assert!(matches!(error.kind(), ErrorKind::GLPass(0)));
        let cause = error.cause.unwrap();
        let found = match cause {
            ErrorKind::GlslVertex(_) => "vertex",
            ErrorKind::GlslFragment(_) => "fragment",
            ErrorKind::GlslProgram(_) => "program",
            _ => "other",
        };
        assert_eq!(found, *reported);
    }
}

#[test]
fn missing_shader_text_is_a_bug_of_the_caller() {
    let mut effect = Effect::new(String::from("#version 410"));
    effect.stage_config(feedback_config()).unwrap();
    let mut texts = cache();
    texts.remove(3); // b.frag
    effect.stage_shader_cache(texts).unwrap();
    let frame = effect.draw(640, 480);
    assert!(frame.jobs.is_empty());
    assert!(matches!(
        frame.error.unwrap().kind(),
        ErrorKind::Bug(message) if message == "fragment path not found in shader_cache"
    ));
    let closed = effect.finish_draw(vec![]);
    assert!(closed.commands.commands.is_empty());
    assert!(!effect.gpu_pipeline_is_ok());
}

#[test]
fn staged_state_reaches_its_uniform_buffer() {
    let mut effect = staged();
    let state = EffectState {
        mouse: [1.0f32.to_bits(), 2.0f32.to_bits(), 3.0f32.to_bits(), 4.0f32.to_bits()],
        date: [2024.0f32.to_bits(), 2.0f32.to_bits(), 29.0f32.to_bits(), 3661.0f32.to_bits()],
        window_resolution: [640.0f32.to_bits(), 480.0f32.to_bits(), (640.0f32 / 480.0).to_bits()],
        time: 1.5f32.to_bits(),
        time_delta: 0.016f32.to_bits(),
        frame: 90.0f32.to_bits(),
        frame_rate: 62.5f32.to_bits(),
    };
    let bytes = state.to_bytes();
    assert_eq!(bytes.len(), 60);
    let floats: Vec<f32> = bytes
        .chunks(4)
        .map(|word| f32::from_le_bytes([word[0], word[1], word[2], word[3]]))
        .collect();
    assert_eq!(
        floats,
        vec![
            1.0, 2.0, 3.0, 4.0, 2024.0, 2.0, 29.0, 3661.0, 640.0, 480.0, 640.0 / 480.0, 1.5,
            0.016, 90.0, 62.5
        ]
    );
    effect.stage_state("GRIM_STATE", &state);
    effect.draw(640, 480);
    let frame = effect.finish_draw(vec![Ok(locations()), Ok(locations())]);
    assert_eq!(frame.commands.names, vec![String::from("GRIM_STATE")]);
    assert_eq!(frame.commands.blobs, vec![bytes.clone()]);
    assert_eq!(
        frame.commands.commands[..5].to_vec(),
        vec![
            GpuCommand::CreateUniformBuffer { buffer: 16, size: 60 },
            GpuCommand::ConnectUniformBuffer { buffer: 16, program: 12, name: 0, index: 0 },
            GpuCommand::ConnectUniformBuffer { buffer: 16, program: 15, name: 0, index: 0 },
            GpuCommand::UploadUniformBuffer { buffer: 16, blob: 0 },
            GpuCommand::BindVertexArray { vertex_array: 9 },
        ]
    );
    // the buffer is made once; later frames only fill it
    effect.stage_state("GRIM_STATE", &state);
    effect.draw(640, 480);
    let frame = effect.finish_draw(vec![]);
    assert_eq!(
        frame.commands.commands[..2].to_vec(),
        vec![
            GpuCommand::UploadUniformBuffer { buffer: 16, blob: 0 },
            GpuCommand::BindVertexArray { vertex_array: 9 },
        ]
    );
    assert!(frame.commands.names.is_empty());
    // passes that are compiled anew are connected to the buffer that exists
    effect.stage_shader_cache(edited_cache()).unwrap();
    effect.draw(640, 480);
    let frame = effect.finish_draw(vec![Ok(locations()), Ok(locations())]);
    assert_eq!(
        frame.commands.commands[..3].to_vec(),
        vec![
            GpuCommand::ConnectUniformBuffer { buffer: 16, program: 20, name: 0, index: 0 },
            GpuCommand::ConnectUniformBuffer { buffer: 16, program: 23, name: 0, index: 0 },
            GpuCommand::UploadUniformBuffer { buffer: 16, blob: 0 },
        ]
    );
}

#[test]
fn staged_uniforms_are_set_in_every_pass_and_used_up() {
    let mut effect = staged();
    effect.stage_uniform1f(String::from("speed"), 0.5f32.to_bits());
    effect.stage_uniform2f(String::from("offset"), [1.0f32.to_bits(), 2.0f32.to_bits()]);
    effect.stage_uniform1f(String::from("speed"), 0.75f32.to_bits());
    effect.stage_uniform3f(String::from("speed"), [0, 1, 2]);
    effect.stage_uniform4f(String::from("tint"), [3, 4, 5, 6]);
    effect.draw(640, 480);
    let frame = effect.finish_draw(vec![Ok(locations()), Ok(locations())]);
    assert_eq!(
        frame.commands.names,
        vec![
            String::from("speed"),
            String::from("offset"),
            String::from("speed"),
            String::from("tint")
        ]
    );
    let set: Vec<GpuCommand> = frame
        .commands
        .commands
        .iter()
        .filter(|command| {
            matches!(
                command,
                GpuCommand::SetUniform1 { .. }
                    | GpuCommand::SetUniform2 { .. }
                    | GpuCommand::SetUniform3 { .. }
                    | GpuCommand::SetUniform4 { .. }
            )
        })
        .cloned()
        .collect();
    let per_pass = |program: u32| {
        vec![
            GpuCommand::SetUniform1 { program, name: 0, x: 0.75f32.to_bits() },
            GpuCommand::SetUniform2 {
                program,
                name: 1,
                x: 1.0f32.to_bits(),
                y: 2.0f32.to_bits(),
            },
            GpuCommand::SetUniform3 { program, name: 2, x: 0, y: 1, z: 2 },
            GpuCommand::SetUniform4 { program, name: 3, x: 3, y: 4, z: 5, w: 6 },
        ]
    };
    let mut expected = per_pass(12);
    expected.extend(per_pass(15));
    assert_eq!(set, expected);
    effect.draw(640, 480);
    let frame = effect.finish_draw(vec![]);
    assert!(frame.commands.names.is_empty());
}

#[test]
fn uniforms_of_the_configuration_are_staged_by_name() {
    let mut effect = staged();
    let config = feedback_config();
    effect.stage_config_uniforms(&config);
    effect.draw(640, 480);
    let frame = effect.finish_draw(vec![Ok(locations()), Ok(locations())]);
    assert_eq!(frame.commands.names, vec![String::from("speed")]);
    assert!(frame
        .commands
        .commands
        .contains(&GpuCommand::SetUniform1 { program: 12, name: 0, x: 0.5f32.to_bits() }));
}

#[test]
fn image_resource_is_not_a_render_target() {
    let config = EffectConfig::new(
        vec![pass("a", Some("noise"), vec![])],
        vec![NamedResource {
            name: String::from("noise"),
            config: ResourceConfig::Image(ImageConfig {
                image: String::from("noise.png"),
                flipv: true,
                fliph: false,
            }),
        }],
    );
    assert!(config.is_ok());
    let mut effect = Effect::new(String::from("#version 410"));
    effect.stage_config(config).unwrap();
    effect.stage_shader_cache(cache()).unwrap();
    effect.draw(320, 200);
    let frame = effect.finish_draw(vec![Ok(PassLocations {
        resolution: -1,
        vertex_count: -1,
        samplers: vec![],
    })]);
    // there is no target of that name: the pass draws onto the screen
    assert_eq!(
        frame.commands.commands,
        vec![
            GpuCommand::BindVertexArray { vertex_array: 1 },
            GpuCommand::BindFramebuffer { framebuffer: 0, width: 320, height: 200 },
            GpuCommand::UseProgram { program: 2 + 2 },
            GpuCommand::NoBlend,
            GpuCommand::NoDepthTest,
            GpuCommand::DepthMask { write: true },
            GpuCommand::DrawArrays { mode: 4, count: 3 },
            GpuCommand::UseProgram { program: 0 },
        ]
    );
}

#[test]
fn frame_state_goes_into_the_state_block() {
    let mut effect = staged();
    let state = EffectState {
        mouse: [0; 4],
        date: [0; 4],
        window_resolution: [0; 3],
        time: 1,
        time_delta: 0x0102_0304,
        frame: 3,
        frame_rate: 4,
    };
    effect.stage_frame_state(&state);
    effect.draw(640, 480);
    let frame = effect.finish_draw(vec![Ok(locations()), Ok(locations())]);
    assert_eq!(frame.commands.names, vec![String::from("GRIM_STATE")]);
    let block = &frame.commands.blobs[0];
    assert_eq!(block.len(), 60);
    assert_eq!(block[44..60].to_vec(), vec![1, 0, 0, 0, 4, 3, 2, 1, 3, 0, 0, 0, 4, 0, 0, 0]);
    assert!(grimoire::shader::preamble().contains("uniform GRIM_STATE {"));
}

#[test]
fn only_changed_shader_texts_compile_the_passes_anew() {
    let mut effect = staged();
    effect.draw(640, 480);
    effect.finish_draw(vec![Ok(locations()), Ok(locations())]);
    // the texts that are there already
    effect.stage_shader_cache(cache()).unwrap();
    let opened = effect.draw(640, 480);
    assert!(opened.jobs.is_empty());
    assert!(opened.commands.commands.is_empty());
    assert_eq!(draws(&effect.finish_draw(vec![])).len(), 2);
    // an edited text
    effect.stage_shader_cache(edited_cache()).unwrap();
    let opened = effect.draw(640, 480);
    assert_eq!(opened.jobs.len(), 2);
    assert!(opened.jobs[0].fragment_source.ends_with("// edited"));
    assert_eq!(
        opened.commands.commands[..7].to_vec(),
        vec![
            GpuCommand::DeleteVertexArray { vertex_array: 9 },
            GpuCommand::DeleteProgram { program: 12 },
            GpuCommand::DeleteShader { shader: 10 },
            GpuCommand::DeleteShader { shader: 11 },
            GpuCommand::DeleteProgram { program: 15 },
            GpuCommand::DeleteShader { shader: 13 },
            GpuCommand::DeleteShader { shader: 14 },
        ]
    );
    assert_eq!(draws(&effect.finish_draw(vec![Ok(locations()), Ok(locations())])).len(), 2);
    // a text under another path, a text less: changes as well
    let mut texts = edited_cache();
    texts[0].path = String::from("c.vert");
    effect.stage_shader_cache(texts).unwrap();
    assert!(effect.draw(640, 480).error.is_some());
    effect.finish_draw(vec![]);
    effect.stage_shader_cache(edited_cache()).unwrap();
    assert_eq!(effect.draw(640, 480).jobs.len(), 2);
}
