use grimoire::command::GpuCommand;
use grimoire::config::{
    ChannelConfig, DrawConfig, DrawModeConfig, EffectConfig, ImageConfig, NamedChannel,
    NamedResource, PassConfig, ResourceConfig, Texture3DConfig, TextureFormat,
};
use grimoire::effect::Effect;
use grimoire::gl::GLTextureParam;
use grimoire::pipeline::{PassLocations, SamplerLocations, ShaderSource};
use grimoire::resource::{ResourceCubemapFace, ResourceData, ResourceData2D, ResourceData3D};

const TEXTURE_2D: u32 = 0x0DE1;
const TEXTURE_3D: u32 = 0x806F;
const TEXTURE_CUBE_MAP: u32 = 0x8513;

fn config(resource: ResourceConfig) -> EffectConfig {
    EffectConfig::new(
        vec![PassConfig {
            draw: DrawConfig { mode: DrawModeConfig::Points, count: 5 },
            vertex: String::from("v"),
            fragment: String::from("f"),
            geometry: None,
            uniform_to_channel: vec![NamedChannel {
                uniform: String::from("iChannel0"),
                channel: ChannelConfig::Simple(String::from("tex")),
            }],
            buffer: None,
            clear: Some([0.0f32.to_bits(), 0.25f32.to_bits(), 0.5f32.to_bits(), 1.0f32.to_bits()]),
            clear_depth: Some(1.0f32.to_bits()),
            blend: None,
            depth: None,
            disable: false,
            loop_count: 1,
        }],
        vec![NamedResource { name: String::from("tex"), config: resource }],
    )
}

fn image_config() -> EffectConfig {
    config(ResourceConfig::Image(ImageConfig {
        image: String::from("tex.png"),
        flipv: true,
        fliph: false,
    }))
}

fn volume_config() -> EffectConfig {
    config(ResourceConfig::Texture3D(Texture3DConfig {
        texture_3d: String::from("tex.raw"),
        width: 2,
        height: 2,
        depth: 2,
        format: TextureFormat::RU8,
    }))
}

fn cache() -> Vec<ShaderSource> {
    vec![
        ShaderSource { path: String::from("v"), source: String::from("void main() {}") },
        ShaderSource { path: String::from("f"), source: String::from("void main() {}") },
    ]
}

fn locations() -> PassLocations {
    PassLocations {
        resolution: -1,
        vertex_count: -1,
        samplers: vec![SamplerLocations { uniform: 7, resolution: -1, playback_time: 8 }],
    }
}

fn pixels(first: u8, time: Option<u64>) -> ResourceData {
    ResourceData::D2(ResourceData2D {
        bytes: vec![first, 1, 2, 3, 4, 5, 6, 7, 8, 9, 10, 11],
        width: 2,
        height: 2,
        format: TextureFormat::RGBU8,
        xoffset: 0,
        yoffset: 1,
        subwidth: 2,
        subheight: 1,
        time,
    })
}

fn ready(config: EffectConfig) -> Effect {
    let mut effect = Effect::new(String::from("#version 330"));
    effect.stage_config(config).unwrap();
    effect.stage_shader_cache(cache()).unwrap();
    effect.draw(100, 50);
    let frame = effect.finish_draw(vec![Ok(locations())]);
    assert!(frame.error.is_none());
    effect
}

fn rgb() -> GLTextureParam {
    GLTextureParam { internal: 0x1907, format: 0x1907, data_type: 0x1401 }
}

#[test]
fn first_update_makes_the_texture_and_its_transfer_buffers() {
    let mut effect = ready(image_config());
    effect.stage_resource("tex", pixels(0, Some(5)));
    assert!(effect.draw(100, 50).commands.commands.is_empty());
    let frame = effect.finish_draw(vec![]);
    assert_eq!(frame.commands.blobs, vec![vec![0, 1, 2, 3, 4, 5, 6, 7, 8, 9, 10, 11]]);
    assert_eq!(
        frame.commands.commands,
        vec![
            // vertex array 1, shaders 2 and 3, program 4: the next handle is 5
            // a texture of 2 by 2 texels of three bytes
            GpuCommand::CreatePixelBuffers { first: 5, second: 6, third: 7, size: 2 * 2 * 3 },
            GpuCommand::CreateTexture2D {
                texture: 8,
                params: rgb(),
                width: 2,
                height: 2,
                zeroed: false,
            },
            GpuCommand::GenerateMipmap { target: TEXTURE_2D, texture: 8 },
            GpuCommand::UploadPixelBuffer { buffer: 5, blob: 0 },
            GpuCommand::BindVertexArray { vertex_array: 1 },
            GpuCommand::BindFramebuffer { framebuffer: 0, width: 100, height: 50 },
            GpuCommand::ClearColor {
                red: 0.0f32.to_bits(),
                green: 0.25f32.to_bits(),
                blue: 0.5f32.to_bits(),
                alpha: 1.0f32.to_bits(),
            },
            GpuCommand::ClearDepth { depth: 1.0f32.to_bits() },
            GpuCommand::Clear { color: true, depth: true },
            GpuCommand::UseProgram { program: 4 },
            GpuCommand::BindSampler {
                unit: 0,
                target: TEXTURE_2D,
                texture: 8,
                wrap_s: 0x2901,
                wrap_t: 0x2901,
                wrap_r: 0x2901,
                wrap_depth: false,
                min_filter: 0x2703,
                mag_filter: 0x2601,
                location: 7,
            },
            GpuCommand::SetSamplerTime { location: 8, time: 5 },
            GpuCommand::NoBlend,
            GpuCommand::NoDepthTest,
            GpuCommand::DepthMask { write: true },
            GpuCommand::DrawArrays { mode: 0, count: 5 },
            GpuCommand::UseProgram { program: 0 },
            GpuCommand::UnbindSampler { unit: 0, target: TEXTURE_2D },
            GpuCommand::TransferPixelBuffer {
                buffer: 5,
                target: TEXTURE_2D,
                texture: 8,
                xoffset: 0,
                yoffset: 1,
                subwidth: 2,
                subheight: 1,
                format: 0x1907,
                data_type: 0x1401,
            },
        ]
    );
}

#[test]
fn transfer_buffers_take_turns() {
    let mut effect = ready(image_config());
    let mut used = Vec::new();
    for round in 0..5u8 {
        effect.stage_resource("tex", pixels(round, None));
        effect.draw(100, 50);
        let frame = effect.finish_draw(vec![]);
        assert_eq!(frame.commands.blobs[0][0], round);
        for command in &frame.commands.commands {
            if let GpuCommand::UploadPixelBuffer { buffer, blob } = command {
                assert_eq!(*blob, 0);
                used.push(*buffer);
            }
        }
        let made = frame
            .commands
            .commands
            .iter()
            .filter(|command| matches!(command, GpuCommand::CreateTexture2D { .. }))
            .count();
        assert_eq!(made, if round == 0 { 1 } else { 0 });
    }
    assert_eq!(used, vec![5, 6, 7, 5, 6]);
}

#[test]
fn updates_of_one_frame_keep_their_order() {
    let mut effect = ready(image_config());
    effect.stage_resource("tex", pixels(10, Some(1)));
    effect.stage_resource("tex", pixels(20, None));
    effect.stage_resource("tex", pixels(30, Some(3)));
    effect.draw(100, 50);
    let frame = effect.finish_draw(vec![]);
    let firsts: Vec<u8> = frame.commands.blobs.iter().map(|blob| blob[0]).collect();
    assert_eq!(firsts, vec![10, 20, 30]);
    let uploads: Vec<(u32, usize)> = frame
        .commands
        .commands
        .iter()
        .filter_map(|command| match command {
            GpuCommand::UploadPixelBuffer { buffer, blob } => Some((*buffer, *blob)),
            _ => None,
        })
        .collect();
    assert_eq!(uploads, vec![(5, 0), (6, 1), (7, 2)]);
    let transfers: Vec<u32> = frame
        .commands
        .commands
        .iter()
        .filter_map(|command| match command {
            GpuCommand::TransferPixelBuffer { buffer, .. } => Some(*buffer),
            _ => None,
        })
        .collect();
    assert_eq!(transfers, vec![5, 6, 7]);
    // the playback time is that of the last update that had one
    assert!(frame
        .commands
        .commands
        .contains(&GpuCommand::SetSamplerTime { location: 8, time: 3 }));
}

#[test]
fn update_without_time_keeps_the_time() {
    let mut effect = ready(image_config());
    effect.stage_resource("tex", pixels(0, Some(42)));
    effect.draw(100, 50);
    effect.finish_draw(vec![]);
    effect.stage_resource("tex", pixels(0, None));
    effect.draw(100, 50);
    let frame = effect.finish_draw(vec![]);
    assert!(frame
        .commands
        .commands
        .contains(&GpuCommand::SetSamplerTime { location: 8, time: 42 }));
}

#[test]
fn volumes_are_uploaded_at_once() {
    let mut effect = ready(volume_config());
    let voxels = ResourceData::D3(ResourceData3D {
        bytes: vec![1, 2, 3, 4, 5, 6, 7, 8],
        width: 2,
        height: 2,
        depth: 2,
        format: TextureFormat::RU8,
        xoffset: 0,
        yoffset: 0,
        zoffset: 0,
        subwidth: 2,
        subheight: 2,
        subdepth: 2,
        time: Some(0),
    });
    effect.stage_resource("tex", voxels);
    effect.draw(100, 50);
    let frame = effect.finish_draw(vec![]);
    let red = GLTextureParam { internal: 0x1903, format: 0x1903, data_type: 0x1401 };
    assert_eq!(frame.commands.blobs, vec![vec![1, 2, 3, 4, 5, 6, 7, 8]]);
    assert_eq!(
        frame.commands.commands[..4].to_vec(),
        vec![
            GpuCommand::CreateTexture3D { texture: 5, params: red, width: 2, height: 2, depth: 2 },
            GpuCommand::GenerateMipmap { target: TEXTURE_3D, texture: 5 },
            GpuCommand::UploadTexture3D {
                texture: 5,
                params: red,
                width: 2,
                height: 2,
                depth: 2,
                blob: 0,
            },
            GpuCommand::GenerateMipmap { target: TEXTURE_3D, texture: 5 },
        ]
    );
    // a volume has a third coordinate to wrap
    assert!(frame.commands.commands.contains(&GpuCommand::BindSampler {
        unit: 0,
        target: TEXTURE_3D,
        texture: 5,
        wrap_s: 0x2901,
        wrap_t: 0x2901,
        wrap_r: 0x2901,
        wrap_depth: true,
        min_filter: 0x2703,
        mag_filter: 0x2601,
        location: 7,
    }));
    assert!(!frame
        .commands
        .commands
        .iter()
        .any(|command| matches!(command, GpuCommand::TransferPixelBuffer { .. })));
}

#[test]
fn volume_known_before_the_passes_are_built_is_filtered_without_mipmaps() {
    let mut effect = Effect::new(String::from("#version 330"));
    effect.stage_config(volume_config()).unwrap();
    effect.stage_shader_cache(cache()).unwrap();
    effect.stage_resource(
        "tex",
        ResourceData::D3(ResourceData3D {
            bytes: vec![0; 8],
            width: 2,
            height: 2,
            depth: 2,
            format: TextureFormat::RU8,
            xoffset: 0,
            yoffset: 0,
            zoffset: 0,
            subwidth: 2,
            subheight: 2,
            subdepth: 2,
            time: None,
        }),
    );
    // the update reaches the device in the first half, before the jobs
    let opened = effect.draw(100, 50);
    assert_eq!(opened.commands.blobs.len(), 1);
    let frame = effect.finish_draw(vec![Ok(locations())]);
    let min_filters: Vec<u32> = frame
        .commands
        .commands
        .iter()
        .filter_map(|command| match command {
            GpuCommand::BindSampler { min_filter, .. } => Some(*min_filter),
            _ => None,
        })
        .collect();
    assert_eq!(min_filters, vec![0x2601]);
}

#[test]
fn cube_map_faces_are_uploaded_in_their_order() {
    let mut effect = ready(image_config());
    let face = |value: u8| ResourceData2D {
        bytes: vec![value; 3],
        width: 1,
        height: 1,
        format: TextureFormat::RGBU8,
        xoffset: 0,
        yoffset: 0,
        subwidth: 1,
        subheight: 1,
        time: Some(0),
    };
    effect.stage_resource(
        "sky",
        ResourceData::Cube(vec![
            (ResourceCubemapFace::Right, face(1)),
            (ResourceCubemapFace::Left, face(2)),
            (ResourceCubemapFace::Top, face(3)),
            (ResourceCubemapFace::Bottom, face(4)),
            (ResourceCubemapFace::Front, face(5)),
            (ResourceCubemapFace::Back, face(6)),
        ]),
    );
    effect.draw(100, 50);
    let frame = effect.finish_draw(vec![]);
    let upload = |target: u32, blob: usize| GpuCommand::UploadCubemapFace {
        texture: 5,
        face: target,
        params: rgb(),
        width: 1,
        height: 1,
        blob,
    };
    assert_eq!(
        frame.commands.commands[..8].to_vec(),
        vec![
            GpuCommand::CreateCubemap { texture: 5 },
            upload(0x8515, 0),
            upload(0x8516, 1),
            upload(0x8517, 2),
            upload(0x8518, 3),
            upload(0x8519, 4),
            upload(0x851A, 5),
            GpuCommand::GenerateMipmap { target: TEXTURE_CUBE_MAP, texture: 5 },
        ]
    );
    assert_eq!(
        frame.commands.blobs,
        vec![vec![1; 3], vec![2; 3], vec![3; 3], vec![4; 3], vec![5; 3], vec![6; 3]]
    );
}

#[test]
fn changed_configuration_deletes_what_is_no_attachment() {
    let mut effect = ready(image_config());
    effect.stage_resource("tex", pixels(0, None));
    effect.draw(100, 50);
    effect.finish_draw(vec![]);
    effect.stage_config(volume_config()).unwrap();
    let frame = effect.draw(100, 50);
    assert_eq!(
        frame.commands.commands,
        vec![
            GpuCommand::DeleteTexture { texture: 8 },
            GpuCommand::DeleteBuffer { buffer: 5 },
            GpuCommand::DeleteBuffer { buffer: 6 },
            GpuCommand::DeleteBuffer { buffer: 7 },
        ]
    );
    // the sampler finds no texture under its key: it is not bound
    let closed = effect.finish_draw(vec![]);
    assert!(!closed
        .commands
        .commands
        .iter()
        .any(|command| matches!(command, GpuCommand::BindSampler { .. })));
}

#[test]
fn staging_a_changed_configuration_drops_staged_updates() {
    let mut effect = ready(image_config());
    effect.stage_resource("tex", pixels(0, None));
    effect.stage_config(volume_config()).unwrap();
    effect.draw(100, 50);
    let frame = effect.finish_draw(vec![]);
    assert!(frame.commands.blobs.is_empty());
    // an equal configuration drops nothing
    effect.stage_resource("tex", pixels(0, None));
    effect.stage_config(volume_config()).unwrap();
    effect.draw(100, 50);
    let frame = effect.finish_draw(vec![]);
    assert_eq!(frame.commands.blobs.len(), 1);
}

#[test]
fn sampler_without_uniform_is_not_bound() {
    let mut effect = Effect::new(String::from("#version 330"));
    effect.stage_config(image_config()).unwrap();
    effect.stage_shader_cache(cache()).unwrap();
    effect.stage_resource("tex", pixels(0, None));
    effect.draw(100, 50);
    // the compiler has removed the sampler: its location is -1; a list of
    // locations that is too short means the same
    let frame = effect.finish_draw(vec![Ok(PassLocations {
        resolution: -1,
        vertex_count: -1,
        samplers: vec![],
    })]);
    assert!(frame.error.is_none());
    assert!(!frame
        .commands
        .commands
        .iter()
        .any(|command| matches!(
            command,
            GpuCommand::BindSampler { .. } | GpuCommand::UnbindSampler { .. }
        )));
    assert_eq!(
        frame
            .commands
            .commands
            .iter()
            .filter(|command| matches!(command, GpuCommand::DrawArrays { .. }))
            .count(),
        1
    );
}
