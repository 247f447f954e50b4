use grimoire::config::{
    BlendFactorConfig, BufferDepthConfig, BufferDepthFormat, BufferFormat, DepthFuncConfig,
    DrawModeConfig, FilterConfig, ScaleConfig, TextureFormat, WrapConfig,
};
use grimoire::framebuffer::scale_size;
use grimoire::gl::{
    gl_blend_from_config, gl_depth_format_from_config, gl_depth_from_config, gl_draw_from_config,
    gl_mag_filter_from_config, gl_min_filter_from_config, gl_target_from_cubemap_face,
    gl_texture_params_from_buffer_format, gl_texture_params_from_texture_format,
    gl_wrap_from_config, GLTextureParam,
};
use grimoire::resource::ResourceCubemapFace;

#[test]
fn wrap_modes() {
    assert_eq!(gl_wrap_from_config(&WrapConfig::Clamp), 0x812F);
    assert_eq!(gl_wrap_from_config(&WrapConfig::Repeat), 0x2901);
}

#[test]
fn filters() {
    assert_eq!(gl_min_filter_from_config(&FilterConfig::Linear), 0x2601);
    assert_eq!(gl_min_filter_from_config(&FilterConfig::Nearest), 0x2600);
    assert_eq!(gl_min_filter_from_config(&FilterConfig::Mipmap), 0x2703);
    assert_eq!(gl_mag_filter_from_config(&FilterConfig::Linear), 0x2601);
    assert_eq!(gl_mag_filter_from_config(&FilterConfig::Nearest), 0x2600);
    assert_eq!(gl_mag_filter_from_config(&FilterConfig::Mipmap), 0x2601);
}

#[test]
fn texture_parameters_of_every_format() {
    let expect = |format: TextureFormat, internal: u32, layout: u32, data_type: u32| {
        assert_eq!(
            gl_texture_params_from_texture_format(format),
            GLTextureParam { internal, format: layout, data_type }
        );
    };
    expect(TextureFormat::RU8, 0x1903, 0x1903, 0x1401);
    expect(TextureFormat::RF16, 0x822D, 0x1903, 0x140B);
    expect(TextureFormat::RF32, 0x822E, 0x1903, 0x1406);
    expect(TextureFormat::RGU8, 0x8227, 0x8227, 0x1401);
    expect(TextureFormat::RGF16, 0x822F, 0x8227, 0x140B);
    expect(TextureFormat::RGF32, 0x8230, 0x8227, 0x1406);
    expect(TextureFormat::RGBU8, 0x1907, 0x1907, 0x1401);
    expect(TextureFormat::RGBF16, 0x881B, 0x1907, 0x140B);
    expect(TextureFormat::RGBF32, 0x8815, 0x1907, 0x1406);
    expect(TextureFormat::RGBAU8, 0x1908, 0x1908, 0x1401);
    expect(TextureFormat::RGBAF16, 0x881A, 0x1908, 0x140B);
    expect(TextureFormat::RGBAF32, 0x8814, 0x1908, 0x1406);
    expect(TextureFormat::BGRU8, 0x1907, 0x80E0, 0x1401);
    expect(TextureFormat::BGRF16, 0x881B, 0x80E0, 0x140B);
    expect(TextureFormat::BGRF32, 0x8815, 0x80E0, 0x1406);
    expect(TextureFormat::BGRAU8, 0x1908, 0x80E1, 0x1401);
    expect(TextureFormat::BGRAF16, 0x881A, 0x80E1, 0x140B);
    expect(TextureFormat::BGRAF32, 0x8814, 0x80E1, 0x1406);
}

#[test]
fn attachment_parameters() {
    let expect = |components: usize, format: BufferFormat, internal: u32, layout: u32, ty: u32| {
        assert_eq!(
            gl_texture_params_from_buffer_format(components, format),
            GLTextureParam { internal, format: layout, data_type: ty }
        );
    };
    expect(1, BufferFormat::U8, 0x1903, 0x1903, 0x1401);
    expect(1, BufferFormat::F16, 0x822D, 0x1903, 0x140B);
    expect(1, BufferFormat::F32, 0x822E, 0x1903, 0x1406);
    expect(2, BufferFormat::U8, 0x8227, 0x8227, 0x1401);
    expect(2, BufferFormat::F16, 0x822F, 0x8227, 0x140B);
    expect(2, BufferFormat::F32, 0x8230, 0x8227, 0x1406);
    expect(3, BufferFormat::U8, 0x1907, 0x1907, 0x1401);
    expect(3, BufferFormat::F16, 0x881B, 0x1907, 0x140B);
    expect(3, BufferFormat::F32, 0x8815, 0x1907, 0x1406);
    expect(4, BufferFormat::U8, 0x1908, 0x1908, 0x1401);
    expect(4, BufferFormat::F16, 0x881A, 0x1908, 0x140B);
    expect(4, BufferFormat::F32, 0x8814, 0x1908, 0x1406);
    // any other number of components stands for four
    expect(0, BufferFormat::U8, 0x1908, 0x1908, 0x1401);
    expect(7, BufferFormat::F16, 0x881A, 0x1908, 0x140B);
    expect(5, BufferFormat::F32, 0x8814, 0x1908, 0x1406);
}

#[test]
fn blend_factors() {
    assert_eq!(gl_blend_from_config(&BlendFactorConfig::Zero), 0);
    assert_eq!(gl_blend_from_config(&BlendFactorConfig::One), 1);
    assert_eq!(gl_blend_from_config(&BlendFactorConfig::SrcColor), 0x0300);
    assert_eq!(gl_blend_from_config(&BlendFactorConfig::OneMinusSrcColor), 0x0301);
    assert_eq!(gl_blend_from_config(&BlendFactorConfig::SrcAlpha), 0x0302);
    assert_eq!(gl_blend_from_config(&BlendFactorConfig::OneMinusSrcAlpha), 0x0303);
    assert_eq!(gl_blend_from_config(&BlendFactorConfig::DstAlpha), 0x0304);
    assert_eq!(gl_blend_from_config(&BlendFactorConfig::OneMinusDstAlpha), 0x0305);
    assert_eq!(gl_blend_from_config(&BlendFactorConfig::DstColor), 0x0306);
    assert_eq!(gl_blend_from_config(&BlendFactorConfig::OneMinusDstColor), 0x0307);
}

#[test]
fn depth_functions() {
    assert_eq!(gl_depth_from_config(&DepthFuncConfig::Never), 0x0200);
    assert_eq!(gl_depth_from_config(&DepthFuncConfig::Less), 0x0201);
    assert_eq!(gl_depth_from_config(&DepthFuncConfig::Equal), 0x0202);
    assert_eq!(gl_depth_from_config(&DepthFuncConfig::LEqual), 0x0203);
    assert_eq!(gl_depth_from_config(&DepthFuncConfig::Greater), 0x0204);
    assert_eq!(gl_depth_from_config(&DepthFuncConfig::NotEqual), 0x0205);
    assert_eq!(gl_depth_from_config(&DepthFuncConfig::GEqual), 0x0206);
    assert_eq!(gl_depth_from_config(&DepthFuncConfig::Always), 0x0207);
}

#[test]
fn depth_formats() {
    assert_eq!(gl_depth_format_from_config(&BufferDepthConfig::Disabled), None);
    assert_eq!(gl_depth_format_from_config(&BufferDepthConfig::Enabled), Some(0x81A6));
    assert_eq!(
        gl_depth_format_from_config(&BufferDepthConfig::Format(BufferDepthFormat::U16)),
        Some(0x81A5)
    );
    assert_eq!(
        gl_depth_format_from_config(&BufferDepthConfig::Format(BufferDepthFormat::U24)),
        Some(0x81A6)
    );
    assert_eq!(
        gl_depth_format_from_config(&BufferDepthConfig::Format(BufferDepthFormat::U32)),
        Some(0x81A7)
    );
    assert_eq!(
        gl_depth_format_from_config(&BufferDepthConfig::Format(BufferDepthFormat::F32)),
        Some(0x8CAC)
    );
}

#[test]
fn draw_modes_and_vertex_counts() {
    assert_eq!(gl_draw_from_config(&DrawModeConfig::Triangles, 2), (0x0004, 6));
    assert_eq!(gl_draw_from_config(&DrawModeConfig::TriangleFan, 2), (0x0006, 6));
    assert_eq!(gl_draw_from_config(&DrawModeConfig::TriangleStrip, 2), (0x0005, 4));
    assert_eq!(gl_draw_from_config(&DrawModeConfig::TriangleStrip, 0), (0x0005, 2));
    assert_eq!(gl_draw_from_config(&DrawModeConfig::Lines, 5), (0x0001, 10));
    assert_eq!(gl_draw_from_config(&DrawModeConfig::LineStrip, 5), (0x0003, 10));
    assert_eq!(gl_draw_from_config(&DrawModeConfig::LineLoop, 5), (0x0002, 10));
    assert_eq!(gl_draw_from_config(&DrawModeConfig::Points, 7), (0x0000, 7));
    assert_eq!(
        gl_draw_from_config(&DrawModeConfig::Triangles, u32::MAX),
        (0x0004, 3 * (u32::MAX as u64))
    );
}

#[test]
fn cube_map_faces() {
    assert_eq!(gl_target_from_cubemap_face(&ResourceCubemapFace::Right), 0x8515);
    assert_eq!(gl_target_from_cubemap_face(&ResourceCubemapFace::Left), 0x8516);
    assert_eq!(gl_target_from_cubemap_face(&ResourceCubemapFace::Top), 0x8517);
    assert_eq!(gl_target_from_cubemap_face(&ResourceCubemapFace::Bottom), 0x8518);
    assert_eq!(gl_target_from_cubemap_face(&ResourceCubemapFace::Front), 0x8519);
    assert_eq!(gl_target_from_cubemap_face(&ResourceCubemapFace::Back), 0x851A);
}

fn factor(scale: f32) -> Option<ScaleConfig> {
    Some(ScaleConfig { bits: scale.to_bits() })
}

#[test]
fn sizes_scale_and_floor() {
    assert_eq!(scale_size(640, &None), 640);
    assert_eq!(scale_size(640, &factor(0.5)), 320);
    assert_eq!(scale_size(5, &factor(0.5)), 2);
    assert_eq!(scale_size(7, &factor(0.75)), 5);
    assert_eq!(scale_size(100, &factor(3.0)), 300);
    assert_eq!(scale_size(100, &factor(0.0)), 0);
    assert_eq!(scale_size(u32::MAX, &factor(2.0)), u32::MAX);
    assert_eq!(scale_size(1920, &factor(1.0)), 1920);
}

#[test]
fn sizes_scale_as_single_precision_does() {
    // a third is a little more than a third in single precision
    assert_eq!(scale_size(3, &factor(1.0 / 3.0)), 1);
    // seven tenths are a little less, and the product is rounded up to 700
    assert_eq!(scale_size(1000, &factor(0.7)), 700);
    assert_eq!(scale_size(10, &factor(0.7)), 7);
    // a product just below a whole number stays below it
    assert_eq!(scale_size(3, &factor(0.333_333_3)), 0);
    // sizes beyond 24 binary places are rounded before they are multiplied
    assert_eq!(scale_size(16_777_217, &factor(1.0)), 16_777_216);
    assert_eq!(scale_size(16_777_219, &factor(1.0)), 16_777_220);
    assert_eq!(scale_size(u32::MAX, &factor(1.0)), u32::MAX);
    assert_eq!(scale_size(u32::MAX, &factor(0.5)), 2_147_483_648);
}

#[test]
fn factors_that_are_no_sizes() {
    assert_eq!(scale_size(640, &factor(-1.0)), 0);
    assert_eq!(scale_size(640, &factor(-0.0)), 0);
    assert_eq!(scale_size(640, &factor(f32::NAN)), 0);
    assert_eq!(scale_size(640, &factor(f32::INFINITY)), u32::MAX);
    assert_eq!(scale_size(0, &factor(f32::INFINITY)), 0);
    assert_eq!(scale_size(640, &factor(f32::NEG_INFINITY)), 0);
    assert_eq!(scale_size(640, &factor(f32::MAX)), u32::MAX);
    assert_eq!(scale_size(640, &factor(f32::MIN_POSITIVE)), 0);
    assert_eq!(scale_size(u32::MAX, &factor(f32::from_bits(1))), 0);
    assert_eq!(scale_size(1, &factor(4_294_967_296.0)), u32::MAX);
    assert_eq!(scale_size(1, &factor(4_294_967_040.0)), 4_294_967_040);
}

#[test]
fn scaling_agrees_with_the_machine() {
    let mut state: u64 = 0x2545_f491_4f6c_dd1d;
    let mut step = move || {
        state ^= state << 13;
        state ^= state >> 7;
        state ^= state << 17;
        state
    };
    for round in 0..200_000u32 {
        let drawn = step();
        let size = match round % 4 {
            0 => (drawn >> 32) as u32,
            1 => ((drawn >> 32) as u32) % 8192,
            2 => 16_777_216u32.wrapping_add(((drawn >> 40) as u32) % 1024),
            _ => ((drawn >> 32) as u32) % 100_000,
        };
        let bits = match round % 3 {
            0 => drawn as u32,
            // factors between a thousandth and a thousand
            1 => (117 + ((drawn as u32 >> 23) % 20)) << 23 | (drawn as u32 & 0x7f_ffff),
            _ => (((drawn as u32) % 2000) as f32 / 1000.0).to_bits(),
        };
        let factor = f32::from_bits(bits);
        let expected = (factor * size as f32) as u32;
        assert_eq!(
            scale_size(size, &Some(ScaleConfig { bits })),
            expected,
            "size {} factor {:?} ({:#x})",
            size,
            factor,
            bits
        );
    }
}
