use crate::config::{
    BlendFactorConfig, BufferDepthConfig, BufferDepthFormat, BufferFormat, DepthFuncConfig,
    DrawModeConfig, FilterConfig, TextureFormat, WrapConfig,
};
use crate::resource::ResourceCubemapFace;
use vstd::prelude::*;

verus! {

pub const ZERO: u32 = 0;

pub const ONE: u32 = 1;

pub const POINTS: u32 = 0x0000;

pub const LINES: u32 = 0x0001;

pub const LINE_LOOP: u32 = 0x0002;

pub const LINE_STRIP: u32 = 0x0003;

pub const TRIANGLES: u32 = 0x0004;

pub const TRIANGLE_STRIP: u32 = 0x0005;

pub const TRIANGLE_FAN: u32 = 0x0006;

pub const NEVER: u32 = 0x0200;

pub const LESS: u32 = 0x0201;

pub const EQUAL: u32 = 0x0202;

pub const LEQUAL: u32 = 0x0203;

pub const GREATER: u32 = 0x0204;

pub const NOTEQUAL: u32 = 0x0205;

pub const GEQUAL: u32 = 0x0206;

pub const ALWAYS: u32 = 0x0207;

pub const SRC_COLOR: u32 = 0x0300;

pub const ONE_MINUS_SRC_COLOR: u32 = 0x0301;

pub const SRC_ALPHA: u32 = 0x0302;

pub const ONE_MINUS_SRC_ALPHA: u32 = 0x0303;

pub const DST_ALPHA: u32 = 0x0304;

pub const ONE_MINUS_DST_ALPHA: u32 = 0x0305;

pub const DST_COLOR: u32 = 0x0306;

pub const ONE_MINUS_DST_COLOR: u32 = 0x0307;

pub const TEXTURE_2D: u32 = 0x0DE1;

pub const UNSIGNED_BYTE: u32 = 0x1401;

pub const FLOAT: u32 = 0x1406;

pub const HALF_FLOAT: u32 = 0x140B;

pub const DEPTH_COMPONENT: u32 = 0x1902;

pub const RED: u32 = 0x1903;

pub const RGB: u32 = 0x1907;

pub const RGBA: u32 = 0x1908;

pub const NEAREST: u32 = 0x2600;

pub const LINEAR: u32 = 0x2601;

pub const LINEAR_MIPMAP_LINEAR: u32 = 0x2703;

pub const REPEAT: u32 = 0x2901;

pub const TEXTURE_3D: u32 = 0x806F;

pub const BGR: u32 = 0x80E0;

pub const BGRA: u32 = 0x80E1;

pub const CLAMP_TO_EDGE: u32 = 0x812F;

pub const DEPTH_COMPONENT16: u32 = 0x81A5;

pub const DEPTH_COMPONENT24: u32 = 0x81A6;

pub const DEPTH_COMPONENT32: u32 = 0x81A7;

pub const RG: u32 = 0x8227;

pub const R16F: u32 = 0x822D;

pub const R32F: u32 = 0x822E;

pub const RG16F: u32 = 0x822F;

pub const RG32F: u32 = 0x8230;

pub const TEXTURE_CUBE_MAP: u32 = 0x8513;

pub const TEXTURE_CUBE_MAP_POSITIVE_X: u32 = 0x8515;

pub const TEXTURE_CUBE_MAP_NEGATIVE_X: u32 = 0x8516;

pub const TEXTURE_CUBE_MAP_POSITIVE_Y: u32 = 0x8517;

pub const TEXTURE_CUBE_MAP_NEGATIVE_Y: u32 = 0x8518;

pub const TEXTURE_CUBE_MAP_POSITIVE_Z: u32 = 0x8519;

pub const TEXTURE_CUBE_MAP_NEGATIVE_Z: u32 = 0x851A;

pub const PROGRAM_POINT_SIZE: u32 = 0x8642;

pub const RGBA32F: u32 = 0x8814;

pub const RGB32F: u32 = 0x8815;

pub const RGBA16F: u32 = 0x881A;

pub const RGB16F: u32 = 0x881B;

pub const TEXTURE_CUBE_MAP_SEAMLESS: u32 = 0x884F;

pub const DEPTH_COMPONENT32F: u32 = 0x8CAC;

/// How a texture is stored and how its data is laid out in memory.
#[derive(Debug, PartialEq, Eq, Structural, Clone, Copy)]
pub struct GLTextureParam {
    pub internal: u32,
    pub format: u32,
    pub data_type: u32,
}

impl Default for GLTextureParam {
    fn default() -> (param: Self)
        ensures
            param == (GLTextureParam { internal: 0, format: 0, data_type: 0 }),
    {
        GLTextureParam { internal: 0, format: 0, data_type: 0 }
    }
}

/// The type of one colour component.
#[derive(Debug, PartialEq, Eq, Structural, Clone, Copy)]
pub enum Component {
    U8,
    F16,
    F32,
}

pub open spec fn component_type(component: Component) -> u32 {
    match component {
        Component::U8 => UNSIGNED_BYTE,
        Component::F16 => HALF_FLOAT,
        Component::F32 => FLOAT,
    }
}

/// The unsized format of `channels` colour channels in red-first order;
/// four channels where `channels` is not 1, 2 or 3.
pub open spec fn base_format(channels: nat) -> u32 {
    if channels == 1 {
        RED
    } else if channels == 2 {
        RG
    } else if channels == 3 {
        RGB
    } else {
        RGBA
    }
}

/// The storage format of `channels` colour channels of the given component
/// type: the unsized format for 8-bit components, a sized floating-point
/// format otherwise; four channels where `channels` is not 1, 2 or 3.
pub open spec fn storage_format(channels: nat, component: Component) -> u32 {
    match component {
        Component::U8 => base_format(channels),
        Component::F16 => if channels == 1 {
            R16F
        } else if channels == 2 {
            RG16F
        } else if channels == 3 {
            RGB16F
        } else {
            RGBA16F
        },
        Component::F32 => if channels == 1 {
            R32F
        } else if channels == 2 {
            RG32F
        } else if channels == 3 {
            RGB32F
        } else {
            RGBA32F
        },
    }
}

impl TextureFormat {
    pub open spec fn component(self) -> Component {
        match self {
            TextureFormat::RU8 | TextureFormat::RGU8 | TextureFormat::RGBU8
            | TextureFormat::RGBAU8 | TextureFormat::BGRU8 | TextureFormat::BGRAU8 => {
                Component::U8
            },
            TextureFormat::RF16 | TextureFormat::RGF16 | TextureFormat::RGBF16
            | TextureFormat::RGBAF16 | TextureFormat::BGRF16 | TextureFormat::BGRAF16 => {
                Component::F16
            },
            TextureFormat::RF32 | TextureFormat::RGF32 | TextureFormat::RGBF32
            | TextureFormat::RGBAF32 | TextureFormat::BGRF32 | TextureFormat::BGRAF32 => {
                Component::F32
            },
        }
    }

    /// Whether the data comes blue first.
    pub open spec fn blue_first(self) -> bool {
        match self {
            TextureFormat::BGRU8 | TextureFormat::BGRF16 | TextureFormat::BGRF32
            | TextureFormat::BGRAU8 | TextureFormat::BGRAF16 | TextureFormat::BGRAF32 => true,
            _ => false,
        }
    }

    /// The layout of the data in memory: the channels and their order.
    pub open spec fn data_format(self) -> u32 {
        if self.blue_first() {
            if self.channel_count() == 3 {
                BGR
            } else {
                BGRA
            }
        } else {
            base_format(self.channel_count())
        }
    }

    /// The texture parameters of the format: data of the format's component
    /// type and channel order, stored red first with the same channel count.
    pub open spec fn params(self) -> GLTextureParam {
        GLTextureParam {
            internal: storage_format(self.channel_count(), self.component()),
            format: self.data_format(),
            data_type: component_type(self.component()),
        }
    }
}

pub fn gl_wrap_from_config(wrap: &WrapConfig) -> (mode: u32)
    ensures
        mode == (match *wrap {
            WrapConfig::Clamp => CLAMP_TO_EDGE,
            WrapConfig::Repeat => REPEAT,
        }),
{
    match wrap {
        WrapConfig::Clamp => CLAMP_TO_EDGE,
        WrapConfig::Repeat => REPEAT,
    }
}

pub open spec fn min_filter(filter: FilterConfig) -> u32 {
    match filter {
        FilterConfig::Linear => LINEAR,
        FilterConfig::Nearest => NEAREST,
        FilterConfig::Mipmap => LINEAR_MIPMAP_LINEAR,
    }
}

pub fn gl_min_filter_from_config(filter: &FilterConfig) -> (mode: u32)
    ensures
        mode == min_filter(*filter),
{
    match filter {
        FilterConfig::Linear => LINEAR,
        FilterConfig::Nearest => NEAREST,
        FilterConfig::Mipmap => LINEAR_MIPMAP_LINEAR,
    }
}

/// Magnification knows no mipmaps: a mipmap filter magnifies linearly.
pub open spec fn mag_filter(filter: FilterConfig) -> u32 {
    match filter {
        FilterConfig::Nearest => NEAREST,
        _ => LINEAR,
    }
}

pub fn gl_mag_filter_from_config(filter: &FilterConfig) -> (mode: u32)
    ensures
        mode == mag_filter(*filter),
{
    match filter {
        FilterConfig::Linear => LINEAR,
        FilterConfig::Nearest => NEAREST,
        FilterConfig::Mipmap => LINEAR,
    }
}

pub fn gl_texture_params_from_texture_format(data: TextureFormat) -> (param: GLTextureParam)
    ensures
        param == data.params(),
{
    match data {
        TextureFormat::RU8 => GLTextureParam {
            data_type: UNSIGNED_BYTE,
            format: RED,
            internal: RED,
        },
        TextureFormat::RF16 => GLTextureParam { data_type: HALF_FLOAT, format: RED, internal: R16F },
        TextureFormat::RF32 => GLTextureParam { data_type: FLOAT, format: RED, internal: R32F },
        TextureFormat::RGU8 => GLTextureParam { data_type: UNSIGNED_BYTE, format: RG, internal: RG },
        TextureFormat::RGF16 => GLTextureParam {
            data_type: HALF_FLOAT,
            format: RG,
            internal: RG16F,
        },
        TextureFormat::RGF32 => GLTextureParam { data_type: FLOAT, format: RG, internal: RG32F },
        TextureFormat::RGBU8 => GLTextureParam {
            data_type: UNSIGNED_BYTE,
            format: RGB,
            internal: RGB,
        },
        TextureFormat::RGBF16 => GLTextureParam {
            data_type: HALF_FLOAT,
            format: RGB,
            internal: RGB16F,
        },
        TextureFormat::RGBF32 => GLTextureParam { data_type: FLOAT, format: RGB, internal: RGB32F },
        TextureFormat::RGBAU8 => GLTextureParam {
            data_type: UNSIGNED_BYTE,
            format: RGBA,
            internal: RGBA,
        },
        TextureFormat::RGBAF16 => GLTextureParam {
            data_type: HALF_FLOAT,
            format: RGBA,
            internal: RGBA16F,
        },
        TextureFormat::RGBAF32 => GLTextureParam {
            data_type: FLOAT,
            format: RGBA,
            internal: RGBA32F,
        },
        TextureFormat::BGRU8 => GLTextureParam {
            data_type: UNSIGNED_BYTE,
            format: BGR,
            internal: RGB,
        },
        TextureFormat::BGRF16 => GLTextureParam {
            data_type: HALF_FLOAT,
            format: BGR,
            internal: RGB16F,
        },
        TextureFormat::BGRF32 => GLTextureParam { data_type: FLOAT, format: BGR, internal: RGB32F },
        TextureFormat::BGRAU8 => GLTextureParam {
            data_type: UNSIGNED_BYTE,
            format: BGRA,
            internal: RGBA,
        },
        TextureFormat::BGRAF16 => GLTextureParam {
            data_type: HALF_FLOAT,
            format: BGRA,
            internal: RGBA16F,
        },
        TextureFormat::BGRAF32 => GLTextureParam {
            data_type: FLOAT,
            format: BGRA,
            internal: RGBA32F,
        },
    }
}

pub open spec fn blend_factor(blend: BlendFactorConfig) -> u32 {
    match blend {
        BlendFactorConfig::Zero => ZERO,
        BlendFactorConfig::One => ONE,
        BlendFactorConfig::SrcColor => SRC_COLOR,
        BlendFactorConfig::OneMinusSrcColor => ONE_MINUS_SRC_COLOR,
        BlendFactorConfig::DstColor => DST_COLOR,
        BlendFactorConfig::OneMinusDstColor => ONE_MINUS_DST_COLOR,
        BlendFactorConfig::SrcAlpha => SRC_ALPHA,
        BlendFactorConfig::OneMinusSrcAlpha => ONE_MINUS_SRC_ALPHA,
        BlendFactorConfig::DstAlpha => DST_ALPHA,
        BlendFactorConfig::OneMinusDstAlpha => ONE_MINUS_DST_ALPHA,
    }
}

pub fn gl_blend_from_config(blend: &BlendFactorConfig) -> (factor: u32)
    ensures
        factor == blend_factor(*blend),
{
    match blend {
        BlendFactorConfig::DstAlpha => DST_ALPHA,
        BlendFactorConfig::DstColor => DST_COLOR,
        BlendFactorConfig::One => ONE,
        BlendFactorConfig::OneMinusDstAlpha => ONE_MINUS_DST_ALPHA,
        BlendFactorConfig::OneMinusDstColor => ONE_MINUS_DST_COLOR,
        BlendFactorConfig::OneMinusSrcAlpha => ONE_MINUS_SRC_ALPHA,
        BlendFactorConfig::OneMinusSrcColor => ONE_MINUS_SRC_COLOR,
        BlendFactorConfig::SrcAlpha => SRC_ALPHA,
        BlendFactorConfig::SrcColor => SRC_COLOR,
        BlendFactorConfig::Zero => ZERO,
    }
}

pub open spec fn depth_func(depth: DepthFuncConfig) -> u32 {
    match depth {
        DepthFuncConfig::Never => NEVER,
        DepthFuncConfig::Less => LESS,
        DepthFuncConfig::Equal => EQUAL,
        DepthFuncConfig::LEqual => LEQUAL,
        DepthFuncConfig::Greater => GREATER,
        DepthFuncConfig::NotEqual => NOTEQUAL,
        DepthFuncConfig::GEqual => GEQUAL,
        DepthFuncConfig::Always => ALWAYS,
    }
}

pub fn gl_depth_from_config(depth: &DepthFuncConfig) -> (func: u32)
    ensures
        func == depth_func(*depth),
{
    match depth {
        DepthFuncConfig::Always => ALWAYS,
        DepthFuncConfig::Equal => EQUAL,
        DepthFuncConfig::GEqual => GEQUAL,
        DepthFuncConfig::Greater => GREATER,
        DepthFuncConfig::LEqual => LEQUAL,
        DepthFuncConfig::Less => LESS,
        DepthFuncConfig::Never => NEVER,
        DepthFuncConfig::NotEqual => NOTEQUAL,
    }
}

impl BufferFormat {
    pub open spec fn component(self) -> Component {
        match self {
            BufferFormat::U8 => Component::U8,
            BufferFormat::F16 => Component::F16,
            BufferFormat::F32 => Component::F32,
        }
    }
}

/// The texture parameters of a colour attachment with `components` channels
/// per texel; any number but 1, 2 and 3 stands for four channels.
pub open spec fn attachment_params(components: usize, format: BufferFormat) -> GLTextureParam {
    GLTextureParam {
        internal: storage_format(components as nat, format.component()),
        format: base_format(components as nat),
        data_type: component_type(format.component()),
    }
}

pub fn gl_texture_params_from_buffer_format(components: usize, format: BufferFormat) -> (param:
    GLTextureParam)
    ensures
        param == attachment_params(components, format),
{
    let (internal, layout) = match format {
        BufferFormat::U8 => match components {
            1 => (RED, RED),
            2 => (RG, RG),
            3 => (RGB, RGB),
            _ => (RGBA, RGBA),
        },
        BufferFormat::F16 => match components {
            1 => (R16F, RED),
            2 => (RG16F, RG),
            3 => (RGB16F, RGB),
            _ => (RGBA16F, RGBA),
        },
        BufferFormat::F32 => match components {
            1 => (R32F, RED),
            2 => (RG32F, RG),
            3 => (RGB32F, RGB),
            _ => (RGBA32F, RGBA),
        },
    };
    let data_type = match format {
        BufferFormat::U8 => UNSIGNED_BYTE,
        BufferFormat::F16 => HALF_FLOAT,
        BufferFormat::F32 => FLOAT,
    };
    GLTextureParam { internal, format: layout, data_type }
}

/// The storage format of a buffer's depth attachment; none where the buffer
/// has no depth attachment.
pub open spec fn depth_format(depth: BufferDepthConfig) -> Option<u32> {
    match depth {
        BufferDepthConfig::Disabled => None,
        BufferDepthConfig::Enabled => Some(DEPTH_COMPONENT24),
        BufferDepthConfig::Format(BufferDepthFormat::U16) => Some(DEPTH_COMPONENT16),
        BufferDepthConfig::Format(BufferDepthFormat::U24) => Some(DEPTH_COMPONENT24),
        BufferDepthConfig::Format(BufferDepthFormat::U32) => Some(DEPTH_COMPONENT32),
        BufferDepthConfig::Format(BufferDepthFormat::F32) => Some(DEPTH_COMPONENT32F),
    }
}

pub fn gl_depth_format_from_config(depth: &BufferDepthConfig) -> (format: Option<u32>)
    ensures
        format == depth_format(*depth),
{
    match depth {
        BufferDepthConfig::Disabled => None,
        BufferDepthConfig::Enabled => Some(DEPTH_COMPONENT24),
        BufferDepthConfig::Format(BufferDepthFormat::U16) => Some(DEPTH_COMPONENT16),
        BufferDepthConfig::Format(BufferDepthFormat::U24) => Some(DEPTH_COMPONENT24),
        BufferDepthConfig::Format(BufferDepthFormat::U32) => Some(DEPTH_COMPONENT32),
        BufferDepthConfig::Format(BufferDepthFormat::F32) => Some(DEPTH_COMPONENT32F),
    }
}

pub open spec fn draw_mode(mode: DrawModeConfig) -> u32 {
    match mode {
        DrawModeConfig::Triangles => TRIANGLES,
        DrawModeConfig::TriangleFan => TRIANGLE_FAN,
        DrawModeConfig::TriangleStrip => TRIANGLE_STRIP,
        DrawModeConfig::Lines => LINES,
        DrawModeConfig::LineStrip => LINE_STRIP,
        DrawModeConfig::LineLoop => LINE_LOOP,
        DrawModeConfig::Points => POINTS,
    }
}

/// The number of vertices that `count` primitives of a mode take: three per
/// triangle (a strip shares two of them with the one before it), two per line,
/// one per point.
pub open spec fn vertex_count(mode: DrawModeConfig, count: u32) -> u64 {
    match mode {
        DrawModeConfig::Triangles | DrawModeConfig::TriangleFan => (3 * count) as u64,
        DrawModeConfig::TriangleStrip => (count + 2) as u64,
        DrawModeConfig::Lines | DrawModeConfig::LineStrip | DrawModeConfig::LineLoop => (2
            * count) as u64,
        DrawModeConfig::Points => count as u64,
    }
}

pub fn gl_draw_from_config(mode: &DrawModeConfig, count: u32) -> (draw: (u32, u64))
    ensures
        draw.0 == draw_mode(*mode),
        draw.1 == vertex_count(*mode, count),
{
    let n: u64 = count as u64;
    match mode {
        DrawModeConfig::Triangles => (TRIANGLES, 3 * n),
        DrawModeConfig::Points => (POINTS, n),
        DrawModeConfig::Lines => (LINES, 2 * n),
        DrawModeConfig::TriangleFan => (TRIANGLE_FAN, 3 * n),
        DrawModeConfig::TriangleStrip => (TRIANGLE_STRIP, n + 2),
        DrawModeConfig::LineLoop => (LINE_LOOP, 2 * n),
        DrawModeConfig::LineStrip => (LINE_STRIP, 2 * n),
    }
}

/// The cube map target of a face: right and left are +x and -x, top and bottom
/// +y and -y, front and back +z and -z.
pub open spec fn cubemap_face_target(face: ResourceCubemapFace) -> u32 {
    match face {
        ResourceCubemapFace::Right => TEXTURE_CUBE_MAP_POSITIVE_X,
        ResourceCubemapFace::Left => TEXTURE_CUBE_MAP_NEGATIVE_X,
        ResourceCubemapFace::Top => TEXTURE_CUBE_MAP_POSITIVE_Y,
        ResourceCubemapFace::Bottom => TEXTURE_CUBE_MAP_NEGATIVE_Y,
        ResourceCubemapFace::Front => TEXTURE_CUBE_MAP_POSITIVE_Z,
        ResourceCubemapFace::Back => TEXTURE_CUBE_MAP_NEGATIVE_Z,
    }
}

pub fn gl_target_from_cubemap_face(face: &ResourceCubemapFace) -> (target: u32)
    ensures
        target == cubemap_face_target(*face),
{
    match face {
        ResourceCubemapFace::Right => TEXTURE_CUBE_MAP_POSITIVE_X,
        ResourceCubemapFace::Left => TEXTURE_CUBE_MAP_NEGATIVE_X,
        ResourceCubemapFace::Top => TEXTURE_CUBE_MAP_POSITIVE_Y,
        ResourceCubemapFace::Bottom => TEXTURE_CUBE_MAP_NEGATIVE_Y,
        ResourceCubemapFace::Front => TEXTURE_CUBE_MAP_POSITIVE_Z,
        ResourceCubemapFace::Back => TEXTURE_CUBE_MAP_NEGATIVE_Z,
    }
}

} // verus!
