use vstd::prelude::*;

verus! {

/// A whole effect: an ordered list of passes and a set of named resources.
///
/// The fields are closed to other crates so that `is_ok` can never disagree
/// with the content: a configuration is built by `EffectConfig::new`, which
/// validates it.
#[derive(Debug)]
pub struct EffectConfig {
    pub(crate) passes: Vec<PassConfig>,
    pub(crate) resources: Vec<NamedResource>,
    pub(crate) ok: bool,
}

/// One entry of the resource set: a name and what the name stands for.
#[derive(Debug, Clone)]
pub struct NamedResource {
    pub name: String,
    pub config: ResourceConfig,
}

#[derive(Debug, Clone)]
pub enum ResourceConfig {
    Image(ImageConfig),
    Texture2D(Texture2DConfig),
    Texture3D(Texture3DConfig),
    Cubemap(CubemapConfig),
    Video(VideoConfig),
    WebCam(WebCamConfig),
    Keyboard(KeyboardConfig),
    Audio(AudioConfig),
    Microphone(MicrophoneConfig),
    GstAppSinkPipeline(GstVideoPipelineConfig),
    Buffer(BufferConfig),
    UniformFloat(UniformFloatConfig),
    UniformVec2(UniformVec2Config),
    UniformVec3(UniformVec3Config),
    UniformVec4(UniformVec4Config),
}

/// A scalar uniform. The three values are IEEE-754 single precision numbers,
/// held as their bit patterns; `min` and `max` are hints for a user interface.
#[derive(Debug, PartialEq, Eq, Structural, Clone, Copy)]
pub struct UniformFloatConfig {
    pub uniform: u32,
    pub min: u32,
    pub max: u32,
}

/// A two-component uniform, each component a single precision bit pattern.
#[derive(Debug, PartialEq, Eq, Clone, Copy)]
pub struct UniformVec2Config {
    pub uniform: [u32; 2],
    pub min: [u32; 2],
    pub max: [u32; 2],
}

/// A three-component uniform, each component a single precision bit pattern.
#[derive(Debug, PartialEq, Eq, Clone, Copy)]
pub struct UniformVec3Config {
    pub uniform: [u32; 3],
    pub min: [u32; 3],
    pub max: [u32; 3],
}

/// A four-component uniform, each component a single precision bit pattern.
#[derive(Debug, PartialEq, Eq, Clone, Copy)]
pub struct UniformVec4Config {
    pub uniform: [u32; 4],
    pub min: [u32; 4],
    pub max: [u32; 4],
}

#[derive(Debug, PartialEq, Eq, Clone)]
pub struct ImageConfig {
    pub image: String,
    pub flipv: bool,
    pub fliph: bool,
}

#[derive(Debug, PartialEq, Eq, Structural, Clone, Copy)]
pub enum TextureFormat {
    RU8,
    RF16,
    RF32,
    RGU8,
    RGF16,
    RGF32,
    RGBU8,
    RGBF16,
    RGBF32,
    RGBAU8,
    RGBAF16,
    RGBAF32,
    BGRU8,
    BGRF16,
    BGRF32,
    BGRAU8,
    BGRAF16,
    BGRAF32,
}

#[derive(Debug, PartialEq, Eq, Clone)]
pub struct Texture2DConfig {
    pub texture_2d: String,
    pub width: u32,
    pub height: u32,
    pub format: TextureFormat,
}

#[derive(Debug, PartialEq, Eq, Clone)]
pub struct Texture3DConfig {
    pub texture_3d: String,
    pub width: u32,
    pub height: u32,
    pub depth: u32,
    pub format: TextureFormat,
}

#[derive(Debug, PartialEq, Eq, Clone)]
pub struct CubemapConfig {
    pub right: String,
    pub left: String,
    pub top: String,
    pub bottom: String,
    pub back: String,
    pub front: String,
    pub flipv: bool,
    pub fliph: bool,
}

#[derive(Debug, PartialEq, Eq, Clone)]
pub struct VideoConfig {
    pub video: String,
}

#[derive(Debug, PartialEq, Eq, Structural, Clone, Copy)]
pub struct WebCamConfig {
    pub webcam: bool,
}

#[derive(Debug, PartialEq, Eq, Structural, Clone, Copy)]
pub struct KeyboardConfig {
    pub keyboard: bool,
}

#[derive(Debug, PartialEq, Eq, Clone)]
pub struct AudioConfig {
    pub audio: String,
    pub bands: usize,
}

#[derive(Debug, PartialEq, Eq, Clone)]
pub struct GstVideoPipelineConfig {
    pub pipeline: String,
}

#[derive(Debug, PartialEq, Eq, Structural, Clone, Copy)]
pub struct MicrophoneConfig {
    pub microphone: bool,
    pub bands: usize,
}

/// One draw: its shaders, what it samples, where it renders and in which state.
#[derive(Debug, Clone)]
pub struct PassConfig {
    pub draw: DrawConfig,
    /// Path of the vertex shader, the key of its text in the shader cache.
    pub vertex: String,
    /// Path of the fragment shader.
    pub fragment: String,
    /// Path of the geometry shader, if the pass has one.
    pub geometry: Option<String>,
    pub uniform_to_channel: Vec<NamedChannel>,
    /// The buffer rendered into; the output surface where there is none.
    pub buffer: Option<String>,
    /// Clear colour, four single precision bit patterns.
    pub clear: Option<[u32; 4]>,
    /// Clear depth, a single precision bit pattern.
    pub clear_depth: Option<u32>,
    pub blend: Option<BlendConfig>,
    pub depth: Option<DepthFuncConfig>,
    pub disable: bool,
    /// How many times the pass is drawn in one frame.
    pub loop_count: u32,
}

/// One sampler of a pass: the uniform's name and what is bound to it.
#[derive(Debug, Clone)]
pub struct NamedChannel {
    pub uniform: String,
    pub channel: ChannelConfig,
}

/// A size factor, applied to a buffer's width and height before they are cut
/// to whole pixels: the bit pattern of a single precision number.
#[derive(Debug, PartialEq, Eq, Structural, Clone, Copy)]
pub struct ScaleConfig {
    pub bits: u32,
}

#[derive(Debug, PartialEq, Eq, Structural, Clone, Copy)]
pub enum BufferDepthFormat {
    U16,
    U24,
    U32,
    F32,
}

/// Whether a buffer has a depth attachment, and of which format.
#[derive(Debug, PartialEq, Eq, Structural, Clone, Copy)]
pub enum BufferDepthConfig {
    /// No depth attachment.
    Disabled,
    /// A depth attachment of 24 bits.
    Enabled,
    /// A depth attachment of the given format.
    Format(BufferDepthFormat),
}

#[derive(Debug, PartialEq, Eq, Structural, Clone, Copy)]
pub struct BufferConfig {
    pub buffer: bool,
    pub attachments: usize,
    pub format: BufferFormat,
    /// Components per texel, 1 to 4; any other number counts as 4.
    pub components: usize,
    pub width: Option<u32>,
    pub height: Option<u32>,
    pub scale: Option<ScaleConfig>,
    pub depth: BufferDepthConfig,
    /// Asks for two physical copies that trade places after each draw.
    pub feedback: bool,
}

#[derive(Debug, PartialEq, Eq, Structural, Clone, Copy)]
pub enum BufferFormat {
    U8,
    F16,
    F32,
}

#[derive(Debug, PartialEq, Eq, Structural, Clone, Copy)]
pub struct DrawConfig {
    pub mode: DrawModeConfig,
    pub count: u32,
}

#[derive(Debug, PartialEq, Eq, Structural, Clone, Copy)]
pub enum DepthFuncConfig {
    Never,
    Less,
    Equal,
    LEqual,
    Greater,
    NotEqual,
    GEqual,
    Always,
}

#[derive(Debug, PartialEq, Eq, Structural, Clone, Copy)]
pub struct BlendConfig {
    pub src: BlendFactorConfig,
    pub dst: BlendFactorConfig,
}

#[derive(Debug, PartialEq, Eq, Structural, Clone, Copy)]
pub enum BlendFactorConfig {
    Zero,
    One,
    SrcColor,
    OneMinusSrcColor,
    DstColor,
    OneMinusDstColor,
    SrcAlpha,
    OneMinusSrcAlpha,
    DstAlpha,
    OneMinusDstAlpha,
}

#[derive(Debug, PartialEq, Eq, Structural, Clone, Copy)]
pub enum DrawModeConfig {
    Triangles,
    TriangleFan,
    TriangleStrip,
    Lines,
    LineStrip,
    LineLoop,
    Points,
}

#[derive(Debug, Clone)]
pub enum ChannelConfig {
    Simple(String),
    Complete { resource: String, attachment: usize, wrap: WrapConfig, filter: FilterConfig },
}

#[derive(Debug, PartialEq, Eq, Structural, Clone, Copy)]
pub enum WrapConfig {
    Clamp,
    Repeat,
}

#[derive(Debug, PartialEq, Eq, Structural, Clone, Copy)]
pub enum FilterConfig {
    Linear,
    Nearest,
    Mipmap,
}

impl ChannelConfig {
    /// The name of the resource that the channel samples.
    pub open spec fn name(self) -> Seq<char> {
        match self {
            ChannelConfig::Simple(s) => s@,
            ChannelConfig::Complete { resource, .. } => resource@,
        }
    }

    /// The attachment of the resource that the channel samples; 0 where the
    /// channel names only the resource.
    pub open spec fn attachment_index(self) -> usize {
        match self {
            ChannelConfig::Simple(_) => 0,
            ChannelConfig::Complete { attachment, .. } => attachment,
        }
    }

    pub fn resource_name(&self) -> (name: &String)
        ensures
            name@ == self.name(),
    {
        match self {
            ChannelConfig::Simple(s) => s,
            ChannelConfig::Complete { resource, .. } => resource,
        }
    }
}

impl Default for WrapConfig {
    fn default() -> (wrap: Self)
        ensures
            wrap == WrapConfig::Repeat,
    {
        WrapConfig::Repeat
    }
}

impl Default for FilterConfig {
    fn default() -> (filter: Self)
        ensures
            filter == FilterConfig::Mipmap,
    {
        FilterConfig::Mipmap
    }
}

impl Default for DrawConfig {
    fn default() -> (draw: Self)
        ensures
            draw == (DrawConfig { mode: DrawModeConfig::Triangles, count: 1 }),
    {
        Self { mode: DrawModeConfig::Triangles, count: 1 }
    }
}

impl Default for BufferConfig {
    fn default() -> (buffer: Self)
        ensures
            buffer == (BufferConfig {
                buffer: true,
                attachments: 1,
                format: BufferFormat::F32,
                components: 4,
                width: None,
                height: None,
                scale: None,
                depth: BufferDepthConfig::Enabled,
                feedback: false,
            }),
    {
        Self {
            buffer: true,
            attachments: 1,
            format: BufferFormat::F32,
            components: 4,
            width: None,
            height: None,
            scale: None,
            depth: BufferDepthConfig::Enabled,
            feedback: false,
        }
    }
}

impl TextureFormat {
    /// The number of colour channels of a texel.
    pub open spec fn channel_count(self) -> nat {
        match self {
            TextureFormat::RU8 | TextureFormat::RF16 | TextureFormat::RF32 => 1,
            TextureFormat::RGU8 | TextureFormat::RGF16 | TextureFormat::RGF32 => 2,
            TextureFormat::RGBU8 | TextureFormat::RGBF16 | TextureFormat::RGBF32 => 3,
            TextureFormat::BGRU8 | TextureFormat::BGRF16 | TextureFormat::BGRF32 => 3,
            TextureFormat::RGBAU8 | TextureFormat::RGBAF16 | TextureFormat::RGBAF32 => 4,
            TextureFormat::BGRAU8 | TextureFormat::BGRAF16 | TextureFormat::BGRAF32 => 4,
        }
    }

    /// The number of bytes of one component: 1 for 8-bit, 2 for half
    /// precision, 4 for single precision components.
    pub open spec fn component_size(self) -> nat {
        match self {
            TextureFormat::RU8 | TextureFormat::RGU8 | TextureFormat::RGBU8
            | TextureFormat::RGBAU8 | TextureFormat::BGRU8 | TextureFormat::BGRAU8 => 1,
            TextureFormat::RF16 | TextureFormat::RGF16 | TextureFormat::RGBF16
            | TextureFormat::RGBAF16 | TextureFormat::BGRF16 | TextureFormat::BGRAF16 => 2,
            TextureFormat::RF32 | TextureFormat::RGF32 | TextureFormat::RGBF32
            | TextureFormat::RGBAF32 | TextureFormat::BGRF32 | TextureFormat::BGRAF32 => 4,
        }
    }

    /// The number of bytes of one texel: a component for every channel. A
    /// tightly packed image of `w` by `h` texels has `w * h` times as many
    /// bytes.
    pub open spec fn texel_bytes(self) -> nat {
        self.channel_count() * self.component_size()
    }

    pub fn channels(&self) -> (n: usize)
        ensures
            n == self.channel_count(),
    {
        match self {
            TextureFormat::RU8 | TextureFormat::RF16 | TextureFormat::RF32 => 1,
            TextureFormat::RGU8 | TextureFormat::RGF16 | TextureFormat::RGF32 => 2,
            TextureFormat::RGBU8 | TextureFormat::RGBF16 | TextureFormat::RGBF32 => 3,
            TextureFormat::BGRU8 | TextureFormat::BGRF16 | TextureFormat::BGRF32 => 3,
            TextureFormat::RGBAU8 | TextureFormat::RGBAF16 | TextureFormat::RGBAF32 => 4,
            TextureFormat::BGRAU8 | TextureFormat::BGRAF16 | TextureFormat::BGRAF32 => 4,
        }
    }

    /// The number of bytes of one texel.
    pub fn bytes_per(&self) -> (n: usize)
        ensures
            n == self.texel_bytes(),
            1 <= n <= 16,
    {
        let c = self.channels();
        match self {
            TextureFormat::RU8 | TextureFormat::RGU8 | TextureFormat::RGBU8
            | TextureFormat::RGBAU8 | TextureFormat::BGRU8 | TextureFormat::BGRAU8 => c,
            TextureFormat::RF16 | TextureFormat::RGF16 | TextureFormat::RGBF16
            | TextureFormat::RGBAF16 | TextureFormat::BGRF16 | TextureFormat::BGRAF16 => c * 2,
            TextureFormat::RF32 | TextureFormat::RGF32 | TextureFormat::RGBF32
            | TextureFormat::RGBAF32 | TextureFormat::BGRF32 | TextureFormat::BGRAF32 => c * 4,
        }
    }
}

/// The number of spectrum bands of an audio resource that names none.
pub fn default_audio_bands() -> (bands: usize)
    ensures
        bands == 512,
{
    512
}

/// Images are flipped vertically unless the configuration says otherwise.
pub fn default_flipv() -> (flip: bool)
    ensures
        flip,
{
    true
}

pub fn default_buffer_config_attachments() -> (attachments: usize)
    ensures
        attachments == 1,
{
    1
}

pub fn default_buffer_config_format() -> (format: BufferFormat)
    ensures
        format == BufferFormat::F32,
{
    BufferFormat::F32
}

} // verus!
