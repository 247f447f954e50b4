use crate::command::{handle_after, GpuCommand, HandlePool};
use crate::config::{
    BufferConfig, EffectConfig, NamedResource, PassConfig, ResourceConfig, ScaleConfig,
};
use crate::gl::{
    attachment_params, depth_format, gl_depth_format_from_config,
    gl_texture_params_from_buffer_format, GLTextureParam, DEPTH_COMPONENT, FLOAT, TEXTURE_2D,
};
use crate::identity::{
    color_attachment_index, color_index, depth_attachment_index, depth_index,
    hash_name_attachment, identity, MAX_ATTACHMENTS,
};
use crate::scale::{scale_by, scaled_by};
use crate::table::{lookup, upsert, without, GLPbo, GLResource, ResourceEntry, ResourceTable};
use vstd::prelude::*;

verus! {

/// The depth texture of a render target, and the key under which the resource
/// table knows it.
#[derive(Debug, PartialEq, Eq, Structural, Clone, Copy)]
pub struct GLDepthAttachment {
    pub key: u64,
    pub texture: u32,
}

/// One physical render target: a framebuffer object with its attachments.
#[derive(Debug)]
pub struct GLFramebuffer {
    pub framebuffer: u32,
    pub depth_attachment: Option<GLDepthAttachment>,
    /// The identity keys of the colour attachments, in attachment order.
    pub color_attachments: Vec<u64>,
    /// The textures that are attached, in attachment order. They stay with the
    /// target for its whole life, whatever the resource table says.
    pub color_textures: Vec<u32>,
    pub width: u32,
    pub height: u32,
}

/// A render target by name: one physical target, or two that trade places.
#[derive(Debug)]
pub enum Framebuffer {
    Simple(GLFramebuffer),
    /// `current` is 0 or 1 and says which of the two is drawn into; the other
    /// one is read.
    PingPong { first: GLFramebuffer, second: GLFramebuffer, current: usize },
}

#[derive(Debug)]
pub struct NamedFramebuffer {
    pub name: String,
    pub framebuffer: Framebuffer,
}

impl Framebuffer {
    pub open spec fn well_formed(self) -> bool {
        match self {
            Framebuffer::Simple(_) => true,
            Framebuffer::PingPong { current, .. } => current <= 1,
        }
    }

    /// The target that samplers read.
    pub open spec fn read_target(self) -> GLFramebuffer {
        match self {
            Framebuffer::Simple(f) => f,
            Framebuffer::PingPong { first, second, current } => if current == 0 {
                second
            } else {
                first
            },
        }
    }

    /// The target that is drawn into.
    pub open spec fn write_target(self) -> GLFramebuffer {
        match self {
            Framebuffer::Simple(f) => f,
            Framebuffer::PingPong { first, second, current } => if current == 0 {
                first
            } else {
                second
            },
        }
    }

    pub open spec fn swaps(self) -> bool {
        self is PingPong
    }

    /// The same targets with the roles of reading and writing exchanged.
    pub open spec fn swapped(self) -> Framebuffer {
        match self {
            Framebuffer::Simple(f) => self,
            Framebuffer::PingPong { first, second, current } => Framebuffer::PingPong {
                first,
                second,
                current: if current == 0 {
                    1
                } else {
                    0
                },
            },
        }
    }

    pub fn read_buffer(&self) -> (target: &GLFramebuffer)
        ensures
            *target == self.read_target(),
    {
        match self {
            Framebuffer::Simple(f) => f,
            Framebuffer::PingPong { first, second, current } => if *current == 0 {
                second
            } else {
                first
            },
        }
    }

    pub fn write_buffer(&self) -> (target: &GLFramebuffer)
        ensures
            *target == self.write_target(),
    {
        match self {
            Framebuffer::Simple(f) => f,
            Framebuffer::PingPong { first, second, current } => if *current == 0 {
                first
            } else {
                second
            },
        }
    }

    pub fn does_swap(&self) -> (swaps: bool)
        ensures
            swaps == self.swaps(),
    {
        match self {
            Framebuffer::PingPong { .. } => true,
            _ => false,
        }
    }

    /// Exchanges the roles of the two targets of a pair; a single target stays
    /// what it is.
    pub fn swap_read_write(&mut self)
        ensures
            *final(self) == old(self).swapped(),
    {
        match self {
            Framebuffer::Simple(_) => {},
            Framebuffer::PingPong { current, .. } => {
                *current = if *current == 0 {
                    1
                } else {
                    0
                };
            },
        }
    }
}

/// Exchanging the roles makes the target that was drawn into the one that is
/// read, and the one that was read the one that is drawn into: no target is
/// lost and none is used in both roles.
pub proof fn lemma_swap_exchanges_roles(framebuffer: Framebuffer)
    ensures
        framebuffer.swapped().read_target() == framebuffer.write_target(),
        framebuffer.swapped().write_target() == framebuffer.read_target(),
        framebuffer.swapped().swaps() == framebuffer.swaps(),
        framebuffer.well_formed() ==> framebuffer.swapped().swapped() == framebuffer,
{
}

/// A size after scaling: the size times the factor in single precision
/// arithmetic, cut to whole pixels and held to the range of 32 bits. Without
/// a factor the size stays as it is.
pub open spec fn scaled(size: u32, scale: Option<ScaleConfig>) -> u32 {
    match scale {
        None => size,
        Some(s) => scaled_by(size, s.bits),
    }
}

pub fn scale_size(size: u32, scale: &Option<ScaleConfig>) -> (r: u32)
    ensures
        r == scaled(size, *scale),
{
    match scale {
        None => size,
        Some(s) => scale_by(size, s.bits),
    }
}

impl BufferConfig {
    /// The width of the buffer's textures on a window of the given width: the
    /// explicit width if there is one, the window's otherwise, then scaled.
    pub open spec fn resolved_width(self, window_width: u32) -> u32 {
        scaled(
            match self.width {
                Some(w) => w,
                None => window_width,
            },
            self.scale,
        )
    }

    /// As `resolved_width`, for the height.
    pub open spec fn resolved_height(self, window_height: u32) -> u32 {
        scaled(
            match self.height {
                Some(h) => h,
                None => window_height,
            },
            self.scale,
        )
    }

    /// Whether render targets can be made for the buffer at all: the
    /// attachment indices of both copies must be machine words.
    pub open spec fn buildable(self) -> bool {
        self.attachments <= MAX_ATTACHMENTS
    }

    /// The number of handles that one render target of the buffer takes: one
    /// for the framebuffer object, one for each colour texture and one for the
    /// depth texture, if there is one.
    pub open spec fn handles_per_target(self) -> nat {
        (1 + self.attachments + if depth_format(self.depth) is Some {
            1nat
        } else {
            0nat
        }) as nat
    }
}

/// What the resource table holds for a freshly made attachment texture.
pub open spec fn attachment_resource(texture: u32, width: u32, height: u32) -> GLResource {
    GLResource {
        target: TEXTURE_2D,
        texture,
        resolution: [width, height, 0u32],
        time: 0,
        pbos: [GLPbo::none(), GLPbo::none(), GLPbo::none()],
        pbo_idx: 0,
        params: GLTextureParam { internal: 0, format: 0, data_type: 0 },
    }
}

fn new_attachment_resource(texture: u32, width: u32, height: u32) -> (r: GLResource)
    ensures
        r == attachment_resource(texture, width, height),
{
    let none = GLPbo::default();
    let r = GLResource {
        target: TEXTURE_2D,
        texture,
        resolution: [width, height, 0u32],
        time: 0,
        pbos: [none, none, none],
        pbo_idx: 0,
        params: GLTextureParam { internal: 0, format: 0, data_type: 0 },
    };
    assert(r.resolution@ =~= attachment_resource(texture, width, height).resolution@);
    assert(r.pbos@ =~= attachment_resource(texture, width, height).pbos@);
    r
}

/// The instructions that make the first `n` colour attachments of a render
/// target whose framebuffer object has the handle `fbo`: for each, a zeroed
/// texture with mipmaps, attached at its index. The textures take the handles
/// that follow `fbo`.
pub open spec fn color_commands(
    fbo: u32,
    params: GLTextureParam,
    width: u32,
    height: u32,
    n: int,
) -> Seq<GpuCommand>
    decreases n,
{
    if n <= 0 {
        Seq::empty()
    } else {
        let texture = handle_after(fbo, n as nat);
        color_commands(fbo, params, width, height, n - 1) + seq![
            GpuCommand::CreateTexture2D { texture, params, width, height, zeroed: true },
            GpuCommand::GenerateMipmap { target: TEXTURE_2D, texture },
            GpuCommand::AttachColor { framebuffer: fbo, index: (n - 1) as usize, texture },
        ]
    }
}

/// The parameters of a depth texture of the given storage format.
pub open spec fn depth_params(internal: u32) -> GLTextureParam {
    GLTextureParam { internal, format: DEPTH_COMPONENT, data_type: FLOAT }
}

/// The instructions that follow the colour attachments of a render target:
/// the depth texture, if the buffer has one, the routing of the fragment
/// outputs, if there is a colour attachment, and the completeness check.
pub open spec fn closing_commands(fbo: u32, buffer: BufferConfig, width: u32, height: u32) -> Seq<
    GpuCommand,
> {
    let depth = match depth_format(buffer.depth) {
        Some(internal) => {
            let texture = handle_after(fbo, (buffer.attachments + 1) as nat);
            seq![
                GpuCommand::CreateTexture2D {
                    texture,
                    params: depth_params(internal),
                    width,
                    height,
                    zeroed: false,
                },
                GpuCommand::AttachDepth { framebuffer: fbo, texture },
            ]
        },
        None => Seq::empty(),
    };
    let routing = if buffer.attachments > 0 {
        seq![GpuCommand::DrawBuffers { framebuffer: fbo, count: buffer.attachments }]
    } else {
        Seq::empty()
    };
    depth + routing + seq![GpuCommand::CheckFramebuffer { framebuffer: fbo }]
}

/// All instructions that make one render target of a buffer.
pub open spec fn target_commands(fbo: u32, buffer: BufferConfig, width: u32, height: u32) -> Seq<
    GpuCommand,
> {
    seq![GpuCommand::CreateFramebuffer { framebuffer: fbo }] + color_commands(
        fbo,
        attachment_params(buffer.components, buffer.format),
        width,
        height,
        buffer.attachments as int,
    ) + closing_commands(fbo, buffer, width, height)
}

/// The making of a render target begins with its framebuffer object and
/// ends with the check that the framebuffer is complete.
pub proof fn law_every_target_is_checked(fbo: u32, buffer: BufferConfig, width: u32, height: u32)
    ensures
        target_commands(fbo, buffer, width, height).first() == (GpuCommand::CreateFramebuffer {
            framebuffer: fbo,
        }),
        target_commands(fbo, buffer, width, height).last() == (GpuCommand::CheckFramebuffer {
            framebuffer: fbo,
        }),
{
}

/// The resource table after the first `n` colour attachments of copy `copy`
/// of the buffer `name` have been entered.
pub open spec fn with_colors(
    entries: Seq<ResourceEntry>,
    name: Seq<char>,
    attachments: usize,
    copy: usize,
    fbo: u32,
    width: u32,
    height: u32,
    n: int,
) -> Seq<ResourceEntry>
    decreases n,
{
    if n <= 0 {
        entries
    } else {
        upsert(
            with_colors(entries, name, attachments, copy, fbo, width, height, n - 1),
            identity(name, color_index(attachments, copy, (n - 1) as usize) as usize),
            attachment_resource(handle_after(fbo, n as nat), width, height),
        )
    }
}

/// The resource table after all attachments of copy `copy` of the buffer
/// `name` have been entered: the colour attachments, then the depth
/// attachment.
pub open spec fn with_target(
    entries: Seq<ResourceEntry>,
    name: Seq<char>,
    buffer: BufferConfig,
    copy: usize,
    fbo: u32,
    width: u32,
    height: u32,
) -> Seq<ResourceEntry> {
    let colors = with_colors(
        entries,
        name,
        buffer.attachments,
        copy,
        fbo,
        width,
        height,
        buffer.attachments as int,
    );
    if depth_format(buffer.depth) is Some {
        upsert(
            colors,
            identity(name, depth_index(buffer.attachments, copy) as usize),
            attachment_resource(
                handle_after(fbo, (buffer.attachments + 1) as nat),
                width,
                height,
            ),
        )
    } else {
        colors
    }
}

/// `target` is copy `copy` of the buffer `name`, made with `fbo` as the handle
/// of its framebuffer object.
pub open spec fn is_target_of(
    target: GLFramebuffer,
    name: Seq<char>,
    buffer: BufferConfig,
    copy: usize,
    fbo: u32,
    width: u32,
    height: u32,
) -> bool {
    &&& target.framebuffer == fbo
    &&& target.width == width
    &&& target.height == height
    &&& target.color_attachments@.len() == buffer.attachments
    &&& target.color_textures@.len() == buffer.attachments
    &&& forall|i: int|
        0 <= i < buffer.attachments ==> #[trigger] target.color_attachments@[i] == identity(
            name,
            color_index(buffer.attachments, copy, i as usize) as usize,
        )
    &&& forall|i: int|
        0 <= i < buffer.attachments ==> #[trigger] target.color_textures@[i] == handle_after(
            fbo,
            (i + 1) as nat,
        )
    &&& target.depth_attachment == (if depth_format(buffer.depth) is Some {
        Some(
            GLDepthAttachment {
                key: identity(name, depth_index(buffer.attachments, copy) as usize),
                texture: handle_after(fbo, (buffer.attachments + 1) as nat),
            },
        )
    } else {
        None
    })
}

/// Makes one render target of a buffer: hands out its handles, enters its
/// attachment textures in the resource table and writes the instructions that
/// build it on the device.
pub fn create_target(
    name: &str,
    buffer: &BufferConfig,
    copy: usize,
    width: u32,
    height: u32,
    resources: &mut ResourceTable,
    pool: &mut HandlePool,
    commands: &mut Vec<GpuCommand>,
) -> (target: GLFramebuffer)
    requires
        buffer.buildable(),
        copy <= 1,
    ensures
        is_target_of(target, name@, *buffer, copy, old(pool).next, width, height),
        final(pool).next == handle_after(old(pool).next, buffer.handles_per_target()),
        final(resources).entries@ == with_target(
            old(resources).entries@,
            name@,
            *buffer,
            copy,
            old(pool).next,
            width,
            height,
        ),
        final(commands)@ == old(commands)@ + target_commands(
            old(pool).next,
            *buffer,
            width,
            height,
        ),
{
    let ghost before = commands@;
    let ghost entries = resources.entries@;
    let fbo = pool.fresh();
    commands.push(GpuCommand::CreateFramebuffer { framebuffer: fbo });
    let params = gl_texture_params_from_buffer_format(buffer.components, buffer.format);
    let mut color_attachments: Vec<u64> = Vec::new();
    let mut color_textures: Vec<u32> = Vec::new();
    let count = buffer.attachments;
    let mut i: usize = 0;
    assert(handle_after(fbo, 0) == fbo);
    assert(commands@ =~= before + seq![GpuCommand::CreateFramebuffer { framebuffer: fbo }]
        + color_commands(fbo, params, width, height, 0));
    while i < count
        invariant
            i <= count,
            count == buffer.attachments,
            count <= MAX_ATTACHMENTS,
            copy <= 1,
            params == attachment_params(buffer.components, buffer.format),
            pool.next == handle_after(fbo, (i + 1) as nat),
            commands@ == before + seq![GpuCommand::CreateFramebuffer { framebuffer: fbo }]
                + color_commands(fbo, params, width, height, i as int),
            resources.entries@ == with_colors(
                entries,
                name@,
                count,
                copy,
                fbo,
                width,
                height,
                i as int,
            ),
            color_attachments@.len() == i,
            color_textures@.len() == i,
            forall|j: int|
                0 <= j < i ==> #[trigger] color_attachments@[j] == identity(
                    name@,
                    color_index(count, copy, j as usize) as usize,
                ),
            forall|j: int|
                0 <= j < i ==> #[trigger] color_textures@[j] == handle_after(fbo, (j + 1) as nat),
        decreases count - i,
    {
        let texture = pool.fresh();
        commands.push(
            GpuCommand::CreateTexture2D { texture, params, width, height, zeroed: true },
        );
        commands.push(GpuCommand::GenerateMipmap { target: TEXTURE_2D, texture });
        commands.push(GpuCommand::AttachColor { framebuffer: fbo, index: i, texture });
        let key = hash_name_attachment(name, color_attachment_index(count, copy, i));
        resources.insert(key, new_attachment_resource(texture, width, height));
        color_attachments.push(key);
        color_textures.push(texture);
        i = i + 1;
        assert(commands@ =~= before + seq![GpuCommand::CreateFramebuffer { framebuffer: fbo }]
            + color_commands(fbo, params, width, height, i as int));
    }
    let ghost colored = commands@;
    let depth_attachment = match gl_depth_format_from_config(&buffer.depth) {
        Some(internal) => {
            let texture = pool.fresh();
            commands.push(
                GpuCommand::CreateTexture2D {
                    texture,
                    params: GLTextureParam { internal, format: DEPTH_COMPONENT, data_type: FLOAT },
                    width,
                    height,
                    zeroed: false,
                },
            );
            commands.push(GpuCommand::AttachDepth { framebuffer: fbo, texture });
            let key = hash_name_attachment(name, depth_attachment_index(count, copy));
            resources.insert(key, new_attachment_resource(texture, width, height));
            Some(GLDepthAttachment { key, texture })
        },
        None => None,
    };
    if count > 0 {
        commands.push(GpuCommand::DrawBuffers { framebuffer: fbo, count });
    }
    commands.push(GpuCommand::CheckFramebuffer { framebuffer: fbo });
    assert(commands@ =~= colored + closing_commands(fbo, *buffer, width, height));
    assert(commands@ =~= before + target_commands(fbo, *buffer, width, height));
    GLFramebuffer { framebuffer: fbo, depth_attachment, color_attachments, color_textures, width, height }
}


impl PassConfig {
    /// Whether the pass samples the buffer that it renders into.
    pub open spec fn feeds_back(self) -> bool {
        match self.buffer {
            Some(buffer) => exists|c: int|
                0 <= c < self.uniform_to_channel@.len() && (
                #[trigger] self.uniform_to_channel@[c]).channel.name() == buffer@,
            None => false,
        }
    }

    pub fn is_feedback(&self) -> (r: bool)
        ensures
            r == self.feeds_back(),
    {
        match &self.buffer {
            Some(buffer) => {
                let mut c: usize = 0;
                while c < self.uniform_to_channel.len()
                    invariant
                        c <= self.uniform_to_channel@.len(),
                        self.buffer == Some(*buffer),
                        forall|k: int|
                            0 <= k < c ==> (#[trigger] self.uniform_to_channel@[k]).channel.name()
                                != buffer@,
                    decreases self.uniform_to_channel@.len() - c,
                {
                    if *self.uniform_to_channel[c].channel.resource_name() == *buffer {
                        assert(self.uniform_to_channel@[c as int].channel.name() == buffer@);
                        return true;
                    }
                    c = c + 1;
                }
                false
            },
            None => false,
        }
    }

    /// Whether the pass renders into the buffer `name` and samples it too.
    pub open spec fn feeds_back_into(self, name: Seq<char>) -> bool {
        self.buffer is Some && self.buffer->0@ == name && self.feeds_back()
    }
}

/// Whether the buffer `name` needs two physical copies: it asks for them
/// itself, or a pass samples it while rendering into it.
pub open spec fn is_feedback_buffer(passes: Seq<PassConfig>, name: Seq<char>, buffer: BufferConfig) -> bool {
    buffer.feedback || exists|p: int|
        0 <= p < passes.len() && (#[trigger] passes[p]).feeds_back_into(name)
}

pub fn needs_feedback(passes: &Vec<PassConfig>, name: &String, buffer: &BufferConfig) -> (r: bool)
    ensures
        r == is_feedback_buffer(passes@, name@, *buffer),
{
    if buffer.feedback {
        return true;
    }
    let mut p: usize = 0;
    while p < passes.len()
        invariant
            p <= passes.len(),
            forall|k: int| 0 <= k < p ==> !(#[trigger] passes@[k]).feeds_back_into(name@),
        decreases passes.len() - p,
    {
        let writes = match &passes[p].buffer {
            Some(buffer_name) => *buffer_name == *name,
            None => false,
        };
        if writes && passes[p].is_feedback() {
            return true;
        }
        p = p + 1;
    }
    false
}

/// The handle of the framebuffer object of the second copy of a buffer whose
/// first copy has `fbo`.
pub open spec fn second_fbo(fbo: u32, buffer: BufferConfig) -> u32 {
    handle_after(fbo, buffer.handles_per_target())
}

/// The next free handle after a buffer's render targets have been made.
pub open spec fn handle_past_buffer(fbo: u32, buffer: BufferConfig, feedback: bool) -> u32 {
    if feedback {
        handle_after(second_fbo(fbo, buffer), buffer.handles_per_target())
    } else {
        second_fbo(fbo, buffer)
    }
}

/// The resource table after a buffer's render targets have been made.
pub open spec fn entries_with_buffer(
    entries: Seq<ResourceEntry>,
    name: Seq<char>,
    buffer: BufferConfig,
    feedback: bool,
    fbo: u32,
    width: u32,
    height: u32,
) -> Seq<ResourceEntry> {
    let one = with_target(entries, name, buffer, 0, fbo, width, height);
    if feedback {
        with_target(one, name, buffer, 1, second_fbo(fbo, buffer), width, height)
    } else {
        one
    }
}

/// The instructions that make a buffer's render targets.
pub open spec fn buffer_commands(
    buffer: BufferConfig,
    feedback: bool,
    fbo: u32,
    width: u32,
    height: u32,
) -> Seq<GpuCommand> {
    let one = target_commands(fbo, buffer, width, height);
    if feedback {
        one + target_commands(second_fbo(fbo, buffer), buffer, width, height)
    } else {
        one
    }
}

/// `framebuffer` is what is made for the buffer `name`: a single target, or
/// for a feedback buffer a pair whose second target is drawn into first.
pub open spec fn is_framebuffer_of(
    framebuffer: Framebuffer,
    name: Seq<char>,
    buffer: BufferConfig,
    feedback: bool,
    fbo: u32,
    width: u32,
    height: u32,
) -> bool {
    match framebuffer {
        Framebuffer::Simple(target) => !feedback && is_target_of(
            target,
            name,
            buffer,
            0,
            fbo,
            width,
            height,
        ),
        Framebuffer::PingPong { first, second, current } => {
            &&& feedback
            &&& current == 1
            &&& is_target_of(first, name, buffer, 0, fbo, width, height)
            &&& is_target_of(second, name, buffer, 1, second_fbo(fbo, buffer), width, height)
        },
    }
}

/// Makes the render targets of one buffer: one, or two for a feedback buffer.
pub fn create_framebuffer(
    name: &str,
    buffer: &BufferConfig,
    feedback: bool,
    width: u32,
    height: u32,
    resources: &mut ResourceTable,
    pool: &mut HandlePool,
    commands: &mut Vec<GpuCommand>,
) -> (framebuffer: Framebuffer)
    requires
        buffer.buildable(),
    ensures
        is_framebuffer_of(framebuffer, name@, *buffer, feedback, old(pool).next, width, height),
        final(pool).next == handle_past_buffer(old(pool).next, *buffer, feedback),
        final(resources).entries@ == entries_with_buffer(
            old(resources).entries@,
            name@,
            *buffer,
            feedback,
            old(pool).next,
            width,
            height,
        ),
        final(commands)@ == old(commands)@ + buffer_commands(
            *buffer,
            feedback,
            old(pool).next,
            width,
            height,
        ),
{
    let first = create_target(name, buffer, 0, width, height, resources, pool, commands);
    if feedback {
        let second = create_target(name, buffer, 1, width, height, resources, pool, commands);
        assert(commands@ =~= old(commands)@ + buffer_commands(
            *buffer,
            feedback,
            old(pool).next,
            width,
            height,
        ));
        Framebuffer::PingPong { first, second, current: 1 }
    } else {
        Framebuffer::Simple(first)
    }
}


/// The buffer behind a resource, if render targets can be made for it.
pub open spec fn buildable_buffer(resource: NamedResource) -> Option<BufferConfig> {
    match resource.config {
        ResourceConfig::Buffer(buffer) => if buffer.buildable() {
            Some(buffer)
        } else {
            None
        },
        _ => None,
    }
}

/// The next free handle after the render targets of the first `n` resources
/// have been made, starting with the handle `first`.
pub open spec fn handle_past(
    passes: Seq<PassConfig>,
    resources: Seq<NamedResource>,
    first: u32,
    n: int,
) -> u32
    decreases n,
{
    if n <= 0 {
        first
    } else {
        let handle = handle_past(passes, resources, first, n - 1);
        match buildable_buffer(resources[n - 1]) {
            Some(buffer) => handle_past_buffer(
                handle,
                buffer,
                is_feedback_buffer(passes, resources[n - 1].name@, buffer),
            ),
            None => handle,
        }
    }
}

/// The resource table after the render targets of the first `n` resources
/// have been made on a window of the given size.
pub open spec fn entries_past(
    passes: Seq<PassConfig>,
    resources: Seq<NamedResource>,
    entries: Seq<ResourceEntry>,
    first: u32,
    width: u32,
    height: u32,
    n: int,
) -> Seq<ResourceEntry>
    decreases n,
{
    if n <= 0 {
        entries
    } else {
        let before = entries_past(passes, resources, entries, first, width, height, n - 1);
        match buildable_buffer(resources[n - 1]) {
            Some(buffer) => entries_with_buffer(
                before,
                resources[n - 1].name@,
                buffer,
                is_feedback_buffer(passes, resources[n - 1].name@, buffer),
                handle_past(passes, resources, first, n - 1),
                buffer.resolved_width(width),
                buffer.resolved_height(height),
            ),
            None => before,
        }
    }
}

/// The instructions that make the render targets of the first `n` resources.
pub open spec fn commands_past(
    passes: Seq<PassConfig>,
    resources: Seq<NamedResource>,
    first: u32,
    width: u32,
    height: u32,
    n: int,
) -> Seq<GpuCommand>
    decreases n,
{
    if n <= 0 {
        Seq::empty()
    } else {
        let before = commands_past(passes, resources, first, width, height, n - 1);
        match buildable_buffer(resources[n - 1]) {
            Some(buffer) => before + buffer_commands(
                buffer,
                is_feedback_buffer(passes, resources[n - 1].name@, buffer),
                handle_past(passes, resources, first, n - 1),
                buffer.resolved_width(width),
                buffer.resolved_height(height),
            ),
            None => before,
        }
    }
}

/// `framebuffers` holds, in resource order, what is made for the buffers among
/// the first `n` resources, each under the buffer's name.
pub open spec fn built(
    framebuffers: Seq<NamedFramebuffer>,
    passes: Seq<PassConfig>,
    resources: Seq<NamedResource>,
    first: u32,
    width: u32,
    height: u32,
    n: int,
) -> bool
    decreases n,
{
    if n <= 0 {
        framebuffers.len() == 0
    } else {
        match buildable_buffer(resources[n - 1]) {
            Some(buffer) => {
                &&& framebuffers.len() > 0
                &&& built(
                    framebuffers.drop_last(),
                    passes,
                    resources,
                    first,
                    width,
                    height,
                    n - 1,
                )
                &&& framebuffers.last().name@ == resources[n - 1].name@
                &&& is_framebuffer_of(
                    framebuffers.last().framebuffer,
                    resources[n - 1].name@,
                    buffer,
                    is_feedback_buffer(passes, resources[n - 1].name@, buffer),
                    handle_past(passes, resources, first, n - 1),
                    buffer.resolved_width(width),
                    buffer.resolved_height(height),
                )
            },
            None => built(framebuffers, passes, resources, first, width, height, n - 1),
        }
    }
}

/// Makes the render targets of every buffer of a configuration, for a window
/// of the given size.
///
/// A buffer's textures have its explicit size where it names one and the
/// window's otherwise, scaled by its factor. A feedback buffer gets two
/// targets, any other buffer one. Every attachment texture is entered in the
/// resource table under the identity key of the buffer's name and the
/// attachment's index.
pub fn gpu_init_framebuffers(
    config: &EffectConfig,
    window_width: u32,
    window_height: u32,
    resources: &mut ResourceTable,
    pool: &mut HandlePool,
    commands: &mut Vec<GpuCommand>,
) -> (framebuffers: Vec<NamedFramebuffer>)
    ensures
        built(
            framebuffers@,
            config.pass_list(),
            config.resource_list(),
            old(pool).next,
            window_width,
            window_height,
            config.resource_list().len() as int,
        ),
        final(pool).next == handle_past(
            config.pass_list(),
            config.resource_list(),
            old(pool).next,
            config.resource_list().len() as int,
        ),
        final(resources).entries@ == entries_past(
            config.pass_list(),
            config.resource_list(),
            old(resources).entries@,
            old(pool).next,
            window_width,
            window_height,
            config.resource_list().len() as int,
        ),
        final(commands)@ == old(commands)@ + commands_past(
            config.pass_list(),
            config.resource_list(),
            old(pool).next,
            window_width,
            window_height,
            config.resource_list().len() as int,
        ),
{
    let passes = config.passes();
    let declared = config.resources();
    let ghost first = pool.next;
    let ghost entries = resources.entries@;
    let ghost before = commands@;
    let mut framebuffers: Vec<NamedFramebuffer> = Vec::new();
    let mut r: usize = 0;
    while r < declared.len()
        invariant
            r <= declared.len(),
            built(framebuffers@, passes@, declared@, first, window_width, window_height, r as int),
            pool.next == handle_past(passes@, declared@, first, r as int),
            resources.entries@ == entries_past(
                passes@,
                declared@,
                entries,
                first,
                window_width,
                window_height,
                r as int,
            ),
            commands@ == before + commands_past(
                passes@,
                declared@,
                first,
                window_width,
                window_height,
                r as int,
            ),
        decreases declared.len() - r,
    {
        if let ResourceConfig::Buffer(buffer) = &declared[r].config {
            if buffer.attachments <= MAX_ATTACHMENTS {
                let name = &declared[r].name;
                let feedback = needs_feedback(passes, name, buffer);
                let width = scale_size(
                    match buffer.width {
                        Some(w) => w,
                        None => window_width,
                    },
                    &buffer.scale,
                );
                let height = scale_size(
                    match buffer.height {
                        Some(h) => h,
                        None => window_height,
                    },
                    &buffer.scale,
                );
                let ghost built_before = framebuffers@;
                let framebuffer = create_framebuffer(
                    name.as_str(),
                    buffer,
                    feedback,
                    width,
                    height,
                    resources,
                    pool,
                    commands,
                );
                framebuffers.push(NamedFramebuffer { name: name.clone(), framebuffer });
                assert(framebuffers@.drop_last() =~= built_before);
            }
        }
        r = r + 1;
    }
    framebuffers
}

/// Finds the render target of the given name.
pub fn find_framebuffer(framebuffers: &Vec<NamedFramebuffer>, name: &String) -> (found: Option<
    usize,
>)
    ensures
        match found {
            Some(i) => {
                &&& i < framebuffers@.len()
                &&& framebuffers@[i as int].name@ == name@
                &&& forall|j: int| 0 <= j < i ==> (#[trigger] framebuffers@[j]).name@ != name@
            },
            None => forall|j: int|
                0 <= j < framebuffers@.len() ==> (#[trigger] framebuffers@[j]).name@ != name@,
        },
{
    let mut i: usize = 0;
    while i < framebuffers.len()
        invariant
            i <= framebuffers.len(),
            forall|j: int| 0 <= j < i ==> (#[trigger] framebuffers@[j]).name@ != name@,
        decreases framebuffers.len() - i,
    {
        if framebuffers[i].name == *name {
            return Some(i);
        }
        i = i + 1;
    }
    None
}


/// The resource table without the rows of the first `n` of the given keys.
pub open spec fn without_keys(entries: Seq<ResourceEntry>, keys: Seq<u64>, n: int) -> Seq<
    ResourceEntry,
>
    decreases n,
{
    if n <= 0 {
        entries
    } else {
        without(without_keys(entries, keys, n - 1), keys[n - 1])
    }
}

/// The instructions that delete the textures found under the first `n` of the
/// given keys, each key being taken out of the table as its texture goes.
pub open spec fn texture_deletions(entries: Seq<ResourceEntry>, keys: Seq<u64>, n: int) -> Seq<
    GpuCommand,
>
    decreases n,
{
    if n <= 0 {
        Seq::empty()
    } else {
        let before = texture_deletions(entries, keys, n - 1);
        match lookup(without_keys(entries, keys, n - 1), keys[n - 1]) {
            Some(resource) => before.push(GpuCommand::DeleteTexture { texture: resource.texture }),
            None => before,
        }
    }
}

/// The resource table without the attachments of a render target.
pub open spec fn without_target(entries: Seq<ResourceEntry>, target: GLFramebuffer) -> Seq<
    ResourceEntry,
> {
    let colors = without_keys(
        entries,
        target.color_attachments@,
        target.color_attachments@.len() as int,
    );
    match target.depth_attachment {
        Some(depth) => without(colors, depth.key),
        None => colors,
    }
}

/// The instructions that delete a render target: its colour textures as the
/// resource table knows them, its depth texture, its framebuffer object.
pub open spec fn target_deletions(entries: Seq<ResourceEntry>, target: GLFramebuffer) -> Seq<
    GpuCommand,
> {
    let colors = texture_deletions(
        entries,
        target.color_attachments@,
        target.color_attachments@.len() as int,
    );
    let depth = match target.depth_attachment {
        Some(depth) => colors.push(GpuCommand::DeleteTexture { texture: depth.texture }),
        None => colors,
    };
    depth.push(GpuCommand::DeleteFramebuffer { framebuffer: target.framebuffer })
}

/// Deletes one render target and takes its attachments out of the resource
/// table.
pub fn delete_target(
    target: &GLFramebuffer,
    resources: &mut ResourceTable,
    commands: &mut Vec<GpuCommand>,
)
    ensures
        final(resources).entries@ == without_target(old(resources).entries@, *target),
        final(commands)@ == old(commands)@ + target_deletions(old(resources).entries@, *target),
{
    let ghost entries = resources.entries@;
    let ghost before = commands@;
    let keys = &target.color_attachments;
    let mut i: usize = 0;
    while i < keys.len()
        invariant
            i <= keys.len(),
            resources.entries@ == without_keys(entries, keys@, i as int),
            commands@ == before + texture_deletions(entries, keys@, i as int),
        decreases keys.len() - i,
    {
        if let Some(resource) = resources.remove(keys[i]) {
            commands.push(GpuCommand::DeleteTexture { texture: resource.texture });
        }
        i = i + 1;
        assert(commands@ =~= before + texture_deletions(entries, keys@, i as int));
    }
    if let Some(depth) = target.depth_attachment {
        resources.remove(depth.key);
        commands.push(GpuCommand::DeleteTexture { texture: depth.texture });
    }
    commands.push(GpuCommand::DeleteFramebuffer { framebuffer: target.framebuffer });
    assert(commands@ =~= before + target_deletions(entries, *target));
}

/// The resource table without the attachments of a named render target.
pub open spec fn without_framebuffer(entries: Seq<ResourceEntry>, framebuffer: Framebuffer) -> Seq<
    ResourceEntry,
> {
    match framebuffer {
        Framebuffer::Simple(target) => without_target(entries, target),
        Framebuffer::PingPong { first, second, .. } => without_target(
            without_target(entries, first),
            second,
        ),
    }
}

/// The instructions that delete a named render target: its only target, or
/// the first and then the second of a pair.
pub open spec fn framebuffer_deletions(entries: Seq<ResourceEntry>, framebuffer: Framebuffer) -> Seq<
    GpuCommand,
> {
    match framebuffer {
        Framebuffer::Simple(target) => target_deletions(entries, target),
        Framebuffer::PingPong { first, second, .. } => target_deletions(entries, first)
            + target_deletions(without_target(entries, first), second),
    }
}

/// The resource table without the attachments of the first `n` render
/// targets.
pub open spec fn without_framebuffers(
    entries: Seq<ResourceEntry>,
    framebuffers: Seq<NamedFramebuffer>,
    n: int,
) -> Seq<ResourceEntry>
    decreases n,
{
    if n <= 0 {
        entries
    } else {
        without_framebuffer(
            without_framebuffers(entries, framebuffers, n - 1),
            framebuffers[n - 1].framebuffer,
        )
    }
}

/// The instructions that delete the first `n` render targets.
pub open spec fn all_framebuffer_deletions(
    entries: Seq<ResourceEntry>,
    framebuffers: Seq<NamedFramebuffer>,
    n: int,
) -> Seq<GpuCommand>
    decreases n,
{
    if n <= 0 {
        Seq::empty()
    } else {
        all_framebuffer_deletions(entries, framebuffers, n - 1) + framebuffer_deletions(
            without_framebuffers(entries, framebuffers, n - 1),
            framebuffers[n - 1].framebuffer,
        )
    }
}

/// Deletes every render target with its attachment textures, and takes the
/// attachments out of the resource table.
pub fn gpu_delete_buffer_resources(
    framebuffers: &Vec<NamedFramebuffer>,
    resources: &mut ResourceTable,
    commands: &mut Vec<GpuCommand>,
)
    ensures
        final(resources).entries@ == without_framebuffers(
            old(resources).entries@,
            framebuffers@,
            framebuffers@.len() as int,
        ),
        final(commands)@ == old(commands)@ + all_framebuffer_deletions(
            old(resources).entries@,
            framebuffers@,
            framebuffers@.len() as int,
        ),
{
    let ghost entries = resources.entries@;
    let ghost before = commands@;
    let mut f: usize = 0;
    while f < framebuffers.len()
        invariant
            f <= framebuffers.len(),
            resources.entries@ == without_framebuffers(entries, framebuffers@, f as int),
            commands@ == before + all_framebuffer_deletions(entries, framebuffers@, f as int),
        decreases framebuffers.len() - f,
    {
        let ghost here = resources.entries@;
        let ghost sofar = commands@;
        match &framebuffers[f].framebuffer {
            Framebuffer::Simple(target) => {
                delete_target(target, resources, commands);
            },
            Framebuffer::PingPong { first, second, .. } => {
                delete_target(first, resources, commands);
                delete_target(second, resources, commands);
            },
        }
        assert(commands@ =~= sofar + framebuffer_deletions(here, framebuffers@[f as int].framebuffer));
        f = f + 1;
        assert(commands@ =~= before + all_framebuffer_deletions(entries, framebuffers@, f as int));
    }
}

impl GLFramebuffer {
    /// Whether `key` is the key of one of the target's attachments.
    pub open spec fn holds(self, key: u64) -> bool {
        self.color_attachments@.contains(key) || (self.depth_attachment is Some
            && self.depth_attachment->0.key == key)
    }

    pub fn has_attachment(&self, key: u64) -> (r: bool)
        ensures
            r == self.holds(key),
    {
        if let Some(depth) = self.depth_attachment {
            if depth.key == key {
                return true;
            }
        }
        let mut i: usize = 0;
        while i < self.color_attachments.len()
            invariant
                i <= self.color_attachments@.len(),
                forall|j: int| 0 <= j < i ==> self.color_attachments@[j] != key,
            decreases self.color_attachments@.len() - i,
        {
            if self.color_attachments[i] == key {
                return true;
            }
            i = i + 1;
        }
        false
    }
}

impl Framebuffer {
    /// Whether `key` is the key of an attachment of one of the targets.
    pub open spec fn holds(self, key: u64) -> bool {
        match self {
            Framebuffer::Simple(target) => target.holds(key),
            Framebuffer::PingPong { first, second, .. } => first.holds(key) || second.holds(key),
        }
    }

    pub fn has_attachment(&self, key: u64) -> (r: bool)
        ensures
            r == self.holds(key),
    {
        match self {
            Framebuffer::Simple(target) => target.has_attachment(key),
            Framebuffer::PingPong { first, second, .. } => first.has_attachment(key)
                || second.has_attachment(key),
        }
    }
}

/// Whether `key` is the key of an attachment of some render target.
pub open spec fn is_attachment(framebuffers: Seq<NamedFramebuffer>, key: u64) -> bool {
    exists|f: int|
        0 <= f < framebuffers.len() && (#[trigger] framebuffers[f]).framebuffer.holds(key)
}

pub fn is_attachment_key(framebuffers: &Vec<NamedFramebuffer>, key: u64) -> (r: bool)
    ensures
        r == is_attachment(framebuffers@, key),
{
    let mut f: usize = 0;
    while f < framebuffers.len()
        invariant
            f <= framebuffers.len(),
            forall|j: int| 0 <= j < f ==> !(#[trigger] framebuffers@[j]).framebuffer.holds(key),
        decreases framebuffers.len() - f,
    {
        if framebuffers[f].framebuffer.has_attachment(key) {
            return true;
        }
        f = f + 1;
    }
    false
}

/// Those of the first `n` rows of the resource table that belong to an
/// attachment of a render target, in their order.
pub open spec fn attachment_rows(
    entries: Seq<ResourceEntry>,
    framebuffers: Seq<NamedFramebuffer>,
    n: int,
) -> Seq<ResourceEntry>
    decreases n,
{
    if n <= 0 {
        Seq::empty()
    } else {
        let before = attachment_rows(entries, framebuffers, n - 1);
        if is_attachment(framebuffers, entries[n - 1].key) {
            before.push(entries[n - 1])
        } else {
            before
        }
    }
}

/// The instructions that delete a resource: its texture and its three pixel
/// transfer buffers.
pub open spec fn resource_deletions(resource: GLResource) -> Seq<GpuCommand> {
    seq![
        GpuCommand::DeleteTexture { texture: resource.texture },
        GpuCommand::DeleteBuffer { buffer: resource.pbos[0].pbo },
        GpuCommand::DeleteBuffer { buffer: resource.pbos[1].pbo },
        GpuCommand::DeleteBuffer { buffer: resource.pbos[2].pbo },
    ]
}

/// The instructions that delete every resource among the first `n` rows that
/// is no attachment of a render target.
pub open spec fn other_deletions(
    entries: Seq<ResourceEntry>,
    framebuffers: Seq<NamedFramebuffer>,
    n: int,
) -> Seq<GpuCommand>
    decreases n,
{
    if n <= 0 {
        Seq::empty()
    } else {
        let before = other_deletions(entries, framebuffers, n - 1);
        if is_attachment(framebuffers, entries[n - 1].key) {
            before
        } else {
            before + resource_deletions(entries[n - 1].resource)
        }
    }
}

/// Deletes every texture, with its pixel transfer buffers, that is no
/// attachment of a render target, and keeps in the resource table only the
/// attachments.
pub fn gpu_delete_non_buffer_resources(
    framebuffers: &Vec<NamedFramebuffer>,
    resources: &mut ResourceTable,
    commands: &mut Vec<GpuCommand>,
)
    ensures
        final(resources).entries@ == attachment_rows(
            old(resources).entries@,
            framebuffers@,
            old(resources).entries@.len() as int,
        ),
        final(commands)@ == old(commands)@ + other_deletions(
            old(resources).entries@,
            framebuffers@,
            old(resources).entries@.len() as int,
        ),
{
    let ghost before = commands@;
    let mut kept: Vec<ResourceEntry> = Vec::new();
    let mut i: usize = 0;
    while i < resources.entries.len()
        invariant
            i <= resources.entries@.len(),
            resources.entries@ == old(resources).entries@,
            kept@ == attachment_rows(resources.entries@, framebuffers@, i as int),
            commands@ == before + other_deletions(resources.entries@, framebuffers@, i as int),
        decreases resources.entries@.len() - i,
    {
        let entry = resources.entries[i];
        if is_attachment_key(framebuffers, entry.key) {
            kept.push(entry);
        } else {
            commands.push(GpuCommand::DeleteTexture { texture: entry.resource.texture });
            commands.push(GpuCommand::DeleteBuffer { buffer: entry.resource.pbos[0].pbo });
            commands.push(GpuCommand::DeleteBuffer { buffer: entry.resource.pbos[1].pbo });
            commands.push(GpuCommand::DeleteBuffer { buffer: entry.resource.pbos[2].pbo });
        }
        i = i + 1;
        assert(commands@ =~= before + other_deletions(
            resources.entries@,
            framebuffers@,
            i as int,
        ));
    }
    resources.entries = kept;
}

} // verus!
