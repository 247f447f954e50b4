use crate::command::GpuCommand;
use crate::config::{EffectConfig, PassConfig};
use crate::framebuffer::{Framebuffer, NamedFramebuffer};
use crate::gl::{TEXTURE_3D, TEXTURE_CUBE_MAP};
use crate::pipeline::{GLPass, GLPipeline, GLSampler};
use crate::table::{lookup, upsert, ResourceEntry, ResourceTable};
use vstd::prelude::*;

verus! {

/// The value of a staged uniform: one to four single precision bit patterns.
#[derive(Debug, Clone, Copy)]
pub enum UniformValue {
    Float(u32),
    Vec2([u32; 2]),
    Vec3([u32; 3]),
    Vec4([u32; 4]),
}

/// A uniform value that waits for the next frame.
#[derive(Debug)]
pub struct StagedUniform {
    pub name: String,
    pub value: UniformValue,
}

/// What drawing works on: the resource table, the render targets, and the
/// instructions written so far.
pub struct Drawing {
    pub entries: Seq<ResourceEntry>,
    pub framebuffers: Seq<NamedFramebuffer>,
    pub commands: Seq<GpuCommand>,
}

/// The instructions that clear the render target as a pass asks.
pub open spec fn clear_commands(pass: GLPass) -> Seq<GpuCommand> {
    let color = match pass.clear_color {
        Some(c) => seq![GpuCommand::ClearColor { red: c[0], green: c[1], blue: c[2], alpha: c[3] }],
        None => Seq::empty(),
    };
    let depth = match pass.clear_depth {
        Some(d) => seq![GpuCommand::ClearDepth { depth: d }],
        None => Seq::empty(),
    };
    let clear = if pass.clear_color is Some || pass.clear_depth is Some {
        seq![
            GpuCommand::Clear { color: pass.clear_color is Some, depth: pass.clear_depth is Some },
        ]
    } else {
        Seq::empty()
    };
    color + depth + clear
}

/// The instructions that open a draw of a pass into a render target: bind the
/// target, clear it, use the program, set the per-pass uniforms that the
/// program has.
pub open spec fn opening_commands(pass: GLPass, framebuffer: u32, width: u32, height: u32) -> Seq<
    GpuCommand,
> {
    let resolution = if pass.resolution_uniform_loc > -1 {
        seq![GpuCommand::SetResolution { location: pass.resolution_uniform_loc, width, height }]
    } else {
        Seq::empty()
    };
    let count = if pass.vertex_count_uniform_loc > -1 {
        seq![
            GpuCommand::SetVertexCount {
                location: pass.vertex_count_uniform_loc,
                count: pass.draw_count,
            },
        ]
    } else {
        Seq::empty()
    };
    seq![GpuCommand::BindFramebuffer { framebuffer, width, height }] + clear_commands(pass) + seq![
        GpuCommand::UseProgram { program: pass.program },
    ] + resolution + count
}

fn push_opening(
    pass: &GLPass,
    framebuffer: u32,
    width: u32,
    height: u32,
    commands: &mut Vec<GpuCommand>,
)
    ensures
        final(commands)@ == old(commands)@ + opening_commands(*pass, framebuffer, width, height),
{
    commands.push(GpuCommand::BindFramebuffer { framebuffer, width, height });
    if let Some(c) = pass.clear_color {
        commands.push(
            GpuCommand::ClearColor { red: c[0], green: c[1], blue: c[2], alpha: c[3] },
        );
    }
    if let Some(d) = pass.clear_depth {
        commands.push(GpuCommand::ClearDepth { depth: d });
    }
    if pass.clear_color.is_some() || pass.clear_depth.is_some() {
        commands.push(
            GpuCommand::Clear {
                color: pass.clear_color.is_some(),
                depth: pass.clear_depth.is_some(),
            },
        );
    }
    commands.push(GpuCommand::UseProgram { program: pass.program });
    if pass.resolution_uniform_loc > -1 {
        commands.push(
            GpuCommand::SetResolution { location: pass.resolution_uniform_loc, width, height },
        );
    }
    if pass.vertex_count_uniform_loc > -1 {
        commands.push(
            GpuCommand::SetVertexCount {
                location: pass.vertex_count_uniform_loc,
                count: pass.draw_count,
            },
        );
    }
    assert(commands@ =~= old(commands)@ + opening_commands(*pass, framebuffer, width, height));
}

/// The instruction that sets a staged uniform of a program; `name` is the
/// position of the uniform's name among the names.
pub open spec fn uniform_command(program: u32, name: usize, value: UniformValue) -> GpuCommand {
    match value {
        UniformValue::Float(x) => GpuCommand::SetUniform1 { program, name, x },
        UniformValue::Vec2(v) => GpuCommand::SetUniform2 { program, name, x: v[0], y: v[1] },
        UniformValue::Vec3(v) => GpuCommand::SetUniform3 {
            program,
            name,
            x: v[0],
            y: v[1],
            z: v[2],
        },
        UniformValue::Vec4(v) => GpuCommand::SetUniform4 {
            program,
            name,
            x: v[0],
            y: v[1],
            z: v[2],
            w: v[3],
        },
    }
}

/// The instructions that set the first `n` staged uniforms of a program, the
/// name of uniform `i` being name `first_name + i`.
pub open spec fn uniform_commands(
    program: u32,
    uniforms: Seq<StagedUniform>,
    first_name: int,
    n: int,
) -> Seq<GpuCommand>
    decreases n,
{
    if n <= 0 {
        Seq::empty()
    } else {
        uniform_commands(program, uniforms, first_name, n - 1).push(
            uniform_command(program, (first_name + n - 1) as usize, uniforms[n - 1].value),
        )
    }
}

fn push_uniforms(
    program: u32,
    uniforms: &Vec<StagedUniform>,
    first_name: usize,
    commands: &mut Vec<GpuCommand>,
)
    requires
        first_name + uniforms@.len() <= usize::MAX,
    ensures
        final(commands)@ == old(commands)@ + uniform_commands(
            program,
            uniforms@,
            first_name as int,
            uniforms@.len() as int,
        ),
{
    let mut i: usize = 0;
    while i < uniforms.len()
        invariant
            i <= uniforms.len(),
            first_name + uniforms@.len() <= usize::MAX,
            commands@ == old(commands)@ + uniform_commands(
                program,
                uniforms@,
                first_name as int,
                i as int,
            ),
        decreases uniforms.len() - i,
    {
        let name = first_name + i;
        let command = match uniforms[i].value {
            UniformValue::Float(x) => GpuCommand::SetUniform1 { program, name, x },
            UniformValue::Vec2(v) => GpuCommand::SetUniform2 { program, name, x: v[0], y: v[1] },
            UniformValue::Vec3(v) => GpuCommand::SetUniform3 {
                program,
                name,
                x: v[0],
                y: v[1],
                z: v[2],
            },
            UniformValue::Vec4(v) => GpuCommand::SetUniform4 {
                program,
                name,
                x: v[0],
                y: v[1],
                z: v[2],
                w: v[3],
            },
        };
        commands.push(command);
        i = i + 1;
        assert(commands@ =~= old(commands)@ + uniform_commands(
            program,
            uniforms@,
            first_name as int,
            i as int,
        ));
    }
}

/// Whether a sampler is bound for a draw: the program has its uniform, and
/// the resource table knows its resource.
pub open spec fn is_bound(sampler: GLSampler, entries: Seq<ResourceEntry>) -> bool {
    sampler.uniform_loc >= 0 && lookup(entries, sampler.resource) is Some
}

/// The instructions that bind the sampler of texture unit `unit`, if it is
/// bound at all: the binding itself, then the sampler's resolution and
/// playback time where the program has these uniforms.
pub open spec fn binding_commands(sampler: GLSampler, unit: usize, entries: Seq<ResourceEntry>) -> Seq<
    GpuCommand,
> {
    if is_bound(sampler, entries) {
        let resource = lookup(entries, sampler.resource)->0;
        let resolution = if sampler.resolution_uniform_loc > -1 {
            seq![
                GpuCommand::SetSamplerResolution {
                    location: sampler.resolution_uniform_loc,
                    target: resource.target,
                    width: resource.resolution[0],
                    height: resource.resolution[1],
                    depth: resource.resolution[2],
                },
            ]
        } else {
            Seq::empty()
        };
        let time = if sampler.playback_time_uniform_loc > -1 {
            seq![
                GpuCommand::SetSamplerTime {
                    location: sampler.playback_time_uniform_loc,
                    time: resource.time,
                },
            ]
        } else {
            Seq::empty()
        };
        seq![
            GpuCommand::BindSampler {
                unit,
                target: resource.target,
                texture: resource.texture,
                wrap_s: sampler.wrap_s,
                wrap_t: sampler.wrap_t,
                wrap_r: sampler.wrap_r,
                wrap_depth: resource.target == TEXTURE_3D || resource.target == TEXTURE_CUBE_MAP,
                min_filter: sampler.min_filter,
                mag_filter: sampler.mag_filter,
                location: sampler.uniform_loc,
            },
        ] + resolution + time
    } else {
        Seq::empty()
    }
}

/// The instructions that bind the first `n` samplers of a pass, sampler `i`
/// on texture unit `i`.
pub open spec fn sampler_commands(samplers: Seq<GLSampler>, entries: Seq<ResourceEntry>, n: int) -> Seq<
    GpuCommand,
>
    decreases n,
{
    if n <= 0 {
        Seq::empty()
    } else {
        sampler_commands(samplers, entries, n - 1) + binding_commands(
            samplers[n - 1],
            (n - 1) as usize,
            entries,
        )
    }
}

fn push_samplers(samplers: &Vec<GLSampler>, resources: &ResourceTable, commands: &mut Vec<GpuCommand>)
    ensures
        final(commands)@ == old(commands)@ + sampler_commands(
            samplers@,
            resources.entries@,
            samplers@.len() as int,
        ),
{
    let mut i: usize = 0;
    while i < samplers.len()
        invariant
            i <= samplers.len(),
            commands@ == old(commands)@ + sampler_commands(
                samplers@,
                resources.entries@,
                i as int,
            ),
        decreases samplers.len() - i,
    {
        let sampler = samplers[i];
        if sampler.uniform_loc >= 0 {
            if let Some(resource) = resources.get(sampler.resource) {
                commands.push(
                    GpuCommand::BindSampler {
                        unit: i,
                        target: resource.target,
                        texture: resource.texture,
                        wrap_s: sampler.wrap_s,
                        wrap_t: sampler.wrap_t,
                        wrap_r: sampler.wrap_r,
                        wrap_depth: resource.target == TEXTURE_3D || resource.target
                            == TEXTURE_CUBE_MAP,
                        min_filter: sampler.min_filter,
                        mag_filter: sampler.mag_filter,
                        location: sampler.uniform_loc,
                    },
                );
                if sampler.resolution_uniform_loc > -1 {
                    commands.push(
                        GpuCommand::SetSamplerResolution {
                            location: sampler.resolution_uniform_loc,
                            target: resource.target,
                            width: resource.resolution[0],
                            height: resource.resolution[1],
                            depth: resource.resolution[2],
                        },
                    );
                }
                if sampler.playback_time_uniform_loc > -1 {
                    commands.push(
                        GpuCommand::SetSamplerTime {
                            location: sampler.playback_time_uniform_loc,
                            time: resource.time,
                        },
                    );
                }
            }
        }
        i = i + 1;
        assert(commands@ =~= old(commands)@ + sampler_commands(
            samplers@,
            resources.entries@,
            i as int,
        ));
    }
}

/// The instructions that set the render state of a pass and draw it.
pub open spec fn drawing_commands(pass: GLPass) -> Seq<GpuCommand> {
    seq![
        match pass.blend {
            Some((src_rgb, dst_rgb, src_alpha, dst_alpha)) => GpuCommand::Blend {
                src_rgb,
                dst_rgb,
                src_alpha,
                dst_alpha,
            },
            None => GpuCommand::NoBlend,
        },
        match pass.depth {
            Some(func) => GpuCommand::DepthTest { func },
            None => GpuCommand::NoDepthTest,
        },
        GpuCommand::DepthMask { write: pass.depth_write },
        GpuCommand::DrawArrays { mode: pass.draw_mode, count: pass.draw_count },
    ]
}

fn push_drawing(pass: &GLPass, commands: &mut Vec<GpuCommand>)
    ensures
        final(commands)@ == old(commands)@ + drawing_commands(*pass),
{
    commands.push(
        match pass.blend {
            Some((src_rgb, dst_rgb, src_alpha, dst_alpha)) => GpuCommand::Blend {
                src_rgb,
                dst_rgb,
                src_alpha,
                dst_alpha,
            },
            None => GpuCommand::NoBlend,
        },
    );
    commands.push(
        match pass.depth {
            Some(func) => GpuCommand::DepthTest { func },
            None => GpuCommand::NoDepthTest,
        },
    );
    commands.push(GpuCommand::DepthMask { write: pass.depth_write });
    commands.push(GpuCommand::DrawArrays { mode: pass.draw_mode, count: pass.draw_count });
    assert(commands@ =~= old(commands)@ + drawing_commands(*pass));
}

/// The instructions that take the first `n` samplers of a pass off their
/// texture units again.
pub open spec fn release_commands(samplers: Seq<GLSampler>, entries: Seq<ResourceEntry>, n: int) -> Seq<
    GpuCommand,
>
    decreases n,
{
    if n <= 0 {
        Seq::empty()
    } else {
        let before = release_commands(samplers, entries, n - 1);
        if is_bound(samplers[n - 1], entries) {
            before.push(
                GpuCommand::UnbindSampler {
                    unit: (n - 1) as usize,
                    target: lookup(entries, samplers[n - 1].resource)->0.target,
                },
            )
        } else {
            before
        }
    }
}

fn push_release(samplers: &Vec<GLSampler>, resources: &ResourceTable, commands: &mut Vec<GpuCommand>)
    ensures
        final(commands)@ == old(commands)@ + release_commands(
            samplers@,
            resources.entries@,
            samplers@.len() as int,
        ),
{
    let mut i: usize = 0;
    while i < samplers.len()
        invariant
            i <= samplers.len(),
            commands@ == old(commands)@ + release_commands(
                samplers@,
                resources.entries@,
                i as int,
            ),
        decreases samplers.len() - i,
    {
        let sampler = samplers[i];
        if sampler.uniform_loc >= 0 {
            if let Some(resource) = resources.get(sampler.resource) {
                commands.push(GpuCommand::UnbindSampler { unit: i, target: resource.target });
            }
        }
        i = i + 1;
    }
}

/// The resource table after the resources of the first `n` pairs of keys have
/// changed places. A pair of which one key is unknown stays as it is.
pub open spec fn exchanged(
    entries: Seq<ResourceEntry>,
    writes: Seq<u64>,
    reads: Seq<u64>,
    n: int,
) -> Seq<ResourceEntry>
    decreases n,
{
    if n <= 0 {
        entries
    } else {
        let before = exchanged(entries, writes, reads, n - 1);
        match (lookup(before, writes[n - 1]), lookup(before, reads[n - 1])) {
            (Some(written), Some(read)) => upsert(
                upsert(before, writes[n - 1], read),
                reads[n - 1],
                written,
            ),
            _ => before,
        }
    }
}

/// The number of attachment pairs of a render target pair.
pub open spec fn pair_count(writes: Seq<u64>, reads: Seq<u64>) -> int {
    if writes.len() <= reads.len() {
        writes.len() as int
    } else {
        reads.len() as int
    }
}

/// Lets the colour attachments of the written and the read target of a pair
/// change places in the resource table: what a sampler finds under a key of
/// the read target is from now on what was just drawn.
pub fn exchange_attachments(resources: &mut ResourceTable, writes: &Vec<u64>, reads: &Vec<u64>)
    ensures
        final(resources).entries@ == exchanged(
            old(resources).entries@,
            writes@,
            reads@,
            pair_count(writes@, reads@),
        ),
{
    let mut i: usize = 0;
    while i < writes.len() && i < reads.len()
        invariant
            i <= writes.len(),
            i <= reads.len(),
            resources.entries@ == exchanged(old(resources).entries@, writes@, reads@, i as int),
        decreases writes.len() - i,
    {
        let written = resources.get(writes[i]);
        let read = resources.get(reads[i]);
        if let Some(w) = written {
            if let Some(r) = read {
                resources.insert(writes[i], r);
                resources.insert(reads[i], w);
            }
        }
        i = i + 1;
    }
}


/// Render target `i` is the first with the name `name`.
pub open spec fn first_framebuffer(framebuffers: Seq<NamedFramebuffer>, name: Seq<char>, i: int) -> bool {
    &&& 0 <= i < framebuffers.len()
    &&& framebuffers[i].name@ == name
    &&& forall|j: int| 0 <= j < i ==> (#[trigger] framebuffers[j]).name@ != name
}

/// The position of the render target that a pass draws into; none for a pass
/// that names no buffer or a buffer for which no target exists: such a pass
/// draws onto the output surface.
pub open spec fn target_position(framebuffers: Seq<NamedFramebuffer>, buffer: Option<String>) -> Option<
    int,
> {
    match buffer {
        Some(name) => if exists|i: int| first_framebuffer(framebuffers, name@, i) {
            Some(choose|i: int| first_framebuffer(framebuffers, name@, i))
        } else {
            None
        },
        None => None,
    }
}

/// Finds the render target that a pass draws into.
pub fn framebuffer_for_pass(framebuffers: &Vec<NamedFramebuffer>, buffer: &Option<String>) -> (found:
    Option<usize>)
    ensures
        match found {
            Some(i) => target_position(framebuffers@, *buffer) == Some(i as int) && i
                < framebuffers@.len(),
            None => target_position(framebuffers@, *buffer) is None,
        },
{
    match buffer {
        Some(name) => {
            let found = crate::framebuffer::find_framebuffer(framebuffers, name);
            proof {
                match found {
                    Some(i) => {
                        assert(first_framebuffer(framebuffers@, name@, i as int));
                        let k = choose|k: int| first_framebuffer(framebuffers@, name@, k);
                        assert(k == i);
                    },
                    None => {},
                }
            }
            found
        },
        None => None,
    }
}

/// One draw of a pass.
///
/// The pass draws into the write target of its buffer, or onto the output
/// surface of the given size. If the buffer is a pair, the two targets then
/// change roles and their colour attachments change places in the resource
/// table, so that whoever samples the buffer next sees what was just drawn.
pub open spec fn draw_once(
    d: Drawing,
    pass: GLPass,
    buffer: Option<String>,
    window_width: u32,
    window_height: u32,
    uniforms: Seq<StagedUniform>,
    first_name: int,
) -> Drawing {
    let at = target_position(d.framebuffers, buffer);
    let drawn = d.commands + (match at {
        Some(f) => {
            let target = d.framebuffers[f].framebuffer.write_target();
            opening_commands(pass, target.framebuffer, target.width, target.height)
        },
        None => opening_commands(pass, 0, window_width, window_height),
    }) + uniform_commands(pass.program, uniforms, first_name, uniforms.len() as int)
        + sampler_commands(pass.samplers@, d.entries, pass.samplers@.len() as int)
        + drawing_commands(pass);
    let swaps = at is Some && d.framebuffers[at->0].framebuffer.swaps();
    let entries = if swaps {
        let framebuffer = d.framebuffers[at->0].framebuffer;
        let writes = framebuffer.write_target().color_attachments@;
        let reads = framebuffer.read_target().color_attachments@;
        exchanged(d.entries, writes, reads, pair_count(writes, reads))
    } else {
        d.entries
    };
    let framebuffers = if swaps {
        d.framebuffers.update(
            at->0,
            NamedFramebuffer {
                name: d.framebuffers[at->0].name,
                framebuffer: d.framebuffers[at->0].framebuffer.swapped(),
            },
        )
    } else {
        d.framebuffers
    };
    Drawing {
        entries,
        framebuffers,
        commands: drawn.push(GpuCommand::UseProgram { program: 0 }) + release_commands(
            pass.samplers@,
            entries,
            pass.samplers@.len() as int,
        ),
    }
}

/// The first `n` draws of a pass, one after the other.
pub open spec fn draw_repeated(
    d: Drawing,
    pass: GLPass,
    buffer: Option<String>,
    window_width: u32,
    window_height: u32,
    uniforms: Seq<StagedUniform>,
    first_name: int,
    n: int,
) -> Drawing
    decreases n,
{
    if n <= 0 {
        d
    } else {
        draw_once(
            draw_repeated(d, pass, buffer, window_width, window_height, uniforms, first_name, n - 1),
            pass,
            buffer,
            window_width,
            window_height,
            uniforms,
            first_name,
        )
    }
}

/// The draws of the first `n` compiled passes, in pass order. A pass is
/// drawn as often as its configuration says, and not at all if it is
/// disabled or has no configuration.
pub open spec fn draw_passes(
    d: Drawing,
    passes: Seq<GLPass>,
    configured: Seq<PassConfig>,
    window_width: u32,
    window_height: u32,
    uniforms: Seq<StagedUniform>,
    first_name: int,
    n: int,
) -> Drawing
    decreases n,
{
    if n <= 0 {
        d
    } else {
        let before = draw_passes(
            d,
            passes,
            configured,
            window_width,
            window_height,
            uniforms,
            first_name,
            n - 1,
        );
        if n - 1 < configured.len() && !configured[n - 1].disable {
            draw_repeated(
                before,
                passes[n - 1],
                configured[n - 1].buffer,
                window_width,
                window_height,
                uniforms,
                first_name,
                configured[n - 1].loop_count as int,
            )
        } else {
            before
        }
    }
}

/// What drawing works on, as the renderer holds it.
pub open spec fn drawing_of(
    resources: ResourceTable,
    framebuffers: Vec<NamedFramebuffer>,
    commands: Vec<GpuCommand>,
) -> Drawing {
    Drawing { entries: resources.entries@, framebuffers: framebuffers@, commands: commands@ }
}

fn draw_pass_once(
    pass: &GLPass,
    buffer: &Option<String>,
    window_width: u32,
    window_height: u32,
    uniforms: &Vec<StagedUniform>,
    first_name: usize,
    resources: &mut ResourceTable,
    framebuffers: &mut Vec<NamedFramebuffer>,
    commands: &mut Vec<GpuCommand>,
)
    requires
        first_name + uniforms@.len() <= usize::MAX,
    ensures
        drawing_of(*final(resources), *final(framebuffers), *final(commands)) == draw_once(
            drawing_of(*old(resources), *old(framebuffers), *old(commands)),
            *pass,
            *buffer,
            window_width,
            window_height,
            uniforms@,
            first_name as int,
        ),
{
    let ghost start = drawing_of(*resources, *framebuffers, *commands);
    let at = framebuffer_for_pass(framebuffers, buffer);
    match at {
        Some(f) => {
            let target = framebuffers[f].framebuffer.write_buffer();
            push_opening(pass, target.framebuffer, target.width, target.height, commands);
        },
        None => {
            push_opening(pass, 0, window_width, window_height, commands);
        },
    }
    push_uniforms(pass.program, uniforms, first_name, commands);
    push_samplers(&pass.samplers, resources, commands);
    push_drawing(pass, commands);
    if let Some(f) = at {
        if framebuffers[f].framebuffer.does_swap() {
            exchange_attachments(
                resources,
                &framebuffers[f].framebuffer.write_buffer().color_attachments,
                &framebuffers[f].framebuffer.read_buffer().color_attachments,
            );
            let mut named = framebuffers.remove(f);
            named.framebuffer.swap_read_write();
            framebuffers.insert(f, named);
            assert(framebuffers@ =~= start.framebuffers.update(
                f as int,
                NamedFramebuffer {
                    name: start.framebuffers[f as int].name,
                    framebuffer: start.framebuffers[f as int].framebuffer.swapped(),
                },
            ));
        }
    }
    commands.push(GpuCommand::UseProgram { program: 0 });
    push_release(&pass.samplers, resources, commands);
    proof {
        let goal = draw_once(
            start,
            *pass,
            *buffer,
            window_width,
            window_height,
            uniforms@,
            first_name as int,
        );
        assert(resources.entries@ == goal.entries);
        assert(framebuffers@ == goal.framebuffers);
        assert(commands@ =~= goal.commands);
    }
}

/// Draws every enabled pass, in pass order, as often as its configuration
/// says.
pub fn gpu_draw(
    config: &EffectConfig,
    pipeline: &GLPipeline,
    window_width: u32,
    window_height: u32,
    uniforms: &Vec<StagedUniform>,
    first_name: usize,
    resources: &mut ResourceTable,
    framebuffers: &mut Vec<NamedFramebuffer>,
    commands: &mut Vec<GpuCommand>,
)
    requires
        first_name + uniforms@.len() <= usize::MAX,
    ensures
        drawing_of(*final(resources), *final(framebuffers), *final(commands)) == draw_passes(
            Drawing {
                entries: old(resources).entries@,
                framebuffers: old(framebuffers)@,
                commands: old(commands)@.push(
                    GpuCommand::BindVertexArray { vertex_array: pipeline.vertex_array_object },
                ),
            },
            pipeline.passes@,
            config.pass_list(),
            window_width,
            window_height,
            uniforms@,
            first_name as int,
            pipeline.passes@.len() as int,
        ),
{
    commands.push(GpuCommand::BindVertexArray { vertex_array: pipeline.vertex_array_object });
    let ghost start = drawing_of(*resources, *framebuffers, *commands);
    let configured = config.passes();
    let mut p: usize = 0;
    while p < pipeline.passes.len()
        invariant
            p <= pipeline.passes@.len(),
            configured@ == config.pass_list(),
            first_name + uniforms@.len() <= usize::MAX,
            drawing_of(*resources, *framebuffers, *commands) == draw_passes(
                start,
                pipeline.passes@,
                configured@,
                window_width,
                window_height,
                uniforms@,
                first_name as int,
                p as int,
            ),
        decreases pipeline.passes@.len() - p,
    {
        if p < configured.len() && !configured[p].disable {
            let pass = &pipeline.passes[p];
            let buffer = &configured[p].buffer;
            let ghost before = drawing_of(*resources, *framebuffers, *commands);
            let count = configured[p].loop_count;
            let mut k: u32 = 0;
            while k < count
                invariant
                    k <= count,
                    first_name + uniforms@.len() <= usize::MAX,
                    drawing_of(*resources, *framebuffers, *commands) == draw_repeated(
                        before,
                        *pass,
                        *buffer,
                        window_width,
                        window_height,
                        uniforms@,
                        first_name as int,
                        k as int,
                    ),
                decreases count - k,
            {
                draw_pass_once(
                    pass,
                    buffer,
                    window_width,
                    window_height,
                    uniforms,
                    first_name,
                    resources,
                    framebuffers,
                    commands,
                );
                k = k + 1;
            }
        }
        p = p + 1;
    }
}


/// The first `n` keys of `writes` and the first `n` keys of `reads` are all
/// different from one another.
pub open spec fn pairs_distinct(writes: Seq<u64>, reads: Seq<u64>, n: int) -> bool {
    &&& forall|a: int, b: int| 0 <= a < n && 0 <= b < n ==> writes[a] != reads[b]
    &&& forall|a: int, b: int| 0 <= a < b < n ==> writes[a] != writes[b]
    &&& forall|a: int, b: int| 0 <= a < b < n ==> reads[a] != reads[b]
}

/// When the resources of pairs of keys change places, every key of a pair
/// leads to what its partner led to, and every other key leads to what it
/// led to before.
pub proof fn lemma_exchanged(entries: Seq<ResourceEntry>, writes: Seq<u64>, reads: Seq<u64>, n: int)
    requires
        0 <= n <= writes.len(),
        n <= reads.len(),
        pairs_distinct(writes, reads, n),
        forall|a: int| 0 <= a < n ==> lookup(entries, #[trigger] writes[a]) is Some,
        forall|a: int| 0 <= a < n ==> lookup(entries, #[trigger] reads[a]) is Some,
    ensures
        forall|a: int|
            0 <= a < n ==> lookup(exchanged(entries, writes, reads, n), #[trigger] reads[a])
                == lookup(entries, writes[a]),
        forall|a: int|
            0 <= a < n ==> lookup(exchanged(entries, writes, reads, n), #[trigger] writes[a])
                == lookup(entries, reads[a]),
        forall|key: u64|
            (forall|a: int| 0 <= a < n ==> writes[a] != key && reads[a] != key) ==> #[trigger] lookup(
                exchanged(entries, writes, reads, n),
                key,
            ) == lookup(entries, key),
    decreases n,
{
    if n > 0 {
        lemma_exchanged(entries, writes, reads, n - 1);
        let before = exchanged(entries, writes, reads, n - 1);
        let after = exchanged(entries, writes, reads, n);
        let w = writes[n - 1];
        let r = reads[n - 1];
        assert(lookup(before, w) == lookup(entries, w));
        assert(lookup(before, r) == lookup(entries, r));
        let written = lookup(before, w)->0;
        let read = lookup(before, r)->0;
        let middle = upsert(before, w, read);
        assert(after == upsert(middle, r, written));
        crate::table::lemma_upsert_same(middle, r, written);
        crate::table::lemma_upsert_other(middle, r, written, w);
        crate::table::lemma_upsert_same(before, w, read);
        assert forall|key: u64| key != w && key != r implies lookup(after, key) == lookup(
            before,
            key,
        ) by {
            crate::table::lemma_upsert_other(middle, r, written, key);
            crate::table::lemma_upsert_other(before, w, read, key);
        }
        assert forall|a: int| 0 <= a < n implies lookup(after, #[trigger] reads[a]) == lookup(
            entries,
            writes[a],
        ) by {
            if a < n - 1 {
                assert(reads[a] != w && reads[a] != r);
            }
        }
        assert forall|a: int| 0 <= a < n implies lookup(after, #[trigger] writes[a]) == lookup(
            entries,
            reads[a],
        ) by {
            if a < n - 1 {
                assert(writes[a] != w && writes[a] != r);
            }
        }
        assert forall|key: u64|
            (forall|a: int| 0 <= a < n ==> writes[a] != key && reads[a] != key) implies #[trigger] lookup(
            after,
            key,
        ) == lookup(entries, key) by {
            assert(writes[n - 1] != key && reads[n - 1] != key);
            assert(forall|a: int| 0 <= a < n - 1 ==> writes[a] != key && reads[a] != key);
        }
    }
}

/// The resource table and the render targets of a buffer agree. For a single
/// target: under the keys of its colour attachments stand its textures. For
/// a pair: under the keys of the first target stand the textures of the
/// target that is read, under the keys of the second the textures of the
/// target that is drawn into, and no key stands for two attachments.
///
/// The keys of the first target are those of the buffer's own name and
/// attachment indices, so this says that whoever samples the buffer reads the
/// target that is not being drawn into.
pub open spec fn coherent(entries: Seq<ResourceEntry>, framebuffer: Framebuffer) -> bool {
    match framebuffer {
        Framebuffer::Simple(target) => {
            &&& target.color_textures@.len() == target.color_attachments@.len()
            &&& forall|i: int|
                0 <= i < target.color_attachments@.len() ==> (lookup(
                    entries,
                    #[trigger] target.color_attachments@[i],
                ) matches Some(resource) && resource.texture == target.color_textures@[i])
        },
        Framebuffer::PingPong { first, second, current } => {
            let n = first.color_attachments@.len() as int;
            &&& current <= 1
            &&& second.color_attachments@.len() == n
            &&& first.color_textures@.len() == n
            &&& second.color_textures@.len() == n
            &&& pairs_distinct(first.color_attachments@, second.color_attachments@, n)
            &&& forall|i: int|
                0 <= i < n ==> (lookup(entries, #[trigger] first.color_attachments@[i])
                    matches Some(resource) && resource.texture
                    == framebuffer.read_target().color_textures@[i])
            &&& forall|i: int|
                0 <= i < n ==> (lookup(entries, #[trigger] second.color_attachments@[i])
                    matches Some(resource) && resource.texture
                    == framebuffer.write_target().color_textures@[i])
        },
    }
}

/// Feedback persists: what a pass draws into a pair of render targets is what
/// is read from the pair afterwards, and nothing else.
///
/// A draw into a pair goes into the target that is not read. After the draw
/// the two targets have changed roles, so the target that was drawn into
/// is now the one that is read, and the one that was read will be drawn into
/// next; under the buffer's own keys stand the textures that were just drawn;
/// and the table and the pair agree again, so that the same holds of the next
/// draw.
pub proof fn law_feedback_persistence(
    d: Drawing,
    pass: GLPass,
    buffer: Option<String>,
    window_width: u32,
    window_height: u32,
    uniforms: Seq<StagedUniform>,
    first_name: int,
    f: int,
)
    requires
        target_position(d.framebuffers, buffer) == Some(f),
        0 <= f < d.framebuffers.len(),
        d.framebuffers[f].framebuffer is PingPong,
        coherent(d.entries, d.framebuffers[f].framebuffer),
    ensures
        ({
            let before = d.framebuffers[f].framebuffer;
            let drawn = draw_once(
                d,
                pass,
                buffer,
                window_width,
                window_height,
                uniforms,
                first_name,
            );
            let after = drawn.framebuffers[f].framebuffer;
            let keys = before->PingPong_first.color_attachments@;
            &&& drawn.commands[d.commands.len() as int] == GpuCommand::BindFramebuffer {
                framebuffer: before.write_target().framebuffer,
                width: before.write_target().width,
                height: before.write_target().height,
            }
            &&& after.read_target() == before.write_target()
            &&& after.write_target() == before.read_target()
            &&& forall|i: int|
                0 <= i < keys.len() ==> (lookup(drawn.entries, #[trigger] keys[i])
                    matches Some(resource) && resource.texture
                    == before.write_target().color_textures@[i])
            &&& coherent(drawn.entries, after)
        }),
{
    let before = d.framebuffers[f].framebuffer;
    let drawn = draw_once(d, pass, buffer, window_width, window_height, uniforms, first_name);
    let after = drawn.framebuffers[f].framebuffer;
    let first = before->PingPong_first;
    let second = before->PingPong_second;
    let n = first.color_attachments@.len() as int;
    let writes = before.write_target().color_attachments@;
    let reads = before.read_target().color_attachments@;
    assert(pairs_distinct(writes, reads, n));
    assert(pair_count(writes, reads) == n);
    assert forall|a: int| 0 <= a < n implies lookup(d.entries, #[trigger] writes[a]) is Some by {
        assert(lookup(d.entries, first.color_attachments@[a]) is Some);
        assert(lookup(d.entries, second.color_attachments@[a]) is Some);
    }
    assert forall|a: int| 0 <= a < n implies lookup(d.entries, #[trigger] reads[a]) is Some by {
        assert(lookup(d.entries, first.color_attachments@[a]) is Some);
        assert(lookup(d.entries, second.color_attachments@[a]) is Some);
    }
    lemma_exchanged(d.entries, writes, reads, n);
    assert(drawn.entries == exchanged(d.entries, writes, reads, n));
    assert(after == before.swapped());
    let opening = opening_commands(
        pass,
        before.write_target().framebuffer,
        before.write_target().width,
        before.write_target().height,
    );
    assert(opening[0] == GpuCommand::BindFramebuffer {
        framebuffer: before.write_target().framebuffer,
        width: before.write_target().width,
        height: before.write_target().height,
    });
    assert forall|i: int| 0 <= i < n implies (lookup(
        drawn.entries,
        #[trigger] first.color_attachments@[i],
    ) matches Some(resource) && resource.texture == before.write_target().color_textures@[i]) by {
        assert(lookup(d.entries, second.color_attachments@[i]) is Some);
        assert(lookup(d.entries, first.color_attachments@[i]) is Some);
        assert(writes[i] == writes[i] && reads[i] == reads[i]);
    }
    assert forall|i: int| 0 <= i < n implies (lookup(
        drawn.entries,
        #[trigger] second.color_attachments@[i],
    ) matches Some(resource) && resource.texture == after.write_target().color_textures@[i]) by {
        assert(lookup(d.entries, second.color_attachments@[i]) is Some);
        assert(lookup(d.entries, first.color_attachments@[i]) is Some);
        assert(writes[i] == writes[i] && reads[i] == reads[i]);
    }
}

/// Whether the instructions from place `from` up to place `to` hold one that
/// binds the texture `texture` to the texture unit `unit`, for the sampler
/// uniform at `location`.
pub open spec fn binds(
    commands: Seq<GpuCommand>,
    from: int,
    to: int,
    unit: usize,
    location: i32,
    texture: u32,
) -> bool {
    exists|k: int|
        from <= k < to && is_binding_of(#[trigger] commands[k], unit, location, texture)
}

/// An instruction that binds the texture `texture` to the texture unit
/// `unit`, for the sampler uniform at `location`.
pub open spec fn is_binding_of(command: GpuCommand, unit: usize, location: i32, texture: u32) -> bool {
    command matches GpuCommand::BindSampler { unit: u, texture: t, location: l, .. } && u == unit
        && t == texture && l == location
}

proof fn lemma_sampler_place(samplers: Seq<GLSampler>, entries: Seq<ResourceEntry>, n: int, c: int)
    requires
        0 <= c < n,
        is_bound(samplers[c], entries),
    ensures
        sampler_commands(samplers, entries, c).len() < sampler_commands(samplers, entries, n).len(),
        sampler_commands(samplers, entries, n)[sampler_commands(samplers, entries, c).len() as int]
            == binding_commands(samplers[c], c as usize, entries)[0],
    decreases n,
{
    if n > c + 1 {
        lemma_sampler_place(samplers, entries, n - 1, c);
    }
}

/// A draw binds every sampler of its pass that is bound at all to the
/// texture that the resource table holds for the sampler's resource when the
/// draw begins, on the texture unit of the sampler's place.
pub proof fn law_draw_binds_from_the_table(
    d: Drawing,
    pass: GLPass,
    buffer: Option<String>,
    window_width: u32,
    window_height: u32,
    uniforms: Seq<StagedUniform>,
    first_name: int,
    c: int,
)
    requires
        0 <= c < pass.samplers@.len(),
        is_bound(pass.samplers@[c], d.entries),
    ensures
        ({
            let drawn = draw_once(
                d,
                pass,
                buffer,
                window_width,
                window_height,
                uniforms,
                first_name,
            );
            &&& d.commands.len() <= drawn.commands.len()
            &&& binds(
                drawn.commands,
                d.commands.len() as int,
                drawn.commands.len() as int,
                c as usize,
                pass.samplers@[c].uniform_loc,
                lookup(d.entries, pass.samplers@[c].resource)->0.texture,
            )
        }),
{
    let drawn = draw_once(d, pass, buffer, window_width, window_height, uniforms, first_name);
    let at = target_position(d.framebuffers, buffer);
    let opening = match at {
        Some(f) => {
            let target = d.framebuffers[f].framebuffer.write_target();
            opening_commands(pass, target.framebuffer, target.width, target.height)
        },
        None => opening_commands(pass, 0, window_width, window_height),
    };
    let set = uniform_commands(pass.program, uniforms, first_name, uniforms.len() as int);
    let bound = sampler_commands(pass.samplers@, d.entries, pass.samplers@.len() as int);
    let place = sampler_commands(pass.samplers@, d.entries, c).len() as int;
    lemma_sampler_place(pass.samplers@, d.entries, pass.samplers@.len() as int, c);
    let k = d.commands.len() + opening.len() + set.len() + place;
    let before = d.commands + opening + set + bound;
    assert(before[k] == bound[place]);
    assert(drawn.commands[k] == before[k]);
    assert(is_binding_of(
        drawn.commands[k],
        c as usize,
        pass.samplers@[c].uniform_loc,
        lookup(d.entries, pass.samplers@[c].resource)->0.texture,
    ));
}

/// An instruction that sets state for a draw: it makes no object on the
/// device, deletes none, fills none and draws nothing.
pub open spec fn sets_state(command: GpuCommand) -> bool {
    ||| command is BindFramebuffer
    ||| command is ClearColor
    ||| command is ClearDepth
    ||| command is Clear
    ||| command is UseProgram
    ||| command is SetResolution
    ||| command is SetVertexCount
    ||| command is SetUniform1
    ||| command is SetUniform2
    ||| command is SetUniform3
    ||| command is SetUniform4
    ||| command is BindSampler
    ||| command is SetSamplerResolution
    ||| command is SetSamplerTime
    ||| command is Blend
    ||| command is NoBlend
    ||| command is DepthTest
    ||| command is NoDepthTest
    ||| command is DepthMask
    ||| command is UnbindSampler
}

/// Every instruction of a list sets state for a draw.
pub open spec fn all_set_state(commands: Seq<GpuCommand>) -> bool {
    forall|i: int| 0 <= i < commands.len() ==> sets_state(#[trigger] commands[i])
}

proof fn lemma_uniform_commands_set_state(
    program: u32,
    uniforms: Seq<StagedUniform>,
    first_name: int,
    n: int,
)
    ensures
        all_set_state(uniform_commands(program, uniforms, first_name, n)),
    decreases n,
{
    if n > 0 {
        lemma_uniform_commands_set_state(program, uniforms, first_name, n - 1);
    }
}

proof fn lemma_sampler_commands_set_state(
    samplers: Seq<GLSampler>,
    entries: Seq<ResourceEntry>,
    n: int,
)
    ensures
        all_set_state(sampler_commands(samplers, entries, n)),
    decreases n,
{
    if n > 0 {
        lemma_sampler_commands_set_state(samplers, entries, n - 1);
        let before = sampler_commands(samplers, entries, n - 1);
        let here = binding_commands(samplers[n - 1], (n - 1) as usize, entries);
        assert(all_set_state(here));
        assert forall|i: int| 0 <= i < (before + here).len() implies sets_state(
            #[trigger] (before + here)[i],
        ) by {
            if i < before.len() {
                assert((before + here)[i] == before[i]);
            } else {
                assert((before + here)[i] == here[i - before.len()]);
            }
        }
    }
}

proof fn lemma_release_commands_set_state(
    samplers: Seq<GLSampler>,
    entries: Seq<ResourceEntry>,
    n: int,
)
    ensures
        all_set_state(release_commands(samplers, entries, n)),
    decreases n,
{
    if n > 0 {
        lemma_release_commands_set_state(samplers, entries, n - 1);
    }
}

/// The instructions that come before the draw instruction of a draw: those
/// that open the draw, set the staged uniforms, bind the samplers and set the
/// render state.
pub open spec fn leading_commands(
    d: Drawing,
    pass: GLPass,
    buffer: Option<String>,
    window_width: u32,
    window_height: u32,
    uniforms: Seq<StagedUniform>,
    first_name: int,
) -> Seq<GpuCommand> {
    (match target_position(d.framebuffers, buffer) {
        Some(f) => {
            let target = d.framebuffers[f].framebuffer.write_target();
            opening_commands(pass, target.framebuffer, target.width, target.height)
        },
        None => opening_commands(pass, 0, window_width, window_height),
    }) + uniform_commands(pass.program, uniforms, first_name, uniforms.len() as int)
        + sampler_commands(pass.samplers@, d.entries, pass.samplers@.len() as int)
        + drawing_commands(pass).take(3)
}

/// A draw adds exactly one draw instruction to the instructions that were
/// there. All else that it adds sets state: a draw makes no object on the
/// device and deletes none.
pub proof fn law_draw_draws_once(
    d: Drawing,
    pass: GLPass,
    buffer: Option<String>,
    window_width: u32,
    window_height: u32,
    uniforms: Seq<StagedUniform>,
    first_name: int,
)
    ensures
        ({
            let drawn = draw_once(
                d,
                pass,
                buffer,
                window_width,
                window_height,
                uniforms,
                first_name,
            );
            let place = (d.commands.len() + leading_commands(
                d,
                pass,
                buffer,
                window_width,
                window_height,
                uniforms,
                first_name,
            ).len()) as int;
            &&& place < drawn.commands.len()
            &&& drawn.commands.take(d.commands.len() as int) == d.commands
            &&& drawn.commands[place] == GpuCommand::DrawArrays {
                mode: pass.draw_mode,
                count: pass.draw_count,
            }
            &&& forall|j: int|
                d.commands.len() <= j < drawn.commands.len() && j != place ==> sets_state(
                    #[trigger] drawn.commands[j],
                )
        }),
{
    let drawn = draw_once(d, pass, buffer, window_width, window_height, uniforms, first_name);
    let opening = match target_position(d.framebuffers, buffer) {
        Some(f) => {
            let target = d.framebuffers[f].framebuffer.write_target();
            opening_commands(pass, target.framebuffer, target.width, target.height)
        },
        None => opening_commands(pass, 0, window_width, window_height),
    };
    let set = uniform_commands(pass.program, uniforms, first_name, uniforms.len() as int);
    let bound = sampler_commands(pass.samplers@, d.entries, pass.samplers@.len() as int);
    let state = drawing_commands(pass).take(3);
    let leading = leading_commands(
        d,
        pass,
        buffer,
        window_width,
        window_height,
        uniforms,
        first_name,
    );
    let released = release_commands(pass.samplers@, drawn.entries, pass.samplers@.len() as int);
    let closing = seq![GpuCommand::UseProgram { program: 0 }] + released;
    let place = (d.commands.len() + leading.len()) as int;
    lemma_uniform_commands_set_state(pass.program, uniforms, first_name, uniforms.len() as int);
    lemma_sampler_commands_set_state(pass.samplers@, d.entries, pass.samplers@.len() as int);
    lemma_release_commands_set_state(pass.samplers@, drawn.entries, pass.samplers@.len() as int);
    assert(all_set_state(opening));
    assert(all_set_state(state));
    assert(leading == opening + set + bound + state);
    assert(all_set_state(leading)) by {
        assert forall|i: int| 0 <= i < leading.len() implies sets_state(#[trigger] leading[i]) by {
            if i < opening.len() {
                assert(leading[i] == opening[i]);
            } else if i < opening.len() + set.len() {
                assert(leading[i] == set[i - opening.len()]);
            } else if i < opening.len() + set.len() + bound.len() {
                assert(leading[i] == bound[i - opening.len() - set.len()]);
            } else {
                assert(leading[i] == state[i - opening.len() - set.len() - bound.len()]);
            }
        }
    }
    assert(drawing_commands(pass) =~= state.push(drawing_commands(pass)[3]));
    assert(drawn.commands =~= d.commands + leading + seq![
        GpuCommand::DrawArrays { mode: pass.draw_mode, count: pass.draw_count },
    ] + closing);
    assert(drawn.commands.take(d.commands.len() as int) =~= d.commands);
    assert forall|j: int|
        d.commands.len() <= j < drawn.commands.len() && j != place implies sets_state(
        #[trigger] drawn.commands[j],
    ) by {
        if j < place {
            assert(drawn.commands[j] == leading[j - d.commands.len()]);
        } else if j == place + 1 {
            assert(drawn.commands[j] == GpuCommand::UseProgram { program: 0 });
        } else {
            assert(drawn.commands[j] == released[j - place - 2]);
        }
    }
}

/// An instruction that works with the objects that are on the device: it
/// sets state, fills a uniform buffer or draws, and neither makes an object
/// nor deletes one.
pub open spec fn steady(command: GpuCommand) -> bool {
    ||| sets_state(command)
    ||| command is DrawArrays
    ||| command is UploadUniformBuffer
    ||| command is BindVertexArray
}

/// The instructions `b` are the instructions `a` and then some that work with
/// the objects that are on the device.
pub open spec fn steadily_extended(a: Seq<GpuCommand>, b: Seq<GpuCommand>) -> bool {
    &&& a.len() <= b.len()
    &&& b.take(a.len() as int) == a
    &&& forall|j: int| a.len() <= j < b.len() ==> steady(#[trigger] b[j])
}

pub proof fn lemma_steadily_further(a: Seq<GpuCommand>, b: Seq<GpuCommand>, c: Seq<GpuCommand>)
    requires
        steadily_extended(a, b),
        steadily_extended(b, c),
    ensures
        steadily_extended(a, c),
{
    assert(c.take(a.len() as int) =~= c.take(b.len() as int).take(a.len() as int));
    assert forall|j: int| a.len() <= j < c.len() implies steady(#[trigger] c[j]) by {
        if j < b.len() {
            assert(c.take(b.len() as int)[j] == c[j]);
        }
    }
}

/// The draws of a frame make no object on the device and delete none.
pub proof fn lemma_draw_passes_steady(
    d: Drawing,
    passes: Seq<GLPass>,
    configured: Seq<PassConfig>,
    window_width: u32,
    window_height: u32,
    uniforms: Seq<StagedUniform>,
    first_name: int,
    n: int,
)
    ensures
        steadily_extended(
            d.commands,
            draw_passes(
                d,
                passes,
                configured,
                window_width,
                window_height,
                uniforms,
                first_name,
                n,
            ).commands,
        ),
    decreases n,
{
    assert(d.commands.take(d.commands.len() as int) =~= d.commands);
    if n > 0 {
        let before = draw_passes(
            d,
            passes,
            configured,
            window_width,
            window_height,
            uniforms,
            first_name,
            n - 1,
        );
        lemma_draw_passes_steady(
            d,
            passes,
            configured,
            window_width,
            window_height,
            uniforms,
            first_name,
            n - 1,
        );
        if n - 1 < configured.len() && !configured[n - 1].disable {
            lemma_draw_repeated_steady(
                before,
                passes[n - 1],
                configured[n - 1].buffer,
                window_width,
                window_height,
                uniforms,
                first_name,
                configured[n - 1].loop_count as int,
            );
            lemma_steadily_further(
                d.commands,
                before.commands,
                draw_passes(
                    d,
                    passes,
                    configured,
                    window_width,
                    window_height,
                    uniforms,
                    first_name,
                    n,
                ).commands,
            );
        }
    }
}

proof fn lemma_draw_repeated_steady(
    d: Drawing,
    pass: GLPass,
    buffer: Option<String>,
    window_width: u32,
    window_height: u32,
    uniforms: Seq<StagedUniform>,
    first_name: int,
    n: int,
)
    ensures
        steadily_extended(
            d.commands,
            draw_repeated(
                d,
                pass,
                buffer,
                window_width,
                window_height,
                uniforms,
                first_name,
                n,
            ).commands,
        ),
    decreases n,
{
    assert(d.commands.take(d.commands.len() as int) =~= d.commands);
    if n > 0 {
        let before = draw_repeated(
            d,
            pass,
            buffer,
            window_width,
            window_height,
            uniforms,
            first_name,
            n - 1,
        );
        lemma_draw_repeated_steady(
            d,
            pass,
            buffer,
            window_width,
            window_height,
            uniforms,
            first_name,
            n - 1,
        );
        law_draw_draws_once(
            before,
            pass,
            buffer,
            window_width,
            window_height,
            uniforms,
            first_name,
        );
        lemma_steadily_further(
            d.commands,
            before.commands,
            draw_once(
                before,
                pass,
                buffer,
                window_width,
                window_height,
                uniforms,
                first_name,
            ).commands,
        );
    }
}

} // verus!
