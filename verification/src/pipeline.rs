use crate::command::{handle_after, next_handle, GpuCommand, HandlePool};
use crate::config::{
    BlendConfig, ChannelConfig, EffectConfig, NamedChannel, NamedResource, PassConfig,
};
use crate::error::{Error, ErrorKind};
use crate::gl::{
    blend_factor, depth_func, draw_mode, gl_blend_from_config, gl_depth_from_config,
    gl_draw_from_config, gl_mag_filter_from_config, gl_min_filter_from_config,
    gl_wrap_from_config, mag_filter, min_filter, vertex_count, CLAMP_TO_EDGE, LINEAR,
    LINEAR_MIPMAP_LINEAR, REPEAT, TEXTURE_3D,
};
use crate::identity::{hash_name_attachment, identity};
use crate::shader::{
    declare_samplers, declare_uniforms, sampler_declarations, shader_source, shader_text,
    uniform_declarations,
};
use crate::table::{lookup, ResourceEntry, ResourceTable};
use vstd::prelude::*;
use vstd::string::*;

verus! {

/// The text of one shader file, with includes expanded, under the file's path.
#[derive(Debug, Clone)]
pub struct ShaderSource {
    pub path: String,
    pub source: String,
}

/// Two lists of shader texts hold the same texts under the same paths, in
/// the same order.
pub open spec fn same_sources(a: Seq<ShaderSource>, b: Seq<ShaderSource>) -> bool {
    a.len() == b.len() && forall|i: int|
        0 <= i < a.len() ==> (#[trigger] a[i]).path@ == b[i].path@ && a[i].source@ == b[i].source@
}

pub fn sources_equal(a: &Vec<ShaderSource>, b: &Vec<ShaderSource>) -> (r: bool)
    ensures
        r == same_sources(a@, b@),
{
    if a.len() != b.len() {
        return false;
    }
    let mut i: usize = 0;
    while i < a.len()
        invariant
            i <= a.len(),
            a.len() == b.len(),
            forall|j: int|
                0 <= j < i ==> (#[trigger] a@[j]).path@ == b@[j].path@ && a@[j].source@
                    == b@[j].source@,
        decreases a.len() - i,
    {
        if !(a[i].path == b[i].path && a[i].source == b[i].source) {
            return false;
        }
        i = i + 1;
    }
    true
}

/// One of the first `n` cached texts has the path `path`.
pub open spec fn cached_before(cache: Seq<ShaderSource>, path: Seq<char>, n: int) -> bool {
    exists|i: int| 0 <= i < n && i < cache.len() && (#[trigger] cache[i]).path@ == path
}

/// The cache holds a text for `path`.
pub open spec fn is_cached(cache: Seq<ShaderSource>, path: Seq<char>) -> bool {
    cached_before(cache, path, cache.len() as int)
}

/// Entry `i` is the first of the cache with the path `path`.
pub open spec fn cached_at(cache: Seq<ShaderSource>, path: Seq<char>, i: int) -> bool {
    &&& 0 <= i < cache.len()
    &&& cache[i].path@ == path
    &&& !cached_before(cache, path, i)
}

/// The text that the cache holds for `path`: that of the first entry with the
/// path.
pub open spec fn cached_text(cache: Seq<ShaderSource>, path: Seq<char>) -> Seq<char> {
    cache[choose|i: int| cached_at(cache, path, i)].source@
}

pub proof fn lemma_cached_at_is_choice(cache: Seq<ShaderSource>, path: Seq<char>, i: int)
    requires
        cached_at(cache, path, i),
    ensures
        (choose|k: int| cached_at(cache, path, k)) == i,
{
    let k = choose|k: int| cached_at(cache, path, k);
    if k < i {
        assert(cached_before(cache, path, i));
    } else if i < k {
        assert(cached_before(cache, path, k));
    }
}

/// Looks a shader text up by its path.
pub fn find_source<'a>(cache: &'a Vec<ShaderSource>, path: &String) -> (found: Option<&'a String>)
    ensures
        match found {
            Some(text) => is_cached(cache@, path@) && text@ == cached_text(cache@, path@),
            None => !is_cached(cache@, path@),
        },
{
    let mut i: usize = 0;
    while i < cache.len()
        invariant
            i <= cache.len(),
            !cached_before(cache@, path@, i as int),
        decreases cache.len() - i,
    {
        if cache[i].path == *path {
            proof {
                lemma_cached_at_is_choice(cache@, path@, i as int);
            }
            return Some(&cache[i].source);
        }
        i = i + 1;
    }
    None
}

/// What there is to compile and link for one pass. The handles are those
/// under which the renderer will refer to the shaders and the program.
#[derive(Debug)]
pub struct CompileJob {
    pub pass: usize,
    pub vertex_shader: u32,
    pub fragment_shader: u32,
    pub geometry_shader: Option<u32>,
    pub program: u32,
    pub vertex_source: String,
    pub fragment_source: String,
    pub geometry_source: Option<String>,
    /// The sampler uniforms of the pass, in channel order. For each of them
    /// the locations of three uniforms are wanted: its own, and those of its
    /// resolution and its playback time.
    pub samplers: Vec<String>,
}

/// The handles of a pass whose shaders are being compiled.
#[derive(Debug, PartialEq, Eq, Structural, Clone, Copy)]
pub struct PendingPass {
    pub vertex_shader: u32,
    pub fragment_shader: u32,
    pub geometry_shader: Option<u32>,
    pub program: u32,
}

/// The shader files that a pass still lacks in the cache, named by stage.
#[derive(Debug, PartialEq, Eq, Structural, Clone, Copy)]
pub enum ShaderStage {
    Vertex,
    Fragment,
    Geometry,
    Program,
}

/// The first stage of a pass whose text the cache lacks.
pub open spec fn missing_stage(pass: PassConfig, cache: Seq<ShaderSource>) -> Option<ShaderStage> {
    if !is_cached(cache, pass.vertex@) {
        Some(ShaderStage::Vertex)
    } else if !is_cached(cache, pass.fragment@) {
        Some(ShaderStage::Fragment)
    } else if pass.geometry is Some && !is_cached(cache, pass.geometry->0@) {
        Some(ShaderStage::Geometry)
    } else {
        None
    }
}

/// What is said of a stage whose text the cache lacks.
pub open spec fn missing_message(stage: ShaderStage) -> Seq<char> {
    match stage {
        ShaderStage::Vertex => "vertex path not found in shader_cache"@,
        ShaderStage::Fragment => "fragment path not found in shader_cache"@,
        _ => "geometry path not found in shader_cache"@,
    }
}

/// The number of handles that the shaders and the program of a pass take.
pub open spec fn handles_per_pass(pass: PassConfig) -> nat {
    if pass.geometry is Some {
        4
    } else {
        3
    }
}

/// The next free handle after the first `n` passes have got theirs.
pub open spec fn handle_past_passes(passes: Seq<PassConfig>, first: u32, n: int) -> u32
    decreases n,
{
    if n <= 0 {
        first
    } else {
        handle_after(handle_past_passes(passes, first, n - 1), handles_per_pass(passes[n - 1]))
    }
}

/// The handles of a pass, given the first of them: vertex shader, fragment
/// shader, geometry shader if there is one, program.
pub open spec fn pending_of(pass: PassConfig, handle: u32) -> PendingPass {
    PendingPass {
        vertex_shader: handle,
        fragment_shader: handle_after(handle, 1),
        geometry_shader: if pass.geometry is Some {
            Some(handle_after(handle, 2))
        } else {
            None
        },
        program: if pass.geometry is Some {
            handle_after(handle, 3)
        } else {
            handle_after(handle, 2)
        },
    }
}

impl CompileJob {
    pub open spec fn pending(self) -> PendingPass {
        PendingPass {
            vertex_shader: self.vertex_shader,
            fragment_shader: self.fragment_shader,
            geometry_shader: self.geometry_shader,
            program: self.program,
        }
    }

    pub fn handles(&self) -> (pending: PendingPass)
        ensures
            pending == self.pending(),
    {
        PendingPass {
            vertex_shader: self.vertex_shader,
            fragment_shader: self.fragment_shader,
            geometry_shader: self.geometry_shader,
            program: self.program,
        }
    }
}

/// The full text of one stage of a pass, whose own text is `body`.
pub open spec fn stage_text(
    version: Seq<char>,
    resources: Seq<NamedResource>,
    pass: PassConfig,
    body: Seq<char>,
) -> Seq<char> {
    shader_text(
        version,
        uniform_declarations(resources, resources.len() as int),
        sampler_declarations(pass.uniform_to_channel@, resources, pass.uniform_to_channel@.len() as int),
        body,
    )
}

/// `job` is the compile job of pass `p`, with `handle` as the first of its
/// handles.
pub open spec fn is_job_of(
    job: CompileJob,
    p: int,
    pass: PassConfig,
    resources: Seq<NamedResource>,
    version: Seq<char>,
    cache: Seq<ShaderSource>,
    handle: u32,
) -> bool {
    &&& job.pass == p
    &&& job.pending() == pending_of(pass, handle)
    &&& job.vertex_source@ == stage_text(version, resources, pass, cached_text(cache, pass.vertex@))
    &&& job.fragment_source@ == stage_text(
        version,
        resources,
        pass,
        cached_text(cache, pass.fragment@),
    )
    &&& match pass.geometry {
        Some(path) => job.geometry_source is Some && job.geometry_source->0@ == stage_text(
            version,
            resources,
            pass,
            cached_text(cache, path@),
        ),
        None => job.geometry_source is None,
    }
    &&& job.samplers@.len() == pass.uniform_to_channel@.len()
    &&& forall|c: int|
        0 <= c < job.samplers@.len() ==> (#[trigger] job.samplers@[c])@
            == pass.uniform_to_channel@[c].uniform@
}

fn sampler_names(channels: &Vec<NamedChannel>) -> (names: Vec<String>)
    ensures
        names@.len() == channels@.len(),
        forall|c: int| 0 <= c < names@.len() ==> (#[trigger] names@[c])@ == channels@[c].uniform@,
{
    let mut names: Vec<String> = Vec::new();
    let mut c: usize = 0;
    while c < channels.len()
        invariant
            c <= channels.len(),
            names@.len() == c,
            forall|k: int| 0 <= k < c ==> (#[trigger] names@[k])@ == channels@[k].uniform@,
        decreases channels.len() - c,
    {
        names.push(channels[c].uniform.clone());
        c = c + 1;
    }
    names
}

/// Writing the compile jobs stopped with `error` at pass `p`: every pass before
/// it has its texts in the cache, pass `p` lacks one, and the error says which.
pub open spec fn stopped_at(
    error: Error,
    passes: Seq<PassConfig>,
    cache: Seq<ShaderSource>,
    p: int,
) -> bool {
    &&& 0 <= p < passes.len()
    &&& forall|q: int| 0 <= q < p ==> missing_stage(#[trigger] passes[q], cache) is None
    &&& missing_stage(passes[p], cache) is Some
    &&& error.cause is None
    &&& error.kind matches ErrorKind::Bug(text) && text@ == missing_message(
        missing_stage(passes[p], cache)->0,
    )
}

/// Writes the compile job of every pass of a configuration.
///
/// Each job holds the full text of the pass's shaders: version line, built-in
/// declarations, the declarations of the configuration's uniforms and of the
/// pass's samplers, a line reset and the text that the cache holds for the
/// shader's path. The work stops at the first pass that lacks a text in the
/// cache, which is an error of the caller; the jobs of the passes before it
/// come back with the error.
pub fn compile_jobs(
    config: &EffectConfig,
    version: &String,
    cache: &Vec<ShaderSource>,
    pool: &mut HandlePool,
) -> (written: (Vec<CompileJob>, Option<Error>))
    ensures
        written.0@.len() <= config.pass_list().len(),
        forall|p: int|
            0 <= p < written.0@.len() ==> missing_stage(#[trigger] config.pass_list()[p], cache@)
                is None,
        forall|p: int|
            0 <= p < written.0@.len() ==> is_job_of(
                #[trigger] written.0@[p],
                p,
                config.pass_list()[p],
                config.resource_list(),
                version@,
                cache@,
                handle_past_passes(config.pass_list(), old(pool).next, p),
            ),
        final(pool).next == handle_past_passes(
            config.pass_list(),
            old(pool).next,
            written.0@.len() as int,
        ),
        match written.1 {
            None => written.0@.len() == config.pass_list().len(),
            Some(error) => stopped_at(error, config.pass_list(), cache@, written.0@.len() as int),
        },
{
    let passes = config.passes();
    let resources = config.resources();
    let ghost first = pool.next;
    let uniforms = declare_uniforms(resources);
    let mut jobs: Vec<CompileJob> = Vec::new();
    let mut failure: Option<Error> = None;
    let mut p: usize = 0;
    while p < passes.len() && failure.is_none()
        invariant
            p <= passes.len(),
            passes@ == config.pass_list(),
            resources@ == config.resource_list(),
            uniforms@ == uniform_declarations(resources@, resources@.len() as int),
            jobs@.len() == p,
            forall|q: int| 0 <= q < p ==> missing_stage(#[trigger] passes@[q], cache@) is None,
            forall|q: int|
                0 <= q < p ==> is_job_of(
                    #[trigger] jobs@[q],
                    q,
                    passes@[q],
                    resources@,
                    version@,
                    cache@,
                    handle_past_passes(passes@, first, q),
                ),
            pool.next == handle_past_passes(passes@, first, p as int),
            failure is Some ==> stopped_at(failure->0, passes@, cache@, p as int),
        decreases passes.len() - p, if failure is None { 1int } else { 0int },
    {
        let pass = &passes[p];
        let vertex_body = find_source(cache, &pass.vertex);
        let fragment_body = find_source(cache, &pass.fragment);
        let geometry_body = match &pass.geometry {
            Some(path) => find_source(cache, path),
            None => None,
        };
        if vertex_body.is_none() {
            failure = Some(Error::bug("vertex path not found in shader_cache"));
        } else if fragment_body.is_none() {
            failure = Some(Error::bug("fragment path not found in shader_cache"));
        } else if pass.geometry.is_some() && geometry_body.is_none() {
            failure = Some(Error::bug("geometry path not found in shader_cache"));
        } else {
            let samplers = declare_samplers(&pass.uniform_to_channel, resources);
            let ghost handle = pool.next;
            assert(handle_after(handle, 0) == handle);
            let vertex_shader = pool.fresh();
            let fragment_shader = pool.fresh();
            let geometry_shader = if pass.geometry.is_some() {
                Some(pool.fresh())
            } else {
                None
            };
            let program = pool.fresh();
            assert(fragment_shader == handle_after(handle, 1));
            assert(handle_after(handle, 2) == next_handle(fragment_shader));
            assert(handle_after(handle, 3) == next_handle(handle_after(handle, 2)));
            assert(handle_after(handle, 4) == next_handle(handle_after(handle, 3)));
            let geometry_source = match geometry_body {
                Some(text) => Some(
                    shader_source(
                        version.as_str(),
                        uniforms.as_str(),
                        samplers.as_str(),
                        text.as_str(),
                    ),
                ),
                None => None,
            };
            let job = CompileJob {
                pass: p,
                vertex_shader,
                fragment_shader,
                geometry_shader,
                program,
                vertex_source: shader_source(
                    version.as_str(),
                    uniforms.as_str(),
                    samplers.as_str(),
                    vertex_body.unwrap().as_str(),
                ),
                fragment_source: shader_source(
                    version.as_str(),
                    uniforms.as_str(),
                    samplers.as_str(),
                    fragment_body.unwrap().as_str(),
                ),
                geometry_source,
                samplers: sampler_names(&pass.uniform_to_channel),
            };
            assert(is_job_of(
                job,
                p as int,
                passes@[p as int],
                resources@,
                version@,
                cache@,
                handle,
            ));
            jobs.push(job);
            p = p + 1;
        }
    }
    (jobs, failure)
}


/// Where the uniforms of one sampler channel sit in a linked program; -1 for
/// a uniform that the program does not have.
#[derive(Debug, PartialEq, Eq, Structural, Clone, Copy)]
pub struct SamplerLocations {
    pub uniform: i32,
    pub resolution: i32,
    pub playback_time: i32,
}

/// Where the uniforms of one pass sit in its linked program.
#[derive(Debug, Clone)]
pub struct PassLocations {
    /// The location of `iResolution`.
    pub resolution: i32,
    /// The location of `iVertexCount`.
    pub vertex_count: i32,
    /// The locations of the sampler channels, in channel order.
    pub samplers: Vec<SamplerLocations>,
}

/// One texture binding of a compiled pass.
#[derive(Debug, PartialEq, Eq, Structural, Clone, Copy)]
pub struct GLSampler {
    /// The identity key of the resource that is bound.
    pub resource: u64,
    pub uniform_loc: i32,
    pub resolution_uniform_loc: i32,
    pub playback_time_uniform_loc: i32,
    pub wrap_s: u32,
    pub wrap_t: u32,
    pub wrap_r: u32,
    pub min_filter: u32,
    pub mag_filter: u32,
}

/// A compiled pass: its program and everything that a draw needs to know.
#[derive(Debug)]
pub struct GLPass {
    pub vertex_shader: u32,
    pub fragment_shader: u32,
    pub geometry_shader: Option<u32>,
    pub program: u32,
    pub resolution_uniform_loc: i32,
    pub vertex_count_uniform_loc: i32,
    pub samplers: Vec<GLSampler>,
    pub draw_mode: u32,
    pub draw_count: u64,
    pub clear_color: Option<[u32; 4]>,
    pub blend: Option<(u32, u32, u32, u32)>,
    pub clear_depth: Option<u32>,
    pub depth: Option<u32>,
    pub depth_write: bool,
}

/// A uniform buffer on the device, under the name of the uniform block that
/// it feeds.
#[derive(Debug)]
pub struct NamedBuffer {
    pub name: String,
    pub buffer: u32,
}

/// The compiled passes and what they share.
#[derive(Debug)]
pub struct GLPipeline {
    pub vertex_array_object: u32,
    pub uniform_buffers: Vec<NamedBuffer>,
    pub passes: Vec<GLPass>,
}

/// The locations of channel `c`; all -1 where the list of locations is too
/// short.
pub open spec fn locations_at(locations: Seq<SamplerLocations>, c: int) -> SamplerLocations {
    if 0 <= c < locations.len() {
        locations[c]
    } else {
        SamplerLocations { uniform: -1i32, resolution: -1i32, playback_time: -1i32 }
    }
}

/// The minification filter of a channel that names only its resource:
/// linear for a three-dimensional texture, which has no mipmaps, mipmapped
/// otherwise.
pub open spec fn implicit_min_filter(entries: Seq<ResourceEntry>, key: u64) -> u32 {
    match lookup(entries, key) {
        Some(resource) => if resource.target == TEXTURE_3D {
            LINEAR
        } else {
            LINEAR_MIPMAP_LINEAR
        },
        None => LINEAR_MIPMAP_LINEAR,
    }
}

/// The binding that a channel asks for. A channel that names only its
/// resource binds attachment 0, repeating, with linear magnification.
pub open spec fn sampler_of(
    channel: ChannelConfig,
    at: SamplerLocations,
    entries: Seq<ResourceEntry>,
) -> GLSampler {
    match channel {
        ChannelConfig::Simple(name) => {
            let key = identity(name@, 0);
            GLSampler {
                resource: key,
                uniform_loc: at.uniform,
                resolution_uniform_loc: at.resolution,
                playback_time_uniform_loc: at.playback_time,
                wrap_s: REPEAT,
                wrap_t: REPEAT,
                wrap_r: REPEAT,
                min_filter: implicit_min_filter(entries, key),
                mag_filter: LINEAR,
            }
        },
        ChannelConfig::Complete { resource, attachment, wrap, filter } => {
            let mode = match wrap {
                crate::config::WrapConfig::Clamp => CLAMP_TO_EDGE,
                crate::config::WrapConfig::Repeat => REPEAT,
            };
            GLSampler {
                resource: identity(resource@, attachment),
                uniform_loc: at.uniform,
                resolution_uniform_loc: at.resolution,
                playback_time_uniform_loc: at.playback_time,
                wrap_s: mode,
                wrap_t: mode,
                wrap_r: mode,
                min_filter: min_filter(filter),
                mag_filter: mag_filter(filter),
            }
        },
    }
}

fn build_sampler(channel: &ChannelConfig, at: SamplerLocations, resources: &ResourceTable) -> (sampler:
    GLSampler)
    ensures
        sampler == sampler_of(*channel, at, resources.entries@),
{
    match channel {
        ChannelConfig::Simple(name) => {
            let key = hash_name_attachment(name.as_str(), 0);
            let min_filter = match resources.get(key) {
                Some(resource) => if resource.target == TEXTURE_3D {
                    LINEAR
                } else {
                    LINEAR_MIPMAP_LINEAR
                },
                None => LINEAR_MIPMAP_LINEAR,
            };
            GLSampler {
                resource: key,
                uniform_loc: at.uniform,
                resolution_uniform_loc: at.resolution,
                playback_time_uniform_loc: at.playback_time,
                wrap_s: REPEAT,
                wrap_t: REPEAT,
                wrap_r: REPEAT,
                min_filter,
                mag_filter: LINEAR,
            }
        },
        ChannelConfig::Complete { resource, attachment, wrap, filter } => {
            let mode = gl_wrap_from_config(wrap);
            GLSampler {
                resource: hash_name_attachment(resource.as_str(), *attachment),
                uniform_loc: at.uniform,
                resolution_uniform_loc: at.resolution,
                playback_time_uniform_loc: at.playback_time,
                wrap_s: mode,
                wrap_t: mode,
                wrap_r: mode,
                min_filter: gl_min_filter_from_config(filter),
                mag_filter: gl_mag_filter_from_config(filter),
            }
        },
    }
}

/// The blend factors of a pass: those of the colour serve the alpha too.
pub open spec fn blend_of(blend: Option<BlendConfig>) -> Option<(u32, u32, u32, u32)> {
    match blend {
        Some(b) => Some(
            (blend_factor(b.src), blend_factor(b.dst), blend_factor(b.src), blend_factor(b.dst)),
        ),
        None => None,
    }
}

/// `pass` is what the configuration `config` compiles to, with the given
/// handles and uniform locations, while the resource table holds `entries`.
pub open spec fn is_pass_of(
    pass: GLPass,
    config: PassConfig,
    pending: PendingPass,
    locations: PassLocations,
    entries: Seq<ResourceEntry>,
) -> bool {
    &&& pass.vertex_shader == pending.vertex_shader
    &&& pass.fragment_shader == pending.fragment_shader
    &&& pass.geometry_shader == pending.geometry_shader
    &&& pass.program == pending.program
    &&& pass.resolution_uniform_loc == locations.resolution
    &&& pass.vertex_count_uniform_loc == locations.vertex_count
    &&& pass.samplers@.len() == config.uniform_to_channel@.len()
    &&& forall|c: int|
        0 <= c < pass.samplers@.len() ==> #[trigger] pass.samplers@[c] == sampler_of(
            config.uniform_to_channel@[c].channel,
            locations_at(locations.samplers@, c),
            entries,
        )
    &&& pass.draw_mode == draw_mode(config.draw.mode)
    &&& pass.draw_count == vertex_count(config.draw.mode, config.draw.count)
    &&& pass.clear_color == config.clear
    &&& pass.clear_depth == config.clear_depth
    &&& pass.blend == blend_of(config.blend)
    &&& pass.depth == (match config.depth {
        Some(func) => Some(depth_func(func)),
        None => None,
    })
    &&& pass.depth_write
}

/// Builds the compiled form of one pass.
pub fn build_pass(
    config: &PassConfig,
    pending: PendingPass,
    locations: &PassLocations,
    resources: &ResourceTable,
) -> (pass: GLPass)
    ensures
        is_pass_of(pass, *config, pending, *locations, resources.entries@),
{
    let channels = &config.uniform_to_channel;
    let mut samplers: Vec<GLSampler> = Vec::new();
    let mut c: usize = 0;
    while c < channels.len()
        invariant
            c <= channels.len(),
            samplers@.len() == c,
            forall|k: int|
                0 <= k < c ==> #[trigger] samplers@[k] == sampler_of(
                    channels@[k].channel,
                    locations_at(locations.samplers@, k),
                    resources.entries@,
                ),
        decreases channels.len() - c,
    {
        let at = if c < locations.samplers.len() {
            locations.samplers[c]
        } else {
            SamplerLocations { uniform: -1, resolution: -1, playback_time: -1 }
        };
        samplers.push(build_sampler(&channels[c].channel, at, resources));
        c = c + 1;
    }
    let (draw_mode, draw_count) = gl_draw_from_config(&config.draw.mode, config.draw.count);
    let blend = match &config.blend {
        Some(b) => Some(
            (
                gl_blend_from_config(&b.src),
                gl_blend_from_config(&b.dst),
                gl_blend_from_config(&b.src),
                gl_blend_from_config(&b.dst),
            ),
        ),
        None => None,
    };
    let depth = match &config.depth {
        Some(func) => Some(gl_depth_from_config(func)),
        None => None,
    };
    GLPass {
        vertex_shader: pending.vertex_shader,
        fragment_shader: pending.fragment_shader,
        geometry_shader: pending.geometry_shader,
        program: pending.program,
        resolution_uniform_loc: locations.resolution,
        vertex_count_uniform_loc: locations.vertex_count,
        samplers,
        draw_mode,
        draw_count,
        clear_color: config.clear,
        blend,
        clear_depth: config.clear_depth,
        depth,
        depth_write: true,
    }
}

/// The instructions that delete the first `n` compiled passes: for each its
/// program, then its shaders.
pub open spec fn pass_deletions(passes: Seq<GLPass>, n: int) -> Seq<GpuCommand>
    decreases n,
{
    if n <= 0 {
        Seq::empty()
    } else {
        let pass = passes[n - 1];
        let shaders = seq![
            GpuCommand::DeleteProgram { program: pass.program },
            GpuCommand::DeleteShader { shader: pass.vertex_shader },
            GpuCommand::DeleteShader { shader: pass.fragment_shader },
        ];
        pass_deletions(passes, n - 1) + match pass.geometry_shader {
            Some(shader) => shaders.push(GpuCommand::DeleteShader { shader }),
            None => shaders,
        }
    }
}

/// The instructions that delete a pipeline's vertex array and passes.
pub open spec fn pipeline_deletions(vertex_array: u32, passes: Seq<GLPass>) -> Seq<GpuCommand> {
    seq![GpuCommand::DeleteVertexArray { vertex_array }] + pass_deletions(
        passes,
        passes.len() as int,
    )
}

/// Deletes the compiled passes and the vertex array. The uniform buffers
/// stay.
pub fn gpu_delete_pipeline_resources(pipeline: &mut GLPipeline, commands: &mut Vec<GpuCommand>)
    ensures
        final(pipeline).passes@.len() == 0,
        final(pipeline).vertex_array_object == old(pipeline).vertex_array_object,
        final(pipeline).uniform_buffers == old(pipeline).uniform_buffers,
        final(commands)@ == old(commands)@ + pipeline_deletions(
            old(pipeline).vertex_array_object,
            old(pipeline).passes@,
        ),
{
    let ghost before = commands@;
    commands.push(GpuCommand::DeleteVertexArray { vertex_array: pipeline.vertex_array_object });
    let ghost opened = commands@;
    let mut p: usize = 0;
    while p < pipeline.passes.len()
        invariant
            p <= pipeline.passes@.len(),
            *pipeline == *old(pipeline),
            commands@ == opened + pass_deletions(pipeline.passes@, p as int),
        decreases pipeline.passes@.len() - p,
    {
        let pass = &pipeline.passes[p];
        commands.push(GpuCommand::DeleteProgram { program: pass.program });
        commands.push(GpuCommand::DeleteShader { shader: pass.vertex_shader });
        commands.push(GpuCommand::DeleteShader { shader: pass.fragment_shader });
        if let Some(shader) = pass.geometry_shader {
            commands.push(GpuCommand::DeleteShader { shader });
        }
        p = p + 1;
        assert(commands@ =~= opened + pass_deletions(pipeline.passes@, p as int));
    }
    pipeline.passes.clear();
    assert(commands@ =~= before + pipeline_deletions(
        old(pipeline).vertex_array_object,
        old(pipeline).passes@,
    ));
}

} // verus!
