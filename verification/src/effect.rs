use crate::command::{handle_after, CommandList, GpuCommand, HandlePool};
use crate::config::EffectConfig;
use crate::draw::{draw_passes, gpu_draw, Drawing, StagedUniform, UniformValue};
use crate::error::{Error, ErrorKind};
use crate::framebuffer::{
    all_framebuffer_deletions, attachment_rows, built, commands_past, entries_past,
    gpu_delete_buffer_resources, gpu_delete_non_buffer_resources, gpu_init_framebuffers,
    handle_past, other_deletions, without_framebuffers, NamedFramebuffer,
};
use crate::gl::{PROGRAM_POINT_SIZE, TEXTURE_CUBE_MAP_SEAMLESS};
use crate::identity::{hash_name_attachment, identity};
use crate::pipeline::{
    build_pass, compile_jobs, gpu_delete_pipeline_resources, handle_past_passes, is_job_of,
    is_pass_of, missing_stage, pending_of, pipeline_deletions, same_sources, sources_equal,
    stopped_at, CompileJob, GLPass, GLPipeline,
    NamedBuffer, PassLocations, PendingPass, ShaderSource, ShaderStage,
};
use crate::resource::ResourceData;
use crate::stage::{
    blob_views, gpu_pbo_to_texture_transfer, gpu_stage_resources, name_views, stage_all,
    transfer_commands, StagedResource, Staging, Transfer,
};
use crate::table::{ResourceEntry, ResourceTable};
use crate::uniform::{
    connect_all, connect_uniform_buffers, gpu_stage_buffer_data, stage_blocks, Blocks,
    Connecting, StagedBlock,
};
use vstd::prelude::*;
use vstd::string::*;

verus! {

/// The renderer: it holds the configuration and everything that is staged for
/// the next frame, knows what exists on the graphics device, and decides frame
/// by frame what has to be made anew, compiled, uploaded and drawn.
///
/// The renderer never touches the device. `draw` and `finish_draw` return the
/// instructions of a frame, and whoever owns the device carries them out, in
/// order.
#[derive(Debug)]
pub struct Effect {
    pub(crate) config: EffectConfig,
    pub(crate) version: String,
    pub(crate) window_width: u32,
    pub(crate) window_height: u32,
    pub(crate) staged_resources: Vec<StagedResource>,
    pub(crate) staged_uniform_buffer: Vec<StagedBlock>,
    pub(crate) staged_uniforms: Vec<StagedUniform>,
    pub(crate) shader_cache: Vec<ShaderSource>,
    pub(crate) pipeline: GLPipeline,
    pub(crate) pending: Vec<PendingPass>,
    pub(crate) compiling: bool,
    pub(crate) resources: ResourceTable,
    pub(crate) framebuffers: Vec<NamedFramebuffer>,
    pub(crate) pbo_texture_unpack_list: Vec<Transfer>,
    pub(crate) pool: HandlePool,
    pub(crate) config_dirty: bool,
    pub(crate) pipeline_dirty: bool,
    pub(crate) first_draw: bool,
}

/// The state of a renderer.
pub struct EffectView {
    pub config: EffectConfig,
    /// The version line that every shader starts with.
    pub version: Seq<char>,
    /// The size of the output surface at the last frame.
    pub window_width: u32,
    pub window_height: u32,
    /// The resource updates that wait for the next frame.
    pub staged_resources: Seq<StagedResource>,
    /// The uniform blocks that wait for the next frame.
    pub staged_blocks: Seq<StagedBlock>,
    /// The uniform values that wait for the next frame.
    pub staged_uniforms: Seq<StagedUniform>,
    pub shader_cache: Seq<ShaderSource>,
    pub vertex_array_object: u32,
    pub uniform_buffers: Seq<NamedBuffer>,
    /// The compiled passes.
    pub passes: Seq<GLPass>,
    /// The handles of the passes that are being compiled.
    pub pending: Seq<PendingPass>,
    /// Whether `draw` has asked for passes to be compiled and `finish_draw`
    /// has not yet taken the outcome.
    pub compiling: bool,
    /// The resource table.
    pub entries: Seq<ResourceEntry>,
    /// The render targets of the buffers.
    pub framebuffers: Seq<NamedFramebuffer>,
    /// The transfers from pixel transfer buffers that are still to make.
    pub transfers: Seq<Transfer>,
    /// The next free handle.
    pub next_handle: u32,
    /// The configuration has changed since the device was last brought up to
    /// date with it.
    pub config_dirty: bool,
    /// The shader texts have changed since the passes were last compiled.
    pub pipeline_dirty: bool,
    /// No frame has been drawn yet.
    pub first_draw: bool,
}

impl View for Effect {
    type V = EffectView;

    closed spec fn view(&self) -> EffectView {
        EffectView {
            config: self.config,
            version: self.version@,
            window_width: self.window_width,
            window_height: self.window_height,
            staged_resources: self.staged_resources@,
            staged_blocks: self.staged_uniform_buffer@,
            staged_uniforms: self.staged_uniforms@,
            shader_cache: self.shader_cache@,
            vertex_array_object: self.pipeline.vertex_array_object,
            uniform_buffers: self.pipeline.uniform_buffers@,
            passes: self.pipeline.passes@,
            pending: self.pending@,
            compiling: self.compiling,
            entries: self.resources.entries@,
            framebuffers: self.framebuffers@,
            transfers: self.pbo_texture_unpack_list@,
            next_handle: self.pool.next,
            config_dirty: self.config_dirty,
            pipeline_dirty: self.pipeline_dirty,
            first_draw: self.first_draw,
        }
    }
}

impl EffectView {
    /// A renderer that has seen nothing yet: the empty configuration, nothing
    /// staged, nothing on the device, everything still to do.
    pub open spec fn is_initial(self, version: Seq<char>) -> bool {
        &&& self.config.pass_list().len() == 0
        &&& self.config.resource_list().len() == 0
        &&& self.version == version
        &&& self.window_width == 0
        &&& self.window_height == 0
        &&& self.staged_resources.len() == 0
        &&& self.staged_blocks.len() == 0
        &&& self.staged_uniforms.len() == 0
        &&& self.shader_cache.len() == 0
        &&& self.vertex_array_object == 0
        &&& self.uniform_buffers.len() == 0
        &&& self.passes.len() == 0
        &&& self.pending.len() == 0
        &&& !self.compiling
        &&& self.entries.len() == 0
        &&& self.framebuffers.len() == 0
        &&& self.transfers.len() == 0
        &&& self.next_handle == 1
        &&& self.config_dirty
        &&& self.pipeline_dirty
        &&& self.first_draw
    }

    /// The pipeline counts as whole only if it has a compiled pass for every
    /// pass of the configuration.
    pub open spec fn pipeline_ok(self) -> bool {
        self.passes.len() == self.config.pass_list().len()
    }

    /// The state after a configuration has been staged: a configuration equal
    /// to the present one changes nothing; any other takes its place, marks
    /// the configuration as changed and drops the staged resource updates.
    pub open spec fn with_config(self, config: EffectConfig) -> EffectView {
        if config.same(self.config) {
            self
        } else {
            EffectView { config, config_dirty: true, staged_resources: Seq::empty(), ..self }
        }
    }

    /// The state after shader texts have been staged: texts equal to the
    /// present ones change nothing; any others take their place and mark the
    /// shader texts as changed.
    pub open spec fn with_shader_cache(self, cache: Seq<ShaderSource>) -> EffectView {
        if same_sources(cache, self.shader_cache) {
            self
        } else {
            EffectView { shader_cache: cache, pipeline_dirty: true, ..self }
        }
    }

    /// The state after a resource update has been staged for the resource
    /// `name`.
    pub open spec fn with_resource(self, name: Seq<char>, data: ResourceData) -> EffectView {
        EffectView {
            staged_resources: self.staged_resources.push(
                StagedResource { key: identity(name, 0), data },
            ),
            ..self
        }
    }
}

impl Effect {
    /// A renderer for shaders of the given version line.
    pub fn new(glsl_version: String) -> (effect: Effect)
        ensures
            effect@.is_initial(glsl_version@),
    {
        Effect {
            config: EffectConfig::default(),
            version: glsl_version,
            window_width: 0,
            window_height: 0,
            staged_resources: Vec::new(),
            staged_uniform_buffer: Vec::new(),
            staged_uniforms: Vec::new(),
            shader_cache: Vec::new(),
            pipeline: GLPipeline {
                vertex_array_object: 0,
                uniform_buffers: Vec::new(),
                passes: Vec::new(),
            },
            pending: Vec::new(),
            compiling: false,
            resources: ResourceTable::new(),
            framebuffers: Vec::new(),
            pbo_texture_unpack_list: Vec::new(),
            pool: HandlePool::new(),
            config_dirty: true,
            pipeline_dirty: true,
            first_draw: true,
        }
    }

    /// Stages a configuration for the next frame. Only a configuration that
    /// differs from the present one counts as a change.
    pub fn stage_config(&mut self, config: EffectConfig) -> (result: Result<(), Error>)
        ensures
            result is Ok,
            final(self)@ == old(self)@.with_config(config),
    {
        if !config.equals(&self.config) {
            self.config_dirty = true;
            self.config = config;
            self.staged_resources.clear();
            assert(self.staged_resources@ =~= Seq::empty());
        }
        Ok(())
    }

    /// Stages the texts of the shader files for the next frame. Only texts
    /// that differ from the present ones count as a change, after which the
    /// next frame compiles the passes anew.
    pub fn stage_shader_cache(&mut self, shader_cache: Vec<ShaderSource>) -> (result: Result<
        (),
        Error,
    >)
        ensures
            result is Ok,
            final(self)@ == old(self)@.with_shader_cache(shader_cache@),
    {
        if !sources_equal(&shader_cache, &self.shader_cache) {
            self.pipeline_dirty = true;
            self.shader_cache = shader_cache;
        }
        Ok(())
    }

    /// Stages a resource update for the next frame, under the identity key of
    /// the resource's name and attachment 0.
    pub fn stage_resource(&mut self, name: &str, resource: ResourceData)
        ensures
            final(self)@ == old(self)@.with_resource(name@, resource),
    {
        let key = hash_name_attachment(name, 0);
        self.staged_resources.push(StagedResource { key, data: resource });
    }

    /// Whether there is a compiled pass for every pass of the configuration.
    pub fn gpu_pipeline_is_ok(&self) -> (ok: bool)
        ensures
            ok == self@.pipeline_ok(),
    {
        self.pipeline.passes.len() == self.config.passes().len()
    }

    /// The configuration that the renderer works with.
    pub fn config(&self) -> (config: &EffectConfig)
        ensures
            *config == self@.config,
    {
        &self.config
    }
}


/// What a call of `draw` or `finish_draw` hands back: the instructions to
/// carry out, then the passes to compile, and the error that ended the call
/// early, if one did.
#[derive(Debug)]
pub struct Frame {
    pub commands: CommandList,
    pub jobs: Vec<CompileJob>,
    pub error: Option<Error>,
}

impl Frame {
    /// Nothing to carry out, nothing to compile, no error.
    pub open spec fn is_empty(self) -> bool {
        &&& self.commands.commands@.len() == 0
        &&& self.commands.blobs@.len() == 0
        &&& self.commands.names@.len() == 0
        &&& self.jobs@.len() == 0
        &&& self.error is None
    }
}

/// The instructions that go before everything else at the first frame.
pub open spec fn first_frame_commands(first_draw: bool) -> Seq<GpuCommand> {
    if first_draw {
        seq![
            GpuCommand::Enable { capability: TEXTURE_CUBE_MAP_SEAMLESS },
            GpuCommand::Enable { capability: PROGRAM_POINT_SIZE },
        ]
    } else {
        Seq::empty()
    }
}

impl EffectView {
    /// Whether a frame for a surface of the given size makes the render
    /// targets anew: after a change of the configuration, and after a change
    /// of the surface's size.
    pub open spec fn rebuilds_framebuffers(self, width: u32, height: u32) -> bool {
        self.config_dirty || self.window_width != width || self.window_height != height
    }

    /// The resource table after the invalidation that follows a change of the
    /// configuration: only the attachments of render targets stay.
    pub open spec fn invalidated_entries(self) -> Seq<ResourceEntry> {
        if self.config_dirty {
            attachment_rows(self.entries, self.framebuffers, self.entries.len() as int)
        } else {
            self.entries
        }
    }

    /// The instructions of the invalidation.
    pub open spec fn invalidation_commands(self) -> Seq<GpuCommand> {
        if self.config_dirty {
            other_deletions(self.entries, self.framebuffers, self.entries.len() as int)
        } else {
            Seq::empty()
        }
    }

    /// The resource table after invalidation and the making of the render
    /// targets.
    pub open spec fn reconciled_entries(self, width: u32, height: u32) -> Seq<ResourceEntry> {
        if self.rebuilds_framebuffers(width, height) {
            entries_past(
                self.config.pass_list(),
                self.config.resource_list(),
                without_framebuffers(
                    self.invalidated_entries(),
                    self.framebuffers,
                    self.framebuffers.len() as int,
                ),
                self.next_handle,
                width,
                height,
                self.config.resource_list().len() as int,
            )
        } else {
            self.invalidated_entries()
        }
    }

    /// The next free handle after the making of the render targets.
    pub open spec fn reconciled_handle(self, width: u32, height: u32) -> u32 {
        if self.rebuilds_framebuffers(width, height) {
            handle_past(
                self.config.pass_list(),
                self.config.resource_list(),
                self.next_handle,
                self.config.resource_list().len() as int,
            )
        } else {
            self.next_handle
        }
    }

    /// The instructions that bring the textures and render targets on the
    /// device up to date with the configuration and the size of the surface:
    /// the invalidation, then the deletion of the old render targets and the
    /// making of the new ones.
    pub open spec fn reconciliation_commands(self, width: u32, height: u32) -> Seq<GpuCommand> {
        if self.rebuilds_framebuffers(width, height) {
            self.invalidation_commands() + all_framebuffer_deletions(
                self.invalidated_entries(),
                self.framebuffers,
                self.framebuffers.len() as int,
            ) + commands_past(
                self.config.pass_list(),
                self.config.resource_list(),
                self.next_handle,
                width,
                height,
                self.config.resource_list().len() as int,
            )
        } else {
            self.invalidation_commands()
        }
    }

    /// `framebuffers` are the render targets after reconciliation: made anew
    /// where that is due, else those that were there.
    pub open spec fn reconciled_framebuffers(
        self,
        framebuffers: Seq<NamedFramebuffer>,
        width: u32,
        height: u32,
    ) -> bool {
        if self.rebuilds_framebuffers(width, height) {
            built(
                framebuffers,
                self.config.pass_list(),
                self.config.resource_list(),
                self.next_handle,
                width,
                height,
                self.config.resource_list().len() as int,
            )
        } else {
            framebuffers == self.framebuffers
        }
    }
}

impl Effect {
    /// Brings the resource table and the render targets up to date with the
    /// configuration and the size of the output surface.
    fn reconcile(&mut self, width: u32, height: u32, commands: &mut Vec<GpuCommand>)
        ensures
            final(self)@ == (EffectView {
                entries: old(self)@.reconciled_entries(width, height),
                framebuffers: final(self)@.framebuffers,
                next_handle: old(self)@.reconciled_handle(width, height),
                ..old(self)@
            }),
            old(self)@.reconciled_framebuffers(final(self)@.framebuffers, width, height),
            final(commands)@ == old(commands)@ + old(self)@.reconciliation_commands(width, height),
    {
        let rebuild = self.config_dirty || self.window_width != width || self.window_height
            != height;
        if self.config_dirty {
            gpu_delete_non_buffer_resources(&self.framebuffers, &mut self.resources, commands);
        }
        if rebuild {
            let ghost invalidated = commands@;
            gpu_delete_buffer_resources(&self.framebuffers, &mut self.resources, commands);
            self.framebuffers = gpu_init_framebuffers(
                &self.config,
                width,
                height,
                &mut self.resources,
                &mut self.pool,
                commands,
            );
            assert(commands@ =~= old(commands)@ + old(self)@.reconciliation_commands(
                width,
                height,
            ));
        }
    }
}


impl EffectView {
    /// The staging that opens a frame which compiles the passes anew: after
    /// reconciliation the old passes are deleted, and the staged resource
    /// updates reach the device before the new passes are built.
    pub open spec fn restaged(self, width: u32, height: u32) -> Staging {
        stage_all(
            Staging {
                entries: self.reconciled_entries(width, height),
                next: self.reconciled_handle(width, height),
                commands: first_frame_commands(self.first_draw) + self.reconciliation_commands(
                    width,
                    height,
                ) + pipeline_deletions(self.vertex_array_object, self.passes),
                blobs: Seq::empty(),
                transfers: self.transfers,
            },
            self.staged_resources,
            self.staged_resources.len() as int,
        )
    }
}

/// The compile jobs of a frame and what the renderer keeps of them.
///
/// The renderer keeps the handles of the passes for which a job was written.
/// Without an error that is every pass of the configuration, and the renderer
/// waits for the outcome. With an error, which says that the next pass lacks a
/// shader text, no job is handed out and there is nothing to wait for.
pub open spec fn jobs_written(pre: EffectView, post: EffectView, frame: Frame, first: u32) -> bool {
    let passes = pre.config.pass_list();
    &&& post.next_handle == handle_past_passes(passes, first, post.pending.len() as int)
    &&& forall|p: int|
        0 <= p < post.pending.len() ==> missing_stage(#[trigger] passes[p], pre.shader_cache)
            is None
    &&& forall|p: int|
        0 <= p < post.pending.len() ==> #[trigger] post.pending[p] == pending_of(
            passes[p],
            handle_past_passes(passes, first, p),
        )
    &&& match frame.error {
        None => {
            &&& post.compiling
            &&& post.pending.len() == passes.len()
            &&& frame.jobs@.len() == passes.len()
            &&& forall|p: int|
                0 <= p < frame.jobs@.len() ==> is_job_of(
                    #[trigger] frame.jobs@[p],
                    p,
                    passes[p],
                    pre.config.resource_list(),
                    pre.version,
                    pre.shader_cache,
                    handle_past_passes(passes, first, p),
                )
        },
        Some(error) => {
            &&& !post.compiling
            &&& frame.jobs@.len() == 0
            &&& stopped_at(error, passes, pre.shader_cache, post.pending.len() as int)
        },
    }
}

/// What `draw` does, for an output surface of the given size.
///
/// With a configuration that is not valid, nothing happens beyond the
/// preparations of the very first frame. Otherwise the textures and render
/// targets are reconciled with the configuration and the size of the surface,
/// and both are from then on up to date. If the shader texts have not changed,
/// that is all. If they have, the compiled passes are deleted, the staged
/// resource updates are brought to the device, a vertex array is made, and a
/// compile job is written for every pass.
pub open spec fn drawn(pre: EffectView, post: EffectView, width: u32, height: u32, frame: Frame) -> bool {
    if !pre.config.valid() {
        &&& post == (EffectView { first_draw: false, ..pre })
        &&& frame.commands.commands@ == first_frame_commands(pre.first_draw)
        &&& frame.commands.blobs@.len() == 0
        &&& frame.commands.names@.len() == 0
        &&& frame.jobs@.len() == 0
        &&& frame.error is None
    } else if !pre.pipeline_dirty {
        &&& pre.reconciled_framebuffers(post.framebuffers, width, height)
        &&& post == (EffectView {
            window_width: width,
            window_height: height,
            config_dirty: false,
            first_draw: false,
            entries: pre.reconciled_entries(width, height),
            next_handle: pre.reconciled_handle(width, height),
            framebuffers: post.framebuffers,
            ..pre
        })
        &&& frame.commands.commands@ == first_frame_commands(pre.first_draw)
            + pre.reconciliation_commands(width, height)
        &&& frame.commands.blobs@.len() == 0
        &&& frame.commands.names@.len() == 0
        &&& frame.jobs@.len() == 0
        &&& frame.error is None
    } else {
        let s = pre.restaged(width, height);
        &&& pre.reconciled_framebuffers(post.framebuffers, width, height)
        &&& post == (EffectView {
            window_width: width,
            window_height: height,
            config_dirty: false,
            pipeline_dirty: false,
            first_draw: false,
            entries: s.entries,
            transfers: s.transfers,
            staged_resources: Seq::empty(),
            passes: Seq::empty(),
            vertex_array_object: s.next,
            framebuffers: post.framebuffers,
            pending: post.pending,
            compiling: post.compiling,
            next_handle: post.next_handle,
            ..pre
        })
        &&& frame.commands.commands@ == s.commands.push(
            GpuCommand::CreateVertexArray { vertex_array: s.next },
        )
        &&& blob_views(frame.commands.blobs@) == s.blobs
        &&& frame.commands.names@.len() == 0
        &&& jobs_written(pre, post, frame, handle_after(s.next, 1))
    }
}

fn pending_passes(jobs: &Vec<CompileJob>) -> (pending: Vec<PendingPass>)
    ensures
        pending@.len() == jobs@.len(),
        forall|p: int| 0 <= p < pending@.len() ==> #[trigger] pending@[p] == jobs@[p].pending(),
{
    let mut pending: Vec<PendingPass> = Vec::new();
    let mut p: usize = 0;
    while p < jobs.len()
        invariant
            p <= jobs.len(),
            pending@.len() == p,
            forall|q: int| 0 <= q < p ==> #[trigger] pending@[q] == jobs@[q].pending(),
        decreases jobs.len() - p,
    {
        pending.push(jobs[p].handles());
        p = p + 1;
    }
    pending
}

impl Effect {
    /// Opens a frame for an output surface of the given size.
    ///
    /// The instructions that come back are to be carried out, then the jobs
    /// compiled, in order and up to the first that fails, and then
    /// `finish_draw` is to be called with the outcome. With a configuration
    /// that did not pass validation the frame is empty.
    pub fn draw(&mut self, window_width: u32, window_height: u32) -> (frame: Frame)
        ensures
            drawn(old(self)@, final(self)@, window_width, window_height, frame),
    {
        let mut list = CommandList::new();
        if self.first_draw {
            self.first_draw = false;
            list.commands.push(GpuCommand::Enable { capability: TEXTURE_CUBE_MAP_SEAMLESS });
            list.commands.push(GpuCommand::Enable { capability: PROGRAM_POINT_SIZE });
        }
        assert(list.commands@ =~= first_frame_commands(old(self)@.first_draw));
        if !self.config.is_ok() {
            return Frame { commands: list, jobs: Vec::new(), error: None };
        }
        let pipeline_need_init = self.pipeline_dirty;
        self.reconcile(window_width, window_height, &mut list.commands);
        self.config_dirty = false;
        self.pipeline_dirty = false;
        self.window_width = window_width;
        self.window_height = window_height;
        if !pipeline_need_init {
            return Frame { commands: list, jobs: Vec::new(), error: None };
        }
        gpu_delete_pipeline_resources(&mut self.pipeline, &mut list.commands);
        assert(blob_views(list.blobs@) =~= Seq::<Seq<u8>>::empty());
        gpu_stage_resources(
            &self.staged_resources,
            &mut self.resources,
            &mut self.pool,
            &mut list,
            &mut self.pbo_texture_unpack_list,
        );
        self.staged_resources.clear();
        let ghost s = old(self)@.restaged(window_width, window_height);
        assert(self.pool.next == s.next);
        assert(handle_after(s.next, 0) == s.next);
        let vertex_array = self.pool.fresh();
        self.pipeline.vertex_array_object = vertex_array;
        list.commands.push(GpuCommand::CreateVertexArray { vertex_array });
        let ghost first = self.pool.next;
        assert(first == handle_after(s.next, 1));
        let (jobs, error) = compile_jobs(
            &self.config,
            &self.version,
            &self.shader_cache,
            &mut self.pool,
        );
        self.pending = pending_passes(&jobs);
        self.compiling = error.is_none();
        let frame = if error.is_none() {
            Frame { commands: list, jobs, error }
        } else {
            Frame { commands: list, jobs: Vec::new(), error }
        };
        proof {
            assert(self@.staged_resources =~= Seq::empty());
            assert(self@.passes =~= Seq::empty());
            assert(jobs_written(old(self)@, self@, frame, handle_after(s.next, 1)));
        }
        frame
    }
}


/// Why a pass could not be compiled or linked.
#[derive(Debug, Clone)]
pub struct ShaderFailure {
    pub stage: ShaderStage,
    /// What the compiler or the linker had to say.
    pub message: String,
}

/// The error that reports a failure at pass `pass`: an error of pass
/// construction, caused by a compile or link error with the compiler's
/// message. A geometry shader's failure is reported as a fragment shader's.
pub open spec fn failure_error(pass: usize, failure: ShaderFailure) -> Error {
    Error {
        kind: ErrorKind::GLPass(pass),
        cause: Some(
            match failure.stage {
                ShaderStage::Vertex => ErrorKind::GlslVertex(failure.message),
                ShaderStage::Fragment => ErrorKind::GlslFragment(failure.message),
                ShaderStage::Geometry => ErrorKind::GlslFragment(failure.message),
                ShaderStage::Program => ErrorKind::GlslProgram(failure.message),
            },
        ),
    }
}

fn report_failure(pass: usize, failure: &ShaderFailure) -> (error: Error)
    ensures
        error == failure_error(pass, *failure),
{
    let message = failure.message.clone();
    let cause = match failure.stage {
        ShaderStage::Vertex => ErrorKind::GlslVertex(message),
        ShaderStage::Fragment => ErrorKind::GlslFragment(message),
        ShaderStage::Geometry => ErrorKind::GlslFragment(message),
        ShaderStage::Program => ErrorKind::GlslProgram(message),
    };
    Error { kind: ErrorKind::GLPass(pass), cause: Some(cause) }
}

/// How many of the first `n` outcomes are successes with only successes
/// before them.
pub open spec fn leading_ok(outcomes: Seq<Result<PassLocations, ShaderFailure>>, n: int) -> int
    decreases n,
{
    if n <= 0 {
        0
    } else {
        let before = leading_ok(outcomes, n - 1);
        if before == n - 1 && outcomes[n - 1] is Ok {
            n
        } else {
            before
        }
    }
}

/// After the first failure the count of leading successes stays where it is.
pub proof fn lemma_leading_ok_stops(
    outcomes: Seq<Result<PassLocations, ShaderFailure>>,
    p: int,
    n: int,
)
    requires
        0 <= p < n <= outcomes.len(),
        leading_ok(outcomes, p) == p,
        outcomes[p] is Err,
    ensures
        leading_ok(outcomes, n) == p,
    decreases n - p,
{
    if n > p + 1 {
        lemma_leading_ok_stops(outcomes, p, n - 1);
    }
}

/// The names of staged uniforms.
pub open spec fn uniform_names(uniforms: Seq<StagedUniform>) -> Seq<Seq<char>> {
    Seq::new(uniforms.len(), |i: int| uniforms[i].name@)
}

/// What the second half of a frame comes to.
pub struct Rendering {
    pub entries: Seq<ResourceEntry>,
    pub framebuffers: Seq<NamedFramebuffer>,
    pub uniform_buffers: Seq<NamedBuffer>,
    pub next_handle: u32,
    pub commands: Seq<GpuCommand>,
    pub blobs: Seq<Seq<u8>>,
    pub names: Seq<Seq<char>>,
}

impl EffectView {
    /// The number of outcomes that `finish_draw` looks at: no more than there
    /// are passes in the configuration, and no more than have handles.
    pub open spec fn install_limit(self, outcomes: int) -> int {
        let passes = self.config.pass_list().len() as int;
        let pending = self.pending.len() as int;
        if outcomes <= pending && outcomes <= passes {
            outcomes
        } else if pending <= passes {
            pending
        } else {
            passes
        }
    }

    /// What the drawing of a frame starts from: the resource table after the
    /// staged resource updates, the render targets as they are, and the
    /// instructions up to the binding of the vertex array.
    pub open spec fn begun(self, passes: Seq<GLPass>, connect: bool) -> Drawing {
        let nothing = Connecting { commands: Seq::empty(), names: Seq::empty() };
        let c = if connect {
            connect_all(nothing, self.uniform_buffers, passes, self.uniform_buffers.len() as int)
        } else {
            nothing
        };
        let s = stage_all(
            Staging {
                entries: self.entries,
                next: self.next_handle,
                commands: c.commands,
                blobs: Seq::empty(),
                transfers: self.transfers,
            },
            self.staged_resources,
            self.staged_resources.len() as int,
        );
        let b = stage_blocks(
            Blocks {
                buffers: self.uniform_buffers,
                next: s.next,
                commands: s.commands,
                blobs: s.blobs,
                names: c.names,
            },
            self.staged_blocks,
            passes,
            self.staged_blocks.len() as int,
        );
        Drawing {
            entries: s.entries,
            framebuffers: self.framebuffers,
            commands: b.commands.push(
                GpuCommand::BindVertexArray { vertex_array: self.vertex_array_object },
            ),
        }
    }

    /// The state of the drawing when the first `n` passes of a frame have
    /// been drawn.
    pub open spec fn drawn_up_to(self, passes: Seq<GLPass>, connect: bool, n: int) -> Drawing {
        let b = self.first_name(passes, connect);
        draw_passes(
            self.begun(passes, connect),
            passes,
            self.config.pass_list(),
            self.window_width,
            self.window_height,
            self.staged_uniforms,
            b,
            n,
        )
    }

    /// The place in the list of names at which the names of the staged
    /// uniform values begin.
    pub open spec fn first_name(self, passes: Seq<GLPass>, connect: bool) -> int {
        let nothing = Connecting { commands: Seq::empty(), names: Seq::empty() };
        let c = if connect {
            connect_all(nothing, self.uniform_buffers, passes, self.uniform_buffers.len() as int)
        } else {
            nothing
        };
        let s = stage_all(
            Staging {
                entries: self.entries,
                next: self.next_handle,
                commands: c.commands,
                blobs: Seq::empty(),
                transfers: self.transfers,
            },
            self.staged_resources,
            self.staged_resources.len() as int,
        );
        stage_blocks(
            Blocks {
                buffers: self.uniform_buffers,
                next: s.next,
                commands: s.commands,
                blobs: s.blobs,
                names: c.names,
            },
            self.staged_blocks,
            passes,
            self.staged_blocks.len() as int,
        ).names.len() as int
    }

    /// The second half of a frame, drawn with the compiled passes `passes`.
    ///
    /// In this order: the uniform buffers are connected to the passes, if the
    /// passes are new; the staged resource updates and the staged uniform
    /// blocks reach the device; every enabled pass is drawn; the transfers
    /// from the pixel transfer buffers are made.
    pub open spec fn rendered(self, passes: Seq<GLPass>, connect: bool) -> Rendering {
        let nothing = Connecting { commands: Seq::empty(), names: Seq::empty() };
        let c = if connect {
            connect_all(nothing, self.uniform_buffers, passes, self.uniform_buffers.len() as int)
        } else {
            nothing
        };
        let s = stage_all(
            Staging {
                entries: self.entries,
                next: self.next_handle,
                commands: c.commands,
                blobs: Seq::empty(),
                transfers: self.transfers,
            },
            self.staged_resources,
            self.staged_resources.len() as int,
        );
        let b = stage_blocks(
            Blocks {
                buffers: self.uniform_buffers,
                next: s.next,
                commands: s.commands,
                blobs: s.blobs,
                names: c.names,
            },
            self.staged_blocks,
            passes,
            self.staged_blocks.len() as int,
        );
        let d = draw_passes(
            Drawing {
                entries: s.entries,
                framebuffers: self.framebuffers,
                commands: b.commands.push(
                    GpuCommand::BindVertexArray { vertex_array: self.vertex_array_object },
                ),
            },
            passes,
            self.config.pass_list(),
            self.window_width,
            self.window_height,
            self.staged_uniforms,
            b.names.len() as int,
            passes.len() as int,
        );
        Rendering {
            entries: d.entries,
            framebuffers: d.framebuffers,
            uniform_buffers: b.buffers,
            next_handle: b.next,
            commands: d.commands + transfer_commands(s.transfers, s.transfers.len() as int),
            blobs: b.blobs,
            names: b.names + uniform_names(self.staged_uniforms),
        }
    }
}

/// What `finish_draw` does with the outcomes of the compile jobs.
///
/// With a configuration that is not valid, nothing. Otherwise, if `draw` has
/// asked for passes to be compiled, a compiled pass is built for every
/// outcome up to the first failure. A failure ends the call with its error.
/// A pipeline that has not a pass for every pass of the configuration is not
/// drawn with: the staged resource updates are dropped and nothing else
/// happens. A whole pipeline is drawn with, as `EffectView::rendered` says,
/// and the staged resource updates and uniform values are used up.
pub open spec fn finished(
    pre: EffectView,
    post: EffectView,
    outcomes: Seq<Result<PassLocations, ShaderFailure>>,
    frame: Frame,
) -> bool {
    if !pre.config.valid() {
        post == pre && frame.is_empty()
    } else {
        let limit = pre.install_limit(outcomes.len() as int);
        let count = leading_ok(outcomes, limit);
        let settled = EffectView {
            passes: post.passes,
            pending: if pre.compiling {
                Seq::empty()
            } else {
                pre.pending
            },
            compiling: false,
            ..pre
        };
        &&& frame.jobs@.len() == 0
        &&& if pre.compiling {
            &&& post.passes.len() == count
            &&& forall|p: int|
                0 <= p < count ==> is_pass_of(
                    #[trigger] post.passes[p],
                    pre.config.pass_list()[p],
                    pre.pending[p],
                    outcomes[p]->Ok_0,
                    pre.entries,
                )
        } else {
            post.passes == pre.passes
        }
        &&& if pre.compiling && count < limit {
            &&& post == settled
            &&& frame.error == Some(failure_error(count as usize, outcomes[count]->Err_0))
            &&& frame.commands.commands@.len() == 0
            &&& frame.commands.blobs@.len() == 0
            &&& frame.commands.names@.len() == 0
        } else if !settled.pipeline_ok() {
            &&& post == (EffectView { staged_resources: Seq::empty(), ..settled })
            &&& frame.is_empty()
        } else {
            let r = pre.rendered(post.passes, pre.compiling);
            &&& post == (EffectView {
                entries: r.entries,
                framebuffers: r.framebuffers,
                uniform_buffers: r.uniform_buffers,
                next_handle: r.next_handle,
                staged_resources: Seq::empty(),
                staged_uniforms: Seq::empty(),
                transfers: Seq::empty(),
                ..settled
            })
            &&& frame.error is None
            &&& frame.commands.commands@ == r.commands
            &&& blob_views(frame.commands.blobs@) == r.blobs
            &&& name_views(frame.commands.names@) == r.names
        }
    }
}

fn push_uniform_names(uniforms: &Vec<StagedUniform>, list: &mut CommandList)
    ensures
        name_views(final(list).names@) == name_views(old(list).names@) + uniform_names(uniforms@),
        final(list).names@.len() == old(list).names@.len() + uniforms@.len(),
        final(list).commands == old(list).commands,
        final(list).blobs == old(list).blobs,
{
    let mut i: usize = 0;
    assert(name_views(list.names@) =~= name_views(old(list).names@) + uniform_names(
        uniforms@,
    ).take(0));
    while i < uniforms.len()
        invariant
            i <= uniforms.len(),
            list.names@.len() == old(list).names@.len() + i,
            list.commands == old(list).commands,
            list.blobs == old(list).blobs,
            name_views(list.names@) == name_views(old(list).names@) + uniform_names(
                uniforms@,
            ).take(i as int),
        decreases uniforms.len() - i,
    {
        let ghost before = name_views(list.names@);
        list.names.push(uniforms[i].name.clone());
        assert(name_views(list.names@) =~= before.push(uniforms@[i as int].name@));
        i = i + 1;
        assert(name_views(list.names@) =~= name_views(old(list).names@) + uniform_names(
            uniforms@,
        ).take(i as int));
    }
    assert(uniform_names(uniforms@).take(uniforms@.len() as int) =~= uniform_names(uniforms@));
}

impl Effect {
    /// Builds the compiled passes from the outcomes of the compile jobs.
    fn install(&mut self, outcomes: &Vec<Result<PassLocations, ShaderFailure>>) -> (failure: Option<
        Error,
    >)
        requires
            old(self)@.compiling,
        ensures
            final(self)@ == (EffectView {
                passes: final(self)@.passes,
                pending: Seq::empty(),
                compiling: false,
                ..old(self)@
            }),
            final(self)@.passes.len() == leading_ok(
                outcomes@,
                old(self)@.install_limit(outcomes@.len() as int),
            ),
            forall|p: int|
                0 <= p < final(self)@.passes.len() ==> is_pass_of(
                    #[trigger] final(self)@.passes[p],
                    old(self)@.config.pass_list()[p],
                    old(self)@.pending[p],
                    outcomes@[p]->Ok_0,
                    old(self)@.entries,
                ),
            final(self)@.passes.len() < old(self)@.install_limit(outcomes@.len() as int)
                ==> failure == Some(
                failure_error(
                    final(self)@.passes.len() as usize,
                    outcomes@[final(self)@.passes.len() as int]->Err_0,
                ),
            ),
            final(self)@.passes.len() >= old(self)@.install_limit(outcomes@.len() as int)
                ==> failure is None,
    {
        let ghost limit = self@.install_limit(outcomes@.len() as int);
        let mut passes: Vec<GLPass> = Vec::new();
        let mut failure: Option<Error> = None;
        let mut p: usize = 0;
        let configured = self.config.passes();
        while p < outcomes.len() && p < self.pending.len() && p < configured.len()
            && failure.is_none()
            invariant
                p <= limit,
                *self == *old(self),
                configured@ == self.config.pass_list(),
                limit == self@.install_limit(outcomes@.len() as int),
                passes@.len() == p,
                failure is None ==> leading_ok(outcomes@, p as int) == p,
                failure is Some ==> p < limit && leading_ok(outcomes@, limit) == p && failure
                    == Some(failure_error(p, outcomes@[p as int]->Err_0)),
                forall|q: int|
                    0 <= q < p ==> is_pass_of(
                        #[trigger] passes@[q],
                        configured@[q],
                        self.pending@[q],
                        outcomes@[q]->Ok_0,
                        self.resources.entries@,
                    ),
            decreases
                    outcomes.len() - p,
                    if failure is None {
                        1int
                    } else {
                        0int
                    },
        {
            match &outcomes[p] {
                Ok(locations) => {
                    passes.push(
                        build_pass(&configured[p], self.pending[p], locations, &self.resources),
                    );
                    p = p + 1;
                },
                Err(failed) => {
                    failure = Some(report_failure(p, failed));
                    proof {
                        lemma_leading_ok_stops(outcomes@, p as int, limit);
                    }
                },
            }
        }
        self.pipeline.passes = passes;
        self.pending = Vec::new();
        self.compiling = false;
        assert(self@.pending =~= Seq::empty());
        failure
    }

    /// Closes the frame that `draw` has opened.
    ///
    /// `outcomes` holds what became of the compile jobs that `draw` handed
    /// out, in their order and up to the first failure; it is empty where
    /// there was no job. The instructions that come back are to be carried
    /// out. An error reports the pass that failed to compile; nothing is
    /// drawn then, and nothing will be until the shader texts change.
    pub fn finish_draw(&mut self, outcomes: Vec<Result<PassLocations, ShaderFailure>>) -> (frame:
        Frame)
        ensures
            finished(old(self)@, final(self)@, outcomes@, frame),
    {
        let mut list = CommandList::new();
        if !self.config.is_ok() {
            return Frame { commands: list, jobs: Vec::new(), error: None };
        }
        let installing = self.compiling;
        if installing {
            let failure = self.install(&outcomes);
            if failure.is_some() {
                return Frame { commands: list, jobs: Vec::new(), error: failure };
            }
        }
        if !self.gpu_pipeline_is_ok() {
            self.staged_resources.clear();
            assert(self@.staged_resources =~= Seq::empty());
            return Frame { commands: list, jobs: Vec::new(), error: None };
        }
        let ghost settled = self@;
        let ghost passes = self@.passes;
        let ghost r = old(self)@.rendered(passes, installing);
        let ghost nothing = Connecting { commands: Seq::empty(), names: Seq::empty() };
        assert(name_views(list.names@) =~= Seq::<Seq<char>>::empty());
        assert(blob_views(list.blobs@) =~= Seq::<Seq<u8>>::empty());
        assert(list.commands@ =~= Seq::<GpuCommand>::empty());
        if installing {
            connect_uniform_buffers(&self.pipeline, &mut list);
        }
        let ghost c = if installing {
            connect_all(
                nothing,
                settled.uniform_buffers,
                passes,
                settled.uniform_buffers.len() as int,
            )
        } else {
            nothing
        };
        assert(list.commands@ == c.commands && name_views(list.names@) == c.names);
        assert(blob_views(list.blobs@) =~= Seq::<Seq<u8>>::empty());
        gpu_stage_resources(
            &self.staged_resources,
            &mut self.resources,
            &mut self.pool,
            &mut list,
            &mut self.pbo_texture_unpack_list,
        );
        let ghost s = stage_all(
            Staging {
                entries: settled.entries,
                next: settled.next_handle,
                commands: c.commands,
                blobs: Seq::empty(),
                transfers: settled.transfers,
            },
            settled.staged_resources,
            settled.staged_resources.len() as int,
        );
        assert(self.resources.entries@ == s.entries);
        assert(list.commands@ == s.commands);
        assert(name_views(list.names@) == c.names);
        self.staged_resources.clear();
        gpu_stage_buffer_data(
            &self.staged_uniform_buffer,
            &mut self.pipeline,
            &mut self.pool,
            &mut list,
        );
        let ghost b = stage_blocks(
            Blocks {
                buffers: settled.uniform_buffers,
                next: s.next,
                commands: s.commands,
                blobs: s.blobs,
                names: c.names,
            },
            settled.staged_blocks,
            passes,
            settled.staged_blocks.len() as int,
        );
        assert(list.commands@ == b.commands);
        assert(name_views(list.names@) == b.names);
        let first_name = list.names.len();
        assert(first_name == b.names.len());
        push_uniform_names(&self.staged_uniforms, &mut list);
        let total = list.names.len();
        assert(first_name + self.staged_uniforms@.len() == total);
        gpu_draw(
            &self.config,
            &self.pipeline,
            self.window_width,
            self.window_height,
            &self.staged_uniforms,
            first_name,
            &mut self.resources,
            &mut self.framebuffers,
            &mut list.commands,
        );
        let ghost d = draw_passes(
            Drawing {
                entries: s.entries,
                framebuffers: settled.framebuffers,
                commands: b.commands.push(
                    GpuCommand::BindVertexArray { vertex_array: settled.vertex_array_object },
                ),
            },
            passes,
            settled.config.pass_list(),
            settled.window_width,
            settled.window_height,
            settled.staged_uniforms,
            b.names.len() as int,
            passes.len() as int,
        );
        assert(self.resources.entries@ == d.entries);
        assert(self.framebuffers@ == d.framebuffers);
        assert(list.commands@ == d.commands);
        self.staged_uniforms.clear();
        gpu_pbo_to_texture_transfer(&mut self.pbo_texture_unpack_list, &mut list.commands);
        proof {
            assert(self@.staged_resources =~= Seq::empty());
            assert(self@.staged_uniforms =~= Seq::empty());
            assert(self@.transfers =~= Seq::empty());
            assert(self@.entries == r.entries);
            assert(self@.framebuffers == r.framebuffers);
            assert(self@.uniform_buffers == r.uniform_buffers);
            assert(self@.next_handle == r.next_handle);
            assert(list.commands@ == r.commands);
            assert(blob_views(list.blobs@) == r.blobs);
            assert(name_views(list.names@) == r.names);
        }
        Frame { commands: list, jobs: Vec::new(), error: None }
    }
}


/// The per-frame state that every shader sees, as the uniform block
/// `GRIM_STATE`. Every number is an IEEE-754 single precision bit pattern.
///
/// The fields stand in the order of the block's declaration in the shader
/// preamble; `to_bytes` writes them in this order.
#[derive(Debug, Clone, Copy)]
pub struct EffectState {
    /// Pointer position, and where the button went down.
    pub mouse: [u32; 4],
    /// Year, month, day, seconds since midnight.
    pub date: [u32; 4],
    /// Width, height, width over height.
    pub window_resolution: [u32; 3],
    pub time: u32,
    pub time_delta: u32,
    pub frame: u32,
    pub frame_rate: u32,
}

/// The name of the uniform block that carries the per-frame state.
pub open spec fn state_block_name() -> Seq<char> {
    "GRIM_STATE"@
}

/// The size of the per-frame state block in bytes.
pub const STATE_BLOCK_SIZE: usize = 60;

/// The first `n` of the given words as bytes, each word with its lowest byte
/// first.
pub open spec fn word_bytes(words: Seq<u32>, n: int) -> Seq<u8>
    decreases n,
{
    if n <= 0 {
        Seq::empty()
    } else {
        word_bytes(words, n - 1) + vstd::bytes::spec_u32_to_le_bytes(words[n - 1])
    }
}

impl EffectState {
    /// The fifteen numbers of the state, in the order of the block's fields.
    pub open spec fn words(self) -> Seq<u32> {
        self.mouse@ + self.date@ + self.window_resolution@ + seq![
            self.time,
            self.time_delta,
            self.frame,
            self.frame_rate,
        ]
    }

    /// The content of the uniform block: the words, four bytes each.
    pub open spec fn bytes(self) -> Seq<u8> {
        word_bytes(self.words(), 15)
    }

    /// Writes the state as the content of its uniform block.
    pub fn to_bytes(&self) -> (bytes: Vec<u8>)
        ensures
            bytes@ == self.bytes(),
            bytes@.len() == STATE_BLOCK_SIZE,
    {
        let words: [u32; 15] = [
            self.mouse[0],
            self.mouse[1],
            self.mouse[2],
            self.mouse[3],
            self.date[0],
            self.date[1],
            self.date[2],
            self.date[3],
            self.window_resolution[0],
            self.window_resolution[1],
            self.window_resolution[2],
            self.time,
            self.time_delta,
            self.frame,
            self.frame_rate,
        ];
        assert(words@ =~= self.words());
        let mut bytes: Vec<u8> = Vec::new();
        let mut i: usize = 0;
        while i < 15
            invariant
                i <= 15,
                words@ == self.words(),
                bytes@ == word_bytes(words@, i as int),
                bytes@.len() == 4 * i,
            decreases 15 - i,
        {
            let mut word = vstd::bytes::u32_to_le_bytes(words[i]);
            bytes.append(&mut word);
            i = i + 1;
        }
        bytes
    }
}

/// Uniform `i` is the first staged uniform with the name `name` and as many
/// components as `value` has.
pub open spec fn first_uniform(
    uniforms: Seq<StagedUniform>,
    name: Seq<char>,
    value: UniformValue,
    i: int,
) -> bool {
    &&& 0 <= i < uniforms.len()
    &&& uniforms[i].name@ == name
    &&& uniforms[i].value.same_size(value)
    &&& forall|j: int|
        0 <= j < i ==> !((#[trigger] uniforms[j]).name@ == name && uniforms[j].value.same_size(
            value,
        ))
}

impl UniformValue {
    /// Whether two values have the same number of components.
    pub open spec fn same_size(self, other: UniformValue) -> bool {
        match (self, other) {
            (UniformValue::Float(_), UniformValue::Float(_)) => true,
            (UniformValue::Vec2(_), UniformValue::Vec2(_)) => true,
            (UniformValue::Vec3(_), UniformValue::Vec3(_)) => true,
            (UniformValue::Vec4(_), UniformValue::Vec4(_)) => true,
            _ => false,
        }
    }

    pub fn has_size_of(&self, other: &UniformValue) -> (r: bool)
        ensures
            r == self.same_size(*other),
    {
        match (self, other) {
            (UniformValue::Float(_), UniformValue::Float(_)) => true,
            (UniformValue::Vec2(_), UniformValue::Vec2(_)) => true,
            (UniformValue::Vec3(_), UniformValue::Vec3(_)) => true,
            (UniformValue::Vec4(_), UniformValue::Vec4(_)) => true,
            _ => false,
        }
    }
}

/// The staged uniforms after one more has been staged: it takes the place of
/// the staged uniform of its name and size, or the last place where there is
/// none.
pub open spec fn with_uniform(uniforms: Seq<StagedUniform>, staged: StagedUniform) -> Seq<
    StagedUniform,
> {
    if exists|i: int| first_uniform(uniforms, staged.name@, staged.value, i) {
        uniforms.update(
            choose|i: int| first_uniform(uniforms, staged.name@, staged.value, i),
            staged,
        )
    } else {
        uniforms.push(staged)
    }
}

/// Block `i` is the first staged block with the name `name`.
pub open spec fn first_block(blocks: Seq<StagedBlock>, name: Seq<char>, i: int) -> bool {
    &&& 0 <= i < blocks.len()
    &&& blocks[i].name@ == name
    &&& forall|j: int| 0 <= j < i ==> (#[trigger] blocks[j]).name@ != name
}

/// `post` is what the staged blocks `pre` become when `data` is staged for
/// the block `name`: the data takes the place of the block's staged data, or
/// the block joins the others at the end.
pub open spec fn block_staged(
    pre: Seq<StagedBlock>,
    post: Seq<StagedBlock>,
    name: Seq<char>,
    data: Seq<u8>,
) -> bool {
    if exists|i: int| first_block(pre, name, i) {
        let at = choose|i: int| first_block(pre, name, i);
        &&& post.len() == pre.len()
        &&& post[at].name@ == name
        &&& post[at].data@ == data
        &&& forall|j: int| 0 <= j < pre.len() && j != at ==> #[trigger] post[j] == pre[j]
    } else {
        &&& post.len() == pre.len() + 1
        &&& post[pre.len() as int].name@ == name
        &&& post[pre.len() as int].data@ == data
        &&& forall|j: int| 0 <= j < pre.len() ==> #[trigger] post[j] == pre[j]
    }
}

impl Effect {
    /// Stages a uniform value for the next frame, in place of what is staged
    /// under the same name with the same number of components.
    pub fn stage_uniform(&mut self, name: String, value: UniformValue)
        ensures
            final(self)@ == (EffectView {
                staged_uniforms: with_uniform(
                    old(self)@.staged_uniforms,
                    StagedUniform { name, value },
                ),
                ..old(self)@
            }),
    {
        let mut found: Option<usize> = None;
        let mut i: usize = 0;
        while i < self.staged_uniforms.len() && found.is_none()
            invariant
                i <= self.staged_uniforms@.len(),
                *self == *old(self),
                found is None ==> forall|j: int|
                    0 <= j < i ==> !((#[trigger] self.staged_uniforms@[j]).name@ == name@
                        && self.staged_uniforms@[j].value.same_size(value)),
                found is Some ==> first_uniform(
                    self.staged_uniforms@,
                    name@,
                    value,
                    found->0 as int,
                ),
            decreases
                    self.staged_uniforms@.len() - i,
                    if found is None {
                        1int
                    } else {
                        0int
                    },
        {
            if self.staged_uniforms[i].name == name && self.staged_uniforms[i].value.has_size_of(
                &value,
            ) {
                found = Some(i);
            } else {
                i = i + 1;
            }
        }
        match found {
            Some(at) => {
                proof {
                    let k = choose|k: int| first_uniform(self.staged_uniforms@, name@, value, k);
                    assert(first_uniform(self.staged_uniforms@, name@, value, at as int));
                    assert(k == at);
                }
                let ghost goal = with_uniform(
                    old(self)@.staged_uniforms,
                    StagedUniform { name, value },
                );
                let ghost staged = StagedUniform { name, value };
                let ghost chosen = choose|i: int|
                    first_uniform(old(self)@.staged_uniforms, staged.name@, staged.value, i);
                assert(first_uniform(
                    old(self)@.staged_uniforms,
                    staged.name@,
                    staged.value,
                    at as int,
                ));
                assert(chosen == at);
                assert(goal == old(self)@.staged_uniforms.update(
                    at as int,
                    StagedUniform { name, value },
                ));
                self.staged_uniforms[at] = StagedUniform { name, value };
                assert(self.staged_uniforms@ =~= goal);
            },
            None => {
                let ghost goal = with_uniform(
                    old(self)@.staged_uniforms,
                    StagedUniform { name, value },
                );
                assert(!(exists|k: int|
                    first_uniform(old(self)@.staged_uniforms, name@, value, k)));
                self.staged_uniforms.push(StagedUniform { name, value });
                assert(self.staged_uniforms@ =~= goal);
            },
        }
    }

    pub fn stage_uniform1f(&mut self, name: String, data: u32)
        ensures
            final(self)@ == (EffectView {
                staged_uniforms: with_uniform(
                    old(self)@.staged_uniforms,
                    StagedUniform { name, value: UniformValue::Float(data) },
                ),
                ..old(self)@
            }),
    {
        self.stage_uniform(name, UniformValue::Float(data));
    }

    pub fn stage_uniform2f(&mut self, name: String, data: [u32; 2])
        ensures
            final(self)@ == (EffectView {
                staged_uniforms: with_uniform(
                    old(self)@.staged_uniforms,
                    StagedUniform { name, value: UniformValue::Vec2(data) },
                ),
                ..old(self)@
            }),
    {
        self.stage_uniform(name, UniformValue::Vec2(data));
    }

    pub fn stage_uniform3f(&mut self, name: String, data: [u32; 3])
        ensures
            final(self)@ == (EffectView {
                staged_uniforms: with_uniform(
                    old(self)@.staged_uniforms,
                    StagedUniform { name, value: UniformValue::Vec3(data) },
                ),
                ..old(self)@
            }),
    {
        self.stage_uniform(name, UniformValue::Vec3(data));
    }

    pub fn stage_uniform4f(&mut self, name: String, data: [u32; 4])
        ensures
            final(self)@ == (EffectView {
                staged_uniforms: with_uniform(
                    old(self)@.staged_uniforms,
                    StagedUniform { name, value: UniformValue::Vec4(data) },
                ),
                ..old(self)@
            }),
    {
        self.stage_uniform(name, UniformValue::Vec4(data));
    }

    /// Stages the content of a uniform block for the coming frames, in place
    /// of what is staged for the block.
    pub fn stage_buffer_data(&mut self, name: &str, data: Vec<u8>)
        ensures
            block_staged(old(self)@.staged_blocks, final(self)@.staged_blocks, name@, data@),
            final(self)@ == (EffectView {
                staged_blocks: final(self)@.staged_blocks,
                ..old(self)@
            }),
    {
        let owned = String::from_str(name);
        let mut found: Option<usize> = None;
        let mut i: usize = 0;
        while i < self.staged_uniform_buffer.len() && found.is_none()
            invariant
                i <= self.staged_uniform_buffer@.len(),
                *self == *old(self),
                owned@ == name@,
                found is None ==> forall|j: int|
                    0 <= j < i ==> (#[trigger] self.staged_uniform_buffer@[j]).name@ != name@,
                found is Some ==> first_block(self.staged_uniform_buffer@, name@, found->0 as int),
            decreases
                    self.staged_uniform_buffer@.len() - i,
                    if found is None {
                        1int
                    } else {
                        0int
                    },
        {
            if self.staged_uniform_buffer[i].name == owned {
                found = Some(i);
            } else {
                i = i + 1;
            }
        }
        match found {
            Some(at) => {
                proof {
                    let k = choose|k: int| first_block(self.staged_uniform_buffer@, name@, k);
                    assert(first_block(self.staged_uniform_buffer@, name@, at as int));
                    assert(k == at);
                }
                self.staged_uniform_buffer[at] = StagedBlock { name: owned, data };
            },
            None => {
                self.staged_uniform_buffer.push(StagedBlock { name: owned, data });
            },
        }
    }

    /// Stages the per-frame state as the content of the state block that
    /// every shader declares.
    pub fn stage_frame_state(&mut self, state: &EffectState)
        ensures
            block_staged(
                old(self)@.staged_blocks,
                final(self)@.staged_blocks,
                state_block_name(),
                state.bytes(),
            ),
            final(self)@ == (EffectView {
                staged_blocks: final(self)@.staged_blocks,
                ..old(self)@
            }),
    {
        self.stage_state("GRIM_STATE", state);
    }

    /// Stages the per-frame state as the content of the uniform block `name`.
    pub fn stage_state(&mut self, name: &str, state: &EffectState)
        ensures
            block_staged(
                old(self)@.staged_blocks,
                final(self)@.staged_blocks,
                name@,
                state.bytes(),
            ),
            final(self)@ == (EffectView {
                staged_blocks: final(self)@.staged_blocks,
                ..old(self)@
            }),
    {
        self.stage_buffer_data(name, state.to_bytes());
    }
}


/// The value of a scalar or vector uniform of a configuration; none for
/// other resources.
pub open spec fn uniform_value(config: crate::config::ResourceConfig) -> Option<UniformValue> {
    match config {
        crate::config::ResourceConfig::UniformFloat(u) => Some(UniformValue::Float(u.uniform)),
        crate::config::ResourceConfig::UniformVec2(u) => Some(UniformValue::Vec2(u.uniform)),
        crate::config::ResourceConfig::UniformVec3(u) => Some(UniformValue::Vec3(u.uniform)),
        crate::config::ResourceConfig::UniformVec4(u) => Some(UniformValue::Vec4(u.uniform)),
        _ => None,
    }
}

/// The staged uniforms after the uniforms among the first `n` resources of a
/// configuration have been staged, each under its resource's name.
pub open spec fn with_config_uniforms(
    uniforms: Seq<StagedUniform>,
    resources: Seq<crate::config::NamedResource>,
    n: int,
) -> Seq<StagedUniform>
    decreases n,
{
    if n <= 0 {
        uniforms
    } else {
        let before = with_config_uniforms(uniforms, resources, n - 1);
        match uniform_value(resources[n - 1].config) {
            Some(value) => with_uniform(
                before,
                StagedUniform { name: resources[n - 1].name, value },
            ),
            None => before,
        }
    }
}

impl Effect {
    /// Stages the value of every scalar and vector uniform of a
    /// configuration for the next frame.
    pub fn stage_config_uniforms(&mut self, config: &EffectConfig)
        ensures
            final(self)@ == (EffectView {
                staged_uniforms: with_config_uniforms(
                    old(self)@.staged_uniforms,
                    config.resource_list(),
                    config.resource_list().len() as int,
                ),
                ..old(self)@
            }),
    {
        let resources = config.resources();
        let mut r: usize = 0;
        while r < resources.len()
            invariant
                r <= resources.len(),
                resources@ == config.resource_list(),
                self@ == (EffectView {
                    staged_uniforms: with_config_uniforms(
                        old(self)@.staged_uniforms,
                        resources@,
                        r as int,
                    ),
                    ..old(self)@
                }),
            decreases resources.len() - r,
        {
            let value = match &resources[r].config {
                crate::config::ResourceConfig::UniformFloat(u) => Some(
                    UniformValue::Float(u.uniform),
                ),
                crate::config::ResourceConfig::UniformVec2(u) => Some(
                    UniformValue::Vec2(u.uniform),
                ),
                crate::config::ResourceConfig::UniformVec3(u) => Some(
                    UniformValue::Vec3(u.uniform),
                ),
                crate::config::ResourceConfig::UniformVec4(u) => Some(
                    UniformValue::Vec4(u.uniform),
                ),
                _ => None,
            };
            if let Some(value) = value {
                self.stage_uniform(resources[r].name.clone(), value);
            }
            r = r + 1;
        }
    }
}

/// The shader files of the first `n` passes: for every pass its vertex
/// shader, its fragment shader and, if it has one, its geometry shader.
pub open spec fn shader_paths(passes: Seq<crate::config::PassConfig>, n: int) -> Seq<Seq<char>>
    decreases n,
{
    if n <= 0 {
        Seq::empty()
    } else {
        let pass = passes[n - 1];
        let two = shader_paths(passes, n - 1).push(pass.vertex@).push(pass.fragment@);
        match pass.geometry {
            Some(path) => two.push(path@),
            None => two,
        }
    }
}

/// Lists the shader files of a configuration, pass by pass.
pub fn shader_files(config: &EffectConfig) -> (paths: Vec<String>)
    ensures
        crate::error::texts_of(paths@) == shader_paths(
            config.pass_list(),
            config.pass_list().len() as int,
        ),
{
    let passes = config.passes();
    let mut paths: Vec<String> = Vec::new();
    let mut p: usize = 0;
    assert(crate::error::texts_of(paths@) =~= shader_paths(passes@, 0));
    while p < passes.len()
        invariant
            p <= passes.len(),
            passes@ == config.pass_list(),
            crate::error::texts_of(paths@) == shader_paths(passes@, p as int),
        decreases passes.len() - p,
    {
        let ghost before = crate::error::texts_of(paths@);
        paths.push(passes[p].vertex.clone());
        paths.push(passes[p].fragment.clone());
        assert(crate::error::texts_of(paths@) =~= before.push(passes@[p as int].vertex@).push(
            passes@[p as int].fragment@,
        ));
        if let Some(path) = &passes[p].geometry {
            let ghost two = crate::error::texts_of(paths@);
            paths.push(path.clone());
            assert(crate::error::texts_of(paths@) =~= two.push(path@));
        }
        p = p + 1;
    }
    paths
}

} // verus!
