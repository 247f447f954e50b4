use crate::command::GpuCommand;
use crate::config::{EffectConfig, NamedResource, PassConfig};
use crate::draw::{binds, law_draw_binds_from_the_table, lemma_draw_passes_steady, steady};
use crate::effect::{
    drawn, finished, first_frame_commands, leading_ok, EffectView, Frame, ShaderFailure,
};
use crate::feedback::{
    aims_at, all_genuine, buffer_keys_distinct, genuine, goes_round,
    law_feedback_persists_through_frame, lemma_built_targets_agree,
    lemma_built_targets_genuine, lemma_draw_passes_keeps_agreement,
    lemma_draw_passes_keeps_genuine, lemma_draw_passes_keeps_names,
    lemma_genuine_textures_differ, lemma_staging_keeps_agreement,
    lemma_target_position_by_names, names_kept, targets_coherent,
};
use crate::framebuffer::{all_framebuffer_deletions, built, commands_past};
use crate::identity::identity;
use crate::pipeline::{same_sources, GLPass, PassLocations, ShaderSource};
use crate::validate::{
    buffer_issue, buffer_issues, channel_issue, channel_issues, config_issues, first_named,
    has_resource, pass_channel_issues, ConfigIssue,
};
use crate::table::{lookup, ResourceEntry};
use vstd::prelude::*;

verus! {

/// Whether a list of instructions draws anything.
pub open spec fn draws(commands: Seq<GpuCommand>) -> bool {
    exists|i: int| 0 <= i < commands.len() && (#[trigger] commands[i]) is DrawArrays
}

proof fn lemma_buffer_issue_stays(
    passes: Seq<PassConfig>,
    resources: Seq<NamedResource>,
    p: int,
    n: int,
)
    requires
        0 <= p < n <= passes.len(),
        buffer_issue(passes[p], p as usize, resources) is Some,
    ensures
        buffer_issues(passes, resources, n).contains(
            buffer_issue(passes[p], p as usize, resources)->0,
        ),
    decreases n,
{
    let issue = buffer_issue(passes[p], p as usize, resources)->0;
    let before = buffer_issues(passes, resources, n - 1);
    if n - 1 == p {
        assert(before.push(issue)[before.len() as int] == issue);
    } else {
        lemma_buffer_issue_stays(passes, resources, p, n - 1);
        let i = choose|i: int| 0 <= i < before.len() && before[i] == issue;
        match buffer_issue(passes[n - 1], (n - 1) as usize, resources) {
            Some(last) => {
                assert(before.push(last)[i] == issue);
            },
            None => {},
        }
    }
}

proof fn lemma_pass_channel_issue_stays(
    channels: Seq<crate::config::NamedChannel>,
    p: usize,
    resources: Seq<NamedResource>,
    c: int,
    m: int,
)
    requires
        0 <= c < m <= channels.len(),
        channel_issue(channels[c], p, c as usize, resources) is Some,
    ensures
        pass_channel_issues(channels, p, resources, m).contains(
            channel_issue(channels[c], p, c as usize, resources)->0,
        ),
    decreases m,
{
    let issue = channel_issue(channels[c], p, c as usize, resources)->0;
    let before = pass_channel_issues(channels, p, resources, m - 1);
    if m - 1 == c {
        assert(before.push(issue)[before.len() as int] == issue);
    } else {
        lemma_pass_channel_issue_stays(channels, p, resources, c, m - 1);
        let i = choose|i: int| 0 <= i < before.len() && before[i] == issue;
        match channel_issue(channels[m - 1], p, (m - 1) as usize, resources) {
            Some(last) => {
                assert(before.push(last)[i] == issue);
            },
            None => {},
        }
    }
}

proof fn lemma_channel_issue_stays(
    passes: Seq<PassConfig>,
    resources: Seq<NamedResource>,
    p: int,
    c: int,
    n: int,
)
    requires
        0 <= p < n <= passes.len(),
        0 <= c < passes[p].uniform_to_channel@.len(),
        channel_issue(passes[p].uniform_to_channel@[c], p as usize, c as usize, resources)
            is Some,
    ensures
        channel_issues(passes, resources, n).contains(
            channel_issue(passes[p].uniform_to_channel@[c], p as usize, c as usize, resources)->0,
        ),
    decreases n,
{
    let issue = channel_issue(
        passes[p].uniform_to_channel@[c],
        p as usize,
        c as usize,
        resources,
    )->0;
    let before = channel_issues(passes, resources, n - 1);
    let channels = passes[n - 1].uniform_to_channel@;
    let last = pass_channel_issues(channels, (n - 1) as usize, resources, channels.len() as int);
    if n - 1 == p {
        lemma_pass_channel_issue_stays(channels, p as usize, resources, c, channels.len() as int);
        let i = choose|i: int| 0 <= i < last.len() && last[i] == issue;
        assert((before + last)[before.len() + i] == issue);
    } else {
        lemma_channel_issue_stays(passes, resources, p, c, n - 1);
        let i = choose|i: int| 0 <= i < before.len() && before[i] == issue;
        assert((before + last)[i] == issue);
    }
}

/// A pass that renders into a buffer which no resource declares makes the
/// configuration invalid, and validation names the pass.
pub proof fn law_dangling_buffer_is_reported(config: EffectConfig, p: int)
    requires
        0 <= p < config.pass_list().len(),
        config.pass_list()[p].buffer is Some,
        !has_resource(config.resource_list(), config.pass_list()[p].buffer->0@),
    ensures
        !config.valid(),
        config_issues(config.pass_list(), config.resource_list()).contains(
            ConfigIssue::BufferNotFound { pass: p as usize },
        ),
{
    let passes = config.pass_list();
    let resources = config.resource_list();
    lemma_buffer_issue_stays(passes, resources, p, passes.len() as int);
    let a = buffer_issues(passes, resources, passes.len() as int);
    let issue = ConfigIssue::BufferNotFound { pass: p as usize };
    let i = choose|i: int| 0 <= i < a.len() && a[i] == issue;
    assert(config_issues(passes, resources)[i] == issue);
}

/// A channel that samples a resource which does not exist makes the
/// configuration invalid, and validation names the pass and the channel.
pub proof fn law_dangling_channel_is_reported(config: EffectConfig, p: int, c: int)
    requires
        0 <= p < config.pass_list().len(),
        0 <= c < config.pass_list()[p].uniform_to_channel@.len(),
        !has_resource(
            config.resource_list(),
            config.pass_list()[p].uniform_to_channel@[c].channel.name(),
        ),
    ensures
        !config.valid(),
        config_issues(config.pass_list(), config.resource_list()).contains(
            ConfigIssue::ResourceNotFound { pass: p as usize, channel: c as usize },
        ),
{
    let passes = config.pass_list();
    let resources = config.resource_list();
    lemma_channel_issue_stays(passes, resources, p, c, passes.len() as int);
    let a = buffer_issues(passes, resources, passes.len() as int);
    let b = channel_issues(passes, resources, passes.len() as int);
    let issue = ConfigIssue::ResourceNotFound { pass: p as usize, channel: c as usize };
    let i = choose|i: int| 0 <= i < b.len() && b[i] == issue;
    assert(config_issues(passes, resources)[a.len() + i] == issue);
}

/// A channel that samples a scalar or vector uniform makes the configuration
/// invalid, and validation names the pass and the channel.
pub proof fn law_sampled_uniform_is_reported(config: EffectConfig, p: int, c: int, r: int)
    requires
        0 <= p < config.pass_list().len(),
        0 <= c < config.pass_list()[p].uniform_to_channel@.len(),
        first_named(
            config.resource_list(),
            config.pass_list()[p].uniform_to_channel@[c].channel.name(),
            r,
        ),
        config.resource_list()[r].config.is_uniform(),
    ensures
        !config.valid(),
        config_issues(config.pass_list(), config.resource_list()).contains(
            ConfigIssue::UniformAsSampler { pass: p as usize, channel: c as usize },
        ),
{
    let passes = config.pass_list();
    let resources = config.resource_list();
    let name = passes[p].uniform_to_channel@[c].channel.name();
    crate::validate::lemma_first_named_is_choice(resources, name, r);
    lemma_channel_issue_stays(passes, resources, p, c, passes.len() as int);
    let a = buffer_issues(passes, resources, passes.len() as int);
    let b = channel_issues(passes, resources, passes.len() as int);
    let issue = ConfigIssue::UniformAsSampler { pass: p as usize, channel: c as usize };
    let i = choose|i: int| 0 <= i < b.len() && b[i] == issue;
    assert(config_issues(passes, resources)[a.len() + i] == issue);
}

/// With a configuration that is not valid, a frame draws nothing: `draw`
/// does no more than the preparations of the very first frame and asks for
/// no pass to be compiled, `finish_draw` does nothing at all, and the state
/// stays what it was.
pub proof fn law_validation_gate(
    pre: EffectView,
    opened: EffectView,
    width: u32,
    height: u32,
    first_half: Frame,
    outcomes: Seq<Result<PassLocations, ShaderFailure>>,
    closed: EffectView,
    second_half: Frame,
)
    requires
        !pre.config.valid(),
        drawn(pre, opened, width, height, first_half),
        finished(opened, closed, outcomes, second_half),
    ensures
        !draws(first_half.commands.commands@),
        first_half.jobs@.len() == 0,
        second_half.is_empty(),
        closed == (EffectView { first_draw: false, ..pre }),
{
}

proof fn lemma_leading_ok_bounded(
    outcomes: Seq<Result<PassLocations, ShaderFailure>>,
    k: int,
    n: int,
)
    requires
        0 <= k < n <= outcomes.len(),
        outcomes[k] is Err,
    ensures
        leading_ok(outcomes, n) <= k,
    decreases n,
{
    if n - 1 > k {
        lemma_leading_ok_bounded(outcomes, k, n - 1);
    } else {
        lemma_leading_ok_at_most(outcomes, k);
    }
}

proof fn lemma_leading_ok_at_most(outcomes: Seq<Result<PassLocations, ShaderFailure>>, n: int)
    ensures
        leading_ok(outcomes, n) <= n || n < 0,
        n <= 0 ==> leading_ok(outcomes, n) == 0,
    decreases n,
{
    if n > 0 {
        lemma_leading_ok_at_most(outcomes, n - 1);
    }
}

/// If one pass fails to compile, no pass is drawn: the frame in which the
/// passes are compiled anew ends with the error and draws nothing, the
/// pipeline does not count as whole, and whatever passes did compile are not
/// drawn with.
pub proof fn law_pipeline_all_or_nothing(
    start: EffectView,
    width: u32,
    height: u32,
    opened: EffectView,
    first_half: Frame,
    outcomes: Seq<Result<PassLocations, ShaderFailure>>,
    closed: EffectView,
    second_half: Frame,
    k: int,
)
    requires
        start.config.valid(),
        start.pipeline_dirty,
        drawn(start, opened, width, height, first_half),
        first_half.error is None,
        0 <= k < first_half.jobs@.len(),
        k < outcomes.len(),
        outcomes[k] is Err,
        finished(opened, closed, outcomes, second_half),
    ensures
        !draws(first_half.commands.commands@),
        second_half.error is Some,
        second_half.commands.commands@.len() == 0,
        !closed.pipeline_ok(),
{
    let limit = opened.install_limit(outcomes.len() as int);
    lemma_leading_ok_bounded(outcomes, k, limit);
    law_first_half_draws_nothing(start, opened, width, height, first_half);
}

/// A pipeline that does not count as whole is not drawn with: the frame is
/// empty.
pub proof fn law_broken_pipeline_draws_nothing(
    pre: EffectView,
    post: EffectView,
    outcomes: Seq<Result<PassLocations, ShaderFailure>>,
    frame: Frame,
)
    requires
        !pre.compiling,
        !pre.pipeline_ok(),
        finished(pre, post, outcomes, frame),
    ensures
        frame.is_empty(),
        !post.pipeline_ok(),
{
}

/// A change of nothing but the size of the output surface makes the render
/// targets anew and compiles no pass: the frame deletes every render target
/// and makes every one again at the new size, asks for no pass to be
/// compiled, and leaves the compiled passes as they are.
pub proof fn law_resize_rebuilds_targets_only(
    pre: EffectView,
    post: EffectView,
    width: u32,
    height: u32,
    frame: Frame,
)
    requires
        pre.config.valid(),
        !pre.config_dirty,
        !pre.pipeline_dirty,
        pre.window_width != width || pre.window_height != height,
        drawn(pre, post, width, height, frame),
    ensures
        frame.jobs@.len() == 0,
        frame.error is None,
        post.passes == pre.passes,
        post.compiling == pre.compiling,
        post.vertex_array_object == pre.vertex_array_object,
        frame.commands.commands@ == first_frame_commands(pre.first_draw)
            + all_framebuffer_deletions(
            pre.entries,
            pre.framebuffers,
            pre.framebuffers.len() as int,
        ) + commands_past(
            pre.config.pass_list(),
            pre.config.resource_list(),
            pre.next_handle,
            width,
            height,
            pre.config.resource_list().len() as int,
        ),
        built(
            post.framebuffers,
            pre.config.pass_list(),
            pre.config.resource_list(),
            pre.next_handle,
            width,
            height,
            pre.config.resource_list().len() as int,
        ),
{
    assert(frame.commands.commands@ =~= first_frame_commands(pre.first_draw)
        + all_framebuffer_deletions(
        pre.entries,
        pre.framebuffers,
        pre.framebuffers.len() as int,
    ) + commands_past(
        pre.config.pass_list(),
        pre.config.resource_list(),
        pre.next_handle,
        width,
        height,
        pre.config.resource_list().len() as int,
    ));
}


/// Reconciling twice with a configuration and shader texts that have not
/// changed, and with no new resource update, does no work again.
///
/// After a frame has been drawn for a surface of some size, staging a
/// configuration equal to the present one and shader texts equal to the
/// present ones changes nothing; the next frame for a surface of the same
/// size then opens with no instruction at all and asks for no pass to be
/// compiled, and closing it makes no object on the device and deletes none:
/// no handle is taken, no uniform buffer is added, the compiled passes stay,
/// and every instruction of the closing sets state, fills a uniform buffer
/// or draws.
pub proof fn law_reload_idempotence(
    start: EffectView,
    width: u32,
    height: u32,
    opened: EffectView,
    first_half: Frame,
    outcomes: Seq<Result<PassLocations, ShaderFailure>>,
    closed: EffectView,
    second_half: Frame,
    config: EffectConfig,
    texts: Seq<ShaderSource>,
    reopened: EffectView,
    third_half: Frame,
    more_outcomes: Seq<Result<PassLocations, ShaderFailure>>,
    reclosed: EffectView,
    fourth_half: Frame,
)
    requires
        drawn(start, opened, width, height, first_half),
        finished(opened, closed, outcomes, second_half),
        config.same(closed.config),
        same_sources(texts, closed.shader_cache),
        drawn(
            closed.with_config(config).with_shader_cache(texts),
            reopened,
            width,
            height,
            third_half,
        ),
        finished(reopened, reclosed, more_outcomes, fourth_half),
    ensures
        closed.with_config(config).with_shader_cache(texts) == closed,
        start.config.valid() ==> !closed.config_dirty && !closed.pipeline_dirty,
        reopened == closed,
        third_half.is_empty(),
        fourth_half.jobs@.len() == 0,
        reclosed.next_handle == closed.next_handle,
        reclosed.uniform_buffers == closed.uniform_buffers,
        reclosed.passes == closed.passes,
        forall|i: int|
            0 <= i < fourth_half.commands.commands@.len() ==> steady(
                #[trigger] fourth_half.commands.commands@[i],
            ),
{
    assert(opened.config == start.config);
    assert(closed.config == start.config);
    assert(!opened.first_draw);
    if !start.config.valid() {
        assert(closed == opened);
    } else {
        assert(!opened.config_dirty && !opened.pipeline_dirty);
        assert(opened.window_width == width && opened.window_height == height);
        assert(!closed.compiling);
    }
    assert(third_half.commands.commands@ =~= Seq::empty());
    assert(reopened == closed);
    if start.config.valid() && closed.pipeline_ok() {
        let passes = opened.passes;
        let first = opened.rendered(closed.passes, opened.compiling);
        let nothing = crate::uniform::Connecting { commands: Seq::empty(), names: Seq::empty() };
        let c = if opened.compiling {
            crate::uniform::connect_all(
                nothing,
                opened.uniform_buffers,
                closed.passes,
                opened.uniform_buffers.len() as int,
            )
        } else {
            nothing
        };
        let s = crate::stage::stage_all(
            crate::stage::Staging {
                entries: opened.entries,
                next: opened.next_handle,
                commands: c.commands,
                blobs: Seq::empty(),
                transfers: opened.transfers,
            },
            opened.staged_resources,
            opened.staged_resources.len() as int,
        );
        crate::uniform::lemma_staged_blocks_have_buffers(
            crate::uniform::Blocks {
                buffers: opened.uniform_buffers,
                next: s.next,
                commands: s.commands,
                blobs: s.blobs,
                names: c.names,
            },
            opened.staged_blocks,
            closed.passes,
            opened.staged_blocks.len() as int,
        );
        assert(closed.staged_resources =~= Seq::empty());
        let again = crate::stage::Staging {
            entries: closed.entries,
            next: closed.next_handle,
            commands: Seq::empty(),
            blobs: Seq::empty(),
            transfers: closed.transfers,
        };
        assert(crate::stage::stage_all(again, closed.staged_resources, 0) == again);
        crate::uniform::lemma_known_blocks_make_nothing(
            crate::uniform::Blocks {
                buffers: closed.uniform_buffers,
                next: closed.next_handle,
                commands: Seq::empty(),
                blobs: Seq::empty(),
                names: Seq::empty(),
            },
            closed.staged_blocks,
            closed.passes,
            closed.staged_blocks.len() as int,
        );
        let filled = crate::uniform::stage_blocks(
            crate::uniform::Blocks {
                buffers: closed.uniform_buffers,
                next: closed.next_handle,
                commands: Seq::empty(),
                blobs: Seq::empty(),
                names: Seq::empty(),
            },
            closed.staged_blocks,
            closed.passes,
            closed.staged_blocks.len() as int,
        );
        let bound = filled.commands.push(
            GpuCommand::BindVertexArray { vertex_array: closed.vertex_array_object },
        );
        let begun = crate::draw::Drawing {
            entries: closed.entries,
            framebuffers: closed.framebuffers,
            commands: bound,
        };
        let done = crate::draw::draw_passes(
            begun,
            closed.passes,
            closed.config.pass_list(),
            closed.window_width,
            closed.window_height,
            closed.staged_uniforms,
            filled.names.len() as int,
            closed.passes.len() as int,
        );
        lemma_draw_passes_steady(
            begun,
            closed.passes,
            closed.config.pass_list(),
            closed.window_width,
            closed.window_height,
            closed.staged_uniforms,
            filled.names.len() as int,
            closed.passes.len() as int,
        );
        assert(closed.transfers =~= Seq::empty());
        assert(fourth_half.commands.commands@ =~= done.commands);
        assert forall|i: int| 0 <= i < done.commands.len() implies steady(
            #[trigger] done.commands[i],
        ) by {
            if i < bound.len() {
                assert(done.commands.take(bound.len() as int)[i] == done.commands[i]);
            }
        }
    }
}


/// The first half of a frame leaves the resource table and the render
/// targets in agreement, and where it makes the render targets anew, it makes
/// them in agreement with the table. This holds of every configuration in
/// which no two attachments of buffers have the same identity key.
pub proof fn law_draw_keeps_agreement(
    pre: EffectView,
    post: EffectView,
    width: u32,
    height: u32,
    frame: Frame,
)
    requires
        drawn(pre, post, width, height, frame),
        targets_coherent(pre.entries, pre.framebuffers),
        buffer_keys_distinct(pre.config.resource_list()),
    ensures
        targets_coherent(post.entries, post.framebuffers),
{
    if pre.config.valid() {
        let passes = pre.config.pass_list();
        let resources = pre.config.resource_list();
        let reconciled = pre.reconciled_entries(width, height);
        if pre.rebuilds_framebuffers(width, height) {
            lemma_built_targets_agree(
                post.framebuffers,
                passes,
                resources,
                crate::framebuffer::without_framebuffers(
                    pre.invalidated_entries(),
                    pre.framebuffers,
                    pre.framebuffers.len() as int,
                ),
                pre.next_handle,
                width,
                height,
                resources.len() as int,
            );
        }
        assert(targets_coherent(reconciled, post.framebuffers));
        if pre.pipeline_dirty {
            lemma_staging_keeps_agreement(
                crate::stage::Staging {
                    entries: reconciled,
                    next: pre.reconciled_handle(width, height),
                    commands: first_frame_commands(pre.first_draw) + pre.reconciliation_commands(
                        width,
                        height,
                    ) + crate::pipeline::pipeline_deletions(pre.vertex_array_object, pre.passes),
                    blobs: Seq::empty(),
                    transfers: pre.transfers,
                },
                pre.staged_resources,
                post.framebuffers,
            );
        }
    }
}

/// The second half of a frame leaves the resource table and the render
/// targets in agreement: after every draw into a feedback buffer, whoever
/// samples the buffer reads what was drawn last, and so it is at the end of
/// the frame, ready for the next.
pub proof fn law_finish_draw_keeps_agreement(
    pre: EffectView,
    post: EffectView,
    outcomes: Seq<Result<PassLocations, ShaderFailure>>,
    frame: Frame,
)
    requires
        finished(pre, post, outcomes, frame),
        targets_coherent(pre.entries, pre.framebuffers),
    ensures
        targets_coherent(post.entries, post.framebuffers),
{
    if pre.config.valid() {
        let limit = pre.install_limit(outcomes.len() as int);
        let count = leading_ok(outcomes, limit);
        let failed = pre.compiling && count < limit;
        if !failed && post.pipeline_ok() {
            let passes = post.passes;
            let nothing = crate::uniform::Connecting { commands: Seq::empty(), names: Seq::empty() };
            let c = if pre.compiling {
                crate::uniform::connect_all(
                    nothing,
                    pre.uniform_buffers,
                    passes,
                    pre.uniform_buffers.len() as int,
                )
            } else {
                nothing
            };
            let start = crate::stage::Staging {
                entries: pre.entries,
                next: pre.next_handle,
                commands: c.commands,
                blobs: Seq::empty(),
                transfers: pre.transfers,
            };
            let s = crate::stage::stage_all(
                start,
                pre.staged_resources,
                pre.staged_resources.len() as int,
            );
            lemma_staging_keeps_agreement(start, pre.staged_resources, pre.framebuffers);
            let b = crate::uniform::stage_blocks(
                crate::uniform::Blocks {
                    buffers: pre.uniform_buffers,
                    next: s.next,
                    commands: s.commands,
                    blobs: s.blobs,
                    names: c.names,
                },
                pre.staged_blocks,
                passes,
                pre.staged_blocks.len() as int,
            );
            lemma_draw_passes_keeps_agreement(
                crate::draw::Drawing {
                    entries: s.entries,
                    framebuffers: pre.framebuffers,
                    commands: b.commands.push(
                        GpuCommand::BindVertexArray { vertex_array: pre.vertex_array_object },
                    ),
                },
                passes,
                pre.config.pass_list(),
                pre.window_width,
                pre.window_height,
                pre.staged_uniforms,
                b.names.len() as int,
                passes.len() as int,
            );
        }
    }
}

/// A renderer that has seen nothing yet has no render targets, which agree
/// with any table.
pub proof fn law_initial_agreement(view: EffectView, version: Seq<char>)
    requires
        view.is_initial(version),
    ensures
        targets_coherent(view.entries, view.framebuffers),
        all_genuine(view.framebuffers),
{
}


/// Shader texts are the same as themselves: staging the very texts that a
/// renderer works with is no change, and does not ask for the passes to be
/// compiled anew.
pub proof fn law_same_shader_texts_are_no_change(view: EffectView)
    ensures
        same_sources(view.shader_cache, view.shader_cache),
        view.with_shader_cache(view.shader_cache) == view,
{
}

/// Staged shader texts mark the shader texts as changed only where they
/// differ from the present ones; they never take the mark away.
pub proof fn law_changed_shader_texts_mark_the_pipeline(view: EffectView, texts: Seq<ShaderSource>)
    ensures
        view.with_shader_cache(texts).pipeline_dirty == (view.pipeline_dirty || !same_sources(
            texts,
            view.shader_cache,
        )),
        same_sources(view.with_shader_cache(texts).shader_cache, texts),
        view.with_shader_cache(texts) == (EffectView {
            shader_cache: view.with_shader_cache(texts).shader_cache,
            pipeline_dirty: view.with_shader_cache(texts).pipeline_dirty,
            ..view
        }),
{
}

/// A configuration has the same content as itself: staging the very
/// configuration that a renderer works with is no change.
pub proof fn law_same_configuration_is_no_change(view: EffectView)
    ensures
        view.config.same(view.config),
        view.with_config(view.config) == view,
{
    let passes = view.config.pass_list();
    assert forall|p: int| 0 <= p < passes.len() implies (#[trigger] passes[p]).same(passes[p]) by {
        let channels = passes[p].uniform_to_channel@;
        assert forall|c: int| 0 <= c < channels.len() implies (#[trigger] channels[c]).same(
            channels[c],
        ) by {}
    }
    let resources = view.config.resource_list();
    assert forall|r: int| 0 <= r < resources.len() implies (#[trigger] resources[r]).same(
        resources[r],
    ) by {}
}


/// A list of instructions that draws nothing.
pub open spec fn quiet(commands: Seq<GpuCommand>) -> bool {
    forall|i: int| 0 <= i < commands.len() ==> !((#[trigger] commands[i]) is DrawArrays)
}

proof fn lemma_quiet_is_no_draw(commands: Seq<GpuCommand>)
    ensures
        quiet(commands) == !draws(commands),
{
    if !quiet(commands) {
        let i = choose|i: int| 0 <= i < commands.len() && (#[trigger] commands[i]) is DrawArrays;
        assert(draws(commands));
    }
}

proof fn lemma_quiet_concat(a: Seq<GpuCommand>, b: Seq<GpuCommand>)
    requires
        quiet(a),
        quiet(b),
    ensures
        quiet(a + b),
{
    assert forall|i: int| 0 <= i < (a + b).len() implies !((#[trigger] (a + b)[i])
        is DrawArrays) by {
        if i < a.len() {
            assert((a + b)[i] == a[i]);
        } else {
            assert((a + b)[i] == b[i - a.len()]);
        }
    }
}

proof fn lemma_texture_deletions_quiet(entries: Seq<ResourceEntry>, keys: Seq<u64>, n: int)
    ensures
        quiet(crate::framebuffer::texture_deletions(entries, keys, n)),
    decreases n,
{
    if n > 0 {
        lemma_texture_deletions_quiet(entries, keys, n - 1);
    }
}

proof fn lemma_target_deletions_quiet(
    entries: Seq<ResourceEntry>,
    target: crate::framebuffer::GLFramebuffer,
)
    ensures
        quiet(crate::framebuffer::target_deletions(entries, target)),
{
    lemma_texture_deletions_quiet(
        entries,
        target.color_attachments@,
        target.color_attachments@.len() as int,
    );
}

proof fn lemma_framebuffer_deletions_quiet(
    entries: Seq<ResourceEntry>,
    framebuffers: Seq<crate::framebuffer::NamedFramebuffer>,
    n: int,
)
    ensures
        quiet(all_framebuffer_deletions(entries, framebuffers, n)),
    decreases n,
{
    if n > 0 {
        lemma_framebuffer_deletions_quiet(entries, framebuffers, n - 1);
        let here = crate::framebuffer::without_framebuffers(entries, framebuffers, n - 1);
        match framebuffers[n - 1].framebuffer {
            crate::framebuffer::Framebuffer::Simple(target) => {
                lemma_target_deletions_quiet(here, target);
            },
            crate::framebuffer::Framebuffer::PingPong { first, second, .. } => {
                lemma_target_deletions_quiet(here, first);
                lemma_target_deletions_quiet(
                    crate::framebuffer::without_target(here, first),
                    second,
                );
                lemma_quiet_concat(
                    crate::framebuffer::target_deletions(here, first),
                    crate::framebuffer::target_deletions(
                        crate::framebuffer::without_target(here, first),
                        second,
                    ),
                );
            },
        }
        lemma_quiet_concat(
            all_framebuffer_deletions(entries, framebuffers, n - 1),
            crate::framebuffer::framebuffer_deletions(here, framebuffers[n - 1].framebuffer),
        );
    }
}

proof fn lemma_other_deletions_quiet(
    entries: Seq<ResourceEntry>,
    framebuffers: Seq<crate::framebuffer::NamedFramebuffer>,
    n: int,
)
    ensures
        quiet(crate::framebuffer::other_deletions(entries, framebuffers, n)),
    decreases n,
{
    if n > 0 {
        lemma_other_deletions_quiet(entries, framebuffers, n - 1);
        lemma_quiet_concat(
            crate::framebuffer::other_deletions(entries, framebuffers, n - 1),
            crate::framebuffer::resource_deletions(entries[n - 1].resource),
        );
    }
}

proof fn lemma_color_commands_quiet(
    fbo: u32,
    params: crate::gl::GLTextureParam,
    width: u32,
    height: u32,
    n: int,
)
    ensures
        quiet(crate::framebuffer::color_commands(fbo, params, width, height, n)),
    decreases n,
{
    if n > 0 {
        lemma_color_commands_quiet(fbo, params, width, height, n - 1);
        let texture = crate::command::handle_after(fbo, n as nat);
        lemma_quiet_concat(
            crate::framebuffer::color_commands(fbo, params, width, height, n - 1),
            seq![
                GpuCommand::CreateTexture2D { texture, params, width, height, zeroed: true },
                GpuCommand::GenerateMipmap { target: crate::gl::TEXTURE_2D, texture },
                GpuCommand::AttachColor { framebuffer: fbo, index: (n - 1) as usize, texture },
            ],
        );
    }
}

proof fn lemma_target_commands_quiet(
    fbo: u32,
    buffer: crate::config::BufferConfig,
    width: u32,
    height: u32,
)
    ensures
        quiet(crate::framebuffer::target_commands(fbo, buffer, width, height)),
{
    let colors = crate::framebuffer::color_commands(
        fbo,
        crate::gl::attachment_params(buffer.components, buffer.format),
        width,
        height,
        buffer.attachments as int,
    );
    lemma_color_commands_quiet(
        fbo,
        crate::gl::attachment_params(buffer.components, buffer.format),
        width,
        height,
        buffer.attachments as int,
    );
    let opening = seq![GpuCommand::CreateFramebuffer { framebuffer: fbo }];
    lemma_quiet_concat(opening, colors);
    lemma_quiet_concat(
        opening + colors,
        crate::framebuffer::closing_commands(fbo, buffer, width, height),
    );
}

proof fn lemma_commands_past_quiet(
    passes: Seq<PassConfig>,
    resources: Seq<NamedResource>,
    first: u32,
    width: u32,
    height: u32,
    n: int,
)
    ensures
        quiet(commands_past(passes, resources, first, width, height, n)),
    decreases n,
{
    if n > 0 {
        lemma_commands_past_quiet(passes, resources, first, width, height, n - 1);
        match crate::framebuffer::buildable_buffer(resources[n - 1]) {
            Some(buffer) => {
                let feedback = crate::framebuffer::is_feedback_buffer(
                    passes,
                    resources[n - 1].name@,
                    buffer,
                );
                let fbo = crate::framebuffer::handle_past(passes, resources, first, n - 1);
                let w = buffer.resolved_width(width);
                let h = buffer.resolved_height(height);
                lemma_target_commands_quiet(fbo, buffer, w, h);
                lemma_target_commands_quiet(
                    crate::framebuffer::second_fbo(fbo, buffer),
                    buffer,
                    w,
                    h,
                );
                lemma_quiet_concat(
                    crate::framebuffer::target_commands(fbo, buffer, w, h),
                    crate::framebuffer::target_commands(
                        crate::framebuffer::second_fbo(fbo, buffer),
                        buffer,
                        w,
                        h,
                    ),
                );
                lemma_quiet_concat(
                    commands_past(passes, resources, first, width, height, n - 1),
                    crate::framebuffer::buffer_commands(buffer, feedback, fbo, w, h),
                );
            },
            None => {},
        }
    }
}

proof fn lemma_pass_deletions_quiet(passes: Seq<crate::pipeline::GLPass>, n: int)
    ensures
        quiet(crate::pipeline::pass_deletions(passes, n)),
    decreases n,
{
    if n > 0 {
        lemma_pass_deletions_quiet(passes, n - 1);
        let pass = passes[n - 1];
        let shaders = seq![
            GpuCommand::DeleteProgram { program: pass.program },
            GpuCommand::DeleteShader { shader: pass.vertex_shader },
            GpuCommand::DeleteShader { shader: pass.fragment_shader },
        ];
        let all = match pass.geometry_shader {
            Some(shader) => shaders.push(GpuCommand::DeleteShader { shader }),
            None => shaders,
        };
        lemma_quiet_concat(crate::pipeline::pass_deletions(passes, n - 1), all);
    }
}

proof fn lemma_face_uploads_quiet(
    texture: u32,
    faces: Seq<(crate::resource::ResourceCubemapFace, crate::resource::ResourceData2D)>,
    first_blob: int,
    n: int,
)
    ensures
        quiet(crate::stage::face_uploads(texture, faces, first_blob, n)),
    decreases n,
{
    if n > 0 {
        lemma_face_uploads_quiet(texture, faces, first_blob, n - 1);
    }
}

proof fn lemma_staging_quiet(
    s: crate::stage::Staging,
    staged: Seq<crate::stage::StagedResource>,
    n: int,
)
    requires
        quiet(s.commands),
    ensures
        quiet(crate::stage::stage_all(s, staged, n).commands),
    decreases n,
{
    if n > 0 {
        lemma_staging_quiet(s, staged, n - 1);
        let before = crate::stage::stage_all(s, staged, n - 1);
        let item = staged[n - 1];
        match item.data {
            crate::resource::ResourceData::D2(data) => {
                lemma_quiet_concat(before.commands, crate::stage::creation_2d(data, before.next));
            },
            crate::resource::ResourceData::D3(data) => {
                let params = data.format.params();
                let made = seq![
                    GpuCommand::CreateTexture3D {
                        texture: before.next,
                        params,
                        width: data.width,
                        height: data.height,
                        depth: data.depth,
                    },
                    GpuCommand::GenerateMipmap {
                        target: crate::gl::TEXTURE_3D,
                        texture: before.next,
                    },
                ];
                lemma_quiet_concat(before.commands, made);
                let known = crate::table::lookup(before.entries, item.key);
                let resource = match known {
                    Some(resource) => resource,
                    None => crate::stage::new_resource_3d(data, before.next),
                };
                let with = if known is Some {
                    before.commands
                } else {
                    before.commands + made
                };
                lemma_quiet_concat(
                    with,
                    seq![
                        GpuCommand::UploadTexture3D {
                            texture: resource.texture,
                            params,
                            width: data.width,
                            height: data.height,
                            depth: data.depth,
                            blob: before.blobs.len() as usize,
                        },
                        GpuCommand::GenerateMipmap {
                            target: crate::gl::TEXTURE_3D,
                            texture: resource.texture,
                        },
                    ],
                );
            },
            crate::resource::ResourceData::Cube(faces) => {
                let known = crate::table::lookup(before.entries, item.key);
                let resource = match known {
                    Some(resource) => resource,
                    None => crate::stage::new_resource_cube(before.next),
                };
                let made = if known is Some {
                    before.commands
                } else {
                    before.commands.push(GpuCommand::CreateCubemap { texture: before.next })
                };
                lemma_face_uploads_quiet(
                    resource.texture,
                    faces@,
                    before.blobs.len() as int,
                    faces@.len() as int,
                );
                lemma_quiet_concat(
                    made,
                    crate::stage::face_uploads(
                        resource.texture,
                        faces@,
                        before.blobs.len() as int,
                        faces@.len() as int,
                    ),
                );
            },
        }
    }
}

/// The first half of a frame draws nothing: whatever is drawn, is drawn when
/// the frame is closed.
pub proof fn law_first_half_draws_nothing(
    pre: EffectView,
    post: EffectView,
    width: u32,
    height: u32,
    frame: Frame,
)
    requires
        drawn(pre, post, width, height, frame),
    ensures
        !draws(frame.commands.commands@),
{
    let commands = frame.commands.commands@;
    lemma_quiet_is_no_draw(commands);
    if pre.config.valid() {
        let opening = first_frame_commands(pre.first_draw);
        let passes = pre.config.pass_list();
        let resources = pre.config.resource_list();
        lemma_other_deletions_quiet(pre.entries, pre.framebuffers, pre.entries.len() as int);
        lemma_framebuffer_deletions_quiet(
            pre.invalidated_entries(),
            pre.framebuffers,
            pre.framebuffers.len() as int,
        );
        lemma_commands_past_quiet(
            passes,
            resources,
            pre.next_handle,
            width,
            height,
            resources.len() as int,
        );
        let invalidation = pre.invalidation_commands();
        assert(quiet(invalidation));
        if pre.rebuilds_framebuffers(width, height) {
            lemma_quiet_concat(
                invalidation,
                all_framebuffer_deletions(
                    pre.invalidated_entries(),
                    pre.framebuffers,
                    pre.framebuffers.len() as int,
                ),
            );
            lemma_quiet_concat(
                invalidation + all_framebuffer_deletions(
                    pre.invalidated_entries(),
                    pre.framebuffers,
                    pre.framebuffers.len() as int,
                ),
                commands_past(
                    passes,
                    resources,
                    pre.next_handle,
                    width,
                    height,
                    resources.len() as int,
                ),
            );
        }
        let reconciliation = pre.reconciliation_commands(width, height);
        assert(quiet(reconciliation));
        lemma_quiet_concat(opening, reconciliation);
        if pre.pipeline_dirty {
            lemma_pass_deletions_quiet(pre.passes, pre.passes.len() as int);
            let deletions = crate::pipeline::pipeline_deletions(
                pre.vertex_array_object,
                pre.passes,
            );
            lemma_quiet_concat(
                seq![GpuCommand::DeleteVertexArray { vertex_array: pre.vertex_array_object }],
                crate::pipeline::pass_deletions(pre.passes, pre.passes.len() as int),
            );
            lemma_quiet_concat(opening + reconciliation, deletions);
            lemma_staging_quiet(
                crate::stage::Staging {
                    entries: pre.reconciled_entries(width, height),
                    next: pre.reconciled_handle(width, height),
                    commands: opening + reconciliation + deletions,
                    blobs: Seq::empty(),
                    transfers: pre.transfers,
                },
                pre.staged_resources,
                pre.staged_resources.len() as int,
            );
        }
    }
}

/// The second half of a frame was drawn: it ended without an error and with
/// a whole pipeline.
pub open spec fn frame_drawn(
    pre: EffectView,
    post: EffectView,
    outcomes: Seq<Result<PassLocations, ShaderFailure>>,
    frame: Frame,
) -> bool {
    &&& pre.config.valid()
    &&& finished(pre, post, outcomes, frame)
    &&& frame.error is None
    &&& post.pipeline_ok()
}

/// Pass `p` is the one pass of the configuration that draws into render
/// target `f`, a pair, and it draws once.
pub open spec fn feeds_alone(view: EffectView, p: int, f: int) -> bool {
    let passes = view.config.pass_list();
    &&& 0 <= f < view.framebuffers.len()
    &&& view.framebuffers[f].framebuffer is PingPong
    &&& aims_at(view.framebuffers, passes, p, f)
    &&& !passes[p].disable
    &&& passes[p].loop_count == 1
    &&& forall|q: int| q != p ==> !aims_at(view.framebuffers, passes, q, f)
}

/// Feedback persists through a frame of the renderer.
///
/// Let a pass draw once into a feedback buffer, as the only pass that draws
/// into it. While the pass runs, under the buffer's own keys stand the
/// textures of the target that was read when the frame began, whatever
/// resource updates were staged: that is what a sampler of the buffer is
/// bound to. The pass draws into the other target. When the frame ends, the
/// two targets have changed roles, and under the buffer's own keys stand the
/// textures that the pass drew into.
pub proof fn law_feedback_persists_through_rendering(
    pre: EffectView,
    post: EffectView,
    outcomes: Seq<Result<PassLocations, ShaderFailure>>,
    frame: Frame,
    p: int,
    f: int,
)
    requires
        frame_drawn(pre, post, outcomes, frame),
        targets_coherent(pre.entries, pre.framebuffers),
        feeds_alone(pre, p, f),
    ensures
        ({
            let pair = pre.framebuffers[f].framebuffer;
            let keys = pair->PingPong_first.color_attachments@;
            let start = pre.drawn_up_to(post.passes, pre.compiling, p);
            let after = pre.drawn_up_to(post.passes, pre.compiling, p + 1);
            &&& forall|i: int|
                0 <= i < keys.len() ==> (lookup(start.entries, #[trigger] keys[i])
                    matches Some(resource) && resource.texture
                    == pair.read_target().color_textures@[i])
            &&& after.commands[start.commands.len() as int] == GpuCommand::BindFramebuffer {
                framebuffer: pair.write_target().framebuffer,
                width: pair.write_target().width,
                height: pair.write_target().height,
            }
            &&& names_kept(pre.framebuffers, post.framebuffers)
            &&& post.framebuffers[f].framebuffer == pair.swapped()
            &&& forall|i: int|
                0 <= i < keys.len() ==> (lookup(post.entries, #[trigger] keys[i])
                    matches Some(resource) && resource.texture
                    == pair.write_target().color_textures@[i])
            &&& targets_coherent(post.entries, post.framebuffers)
        }),
{
    let passes = post.passes;
    let connect = pre.compiling;
    let limit = pre.install_limit(outcomes.len() as int);
    let count = leading_ok(outcomes, limit);
    assert(!(pre.compiling && count < limit));
    let begun = pre.begun(passes, connect);
    let nothing = crate::uniform::Connecting { commands: Seq::empty(), names: Seq::empty() };
    let c = if connect {
        crate::uniform::connect_all(
            nothing,
            pre.uniform_buffers,
            passes,
            pre.uniform_buffers.len() as int,
        )
    } else {
        nothing
    };
    let staging = crate::stage::Staging {
        entries: pre.entries,
        next: pre.next_handle,
        commands: c.commands,
        blobs: Seq::empty(),
        transfers: pre.transfers,
    };
    lemma_staging_keeps_agreement(staging, pre.staged_resources, pre.framebuffers);
    assert(targets_coherent(begun.entries, begun.framebuffers));
    let r = pre.rendered(passes, connect);
    let n = passes.len() as int;
    assert(r.entries == pre.drawn_up_to(passes, connect, n).entries);
    assert(r.framebuffers == pre.drawn_up_to(passes, connect, n).framebuffers);
    assert(post.entries == r.entries);
    assert(post.framebuffers == r.framebuffers);
    law_feedback_persists_through_frame(
        begun,
        passes,
        pre.config.pass_list(),
        pre.window_width,
        pre.window_height,
        pre.staged_uniforms,
        pre.first_name(passes, connect),
        n,
        p,
        f,
    );
    lemma_draw_passes_keeps_names(
        begun,
        passes,
        pre.config.pass_list(),
        pre.window_width,
        pre.window_height,
        pre.staged_uniforms,
        pre.first_name(passes, connect),
        n,
    );
}

/// Sampler `channel` of a compiled pass is in use and reads the resource of
/// key `i` of `keys`.
pub open spec fn samples(pass: GLPass, channel: int, keys: Seq<u64>, i: int) -> bool {
    &&& 0 <= channel < pass.samplers@.len()
    &&& 0 <= i < keys.len()
    &&& pass.samplers@[channel].uniform_loc >= 0
    &&& pass.samplers@[channel].resource == keys[i]
}

/// Between two frames nothing has happened to the renderer but the staging
/// of resource updates, uniform blocks and uniform values.
pub open spec fn only_staged(before: EffectView, after: EffectView) -> bool {
    after == (EffectView {
        staged_resources: after.staged_resources,
        staged_blocks: after.staged_blocks,
        staged_uniforms: after.staged_uniforms,
        ..before
    })
}

/// Feedback persists from frame to frame: what a pass drew into a feedback
/// buffer in one frame is what the buffer's samplers read in the next, while
/// the pass draws into the other target of the pair.
///
/// Two frames are drawn for a surface of the same size, with the same
/// configuration and the same shader texts; between them only resource
/// updates and uniforms are staged. A pass draws once into a feedback buffer,
/// as the only pass that draws into it. In the first frame it draws into one
/// target of the pair. The second frame compiles nothing and makes no render
/// target. While the pass runs in the second frame, under the buffer's own
/// keys stand the textures of the target that the first frame drew into, and
/// the pass draws into the other target; when the second frame ends, the
/// textures of that other target stand under the buffer's own keys, and the
/// pair is as it was before the first frame was drawn.
///
/// The buffer's own keys are the identity keys of its name and the indices
/// of its colour attachments. A sampler of the pass that is in use and reads
/// attachment `i` of the buffer is bound, by an instruction of the pass's
/// draw in the second frame, to the texture of attachment `i` that the first
/// frame drew into. The two targets share no texture, so the pass never
/// draws into what it reads; this alone does not hold of a buffer with so
/// many attachments that the handles went round while it was made.
pub proof fn law_feedback_persists_across_frames(
    opened: EffectView,
    first_begun: EffectView,
    first_done: EffectView,
    again: EffectView,
    second_begun: EffectView,
    second_done: EffectView,
    width: u32,
    height: u32,
    first_half: Frame,
    first_outcomes: Seq<Result<PassLocations, ShaderFailure>>,
    first_frame: Frame,
    second_half: Frame,
    second_outcomes: Seq<Result<PassLocations, ShaderFailure>>,
    second_frame: Frame,
    p: int,
    f: int,
    channel: int,
    i: int,
)
    requires
        targets_coherent(opened.entries, opened.framebuffers),
        all_genuine(opened.framebuffers),
        buffer_keys_distinct(opened.config.resource_list()),
        drawn(opened, first_begun, width, height, first_half),
        frame_drawn(first_begun, first_done, first_outcomes, first_frame),
        feeds_alone(first_begun, p, f),
        only_staged(first_done, again),
        drawn(again, second_begun, width, height, second_half),
        finished(second_begun, second_done, second_outcomes, second_frame),
    ensures
        ({
            let pair = first_begun.framebuffers[f].framebuffer;
            let keys = pair->PingPong_first.color_attachments@;
            let first_start = first_begun.drawn_up_to(first_done.passes, first_begun.compiling, p);
            let first_after = first_begun.drawn_up_to(
                first_done.passes,
                first_begun.compiling,
                p + 1,
            );
            let start = second_begun.drawn_up_to(second_done.passes, false, p);
            let after = second_begun.drawn_up_to(second_done.passes, false, p + 1);
            &&& first_after.commands[first_start.commands.len() as int]
                == GpuCommand::BindFramebuffer {
                framebuffer: pair.write_target().framebuffer,
                width: pair.write_target().width,
                height: pair.write_target().height,
            }
            &&& second_half.jobs@.len() == 0
            &&& second_begun.framebuffers == first_done.framebuffers
            &&& second_done.passes == first_done.passes
            &&& second_frame.error is None
            &&& forall|a: int|
                0 <= a < keys.len() ==> (lookup(start.entries, #[trigger] keys[a])
                    matches Some(resource) && resource.texture
                    == pair.write_target().color_textures@[a])
            &&& after.commands[start.commands.len() as int] == GpuCommand::BindFramebuffer {
                framebuffer: pair.read_target().framebuffer,
                width: pair.read_target().width,
                height: pair.read_target().height,
            }
            &&& forall|a: int|
                0 <= a < keys.len() ==> (lookup(second_done.entries, #[trigger] keys[a])
                    matches Some(resource) && resource.texture
                    == pair.read_target().color_textures@[a])
            &&& second_done.framebuffers[f].framebuffer == pair
            &&& first_begun.config.pass_list()[p].buffer matches Some(name) && name@
                == first_begun.framebuffers[f].name@
            &&& forall|a: int|
                0 <= a < keys.len() ==> #[trigger] keys[a] == identity(
                    first_begun.framebuffers[f].name@,
                    a as usize,
                )
            &&& !goes_round(pair->PingPong_first) ==> forall|a: int|
                0 <= a < keys.len() ==> #[trigger] pair.read_target().color_textures@[a]
                    != pair.write_target().color_textures@[a]
            &&& samples(second_done.passes[p], channel, keys, i) ==> binds(
                after.commands,
                start.commands.len() as int,
                after.commands.len() as int,
                channel as usize,
                second_done.passes[p].samplers@[channel].uniform_loc,
                pair.write_target().color_textures@[i],
            )
        }),
{
    let pair = first_begun.framebuffers[f].framebuffer;
    let passes = first_begun.config.pass_list();
    law_draw_keeps_agreement(opened, first_begun, width, height, first_half);
    law_draw_keeps_pairs(opened, first_begun, width, height, first_half);
    assert(genuine(first_begun.framebuffers[f]));
    assert(crate::draw::first_framebuffer(
        first_begun.framebuffers,
        passes[p].buffer->0@,
        f,
    ));
    if !goes_round(pair->PingPong_first) {
        assert forall|i: int|
            0 <= i < pair->PingPong_first.color_attachments@.len() implies #[trigger]
            pair.read_target().color_textures@[i] != pair.write_target().color_textures@[i] by {
            lemma_genuine_textures_differ(first_begun.framebuffers[f], i);
        }
    }
    law_feedback_persists_through_rendering(
        first_begun,
        first_done,
        first_outcomes,
        first_frame,
        p,
        f,
    );
    assert(crate::draw::coherent(first_begun.entries, pair));
    assert(pair.swapped().swapped() == pair);
    assert(pair.swapped().read_target() == pair.write_target());
    assert(pair.swapped().write_target() == pair.read_target());
    assert(!first_begun.config_dirty && !first_begun.pipeline_dirty);
    assert(!again.config_dirty && !again.pipeline_dirty && !again.compiling);
    assert(again.window_width == width && again.window_height == height);
    assert(second_begun.framebuffers == again.framebuffers);
    assert(second_begun.entries == again.entries);
    assert(second_begun.passes == again.passes);
    assert(!second_begun.compiling);
    assert(second_begun.pipeline_ok());
    assert(frame_drawn(second_begun, second_done, second_outcomes, second_frame));
    assert forall|q: int| q != p implies !aims_at(second_begun.framebuffers, passes, q, f) by {
        if 0 <= q < passes.len() {
            lemma_target_position_by_names(
                first_begun.framebuffers,
                second_begun.framebuffers,
                passes[q].buffer,
            );
            assert(!aims_at(first_begun.framebuffers, passes, q, f));
        }
    }
    lemma_target_position_by_names(
        first_begun.framebuffers,
        second_begun.framebuffers,
        passes[p].buffer,
    );
    assert(feeds_alone(second_begun, p, f));
    law_feedback_persists_through_rendering(
        second_begun,
        second_done,
        second_outcomes,
        second_frame,
        p,
        f,
    );
    if samples(second_done.passes[p], channel, pair->PingPong_first.color_attachments@, i) {
        let compiled = second_done.passes;
        let start = second_begun.drawn_up_to(compiled, false, p);
        let once = crate::draw::draw_once(
            start,
            compiled[p],
            passes[p].buffer,
            second_begun.window_width,
            second_begun.window_height,
            second_begun.staged_uniforms,
            second_begun.first_name(compiled, false),
        );
        assert(crate::draw::draw_repeated(
            start,
            compiled[p],
            passes[p].buffer,
            second_begun.window_width,
            second_begun.window_height,
            second_begun.staged_uniforms,
            second_begun.first_name(compiled, false),
            0,
        ) == start);
        assert(crate::draw::draw_repeated(
            start,
            compiled[p],
            passes[p].buffer,
            second_begun.window_width,
            second_begun.window_height,
            second_begun.staged_uniforms,
            second_begun.first_name(compiled, false),
            1,
        ) == once);
        assert(second_begun.drawn_up_to(compiled, false, p + 1) == once);
        assert(lookup(start.entries, pair->PingPong_first.color_attachments@[i]) is Some);
        law_draw_binds_from_the_table(
            start,
            compiled[p],
            passes[p].buffer,
            second_begun.window_width,
            second_begun.window_height,
            second_begun.staged_uniforms,
            second_begun.first_name(compiled, false),
            channel,
        );
    }
}

/// The first half of a frame leaves every pair of render targets as it was
/// made, and makes new pairs so.
pub proof fn law_draw_keeps_pairs(
    pre: EffectView,
    post: EffectView,
    width: u32,
    height: u32,
    frame: Frame,
)
    requires
        drawn(pre, post, width, height, frame),
        all_genuine(pre.framebuffers),
    ensures
        all_genuine(post.framebuffers),
{
    if pre.config.valid() && pre.rebuilds_framebuffers(width, height) {
        lemma_built_targets_genuine(
            post.framebuffers,
            pre.config.pass_list(),
            pre.config.resource_list(),
            pre.next_handle,
            width,
            height,
            pre.config.resource_list().len() as int,
        );
    }
}

/// The second half of a frame leaves every pair of render targets as it was
/// made: a draw exchanges the roles of the two targets of a pair, and changes
/// neither their keys nor their textures.
pub proof fn law_finish_draw_keeps_pairs(
    pre: EffectView,
    post: EffectView,
    outcomes: Seq<Result<PassLocations, ShaderFailure>>,
    frame: Frame,
)
    requires
        finished(pre, post, outcomes, frame),
        all_genuine(pre.framebuffers),
    ensures
        all_genuine(post.framebuffers),
{
    if pre.config.valid() {
        let limit = pre.install_limit(outcomes.len() as int);
        let count = leading_ok(outcomes, limit);
        let failed = pre.compiling && count < limit;
        if !failed && post.pipeline_ok() {
            let passes = post.passes;
            lemma_draw_passes_keeps_genuine(
                pre.begun(passes, pre.compiling),
                passes,
                pre.config.pass_list(),
                pre.window_width,
                pre.window_height,
                pre.staged_uniforms,
                pre.first_name(passes, pre.compiling),
                passes.len() as int,
            );
            assert(post.framebuffers == pre.drawn_up_to(
                passes,
                pre.compiling,
                passes.len() as int,
            ).framebuffers);
        }
    }
}

} // verus!
