use crate::draw::{
    coherent, draw_once, draw_passes, draw_repeated, exchanged, first_framebuffer,
    law_feedback_persistence, lemma_exchanged, pair_count, target_position, Drawing,
    StagedUniform,
};
use crate::command::{handle_after, lemma_handle_after_adds, lemma_handles_differ};
use crate::config::{BufferConfig, NamedResource, PassConfig};
use crate::framebuffer::{
    attachment_resource, buildable_buffer, built, entries_past, entries_with_buffer,
    handle_past, is_feedback_buffer, is_framebuffer_of, second_fbo, with_colors, with_target,
    Framebuffer, GLFramebuffer, NamedFramebuffer,
};
use crate::gl::depth_format;
use crate::identity::{color_index, depth_index, identity, MAX_ATTACHMENTS};
use crate::pipeline::GLPass;
use crate::stage::{stage_all, stage_one, StagedResource, Staging};
use crate::resource::ResourceData;
use crate::table::{lemma_upsert_other, lemma_upsert_same, lookup, upsert, ResourceEntry};
use vstd::prelude::*;

verus! {

impl Framebuffer {
    /// Whether `key` is the key of a colour attachment of one of the
    /// targets.
    pub open spec fn has_color_key(self, key: u64) -> bool {
        match self {
            Framebuffer::Simple(target) => target.color_attachments@.contains(key),
            Framebuffer::PingPong { first, second, .. } => first.color_attachments@.contains(key)
                || second.color_attachments@.contains(key),
        }
    }
}

/// Two render targets share no key of a colour attachment.
pub open spec fn apart(a: Framebuffer, b: Framebuffer) -> bool {
    forall|key: u64| !(#[trigger] a.has_color_key(key) && b.has_color_key(key))
}

/// The resource table agrees with the render targets of every buffer, and
/// no two buffers share a key: the keys of every colour attachment stand in
/// the table, whoever samples a feedback buffer reads the target that was
/// drawn into last, and no draw disturbs another buffer.
pub open spec fn targets_coherent(
    entries: Seq<ResourceEntry>,
    framebuffers: Seq<NamedFramebuffer>,
) -> bool {
    &&& forall|f: int|
        0 <= f < framebuffers.len() ==> coherent(entries, (#[trigger] framebuffers[f]).framebuffer)
    &&& forall|f: int, g: int|
        0 <= f < framebuffers.len() && 0 <= g < framebuffers.len() && f != g ==> apart(
            (#[trigger] framebuffers[f]).framebuffer,
            (#[trigger] framebuffers[g]).framebuffer,
        )
}

/// A resource table that leads from every key of a buffer's render targets
/// to the same texture as a table that agrees with them, agrees with them
/// too.
pub proof fn lemma_coherent_by_textures(
    before: Seq<ResourceEntry>,
    after: Seq<ResourceEntry>,
    framebuffer: Framebuffer,
)
    requires
        coherent(before, framebuffer),
        forall|key: u64|
            #[trigger] framebuffer.has_color_key(key) && lookup(before, key) is Some ==> lookup(
                after,
                key,
            ) is Some && lookup(after, key)->0.texture == lookup(before, key)->0.texture,
    ensures
        coherent(after, framebuffer),
{
    match framebuffer {
        Framebuffer::Simple(target) => {
            assert forall|i: int| 0 <= i < target.color_attachments@.len() implies (lookup(
                after,
                #[trigger] target.color_attachments@[i],
            ) matches Some(resource) && resource.texture == target.color_textures@[i]) by {
                assert(framebuffer.has_color_key(target.color_attachments@[i]));
            }
        },
        Framebuffer::PingPong { first, second, current } => {
            let n = first.color_attachments@.len() as int;
            assert forall|i: int| 0 <= i < n implies (lookup(
                after,
                #[trigger] first.color_attachments@[i],
            ) matches Some(resource) && resource.texture
                == framebuffer.read_target().color_textures@[i]) by {
                assert(framebuffer.has_color_key(first.color_attachments@[i]));
            }
            assert forall|i: int| 0 <= i < n implies (lookup(
                after,
                #[trigger] second.color_attachments@[i],
            ) matches Some(resource) && resource.texture
                == framebuffer.write_target().color_textures@[i]) by {
                assert(framebuffer.has_color_key(second.color_attachments@[i]));
            }
        },
    }
}

/// A draw leaves the resource table and the render targets in agreement.
pub proof fn lemma_draw_once_keeps_agreement(
    d: Drawing,
    pass: GLPass,
    buffer: Option<String>,
    window_width: u32,
    window_height: u32,
    uniforms: Seq<StagedUniform>,
    first_name: int,
)
    requires
        targets_coherent(d.entries, d.framebuffers),
    ensures
        ({
            let drawn = draw_once(
                d,
                pass,
                buffer,
                window_width,
                window_height,
                uniforms,
                first_name,
            );
            targets_coherent(drawn.entries, drawn.framebuffers)
        }),
{
    let drawn = draw_once(d, pass, buffer, window_width, window_height, uniforms, first_name);
    let at = target_position(d.framebuffers, buffer);
    if at is Some && d.framebuffers[at->0].framebuffer.swaps() {
        let f = at->0;
        let before = d.framebuffers[f].framebuffer;
        assert(0 <= f < d.framebuffers.len()) by {
            let name = buffer->0;
            assert(crate::draw::first_framebuffer(d.framebuffers, name@, f));
        }
        law_feedback_persistence(
            d,
            pass,
            buffer,
            window_width,
            window_height,
            uniforms,
            first_name,
            f,
        );
        let first = before->PingPong_first;
        let second = before->PingPong_second;
        let n = first.color_attachments@.len() as int;
        let writes = before.write_target().color_attachments@;
        let reads = before.read_target().color_attachments@;
        assert(pair_count(writes, reads) == n);
        assert forall|a: int| 0 <= a < n implies lookup(d.entries, #[trigger] writes[a]) is Some by {
            assert(lookup(d.entries, first.color_attachments@[a]) is Some);
            assert(lookup(d.entries, second.color_attachments@[a]) is Some);
        }
        assert forall|a: int| 0 <= a < n implies lookup(d.entries, #[trigger] reads[a]) is Some by {
            assert(lookup(d.entries, first.color_attachments@[a]) is Some);
            assert(lookup(d.entries, second.color_attachments@[a]) is Some);
        }
        lemma_exchanged(d.entries, writes, reads, n);
        assert(drawn.entries == exchanged(d.entries, writes, reads, n));
        assert forall|g: int| 0 <= g < drawn.framebuffers.len() implies coherent(
            drawn.entries,
            (#[trigger] drawn.framebuffers[g]).framebuffer,
        ) by {
            if g != f {
                let other = d.framebuffers[g].framebuffer;
                assert(drawn.framebuffers[g] == d.framebuffers[g]);
                assert(apart(d.framebuffers[f].framebuffer, d.framebuffers[g].framebuffer));
                assert forall|key: u64|
                    #[trigger] other.has_color_key(key) && lookup(d.entries, key)
                        is Some implies lookup(drawn.entries, key) is Some && lookup(
                    drawn.entries,
                    key,
                )->0.texture == lookup(d.entries, key)->0.texture by {
                    assert(!before.has_color_key(key));
                    assert forall|a: int| 0 <= a < n implies writes[a] != key && reads[a]
                        != key by {
                        assert(first.color_attachments@[a] != key);
                        assert(second.color_attachments@[a] != key);
                    }
                }
                lemma_coherent_by_textures(d.entries, drawn.entries, other);
            }
        }
        assert forall|g: int, h: int|
            0 <= g < drawn.framebuffers.len() && 0 <= h < drawn.framebuffers.len() && g
                != h implies apart(
            (#[trigger] drawn.framebuffers[g]).framebuffer,
            (#[trigger] drawn.framebuffers[h]).framebuffer,
        ) by {
            let a = d.framebuffers[g].framebuffer;
            let b = d.framebuffers[h].framebuffer;
            assert(apart(a, b));
            let a2 = drawn.framebuffers[g].framebuffer;
            let b2 = drawn.framebuffers[h].framebuffer;
            assert forall|key: u64| !(#[trigger] a2.has_color_key(key) && b2.has_color_key(
                key,
            )) by {
                assert(a2.has_color_key(key) == a.has_color_key(key));
                assert(b2.has_color_key(key) == b.has_color_key(key));
                assert(!(a.has_color_key(key) && b.has_color_key(key)));
            }
        }
    }
}

/// Any number of draws of a pass leaves the resource table and the render
/// targets in agreement.
pub proof fn lemma_draw_repeated_keeps_agreement(
    d: Drawing,
    pass: GLPass,
    buffer: Option<String>,
    window_width: u32,
    window_height: u32,
    uniforms: Seq<StagedUniform>,
    first_name: int,
    n: int,
)
    requires
        targets_coherent(d.entries, d.framebuffers),
    ensures
        ({
            let drawn = draw_repeated(
                d,
                pass,
                buffer,
                window_width,
                window_height,
                uniforms,
                first_name,
                n,
            );
            targets_coherent(drawn.entries, drawn.framebuffers)
        }),
    decreases n,
{
    if n > 0 {
        lemma_draw_repeated_keeps_agreement(
            d,
            pass,
            buffer,
            window_width,
            window_height,
            uniforms,
            first_name,
            n - 1,
        );
        lemma_draw_once_keeps_agreement(
            draw_repeated(
                d,
                pass,
                buffer,
                window_width,
                window_height,
                uniforms,
                first_name,
                n - 1,
            ),
            pass,
            buffer,
            window_width,
            window_height,
            uniforms,
            first_name,
        );
    }
}

/// Drawing the passes of a frame leaves the resource table and the render
/// targets in agreement.
pub proof fn lemma_draw_passes_keeps_agreement(
    d: Drawing,
    passes: Seq<GLPass>,
    configured: Seq<PassConfig>,
    window_width: u32,
    window_height: u32,
    uniforms: Seq<StagedUniform>,
    first_name: int,
    n: int,
)
    requires
        targets_coherent(d.entries, d.framebuffers),
    ensures
        ({
            let drawn = draw_passes(
                d,
                passes,
                configured,
                window_width,
                window_height,
                uniforms,
                first_name,
                n,
            );
            targets_coherent(drawn.entries, drawn.framebuffers)
        }),
    decreases n,
{
    if n > 0 {
        lemma_draw_passes_keeps_agreement(
            d,
            passes,
            configured,
            window_width,
            window_height,
            uniforms,
            first_name,
            n - 1,
        );
        if n - 1 < configured.len() && !configured[n - 1].disable {
            lemma_draw_repeated_keeps_agreement(
                draw_passes(
                    d,
                    passes,
                    configured,
                    window_width,
                    window_height,
                    uniforms,
                    first_name,
                    n - 1,
                ),
                passes[n - 1],
                configured[n - 1].buffer,
                window_width,
                window_height,
                uniforms,
                first_name,
                configured[n - 1].loop_count as int,
            );
        }
    }
}


/// Staging a resource update changes no texture that the resource table
/// knows: every key that led to a texture leads to the same texture after.
pub proof fn lemma_stage_one_keeps_textures(s: Staging, staged: StagedResource, key: u64)
    requires
        lookup(s.entries, key) is Some,
    ensures
        lookup(stage_one(s, staged).entries, key) is Some,
        lookup(stage_one(s, staged).entries, key)->0.texture == lookup(s.entries, key)->0.texture,
{
    let known = lookup(s.entries, staged.key);
    match staged.data {
        ResourceData::D2(data) => {
            let resource = match known {
                Some(resource) => resource,
                None => crate::stage::new_resource_2d(data, s.next),
            };
            let after = crate::stage::updated_2d(resource, data);
            if key == staged.key {
                lemma_upsert_same(s.entries, staged.key, after);
            } else {
                lemma_upsert_other(s.entries, staged.key, after, key);
            }
        },
        ResourceData::D3(data) => {
            let resource = match known {
                Some(resource) => resource,
                None => crate::stage::new_resource_3d(data, s.next),
            };
            let after = crate::stage::updated_3d(resource, data);
            if key == staged.key {
                lemma_upsert_same(s.entries, staged.key, after);
            } else {
                lemma_upsert_other(s.entries, staged.key, after, key);
            }
        },
        ResourceData::Cube(faces) => {
            if known is None {
                lemma_upsert_other(
                    s.entries,
                    staged.key,
                    crate::stage::new_resource_cube(s.next),
                    key,
                );
            }
        },
    }
}

/// Staging resource updates changes no texture that the resource table
/// knows.
pub proof fn lemma_staging_keeps_textures(s: Staging, staged: Seq<StagedResource>, n: int, key: u64)
    requires
        lookup(s.entries, key) is Some,
    ensures
        lookup(stage_all(s, staged, n).entries, key) is Some,
        lookup(stage_all(s, staged, n).entries, key)->0.texture == lookup(s.entries, key)->0.texture,
    decreases n,
{
    if n > 0 {
        lemma_staging_keeps_textures(s, staged, n - 1, key);
        lemma_stage_one_keeps_textures(stage_all(s, staged, n - 1), staged[n - 1], key);
    }
}

/// Staging resource updates leaves the resource table and the render targets
/// in agreement.
pub proof fn lemma_staging_keeps_agreement(
    s: Staging,
    staged: Seq<StagedResource>,
    framebuffers: Seq<NamedFramebuffer>,
)
    requires
        targets_coherent(s.entries, framebuffers),
    ensures
        targets_coherent(stage_all(s, staged, staged.len() as int).entries, framebuffers),
{
    let after = stage_all(s, staged, staged.len() as int).entries;
    assert forall|f: int| 0 <= f < framebuffers.len() implies coherent(
        after,
        (#[trigger] framebuffers[f]).framebuffer,
    ) by {
        let framebuffer = framebuffers[f].framebuffer;
        assert forall|key: u64|
            #[trigger] framebuffer.has_color_key(key) && lookup(s.entries, key)
                is Some implies lookup(after, key) is Some && lookup(after, key)->0.texture
            == lookup(s.entries, key)->0.texture by {
            lemma_staging_keeps_textures(s, staged, staged.len() as int, key);
        }
        lemma_coherent_by_textures(s.entries, after, framebuffer);
    }
}


/// The key of attachment `index` of resource `r`.
pub open spec fn buffer_key(resources: Seq<NamedResource>, r: int, index: int) -> u64 {
    identity(resources[r].name@, index as usize)
}

/// Resource `r` is a buffer for which render targets are made, and `index`
/// is one of the attachment indices of its two copies.
pub open spec fn is_buffer_slot(resources: Seq<NamedResource>, r: int, index: int) -> bool {
    &&& 0 <= r < resources.len()
    &&& buildable_buffer(resources[r]) is Some
    &&& 0 <= index <= 2 * buildable_buffer(resources[r])->0.attachments + 1
}

/// No two attachments of the buffers of a configuration have the same
/// identity key.
pub open spec fn buffer_keys_distinct(resources: Seq<NamedResource>) -> bool {
    forall|r1: int, i1: int, r2: int, i2: int|
        is_buffer_slot(resources, r1, i1) && is_buffer_slot(resources, r2, i2) && (r1 != r2 || i1
            != i2) ==> #[trigger] buffer_key(resources, r1, i1) != #[trigger] buffer_key(
            resources,
            r2,
            i2,
        )
}

/// The key of attachment index `index` of the buffer `name`.
pub open spec fn index_key(name: Seq<char>, index: int) -> u64 {
    identity(name, index as usize)
}

/// The key of colour attachment `j` of copy `copy` of the buffer `name`.
pub open spec fn color_key(name: Seq<char>, attachments: usize, copy: usize, j: int) -> u64 {
    index_key(name, j + copy * (attachments + 1))
}

/// What the entering of colour attachments does to what a key leads to: a
/// key of an attachment that was entered leads to the attachment's texture,
/// any other key leads where it led before.
proof fn lemma_with_colors(
    entries: Seq<ResourceEntry>,
    name: Seq<char>,
    attachments: usize,
    copy: usize,
    fbo: u32,
    width: u32,
    height: u32,
    n: int,
)
    requires
        0 <= n <= attachments <= MAX_ATTACHMENTS,
        copy <= 1,
        forall|a: int, b: int|
            0 <= a < b < n ==> #[trigger] color_key(name, attachments, copy, a)
                != #[trigger] color_key(name, attachments, copy, b),
    ensures
        forall|j: int|
            0 <= j < n ==> lookup(
                with_colors(entries, name, attachments, copy, fbo, width, height, n),
                #[trigger] color_key(name, attachments, copy, j),
            ) == Some(attachment_resource(handle_after(fbo, (j + 1) as nat), width, height)),
        forall|key: u64|
            (forall|j: int| 0 <= j < n ==> #[trigger] color_key(name, attachments, copy, j) != key)
                ==> #[trigger] lookup(
                with_colors(entries, name, attachments, copy, fbo, width, height, n),
                key,
            ) == lookup(entries, key),
    decreases n,
{
    if n > 0 {
        lemma_with_colors(entries, name, attachments, copy, fbo, width, height, n - 1);
        let before = with_colors(entries, name, attachments, copy, fbo, width, height, n - 1);
        let after = with_colors(entries, name, attachments, copy, fbo, width, height, n);
        let key = color_key(name, attachments, copy, n - 1);
        let resource = attachment_resource(handle_after(fbo, n as nat), width, height);
        assert(key == identity(name, color_index(attachments, copy, (n - 1) as usize) as usize));
        assert(after == upsert(before, key, resource));
        lemma_upsert_same(before, key, resource);
        assert forall|j: int| 0 <= j < n implies lookup(
            after,
            #[trigger] color_key(name, attachments, copy, j),
        ) == Some(attachment_resource(handle_after(fbo, (j + 1) as nat), width, height)) by {
            if j < n - 1 {
                let other = color_key(name, attachments, copy, j);
                assert(other != key);
                lemma_upsert_other(before, key, resource, other);
            }
        }
        assert forall|other: u64|
            (forall|j: int|
                0 <= j < n ==> #[trigger] color_key(name, attachments, copy, j)
                    != other) implies #[trigger] lookup(after, other) == lookup(
            entries,
            other,
        ) by {
            assert(color_key(name, attachments, copy, n - 1) != other);
            lemma_upsert_other(before, key, resource, other);
        }
    }
}

/// Whether `key` is the key of one of the attachments of copy `copy` of a
/// buffer: one of its colour attachments or its depth attachment.
pub open spec fn is_copy_key(name: Seq<char>, buffer: BufferConfig, copy: usize, key: u64) -> bool {
    exists|index: int|
        copy * (buffer.attachments + 1) <= index <= buffer.attachments + copy * (
        buffer.attachments + 1) && #[trigger] index_key(name, index) == key
}

/// What the entering of a render target does to what a key leads to.
proof fn lemma_with_target(
    entries: Seq<ResourceEntry>,
    name: Seq<char>,
    buffer: BufferConfig,
    copy: usize,
    fbo: u32,
    width: u32,
    height: u32,
)
    requires
        buffer.buildable(),
        copy <= 1,
        forall|a: int, b: int|
            0 <= a < b <= 2 * buffer.attachments + 1 ==> #[trigger] index_key(name, a)
                != #[trigger] index_key(name, b),
    ensures
        forall|j: int|
            0 <= j < buffer.attachments ==> lookup(
                with_target(entries, name, buffer, copy, fbo, width, height),
                #[trigger] color_key(name, buffer.attachments, copy, j),
            ) == Some(attachment_resource(handle_after(fbo, (j + 1) as nat), width, height)),
        forall|key: u64|
            !is_copy_key(name, buffer, copy, key) ==> #[trigger] lookup(
                with_target(entries, name, buffer, copy, fbo, width, height),
                key,
            ) == lookup(entries, key),
{
    let n = buffer.attachments;
    let base = copy * (n + 1);
    assert(base == if copy == 0 {
        0
    } else {
        n + 1
    }) by (nonlinear_arith)
        requires
            copy <= 1,
            base == copy * (n + 1),
    ;
    assert forall|a: int, b: int| 0 <= a < b < n implies #[trigger] color_key(name, n, copy, a)
        != #[trigger] color_key(name, n, copy, b) by {
        assert(index_key(name, a + base) != index_key(name, b + base));
    }
    lemma_with_colors(entries, name, n, copy, fbo, width, height, n as int);
    let colors = with_colors(entries, name, n, copy, fbo, width, height, n as int);
    let after = with_target(entries, name, buffer, copy, fbo, width, height);
    let depth_key = index_key(name, n + base);
    assert(depth_key == identity(name, depth_index(n, copy) as usize));
    let depth_resource = attachment_resource(handle_after(fbo, (n + 1) as nat), width, height);
    assert forall|j: int| 0 <= j < n implies lookup(
        after,
        #[trigger] color_key(name, n, copy, j),
    ) == Some(attachment_resource(handle_after(fbo, (j + 1) as nat), width, height)) by {
        if depth_format(buffer.depth) is Some {
            let key = color_key(name, n, copy, j);
            assert(index_key(name, j + base) != index_key(name, n + base));
            lemma_upsert_other(colors, depth_key, depth_resource, key);
        }
    }
    assert forall|key: u64| !is_copy_key(name, buffer, copy, key) implies #[trigger] lookup(
        after,
        key,
    ) == lookup(entries, key) by {
        assert forall|j: int| 0 <= j < n implies #[trigger] color_key(name, n, copy, j)
            != key by {
            if index_key(name, j + base) == key {
                assert(is_copy_key(name, buffer, copy, key));
            }
        }
        if depth_format(buffer.depth) is Some {
            if index_key(name, n + base) == key {
                assert(is_copy_key(name, buffer, copy, key));
            }
            lemma_upsert_other(colors, depth_key, depth_resource, key);
        }
    }
}


/// The attachment indices of a buffer all have different keys.
pub open spec fn own_keys_distinct(name: Seq<char>, buffer: BufferConfig) -> bool {
    forall|a: int, b: int|
        0 <= a < b <= 2 * buffer.attachments + 1 ==> #[trigger] index_key(name, a)
            != #[trigger] index_key(name, b)
}

/// `key` is none of the keys of the attachment indices of a buffer.
pub open spec fn foreign_key(name: Seq<char>, buffer: BufferConfig, key: u64) -> bool {
    forall|index: int|
        0 <= index <= 2 * buffer.attachments + 1 ==> #[trigger] index_key(name, index) != key
}

/// What the making of a buffer's render targets does to what a key leads
/// to: the keys of the first copy lead to the textures of the first target,
/// the keys of the second copy to those of the second, and a key that is none
/// of the buffer's leads where it led before.
proof fn lemma_with_buffer(
    entries: Seq<ResourceEntry>,
    name: Seq<char>,
    buffer: BufferConfig,
    feedback: bool,
    fbo: u32,
    width: u32,
    height: u32,
)
    requires
        buffer.buildable(),
        own_keys_distinct(name, buffer),
    ensures
        forall|j: int|
            0 <= j < buffer.attachments ==> lookup(
                entries_with_buffer(entries, name, buffer, feedback, fbo, width, height),
                #[trigger] color_key(name, buffer.attachments, 0, j),
            ) == Some(attachment_resource(handle_after(fbo, (j + 1) as nat), width, height)),
        feedback ==> forall|j: int|
            0 <= j < buffer.attachments ==> lookup(
                entries_with_buffer(entries, name, buffer, feedback, fbo, width, height),
                #[trigger] color_key(name, buffer.attachments, 1, j),
            ) == Some(
                attachment_resource(
                    handle_after(second_fbo(fbo, buffer), (j + 1) as nat),
                    width,
                    height,
                ),
            ),
        forall|key: u64|
            foreign_key(name, buffer, key) ==> #[trigger] lookup(
                entries_with_buffer(entries, name, buffer, feedback, fbo, width, height),
                key,
            ) == lookup(entries, key),
{
    let n = buffer.attachments;
    let one = with_target(entries, name, buffer, 0, fbo, width, height);
    let after = entries_with_buffer(entries, name, buffer, feedback, fbo, width, height);
    lemma_with_target(entries, name, buffer, 0, fbo, width, height);
    assert(0 * (n + 1) == 0);
    assert(1 * (n + 1) == n + 1);
    if feedback {
        lemma_with_target(one, name, buffer, 1, second_fbo(fbo, buffer), width, height);
        assert forall|j: int| 0 <= j < n implies lookup(
            after,
            #[trigger] color_key(name, n, 0, j),
        ) == Some(attachment_resource(handle_after(fbo, (j + 1) as nat), width, height)) by {
            let key = color_key(name, n, 0, j);
            assert(!is_copy_key(name, buffer, 1, key)) by {
                if is_copy_key(name, buffer, 1, key) {
                    let index = choose|index: int|
                        1 * (n + 1) <= index <= n + 1 * (n + 1) && #[trigger] index_key(
                            name,
                            index,
                        ) == key;
                    assert(index_key(name, j + 0 * (n + 1)) != index_key(name, index));
                }
            }
        }
    }
    assert forall|key: u64| foreign_key(name, buffer, key) implies #[trigger] lookup(after, key)
        == lookup(entries, key) by {
        assert(!is_copy_key(name, buffer, 0, key)) by {
            if is_copy_key(name, buffer, 0, key) {
                let index = choose|index: int|
                    0 * (n + 1) <= index <= n + 0 * (n + 1) && #[trigger] index_key(name, index)
                        == key;
                assert(index_key(name, index) != key);
            }
        }
        assert(!is_copy_key(name, buffer, 1, key)) by {
            if is_copy_key(name, buffer, 1, key) {
                let index = choose|index: int|
                    1 * (n + 1) <= index <= n + 1 * (n + 1) && #[trigger] index_key(name, index)
                        == key;
                assert(index_key(name, index) != key);
            }
        }
    }
}

/// Every key of a colour attachment of a buffer's render targets is the key
/// of one of the buffer's attachment indices.
proof fn lemma_framebuffer_keys(
    framebuffer: Framebuffer,
    name: Seq<char>,
    buffer: BufferConfig,
    feedback: bool,
    fbo: u32,
    width: u32,
    height: u32,
    key: u64,
)
    requires
        buffer.buildable(),
        is_framebuffer_of(framebuffer, name, buffer, feedback, fbo, width, height),
        framebuffer.has_color_key(key),
    ensures
        !foreign_key(name, buffer, key),
{
    let n = buffer.attachments;
    assert(0 * (n + 1) == 0);
    assert(1 * (n + 1) == n + 1);
    match framebuffer {
        Framebuffer::Simple(target) => {
            let i = choose|i: int|
                0 <= i < target.color_attachments@.len() && target.color_attachments@[i] == key;
            assert(target.color_attachments@[i] == index_key(name, i));
        },
        Framebuffer::PingPong { first, second, current } => {
            if first.color_attachments@.contains(key) {
                let i = choose|i: int|
                    0 <= i < first.color_attachments@.len() && first.color_attachments@[i] == key;
                assert(first.color_attachments@[i] == index_key(name, i));
            } else {
                let i = choose|i: int|
                    0 <= i < second.color_attachments@.len() && second.color_attachments@[i]
                        == key;
                assert(second.color_attachments@[i] == index_key(name, i + (n + 1)));
            }
        },
    }
}

/// The render targets that were just made for a buffer agree with the
/// resource table in which their attachments were entered.
proof fn lemma_new_framebuffer_coherent(
    entries: Seq<ResourceEntry>,
    framebuffer: Framebuffer,
    name: Seq<char>,
    buffer: BufferConfig,
    feedback: bool,
    fbo: u32,
    width: u32,
    height: u32,
)
    requires
        buffer.buildable(),
        own_keys_distinct(name, buffer),
        is_framebuffer_of(framebuffer, name, buffer, feedback, fbo, width, height),
    ensures
        coherent(
            entries_with_buffer(entries, name, buffer, feedback, fbo, width, height),
            framebuffer,
        ),
{
    let n = buffer.attachments;
    let after = entries_with_buffer(entries, name, buffer, feedback, fbo, width, height);
    lemma_with_buffer(entries, name, buffer, feedback, fbo, width, height);
    assert(0 * (n + 1) == 0);
    assert(1 * (n + 1) == n + 1);
    match framebuffer {
        Framebuffer::Simple(target) => {
            assert forall|i: int| 0 <= i < n implies (lookup(
                after,
                #[trigger] target.color_attachments@[i],
            ) matches Some(resource) && resource.texture == target.color_textures@[i]) by {
                assert(target.color_attachments@[i] == color_key(name, n, 0, i));
            }
        },
        Framebuffer::PingPong { first, second, current } => {
            let writes = first.color_attachments@;
            let reads = second.color_attachments@;
            assert forall|i: int| 0 <= i < n implies #[trigger] writes[i] == color_key(
                name,
                n,
                0,
                i,
            ) && reads[i] == color_key(name, n, 1, i) by {}
            assert(crate::draw::pairs_distinct(writes, reads, n as int)) by {
                assert forall|a: int, b: int| 0 <= a < n && 0 <= b < n implies writes[a]
                    != reads[b] by {
                    assert(writes[a] == color_key(name, n, 0, a));
                    assert(reads[b] == color_key(name, n, 1, b));
                    assert(index_key(name, a) != index_key(name, b + (n + 1)));
                }
                assert forall|a: int, b: int| 0 <= a < b < n implies writes[a] != writes[b] by {
                    assert(writes[a] == color_key(name, n, 0, a));
                    assert(writes[b] == color_key(name, n, 0, b));
                    assert(index_key(name, a) != index_key(name, b));
                }
                assert forall|a: int, b: int| 0 <= a < b < n implies reads[a] != reads[b] by {
                    assert(reads[a] == color_key(name, n, 1, a));
                    assert(reads[b] == color_key(name, n, 1, b));
                    assert(index_key(name, a + (n + 1)) != index_key(name, b + (n + 1)));
                }
            }
            assert forall|i: int| 0 <= i < n implies (lookup(
                after,
                #[trigger] first.color_attachments@[i],
            ) matches Some(resource) && resource.texture
                == framebuffer.read_target().color_textures@[i]) by {
                assert(first.color_attachments@[i] == color_key(name, n, 0, i));
            }
            assert forall|i: int| 0 <= i < n implies (lookup(
                after,
                #[trigger] second.color_attachments@[i],
            ) matches Some(resource) && resource.texture
                == framebuffer.write_target().color_textures@[i]) by {
                assert(second.color_attachments@[i] == color_key(name, n, 1, i));
            }
        },
    }
}


/// Every key of a colour attachment of the given render targets is the key
/// of an attachment index of a buffer among the first `n` resources.
pub open spec fn keys_from_buffers(
    framebuffers: Seq<NamedFramebuffer>,
    resources: Seq<NamedResource>,
    n: int,
) -> bool {
    forall|f: int, key: u64|
        0 <= f < framebuffers.len() && #[trigger] framebuffers[f].framebuffer.has_color_key(key)
            ==> exists|r: int, index: int|
            r < n && is_buffer_slot(resources, r, index) && #[trigger] buffer_key(
                resources,
                r,
                index,
            ) == key
}

/// Render targets that have just been made agree with the resource table in
/// which their attachments were entered, provided that no two attachments of
/// the configuration's buffers have the same identity key.
pub proof fn lemma_built_targets_agree(
    framebuffers: Seq<NamedFramebuffer>,
    passes: Seq<PassConfig>,
    resources: Seq<NamedResource>,
    entries: Seq<ResourceEntry>,
    first: u32,
    width: u32,
    height: u32,
    n: int,
)
    requires
        0 <= n <= resources.len(),
        buffer_keys_distinct(resources),
        built(framebuffers, passes, resources, first, width, height, n),
    ensures
        targets_coherent(
            entries_past(passes, resources, entries, first, width, height, n),
            framebuffers,
        ),
        keys_from_buffers(framebuffers, resources, n),
    decreases n,
{
    if n > 0 {
        let r = n - 1;
        let before = entries_past(passes, resources, entries, first, width, height, r);
        let after = entries_past(passes, resources, entries, first, width, height, n);
        match buildable_buffer(resources[r]) {
            None => {
                lemma_built_targets_agree(
                    framebuffers,
                    passes,
                    resources,
                    entries,
                    first,
                    width,
                    height,
                    r,
                );
            },
            Some(buffer) => {
                let name = resources[r].name@;
                let feedback = is_feedback_buffer(passes, name, buffer);
                let fbo = handle_past(passes, resources, first, r);
                let w = buffer.resolved_width(width);
                let h = buffer.resolved_height(height);
                let older = framebuffers.drop_last();
                let last = framebuffers.last().framebuffer;
                let count = older.len() as int;
                lemma_built_targets_agree(
                    older,
                    passes,
                    resources,
                    entries,
                    first,
                    width,
                    height,
                    r,
                );
                assert(after == entries_with_buffer(before, name, buffer, feedback, fbo, w, h));
                assert(own_keys_distinct(name, buffer)) by {
                    assert forall|a: int, b: int|
                        0 <= a < b <= 2 * buffer.attachments + 1 implies #[trigger] index_key(
                        name,
                        a,
                    ) != #[trigger] index_key(name, b) by {
                        assert(is_buffer_slot(resources, r, a));
                        assert(is_buffer_slot(resources, r, b));
                        assert(buffer_key(resources, r, a) != buffer_key(resources, r, b));
                    }
                }
                lemma_with_buffer(before, name, buffer, feedback, fbo, w, h);
                lemma_new_framebuffer_coherent(before, last, name, buffer, feedback, fbo, w, h);
                // the keys of the older targets are none of this buffer's
                assert forall|f: int, key: u64|
                    0 <= f < count && #[trigger] older[f].framebuffer.has_color_key(
                        key,
                    ) implies foreign_key(name, buffer, key) by {
                    let (r2, index2) = choose|r2: int, index2: int|
                        r2 < r && is_buffer_slot(resources, r2, index2) && #[trigger] buffer_key(
                            resources,
                            r2,
                            index2,
                        ) == key;
                    assert forall|index: int|
                        0 <= index <= 2 * buffer.attachments + 1 implies #[trigger] index_key(
                        name,
                        index,
                    ) != key by {
                        assert(is_buffer_slot(resources, r, index));
                        assert(buffer_key(resources, r, index) != buffer_key(
                            resources,
                            r2,
                            index2,
                        ));
                    }
                }
                assert forall|f: int| 0 <= f < framebuffers.len() implies coherent(
                    after,
                    (#[trigger] framebuffers[f]).framebuffer,
                ) by {
                    if f < count {
                        let framebuffer = older[f].framebuffer;
                        assert(framebuffers[f] == older[f]);
                        assert forall|key: u64|
                            #[trigger] framebuffer.has_color_key(key) && lookup(before, key)
                                is Some implies lookup(after, key) is Some && lookup(
                            after,
                            key,
                        )->0.texture == lookup(before, key)->0.texture by {
                            assert(older[f].framebuffer.has_color_key(key));
                            assert(foreign_key(name, buffer, key));
                        }
                        lemma_coherent_by_textures(before, after, framebuffer);
                    }
                }
                assert forall|f: int, g: int|
                    0 <= f < framebuffers.len() && 0 <= g < framebuffers.len() && f
                        != g implies apart(
                    (#[trigger] framebuffers[f]).framebuffer,
                    (#[trigger] framebuffers[g]).framebuffer,
                ) by {
                    if f < count && g < count {
                        assert(framebuffers[f] == older[f] && framebuffers[g] == older[g]);
                        assert(apart(older[f].framebuffer, older[g].framebuffer));
                    } else {
                        let old = if f < count {
                            f
                        } else {
                            g
                        };
                        assert(framebuffers[old] == older[old]);
                        assert forall|key: u64|
                            !(#[trigger] framebuffers[f].framebuffer.has_color_key(key)
                                && framebuffers[g].framebuffer.has_color_key(key)) by {
                            if older[old].framebuffer.has_color_key(key)
                                && last.has_color_key(key) {
                                assert(foreign_key(name, buffer, key));
                                lemma_framebuffer_keys(
                                    last,
                                    name,
                                    buffer,
                                    feedback,
                                    fbo,
                                    w,
                                    h,
                                    key,
                                );
                            }
                        }
                    }
                }
                assert forall|f: int, key: u64|
                    0 <= f < framebuffers.len() && #[trigger] framebuffers[f].framebuffer.has_color_key(
                        key,
                    ) implies exists|r2: int, index: int|
                    r2 < n && is_buffer_slot(resources, r2, index) && #[trigger] buffer_key(
                        resources,
                        r2,
                        index,
                    ) == key by {
                    if f < count {
                        assert(framebuffers[f] == older[f]);
                        assert(older[f].framebuffer.has_color_key(key));
                        let (r2, index2) = choose|r2: int, index2: int|
                            r2 < r && is_buffer_slot(resources, r2, index2)
                                && #[trigger] buffer_key(resources, r2, index2) == key;
                        assert(r2 < n && is_buffer_slot(resources, r2, index2) && buffer_key(
                            resources,
                            r2,
                            index2,
                        ) == key);
                    } else {
                        lemma_framebuffer_keys(last, name, buffer, feedback, fbo, w, h, key);
                        let index = choose|index: int|
                            0 <= index <= 2 * buffer.attachments + 1 && #[trigger] index_key(
                                name,
                                index,
                            ) == key;
                        assert(is_buffer_slot(resources, r, index) && buffer_key(
                            resources,
                            r,
                            index,
                        ) == key);
                    }
                }
            },
        }
    }
}


/// The render targets `b` are those of `a` under the same names: the same
/// number, each with the name that it had.
pub open spec fn names_kept(a: Seq<NamedFramebuffer>, b: Seq<NamedFramebuffer>) -> bool {
    a.len() == b.len() && forall|g: int| 0 <= g < a.len() ==> (#[trigger] a[g]).name == b[g].name
}

/// Render target `f` and what the resource table holds of it are in `b` as
/// they are in `a`.
pub open spec fn target_untouched(a: Drawing, b: Drawing, f: int) -> bool {
    &&& names_kept(a.framebuffers, b.framebuffers)
    &&& b.framebuffers[f] == a.framebuffers[f]
    &&& forall|key: u64|
        #[trigger] a.framebuffers[f].framebuffer.has_color_key(key) ==> lookup(b.entries, key)
            == lookup(a.entries, key)
}

proof fn lemma_first_framebuffer_is_one(
    framebuffers: Seq<NamedFramebuffer>,
    name: Seq<char>,
    i: int,
    j: int,
)
    requires
        first_framebuffer(framebuffers, name, i),
        first_framebuffer(framebuffers, name, j),
    ensures
        i == j,
{
    if i < j {
        assert(framebuffers[i].name@ != name);
    } else if j < i {
        assert(framebuffers[j].name@ != name);
    }
}

/// Where a pass draws depends on the names of the render targets alone.
pub proof fn lemma_target_position_by_names(
    a: Seq<NamedFramebuffer>,
    b: Seq<NamedFramebuffer>,
    buffer: Option<String>,
)
    requires
        names_kept(a, b),
    ensures
        target_position(a, buffer) == target_position(b, buffer),
{
    if buffer is Some {
        let name = buffer->0@;
        assert forall|i: int| first_framebuffer(a, name, i) == first_framebuffer(b, name, i) by {
            if first_framebuffer(a, name, i) {
                assert(b[i].name == a[i].name);
                assert forall|j: int| 0 <= j < i implies (#[trigger] b[j]).name@ != name by {
                    assert(a[j].name == b[j].name);
                }
            }
            if first_framebuffer(b, name, i) {
                assert(b[i].name == a[i].name);
                assert forall|j: int| 0 <= j < i implies (#[trigger] a[j]).name@ != name by {
                    assert(a[j].name == b[j].name);
                }
            }
        }
        if exists|i: int| first_framebuffer(a, name, i) {
            let i = choose|i: int| first_framebuffer(a, name, i);
            let j = choose|j: int| first_framebuffer(b, name, j);
            assert(first_framebuffer(b, name, i));
            lemma_first_framebuffer_is_one(b, name, i, j);
        }
    }
}

/// A draw keeps the names of the render targets, and leaves alone every
/// render target but the one that it draws into.
pub proof fn lemma_draw_once_elsewhere(
    d: Drawing,
    pass: GLPass,
    buffer: Option<String>,
    window_width: u32,
    window_height: u32,
    uniforms: Seq<StagedUniform>,
    first_name: int,
    f: int,
)
    requires
        targets_coherent(d.entries, d.framebuffers),
    ensures
        ({
            let drawn = draw_once(
                d,
                pass,
                buffer,
                window_width,
                window_height,
                uniforms,
                first_name,
            );
            &&& names_kept(d.framebuffers, drawn.framebuffers)
            &&& 0 <= f < d.framebuffers.len() && target_position(d.framebuffers, buffer) != Some(
                f,
            ) ==> target_untouched(d, drawn, f)
        }),
{
    let drawn = draw_once(d, pass, buffer, window_width, window_height, uniforms, first_name);
    let at = target_position(d.framebuffers, buffer);
    if at is Some && d.framebuffers[at->0].framebuffer.swaps() {
        let g = at->0;
        assert(0 <= g < d.framebuffers.len()) by {
            assert(first_framebuffer(d.framebuffers, buffer->0@, g));
        }
        if g != f && 0 <= f < d.framebuffers.len() {
            let pair = d.framebuffers[g].framebuffer;
            let first = pair->PingPong_first;
            let second = pair->PingPong_second;
            let n = first.color_attachments@.len() as int;
            let writes = pair.write_target().color_attachments@;
            let reads = pair.read_target().color_attachments@;
            assert(coherent(d.entries, d.framebuffers[g].framebuffer));
            assert(pair_count(writes, reads) == n);
            assert forall|a: int| 0 <= a < n implies lookup(d.entries, #[trigger] writes[a])
                is Some by {
                assert(lookup(d.entries, first.color_attachments@[a]) is Some);
                assert(lookup(d.entries, second.color_attachments@[a]) is Some);
            }
            assert forall|a: int| 0 <= a < n implies lookup(d.entries, #[trigger] reads[a])
                is Some by {
                assert(lookup(d.entries, first.color_attachments@[a]) is Some);
                assert(lookup(d.entries, second.color_attachments@[a]) is Some);
            }
            lemma_exchanged(d.entries, writes, reads, n);
            assert(apart(d.framebuffers[g].framebuffer, d.framebuffers[f].framebuffer));
            assert forall|key: u64| #[trigger]
                d.framebuffers[f].framebuffer.has_color_key(key) implies lookup(
                drawn.entries,
                key,
            ) == lookup(d.entries, key) by {
                assert(!pair.has_color_key(key));
                assert forall|a: int| 0 <= a < n implies writes[a] != key && reads[a] != key by {
                    assert(first.color_attachments@[a] != key);
                    assert(second.color_attachments@[a] != key);
                }
            }
        }
    }
}


proof fn lemma_untouched_goes_on(a: Drawing, b: Drawing, c: Drawing, f: int)
    requires
        0 <= f < a.framebuffers.len(),
        target_untouched(a, b, f),
        target_untouched(b, c, f),
    ensures
        target_untouched(a, c, f),
{
    assert forall|g: int| 0 <= g < a.framebuffers.len() implies (#[trigger] a.framebuffers[g]).name
        == c.framebuffers[g].name by {
        assert(a.framebuffers[g].name == b.framebuffers[g].name);
        assert(b.framebuffers[g].name == c.framebuffers[g].name);
    }
    assert forall|key: u64| #[trigger]
        a.framebuffers[f].framebuffer.has_color_key(key) implies lookup(c.entries, key) == lookup(
        a.entries,
        key,
    ) by {
        assert(b.framebuffers[f].framebuffer.has_color_key(key));
    }
}

proof fn lemma_names_go_on(
    a: Seq<NamedFramebuffer>,
    b: Seq<NamedFramebuffer>,
    c: Seq<NamedFramebuffer>,
)
    requires
        names_kept(a, b),
        names_kept(b, c),
    ensures
        names_kept(a, c),
{
    assert forall|g: int| 0 <= g < a.len() implies (#[trigger] a[g]).name == c[g].name by {
        assert(a[g].name == b[g].name);
        assert(b[g].name == c[g].name);
    }
}

/// Any number of draws of a pass keeps the names of the render targets, and
/// leaves alone every render target but the one that the pass draws into.
pub proof fn lemma_draw_repeated_elsewhere(
    d: Drawing,
    pass: GLPass,
    buffer: Option<String>,
    window_width: u32,
    window_height: u32,
    uniforms: Seq<StagedUniform>,
    first_name: int,
    n: int,
    f: int,
)
    requires
        targets_coherent(d.entries, d.framebuffers),
    ensures
        ({
            let drawn = draw_repeated(
                d,
                pass,
                buffer,
                window_width,
                window_height,
                uniforms,
                first_name,
                n,
            );
            &&& names_kept(d.framebuffers, drawn.framebuffers)
            &&& 0 <= f < d.framebuffers.len() && target_position(d.framebuffers, buffer) != Some(
                f,
            ) ==> target_untouched(d, drawn, f)
        }),
    decreases n,
{
    if n > 0 {
        let before = draw_repeated(
            d,
            pass,
            buffer,
            window_width,
            window_height,
            uniforms,
            first_name,
            n - 1,
        );
        lemma_draw_repeated_elsewhere(
            d,
            pass,
            buffer,
            window_width,
            window_height,
            uniforms,
            first_name,
            n - 1,
            f,
        );
        lemma_draw_repeated_keeps_agreement(
            d,
            pass,
            buffer,
            window_width,
            window_height,
            uniforms,
            first_name,
            n - 1,
        );
        lemma_draw_once_elsewhere(
            before,
            pass,
            buffer,
            window_width,
            window_height,
            uniforms,
            first_name,
            f,
        );
        let drawn = draw_once(
            before,
            pass,
            buffer,
            window_width,
            window_height,
            uniforms,
            first_name,
        );
        lemma_names_go_on(d.framebuffers, before.framebuffers, drawn.framebuffers);
        lemma_target_position_by_names(d.framebuffers, before.framebuffers, buffer);
        if 0 <= f < d.framebuffers.len() && target_position(d.framebuffers, buffer) != Some(f) {
            lemma_untouched_goes_on(d, before, drawn, f);
        }
    }
}

/// Pass `q` of a configuration draws into render target `f`.
pub open spec fn aims_at(
    framebuffers: Seq<NamedFramebuffer>,
    configured: Seq<PassConfig>,
    q: int,
    f: int,
) -> bool {
    0 <= q < configured.len() && target_position(framebuffers, configured[q].buffer) == Some(f)
}

/// The passes of a frame keep the names of the render targets.
pub proof fn lemma_draw_passes_keeps_names(
    d: Drawing,
    passes: Seq<GLPass>,
    configured: Seq<PassConfig>,
    window_width: u32,
    window_height: u32,
    uniforms: Seq<StagedUniform>,
    first_name: int,
    n: int,
)
    requires
        targets_coherent(d.entries, d.framebuffers),
        0 <= n,
    ensures
        names_kept(
            d.framebuffers,
            draw_passes(
                d,
                passes,
                configured,
                window_width,
                window_height,
                uniforms,
                first_name,
                n,
            ).framebuffers,
        ),
    decreases n,
{
    if n > 0 {
        let before = draw_passes(
            d,
            passes,
            configured,
            window_width,
            window_height,
            uniforms,
            first_name,
            n - 1,
        );
        lemma_draw_passes_keeps_names(
            d,
            passes,
            configured,
            window_width,
            window_height,
            uniforms,
            first_name,
            n - 1,
        );
        lemma_draw_passes_keeps_agreement(
            d,
            passes,
            configured,
            window_width,
            window_height,
            uniforms,
            first_name,
            n - 1,
        );
        if n - 1 < configured.len() && !configured[n - 1].disable {
            lemma_draw_repeated_elsewhere(
                before,
                passes[n - 1],
                configured[n - 1].buffer,
                window_width,
                window_height,
                uniforms,
                first_name,
                configured[n - 1].loop_count as int,
                0,
            );
            lemma_names_go_on(
                d.framebuffers,
                before.framebuffers,
                draw_passes(
                    d,
                    passes,
                    configured,
                    window_width,
                    window_height,
                    uniforms,
                    first_name,
                    n,
                ).framebuffers,
            );
        }
    }
}

/// The passes from `m` up to `n` leave alone a render target that none of
/// them draws into.
pub proof fn lemma_draw_passes_elsewhere(
    d: Drawing,
    passes: Seq<GLPass>,
    configured: Seq<PassConfig>,
    window_width: u32,
    window_height: u32,
    uniforms: Seq<StagedUniform>,
    first_name: int,
    m: int,
    n: int,
    f: int,
)
    requires
        targets_coherent(d.entries, d.framebuffers),
        0 <= f < d.framebuffers.len(),
        0 <= m <= n,
        forall|q: int| m <= q < n ==> !aims_at(d.framebuffers, configured, q, f),
    ensures
        target_untouched(
            draw_passes(
                d,
                passes,
                configured,
                window_width,
                window_height,
                uniforms,
                first_name,
                m,
            ),
            draw_passes(
                d,
                passes,
                configured,
                window_width,
                window_height,
                uniforms,
                first_name,
                n,
            ),
            f,
        ),
    decreases n - m,
{
    let from = draw_passes(
        d,
        passes,
        configured,
        window_width,
        window_height,
        uniforms,
        first_name,
        m,
    );
    lemma_draw_passes_keeps_names(
        d,
        passes,
        configured,
        window_width,
        window_height,
        uniforms,
        first_name,
        m,
    );
    if n > m {
        let before = draw_passes(
            d,
            passes,
            configured,
            window_width,
            window_height,
            uniforms,
            first_name,
            n - 1,
        );
        let to = draw_passes(
            d,
            passes,
            configured,
            window_width,
            window_height,
            uniforms,
            first_name,
            n,
        );
        lemma_draw_passes_elsewhere(
            d,
            passes,
            configured,
            window_width,
            window_height,
            uniforms,
            first_name,
            m,
            n - 1,
            f,
        );
        lemma_draw_passes_keeps_agreement(
            d,
            passes,
            configured,
            window_width,
            window_height,
            uniforms,
            first_name,
            n - 1,
        );
        lemma_draw_passes_keeps_names(
            d,
            passes,
            configured,
            window_width,
            window_height,
            uniforms,
            first_name,
            n - 1,
        );
        if to != before {
            let buffer = configured[n - 1].buffer;
            assert(!aims_at(d.framebuffers, configured, n - 1, f));
            lemma_target_position_by_names(d.framebuffers, before.framebuffers, buffer);
            lemma_draw_repeated_elsewhere(
                before,
                passes[n - 1],
                buffer,
                window_width,
                window_height,
                uniforms,
                first_name,
                configured[n - 1].loop_count as int,
                f,
            );
            lemma_untouched_goes_on(from, before, to, f);
        }
    }
}

/// Feedback persists through a frame: a pass that draws once into a pair of
/// render targets, as the only pass of the frame that draws into it, reads
/// what was there before the frame and leaves what it drew to be read after
/// the frame.
///
/// While the pass runs, the pair is as it was when the frame began, whatever
/// the passes before it did: under the buffer's own keys stand the textures
/// of the target that is read. The pass draws into the other target. When
/// the frame ends, whatever the passes after it did, the two targets have
/// changed roles once, under the buffer's own keys stand the textures that
/// the pass drew, and the table and the render targets agree, so that the
/// same holds of the next frame.
pub proof fn law_feedback_persists_through_frame(
    d: Drawing,
    passes: Seq<GLPass>,
    configured: Seq<PassConfig>,
    window_width: u32,
    window_height: u32,
    uniforms: Seq<StagedUniform>,
    first_name: int,
    n: int,
    p: int,
    f: int,
)
    requires
        targets_coherent(d.entries, d.framebuffers),
        0 <= f < d.framebuffers.len(),
        d.framebuffers[f].framebuffer is PingPong,
        0 <= p < n,
        aims_at(d.framebuffers, configured, p, f),
        !configured[p].disable,
        configured[p].loop_count == 1,
        forall|q: int| 0 <= q < n && q != p ==> !aims_at(d.framebuffers, configured, q, f),
    ensures
        ({
            let pair = d.framebuffers[f].framebuffer;
            let keys = pair->PingPong_first.color_attachments@;
            let start = draw_passes(
                d,
                passes,
                configured,
                window_width,
                window_height,
                uniforms,
                first_name,
                p,
            );
            let after = draw_passes(
                d,
                passes,
                configured,
                window_width,
                window_height,
                uniforms,
                first_name,
                p + 1,
            );
            let end = draw_passes(
                d,
                passes,
                configured,
                window_width,
                window_height,
                uniforms,
                first_name,
                n,
            );
            &&& start.framebuffers[f] == d.framebuffers[f]
            &&& forall|i: int|
                0 <= i < keys.len() ==> (lookup(start.entries, #[trigger] keys[i])
                    matches Some(resource) && resource.texture
                    == pair.read_target().color_textures@[i])
            &&& after.commands[start.commands.len() as int] == crate::command::GpuCommand::BindFramebuffer {
                framebuffer: pair.write_target().framebuffer,
                width: pair.write_target().width,
                height: pair.write_target().height,
            }
            &&& end.framebuffers[f].framebuffer == pair.swapped()
            &&& forall|i: int|
                0 <= i < keys.len() ==> (lookup(end.entries, #[trigger] keys[i])
                    matches Some(resource) && resource.texture
                    == pair.write_target().color_textures@[i])
            &&& targets_coherent(end.entries, end.framebuffers)
        }),
{
    let pair = d.framebuffers[f].framebuffer;
    let keys = pair->PingPong_first.color_attachments@;
    let buffer = configured[p].buffer;
    let start = draw_passes(
        d,
        passes,
        configured,
        window_width,
        window_height,
        uniforms,
        first_name,
        p,
    );
    let after = draw_passes(
        d,
        passes,
        configured,
        window_width,
        window_height,
        uniforms,
        first_name,
        p + 1,
    );
    let end = draw_passes(
        d,
        passes,
        configured,
        window_width,
        window_height,
        uniforms,
        first_name,
        n,
    );
    lemma_draw_passes_elsewhere(
        d,
        passes,
        configured,
        window_width,
        window_height,
        uniforms,
        first_name,
        0,
        p,
        f,
    );
    lemma_draw_passes_keeps_agreement(
        d,
        passes,
        configured,
        window_width,
        window_height,
        uniforms,
        first_name,
        p,
    );
    lemma_draw_passes_keeps_agreement(
        d,
        passes,
        configured,
        window_width,
        window_height,
        uniforms,
        first_name,
        n,
    );
    assert(draw_passes(
        d,
        passes,
        configured,
        window_width,
        window_height,
        uniforms,
        first_name,
        0,
    ) == d);
    assert(target_untouched(d, start, f));
    assert(coherent(d.entries, pair));
    assert(coherent(start.entries, start.framebuffers[f].framebuffer));
    assert forall|i: int| 0 <= i < keys.len() implies (lookup(start.entries, #[trigger] keys[i])
        matches Some(resource) && resource.texture == pair.read_target().color_textures@[i]) by {
        assert(pair.has_color_key(keys[i]));
    }
    lemma_target_position_by_names(d.framebuffers, start.framebuffers, buffer);
    let once = draw_once(
        start,
        passes[p],
        buffer,
        window_width,
        window_height,
        uniforms,
        first_name,
    );
    assert(draw_repeated(
        start,
        passes[p],
        buffer,
        window_width,
        window_height,
        uniforms,
        first_name,
        0,
    ) == start);
    assert(draw_repeated(
        start,
        passes[p],
        buffer,
        window_width,
        window_height,
        uniforms,
        first_name,
        1,
    ) == once);
    assert(after == once);
    crate::draw::law_feedback_persistence(
        start,
        passes[p],
        buffer,
        window_width,
        window_height,
        uniforms,
        first_name,
        f,
    );
    assert(after.framebuffers[f].framebuffer == pair.swapped());
    lemma_draw_passes_elsewhere(
        d,
        passes,
        configured,
        window_width,
        window_height,
        uniforms,
        first_name,
        p + 1,
        n,
        f,
    );
    assert(target_untouched(after, end, f));
    assert forall|i: int| 0 <= i < keys.len() implies (lookup(end.entries, #[trigger] keys[i])
        matches Some(resource) && resource.texture == pair.write_target().color_textures@[i]) by {
        assert(after.framebuffers[f].framebuffer.has_color_key(keys[i]));
    }
}

/// The number of handles that a render target took when it was made: one
/// for the framebuffer object and one for each of its textures.
pub open spec fn handles_of(target: GLFramebuffer) -> nat {
    (1 + target.color_attachments@.len() + if target.depth_attachment is Some {
        1nat
    } else {
        0nat
    }) as nat
}

/// Whether the handles went round a whole number of times while a render
/// target was made, so that the handles that came next are its own again. It
/// takes a target with at least as many attachments as there are handles.
pub open spec fn goes_round(target: GLFramebuffer) -> bool {
    (handles_of(target) as int) % (u32::MAX as int) == 0
}

/// A pair of render targets is as it was made for the buffer of its name:
/// the keys of the first target are those of the buffer's name and the
/// indices of its colour attachments, and the textures of the two targets
/// are the handles that were handed out for them, those of the first target
/// after its framebuffer object and those of the second after all handles of
/// the first.
pub open spec fn genuine(named: NamedFramebuffer) -> bool {
    match named.framebuffer {
        Framebuffer::Simple(_) => true,
        Framebuffer::PingPong { first, second, .. } => {
            let n = first.color_attachments@.len() as int;
            &&& first.color_textures@.len() == n
            &&& second.color_textures@.len() == n
            &&& forall|i: int|
                0 <= i < n ==> #[trigger] first.color_attachments@[i] == identity(
                    named.name@,
                    i as usize,
                )
            &&& forall|i: int|
                0 <= i < n ==> #[trigger] first.color_textures@[i] == handle_after(
                    first.framebuffer,
                    (i + 1) as nat,
                )
            &&& forall|i: int|
                0 <= i < n ==> #[trigger] second.color_textures@[i] == handle_after(
                    first.framebuffer,
                    (handles_of(first) + i + 1) as nat,
                )
        },
    }
}

/// Every pair of render targets is as it was made.
pub open spec fn all_genuine(framebuffers: Seq<NamedFramebuffer>) -> bool {
    forall|f: int| 0 <= f < framebuffers.len() ==> genuine(#[trigger] framebuffers[f])
}

/// The render targets are made as pairs that are as `genuine` says.
pub proof fn lemma_built_targets_genuine(
    framebuffers: Seq<NamedFramebuffer>,
    passes: Seq<PassConfig>,
    resources: Seq<NamedResource>,
    first: u32,
    width: u32,
    height: u32,
    n: int,
)
    requires
        0 <= n <= resources.len(),
        built(framebuffers, passes, resources, first, width, height, n),
    ensures
        all_genuine(framebuffers),
    decreases n,
{
    if n > 0 {
        let r = n - 1;
        match buildable_buffer(resources[r]) {
            None => {
                lemma_built_targets_genuine(framebuffers, passes, resources, first, width, height, r);
            },
            Some(buffer) => {
                let older = framebuffers.drop_last();
                let named = framebuffers.last();
                let fbo = handle_past(passes, resources, first, r);
                lemma_built_targets_genuine(older, passes, resources, first, width, height, r);
                match named.framebuffer {
                    Framebuffer::Simple(_) => {},
                    Framebuffer::PingPong { first: one, second: other, .. } => {
                        let count = one.color_attachments@.len() as int;
                        assert(count == buffer.attachments);
                        assert(handles_of(one) == buffer.handles_per_target());
                        assert forall|i: int| 0 <= i < count implies #[trigger]
                            one.color_attachments@[i] == identity(named.name@, i as usize) by {
                            assert(color_index(buffer.attachments, 0, i as usize) == i);
                        }
                        assert forall|i: int| 0 <= i < count implies #[trigger]
                            other.color_textures@[i] == handle_after(
                            one.framebuffer,
                            (handles_of(one) + i + 1) as nat,
                        ) by {
                            lemma_handle_after_adds(
                                fbo,
                                buffer.handles_per_target(),
                                (i + 1) as nat,
                            );
                        }
                        assert(genuine(named));
                    },
                }
                assert forall|f: int| 0 <= f < framebuffers.len() implies genuine(
                    #[trigger] framebuffers[f],
                ) by {
                    if f < older.len() {
                        assert(framebuffers[f] == older[f]);
                    }
                }
            },
        }
    }
}

/// The two targets of a pair that is as it was made share no texture of a
/// colour attachment, unless the handles went round a whole number of times
/// while the first target was made.
pub proof fn lemma_genuine_textures_differ(named: NamedFramebuffer, i: int)
    requires
        genuine(named),
        named.framebuffer is PingPong,
        0 <= i < named.framebuffer->PingPong_first.color_attachments@.len(),
        !goes_round(named.framebuffer->PingPong_first),
    ensures
        named.framebuffer->PingPong_first.color_textures@[i]
            != named.framebuffer->PingPong_second.color_textures@[i],
        named.framebuffer.read_target().color_textures@[i]
            != named.framebuffer.write_target().color_textures@[i],
{
    let one = named.framebuffer->PingPong_first;
    lemma_handles_differ(one.framebuffer, (i + 1) as nat, (handles_of(one) + i + 1) as nat);
}

/// A draw leaves every pair of render targets as it was made.
pub proof fn lemma_draw_once_keeps_genuine(
    d: Drawing,
    pass: GLPass,
    buffer: Option<String>,
    window_width: u32,
    window_height: u32,
    uniforms: Seq<StagedUniform>,
    first_name: int,
)
    requires
        all_genuine(d.framebuffers),
    ensures
        all_genuine(
            draw_once(
                d,
                pass,
                buffer,
                window_width,
                window_height,
                uniforms,
                first_name,
            ).framebuffers,
        ),
{
    let drawn = draw_once(d, pass, buffer, window_width, window_height, uniforms, first_name);
    let at = target_position(d.framebuffers, buffer);
    if at is Some && d.framebuffers[at->0].framebuffer.swaps() {
        let g = at->0;
        assert(0 <= g < d.framebuffers.len()) by {
            assert(first_framebuffer(d.framebuffers, buffer->0@, g));
        }
        assert forall|f: int| 0 <= f < drawn.framebuffers.len() implies genuine(
            #[trigger] drawn.framebuffers[f],
        ) by {
            assert(genuine(d.framebuffers[f]));
        }
    }
}

/// The draws of a pass leave every pair of render targets as it was made.
pub proof fn lemma_draw_repeated_keeps_genuine(
    d: Drawing,
    pass: GLPass,
    buffer: Option<String>,
    window_width: u32,
    window_height: u32,
    uniforms: Seq<StagedUniform>,
    first_name: int,
    n: int,
)
    requires
        all_genuine(d.framebuffers),
    ensures
        all_genuine(
            draw_repeated(
                d,
                pass,
                buffer,
                window_width,
                window_height,
                uniforms,
                first_name,
                n,
            ).framebuffers,
        ),
    decreases n,
{
    if n > 0 {
        lemma_draw_repeated_keeps_genuine(
            d,
            pass,
            buffer,
            window_width,
            window_height,
            uniforms,
            first_name,
            n - 1,
        );
        lemma_draw_once_keeps_genuine(
            draw_repeated(d, pass, buffer, window_width, window_height, uniforms, first_name, n - 1),
            pass,
            buffer,
            window_width,
            window_height,
            uniforms,
            first_name,
        );
    }
}

/// The passes of a frame leave every pair of render targets as it was made.
pub proof fn lemma_draw_passes_keeps_genuine(
    d: Drawing,
    passes: Seq<GLPass>,
    configured: Seq<PassConfig>,
    window_width: u32,
    window_height: u32,
    uniforms: Seq<StagedUniform>,
    first_name: int,
    n: int,
)
    requires
        all_genuine(d.framebuffers),
    ensures
        all_genuine(
            draw_passes(
                d,
                passes,
                configured,
                window_width,
                window_height,
                uniforms,
                first_name,
                n,
            ).framebuffers,
        ),
    decreases n,
{
    if n > 0 {
        lemma_draw_passes_keeps_genuine(
            d,
            passes,
            configured,
            window_width,
            window_height,
            uniforms,
            first_name,
            n - 1,
        );
        if n - 1 < configured.len() && !configured[n - 1].disable {
            lemma_draw_repeated_keeps_genuine(
                draw_passes(
                    d,
                    passes,
                    configured,
                    window_width,
                    window_height,
                    uniforms,
                    first_name,
                    n - 1,
                ),
                passes[n - 1],
                configured[n - 1].buffer,
                window_width,
                window_height,
                uniforms,
                first_name,
                configured[n - 1].loop_count as int,
            );
        }
    }
}

} // verus!
