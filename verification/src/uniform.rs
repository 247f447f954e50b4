use crate::command::{handle_after, CommandList, GpuCommand, HandlePool};
use crate::pipeline::{GLPass, GLPipeline, NamedBuffer};
use crate::stage::{blob_views, name_views};
use vstd::prelude::*;

verus! {

/// The bytes of a uniform block that wait for the next frame, under the
/// block's name.
#[derive(Debug)]
pub struct StagedBlock {
    pub name: String,
    pub data: Vec<u8>,
}

/// What the staging of uniform blocks works on.
pub struct Blocks {
    pub buffers: Seq<NamedBuffer>,
    pub next: u32,
    pub commands: Seq<GpuCommand>,
    pub blobs: Seq<Seq<u8>>,
    pub names: Seq<Seq<char>>,
}

/// Uniform buffer `i` is the first for the block `name`.
pub open spec fn first_buffer(buffers: Seq<NamedBuffer>, name: Seq<char>, i: int) -> bool {
    &&& 0 <= i < buffers.len()
    &&& buffers[i].name@ == name
    &&& forall|j: int| 0 <= j < i ==> (#[trigger] buffers[j]).name@ != name
}

/// The position of the uniform buffer of the block `name`.
pub open spec fn buffer_position(buffers: Seq<NamedBuffer>, name: Seq<char>) -> Option<int> {
    if exists|i: int| first_buffer(buffers, name, i) {
        Some(choose|i: int| first_buffer(buffers, name, i))
    } else {
        None
    }
}

pub fn find_buffer(buffers: &Vec<NamedBuffer>, name: &String) -> (found: Option<usize>)
    ensures
        match found {
            Some(i) => buffer_position(buffers@, name@) == Some(i as int) && i < buffers@.len(),
            None => buffer_position(buffers@, name@) is None,
        },
{
    let mut i: usize = 0;
    while i < buffers.len()
        invariant
            i <= buffers.len(),
            forall|j: int| 0 <= j < i ==> (#[trigger] buffers@[j]).name@ != name@,
        decreases buffers.len() - i,
    {
        if buffers[i].name == *name {
            proof {
                assert(first_buffer(buffers@, name@, i as int));
                let k = choose|k: int| first_buffer(buffers@, name@, k);
                assert(k == i);
            }
            return Some(i);
        }
        i = i + 1;
    }
    None
}

/// The instructions that connect a uniform buffer to the programs of the
/// first `n` passes, at the binding point `index`.
pub open spec fn connections(
    buffer: u32,
    name: usize,
    index: usize,
    passes: Seq<GLPass>,
    n: int,
) -> Seq<GpuCommand>
    decreases n,
{
    if n <= 0 {
        Seq::empty()
    } else {
        connections(buffer, name, index, passes, n - 1).push(
            GpuCommand::ConnectUniformBuffer {
                buffer,
                program: passes[n - 1].program,
                name,
                index,
            },
        )
    }
}

fn push_connections(
    buffer: u32,
    name: usize,
    index: usize,
    passes: &Vec<GLPass>,
    commands: &mut Vec<GpuCommand>,
)
    ensures
        final(commands)@ == old(commands)@ + connections(
            buffer,
            name,
            index,
            passes@,
            passes@.len() as int,
        ),
{
    let mut p: usize = 0;
    while p < passes.len()
        invariant
            p <= passes.len(),
            commands@ == old(commands)@ + connections(buffer, name, index, passes@, p as int),
        decreases passes.len() - p,
    {
        commands.push(
            GpuCommand::ConnectUniformBuffer { buffer, program: passes[p].program, name, index },
        );
        p = p + 1;
        assert(commands@ =~= old(commands)@ + connections(buffer, name, index, passes@, p as int));
    }
}

/// Staging one uniform block: at the first sight of its name a uniform
/// buffer of the block's size is made and connected to every pass, at the
/// binding point that is the number of buffers made before it; then the bytes
/// go into the block's buffer.
pub open spec fn stage_block(b: Blocks, block: StagedBlock, passes: Seq<GLPass>) -> Blocks {
    match buffer_position(b.buffers, block.name@) {
        Some(i) => Blocks {
            buffers: b.buffers,
            next: b.next,
            commands: b.commands.push(
                GpuCommand::UploadUniformBuffer {
                    buffer: b.buffers[i].buffer,
                    blob: b.blobs.len() as usize,
                },
            ),
            blobs: b.blobs.push(block.data@),
            names: b.names,
        },
        None => Blocks {
            buffers: b.buffers.push(NamedBuffer { name: block.name, buffer: b.next }),
            next: handle_after(b.next, 1),
            commands: (b.commands.push(
                GpuCommand::CreateUniformBuffer { buffer: b.next, size: block.data@.len() as usize },
            ) + connections(
                b.next,
                b.names.len() as usize,
                b.buffers.len() as usize,
                passes,
                passes.len() as int,
            )).push(
                GpuCommand::UploadUniformBuffer { buffer: b.next, blob: b.blobs.len() as usize },
            ),
            blobs: b.blobs.push(block.data@),
            names: b.names.push(block.name@),
        },
    }
}

/// Staging the first `n` uniform blocks of a list, in order.
pub open spec fn stage_blocks(b: Blocks, blocks: Seq<StagedBlock>, passes: Seq<GLPass>, n: int) -> Blocks
    decreases n,
{
    if n <= 0 {
        b
    } else {
        stage_block(stage_blocks(b, blocks, passes, n - 1), blocks[n - 1], passes)
    }
}

/// What the staging of uniform blocks works on, as the renderer holds it.
pub open spec fn blocks_of(pipeline: GLPipeline, pool: HandlePool, list: CommandList) -> Blocks {
    Blocks {
        buffers: pipeline.uniform_buffers@,
        next: pool.next,
        commands: list.commands@,
        blobs: blob_views(list.blobs@),
        names: name_views(list.names@),
    }
}

/// Uploads every staged uniform block into its uniform buffer, making and
/// connecting the buffer where the block's name is new.
pub fn gpu_stage_buffer_data(
    blocks: &Vec<StagedBlock>,
    pipeline: &mut GLPipeline,
    pool: &mut HandlePool,
    list: &mut CommandList,
)
    ensures
        blocks_of(*final(pipeline), *final(pool), *final(list)) == stage_blocks(
            blocks_of(*old(pipeline), *old(pool), *old(list)),
            blocks@,
            old(pipeline).passes@,
            blocks@.len() as int,
        ),
        final(pipeline).passes == old(pipeline).passes,
        final(pipeline).vertex_array_object == old(pipeline).vertex_array_object,
{
    let ghost start = blocks_of(*pipeline, *pool, *list);
    let mut i: usize = 0;
    while i < blocks.len()
        invariant
            i <= blocks.len(),
            pipeline.passes == old(pipeline).passes,
            pipeline.vertex_array_object == old(pipeline).vertex_array_object,
            blocks_of(*pipeline, *pool, *list) == stage_blocks(
                start,
                blocks@,
                pipeline.passes@,
                i as int,
            ),
        decreases blocks.len() - i,
    {
        let block = &blocks[i];
        let ghost here = blocks_of(*pipeline, *pool, *list);
        let buffer = match find_buffer(&pipeline.uniform_buffers, &block.name) {
            Some(at) => pipeline.uniform_buffers[at].buffer,
            None => {
                assert(handle_after(pool.next, 0) == pool.next);
                let buffer = pool.fresh();
                list.commands.push(
                    GpuCommand::CreateUniformBuffer { buffer, size: block.data.len() },
                );
                let name = list.names.len();
                list.names.push(block.name.clone());
                assert(name_views(list.names@) =~= here.names.push(block.name@));
                push_connections(
                    buffer,
                    name,
                    pipeline.uniform_buffers.len(),
                    &pipeline.passes,
                    &mut list.commands,
                );
                pipeline.uniform_buffers.push(NamedBuffer { name: block.name.clone(), buffer });
                buffer
            },
        };
        let blob = list.blobs.len();
        let copy = block.data.clone();
        assert(copy@ =~= block.data@);
        list.blobs.push(copy);
        assert(blob_views(list.blobs@) =~= here.blobs.push(block.data@));
        list.commands.push(GpuCommand::UploadUniformBuffer { buffer, blob });
        proof {
            let goal = stage_block(here, *block, pipeline.passes@);
            assert(pipeline.uniform_buffers@ =~= goal.buffers);
            assert(pool.next == goal.next);
            assert(list.commands@ =~= goal.commands);
            assert(blob_views(list.blobs@) == goal.blobs);
            assert(name_views(list.names@) =~= goal.names);
        }
        i = i + 1;
    }
}

/// What is written when the first `n` uniform buffers are connected to the
/// passes of a pipeline: the instructions, and the names that they refer to.
pub struct Connecting {
    pub commands: Seq<GpuCommand>,
    pub names: Seq<Seq<char>>,
}

/// Connecting the first `n` uniform buffers to every pass, buffer `i` at the
/// binding point `i`.
pub open spec fn connect_all(
    c: Connecting,
    buffers: Seq<NamedBuffer>,
    passes: Seq<GLPass>,
    n: int,
) -> Connecting
    decreases n,
{
    if n <= 0 {
        c
    } else {
        let before = connect_all(c, buffers, passes, n - 1);
        Connecting {
            commands: before.commands + connections(
                buffers[n - 1].buffer,
                before.names.len() as usize,
                (n - 1) as usize,
                passes,
                passes.len() as int,
            ),
            names: before.names.push(buffers[n - 1].name@),
        }
    }
}

/// Connects the uniform buffers that exist to the passes of a pipeline that
/// has just been built.
pub fn connect_uniform_buffers(pipeline: &GLPipeline, list: &mut CommandList)
    ensures
        (Connecting { commands: final(list).commands@, names: name_views(final(list).names@) })
            == connect_all(
            Connecting { commands: old(list).commands@, names: name_views(old(list).names@) },
            pipeline.uniform_buffers@,
            pipeline.passes@,
            pipeline.uniform_buffers@.len() as int,
        ),
        final(list).blobs == old(list).blobs,
{
    let ghost start = Connecting { commands: list.commands@, names: name_views(list.names@) };
    let buffers = &pipeline.uniform_buffers;
    let mut i: usize = 0;
    while i < buffers.len()
        invariant
            i <= buffers.len(),
            list.blobs == old(list).blobs,
            (Connecting { commands: list.commands@, names: name_views(list.names@) })
                == connect_all(start, buffers@, pipeline.passes@, i as int),
        decreases buffers.len() - i,
    {
        let ghost here = Connecting { commands: list.commands@, names: name_views(list.names@) };
        let name = list.names.len();
        list.names.push(buffers[i].name.clone());
        assert(name_views(list.names@) =~= here.names.push(buffers@[i as int].name@));
        push_connections(buffers[i].buffer, name, i, &pipeline.passes, &mut list.commands);
        i = i + 1;
    }
}


proof fn lemma_buffer_has_first(buffers: Seq<NamedBuffer>, name: Seq<char>, n: int)
    requires
        0 <= n < buffers.len(),
        buffers[n].name@ == name,
    ensures
        exists|i: int| first_buffer(buffers, name, i),
    decreases n,
{
    if exists|j: int| 0 <= j < n && (#[trigger] buffers[j]).name@ == name {
        let j = choose|j: int| 0 <= j < n && (#[trigger] buffers[j]).name@ == name;
        lemma_buffer_has_first(buffers, name, j);
    } else {
        assert(first_buffer(buffers, name, n));
    }
}

/// A uniform buffer that is the first of its name stays so when another
/// buffer is made.
proof fn lemma_first_buffer_stays(
    buffers: Seq<NamedBuffer>,
    added: NamedBuffer,
    name: Seq<char>,
    i: int,
)
    requires
        first_buffer(buffers, name, i),
    ensures
        first_buffer(buffers.push(added), name, i),
{
    let after = buffers.push(added);
    assert(after[i] == buffers[i]);
    assert forall|j: int| 0 <= j < i implies (#[trigger] after[j]).name@ != name by {
        assert(after[j] == buffers[j]);
    }
}

/// After uniform blocks have been staged, each of them has its uniform
/// buffer, and so has every block that had one before.
pub proof fn lemma_staged_blocks_have_buffers(
    b: Blocks,
    blocks: Seq<StagedBlock>,
    passes: Seq<GLPass>,
    n: int,
)
    requires
        0 <= n <= blocks.len(),
    ensures
        forall|i: int|
            0 <= i < n ==> buffer_position(
                stage_blocks(b, blocks, passes, n).buffers,
                (#[trigger] blocks[i]).name@,
            ) is Some,
        forall|name: Seq<char>|
            buffer_position(b.buffers, name) is Some ==> #[trigger] buffer_position(
                stage_blocks(b, blocks, passes, n).buffers,
                name,
            ) is Some,
    decreases n,
{
    if n > 0 {
        lemma_staged_blocks_have_buffers(b, blocks, passes, n - 1);
        let before = stage_blocks(b, blocks, passes, n - 1);
        let after = stage_blocks(b, blocks, passes, n);
        let block = blocks[n - 1];
        assert(after == stage_block(before, block, passes));
        if buffer_position(before.buffers, block.name@) is Some {
            assert(after.buffers == before.buffers);
        } else {
            let added = NamedBuffer { name: block.name, buffer: before.next };
            assert(after.buffers == before.buffers.push(added));
            lemma_buffer_has_first(after.buffers, block.name@, before.buffers.len() as int);
            assert forall|name: Seq<char>|
                buffer_position(before.buffers, name) is Some implies #[trigger] buffer_position(
                after.buffers,
                name,
            ) is Some by {
                let i = choose|i: int| first_buffer(before.buffers, name, i);
                lemma_first_buffer_stays(before.buffers, added, name, i);
            }
        }
        assert forall|i: int| 0 <= i < n implies buffer_position(
            after.buffers,
            (#[trigger] blocks[i]).name@,
        ) is Some by {
            if i < n - 1 {
                assert(buffer_position(before.buffers, blocks[i].name@) is Some);
            }
        }
    }
}

/// The instructions `b` are the instructions `a` and then some that fill
/// uniform buffers.
pub open spec fn only_uploads(a: Seq<GpuCommand>, b: Seq<GpuCommand>) -> bool {
    &&& a.len() <= b.len()
    &&& b.take(a.len() as int) == a
    &&& forall|j: int| a.len() <= j < b.len() ==> (#[trigger] b[j]) is UploadUniformBuffer
}

/// Staging uniform blocks that all have their uniform buffer makes no buffer
/// and takes no handle: it only fills the buffers.
pub proof fn lemma_known_blocks_make_nothing(
    b: Blocks,
    blocks: Seq<StagedBlock>,
    passes: Seq<GLPass>,
    n: int,
)
    requires
        0 <= n <= blocks.len(),
        forall|i: int|
            0 <= i < n ==> buffer_position(b.buffers, (#[trigger] blocks[i]).name@) is Some,
    ensures
        stage_blocks(b, blocks, passes, n).buffers == b.buffers,
        stage_blocks(b, blocks, passes, n).next == b.next,
        stage_blocks(b, blocks, passes, n).names == b.names,
        only_uploads(b.commands, stage_blocks(b, blocks, passes, n).commands),
    decreases n,
{
    assert(b.commands.take(b.commands.len() as int) =~= b.commands);
    if n > 0 {
        lemma_known_blocks_make_nothing(b, blocks, passes, n - 1);
        assert(buffer_position(b.buffers, blocks[n - 1].name@) is Some);
        let before = stage_blocks(b, blocks, passes, n - 1).commands;
        let after = stage_blocks(b, blocks, passes, n).commands;
        assert(after.take(b.commands.len() as int) =~= before.take(b.commands.len() as int));
    }
}

} // verus!
