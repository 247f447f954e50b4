use crate::command::{handle_after, GpuCommand, HandlePool};
use crate::config::TextureFormat;
use crate::gl::{
    cubemap_face_target, gl_target_from_cubemap_face, gl_texture_params_from_texture_format,
    GLTextureParam, TEXTURE_2D, TEXTURE_3D, TEXTURE_CUBE_MAP,
};
use crate::resource::{ResourceCubemapFace, ResourceData, ResourceData2D, ResourceData3D};
use crate::table::{lookup, upsert, GLPbo, GLResource, ResourceEntry, ResourceTable, PBO_COUNT};
use vstd::prelude::*;

verus! {

/// A resource update that waits for the next frame, under the identity key of
/// the resource that it is for.
#[derive(Debug)]
pub struct StagedResource {
    pub key: u64,
    pub data: ResourceData,
}

/// A transfer from a pixel transfer buffer into a texture that a frame has
/// still to make: the buffer as it was filled, and the resource as it then
/// was.
#[derive(Debug, Clone, Copy)]
pub struct Transfer {
    pub pbo: GLPbo,
    pub resource: GLResource,
}

/// What the staging of resources works on.
pub struct Staging {
    pub entries: Seq<ResourceEntry>,
    pub next: u32,
    pub commands: Seq<GpuCommand>,
    pub blobs: Seq<Seq<u8>>,
    pub transfers: Seq<Transfer>,
}

/// The content of a list of blobs.
pub open spec fn blob_views(blobs: Seq<Vec<u8>>) -> Seq<Seq<u8>> {
    Seq::new(blobs.len(), |i: int| blobs[i]@)
}

/// The texts of a list of names.
pub open spec fn name_views(names: Seq<String>) -> Seq<Seq<char>> {
    Seq::new(names.len(), |i: int| names[i]@)
}

/// A pixel transfer buffer that has not been used yet.
pub open spec fn empty_pbo(pbo: u32, width: u32, height: u32) -> GLPbo {
    GLPbo { pbo, xoffset: 0, yoffset: 0, subwidth: 0, subheight: 0, width, height }
}

/// The size in bytes of a pixel transfer buffer for a texture of the given
/// size and format.
pub open spec fn transfer_size(width: u32, height: u32, format: TextureFormat) -> u128 {
    (width * height * format.texel_bytes()) as u128
}

/// The resource made for a two-dimensional texture at its first update. Its
/// three pixel transfer buffers take the handles from `handle` on, its texture
/// takes the fourth.
pub open spec fn new_resource_2d(data: ResourceData2D, handle: u32) -> GLResource {
    GLResource {
        target: TEXTURE_2D,
        texture: handle_after(handle, 3),
        resolution: [0u32, 0u32, 0u32],
        time: 0,
        pbos: [
            empty_pbo(handle, data.width, data.height),
            empty_pbo(handle_after(handle, 1), data.width, data.height),
            empty_pbo(handle_after(handle, 2), data.width, data.height),
        ],
        pbo_idx: 0,
        params: data.format.params(),
    }
}

/// The instructions that make a two-dimensional texture and its pixel
/// transfer buffers.
pub open spec fn creation_2d(data: ResourceData2D, handle: u32) -> Seq<GpuCommand> {
    seq![
        GpuCommand::CreatePixelBuffers {
            first: handle,
            second: handle_after(handle, 1),
            third: handle_after(handle, 2),
            size: transfer_size(data.width, data.height, data.format),
        },
        GpuCommand::CreateTexture2D {
            texture: handle_after(handle, 3),
            params: data.format.params(),
            width: data.width,
            height: data.height,
            zeroed: false,
        },
        GpuCommand::GenerateMipmap { target: TEXTURE_2D, texture: handle_after(handle, 3) },
    ]
}

/// The pixel transfer buffer that takes an update: the one whose turn it is,
/// marked with the region that the update fills.
pub open spec fn filled_pbo(resource: GLResource, data: ResourceData2D) -> GLPbo {
    let pbo = resource.pbos[(resource.pbo_idx % PBO_COUNT) as int];
    GLPbo {
        pbo: pbo.pbo,
        xoffset: data.xoffset,
        yoffset: data.yoffset,
        subwidth: data.subwidth,
        subheight: data.subheight,
        width: pbo.width,
        height: pbo.height,
    }
}

/// A resource after a two-dimensional update: it has the update's size, the
/// update's playback time if the update has one, the update's region on the
/// pixel transfer buffer whose turn it was, and the turn has passed on.
pub open spec fn updated_2d(resource: GLResource, data: ResourceData2D) -> GLResource {
    let slot = (resource.pbo_idx % PBO_COUNT) as int;
    GLResource {
        target: resource.target,
        texture: resource.texture,
        resolution: [data.width, data.height, 0u32],
        time: match data.time {
            Some(t) => t,
            None => resource.time,
        },
        pbos: [
            if slot == 0 {
                filled_pbo(resource, data)
            } else {
                resource.pbos[0]
            },
            if slot == 1 {
                filled_pbo(resource, data)
            } else {
                resource.pbos[1]
            },
            if slot == 2 {
                filled_pbo(resource, data)
            } else {
                resource.pbos[2]
            },
        ],
        pbo_idx: ((slot + 1) % (PBO_COUNT as int)) as usize,
        params: resource.params,
    }
}

/// Staging a two-dimensional update: the texture is made if the table does
/// not know the key, the resource is brought up to date, the pixels go into a
/// pixel transfer buffer, and the transfer into the texture is noted for the
/// end of the frame.
pub open spec fn stage_2d(s: Staging, key: u64, data: ResourceData2D) -> Staging {
    let known = lookup(s.entries, key);
    let resource = match known {
        Some(resource) => resource,
        None => new_resource_2d(data, s.next),
    };
    let after = updated_2d(resource, data);
    let pbo = filled_pbo(resource, data);
    Staging {
        entries: upsert(s.entries, key, after),
        next: if known is Some {
            s.next
        } else {
            handle_after(s.next, 4)
        },
        commands: (if known is Some {
            s.commands
        } else {
            s.commands + creation_2d(data, s.next)
        }).push(GpuCommand::UploadPixelBuffer { buffer: pbo.pbo, blob: s.blobs.len() as usize }),
        blobs: s.blobs.push(data.bytes@),
        transfers: s.transfers.push(Transfer { pbo, resource: after }),
    }
}

/// The resource made for a three-dimensional texture at its first update.
pub open spec fn new_resource_3d(data: ResourceData3D, handle: u32) -> GLResource {
    GLResource {
        target: TEXTURE_3D,
        texture: handle,
        resolution: [0u32, 0u32, 0u32],
        time: 0,
        pbos: [GLPbo::none(), GLPbo::none(), GLPbo::none()],
        pbo_idx: 0,
        params: data.format.params(),
    }
}

/// A resource after a three-dimensional update.
pub open spec fn updated_3d(resource: GLResource, data: ResourceData3D) -> GLResource {
    GLResource {
        target: resource.target,
        texture: resource.texture,
        resolution: [data.width, data.height, data.depth],
        time: match data.time {
            Some(t) => t,
            None => resource.time,
        },
        pbos: resource.pbos,
        pbo_idx: resource.pbo_idx,
        params: resource.params,
    }
}

/// Staging a three-dimensional update: the texture is made if the table does
/// not know the key, and the voxels go into the texture at once.
pub open spec fn stage_3d(s: Staging, key: u64, data: ResourceData3D) -> Staging {
    let known = lookup(s.entries, key);
    let resource = match known {
        Some(resource) => resource,
        None => new_resource_3d(data, s.next),
    };
    let params = data.format.params();
    let made = if known is Some {
        s.commands
    } else {
        s.commands + seq![
            GpuCommand::CreateTexture3D {
                texture: s.next,
                params,
                width: data.width,
                height: data.height,
                depth: data.depth,
            },
            GpuCommand::GenerateMipmap { target: TEXTURE_3D, texture: s.next },
        ]
    };
    Staging {
        entries: upsert(s.entries, key, updated_3d(resource, data)),
        next: if known is Some {
            s.next
        } else {
            handle_after(s.next, 1)
        },
        commands: made + seq![
            GpuCommand::UploadTexture3D {
                texture: resource.texture,
                params,
                width: data.width,
                height: data.height,
                depth: data.depth,
                blob: s.blobs.len() as usize,
            },
            GpuCommand::GenerateMipmap { target: TEXTURE_3D, texture: resource.texture },
        ],
        blobs: s.blobs.push(data.bytes@),
        transfers: s.transfers,
    }
}

/// The resource made for a cube map at its first update.
pub open spec fn new_resource_cube(handle: u32) -> GLResource {
    GLResource {
        target: TEXTURE_CUBE_MAP,
        texture: handle,
        resolution: [0u32, 0u32, 0u32],
        time: 0,
        pbos: [GLPbo::none(), GLPbo::none(), GLPbo::none()],
        pbo_idx: 0,
        params: GLTextureParam { internal: 0, format: 0, data_type: 0 },
    }
}

/// The instructions that upload the first `n` faces of a cube map, the pixels
/// of face `i` being blob `first_blob + i`.
pub open spec fn face_uploads(
    texture: u32,
    faces: Seq<(ResourceCubemapFace, ResourceData2D)>,
    first_blob: int,
    n: int,
) -> Seq<GpuCommand>
    decreases n,
{
    if n <= 0 {
        Seq::empty()
    } else {
        let (face, data) = faces[n - 1];
        face_uploads(texture, faces, first_blob, n - 1).push(
            GpuCommand::UploadCubemapFace {
                texture,
                face: cubemap_face_target(face),
                params: data.format.params(),
                width: data.width,
                height: data.height,
                blob: (first_blob + n - 1) as usize,
            },
        )
    }
}

/// The pixels of the first `n` faces of a cube map.
pub open spec fn face_blobs(faces: Seq<(ResourceCubemapFace, ResourceData2D)>, n: int) -> Seq<
    Seq<u8>,
>
    decreases n,
{
    if n <= 0 {
        Seq::empty()
    } else {
        face_blobs(faces, n - 1).push(faces[n - 1].1.bytes@)
    }
}

/// Staging a cube map update: the texture is made if the table does not know
/// the key, every face goes into the texture at once, and the mipmaps are
/// renewed.
pub open spec fn stage_cube(
    s: Staging,
    key: u64,
    faces: Seq<(ResourceCubemapFace, ResourceData2D)>,
) -> Staging {
    let known = lookup(s.entries, key);
    let resource = match known {
        Some(resource) => resource,
        None => new_resource_cube(s.next),
    };
    let made = if known is Some {
        s.commands
    } else {
        s.commands.push(GpuCommand::CreateCubemap { texture: s.next })
    };
    Staging {
        entries: if known is Some {
            s.entries
        } else {
            upsert(s.entries, key, resource)
        },
        next: if known is Some {
            s.next
        } else {
            handle_after(s.next, 1)
        },
        commands: (made + face_uploads(
            resource.texture,
            faces,
            s.blobs.len() as int,
            faces.len() as int,
        )).push(GpuCommand::GenerateMipmap { target: TEXTURE_CUBE_MAP, texture: resource.texture }),
        blobs: s.blobs + face_blobs(faces, faces.len() as int),
        transfers: s.transfers,
    }
}

/// Staging one update.
pub open spec fn stage_one(s: Staging, staged: StagedResource) -> Staging {
    match staged.data {
        ResourceData::D2(data) => stage_2d(s, staged.key, data),
        ResourceData::D3(data) => stage_3d(s, staged.key, data),
        ResourceData::Cube(faces) => stage_cube(s, staged.key, faces@),
    }
}

/// Staging the first `n` updates of a list, in order.
pub open spec fn stage_all(s: Staging, staged: Seq<StagedResource>, n: int) -> Staging
    decreases n,
{
    if n <= 0 {
        s
    } else {
        stage_one(stage_all(s, staged, n - 1), staged[n - 1])
    }
}


/// The state that the staging of resources works on, as the renderer holds
/// it.
pub open spec fn staging_of(
    resources: ResourceTable,
    pool: HandlePool,
    list: crate::command::CommandList,
    transfers: Vec<Transfer>,
) -> Staging {
    Staging {
        entries: resources.entries@,
        next: pool.next,
        commands: list.commands@,
        blobs: blob_views(list.blobs@),
        transfers: transfers@,
    }
}

fn push_blob(list: &mut crate::command::CommandList, bytes: &Vec<u8>) -> (blob: usize)
    ensures
        blob == old(list).blobs@.len(),
        final(list).blobs@.len() == old(list).blobs@.len() + 1,
        blob_views(final(list).blobs@) == blob_views(old(list).blobs@).push(bytes@),
        final(list).commands == old(list).commands,
        final(list).names == old(list).names,
{
    let blob = list.blobs.len();
    let copy = bytes.clone();
    assert(copy@ =~= bytes@);
    list.blobs.push(copy);
    assert(blob_views(list.blobs@) =~= blob_views(old(list).blobs@).push(bytes@));
    blob
}

fn stage_resource_2d(
    key: u64,
    data: &ResourceData2D,
    resources: &mut ResourceTable,
    pool: &mut HandlePool,
    list: &mut crate::command::CommandList,
    transfers: &mut Vec<Transfer>,
)
    ensures
        staging_of(*final(resources), *final(pool), *final(list), *final(transfers)) == stage_2d(
            staging_of(*old(resources), *old(pool), *old(list), *old(transfers)),
            key,
            *data,
        ),
        final(list).names == old(list).names,
{
    let ghost start = staging_of(*resources, *pool, *list, *transfers);
    let known = resources.get(key);
    let resource = match known {
        Some(resource) => resource,
        None => {
            let ghost handle = pool.next;
            assert(handle_after(handle, 0) == handle);
            let first = pool.fresh();
            let second = pool.fresh();
            let third = pool.fresh();
            let texture = pool.fresh();
            assert(second == handle_after(handle, 1));
            assert(third == handle_after(handle, 2));
            assert(texture == handle_after(handle, 3));
            assert(pool.next == handle_after(handle, 4));
            let texel = data.format.bytes_per();
            assert(data.width * data.height * texel <= 0xffff_ffff * 0xffff_ffff * 16)
                by (nonlinear_arith)
                requires
                    data.width <= 0xffff_ffff,
                    data.height <= 0xffff_ffff,
                    texel <= 16,
            ;
            assert(data.width * data.height <= 0xffff_ffff * 0xffff_ffff) by (nonlinear_arith)
                requires
                    data.width <= 0xffff_ffff,
                    data.height <= 0xffff_ffff,
            ;
            let size: u128 = (data.width as u128) * (data.height as u128) * (texel as u128);
            let params = gl_texture_params_from_texture_format(data.format);
            list.commands.push(GpuCommand::CreatePixelBuffers { first, second, third, size });
            list.commands.push(
                GpuCommand::CreateTexture2D {
                    texture,
                    params,
                    width: data.width,
                    height: data.height,
                    zeroed: false,
                },
            );
            list.commands.push(GpuCommand::GenerateMipmap { target: TEXTURE_2D, texture });
            assert(list.commands@ =~= start.commands + creation_2d(*data, handle));
            let made = GLResource {
                target: TEXTURE_2D,
                texture,
                resolution: [0u32, 0u32, 0u32],
                time: 0,
                pbos: [
                    GLPbo {
                        pbo: first,
                        xoffset: 0,
                        yoffset: 0,
                        subwidth: 0,
                        subheight: 0,
                        width: data.width,
                        height: data.height,
                    },
                    GLPbo {
                        pbo: second,
                        xoffset: 0,
                        yoffset: 0,
                        subwidth: 0,
                        subheight: 0,
                        width: data.width,
                        height: data.height,
                    },
                    GLPbo {
                        pbo: third,
                        xoffset: 0,
                        yoffset: 0,
                        subwidth: 0,
                        subheight: 0,
                        width: data.width,
                        height: data.height,
                    },
                ],
                pbo_idx: 0,
                params,
            };
            assert(made.pbos@ =~= new_resource_2d(*data, handle).pbos@);
            assert(made.resolution@ =~= new_resource_2d(*data, handle).resolution@);
            made
        },
    };
    let slot = resource.pbo_idx % PBO_COUNT;
    let turn = resource.pbos[slot];
    let pbo = GLPbo {
        pbo: turn.pbo,
        xoffset: data.xoffset,
        yoffset: data.yoffset,
        subwidth: data.subwidth,
        subheight: data.subheight,
        width: turn.width,
        height: turn.height,
    };
    let mut pbos = resource.pbos;
    pbos[slot] = pbo;
    let after = GLResource {
        target: resource.target,
        texture: resource.texture,
        resolution: [data.width, data.height, 0u32],
        time: match data.time {
            Some(t) => t,
            None => resource.time,
        },
        pbos,
        pbo_idx: (slot + 1) % PBO_COUNT,
        params: resource.params,
    };
    assert(after.pbos@ =~= updated_2d(resource, *data).pbos@);
    assert(after.resolution@ =~= updated_2d(resource, *data).resolution@);
    let blob = push_blob(list, &data.bytes);
    list.commands.push(GpuCommand::UploadPixelBuffer { buffer: pbo.pbo, blob });
    transfers.push(Transfer { pbo, resource: after });
    resources.insert(key, after);
    proof {
        let goal = stage_2d(start, key, *data);
        assert(pbo == filled_pbo(resource, *data));
        let want = updated_2d(resource, *data);
        assert(after.pbo_idx == want.pbo_idx);
        assert(after.time == want.time);
        assert(after.pbos@ =~= want.pbos@);
        assert(after.pbos == want.pbos);
        assert(after.resolution == want.resolution);
        assert(after == want);
        assert(resources.entries@ == goal.entries);
        assert(pool.next == goal.next);
        assert(list.commands@ =~= goal.commands);
        assert(blob_views(list.blobs@) == goal.blobs);
        assert(transfers@ =~= goal.transfers);
    }
}

fn stage_resource_3d(
    key: u64,
    data: &ResourceData3D,
    resources: &mut ResourceTable,
    pool: &mut HandlePool,
    list: &mut crate::command::CommandList,
    transfers: &Vec<Transfer>,
)
    ensures
        staging_of(*final(resources), *final(pool), *final(list), *transfers) == stage_3d(
            staging_of(*old(resources), *old(pool), *old(list), *transfers),
            key,
            *data,
        ),
        final(list).names == old(list).names,
{
    let ghost start = staging_of(*resources, *pool, *list, *transfers);
    let params = gl_texture_params_from_texture_format(data.format);
    let known = resources.get(key);
    let resource = match known {
        Some(resource) => resource,
        None => {
            let ghost handle = pool.next;
            assert(handle_after(handle, 0) == handle);
            let texture = pool.fresh();
            list.commands.push(
                GpuCommand::CreateTexture3D {
                    texture,
                    params,
                    width: data.width,
                    height: data.height,
                    depth: data.depth,
                },
            );
            list.commands.push(GpuCommand::GenerateMipmap { target: TEXTURE_3D, texture });
            let none = GLPbo::default();
            let made = GLResource {
                target: TEXTURE_3D,
                texture,
                resolution: [0u32, 0u32, 0u32],
                time: 0,
                pbos: [none, none, none],
                pbo_idx: 0,
                params,
            };
            assert(made.pbos@ =~= new_resource_3d(*data, handle).pbos@);
            assert(made.resolution@ =~= new_resource_3d(*data, handle).resolution@);
            made
        },
    };
    let ghost made = list.commands@;
    let after = GLResource {
        target: resource.target,
        texture: resource.texture,
        resolution: [data.width, data.height, data.depth],
        time: match data.time {
            Some(t) => t,
            None => resource.time,
        },
        pbos: resource.pbos,
        pbo_idx: resource.pbo_idx,
        params: resource.params,
    };
    assert(after.resolution@ =~= updated_3d(resource, *data).resolution@);
    let blob = push_blob(list, &data.bytes);
    list.commands.push(
        GpuCommand::UploadTexture3D {
            texture: resource.texture,
            params,
            width: data.width,
            height: data.height,
            depth: data.depth,
            blob,
        },
    );
    list.commands.push(GpuCommand::GenerateMipmap { target: TEXTURE_3D, texture: resource.texture });
    assert(list.commands@ =~= stage_3d(start, key, *data).commands);
    resources.insert(key, after);
}

fn stage_resource_cube(
    key: u64,
    faces: &Vec<(ResourceCubemapFace, ResourceData2D)>,
    resources: &mut ResourceTable,
    pool: &mut HandlePool,
    list: &mut crate::command::CommandList,
    transfers: &Vec<Transfer>,
)
    ensures
        staging_of(*final(resources), *final(pool), *final(list), *transfers) == stage_cube(
            staging_of(*old(resources), *old(pool), *old(list), *transfers),
            key,
            faces@,
        ),
        final(list).names == old(list).names,
{
    let ghost start = staging_of(*resources, *pool, *list, *transfers);
    let known = resources.get(key);
    let resource = match known {
        Some(resource) => resource,
        None => {
            let ghost handle = pool.next;
            assert(handle_after(handle, 0) == handle);
            let texture = pool.fresh();
            list.commands.push(GpuCommand::CreateCubemap { texture });
            let none = GLPbo::default();
            let made = GLResource {
                target: TEXTURE_CUBE_MAP,
                texture,
                resolution: [0u32, 0u32, 0u32],
                time: 0,
                pbos: [none, none, none],
                pbo_idx: 0,
                params: GLTextureParam { internal: 0, format: 0, data_type: 0 },
            };
            assert(made.pbos@ =~= new_resource_cube(handle).pbos@);
            assert(made.resolution@ =~= new_resource_cube(handle).resolution@);
            resources.insert(key, made);
            made
        },
    };
    let ghost made = list.commands@;
    let ghost first_blob = list.blobs@.len() as int;
    let texture = resource.texture;
    let mut i: usize = 0;
    while i < faces.len()
        invariant
            i <= faces.len(),
            first_blob == start.blobs.len(),
            list.blobs@.len() == first_blob + i,
            list.commands@ == made + face_uploads(texture, faces@, first_blob, i as int),
            blob_views(list.blobs@) == start.blobs + face_blobs(faces@, i as int),
            list.names == old(list).names,
        decreases faces.len() - i,
    {
        let face = &faces[i].0;
        let data = &faces[i].1;
        let blob = push_blob(list, &data.bytes);
        list.commands.push(
            GpuCommand::UploadCubemapFace {
                texture,
                face: gl_target_from_cubemap_face(face),
                params: gl_texture_params_from_texture_format(data.format),
                width: data.width,
                height: data.height,
                blob,
            },
        );
        i = i + 1;
        assert(list.commands@ =~= made + face_uploads(texture, faces@, first_blob, i as int));
        assert(blob_views(list.blobs@) =~= start.blobs + face_blobs(faces@, i as int));
    }
    list.commands.push(GpuCommand::GenerateMipmap { target: TEXTURE_CUBE_MAP, texture });
}

/// Brings the device up to date with every staged resource update, in the
/// order in which the updates were staged.
///
/// A texture is made at the first update of its key. Two-dimensional pixels
/// go into one of the resource's three pixel transfer buffers, which take
/// turns, and the transfer into the texture is noted in `transfers`;
/// three-dimensional and cube map data go into the texture at once.
pub fn gpu_stage_resources(
    staged: &Vec<StagedResource>,
    resources: &mut ResourceTable,
    pool: &mut HandlePool,
    list: &mut crate::command::CommandList,
    transfers: &mut Vec<Transfer>,
)
    ensures
        staging_of(*final(resources), *final(pool), *final(list), *final(transfers)) == stage_all(
            staging_of(*old(resources), *old(pool), *old(list), *old(transfers)),
            staged@,
            staged@.len() as int,
        ),
        final(list).names == old(list).names,
{
    let ghost start = staging_of(*resources, *pool, *list, *transfers);
    let mut i: usize = 0;
    while i < staged.len()
        invariant
            i <= staged.len(),
            staging_of(*resources, *pool, *list, *transfers) == stage_all(
                start,
                staged@,
                i as int,
            ),
            list.names == old(list).names,
        decreases staged.len() - i,
    {
        match &staged[i].data {
            ResourceData::D2(data) => {
                stage_resource_2d(staged[i].key, data, resources, pool, list, transfers);
            },
            ResourceData::D3(data) => {
                stage_resource_3d(staged[i].key, data, resources, pool, list, transfers);
            },
            ResourceData::Cube(faces) => {
                stage_resource_cube(staged[i].key, faces, resources, pool, list, transfers);
            },
        }
        i = i + 1;
    }
}

/// The instructions that carry out the first `n` noted transfers.
pub open spec fn transfer_commands(transfers: Seq<Transfer>, n: int) -> Seq<GpuCommand>
    decreases n,
{
    if n <= 0 {
        Seq::empty()
    } else {
        let t = transfers[n - 1];
        transfer_commands(transfers, n - 1).push(
            GpuCommand::TransferPixelBuffer {
                buffer: t.pbo.pbo,
                target: t.resource.target,
                texture: t.resource.texture,
                xoffset: t.pbo.xoffset,
                yoffset: t.pbo.yoffset,
                subwidth: t.pbo.subwidth,
                subheight: t.pbo.subheight,
                format: t.resource.params.format,
                data_type: t.resource.params.data_type,
            },
        )
    }
}

/// Copies every filled pixel transfer buffer into its texture, in the order in
/// which the buffers were filled, and forgets the transfers.
pub fn gpu_pbo_to_texture_transfer(transfers: &mut Vec<Transfer>, commands: &mut Vec<GpuCommand>)
    ensures
        final(transfers)@.len() == 0,
        final(commands)@ == old(commands)@ + transfer_commands(
            old(transfers)@,
            old(transfers)@.len() as int,
        ),
{
    let ghost before = commands@;
    let mut i: usize = 0;
    while i < transfers.len()
        invariant
            i <= transfers@.len(),
            transfers@ == old(transfers)@,
            commands@ == before + transfer_commands(transfers@, i as int),
        decreases transfers@.len() - i,
    {
        let t = transfers[i];
        commands.push(
            GpuCommand::TransferPixelBuffer {
                buffer: t.pbo.pbo,
                target: t.resource.target,
                texture: t.resource.texture,
                xoffset: t.pbo.xoffset,
                yoffset: t.pbo.yoffset,
                subwidth: t.pbo.subwidth,
                subheight: t.pbo.subheight,
                format: t.resource.params.format,
                data_type: t.resource.params.data_type,
            },
        );
        i = i + 1;
        assert(commands@ =~= before + transfer_commands(transfers@, i as int));
    }
    transfers.clear();
}

} // verus!
