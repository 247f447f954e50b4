use grimoire::command::{GpuCommand, HandlePool};
use grimoire::config::{BufferConfig, BufferDepthConfig, BufferFormat};
use grimoire::framebuffer::{
    create_framebuffer, find_framebuffer, gpu_delete_buffer_resources,
    gpu_delete_non_buffer_resources, is_attachment_key, Framebuffer, NamedFramebuffer,
};
use grimoire::gl::GLTextureParam;
use grimoire::identity::hash_name_attachment;
use grimoire::table::{copy_into_array, GLPbo, GLResource, ResourceTable};

fn resource(texture: u32) -> GLResource {
    GLResource {
        target: 0x0DE1,
        texture,
        resolution: [1, 1, 0],
        time: 0,
        pbos: [GLPbo::default(), GLPbo::default(), GLPbo::default()],
        pbo_idx: 0,
        params: GLTextureParam::default(),
    }
}

fn buffer(attachments: usize, depth: BufferDepthConfig) -> BufferConfig {
    BufferConfig {
        buffer: true,
        attachments,
        format: BufferFormat::U8,
        components: 3,
        width: None,
        height: None,
        scale: None,
        depth,
        feedback: false,
    }
}

#[test]
fn handles_run_from_one_and_skip_zero() {
    let mut pool = HandlePool::new();
    assert_eq!(pool.fresh(), 1);
    assert_eq!(pool.fresh(), 2);
    let mut pool = HandlePool { next: u32::MAX };
    assert_eq!(pool.fresh(), u32::MAX);
    assert_eq!(pool.fresh(), 1);
}

#[test]
fn table_keeps_one_row_for_a_key() {
    let mut table = ResourceTable::new();
    assert!(table.get(7).is_none());
    assert!(!table.contains(7));
    table.insert(7, resource(1));
    table.insert(9, resource(2));
    table.insert(7, resource(3));
    assert_eq!(table.entries.len(), 2);
    assert_eq!(table.get(7).unwrap().texture, 3);
    assert_eq!(table.get(9).unwrap().texture, 2);
    assert_eq!(table.find(9), Some(1));
    assert_eq!(table.remove(7).unwrap().texture, 3);
    assert!(table.remove(7).is_none());
    assert_eq!(table.find(9), Some(0));
    assert!(table.contains(9));
}

#[test]
fn three_transfer_buffers_make_an_array() {
    let pbo = |name: u32| GLPbo { pbo: name, ..GLPbo::default() };
    let array = copy_into_array(&[pbo(4), pbo(5), pbo(6)]);
    assert_eq!(array, [pbo(4), pbo(5), pbo(6)]);
}

#[test]
fn a_pair_of_targets_trades_roles() {
    let mut table = ResourceTable::new();
    let mut pool = HandlePool::new();
    let mut commands = Vec::new();
    let mut pair = create_framebuffer(
        "B",
        &buffer(1, BufferDepthConfig::Disabled),
        true,
        8,
        4,
        &mut table,
        &mut pool,
        &mut commands,
    );
    assert!(pair.does_swap());
    // the second target is drawn into first
    assert_eq!(pair.write_buffer().framebuffer, 3);
    assert_eq!(pair.read_buffer().framebuffer, 1);
    pair.swap_read_write();
    assert_eq!(pair.write_buffer().framebuffer, 1);
    assert_eq!(pair.read_buffer().framebuffer, 3);
    pair.swap_read_write();
    assert_eq!(pair.write_buffer().framebuffer, 3);
    assert!(matches!(pair, Framebuffer::PingPong { current: 1, .. }));

    let mut single = create_framebuffer(
        "C",
        &buffer(1, BufferDepthConfig::Disabled),
        false,
        8,
        4,
        &mut table,
        &mut pool,
        &mut commands,
    );
    assert!(!single.does_swap());
    assert_eq!(single.write_buffer().framebuffer, 5);
    assert_eq!(single.read_buffer().framebuffer, 5);
    single.swap_read_write();
    assert_eq!(single.write_buffer().framebuffer, 5);
}

#[test]
fn attachments_of_a_feedback_buffer_have_their_keys() {
    let mut table = ResourceTable::new();
    let mut pool = HandlePool::new();
    let mut commands = Vec::new();
    let pair = create_framebuffer(
        "B",
        &buffer(2, BufferDepthConfig::Enabled),
        true,
        8,
        4,
        &mut table,
        &mut pool,
        &mut commands,
    );
    let key = |index: usize| hash_name_attachment("B", index);
    match &pair {
        Framebuffer::PingPong { first, second, current } => {
            assert_eq!(*current, 1);
            assert_eq!(first.color_attachments, vec![key(0), key(1)]);
            assert_eq!(first.depth_attachment.unwrap().key, key(2));
            assert_eq!(second.color_attachments, vec![key(3), key(4)]);
            assert_eq!(second.depth_attachment.unwrap().key, key(5));
            assert_eq!(first.color_textures, vec![2, 3]);
            assert_eq!(first.depth_attachment.unwrap().texture, 4);
            assert_eq!(second.color_textures, vec![6, 7]);
            assert_eq!(second.depth_attachment.unwrap().texture, 8);
            assert_eq!((first.width, first.height), (8, 4));
        }
        other => panic!("unexpected targets {:?}", other),
    }
    let textures: Vec<u32> = (0..6).map(|index| table.get(key(index)).unwrap().texture).collect();
    assert_eq!(textures, vec![2, 3, 4, 6, 7, 8]);
    assert_eq!(table.get(key(0)).unwrap().resolution, [8, 4, 0]);
    assert_eq!(pool.next, 9);

    let named = vec![NamedFramebuffer { name: String::from("B"), framebuffer: pair }];
    assert_eq!(find_framebuffer(&named, &String::from("B")), Some(0));
    assert_eq!(find_framebuffer(&named, &String::from("b")), None);
    for index in 0..6 {
        assert!(is_attachment_key(&named, key(index)));
    }
    assert!(!is_attachment_key(&named, key(6)));
    assert!(!is_attachment_key(&named, hash_name_attachment("C", 0)));

    // what is no attachment goes, with its transfer buffers
    let mut stray = resource(40);
    stray.pbos[1].pbo = 41;
    table.insert(hash_name_attachment("image", 0), stray);
    let mut commands = Vec::new();
    gpu_delete_non_buffer_resources(&named, &mut table, &mut commands);
    assert_eq!(
        commands,
        vec![
            GpuCommand::DeleteTexture { texture: 40 },
            GpuCommand::DeleteBuffer { buffer: 0 },
            GpuCommand::DeleteBuffer { buffer: 41 },
            GpuCommand::DeleteBuffer { buffer: 0 },
        ]
    );
    assert_eq!(table.entries.len(), 6);

    // the targets go with everything that is attached to them
    let mut commands = Vec::new();
    gpu_delete_buffer_resources(&named, &mut table, &mut commands);
    assert_eq!(
        commands,
        vec![
            GpuCommand::DeleteTexture { texture: 2 },
            GpuCommand::DeleteTexture { texture: 3 },
            GpuCommand::DeleteTexture { texture: 4 },
            GpuCommand::DeleteFramebuffer { framebuffer: 1 },
            GpuCommand::DeleteTexture { texture: 6 },
            GpuCommand::DeleteTexture { texture: 7 },
            GpuCommand::DeleteTexture { texture: 8 },
            GpuCommand::DeleteFramebuffer { framebuffer: 5 },
        ]
    );
    assert!(table.entries.is_empty());
}

#[test]
fn buffer_without_attachments_is_only_checked() {
    let mut table = ResourceTable::new();
    let mut pool = HandlePool::new();
    let mut commands = Vec::new();
    create_framebuffer(
        "E",
        &buffer(0, BufferDepthConfig::Disabled),
        false,
        1,
        1,
        &mut table,
        &mut pool,
        &mut commands,
    );
    assert_eq!(
        commands,
        vec![
            GpuCommand::CreateFramebuffer { framebuffer: 1 },
            GpuCommand::CheckFramebuffer { framebuffer: 1 },
        ]
    );
    assert!(table.entries.is_empty());
}
