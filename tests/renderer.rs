use sprite_render::{
    DrawCommand, GPUCamera, GPUSprite, GpuMemory, RenderError, SpriteRender, Upload,
    QUAD_VERTICES, SPRITE_BYTES,
};

fn bits4(v: [f32; 4]) -> [u32; 4] {
    [v[0].to_bits(), v[1].to_bits(), v[2].to_bits(), v[3].to_bits()]
}

fn sprite(x: f32, y: f32, u: f32) -> GPUSprite {
    GPUSprite::new(bits4([x, y, 32.0, 32.0]), bits4([u, 0.0, 0.25, 0.25]))
}

fn camera(x: f32, y: f32, w: f32, h: f32) -> GPUCamera {
    GPUCamera::new([x.to_bits(), y.to_bits()], [w.to_bits(), h.to_bits()])
}

#[test]
fn partial_refresh_updates_only_the_range() {
    let mut r = SpriteRender::new();
    let initial = vec![
        sprite(0.0, 0.0, 0.0),
        sprite(32.0, 0.0, 0.25),
        sprite(64.0, 0.0, 0.5),
        sprite(96.0, 0.0, 0.75),
    ];
    let g0 = r
        .add_sprite_group(initial.clone(), camera(0.0, 0.0, 1024.0, 768.0))
        .unwrap();
    assert_eq!(g0, 0);
    let mut mem = GpuMemory::new();
    mem.allocate_group(4);
    mem.apply_all(&r.take_uploads());
    assert_eq!(mem.sprites(0), &initial[..]);

    let moved1 = sprite(40.0, 8.0, 0.25);
    let moved2 = sprite(72.0, 8.0, 0.5);
    *r.get_sprite_mut(g0, 1) = moved1;
    *r.get_sprite_mut(g0, 2) = moved2;
    // before any refresh, the GPU copy still holds the construction values
    assert_eq!(mem.sprites(0), &initial[..]);

    r.refresh_sprites(g0, 1..3).unwrap();
    let uploads = r.take_uploads();
    assert_eq!(
        uploads,
        vec![Upload::Sprites { group: 0, first: 1, sprites: vec![moved1, moved2] }]
    );
    assert_eq!(uploads[0].byte_offset(), Some(SPRITE_BYTES));
    mem.apply_all(&uploads);
    assert_eq!(mem.sprites(0), &[initial[0], moved1, moved2, initial[3]][..]);
    assert_eq!(mem.camera(0), camera(0.0, 0.0, 1024.0, 768.0));
}

#[test]
fn two_groups_draw_in_registry_order() {
    let mut r = SpriteRender::new();
    let fg = r.add_sprite_group(vec![sprite(10.0, 10.0, 0.0)], camera(0.0, 0.0, 640.0, 480.0)).unwrap();
    let bg = r.add_sprite_group(vec![sprite(0.0, 0.0, 0.5)], camera(0.0, 0.0, 640.0, 480.0)).unwrap();
    assert_eq!((fg, bg), (0, 1));
    let cmds = r.render();
    assert_eq!(
        cmds,
        vec![
            DrawCommand::SetPipeline,
            DrawCommand::SetSpriteBindGroup { group: fg },
            DrawCommand::SetTextureBindGroup { group: fg },
            DrawCommand::Draw { vertex_count: 6, instance_count: 1 },
            DrawCommand::SetSpriteBindGroup { group: bg },
            DrawCommand::SetTextureBindGroup { group: bg },
            DrawCommand::Draw { vertex_count: 6, instance_count: 1 },
        ]
    );
    let draws = cmds.iter().filter(|c| matches!(c, DrawCommand::Draw { .. })).count();
    assert_eq!(draws, 2);
}

#[test]
fn added_group_reads_back_its_sprites() {
    let mut r = SpriteRender::new();
    let a = vec![sprite(1.0, 2.0, 0.0), sprite(3.0, 4.0, 0.5), sprite(5.0, 6.0, 0.75)];
    let b = vec![sprite(7.0, 8.0, 0.25)];
    let ha = r.add_sprite_group(a.clone(), camera(0.0, 0.0, 100.0, 100.0)).unwrap();
    let hb = r.add_sprite_group(b.clone(), camera(5.0, 5.0, 50.0, 50.0)).unwrap();
    assert_eq!(r.get_sprites(ha), &a[..]);
    assert_eq!(r.get_sprites(hb), &b[..]);
    assert_eq!(r.group_size(ha).len(), 3);
    assert_eq!(r.group_count(), 2);
}

#[test]
fn added_group_queues_full_writes() {
    let mut r = SpriteRender::new();
    let a = vec![sprite(1.0, 2.0, 0.0), sprite(3.0, 4.0, 0.5)];
    let cam = camera(1.0, 2.0, 300.0, 200.0);
    r.add_sprite_group(a.clone(), cam).unwrap();
    let uploads = r.take_uploads();
    assert_eq!(
        uploads,
        vec![
            Upload::Sprites { group: 0, first: 0, sprites: a.clone() },
            Upload::Camera { group: 0, camera: cam },
        ]
    );
    assert!(r.take_uploads().is_empty());
    let mut mem = GpuMemory::new();
    mem.allocate_group(2);
    mem.apply_all(&uploads);
    assert_eq!(mem.sprites(0), &a[..]);
    assert_eq!(mem.camera(0), cam);
}

#[test]
fn set_camera_all_matches_each_in_order() {
    let cam0 = camera(0.0, 0.0, 800.0, 600.0);
    let cam = camera(128.0, 64.0, 800.0, 600.0);
    let mut all = SpriteRender::new();
    let mut each = SpriteRender::new();
    for n in 0..3usize {
        let sprites = vec![sprite(n as f32, 0.0, 0.0); n + 1];
        all.add_sprite_group(sprites.clone(), cam0).unwrap();
        each.add_sprite_group(sprites, cam0).unwrap();
    }
    all.take_uploads();
    each.take_uploads();
    all.set_camera_all(cam);
    for h in 0..3usize {
        each.set_camera(h, cam);
    }
    let ua = all.take_uploads();
    assert_eq!(ua, each.take_uploads());
    assert_eq!(
        ua,
        vec![
            Upload::Camera { group: 0, camera: cam },
            Upload::Camera { group: 1, camera: cam },
            Upload::Camera { group: 2, camera: cam },
        ]
    );
}

#[test]
fn set_camera_all_twice_leaves_same_gpu_cameras() {
    let cam0 = camera(0.0, 0.0, 800.0, 600.0);
    let cam = camera(-16.0, 32.0, 400.0, 300.0);
    let mut r = SpriteRender::new();
    let mut mem = GpuMemory::new();
    for n in 0..3usize {
        r.add_sprite_group(vec![sprite(0.0, 0.0, 0.0); n], cam0).unwrap();
        mem.allocate_group(n);
    }
    mem.apply_all(&r.take_uploads());
    r.set_camera_all(cam);
    mem.apply_all(&r.take_uploads());
    let once: Vec<GPUCamera> = (0..3).map(|h| mem.camera(h)).collect();
    r.set_camera_all(cam);
    mem.apply_all(&r.take_uploads());
    let twice: Vec<GPUCamera> = (0..3).map(|h| mem.camera(h)).collect();
    assert_eq!(once, vec![cam; 3]);
    assert_eq!(once, twice);
}

#[test]
fn draw_instance_counts_follow_group_sizes() {
    let mut r = SpriteRender::new();
    let cam = camera(0.0, 0.0, 320.0, 240.0);
    r.add_sprite_group(Vec::new(), cam).unwrap();
    r.add_sprite_group(vec![sprite(0.0, 0.0, 0.0)], cam).unwrap();
    r.add_sprite_group(vec![sprite(0.0, 0.0, 0.0); 17], cam).unwrap();
    let counts: Vec<u32> = r
        .render()
        .iter()
        .filter_map(|c| match c {
            DrawCommand::Draw { vertex_count, instance_count } => {
                assert_eq!(*vertex_count, QUAD_VERTICES);
                Some(*instance_count)
            }
            _ => None,
        })
        .collect();
    assert_eq!(counts, vec![0, 1, 17]);
}

#[test]
fn registry_order_is_bind_order() {
    let mut r = SpriteRender::new();
    let cam = camera(0.0, 0.0, 320.0, 240.0);
    let a = r.add_sprite_group(vec![sprite(0.0, 0.0, 0.0); 2], cam).unwrap();
    let b = r.add_sprite_group(vec![sprite(0.0, 0.0, 0.0); 3], cam).unwrap();
    let c = r.add_sprite_group(vec![sprite(0.0, 0.0, 0.0); 1], cam).unwrap();
    assert_eq!((a, b, c), (0, 1, 2));
    let bound: Vec<usize> = r
        .render()
        .iter()
        .filter_map(|cmd| match cmd {
            DrawCommand::SetSpriteBindGroup { group } => Some(*group),
            _ => None,
        })
        .collect();
    assert_eq!(bound, vec![a, b, c]);
    assert_eq!(r.render()[0], DrawCommand::SetPipeline);
}

#[test]
fn empty_renderer_sets_pipeline_only() {
    let r = SpriteRender::new();
    assert_eq!(r.render(), vec![DrawCommand::SetPipeline]);
    assert_eq!(r.group_count(), 0);
}

#[test]
fn refresh_out_of_bounds_is_refused() {
    let mut r = SpriteRender::new();
    let cam = camera(0.0, 0.0, 320.0, 240.0);
    r.add_sprite_group(vec![sprite(0.0, 0.0, 0.0); 4], cam).unwrap();
    r.take_uploads();
    assert_eq!(r.refresh_sprites(1, 0..1), Err(RenderError::OutOfBounds));
    assert_eq!(r.refresh_sprites(0, 2..5), Err(RenderError::OutOfBounds));
    assert_eq!(r.refresh_sprites(0, 3..2), Err(RenderError::OutOfBounds));
    assert!(r.take_uploads().is_empty());
    assert_eq!(r.refresh_sprites(0, 4..4), Ok(()));
    assert_eq!(r.refresh_sprites(0, 0..4), Ok(()));
    assert_eq!(r.take_uploads().len(), 2);
}

#[test]
fn set_camera_changes_one_group() {
    let mut r = SpriteRender::new();
    let cam0 = camera(0.0, 0.0, 320.0, 240.0);
    let cam1 = camera(10.0, 20.0, 320.0, 240.0);
    r.add_sprite_group(vec![sprite(0.0, 0.0, 0.0)], cam0).unwrap();
    r.add_sprite_group(vec![sprite(0.0, 0.0, 0.0)], cam0).unwrap();
    r.take_uploads();
    r.set_camera(1, cam1);
    assert_eq!(r.take_uploads(), vec![Upload::Camera { group: 1, camera: cam1 }]);
}

#[test]
fn sprite_buffer_is_one_record_per_sprite() {
    let mut r = SpriteRender::new();
    let cam = camera(0.0, 0.0, 320.0, 240.0);
    r.add_sprite_group(vec![sprite(0.0, 0.0, 0.0); 5], cam).unwrap();
    r.add_sprite_group(Vec::new(), cam).unwrap();
    assert_eq!(r.sprite_buffer_bytes(0), 160);
    assert_eq!(r.sprite_buffer_bytes(1), 0);
}

#[test]
fn update_position_moves_first_sprite() {
    let mut r = SpriteRender::new();
    let cam = camera(0.0, 0.0, 320.0, 240.0);
    let s0 = sprite(0.0, 0.0, 0.5);
    let s1 = sprite(32.0, 0.0, 0.5);
    r.add_sprite_group(vec![s0, s1], cam).unwrap();
    let region = bits4([100.0, 50.0, 32.0, 32.0]);
    r.update_position(region, 0);
    assert_eq!(r.get_sprites(0)[0].screen_region, region);
    assert_eq!(r.get_sprites(0)[0].sheet_region, s0.sheet_region);
    assert_eq!(r.get_sprites(0)[1], s1);
    r.print_group(0);
}

#[test]
fn all_sprites_can_be_edited_in_place() {
    let mut r = SpriteRender::new();
    let cam = camera(0.0, 0.0, 320.0, 240.0);
    r.add_sprite_group(vec![sprite(0.0, 0.0, 0.0); 3], cam).unwrap();
    for s in r.get_all_sprites_mut(0).iter_mut() {
        s.sheet_region[0] = 0.5f32.to_bits();
    }
    assert!(r.get_sprites(0).iter().all(|s| s.sheet_region[0] == 0.5f32.to_bits()));
    assert_eq!(r.get_sprites(0).len(), 3);
}
