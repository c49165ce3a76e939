use sprite_render::{GPUCamera, GPUSprite, GpuMemory, RenderError, Upload, SPRITE_BYTES};

fn zero_sprite() -> GPUSprite {
    GPUSprite::new([0; 4], [0; 4])
}

fn marked(n: u32) -> GPUSprite {
    GPUSprite::new([n, n + 1, n + 2, n + 3], [0, 0, 1, 1])
}

#[test]
fn allocated_buffers_start_zeroed() {
    let mut mem = GpuMemory::new();
    assert_eq!(mem.group_count(), 0);
    assert_eq!(mem.allocate_group(3), 0);
    assert_eq!(mem.allocate_group(0), 1);
    assert_eq!(mem.group_count(), 2);
    assert_eq!(mem.sprites(0), &[zero_sprite(); 3][..]);
    assert!(mem.sprites(1).is_empty());
    assert_eq!(mem.camera(0), GPUCamera::new([0, 0], [0, 0]));
}

#[test]
fn writes_past_the_buffer_are_refused() {
    let mut mem = GpuMemory::new();
    mem.allocate_group(2);
    let too_long = Upload::Sprites { group: 0, first: 1, sprites: vec![marked(1), marked(2)] };
    assert_eq!(mem.apply(&too_long), Err(RenderError::OutOfBounds));
    assert_eq!(mem.sprites(0), &[zero_sprite(); 2][..]);
    let no_group = Upload::Camera { group: 4, camera: GPUCamera::new([1, 2], [3, 4]) };
    assert_eq!(mem.apply(&no_group), Err(RenderError::OutOfBounds));
    let fits = Upload::Sprites { group: 0, first: 1, sprites: vec![marked(7)] };
    assert_eq!(mem.apply(&fits), Ok(()));
    assert_eq!(mem.sprites(0), &[zero_sprite(), marked(7)][..]);
}

#[test]
fn uploads_apply_in_order() {
    let mut mem = GpuMemory::new();
    mem.allocate_group(3);
    let uploads = vec![
        Upload::Sprites { group: 0, first: 0, sprites: vec![marked(1), marked(2), marked(3)] },
        Upload::Sprites { group: 0, first: 1, sprites: vec![marked(9)] },
        Upload::Camera { group: 0, camera: GPUCamera::new([5, 6], [7, 8]) },
        Upload::Camera { group: 0, camera: GPUCamera::new([1, 1], [2, 2]) },
    ];
    mem.apply_all(&uploads);
    assert_eq!(mem.sprites(0), &[marked(1), marked(9), marked(3)][..]);
    assert_eq!(mem.camera(0), GPUCamera::new([1, 1], [2, 2]));
}

#[test]
fn upload_offsets_are_in_bytes() {
    let s = Upload::Sprites { group: 0, first: 3, sprites: vec![] };
    assert_eq!(s.byte_offset(), Some(3 * SPRITE_BYTES));
    assert_eq!(s.byte_offset(), Some(96));
    let c = Upload::Camera { group: 2, camera: GPUCamera::new([0, 0], [0, 0]) };
    assert_eq!(c.byte_offset(), Some(0));
    let far = Upload::Sprites { group: 0, first: usize::MAX, sprites: vec![] };
    assert_eq!(far.byte_offset(), None);
}
