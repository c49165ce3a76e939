use vstd::prelude::*;

use crate::commands::{apply_write, apply_writes, splice, write_fits, writes_of, GroupState, Upload};
use crate::records::{GPUCamera, GPUSprite};
use crate::sprite::RenderError;

verus! {

/// A sprite record whose bits are all zero, as in a freshly allocated buffer.
pub open spec fn zero_sprite() -> GPUSprite {
    GPUSprite { screen_region: [0u32, 0u32, 0u32, 0u32], sheet_region: [0u32, 0u32, 0u32, 0u32] }
}

/// A camera record whose bits are all zero.
pub open spec fn zero_camera() -> GPUCamera {
    GPUCamera { screen_pos: [0u32, 0u32], screen_size: [0u32, 0u32] }
}

/// The two buffers of one group as the device holds them.
struct GroupBuffers {
    sprites: Vec<GPUSprite>,
    camera: GPUCamera,
}

/// A model of device memory: the sprite and camera buffers of each group,
/// changed only by applying uploads to them. Reading it back shows what the
/// GPU would read after the same uploads.
pub struct GpuMemory {
    groups: Vec<GroupBuffers>,
}

impl View for GroupBuffers {
    type V = GroupState;

    closed spec fn view(&self) -> GroupState {
        GroupState { sprites: self.sprites@, camera: self.camera }
    }
}

closed spec fn buffer_views(gs: Seq<GroupBuffers>) -> Seq<GroupState> {
    gs.map_values(|g: GroupBuffers| g@)
}

broadcast proof fn lemma_buffer_views_update(gs: Seq<GroupBuffers>, i: int, g: GroupBuffers)
    requires
        0 <= i < gs.len(),
    ensures
        #[trigger] buffer_views(gs.update(i, g)) == buffer_views(gs).update(i, g@),
{
    assert(buffer_views(gs.update(i, g)) =~= buffer_views(gs).update(i, g@));
}

impl View for GpuMemory {
    type V = Seq<GroupState>;

    closed spec fn view(&self) -> Seq<GroupState> {
        buffer_views(self.groups@)
    }
}

impl GroupBuffers {
    fn write_sprites(&mut self, first: usize, data: &Vec<GPUSprite>)
        requires
            first + data@.len() <= old(self)@.sprites.len(),
        ensures
            final(self)@ == (GroupState {
                sprites: splice(old(self)@.sprites, first as int, data@),
                ..old(self)@
            }),
    {
        let n = data.len();
        let mut k: usize = 0;
        while k < n
            invariant
                n == data@.len(),
                0 <= k <= n,
                first + n <= old(self).sprites.len(),
                self.camera == old(self).camera,
                self.sprites@ == splice(old(self)@.sprites, first as int, data@.subrange(0, k as int)),
            decreases n - k,
        {
            self.sprites.set(first + k, data[k]);
            proof {
                assert(self.sprites@ =~= splice(
                    old(self)@.sprites,
                    first as int,
                    data@.subrange(0, k + 1),
                ));
            }
            k = k + 1;
        }
        proof {
            assert(data@.subrange(0, n as int) =~= data@);
        }
    }
}

impl GpuMemory {
    /// Device memory with no buffers.
    pub fn new() -> (r: GpuMemory)
        ensures
            r@.len() == 0,
    {
        let r = GpuMemory { groups: Vec::new() };
        proof {
            assert(r@ =~= Seq::<GroupState>::empty());
        }
        r
    }

    /// Number of groups whose buffers are allocated.
    pub fn group_count(&self) -> (r: usize)
        ensures
            r == self@.len(),
    {
        self.groups.len()
    }

    /// Allocates the buffers of one more group, for `sprite_count` sprites,
    /// all bits zero, and returns its index.
    pub fn allocate_group(&mut self, sprite_count: usize) -> (r: usize)
        ensures
            r == old(self)@.len(),
            final(self)@ == old(self)@.push(
                GroupState {
                    sprites: Seq::new(sprite_count as nat, |i: int| zero_sprite()),
                    camera: zero_camera(),
                },
            ),
    {
        let mut sprites: Vec<GPUSprite> = Vec::new();
        let mut i: usize = 0;
        while i < sprite_count
            invariant
                0 <= i <= sprite_count,
                sprites@ == Seq::new(i as nat, |j: int| zero_sprite()),
            decreases sprite_count - i,
        {
            sprites.push(
                GPUSprite { screen_region: [0u32, 0u32, 0u32, 0u32], sheet_region: [0u32, 0u32, 0u32, 0u32] },
            );
            proof {
                assert(sprites@ =~= Seq::new((i + 1) as nat, |j: int| zero_sprite()));
            }
            i = i + 1;
        }
        let index = self.groups.len();
        let ghost before = self@;
        self.groups.push(
            GroupBuffers { sprites, camera: GPUCamera { screen_pos: [0u32, 0u32], screen_size: [0u32, 0u32] } },
        );
        proof {
            assert(self@ =~= before.push(
                GroupState {
                    sprites: Seq::new(sprite_count as nat, |i: int| zero_sprite()),
                    camera: zero_camera(),
                },
            ));
        }
        index
    }
}


impl GpuMemory {
    /// Carries out one upload. An upload that names no allocated group, or
    /// that reaches past the end of its buffer, is refused with `OutOfBounds`
    /// and changes nothing.
    pub fn apply(&mut self, upload: &Upload) -> (r: Result<(), RenderError>)
        ensures
            final(self)@ == apply_write(old(self)@, upload@),
            r == (if write_fits(old(self)@, upload@) {
                Ok::<(), RenderError>(())
            } else {
                Err::<(), RenderError>(RenderError::OutOfBounds)
            }),
    {
        broadcast use lemma_buffer_views_update;

        match upload {
            Upload::Sprites { group, first, sprites } => {
                if *group >= self.groups.len() || *first > self.groups[*group].sprites.len()
                    || sprites.len() > self.groups[*group].sprites.len() - *first {
                    return Err(RenderError::OutOfBounds);
                }
                let target = &mut self.groups[*group];
                target.write_sprites(*first, sprites);
            },
            Upload::Camera { group, camera } => {
                if *group >= self.groups.len() {
                    return Err(RenderError::OutOfBounds);
                }
                let target = &mut self.groups[*group];
                target.camera = *camera;
            },
        }
        Ok(())
    }

    /// Carries out `uploads` in order; those that do not fit change nothing.
    pub fn apply_all(&mut self, uploads: &Vec<Upload>)
        ensures
            final(self)@ == apply_writes(old(self)@, writes_of(uploads@)),
    {
        let mut i: usize = 0;
        while i < uploads.len()
            invariant
                0 <= i <= uploads@.len(),
                self@ == apply_writes(old(self)@, writes_of(uploads@.subrange(0, i as int))),
            decreases uploads@.len() - i,
        {
            let _ = self.apply(&uploads[i]);
            proof {
                let ws = writes_of(uploads@.subrange(0, i + 1));
                assert(ws.drop_last() =~= writes_of(uploads@.subrange(0, i as int)));
                assert(ws.last() == uploads@[i as int]@);
            }
            i = i + 1;
        }
        proof {
            assert(uploads@.subrange(0, uploads@.len() as int) =~= uploads@);
        }
    }

    /// What the sprite buffer of `group` holds.
    pub fn sprites(&self, group: usize) -> (r: &[GPUSprite])
        requires
            group < self@.len(),
        ensures
            r@ == self@[group as int].sprites,
    {
        self.groups[group].sprites.as_slice()
    }

    /// What the camera buffer of `group` holds.
    pub fn camera(&self, group: usize) -> (r: GPUCamera)
        requires
            group < self@.len(),
        ensures
            r == self@[group as int].camera,
    {
        self.groups[group].camera
    }
}

} // verus!
