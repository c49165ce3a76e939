use vstd::prelude::*;

use crate::commands::{
    draw_program_ok, writes_of, DrawCommand, GroupState, Upload, Write, QUAD_VERTICES,
};
use crate::records::{GPUCamera, GPUSprite, SPRITE_BYTES};

verus! {

/// Largest number of sprites in one group: the instance count of a draw is a `u32`.
pub const MAX_GROUP_SPRITES: usize = 0xffff_ffff;

/// Why a call into the renderer was refused.
#[derive(Clone, Copy, Debug, PartialEq, Eq)]
pub enum RenderError {
    /// The group handle or the sprite range lies outside what was registered.
    OutOfBounds,
    /// A group would hold more sprites than one draw call can instance.
    TooManySprites,
}

/// The abstract state of a renderer: its groups in registry order, and the
/// writes queued for the GPU and not yet taken.
pub struct RenderView {
    pub groups: Seq<GroupState>,
    pub uploads: Seq<Write>,
}

/// One batch: the CPU copies of its sprites and camera. Its GPU buffers are
/// sized for exactly these sprites; the sprite count never changes.
pub struct SpriteGroup {
    sprites: Vec<GPUSprite>,
    camera: GPUCamera,
}

/// The ordered registry of sprite groups, with the queue of buffer writes that
/// keep the GPU copies in step with the CPU copies.
///
/// A group's handle is its index in the registry. Groups are never removed, so
/// handles are stable and never reused.
pub struct SpriteRender {
    groups: Vec<SpriteGroup>,
    uploads: Vec<Upload>,
}

impl View for SpriteGroup {
    type V = GroupState;

    closed spec fn view(&self) -> GroupState {
        GroupState { sprites: self.sprites@, camera: self.camera }
    }
}

impl View for SpriteRender {
    type V = RenderView;

    closed spec fn view(&self) -> RenderView {
        RenderView {
            groups: group_views(self.groups@),
            uploads: writes_of(self.uploads@),
        }
    }
}

/// The abstract states of `gs`, in order.
closed spec fn group_views(gs: Seq<SpriteGroup>) -> Seq<GroupState> {
    gs.map_values(|g: SpriteGroup| g@)
}

broadcast proof fn lemma_group_views_update(gs: Seq<SpriteGroup>, i: int, g: SpriteGroup)
    requires
        0 <= i < gs.len(),
    ensures
        #[trigger] group_views(gs.update(i, g)) == group_views(gs).update(i, g@),
{
    assert(group_views(gs.update(i, g)) =~= group_views(gs).update(i, g@));
}

/// Every group in `groups` can be drawn with one instanced draw.
pub open spec fn groups_fit(groups: Seq<GroupState>) -> bool {
    forall|i: int| 0 <= i < groups.len() ==> #[trigger] groups[i].sprites.len() <= MAX_GROUP_SPRITES
}

broadcast proof fn lemma_groups_fit_update(groups: Seq<GroupState>, i: int, g: GroupState)
    requires
        groups_fit(groups),
        0 <= i < groups.len(),
        g.sprites.len() == groups[i].sprites.len(),
    ensures
        #[trigger] groups_fit(groups.update(i, g)),
{
}

/// The renderer after registering a group of `sprites` seen through `camera`:
/// the group is appended, and both of its buffers are written in full.
pub open spec fn added(v: RenderView, sprites: Seq<GPUSprite>, camera: GPUCamera) -> RenderView {
    let h = v.groups.len() as int;
    RenderView {
        groups: v.groups.push(GroupState { sprites, camera }),
        uploads: v.uploads.push(Write::Sprites { group: h, first: 0, data: sprites }).push(
            Write::Camera { group: h, camera },
        ),
    }
}

/// The renderer after `set_camera(which, camera)`.
pub open spec fn camera_set(v: RenderView, which: int, camera: GPUCamera) -> RenderView {
    RenderView {
        groups: v.groups.update(which, GroupState { camera, ..v.groups[which] }),
        uploads: v.uploads.push(Write::Camera { group: which, camera }),
    }
}

/// The camera writes for groups `0 .. n`, in registry order.
pub open spec fn camera_writes(n: int, camera: GPUCamera) -> Seq<Write> {
    Seq::new(n as nat, |i: int| Write::Camera { group: i, camera })
}

/// The renderer after `set_camera_all(camera)`: every group has `camera`, and
/// one camera write per group is queued, in registry order.
pub open spec fn camera_set_all(v: RenderView, camera: GPUCamera) -> RenderView {
    RenderView {
        groups: v.groups.map_values(|g: GroupState| GroupState { camera, ..g }),
        uploads: v.uploads + camera_writes(v.groups.len() as int, camera),
    }
}

/// The write that `refresh_sprites(which, start..end)` queues: the current
/// CPU sprites `start .. end` of the group, at their own position.
pub open spec fn refresh_write(v: RenderView, which: int, start: int, end: int) -> Write {
    Write::Sprites {
        group: which,
        first: start,
        data: v.groups[which].sprites.subrange(start, end),
    }
}

/// Whether `which` names a group of `v` and `start .. end` a range of its sprites.
pub open spec fn refresh_in_bounds(v: RenderView, which: int, start: int, end: int) -> bool {
    &&& 0 <= which < v.groups.len()
    &&& 0 <= start <= end <= v.groups[which].sprites.len()
}

/// A copy of `v[start .. end]`.
fn copy_range(v: &Vec<GPUSprite>, start: usize, end: usize) -> (r: Vec<GPUSprite>)
    requires
        start <= end <= v.len(),
    ensures
        r@ == v@.subrange(start as int, end as int),
{
    let mut r: Vec<GPUSprite> = Vec::new();
    let mut i: usize = start;
    while i < end
        invariant
            start <= i <= end <= v.len(),
            r@ == v@.subrange(start as int, i as int),
        decreases end - i,
    {
        r.push(v[i]);
        proof {
            assert(v@.subrange(start as int, i + 1) =~= v@.subrange(start as int, i as int).push(
                v@[i as int],
            ));
        }
        i = i + 1;
    }
    r
}

impl SpriteRender {
    /// Every group can be drawn with one instanced draw.
    pub open spec fn wf(&self) -> bool {
        groups_fit(self@.groups)
    }

    /// An empty registry with nothing queued.
    pub fn new() -> (r: SpriteRender)
        ensures
            r.wf(),
            r@.groups.len() == 0,
            r@.uploads.len() == 0,
    {
        let r = SpriteRender { groups: Vec::new(), uploads: Vec::new() };
        proof {
            assert(r@.groups =~= Seq::<GroupState>::empty());
            assert(r@.uploads =~= Seq::<Write>::empty());
        }
        r
    }

    /// Number of registered groups.
    pub fn group_count(&self) -> (r: usize)
        ensures
            r == self@.groups.len(),
    {
        self.groups.len()
    }
}


impl SpriteRender {
    /// Registers a group of `sprites` drawn through `camera` and returns its
    /// handle, the next index of the registry. Both buffers of the group are
    /// queued to be written in full, so that once the writes are applied the
    /// GPU copies equal what was passed in.
    ///
    /// A group of more than `MAX_GROUP_SPRITES` sprites is refused, and the
    /// renderer is left as it was.
    pub fn add_sprite_group(&mut self, sprites: Vec<GPUSprite>, camera: GPUCamera) -> (r: Result<
        usize,
        RenderError,
    >)
        requires
            old(self).wf(),
        ensures
            final(self).wf(),
            sprites@.len() <= MAX_GROUP_SPRITES ==> r == Ok::<usize, RenderError>(
                old(self)@.groups.len() as usize,
            ) && final(self)@ == added(old(self)@, sprites@, camera),
            sprites@.len() > MAX_GROUP_SPRITES ==> r == Err::<usize, RenderError>(
                RenderError::TooManySprites,
            ) && final(self)@ == old(self)@,
    {
        if sprites.len() > MAX_GROUP_SPRITES {
            return Err(RenderError::TooManySprites);
        }
        let handle = self.groups.len();
        let upload = copy_range(&sprites, 0, sprites.len());
        proof {
            assert(sprites@.subrange(0, sprites@.len() as int) =~= sprites@);
        }
        let ghost before = self@;
        self.uploads.push(Upload::Sprites { group: handle, first: 0, sprites: upload });
        self.uploads.push(Upload::Camera { group: handle, camera });
        self.groups.push(SpriteGroup { sprites, camera });
        proof {
            let after = added(before, sprites@, camera);
            assert(self@.groups =~= after.groups);
            assert(self@.uploads =~= after.uploads);
        }
        Ok(handle)
    }
}


impl SpriteRender {
    /// Gives group `index` the camera `camera` and queues the write of the
    /// whole camera record.
    pub fn set_camera(&mut self, index: usize, camera: GPUCamera)
        requires
            old(self).wf(),
            index < old(self)@.groups.len(),
        ensures
            final(self).wf(),
            final(self)@ == camera_set(old(self)@, index as int, camera),
    {
        let ghost before = self@;
        let group = &mut self.groups[index];
        group.camera = camera;
        self.uploads.push(Upload::Camera { group: index, camera });
        proof {
            let after = camera_set(before, index as int, camera);
            assert(self@.groups =~= after.groups);
            assert(self@.uploads =~= after.uploads);
        }
    }

    /// Gives every group the camera `camera`, in registry order, as
    /// `set_camera` does for each handle in turn.
    pub fn set_camera_all(&mut self, camera: GPUCamera)
        requires
            old(self).wf(),
        ensures
            final(self).wf(),
            final(self)@ == camera_set_all(old(self)@, camera),
    {
        let ghost before = self@;
        let n = self.groups.len();
        let mut i: usize = 0;
        while i < n
            invariant
                self.wf(),
                0 <= i <= n == before.groups.len(),
                self@.groups.len() == n,
                forall|j: int|
                    0 <= j < n ==> #[trigger] self@.groups[j] == (if j < i {
                        GroupState { camera, ..before.groups[j] }
                    } else {
                        before.groups[j]
                    }),
                self@.uploads == before.uploads + camera_writes(i as int, camera),
            decreases n - i,
        {
            let ghost mid = self@;
            self.set_camera(i, camera);
            proof {
                assert(camera_writes(i + 1, camera) =~= camera_writes(i as int, camera).push(
                    Write::Camera { group: i as int, camera },
                ));
                assert(self@.uploads =~= before.uploads + camera_writes(i + 1, camera));
            }
            i = i + 1;
        }
        proof {
            let after = camera_set_all(before, camera);
            assert(self@.groups =~= after.groups);
        }
    }

    /// Queues the write of sprites `range` of group `which`, as they are now on
    /// the CPU, to the same place in the group's GPU sprite array.
    ///
    /// Fails with `OutOfBounds`, queueing nothing, when `which` is not a
    /// registered group or `range` is not a range of its sprites.
    pub fn refresh_sprites(&mut self, which: usize, range: core::ops::Range<usize>) -> (r: Result<
        (),
        RenderError,
    >)
        requires
            old(self).wf(),
        ensures
            final(self).wf(),
            refresh_in_bounds(old(self)@, which as int, range.start as int, range.end as int) ==> r
                == Ok::<(), RenderError>(()) && final(self)@ == (RenderView {
                uploads: old(self)@.uploads.push(
                    refresh_write(old(self)@, which as int, range.start as int, range.end as int),
                ),
                ..old(self)@
            }),
            !refresh_in_bounds(old(self)@, which as int, range.start as int, range.end as int) ==> r
                == Err::<(), RenderError>(RenderError::OutOfBounds) && final(self)@ == old(self)@,
    {
        if which >= self.groups.len() || range.start > range.end || range.end
            > self.groups[which].sprites.len() {
            return Err(RenderError::OutOfBounds);
        }
        let ghost before = self@;
        let data = copy_range(&self.groups[which].sprites, range.start, range.end);
        self.uploads.push(Upload::Sprites { group: which, first: range.start, sprites: data });
        proof {
            assert(self@.groups =~= before.groups);
            assert(self@.uploads =~= before.uploads.push(
                refresh_write(before, which as int, range.start as int, range.end as int),
            ));
        }
        Ok(())
    }
}


impl SpriteRender {
    /// Sprite `index` of group `which`, to be edited in place. The GPU copy is
    /// not touched: call `refresh_sprites` for the edited range.
    pub fn get_sprite_mut(&mut self, which: usize, index: usize) -> (r: &mut GPUSprite)
        requires
            old(self).wf(),
            which < old(self)@.groups.len(),
            index < old(self)@.groups[which as int].sprites.len(),
        ensures
            *r == old(self)@.groups[which as int].sprites[index as int],
            final(self).wf(),
            final(self)@ == (RenderView {
                groups: old(self)@.groups.update(
                    which as int,
                    GroupState {
                        sprites: old(self)@.groups[which as int].sprites.update(
                            index as int,
                            *final(r),
                        ),
                        ..old(self)@.groups[which as int]
                    },
                ),
                ..old(self)@
            }),
    {
        broadcast use lemma_group_views_update;

        let group = &mut self.groups[which];
        &mut group.sprites[index]
    }

    /// The CPU sprites of group `which`, in draw order.
    pub fn get_sprites(&self, which: usize) -> (r: &[GPUSprite])
        requires
            which < self@.groups.len(),
        ensures
            r@ == self@.groups[which as int].sprites,
    {
        self.groups[which].sprites.as_slice()
    }

    /// All CPU sprites of group `which`, to be edited in place; their number
    /// cannot change. The GPU copy is not touched.
    pub fn get_all_sprites_mut(&mut self, which: usize) -> (r: &mut [GPUSprite])
        requires
            old(self).wf(),
            which < old(self)@.groups.len(),
        ensures
            r@ == old(self)@.groups[which as int].sprites,
            final(self)@ == (RenderView {
                groups: old(self)@.groups.update(
                    which as int,
                    GroupState { sprites: final(r)@, ..old(self)@.groups[which as int] },
                ),
                ..old(self)@
            }),
            final(r)@.len() == r@.len() ==> final(self).wf(),
    {
        broadcast use {lemma_group_views_update, lemma_groups_fit_update};

        let group = &mut self.groups[which];
        group.sprites.as_mut_slice()
    }
}


impl SpriteRender {
    /// The CPU sprites of group `which`, in draw order.
    pub fn group_size(&self, which: usize) -> (r: &[GPUSprite])
        requires
            which < self@.groups.len(),
        ensures
            r@ == self@.groups[which as int].sprites,
    {
        self.groups[which].sprites.as_slice()
    }

    /// Byte size of the GPU sprite array of group `which`: one record per sprite.
    pub fn sprite_buffer_bytes(&self, which: usize) -> (r: u64)
        requires
            self.wf(),
            which < self@.groups.len(),
        ensures
            r == self@.groups[which as int].sprites.len() * SPRITE_BYTES,
    {
        let n = self.groups[which].sprites.len();
        assert(self@.groups[which as int].sprites.len() <= MAX_GROUP_SPRITES);
        n as u64 * SPRITE_BYTES
    }

    /// A debugging hook that prints nothing and changes nothing.
    pub fn print_group(&self, sprite: usize) {
    }

    /// Moves the first sprite of group `sprite` to `new_region` on screen.
    pub fn update_position(&mut self, new_region: [u32; 4], sprite: usize)
        requires
            old(self).wf(),
            sprite < old(self)@.groups.len(),
            old(self)@.groups[sprite as int].sprites.len() > 0,
        ensures
            final(self).wf(),
            final(self)@ == (RenderView {
                groups: old(self)@.groups.update(
                    sprite as int,
                    GroupState {
                        sprites: old(self)@.groups[sprite as int].sprites.update(
                            0,
                            GPUSprite {
                                screen_region: new_region,
                                ..old(self)@.groups[sprite as int].sprites[0]
                            },
                        ),
                        ..old(self)@.groups[sprite as int]
                    },
                ),
                ..old(self)@
            }),
    {
        let target = self.get_sprite_mut(sprite, 0);
        target.screen_region = new_region;
    }

    /// Hands over the queued uploads, oldest first, and empties the queue. They
    /// are to be written to the GPU queue before the next frame is submitted.
    pub fn take_uploads(&mut self) -> (r: Vec<Upload>)
        requires
            old(self).wf(),
        ensures
            final(self).wf(),
            writes_of(r@) == old(self)@.uploads,
            final(self)@ == (RenderView { uploads: Seq::<Write>::empty(), ..old(self)@ }),
    {
        let mut r: Vec<Upload> = Vec::new();
        core::mem::swap(&mut r, &mut self.uploads);
        proof {
            assert(writes_of(self.uploads@) =~= Seq::<Write>::empty());
        }
        r
    }

    /// The commands that draw every group into an open render pass: the shared
    /// pipeline once, then for each group in registry order its sprite bind
    /// group, its texture bind group and one draw of
    /// `QUAD_VERTICES` vertices instanced once per sprite the group holds now.
    pub fn render(&self) -> (r: Vec<DrawCommand>)
        requires
            self.wf(),
        ensures
            draw_program_ok(self@.groups, r@),
    {
        let mut cmds: Vec<DrawCommand> = Vec::new();
        cmds.push(DrawCommand::SetPipeline);
        let n = self.groups.len();
        let mut i: usize = 0;
        while i < n
            invariant
                self.wf(),
                n == self@.groups.len(),
                0 <= i <= n,
                cmds@.len() == 1 + 3 * i,
                cmds@[0] == DrawCommand::SetPipeline,
                forall|j: int|
                    0 <= j < i ==> {
                        &&& #[trigger] cmds@[1 + 3 * j] == DrawCommand::SetSpriteBindGroup {
                            group: j as usize,
                        }
                        &&& cmds@[2 + 3 * j] == DrawCommand::SetTextureBindGroup {
                            group: j as usize,
                        }
                        &&& cmds@[3 + 3 * j] == DrawCommand::Draw {
                            vertex_count: QUAD_VERTICES,
                            instance_count: self@.groups[j].sprites.len() as u32,
                        }
                    },
            decreases n - i,
        {
            let count = self.groups[i].sprites.len();
            assert(self@.groups[i as int].sprites.len() <= MAX_GROUP_SPRITES);
            cmds.push(DrawCommand::SetSpriteBindGroup { group: i });
            cmds.push(DrawCommand::SetTextureBindGroup { group: i });
            cmds.push(DrawCommand::Draw { vertex_count: QUAD_VERTICES, instance_count: count as u32 });
            i = i + 1;
        }
        cmds
    }
}

} // verus!
