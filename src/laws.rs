use vstd::prelude::*;

use crate::commands::{
    apply_write, apply_writes, draw_program_ok, splice, write_fits, DrawCommand, GroupState, Write,
    QUAD_VERTICES,
};
use crate::records::{GPUCamera, GPUSprite};
use crate::sprite::{
    added, camera_set, camera_set_all, camera_writes, refresh_in_bounds, refresh_write, RenderView,
};

verus! {

/// A newly registered group reads back exactly the sprites it was given, in
/// order, and every group registered before it is left as it was.
pub proof fn law_added_group_reads_back(
    v: RenderView,
    sprites: Seq<GPUSprite>,
    camera: GPUCamera,
)
    ensures
        added(v, sprites, camera).groups.len() == v.groups.len() + 1,
        added(v, sprites, camera).groups[v.groups.len() as int].sprites == sprites,
        added(v, sprites, camera).groups[v.groups.len() as int].camera == camera,
        forall|i: int|
            0 <= i < v.groups.len() ==> #[trigger] added(v, sprites, camera).groups[i]
                == v.groups[i],
{
}

/// Once the uploads queued by registering a group are applied to freshly
/// allocated buffers of the right size, the GPU copy of the group equals the
/// sprites and camera it was registered with; no other group's buffers change.
pub proof fn law_added_group_uploads_mirror(
    v: RenderView,
    sprites: Seq<GPUSprite>,
    camera: GPUCamera,
    mem: Seq<GroupState>,
)
    requires
        v.groups.len() < mem.len(),
        mem[v.groups.len() as int].sprites.len() == sprites.len(),
    ensures
        ({
            let after = added(v, sprites, camera);
            let ws = after.uploads.subrange(v.uploads.len() as int, after.uploads.len() as int);
            let h = v.groups.len() as int;
            &&& apply_writes(mem, ws)[h] == after.groups[h]
            &&& forall|i: int|
                0 <= i < mem.len() && i != h ==> #[trigger] apply_writes(mem, ws)[i] == mem[i]
            &&& apply_writes(mem, ws).len() == mem.len()
        }),
{
    let after = added(v, sprites, camera);
    let h = v.groups.len() as int;
    let ws = after.uploads.subrange(v.uploads.len() as int, after.uploads.len() as int);
    let w0 = Write::Sprites { group: h, first: 0, data: sprites };
    let w1 = Write::Camera { group: h, camera };
    assert(ws =~= seq![w0, w1]);
    assert(ws.drop_last() =~= seq![w0]);
    assert(ws.drop_last().drop_last() =~= Seq::<Write>::empty());
    let m1 = apply_write(mem, w0);
    assert(write_fits(mem, w0));
    assert(splice(mem[h].sprites, 0, sprites) =~= sprites);
    assert(apply_writes(mem, ws.drop_last().drop_last()) == mem);
    assert(ws.drop_last().last() == w0);
    assert(apply_writes(mem, ws.drop_last()) == m1);
    assert(write_fits(m1, w1));
}

/// Refreshing a range of a group's sprites, once the upload is applied,
/// makes the GPU copy of every sprite in the range equal to its current CPU
/// value, and leaves every other sprite, the camera and every other group as
/// they were last synchronised.
pub proof fn law_refresh_isolation(
    v: RenderView,
    mem: Seq<GroupState>,
    which: int,
    start: int,
    end: int,
)
    requires
        refresh_in_bounds(v, which, start, end),
        which < mem.len(),
        mem[which].sprites.len() == v.groups[which].sprites.len(),
    ensures
        ({
            let after = apply_write(mem, refresh_write(v, which, start, end));
            &&& after.len() == mem.len()
            &&& after[which].sprites.len() == mem[which].sprites.len()
            &&& forall|i: int|
                start <= i < end ==> #[trigger] after[which].sprites[i]
                    == v.groups[which].sprites[i]
            &&& forall|i: int|
                0 <= i < mem[which].sprites.len() && !(start <= i < end)
                    ==> #[trigger] after[which].sprites[i] == mem[which].sprites[i]
            &&& after[which].camera == mem[which].camera
            &&& forall|g: int| 0 <= g < mem.len() && g != which ==> #[trigger] after[g] == mem[g]
        }),
{
    assert(write_fits(mem, refresh_write(v, which, start, end)));
}

/// Setting the camera of the first `k` groups one handle at a time, in
/// registry order.
pub open spec fn camera_set_each(v: RenderView, camera: GPUCamera, k: nat) -> RenderView
    decreases k,
{
    if k == 0 {
        v
    } else {
        camera_set(camera_set_each(v, camera, (k - 1) as nat), k - 1, camera)
    }
}

proof fn lemma_camera_set_each(v: RenderView, camera: GPUCamera, k: nat)
    requires
        k <= v.groups.len(),
    ensures
        camera_set_each(v, camera, k).groups.len() == v.groups.len(),
        forall|i: int|
            0 <= i < v.groups.len() ==> #[trigger] camera_set_each(v, camera, k).groups[i] == (
            if i < k {
                GroupState { camera, ..v.groups[i] }
            } else {
                v.groups[i]
            }),
        camera_set_each(v, camera, k).uploads == v.uploads + camera_writes(k as int, camera),
    decreases k,
{
    if k > 0 {
        lemma_camera_set_each(v, camera, (k - 1) as nat);
        assert(camera_writes(k as int, camera) =~= camera_writes(k - 1, camera).push(
            Write::Camera { group: k - 1, camera },
        ));
        assert(camera_set_each(v, camera, k).uploads =~= v.uploads + camera_writes(
            k as int,
            camera,
        ));
    }
}

/// Setting one camera on all groups is the same as setting it on each
/// handle in turn, in registry order.
pub proof fn law_camera_set_all_is_each(v: RenderView, camera: GPUCamera)
    ensures
        camera_set_all(v, camera) == camera_set_each(v, camera, v.groups.len()),
{
    lemma_camera_set_each(v, camera, v.groups.len());
    assert(camera_set_all(v, camera).groups =~= camera_set_each(
        v,
        camera,
        v.groups.len(),
    ).groups);
}

/// The buffers `mem` with the camera of every group below `k` replaced.
pub open spec fn with_cameras(mem: Seq<GroupState>, k: int, camera: GPUCamera) -> Seq<GroupState> {
    Seq::new(
        mem.len(),
        |i: int|
            if i < k {
                GroupState { camera, ..mem[i] }
            } else {
                mem[i]
            },
    )
}

proof fn lemma_apply_camera_writes(mem: Seq<GroupState>, k: nat, camera: GPUCamera)
    ensures
        apply_writes(mem, camera_writes(k as int, camera)) == with_cameras(mem, k as int, camera),
    decreases k,
{
    if k == 0 {
        assert(with_cameras(mem, 0, camera) =~= mem);
    } else {
        let ws = camera_writes(k as int, camera);
        assert(ws.drop_last() =~= camera_writes(k - 1, camera));
        lemma_apply_camera_writes(mem, (k - 1) as nat, camera);
        assert(apply_writes(mem, ws) =~= with_cameras(mem, k as int, camera));
    }
}

/// Applying the camera writes of `set_camera_all` twice leaves the GPU
/// cameras as applying them once does; so does setting the CPU cameras twice.
pub proof fn law_camera_set_all_idempotent(v: RenderView, mem: Seq<GroupState>, camera: GPUCamera)
    ensures
        camera_set_all(camera_set_all(v, camera), camera).groups == camera_set_all(v, camera).groups,
        ({
            let ws = camera_writes(v.groups.len() as int, camera);
            apply_writes(apply_writes(mem, ws), ws) == apply_writes(mem, ws)
        }),
{
    let n = v.groups.len();
    let ws = camera_writes(n as int, camera);
    assert(camera_set_all(camera_set_all(v, camera), camera).groups =~= camera_set_all(
        v,
        camera,
    ).groups);
    lemma_apply_camera_writes(mem, n, camera);
    lemma_apply_camera_writes(apply_writes(mem, ws), n, camera);
    assert(with_cameras(with_cameras(mem, n as int, camera), n as int, camera) =~= with_cameras(
        mem,
        n as int,
        camera,
    ));
}


/// Groups registered one after another on an empty renderer are drawn in the
/// order they were registered: the pipeline is bound once, then each group
/// binds its own two bind groups and draws one instance per sprite it holds.
pub proof fn law_draw_order_is_registry_order(
    v: RenderView,
    a: Seq<GPUSprite>,
    camera_a: GPUCamera,
    b: Seq<GPUSprite>,
    camera_b: GPUCamera,
    c: Seq<GPUSprite>,
    camera_c: GPUCamera,
    cmds: Seq<DrawCommand>,
)
    requires
        v.groups.len() == 0,
        draw_program_ok(
            added(added(added(v, a, camera_a), b, camera_b), c, camera_c).groups,
            cmds,
        ),
    ensures
        cmds == seq![
            DrawCommand::SetPipeline,
            DrawCommand::SetSpriteBindGroup { group: 0 },
            DrawCommand::SetTextureBindGroup { group: 0 },
            DrawCommand::Draw { vertex_count: QUAD_VERTICES, instance_count: a.len() as u32 },
            DrawCommand::SetSpriteBindGroup { group: 1 },
            DrawCommand::SetTextureBindGroup { group: 1 },
            DrawCommand::Draw { vertex_count: QUAD_VERTICES, instance_count: b.len() as u32 },
            DrawCommand::SetSpriteBindGroup { group: 2 },
            DrawCommand::SetTextureBindGroup { group: 2 },
            DrawCommand::Draw { vertex_count: QUAD_VERTICES, instance_count: c.len() as u32 },
        ],
{
    let groups = added(added(added(v, a, camera_a), b, camera_b), c, camera_c).groups;
    assert(groups[0].sprites == a);
    assert(groups[1].sprites == b);
    assert(groups[2].sprites == c);
    assert(cmds[1 + 3 * 0int] == DrawCommand::SetSpriteBindGroup { group: 0 });
    assert(cmds[1 + 3 * 1int] == DrawCommand::SetSpriteBindGroup { group: 1 });
    assert(cmds[1 + 3 * 2int] == DrawCommand::SetSpriteBindGroup { group: 2 });
    assert(cmds =~= seq![
        DrawCommand::SetPipeline,
        DrawCommand::SetSpriteBindGroup { group: 0 },
        DrawCommand::SetTextureBindGroup { group: 0 },
        DrawCommand::Draw { vertex_count: QUAD_VERTICES, instance_count: a.len() as u32 },
        DrawCommand::SetSpriteBindGroup { group: 1 },
        DrawCommand::SetTextureBindGroup { group: 1 },
        DrawCommand::Draw { vertex_count: QUAD_VERTICES, instance_count: b.len() as u32 },
        DrawCommand::SetSpriteBindGroup { group: 2 },
        DrawCommand::SetTextureBindGroup { group: 2 },
        DrawCommand::Draw { vertex_count: QUAD_VERTICES, instance_count: c.len() as u32 },
    ]);
}

} // verus!
