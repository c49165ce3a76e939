use vstd::prelude::*;

use crate::records::{GPUCamera, GPUSprite, SPRITE_BYTES};

verus! {

/// What a group's GPU buffers hold, or what its CPU copies hold: the sprite
/// array and the camera record.
pub struct GroupState {
    pub sprites: Seq<GPUSprite>,
    pub camera: GPUCamera,
}

/// The abstract content of an [`Upload`].
pub enum Write {
    Sprites { group: int, first: int, data: Seq<GPUSprite> },
    Camera { group: int, camera: GPUCamera },
}

/// A queued write into one group's GPU buffers.
///
/// `Sprites` writes `sprites` into the sprite array of `group`, starting at
/// sprite `first` (byte offset `first * SPRITE_BYTES`). `Camera` replaces the
/// camera record of `group`.
#[derive(Debug, PartialEq, Eq)]
pub enum Upload {
    Sprites { group: usize, first: usize, sprites: Vec<GPUSprite> },
    Camera { group: usize, camera: GPUCamera },
}

impl View for Upload {
    type V = Write;

    open spec fn view(&self) -> Write {
        match self {
            Upload::Sprites { group, first, sprites } => Write::Sprites {
                group: *group as int,
                first: *first as int,
                data: sprites@,
            },
            Upload::Camera { group, camera } => Write::Camera {
                group: *group as int,
                camera: *camera,
            },
        }
    }
}

/// The abstract contents of a sequence of uploads.
pub open spec fn writes_of(us: Seq<Upload>) -> Seq<Write> {
    us.map_values(|u: Upload| u@)
}

/// One command recorded into a render pass.
///
/// The sprite bind group (camera uniform and sprite storage array) goes to
/// `SPRITE_BIND_SLOT`, the texture bind group (texture and sampler) to
/// `TEXTURE_BIND_SLOT`.
#[derive(Clone, Copy, Debug, PartialEq, Eq)]
pub enum DrawCommand {
    SetPipeline,
    SetSpriteBindGroup { group: usize },
    SetTextureBindGroup { group: usize },
    Draw { vertex_count: u32, instance_count: u32 },
}

/// Number of vertices drawn per sprite: two triangles forming a quad.
pub const QUAD_VERTICES: u32 = 6;

/// `s` with `data` written over it from position `first` on.
pub open spec fn splice(s: Seq<GPUSprite>, first: int, data: Seq<GPUSprite>) -> Seq<GPUSprite> {
    Seq::new(
        s.len(),
        |i: int|
            if first <= i < first + data.len() {
                data[i - first]
            } else {
                s[i]
            },
    )
}

/// Whether write `w` lies within the buffers that `mem` holds.
pub open spec fn write_fits(mem: Seq<GroupState>, w: Write) -> bool {
    match w {
        Write::Sprites { group, first, data } => 0 <= group < mem.len() && 0 <= first && first
            + data.len() <= mem[group].sprites.len(),
        Write::Camera { group, camera } => 0 <= group < mem.len(),
    }
}

/// The buffers after write `w`; a write that does not fit changes nothing.
pub open spec fn apply_write(mem: Seq<GroupState>, w: Write) -> Seq<GroupState> {
    if !write_fits(mem, w) {
        mem
    } else {
        match w {
            Write::Sprites { group, first, data } => mem.update(
                group,
                GroupState { sprites: splice(mem[group].sprites, first, data), ..mem[group] },
            ),
            Write::Camera { group, camera } => mem.update(
                group,
                GroupState { camera, ..mem[group] },
            ),
        }
    }
}

/// The buffers after the writes `ws`, in order.
pub open spec fn apply_writes(mem: Seq<GroupState>, ws: Seq<Write>) -> Seq<GroupState>
    decreases ws.len(),
{
    if ws.len() == 0 {
        mem
    } else {
        apply_write(apply_writes(mem, ws.drop_last()), ws.last())
    }
}

/// The commands that draw `groups`: the pipeline once, then for each group in
/// order its two bind groups and one draw of a quad per sprite.
pub open spec fn draw_program_ok(groups: Seq<GroupState>, cmds: Seq<DrawCommand>) -> bool {
    &&& cmds.len() == 1 + 3 * groups.len()
    &&& cmds[0] == DrawCommand::SetPipeline
    &&& forall|i: int|
        0 <= i < groups.len() ==> {
            &&& #[trigger] cmds[1 + 3 * i] == DrawCommand::SetSpriteBindGroup { group: i as usize }
            &&& cmds[2 + 3 * i] == DrawCommand::SetTextureBindGroup { group: i as usize }
            &&& cmds[3 + 3 * i] == DrawCommand::Draw {
                vertex_count: QUAD_VERTICES,
                instance_count: groups[i].sprites.len() as u32,
            }
        }
}


impl Upload {
    /// Byte offset in the target buffer where the upload starts: sprite
    /// `first` of a sprite array, or the start of the camera record. `None`
    /// when the offset does not fit in a `u64`.
    pub fn byte_offset(&self) -> (r: Option<u64>)
        ensures
            match self {
                Upload::Sprites { first, .. } => if *first * SPRITE_BYTES <= u64::MAX {
                    r == Some((*first * SPRITE_BYTES) as u64)
                } else {
                    r == None::<u64>
                },
                Upload::Camera { .. } => r == Some(0u64),
            },
    {
        match self {
            Upload::Sprites { first, .. } => (*first as u64).checked_mul(SPRITE_BYTES),
            Upload::Camera { .. } => Some(0),
        }
    }
}

} // verus!
