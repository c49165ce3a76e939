//! A retained-mode 2D sprite batching layer.
//!
//! Sprites are kept in groups; each group has one texture, one camera and one
//! array of sprite records. The renderer keeps the CPU copies of every group,
//! queues the buffer writes that bring the GPU copies up to date, and lists the
//! commands that draw all groups, one instanced draw per group.
//!
//! The GPU itself is driven through the command values this crate produces:
//! uploads ([`Upload`]) and draw commands ([`DrawCommand`]). [`GpuMemory`]
//! is a model of the device memory those uploads act on.
mod binding;
mod commands;
mod laws;
mod memory;
mod records;
mod sprite;

pub use binding::{
    layout_entries, pipeline_layouts, BindingKind, Layout, LayoutEntry, ShaderStage, FRAGMENT_ENTRY,
    SPRITE_BIND_SLOT, TEXTURE_BIND_SLOT, VERTEX_ENTRY,
};
pub use commands::{
    apply_write, apply_writes, draw_program_ok, splice, write_fits, writes_of, DrawCommand,
    GroupState, Upload, Write, QUAD_VERTICES,
};
pub use laws::{
    camera_set_each, law_added_group_reads_back, law_added_group_uploads_mirror,
    law_camera_set_all_idempotent, law_camera_set_all_is_each, law_draw_order_is_registry_order,
    law_refresh_isolation, with_cameras,
};
pub use memory::{zero_camera, zero_sprite, GpuMemory};
pub use records::{GPUCamera, GPUSprite, CAMERA_BYTES, SPRITE_BYTES};
pub use sprite::{
    added, camera_set, camera_set_all, camera_writes, groups_fit, refresh_in_bounds, refresh_write,
    RenderError, RenderView, SpriteGroup, SpriteRender, MAX_GROUP_SPRITES,
};
