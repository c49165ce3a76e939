use vstd::prelude::*;

verus! {

/// The shader stage that sees a binding.
#[derive(Clone, Copy, Debug, PartialEq, Eq)]
pub enum ShaderStage {
    Vertex,
    Fragment,
}

/// What a binding slot holds.
#[derive(Clone, Copy, Debug, PartialEq, Eq)]
pub enum BindingKind {
    /// A filterable float 2D texture, not multisampled.
    Texture2d,
    /// A filtering sampler.
    FilteringSampler,
    /// A uniform buffer.
    UniformBuffer,
    /// A storage buffer the shader only reads.
    ReadOnlyStorageBuffer,
}

/// One slot of a bind-group layout.
#[derive(Clone, Copy, Debug, PartialEq, Eq)]
pub struct LayoutEntry {
    pub binding: u32,
    pub stage: ShaderStage,
    pub kind: BindingKind,
}

/// The two bind-group layouts every group is bound through.
#[derive(Clone, Copy, Debug, PartialEq, Eq)]
pub enum Layout {
    /// Camera uniform and sprite storage array, seen by the vertex stage.
    Sprite,
    /// Texture and sampler, seen by the fragment stage.
    Texture,
}

/// Pipeline slot of the sprite bind group.
pub const SPRITE_BIND_SLOT: u32 = 0;

/// Pipeline slot of the texture bind group.
pub const TEXTURE_BIND_SLOT: u32 = 1;

/// Entry point of the vertex stage in the shader program.
pub const VERTEX_ENTRY: &'static str = "vs_main";

/// Entry point of the fragment stage in the shader program.
pub const FRAGMENT_ENTRY: &'static str = "fs_main";

/// The slots of `layout`, in binding order.
pub open spec fn layout_entries(layout: Layout) -> Seq<LayoutEntry> {
    match layout {
        Layout::Sprite => seq![
            LayoutEntry { binding: 0, stage: ShaderStage::Vertex, kind: BindingKind::UniformBuffer },
            LayoutEntry {
                binding: 1,
                stage: ShaderStage::Vertex,
                kind: BindingKind::ReadOnlyStorageBuffer,
            },
        ],
        Layout::Texture => seq![
            LayoutEntry { binding: 0, stage: ShaderStage::Fragment, kind: BindingKind::Texture2d },
            LayoutEntry {
                binding: 1,
                stage: ShaderStage::Fragment,
                kind: BindingKind::FilteringSampler,
            },
        ],
    }
}

impl Layout {
    /// The pipeline slot this layout is bound to.
    pub open spec fn slot_spec(&self) -> int {
        match *self {
            Layout::Sprite => SPRITE_BIND_SLOT as int,
            Layout::Texture => TEXTURE_BIND_SLOT as int,
        }
    }

    /// The slots of this layout, in binding order.
    pub fn entries(&self) -> (r: Vec<LayoutEntry>)
        ensures
            r@ == layout_entries(*self),
    {
        match self {
            Layout::Sprite => vec![
                LayoutEntry { binding: 0, stage: ShaderStage::Vertex, kind: BindingKind::UniformBuffer },
                LayoutEntry {
                    binding: 1,
                    stage: ShaderStage::Vertex,
                    kind: BindingKind::ReadOnlyStorageBuffer,
                },
            ],
            Layout::Texture => vec![
                LayoutEntry { binding: 0, stage: ShaderStage::Fragment, kind: BindingKind::Texture2d },
                LayoutEntry {
                    binding: 1,
                    stage: ShaderStage::Fragment,
                    kind: BindingKind::FilteringSampler,
                },
            ],
        }
    }

    /// The pipeline slot this layout is bound to.
    pub fn slot(&self) -> (r: u32)
        ensures
            r == self.slot_spec(),
    {
        match self {
            Layout::Sprite => SPRITE_BIND_SLOT,
            Layout::Texture => TEXTURE_BIND_SLOT,
        }
    }
}

/// The layouts of the shared pipeline, in slot order.
pub fn pipeline_layouts() -> (r: Vec<Layout>)
    ensures
        r@ == seq![Layout::Sprite, Layout::Texture],
        forall|i: int| 0 <= i < r@.len() ==> #[trigger] r@[i].slot_spec() == i,
{
    vec![Layout::Sprite, Layout::Texture]
}

} // verus!
