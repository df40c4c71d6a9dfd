//! Bind-group layouts and resource groups.
//!
//! A layout declares the shape of one binding slot set: which binding index
//! holds which kind of resource.  A resource group is only well formed when
//! it supplies exactly the binding set its layout declares, in the same
//! order; the constructor checks that and refuses anything else, so a group
//! value is proof of its own shape.

use vstd::prelude::*;

verus! {

/// The resource kinds a binding slot can hold.
#[derive(Clone, Copy, PartialEq, Eq, Structural, Debug)]
pub enum BindingKind {
    SampledTexture,
    Sampler,
    Uniform,
}

/// The fixed set of layout shapes the renderer declares.
#[derive(Clone, Copy, PartialEq, Eq, Structural, Debug)]
pub enum LayoutKind {
    /// Diffuse texture and its sampler.
    TextureMaterial,
    /// The camera's view-projection uniform.
    Camera,
    /// The light uniform.
    Light,
    /// The per-object transform uniform.
    Transform,
}

/// The binding set a layout of kind `k` declares, by binding index.
pub open spec fn layout_shape(k: LayoutKind) -> Seq<BindingKind> {
    match k {
        LayoutKind::TextureMaterial => seq![BindingKind::SampledTexture, BindingKind::Sampler],
        LayoutKind::Camera => seq![BindingKind::Uniform],
        LayoutKind::Light => seq![BindingKind::Uniform],
        LayoutKind::Transform => seq![BindingKind::Uniform],
    }
}

/// One declared binding slot: its index and the resource kind it takes.
#[derive(Clone, Copy, PartialEq, Eq, Structural, Debug)]
pub struct BindingEntry {
    pub binding: u32,
    pub kind: BindingKind,
}

/// An immutable description of one binding-slot shape, created once and
/// shared by every pipeline and resource group that matches it.
pub struct BindGroupLayout {
    pub kind: LayoutKind,
    pub entries: Vec<BindingEntry>,
}

impl BindGroupLayout {
    /// The entries list the declared shape in order, with consecutive
    /// binding indices from zero.
    pub open spec fn wf(self) -> bool {
        &&& self.entries@.len() == layout_shape(self.kind).len()
        &&& forall|i: int|
            0 <= i < self.entries@.len() ==> #[trigger] self.entries@[i] == (BindingEntry {
                binding: i as u32,
                kind: layout_shape(self.kind)[i],
            })
    }

    /// Declares the layout of kind `k`.
    pub fn new(k: LayoutKind) -> (l: BindGroupLayout)
        ensures
            l.kind == k,
            l.wf(),
    {
        let mut entries: Vec<BindingEntry> = Vec::new();
        match k {
            LayoutKind::TextureMaterial => {
                entries.push(BindingEntry { binding: 0, kind: BindingKind::SampledTexture });
                entries.push(BindingEntry { binding: 1, kind: BindingKind::Sampler });
            },
            LayoutKind::Camera => {
                entries.push(BindingEntry { binding: 0, kind: BindingKind::Uniform });
            },
            LayoutKind::Light => {
                entries.push(BindingEntry { binding: 0, kind: BindingKind::Uniform });
            },
            LayoutKind::Transform => {
                entries.push(BindingEntry { binding: 0, kind: BindingKind::Uniform });
            },
        }
        BindGroupLayout { kind: k, entries }
    }
}

/// The registry of the four layout shapes, built once at startup.
pub struct BindGroupLayouts {
    pub texture: BindGroupLayout,
    pub camera: BindGroupLayout,
    pub light: BindGroupLayout,
    pub uniform: BindGroupLayout,
}

impl BindGroupLayouts {
    /// Every layout in the registry is well formed and of its slot's kind.
    pub open spec fn wf(self) -> bool {
        &&& self.texture.kind == LayoutKind::TextureMaterial && self.texture.wf()
        &&& self.camera.kind == LayoutKind::Camera && self.camera.wf()
        &&& self.light.kind == LayoutKind::Light && self.light.wf()
        &&& self.uniform.kind == LayoutKind::Transform && self.uniform.wf()
    }

    /// Declares all four layouts.
    pub fn new() -> (r: BindGroupLayouts)
        ensures
            r.wf(),
    {
        BindGroupLayouts {
            texture: BindGroupLayout::new(LayoutKind::TextureMaterial),
            camera: BindGroupLayout::new(LayoutKind::Camera),
            light: BindGroupLayout::new(LayoutKind::Light),
            uniform: BindGroupLayout::new(LayoutKind::Transform),
        }
    }
}

/// A resource group bound to a layout.  Its `layout` field records which
/// shape the group satisfies; construction only succeeds when the supplied
/// resources match that shape exactly, in order.
#[derive(Clone, Copy, PartialEq, Eq, Structural, Debug)]
pub struct BindGroup {
    pub layout: LayoutKind,
}

/// The error of binding a resource set to a layout whose shape it does not
/// match: a programming invariant violation, reported before anything is
/// bound.
#[derive(Clone, Copy, PartialEq, Eq, Structural, Debug)]
pub struct LayoutMismatch {
    /// The first binding index at which the supplied set and the declared
    /// shape disagree, or the common length if one is a prefix of the other.
    pub binding: u32,
}

impl BindGroup {
    /// Binds `resources` to `layout`.  Succeeds exactly when the resources
    /// are the declared binding set, in the declared order.
    pub fn new(layout: &BindGroupLayout, resources: &Vec<BindingKind>) -> (r: Result<
        BindGroup,
        LayoutMismatch,
    >)
        requires
            layout.wf(),
        ensures
            r is Ok <==> resources@ == layout_shape(layout.kind),
            r matches Ok(g) ==> g.layout == layout.kind,
    {
        let n = layout.entries.len();
        if resources.len() != n {
            proof {
                assert(resources@.len() != layout_shape(layout.kind).len());
            }
            return Err(LayoutMismatch { binding: if resources.len() < n {
                resources.len() as u32
            } else {
                n as u32
            } });
        }
        let mut i: usize = 0;
        while i < n
            invariant
                i <= n,
                n == layout.entries@.len(),
                resources@.len() == n,
                layout.wf(),
                forall|j: int| 0 <= j < i ==> resources@[j] == layout_shape(layout.kind)[j],
            decreases n - i,
        {
            if !matches_kind(resources[i], layout.entries[i].kind) {
                proof {
                    assert(resources@[i as int] != layout_shape(layout.kind)[i as int]);
                }
                return Err(LayoutMismatch { binding: i as u32 });
            }
            i = i + 1;
        }
        proof {
            assert(resources@ =~= layout_shape(layout.kind));
        }
        Ok(BindGroup { layout: layout.kind })
    }
}

/// Binds one uniform buffer to a uniform-shaped layout; the shape matches
/// by construction, so this cannot fail.
pub fn bind_uniform_group(layout: &BindGroupLayout) -> (g: BindGroup)
    requires
        layout.wf(),
        layout.kind != LayoutKind::TextureMaterial,
    ensures
        g.layout == layout.kind,
{
    let mut resources: Vec<BindingKind> = Vec::new();
    resources.push(BindingKind::Uniform);
    proof {
        assert(resources@ =~= layout_shape(layout.kind));
    }
    match BindGroup::new(layout, &resources) {
        Ok(g) => g,
        Err(_) => {
            proof {
                assert(false);
            }
            BindGroup { layout: layout.kind }
        },
    }
}

/// Binds a sampled texture and its sampler to the material layout; the
/// shape matches by construction, so this cannot fail.
pub fn bind_texture_group(layout: &BindGroupLayout) -> (g: BindGroup)
    requires
        layout.wf(),
        layout.kind == LayoutKind::TextureMaterial,
    ensures
        g.layout == layout.kind,
{
    let mut resources: Vec<BindingKind> = Vec::new();
    resources.push(BindingKind::SampledTexture);
    resources.push(BindingKind::Sampler);
    proof {
        assert(resources@ =~= layout_shape(layout.kind));
    }
    match BindGroup::new(layout, &resources) {
        Ok(g) => g,
        Err(_) => {
            proof {
                assert(false);
            }
            BindGroup { layout: layout.kind }
        },
    }
}

/// Equality of two binding kinds.
fn matches_kind(a: BindingKind, b: BindingKind) -> (r: bool)
    ensures
        r == (a == b),
{
    match (a, b) {
        (BindingKind::SampledTexture, BindingKind::SampledTexture) => true,
        (BindingKind::Sampler, BindingKind::Sampler) => true,
        (BindingKind::Uniform, BindingKind::Uniform) => true,
        _ => false,
    }
}

} // verus!
