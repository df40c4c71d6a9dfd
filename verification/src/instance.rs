//! Procedural generation of the per-instance transform grid.
//!
//! At startup the renderer lays `count` instances per axis on a cubic grid:
//! the position of grid coordinate `(i, j, k)` is `spacing` times the
//! coordinate, less a fixed displacement, per axis.  An instance exactly at
//! the origin keeps the identity rotation — its position cannot be
//! normalized into an axis — and every other instance is rotated by one
//! fixed angle around its own position vector.  The grid's parameters are
//! explicit configuration; positions are exact integers in world units, and
//! the baked matrix form of each transform is computed where the instance
//! buffer is uploaded.

use vstd::prelude::*;

verus! {

/// Bound on instances per axis.
pub const MAX_GRID_COUNT: u32 = 1024;

/// Bound on the magnitude of the grid spacing.
pub const MAX_GRID_SPACING: i64 = 0x10_0000;

/// Bound on the magnitude of each displacement component.
pub const MAX_GRID_DISPLACEMENT: i64 = 0x100_0000_0000;

/// The grid's explicit configuration.
#[derive(Clone, Copy, Debug)]
pub struct GridConfig {
    /// Instances per axis; the grid holds this many cubed.
    pub count: u32,
    /// World units between neighbouring grid coordinates.
    pub spacing: i64,
    /// Subtracted from each position, per axis, to centre the grid.
    pub displacement: [i64; 3],
    /// The fixed rotation angle, in degrees, of every off-origin instance.
    pub angle_deg: u32,
}

impl GridConfig {
    /// The parameter bounds under which every position fits its word.
    pub open spec fn wf(self) -> bool {
        &&& self.count <= MAX_GRID_COUNT
        &&& -MAX_GRID_SPACING <= self.spacing <= MAX_GRID_SPACING
        &&& forall|a: int|
            0 <= a < 3 ==> -MAX_GRID_DISPLACEMENT <= #[trigger] self.displacement@[a]
                <= MAX_GRID_DISPLACEMENT
    }
}

/// The canonical grid the scene is built with.
pub fn default_grid() -> (cfg: GridConfig)
    ensures
        cfg.count == 10,
        cfg.spacing == 25,
        cfg.displacement@ == seq![125i64, 125i64, 125i64],
        cfg.angle_deg == 45,
        cfg.wf(),
{
    let cfg = GridConfig { count: 10, spacing: 25, displacement: [125, 125, 125], angle_deg: 45 };
    proof {
        assert(cfg.displacement@ =~= seq![125i64, 125i64, 125i64]);
    }
    cfg
}

/// A rotation, as the instance buffer's baking step consumes it.
#[derive(Clone, Copy, Debug)]
pub enum Rotation {
    /// No rotation; used exactly for a position at the origin, whose
    /// vector cannot be normalized.
    Identity,
    /// The fixed angle around the (yet unnormalized) axis.
    AxisAngle { axis: [i64; 3], angle_deg: u32 },
}

/// One generated instance: a position in exact world units and its
/// rotation.  Instances are pure values, never mutated after generation.
#[derive(Clone, Copy, Debug)]
pub struct Instance {
    pub position: [i64; 3],
    pub rotation: Rotation,
}

/// The position of grid coordinate `i` along an axis with displacement `d`.
pub open spec fn axis_position(spacing: i64, d: i64, i: int) -> int {
    spacing * i - d
}

/// Where grid coordinate `(i, j, k)` sits in the generated list.
pub open spec fn flat_index(count: int, i: int, j: int, k: int) -> int {
    (i * count + j) * count + k
}

/// What the instance generated for grid coordinate `(i, j, k)` must be:
/// the closed-form position, and the identity rotation exactly when that
/// position is the origin, else the fixed angle around the position.
pub open spec fn is_grid_instance(cfg: GridConfig, i: int, j: int, k: int, inst: Instance) -> bool {
    let px = axis_position(cfg.spacing, cfg.displacement@[0], i);
    let py = axis_position(cfg.spacing, cfg.displacement@[1], j);
    let pz = axis_position(cfg.spacing, cfg.displacement@[2], k);
    &&& inst.position@[0] == px
    &&& inst.position@[1] == py
    &&& inst.position@[2] == pz
    &&& if px == 0 && py == 0 && pz == 0 {
        inst.rotation == Rotation::Identity
    } else {
        inst.rotation == (Rotation::AxisAngle { axis: inst.position, angle_deg: cfg.angle_deg })
    }
}

/// The generated grid: every instance, in flat row-major coordinate order.
pub struct InstanceState {
    pub instances: Vec<Instance>,
}

/// The instance buffer stream: one baked transform per instance, 100
/// bytes — a 4×4 model matrix in shader locations 5–8 and a 3×3 normal
/// matrix in locations 9–11, advancing per instance.
pub fn instance_raw_desc() -> (d: crate::pipeline::VertexLayoutDesc)
    ensures
        d.array_stride == 100,
        d.step_mode == crate::pipeline::VertexStepMode::Instance,
        d.attributes@ == instance_raw_attributes(),
{
    let mut attributes: Vec<crate::pipeline::VertexAttribute> = Vec::new();
    attributes.push(attr(0, 5, crate::pipeline::VertexFormat::Float32x4));
    attributes.push(attr(16, 6, crate::pipeline::VertexFormat::Float32x4));
    attributes.push(attr(32, 7, crate::pipeline::VertexFormat::Float32x4));
    attributes.push(attr(48, 8, crate::pipeline::VertexFormat::Float32x4));
    attributes.push(attr(64, 9, crate::pipeline::VertexFormat::Float32x3));
    attributes.push(attr(76, 10, crate::pipeline::VertexFormat::Float32x3));
    attributes.push(attr(88, 11, crate::pipeline::VertexFormat::Float32x3));
    proof {
        assert(attributes@ =~= instance_raw_attributes());
    }
    crate::pipeline::VertexLayoutDesc {
        array_stride: 100,
        step_mode: crate::pipeline::VertexStepMode::Instance,
        attributes,
    }
}

/// The attributes of the instance stream: the model matrix's four columns,
/// then the normal matrix's three.
pub open spec fn instance_raw_attributes() -> Seq<crate::pipeline::VertexAttribute> {
    seq![
        spec_attr(0, 5, crate::pipeline::VertexFormat::Float32x4),
        spec_attr(16, 6, crate::pipeline::VertexFormat::Float32x4),
        spec_attr(32, 7, crate::pipeline::VertexFormat::Float32x4),
        spec_attr(48, 8, crate::pipeline::VertexFormat::Float32x4),
        spec_attr(64, 9, crate::pipeline::VertexFormat::Float32x3),
        spec_attr(76, 10, crate::pipeline::VertexFormat::Float32x3),
        spec_attr(88, 11, crate::pipeline::VertexFormat::Float32x3),
    ]
}

/// One attribute record.
pub open spec fn spec_attr(offset: u64, shader_location: u32, format:
    crate::pipeline::VertexFormat) -> crate::pipeline::VertexAttribute {
    crate::pipeline::VertexAttribute { offset, shader_location, format }
}

/// One attribute record.
fn attr(offset: u64, shader_location: u32, format: crate::pipeline::VertexFormat) -> (a:
    crate::pipeline::VertexAttribute)
    ensures
        a == spec_attr(offset, shader_location, format),
{
    crate::pipeline::VertexAttribute { offset, shader_location, format }
}

/// A flat index grows strictly with its lexicographically ordered grid
/// coordinate.
proof fn lemma_flat_index_lt(count: int, i: int, j: int, k: int, x: int, y: int, z: int)
    by (nonlinear_arith)
    requires
        0 <= i < count,
        0 <= j < count,
        0 <= k < count,
        0 <= x < count,
        0 <= y < count,
        0 <= z <= count,
        i < x || (i == x && j < y) || (i == x && j == y && k < z),
    ensures
        (i * count + j) * count + k < (x * count + y) * count + z,
{
}

/// The position along one axis, computed within bounds.
fn axis_position_exec(spacing: i64, d: i64, i: u32) -> (p: i64)
    requires
        -MAX_GRID_SPACING <= spacing <= MAX_GRID_SPACING,
        -MAX_GRID_DISPLACEMENT <= d <= MAX_GRID_DISPLACEMENT,
        i <= MAX_GRID_COUNT,
    ensures
        p == axis_position(spacing, d, i as int),
{
    proof {
        assert(-0x4_0000_0000 <= spacing * (i as int) <= 0x4_0000_0000) by (nonlinear_arith)
            requires
                -MAX_GRID_SPACING <= spacing <= MAX_GRID_SPACING,
                0 <= i <= MAX_GRID_COUNT,
        ;
    }
    spacing * (i as i64) - d
}

impl InstanceState {
    /// Generates the full grid for `cfg`: exactly `count` cubed instances,
    /// the instance of coordinate `(i, j, k)` at flat index
    /// `(i · count + j) · count + k`, each matching the closed form.
    pub fn new(cfg: &GridConfig) -> (s: InstanceState)
        requires
            cfg.wf(),
        ensures
            s.instances@.len() == (cfg.count as int) * (cfg.count as int) * (cfg.count as int),
            forall|i: int, j: int, k: int|
                0 <= i < cfg.count && 0 <= j < cfg.count && 0 <= k < cfg.count
                    ==> #[trigger] is_grid_instance(
                    *cfg,
                    i,
                    j,
                    k,
                    s.instances@[flat_index(cfg.count as int, i, j, k)],
                ),
    {
        let n = cfg.count;
        let ghost ni: int = n as int;
        let mut instances: Vec<Instance> = Vec::new();
        let mut x: u32 = 0;
        while x < n
            invariant
                cfg.wf(),
                n == cfg.count,
                ni == n as int,
                x <= n,
                instances@.len() == flat_index(ni, x as int, 0, 0),
                forall|i: int, j: int, k: int|
                    0 <= i < x && 0 <= j < n && 0 <= k < n ==> #[trigger] is_grid_instance(
                        *cfg,
                        i,
                        j,
                        k,
                        instances@[flat_index(ni, i, j, k)],
                    ),
            decreases n - x,
        {
            let mut y: u32 = 0;
            while y < n
                invariant
                    cfg.wf(),
                    n == cfg.count,
                    ni == n as int,
                    x < n,
                    y <= n,
                    instances@.len() == flat_index(ni, x as int, y as int, 0),
                    forall|i: int, j: int, k: int|
                        (0 <= i < x && 0 <= j < n && 0 <= k < n) || (i == x && 0 <= j < y && 0 <= k
                            < n) ==> #[trigger] is_grid_instance(
                            *cfg,
                            i,
                            j,
                            k,
                            instances@[flat_index(ni, i, j, k)],
                        ),
                decreases n - y,
            {
                let mut z: u32 = 0;
                while z < n
                    invariant
                        cfg.wf(),
                        n == cfg.count,
                        ni == n as int,
                        x < n,
                        y < n,
                        z <= n,
                        instances@.len() == flat_index(ni, x as int, y as int, z as int),
                        forall|i: int, j: int, k: int|
                            (0 <= i < x && 0 <= j < n && 0 <= k < n) || (i == x && 0 <= j < y && 0
                                <= k < n) || (i == x && j == y && 0 <= k < z)
                                ==> #[trigger] is_grid_instance(
                                *cfg,
                                i,
                                j,
                                k,
                                instances@[flat_index(ni, i, j, k)],
                            ),
                    decreases n - z,
                {
                    let px = axis_position_exec(cfg.spacing, cfg.displacement[0], x);
                    let py = axis_position_exec(cfg.spacing, cfg.displacement[1], y);
                    let pz = axis_position_exec(cfg.spacing, cfg.displacement[2], z);
                    let position: [i64; 3] = [px, py, pz];
                    let rotation = if px == 0 && py == 0 && pz == 0 {
                        Rotation::Identity
                    } else {
                        Rotation::AxisAngle { axis: position, angle_deg: cfg.angle_deg }
                    };
                    let inst = Instance { position, rotation };
                    proof {
                        assert(is_grid_instance(*cfg, x as int, y as int, z as int, inst));
                    }
                    let ghost old_seq = instances@;
                    instances.push(inst);
                    proof {
                        assert forall|i: int, j: int, k: int|
                            (0 <= i < x && 0 <= j < n && 0 <= k < n) || (i == x && 0 <= j < y && 0
                                <= k < n) || (i == x && j == y && 0 <= k < z + 1)
                                implies #[trigger] is_grid_instance(
                                *cfg,
                                i,
                                j,
                                k,
                                instances@[flat_index(ni, i, j, k)],
                            ) by {
                            if i == x && j == y && k == z {
                                assert(instances@[flat_index(ni, i, j, k)] == inst);
                            } else {
                                lemma_flat_index_lt(ni, i, j, k, x as int, y as int, z as int);
                                assert(flat_index(ni, i, j, k) < old_seq.len());
                                assert(instances@[flat_index(ni, i, j, k)] == old_seq[flat_index(
                                    ni,
                                    i,
                                    j,
                                    k,
                                )]);
                            }
                        }
                    }
                    z = z + 1;
                    proof {
                        assert(instances@.len() == flat_index(ni, x as int, y as int, z as int));
                    }
                }
                y = y + 1;
                proof {
                    assert((x as int * ni + (y as int - 1)) * ni + ni == (x as int * ni
                        + y as int) * ni + 0) by (nonlinear_arith);
                    assert(instances@.len() == flat_index(ni, x as int, y as int, 0));
                }
            }
            x = x + 1;
            proof {
                assert(((x as int - 1) * ni + ni) * ni + 0 == (x as int * ni + 0) * ni + 0)
                    by (nonlinear_arith);
                assert(instances@.len() == flat_index(ni, x as int, 0, 0));
            }
        }
        proof {
            assert((ni * ni + 0) * ni + 0 == ni * ni * ni) by (nonlinear_arith);
            assert(instances@.len() == ni * ni * ni);
        }
        InstanceState { instances }
    }
}

} // verus!
