use render_core::instance::{default_grid, GridConfig, InstanceState, Rotation};

fn flat(count: usize, i: usize, j: usize, k: usize) -> usize {
    (i * count + j) * count + k
}

#[test]
fn default_grid_has_cubed_count() {
    let cfg = default_grid();
    let state = InstanceState::new(&cfg);
    assert_eq!(state.instances.len(), 1000);
}

#[test]
fn default_grid_closed_form_positions() {
    let cfg = default_grid();
    let state = InstanceState::new(&cfg);
    // spacing 25, displacement 125 per axis: coordinate (i, j, k) sits at
    // 25 * c - 125 per axis.
    let inst = &state.instances[flat(10, 3, 0, 9)];
    assert_eq!(inst.position, [-50, -125, 100]);
}

#[test]
fn origin_instance_gets_identity_rotation() {
    // spacing 25, displacement 125: coordinate (5, 5, 5) resolves to the
    // exact origin, the one instance that must not be given an axis.
    let cfg = default_grid();
    let state = InstanceState::new(&cfg);
    let origin = &state.instances[flat(10, 5, 5, 5)];
    assert_eq!(origin.position, [0, 0, 0]);
    assert!(matches!(origin.rotation, Rotation::Identity));
    // A neighbour is off the origin and must carry the fixed-angle
    // rotation around its own position.
    let neighbour = &state.instances[flat(10, 5, 5, 6)];
    assert_eq!(neighbour.position, [0, 0, 25]);
    match neighbour.rotation {
        Rotation::AxisAngle { axis, angle_deg } => {
            assert_eq!(axis, [0, 0, 25]);
            assert_eq!(angle_deg, 45);
        }
        Rotation::Identity => panic!("off-origin instance got the identity rotation"),
    }
}

#[test]
fn two_cubed_grid_end_to_end() {
    // A 2x2x2 grid with spacing 1 and displacement (1, 1, 1): the
    // instance at coordinate (0, 0, 0) sits at (-1, -1, -1), which is not
    // the origin, so it rotates by the fixed angle around its position;
    // the instance at (1, 1, 1) resolves to exactly (0, 0, 0) and keeps
    // the identity.
    let cfg = GridConfig { count: 2, spacing: 1, displacement: [1, 1, 1], angle_deg: 45 };
    let state = InstanceState::new(&cfg);
    assert_eq!(state.instances.len(), 8);

    let first = &state.instances[flat(2, 0, 0, 0)];
    assert_eq!(first.position, [-1, -1, -1]);
    match first.rotation {
        Rotation::AxisAngle { axis, angle_deg } => {
            assert_eq!(axis, [-1, -1, -1]);
            assert_eq!(angle_deg, 45);
        }
        Rotation::Identity => panic!("instance off the origin got the identity rotation"),
    }

    let last = &state.instances[flat(2, 1, 1, 1)];
    assert_eq!(last.position, [0, 0, 0]);
    assert!(matches!(last.rotation, Rotation::Identity));
}
