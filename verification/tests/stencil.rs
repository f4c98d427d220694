use mpm_chunks::stencil::{
    clamp_base_cell, stencil_target, wall_clamp, NBH_CENTER, NBH_FACE_NEG_X, NBH_FACE_NEG_Y,
    NBH_FACE_POS_Y,
};
use mpm_chunks::world::Coord;

const W: usize = 8;

#[test]
fn stencil_center_node_stays_inside() {
    // Window slot 13 is offset (0,0,0): the base cell itself.
    let t = stencil_target(W, Coord::new(4, 4, 4), 13);
    assert_eq!((t.rn_coord.x, t.rn_coord.y, t.rn_coord.z), (4, 4, 4));
    assert_eq!(t.c_index, NBH_CENTER);
    assert_eq!(t.n_index, 4 * 64 + 4 * 8 + 4);
}

#[test]
fn stencil_spills_to_low_corner() {
    // From base cell (0,0,0), slot 0 is offset (-1,-1,-1): the node sits at
    // the far corner of the low diagonal neighbor.
    let t = stencil_target(W, Coord::new(0, 0, 0), 0);
    assert_eq!((t.rn_coord.x, t.rn_coord.y, t.rn_coord.z), (-1, -1, -1));
    assert_eq!(t.c_index, 0);
    assert_eq!(t.n_index, 7 * 64 + 7 * 8 + 7);
}

#[test]
fn stencil_spills_to_high_corner() {
    // From base cell (7,7,7), slot 26 is offset (1,1,1): the node sits at
    // the origin corner of the high diagonal neighbor.
    let t = stencil_target(W, Coord::new(7, 7, 7), 26);
    assert_eq!((t.rn_coord.x, t.rn_coord.y, t.rn_coord.z), (8, 8, 8));
    assert_eq!(t.c_index, 26);
    assert_eq!(t.n_index, 0);
}

#[test]
fn stencil_mixed_spill() {
    // Offset (-1, 1, 0) is slot 0*9 + 2*3 + 1 = 7; from base (0, 7, 3) the
    // node crosses the low X face and the high Y face at once.
    let t = stencil_target(W, Coord::new(0, 7, 3), 7);
    assert_eq!((t.rn_coord.x, t.rn_coord.y, t.rn_coord.z), (-1, 8, 3));
    assert_eq!(t.c_index, 7);
    assert_eq!(t.n_index, 7 * 64 + 0 * 8 + 3);
}

#[test]
fn stencil_covers_every_slot_of_the_window() {
    // All 27 slots resolve to 27 distinct (chunk, node) pairs, and interior
    // nodes stay in the center chunk.
    let base = Coord::new(0, 4, 7);
    let mut seen = Vec::new();
    for j in 0..27 {
        let t = stencil_target(W, base, j);
        assert!(t.c_index < 27);
        assert!(t.n_index < W * W * W);
        let key = (t.c_index, t.n_index);
        assert!(!seen.contains(&key));
        seen.push(key);
        let inside = t.rn_coord.x >= 0
            && t.rn_coord.x < W as i32
            && t.rn_coord.y >= 0
            && t.rn_coord.y < W as i32
            && t.rn_coord.z >= 0
            && t.rn_coord.z < W as i32;
        assert_eq!(t.c_index == NBH_CENTER, inside);
    }
}

#[test]
fn wall_clamp_inactive_low_face() {
    let mut update_list = vec![true; 27];
    update_list[NBH_FACE_NEG_X] = false;
    // Nodes within two cells of the low X wall clamp their X component.
    assert!(wall_clamp(W, Coord::new(0, 4, 4), &update_list).x);
    assert!(wall_clamp(W, Coord::new(1, 4, 4), &update_list).x);
    assert!(!wall_clamp(W, Coord::new(2, 4, 4), &update_list).x);
    // Other components are untouched.
    let c = wall_clamp(W, Coord::new(1, 4, 4), &update_list);
    assert!(!c.y && !c.z);
}

#[test]
fn wall_clamp_inactive_high_face() {
    let mut update_list = vec![true; 27];
    update_list[NBH_FACE_POS_Y] = false;
    assert!(wall_clamp(W, Coord::new(4, 6, 4), &update_list).y);
    assert!(wall_clamp(W, Coord::new(4, 7, 4), &update_list).y);
    assert!(!wall_clamp(W, Coord::new(4, 5, 4), &update_list).y);
}

#[test]
fn wall_clamp_checks_both_faces_independently() {
    // With both face neighbors of one axis inactive — a one-chunk-thick
    // active slab — both two-cell bands clamp.
    let mut update_list = vec![true; 27];
    update_list[NBH_FACE_NEG_Y] = false;
    update_list[NBH_FACE_POS_Y] = false;
    assert!(wall_clamp(W, Coord::new(4, 0, 4), &update_list).y);
    assert!(wall_clamp(W, Coord::new(4, 1, 4), &update_list).y);
    assert!(!wall_clamp(W, Coord::new(4, 4, 4), &update_list).y);
    assert!(wall_clamp(W, Coord::new(4, 6, 4), &update_list).y);
    assert!(wall_clamp(W, Coord::new(4, 7, 4), &update_list).y);
}

#[test]
fn boundary_crossing_keeps_the_owning_chunk() {
    // A particle advected past its chunk is not reassigned: its base cell
    // is clamped back into the chunk, so its transfer window stays valid.
    let inside = clamp_base_cell(W, Coord::new(3, 0, 7));
    assert_eq!((inside.x, inside.y, inside.z), (3, 0, 7));
    let strayed = clamp_base_cell(W, Coord::new(-3, 5, 11));
    assert_eq!((strayed.x, strayed.y, strayed.z), (0, 5, 7));
    // The clamped base cell addresses a full window, including spill slots.
    for j in 0..27 {
        let t = stencil_target(W, strayed, j);
        assert!(t.c_index < 27);
        assert!(t.n_index < W * W * W);
    }
}

#[test]
fn wall_clamp_all_active_clamps_nothing() {
    let update_list = vec![true; 27];
    for v in 0..W as i32 {
        let c = wall_clamp(W, Coord::new(v, v, v), &update_list);
        assert!(!c.x && !c.y && !c.z);
    }
}
